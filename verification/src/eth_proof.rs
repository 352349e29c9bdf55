//! The Ethereum proof bundle: the account proof of the bridge contract with
//! the storage proof of one message's slot.

use crate::error::{unavailable, BridgeError, ErrorKind, UpstreamFailure};
use crate::hex::{encode_prefixed_hex, prefixed_hex};
use crate::storage_key::{derive_mapping_slot_key, mapping_slot_key};
use crate::uint256::Uint256;
use vstd::prelude::*;

verus! {

/// The contract whose storage is proved. It is fixed, and is not the
/// configured bridge contract.
pub const PROVED_CONTRACT_ADDRESS: &'static str = "0x8F8d47bF15953E26c622F36F3366e43e26B9b78b";

/// The slot at which the contract declares its mapping of messages.
pub const MESSAGES_MAPPING_SLOT: u64 = 1;

/// The block at which the proof is asked for: irreversible state only.
pub const PROVED_BLOCK_TAG: &'static str = "finalized";

/// The proof of one storage slot: trie nodes from the storage root down.
#[derive(Clone, Debug, PartialEq, Eq)]
pub struct StorageProof {
    pub proof: Vec<String>,
}

/// What the Ethereum client answers to a proof request: the account proof,
/// and one storage proof per slot asked for.
#[derive(Clone, Debug, PartialEq, Eq)]
pub struct AccountStorageProof {
    pub account_proof: Vec<String>,
    pub storage_proof: Vec<StorageProof>,
}

/// The account proof with the storage proof of the one slot asked for.
#[derive(Clone, Debug, PartialEq, Eq)]
pub struct EthProofBundle {
    pub account_proof: Vec<String>,
    pub storage_proof: Vec<String>,
}

/// The parameters of a proof request to the Ethereum client.
#[derive(Clone, Debug, PartialEq, Eq)]
pub struct EthProofRequest {
    pub address: String,
    pub storage_keys: Vec<String>,
    pub block_tag: String,
}

/// The text of the error for an answer without any storage proof.
pub open spec fn no_storage_proof_message() -> Seq<char> {
    "Ethereum client returned no storage proof"@
}

/// The proof request for a message: the fixed contract, the one slot that
/// holds the message in the contract's mapping, and the finalized block.
pub fn eth_proof_request(message_id: &Uint256) -> (request: EthProofRequest)
    ensures
        request.address@ == PROVED_CONTRACT_ADDRESS@,
        request.storage_keys@.len() == 1,
        request.storage_keys@[0]@ == prefixed_hex(
            mapping_slot_key(message_id@, MESSAGES_MAPPING_SLOT as nat),
        ),
        request.block_tag@ == PROVED_BLOCK_TAG@,
{
    let slot = Uint256::from_u64(MESSAGES_MAPPING_SLOT);
    let slot_key = derive_mapping_slot_key(message_id, &slot);
    let mut storage_keys: Vec<String> = Vec::new();
    storage_keys.push(encode_prefixed_hex(slot_key.bytes.as_slice()));
    EthProofRequest {
        address: String::from_str(PROVED_CONTRACT_ADDRESS),
        storage_keys,
        block_tag: String::from_str(PROVED_BLOCK_TAG),
    }
}

/// Makes the bundle of the Ethereum client's answer, or reports why there is
/// none.
///
/// A bundle is returned exactly when the request succeeded and the answer
/// holds at least one storage proof: the bundle holds the first, and any
/// further ones are dropped. A failed request is reported as
/// `UpstreamUnavailable` with its text; an answer without a storage proof as
/// `UpstreamContractViolation`.
pub fn get_eth_proof(answer: Result<AccountStorageProof, UpstreamFailure>) -> (bundle: Result<
    EthProofBundle,
    BridgeError,
>)
    ensures
        bundle is Ok <==> answer is Ok && answer->Ok_0.storage_proof@.len() > 0,
        bundle matches Ok(b) ==> b.account_proof@ == answer->Ok_0.account_proof@
            && b.storage_proof@ == answer->Ok_0.storage_proof@[0].proof@,
        bundle matches Err(e) ==> match answer {
            Err(failure) => e.reports(ErrorKind::UpstreamUnavailable, failure.message@),
            Ok(_) => e.reports(ErrorKind::UpstreamContractViolation, no_storage_proof_message()),
        },
{
    match answer {
        Err(failure) => Err(unavailable(failure)),
        Ok(proofs) => {
            let mut storage_proof = proofs.storage_proof;
            if storage_proof.len() == 0 {
                return Err(
                    BridgeError {
                        kind: ErrorKind::UpstreamContractViolation,
                        message: String::from_str("Ethereum client returned no storage proof"),
                    },
                );
            }
            let first = storage_proof.swap_remove(0);
            Ok(EthProofBundle { account_proof: proofs.account_proof, storage_proof: first.proof })
        },
    }
}

} // verus!
