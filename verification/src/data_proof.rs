//! The data proof bundle: an inclusion proof from the data-availability
//! chain merged with the relay's commitment for the same block.

use crate::config::BridgeConfig;
use crate::error::{
    classify_failure, failure_error_kind, BridgeError, ErrorKind, FailureKind, UpstreamFailure,
};
use crate::hashing::Hash256;
use crate::hex::{prefixed_hex, push_hex};
use vstd::prelude::*;
use vstd::string::StringExecFns;

verus! {

/// The inclusion proof that the data-availability chain gives for one leaf
/// of a block's data root.
#[derive(Clone, Debug, PartialEq, Eq)]
pub struct DataProof {
    pub data_root: Hash256,
    pub blob_root: Hash256,
    pub bridge_root: Hash256,
    pub proof: Vec<Hash256>,
    pub leaf_index: u32,
    pub leaf: Hash256,
}

/// The relay's commitment to a range of blocks, with the branch that leads
/// to one block's data root.
#[derive(Clone, Debug, PartialEq, Eq)]
pub struct RelayCommitment {
    pub range_hash: Hash256,
    pub data_commitment: Hash256,
    pub merkle_branch: Vec<Hash256>,
    pub index: u8,
}

/// The body of the relay's answer: each part may be missing.
#[derive(Clone, Debug, PartialEq, Eq)]
pub struct RelayResponse {
    pub data: Option<RelayCommitment>,
    pub error: Option<String>,
    pub success: Option<bool>,
}

/// Both proofs for one block, as the caller receives them.
#[derive(Clone, Debug, PartialEq, Eq)]
pub struct DataProofBundle {
    pub data_root_proof: Vec<Hash256>,
    pub leaf_proof: Vec<Hash256>,
    pub range_hash: Hash256,
    pub data_root_index: u8,
    pub leaf: Hash256,
    pub leaf_index: u32,
    pub data_root: Hash256,
    pub blob_root: Hash256,
    pub bridge_root: Hash256,
    pub data_root_commitment: Hash256,
    pub block_hash: Hash256,
}

/// The address of the relay's commitment for a block: the base address, then
/// the chain's name, the contract's chain and address, and the block hash as
/// prefixed hexadecimal text, as query parameters in this order.
pub open spec fn commitment_url(config: BridgeConfig, block_hash: Seq<u8>) -> Seq<char> {
    config.succinct_base_url@ + "?chainName="@ + config.avail_chain_name@ + "&contractChainId="@
        + config.contract_chain_id@ + "&contractAddress="@ + config.contract_address@
        + "&blockHash="@ + prefixed_hex(block_hash)
}

/// The text of the error for an answer of the relay that holds neither a
/// commitment nor a reported failure.
pub open spec fn no_data_message() -> Seq<char> {
    "Succinct API returned no data"@
}

/// The kind under which a failed inclusion-proof request is reported: an
/// error answer means that the caller named an unknown block or leaf; any
/// other failure, that the chain gave no answer.
pub open spec fn inclusion_failure_kind(kind: FailureKind) -> ErrorKind {
    match kind {
        FailureKind::ErrorResponse => ErrorKind::BadRequest,
        _ => ErrorKind::UpstreamUnavailable,
    }
}

/// Why no bundle can be made of the two answers, as kind and text, or `None`
/// where both hold what a bundle needs. A failure of the inclusion proof is
/// reported before one of the relay.
pub open spec fn bundle_failure(
    inclusion: Result<DataProof, UpstreamFailure>,
    relay: Result<RelayResponse, UpstreamFailure>,
) -> Option<(ErrorKind, Seq<char>)> {
    match inclusion {
        Err(failure) => Some((inclusion_failure_kind(failure.kind), failure.message@)),
        Ok(_) => match relay {
            Err(failure) => Some((failure_error_kind(failure.kind), failure.message@)),
            Ok(response) => if response.data is Some {
                None
            } else if response.success == Some(false) && response.error is Some {
                Some((ErrorKind::NotFound, response.error->0@))
            } else {
                Some((ErrorKind::UpstreamContractViolation, no_data_message()))
            },
        },
    }
}

/// Whether `bundle` holds exactly the fields of the two proofs and the block
/// hash, each in its place.
pub open spec fn merges(
    bundle: DataProofBundle,
    proof: DataProof,
    commitment: RelayCommitment,
    block_hash: Hash256,
) -> bool {
    &&& bundle.data_root_proof@ == commitment.merkle_branch@
    &&& bundle.leaf_proof@ == proof.proof@
    &&& bundle.range_hash == commitment.range_hash
    &&& bundle.data_root_index == commitment.index
    &&& bundle.leaf == proof.leaf
    &&& bundle.leaf_index == proof.leaf_index
    &&& bundle.data_root == proof.data_root
    &&& bundle.blob_root == proof.blob_root
    &&& bundle.bridge_root == proof.bridge_root
    &&& bundle.data_root_commitment == commitment.data_commitment
    &&& bundle.block_hash == block_hash
}

/// The address at which the relay is asked for its commitment for a block.
pub fn relay_commitment_url(config: &BridgeConfig, block_hash: &Hash256) -> (url: String)
    ensures
        url@ == commitment_url(*config, block_hash@),
{
    let mut url = String::new();
    url.append(config.succinct_base_url.as_str());
    url.append("?chainName=");
    url.append(config.avail_chain_name.as_str());
    url.append("&contractChainId=");
    url.append(config.contract_chain_id.as_str());
    url.append("&contractAddress=");
    url.append(config.contract_address.as_str());
    url.append("&blockHash=");
    proof {
        reveal_strlit("0x");
    }
    url.append("0x");
    push_hex(&mut url, block_hash.bytes.as_slice());
    assert(url@ =~= commitment_url(*config, block_hash@));
    url
}

/// Merges the two answers for one block into a bundle, or reports why there
/// is none.
///
/// A bundle is returned exactly when the inclusion proof arrived and the
/// relay's answer holds a commitment; it then holds every field of both.
/// Otherwise the first failure decides, the inclusion proof's before the
/// relay's, and whatever the other request brought is dropped. A rejected
/// inclusion-proof request is a `BadRequest`, a relay that reports failure
/// with a text is `NotFound` with that text, and a relay's answer with
/// neither is an `UpstreamContractViolation`.
pub fn get_data_proof(
    inclusion: Result<DataProof, UpstreamFailure>,
    relay: Result<RelayResponse, UpstreamFailure>,
    block_hash: Hash256,
) -> (bundle: Result<DataProofBundle, BridgeError>)
    ensures
        bundle is Ok <==> inclusion is Ok && relay is Ok && relay->Ok_0.data is Some,
        bundle is Ok <==> bundle_failure(inclusion, relay) is None,
        bundle matches Ok(b) ==> merges(b, inclusion->Ok_0, relay->Ok_0.data->0, block_hash),
        bundle matches Err(e) ==> bundle_failure(inclusion, relay) == Some((e.kind, e.message@)),
{
    let proof = match inclusion {
        Ok(proof) => proof,
        Err(failure) => {
            let kind = match failure.kind {
                FailureKind::ErrorResponse => ErrorKind::BadRequest,
                _ => ErrorKind::UpstreamUnavailable,
            };
            return Err(BridgeError { kind, message: failure.message });
        },
    };
    let response = match relay {
        Ok(response) => response,
        Err(failure) => {
            return Err(classify_failure(failure));
        },
    };
    let commitment = match response.data {
        Some(commitment) => commitment,
        None => {
            match (response.success, response.error) {
                (Some(false), Some(message)) => {
                    return Err(BridgeError { kind: ErrorKind::NotFound, message });
                },
                _ => {
                    return Err(
                        BridgeError {
                            kind: ErrorKind::UpstreamContractViolation,
                            message: String::from_str("Succinct API returned no data"),
                        },
                    );
                },
            }
        },
    };
    Ok(
        DataProofBundle {
            data_root_proof: commitment.merkle_branch,
            leaf_proof: proof.proof,
            range_hash: commitment.range_hash,
            data_root_index: commitment.index,
            leaf: proof.leaf,
            leaf_index: proof.leaf_index,
            data_root: proof.data_root,
            blob_root: proof.blob_root,
            bridge_root: proof.bridge_root,
            data_root_commitment: commitment.data_commitment,
            block_hash,
        },
    )
}

} // verus!
