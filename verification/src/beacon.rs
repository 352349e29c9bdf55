//! The beacon chain's slot lookup: from a slot to the execution block that
//! it holds.

use crate::config::BridgeConfig;
use crate::error::{
    classify_failure, failure_error_kind, BridgeError, ErrorKind, UpstreamFailure,
};
use crate::hashing::Hash256;
use crate::uint256::{decimal_digits, Uint256};
use vstd::prelude::*;
use vstd::string::StringExecFns;

verus! {

/// What the beacon API tells of a slot.
#[derive(Clone, Copy, Debug, PartialEq, Eq)]
pub struct BeaconSlot {
    pub blockroot: Hash256,
    pub exec_block_number: u32,
    pub epoch: u32,
    pub slot: u32,
    pub exec_state_root: Hash256,
}

/// The body of the beacon API's answer: its own status, and the slot's data.
#[derive(Clone, Debug, PartialEq, Eq)]
pub struct BeaconResponse {
    pub status: String,
    pub data: BeaconSlot,
}

/// The status with which the beacon API marks a valid answer.
pub const BEACON_STATUS_OK: &'static str = "OK";

/// The address of the beacon API's entry for a slot: the base address, a
/// slash, and the slot in decimal.
pub open spec fn slot_url(config: BridgeConfig, slot: nat) -> Seq<char> {
    config.beaconchain_base_url@ + "/"@ + decimal_digits(slot)
}

/// The text of the error for an answer whose status is not `OK`.
pub open spec fn slot_not_fetched_message() -> Seq<char> {
    "Cannot fetch slot data"@
}

/// What the lookup of a slot comes to: the number of the execution block, or
/// the kind and text of the failure. The API's own status decides: an answer
/// that arrived with another status than `OK` is a failure.
pub open spec fn slot_exec_block(answer: Result<BeaconResponse, UpstreamFailure>) -> Result<
    u32,
    (ErrorKind, Seq<char>),
> {
    match answer {
        Err(failure) => Err((failure_error_kind(failure.kind), failure.message@)),
        Ok(response) => if response.status@ == BEACON_STATUS_OK@ {
            Ok(response.data.exec_block_number)
        } else {
            Err((ErrorKind::UpstreamReportedError, slot_not_fetched_message()))
        },
    }
}

/// The address at which the beacon API is asked for a slot.
pub fn beacon_slot_url(config: &BridgeConfig, slot: &Uint256) -> (url: String)
    ensures
        url@ == slot_url(*config, slot@),
{
    let mut url = String::new();
    url.append(config.beaconchain_base_url.as_str());
    url.append("/");
    let digits = slot.to_decimal();
    url.append(digits.as_str());
    assert(url@ =~= slot_url(*config, slot@));
    url
}

/// Reads the execution block of a slot from the beacon API's answer.
///
/// The number is returned exactly when the request succeeded and the answer's
/// status is `OK`. Another status is reported as `UpstreamReportedError`; a
/// failed request under its usual kind, with its text.
pub fn get_slot_exec_block(answer: Result<BeaconResponse, UpstreamFailure>) -> (block: Result<
    u32,
    BridgeError,
>)
    ensures
        match block {
            Ok(number) => slot_exec_block(answer) == Ok::<u32, (ErrorKind, Seq<char>)>(number),
            Err(e) => slot_exec_block(answer) == Err::<u32, (ErrorKind, Seq<char>)>(
                (e.kind, e.message@),
            ),
        },
{
    match answer {
        Err(failure) => Err(classify_failure(failure)),
        Ok(response) => {
            let expected = String::from_str(BEACON_STATUS_OK);
            if response.status == expected {
                Ok(response.data.exec_block_number)
            } else {
                Err(
                    BridgeError {
                        kind: ErrorKind::UpstreamReportedError,
                        message: String::from_str("Cannot fetch slot data"),
                    },
                )
            }
        },
    }
}

} // verus!
