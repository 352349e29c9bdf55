//! The range of blocks that the bridge contract attests to.

use crate::config::BridgeConfig;
use crate::error::{
    classify_failure, failure_error_kind, BridgeError, UpstreamFailure,
};
use vstd::prelude::*;
use vstd::string::StringExecFns;

verus! {

/// The first and the last block of the data-availability chain that the
/// contract currently attests to.
#[derive(Clone, Copy, Debug, PartialEq, Eq)]
pub struct BlockRange {
    pub start: u32,
    pub end: u32,
}

/// The address of the relay's range entry for the contract: the base
/// address, `/range/`, and the contract's chain and address as query
/// parameters.
pub open spec fn range_url(config: BridgeConfig) -> Seq<char> {
    config.succinct_base_url@ + "/range/?contractChainId="@ + config.contract_chain_id@
        + "&contractAddress="@ + config.contract_address@
}

/// The address at which the relay is asked for the attested range.
pub fn attested_range_url(config: &BridgeConfig) -> (url: String)
    ensures
        url@ == range_url(*config),
{
    let mut url = String::new();
    url.append(config.succinct_base_url.as_str());
    url.append("/range/?contractChainId=");
    url.append(config.contract_chain_id.as_str());
    url.append("&contractAddress=");
    url.append(config.contract_address.as_str());
    assert(url@ =~= range_url(*config));
    url
}

/// Reads the attested range from the relay's answer: the range as it came,
/// or the failed request under its usual kind, with its text.
pub fn get_attested_range(answer: Result<BlockRange, UpstreamFailure>) -> (range: Result<
    BlockRange,
    BridgeError,
>)
    ensures
        range is Ok <==> answer is Ok,
        range matches Ok(r) ==> r == answer->Ok_0,
        range matches Err(e) ==> e.reports(
            failure_error_kind(answer->Err_0.kind),
            answer->Err_0.message@,
        ),
{
    match answer {
        Ok(range) => Ok(range),
        Err(failure) => Err(classify_failure(failure)),
    }
}

} // verus!
