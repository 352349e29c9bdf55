//! What the bridge is configured with.

use vstd::prelude::*;

verus! {

/// Where the upstream services are, and which contract the bridge serves.
/// It is built once and read by every request.
#[derive(Clone, Debug, PartialEq, Eq)]
pub struct BridgeConfig {
    /// The base address of the relay's API.
    pub succinct_base_url: String,
    /// The base address of the beacon chain's slot API.
    pub beaconchain_base_url: String,
    /// The name of the data-availability chain at the relay.
    pub avail_chain_name: String,
    /// The identifier of the chain that holds the bridge contract.
    pub contract_chain_id: String,
    /// The address of the bridge contract.
    pub contract_address: String,
}

} // verus!
