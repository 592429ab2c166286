//! Messages of the `neutron.interchaintxs` module.

use vstd::prelude::*;

verus! {

/// The module's parameters.
#[derive(Clone, Debug, PartialEq, Eq, Structural)]
pub struct Params {
    /// Maximum number of messages one submit-tx message may carry.
    pub msg_submit_tx_max_messages: u64,
}

/// The state the module starts from at genesis.
#[derive(Clone, Debug, PartialEq, Eq)]
pub struct GenesisState {
    pub params: Option<Params>,
}

/// Request of the parameters query.
#[derive(Clone, Debug, PartialEq, Eq, Structural)]
pub struct QueryParamsRequest {}

/// Response of the parameters query.
#[derive(Clone, Debug, PartialEq, Eq)]
pub struct QueryParamsResponse {
    pub params: Option<Params>,
}

/// Request of the interchain-account address query.
#[derive(Clone, Debug, PartialEq, Eq)]
pub struct QueryInterchainAccountAddressRequest {
    /// Owner address of the interchain account.
    pub owner_address: String,
    /// Identifier the owner registered the account under.
    pub interchain_account_id: String,
    /// The IBC connection the account lives on.
    pub connection_id: String,
}

/// Response of the interchain-account address query.
#[derive(Clone, Debug, PartialEq, Eq)]
pub struct QueryInterchainAccountAddressResponse {
    pub interchain_account_address: String,
}

} // verus!
