//! Messages of the `neutron.contractmanager` module: failures recorded for
//! sudo calls a contract could not handle.

use vstd::prelude::*;
use crate::types::base::{PageRequest, PageResponse};

verus! {

/// The module's parameters.
#[derive(Clone, Debug, PartialEq, Eq, Structural)]
pub struct Params {}

/// One recorded sudo failure of a contract.
#[derive(Clone, Debug, PartialEq, Eq)]
pub struct Failure {
    /// The IBC channel the failure came from.
    pub channel_id: String,
    /// The address of the failed contract.
    pub address: String,
    /// Identifier of this failure, unique per address.
    pub id: u64,
    /// Identifier of the acknowledgement's IBC packet.
    pub ack_id: u64,
    /// Acknowledgement type: acknowledgement or timeout.
    pub ack_type: String,
}

/// The state the module starts from at genesis.
#[derive(Clone, Debug, PartialEq, Eq)]
pub struct GenesisState {
    pub params: Option<Params>,
    pub failures_list: Vec<Failure>,
}

/// Request of the parameters query.
#[derive(Clone, Debug, PartialEq, Eq, Structural)]
pub struct QueryParamsRequest {}

/// Response of the parameters query.
#[derive(Clone, Debug, PartialEq, Eq)]
pub struct QueryParamsResponse {
    pub params: Option<Params>,
}

/// Request of the failures query, optionally filtered by address.
#[derive(Clone, Debug, PartialEq, Eq)]
pub struct QueryFailuresRequest {
    pub address: String,
    pub pagination: Option<PageRequest>,
}

/// Response of the failures query.
#[derive(Clone, Debug, PartialEq, Eq)]
pub struct QueryFailuresResponse {
    pub failures: Vec<Failure>,
    pub pagination: Option<PageResponse>,
}

} // verus!
