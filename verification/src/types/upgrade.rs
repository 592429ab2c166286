//! Messages of the `cosmos.upgrade.v1beta1` module.

use vstd::prelude::*;
use crate::types::shim::{Any, Timestamp};

verus! {

/// A planned software upgrade.
#[derive(Clone, Debug, PartialEq, Eq)]
pub struct Plan {
    pub name: String,
    pub time: Option<Timestamp>,
    pub height: i64,
    pub info: String,
    pub upgraded_client_state: Option<Any>,
}

/// A governance proposal to perform a software upgrade.
#[derive(Clone, Debug, PartialEq, Eq)]
pub struct SoftwareUpgradeProposal {
    pub title: String,
    pub description: String,
    pub plan: Option<Plan>,
}

/// A governance proposal to cancel a planned software upgrade.
#[derive(Clone, Debug, PartialEq, Eq)]
pub struct CancelSoftwareUpgradeProposal {
    pub title: String,
    pub description: String,
}

/// The consensus version of one application module.
#[derive(Clone, Debug, PartialEq, Eq)]
pub struct ModuleVersion {
    pub name: String,
    pub version: u64,
}

} // verus!
