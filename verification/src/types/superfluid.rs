//! Proposal messages of the `osmosis.superfluid.v1beta1` module.

use vstd::prelude::*;

verus! {

/// One asset accepted for superfluid staking.
#[derive(Clone, Debug, PartialEq, Eq)]
pub struct SuperfluidAsset {
    pub denom: String,
    /// The asset's type, as the module's asset-type enumeration numbers it.
    pub asset_type: i32,
}

/// A governance proposal to accept assets for superfluid staking.
#[derive(Clone, Debug, PartialEq, Eq)]
pub struct SetSuperfluidAssetsProposal {
    pub title: String,
    pub description: String,
    pub assets: Vec<SuperfluidAsset>,
}

/// A governance proposal to remove assets from superfluid staking.
#[derive(Clone, Debug, PartialEq, Eq)]
pub struct RemoveSuperfluidAssetsProposal {
    pub title: String,
    pub description: String,
    pub superfluid_asset_denoms: Vec<String>,
}

} // verus!
