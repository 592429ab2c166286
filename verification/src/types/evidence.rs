//! Messages of the `cosmos.evidence.v1beta1` module.

use vstd::prelude::*;
use crate::types::shim::Timestamp;

verus! {

/// Evidence of a validator signing two blocks at the same height.
#[derive(Clone, Debug, PartialEq, Eq)]
pub struct Equivocation {
    pub height: i64,
    pub time: Option<Timestamp>,
    pub power: i64,
    pub consensus_address: String,
}

} // verus!
