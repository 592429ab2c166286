//! Fee type of the `neutron.feerefunder` module.

use vstd::prelude::*;
use crate::types::base::ProtoCoin;

verus! {

/// The fees paid for relaying an interchain transaction's packets.
#[derive(Clone, Debug, PartialEq, Eq)]
pub struct Fee {
    pub recv_fee: Vec<ProtoCoin>,
    pub ack_fee: Vec<ProtoCoin>,
    pub timeout_fee: Vec<ProtoCoin>,
}

} // verus!
