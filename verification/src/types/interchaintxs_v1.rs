//! Transaction messages of the `neutron.interchaintxs.v1` module.

use vstd::prelude::*;
use crate::types::feerefunder;
use crate::types::shim::Any;

verus! {

/// Registers an interchain account on a remote chain.
#[derive(Clone, Debug, PartialEq, Eq)]
pub struct MsgRegisterInterchainAccount {
    pub from_address: String,
    pub connection_id: String,
    pub interchain_account_id: String,
}

#[derive(Clone, Debug, PartialEq, Eq, Structural)]
pub struct MsgRegisterInterchainAccountResponse {}

/// Submits messages for execution through an interchain account.
#[derive(Clone, Debug, PartialEq, Eq)]
pub struct MsgSubmitTx {
    pub from_address: String,
    /// Identifier the owner registered the account under.
    pub interchain_account_id: String,
    pub connection_id: String,
    /// The messages to execute remotely, in order.
    pub msgs: Vec<Any>,
    pub memo: String,
    /// Timeout in seconds after which the packet times out.
    pub timeout: u64,
    pub fee: Option<feerefunder::Fee>,
}

/// Response of a submit-tx message.
#[derive(Clone, Debug, PartialEq, Eq)]
pub struct MsgSubmitTxResponse {
    /// The channel's outgoing sequence the message was sent under.
    pub sequence_id: u64,
    /// The channel the message was sent over.
    pub channel: String,
}

} // verus!
