//! Typed delivery results.
//!
//! A delivered transaction's outcome, as decoded from the simulator's
//! response: result code, raw result bytes, logs, the gas bought and
//! spent, and the events the execution emitted.  Callers that expect a
//! typed message decode `data` themselves.

use vstd::prelude::*;
use crate::error::RunnerError;

verus! {

/// Every fallible harness operation resolves to a value or the harness's
/// single error type.
pub type RunnerResult<T> = Result<T, RunnerError>;

/// One attribute of an execution event.
#[derive(Debug, PartialEq, Eq)]
pub struct TxAttribute {
    pub key: String,
    pub value: String,
}

/// One event emitted while a transaction executed.
#[derive(Debug, PartialEq, Eq)]
pub struct TxEvent {
    pub kind: String,
    pub attributes: Vec<TxAttribute>,
}

/// The decoded outcome of a delivered transaction.
#[derive(Debug, PartialEq, Eq)]
pub struct DeliverTxResult {
    pub code: u32,
    pub data: Vec<u8>,
    pub log: String,
    pub info: String,
    pub gas_wanted: i64,
    pub gas_used: i64,
    pub events: Vec<TxEvent>,
    pub codespace: String,
}

} // verus!
