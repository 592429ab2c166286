//! The narrow interface to the embedded chain simulator.
//!
//! The harness never performs a foreign call itself: it hands the embedding
//! program a [`BridgeRequest`], and is stepped forward with the
//! [`BridgeResponse`] the simulator produced.  A raw result carries either
//! response bytes or the simulator's failure string; turning a failure
//! string into a typed error is a pure, loss-free mapping — an error
//! outcome can never be mistaken for a successful decode.

use vstd::prelude::*;
use crate::error::RunnerError;

verus! {

/// One primitive operation of the simulator bridge.  Byte payloads are
/// already encoded as the text the foreign boundary accepts: JSON for coin
/// lists, base64 for protobuf payloads.
pub enum BridgeRequest {
    BeginBlock,
    EndBlock,
    /// Create and fund an account; answered with base64 private key text.
    InitAccount { coins_json: Vec<u8> },
    /// Read an account's current sequence number; answered with a number.
    AccountSequence { address: String },
    /// Read an account's account number; answered with a number.
    AccountNumber { address: String },
    /// Simulate a zero-fee signed transaction; answered with a raw result.
    Simulate { tx_base64: String },
    /// Deliver an encoded transaction request; answered with a raw result.
    Execute { request_base64: String },
    /// Run a typed query at a path; answered with a raw result.
    Query { path: String, request_base64: String },
    /// Advance the chain's clock.
    IncreaseTime { seconds: u64 },
    /// Allow an address to force-unlock.
    WhitelistAddressForForceUnlock { address: String },
}

/// What the simulator answered to the matching request.
pub enum BridgeResponse {
    /// The operation completed and returns nothing.
    Done,
    /// An integer answer (sequence or account number).
    Number(u64),
    /// A text answer (base64 private key material).
    Text(String),
    /// A raw result envelope.
    Raw(RawOutcome),
}

/// The bridge's response envelope: exactly one of success bytes or an error
/// string is populated.
pub enum RawOutcome {
    Bytes(Vec<u8>),
    Error(String),
}

/// Converts a raw query outcome into the harness's result type.  Success
/// bytes pass through untouched; a failure string becomes a query error
/// carrying the string verbatim, never a successful value.
pub fn raw_query_result(raw: RawOutcome) -> (r: Result<Vec<u8>, RunnerError>)
    ensures
        r matches Ok(v) ==> raw == RawOutcome::Bytes(v),
        r matches Err(e) ==> raw matches RawOutcome::Error(m) && e == (RunnerError::QueryError {
            msg: m,
        }),
{
    match raw {
        RawOutcome::Bytes(v) => Ok(v),
        RawOutcome::Error(msg) => Err(RunnerError::QueryError { msg }),
    }
}

/// Converts a raw delivery or simulation outcome; as `raw_query_result`,
/// with the failure surfaced as an execute error.
pub fn raw_execute_result(raw: RawOutcome) -> (r: Result<Vec<u8>, RunnerError>)
    ensures
        r matches Ok(v) ==> raw == RawOutcome::Bytes(v),
        r matches Err(e) ==> raw matches RawOutcome::Error(m) && e == (RunnerError::ExecuteError {
            msg: m,
        }),
{
    match raw {
        RawOutcome::Bytes(v) => Ok(v),
        RawOutcome::Error(msg) => Err(RunnerError::ExecuteError { msg }),
    }
}

/// The base64 text `base64::encode` produces for a byte string.
pub uninterp spec fn base64_of(bytes: Seq<u8>) -> Seq<char>;

/// What `base64::decode` reads back from a text, where it accepts it.
pub uninterp spec fn base64_decoded(text: Seq<char>) -> Option<Seq<u8>>;

/// Relies on `base64::encode` (standard alphabet, padded); decoding the
/// encoding gives the bytes back, as the crate documents.
#[verifier::external_body]
pub(crate) fn base64_encode(bytes: &Vec<u8>) -> (r: String)
    ensures
        r@ == base64_of(bytes@),
        base64_decoded(r@) == Some(bytes@),
{
    base64::encode(bytes)
}

/// Relies on `base64::decode`: accepts exactly the texts that are valid
/// standard-alphabet base64.
#[verifier::external_body]
pub(crate) fn base64_decode(text: &str) -> (r: Result<Vec<u8>, String>)
    ensures
        r matches Ok(v) ==> base64_decoded(text@) == Some(v@),
        r is Ok <==> base64_decoded(text@) is Some,
{
    match base64::decode(text) {
        Ok(v) => Ok(v),
        Err(e) => Err(e.to_string()),
    }
}

} // verus!
