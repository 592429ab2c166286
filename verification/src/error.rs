//! The error taxonomy of the harness.
//!
//! Encode errors are local failures turning values into bytes; decode errors
//! are failures reading bytes back, each naming the decode step that failed;
//! query and execute errors carry, verbatim, the failure string the bridge
//! reported.  No error is ever retried or silently replaced by a default.

use vstd::prelude::*;

verus! {

/// A failure to turn bytes back into a value, by decode step.
#[derive(Debug)]
pub enum DecodeError {
    Utf8Error(String),
    ProtoDecodeError(String),
    JsonDecodeError(String),
    Base64DecodeError(String),
    SigningKeyDecodeError { msg: String },
}

/// A failure to turn a value into bytes.
#[derive(Debug)]
pub enum EncodeError {
    ProtoEncodeError(String),
    JsonEncodeError(String),
}

/// The single error type the harness surfaces to its callers.
#[derive(Debug)]
pub enum RunnerError {
    EncodeError(EncodeError),
    DecodeError(DecodeError),
    QueryError { msg: String },
    ExecuteError { msg: String },
}

/// What equality of two decode errors means: same step, same message.
pub open spec fn decode_error_eq(a: DecodeError, b: DecodeError) -> bool {
    match (a, b) {
        (DecodeError::Utf8Error(x), DecodeError::Utf8Error(y)) => x@ == y@,
        (DecodeError::ProtoDecodeError(x), DecodeError::ProtoDecodeError(y)) => x@ == y@,
        (DecodeError::JsonDecodeError(x), DecodeError::JsonDecodeError(y)) => x@ == y@,
        (DecodeError::Base64DecodeError(x), DecodeError::Base64DecodeError(y)) => x@ == y@,
        (
            DecodeError::SigningKeyDecodeError { msg: x },
            DecodeError::SigningKeyDecodeError { msg: y },
        ) => x@ == y@,
        _ => false,
    }
}

/// What equality of two encode errors means.
pub open spec fn encode_error_eq(a: EncodeError, b: EncodeError) -> bool {
    match (a, b) {
        (EncodeError::ProtoEncodeError(x), EncodeError::ProtoEncodeError(y)) => x@ == y@,
        (EncodeError::JsonEncodeError(x), EncodeError::JsonEncodeError(y)) => x@ == y@,
        _ => false,
    }
}

/// What equality of two runner errors means.
pub open spec fn runner_error_eq(a: RunnerError, b: RunnerError) -> bool {
    match (a, b) {
        (RunnerError::EncodeError(x), RunnerError::EncodeError(y)) => encode_error_eq(x, y),
        (RunnerError::DecodeError(x), RunnerError::DecodeError(y)) => decode_error_eq(x, y),
        (RunnerError::QueryError { msg: x }, RunnerError::QueryError { msg: y }) => x@ == y@,
        (RunnerError::ExecuteError { msg: x }, RunnerError::ExecuteError { msg: y }) => x@ == y@,
        _ => false,
    }
}

impl PartialEq for DecodeError {
    fn eq(&self, other: &Self) -> (r: bool) {
        match (self, other) {
            (DecodeError::Utf8Error(x), DecodeError::Utf8Error(y)) => *x == *y,
            (DecodeError::ProtoDecodeError(x), DecodeError::ProtoDecodeError(y)) => *x == *y,
            (DecodeError::JsonDecodeError(x), DecodeError::JsonDecodeError(y)) => *x == *y,
            (DecodeError::Base64DecodeError(x), DecodeError::Base64DecodeError(y)) => *x == *y,
            (
                DecodeError::SigningKeyDecodeError { msg: x },
                DecodeError::SigningKeyDecodeError { msg: y },
            ) => *x == *y,
            _ => false,
        }
    }
}

impl vstd::std_specs::cmp::PartialEqSpecImpl for DecodeError {
    open spec fn obeys_eq_spec() -> bool {
        true
    }

    open spec fn eq_spec(&self, other: &Self) -> bool {
        decode_error_eq(*self, *other)
    }
}

impl PartialEq for EncodeError {
    fn eq(&self, other: &Self) -> (r: bool) {
        match (self, other) {
            (EncodeError::ProtoEncodeError(x), EncodeError::ProtoEncodeError(y)) => *x == *y,
            (EncodeError::JsonEncodeError(x), EncodeError::JsonEncodeError(y)) => *x == *y,
            _ => false,
        }
    }
}

impl vstd::std_specs::cmp::PartialEqSpecImpl for EncodeError {
    open spec fn obeys_eq_spec() -> bool {
        true
    }

    open spec fn eq_spec(&self, other: &Self) -> bool {
        encode_error_eq(*self, *other)
    }
}

impl PartialEq for RunnerError {
    fn eq(&self, other: &Self) -> (r: bool) {
        match (self, other) {
            (RunnerError::EncodeError(x), RunnerError::EncodeError(y)) => *x == *y,
            (RunnerError::DecodeError(x), RunnerError::DecodeError(y)) => *x == *y,
            (RunnerError::QueryError { msg: x }, RunnerError::QueryError { msg: y }) => *x == *y,
            (RunnerError::ExecuteError { msg: x }, RunnerError::ExecuteError { msg: y }) => *x == *y,
            _ => false,
        }
    }
}

impl vstd::std_specs::cmp::PartialEqSpecImpl for RunnerError {
    open spec fn obeys_eq_spec() -> bool {
        true
    }

    open spec fn eq_spec(&self, other: &Self) -> bool {
        runner_error_eq(*self, *other)
    }
}

} // verus!
