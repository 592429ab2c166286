//! Shared base types of the cosmos modules: coins with textual amounts and
//! query pagination.

use vstd::prelude::*;

verus! {

/// A coin as the chain modules carry it: the amount is decimal text.
#[derive(Clone, Debug, PartialEq, Eq)]
pub struct ProtoCoin {
    pub denom: String,
    pub amount: String,
}

/// Pagination parameters of a list query.
#[derive(Clone, Debug, PartialEq, Eq)]
pub struct PageRequest {
    pub key: Vec<u8>,
    pub offset: u64,
    pub limit: u64,
    pub count_total: bool,
    pub reverse: bool,
}

/// Pagination data of a list response.
#[derive(Clone, Debug, PartialEq, Eq)]
pub struct PageResponse {
    pub next_key: Vec<u8>,
    pub total: u64,
}

} // verus!
