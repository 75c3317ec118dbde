//! Envelope of the venue's list endpoints: a `meta` block beside the data.
//!
//! Only the data is surfaced to callers; pagination is not implemented, so a
//! single page (capped at the requested limit) is all a fetch ever yields.

use vstd::prelude::*;

verus! {

/// The `meta` block a list endpoint wraps around its payload.
#[derive(Debug, Clone, PartialEq, Eq)]
pub struct ListMetaResult {
    pub total_count: u32,
    pub next: Option<String>,
    pub previous: Option<String>,
    pub limit: u32,
    pub offset: u32,
}

/// A single page of a list endpoint: metadata plus the payload.
#[derive(Debug, Clone, PartialEq, Eq)]
pub struct ListResult<T> {
    pub meta: ListMetaResult,
    pub data: T,
}

} // verus!
