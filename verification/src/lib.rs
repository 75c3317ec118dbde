//! Verified core of a client library for a derivatives-trading venue.
//!
//! The venue's HTTP API returns monetary quantities either as raw scaled
//! integers or as decimal values with inconsistent implicit precision. This
//! crate normalizes every such value into an exact fixed-point decimal whose
//! scale equals the precision of its currency, converts the domain records
//! field by field, folds transactions into per-currency balances, and merges
//! the results of a concurrent multi-key ticker fetch with all-or-nothing
//! error semantics. The unverified transport layer lives outside this crate
//! and hands it plain values.

use vstd::prelude::*;

pub mod balance;
pub mod batch;
pub mod contract;
pub mod convert;
pub mod currency;
pub mod decimal;
pub mod listing;
pub mod positions;
pub mod trade;
pub mod transaction;

verus! {

/// Errors surfaced by normalization, conversion, aggregation and batch
/// collection. Transport and deserialization failures are produced by the
/// unverified fetch layer and carried here as plain text.
#[derive(Debug, Clone, PartialEq, Eq)]
pub enum FTXDerivativesError {
    /// Network or HTTP failure, reported by the transport layer.
    ReqwestError { message: String },
    /// Malformed or unexpected JSON; keeps the raw body for diagnosis.
    JSONError { message: String, body: String },
    /// A value cannot be represented at the requested scale (for example,
    /// the widened mantissa would not fit in 96 bits, or the scale exceeds
    /// the largest supported one).
    DecimalError,
    /// A narrowing rescale would discard nonzero digits.
    PrecisionLoss,
    /// Currency code absent from the precision table.
    UnknownCurrency { currency: String },
}

} // verus!
