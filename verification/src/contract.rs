//! Tradable instruments and their tickers.
//!
//! Timestamps are carried as milliseconds since the Unix epoch; the
//! unverified edge converts wall-clock values to and from this form. The
//! conversion layer never reads them, it only passes them through.

use vstd::prelude::*;

use crate::decimal::RawAmount;

verus! {

/// Whether an options contract is a call or a put.
#[derive(Debug, Clone, Copy, PartialEq, Eq, Structural)]
pub enum OptionType {
    Call,
    Put,
}

/// An immutable description of a tradable instrument. Only the options
/// variant carries a monetary field (the strike price); a day-ahead swap
/// passes through conversion unchanged.
#[derive(Debug, Clone, PartialEq, Eq)]
pub enum Contract {
    DayAheadSwap {
        id: u64,
        name: Option<String>,
        min_increment: u32,
        date_live: i64,
        date_expires: i64,
        date_exercise: i64,
        open_interest: u64,
        multiplier: RawAmount,
        label: String,
        active: bool,
        is_next_day: bool,
        underlying_asset: String,
        collateral_asset: String,
    },
    OptionContract {
        id: u64,
        name: Option<String>,
        is_call: bool,
        strike_price: RawAmount,
        min_increment: u32,
        date_live: i64,
        date_expires: i64,
        date_exercise: i64,
        open_interest: u64,
        multiplier: RawAmount,
        label: String,
        active: bool,
        underlying_asset: String,
        collateral_asset: String,
        option_type: OptionType,
    },
}

impl Contract {
    /// Every monetary field is representable.
    pub open spec fn wf(self) -> bool {
        match self {
            Contract::DayAheadSwap { multiplier, .. } => multiplier.wf(),
            Contract::OptionContract { strike_price, multiplier, .. } => strike_price.wf()
                && multiplier.wf(),
        }
    }
}

/// Envelope of the single-contract ticker endpoint.
#[derive(Debug, Clone, PartialEq, Eq)]
pub struct ContractTickerResult {
    pub data: ContractTicker,
}

/// One ticker snapshot for one contract.
#[derive(Debug, Clone, PartialEq, Eq)]
pub struct ContractTicker {
    pub ask: RawAmount,
    pub bid: RawAmount,
    pub volume_24h: u32,
    pub last_trade: Option<ContractTickerLastTrade>,
    pub time: i64,
}

impl ContractTicker {
    pub open spec fn wf(self) -> bool {
        &&& self.ask.wf()
        &&& self.bid.wf()
        &&& match self.last_trade {
            Some(t) => t.price.wf(),
            None => true,
        }
    }
}

/// The most recent execution shown on a ticker, if any.
#[derive(Debug, Clone, PartialEq, Eq)]
pub struct ContractTickerLastTrade {
    pub id: u64,
    pub price: RawAmount,
    pub size: u32,
    pub time: i64,
}

} // verus!
