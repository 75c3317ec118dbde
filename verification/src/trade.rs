//! Execution records. Their monetary fields are USD-denominated.

use vstd::prelude::*;

use crate::decimal::RawAmount;

verus! {

/// How the order behind a trade was placed.
#[derive(Debug, Clone, Copy, PartialEq, Eq, Structural)]
pub enum OrderType {
    CustomerLimitOrder,
}

/// Side of the book the trade hit.
#[derive(Debug, Clone, Copy, PartialEq, Eq, Structural)]
pub enum TradeSide {
    Bid,
    Ask,
}

/// One execution: price, size, and the fees around it.
#[derive(Debug, Clone, PartialEq, Eq)]
pub struct Trade {
    pub id: u64,
    pub contract_id: String,
    pub contract_label: String,
    pub filled_price: RawAmount,
    pub filled_size: u32,
    pub fee: RawAmount,
    pub rebate: RawAmount,
    pub premium: RawAmount,
    pub created: i64,
    pub order_type: OrderType,
    pub order_id: String,
    pub state: Option<String>,
    pub status_type: String,
    pub side: TradeSide,
    pub execution_time: i64,
}

impl Trade {
    pub open spec fn wf(self) -> bool {
        &&& self.filled_price.wf()
        &&& self.fee.wf()
        &&& self.rebate.wf()
        &&& self.premium.wf()
    }
}

} // verus!
