//! Ledger entries. A transaction is tagged with its own currency code, and
//! that code — not a fixed constant — decides the precision its monetary
//! fields are normalized to.

use vstd::prelude::*;

use crate::decimal::RawAmount;

verus! {

/// What kind of ledger movement a transaction records.
#[derive(Debug, Clone, Copy, PartialEq, Eq, Structural)]
pub enum TransactionType {
    FeeTransaction,
    PositionLockTransaction,
    ReleasePositionLockTransaction,
    PremiumTransaction,
    DepositTransaction,
    WithdrawalTransaction,
    WithdrawalLockTransaction,
    SettlementLockTransaction,
    ReleaseSettlementLockTransaction,
}

/// Lifecycle state of a transaction.
#[derive(Debug, Clone, Copy, PartialEq, Eq, Structural)]
pub enum TransactionState {
    Pending,
    Cached,
    Executed,
    Failed,
}

/// One ledger entry. `amount`, the four balance snapshots and `net_change`
/// are monetary; everything else passes through conversion unchanged.
#[derive(Debug, Clone, PartialEq, Eq)]
pub struct Transaction {
    pub id: u64,
    pub created: i64,
    pub last_updated: i64,
    pub transaction_type: TransactionType,
    pub amount: RawAmount,
    pub debit_account_field_name: String,
    pub credit_account_field_name: String,
    pub settlement_id: Option<u64>,
    pub state: TransactionState,
    pub deposit_notice_id: Option<u64>,
    pub trade_id: Option<u64>,
    pub group_id: Option<String>,
    pub asset: String,
    pub debit_pre_balance: Option<RawAmount>,
    pub debit_post_balance: Option<RawAmount>,
    pub credit_pre_balance: Option<RawAmount>,
    pub credit_post_balance: Option<RawAmount>,
    pub debit_participant_name: Option<String>,
    pub credit_participant_name: Option<String>,
    pub net_change: RawAmount,
}

impl Transaction {
    pub open spec fn wf(self) -> bool {
        &&& self.amount.wf()
        &&& match self.debit_pre_balance {
            Some(a) => a.wf(),
            None => true,
        }
        &&& match self.debit_post_balance {
            Some(a) => a.wf(),
            None => true,
        }
        &&& match self.credit_pre_balance {
            Some(a) => a.wf(),
            None => true,
        }
        &&& match self.credit_post_balance {
            Some(a) => a.wf(),
            None => true,
        }
        &&& self.net_change.wf()
    }
}

} // verus!
