//! Record conversion: every monetary field of a domain record is normalized
//! to the precision its currency dictates, and every other field passes
//! through unchanged. Conversion fails fast on the first field that cannot
//! be normalized and never returns a partially converted record.
//!
//! Strike prices, ticker quotes and trade fees are USD-denominated
//! regardless of the settlement asset, so they use the fixed [`USD_SCALE`].
//! A transaction's fields are the one place where the record's own currency
//! code drives the target scale, through the precision table.

use vstd::prelude::*;

use crate::FTXDerivativesError;
use crate::contract::{Contract, ContractTicker, ContractTickerLastTrade};
use crate::currency::{spec_lookup, PrecisionTable};
use crate::decimal::{normalize, spec_normalize, RawAmount};
use crate::positions::Position;
use crate::trade::Trade;
use crate::transaction::Transaction;

verus! {

/// Fractional digits of USD-denominated fields (strike prices, ticker
/// quotes, trade prices and fees).
pub const USD_SCALE: u32 = 2;

/// What rescaling one wire amount returns: the normalized value carried
/// back in wire form, or the first error.
pub open spec fn spec_rescale_number(amount: RawAmount, num_decimals: u32) -> Result<
    RawAmount,
    FTXDerivativesError,
> {
    match spec_normalize(amount, num_decimals) {
        Ok(n) => Ok(RawAmount::Decimal(n)),
        Err(e) => Err(e),
    }
}

/// Rescales one amount to exactly `num_decimals` fractional digits.
pub fn rescale_number(amount: RawAmount, num_decimals: u32) -> (r: Result<
    RawAmount,
    FTXDerivativesError,
>)
    requires
        amount.wf(),
    ensures
        r == spec_rescale_number(amount, num_decimals),
        r matches Ok(a) ==> a.wf(),
{
    match normalize(amount, num_decimals) {
        Ok(n) => Ok(RawAmount::Decimal(n)),
        Err(e) => Err(e),
    }
}

/// Optional amounts normalize to optional amounts, threading `None` through
/// unchanged.
pub open spec fn spec_rescale_opt(orig: Option<RawAmount>, num_decimals: u32) -> Result<
    Option<RawAmount>,
    FTXDerivativesError,
> {
    match orig {
        Some(o) => match spec_rescale_number(o, num_decimals) {
            Ok(a) => Ok(Some(a)),
            Err(e) => Err(e),
        },
        None => Ok(None),
    }
}

/// Rescales an optional amount, passing `None` through unchanged.
pub fn rescale_opt(orig: Option<RawAmount>, num_decimals: u32) -> (r: Result<
    Option<RawAmount>,
    FTXDerivativesError,
>)
    requires
        match orig {
            Some(o) => o.wf(),
            None => true,
        },
    ensures
        r == spec_rescale_opt(orig, num_decimals),
        r matches Ok(a) ==> match a {
            Some(x) => x.wf(),
            None => true,
        },
{
    match orig {
        Some(o) => match rescale_number(o, num_decimals) {
            Ok(a) => Ok(Some(a)),
            Err(e) => Err(e),
        },
        None => Ok(None),
    }
}

/// What converting a contract returns: an options contract has its strike
/// price normalized to the USD scale, every other variant is unchanged.
pub open spec fn spec_convert_contract(contract: Contract) -> Result<
    Contract,
    FTXDerivativesError,
> {
    match contract {
        Contract::OptionContract {
            id,
            name,
            is_call,
            strike_price,
            min_increment,
            date_live,
            date_expires,
            date_exercise,
            open_interest,
            multiplier,
            label,
            active,
            underlying_asset,
            collateral_asset,
            option_type,
        } => match spec_rescale_number(strike_price, USD_SCALE) {
            Err(e) => Err(e),
            Ok(sp) => Ok(
                Contract::OptionContract {
                    id,
                    name,
                    is_call,
                    strike_price: sp,
                    min_increment,
                    date_live,
                    date_expires,
                    date_exercise,
                    open_interest,
                    multiplier,
                    label,
                    active,
                    underlying_asset,
                    collateral_asset,
                    option_type,
                },
            ),
        },
        x => Ok(x),
    }
}

/// Normalizes the monetary fields of a contract.
pub fn convert_contract(contract: Contract) -> (r: Result<Contract, FTXDerivativesError>)
    requires
        contract.wf(),
    ensures
        r == spec_convert_contract(contract),
        r matches Ok(c) ==> c.wf(),
{
    match contract {
        Contract::OptionContract {
            id,
            name,
            is_call,
            strike_price,
            min_increment,
            date_live,
            date_expires,
            date_exercise,
            open_interest,
            multiplier,
            label,
            active,
            underlying_asset,
            collateral_asset,
            option_type,
        } => match rescale_number(strike_price, USD_SCALE) {
            Err(e) => Err(e),
            Ok(sp) => Ok(
                Contract::OptionContract {
                    id,
                    name,
                    is_call,
                    strike_price: sp,
                    min_increment,
                    date_live,
                    date_expires,
                    date_exercise,
                    open_interest,
                    multiplier,
                    label,
                    active,
                    underlying_asset,
                    collateral_asset,
                    option_type,
                },
            ),
        },
        x => Ok(x),
    }
}

/// What converting a ticker returns: the optional last trade's price is
/// normalized first, then the ask, then the bid — the first failure wins.
pub open spec fn spec_convert_contract_ticker(ticker: ContractTicker) -> Result<
    ContractTicker,
    FTXDerivativesError,
> {
    let lt = match ticker.last_trade {
        Some(t) => match spec_rescale_number(t.price, USD_SCALE) {
            Ok(p) => Ok(
                Some(ContractTickerLastTrade { id: t.id, price: p, size: t.size, time: t.time }),
            ),
            Err(e) => Err(e),
        },
        None => Ok(None),
    };
    match lt {
        Err(e) => Err(e),
        Ok(last_trade) => match spec_rescale_number(ticker.ask, USD_SCALE) {
            Err(e) => Err(e),
            Ok(ask) => match spec_rescale_number(ticker.bid, USD_SCALE) {
                Err(e) => Err(e),
                Ok(bid) => Ok(
                    ContractTicker {
                        ask,
                        bid,
                        volume_24h: ticker.volume_24h,
                        last_trade,
                        time: ticker.time,
                    },
                ),
            },
        },
    }
}

/// Normalizes the monetary fields of a ticker snapshot.
pub fn convert_contract_ticker(ticker: ContractTicker) -> (r: Result<
    ContractTicker,
    FTXDerivativesError,
>)
    requires
        ticker.wf(),
    ensures
        r == spec_convert_contract_ticker(ticker),
        r matches Ok(t) ==> t.wf(),
{
    let last_trade = match ticker.last_trade {
        Some(t) => match rescale_number(t.price, USD_SCALE) {
            Ok(p) => Some(ContractTickerLastTrade { id: t.id, price: p, size: t.size, time: t.time }),
            Err(e) => {
                return Err(e);
            },
        },
        None => None,
    };
    let ask = match rescale_number(ticker.ask, USD_SCALE) {
        Ok(a) => a,
        Err(e) => {
            return Err(e);
        },
    };
    let bid = match rescale_number(ticker.bid, USD_SCALE) {
        Ok(b) => b,
        Err(e) => {
            return Err(e);
        },
    };
    Ok(ContractTicker { ask, bid, volume_24h: ticker.volume_24h, last_trade, time: ticker.time })
}

/// What converting a trade returns: filled price, fee, rebate and premium
/// normalized to the USD scale, in that order, everything else unchanged.
pub open spec fn spec_convert_trade(trade: Trade) -> Result<Trade, FTXDerivativesError> {
    match spec_rescale_number(trade.filled_price, USD_SCALE) {
        Err(e) => Err(e),
        Ok(filled_price) => match spec_rescale_number(trade.fee, USD_SCALE) {
            Err(e) => Err(e),
            Ok(fee) => match spec_rescale_number(trade.rebate, USD_SCALE) {
                Err(e) => Err(e),
                Ok(rebate) => match spec_rescale_number(trade.premium, USD_SCALE) {
                    Err(e) => Err(e),
                    Ok(premium) => Ok(
                        Trade {
                            id: trade.id,
                            contract_id: trade.contract_id,
                            contract_label: trade.contract_label,
                            filled_price,
                            filled_size: trade.filled_size,
                            fee,
                            rebate,
                            premium,
                            created: trade.created,
                            order_type: trade.order_type,
                            order_id: trade.order_id,
                            state: trade.state,
                            status_type: trade.status_type,
                            side: trade.side,
                            execution_time: trade.execution_time,
                        },
                    ),
                },
            },
        },
    }
}

/// Normalizes the monetary fields of a trade.
pub fn convert_trade(trade: Trade) -> (r: Result<Trade, FTXDerivativesError>)
    requires
        trade.wf(),
    ensures
        r == spec_convert_trade(trade),
        r matches Ok(t) ==> t.wf(),
{
    let filled_price = match rescale_number(trade.filled_price, USD_SCALE) {
        Ok(a) => a,
        Err(e) => {
            return Err(e);
        },
    };
    let fee = match rescale_number(trade.fee, USD_SCALE) {
        Ok(a) => a,
        Err(e) => {
            return Err(e);
        },
    };
    let rebate = match rescale_number(trade.rebate, USD_SCALE) {
        Ok(a) => a,
        Err(e) => {
            return Err(e);
        },
    };
    let premium = match rescale_number(trade.premium, USD_SCALE) {
        Ok(a) => a,
        Err(e) => {
            return Err(e);
        },
    };
    Ok(
        Trade {
            id: trade.id,
            contract_id: trade.contract_id,
            contract_label: trade.contract_label,
            filled_price,
            filled_size: trade.filled_size,
            fee,
            rebate,
            premium,
            created: trade.created,
            order_type: trade.order_type,
            order_id: trade.order_id,
            state: trade.state,
            status_type: trade.status_type,
            side: trade.side,
            execution_time: trade.execution_time,
        },
    )
}

/// What converting a transaction returns. The target scale is the precision
/// the table assigns to the transaction's own asset; a missing entry is a
/// hard error carrying the code. The monetary fields are normalized in
/// order: amount, the four balance snapshots, then the net change.
pub open spec fn spec_convert_transaction(t: Transaction, entries: Seq<(Seq<char>, u32)>) -> Result<
    Transaction,
    FTXDerivativesError,
> {
    match spec_lookup(entries, t.asset@) {
        None => Err(FTXDerivativesError::UnknownCurrency { currency: t.asset }),
        Some(nd) => match spec_rescale_number(t.amount, nd) {
            Err(e) => Err(e),
            Ok(amount) => match spec_rescale_opt(t.debit_pre_balance, nd) {
                Err(e) => Err(e),
                Ok(debit_pre_balance) => match spec_rescale_opt(t.debit_post_balance, nd) {
                    Err(e) => Err(e),
                    Ok(debit_post_balance) => match spec_rescale_opt(t.credit_pre_balance, nd) {
                        Err(e) => Err(e),
                        Ok(credit_pre_balance) => match spec_rescale_opt(
                            t.credit_post_balance,
                            nd,
                        ) {
                            Err(e) => Err(e),
                            Ok(credit_post_balance) => match spec_rescale_number(
                                t.net_change,
                                nd,
                            ) {
                                Err(e) => Err(e),
                                Ok(net_change) => Ok(
                                    Transaction {
                                        id: t.id,
                                        created: t.created,
                                        last_updated: t.last_updated,
                                        transaction_type: t.transaction_type,
                                        amount,
                                        debit_account_field_name: t.debit_account_field_name,
                                        credit_account_field_name: t.credit_account_field_name,
                                        settlement_id: t.settlement_id,
                                        state: t.state,
                                        deposit_notice_id: t.deposit_notice_id,
                                        trade_id: t.trade_id,
                                        group_id: t.group_id,
                                        asset: t.asset,
                                        debit_pre_balance,
                                        debit_post_balance,
                                        credit_pre_balance,
                                        credit_post_balance,
                                        debit_participant_name: t.debit_participant_name,
                                        credit_participant_name: t.credit_participant_name,
                                        net_change,
                                    },
                                ),
                            },
                        },
                    },
                },
            },
        },
    }
}

/// Law (round trip): a successfully converted transaction keeps its asset
/// code, and re-extracting any of its monetary fields yields an explicit
/// decimal whose scale is exactly the precision the table assigns to that
/// asset.
pub proof fn lemma_convert_transaction_scales(t: Transaction, entries: Seq<(Seq<char>, u32)>)
    ensures
        spec_convert_transaction(t, entries) matches Ok(u) ==> {
            let nd = spec_lookup(entries, t.asset@)->Some_0;
            &&& spec_lookup(entries, t.asset@) is Some
            &&& u.asset == t.asset
            &&& u.amount matches RawAmount::Decimal(d) && d.scale == nd
            &&& u.net_change matches RawAmount::Decimal(d) && d.scale == nd
            &&& match u.debit_pre_balance {
                Some(a) => a matches RawAmount::Decimal(d) && d.scale == nd,
                None => true,
            }
            &&& match u.debit_post_balance {
                Some(a) => a matches RawAmount::Decimal(d) && d.scale == nd,
                None => true,
            }
            &&& match u.credit_pre_balance {
                Some(a) => a matches RawAmount::Decimal(d) && d.scale == nd,
                None => true,
            }
            &&& match u.credit_post_balance {
                Some(a) => a matches RawAmount::Decimal(d) && d.scale == nd,
                None => true,
            }
        },
{
}

/// Law (round trip): a successfully converted trade carries its four
/// monetary fields as explicit decimals at exactly the USD scale.
pub proof fn lemma_convert_trade_scales(t: Trade)
    ensures
        spec_convert_trade(t) matches Ok(u) ==> {
            &&& u.filled_price matches RawAmount::Decimal(d) && d.scale == USD_SCALE
            &&& u.fee matches RawAmount::Decimal(d) && d.scale == USD_SCALE
            &&& u.rebate matches RawAmount::Decimal(d) && d.scale == USD_SCALE
            &&& u.premium matches RawAmount::Decimal(d) && d.scale == USD_SCALE
        },
{
}

/// Normalizes the monetary fields of a transaction to the precision of its
/// own asset, looked up in the given table.
pub fn convert_transaction(transaction: Transaction, table: &PrecisionTable) -> (r: Result<
    Transaction,
    FTXDerivativesError,
>)
    requires
        transaction.wf(),
    ensures
        r == spec_convert_transaction(transaction, table@),
        r matches Ok(t) ==> t.wf(),
{
    let num_decimals = match table.precision_of(transaction.asset.as_str()) {
        Ok(nd) => nd,
        Err(_) => {
            return Err(FTXDerivativesError::UnknownCurrency { currency: transaction.asset });
        },
    };
    let amount = match rescale_number(transaction.amount, num_decimals) {
        Ok(a) => a,
        Err(e) => {
            return Err(e);
        },
    };
    let debit_pre_balance = match rescale_opt(transaction.debit_pre_balance, num_decimals) {
        Ok(a) => a,
        Err(e) => {
            return Err(e);
        },
    };
    let debit_post_balance = match rescale_opt(transaction.debit_post_balance, num_decimals) {
        Ok(a) => a,
        Err(e) => {
            return Err(e);
        },
    };
    let credit_pre_balance = match rescale_opt(transaction.credit_pre_balance, num_decimals) {
        Ok(a) => a,
        Err(e) => {
            return Err(e);
        },
    };
    let credit_post_balance = match rescale_opt(transaction.credit_post_balance, num_decimals) {
        Ok(a) => a,
        Err(e) => {
            return Err(e);
        },
    };
    let net_change = match rescale_number(transaction.net_change, num_decimals) {
        Ok(a) => a,
        Err(e) => {
            return Err(e);
        },
    };
    Ok(
        Transaction {
            id: transaction.id,
            created: transaction.created,
            last_updated: transaction.last_updated,
            transaction_type: transaction.transaction_type,
            amount,
            debit_account_field_name: transaction.debit_account_field_name,
            credit_account_field_name: transaction.credit_account_field_name,
            settlement_id: transaction.settlement_id,
            state: transaction.state,
            deposit_notice_id: transaction.deposit_notice_id,
            trade_id: transaction.trade_id,
            group_id: transaction.group_id,
            asset: transaction.asset,
            debit_pre_balance,
            debit_post_balance,
            credit_pre_balance,
            credit_post_balance,
            debit_participant_name: transaction.debit_participant_name,
            credit_participant_name: transaction.credit_participant_name,
            net_change,
        },
    )
}

/// What converting a position returns: its owned contract converted,
/// everything else unchanged.
pub open spec fn spec_convert_position(p: Position) -> Result<Position, FTXDerivativesError> {
    match spec_convert_contract(p.contract) {
        Err(e) => Err(e),
        Ok(contract) => Ok(
            Position {
                id: p.id,
                size: p.size,
                assigned_size: p.assigned_size,
                position_type: p.position_type,
                exercise_instruction: p.exercise_instruction,
                has_settled: p.has_settled,
                contract,
            },
        ),
    }
}

/// What converting a position list returns: each position converted in
/// order, or the error of the first one that fails.
pub open spec fn spec_convert_positions(ps: Seq<Position>) -> Result<
    Seq<Position>,
    FTXDerivativesError,
>
    decreases ps.len(),
{
    if ps.len() == 0 {
        Ok(Seq::empty())
    } else {
        match spec_convert_position(ps[0]) {
            Err(e) => Err(e),
            Ok(v) => match spec_convert_positions(ps.skip(1)) {
                Err(e) => Err(e),
                Ok(rest) => Ok(seq![v] + rest),
            },
        }
    }
}

/// Converts a fetched position list, failing fast on the first position
/// whose contract cannot be normalized.
pub fn convert_positions(positions: Vec<Position>) -> (r: Result<
    Vec<Position>,
    FTXDerivativesError,
>)
    requires
        forall|i: int| 0 <= i < positions@.len() ==> (#[trigger] positions@[i]).wf(),
    ensures
        match spec_convert_positions(positions@) {
            Ok(s) => r matches Ok(v) && v@ == s,
            Err(e) => r == Err::<Vec<Position>, FTXDerivativesError>(e),
        },
    decreases positions@.len(),
{
    let mut positions = positions;
    if positions.len() == 0 {
        let empty: Vec<Position> = Vec::new();
        assert(empty@ =~= Seq::<Position>::empty());
        return Ok(empty);
    }
    let ghost orig = positions@;
    let first = positions.remove(0);
    proof {
        assert(positions@ =~= orig.skip(1));
    }
    let Position {
        id,
        size,
        assigned_size,
        position_type,
        exercise_instruction,
        has_settled,
        contract,
    } = first;
    match convert_contract(contract) {
        Err(e) => Err(e),
        Ok(contract) => {
            let converted = Position {
                id,
                size,
                assigned_size,
                position_type,
                exercise_instruction,
                has_settled,
                contract,
            };
            match convert_positions(positions) {
                Err(e) => Err(e),
                Ok(mut rest) => {
                    proof {
                        let ghost tail = rest@;
                        assert(tail.insert(0, converted) =~= seq![converted] + tail);
                    }
                    rest.insert(0, converted);
                    Ok(rest)
                },
            }
        },
    }
}

/// What converting a transaction list returns: each transaction converted
/// in order against the table, or the error of the first one that fails.
pub open spec fn spec_convert_transactions(
    ts: Seq<Transaction>,
    entries: Seq<(Seq<char>, u32)>,
) -> Result<Seq<Transaction>, FTXDerivativesError>
    decreases ts.len(),
{
    if ts.len() == 0 {
        Ok(Seq::empty())
    } else {
        match spec_convert_transaction(ts[0], entries) {
            Err(e) => Err(e),
            Ok(v) => match spec_convert_transactions(ts.skip(1), entries) {
                Err(e) => Err(e),
                Ok(rest) => Ok(seq![v] + rest),
            },
        }
    }
}

/// Converts a fetched transaction list, failing fast on the first
/// transaction that cannot be normalized.
pub fn convert_transactions(transactions: Vec<Transaction>, table: &PrecisionTable) -> (r: Result<
    Vec<Transaction>,
    FTXDerivativesError,
>)
    requires
        forall|i: int| 0 <= i < transactions@.len() ==> (#[trigger] transactions@[i]).wf(),
    ensures
        match spec_convert_transactions(transactions@, table@) {
            Ok(s) => r matches Ok(v) && v@ == s,
            Err(e) => r == Err::<Vec<Transaction>, FTXDerivativesError>(e),
        },
    decreases transactions@.len(),
{
    let mut transactions = transactions;
    if transactions.len() == 0 {
        let empty: Vec<Transaction> = Vec::new();
        assert(empty@ =~= Seq::<Transaction>::empty());
        return Ok(empty);
    }
    let ghost orig = transactions@;
    let first = transactions.remove(0);
    proof {
        assert(transactions@ =~= orig.skip(1));
    }
    match convert_transaction(first, table) {
        Err(e) => Err(e),
        Ok(converted) => match convert_transactions(transactions, table) {
            Err(e) => Err(e),
            Ok(mut rest) => {
                proof {
                    let ghost tail = rest@;
                    assert(tail.insert(0, converted) =~= seq![converted] + tail);
                }
                rest.insert(0, converted);
                Ok(rest)
            },
        },
    }
}

/// What converting a trade list returns: each trade converted in order, or
/// the error of the first one that fails.
pub open spec fn spec_convert_trades(ts: Seq<Trade>) -> Result<Seq<Trade>, FTXDerivativesError>
    decreases ts.len(),
{
    if ts.len() == 0 {
        Ok(Seq::empty())
    } else {
        match spec_convert_trade(ts[0]) {
            Err(e) => Err(e),
            Ok(v) => match spec_convert_trades(ts.skip(1)) {
                Err(e) => Err(e),
                Ok(rest) => Ok(seq![v] + rest),
            },
        }
    }
}

/// Converts a fetched trade list, failing fast on the first trade that
/// cannot be normalized.
pub fn convert_trades(trades: Vec<Trade>) -> (r: Result<Vec<Trade>, FTXDerivativesError>)
    requires
        forall|i: int| 0 <= i < trades@.len() ==> (#[trigger] trades@[i]).wf(),
    ensures
        match spec_convert_trades(trades@) {
            Ok(s) => r matches Ok(v) && v@ == s,
            Err(e) => r == Err::<Vec<Trade>, FTXDerivativesError>(e),
        },
    decreases trades@.len(),
{
    let mut trades = trades;
    if trades.len() == 0 {
        let empty: Vec<Trade> = Vec::new();
        assert(empty@ =~= Seq::<Trade>::empty());
        return Ok(empty);
    }
    let ghost orig = trades@;
    let first = trades.remove(0);
    proof {
        assert(trades@ =~= orig.skip(1));
    }
    match convert_trade(first) {
        Err(e) => Err(e),
        Ok(converted) => match convert_trades(trades) {
            Err(e) => Err(e),
            Ok(mut rest) => {
                proof {
                    let ghost tail = rest@;
                    assert(tail.insert(0, converted) =~= seq![converted] + tail);
                }
                rest.insert(0, converted);
                Ok(rest)
            },
        },
    }
}

} // verus!
