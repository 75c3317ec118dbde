use ftx_derivatives::balance::aggregate_balances;
use ftx_derivatives::currency::PrecisionTable;
use ftx_derivatives::decimal::{FixedDecimal, RawAmount, MAX_MANTISSA};
use ftx_derivatives::transaction::{Transaction, TransactionState, TransactionType};
use ftx_derivatives::FTXDerivativesError;

fn tx(asset: &str, net_change: RawAmount) -> Transaction {
    Transaction {
        id: 1,
        created: 0,
        last_updated: 0,
        transaction_type: TransactionType::DepositTransaction,
        amount: net_change,
        debit_account_field_name: "debit".to_owned(),
        credit_account_field_name: "credit".to_owned(),
        settlement_id: None,
        state: TransactionState::Executed,
        deposit_notice_id: None,
        trade_id: None,
        group_id: None,
        asset: asset.to_owned(),
        debit_pre_balance: None,
        debit_post_balance: None,
        credit_pre_balance: None,
        credit_post_balance: None,
        debit_participant_name: None,
        credit_participant_name: None,
        net_change,
    }
}

#[test]
fn empty_history_yields_empty_balances() {
    let table = PrecisionTable::defaults();
    let balances = aggregate_balances(&vec![], &table).unwrap();
    assert_eq!(balances.len(), 0);
    assert_eq!(balances.get("USD"), None);
}

#[test]
fn usd_deposits_and_withdrawals_sum_exactly() {
    // 5.00 - 2.00 = 3.00 for a 2-digit currency fed as raw integers.
    let table = PrecisionTable::defaults();
    let txs = vec![
        tx("USD", RawAmount::Integer(500)),
        tx("USD", RawAmount::Integer(-200)),
    ];
    let balances = aggregate_balances(&txs, &table).unwrap();
    assert_eq!(balances.len(), 1);
    assert_eq!(
        balances.get("USD"),
        Some(FixedDecimal { mantissa: 300, scale: 2 })
    );
}

#[test]
fn aggregation_order_does_not_change_totals() {
    let table = PrecisionTable::defaults();
    let a = tx("ETH", RawAmount::Integer(123));
    let b = tx("ETH", RawAmount::Integer(-23));
    let ab = aggregate_balances(&vec![a.clone(), b.clone()], &table).unwrap();
    let ba = aggregate_balances(&vec![b, a], &table).unwrap();
    assert_eq!(ab.get("ETH"), ba.get("ETH"));
    assert_eq!(
        ab.get("ETH"),
        Some(FixedDecimal { mantissa: 100, scale: 9 })
    );
}

#[test]
fn each_currency_keeps_its_own_total() {
    let table = PrecisionTable::defaults();
    let txs = vec![
        tx("USD", RawAmount::Integer(500)),
        tx("CBTC", RawAmount::Integer(7)),
        tx("USD", RawAmount::Integer(1)),
    ];
    let balances = aggregate_balances(&txs, &table).unwrap();
    assert_eq!(balances.len(), 2);
    assert_eq!(
        balances.get("USD"),
        Some(FixedDecimal { mantissa: 501, scale: 2 })
    );
    assert_eq!(
        balances.get("CBTC"),
        Some(FixedDecimal { mantissa: 7, scale: 8 })
    );
    assert_eq!(balances.get("ETH"), None);
}

#[test]
fn mixed_wire_forms_share_one_total() {
    // An implicit-scale integer and an explicit decimal of the same
    // currency land in the same entry.
    let table = PrecisionTable::defaults();
    let txs = vec![
        tx("USD", RawAmount::Integer(500)),
        tx(
            "USD",
            RawAmount::Decimal(FixedDecimal { mantissa: 25, scale: 1 }),
        ),
    ];
    let balances = aggregate_balances(&txs, &table).unwrap();
    assert_eq!(
        balances.get("USD"),
        Some(FixedDecimal { mantissa: 750, scale: 2 })
    );
}

#[test]
fn unknown_asset_aborts_aggregation() {
    let table = PrecisionTable::defaults();
    let txs = vec![
        tx("USD", RawAmount::Integer(500)),
        tx("DOGE", RawAmount::Integer(1)),
    ];
    assert_eq!(
        aggregate_balances(&txs, &table),
        Err(FTXDerivativesError::UnknownCurrency { currency: "DOGE".to_owned() })
    );
}

#[test]
fn precision_loss_aborts_aggregation() {
    let table = PrecisionTable::defaults();
    let txs = vec![tx(
        "USD",
        RawAmount::Decimal(FixedDecimal { mantissa: 1505, scale: 3 }),
    )];
    assert_eq!(
        aggregate_balances(&txs, &table),
        Err(FTXDerivativesError::PrecisionLoss)
    );
}

#[test]
fn overflowing_total_is_a_decimal_error() {
    let table = PrecisionTable::defaults();
    let big = RawAmount::Decimal(FixedDecimal { mantissa: MAX_MANTISSA, scale: 8 });
    let txs = vec![tx("CBTC", big), tx("CBTC", big)];
    assert_eq!(
        aggregate_balances(&txs, &table),
        Err(FTXDerivativesError::DecimalError)
    );
}
