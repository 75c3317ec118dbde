use ftx_derivatives::contract::{
    Contract, ContractTicker, ContractTickerLastTrade, OptionType,
};
use ftx_derivatives::convert::{
    convert_contract, convert_contract_ticker, convert_positions, convert_trade,
    convert_trades, convert_transaction, convert_transactions, rescale_number, rescale_opt,
};
use ftx_derivatives::currency::PrecisionTable;
use ftx_derivatives::decimal::{FixedDecimal, RawAmount};
use ftx_derivatives::positions::{Position, PositionType};
use ftx_derivatives::trade::{OrderType, Trade, TradeSide};
use ftx_derivatives::transaction::{Transaction, TransactionState, TransactionType};
use ftx_derivatives::FTXDerivativesError;

fn dec(mantissa: i128, scale: u32) -> RawAmount {
    RawAmount::Decimal(FixedDecimal { mantissa, scale })
}

fn sample_trade() -> Trade {
    Trade {
        id: 7,
        contract_id: "22212774".to_owned(),
        contract_label: "label".to_owned(),
        filled_price: dec(15, 1),
        filled_size: 3,
        fee: RawAmount::Integer(25),
        rebate: dec(0, 0),
        premium: dec(4200, 2),
        created: 1_650_000_000_000,
        order_type: OrderType::CustomerLimitOrder,
        order_id: "abc".to_owned(),
        state: None,
        status_type: "filled".to_owned(),
        side: TradeSide::Bid,
        execution_time: 1_650_000_000_500,
    }
}

fn sample_transaction(asset: &str, net_change: RawAmount) -> Transaction {
    Transaction {
        id: 1,
        created: 1_650_000_000_000,
        last_updated: 1_650_000_000_001,
        transaction_type: TransactionType::DepositTransaction,
        amount: net_change,
        debit_account_field_name: "debit".to_owned(),
        credit_account_field_name: "credit".to_owned(),
        settlement_id: None,
        state: TransactionState::Executed,
        deposit_notice_id: None,
        trade_id: None,
        group_id: None,
        asset: asset.to_owned(),
        debit_pre_balance: None,
        debit_post_balance: Some(net_change),
        credit_pre_balance: None,
        credit_post_balance: None,
        debit_participant_name: None,
        credit_participant_name: None,
        net_change,
    }
}

fn sample_ticker() -> ContractTicker {
    ContractTicker {
        ask: dec(105, 1),
        bid: RawAmount::Integer(1000),
        volume_24h: 12,
        last_trade: Some(ContractTickerLastTrade {
            id: 99,
            price: dec(10400, 3),
            size: 2,
            time: 1_650_000_000_000,
        }),
        time: 1_650_000_000_100,
    }
}

#[test]
fn rescale_number_wraps_the_normalized_value() {
    assert_eq!(rescale_number(RawAmount::Integer(500), 2), Ok(dec(500, 2)));
    assert_eq!(rescale_number(dec(15, 1), 2), Ok(dec(150, 2)));
    assert_eq!(
        rescale_number(dec(1505, 3), 2),
        Err(FTXDerivativesError::PrecisionLoss)
    );
}

#[test]
fn rescale_opt_threads_none_through() {
    assert_eq!(rescale_opt(None, 2), Ok(None));
    assert_eq!(rescale_opt(Some(dec(15, 1)), 2), Ok(Some(dec(150, 2))));
    assert_eq!(
        rescale_opt(Some(dec(1505, 3)), 2),
        Err(FTXDerivativesError::PrecisionLoss)
    );
}

#[test]
fn trade_fields_normalize_to_usd_scale() {
    let converted = convert_trade(sample_trade()).unwrap();
    assert_eq!(converted.filled_price, dec(150, 2));
    assert_eq!(converted.fee, dec(25, 2));
    assert_eq!(converted.rebate, dec(0, 2));
    assert_eq!(converted.premium, dec(4200, 2));
    // Non-monetary fields pass through unchanged.
    assert_eq!(converted.id, 7);
    assert_eq!(converted.contract_id, "22212774");
    assert_eq!(converted.filled_size, 3);
    assert_eq!(converted.side, TradeSide::Bid);
}

#[test]
fn trade_conversion_fails_fast_on_precision_loss() {
    let mut trade = sample_trade();
    trade.fee = dec(12345, 3); // 12.345 cannot be expressed in cents
    assert_eq!(
        convert_trade(trade),
        Err(FTXDerivativesError::PrecisionLoss)
    );
}

#[test]
fn ticker_quotes_normalize_to_usd_scale() {
    let converted = convert_contract_ticker(sample_ticker()).unwrap();
    assert_eq!(converted.ask, dec(1050, 2));
    assert_eq!(converted.bid, dec(1000, 2));
    let last = converted.last_trade.unwrap();
    assert_eq!(last.price, dec(1040, 2));
    assert_eq!(last.id, 99);
    assert_eq!(converted.volume_24h, 12);
}

#[test]
fn ticker_without_last_trade_converts() {
    let mut ticker = sample_ticker();
    ticker.last_trade = None;
    let converted = convert_contract_ticker(ticker).unwrap();
    assert_eq!(converted.last_trade, None);
    assert_eq!(converted.ask, dec(1050, 2));
}

#[test]
fn option_contract_strike_normalizes() {
    let contract = Contract::OptionContract {
        id: 5,
        name: Some("weekly".to_owned()),
        is_call: true,
        strike_price: RawAmount::Integer(50000),
        min_increment: 100,
        date_live: 0,
        date_expires: 1,
        date_exercise: 2,
        open_interest: 10,
        multiplier: dec(100, 0),
        label: "BTC call".to_owned(),
        active: true,
        underlying_asset: "CBTC".to_owned(),
        collateral_asset: "CBTC".to_owned(),
        option_type: OptionType::Call,
    };
    let converted = convert_contract(contract).unwrap();
    match converted {
        Contract::OptionContract { strike_price, multiplier, option_type, .. } => {
            assert_eq!(strike_price, dec(50000, 2));
            assert_eq!(multiplier, dec(100, 0));
            assert_eq!(option_type, OptionType::Call);
        },
        _ => panic!("variant changed by conversion"),
    }
}

#[test]
fn day_ahead_swap_passes_through() {
    let contract = Contract::DayAheadSwap {
        id: 6,
        name: None,
        min_increment: 1,
        date_live: 0,
        date_expires: 1,
        date_exercise: 2,
        open_interest: 0,
        multiplier: dec(1, 0),
        label: "swap".to_owned(),
        active: false,
        is_next_day: true,
        underlying_asset: "ETH".to_owned(),
        collateral_asset: "ETH".to_owned(),
    };
    let converted = convert_contract(contract.clone()).unwrap();
    assert_eq!(converted, contract);
}

#[test]
fn transaction_fields_follow_the_asset_precision() {
    let table = PrecisionTable::defaults();
    let tx = sample_transaction("CBTC", RawAmount::Integer(12345));
    let converted = convert_transaction(tx, &table).unwrap();
    assert_eq!(converted.amount, dec(12345, 8));
    assert_eq!(converted.net_change, dec(12345, 8));
    assert_eq!(converted.debit_post_balance, Some(dec(12345, 8)));
    assert_eq!(converted.debit_pre_balance, None);
    assert_eq!(converted.asset, "CBTC");
}

#[test]
fn transaction_with_unknown_asset_fails() {
    let table = PrecisionTable::defaults();
    let tx = sample_transaction("DOGE", RawAmount::Integer(1));
    assert_eq!(
        convert_transaction(tx, &table),
        Err(FTXDerivativesError::UnknownCurrency { currency: "DOGE".to_owned() })
    );
}

#[test]
fn converted_transaction_scales_equal_table_precision() {
    // Round trip: convert, then re-extract the currency-driven fields and
    // compare their scales with the table.
    let table = PrecisionTable::defaults();
    for (asset, precision) in [("USD", 2u32), ("CBTC", 8), ("ETH", 9)] {
        let tx = sample_transaction(asset, RawAmount::Integer(777));
        let converted = convert_transaction(tx, &table).unwrap();
        for field in [
            converted.amount,
            converted.net_change,
            converted.debit_post_balance.unwrap(),
        ] {
            match field {
                RawAmount::Decimal(d) => assert_eq!(d.scale, precision),
                RawAmount::Integer(_) => panic!("field left unnormalized"),
            }
        }
    }
}

#[test]
fn transaction_list_converts_in_order() {
    let table = PrecisionTable::defaults();
    let txs = vec![
        sample_transaction("USD", RawAmount::Integer(500)),
        sample_transaction("ETH", RawAmount::Integer(-1)),
    ];
    let converted = convert_transactions(txs, &table).unwrap();
    assert_eq!(converted.len(), 2);
    assert_eq!(converted[0].net_change, dec(500, 2));
    assert_eq!(converted[1].net_change, dec(-1, 9));
}

#[test]
fn transaction_list_fails_on_first_bad_record() {
    let table = PrecisionTable::defaults();
    let txs = vec![
        sample_transaction("USD", RawAmount::Integer(500)),
        sample_transaction("DOGE", RawAmount::Integer(1)),
        sample_transaction("ZZZ", RawAmount::Integer(2)),
    ];
    assert_eq!(
        convert_transactions(txs, &table),
        Err(FTXDerivativesError::UnknownCurrency { currency: "DOGE".to_owned() })
    );
}

#[test]
fn trade_list_converts_each_trade() {
    let converted = convert_trades(vec![sample_trade(), sample_trade()]).unwrap();
    assert_eq!(converted.len(), 2);
    assert_eq!(converted[0].filled_price, dec(150, 2));
    assert_eq!(converted[1].filled_price, dec(150, 2));
}

#[test]
fn position_list_converts_owned_contracts() {
    let position = Position {
        id: 11,
        size: 2,
        assigned_size: 0,
        position_type: PositionType::Long,
        exercise_instruction: None,
        has_settled: false,
        contract: Contract::OptionContract {
            id: 5,
            name: None,
            is_call: false,
            strike_price: dec(423, 1),
            min_increment: 1,
            date_live: 0,
            date_expires: 1,
            date_exercise: 2,
            open_interest: 0,
            multiplier: dec(1, 0),
            label: "put".to_owned(),
            active: true,
            underlying_asset: "CBTC".to_owned(),
            collateral_asset: "USD".to_owned(),
            option_type: OptionType::Put,
        },
    };
    let converted = convert_positions(vec![position]).unwrap();
    assert_eq!(converted.len(), 1);
    assert_eq!(converted[0].id, 11);
    assert_eq!(converted[0].position_type, PositionType::Long);
    match &converted[0].contract {
        Contract::OptionContract { strike_price, .. } => {
            assert_eq!(*strike_price, dec(4230, 2));
        },
        _ => panic!("variant changed by conversion"),
    }
}
