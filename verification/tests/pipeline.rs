use investment_portfolio_api::asset::Asset;
use investment_portfolio_api::pipeline::{filter_transactions, generate_report, ReportError};
use investment_portfolio_api::report::ReportSettings;
use investment_portfolio_api::response::MessageResponse;
use investment_portfolio_api::transaction::Transaction;

fn tx_at(timestamp: i64, base_amount: i64, quote_amount: i64) -> Transaction {
    Transaction::new(
        String::from("BTC"),
        String::from("USD"),
        base_amount,
        quote_amount,
        timestamp,
    )
}

/// A period whose start is not before its end fails with `InvalidPeriod`,
/// whatever the transactions hold.
#[test]
fn validate_period() {
    for (start, end) in [(10, 10), (10, 9), (0, -5)] {
        let result = generate_report(start, end, None, None, vec![tx_at(5, 1, -1)]);
        assert!(matches!(result, Err(ReportError::InvalidPeriod)));
    }
    assert!(generate_report(10, 11, None, None, Vec::new()).is_ok());
}

/// An in-period transaction with a zero amount fails the request with
/// `TransactionInvalid`.
#[test]
fn validate_transactions() {
    let result = generate_report(0, 10, None, None, vec![tx_at(5, 1, 0)]);
    assert!(matches!(result, Err(ReportError::TransactionInvalid)));
    let result = generate_report(0, 10, None, None, vec![tx_at(5, 0, -1)]);
    assert!(matches!(result, Err(ReportError::TransactionInvalid)));
}

/// Transactions outside the accounting period are ignored: an invalid or
/// untracked transaction before the start or at/after the end causes no
/// error and no balance movement.
#[test]
fn ignore_out_of_range_transactions() {
    let txs = vec![
        tx_at(-1, 1, 0),
        tx_at(10, 0, 5),
        Transaction::new(String::from("ETH"), String::from("USD"), 1, -1, 12),
    ];
    let result = generate_report(0, 10, None, None, txs);
    let out = result.ok().unwrap();
    assert_eq!(out.data.get(&String::from("USD")), Some(0));
    assert_eq!(out.data.get(&String::from("BTC")), Some(0));
    assert_eq!(out.data.get(&String::from("ETH")), None);
}

/// The period is half-open: a transaction stamped exactly at the start is
/// included, one stamped exactly at the end is excluded.
#[test]
fn period_boundaries_are_start_inclusive_end_exclusive() {
    let at_start = generate_report(0, 10, None, None, vec![tx_at(0, 1, -100)]);
    let out = at_start.ok().unwrap();
    assert_eq!(out.data.get(&String::from("BTC")), Some(1));
    assert_eq!(out.data.get(&String::from("USD")), Some(-100));

    let at_end = generate_report(0, 10, None, None, vec![tx_at(10, 1, -100)]);
    let out = at_end.ok().unwrap();
    assert_eq!(out.data.get(&String::from("BTC")), Some(0));
    assert_eq!(out.data.get(&String::from("USD")), Some(0));
}

/// Omitted settings and no transactions succeed with zero balances for the
/// default assets and the informational default-settings message.
#[test]
fn omitted_settings_use_defaults_with_message() {
    let result = generate_report(0, 10, None, None, Vec::new());
    let out = result.ok().unwrap();
    assert_eq!(
        out.data.balance(),
        &vec![(String::from("USD"), 0), (String::from("BTC"), 0)]
    );
    assert_eq!(out.messages, vec![String::from("Default report settings used")]);
}

/// One in-period buy of one BTC for 20000 USD under default settings.
#[test]
fn single_buy_under_default_settings() {
    let result = generate_report(0, 10, None, None, vec![tx_at(5, 1, -20000)]);
    let out = result.ok().unwrap();
    assert_eq!(out.data.get(&String::from("BTC")), Some(1));
    assert_eq!(out.data.get(&String::from("USD")), Some(-20000));
    assert_eq!(out.messages, vec![String::from("Default report settings used")]);
}

/// Submitted settings that validate produce no informational message.
#[test]
fn submitted_settings_produce_no_message() {
    let settings = ReportSettings::default();
    let result = generate_report(0, 10, Some(settings), None, Vec::new());
    let out = result.ok().unwrap();
    assert!(out.messages.is_empty());
}

/// Settings tracking only BTC while accounting in USD fail with
/// `SettingsInvalid`, echoing the rejected settings.
#[test]
fn invalid_settings_are_echoed_back() {
    let settings = ReportSettings::new(
        String::from("USD"),
        vec![Asset::new("BTC", "Bitcoin", "B", 8)],
    );
    let result = generate_report(0, 10, Some(settings), None, Vec::new());
    match result {
        Err(ReportError::SettingsInvalid(reason, original)) => {
            assert_eq!(reason, "The accounting currency must be an asset");
            assert_eq!(original.accounting_currency().as_str(), "USD");
            assert_eq!(original.assets().len(), 1);
            assert_eq!(original.assets()[0].ticker().as_str(), "BTC");
        }
        _ => panic!("expected SettingsInvalid"),
    }
}

/// An in-period transaction in an asset the settings do not track fails with
/// `AssetNotTracked`.
#[test]
fn untracked_asset_fails_request() {
    let txs = vec![Transaction::new(
        String::from("ETH"),
        String::from("USD"),
        1,
        -1500,
        5,
    )];
    let result = generate_report(0, 10, None, None, txs);
    assert!(matches!(result, Err(ReportError::AssetNotTracked)));
}

/// The amount check precedes the tracking check: a transaction failing both
/// reports `TransactionInvalid`.
#[test]
fn zero_amount_reported_before_untracked() {
    let txs = vec![Transaction::new(
        String::from("ETH"),
        String::from("USD"),
        0,
        -1500,
        5,
    )];
    let result = generate_report(0, 10, None, None, txs);
    assert!(matches!(result, Err(ReportError::TransactionInvalid)));
}

/// Initial balances flow through the pipeline into the seeded entries.
#[test]
fn initial_balance_is_applied() {
    let init = Some(vec![(String::from("USD"), 100000)]);
    let result = generate_report(0, 10, None, init, vec![tx_at(5, 1, -20000)]);
    let out = result.ok().unwrap();
    assert_eq!(out.data.get(&String::from("USD")), Some(80000));
    assert_eq!(out.data.get(&String::from("BTC")), Some(1));
}

/// Filtering keeps exactly the in-period transactions, in input order.
#[test]
fn filter_keeps_order_and_window() {
    let txs = vec![
        tx_at(15, 1, -1),
        tx_at(3, 2, -2),
        tx_at(9, 3, -3),
        tx_at(10, 4, -4),
        tx_at(0, 5, -5),
    ];
    let kept = filter_transactions(&txs, 0, 10);
    let amounts: Vec<i64> = kept.iter().map(|t| *t.base_amount()).collect();
    assert_eq!(amounts, vec![2, 3, 5]);
}

#[test]
fn message_response_holds_one_message() {
    let response = MessageResponse::from_message(String::from("Investment Portfolio API"));
    assert_eq!(response.messages.len(), 1);
    assert!(response.messages[0].contains("Investment Portfolio"));
}
