use investment_portfolio_api::balance::BalanceSheet;
use investment_portfolio_api::report::ReportSettings;
use investment_portfolio_api::transaction::Transaction;

fn tx(base: &str, quote: &str, base_amount: i64, quote_amount: i64) -> Transaction {
    Transaction::new(
        String::from(base),
        String::from(quote),
        base_amount,
        quote_amount,
        0,
    )
}

#[test]
fn generate_without_transactions_seeds_zero() {
    let settings = ReportSettings::default();
    let sheet = BalanceSheet::generate(&Vec::new(), &None, &settings);
    assert_eq!(
        sheet.balance(),
        &vec![(String::from("USD"), 0), (String::from("BTC"), 0)]
    );
}

#[test]
fn generate_folds_amounts_into_both_sides() {
    let settings = ReportSettings::default();
    let txs = vec![tx("BTC", "USD", 1, -20000)];
    let sheet = BalanceSheet::generate(&txs, &None, &settings);
    assert_eq!(sheet.get(&String::from("BTC")), Some(1));
    assert_eq!(sheet.get(&String::from("USD")), Some(-20000));
}

#[test]
fn generate_accumulates_in_input_order() {
    let settings = ReportSettings::default();
    let txs = vec![
        tx("BTC", "USD", 2, -40000),
        tx("BTC", "USD", -1, 21000),
        tx("USD", "USD", 500, 500),
    ];
    let sheet = BalanceSheet::generate(&txs, &None, &settings);
    assert_eq!(sheet.get(&String::from("BTC")), Some(1));
    assert_eq!(sheet.get(&String::from("USD")), Some(-18000));
}

/// Generation is a pure function: the same inputs give entry-for-entry the
/// same balance sheet.
#[test]
fn generate_twice_yields_identical_output() {
    let settings = ReportSettings::default();
    let txs = vec![tx("BTC", "USD", 3, -60000), tx("USD", "BTC", 100, -1)];
    let init = Some(vec![(String::from("USD"), 250)]);
    let first = BalanceSheet::generate(&txs, &init, &settings);
    let second = BalanceSheet::generate(&txs, &init, &settings);
    assert_eq!(first.balance(), second.balance());
}

#[test]
fn initial_balance_seeds_tracked_assets() {
    let settings = ReportSettings::default();
    let init = Some(vec![(String::from("USD"), 1000), (String::from("BTC"), 5)]);
    let sheet = BalanceSheet::generate(&Vec::new(), &init, &settings);
    assert_eq!(sheet.get(&String::from("USD")), Some(1000));
    assert_eq!(sheet.get(&String::from("BTC")), Some(5));
}

/// Initial balances for untracked tickers never enter the seeded map.
#[test]
fn initial_balance_for_untracked_ticker_is_ignored() {
    let settings = ReportSettings::default();
    let init = Some(vec![(String::from("ETH"), 77), (String::from("USD"), 3)]);
    let sheet = BalanceSheet::generate(&Vec::new(), &init, &settings);
    assert_eq!(sheet.get(&String::from("USD")), Some(3));
    assert_eq!(sheet.get(&String::from("ETH")), None);
}

/// Without the admissibility gate, a transaction in an untracked asset
/// creates a fresh entry at zero before its amount is added.
#[test]
fn ungated_untracked_asset_creates_entry() {
    let settings = ReportSettings::default();
    let txs = vec![tx("ETH", "USD", 4, -8000)];
    let sheet = BalanceSheet::generate(&txs, &None, &settings);
    assert_eq!(sheet.get(&String::from("ETH")), Some(4));
    assert_eq!(sheet.get(&String::from("USD")), Some(-8000));
}

/// Balances saturate at the ends of the i64 range instead of overflowing.
#[test]
fn balances_saturate_at_i64_bounds() {
    let settings = ReportSettings::default();
    let txs = vec![
        tx("BTC", "USD", i64::MAX, -1),
        tx("BTC", "USD", i64::MAX, -1),
        tx("USD", "BTC", i64::MIN, 1),
        tx("USD", "BTC", i64::MIN, 1),
    ];
    let sheet = BalanceSheet::generate(&txs, &None, &settings);
    assert_eq!(sheet.get(&String::from("BTC")), Some(i64::MAX));
    assert_eq!(sheet.get(&String::from("USD")), Some(i64::MIN));
}

#[test]
fn get_returns_none_for_absent_ticker() {
    let settings = ReportSettings::default();
    let sheet = BalanceSheet::generate(&Vec::new(), &None, &settings);
    assert_eq!(sheet.get(&String::from("EUR")), None);
}
