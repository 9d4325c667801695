//! The report pipeline: period check, settings resolution, period filtering,
//! transaction validation and balance aggregation, each a hard gate.

use vstd::prelude::*;

use crate::balance::{spec_generate, BalanceSheet};
use crate::report::{default_ticker_set, has_duplicate_ticker, ticker_set, tracks, ReportSettings};
use crate::transaction::Transaction;

verus! {

/// A request-level validation failure. All four are fully recoverable and
/// reported to the caller; none yields partial balance data.
pub enum ReportError {
    /// The period start is not before the period end.
    InvalidPeriod,
    /// The submitted settings broke an invariant; the reason and the
    /// untouched settings come back so the caller can echo both.
    SettingsInvalid(String, ReportSettings),
    /// Some in-period transaction has a zero base or quote amount.
    TransactionInvalid,
    /// Some in-period transaction references a ticker the resolved settings
    /// do not track.
    AssetNotTracked,
}

/// Which admissibility check an in-period transaction failed first.
#[derive(Clone, Copy, Debug, PartialEq, Eq, Structural)]
pub enum TxFault {
    /// A zero base or quote amount.
    ZeroAmount,
    /// A base or quote ticker outside the tracked set.
    Untracked,
}

/// A successful report: the balance data, and informational messages (one
/// note exactly when the default settings stood in for omitted ones).
pub struct ReportOutput {
    pub data: BalanceSheet,
    pub messages: Vec<String>,
}

/// The transactions whose timestamp lies in `[start, end)`, in input order.
pub open spec fn spec_filtered(txs: Seq<Transaction>, start: int, end: int) -> Seq<Transaction> {
    txs.filter(|tx: Transaction| tx.spec_in_period(start, end))
}

/// The first admissibility fault among `txs`, checking each transaction's
/// amounts before its tickers, in input order.
pub open spec fn spec_first_fault(txs: Seq<Transaction>, tickers: Set<Seq<char>>) -> Option<
    TxFault,
>
    decreases txs.len(),
{
    if txs.len() == 0 {
        Option::None
    } else if txs[0].spec_is_invalid() {
        Option::Some(TxFault::ZeroAmount)
    } else if !(tickers.contains(txs[0].spec_base()) && tickers.contains(txs[0].spec_quote())) {
        Option::Some(TxFault::Untracked)
    } else {
        spec_first_fault(txs.drop_first(), tickers)
    }
}

/// The tickers tracked by the settings a request resolves to: those of the
/// submitted settings, or the default pair when none were submitted.
pub open spec fn spec_resolved_tickers(settings: Option<ReportSettings>) -> Set<Seq<char>> {
    match settings {
        Option::Some(s) => ticker_set(s.spec_assets()),
        Option::None => default_ticker_set(),
    }
}

/// Period filtering is half-open: a transaction timestamped exactly at the
/// period start is kept by the filter, while one timestamped exactly at the
/// period end never appears in the filtered sequence.
pub proof fn lemma_period_boundary(txs: Seq<Transaction>, tx: Transaction, start: int, end: int)
    requires
        start < end,
        txs.contains(tx),
    ensures
        tx.spec_timestamp() == start ==> spec_filtered(txs, start, end).contains(tx),
        tx.spec_timestamp() == end ==> !spec_filtered(txs, start, end).contains(tx),
{
    let filtered = spec_filtered(txs, start, end);
    if tx.spec_timestamp() == start {
        let i = choose|i: int| 0 <= i < txs.len() && txs[i] == tx;
        txs.lemma_filter_contains(|t: Transaction| t.spec_in_period(start, end), i);
    }
    if tx.spec_timestamp() == end && filtered.contains(tx) {
        let j = choose|j: int| 0 <= j < filtered.len() && filtered[j] == tx;
        txs.lemma_filter_pred(|t: Transaction| t.spec_in_period(start, end), j);
    }
}

/// Retain the transactions whose timestamp lies in `[period_start,
/// period_end)`, keeping their input order.
pub fn filter_transactions(transactions: &Vec<Transaction>, period_start: i64, period_end: i64) -> (r:
    Vec<Transaction>)
    ensures
        r@ == spec_filtered(transactions@, period_start as int, period_end as int),
{
    let mut out: Vec<Transaction> = Vec::new();
    let n = transactions.len();
    let mut i: usize = 0;
    proof {
        reveal(Seq::filter);
        assert(transactions@.subrange(0, 0).len() == 0);
    }
    while i < n
        invariant
            n == transactions@.len(),
            i <= n,
            out@ == spec_filtered(
                transactions@.subrange(0, i as int),
                period_start as int,
                period_end as int,
            ),
        decreases n - i,
    {
        let tx = &transactions[i];
        proof {
            reveal(Seq::filter);
            assert(transactions@.subrange(0, i as int + 1).drop_last() =~= transactions@.subrange(
                0,
                i as int,
            ));
            assert(transactions@.subrange(0, i as int + 1).last() == transactions@[i as int]);
        }
        if tx.in_period(period_start, period_end) {
            out.push(tx.clone());
        }
        i += 1;
    }
    proof {
        assert(transactions@.subrange(0, n as int) =~= transactions@);
    }
    out
}

/// The first admissibility fault among `transactions` under `settings`, or
/// `None` when every transaction has nonzero amounts and tracked tickers.
fn first_fault(transactions: &Vec<Transaction>, settings: &ReportSettings) -> (r: Option<TxFault>)
    ensures
        r == spec_first_fault(transactions@, ticker_set(settings.spec_assets())),
{
    let ghost tickers = ticker_set(settings.spec_assets());
    let n = transactions.len();
    let mut i: usize = 0;
    proof {
        assert(transactions@.skip(0) =~= transactions@);
    }
    while i < n
        invariant
            n == transactions@.len(),
            i <= n,
            tickers == ticker_set(settings.spec_assets()),
            spec_first_fault(transactions@, tickers) == spec_first_fault(
                transactions@.skip(i as int),
                tickers,
            ),
        decreases n - i,
    {
        let tx = &transactions[i];
        proof {
            assert(transactions@.skip(i as int)[0] == transactions@[i as int]);
            assert(transactions@.skip(i as int).drop_first() =~= transactions@.skip(i as int + 1));
        }
        if tx.is_invalid() {
            return Some(TxFault::ZeroAmount);
        }
        if !settings.contains_transaction_asset(tx) {
            proof {
                assert(tickers.contains(tx.spec_base()) == tracks(
                    settings.spec_assets(),
                    tx.spec_base(),
                ));
                assert(tickers.contains(tx.spec_quote()) == tracks(
                    settings.spec_assets(),
                    tx.spec_quote(),
                ));
            }
            return Some(TxFault::Untracked);
        }
        proof {
            assert(tickers.contains(tx.spec_base()) && tickers.contains(tx.spec_quote()));
        }
        i += 1;
    }
    proof {
        assert(transactions@.skip(n as int).len() == 0);
    }
    None
}

/// Run the whole pipeline: reject an empty-or-backwards period, resolve and
/// validate the settings (falling back to the defaults when none were
/// submitted), drop out-of-period transactions, reject any remaining
/// transaction with a zero amount or an untracked ticker, and fold the rest
/// into a balance sheet. Exactly one informational message reports when the
/// default settings were used.
pub fn generate_report(
    period_start: i64,
    period_end: i64,
    settings: Option<ReportSettings>,
    initial_balance: Option<Vec<(String, i64)>>,
    transactions: Vec<Transaction>,
) -> (r: Result<ReportOutput, ReportError>)
    ensures
        match r {
            Result::Ok(out) => {
                let filtered = spec_filtered(
                    transactions@,
                    period_start as int,
                    period_end as int,
                );
                &&& period_start < period_end
                &&& (settings matches Option::Some(s) ==> s.spec_is_valid())
                &&& spec_first_fault(filtered, spec_resolved_tickers(settings)) is None
                &&& out.data.wf()
                &&& out.data@ == spec_generate(
                    filtered,
                    initial_balance,
                    spec_resolved_tickers(settings),
                )
                &&& (settings is Some ==> out.messages@.len() == 0)
                &&& (settings is None ==> out.messages@.len() == 1 && out.messages@[0]@
                    == "Default report settings used"@)
            },
            Result::Err(e) => {
                let filtered = spec_filtered(
                    transactions@,
                    period_start as int,
                    period_end as int,
                );
                match e {
                    ReportError::InvalidPeriod => period_start >= period_end,
                    ReportError::SettingsInvalid(reason, original) => {
                        &&& period_start < period_end
                        &&& settings == Option::Some(original)
                        &&& !original.spec_is_valid()
                        &&& reason@ == (if has_duplicate_ticker(original.spec_assets()) {
                            "Assets must not contain duplicate tickers"@
                        } else {
                            "The accounting currency must be an asset"@
                        })
                    },
                    ReportError::TransactionInvalid => {
                        &&& period_start < period_end
                        &&& (settings matches Option::Some(s) ==> s.spec_is_valid())
                        &&& spec_first_fault(filtered, spec_resolved_tickers(settings))
                            == Option::Some(TxFault::ZeroAmount)
                    },
                    ReportError::AssetNotTracked => {
                        &&& period_start < period_end
                        &&& (settings matches Option::Some(s) ==> s.spec_is_valid())
                        &&& spec_first_fault(filtered, spec_resolved_tickers(settings))
                            == Option::Some(TxFault::Untracked)
                    },
                }
            },
        },
{
    if period_start >= period_end {
        return Err(ReportError::InvalidPeriod);
    }
    let ghost submitted = settings;
    let (resolved, used_default): (ReportSettings, bool) = match settings {
        Some(s) => match s.validate() {
            Ok(valid) => (valid, false),
            Err((reason, original)) => {
                return Err(ReportError::SettingsInvalid(reason, original));
            },
        },
        None => (ReportSettings::default(), true),
    };
    proof {
        assert(ticker_set(resolved.spec_assets()) == spec_resolved_tickers(submitted));
    }
    let filtered = filter_transactions(&transactions, period_start, period_end);
    match first_fault(&filtered, &resolved) {
        Some(TxFault::ZeroAmount) => {
            return Err(ReportError::TransactionInvalid);
        },
        Some(TxFault::Untracked) => {
            return Err(ReportError::AssetNotTracked);
        },
        None => {},
    }
    let sheet = BalanceSheet::generate(&filtered, &initial_balance, &resolved);
    let mut messages: Vec<String> = Vec::new();
    if used_default {
        messages.push(String::from_str("Default report settings used"));
    }
    Ok(ReportOutput { data: sheet, messages })
}

} // verus!
