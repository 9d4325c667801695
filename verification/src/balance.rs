//! The balance sheet: per-asset balances folded from a transaction sequence.

use vstd::prelude::*;

use crate::asset::Asset;
use crate::report::{ticker_set, tracks, ReportSettings};
use crate::transaction::Transaction;

verus! {

/// Addition on balances, saturating at the ends of the `i64` range. The
/// accumulation never overflows; a sum beyond the representable range sticks
/// to the nearest bound.
pub open spec fn sat_add(a: int, b: int) -> int {
    if a + b > i64::MAX {
        i64::MAX as int
    } else if a + b < i64::MIN {
        i64::MIN as int
    } else {
        a + b
    }
}

/// The mapping that a sequence of (ticker, balance) entries stands for.
/// A later entry for the same ticker would win, but well-formed sheets
/// never hold two entries for one ticker.
pub open spec fn entries_map(s: Seq<(String, i64)>) -> Map<Seq<char>, int>
    decreases s.len(),
{
    if s.len() == 0 {
        Map::empty()
    } else {
        entries_map(s.drop_last()).insert(s.last().0@, s.last().1 as int)
    }
}

/// No two entries carry the same ticker.
pub open spec fn unique_tickers(s: Seq<(String, i64)>) -> bool {
    forall|p: int, q: int| 0 <= p < q < s.len() ==> s[p].0@ != s[q].0@
}

/// The caller-supplied starting balance for `ticker`: the first entry with
/// that ticker, or zero when the mapping is absent or has no such entry.
pub open spec fn spec_first_value(s: Seq<(String, i64)>, ticker: Seq<char>) -> int
    decreases s.len(),
{
    if s.len() == 0 {
        0
    } else if s[0].0@ == ticker {
        s[0].1 as int
    } else {
        spec_first_value(s.drop_first(), ticker)
    }
}

/// See `spec_first_value`; an absent initial mapping seeds every ticker at
/// zero.
pub open spec fn spec_initial_value(init: Option<Vec<(String, i64)>>, ticker: Seq<char>) -> int {
    match init {
        Option::Some(v) => spec_first_value(v@, ticker),
        Option::None => 0,
    }
}

/// The seeded balance map: one entry per tracked ticker, at its initial
/// value. Initial values for untracked tickers are ignored.
pub open spec fn spec_seed(tickers: Set<Seq<char>>, init: Option<Vec<(String, i64)>>) -> Map<
    Seq<char>,
    int,
> {
    Map::new(|t: Seq<char>| tickers.contains(t), |t: Seq<char>| spec_initial_value(init, t))
}

/// Crediting `amount` to `ticker`: the entry is created at zero first if the
/// ticker had none, then the amount is added, saturating.
pub open spec fn spec_credit(m: Map<Seq<char>, int>, ticker: Seq<char>, amount: int) -> Map<
    Seq<char>,
    int,
> {
    let cur = if m.dom().contains(ticker) {
        m[ticker]
    } else {
        0
    };
    m.insert(ticker, sat_add(cur, amount))
}

/// Folding one transaction into the balances: its base amount is credited to
/// the base ticker, then its quote amount to the quote ticker.
pub open spec fn spec_apply(m: Map<Seq<char>, int>, tx: Transaction) -> Map<Seq<char>, int> {
    spec_credit(
        spec_credit(m, tx.spec_base(), tx.spec_base_amount() as int),
        tx.spec_quote(),
        tx.spec_quote_amount() as int,
    )
}

/// Folding a whole transaction sequence, in input order.
pub open spec fn spec_fold(m: Map<Seq<char>, int>, txs: Seq<Transaction>) -> Map<Seq<char>, int>
    decreases txs.len(),
{
    if txs.len() == 0 {
        m
    } else {
        spec_apply(spec_fold(m, txs.drop_last()), txs.last())
    }
}

/// The balance map a generated sheet holds: the seeded map with every
/// transaction folded in, in input order.
pub open spec fn spec_generate(
    txs: Seq<Transaction>,
    init: Option<Vec<(String, i64)>>,
    tickers: Set<Seq<char>>,
) -> Map<Seq<char>, int> {
    spec_fold(spec_seed(tickers, init), txs)
}

/// Generation is a pure function of its inputs: two balance sheets built
/// from the same transactions, initial balances and ticker set agree on
/// every balance.
pub proof fn lemma_generate_deterministic(
    b1: BalanceSheet,
    b2: BalanceSheet,
    txs: Seq<Transaction>,
    init: Option<Vec<(String, i64)>>,
    tickers: Set<Seq<char>>,
)
    requires
        b1@ == spec_generate(txs, init, tickers),
        b2@ == spec_generate(txs, init, tickers),
    ensures
        b1@ == b2@,
{
}

proof fn lemma_entries_map_contains(s: Seq<(String, i64)>, ticker: Seq<char>)
    ensures
        entries_map(s).dom().contains(ticker) <==> (exists|i: int|
            0 <= i < s.len() && s[i].0@ == ticker),
    decreases s.len(),
{
    if s.len() > 0 {
        lemma_entries_map_contains(s.drop_last(), ticker);
        if s.last().0@ == ticker {
            assert(s[s.len() - 1].0@ == ticker);
        } else {
            if exists|i: int| 0 <= i < s.len() && s[i].0@ == ticker {
                let i = choose|i: int| 0 <= i < s.len() && s[i].0@ == ticker;
                assert(s.drop_last()[i].0@ == ticker);
            }
            if exists|i: int| 0 <= i < s.drop_last().len() && s.drop_last()[i].0@ == ticker {
                let i = choose|i: int| 0 <= i < s.drop_last().len() && s.drop_last()[i].0@ == ticker;
                assert(s[i].0@ == ticker);
            }
        }
    }
}

proof fn lemma_entries_map_value(s: Seq<(String, i64)>, i: int)
    requires
        unique_tickers(s),
        0 <= i < s.len(),
    ensures
        entries_map(s).dom().contains(s[i].0@),
        entries_map(s)[s[i].0@] == s[i].1 as int,
    decreases s.len(),
{
    if i == s.len() - 1 {
    } else {
        assert(unique_tickers(s.drop_last())) by {
            assert(forall|p: int, q: int|
                0 <= p < q < s.drop_last().len() ==> s.drop_last()[p].0@ != s.drop_last()[q].0@);
        }
        assert(s.drop_last()[i] == s[i]);
        lemma_entries_map_value(s.drop_last(), i);
        assert(s[i].0@ != s.last().0@);
    }
}

proof fn lemma_entries_map_update(s: Seq<(String, i64)>, i: int, entry: (String, i64))
    requires
        unique_tickers(s),
        0 <= i < s.len(),
        entry.0@ == s[i].0@,
    ensures
        entries_map(s.update(i, entry)) == entries_map(s).insert(entry.0@, entry.1 as int),
        unique_tickers(s.update(i, entry)),
    decreases s.len(),
{
    let t = s.update(i, entry);
    assert(unique_tickers(t)) by {
        assert(forall|p: int| 0 <= p < t.len() ==> t[p].0@ == s[p].0@);
    }
    if i == s.len() - 1 {
        assert(t.drop_last() =~= s.drop_last());
        assert(t.last() == entry);
        assert(entries_map(s.drop_last()).insert(entry.0@, entry.1 as int) =~= entries_map(
            s,
        ).insert(entry.0@, entry.1 as int));
    } else {
        assert(unique_tickers(s.drop_last())) by {
            assert(forall|p: int, q: int|
                0 <= p < q < s.drop_last().len() ==> s.drop_last()[p].0@ != s.drop_last()[q].0@);
        }
        assert(s.drop_last()[i] == s[i]);
        lemma_entries_map_update(s.drop_last(), i, entry);
        assert(t.drop_last() =~= s.drop_last().update(i, entry));
        assert(t.last() == s.last());
        // The two inserted keys differ, so the inserts commute.
        assert(s[i].0@ != s.last().0@);
        assert(entries_map(s.drop_last()).insert(entry.0@, entry.1 as int).insert(
            s.last().0@,
            s.last().1 as int,
        ) =~= entries_map(s.drop_last()).insert(s.last().0@, s.last().1 as int).insert(
            entry.0@,
            entry.1 as int,
        ));
    }
}

/// An ephemeral per-request balance sheet: a mapping from asset ticker to
/// the cumulative signed balance. Viewed abstractly as a `Map` from ticker
/// characters to the exact balance.
pub struct BalanceSheet {
    entries: Vec<(String, i64)>,
}

impl View for BalanceSheet {
    type V = Map<Seq<char>, int>;

    closed spec fn view(&self) -> Map<Seq<char>, int> {
        entries_map(self.entries@)
    }
}

/// Saturating addition on `i64`, mirroring `sat_add`.
fn saturating_add_i64(a: i64, b: i64) -> (r: i64)
    ensures
        r as int == sat_add(a as int, b as int),
{
    match a.checked_add(b) {
        Some(v) => v,
        None => if b > 0 {
            i64::MAX
        } else {
            i64::MIN
        },
    }
}

/// The first entry of `init` carrying `ticker`, or zero.
fn initial_value(init: &Option<Vec<(String, i64)>>, ticker: &String) -> (r: i64)
    ensures
        r as int == spec_initial_value(*init, ticker@),
{
    match init {
        None => 0,
        Some(v) => {
            let n = v.len();
            let mut i: usize = 0;
            proof {
                assert(v@.skip(0) =~= v@);
            }
            while i < n
                invariant
                    n == v@.len(),
                    i <= n,
                    spec_initial_value(*init, ticker@) == spec_first_value(
                        v@.skip(i as int),
                        ticker@,
                    ),
                decreases n - i,
            {
                let e = &v[i];
                proof {
                    assert(v@.skip(i as int)[0] == v@[i as int]);
                    assert(v@.skip(i as int).drop_first() =~= v@.skip(i as int + 1));
                }
                if e.0 == *ticker {
                    return e.1;
                }
                i += 1;
            }
            proof {
                assert(v@.skip(n as int).len() == 0);
            }
            0
        },
    }
}

impl BalanceSheet {
    /// Well-formedness: one entry per ticker.
    pub closed spec fn wf(&self) -> bool {
        unique_tickers(self.entries@)
    }

    /// The balances, as (ticker, balance) entries. The entries are exactly
    /// the sheet's mapping, one entry per ticker.
    pub fn balance(&self) -> (r: &Vec<(String, i64)>)
        ensures
            entries_map(r@) == self@,
            self.wf() ==> unique_tickers(r@),
    {
        &self.entries
    }

    fn position(&self, ticker: &String) -> (r: Option<usize>)
        ensures
            match r {
                Option::Some(i) => i < self.entries@.len() && self.entries@[i as int].0@ == ticker@,
                Option::None => forall|j: int|
                    0 <= j < self.entries@.len() ==> self.entries@[j].0@ != ticker@,
            },
    {
        let n = self.entries.len();
        let mut i: usize = 0;
        while i < n
            invariant
                n == self.entries@.len(),
                i <= n,
                forall|j: int| 0 <= j < i ==> self.entries@[j].0@ != ticker@,
            decreases n - i,
        {
            let e = &self.entries[i];
            if e.0 == *ticker {
                return Some(i);
            }
            i += 1;
        }
        None
    }

    /// The balance recorded for `ticker`, or `None` when the sheet has no
    /// entry for it.
    pub fn get(&self, ticker: &String) -> (r: Option<i64>)
        requires
            self.wf(),
        ensures
            match r {
                Option::Some(v) => self@.dom().contains(ticker@) && self@[ticker@] == v as int,
                Option::None => !self@.dom().contains(ticker@),
            },
    {
        proof {
            lemma_entries_map_contains(self.entries@, ticker@);
        }
        match self.position(ticker) {
            Some(i) => {
                proof {
                    lemma_entries_map_value(self.entries@, i as int);
                }
                Some(self.entries[i].1)
            },
            None => None,
        }
    }

    /// Credit `amount` to `ticker`, creating the entry at zero first when
    /// the ticker has none.
    fn credit(&mut self, ticker: &String, amount: i64)
        requires
            old(self).wf(),
        ensures
            final(self).wf(),
            final(self)@ == spec_credit(old(self)@, ticker@, amount as int),
    {
        proof {
            lemma_entries_map_contains(self.entries@, ticker@);
        }
        match self.position(ticker) {
            Some(i) => {
                proof {
                    lemma_entries_map_value(self.entries@, i as int);
                }
                let updated = saturating_add_i64(self.entries[i].1, amount);
                let entry = (self.entries[i].0.clone(), updated);
                proof {
                    lemma_entries_map_update(self.entries@, i as int, entry);
                }
                self.entries[i] = entry;
            },
            None => {
                let ghost before = self.entries@;
                self.entries.push((ticker.clone(), saturating_add_i64(0, amount)));
                proof {
                    assert(self.entries@.drop_last() =~= before);
                    assert(self.entries@.last().0@ == ticker@);
                }
            },
        }
    }

    /// Build the balance sheet for `transactions` under `settings`: seed one
    /// entry per tracked asset at its initial value, then fold the
    /// transactions in input order. The transactions are not gated here;
    /// amounts for untracked tickers create fresh entries.
    pub fn generate(
        transactions: &Vec<Transaction>,
        initial_balance: &Option<Vec<(String, i64)>>,
        settings: &ReportSettings,
    ) -> (r: BalanceSheet)
        ensures
            r.wf(),
            r@ == spec_generate(
                transactions@,
                *initial_balance,
                ticker_set(settings.spec_assets()),
            ),
    {
        let mut sheet = BalanceSheet::seed(settings.assets(), initial_balance);
        let n = transactions.len();
        let mut i: usize = 0;
        while i < n
            invariant
                n == transactions@.len(),
                i <= n,
                sheet.wf(),
                sheet@ == spec_fold(
                    spec_seed(ticker_set(settings.spec_assets()), *initial_balance),
                    transactions@.subrange(0, i as int),
                ),
            decreases n - i,
        {
            let tx = &transactions[i];
            sheet.credit(tx.base(), *tx.base_amount());
            sheet.credit(tx.quote(), *tx.quote_amount());
            proof {
                assert(transactions@.subrange(0, i as int + 1).drop_last() =~= transactions@.subrange(
                    0,
                    i as int,
                ));
                assert(transactions@.subrange(0, i as int + 1).last() == transactions@[i as int]);
            }
            i += 1;
        }
        proof {
            assert(transactions@.subrange(0, n as int) =~= transactions@);
        }
        sheet
    }

    /// One entry per tracked asset, at its caller-supplied initial value or
    /// zero. A duplicated tracked ticker gets a single entry.
    fn seed(assets: &Vec<Asset>, initial_balance: &Option<Vec<(String, i64)>>) -> (r: BalanceSheet)
        ensures
            r.wf(),
            r@ == spec_seed(ticker_set(assets@), *initial_balance),
    {
        let mut sheet = BalanceSheet { entries: Vec::new() };
        proof {
            assert(sheet@ =~= spec_seed(ticker_set(assets@.subrange(0, 0)), *initial_balance));
        }
        let n = assets.len();
        let mut i: usize = 0;
        while i < n
            invariant
                n == assets@.len(),
                i <= n,
                sheet.wf(),
                sheet@ == spec_seed(
                    ticker_set(assets@.subrange(0, i as int)),
                    *initial_balance,
                ),
            decreases n - i,
        {
            let a = &assets[i];
            let t = a.ticker();
            let ghost prefix = assets@.subrange(0, i as int);
            proof {
                assert(assets@.subrange(0, i as int + 1) =~= prefix.push(assets@[i as int]));
                lemma_entries_map_contains(sheet.entries@, t@);
            }
            match sheet.position(t) {
                Some(_) => {
                    proof {
                        assert(sheet@.dom().contains(t@));
                        assert(ticker_set(prefix).contains(t@));
                        assert(tracks(prefix, t@));
                        assert forall|k: Seq<char>|
                            tracks(prefix.push(assets@[i as int]), k) <==> tracks(prefix, k) by {
                            crate::report::lemma_tracks_push(prefix, assets@[i as int], k);
                        }
                        assert(spec_seed(
                            ticker_set(assets@.subrange(0, i as int + 1)),
                            *initial_balance,
                        ) =~= spec_seed(ticker_set(prefix), *initial_balance));
                    }
                },
                None => {
                    let v = initial_value(initial_balance, t);
                    let ghost before = sheet.entries@;
                    sheet.entries.push((t.clone(), v));
                    proof {
                        assert(sheet.entries@.drop_last() =~= before);
                        assert(sheet.entries@.last().0@ == t@);
                        assert forall|k: Seq<char>|
                            tracks(prefix.push(assets@[i as int]), k) <==> (tracks(prefix, k) || k
                                == t@) by {
                            crate::report::lemma_tracks_push(prefix, assets@[i as int], k);
                        }
                        assert(!tracks(prefix, t@));
                        assert(spec_seed(
                            ticker_set(assets@.subrange(0, i as int + 1)),
                            *initial_balance,
                        ) =~= entries_map(before).insert(t@, v as int));
                    }
                },
            }
            i += 1;
        }
        proof {
            assert(assets@.subrange(0, n as int) =~= assets@);
        }
        sheet
    }
}

} // verus!
