//! Report settings: the accounting currency and the set of tracked assets.

use vstd::prelude::*;

use crate::asset::Asset;
use crate::transaction::Transaction;

verus! {

/// Whether some asset in `assets` carries the ticker `ticker`.
pub open spec fn tracks(assets: Seq<Asset>, ticker: Seq<char>) -> bool {
    exists|i: int| 0 <= i < assets.len() && assets[i].spec_ticker() == ticker
}

/// Whether two distinct entries of `assets` share a ticker. Identity is the
/// ticker alone, so such a pair makes the settings ambiguous.
pub open spec fn has_duplicate_ticker(assets: Seq<Asset>) -> bool {
    exists|i: int, j: int|
        0 <= i < j < assets.len() && assets[i].spec_ticker() == assets[j].spec_ticker()
}

/// The set of tickers that `assets` tracks.
pub open spec fn ticker_set(assets: Seq<Asset>) -> Set<Seq<char>> {
    Set::new(|t: Seq<char>| tracks(assets, t))
}

/// The tickers tracked by the default report settings.
pub open spec fn default_ticker_set() -> Set<Seq<char>> {
    Set::new(|t: Seq<char>| t == "USD"@ || t == "BTC"@)
}

/// Appending one asset extends the tracked tickers by exactly its ticker.
pub proof fn lemma_tracks_push(assets: Seq<Asset>, asset: Asset, ticker: Seq<char>)
    ensures
        tracks(assets.push(asset), ticker) <==> (tracks(assets, ticker) || asset.spec_ticker()
            == ticker),
{
    if tracks(assets.push(asset), ticker) {
        let i = choose|i: int|
            0 <= i < assets.push(asset).len() && assets.push(asset)[i].spec_ticker() == ticker;
        if i < assets.len() {
            assert(assets[i].spec_ticker() == ticker);
        }
    }
    if tracks(assets, ticker) {
        let i = choose|i: int| 0 <= i < assets.len() && assets[i].spec_ticker() == ticker;
        assert(assets.push(asset)[i].spec_ticker() == ticker);
    }
    if asset.spec_ticker() == ticker {
        assert(assets.push(asset)[assets.len() as int].spec_ticker() == ticker);
    }
}

/// The recognized assets and the accounting currency a report is denominated
/// against. Internally consistent settings track no ticker twice and track
/// the accounting currency itself; `validate` checks both.
pub struct ReportSettings {
    accounting_currency: String,
    assets: Vec<Asset>,
}

impl ReportSettings {
    pub closed spec fn spec_accounting_currency(&self) -> Seq<char> {
        self.accounting_currency@
    }

    pub closed spec fn spec_assets(&self) -> Seq<Asset> {
        self.assets@
    }

    /// The two invariants of well-formed settings: no two tracked assets
    /// share a ticker, and the accounting currency is itself tracked.
    pub open spec fn spec_is_valid(&self) -> bool {
        &&& !has_duplicate_ticker(self.spec_assets())
        &&& tracks(self.spec_assets(), self.spec_accounting_currency())
    }

    pub fn new(accounting_currency: String, assets: Vec<Asset>) -> (r: ReportSettings)
        ensures
            r.spec_accounting_currency() == accounting_currency@,
            r.spec_assets() == assets@,
    {
        ReportSettings { accounting_currency, assets }
    }

    pub fn accounting_currency(&self) -> (r: &String)
        ensures
            r@ == self.spec_accounting_currency(),
    {
        &self.accounting_currency
    }

    pub fn assets(&self) -> (r: &Vec<Asset>)
        ensures
            r@ == self.spec_assets(),
    {
        &self.assets
    }

    /// Whether `ticker` is one of the tracked assets' tickers.
    pub fn tracks_ticker(&self, ticker: &String) -> (r: bool)
        ensures
            r == tracks(self.spec_assets(), ticker@),
    {
        let n = self.assets.len();
        let mut i: usize = 0;
        while i < n
            invariant
                n == self.assets@.len(),
                i <= n,
                forall|j: int| 0 <= j < i ==> self.assets@[j].spec_ticker() != ticker@,
            decreases n - i,
        {
            let a = &self.assets[i];
            if *a.ticker() == *ticker {
                assert(tracks(self.spec_assets(), ticker@)) by {
                    assert(self.spec_assets()[i as int].spec_ticker() == ticker@);
                }
                return true;
            }
            i += 1;
        }
        false
    }

    /// Whether both the base and the quote asset of `tx` are tracked. A
    /// transaction touching an untracked asset is inadmissible for a report.
    pub fn contains_transaction_asset(&self, tx: &Transaction) -> (r: bool)
        ensures
            r == (tracks(self.spec_assets(), tx.spec_base()) && tracks(
                self.spec_assets(),
                tx.spec_quote(),
            )),
    {
        self.tracks_ticker(tx.base()) && self.tracks_ticker(tx.quote())
    }

    fn has_duplicate(&self) -> (r: bool)
        ensures
            r == has_duplicate_ticker(self.spec_assets()),
    {
        let n = self.assets.len();
        let mut i: usize = 0;
        while i < n
            invariant
                n == self.assets@.len(),
                i <= n,
                forall|p: int, q: int|
                    0 <= p < q < self.assets@.len() && p < i ==> self.assets@[p].spec_ticker()
                        != self.assets@[q].spec_ticker(),
            decreases n - i,
        {
            let mut j: usize = i + 1;
            while j < n
                invariant
                    n == self.assets@.len(),
                    i < j <= n,
                    forall|q: int|
                        i < q < j ==> self.assets@[i as int].spec_ticker()
                            != self.assets@[q].spec_ticker(),
                decreases n - j,
            {
                let a = &self.assets[i];
                let b = &self.assets[j];
                if *a.ticker() == *b.ticker() {
                    assert(has_duplicate_ticker(self.spec_assets())) by {
                        assert(self.spec_assets()[i as int].spec_ticker()
                            == self.spec_assets()[j as int].spec_ticker());
                    }
                    return true;
                }
                j += 1;
            }
            i += 1;
        }
        false
    }

    /// Check the two settings invariants, in order: first duplicate tickers,
    /// then the accounting currency. Validation consumes the settings; on
    /// failure the untouched settings come back beside the reason, so the
    /// caller can echo what was rejected.
    pub fn validate(self) -> (r: Result<ReportSettings, (String, ReportSettings)>)
        ensures
            match r {
                Result::Ok(s) => self.spec_is_valid() && s == self,
                Result::Err((reason, original)) => {
                    &&& !self.spec_is_valid()
                    &&& original == self
                    &&& reason@ == (if has_duplicate_ticker(self.spec_assets()) {
                        "Assets must not contain duplicate tickers"@
                    } else {
                        "The accounting currency must be an asset"@
                    })
                },
            },
    {
        if self.has_duplicate() {
            return Err((String::from_str("Assets must not contain duplicate tickers"), self));
        }
        if !self.tracks_ticker(&self.accounting_currency) {
            return Err((String::from_str("The accounting currency must be an asset"), self));
        }
        Ok(self)
    }
}

impl Default for ReportSettings {
    /// The baseline settings used when a request carries none: accounting
    /// currency "USD", tracked assets USD and BTC with their standard
    /// display metadata.
    fn default() -> (r: ReportSettings)
        ensures
            r.spec_accounting_currency() == "USD"@,
            r.spec_assets().len() == 2,
            r.spec_assets()[0].spec_ticker() == "USD"@,
            r.spec_assets()[0].spec_name() == "United States Dollar"@,
            r.spec_assets()[0].spec_symbol() == "$"@,
            r.spec_assets()[0].spec_precision() == 2,
            r.spec_assets()[1].spec_ticker() == "BTC"@,
            r.spec_assets()[1].spec_name() == "Bitcoin"@,
            r.spec_assets()[1].spec_symbol() == "₿"@,
            r.spec_assets()[1].spec_precision() == 8,
            r.spec_is_valid(),
            ticker_set(r.spec_assets()) == default_ticker_set(),
    {
        let mut assets: Vec<Asset> = Vec::new();
        assets.push(Asset::new("USD", "United States Dollar", "$", 2));
        assets.push(Asset::new("BTC", "Bitcoin", "₿", 8));
        let r = ReportSettings { accounting_currency: String::from_str("USD"), assets };
        proof {
            reveal_strlit("USD");
            reveal_strlit("BTC");
            assert("USD"@.len() == 3 && "BTC"@.len() == 3);
            assert("USD"@[0] != "BTC"@[0]);
            assert(r.spec_assets()[0].spec_ticker() == "USD"@);
            assert(r.spec_assets()[1].spec_ticker() == "BTC"@);
            assert(tracks(r.spec_assets(), r.spec_accounting_currency()));
            assert(!has_duplicate_ticker(r.spec_assets())) by {
                assert forall|i: int, j: int| 0 <= i < j < r.spec_assets().len() implies r.spec_assets()[i].spec_ticker() != r.spec_assets()[j].spec_ticker() by {
                    assert(i == 0 && j == 1);
                }
            }
            assert(ticker_set(r.spec_assets()) =~= default_ticker_set()) by {
                assert forall|t: Seq<char>| tracks(r.spec_assets(), t) implies (t == "USD"@ || t
                    == "BTC"@) by {
                    let i = choose|i: int|
                        0 <= i < r.spec_assets().len() && r.spec_assets()[i].spec_ticker() == t;
                    assert(i == 0 || i == 1);
                }
                assert(tracks(r.spec_assets(), "BTC"@));
            }
        }
        r
    }
}

} // verus!
