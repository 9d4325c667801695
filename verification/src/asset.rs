//! A recognized asset: a ticker plus display metadata.

use vstd::prelude::*;

verus! {

/// One entry of the asset registry. The ticker is the identity key of an
/// asset: two assets with the same ticker stand for the same asset, whatever
/// their display metadata says. The remaining fields (full name, symbol
/// glyph, decimal precision) only affect display and never enter the
/// reporting arithmetic.
pub struct Asset {
    ticker: String,
    name: String,
    symbol: String,
    precision: u8,
}

impl Asset {
    /// The ticker, as a character sequence. This is the identity key used
    /// wherever assets are deduplicated or looked up.
    pub closed spec fn spec_ticker(&self) -> Seq<char> {
        self.ticker@
    }

    pub closed spec fn spec_name(&self) -> Seq<char> {
        self.name@
    }

    pub closed spec fn spec_symbol(&self) -> Seq<char> {
        self.symbol@
    }

    pub closed spec fn spec_precision(&self) -> u8 {
        self.precision
    }

    pub fn new(ticker: &str, name: &str, symbol: &str, precision: u8) -> (r: Asset)
        ensures
            r.spec_ticker() == ticker@,
            r.spec_name() == name@,
            r.spec_symbol() == symbol@,
            r.spec_precision() == precision,
    {
        Asset {
            ticker: String::from_str(ticker),
            name: String::from_str(name),
            symbol: String::from_str(symbol),
            precision,
        }
    }

    pub fn ticker(&self) -> (r: &String)
        ensures
            r@ == self.spec_ticker(),
    {
        &self.ticker
    }

    pub fn name(&self) -> (r: &String)
        ensures
            r@ == self.spec_name(),
    {
        &self.name
    }

    pub fn symbol(&self) -> (r: &String)
        ensures
            r@ == self.spec_symbol(),
    {
        &self.symbol
    }

    pub fn precision(&self) -> (r: &u8)
        ensures
            *r == self.spec_precision(),
    {
        &self.precision
    }
}

} // verus!
