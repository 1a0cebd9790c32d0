//! Currencies the ledger can hold amounts in.

use vstd::prelude::*;

verus! {

#[derive(Debug)]
pub struct Currency {
    pub code: String,
    pub name: String,
    pub symbol: String,
    pub decimal_places: i64,
    pub created_at: String,
}

#[derive(Debug)]
pub struct NewCurrency {
    pub code: String,
    pub name: String,
    pub symbol: String,
    pub decimal_places: i64,
}

/// The decimal places a currency has when none is given.
pub fn default_decimals() -> (d: i64)
    ensures
        d == 2,
{
    2
}

} // verus!
