//! Brokerage accounts: holdings lots, wallet balances and dividend detail.

use vstd::prelude::*;

use crate::text::{join2, str_eq};

verus! {

/// What a holdings lot records.
#[derive(Debug, Clone, Copy, PartialEq, Eq, Structural)]
pub enum LotKind {
    Buy,
    Sell,
    Corporate,
}

impl LotKind {
    /// The stored text of each kind.
    pub open spec fn text(self) -> Seq<char> {
        match self {
            LotKind::Buy => "buy"@,
            LotKind::Sell => "sell"@,
            LotKind::Corporate => "corporate"@,
        }
    }

    /// The kind whose stored text is `s`, if any.
    pub open spec fn parse_text(s: Seq<char>) -> Option<LotKind> {
        if s == "buy"@ {
            Some(LotKind::Buy)
        } else if s == "sell"@ {
            Some(LotKind::Sell)
        } else if s == "corporate"@ {
            Some(LotKind::Corporate)
        } else {
            None
        }
    }

    pub fn as_str(self) -> (r: &'static str)
        ensures
            r@ == self.text(),
    {
        match self {
            LotKind::Buy => "buy",
            LotKind::Sell => "sell",
            LotKind::Corporate => "corporate",
        }
    }

    /// Read a stored kind back. Unknown text is an error that quotes it.
    pub fn from_str(s: &str) -> (r: Result<LotKind, String>)
        ensures
            match Self::parse_text(s@) {
                Some(k) => r == Ok::<LotKind, String>(k),
                None => r matches Err(m) && m@ == "unknown lot kind '"@ + s@ + "'"@,
            },
    {
        if str_eq(s, "buy") {
            Ok(LotKind::Buy)
        } else if str_eq(s, "sell") {
            Ok(LotKind::Sell)
        } else if str_eq(s, "corporate") {
            Ok(LotKind::Corporate)
        } else {
            let mut m = join2("unknown lot kind '", s);
            m.append("'");
            Err(m)
        }
    }
}

/// Every kind reads back from its stored text as itself.
pub proof fn lemma_lot_kind_round_trip(k: LotKind)
    ensures
        LotKind::parse_text(k.text()) == Some(k),
{
    reveal_strlit("buy");
    reveal_strlit("sell");
    reveal_strlit("corporate");
    assert("buy"@.len() == 3);
    assert("sell"@.len() == 4);
    assert("corporate"@.len() == 9);
}

/// The kind a manually entered lot has when none is given.
pub fn manual_kind() -> (k: LotKind)
    ensures
        k == LotKind::Buy,
{
    LotKind::Buy
}

#[derive(Debug, Clone)]
pub struct WalletBalance {
    pub currency_code: String,
    pub amount_minor: i64,
}

/// Money in and out of a brokerage account over the last thirty days.
#[derive(Debug, Clone)]
pub struct BrokerageActivity30d {
    pub contributions_minor: i64,
    pub withdrawals_minor: i64,
    pub trades: i64,
}

impl Default for BrokerageActivity30d {
    fn default() -> (a: BrokerageActivity30d)
        ensures
            a.contributions_minor == 0 && a.withdrawals_minor == 0 && a.trades == 0,
    {
        BrokerageActivity30d { contributions_minor: 0, withdrawals_minor: 0, trades: 0 }
    }
}

#[derive(Debug, Clone)]
pub struct DividendWithholding {
    pub id: i64,
    pub dividend_id: i64,
    pub owed_to: String,
    pub tax_amount_minor: i64,
    pub tax_credit_minor: Option<i64>,
    pub currency_code: String,
}

#[derive(Debug)]
pub struct BrokerageImportResult {
    pub transactions_imported: i64,
    pub transactions_skipped: i64,
    pub holdings_imported: i64,
    pub holdings_skipped: i64,
    pub dividends_imported: i64,
    pub dividends_skipped: i64,
    pub warnings: Vec<String>,
}

impl Default for BrokerageImportResult {
    fn default() -> (r: BrokerageImportResult)
        ensures
            r.transactions_imported == 0 && r.transactions_skipped == 0 && r.holdings_imported == 0
                && r.holdings_skipped == 0 && r.dividends_imported == 0 && r.dividends_skipped
                == 0 && r.warnings@.len() == 0,
    {
        BrokerageImportResult {
            transactions_imported: 0,
            transactions_skipped: 0,
            holdings_imported: 0,
            holdings_skipped: 0,
            dividends_imported: 0,
            dividends_skipped: 0,
            warnings: Vec::new(),
        }
    }
}

} // verus!
