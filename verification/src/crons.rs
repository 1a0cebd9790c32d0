//! Scheduled adjustments: the request and response shapes.

use vstd::prelude::*;

use crate::iso_date::IsoDate;
use crate::money::Money;
use crate::text::{join2, str_eq};

verus! {

/// What a scheduled adjustment does each period.
#[derive(Debug, Clone, Copy, PartialEq, Eq, Structural)]
pub enum CronKind {
    Appreciation,
    Depreciation,
    Interest,
    FixedTransaction,
}

impl CronKind {
    /// The stored text of each kind.
    pub open spec fn text(self) -> Seq<char> {
        match self {
            CronKind::Appreciation => "appreciation"@,
            CronKind::Depreciation => "depreciation"@,
            CronKind::Interest => "interest"@,
            CronKind::FixedTransaction => "fixed_transaction"@,
        }
    }

    /// The kind whose stored text is `s`, if any.
    pub open spec fn parse_text(s: Seq<char>) -> Option<CronKind> {
        if s == "appreciation"@ {
            Some(CronKind::Appreciation)
        } else if s == "depreciation"@ {
            Some(CronKind::Depreciation)
        } else if s == "interest"@ {
            Some(CronKind::Interest)
        } else if s == "fixed_transaction"@ {
            Some(CronKind::FixedTransaction)
        } else {
            None
        }
    }

    pub fn as_str(self) -> (r: &'static str)
        ensures
            r@ == self.text(),
    {
        match self {
            CronKind::Appreciation => "appreciation",
            CronKind::Depreciation => "depreciation",
            CronKind::Interest => "interest",
            CronKind::FixedTransaction => "fixed_transaction",
        }
    }

    /// Read a stored kind back. Unknown text is an error that quotes it.
    pub fn from_str(s: &str) -> (r: Result<CronKind, String>)
        ensures
            match Self::parse_text(s@) {
                Some(k) => r == Ok::<CronKind, String>(k),
                None => r matches Err(m) && m@ == "unknown cron kind '"@ + s@ + "'"@,
            },
    {
        if str_eq(s, "appreciation") {
            Ok(CronKind::Appreciation)
        } else if str_eq(s, "depreciation") {
            Ok(CronKind::Depreciation)
        } else if str_eq(s, "interest") {
            Ok(CronKind::Interest)
        } else if str_eq(s, "fixed_transaction") {
            Ok(CronKind::FixedTransaction)
        } else {
            let mut m = join2("unknown cron kind '", s);
            m.append("'");
            Err(m)
        }
    }
}

/// Every kind reads back from its stored text as itself.
pub proof fn lemma_cron_kind_round_trip(k: CronKind)
    ensures
        CronKind::parse_text(k.text()) == Some(k),
{
    reveal_strlit("appreciation");
    reveal_strlit("depreciation");
    reveal_strlit("interest");
    reveal_strlit("fixed_transaction");
    assert("appreciation"@.len() == 12);
    assert("depreciation"@.len() == 12);
    assert("interest"@.len() == 8);
    assert("fixed_transaction"@.len() == 17);
    assert("appreciation"@[0] == 'a');
    assert("depreciation"@[0] == 'd');
}

#[derive(Debug)]
pub struct Cron {
    pub id: i64,
    pub name: String,
    pub account_id: i64,
    pub kind: CronKind,
    pub rate_bps: Option<i64>,
    pub amount_minor: Option<i64>,
    pub category_id: Option<i64>,
    pub frequency: String,
    pub day_of_month: i64,
    pub start_date: String,
    pub last_run_on: Option<String>,
    pub enabled: bool,
    pub created_at: String,
    pub updated_at: String,
}

/// Write body. The amount is bounded like every other money figure at the edge: a cron posts
/// it again every period.
#[derive(Debug)]
pub struct SaveCron {
    pub name: String,
    pub account_id: i64,
    pub kind: CronKind,
    pub rate_bps: Option<i64>,
    pub amount_minor: Option<Money>,
    pub category_id: Option<i64>,
    pub day_of_month: Option<i64>,
    pub start_date: IsoDate,
    pub enabled: bool,
}

#[derive(Debug)]
pub struct CronRun {
    pub id: i64,
    pub cron_id: i64,
    pub period: String,
    pub kind: CronKind,
    pub valuation_id: Option<i64>,
    pub transaction_id: Option<i64>,
    pub detail: Option<String>,
    pub created_at: String,
}

#[derive(Debug)]
pub struct CronRunResult {
    pub applied: i64,
    pub runs: Vec<CronRun>,
}

} // verus!
