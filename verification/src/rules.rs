//! Categorisation rules: the stored rule, its runs, and what a preview shows.

use vstd::prelude::*;

use crate::text::{join2, str_eq};

verus! {

/// What started a rule run: one rule by hand, every rule by hand, or new transactions arriving.
#[derive(Debug, Clone, Copy, PartialEq, Eq, Structural)]
pub enum RuleRunKind {
    Single,
    All,
    Auto,
}

impl RuleRunKind {
    /// The stored text of each kind.
    pub open spec fn text(self) -> Seq<char> {
        match self {
            RuleRunKind::Single => "single"@,
            RuleRunKind::All => "all"@,
            RuleRunKind::Auto => "auto"@,
        }
    }

    /// The kind whose stored text is `s`, if any.
    pub open spec fn parse_text(s: Seq<char>) -> Option<RuleRunKind> {
        if s == "single"@ {
            Some(RuleRunKind::Single)
        } else if s == "all"@ {
            Some(RuleRunKind::All)
        } else if s == "auto"@ {
            Some(RuleRunKind::Auto)
        } else {
            None
        }
    }

    pub fn as_str(self) -> (r: &'static str)
        ensures
            r@ == self.text(),
    {
        match self {
            RuleRunKind::Single => "single",
            RuleRunKind::All => "all",
            RuleRunKind::Auto => "auto",
        }
    }

    /// Read a stored kind back. Unknown text is an error that quotes it.
    pub fn from_str(s: &str) -> (r: Result<RuleRunKind, String>)
        ensures
            match Self::parse_text(s@) {
                Some(k) => r == Ok::<RuleRunKind, String>(k),
                None => r matches Err(m) && m@ == "unknown rule run kind '"@ + s@ + "'"@,
            },
    {
        if str_eq(s, "single") {
            Ok(RuleRunKind::Single)
        } else if str_eq(s, "all") {
            Ok(RuleRunKind::All)
        } else if str_eq(s, "auto") {
            Ok(RuleRunKind::Auto)
        } else {
            let mut m = join2("unknown rule run kind '", s);
            m.append("'");
            Err(m)
        }
    }
}

/// Every kind reads back from its stored text as itself.
pub proof fn lemma_rule_run_kind_round_trip(k: RuleRunKind)
    ensures
        RuleRunKind::parse_text(k.text()) == Some(k),
{
    reveal_strlit("single");
    reveal_strlit("all");
    reveal_strlit("auto");
    assert("single"@.len() == 6);
    assert("all"@.len() == 3);
    assert("auto"@.len() == 4);
}

#[derive(Debug, Clone)]
pub struct Rule {
    pub id: i64,
    pub name: String,
    pub description: Option<String>,
    pub expression: String,
    pub set_category_id: Option<i64>,
    pub set_one_off: Option<bool>,
    pub set_merchant_id: Option<i64>,
    pub overwrite_manual: bool,
    pub stop_on_match: bool,
    pub priority: i64,
    pub enabled: bool,
    pub created_at: String,
    pub updated_at: String,
}

#[derive(Debug)]
pub struct SaveRule {
    pub name: String,
    pub description: Option<String>,
    pub expression: String,
    pub set_category_id: Option<i64>,
    pub set_one_off: Option<bool>,
    pub set_merchant_id: Option<i64>,
    pub overwrite_manual: bool,
    pub stop_on_match: bool,
    pub priority: i64,
    pub enabled: bool,
}

#[derive(Debug)]
pub struct RuleRun {
    pub id: i64,
    pub rule_id: Option<i64>,
    pub kind: RuleRunKind,
    pub matched: i64,
    pub changed: i64,
    pub undone: bool,
    pub created_at: String,
}

#[derive(Debug)]
pub struct RuleApplicationDetail {
    pub id: i64,
    pub transaction_id: i64,
    pub posted_at: String,
    pub description: String,
    pub amount_minor: i64,
    pub currency_code: String,
    pub prev_category_id: Option<i64>,
    pub new_category_id: Option<i64>,
    pub prev_merchant_id: Option<i64>,
    pub new_merchant_id: Option<i64>,
    pub prev_one_off: Option<bool>,
    pub new_one_off: Option<bool>,
    pub reverted: bool,
}

#[derive(Debug)]
pub struct RunResult {
    pub run_id: i64,
    pub matched: i64,
    pub changed: i64,
}

#[derive(Debug)]
pub struct PreviewRequest {
    pub expression: String,
    pub limit: Option<i64>,
}

#[derive(Debug)]
pub struct RulePreview {
    pub matched: i64,
    pub sample: Vec<PreviewMatch>,
}

#[derive(Debug)]
pub struct PreviewMatch {
    pub transaction_id: i64,
    pub posted_at: String,
    pub description: String,
    pub amount_minor: i64,
    pub currency_code: String,
    pub category_id: Option<i64>,
}

} // verus!
