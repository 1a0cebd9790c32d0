//! Investment strategies: what share of income and windfalls goes where, and when.

use vstd::prelude::*;

use crate::iso_date::{before, IsoDate};
use crate::life_events::one_if;
use crate::text::{append_decimal, int_decimal, texts, trim, trimmed};

verus! {

#[derive(Debug, Clone)]
pub struct InvestmentStrategy {
    pub id: i64,
    pub label: String,
    pub active_from: String,
    pub active_to: Option<String>,
    pub income_share_bps: i64,
    pub income_stream_id: Option<i64>,
    pub windfall_share_bps: i64,
    pub debt_above_bps: Option<i64>,
    pub target_account_id: i64,
    pub enabled: bool,
    pub sort_order: i64,
    pub notes: Option<String>,
    pub created_at: String,
    pub updated_at: String,
}

/// Write body for a strategy.
#[derive(Debug)]
pub struct SaveInvestmentStrategy {
    pub label: String,
    pub active_from: IsoDate,
    pub active_to: Option<IsoDate>,
    pub income_share_bps: i64,
    pub income_stream_id: Option<i64>,
    pub windfall_share_bps: i64,
    pub debt_above_bps: Option<i64>,
    pub target_account_id: i64,
    pub enabled: bool,
    pub sort_order: i64,
    pub notes: Option<String>,
}

/// The windfall share a body that says nothing about it asserts: all of it.
pub fn all_of_it() -> (b: i64)
    ensures
        b == 10_000,
{
    10_000
}

/// Whether a strategy is on when the body does not say.
pub fn enabled_by_default() -> (b: bool)
    ensures
        b,
{
    true
}

/// Every problem with a strategy body, in the order they are reported.
pub open spec fn strategy_problems(s: SaveInvestmentStrategy) -> Seq<Seq<char>> {
    one_if(trimmed(s.label@).len() == 0, "a strategy needs a label"@) + one_if(
        !(0 <= s.income_share_bps <= 10_000),
        "income_share_bps must be between 0 and 10000, got "@ + int_decimal(
            s.income_share_bps as int,
        ),
    ) + one_if(
        !(0 <= s.windfall_share_bps <= 10_000),
        "windfall_share_bps must be between 0 and 10000, got "@ + int_decimal(
            s.windfall_share_bps as int,
        ),
    ) + one_if(s.debt_above_bps matches Some(b) && b < 0, "debt_above_bps cannot be negative"@)
        + one_if(
        s.active_to matches Some(to) && before(to, s.active_from),
        "active_to is before active_from, which is a strategy that is never active"@,
    ) + one_if(
        s.income_share_bps == 0 && s.windfall_share_bps == 0,
        "a strategy that invests no share of income and no share of a windfall would do nothing"@,
    )
}

/// A strategy is accepted exactly when it has a label, both shares are between 0 and 10000
/// basis points, a debt threshold (if any) is not negative, it does not end before it
/// starts, and it invests something: a share of income or a share of a windfall. A strategy
/// that invests neither is refused, and that refusal is the last one reported.
pub proof fn lemma_strategy_accepted_exactly_when_sound(s: SaveInvestmentStrategy)
    ensures
        strategy_problems(s).len() == 0 <==> (trimmed(s.label@).len() > 0 && 0 <= s.income_share_bps
            <= 10_000 && 0 <= s.windfall_share_bps <= 10_000 && !(s.debt_above_bps matches Some(b)
            && b < 0) && !(s.active_to matches Some(to) && before(to, s.active_from)) && (
        s.income_share_bps > 0 || s.windfall_share_bps > 0)),
        s.income_share_bps == 0 && s.windfall_share_bps == 0 ==> strategy_problems(s).last()
            == "a strategy that invests no share of income and no share of a windfall would do nothing"@,
{
}

impl SaveInvestmentStrategy {
    /// Every problem at once, not the first one found.
    pub fn validate(&self) -> (r: Result<(), Vec<String>>)
        ensures
            r is Ok <==> strategy_problems(*self).len() == 0,
            r matches Err(v) ==> texts(v@) == strategy_problems(*self),
    {
        let mut problems: Vec<String> = Vec::new();
        let ghost g0 = texts(problems@);
        let t = trim(self.label.as_str());
        if t.as_str().unicode_len() == 0 {
            problems.push(String::from_str("a strategy needs a label"));
        }
        let ghost g1 = texts(problems@);
        assert(g1 =~= one_if(trimmed(self.label@).len() == 0, "a strategy needs a label"@));
        if !(0 <= self.income_share_bps && self.income_share_bps <= 10_000) {
            let mut m = String::from_str("income_share_bps must be between 0 and 10000, got ");
            append_decimal(&mut m, self.income_share_bps);
            problems.push(m);
        }
        let ghost g2 = texts(problems@);
        assert(g2 =~= g1 + one_if(
            !(0 <= self.income_share_bps <= 10_000),
            "income_share_bps must be between 0 and 10000, got "@ + int_decimal(
                self.income_share_bps as int,
            ),
        ));
        if !(0 <= self.windfall_share_bps && self.windfall_share_bps <= 10_000) {
            let mut m = String::from_str("windfall_share_bps must be between 0 and 10000, got ");
            append_decimal(&mut m, self.windfall_share_bps);
            problems.push(m);
        }
        let ghost g3 = texts(problems@);
        assert(g3 =~= g2 + one_if(
            !(0 <= self.windfall_share_bps <= 10_000),
            "windfall_share_bps must be between 0 and 10000, got "@ + int_decimal(
                self.windfall_share_bps as int,
            ),
        ));
        let negative_debt = match self.debt_above_bps {
            Some(b) => b < 0,
            None => false,
        };
        if negative_debt {
            problems.push(String::from_str("debt_above_bps cannot be negative"));
        }
        let ghost g4 = texts(problems@);
        assert(g4 =~= g3 + one_if(
            self.debt_above_bps matches Some(b) && b < 0,
            "debt_above_bps cannot be negative"@,
        ));
        let inverted = match &self.active_to {
            Some(to) => to.is_before(&self.active_from),
            None => false,
        };
        if inverted {
            problems.push(
                String::from_str(
                    "active_to is before active_from, which is a strategy that is never active",
                ),
            );
        }
        let ghost g5 = texts(problems@);
        assert(g5 =~= g4 + one_if(
            self.active_to matches Some(to) && before(to, self.active_from),
            "active_to is before active_from, which is a strategy that is never active"@,
        ));
        if self.income_share_bps == 0 && self.windfall_share_bps == 0 {
            problems.push(
                String::from_str(
                    "a strategy that invests no share of income and no share of a windfall would do nothing",
                ),
            );
        }
        assert(texts(problems@) =~= strategy_problems(*self));
        if problems.len() == 0 {
            Ok(())
        } else {
            Err(problems)
        }
    }
}

} // verus!
