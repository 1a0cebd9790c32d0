//! Forecast assumptions: growth, volatility and fees attached to an account or a category.

use vstd::prelude::*;

use crate::text::{join2, str_eq};

verus! {

/// What a forecast assumption is attached to.
#[derive(Debug, Clone, Copy, PartialEq, Eq, Structural, Hash)]
pub enum ForecastTargetType {
    Account,
    Category,
}

impl ForecastTargetType {
    /// The stored text of each target type.
    pub open spec fn text(self) -> Seq<char> {
        match self {
            ForecastTargetType::Account => "account"@,
            ForecastTargetType::Category => "category"@,
        }
    }

    /// The target type whose stored text is `s`, if any.
    pub open spec fn parse_text(s: Seq<char>) -> Option<ForecastTargetType> {
        if s == "account"@ {
            Some(ForecastTargetType::Account)
        } else if s == "category"@ {
            Some(ForecastTargetType::Category)
        } else {
            None
        }
    }

    pub fn as_str(self) -> (r: &'static str)
        ensures
            r@ == self.text(),
    {
        match self {
            ForecastTargetType::Account => "account",
            ForecastTargetType::Category => "category",
        }
    }

    /// Read a stored target type back. Unknown text is an error that quotes it.
    pub fn from_str(s: &str) -> (r: Result<ForecastTargetType, String>)
        ensures
            match Self::parse_text(s@) {
                Some(k) => r == Ok::<ForecastTargetType, String>(k),
                None => r matches Err(m) && m@ == "unknown forecast target type '"@ + s@ + "'"@,
            },
    {
        if str_eq(s, "account") {
            Ok(ForecastTargetType::Account)
        } else if str_eq(s, "category") {
            Ok(ForecastTargetType::Category)
        } else {
            let mut m = join2("unknown forecast target type '", s);
            m.append("'");
            Err(m)
        }
    }
}

/// Every target type reads back from its stored text as itself.
pub proof fn lemma_forecast_target_type_round_trip(k: ForecastTargetType)
    ensures
        ForecastTargetType::parse_text(k.text()) == Some(k),
{
    reveal_strlit("account");
    reveal_strlit("category");
    assert("account"@.len() == 7);
    assert("category"@.len() == 8);
}

#[derive(Debug)]
pub struct ForecastAssumption {
    pub id: i64,
    pub target_type: ForecastTargetType,
    pub target_id: i64,
    pub annual_growth_bps: Option<i64>,
    pub annual_volatility_bps: Option<i64>,
    pub dividend_yield_bps: Option<i64>,
    pub long_run_growth_bps: Option<i64>,
    pub annual_fee_bps: Option<i64>,
    pub annual_fixed_fee_minor: Option<i64>,
    pub notes: Option<String>,
    pub created_at: String,
    pub updated_at: String,
}

#[derive(Debug)]
pub struct SaveForecastAssumption {
    pub target_type: ForecastTargetType,
    pub target_id: i64,
    pub annual_growth_bps: Option<i64>,
    pub annual_volatility_bps: Option<i64>,
    pub dividend_yield_bps: Option<i64>,
    pub long_run_growth_bps: Option<i64>,
    pub annual_fee_bps: Option<i64>,
    pub annual_fixed_fee_minor: Option<i64>,
    pub notes: Option<String>,
}

} // verus!
