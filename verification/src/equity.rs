//! Employee equity: grants, exercises, marks, and the vesting position they add up to.

use vstd::prelude::*;

use crate::iso_date::IsoDate;

verus! {

#[derive(Debug, Clone)]
pub struct EquityGrant {
    pub id: i64,
    pub account_id: i64,
    pub company: String,
    pub grant_date: String,
    pub quantity: i64,
    pub strike_minor: i64,
    pub currency_code: String,
    pub vest_months: i64,
    pub cliff_months: i64,
    pub unit_value_minor: Option<i64>,
    pub note: Option<String>,
    pub created_at: String,
    pub updated_at: String,
}

#[derive(Debug)]
pub struct SaveGrant {
    pub company: String,
    pub grant_date: IsoDate,
    pub quantity: i64,
    pub strike_minor: i64,
    pub currency_code: Option<String>,
    pub vest_months: i64,
    pub cliff_months: i64,
    pub unit_value_minor: Option<i64>,
    pub note: Option<String>,
}

/// The vesting period a grant has when none is given: four years.
pub fn vest48() -> (m: i64)
    ensures
        m == 48,
{
    48
}

/// The cliff a grant has when none is given: one year.
pub fn cliff12() -> (m: i64)
    ensures
        m == 12,
{
    12
}

#[derive(Debug)]
pub struct EquityExercise {
    pub id: i64,
    pub grant_id: i64,
    pub exercise_date: String,
    pub quantity: i64,
    pub price_minor: i64,
    pub note: Option<String>,
    pub created_at: String,
}

#[derive(Debug)]
pub struct SaveExercise {
    pub exercise_date: IsoDate,
    pub quantity: i64,
    pub price_minor: i64,
    pub note: Option<String>,
}

#[derive(Debug)]
pub struct RebuildResult {
    pub written: i64,
    pub from: Option<String>,
    pub to: Option<String>,
}

#[derive(Debug, Clone)]
pub struct EquityMark {
    pub id: i64,
    pub account_id: i64,
    pub as_of: String,
    pub unit_value_minor: i64,
    pub currency_code: String,
    pub note: Option<String>,
    pub created_at: String,
}

#[derive(Debug)]
pub struct SaveMark {
    pub as_of: IsoDate,
    pub unit_value_minor: i64,
    pub currency_code: Option<String>,
    pub note: Option<String>,
}

#[derive(Debug, Clone)]
pub struct EquityEvent {
    pub date: String,
    pub grant_id: i64,
    pub grant_label: Option<String>,
    pub kind: EquityEventKind,
    pub quantity: i64,
    pub vested_running: i64,
    pub exercised_running: i64,
    pub unit_value_minor: Option<i64>,
    pub note: Option<String>,
}

/// What happened to a grant on one date.
#[derive(Debug, Clone, Copy, PartialEq, Eq, Structural)]
pub enum EquityEventKind {
    Vest,
    Cliff,
    Exercise,
}

impl EquityEventKind {
    /// The stored text of each kind.
    pub open spec fn text(self) -> Seq<char> {
        match self {
            EquityEventKind::Vest => "vest"@,
            EquityEventKind::Cliff => "cliff"@,
            EquityEventKind::Exercise => "exercise"@,
        }
    }

    pub fn as_str(self) -> (r: &'static str)
        ensures
            r@ == self.text(),
    {
        match self {
            EquityEventKind::Vest => "vest",
            EquityEventKind::Cliff => "cliff",
            EquityEventKind::Exercise => "exercise",
        }
    }
}

#[derive(Debug)]
pub struct VestingStatus {
    pub grant_id: i64,
    pub company: String,
    pub as_of: String,
    pub quantity: i64,
    pub vested: i64,
    pub unvested: i64,
    pub exercised: i64,
    pub vested_unexercised: i64,
    pub owned: i64,
    pub strike_minor: i64,
    pub unit_value_minor: Option<i64>,
    pub currency_code: String,
    pub intrinsic_value_minor: i64,
    pub owned_value_minor: i64,
    pub total_value_minor: i64,
}

#[derive(Debug)]
pub struct AccountEquity {
    pub account_id: i64,
    pub as_of: String,
    pub currency_code: String,
    pub grants: Vec<VestingStatus>,
    pub total_intrinsic_minor: i64,
    pub total_owned_minor: i64,
    pub total_value_minor: i64,
    pub unit_value_minor: Option<i64>,
    pub unit_value_as_of: Option<String>,
}

} // verus!
