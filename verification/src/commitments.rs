//! Expense commitments: a known, recurring cost with its own cadence.

use vstd::prelude::*;

use crate::income::PayFrequency;
use crate::iso_date::IsoDate;
use crate::money::Money;

verus! {

#[derive(Debug, Clone)]
pub struct ExpenseCommitment {
    pub id: i64,
    pub category_id: i64,
    pub label: String,
    pub amount_minor: i64,
    pub currency_code: String,
    pub cadence: PayFrequency,
    pub first_due_on: String,
    pub ends_on: Option<String>,
    pub escalation_delta_bps: i64,
    pub merchant_id: Option<i64>,
    pub enabled: bool,
    pub notes: Option<String>,
    pub created_at: String,
    pub updated_at: String,
}

#[derive(Debug)]
pub struct SaveExpenseCommitment {
    pub category_id: i64,
    pub label: String,
    pub amount_minor: Money,
    pub currency_code: String,
    pub cadence: PayFrequency,
    pub first_due_on: IsoDate,
    pub ends_on: Option<IsoDate>,
    pub escalation_delta_bps: i64,
    pub merchant_id: Option<i64>,
    pub enabled: bool,
    pub notes: Option<String>,
}

} // verus!
