//! Merchants a transaction can be attributed to.

use vstd::prelude::*;

verus! {

#[derive(Debug)]
pub struct Merchant {
    pub id: i64,
    pub name: String,
    pub category_id: Option<i64>,
    pub note: Option<String>,
    pub created_at: String,
    pub updated_at: String,
}

#[derive(Debug)]
pub struct SaveMerchant {
    pub name: String,
    pub category_id: Option<i64>,
    pub note: Option<String>,
}

} // verus!
