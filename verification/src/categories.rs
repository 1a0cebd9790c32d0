//! Spending and income categories, nested up to a fixed depth.

use vstd::prelude::*;

use crate::text::{join2, str_eq};

verus! {

/// Which side of the ledger a category sits on.
#[derive(Debug, Clone, Copy, PartialEq, Eq, Structural)]
pub enum CategoryKind {
    Income,
    /// The default.
    Expense,
    Transfer,
}

impl CategoryKind {
    /// The stored text of each kind.
    pub open spec fn text(self) -> Seq<char> {
        match self {
            CategoryKind::Income => "income"@,
            CategoryKind::Expense => "expense"@,
            CategoryKind::Transfer => "transfer"@,
        }
    }

    /// The kind whose stored text is `s`, if any.
    pub open spec fn parse_text(s: Seq<char>) -> Option<CategoryKind> {
        if s == "income"@ {
            Some(CategoryKind::Income)
        } else if s == "expense"@ {
            Some(CategoryKind::Expense)
        } else if s == "transfer"@ {
            Some(CategoryKind::Transfer)
        } else {
            None
        }
    }

    pub fn as_str(self) -> (r: &'static str)
        ensures
            r@ == self.text(),
    {
        match self {
            CategoryKind::Income => "income",
            CategoryKind::Expense => "expense",
            CategoryKind::Transfer => "transfer",
        }
    }

    /// Read a stored kind back. Unknown text is an error that quotes it.
    pub fn from_str(s: &str) -> (r: Result<CategoryKind, String>)
        ensures
            match Self::parse_text(s@) {
                Some(k) => r == Ok::<CategoryKind, String>(k),
                None => r matches Err(m) && m@ == "unknown category kind '"@ + s@ + "'"@,
            },
    {
        if str_eq(s, "income") {
            Ok(CategoryKind::Income)
        } else if str_eq(s, "expense") {
            Ok(CategoryKind::Expense)
        } else if str_eq(s, "transfer") {
            Ok(CategoryKind::Transfer)
        } else {
            let mut m = join2("unknown category kind '", s);
            m.append("'");
            Err(m)
        }
    }
}

/// Every kind reads back from its stored text as itself.
pub proof fn lemma_category_kind_round_trip(k: CategoryKind)
    ensures
        CategoryKind::parse_text(k.text()) == Some(k),
{
    reveal_strlit("income");
    reveal_strlit("expense");
    reveal_strlit("transfer");
    assert("income"@.len() == 6);
    assert("expense"@.len() == 7);
    assert("transfer"@.len() == 8);
}

impl Default for CategoryKind {
    fn default() -> (k: CategoryKind)
        ensures
            k == CategoryKind::Expense,
    {
        CategoryKind::Expense
    }
}

/// How many levels a category tree may have.
pub const MAX_CATEGORY_DEPTH: i64 = 3;

#[derive(Debug, Clone)]
pub struct Category {
    pub id: i64,
    pub name: String,
    pub parent_id: Option<i64>,
    pub kind: CategoryKind,
    pub color: Option<String>,
    pub icon: Option<String>,
    pub sort_order: i64,
    pub created_at: String,
}

#[derive(Debug)]
pub struct CategoryNode {
    pub category: Category,
    pub children: Vec<CategoryNode>,
}

#[derive(Debug)]
pub struct SaveCategory {
    pub name: String,
    pub parent_id: Option<i64>,
    pub kind: CategoryKind,
    pub color: Option<String>,
    pub icon: Option<String>,
    pub sort_order: i64,
}

} // verus!
