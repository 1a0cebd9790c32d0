//! The ledger a report values accounts from: every movement and every valuation, read from
//! their stored rows and filed under the account they belong to.
//!
//! A stored date that does not read as a day leaves its row out; the caller says so where it
//! says such things.

use vstd::prelude::*;

use crate::balance_walk::{dated_views, value_walk, walk_decided, Dated, DatedView, ValueWalk};
use crate::calendar::{lenient_ymd, Day};

use vstd::hash_map::HashMapWithView;

verus! {

broadcast use vstd::std_specs::hash::group_hash_axioms;

/// One stored row: a movement (its posting date and amount) or a valuation (its date and
/// value) of an account, with the currency of the amount.
#[derive(Debug, Clone)]
pub struct LedgerRow {
    pub account_id: i64,
    pub date: String,
    pub amount_minor: i64,
    pub currency_code: String,
}

/// The rows of account `id` whose date reads, in stored order, as the balance walk reads them.
pub open spec fn readable_rows_of(rows: Seq<LedgerRow>, id: i64) -> Seq<DatedView>
    decreases rows.len(),
{
    if rows.len() == 0 {
        seq![]
    } else {
        let earlier_rows = readable_rows_of(rows.drop_last(), id);
        let e = rows.last();
        match lenient_ymd(e.date@) {
            Some(d) => if e.account_id == id {
                earlier_rows.push((d, e.amount_minor, e.currency_code@))
            } else {
                earlier_rows
            },
            None => earlier_rows,
        }
    }
}

/// Rows filed by account.
pub struct AccountRows {
    by_account: HashMapWithView<i64, Vec<Dated>>,
}

impl AccountRows {
    /// The rows filed under account `id`, in the order they were read.
    pub closed spec fn of(&self, id: i64) -> Seq<DatedView> {
        if self.by_account@.contains_key(id) {
            dated_views(self.by_account@[id]@)
        } else {
            seq![]
        }
    }

    /// File every row whose date reads under its account, keeping their order.
    pub fn file(rows: &[LedgerRow]) -> (r: AccountRows)
        ensures
            forall|id: i64| #[trigger] r.of(id) == readable_rows_of(rows@, id),
    {
        let mut by_account: HashMapWithView<i64, Vec<Dated>> = HashMapWithView::new();
        let mut i: usize = 0;
        while i < rows.len()
            invariant
                i <= rows@.len(),
                forall|id: i64|
                    #[trigger] readable_rows_of(rows@.take(i as int), id) == if by_account@.contains_key(
                        id,
                    ) {
                        dated_views(by_account@[id]@)
                    } else {
                        seq![]
                    },
            decreases rows@.len() - i,
        {
            let row = &rows[i];
            let ghost prior = by_account@;
            proof {
                assert(rows@.take(i + 1).drop_last() =~= rows@.take(i as int));
                assert(rows@.take(i + 1).last() == *row);
            }
            match Day::parse(row.date.as_str()) {
                Some(d) => {
                    let ghost before = by_account@;
                    let mut list = match by_account.remove(&row.account_id) {
                        Some(v) => v,
                        None => Vec::new(),
                    };
                    let ghost old_list = list@;
                    list.push((d, row.amount_minor, row.currency_code.clone()));
                    proof {
                        assert(dated_views(list@) =~= dated_views(old_list).push(
                            (d@, row.amount_minor, row.currency_code@),
                        ));
                    }
                    by_account.insert(row.account_id, list);
                    proof {
                        assert forall|id: i64|
                            #[trigger] readable_rows_of(rows@.take(i + 1), id) == if by_account@.contains_key(
                                id,
                            ) {
                                dated_views(by_account@[id]@)
                            } else {
                                seq![]
                            } by {
                            assert(readable_rows_of(rows@.take(i as int), id) == if prior.contains_key(
                                id,
                            ) {
                                dated_views(prior[id]@)
                            } else {
                                seq![]
                            });
                            if id != row.account_id {
                                assert(by_account@.contains_key(id) == before.contains_key(id));
                                if before.contains_key(id) {
                                    assert(by_account@[id] == before[id]);
                                }
                            } else if !before.contains_key(id) {
                                assert(old_list.len() == 0);
                                assert(dated_views(old_list) =~= Seq::<DatedView>::empty());
                            }
                        }
                    }
                },
                None => {
                    proof {
                        assert forall|id: i64|
                            #[trigger] readable_rows_of(rows@.take(i + 1), id) == readable_rows_of(
                                rows@.take(i as int),
                                id,
                            ) by {}
                    }
                },
            }
            i = i + 1;
        }
        proof {
            assert(rows@.take(i as int) =~= rows@);
        }
        AccountRows { by_account }
    }
}

/// A report's ledger: every account's movements and valuations.
pub struct Ledger {
    pub movements: AccountRows,
    pub valuations: AccountRows,
}

impl Ledger {
    /// File the stored movements and valuations by account.
    pub fn load(movements: &[LedgerRow], valuations: &[LedgerRow]) -> (l: Ledger)
        ensures
            forall|id: i64| #[trigger] l.movements.of(id) == readable_rows_of(movements@, id),
            forall|id: i64| #[trigger] l.valuations.of(id) == readable_rows_of(valuations@, id),
    {
        Ledger { movements: AccountRows::file(movements), valuations: AccountRows::file(valuations) }
    }

    /// How account `id`, quoted in `currency`, is valued on `date`; see
    /// [`crate::balance_walk::value_walk`].
    pub fn walk(&self, id: i64, currency: &str, date: &Day) -> (w: ValueWalk)
        ensures
            walk_decided(w, currency@, date@, self.movements.of(id), self.valuations.of(id)),
    {
        let none: Vec<Dated> = Vec::new();
        let txs = match self.movements.by_account.get(&id) {
            Some(v) => v.as_slice(),
            None => none.as_slice(),
        };
        let vals = match self.valuations.by_account.get(&id) {
            Some(v) => v.as_slice(),
            None => none.as_slice(),
        };
        proof {
            assert(dated_views(none@) =~= Seq::<DatedView>::empty());
        }
        value_walk(currency, date, txs, vals)
    }
}

} // verus!
