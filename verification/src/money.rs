//! [`Money`] — a signed minor-unit amount whose magnitude has actually been checked.
//!
//! The magnitude is checked once, at the edge, into this type: a figure outside
//! ±[`MAX_MONEY_MINOR`] is refused with a message that names the ceiling and the offending
//! value, so a report adding rows up can never overflow on a row written through here.

use vstd::prelude::*;

use crate::error::{AppError, AppResult};
use crate::text::{append_decimal, int_decimal};

verus! {

/// The largest magnitude any single money figure may carry, in minor units: $1 trillion at
/// two decimal places, applied symmetrically as ±.
pub const MAX_MONEY_MINOR: i64 = 100_000_000_000_000;

/// Whether `minor` is a figure a [`Money`] may hold.
pub open spec fn in_money_range(minor: int) -> bool {
    -MAX_MONEY_MINOR <= minor <= MAX_MONEY_MINOR
}

/// The refusal text for an out-of-range amount: names the value and the ceiling.
pub open spec fn out_of_range_message(minor: int) -> Seq<char> {
    "amount "@ + int_decimal(minor)
        + " is out of range: minor units must be within +/-"@
        + int_decimal(MAX_MONEY_MINOR as int)
        + " (±$1 trillion at two decimal places) — check whether a major-unit figure was sent, or scaled twice"@
}

/// A signed amount in the minor units of some currency (cents, yen), bounded to
/// ±[`MAX_MONEY_MINOR`] on construction.
///
/// Negative is an outflow (or, on a liability valuation, the balance owed). The inner `i64`
/// is private and every constructor checks, so [`Money::abs`] and [`Money::neg`] are total.
#[derive(Debug, Clone, Copy, PartialEq, Eq, Ord, Hash)]
pub struct Money(i64);

impl View for Money {
    type V = int;

    closed spec fn view(&self) -> int {
        self.0 as int
    }
}

impl Money {
    #[verifier::type_invariant]
    spec fn bounded(self) -> bool {
        in_money_range(self.0 as int)
    }

    /// Zero, in any currency.
    pub fn zero() -> (m: Money)
        ensures
            m@ == 0,
    {
        Money(0)
    }

    /// The one fallible constructor. An out-of-range figure is a validation error whose
    /// message names the ceiling and the offending value.
    pub fn new(minor: i64) -> (r: AppResult<Money>)
        ensures
            r is Ok <==> in_money_range(minor as int),
            r matches Ok(m) ==> m@ == minor,
            r matches Err(e) ==> e matches AppError::Validation(msg) && msg@
                == out_of_range_message(minor as int),
    {
        match Self::from_wire(minor) {
            Ok(m) => Ok(m),
            Err(msg) => Err(AppError::validation(msg)),
        }
    }

    /// The check itself, with a plain-`String` error so a deserialiser can report it as a
    /// field-level failure.
    pub fn from_wire(minor: i64) -> (r: Result<Money, String>)
        ensures
            r is Ok <==> in_money_range(minor as int),
            r matches Ok(m) ==> m@ == minor,
            r matches Err(msg) ==> msg@ == out_of_range_message(minor as int),
    {
        if minor < -MAX_MONEY_MINOR || minor > MAX_MONEY_MINOR {
            let mut msg = String::from_str("amount ");
            append_decimal(&mut msg, minor);
            msg.append(" is out of range: minor units must be within +/-");
            append_decimal(&mut msg, MAX_MONEY_MINOR);
            msg.append(
                " (±$1 trillion at two decimal places) — check whether a major-unit figure was sent, or scaled twice",
            );
            return Err(msg);
        }
        Ok(Money(minor))
    }

    /// The checked amount, for binding to a column or doing arithmetic.
    pub fn minor(self) -> (v: i64)
        ensures
            v == self@,
            in_money_range(v as int),
    {
        proof {
            use_type_invariant(&self);
        }
        self.0
    }

    /// Magnitude, as a total function: the bound makes `|self|` always representable.
    pub fn abs(self) -> (m: Money)
        ensures
            m@ == if self@ < 0 {
                -self@
            } else {
                self@
            },
    {
        proof {
            use_type_invariant(&self);
        }
        if self.0 < 0 {
            Money(-self.0)
        } else {
            Money(self.0)
        }
    }

    /// Negation, as a total function: the range is symmetric, so the negation of any
    /// `Money` is a `Money`.
    pub fn neg(self) -> (m: Money)
        ensures
            m@ == -self@,
    {
        proof {
            use_type_invariant(&self);
        }
        Money(-self.0)
    }
}

impl From<Money> for i64 {
    fn from(m: Money) -> (v: i64) {
        m.minor()
    }
}

impl vstd::std_specs::convert::FromSpecImpl<Money> for i64 {
    open spec fn obeys_from_spec() -> bool {
        true
    }

    open spec fn from_spec(m: Money) -> i64 {
        m@ as i64
    }
}

/// The ceiling leaves room to aggregate: fifty thousand amounts at the ceiling still sum
/// inside an `i64`, so a report adding rows written through here cannot overflow.
pub proof fn lemma_ceiling_leaves_room_to_aggregate(n: int)
    requires
        0 <= n <= 50_000,
    ensures
        n * MAX_MONEY_MINOR <= i64::MAX,
        -(n * MAX_MONEY_MINOR) >= i64::MIN,
{
    assert(n * MAX_MONEY_MINOR <= 50_000 * MAX_MONEY_MINOR) by (nonlinear_arith)
        requires
            0 <= n <= 50_000,
            MAX_MONEY_MINOR > 0,
    ;
}

impl Default for Money {
    fn default() -> (m: Money)
        ensures
            m@ == 0,
    {
        Money(0)
    }
}

impl PartialOrd for Money {
    fn partial_cmp(&self, other: &Money) -> (r: Option<core::cmp::Ordering>) {
        if self.0 < other.0 {
            Some(core::cmp::Ordering::Less)
        } else if self.0 == other.0 {
            Some(core::cmp::Ordering::Equal)
        } else {
            Some(core::cmp::Ordering::Greater)
        }
    }
}

impl vstd::std_specs::cmp::PartialOrdSpecImpl for Money {
    open spec fn obeys_partial_cmp_spec() -> bool {
        true
    }

    open spec fn partial_cmp_spec(&self, other: &Money) -> Option<core::cmp::Ordering> {
        if self@ < other@ {
            Some(core::cmp::Ordering::Less)
        } else if self@ == other@ {
            Some(core::cmp::Ordering::Equal)
        } else {
            Some(core::cmp::Ordering::Greater)
        }
    }
}

/// Ordering follows the number line: a `Money` compares below another exactly when its
/// amount is smaller, so a list of amounts sorts the way a report needs.
pub fn compare(a: Money, b: Money) -> (r: Option<core::cmp::Ordering>)
    ensures
        r == Some(if a@ < b@ {
            core::cmp::Ordering::Less
        } else if a@ == b@ {
            core::cmp::Ordering::Equal
        } else {
            core::cmp::Ordering::Greater
        }),
{
    a.partial_cmp(&b)
}

} // verus!
