//! Household individuals, and how a thing is attributed to one of them.
//!
//! A person here is a label on the money, not a user account: the household is whoever
//! shares the finances being tracked.

use vstd::prelude::*;

use crate::text::{i64_text, i64_value, join2, parse_i64, str_eq};

verus! {

/// One member of the household.
#[derive(Debug, Clone)]
pub struct Person {
    pub id: i64,
    pub name: String,
    /// Badge colour, a CSS hex string (`#rrggbb`); `None` lets the web layer derive one.
    pub color: Option<String>,
    pub sort_order: i64,
    /// True for the stand-in that owns accounts predating the household feature; it clears
    /// itself the moment the person is renamed.
    pub placeholder: bool,
    pub created_at: String,
    pub updated_at: String,
}

#[derive(Debug)]
pub struct SavePerson {
    pub name: String,
    pub color: Option<String>,
    pub sort_order: i64,
}

/// Who an account belongs to. Every account has one: there is no unattributed state.
///
/// Stored as the `(ownership, person_id)` column pair and parsed into this enum the moment a
/// row is read.
#[derive(Debug, Clone, Copy, PartialEq, Eq, Structural)]
pub enum Ownership {
    /// Belongs to one individual.
    Person { person_id: i64 },
    /// Shared by the household — a joint bank account, the family home.
    Joint,
}

/// The refusal for a stored ownership row, if its two columns disagree or name no kind.
pub open spec fn decode_ownership(ownership: Seq<char>, person_id: Option<i64>) -> Result<
    Ownership,
    Seq<char>,
> {
    if ownership == "person"@ {
        match person_id {
            Some(id) => Ok(Ownership::Person { person_id: id }),
            None => Err("account ownership 'person' has no person_id"@),
        }
    } else if ownership == "joint"@ {
        match person_id {
            None => Ok(Ownership::Joint),
            Some(_) => Err("account ownership 'joint' must not carry a person_id"@),
        }
    } else {
        Err("unknown account ownership '"@ + ownership + "'"@)
    }
}

/// What the query-string form `joint`, or a person's id, reads as.
pub open spec fn read_attribution(s: Seq<char>) -> Result<Ownership, Seq<char>> {
    if s == "joint"@ {
        Ok(Ownership::Joint)
    } else if i64_text(s) {
        Ok(Ownership::Person { person_id: i64_value(s) as i64 })
    } else {
        Err("unknown attribution '"@ + s + "' (expected 'joint' or a person id)"@)
    }
}

impl Ownership {
    /// The stored discriminant of each ownership.
    pub open spec fn text(self) -> Seq<char> {
        match self {
            Ownership::Person { .. } => "person"@,
            Ownership::Joint => "joint"@,
        }
    }

    /// The person an ownership names, if it names exactly one.
    pub open spec fn owner(self) -> Option<i64> {
        match self {
            Ownership::Person { person_id } => Some(person_id),
            Ownership::Joint => None,
        }
    }

    /// The stored `ownership` discriminant.
    pub fn as_str(self) -> (r: &'static str)
        ensures
            r@ == self.text(),
    {
        match self {
            Ownership::Person { .. } => "person",
            Ownership::Joint => "joint",
        }
    }

    /// The person this belongs to, if it belongs to exactly one.
    pub fn person_id(self) -> (r: Option<i64>)
        ensures
            r == self.owner(),
    {
        match self {
            Ownership::Person { person_id } => Some(person_id),
            Ownership::Joint => None,
        }
    }

    /// Split into the two columns to bind, in `(ownership, person_id)` order. The only place
    /// this value becomes text.
    pub fn as_parts(self) -> (r: (&'static str, Option<i64>))
        ensures
            r.0@ == self.text(),
            r.1 == self.owner(),
    {
        (self.as_str(), self.person_id())
    }

    /// Rebuild from the two stored columns. Both halves have to agree: a `person` row with no
    /// id, or a `joint` row carrying one, is reported rather than coerced.
    pub fn from_stored(ownership: &str, person_id: Option<i64>) -> (r: Result<Ownership, String>)
        ensures
            match decode_ownership(ownership@, person_id) {
                Ok(o) => r == Ok::<Ownership, String>(o),
                Err(msg) => r matches Err(m) && m@ == msg,
            },
    {
        if str_eq(ownership, "person") {
            match person_id {
                Some(person_id) => Ok(Ownership::Person { person_id }),
                None => Err(String::from_str("account ownership 'person' has no person_id")),
            }
        } else if str_eq(ownership, "joint") {
            match person_id {
                None => Ok(Ownership::Joint),
                Some(_) => Err(
                    String::from_str("account ownership 'joint' must not carry a person_id"),
                ),
            }
        } else {
            let mut m = join2("unknown account ownership '", ownership);
            m.append("'");
            Err(m)
        }
    }

    /// Parse the query-string form of an attribution filter: `joint`, or a person's id. An
    /// unrecognised value is an error rather than a silently ignored filter.
    pub fn from_query(s: &str) -> (r: Result<Ownership, String>)
        ensures
            match read_attribution(s@) {
                Ok(o) => r == Ok::<Ownership, String>(o),
                Err(msg) => r matches Err(m) && m@ == msg,
            },
    {
        if str_eq(s, "joint") {
            return Ok(Ownership::Joint);
        }
        match parse_i64(s) {
            Some(person_id) => Ok(Ownership::Person { person_id }),
            None => {
                let mut m = join2("unknown attribution '", s);
                m.append("' (expected 'joint' or a person id)");
                Err(m)
            },
        }
    }
}

impl std::str::FromStr for Ownership {
    type Err = String;

    fn from_str(s: &str) -> (r: Result<Ownership, String>)
        ensures
            match read_attribution(s@) {
                Ok(o) => r == Ok::<Ownership, String>(o),
                Err(msg) => r matches Err(m) && m@ == msg,
            },
    {
        Ownership::from_query(s)
    }
}

/// Who a transaction belongs to: its own override if it has one, otherwise its account's
/// owner. The one place this rule lives.
pub fn effective_ownership(transaction: Option<Ownership>, account: Ownership) -> (r: Ownership)
    ensures
        r == match transaction {
            Some(o) => o,
            None => account,
        },
{
    match transaction {
        Some(o) => o,
        None => account,
    }
}

/// Body of a request that sets one account's owner.
#[derive(Debug)]
pub struct SetOwnership {
    pub ownership: Ownership,
}

/// Body of a request that attributes several accounts in one go.
#[derive(Debug)]
pub struct SetOwnershipBulk {
    pub account_ids: Vec<i64>,
    pub ownership: Ownership,
}

/// Every ownership reads back from its two stored columns as itself.
pub proof fn lemma_ownership_columns_round_trip(o: Ownership)
    ensures
        decode_ownership(o.text(), o.owner()) == Ok::<Ownership, Seq<char>>(o),
{
    reveal_strlit("person");
    reveal_strlit("joint");
    assert("person"@.len() == 6);
    assert("joint"@.len() == 5);
}

/// A stored row whose two columns disagree is refused, whatever the id.
pub proof fn lemma_half_written_ownership_refused(person_id: i64)
    ensures
        decode_ownership("person"@, None) is Err,
        decode_ownership("joint"@, Some(person_id)) is Err,
{
    reveal_strlit("person");
    reveal_strlit("joint");
    assert("person"@.len() == 6);
    assert("joint"@.len() == 5);
}

} // verus!
