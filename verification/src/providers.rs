//! Provider sync outcomes and the shapes a provider reports about its accounts.

use vstd::prelude::*;

use crate::accounts::AccountKind;
use crate::text::{join2, str_eq};

verus! {

/// How one sync run ended.
#[derive(Debug, Clone, Copy, PartialEq, Eq, Structural)]
pub enum SyncOutcome {
    /// The run completed; stored as `ok`.
    Succeeded,
    Error,
    /// The provider no longer holds a usable connection; a person has to reconnect it.
    Disconnected,
}

impl SyncOutcome {
    /// The stored text of each outcome.
    pub open spec fn text(self) -> Seq<char> {
        match self {
            SyncOutcome::Succeeded => "ok"@,
            SyncOutcome::Error => "error"@,
            SyncOutcome::Disconnected => "disconnected"@,
        }
    }

    /// The outcome whose stored text is `s`, if any.
    pub open spec fn parse_text(s: Seq<char>) -> Option<SyncOutcome> {
        if s == "ok"@ {
            Some(SyncOutcome::Succeeded)
        } else if s == "error"@ {
            Some(SyncOutcome::Error)
        } else if s == "disconnected"@ {
            Some(SyncOutcome::Disconnected)
        } else {
            None
        }
    }

    pub fn as_str(self) -> (r: &'static str)
        ensures
            r@ == self.text(),
    {
        match self {
            SyncOutcome::Succeeded => "ok",
            SyncOutcome::Error => "error",
            SyncOutcome::Disconnected => "disconnected",
        }
    }

    /// Read a stored outcome back. Unknown text is an error that quotes it.
    pub fn from_str(s: &str) -> (r: Result<SyncOutcome, String>)
        ensures
            match Self::parse_text(s@) {
                Some(k) => r == Ok::<SyncOutcome, String>(k),
                None => r matches Err(m) && m@ == "unknown sync outcome '"@ + s@ + "'"@,
            },
    {
        if str_eq(s, "ok") {
            Ok(SyncOutcome::Succeeded)
        } else if str_eq(s, "error") {
            Ok(SyncOutcome::Error)
        } else if str_eq(s, "disconnected") {
            Ok(SyncOutcome::Disconnected)
        } else {
            let mut m = join2("unknown sync outcome '", s);
            m.append("'");
            Err(m)
        }
    }

    /// Whether a sync that ended this way needs a person to look at it.
    pub fn needs_attention(self) -> (r: bool)
        ensures
            r == (self != SyncOutcome::Succeeded),
    {
        match self {
            SyncOutcome::Succeeded => false,
            SyncOutcome::Error | SyncOutcome::Disconnected => true,
        }
    }
}

/// Every outcome reads back from its stored text as itself.
pub proof fn lemma_sync_outcome_round_trip(k: SyncOutcome)
    ensures
        SyncOutcome::parse_text(k.text()) == Some(k),
{
    reveal_strlit("ok");
    reveal_strlit("error");
    reveal_strlit("disconnected");
    assert("ok"@.len() == 2);
    assert("error"@.len() == 5);
    assert("disconnected"@.len() == 12);
}

/// A request to run one provider's sync, optionally with a payload to import.
#[derive(Debug)]
pub struct SyncRequest {
    pub payload: Option<String>,
}

/// A member of a group of provider accounts that feed one ledger account.
#[derive(Debug)]
pub struct LinkGroupMember {
    pub external_id: String,
    pub name: String,
}

/// One recorded sync run.
#[derive(Debug, Clone)]
pub struct ProviderSync {
    pub id: i64,
    pub provider_id: i64,
    pub imported: i64,
    pub skipped: i64,
    pub status: SyncOutcome,
    pub detail: Option<String>,
    pub created_at: String,
}

/// An account a provider can see, before it is linked to one of ours.
#[derive(Debug, Clone)]
pub struct ProviderAccount {
    pub external_id: String,
    pub name: String,
    pub currency_code: String,
    pub institution: Option<String>,
    pub authorisation_id: Option<String>,
    pub account_number: Option<String>,
    pub kind_hint: AccountKind,
    pub balance_minor: i64,
    pub supports_transactions: bool,
    pub joint: bool,
    /// The advance that opened a loan, when the feed shows it unambiguously.
    pub original_amount_hint_minor: Option<i64>,
}

/// Metadata about an available provider kind.
#[derive(Debug)]
pub struct ProviderKind {
    pub kind: String,
    pub description: String,
    pub accepts_payload: bool,
    pub supports_account_discovery: bool,
}

} // verus!
