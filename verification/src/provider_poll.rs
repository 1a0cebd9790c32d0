//! The background poller's decisions: which provider connections it may sync with nobody
//! present, and what one pass made of the household's connections.

use vstd::prelude::*;

use crate::lifecycle::Span;
use crate::providers::SyncOutcome;
use crate::sweeps::TaskRun;

verus! {

/// The scheduler's key for the provider poll.
pub const PROVIDER_POLL_TASK_NAME: &'static str = "provider_poll";

/// The scheduler's key for the exchange-rate poll.
pub const EXCHANGE_RATE_TASK_NAME: &'static str = "exchange_rate_poll";

/// How often enabled providers are polled: every six hours, since bank data only refreshes
/// a few times a day upstream.
pub fn provider_poll_interval() -> (s: Span)
    ensures
        s@ == 6 * 60 * 60 * 1_000_000_000,
{
    Span::from_secs(6 * 60 * 60)
}

/// How often exchange rates are refreshed: once a day, as often as free sources change.
pub fn exchange_rate_poll_interval() -> (s: Span)
    ensures
        s@ == 24 * 60 * 60 * 1_000_000_000,
{
    Span::from_secs(24 * 60 * 60)
}

/// Whether the poller syncs a provider with nobody present: it must be enabled, and of a kind
/// that takes no payload. `accepts_payload` is what the registry says of the provider's kind,
/// `None` when the registry does not know the kind; an unknown kind counts as one that needs
/// a payload, so it is never run unattended.
pub fn polls_unattended(enabled: bool, accepts_payload: Option<bool>) -> (r: bool)
    ensures
        r == (enabled && accepts_payload == Some(false)),
{
    if !enabled {
        return false;
    }
    match accepts_payload {
        Some(takes_payload) => !takes_payload,
        None => false,
    }
}

/// What one poll made of the household's connections.
#[derive(Debug, Clone, Copy, PartialEq, Eq, Structural, Default)]
pub struct Tally {
    pub synced: u32,
    pub disconnected: u32,
    pub failed: u32,
}

/// The tally after one more sync: `outcome` is the recorded outcome, or `None` when the sync
/// itself returned an error.
pub open spec fn counted(t: Tally, outcome: Option<SyncOutcome>) -> Tally {
    match outcome {
        Some(SyncOutcome::Succeeded) => Tally { synced: (t.synced + 1) as u32, ..t },
        Some(SyncOutcome::Disconnected) => Tally { disconnected: (t.disconnected + 1) as u32, ..t },
        Some(SyncOutcome::Error) | None => Tally { failed: (t.failed + 1) as u32, ..t },
    }
}

/// Every sync the tally has seen.
pub open spec fn tally_total(t: Tally) -> int {
    t.synced + t.disconnected + t.failed
}

impl Tally {
    /// A tally of no syncs.
    pub fn new() -> (t: Tally)
        ensures
            t == (Tally { synced: 0, disconnected: 0, failed: 0 }),
    {
        Tally { synced: 0, disconnected: 0, failed: 0 }
    }

    /// Count one sync: a completed one as synced, a disconnected one as disconnected, and one
    /// that ended in error, or returned an error, as failed.
    pub fn record(&mut self, outcome: Option<SyncOutcome>)
        requires
            old(self).synced < u32::MAX,
            old(self).disconnected < u32::MAX,
            old(self).failed < u32::MAX,
        ensures
            *final(self) == counted(*old(self), outcome),
    {
        match outcome {
            Some(SyncOutcome::Succeeded) => self.synced = self.synced + 1,
            Some(SyncOutcome::Disconnected) => self.disconnected = self.disconnected + 1,
            Some(SyncOutcome::Error) | None => self.failed = self.failed + 1,
        }
    }

    /// Whether the pass needs a person: some connection was disconnected or failed. Such a
    /// pass is reported as a warning, a healthy one as information.
    pub fn needs_attention(&self) -> (r: bool)
        ensures
            r == (self.disconnected > 0 || self.failed > 0),
    {
        self.disconnected > 0 || self.failed > 0
    }
}

/// What just happened in a poll.
#[derive(Debug, Clone, Copy)]
pub enum PollEvent {
    /// Shutdown was asked for before the next provider.
    Cancelled,
    /// The next provider: whether it is enabled, and whether its kind takes a payload (`None`
    /// when the registry does not know the kind).
    Considered { enabled: bool, accepts_payload: Option<bool> },
    /// The provider's sync ended with this recorded outcome, or returned an error (`None`).
    Synced(Option<SyncOutcome>),
}

/// What a poll does next.
#[derive(Debug, Clone, Copy, PartialEq, Eq, Structural)]
pub enum PollAction {
    /// Stop the poll, ending it this way.
    Stop(TaskRun),
    /// Sync the provider just considered.
    Sync,
    /// Go on to the next provider.
    Next,
}

impl Tally {
    /// Take one event: cancelled stops the poll, interrupted; a provider is synced only when
    /// [`polls_unattended`] allows it and passed over otherwise; a finished sync is counted
    /// with [`Tally::record`] and the poll goes on.
    pub fn step(&mut self, event: PollEvent) -> (a: PollAction)
        requires
            old(self).synced < u32::MAX,
            old(self).disconnected < u32::MAX,
            old(self).failed < u32::MAX,
        ensures
            match event {
                PollEvent::Cancelled => *final(self) == *old(self) && a == PollAction::Stop(TaskRun::Interrupted),
                PollEvent::Considered { enabled, accepts_payload } => *final(self) == *old(self) && a == if enabled
                    && accepts_payload == Some(false) {
                    PollAction::Sync
                } else {
                    PollAction::Next
                },
                PollEvent::Synced(outcome) => *final(self) == counted(*old(self), outcome) && a
                    == PollAction::Next,
            },
    {
        match event {
            PollEvent::Cancelled => PollAction::Stop(TaskRun::Interrupted),
            PollEvent::Considered { enabled, accepts_payload } => {
                if polls_unattended(enabled, accepts_payload) {
                    PollAction::Sync
                } else {
                    PollAction::Next
                }
            },
            PollEvent::Synced(outcome) => {
                self.record(outcome);
                PollAction::Next
            },
        }
    }
}

/// Each sync is counted exactly once, under exactly one heading, and a pass with any sync that
/// did not complete needs a person.
pub proof fn lemma_each_sync_counted_once(t: Tally, outcome: Option<SyncOutcome>)
    requires
        t.synced < u32::MAX,
        t.disconnected < u32::MAX,
        t.failed < u32::MAX,
    ensures
        tally_total(counted(t, outcome)) == tally_total(t) + 1,
        outcome != Some(SyncOutcome::Succeeded) ==> (counted(t, outcome).disconnected > 0
            || counted(t, outcome).failed > 0),
{
}

} // verus!
