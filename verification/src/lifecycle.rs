//! Process lifecycle decisions: how long each shutdown phase gets, what started the shutdown,
//! and what the shutdown did.
//!
//! The sequence is serve, pre-drain delay (only for a trigger from outside), cancel, drain,
//! and a backstop for the blocking pool. Each phase has its own grace, and the sequence as a
//! whole is capped at their sum, so an overrunning phase eats into the budget but can never
//! leave a later phase with a negative one. The runtime that performs the phases lives at
//! the application's edge; what is decided here is plain arithmetic on spans of time.

use vstd::prelude::*;

use std::time::Instant;

verus! {

/// Nanoseconds in a second.
pub const NANOS_PER_SEC: u32 = 1_000_000_000;

/// A span of time with nanosecond precision, as `std::time::Duration` holds one: whole
/// seconds and the nanoseconds past them.
#[derive(Debug, Clone, Copy, PartialEq, Eq, PartialOrd, Ord, Hash)]
pub struct Span {
    secs: u64,
    nanos: u32,
}

impl View for Span {
    type V = int;

    /// The span in nanoseconds.
    closed spec fn view(&self) -> int {
        self.secs * 1_000_000_000 + self.nanos
    }
}

/// The longest span there is, in nanoseconds.
pub open spec fn max_span_nanos() -> int {
    u64::MAX * 1_000_000_000 + 999_999_999
}

pub open spec fn min_int(a: int, b: int) -> int {
    if a <= b {
        a
    } else {
        b
    }
}

impl Span {
    #[verifier::type_invariant]
    spec fn normalized(self) -> bool {
        self.nanos < NANOS_PER_SEC
    }

    pub fn zero() -> (s: Span)
        ensures
            s@ == 0,
    {
        Span { secs: 0, nanos: 0 }
    }

    pub fn from_secs(secs: u64) -> (s: Span)
        ensures
            s@ == secs * 1_000_000_000,
    {
        Span { secs, nanos: 0 }
    }

    pub fn from_millis(millis: u64) -> (s: Span)
        ensures
            s@ == millis * 1_000_000,
    {
        let secs = millis / 1000;
        let rest = millis % 1000;
        let nanos: u32 = (rest as u32) * 1_000_000;
        Span { secs, nanos }
    }

    /// A span from whole seconds and nanoseconds past them; nanoseconds beyond a second
    /// carry into the seconds, as `Duration::new` does. `None` when the seconds overflow.
    pub fn from_parts(secs: u64, nanos: u32) -> (r: Option<Span>)
        ensures
            r is Some <==> secs + nanos / 1_000_000_000 <= u64::MAX,
            r matches Some(s) ==> s@ == secs * 1_000_000_000 + nanos,
    {
        let carry: u64 = (nanos / NANOS_PER_SEC) as u64;
        if secs > u64::MAX - carry {
            return None;
        }
        Some(Span { secs: secs + carry, nanos: nanos % NANOS_PER_SEC })
    }

    pub fn as_secs(&self) -> (s: u64)
        ensures
            s == self@ / 1_000_000_000,
    {
        proof {
            use_type_invariant(self);
        }
        self.secs
    }

    pub fn subsec_nanos(&self) -> (n: u32)
        ensures
            n == self@ % 1_000_000_000,
    {
        proof {
            use_type_invariant(self);
        }
        self.nanos
    }

    pub fn is_zero(&self) -> (r: bool)
        ensures
            r == (self@ == 0),
    {
        proof {
            use_type_invariant(self);
        }
        self.secs == 0 && self.nanos == 0
    }

    /// Whether this span is no longer than `other`.
    pub fn no_longer_than(&self, other: &Span) -> (r: bool)
        ensures
            r == (self@ <= other@),
    {
        proof {
            use_type_invariant(self);
            use_type_invariant(other);
        }
        self.secs < other.secs || (self.secs == other.secs && self.nanos <= other.nanos)
    }

    /// The shorter of two spans.
    pub fn shorter(self, other: Span) -> (r: Span)
        ensures
            r@ == min_int(self@, other@),
    {
        if self.no_longer_than(&other) {
            self
        } else {
            other
        }
    }

    /// The sum of two spans, or the longest span when the sum would not fit.
    pub fn saturating_add(self, other: Span) -> (r: Span)
        ensures
            r@ == min_int(self@ + other@, max_span_nanos()),
    {
        proof {
            use_type_invariant(&self);
            use_type_invariant(&other);
        }
        let mut nanos: u32 = self.nanos + other.nanos;
        let mut carry: u64 = 0;
        if nanos >= NANOS_PER_SEC {
            nanos = nanos - NANOS_PER_SEC;
            carry = 1;
        }
        if self.secs > u64::MAX - other.secs || self.secs + other.secs > u64::MAX - carry {
            return Span { secs: u64::MAX, nanos: 999_999_999 };
        }
        Span { secs: self.secs + other.secs + carry, nanos }
    }

    /// This span less `other`, or zero when `other` is the longer.
    pub fn saturating_sub(self, other: Span) -> (r: Span)
        ensures
            r@ == if self@ >= other@ {
                self@ - other@
            } else {
                0
            },
    {
        proof {
            use_type_invariant(&self);
            use_type_invariant(&other);
        }
        if self.no_longer_than(&other) {
            return Span { secs: 0, nanos: 0 };
        }
        if self.nanos >= other.nanos {
            Span { secs: self.secs - other.secs, nanos: self.nanos - other.nanos }
        } else {
            Span { secs: self.secs - other.secs - 1, nanos: self.nanos + NANOS_PER_SEC - other.nanos }
        }
    }
}

/// How long each phase of the shutdown sequence gets. The total budget is their sum.
#[derive(Debug, Clone, Copy)]
pub struct LifecycleConfig {
    /// How long to keep serving after an external signal, before anything is cancelled.
    /// Zero by default.
    pub predrain_delay: Span,
    /// How long the application future gets to return after cancellation.
    pub app_grace: Span,
    /// How long the tracked tasks get, once the application future has returned.
    pub drain_grace: Span,
    /// How long the blocking pool gets. A backstop, so short by design.
    pub blocking_grace: Span,
}

impl Default for LifecycleConfig {
    fn default() -> (c: LifecycleConfig)
        ensures
            c.predrain_delay@ == 0,
            c.app_grace@ == 30 * 1_000_000_000,
            c.drain_grace@ == 10 * 1_000_000_000,
            c.blocking_grace@ == 5 * 1_000_000_000,
    {
        LifecycleConfig {
            predrain_delay: Span::zero(),
            app_grace: Span::from_secs(30),
            drain_grace: Span::from_secs(10),
            blocking_grace: Span::from_secs(5),
        }
    }
}

/// The sum of the four phases, saturating at the longest span.
pub open spec fn budget_of(c: LifecycleConfig) -> int {
    min_int(
        min_int(
            min_int(c.predrain_delay@ + c.app_grace@, max_span_nanos()) + c.drain_grace@,
            max_span_nanos(),
        ) + c.blocking_grace@,
        max_span_nanos(),
    )
}

impl LifecycleConfig {
    /// The ceiling on the whole sequence, from the moment shutdown begins.
    pub fn total_budget(&self) -> (b: Span)
        ensures
            b@ == budget_of(*self),
    {
        self.predrain_delay.saturating_add(self.app_grace).saturating_add(
            self.drain_grace,
        ).saturating_add(self.blocking_grace)
    }
}

/// The total budget is the sum of the phases whenever that sum fits, and never less than
/// any one phase.
pub proof fn lemma_budget_is_the_sum(c: LifecycleConfig)
    requires
        0 <= c.predrain_delay@,
        0 <= c.app_grace@,
        0 <= c.drain_grace@,
        0 <= c.blocking_grace@,
        c.predrain_delay@ <= max_span_nanos(),
        c.app_grace@ <= max_span_nanos(),
        c.drain_grace@ <= max_span_nanos(),
        c.blocking_grace@ <= max_span_nanos(),
    ensures
        c.predrain_delay@ + c.app_grace@ + c.drain_grace@ + c.blocking_grace@ <= max_span_nanos()
            ==> budget_of(c) == c.predrain_delay@ + c.app_grace@ + c.drain_grace@
            + c.blocking_grace@,
        budget_of(c) >= c.predrain_delay@,
        budget_of(c) >= c.app_grace@,
        budget_of(c) >= c.drain_grace@,
        budget_of(c) >= c.blocking_grace@,
{
}

/// What started the shutdown.
#[derive(Debug, Clone, Copy, PartialEq, Eq, Structural)]
pub enum Trigger {
    /// The application future returned `Ok`: it ran out of work.
    Completed,
    /// The application future returned `Err`.
    Failed,
    /// The application asked for shutdown itself.
    Requested,
    /// `SIGINT`: a Ctrl-C at a terminal.
    Interrupt,
    /// `SIGTERM`: what a container runtime or a service manager sends first.
    Terminate,
}

impl Trigger {
    /// Whether shutdown was asked for from outside the process. Only an external trigger
    /// gets the pre-drain delay.
    pub fn is_external(self) -> (r: bool)
        ensures
            r == (self == Trigger::Interrupt || self == Trigger::Terminate),
    {
        match self {
            Trigger::Interrupt | Trigger::Terminate => true,
            Trigger::Completed | Trigger::Failed | Trigger::Requested => false,
        }
    }

    /// The one legal rendering of this value as text, for a log field.
    pub fn as_str(self) -> (r: &'static str)
        ensures
            r@ == match self {
                Trigger::Completed => "completed"@,
                Trigger::Failed => "failed"@,
                Trigger::Requested => "requested"@,
                Trigger::Interrupt => "interrupt"@,
                Trigger::Terminate => "terminate"@,
            },
    {
        match self {
            Trigger::Completed => "completed",
            Trigger::Failed => "failed",
            Trigger::Requested => "requested",
            Trigger::Interrupt => "interrupt",
            Trigger::Terminate => "terminate",
        }
    }
}

/// What became of the application future.
#[derive(Debug, Clone, Copy, PartialEq, Eq, Structural)]
pub enum AppOutcome {
    /// It returned within its grace period.
    Finished,
    /// It was still running when the grace period expired, and was dropped mid-flight.
    Abandoned,
}

impl AppOutcome {
    /// The one legal rendering of this value as text, for a log field.
    pub fn as_str(self) -> (r: &'static str)
        ensures
            r@ == match self {
                AppOutcome::Finished => "finished"@,
                AppOutcome::Abandoned => "abandoned"@,
            },
    {
        match self {
            AppOutcome::Finished => "finished",
            AppOutcome::Abandoned => "abandoned",
        }
    }
}

/// What became of the blocking pool. Inferred from whether the backstop used its whole
/// grace; the case that cannot be told apart has its own variant.
#[derive(Debug, Clone, Copy, PartialEq, Eq, Structural)]
pub enum BlockingOutcome {
    /// The pool was empty, or emptied within its grace.
    Drained,
    /// The grace elapsed with blocking work still running; it was abandoned.
    TimedOut,
    /// There was no budget left, so nothing can be said about what was on the pool.
    Skipped,
}

impl BlockingOutcome {
    /// The one legal rendering of this value as text, for a log field.
    pub fn as_str(self) -> (r: &'static str)
        ensures
            r@ == match self {
                BlockingOutcome::Drained => "drained"@,
                BlockingOutcome::TimedOut => "timed_out"@,
                BlockingOutcome::Skipped => "skipped"@,
            },
    {
        match self {
            BlockingOutcome::Drained => "drained",
            BlockingOutcome::TimedOut => "timed_out",
            BlockingOutcome::Skipped => "skipped",
        }
    }
}

/// How the blocking-pool backstop went: skipped when it had no grace at all, timed out when
/// it took its whole grace, drained otherwise.
pub fn blocking_outcome(grace: Span, took: Span) -> (r: BlockingOutcome)
    ensures
        r == if grace@ == 0 {
            BlockingOutcome::Skipped
        } else if took@ >= grace@ {
            BlockingOutcome::TimedOut
        } else {
            BlockingOutcome::Drained
        },
{
    if grace.is_zero() {
        BlockingOutcome::Skipped
    } else if grace.no_longer_than(&took) {
        BlockingOutcome::TimedOut
    } else {
        BlockingOutcome::Drained
    }
}

/// What became of the tracked tasks.
#[derive(Debug, Clone, PartialEq, Eq)]
pub enum DrainOutcome {
    /// Everything finished. `tasks` is how many were running when the drain began.
    Drained { tasks: usize },
    /// The grace period ran out with `abandoned` tasks still running; `sites` names where
    /// each was spawned, when that was recorded.
    TimedOut { abandoned: usize, sites: Vec<String> },
}

impl DrainOutcome {
    /// How many tasks were left running.
    pub fn abandoned(&self) -> (n: usize)
        ensures
            n == match self {
                DrainOutcome::Drained { .. } => 0,
                DrainOutcome::TimedOut { abandoned, .. } => *abandoned,
            },
    {
        match self {
            DrainOutcome::Drained { .. } => 0,
            DrainOutcome::TimedOut { abandoned, .. } => *abandoned,
        }
    }

    /// Where the tasks that were left running had been spawned. Empty when the drain was
    /// clean.
    pub fn sites(&self) -> (s: &[String])
        ensures
            s@ == match self {
                DrainOutcome::Drained { .. } => Seq::<String>::empty(),
                DrainOutcome::TimedOut { sites, .. } => sites@,
            },
    {
        match self {
            DrainOutcome::Drained { .. } => &[],
            DrainOutcome::TimedOut { sites, .. } => sites.as_slice(),
        }
    }

    /// The one legal rendering of this value as text, for a log field.
    pub fn as_str(&self) -> (r: &'static str)
        ensures
            r@ == match self {
                DrainOutcome::Drained { .. } => "drained"@,
                DrainOutcome::TimedOut { .. } => "timed_out"@,
            },
    {
        match self {
            DrainOutcome::Drained { .. } => "drained",
            DrainOutcome::TimedOut { .. } => "timed_out",
        }
    }
}

/// What the shutdown sequence did, phase by phase.
#[derive(Debug, Clone, PartialEq, Eq)]
pub struct ShutdownReport {
    pub trigger: Trigger,
    pub app: AppOutcome,
    pub drain: DrainOutcome,
    pub blocking: BlockingOutcome,
    /// From the start of the shutdown sequence to the end of the last phase.
    pub elapsed: Span,
}

/// Whether a shutdown left nothing running: the application returned, every tracked task
/// finished, and the blocking pool was seen to drain.
pub open spec fn clean(r: ShutdownReport) -> bool {
    &&& r.app == AppOutcome::Finished
    &&& r.drain is Drained
    &&& r.blocking == BlockingOutcome::Drained
}

impl ShutdownReport {
    /// Whether the process exited with nothing left running. "We never looked" is not the
    /// same as "there was nothing there", so a skipped backstop is not clean.
    pub fn is_clean(&self) -> (r: bool)
        ensures
            r == clean(*self),
    {
        let app_finished = match self.app {
            AppOutcome::Finished => true,
            AppOutcome::Abandoned => false,
        };
        let drained = match &self.drain {
            DrainOutcome::Drained { .. } => true,
            DrainOutcome::TimedOut { .. } => false,
        };
        let blocking_done = match self.blocking {
            BlockingOutcome::Drained => true,
            BlockingOutcome::TimedOut | BlockingOutcome::Skipped => false,
        };
        app_finished && drained && blocking_done
    }

    /// The elapsed time in whole milliseconds for a log field, saturating at `u64::MAX`.
    pub fn elapsed_ms(&self) -> (ms: u64)
        ensures
            ms == min_int(self.elapsed@ / 1_000_000, u64::MAX as int),
    {
        let secs = self.elapsed.as_secs();
        let sub_ms: u64 = (self.elapsed.subsec_nanos() / 1_000_000) as u64;
        if secs > (u64::MAX - sub_ms) / 1000 {
            u64::MAX
        } else {
            secs * 1000 + sub_ms
        }
    }
}

/// A clean report has abandoned nothing.
pub proof fn lemma_clean_abandons_nothing(r: ShutdownReport)
    requires
        clean(r),
    ensures
        r.drain is Drained,
        r.app != AppOutcome::Abandoned,
        r.blocking != BlockingOutcome::Skipped && r.blocking != BlockingOutcome::TimedOut,
{
}

/// A moment on the monotonic clock, `std::time::Instant`, carried through unread.
#[verifier::external_type_specification]
#[verifier::external_body]
pub struct ExInstant(Instant);

/// The wall-clock ceiling on the shutdown sequence: a total, and the instant it started
/// counting from. What is left is the total less what has elapsed, never below zero.
#[derive(Debug, Clone, Copy)]
pub struct Budget {
    started: Instant,
    total: Span,
}

/// `Instant::now()`.
#[verifier::external_body]
fn clock_now() -> (r: Instant) {
    Instant::now()
}

/// `Instant::elapsed()`: how long ago `start` was. Depends on the clock, so nothing is said
/// of the value beyond that it is a span.
#[verifier::external_body]
fn clock_elapsed(start: &Instant) -> (r: Span) {
    let d = start.elapsed();
    Span { secs: d.as_secs(), nanos: d.subsec_nanos() }
}

/// The grace a phase gets from what is left: what it asked for, or what is left, whichever
/// is smaller.
pub fn allow_within(phase: Span, remaining: Span) -> (r: Span)
    ensures
        r@ == min_int(phase@, remaining@),
{
    phase.shorter(remaining)
}

impl Budget {
    /// The budget's total.
    pub closed spec fn total_nanos(self) -> int {
        self.total@
    }

    /// A budget of `total`, counting from now.
    pub fn starting_now(total: Span) -> (b: Budget)
        ensures
            b.total_nanos() == total@,
    {
        Budget { started: clock_now(), total }
    }

    /// What is left of the budget: never negative, never more than the total.
    pub fn remaining(&self) -> (r: Span)
        ensures
            0 <= r@ <= self.total_nanos(),
    {
        let elapsed = clock_elapsed(&self.started);
        proof {
            use_type_invariant(&elapsed);
            use_type_invariant(&self.total);
        }
        self.total.saturating_sub(elapsed)
    }

    /// The grace a phase actually gets: what it asked for, or what is left, whichever is
    /// smaller. Zero is a legitimate answer.
    pub fn allow(&self, phase: Span) -> (r: Span)
        ensures
            0 <= r@ <= phase@,
            r@ <= self.total_nanos(),
    {
        proof {
            use_type_invariant(&phase);
        }
        allow_within(phase, self.remaining())
    }
}

} // verus!
