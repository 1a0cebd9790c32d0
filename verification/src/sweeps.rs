//! The background sweeps' decisions, one step at a time: what a sweep does next, given what
//! just happened, and what it has counted so far. The fetches and writes happen at the edge;
//! each result comes back here as an event.

use vstd::prelude::*;

use crate::error::AppError;
use crate::tasks::{decide, Decision, HousePricerSubscription, PropertyEstimate, SkipReason};
use crate::text::eq_ignoring_ascii_case;

verus! {

/// How a sweep ended: every item was seen, or a shutdown stopped it between items (and the
/// run is not recorded, so the next start sweeps again).
#[derive(Debug, Clone, Copy, PartialEq, Eq, Structural)]
pub enum TaskRun {
    Completed,
    Interrupted,
}

/// What the property-estimate sweep has counted so far.
#[derive(Debug, Clone, Copy, PartialEq, Eq, Structural)]
pub struct EstimateSweep {
    pub recorded: u32,
    pub skipped: u32,
}

/// What just happened in the property-estimate sweep, for one subscription.
#[derive(Debug)]
pub enum EstimateEvent {
    /// Shutdown was asked for before this subscription was fetched.
    Cancelled,
    /// The upstream answered with this estimate.
    Fetched(PropertyEstimate),
    /// The upstream matched no property for the saved address.
    NoMatch,
    /// The fetch failed.
    FetchFailed,
    /// The estimate was written.
    Written,
}

/// What the property-estimate sweep does next.
#[derive(Debug)]
pub enum EstimateAction {
    /// Stop the sweep, ending it this way.
    Stop(TaskRun),
    /// Go on to the next subscription.
    Next,
    /// Leave this subscription's figure alone, for this reason, and go on.
    Skip(SkipReason),
    /// Write this value, with this note, as today's estimate for the subscription's account.
    Write { value_minor: i64, note: String },
}

impl EstimateSweep {
    /// A sweep that has counted nothing.
    pub fn new() -> (s: EstimateSweep)
        ensures
            s == (EstimateSweep { recorded: 0, skipped: 0 }),
    {
        EstimateSweep { recorded: 0, skipped: 0 }
    }

    /// Take one event for subscription `sub`:
    /// - cancelled: stop, interrupted, counting nothing;
    /// - no match, or a failed fetch: count a skip and go on;
    /// - an estimate: write it when [`decide`] records it, otherwise count a skip and say why;
    /// - written: count it and go on.
    pub fn step(&mut self, sub: &HousePricerSubscription, event: EstimateEvent) -> (a: EstimateAction)
        requires
            old(self).recorded < u32::MAX,
            old(self).skipped < u32::MAX,
        ensures
            match event {
                EstimateEvent::Cancelled => *final(self) == *old(self) && (a matches EstimateAction::Stop(
                    TaskRun::Interrupted,
                )),
                EstimateEvent::NoMatch | EstimateEvent::FetchFailed => {
                    &&& *final(self) == (EstimateSweep { skipped: (old(self).skipped + 1) as u32, ..*old(self) })
                    &&& a is Next
                },
                EstimateEvent::Written => {
                    &&& *final(self) == (EstimateSweep { recorded: (old(self).recorded + 1) as u32, ..*old(self) })
                    &&& a is Next
                },
                EstimateEvent::Fetched(e) => if e.property_id@ == sub.link.property_id@ && eq_ignoring_ascii_case(
                    e.currency_code@,
                    sub.currency_code@,
                ) {
                    &&& *final(self) == *old(self)
                    &&& a matches EstimateAction::Write { value_minor, note }
                    &&& value_minor == e.value_minor
                    &&& note@ == crate::tasks::NOTE_PREFIX@ + " ("@ + e.model_note@ + ")"@
                } else {
                    &&& *final(self) == (EstimateSweep { skipped: (old(self).skipped + 1) as u32, ..*old(self) })
                    &&& if e.property_id@ != sub.link.property_id@ {
                        (a matches EstimateAction::Skip(SkipReason::DifferentProperty { matched, matched_address })
                            && matched@ == e.property_id@ && matched_address@ == e.matched_address@)
                    } else {
                        (a matches EstimateAction::Skip(SkipReason::CurrencyMismatch { estimate_currency })
                            && estimate_currency@ == e.currency_code@)
                    }
                },
            },
    {
        match event {
            EstimateEvent::Cancelled => EstimateAction::Stop(TaskRun::Interrupted),
            EstimateEvent::NoMatch | EstimateEvent::FetchFailed => {
                self.skipped = self.skipped + 1;
                EstimateAction::Next
            },
            EstimateEvent::Written => {
                self.recorded = self.recorded + 1;
                EstimateAction::Next
            },
            EstimateEvent::Fetched(e) => match decide(sub, &e) {
                Decision::Record { value_minor, note } => EstimateAction::Write { value_minor, note },
                Decision::Skip(reason) => {
                    self.skipped = self.skipped + 1;
                    EstimateAction::Skip(reason)
                },
            },
        }
    }
}

/// What the stock-price sweep has counted so far: tickers refreshed, quotes skipped.
#[derive(Debug, Clone, Copy, PartialEq, Eq, Structural)]
pub struct PriceSweep {
    pub refreshed: u32,
    pub skipped: u32,
}

/// What just happened in the stock-price sweep.
#[derive(Debug)]
pub enum PriceEvent {
    /// Shutdown was asked for before the next ticker was fetched.
    Cancelled,
    /// The ticker's quotes could not be fetched.
    FetchFailed,
    /// One quote's cache write came back with this result.
    QuoteWritten(Result<(), AppError>),
    /// Every quote of the ticker has been written or skipped.
    TickerDone,
}

/// What the stock-price sweep does next.
#[derive(Debug)]
pub enum PriceAction {
    /// Stop the sweep, ending it this way.
    Stop(TaskRun),
    /// Go on: to the next quote, or the next ticker.
    Next,
    /// Stop the sweep with this error, so the run is not recorded and is retried.
    Fail(AppError),
}

impl PriceSweep {
    /// A sweep that has counted nothing.
    pub fn new() -> (s: PriceSweep)
        ensures
            s == (PriceSweep { refreshed: 0, skipped: 0 }),
    {
        PriceSweep { refreshed: 0, skipped: 0 }
    }

    /// Take one event:
    /// - cancelled: stop, interrupted;
    /// - a failed fetch: go on to the next ticker, counting nothing (one bad symbol must not
    ///   block the rest);
    /// - a stored quote: go on; a quote the cache refused as unusable (a validation error):
    ///   count a skip and go on; any other write error: fail the sweep with it;
    /// - a ticker done: count it refreshed.
    pub fn step(&mut self, event: PriceEvent) -> (a: PriceAction)
        requires
            old(self).refreshed < u32::MAX,
            old(self).skipped < u32::MAX,
        ensures
            match event {
                PriceEvent::Cancelled => *final(self) == *old(self) && (a matches PriceAction::Stop(
                    TaskRun::Interrupted,
                )),
                PriceEvent::FetchFailed => *final(self) == *old(self) && a is Next,
                PriceEvent::QuoteWritten(r) => match r {
                    Ok(()) => *final(self) == *old(self) && a is Next,
                    Err(e) => if e is Validation {
                        *final(self) == (PriceSweep { skipped: (old(self).skipped + 1) as u32, ..*old(self) })
                            && a is Next
                    } else {
                        *final(self) == *old(self) && (a matches PriceAction::Fail(f) && f == e)
                    },
                },
                PriceEvent::TickerDone => *final(self) == (PriceSweep {
                    refreshed: (old(self).refreshed + 1) as u32,
                    ..*old(self)
                }) && a is Next,
            },
    {
        match event {
            PriceEvent::Cancelled => PriceAction::Stop(TaskRun::Interrupted),
            PriceEvent::FetchFailed => PriceAction::Next,
            PriceEvent::QuoteWritten(r) => match crate::stock_prices::after_quote_write(r) {
                crate::stock_prices::QuoteOutcome::Stored => PriceAction::Next,
                crate::stock_prices::QuoteOutcome::Skipped => {
                    self.skipped = self.skipped + 1;
                    PriceAction::Next
                },
                crate::stock_prices::QuoteOutcome::Fatal(e) => PriceAction::Fail(e),
            },
            PriceEvent::TickerDone => {
                self.refreshed = self.refreshed + 1;
                PriceAction::Next
            },
        }
    }
}

} // verus!
