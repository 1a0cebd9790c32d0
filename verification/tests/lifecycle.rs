use sure::lifecycle::{
    allow_within, blocking_outcome, AppOutcome, BlockingOutcome, Budget, DrainOutcome,
    LifecycleConfig, ShutdownReport, Span, Trigger,
};

#[test]
fn the_budget_never_hands_out_a_negative_grace() {
    let budget = Budget::starting_now(Span::zero());
    assert_eq!(budget.allow(Span::from_secs(30)), Span::zero());
    assert_eq!(budget.remaining(), Span::zero());
}

#[test]
fn a_phase_gets_the_smaller_of_its_grace_and_what_is_left() {
    let budget = Budget::starting_now(Span::from_secs(10));
    assert_eq!(budget.allow(Span::from_secs(3)), Span::from_secs(3));
    assert!(budget.allow(Span::from_secs(60)) <= Span::from_secs(10));
}

#[test]
fn sub_second_graces_survive_the_budget() {
    let budget = Budget::starting_now(Span::from_millis(1500));
    let allowed = budget.allow(Span::from_millis(250));
    assert_eq!(allowed, Span::from_millis(250));
}

#[test]
fn only_an_external_trigger_delays() {
    assert!(Trigger::Interrupt.is_external());
    assert!(Trigger::Terminate.is_external());
    assert!(!Trigger::Completed.is_external());
    assert!(!Trigger::Failed.is_external());
}

#[test]
fn a_report_is_clean_only_when_every_phase_finished() {
    let clean = ShutdownReport {
        trigger: Trigger::Terminate,
        app: AppOutcome::Finished,
        drain: DrainOutcome::Drained { tasks: 2 },
        blocking: BlockingOutcome::Drained,
        elapsed: Span::from_millis(5),
    };
    assert!(clean.is_clean());

    assert!(!ShutdownReport {
        drain: DrainOutcome::TimedOut { abandoned: 1, sites: vec!["src/lib.rs:1:1".to_string()] },
        ..clean.clone()
    }
    .is_clean());
    assert!(!ShutdownReport { app: AppOutcome::Abandoned, ..clean.clone() }.is_clean());
    assert!(!ShutdownReport { blocking: BlockingOutcome::Skipped, ..clean }.is_clean());
}

#[test]
fn abandoned_counts_only_what_was_left_running() {
    assert_eq!(DrainOutcome::Drained { tasks: 7 }.abandoned(), 0);
    assert_eq!(DrainOutcome::TimedOut { abandoned: 3, sites: Vec::new() }.abandoned(), 3);
}

#[test]
fn the_total_budget_is_the_sum_of_the_phases_and_saturates() {
    let c = LifecycleConfig::default();
    assert_eq!(c.predrain_delay, Span::zero());
    assert_eq!(c.total_budget(), Span::from_secs(45));
    let huge = LifecycleConfig {
        predrain_delay: Span::from_secs(u64::MAX),
        app_grace: Span::from_millis(1),
        drain_grace: Span::zero(),
        blocking_grace: Span::zero(),
    };
    let near = huge.total_budget();
    assert_eq!(near.as_secs(), u64::MAX);
    assert_eq!(near.subsec_nanos(), 1_000_000);
    let over = LifecycleConfig { drain_grace: Span::from_secs(1), ..huge };
    let max = over.total_budget();
    assert_eq!(max.as_secs(), u64::MAX);
    assert_eq!(max.subsec_nanos(), 999_999_999);
}

#[test]
fn spans_add_and_subtract_with_carry() {
    let a = Span::from_millis(1_700);
    let b = Span::from_millis(800);
    assert_eq!(a.saturating_add(b), Span::from_millis(2_500));
    assert_eq!(a.saturating_sub(b), Span::from_millis(900));
    assert_eq!(b.saturating_sub(a), Span::zero());
    assert_eq!(Span::from_parts(1, 2_500_000_000), Some(Span::from_millis(3_500)));
    assert_eq!(Span::from_parts(u64::MAX, 1_000_000_000), None);
    assert_eq!(allow_within(Span::from_secs(3), Span::from_secs(2)), Span::from_secs(2));
}

#[test]
fn the_backstop_outcome_follows_its_grace() {
    assert_eq!(blocking_outcome(Span::zero(), Span::zero()), BlockingOutcome::Skipped);
    assert_eq!(blocking_outcome(Span::from_secs(5), Span::from_secs(5)), BlockingOutcome::TimedOut);
    assert_eq!(blocking_outcome(Span::from_secs(5), Span::from_millis(10)), BlockingOutcome::Drained);
}

#[test]
fn every_outcome_renders_its_log_name() {
    assert_eq!(Trigger::Requested.as_str(), "requested");
    assert_eq!(AppOutcome::Abandoned.as_str(), "abandoned");
    assert_eq!(BlockingOutcome::TimedOut.as_str(), "timed_out");
    let timed_out = DrainOutcome::TimedOut { abandoned: 1, sites: vec!["a.rs:1:1".to_string()] };
    assert_eq!(timed_out.as_str(), "timed_out");
    assert_eq!(timed_out.sites(), &["a.rs:1:1".to_string()]);
    assert!(DrainOutcome::Drained { tasks: 1 }.sites().is_empty());
    let report = ShutdownReport {
        trigger: Trigger::Completed,
        app: AppOutcome::Finished,
        drain: DrainOutcome::Drained { tasks: 0 },
        blocking: BlockingOutcome::Drained,
        elapsed: Span::from_millis(1_234),
    };
    assert_eq!(report.elapsed_ms(), 1_234);
}
