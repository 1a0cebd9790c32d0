use sure::call_sites::{drain_outcome, text_no_later, CallSites};
use sure::lifecycle::DrainOutcome;

#[test]
fn outstanding_sites_are_listed_sorted_once_each() {
    let mut sites = CallSites::new();
    let a = sites.record("src/server.rs:158:9".to_string());
    let b = sites.record("src/jobs.rs:40:5".to_string());
    let c = sites.record("src/server.rs:158:9".to_string());
    assert_eq!((a, b, c), (0, 1, 2));
    assert_eq!(
        sites.outstanding(),
        vec![
            "src/jobs.rs:40:5".to_string(),
            "src/server.rs:158:9".to_string(),
            "src/server.rs:158:9".to_string(),
        ]
    );
}

#[test]
fn two_tasks_from_one_line_are_released_independently() {
    let mut sites = CallSites::new();
    let a = sites.record("src/server.rs:158:9".to_string());
    let _b = sites.record("src/server.rs:158:9".to_string());
    sites.release(a);
    assert_eq!(sites.outstanding(), vec!["src/server.rs:158:9".to_string()]);
    sites.release(a);
    assert_eq!(sites.outstanding().len(), 1);
}

#[test]
fn a_finished_drain_leaves_nothing_outstanding() {
    let mut sites = CallSites::new();
    let ids: Vec<u64> = ["b", "a", "c"].iter().map(|s| sites.record(s.to_string())).collect();
    for id in ids {
        sites.release(id);
    }
    assert!(sites.outstanding().is_empty());
}

#[test]
fn texts_compare_as_strings_do() {
    for (a, b) in [("a", "b"), ("ab", "a"), ("", "x"), ("x", ""), ("é", "z"), ("same", "same")] {
        assert_eq!(text_no_later(a, b), a <= b, "{a} vs {b}");
    }
}

#[test]
fn a_timed_out_drain_names_what_it_left() {
    let mut sites = CallSites::new();
    sites.record("src/b.rs:1:1".to_string());
    sites.record("src/a.rs:1:1".to_string());
    assert_eq!(drain_outcome(2, true, 0, &sites), DrainOutcome::Drained { tasks: 2 });
    assert_eq!(
        drain_outcome(2, false, 2, &sites),
        DrainOutcome::TimedOut {
            abandoned: 2,
            sites: vec!["src/a.rs:1:1".to_string(), "src/b.rs:1:1".to_string()],
        }
    );
}
