use sure::accounts::AccountKind;
use sure::rule_engine::{
    apply_rule, check_expression_limits, check_rule, max_bracket_depth, plan_new_run, plan_run,
    Current,
    TxCtx, MAX_EXPRESSION_BYTES,
};
use sure::error::AppError;
use sure::rules::Rule;

fn ctx(id: i64, amount_minor: i64, category_id: Option<i64>) -> TxCtx {
    TxCtx {
        id,
        account_id: 1,
        posted_at: "2026-01-05".to_string(),
        amount_minor,
        currency_code: "NZD".to_string(),
        decimal_places: 2,
        description: "Flat White".to_string(),
        merchant: Some("The Roastery".to_string()),
        merchant_id: None,
        notes: None,
        category_id,
        is_one_off: false,
        categorized_by_rule_id: None,
        account_name: "Everyday".to_string(),
        account_kind: AccountKind::Bank,
    }
}

fn rule(id: i64, expression: &str, set_category_id: i64) -> Rule {
    Rule {
        id,
        name: "categorize coffee".to_string(),
        description: None,
        expression: expression.to_string(),
        set_category_id: Some(set_category_id),
        set_one_off: None,
        set_merchant_id: None,
        overwrite_manual: false,
        stop_on_match: true,
        priority: 0,
        enabled: true,
        created_at: "2026-01-01T00:00:00.000Z".to_string(),
        updated_at: "2026-01-01T00:00:00.000Z".to_string(),
    }
}

#[test]
fn a_matching_rule_categorizes_an_uncategorized_transaction() {
    let r = rule(1, "merchant == \"The Roastery\"", 42);
    for row in [ctx(1, -450, None), ctx(2, 500, None)] {
        let step = apply_rule(&r, row.id, &Current::of(&row));
        let app = step.application.expect("an uncategorized row changes");
        assert_eq!(app.new_category_id, Some(42));
        assert_eq!(app.new_categorized_by_rule_id, Some(1));
        assert!(step.stop);
    }
}

#[test]
fn a_manual_category_is_protected_unless_overwrite_is_set() {
    let row = ctx(1, -450, Some(7));
    let mut r = rule(1, "merchant == \"The Roastery\"", 42);
    r.overwrite_manual = false;
    let step = apply_rule(&r, row.id, &Current::of(&row));
    assert!(step.application.is_none());
    assert_eq!(step.next.category_id, Some(7));

    r.overwrite_manual = true;
    let step = apply_rule(&r, row.id, &Current::of(&row));
    assert_eq!(step.application.unwrap().new_category_id, Some(42));
}

#[test]
fn a_later_rule_sees_what_an_earlier_rule_changed() {
    let row = ctx(1, -450, None);
    let mut categorize = rule(10, "is_expense", 10);
    categorize.stop_on_match = false;
    let mut flag = rule(11, "category_id == 10", 0);
    flag.set_category_id = None;
    flag.set_one_off = Some(true);
    flag.set_merchant_id = Some(5);
    flag.stop_on_match = false;

    let first = apply_rule(&categorize, row.id, &Current::of(&row));
    assert_eq!(first.next.category_id, Some(10));
    let second = apply_rule(&flag, row.id, &first.next);
    let app = second.application.unwrap();
    assert!(app.new_one_off);
    assert_eq!(app.new_merchant_id, Some(5));
    assert_eq!(app.prev_category_id, Some(10));
    assert_eq!(app.new_category_id, Some(10));
    assert_eq!(app.new_categorized_by_rule_id, Some(10));
}

#[test]
fn an_empty_expression_is_rejected() {
    assert!(check_expression_limits("").is_err());
}

#[test]
fn a_deeply_nested_expression_is_rejected_before_the_parser_sees_it() {
    let deep = format!("{}1{}", "[".repeat(40_000), "]".repeat(40_000));
    let err = check_expression_limits(&deep).expect_err("40 000 levels must be rejected");
    if let AppError::Validation(msg) = &err {
        assert!(msg.contains("too long") || msg.contains("too deep"), "{msg}");
        assert!(!msg.contains("invalid expression"), "the parser was reached: {msg}");
    } else {
        panic!("expected a validation error, got: {err:?}");
    }
}

#[test]
fn nesting_alone_is_rejected_even_within_the_byte_ceiling() {
    let nested = "[".repeat(4_000);
    assert!(nested.len() < MAX_EXPRESSION_BYTES);
    let err = check_expression_limits(&nested).expect_err("4 000 levels must be rejected");
    if let AppError::Validation(msg) = &err {
        assert!(msg.contains("too deep"), "expected the depth guard: {msg}");
    } else {
        panic!("expected a validation error, got: {err:?}");
    }
}

#[test]
fn an_expression_over_the_byte_ceiling_is_rejected() {
    let long = format!("description == \"{}\"", "x".repeat(MAX_EXPRESSION_BYTES));
    let err = check_expression_limits(&long).expect_err("an oversize expression must be rejected");
    if let AppError::Validation(msg) = &err {
        assert!(msg.contains("too long"), "expected the size guard: {msg}");
    } else {
        panic!("expected a validation error, got: {err:?}");
    }
}

#[test]
fn an_ordinary_rule_expression_still_validates() {
    check_expression_limits(
        "is_expense and (contains(lower(description),'countdown') or abs_amount > 40)",
    )
    .expect("a realistic rule must still be accepted");
}

#[test]
fn a_modestly_nested_expression_still_validates() {
    let nested = format!("{}amount_minor < 0{}", "(".repeat(10), ")".repeat(10));
    assert_eq!(max_bracket_depth(&nested), 10);
    check_expression_limits(&nested).expect("ten levels of grouping must still be accepted");
}

#[test]
fn the_limits_are_worded_exactly() {
    let nested = "(".repeat(65);
    assert_eq!(
        check_expression_limits(&nested).unwrap_err().message(),
        "expression nesting is too deep (65 levels, limit 64)"
    );
    assert_eq!(max_bracket_depth("(a)(b)[{c}]"), 2);
    assert_eq!(max_bracket_depth(")))((("), 3);
    assert_eq!(check_rule("  ", "x").unwrap_err().message(), "rule name is required");
    assert_eq!(check_rule("n", " ").unwrap_err().message(), "expression is required");
    let long = "x".repeat(MAX_EXPRESSION_BYTES + 1);
    assert_eq!(
        check_expression_limits(&long).unwrap_err().message(),
        "expression is too long (16385 bytes, limit 16384)"
    );
}

#[test]
fn a_preview_limit_defaults_and_is_clamped() {
    assert_eq!(sure::rule_engine::preview_limit(None), 25);
    assert_eq!(sure::rule_engine::preview_limit(Some(0)), 1);
    assert_eq!(sure::rule_engine::preview_limit(Some(-4)), 1);
    assert_eq!(sure::rule_engine::preview_limit(Some(80)), 80);
    assert_eq!(sure::rule_engine::preview_limit(Some(10_000)), 500);
}

#[test]
fn a_preview_counts_every_match_and_lists_the_first_few() {
    let mut p = sure::rules::RulePreview::empty();
    for id in 1..=5 {
        p.observe(&ctx(id, -500, None), id != 3, 2);
    }
    assert_eq!(p.matched, 4);
    let listed: Vec<i64> = p.sample.iter().map(|m| m.transaction_id).collect();
    assert_eq!(listed, vec![1, 2]);
    assert_eq!(p.sample[0].amount_minor, -500);
    assert_eq!(p.sample[0].currency_code, "NZD");
}

/// Answers the handful of expressions these tests use, the way the evaluator would.
fn answer(expression: &str, row: &TxCtx) -> bool {
    let abs = (row.amount_minor as f64 / 100.0).abs();
    match expression {
        "is_expense" => row.amount_minor < 0,
        "is_income" => row.amount_minor > 0,
        "abs_amount > 4" => abs > 4.0,
        _ => false,
    }
}

#[test]
fn a_rule_set_over_several_rows_takes_rows_then_rules_in_order() {
    let rows = vec![ctx(1, -450, None), ctx(2, 500, None)];
    let mut broad = rule(10, "is_expense", 10);
    broad.stop_on_match = false;
    let stopper = rule(11, "abs_amount > 4", 11);
    let unreached = rule(12, "is_income", 12);
    let mut off = rule(13, "is_expense", 13);
    off.enabled = false;
    let rules = vec![broad, stopper, unreached, off];
    let asked = std::cell::RefCell::new(Vec::new());
    let (matched, apps) = plan_run(&rules, &rows, |j: usize, i: usize, _cur: Current| {
        asked.borrow_mut().push((i, j));
        answer(&rules[j].expression, &rows[i])
    });
    assert_eq!(matched, 3);
    assert_eq!(apps.len(), 3);
    assert_eq!((apps[0].rule_id, apps[0].transaction_id), (10, 1));
    assert_eq!((apps[0].prev_category_id, apps[0].new_category_id), (None, Some(10)));
    assert_eq!((apps[1].rule_id, apps[1].transaction_id), (11, 1));
    assert_eq!((apps[1].prev_category_id, apps[1].new_category_id), (Some(10), Some(11)));
    assert_eq!(apps[1].prev_categorized_by_rule_id, Some(10));
    assert_eq!(apps[1].new_categorized_by_rule_id, Some(11));
    assert_eq!((apps[2].rule_id, apps[2].transaction_id), (11, 2));
    assert_eq!((apps[2].prev_category_id, apps[2].new_category_id), (None, Some(11)));
    // Row 1 stops at rule 11; row 2 is not matched by rule 10 and stops at rule 11; the
    // disabled rule is never asked about.
    assert_eq!(*asked.borrow(), vec![(0, 0), (0, 1), (1, 0), (1, 1)]);
}

#[test]
fn reversing_the_rule_order_changes_the_outcome() {
    let rows = vec![ctx(1, -450, None)];
    let mut broad = rule(10, "is_expense", 10);
    broad.stop_on_match = false;
    let stopper = rule(11, "abs_amount > 4", 11);
    let forward = vec![broad.clone(), stopper.clone()];
    let (_, f) = plan_run(&forward, &rows, |j: usize, i: usize, _c: Current| {
        answer(&forward[j].expression, &rows[i])
    });
    assert_eq!(f.last().unwrap().new_category_id, Some(11));
    let backward = vec![stopper, broad];
    let (matched, b) = plan_run(&backward, &rows, |j: usize, i: usize, _c: Current| {
        answer(&backward[j].expression, &rows[i])
    });
    assert_eq!(matched, 1);
    assert_eq!(b.len(), 1);
    assert_eq!(b[0].rule_id, 11);
}

#[test]
fn a_later_rule_is_asked_in_the_state_an_earlier_one_left() {
    let rows = vec![ctx(1, -450, None)];
    let mut first = rule(10, "is_expense", 10);
    first.stop_on_match = false;
    let second = rule(11, "category is 10", 11);
    let rules = vec![first, second];
    let (matched, apps) = plan_run(&rules, &rows, |j: usize, i: usize, cur: Current| {
        if j == 1 {
            cur.category_id == Some(10)
        } else {
            answer(&rules[j].expression, &rows[i])
        }
    });
    assert_eq!(matched, 2);
    assert_eq!(apps[1].prev_category_id, Some(10));
    assert_eq!(apps[1].new_category_id, Some(11));
}

#[test]
fn an_automatic_run_that_changes_nothing_is_not_recorded() {
    let rows = vec![ctx(1, -450, Some(10))];
    let mut already = rule(10, "is_expense", 10);
    already.overwrite_manual = true;
    let rules = vec![already];
    let ask = |j: usize, i: usize, _c: Current| answer(&rules[j].expression, &rows[i]);
    assert!(plan_new_run(&rules, &rows, ask).is_none());
    assert!(plan_new_run(&rules, &[], ask).is_none());
    let fresh = vec![ctx(2, -450, None)];
    let got = plan_new_run(&rules, &fresh, |j: usize, i: usize, _c: Current| {
        answer(&rules[j].expression, &fresh[i])
    })
    .expect("a change to record");
    assert_eq!(got.0, 1);
    assert_eq!(got.1[0].new_category_id, Some(10));
}
