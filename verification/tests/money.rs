use sure::money::{Money, MAX_MONEY_MINOR};

/// What a wire body holding `raw` as an amount deserialises to: the number, then the check.
fn de(raw: &str) -> Result<Money, String> {
    let n: i64 = serde_json::from_str(raw).map_err(|e| e.to_string())?;
    Money::from_wire(n)
}

#[test]
fn ordinary_amounts_round_trip_unchanged() {
    for raw in ["0", "-4250", "114269", "1234567890"] {
        let m = de(raw).unwrap();
        assert_eq!(serde_json::to_string(&m.minor()).unwrap(), raw);
        assert_eq!(m.minor(), raw.parse::<i64>().unwrap());
    }
}

#[test]
fn rejects_i64_max_and_min() {
    for raw in ["9223372036854775807", "-9223372036854775808"] {
        let err = de(raw).unwrap_err();
        assert!(err.contains("out of range"), "unhelpful message: {err}");
        assert!(
            err.contains(&MAX_MONEY_MINOR.to_string()),
            "message must name the ceiling: {err}"
        );
    }
}

#[test]
fn rejects_one_past_the_ceiling_in_both_directions() {
    assert!(de(&(MAX_MONEY_MINOR + 1).to_string()).is_err());
    assert!(de(&(-MAX_MONEY_MINOR - 1).to_string()).is_err());
}

#[test]
fn accepts_the_ceiling_itself() {
    assert_eq!(de(&MAX_MONEY_MINOR.to_string()).unwrap().minor(), MAX_MONEY_MINOR);
    assert_eq!(de(&(-MAX_MONEY_MINOR).to_string()).unwrap().minor(), -MAX_MONEY_MINOR);
}

#[test]
fn rejects_a_number_outside_i64_entirely() {
    assert!(de("9223372036854775808").is_err());
    assert!(de("1e30").is_err());
    assert!(de("null").is_err());
    assert!(de(r#""1000""#).is_err(), "a stringly amount is not money");
    assert!(de("42.5").is_err());
}

#[test]
fn the_ceiling_leaves_room_to_aggregate() {
    assert_eq!(MAX_MONEY_MINOR, 1_000_000_000_000_00);
    const { assert!(i64::MAX / MAX_MONEY_MINOR >= 50_000) };
    assert!(MAX_MONEY_MINOR.checked_mul(2).is_some());
}

#[test]
fn abs_and_neg_are_total() {
    assert_eq!(Money::new(-4250).unwrap().abs().minor(), 4250);
    assert_eq!(Money::new(4250).unwrap().abs().minor(), 4250);
    assert_eq!(Money::zero().abs(), Money::zero());
    assert_eq!(Money::new(-MAX_MONEY_MINOR).unwrap().abs().minor(), MAX_MONEY_MINOR);
    assert_eq!(Money::new(MAX_MONEY_MINOR).unwrap().neg().minor(), -MAX_MONEY_MINOR);
    assert!(Money::new(i64::MIN).is_err());
}

#[test]
fn new_and_try_from_are_the_same_check() {
    assert_eq!(Money::new(7_50).unwrap().minor(), 7_50);
    assert!(Money::new(i64::MAX).is_err());
    assert_eq!(i64::from(Money::new(-1).unwrap()), -1);
    let err = Money::new(i64::MAX).unwrap_err();
    assert_eq!(err.code(), "validation", "must be a 422, not a 500");
}

#[test]
fn orders_numerically() {
    let mut v = [Money::new(10).unwrap(), Money::new(-10).unwrap()];
    v.sort();
    assert_eq!(v[0].minor(), -10);
}

#[test]
fn the_refusal_names_the_value_and_the_ceiling_exactly() {
    let err = Money::new(MAX_MONEY_MINOR + 1).unwrap_err();
    assert_eq!(
        err.message(),
        "amount 100000000000001 is out of range: minor units must be within +/-100000000000000 \
         (±$1 trillion at two decimal places) — check whether a major-unit figure was sent, or \
         scaled twice"
    );
}

#[test]
fn compare_follows_the_number_line() {
    let a = Money::new(-5).unwrap();
    let b = Money::new(3).unwrap();
    assert_eq!(sure::money::compare(a, b), Some(std::cmp::Ordering::Less));
    assert_eq!(sure::money::compare(b, a), Some(std::cmp::Ordering::Greater));
    assert_eq!(sure::money::compare(a, a), Some(std::cmp::Ordering::Equal));
    assert_eq!(Money::default().minor(), 0);
}
