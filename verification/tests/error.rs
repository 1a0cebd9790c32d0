use sure::error::{
    overloaded_body, sqlite_is_busy, truncate_for_wire, AppError, DatabaseFailure,
    MAX_UPSTREAM_DETAIL_CHARS, OVERLOADED_CODE, OVERLOADED_MESSAGE,
};

fn db_error(code: &str) -> AppError {
    AppError::Database(
        DatabaseFailure::Engine { code: Some(code.to_string()) },
        format!("(code: {code}) synthetic"),
    )
}

#[test]
fn pool_exhaustion_is_overload_not_internal() {
    let err = AppError::Database(DatabaseFailure::PoolTimedOut, "pool timed out".into());
    assert!(err.is_overloaded());
    assert_eq!(err.code(), OVERLOADED_CODE);
}

#[test]
fn every_busy_result_code_is_overload() {
    for code in ["5", "6", "261", "517", "773", "262"] {
        let err = db_error(code);
        assert!(err.is_overloaded(), "code {code} should be overload");
        assert_eq!(err.code(), OVERLOADED_CODE, "code {code}");
    }
}

#[test]
fn other_database_errors_stay_internal() {
    for code in ["1", "11", "1555", ""] {
        let err = db_error(code);
        assert!(!err.is_overloaded(), "code {code:?} should not be overload");
        assert_eq!(err.code(), "internal", "code {code:?}");
    }
    let not_found = AppError::Database(DatabaseFailure::RowNotFound, "no rows".into());
    assert!(!not_found.is_overloaded());
    assert_eq!(not_found.code(), "not_found");
    assert!(!AppError::Internal("boom".into()).is_overloaded());
}

#[test]
fn saturation_answers_503_overloaded_with_retry_after() {
    for err in [
        AppError::Database(DatabaseFailure::PoolTimedOut, "pool timed out".into()),
        db_error("5"),
    ] {
        assert_eq!(err.status(), 503);
        assert!(err.is_overloaded());
    }
    let body = overloaded_body();
    assert_eq!(body.error.code, OVERLOADED_CODE);
    assert_eq!(body.error.message, OVERLOADED_MESSAGE);
}

#[test]
fn an_upstream_failure_is_a_502_whose_detail_stays_server_side() {
    let err = AppError::upstream("UPSTREAM-ONLY-MARKER: 503 from feed");
    assert_eq!(err.code(), "upstream");
    assert!(!err.is_overloaded());
    let (status, body) = err.response_parts();
    assert_eq!(status, 502);
    assert_eq!(body.error.code, "upstream");
    assert!(!body.error.message.contains("UPSTREAM-ONLY-MARKER"), "detail leaked");
}

#[test]
fn a_real_database_error_is_still_a_scrubbed_500() {
    let (status, body) = db_error("1").response_parts();
    assert_eq!(status, 500);
    assert_eq!(body.error.code, "internal");
    assert!(!body.error.message.contains("synthetic"), "detail leaked");
}

#[test]
fn the_constructor_bounds_what_an_upstream_said() {
    let huge = "x".repeat(MAX_UPSTREAM_DETAIL_CHARS * 3);
    let AppError::Upstream(detail) = AppError::upstream(&huge) else {
        panic!("upstream() must build an Upstream");
    };
    assert_eq!(
        detail.chars().count(),
        MAX_UPSTREAM_DETAIL_CHARS + "… (truncated)".chars().count()
    );
    let short = AppError::upstream("504 from api.frankfurter.dev");
    assert_eq!(short.message(), "504 from api.frankfurter.dev");
}

#[test]
fn client_errors_keep_their_message_and_status() {
    let (status, body) = AppError::validation("bad field".into()).response_parts();
    assert_eq!((status, body.error.code.as_str(), body.error.message.as_str()), (422, "validation", "bad field"));
    let (status, body) = AppError::NotFound("account".into()).response_parts();
    assert_eq!((status, body.error.message.as_str()), (404, "account not found"));
    assert_eq!(AppError::conflict("dup".into()).status(), 409);
    assert_eq!(AppError::bad_request("x".into()).status(), 400);
    assert_eq!(AppError::Database(DatabaseFailure::RowNotFound, "none".into()).status(), 404);
    assert_eq!(AppError::Database(DatabaseFailure::Other, "boom".into()).status(), 500);
}

#[test]
fn busy_codes_are_read_by_their_low_byte() {
    assert!(sqlite_is_busy(Some("5")));
    assert!(sqlite_is_busy(Some("+517")));
    assert!(!sqlite_is_busy(Some("4294967301")));
    assert!(!sqlite_is_busy(Some("-5")));
    assert!(!sqlite_is_busy(None));
    assert_eq!(truncate_for_wire("abcdef", 3), "abc… (truncated)");
    assert_eq!(truncate_for_wire("abc", 3), "abc");
}
