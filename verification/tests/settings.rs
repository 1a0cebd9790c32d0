use sure::settings::McpMode;

#[test]
fn the_modes_order_from_least_to_most_capable() {
    assert!(McpMode::Off < McpMode::Read);
    assert!(McpMode::Read < McpMode::Write);
    assert_eq!(McpMode::Write.min(McpMode::Read), McpMode::Read);
    assert_eq!(McpMode::Read.min(McpMode::Off), McpMode::Off);
    assert_eq!(McpMode::Write.min(McpMode::Off), McpMode::Off);
}

#[test]
fn a_mode_round_trips_through_its_wire_form() {
    for mode in [McpMode::Off, McpMode::Read, McpMode::Write] {
        assert_eq!(McpMode::from_str(mode.as_str()), Ok(mode));
    }
}

#[test]
fn an_unrecognised_mode_is_an_error_rather_than_a_default() {
    let err = McpMode::from_str("readonly").unwrap_err();
    assert!(err.contains("readonly"), "{err}");
    assert!(err.contains("off, read or write"), "{err}");
}

#[test]
fn only_write_mode_writes() {
    assert!(McpMode::Write.writes());
    assert!(!McpMode::Read.writes());
    assert!(!McpMode::Off.writes());
}

#[test]
fn surrounding_whitespace_is_ignored_and_off_is_the_default() {
    assert_eq!(McpMode::from_str("  write\n"), Ok(McpMode::Write));
    assert_eq!(McpMode::default(), McpMode::Off);
    assert_eq!(
        McpMode::from_str(" nope "),
        Err("unknown MCP mode 'nope' (expected off, read or write)".to_string())
    );
}
