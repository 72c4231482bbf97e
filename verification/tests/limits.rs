use serial_mcp_server::automation::limits::max_bytes_error;
use serial_mcp_server::broker::{self, MAX_READ_BYTES};

#[test]
fn max_bytes_bounds_match_the_broker_limit() {
    assert_eq!(
        max_bytes_error(0).as_deref(),
        Some("max_bytes must be greater than zero")
    );
    assert_eq!(max_bytes_error(1), None);
    assert_eq!(max_bytes_error(MAX_READ_BYTES), None);
    assert_eq!(
        max_bytes_error(MAX_READ_BYTES + 1).as_deref(),
        Some("max_bytes must not exceed 65536")
    );
}

#[test]
fn broker_read_size_validation_enforces_protocol_bounds() {
    assert_eq!(
        broker::max_bytes_error(0),
        Some("max_bytes must be greater than zero")
    );
    assert_eq!(broker::max_bytes_error(1), None);
    assert_eq!(broker::max_bytes_error(MAX_READ_BYTES), None);
    assert_eq!(
        broker::max_bytes_error(MAX_READ_BYTES + 1),
        Some("max_bytes must not exceed 65536")
    );
}

#[test]
fn read_timeout_defaults_to_one_second() {
    assert_eq!(broker::effective_read_timeout(None), 1_000);
    assert_eq!(broker::effective_read_timeout(Some(25)), 25);
}

#[test]
fn broker_address_prefers_the_configured_one() {
    assert_eq!(broker::broker_address(None), "127.0.0.1:47832");
    assert_eq!(broker::broker_address(Some("10.0.0.1:9".to_string())), "10.0.0.1:9");
}
