use serial_mcp_server::console::{
    check_control_lines, hex_view, history_limit, parse_data_bits, parse_flow_control, parse_parity,
    parse_stop_bits, read_buffer_len, transfer_view, open_request_config, OpenPortRequest,
};
use serial_mcp_server::serial::connection::{DataBits, FlowControl, Parity, StopBits};

#[test]
fn hex_view_spaces_lower_case_pairs() {
    assert_eq!(hex_view(&[0x00, 0x0a, 0xff]), "00 0a ff");
    assert_eq!(hex_view(&[]), "");
}

#[test]
fn console_settings_are_exact_names() {
    assert_eq!(parse_data_bits("6").unwrap(), DataBits::Six);
    assert_eq!(parse_data_bits("9").unwrap_err(), "Unsupported data bits: 9");
    assert_eq!(parse_stop_bits("2").unwrap(), StopBits::Two);
    assert_eq!(parse_stop_bits("one").unwrap_err(), "Unsupported stop bits: one");
    assert_eq!(parse_parity("odd").unwrap(), Parity::Odd);
    assert_eq!(parse_parity("Odd").unwrap_err(), "Unsupported parity: Odd");
    assert_eq!(parse_flow_control("none").unwrap(), FlowControl::NoFlowControl);
    assert_eq!(parse_flow_control("rts").unwrap_err(), "Unsupported flow control: rts");
}

#[test]
fn console_bounds_reads_and_history() {
    assert_eq!(read_buffer_len(0), 1);
    assert_eq!(read_buffer_len(100), 100);
    assert_eq!(read_buffer_len(1_000_000), 65_536);
    assert_eq!(history_limit(0), 1);
    assert_eq!(history_limit(10), 10);
    assert_eq!(history_limit(9_999), 5_000);
}

#[test]
fn console_control_lines_need_a_level() {
    assert_eq!(check_control_lines(None, None).unwrap_err(), "RTS or DTR must be provided");
    assert!(check_control_lines(None, Some(true)).is_ok());
}

#[test]
fn transfers_show_what_was_sent() {
    let view = transfer_view(&[b'O', b'K', 0xfe, b'!'], 3);
    assert_eq!(view.bytes, 3);
    assert_eq!(view.data, "OK\u{fffd}");
    assert_eq!(view.hex, "4f 4b fe");
}

fn request(data_bits: &str, parity: &str) -> OpenPortRequest {
    OpenPortRequest {
        port: "COM5".to_string(),
        baud_rate: 57_600,
        data_bits: data_bits.to_string(),
        stop_bits: "1".to_string(),
        parity: parity.to_string(),
        flow_control: "hardware".to_string(),
    }
}

#[test]
fn console_open_requests_name_their_settings() {
    let config = open_request_config(request("7", "even")).expect("valid request");
    assert_eq!(config.port, "COM5");
    assert_eq!(config.baud_rate, 57_600);
    assert_eq!(config.data_bits, DataBits::Seven);
    assert_eq!(config.parity, Parity::Even);
    assert_eq!(config.flow_control, FlowControl::Hardware);
    assert_eq!(open_request_config(request("9", "mark")).unwrap_err(), "Unsupported data bits: 9");
    assert_eq!(open_request_config(request("8", "mark")).unwrap_err(), "Unsupported parity: mark");
}
