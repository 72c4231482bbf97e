use serial_mcp_server::broker::MAX_READ_BYTES;
use serial_mcp_server::serial::capture::{CaptureChunk, CaptureCompletionReason, CaptureReport, CaptureStartTrigger};
use serial_mcp_server::tools::serial_handler::{
    capture_response, check_line_update, closed_message, control_lines_message, decode_data, decode_hex_payload,
    encode_data, macro_pack_source, macro_plan_source, missing_connection, opened_message, plan_read,
    ports_message, read_message, read_timeout_message, simulation_reads, validate_encoding, validate_max_bytes,
    written_message, PackSource, PlanSource, ToolError,
};
use serial_mcp_server::tools::types::{OpenArgs, PortInfo, ReadArgs};
use serial_mcp_server::tools::serial_handler::open_request_config;
use serial_mcp_server::serial::connection::Parity;

fn read_args(max_bytes: usize) -> ReadArgs {
    ReadArgs {
        connection_id: "missing-connection".to_string(),
        timeout_ms: None,
        max_bytes,
        encoding: "utf8".to_string(),
        duration_ms: None,
        start_trigger: CaptureStartTrigger::FirstByte,
        initial_timeout_ms: None,
        idle_timeout_ms: None,
    }
}

fn invalid_params(error: ToolError) -> String {
    match error {
        ToolError::InvalidParams(m) => m,
        ToolError::Internal(m) => panic!("expected invalid params, got internal error {m}"),
    }
}

#[test]
fn maximum_max_bytes_is_accepted() {
    validate_max_bytes(MAX_READ_BYTES).expect("the documented limit must be accepted");
}

#[test]
fn invalid_max_bytes_is_rejected_before_connection_lookup() {
    for (max_bytes, expected_message) in [
        (0, "max_bytes must be greater than zero".to_string()),
        (MAX_READ_BYTES + 1, format!("max_bytes must not exceed {MAX_READ_BYTES}")),
    ] {
        let error = plan_read(&read_args(max_bytes), 1_000).expect_err("invalid reads must be rejected");
        assert_eq!(invalid_params(error), expected_message);
    }
}

#[test]
fn invalid_capture_settings_are_reported_as_invalid_params() {
    let mut args = read_args(1);
    args.duration_ms = Some(0);
    let error = plan_read(&args, 1_000).expect_err("invalid capture settings must be rejected");
    assert_eq!(invalid_params(error), "Invalid configuration: duration_ms must be greater than zero");
}

#[test]
fn unsupported_read_encoding_is_rejected_before_connection_lookup() {
    let mut args = read_args(1);
    args.encoding = "binary".to_string();
    args.duration_ms = Some(100);
    let error = plan_read(&args, 1_000).expect_err("encoding must be validated first");
    assert_eq!(invalid_params(error), "Unsupported encoding: binary");
    assert!(validate_encoding("utf-8").is_ok());
    assert!(validate_encoding("HEX").is_err());
}

#[test]
fn reads_plan_their_timeout_and_window() {
    let plan = plan_read(&read_args(64), 1_500).unwrap();
    assert_eq!(plan.timeout_ms, 1_500);
    assert!(plan.capture.is_none());

    let mut args = read_args(64);
    args.timeout_ms = Some(200);
    args.duration_ms = Some(900);
    args.idle_timeout_ms = Some(30);
    let plan = plan_read(&args, 1_500).unwrap();
    assert_eq!(plan.timeout_ms, 200);
    let window = plan.capture.expect("a duration asks for a window");
    assert_eq!(window.timeout_ms, 200);
    assert_eq!(window.max_bytes, 64);
    assert_eq!(window.duration_ms, 900);
    assert_eq!(window.idle_timeout_ms, Some(30));
}

#[test]
fn invalid_write_payloads_are_rejected_before_connection_lookup() {
    for (data, encoding, expected_message) in [
        ("payload", "binary", "Unsupported encoding: binary"),
        ("0", "hex", "Hex string must have even length"),
        ("GG", "hex", "Invalid hex character at position 0"),
        ("😀", "hex", "Invalid hex character at position 0"),
    ] {
        assert_eq!(decode_data(data, encoding).unwrap_err(), expected_message);
    }
    assert_eq!(decode_data("***", "base64").unwrap_err(), "Invalid base64: Invalid symbol 42, offset 0.");
}

#[test]
fn valid_write_payloads_decode() {
    assert_eq!(decode_data(" 48 69 ff \n", "hex").unwrap(), vec![0x48, 0x69, 0xff]);
    assert_eq!(decode_data("aB", "hex").unwrap(), vec![0xab]);
    assert_eq!(decode_data("Hi", "utf-8").unwrap(), b"Hi".to_vec());
    assert_eq!(decode_data("  SGk=  ", "base64").unwrap(), b"Hi".to_vec());
    assert_eq!(decode_data("0g", "hex").unwrap_err(), "Invalid hex character at position 1");
    assert_eq!(decode_hex_payload("").unwrap(), Vec::<u8>::new());
}

#[test]
fn read_data_encodes_as_requested() {
    assert_eq!(encode_data(&[0x48, 0x69, 0xff], "hex").unwrap(), "48 69 ff");
    assert_eq!(encode_data(b"Hi", "base64").unwrap(), "SGk=");
    assert_eq!(encode_data(b"Hi", "utf8").unwrap(), "Hi");
    assert!(encode_data(&[0xff], "utf8").unwrap_err().starts_with("Invalid UTF-8: "));
    assert_eq!(encode_data(b"Hi", "Hex").unwrap_err(), "Unsupported encoding: Hex");
}

#[test]
fn hex_replies_decode_to_their_bytes() {
    let data = [0u8, 1, 0x7f, 0x80, 0xab, 0xff];
    let shown = encode_data(&data, "hex").unwrap();
    assert_eq!(decode_data(&shown, "hex").unwrap(), data.to_vec());
}

#[test]
fn empty_control_line_update_is_rejected_before_connection_lookup() {
    let error = check_line_update(None, None).expect_err("empty updates must be rejected");
    assert_eq!(invalid_params(error), "At least one of 'rts' or 'dtr' must be specified");
    assert!(check_line_update(Some(true), None).is_ok());
}

#[test]
fn connection_lookup_failures_remain_internal_errors() {
    match missing_connection("missing-connection") {
        ToolError::Internal(m) => assert_eq!(m, "Error: Connection ID missing-connection not found"),
        ToolError::InvalidParams(m) => panic!("expected an internal error, got {m}"),
    }
}

#[test]
fn replies_describe_the_operation() {
    assert_eq!(
        control_lines_message("c1", Some(true), Some(false)),
        "Control lines updated\nConnection ID: c1\nRTS: high\nDTR: low"
    );
    assert_eq!(control_lines_message("c1", None, Some(true)), "Control lines updated\nConnection ID: c1\nDTR: high");
    assert_eq!(
        opened_message("c1", "COM3", 9600),
        "Serial connection opened\nConnection ID: c1\nPort: COM3\nBaud rate: 9600"
    );
    assert_eq!(closed_message("c1"), "Serial connection closed\nConnection ID: c1");
    assert_eq!(
        written_message("c1", 2, "H\n"),
        "Data sent successfully\nConnection ID: c1\nBytes written: 2\nData: \"H\\n\""
    );
    assert_eq!(read_timeout_message("c1", 500), "Read timeout\nConnection ID: c1\nTimeout: 500ms\nBytes read: 0");
    assert_eq!(read_message("c1", 0, "", 500), "Read timeout\nConnection ID: c1\nTimeout: 500ms\nBytes read: 0");
    assert_eq!(
        read_message("c1", 2, "OK", 500),
        "Data read successfully\nConnection ID: c1\nBytes read: 2\nData: \"OK\""
    );
}

#[test]
fn port_lists_show_each_port() {
    assert_eq!(ports_message(&vec![]), "No serial ports found on the system");
    let ports = vec![
        PortInfo { name: "COM1".to_string(), description: "USB".to_string(), hardware_id: Some("VID:PID".to_string()) },
        PortInfo { name: "COM2".to_string(), description: "Bluetooth".to_string(), hardware_id: None },
    ];
    assert_eq!(
        ports_message(&ports),
        "Found 2 serial ports:\n- COM1: USB (VID:PID)\n- COM2: Bluetooth"
    );
}

#[test]
fn capture_responses_report_the_window() {
    let report = CaptureReport {
        data: Vec::new(),
        chunks: Vec::<CaptureChunk>::new(),
        waited_ms: 30,
        elapsed_ms: 0,
        completion_reason: CaptureCompletionReason::InitialTimeout,
    };
    let mut args = read_args(8);
    args.duration_ms = Some(100);
    args.initial_timeout_ms = Some(30);
    let window = plan_read(&args, 1_000).unwrap().capture.unwrap();
    let response = capture_response("c1".to_string(), "hex".to_string(), &window, report, String::new());
    assert_eq!(response.status, "timeout");
    assert_eq!(response.bytes_read, 0);
    assert_eq!(response.duration_ms, Some(100));
    assert_eq!(response.initial_timeout_ms, Some(30));
    assert_eq!(response.waited_ms, Some(30));
    assert_eq!(response.completion_reason, Some(CaptureCompletionReason::InitialTimeout));
}

#[test]
fn pack_sources_need_exactly_one_origin() {
    assert!(matches!(macro_pack_source(Some("{}".to_string()), None), Ok(PackSource::Inline(j)) if j == "{}"));
    assert!(matches!(macro_pack_source(None, Some("p.json".to_string())), Ok(PackSource::File(p)) if p == "p.json"));
    assert!(matches!(
        macro_pack_source(None, None),
        Err(ToolError::Internal(m)) if m == "Specify exactly one of pack_json or path for macro_load"
    ));
    assert!(matches!(macro_plan_source(Some("id".to_string()), None, None), Ok(PlanSource::Loaded(i)) if i == "id"));
    assert!(matches!(
        macro_plan_source(Some("id".to_string()), Some("{}".to_string()), None),
        Err(ToolError::Internal(m)) if m == "Specify exactly one of pack_id, pack_json, or path for macro_plan"
    ));
}

#[test]
fn simulated_reads_are_the_chunks_bytes() {
    let reads = simulation_reads(&vec!["PONG".to_string(), "é".to_string()]);
    assert_eq!(reads, vec![b"PONG".to_vec(), vec![0xc3, 0xa9]]);
}

fn open_args() -> OpenArgs {
    OpenArgs {
        port: "TEST".to_string(),
        baud_rate: 19_200,
        data_bits: "8".to_string(),
        stop_bits: "1".to_string(),
        parity: "none".to_string(),
        flow_control: "none".to_string(),
    }
}

#[test]
fn invalid_open_settings_are_reported_as_invalid_params() {
    let mut args = open_args();
    args.parity = "mark".to_string();

    let error = open_request_config(args).expect_err("invalid serial settings must be rejected before opening hardware");

    assert_eq!(invalid_params(error), "Unsupported parity value: mark");
}

#[test]
fn invalid_open_baud_rates_are_rejected_before_hardware_access() {
    for (baud_rate, expected_message) in [
        (0, "baud_rate must be between 1 and 4000000 (got 0)"),
        (4_000_001, "baud_rate must be between 1 and 4000000 (got 4000001)"),
    ] {
        let mut args = open_args();
        args.baud_rate = baud_rate;

        let error = open_request_config(args).expect_err("invalid baud rates must be rejected before opening hardware");

        assert_eq!(invalid_params(error), expected_message);
    }
}

#[test]
fn empty_open_port_is_rejected_before_hardware_access() {
    let mut args = open_args();
    args.port = "  ".to_string();

    let error = open_request_config(args).expect_err("an empty port must be rejected before opening hardware");

    assert_eq!(invalid_params(error), "port must not be empty");
}

#[test]
fn valid_open_requests_name_their_settings() {
    let mut args = open_args();
    args.parity = "EVEN".to_string();
    let config = open_request_config(args).expect("valid settings");
    assert_eq!(config.port, "TEST");
    assert_eq!(config.baud_rate, 19_200);
    assert_eq!(config.parity, Parity::Even);
}
