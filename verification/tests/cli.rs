use serial_mcp_server::cli::{default_log_level, event_source_label, is_macro_json_invocation};
use serial_mcp_server::automation::planner::MacroTarget;
use serial_mcp_server::broker::MAX_READ_BYTES;
use serial_mcp_server::cli::{
    backtick_value_after, capture_config, check_control_lines, command_invocation, connection_config,
    control_lines_summary, macro_command_json, macro_connection_config, macro_error_field, macro_target,
    map_serial_error, parse_data_bits, parse_flow_control, parse_parity, parse_stop_bits,
    read_payload_from_capture, single_read_payload, timed_out_read_payload, DataFormat, MacroErrorOutput,
};
use serial_mcp_server::cli::{decode_cli_data, encode_cli_data, prepare_read, prepare_write};
use serial_mcp_server::config::{CaptureWindowArgs, ReadCommand, WriteCommand};
use serial_mcp_server::config::{
    CliDataFormat, Command, Config, ControlLineLevel, MacroCommand, MacroFileCommand, OptionalSerialPortArgs,
    SerialPortArgs,
};
use serial_mcp_server::error::SerialError;
use serial_mcp_server::serial::capture::{
    CaptureChunk, CaptureCompletionReason, CaptureReport, CaptureStartTrigger,
};
use serial_mcp_server::serial::connection::{DataBits, FlowControl, Parity, StopBits};
use serial_mcp_server::serial::error::{IoErrorKind, LocalSerialError};

fn serial_args() -> SerialPortArgs {
    SerialPortArgs {
        port: "missing-test-port".to_string(),
        baud: None,
        data_bits: None,
        stop_bits: None,
        parity: None,
        flow_control: None,
        json: false,
    }
}

#[test]
fn zero_max_bytes_is_rejected_for_single_reads() {
    let error = capture_config(1_000, 0, None, CaptureStartTrigger::FirstByte, None, None)
        .expect_err("zero-length reads must be rejected before reaching the broker");

    assert!(matches!(
        error,
        SerialError::InvalidConfig(reason) if reason == "max_bytes must be greater than zero"
    ));
}

#[test]
fn maximum_max_bytes_is_accepted_for_single_reads() {
    capture_config(1_000, MAX_READ_BYTES, None, CaptureStartTrigger::FirstByte, None, None)
        .expect("the documented limit must be accepted");
}

#[test]
fn oversized_max_bytes_is_rejected_for_reads() {
    let error = capture_config(1_000, MAX_READ_BYTES + 1, None, CaptureStartTrigger::FirstByte, None, None)
        .expect_err("oversized reads must be rejected before opening the port");
    assert!(matches!(
        error,
        SerialError::InvalidConfig(reason) if reason == format!("max_bytes must not exceed {MAX_READ_BYTES}")
    ));
}

#[test]
fn capture_windows_are_built_only_when_valid() {
    let plain = capture_config(700, 16, None, CaptureStartTrigger::Immediate, Some(5), Some(6)).unwrap();
    assert_eq!(plain.timeout_ms, 700);
    assert!(plain.capture.is_none());

    let window = capture_config(700, 16, Some(50), CaptureStartTrigger::Immediate, Some(5), Some(6)).unwrap();
    let capture = window.capture.expect("a duration asks for a window");
    assert_eq!(capture.timeout_ms, 700);
    assert_eq!(capture.max_bytes, 16);
    assert_eq!(capture.duration_ms, 50);
    assert_eq!(capture.start_trigger, CaptureStartTrigger::Immediate);
    assert_eq!(capture.initial_timeout_ms, Some(5));
    assert_eq!(capture.idle_timeout_ms, Some(6));

    let error = capture_config(700, 16, Some(50), CaptureStartTrigger::FirstByte, None, Some(0)).unwrap_err();
    assert!(matches!(
        error,
        SerialError::InvalidConfig(reason) if reason == "idle_timeout_ms must be greater than zero"
    ));
}

#[test]
fn settings_parse_in_any_case() {
    assert_eq!(parse_data_bits(5).unwrap(), DataBits::Five);
    assert!(matches!(parse_data_bits(9), Err(SerialError::InvalidDataBits(9))));
    assert_eq!(parse_stop_bits("One").unwrap(), StopBits::One);
    assert_eq!(parse_stop_bits("2").unwrap(), StopBits::Two);
    assert!(matches!(parse_stop_bits("1.5"), Err(SerialError::InvalidStopBits(v)) if v == "1.5"));
    assert_eq!(parse_parity("None").unwrap(), Parity::NoParity);
    assert_eq!(parse_parity("ODD").unwrap(), Parity::Odd);
    assert!(matches!(parse_parity("Mark"), Err(SerialError::InvalidParity(v)) if v == "Mark"));
    assert_eq!(parse_flow_control("Software").unwrap(), FlowControl::Software);
    assert!(matches!(parse_flow_control("xon"), Err(SerialError::InvalidFlowControl(v)) if v == "xon"));
}

#[test]
fn port_settings_fall_back_to_the_configured_defaults() {
    let config = Config::default();
    let settings = connection_config(&serial_args(), &config).expect("defaults must parse");
    assert_eq!(settings.port, "missing-test-port");
    assert_eq!(settings.baud_rate, 115_200);
    assert_eq!(settings.data_bits, DataBits::Eight);
    assert_eq!(settings.stop_bits, StopBits::One);
    assert_eq!(settings.parity, Parity::NoParity);
    assert_eq!(settings.flow_control, FlowControl::NoFlowControl);

    let mut args = serial_args();
    args.baud = Some(9_600);
    args.parity = Some("even".to_string());
    args.data_bits = Some(4);
    assert!(matches!(connection_config(&args, &config), Err(SerialError::InvalidDataBits(4))));
    args.data_bits = Some(7);
    let settings = connection_config(&args, &config).unwrap();
    assert_eq!(settings.baud_rate, 9_600);
    assert_eq!(settings.data_bits, DataBits::Seven);
    assert_eq!(settings.parity, Parity::Even);
}

#[test]
fn hardware_macro_runs_need_a_port() {
    let config = Config::default();
    let args = OptionalSerialPortArgs {
        port: None,
        baud: None,
        data_bits: None,
        stop_bits: None,
        parity: None,
        flow_control: None,
    };
    assert!(matches!(
        macro_connection_config(&args, &config),
        Err(SerialError::InvalidConfig(m)) if m == "macro run requires --dry-run, --simulate-read, or --port"
    ));
    let args = OptionalSerialPortArgs { port: Some("COM19".to_string()), ..args };
    assert_eq!(macro_connection_config(&args, &config).unwrap().port, "COM19");
}

#[test]
fn macro_targets_need_exactly_one_name() {
    assert!(matches!(macro_target(Some("ping".to_string()), None), Ok(MacroTarget::Macro(n)) if n == "ping"));
    assert!(matches!(macro_target(None, Some("boot".to_string())), Ok(MacroTarget::Assembly(n)) if n == "boot"));
    for (m, a) in [(None, None), (Some("ping".to_string()), Some("boot".to_string()))] {
        assert!(matches!(
            macro_target(m, a),
            Err(SerialError::InvalidConfig(reason)) if reason == "Specify exactly one of --macro or --assembly"
        ));
    }
}

#[test]
fn macro_commands_report_their_json_flag() {
    let file = MacroFileCommand { file: "pack.json".to_string(), json: true };
    assert!(macro_command_json(&MacroCommand::Validate(file.clone())));
    let quiet = MacroFileCommand { json: false, ..file };
    assert!(!macro_command_json(&MacroCommand::List(quiet)));
}

#[test]
fn macro_error_fields_are_extracted() {
    assert_eq!(
        macro_error_field("Invalid configuration: invalid macro pack at macros[1].name: duplicate macro name ping").as_deref(),
        Some("macros[1].name")
    );
    assert_eq!(
        macro_error_field("data encoding error at macros[0].steps[0].data: Odd number of digits").as_deref(),
        Some("macros[0].steps[0].data")
    );
    assert_eq!(
        macro_error_field("Serialization error: unknown field `extra`, expected one of `name`").as_deref(),
        Some("extra")
    );
    assert_eq!(macro_error_field("missing field `steps` at line 3").as_deref(), Some("steps"));
    assert_eq!(
        macro_error_field("unknown variant `shell`, expected one of `send`").as_deref(),
        Some("type")
    );
    assert_eq!(macro_error_field("Specify exactly one of --macro or --assembly"), None);
    assert_eq!(backtick_value_after("unknown field `open", "unknown field `"), None);
    assert_eq!(backtick_value_after("a `b` c", "`").as_deref(), Some("b"));
}

#[test]
fn macro_errors_are_structured() {
    let output = MacroErrorOutput::from_message("invalid macro pack at name: value must not be empty");
    assert_eq!(output.status, "error");
    assert_eq!(output.error, "invalid macro pack at name: value must not be empty");
    assert_eq!(output.field.as_deref(), Some("name"));
}

#[test]
fn control_line_commands_need_a_line_and_summarize_it() {
    assert!(matches!(
        check_control_lines(None, None),
        Err(SerialError::InvalidConfig(m)) if m == "At least one of --rts or --dtr must be specified"
    ));
    assert!(check_control_lines(Some(ControlLineLevel::High), None).is_ok());
    assert_eq!(
        control_lines_summary(Some(ControlLineLevel::High), Some(ControlLineLevel::Low), "COM3"),
        "Updated RTS high, DTR low on COM3"
    );
    assert_eq!(control_lines_summary(None, Some(ControlLineLevel::High), "COM3"), "Updated DTR high on COM3");
}

#[test]
fn serial_errors_keep_their_kind() {
    assert!(matches!(map_serial_error(LocalSerialError::ReadTimeout), SerialError::ReadTimeout));
    assert!(matches!(
        map_serial_error(LocalSerialError::PortNotFound("COM9".to_string())),
        SerialError::PortNotFound(p) if p == "COM9"
    ));
    assert!(matches!(
        map_serial_error(LocalSerialError::IoError(IoErrorKind::UnexpectedEof, "eof".to_string())),
        SerialError::IoError(IoErrorKind::UnexpectedEof, m) if m == "eof"
    ));
}

#[test]
fn read_payloads_describe_the_read() {
    let report = CaptureReport {
        data: b"ok".to_vec(),
        chunks: vec![CaptureChunk { offset: 0, bytes_read: 2, waited_ms: 4, elapsed_ms: 0 }],
        waited_ms: 4,
        elapsed_ms: 9,
        completion_reason: CaptureCompletionReason::IdleTimeout,
    };
    let config = capture_config(10, 8, Some(20), CaptureStartTrigger::FirstByte, None, Some(5))
        .unwrap()
        .capture
        .unwrap();
    let payload = read_payload_from_capture(report, "6f 6b".to_string(), 10, config);
    assert_eq!(payload.bytes_read, 2);
    assert_eq!(payload.status, "ok");
    assert_eq!(payload.data, "6f 6b");
    assert_eq!(payload.duration_ms, Some(20));
    assert_eq!(payload.idle_timeout_ms, Some(5));
    assert_eq!(payload.completion_reason, Some(CaptureCompletionReason::IdleTimeout));
    assert_eq!(payload.chunks.map(|c| c.len()), Some(1));

    let single = single_read_payload(3, "abc".to_string(), 100);
    assert_eq!(single.status, "ok");
    assert_eq!(single.bytes_read, 3);
    assert!(single.chunks.is_none());

    let timeout = timed_out_read_payload(100);
    assert_eq!(timeout.status, "timeout");
    assert_eq!(timeout.bytes_read, 0);
    assert_eq!(timeout.data, "");
}

#[test]
fn data_formats_follow_the_flag() {
    assert_eq!(CliDataFormat::Utf8.as_data_format(), DataFormat::Text);
    assert_eq!(CliDataFormat::Hex.as_data_format(), DataFormat::Hex);
    assert_eq!(CliDataFormat::Base64.as_data_format(), DataFormat::Base64);
}

#[test]
fn command_invocations_name_the_command_and_port() {
    let (name, port) = command_invocation(&Command::Probe(serial_args()));
    assert_eq!(name, "probe");
    assert_eq!(port.as_deref(), Some("missing-test-port"));
    let (name, port) = command_invocation(&Command::Serve);
    assert_eq!(name, "serve");
    assert!(port.is_none());
}

#[test]
fn start_up_choices_follow_the_command() {
    let argv = |items: &[&str]| items.iter().map(|s| s.to_string()).collect::<Vec<String>>();
    assert!(is_macro_json_invocation(&argv(&["serial-mcp-server", "macro", "plan", "--json"])));
    assert!(!is_macro_json_invocation(&argv(&["serial-mcp-server", "macro", "plan"])));
    assert!(!is_macro_json_invocation(&argv(&["macro", "--json"])));
    assert_eq!(default_log_level(false, true), "info");
    assert_eq!(default_log_level(true, false), "info");
    assert_eq!(default_log_level(false, false), "warn");
    assert_eq!(event_source_label(true), "mcp");
    assert_eq!(event_source_label(false), "cli");
}

fn capture_args() -> CaptureWindowArgs {
    CaptureWindowArgs {
        duration_ms: None,
        start_trigger: CaptureStartTrigger::FirstByte,
        initial_timeout_ms: None,
        idle_timeout_ms: None,
    }
}

#[test]
fn oversized_max_bytes_is_rejected_before_read_opens_port() {
    let args = ReadCommand {
        serial: serial_args(),
        format: CliDataFormat::Utf8,
        timeout_ms: None,
        max_bytes: MAX_READ_BYTES + 1,
        capture: capture_args(),
    };

    let error = prepare_read(&args, &Config::default())
        .expect_err("oversized reads must be rejected before opening the port");

    assert!(matches!(
        error,
        SerialError::InvalidConfig(reason)
            if reason == format!("max_bytes must not exceed {MAX_READ_BYTES}")
    ));
}

#[test]
fn oversized_max_bytes_is_rejected_before_write_opens_port() {
    let args = WriteCommand {
        serial: serial_args(),
        data: "H".to_string(),
        format: CliDataFormat::Utf8,
        read: true,
        timeout_ms: None,
        max_bytes: MAX_READ_BYTES + 1,
        capture: capture_args(),
    };

    let error = prepare_write(&args, &Config::default())
        .expect_err("oversized response reads must be rejected before opening the port");

    assert!(matches!(
        error,
        SerialError::InvalidConfig(reason)
            if reason == format!("max_bytes must not exceed {MAX_READ_BYTES}")
    ));
}

#[test]
fn invalid_hex_write_is_rejected_before_opening_the_port() {
    let args = WriteCommand {
        serial: serial_args(),
        data: "not-hex".to_string(),
        format: CliDataFormat::Hex,
        read: false,
        timeout_ms: None,
        max_bytes: 1_024,
        capture: capture_args(),
    };

    let error = prepare_write(&args, &Config::default())
        .expect_err("invalid hex must be rejected before opening the missing port");

    assert!(matches!(
        error,
        SerialError::EncodingError(reason) if reason.starts_with("Hex decoding failed:")
    ));
}

#[test]
fn invalid_base64_write_is_rejected_before_opening_the_port() {
    let args = WriteCommand {
        serial: serial_args(),
        data: "%%%".to_string(),
        format: CliDataFormat::Base64,
        read: false,
        timeout_ms: None,
        max_bytes: 1_024,
        capture: capture_args(),
    };

    let error = prepare_write(&args, &Config::default())
        .expect_err("invalid base64 must be rejected before opening the missing port");

    assert!(matches!(
        error,
        SerialError::EncodingError(reason) if reason.starts_with("Base64 decoding failed:")
    ));
}

#[test]
fn valid_writes_are_planned_with_their_bytes_and_read() {
    let args = WriteCommand {
        serial: serial_args(),
        data: "de ad BE EF".to_string(),
        format: CliDataFormat::Hex,
        read: true,
        timeout_ms: Some(250),
        max_bytes: 16,
        capture: capture_args(),
    };
    let plan = prepare_write(&args, &Config::default()).expect("a valid write is planned");
    assert_eq!(plan.payload, vec![0xde, 0xad, 0xbe, 0xef]);
    assert_eq!(plan.format, DataFormat::Hex);
    assert_eq!(plan.connection.port, "missing-test-port");
    let read = plan.read.expect("a response read was asked for");
    assert_eq!(read.timeout_ms, 250);
    assert!(read.capture.is_none());

    let mut without_read = args.clone();
    without_read.read = false;
    without_read.max_bytes = MAX_READ_BYTES + 1;
    let plan = prepare_write(&without_read, &Config::default()).expect("the read size only matters with --read");
    assert!(plan.read.is_none());
}

#[test]
fn reads_default_to_the_configured_timeout() {
    let args = ReadCommand {
        serial: serial_args(),
        format: CliDataFormat::Base64,
        timeout_ms: None,
        max_bytes: 8,
        capture: capture_args(),
    };
    let config = Config::default();
    let plan = prepare_read(&args, &config).expect("a valid read is planned");
    assert_eq!(plan.read.timeout_ms, config.serial.default_timeout_ms);
    assert_eq!(plan.format, DataFormat::Base64);
}

#[test]
fn command_line_data_decodes_in_each_format() {
    assert_eq!(decode_cli_data("AT\r", DataFormat::Text).unwrap(), b"AT\r".to_vec());
    assert_eq!(decode_cli_data("01 0a FF", DataFormat::Hex).unwrap(), vec![0x01, 0x0a, 0xff]);
    assert_eq!(decode_cli_data("SGk=", DataFormat::Base64).unwrap(), b"Hi".to_vec());
    assert_eq!(decode_cli_data("SGk", DataFormat::Base64).unwrap(), b"Hi".to_vec());
    assert_eq!(decode_cli_data("-_8", DataFormat::Base64).unwrap(), vec![0xfb, 0xff]);
    assert!(matches!(
        decode_cli_data("abc", DataFormat::Hex),
        Err(SerialError::EncodingError(m)) if m.starts_with("Hex decoding failed: ")
    ));
}

#[test]
fn read_bytes_are_shown_in_each_format() {
    assert_eq!(encode_cli_data(b"OK", DataFormat::Text).unwrap(), "OK");
    assert_eq!(encode_cli_data(&[0x01, 0xab, 0xff], DataFormat::Hex).unwrap(), "01 ab ff");
    assert_eq!(encode_cli_data(b"Hi", DataFormat::Base64).unwrap(), "SGk=");
    assert_eq!(encode_cli_data(&[], DataFormat::Hex).unwrap(), "");
    assert!(matches!(
        encode_cli_data(&[0xff, 0xfe], DataFormat::Text),
        Err(SerialError::EncodingError(m)) if m.starts_with("UTF-8 encoding failed: ")
    ));
}
