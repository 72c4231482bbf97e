use serial_mcp_server::automation::planner::MacroTarget;
use serial_mcp_server::serial::connection::{ConnectionConfig, DataBits, FlowControl, Parity, StopBits};
use serial_mcp_server::tools::types::{decode_data, encode_data, MacroTargetArgs, OpenArgs, SetControlLinesArgs};

fn open_args() -> OpenArgs {
    OpenArgs {
        port: "TEST".to_string(),
        baud_rate: 19_200,
        data_bits: "8".to_string(),
        stop_bits: "1".to_string(),
        parity: "none".to_string(),
        flow_control: "none".to_string(),
    }
}

#[test]
fn open_args_reject_invalid_serial_settings() {
    for (field, value) in [
        ("data_bits", "9"),
        ("stop_bits", "3"),
        ("parity", "mark"),
        ("flow_control", "invalid"),
    ] {
        let mut args = open_args();
        match field {
            "data_bits" => args.data_bits = value.to_string(),
            "stop_bits" => args.stop_bits = value.to_string(),
            "parity" => args.parity = value.to_string(),
            "flow_control" => args.flow_control = value.to_string(),
            _ => unreachable!(),
        }

        let error = ConnectionConfig::try_from(args).expect_err("invalid setting");
        assert!(error.contains(value), "unexpected validation error: {error}");
    }
}

#[test]
fn open_args_enforce_supported_baud_rate_range() {
    for (baud_rate, expected) in [
        (0, "baud_rate must be between 1 and 4000000 (got 0)"),
        (4_000_001, "baud_rate must be between 1 and 4000000 (got 4000001)"),
    ] {
        let mut args = open_args();
        args.baud_rate = baud_rate;

        let error = ConnectionConfig::try_from(args).expect_err("invalid baud rate");
        assert_eq!(error, expected);
    }

    let mut args = open_args();
    args.baud_rate = 4_000_000;
    assert_eq!(
        ConnectionConfig::try_from(args)
            .expect("upper boundary must be accepted")
            .baud_rate,
        4_000_000
    );
}

#[test]
fn open_args_reject_empty_port() {
    let mut args = open_args();
    args.port = "  ".to_string();

    assert_eq!(
        ConnectionConfig::try_from(args).expect_err("empty port"),
        "port must not be empty"
    );
}

#[test]
fn open_args_accept_settings_in_any_case_for_parity_and_flow_control() {
    let mut args = open_args();
    args.data_bits = "7".to_string();
    args.stop_bits = "2".to_string();
    args.parity = "EVEN".to_string();
    args.flow_control = "Hardware".to_string();
    let config = ConnectionConfig::try_from(args).expect("valid settings");
    assert_eq!(config.port, "TEST");
    assert_eq!(config.baud_rate, 19_200);
    assert_eq!(config.data_bits, DataBits::Seven);
    assert_eq!(config.stop_bits, StopBits::Two);
    assert_eq!(config.parity, Parity::Even);
    assert_eq!(config.flow_control, FlowControl::Hardware);
}

#[test]
fn open_args_report_the_lower_cased_parity() {
    let mut args = open_args();
    args.parity = "MARK".to_string();
    assert_eq!(
        ConnectionConfig::try_from(args).expect_err("mark parity"),
        "Unsupported parity value: mark"
    );
}

#[test]
fn macro_target_args_name_their_target() {
    assert!(matches!(
        MacroTargetArgs::macro_named("ping".to_string()).into_target(),
        Ok(MacroTarget::Macro(name)) if name == "ping"
    ));
    assert!(matches!(
        MacroTargetArgs::assembly_named("boot".to_string()).into_target(),
        Ok(MacroTarget::Assembly(name)) if name == "boot"
    ));
    let other = MacroTargetArgs { kind: "script".to_string(), name: "x".to_string() };
    assert_eq!(other.into_target().unwrap_err(), "Unsupported macro target kind: script");
}

#[test]
fn control_line_requests_must_change_a_line() {
    let none = SetControlLinesArgs { connection_id: "c".to_string(), rts: None, dtr: None };
    assert!(!none.has_line_update());
    let rts = SetControlLinesArgs { connection_id: "c".to_string(), rts: Some(false), dtr: None };
    assert!(rts.has_line_update());
}

#[test]
fn tool_payloads_encode_in_any_case() {
    assert_eq!(encode_data(&[0x48, 0x69, 0xff], "HEX").unwrap(), "48 69 ff");
    assert_eq!(encode_data(b"Hi", "utf-8").unwrap(), "Hi");
    assert_eq!(encode_data(b"Hi", "base64").unwrap(), "SGk=");
    assert!(encode_data(&[0xff], "utf8").unwrap_err().starts_with("UTF-8 encoding error: "));
    assert_eq!(encode_data(b"Hi", "Binary").unwrap_err(), "Unsupported encoding: Binary");
}

#[test]
fn tool_payloads_decode_in_any_case() {
    assert_eq!(decode_data("48 69", "Hex").unwrap(), vec![0x48, 0x69]);
    assert_eq!(decode_data("Hi", "UTF8").unwrap(), b"Hi".to_vec());
    assert_eq!(decode_data("SGk=", "base64").unwrap(), b"Hi".to_vec());
    assert_eq!(decode_data("SGk", "base64").unwrap(), b"Hi".to_vec());
    assert!(decode_data("4", "hex").unwrap_err().starts_with("Hex decoding error: "));
    assert!(decode_data("***", "base64").unwrap_err().starts_with("Base64 decoding error: "));
    assert_eq!(decode_data("x", "latin1").unwrap_err(), "Unsupported encoding: latin1");
}
