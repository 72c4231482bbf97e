use serial_mcp_server::config::{Args, Command, Config, ReadCommand, SerialPortArgs, CaptureWindowArgs, CliDataFormat, OutputArgs};
use serial_mcp_server::error::{ConfigError, SerialError};
use serial_mcp_server::serial::capture::CaptureStartTrigger;

fn bare_args(command: Option<Command>) -> Args {
    Args {
        command,
        config: None,
        log_level: None,
        log_file: None,
        max_connections: None,
        connection_timeout: None,
        default_baud_rate: None,
        default_timeout_ms: None,
        max_buffer_size: None,
        retry_count: None,
        auto_discovery: None,
        allow_port_sharing: None,
        restrict_ports: None,
        generate_config: false,
        validate_config: false,
        show_config: false,
    }
}

fn read_command() -> Command {
    Command::Read(ReadCommand {
        serial: SerialPortArgs {
            port: "COM19".to_string(),
            baud: None,
            data_bits: None,
            stop_bits: None,
            parity: None,
            flow_control: None,
            json: false,
        },
        format: CliDataFormat::Utf8,
        timeout_ms: None,
        max_bytes: 1024,
        capture: CaptureWindowArgs {
            duration_ms: None,
            start_trigger: CaptureStartTrigger::FirstByte,
            initial_timeout_ms: None,
            idle_timeout_ms: None,
        },
    })
}

#[test]
fn test_default_config() {
    let config = Config::default();
    assert!(config.validate().is_ok());
    assert_eq!(config.server.max_connections, 10);
    assert_eq!(config.serial.default_baud_rate, 115200);
}

#[test]
fn test_merge_args_preserves_config_values_when_flags_absent() {
    let args = bare_args(Some(read_command()));
    let mut config = Config::default();
    config.server.max_connections = 42;
    config.server.connection_timeout_seconds = 77;
    config.serial.default_baud_rate = 9600;
    config.serial.default_timeout_ms = 5000;
    config.serial.max_buffer_size = 16384;
    config.serial.retry_count = 9;
    config.serial.auto_discovery = true;
    config.serial.allow_port_sharing = true;
    config.security.restrict_ports = true;
    config.logging.file = Some("serial.log".into());

    config.merge_args(&args);

    assert_eq!(config.server.max_connections, 42);
    assert_eq!(config.server.connection_timeout_seconds, 77);
    assert_eq!(config.serial.default_baud_rate, 9600);
    assert_eq!(config.serial.default_timeout_ms, 5000);
    assert_eq!(config.serial.max_buffer_size, 16384);
    assert_eq!(config.serial.retry_count, 9);
    assert!(config.serial.auto_discovery);
    assert!(config.serial.allow_port_sharing);
    assert!(config.security.restrict_ports);
    assert_eq!(config.logging.file, Some("serial.log".into()));
}

#[test]
fn test_merge_args_applies_explicit_global_flags() {
    let mut args = bare_args(Some(Command::ListPorts(OutputArgs { json: false })));
    args.max_connections = Some(20);
    args.connection_timeout = Some(12);
    args.default_baud_rate = Some(57600);
    args.default_timeout_ms = Some(2500);
    args.max_buffer_size = Some(4096);
    args.retry_count = Some(5);
    args.auto_discovery = Some(true);
    args.allow_port_sharing = Some(true);
    args.restrict_ports = Some(true);
    let mut config = Config::default();

    config.merge_args(&args);

    assert_eq!(config.server.max_connections, 20);
    assert_eq!(config.server.connection_timeout_seconds, 12);
    assert_eq!(config.serial.default_baud_rate, 57600);
    assert_eq!(config.serial.default_timeout_ms, 2500);
    assert_eq!(config.serial.max_buffer_size, 4096);
    assert_eq!(config.serial.retry_count, 5);
    assert!(config.serial.auto_discovery);
    assert!(config.serial.allow_port_sharing);
    assert!(config.security.restrict_ports);
}

#[test]
fn merge_args_sets_logging_from_flags() {
    let mut args = bare_args(None);
    args.log_level = Some("debug".to_string());
    args.log_file = Some("out.log".to_string());
    let mut config = Config::default();
    config.merge_args(&args);
    assert_eq!(config.logging.level, "debug");
    assert_eq!(config.logging.file.as_deref(), Some("out.log"));
}

#[test]
fn validation_reports_the_first_broken_rule() {
    let mut config = Config::default();
    config.server.max_connections = 0;
    assert!(matches!(
        config.validate(),
        Err(SerialError::Config(ConfigError::InvalidValue { field, value }))
            if field == "server.max_connections" && value == "0"
    ));

    let mut config = Config::default();
    config.server.max_connections = 1001;
    assert!(matches!(
        config.validate(),
        Err(SerialError::Config(ConfigError::ValueOutOfRange { field, value, min, max }))
            if field == "server.max_connections" && value == "1001" && min == "1" && max == "1000"
    ));

    let mut config = Config::default();
    config.serial.default_baud_rate = 12345;
    assert!(matches!(
        config.validate(),
        Err(SerialError::Config(ConfigError::InvalidValue { field, value }))
            if field == "serial.default_baud_rate" && value == "12345"
    ));

    let mut config = Config::default();
    config.serial.max_buffer_size = 2 * 1024 * 1024;
    assert!(matches!(
        config.validate(),
        Err(SerialError::Config(ConfigError::ValueOutOfRange { field, .. })) if field == "serial.max_buffer_size"
    ));

    let mut config = Config::default();
    config.logging.level = "verbose".to_string();
    assert!(matches!(
        config.validate(),
        Err(SerialError::Config(ConfigError::InvalidValue { field, value }))
            if field == "logging.level" && value == "verbose"
    ));
}
