//! Configuration of the server and the command line: the command-line
//! arguments, the configuration file's sections with their defaults, how
//! arguments override the file, and the rules a configuration must follow.

use vstd::prelude::*;
use crate::error::{ConfigError, SerialError};
use crate::serial::capture::CaptureStartTrigger;
use crate::text::{append_decimal, decimal, str_eq};

verus! {

// ---------------------------------------------------------------------------
// Command-line arguments
// ---------------------------------------------------------------------------

/// Command-line arguments. Paths are kept as text.
#[derive(Debug, Clone)]
pub struct Args {
    pub command: Option<Command>,
    /// Path to a configuration file.
    pub config: Option<String>,
    pub log_level: Option<String>,
    pub log_file: Option<String>,
    pub max_connections: Option<usize>,
    pub connection_timeout: Option<u64>,
    pub default_baud_rate: Option<u32>,
    pub default_timeout_ms: Option<u64>,
    pub max_buffer_size: Option<usize>,
    pub retry_count: Option<u32>,
    pub auto_discovery: Option<bool>,
    pub allow_port_sharing: Option<bool>,
    pub restrict_ports: Option<bool>,
    pub generate_config: bool,
    pub validate_config: bool,
    pub show_config: bool,
}

/// The subcommands.
#[derive(Debug, Clone)]
pub enum Command {
    Serve,
    ListPorts(OutputArgs),
    Probe(SerialPortArgs),
    Write(WriteCommand),
    Read(ReadCommand),
    SetControlLines(SetControlLinesCommand),
    Macro(MacroCommand),
    GenerateConfig,
    ValidateConfig,
    ShowConfig,
}

/// Output options.
#[derive(Debug, Clone)]
pub struct OutputArgs {
    pub json: bool,
}

/// A port and its settings; unset settings come from the configuration.
#[derive(Debug, Clone)]
pub struct SerialPortArgs {
    pub port: String,
    pub baud: Option<u32>,
    pub data_bits: Option<u8>,
    pub stop_bits: Option<String>,
    pub parity: Option<String>,
    pub flow_control: Option<String>,
    pub json: bool,
}

/// Write data, optionally reading a response.
#[derive(Debug, Clone)]
pub struct WriteCommand {
    pub serial: SerialPortArgs,
    pub data: String,
    pub format: CliDataFormat,
    pub read: bool,
    pub timeout_ms: Option<u64>,
    pub max_bytes: usize,
    pub capture: CaptureWindowArgs,
}

/// Read data.
#[derive(Debug, Clone)]
pub struct ReadCommand {
    pub serial: SerialPortArgs,
    pub format: CliDataFormat,
    pub timeout_ms: Option<u64>,
    pub max_bytes: usize,
    pub capture: CaptureWindowArgs,
}

/// Capture-window options of a read.
#[derive(Debug, Clone, Copy)]
pub struct CaptureWindowArgs {
    pub duration_ms: Option<u64>,
    pub start_trigger: CaptureStartTrigger,
    pub initial_timeout_ms: Option<u64>,
    pub idle_timeout_ms: Option<u64>,
}

/// Set RTS and/or DTR.
#[derive(Debug, Clone)]
pub struct SetControlLinesCommand {
    pub serial: SerialPortArgs,
    pub rts: Option<ControlLineLevel>,
    pub dtr: Option<ControlLineLevel>,
}

/// The macro subcommands.
#[derive(Debug, Clone)]
pub enum MacroCommand {
    Validate(MacroFileCommand),
    List(MacroFileCommand),
    Plan(MacroPlanCommand),
    Run(MacroRunCommand),
}

/// A macro-pack file.
#[derive(Debug, Clone)]
pub struct MacroFileCommand {
    pub file: String,
    pub json: bool,
}

/// Plan a macro or an assembly of a pack file.
#[derive(Debug, Clone)]
pub struct MacroPlanCommand {
    pub file: String,
    pub macro_name: Option<String>,
    pub assembly: Option<String>,
    pub json: bool,
}

/// Run a macro or an assembly: on hardware, as a dry run, or simulated.
#[derive(Debug, Clone)]
pub struct MacroRunCommand {
    pub serial: OptionalSerialPortArgs,
    pub file: String,
    pub macro_name: Option<String>,
    pub assembly: Option<String>,
    pub dry_run: bool,
    pub simulate_read: Vec<String>,
    pub json: bool,
}

/// Like `SerialPortArgs`, but the port may be left out.
#[derive(Debug, Clone)]
pub struct OptionalSerialPortArgs {
    pub port: Option<String>,
    pub baud: Option<u32>,
    pub data_bits: Option<u8>,
    pub stop_bits: Option<String>,
    pub parity: Option<String>,
    pub flow_control: Option<String>,
}

/// Encodings of data on the command line.
#[derive(Debug, Clone, Copy, PartialEq, Eq, Structural)]
pub enum CliDataFormat {
    Utf8,
    Hex,
    Base64,
}

/// Level of a control line.
#[derive(Debug, Clone, Copy, PartialEq, Eq, Structural)]
pub enum ControlLineLevel {
    High,
    Low,
}

impl ControlLineLevel {
    /// High is `true`, low is `false`.
    pub fn as_bool(self) -> (r: bool)
        ensures
            r == (self == ControlLineLevel::High),
    {
        match self {
            ControlLineLevel::High => true,
            ControlLineLevel::Low => false,
        }
    }

    /// The level's name.
    pub fn as_str(self) -> (r: &'static str)
        ensures
            r@ == (if self == ControlLineLevel::High { "high"@ } else { "low"@ }),
    {
        match self {
            ControlLineLevel::High => "high",
            ControlLineLevel::Low => "low",
        }
    }
}

// ---------------------------------------------------------------------------
// Configuration file
// ---------------------------------------------------------------------------

/// Server settings.
#[derive(Debug, Clone)]
pub struct ServerConfig {
    pub max_connections: usize,
    pub connection_timeout_seconds: u64,
    pub worker_threads: Option<usize>,
    pub enable_metrics: bool,
    pub metrics_interval_seconds: u64,
}

/// Serial defaults.
#[derive(Debug, Clone)]
pub struct SerialConfig {
    pub default_baud_rate: u32,
    pub default_data_bits: u8,
    pub default_stop_bits: String,
    pub default_parity: String,
    pub default_flow_control: String,
    pub default_timeout_ms: u64,
    pub max_buffer_size: usize,
    pub retry_count: u32,
    pub retry_delay_ms: u64,
    pub auto_discovery: bool,
    pub discovery_interval_seconds: u64,
    pub allow_port_sharing: bool,
    pub default_line_ending: String,
}

/// Security settings.
#[derive(Debug, Clone)]
pub struct SecurityConfig {
    pub restrict_ports: bool,
    pub allowed_ports: Vec<String>,
    pub blocked_ports: Vec<String>,
    pub max_data_size: usize,
    pub rate_limit_enabled: bool,
    pub rate_limit_requests_per_second: u32,
    pub enable_authentication: bool,
    pub allowed_clients: Vec<String>,
}

/// Logging settings. The log file path is kept as text.
#[derive(Debug, Clone)]
pub struct LoggingConfig {
    pub level: String,
    pub file: Option<String>,
    pub format: String,
    pub timestamp_format: String,
    pub include_location: bool,
    pub include_thread_names: bool,
    pub rotate_logs: bool,
    pub max_log_files: usize,
    pub max_log_size_mb: usize,
}

/// The whole configuration.
#[derive(Debug, Clone)]
pub struct Config {
    pub server: ServerConfig,
    pub serial: SerialConfig,
    pub security: SecurityConfig,
    pub logging: LoggingConfig,
}

/// The default server settings.
pub open spec fn is_default_server(s: ServerConfig) -> bool {
    &&& s.max_connections == 10
    &&& s.connection_timeout_seconds == 30
    &&& s.worker_threads is None
    &&& !s.enable_metrics
    &&& s.metrics_interval_seconds == 60
}

/// The default serial settings.
pub open spec fn is_default_serial(s: SerialConfig) -> bool {
    &&& s.default_baud_rate == 115200
    &&& s.default_data_bits == 8
    &&& s.default_stop_bits@ == "One"@
    &&& s.default_parity@ == "None"@
    &&& s.default_flow_control@ == "None"@
    &&& s.default_timeout_ms == 1000
    &&& s.max_buffer_size == 8192
    &&& s.retry_count == 3
    &&& s.retry_delay_ms == 1000
    &&& !s.auto_discovery
    &&& s.discovery_interval_seconds == 5
    &&& !s.allow_port_sharing
    &&& s.default_line_ending@ == "\n"@
}

/// The default security settings.
pub open spec fn is_default_security(s: SecurityConfig) -> bool {
    &&& !s.restrict_ports
    &&& s.allowed_ports@.len() == 0
    &&& s.blocked_ports@.len() == 0
    &&& s.max_data_size == 65536
    &&& !s.rate_limit_enabled
    &&& s.rate_limit_requests_per_second == 100
    &&& !s.enable_authentication
    &&& s.allowed_clients@.len() == 0
}

/// The default logging settings.
pub open spec fn is_default_logging(s: LoggingConfig) -> bool {
    &&& s.level@ == "info"@
    &&& s.file is None
    &&& s.format@ == "text"@
    &&& s.timestamp_format@ == "rfc3339"@
    &&& !s.include_location
    &&& !s.include_thread_names
    &&& !s.rotate_logs
    &&& s.max_log_files == 10
    &&& s.max_log_size_mb == 10
}

impl Default for ServerConfig {
    fn default() -> (r: Self)
        ensures
            is_default_server(r),
    {
        ServerConfig {
            max_connections: 10,
            connection_timeout_seconds: 30,
            worker_threads: None,
            enable_metrics: false,
            metrics_interval_seconds: 60,
        }
    }
}

impl Default for SerialConfig {
    fn default() -> (r: Self)
        ensures
            is_default_serial(r),
    {
        SerialConfig {
            default_baud_rate: 115200,
            default_data_bits: 8,
            default_stop_bits: String::from_str("One"),
            default_parity: String::from_str("None"),
            default_flow_control: String::from_str("None"),
            default_timeout_ms: 1000,
            max_buffer_size: 8192,
            retry_count: 3,
            retry_delay_ms: 1000,
            auto_discovery: false,
            discovery_interval_seconds: 5,
            allow_port_sharing: false,
            default_line_ending: String::from_str("\n"),
        }
    }
}

impl Default for SecurityConfig {
    fn default() -> (r: Self)
        ensures
            is_default_security(r),
    {
        SecurityConfig {
            restrict_ports: false,
            allowed_ports: Vec::new(),
            blocked_ports: Vec::new(),
            max_data_size: 65536,
            rate_limit_enabled: false,
            rate_limit_requests_per_second: 100,
            enable_authentication: false,
            allowed_clients: Vec::new(),
        }
    }
}

impl Default for LoggingConfig {
    fn default() -> (r: Self)
        ensures
            is_default_logging(r),
    {
        LoggingConfig {
            level: String::from_str("info"),
            file: None,
            format: String::from_str("text"),
            timestamp_format: String::from_str("rfc3339"),
            include_location: false,
            include_thread_names: false,
            rotate_logs: false,
            max_log_files: 10,
            max_log_size_mb: 10,
        }
    }
}

impl Default for Config {
    fn default() -> (r: Self)
        ensures
            is_default_server(r.server),
            is_default_serial(r.serial),
            is_default_security(r.security),
            is_default_logging(r.logging),
    {
        Config {
            server: ServerConfig::default(),
            serial: SerialConfig::default(),
            security: SecurityConfig::default(),
            logging: LoggingConfig::default(),
        }
    }
}

/// The baud rates a configuration may name as its default.
pub open spec fn is_standard_baud_rate(b: u32) -> bool {
    b == 300 || b == 600 || b == 1200 || b == 2400 || b == 4800 || b == 9600 || b == 14400
        || b == 19200 || b == 28800 || b == 38400 || b == 57600 || b == 115200 || b == 230400
        || b == 460800 || b == 921600
}

/// The log levels a configuration may name.
pub open spec fn is_log_level(l: Seq<char>) -> bool {
    l == "error"@ || l == "warn"@ || l == "info"@ || l == "debug"@ || l == "trace"@
}

/// A configuration problem: the field, the offending value as text, and for
/// a value out of range the bounds as text.
pub type ConfigProblem = (Seq<char>, Seq<char>, Option<(Seq<char>, Seq<char>)>);

/// The first rule a configuration breaks, if any.
pub open spec fn config_problem(c: Config) -> Option<ConfigProblem> {
    if c.server.max_connections == 0 {
        Some(("server.max_connections"@, "0"@, None))
    } else if c.server.max_connections > 1000 {
        Some(("server.max_connections"@, decimal(c.server.max_connections as nat), Some(("1"@, "1000"@))))
    } else if c.serial.default_baud_rate == 0 {
        Some(("serial.default_baud_rate"@, "0"@, None))
    } else if !is_standard_baud_rate(c.serial.default_baud_rate) {
        Some(("serial.default_baud_rate"@, decimal(c.serial.default_baud_rate as nat), None))
    } else if c.serial.max_buffer_size == 0 {
        Some(("serial.max_buffer_size"@, "0"@, None))
    } else if c.serial.max_buffer_size > 1048576 {
        Some(("serial.max_buffer_size"@, decimal(c.serial.max_buffer_size as nat), Some(("1"@, "1048576"@))))
    } else if !is_log_level(c.logging.level@) {
        Some(("logging.level"@, c.logging.level@, None))
    } else {
        None
    }
}

/// Whether `e` reports configuration problem `p`.
pub open spec fn reports_config(e: SerialError, p: ConfigProblem) -> bool {
    match p.2 {
        None => e matches SerialError::Config(ConfigError::InvalidValue { field, value })
            && field@ == p.0 && value@ == p.1,
        Some((min_text, max_text)) => e matches SerialError::Config(ConfigError::ValueOutOfRange { field, value, min, max })
            && field@ == p.0 && value@ == p.1 && min@ == min_text && max@ == max_text,
    }
}

fn invalid_value(field: &str, value: String) -> (r: SerialError)
    ensures
        r matches SerialError::Config(ConfigError::InvalidValue { field: f, value: v }) && f@ == field@ && v == value,
{
    SerialError::Config(ConfigError::InvalidValue { field: String::from_str(field), value })
}

fn out_of_range(field: &str, value: String, min: &str, max: &str) -> (r: SerialError)
    ensures
        r matches SerialError::Config(ConfigError::ValueOutOfRange { field: f, value: v, min: lo, max: hi })
            && f@ == field@ && v == value && lo@ == min@ && hi@ == max@,
{
    SerialError::Config(ConfigError::ValueOutOfRange {
        field: String::from_str(field),
        value,
        min: String::from_str(min),
        max: String::from_str(max),
    })
}

fn decimal_text(n: u64) -> (r: String)
    ensures
        r@ == decimal(n as nat),
{
    let mut s = String::new();
    append_decimal(&mut s, n);
    s
}

fn standard_baud_rate(b: u32) -> (r: bool)
    ensures
        r == is_standard_baud_rate(b),
{
    b == 300 || b == 600 || b == 1200 || b == 2400 || b == 4800 || b == 9600 || b == 14400
        || b == 19200 || b == 28800 || b == 38400 || b == 57600 || b == 115200 || b == 230400
        || b == 460800 || b == 921600
}

fn log_level(l: &str) -> (r: bool)
    ensures
        r == is_log_level(l@),
{
    str_eq(l, "error") || str_eq(l, "warn") || str_eq(l, "info") || str_eq(l, "debug") || str_eq(l, "trace")
}

/// The given value if there is one, else the current one.
pub fn pick<T: Copy>(current: T, given: Option<T>) -> (r: T)
    ensures
        r == match given {
            Some(v) => v,
            None => current,
        },
{
    match given {
        Some(v) => v,
        None => current,
    }
}

/// The server section after the arguments override it.
pub open spec fn merged_server(s: ServerConfig, a: Args) -> ServerConfig {
    ServerConfig {
        max_connections: match a.max_connections { Some(v) => v, None => s.max_connections },
        connection_timeout_seconds: match a.connection_timeout { Some(v) => v, None => s.connection_timeout_seconds },
        ..s
    }
}

/// The serial section after the arguments override it.
pub open spec fn merged_serial(s: SerialConfig, a: Args) -> SerialConfig {
    SerialConfig {
        default_baud_rate: match a.default_baud_rate { Some(v) => v, None => s.default_baud_rate },
        default_timeout_ms: match a.default_timeout_ms { Some(v) => v, None => s.default_timeout_ms },
        max_buffer_size: match a.max_buffer_size { Some(v) => v, None => s.max_buffer_size },
        retry_count: match a.retry_count { Some(v) => v, None => s.retry_count },
        auto_discovery: match a.auto_discovery { Some(v) => v, None => s.auto_discovery },
        allow_port_sharing: match a.allow_port_sharing { Some(v) => v, None => s.allow_port_sharing },
        ..s
    }
}

impl Config {
    /// Applies the command-line overrides: every setting given on the
    /// command line replaces the configured one; every other setting stays.
    pub fn merge_args(&mut self, args: &Args)
        ensures
            final(self).server == merged_server(old(self).server, *args),
            final(self).serial == merged_serial(old(self).serial, *args),
            final(self).security.restrict_ports == match args.restrict_ports {
                Some(v) => v,
                None => old(self).security.restrict_ports,
            },
            final(self).security.allowed_ports == old(self).security.allowed_ports,
            final(self).security.blocked_ports == old(self).security.blocked_ports,
            final(self).security.max_data_size == old(self).security.max_data_size,
            final(self).security.rate_limit_enabled == old(self).security.rate_limit_enabled,
            final(self).security.rate_limit_requests_per_second == old(self).security.rate_limit_requests_per_second,
            final(self).security.enable_authentication == old(self).security.enable_authentication,
            final(self).security.allowed_clients == old(self).security.allowed_clients,
            final(self).logging.level@ == match args.log_level {
                Some(l) => l@,
                None => old(self).logging.level@,
            },
            final(self).logging.file == match args.log_file {
                Some(f) => Some(f),
                None => old(self).logging.file,
            },
            final(self).logging.format == old(self).logging.format,
            final(self).logging.timestamp_format == old(self).logging.timestamp_format,
            final(self).logging.include_location == old(self).logging.include_location,
            final(self).logging.include_thread_names == old(self).logging.include_thread_names,
            final(self).logging.rotate_logs == old(self).logging.rotate_logs,
            final(self).logging.max_log_files == old(self).logging.max_log_files,
            final(self).logging.max_log_size_mb == old(self).logging.max_log_size_mb,
    {
        self.server.max_connections = pick(self.server.max_connections, args.max_connections);
        self.server.connection_timeout_seconds = pick(self.server.connection_timeout_seconds, args.connection_timeout);
        self.serial.default_baud_rate = pick(self.serial.default_baud_rate, args.default_baud_rate);
        self.serial.default_timeout_ms = pick(self.serial.default_timeout_ms, args.default_timeout_ms);
        self.serial.max_buffer_size = pick(self.serial.max_buffer_size, args.max_buffer_size);
        self.serial.retry_count = pick(self.serial.retry_count, args.retry_count);
        self.serial.auto_discovery = pick(self.serial.auto_discovery, args.auto_discovery);
        self.serial.allow_port_sharing = pick(self.serial.allow_port_sharing, args.allow_port_sharing);
        self.security.restrict_ports = pick(self.security.restrict_ports, args.restrict_ports);
        if let Some(log_level) = &args.log_level {
            self.logging.level = log_level.clone();
        }
        if let Some(log_file) = &args.log_file {
            self.logging.file = Some(log_file.clone());
        }
    }

    /// Checks the configuration's rules in order (see `config_problem`) and
    /// reports the first one broken.
    pub fn validate(&self) -> (r: Result<(), SerialError>)
        ensures
            r is Ok <==> config_problem(*self) is None,
            r matches Err(e) ==> reports_config(e, config_problem(*self)->0),
    {
        if self.server.max_connections == 0 {
            return Err(invalid_value("server.max_connections", String::from_str("0")));
        }
        if self.server.max_connections > 1000 {
            return Err(out_of_range(
                "server.max_connections",
                decimal_text(self.server.max_connections as u64),
                "1",
                "1000",
            ));
        }
        if self.serial.default_baud_rate == 0 {
            return Err(invalid_value("serial.default_baud_rate", String::from_str("0")));
        }
        if !standard_baud_rate(self.serial.default_baud_rate) {
            return Err(invalid_value("serial.default_baud_rate", decimal_text(self.serial.default_baud_rate as u64)));
        }
        if self.serial.max_buffer_size == 0 {
            return Err(invalid_value("serial.max_buffer_size", String::from_str("0")));
        }
        if self.serial.max_buffer_size > 1024 * 1024 {
            return Err(out_of_range(
                "serial.max_buffer_size",
                decimal_text(self.serial.max_buffer_size as u64),
                "1",
                "1048576",
            ));
        }
        if !log_level(self.logging.level.as_str()) {
            return Err(invalid_value("logging.level", self.logging.level.clone()));
        }
        Ok(())
    }
}

/// The default configuration follows every rule.
pub proof fn law_default_config_is_valid(c: Config)
    requires
        is_default_server(c.server),
        is_default_serial(c.serial),
        is_default_security(c.security),
        is_default_logging(c.logging),
    ensures
        config_problem(c) is None,
{
}

/// Merging arguments that override nothing leaves the configuration as it
/// was.
pub proof fn law_merge_without_overrides_keeps_config(s: ServerConfig, t: SerialConfig, a: Args)
    requires
        a.max_connections is None,
        a.connection_timeout is None,
        a.default_baud_rate is None,
        a.default_timeout_ms is None,
        a.max_buffer_size is None,
        a.retry_count is None,
        a.auto_discovery is None,
        a.allow_port_sharing is None,
    ensures
        merged_server(s, a) == s,
        merged_serial(t, a) == t,
{
}

/// The configured default baud rate must be a standard one: where every
/// other rule holds, a configuration is valid exactly when its default baud
/// rate is one of 300, 600, 1200, 2400, 4800, 9600, 14400, 19200, 28800,
/// 38400, 57600, 115200, 230400, 460800 or 921600.
pub proof fn law_default_baud_rate_must_be_standard(c: Config)
    requires
        1 <= c.server.max_connections <= 1000,
        1 <= c.serial.max_buffer_size <= 1048576,
        is_log_level(c.logging.level@),
    ensures
        config_problem(c) is None <==> {
            let b = c.serial.default_baud_rate;
            b == 300 || b == 600 || b == 1200 || b == 2400 || b == 4800
                || b == 9600 || b == 14400 || b == 19200 || b == 28800 || b == 38400
                || b == 57600 || b == 115200 || b == 230400 || b == 460800 || b == 921600
        },
{
}

} // verus!
