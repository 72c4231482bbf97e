//! The command line's decisions: how port settings and read windows are
//! taken from arguments and configuration, how serial errors are reported,
//! and which field a macro error points at. Opening ports, printing and
//! reading files are left to the program around the library.

use vstd::prelude::*;
use crate::automation::planner::MacroTarget;
use crate::broker::{max_bytes_complaint, max_bytes_error};
use crate::config::{CliDataFormat, Command, Config, ControlLineLevel, MacroCommand, OptionalSerialPortArgs, ReadCommand, SerialPortArgs, WriteCommand};
use crate::automation::dsl::{decoding_of, Encoding};
use crate::encoding::{base64_standard_decode, base64_standard_encode, base64_url_safe_no_pad_decode, hex_decode, spaced_hex, spaced_lower_hex, standard_base64_encoding, utf8_string};
use crate::text::remove_spaces;
use vstd::utf8::{decode_utf8, valid_utf8};
use vstd::string::StrSliceExecFns;
use crate::encoding::{to_lowercase, unicode_lowercase};
use crate::error::SerialError;
use crate::serial::capture::{capture_config_problem, CaptureChunk, CaptureCompletionReason, CaptureConfig, CaptureReport, CaptureStartTrigger};
use crate::serial::connection::{ConnectionConfig, DataBits, FlowControl, Parity, StopBits};
use crate::serial::error::LocalSerialError;
use crate::text::{chars_of, find, find_from, slice_chars, str_eq, string_of, up_to_char};
use crate::tools::types::{flow_control_named, flow_control_of, parity_named, parity_of};

verus! {

// ---------------------------------------------------------------------------
// Data formats
// ---------------------------------------------------------------------------

/// How data given or shown on the command line is encoded.
#[derive(Debug, Clone, Copy, PartialEq, Eq, Structural)]
pub enum DataFormat {
    Text,
    Hex,
    Base64,
}

impl CliDataFormat {
    /// The data format a command-line format flag selects.
    pub fn as_data_format(self) -> (r: DataFormat)
        ensures
            r == match self {
                CliDataFormat::Utf8 => DataFormat::Text,
                CliDataFormat::Hex => DataFormat::Hex,
                CliDataFormat::Base64 => DataFormat::Base64,
            },
    {
        match self {
            CliDataFormat::Utf8 => DataFormat::Text,
            CliDataFormat::Hex => DataFormat::Hex,
            CliDataFormat::Base64 => DataFormat::Base64,
        }
    }
}

/// The pack encoding whose reading rules a command-line data format follows.
pub open spec fn format_encoding(f: DataFormat) -> Encoding {
    match f {
        DataFormat::Text => Encoding::Utf8,
        DataFormat::Hex => Encoding::Hex,
        DataFormat::Base64 => Encoding::Base64,
    }
}

/// Turns data given on the command line into bytes: text as its UTF-8
/// bytes; hex with spaces ignored; base64 in the standard alphabet with
/// padding, or else URL-safe without padding. Data that does not decode is
/// an encoding error whose text starts with `Hex decoding failed: ` or
/// `Base64 decoding failed: `.
pub fn decode_cli_data(data: &str, format: DataFormat) -> (r: Result<Vec<u8>, SerialError>)
    ensures
        r is Ok <==> decoding_of(format_encoding(format), data@) is Some,
        r matches Ok(v) ==> v@ == decoding_of(format_encoding(format), data@)->0,
        format == DataFormat::Hex ==> (r matches Err(e) ==> (e matches SerialError::EncodingError(m)
            && "Hex decoding failed: "@.is_prefix_of(m@))),
        format == DataFormat::Base64 ==> (r matches Err(e) ==> (e matches SerialError::EncodingError(m)
            && "Base64 decoding failed: "@.is_prefix_of(m@))),
{
    match format {
        DataFormat::Text => Ok(data.as_bytes_vec()),
        DataFormat::Hex => {
            let clean = remove_spaces(data);
            match hex_decode(clean.as_str()) {
                Ok(v) => Ok(v),
                Err(e) => {
                    let mut m = String::from_str("Hex decoding failed: ");
                    m.append(e.as_str());
                    Err(SerialError::EncodingError(m))
                },
            }
        },
        DataFormat::Base64 => match base64_standard_decode(data) {
            Ok(v) => Ok(v),
            Err(_) => match base64_url_safe_no_pad_decode(data) {
                Ok(v) => Ok(v),
                Err(e) => {
                    let mut m = String::from_str("Base64 decoding failed: ");
                    m.append(e.as_str());
                    Err(SerialError::EncodingError(m))
                },
            },
        },
    }
}

/// Shows read bytes in a command-line data format: UTF-8 text (an
/// encoding error, starting `UTF-8 encoding failed: `, where the bytes are
/// not valid UTF-8), lower-case hex pairs separated by spaces, or standard
/// base64.
pub fn encode_cli_data(data: &[u8], format: DataFormat) -> (r: Result<String, SerialError>)
    requires
        data@.len() <= usize::MAX / 2,
    ensures
        format == DataFormat::Text ==> {
            &&& (r is Ok <==> valid_utf8(data@))
            &&& (r matches Ok(s) ==> s@ == decode_utf8(data@))
            &&& (r matches Err(e) ==> (e matches SerialError::EncodingError(m)
                && "UTF-8 encoding failed: "@.is_prefix_of(m@)))
        },
        format == DataFormat::Hex ==> (r matches Ok(s) && s@ == spaced_hex(data@)),
        format == DataFormat::Base64 ==> (r matches Ok(s) && s@ == standard_base64_encoding(data@)),
{
    match format {
        DataFormat::Text => match utf8_string(crate::text::bytes_vec(data)) {
            Ok(s) => Ok(s),
            Err(e) => {
                let mut m = String::from_str("UTF-8 encoding failed: ");
                m.append(e.as_str());
                Err(SerialError::EncodingError(m))
            },
        },
        DataFormat::Hex => Ok(spaced_lower_hex(data)),
        DataFormat::Base64 => Ok(base64_standard_encode(data)),
    }
}

// ---------------------------------------------------------------------------
// Port settings
// ---------------------------------------------------------------------------

/// The data bits a number names.
pub open spec fn data_bits_number(n: u8) -> Option<DataBits> {
    if n == 5 { Some(DataBits::Five) }
    else if n == 6 { Some(DataBits::Six) }
    else if n == 7 { Some(DataBits::Seven) }
    else if n == 8 { Some(DataBits::Eight) }
    else { None }
}

/// The stop bits a lower-cased name denotes: `one` or `1`, `two` or `2`.
pub open spec fn cli_stop_bits(s: Seq<char>) -> Option<StopBits> {
    if s == "one"@ || s == "1"@ { Some(StopBits::One) }
    else if s == "two"@ || s == "2"@ { Some(StopBits::Two) }
    else { None }
}

/// Parses a data-bits number.
pub fn parse_data_bits(value: u8) -> (r: Result<DataBits, SerialError>)
    ensures
        match data_bits_number(value) {
            Some(b) => r matches Ok(x) && x == b,
            None => r matches Err(SerialError::InvalidDataBits(v)) && v == value,
        },
{
    match value {
        5 => Ok(DataBits::Five),
        6 => Ok(DataBits::Six),
        7 => Ok(DataBits::Seven),
        8 => Ok(DataBits::Eight),
        _ => Err(SerialError::InvalidDataBits(value)),
    }
}

/// Parses stop bits, in any case.
pub fn parse_stop_bits(value: &str) -> (r: Result<StopBits, SerialError>)
    ensures
        match cli_stop_bits(unicode_lowercase(value@)) {
            Some(b) => r matches Ok(x) && x == b,
            None => r matches Err(SerialError::InvalidStopBits(v)) && v@ == value@,
        },
{
    let lower = to_lowercase(value);
    let l = lower.as_str();
    if str_eq(l, "one") || str_eq(l, "1") {
        Ok(StopBits::One)
    } else if str_eq(l, "two") || str_eq(l, "2") {
        Ok(StopBits::Two)
    } else {
        Err(SerialError::InvalidStopBits(String::from_str(value)))
    }
}

/// Parses a parity name, in any case.
pub fn parse_parity(value: &str) -> (r: Result<Parity, SerialError>)
    ensures
        match parity_named(unicode_lowercase(value@)) {
            Some(p) => r matches Ok(x) && x == p,
            None => r matches Err(SerialError::InvalidParity(v)) && v@ == value@,
        },
{
    let lower = to_lowercase(value);
    match parity_of(lower.as_str()) {
        Some(p) => Ok(p),
        None => Err(SerialError::InvalidParity(String::from_str(value))),
    }
}

/// Parses a flow-control name, in any case.
pub fn parse_flow_control(value: &str) -> (r: Result<FlowControl, SerialError>)
    ensures
        match flow_control_named(unicode_lowercase(value@)) {
            Some(f) => r matches Ok(x) && x == f,
            None => r matches Err(SerialError::InvalidFlowControl(v)) && v@ == value@,
        },
{
    let lower = to_lowercase(value);
    match flow_control_of(lower.as_str()) {
        Some(f) => Ok(f),
        None => Err(SerialError::InvalidFlowControl(String::from_str(value))),
    }
}

/// A setting given on the command line, or else the configured default.
pub open spec fn chosen(given: Option<String>, default: String) -> Seq<char> {
    match given {
        Some(v) => v@,
        None => default@,
    }
}

/// What settings parsing yields for a port: the configuration, or the
/// error about the first setting (data bits, stop bits, parity, flow
/// control, in that order) that names nothing.
pub open spec fn settings_outcome(
    r: Result<ConnectionConfig, SerialError>,
    port: String,
    baud_rate: u32,
    data_bits: u8,
    stop_bits: Seq<char>,
    parity: Seq<char>,
    flow_control: Seq<char>,
) -> bool {
    let d = data_bits_number(data_bits);
    let s = cli_stop_bits(unicode_lowercase(stop_bits));
    let p = parity_named(unicode_lowercase(parity));
    let f = flow_control_named(unicode_lowercase(flow_control));
    if d is None {
        r matches Err(SerialError::InvalidDataBits(v)) && v == data_bits
    } else if s is None {
        r matches Err(SerialError::InvalidStopBits(v)) && v@ == stop_bits
    } else if p is None {
        r matches Err(SerialError::InvalidParity(v)) && v@ == parity
    } else if f is None {
        r matches Err(SerialError::InvalidFlowControl(v)) && v@ == flow_control
    } else {
        r matches Ok(c) && c.port == port && c.baud_rate == baud_rate && Some(c.data_bits) == d
            && Some(c.stop_bits) == s && Some(c.parity) == p && Some(c.flow_control) == f
    }
}

fn setting<'a>(given: &'a Option<String>, default: &'a String) -> (r: &'a str)
    ensures
        r@ == match given {
            Some(v) => v@,
            None => default@,
        },
{
    match given {
        Some(v) => v.as_str(),
        None => default.as_str(),
    }
}

fn port_settings(
    port: String,
    baud_rate: u32,
    data_bits: u8,
    stop_bits: &str,
    parity: &str,
    flow_control: &str,
) -> (r: Result<ConnectionConfig, SerialError>)
    ensures
        settings_outcome(r, port, baud_rate, data_bits, stop_bits@, parity@, flow_control@),
{
    let data_bits = parse_data_bits(data_bits)?;
    let stop_bits = parse_stop_bits(stop_bits)?;
    let parity = parse_parity(parity)?;
    let flow_control = parse_flow_control(flow_control)?;
    Ok(ConnectionConfig { port, baud_rate, data_bits, stop_bits, parity, flow_control })
}

/// The settings of a port named on the command line; each one left out is
/// taken from the configuration's serial defaults.
pub fn connection_config(args: &SerialPortArgs, config: &Config) -> (r: Result<ConnectionConfig, SerialError>)
    ensures
        settings_outcome(
            r,
            args.port,
            match args.baud { Some(b) => b, None => config.serial.default_baud_rate },
            match args.data_bits { Some(d) => d, None => config.serial.default_data_bits },
            chosen(args.stop_bits, config.serial.default_stop_bits),
            chosen(args.parity, config.serial.default_parity),
            chosen(args.flow_control, config.serial.default_flow_control),
        ),
{
    let baud_rate = match args.baud {
        Some(b) => b,
        None => config.serial.default_baud_rate,
    };
    let data_bits = match args.data_bits {
        Some(d) => d,
        None => config.serial.default_data_bits,
    };
    port_settings(
        args.port.clone(),
        baud_rate,
        data_bits,
        setting(&args.stop_bits, &config.serial.default_stop_bits),
        setting(&args.parity, &config.serial.default_parity),
        setting(&args.flow_control, &config.serial.default_flow_control),
    )
}

/// The settings of the port a hardware macro run uses; a run without a
/// port is refused.
pub fn macro_connection_config(args: &OptionalSerialPortArgs, config: &Config) -> (r: Result<ConnectionConfig, SerialError>)
    ensures
        match args.port {
            None => r matches Err(SerialError::InvalidConfig(m))
                && m@ == "macro run requires --dry-run, --simulate-read, or --port"@,
            Some(port) => settings_outcome(
                r,
                port,
                match args.baud { Some(b) => b, None => config.serial.default_baud_rate },
                match args.data_bits { Some(d) => d, None => config.serial.default_data_bits },
                chosen(args.stop_bits, config.serial.default_stop_bits),
                chosen(args.parity, config.serial.default_parity),
                chosen(args.flow_control, config.serial.default_flow_control),
            ),
        },
{
    let port = match &args.port {
        Some(p) => p.clone(),
        None => {
            return Err(SerialError::InvalidConfig(String::from_str(
                "macro run requires --dry-run, --simulate-read, or --port",
            )));
        },
    };
    let baud_rate = match args.baud {
        Some(b) => b,
        None => config.serial.default_baud_rate,
    };
    let data_bits = match args.data_bits {
        Some(d) => d,
        None => config.serial.default_data_bits,
    };
    port_settings(
        port,
        baud_rate,
        data_bits,
        setting(&args.stop_bits, &config.serial.default_stop_bits),
        setting(&args.parity, &config.serial.default_parity),
        setting(&args.flow_control, &config.serial.default_flow_control),
    )
}

// ---------------------------------------------------------------------------
// Reads
// ---------------------------------------------------------------------------

/// How a command-line read waits: the timeout of a single read, and the
/// capture window, where one was asked for.
#[derive(Debug, Clone, Copy)]
pub struct ReadCaptureConfig {
    pub timeout_ms: u64,
    pub capture: Option<CaptureConfig>,
}

/// Checks the read size and builds the capture window of a command-line
/// read: no window without a duration, and a window only where it is valid.
pub fn capture_config(
    timeout_ms: u64,
    max_bytes: usize,
    duration_ms: Option<u64>,
    start_trigger: CaptureStartTrigger,
    initial_timeout_ms: Option<u64>,
    idle_timeout_ms: Option<u64>,
) -> (r: Result<ReadCaptureConfig, SerialError>)
    ensures
        max_bytes_complaint(max_bytes) matches Some(m) ==> (r matches Err(SerialError::InvalidConfig(n)) && n@ == m),
        max_bytes_complaint(max_bytes) is None ==> match duration_ms {
            None => r matches Ok(c) && c.timeout_ms == timeout_ms && c.capture is None,
            Some(d) => {
                let w = CaptureConfig { timeout_ms, max_bytes, duration_ms: d, start_trigger, initial_timeout_ms, idle_timeout_ms };
                match capture_config_problem(w) {
                    Some(m) => r matches Err(SerialError::InvalidConfig(n)) && n@ == m,
                    None => r matches Ok(c) && c.timeout_ms == timeout_ms && c.capture == Some(w),
                }
            },
        },
{
    if let Some(m) = max_bytes_error(max_bytes) {
        return Err(SerialError::InvalidConfig(String::from_str(m)));
    }
    let duration_ms = match duration_ms {
        Some(d) => d,
        None => {
            return Ok(ReadCaptureConfig { timeout_ms, capture: None });
        },
    };
    let capture = CaptureConfig { timeout_ms, max_bytes, duration_ms, start_trigger, initial_timeout_ms, idle_timeout_ms };
    match capture.validate() {
        Ok(()) => {},
        Err(e) => return Err(map_serial_error(e)),
    }
    Ok(ReadCaptureConfig { timeout_ms, capture: Some(capture) })
}

/// What a command-line read reports.
#[derive(Debug, Clone)]
pub struct ReadPayload {
    pub bytes_read: usize,
    pub data: String,
    pub status: &'static str,
    pub timeout_ms: u64,
    pub duration_ms: Option<u64>,
    pub start_trigger: Option<CaptureStartTrigger>,
    pub initial_timeout_ms: Option<u64>,
    pub idle_timeout_ms: Option<u64>,
    pub waited_ms: Option<u64>,
    pub elapsed_ms: Option<u64>,
    pub completion_reason: Option<CaptureCompletionReason>,
    pub chunks: Option<Vec<CaptureChunk>>,
}

/// The report of a capture, with its data already encoded as `data`.
pub fn read_payload_from_capture(report: CaptureReport, data: String, timeout_ms: u64, config: CaptureConfig) -> (r: ReadPayload)
    ensures
        r.bytes_read == report.data@.len(),
        r.data == data,
        r.status@ == (if report.data@.len() > 0 { "ok"@ } else { "timeout"@ }),
        r.timeout_ms == timeout_ms,
        r.duration_ms == Some(config.duration_ms),
        r.start_trigger == Some(config.start_trigger),
        r.initial_timeout_ms == config.initial_timeout_ms,
        r.idle_timeout_ms == config.idle_timeout_ms,
        r.waited_ms == Some(report.waited_ms),
        r.elapsed_ms == Some(report.elapsed_ms),
        r.completion_reason == Some(report.completion_reason),
        r.chunks matches Some(c) && c@ == report.chunks@,
{
    let bytes_read = report.bytes_read();
    let status = if bytes_read > 0 { "ok" } else { "timeout" };
    ReadPayload {
        bytes_read,
        data,
        status,
        timeout_ms,
        duration_ms: Some(config.duration_ms),
        start_trigger: Some(config.start_trigger),
        initial_timeout_ms: config.initial_timeout_ms,
        idle_timeout_ms: config.idle_timeout_ms,
        waited_ms: Some(report.waited_ms),
        elapsed_ms: Some(report.elapsed_ms),
        completion_reason: Some(report.completion_reason),
        chunks: Some(report.chunks),
    }
}

/// The report of a single read that returned `bytes_read` bytes, encoded as
/// `data`.
pub fn single_read_payload(bytes_read: usize, data: String, timeout_ms: u64) -> (r: ReadPayload)
    ensures
        r.bytes_read == bytes_read,
        r.data == data,
        r.status@ == "ok"@,
        r.timeout_ms == timeout_ms,
        r.duration_ms is None && r.start_trigger is None && r.initial_timeout_ms is None,
        r.idle_timeout_ms is None && r.waited_ms is None && r.elapsed_ms is None,
        r.completion_reason is None && r.chunks is None,
{
    ReadPayload {
        bytes_read,
        data,
        status: "ok",
        timeout_ms,
        duration_ms: None,
        start_trigger: None,
        initial_timeout_ms: None,
        idle_timeout_ms: None,
        waited_ms: None,
        elapsed_ms: None,
        completion_reason: None,
        chunks: None,
    }
}

/// The report of a single read that timed out.
pub fn timed_out_read_payload(timeout_ms: u64) -> (r: ReadPayload)
    ensures
        r.bytes_read == 0,
        r.data@.len() == 0,
        r.status@ == "timeout"@,
        r.timeout_ms == timeout_ms,
        r.duration_ms is None && r.start_trigger is None && r.initial_timeout_ms is None,
        r.idle_timeout_ms is None && r.waited_ms is None && r.elapsed_ms is None,
        r.completion_reason is None && r.chunks is None,
{
    ReadPayload {
        bytes_read: 0,
        data: String::new(),
        status: "timeout",
        timeout_ms,
        duration_ms: None,
        start_trigger: None,
        initial_timeout_ms: None,
        idle_timeout_ms: None,
        waited_ms: None,
        elapsed_ms: None,
        completion_reason: None,
        chunks: None,
    }
}

// ---------------------------------------------------------------------------
// Errors
// ---------------------------------------------------------------------------

/// The command-line error for a serial-layer error: the same kind, with the
/// same details.
pub fn map_serial_error(error: LocalSerialError) -> (r: SerialError)
    ensures
        match error {
            LocalSerialError::PortNotFound(a) => r matches SerialError::PortNotFound(b) && a == b,
            LocalSerialError::ConnectionFailed(a) => r matches SerialError::ConnectionFailed(b) && a == b,
            LocalSerialError::InvalidConnection(a) => r matches SerialError::InvalidConnection(b) && a == b,
            LocalSerialError::ConnectionExists(a) => r matches SerialError::ConnectionExists(b) && a == b,
            LocalSerialError::InvalidBaudRate(a) => r matches SerialError::InvalidBaudRate(b) && a == b,
            LocalSerialError::InvalidConfig(a) => r matches SerialError::InvalidConfig(b) && a == b,
            LocalSerialError::ReadTimeout => r matches SerialError::ReadTimeout,
            LocalSerialError::WriteTimeout => r matches SerialError::WriteTimeout,
            LocalSerialError::EncodingError(a) => r matches SerialError::EncodingError(b) && a == b,
            LocalSerialError::IoError(k, a) => r matches SerialError::IoError(l, b) && k == l && a == b,
            LocalSerialError::SerialPortError(a) => r matches SerialError::SerialPortError(b) && a == b,
            LocalSerialError::Utf8Error(a) => r matches SerialError::Utf8Error(b) && a == b,
        },
{
    match error {
        LocalSerialError::PortNotFound(a) => SerialError::PortNotFound(a),
        LocalSerialError::ConnectionFailed(a) => SerialError::ConnectionFailed(a),
        LocalSerialError::InvalidConnection(a) => SerialError::InvalidConnection(a),
        LocalSerialError::ConnectionExists(a) => SerialError::ConnectionExists(a),
        LocalSerialError::InvalidBaudRate(a) => SerialError::InvalidBaudRate(a),
        LocalSerialError::InvalidConfig(a) => SerialError::InvalidConfig(a),
        LocalSerialError::ReadTimeout => SerialError::ReadTimeout,
        LocalSerialError::WriteTimeout => SerialError::WriteTimeout,
        LocalSerialError::EncodingError(a) => SerialError::EncodingError(a),
        LocalSerialError::IoError(k, a) => SerialError::IoError(k, a),
        LocalSerialError::SerialPortError(a) => SerialError::SerialPortError(a),
        LocalSerialError::Utf8Error(a) => SerialError::Utf8Error(a),
    }
}

// ---------------------------------------------------------------------------
// Macro commands
// ---------------------------------------------------------------------------

/// The target a macro command names: exactly one of a macro or an assembly.
pub fn macro_target(macro_name: Option<String>, assembly: Option<String>) -> (r: Result<MacroTarget, SerialError>)
    ensures
        match (macro_name, assembly) {
            (Some(n), None) => r matches Ok(MacroTarget::Macro(m)) && m == n,
            (None, Some(n)) => r matches Ok(MacroTarget::Assembly(m)) && m == n,
            _ => r matches Err(SerialError::InvalidConfig(m)) && m@ == "Specify exactly one of --macro or --assembly"@,
        },
{
    match (macro_name, assembly) {
        (Some(n), None) => Ok(MacroTarget::macro_named(n)),
        (None, Some(n)) => Ok(MacroTarget::assembly_named(n)),
        _ => Err(SerialError::InvalidConfig(String::from_str("Specify exactly one of --macro or --assembly"))),
    }
}

/// Whether a macro command asked for JSON output.
pub fn macro_command_json(args: &MacroCommand) -> (r: bool)
    ensures
        r == match args {
            MacroCommand::Validate(a) => a.json,
            MacroCommand::List(a) => a.json,
            MacroCommand::Plan(a) => a.json,
            MacroCommand::Run(a) => a.json,
        },
{
    match args {
        MacroCommand::Validate(a) => a.json,
        MacroCommand::List(a) => a.json,
        MacroCommand::Plan(a) => a.json,
        MacroCommand::Run(a) => a.json,
    }
}

/// The structured form of a macro command's error.
#[derive(Debug, Clone)]
pub struct MacroErrorOutput {
    pub status: &'static str,
    pub error: String,
    pub field: Option<String>,
}

/// An error message without the prefix its error kind adds
/// (`Invalid configuration: ` or `Serialization error: `).
pub open spec fn error_detail(m: Seq<char>) -> Seq<char> {
    if "Invalid configuration: "@.is_prefix_of(m) {
        m.skip("Invalid configuration: "@.len() as int)
    } else if "Serialization error: "@.is_prefix_of(m) {
        m.skip("Serialization error: "@.len() as int)
    } else {
        m
    }
}

/// The text between the first occurrence of `prefix` and the next backtick
/// after it, if both are there.
pub open spec fn backtick_value(m: Seq<char>, prefix: Seq<char>) -> Option<Seq<char>> {
    match find_from(m, prefix, 0) {
        None => None,
        Some(k) => {
            let rest = m.skip((k + prefix.len()) as int);
            match find_from(rest, seq!['`'], 0) {
                Some(j) => Some(rest.take(j as int)),
                None => None,
            }
        },
    }
}

/// The field a macro error points at: the path a validation or encoding
/// error names, the field serde names as unknown or missing, or `type` for
/// an unknown step variant.
pub open spec fn error_field(message: Seq<char>) -> Option<Seq<char>> {
    let m = error_detail(message);
    if "invalid macro pack at "@.is_prefix_of(m) {
        Some(up_to_char(m.skip("invalid macro pack at "@.len() as int), ':'))
    } else if "data encoding error at "@.is_prefix_of(m) {
        Some(up_to_char(m.skip("data encoding error at "@.len() as int), ':'))
    } else if backtick_value(m, "unknown field `"@) is Some {
        backtick_value(m, "unknown field `"@)
    } else if backtick_value(m, "missing field `"@) is Some {
        backtick_value(m, "missing field `"@)
    } else if find_from(m, "unknown variant `"@, 0) is Some {
        Some("type"@)
    } else {
        None
    }
}

fn starts_with(s: &Vec<char>, p: &Vec<char>) -> (r: bool)
    ensures
        r == p@.is_prefix_of(s@),
{
    if p.len() > s.len() {
        return false;
    }
    assert(s@.skip(0) == s@);
    crate::text::matches_at(s, 0, p)
}

fn take_up_to(s: &Vec<char>, c: char) -> (r: Vec<char>)
    ensures
        r@ == up_to_char(s@, c),
{
    let mut p: Vec<char> = Vec::new();
    p.push(c);
    assert(p@ == seq![c]);
    match find(s, &p) {
        Some(k) => {
            let r = slice_chars(s, 0, k);
            assert(r@ =~= s@.take(k as int));
            r
        },
        None => {
            let r = slice_chars(s, 0, s.len());
            assert(r@ == s@);
            r
        },
    }
}

/// The text between the first `prefix` in `message` and the next backtick.
pub fn backtick_value_after(message: &str, prefix: &str) -> (r: Option<String>)
    ensures
        match backtick_value(message@, prefix@) {
            Some(v) => r matches Some(s) && s@ == v,
            None => r is None,
        },
{
    let m = chars_of(message);
    let p = chars_of(prefix);
    let n = m.len();
    let k = match find(&m, &p) {
        Some(k) => k,
        None => return None,
    };
    let rest = slice_chars(&m, k + p.len(), n);
    assert(rest@ == message@.skip(k + prefix@.len()));
    let mut tick: Vec<char> = Vec::new();
    tick.push('`');
    assert(tick@ == seq!['`']);
    match find(&rest, &tick) {
        Some(j) => {
            let v = slice_chars(&rest, 0, j);
            assert(v@ =~= rest@.take(j as int));
            Some(string_of(&v))
        },
        None => None,
    }
}

fn drop_prefix(s: &Vec<char>, n: usize) -> (r: Vec<char>)
    requires
        n <= s@.len(),
    ensures
        r@ == s@.skip(n as int),
{
    slice_chars(s, n, s.len())
}

/// The field a macro error message points at (see `error_field`).
pub fn macro_error_field(message: &str) -> (r: Option<String>)
    ensures
        match error_field(message@) {
            Some(f) => r matches Some(s) && s@ == f,
            None => r is None,
        },
{
    let all = chars_of(message);
    let config_prefix = chars_of("Invalid configuration: ");
    let serde_prefix = chars_of("Serialization error: ");
    let m = if starts_with(&all, &config_prefix) {
        drop_prefix(&all, config_prefix.len())
    } else if starts_with(&all, &serde_prefix) {
        drop_prefix(&all, serde_prefix.len())
    } else {
        all
    };
    assert(m@ == error_detail(message@));
    let pack_prefix = chars_of("invalid macro pack at ");
    if starts_with(&m, &pack_prefix) {
        let rest = drop_prefix(&m, pack_prefix.len());
        return Some(string_of(&take_up_to(&rest, ':')));
    }
    let encoding_prefix = chars_of("data encoding error at ");
    if starts_with(&m, &encoding_prefix) {
        let rest = drop_prefix(&m, encoding_prefix.len());
        return Some(string_of(&take_up_to(&rest, ':')));
    }
    let detail = string_of(&m);
    if let Some(f) = backtick_value_after(detail.as_str(), "unknown field `") {
        return Some(f);
    }
    if let Some(f) = backtick_value_after(detail.as_str(), "missing field `") {
        return Some(f);
    }
    let variant = chars_of("unknown variant `");
    if find(&m, &variant).is_some() {
        return Some(String::from_str("type"));
    }
    None
}

impl MacroErrorOutput {
    /// The structured form of an error message: status `error`, the
    /// message, and the field it points at.
    pub fn from_message(message: &str) -> (r: Self)
        ensures
            r.status@ == "error"@,
            r.error@ == message@,
            match error_field(message@) {
                Some(f) => r.field matches Some(s) && s@ == f,
                None => r.field is None,
            },
    {
        MacroErrorOutput {
            status: "error",
            field: macro_error_field(message),
            error: String::from_str(message),
        }
    }
}

// ---------------------------------------------------------------------------
// Control lines and events
// ---------------------------------------------------------------------------

/// Checks that a command sets at least one control line.
pub fn check_control_lines(rts: Option<ControlLineLevel>, dtr: Option<ControlLineLevel>) -> (r: Result<(), SerialError>)
    ensures
        r is Ok <==> (rts is Some || dtr is Some),
        r matches Err(e) ==> (e matches SerialError::InvalidConfig(m)
            && m@ == "At least one of --rts or --dtr must be specified"@),
{
    if rts.is_none() && dtr.is_none() {
        Err(SerialError::InvalidConfig(String::from_str("At least one of --rts or --dtr must be specified")))
    } else {
        Ok(())
    }
}

/// The name of a control line level.
pub open spec fn level_text(l: ControlLineLevel) -> Seq<char> {
    if l == ControlLineLevel::High { "high"@ } else { "low"@ }
}

/// What a control-line command reports: the lines it set, then the port.
pub open spec fn control_lines_summary_text(rts: Option<ControlLineLevel>, dtr: Option<ControlLineLevel>, port: Seq<char>) -> Seq<char> {
    let r = match rts { Some(l) => "RTS "@ + level_text(l), None => Seq::empty() };
    let d = match dtr { Some(l) => "DTR "@ + level_text(l), None => Seq::empty() };
    let parts = if rts is Some && dtr is Some { r + ", "@ + d } else { r + d };
    "Updated "@ + parts + " on "@ + port
}

/// The summary a control-line command prints.
pub fn control_lines_summary(rts: Option<ControlLineLevel>, dtr: Option<ControlLineLevel>, port: &str) -> (r: String)
    ensures
        r@ == control_lines_summary_text(rts, dtr, port@),
{
    let mut m = String::from_str("Updated ");
    match rts {
        Some(l) => {
            m.append("RTS ");
            m.append(l.as_str());
        },
        None => {},
    }
    if rts.is_some() && dtr.is_some() {
        m.append(", ");
    }
    match dtr {
        Some(l) => {
            m.append("DTR ");
            m.append(l.as_str());
        },
        None => {},
    }
    m.append(" on ");
    m.append(port);
    m
}

/// The name a command is published under, and the port it names.
pub open spec fn command_name(c: Command) -> Seq<char> {
    match c {
        Command::ListPorts(_) => "list-ports"@,
        Command::Probe(_) => "probe"@,
        Command::Write(_) => "write"@,
        Command::Read(_) => "read"@,
        Command::SetControlLines(_) => "set-control-lines"@,
        Command::Macro(MacroCommand::Validate(_)) => "macro validate"@,
        Command::Macro(MacroCommand::List(_)) => "macro list"@,
        Command::Macro(MacroCommand::Plan(_)) => "macro plan"@,
        Command::Macro(MacroCommand::Run(_)) => "macro run"@,
        Command::Serve => "serve"@,
        Command::GenerateConfig => "generate-config"@,
        Command::ValidateConfig => "validate-config"@,
        Command::ShowConfig => "show-config"@,
    }
}

/// The port a command names, if any.
pub open spec fn command_port(c: Command) -> Option<String> {
    match c {
        Command::Probe(a) => Some(a.port),
        Command::Write(a) => Some(a.serial.port),
        Command::Read(a) => Some(a.serial.port),
        Command::SetControlLines(a) => Some(a.serial.port),
        Command::Macro(MacroCommand::Run(a)) => a.serial.port,
        _ => None,
    }
}

/// The name a command invocation is published under, and the port it
/// names.
pub fn command_invocation(command: &Command) -> (r: (&'static str, Option<String>))
    ensures
        r.0@ == command_name(*command),
        r.1 == command_port(*command),
{
    match command {
        Command::ListPorts(_) => ("list-ports", None),
        Command::Probe(a) => ("probe", Some(a.port.clone())),
        Command::Write(a) => ("write", Some(a.serial.port.clone())),
        Command::Read(a) => ("read", Some(a.serial.port.clone())),
        Command::SetControlLines(a) => ("set-control-lines", Some(a.serial.port.clone())),
        Command::Macro(MacroCommand::Validate(_)) => ("macro validate", None),
        Command::Macro(MacroCommand::List(_)) => ("macro list", None),
        Command::Macro(MacroCommand::Plan(_)) => ("macro plan", None),
        Command::Macro(MacroCommand::Run(a)) => ("macro run", a.serial.port.clone()),
        Command::Serve => ("serve", None),
        Command::GenerateConfig => ("generate-config", None),
        Command::ValidateConfig => ("validate-config", None),
        Command::ShowConfig => ("show-config", None),
    }
}

// ---------------------------------------------------------------------------
// Start-up
// ---------------------------------------------------------------------------

/// Whether some argument after the program name is exactly `a`.
pub open spec fn has_argument(args: Seq<String>, a: Seq<char>) -> bool {
    exists|i: int| 1 <= i < args.len() && #[trigger] args[i]@ == a
}

fn contains_argument(args: &Vec<String>, a: &str) -> (r: bool)
    ensures
        r == has_argument(args@, a@),
{
    let mut i: usize = 1;
    while i < args.len()
        invariant
            1 <= i,
            forall|j: int| 1 <= j < i && j < args@.len() ==> #[trigger] args@[j]@ != a@,
        decreases args.len() - i,
    {
        if str_eq(args[i].as_str(), a) {
            return true;
        }
        i = i + 1;
    }
    false
}

/// Whether a command line that failed to parse asked for a macro command's
/// JSON output, so that the failure is reported as JSON too.
pub fn is_macro_json_invocation(raw_args: &Vec<String>) -> (r: bool)
    ensures
        r == (has_argument(raw_args@, "macro"@) && has_argument(raw_args@, "--json"@)),
{
    contains_argument(raw_args, "macro") && contains_argument(raw_args, "--json")
}

/// The log level used when none is given: `info` for the server or when
/// logging to a file, `warn` for other commands.
pub fn default_log_level(logs_to_file: bool, serving: bool) -> (r: &'static str)
    ensures
        r@ == (if logs_to_file || serving { "info"@ } else { "warn"@ }),
{
    if logs_to_file || serving {
        "info"
    } else {
        "warn"
    }
}

/// The name events of this process are published under: `mcp` for the
/// server, `cli` for one-shot commands.
pub fn event_source_label(serving: bool) -> (r: &'static str)
    ensures
        r@ == (if serving { "mcp"@ } else { "cli"@ }),
{
    if serving {
        "mcp"
    } else {
        "cli"
    }
}

// ---------------------------------------------------------------------------
// Checks before a port is opened
// ---------------------------------------------------------------------------

/// Whether every setting of a port names something.
pub open spec fn settings_parse(data_bits: u8, stop_bits: Seq<char>, parity: Seq<char>, flow_control: Seq<char>) -> bool {
    &&& data_bits_number(data_bits) is Some
    &&& cli_stop_bits(unicode_lowercase(stop_bits)) is Some
    &&& parity_named(unicode_lowercase(parity)) is Some
    &&& flow_control_named(unicode_lowercase(flow_control)) is Some
}

/// The data bits a command line ends up with.
pub open spec fn chosen_data_bits(args: SerialPortArgs, config: Config) -> u8 {
    match args.data_bits { Some(d) => d, None => config.serial.default_data_bits }
}

/// The baud rate a command line ends up with.
pub open spec fn chosen_baud_rate(args: SerialPortArgs, config: Config) -> u32 {
    match args.baud { Some(b) => b, None => config.serial.default_baud_rate }
}

/// Whether the settings of a command line's port all name something.
pub open spec fn port_settings_parse(args: SerialPortArgs, config: Config) -> bool {
    settings_parse(
        chosen_data_bits(args, config),
        chosen(args.stop_bits, config.serial.default_stop_bits),
        chosen(args.parity, config.serial.default_parity),
        chosen(args.flow_control, config.serial.default_flow_control),
    )
}

/// What settings parsing yields for a command line's port (see
/// `settings_outcome`).
pub open spec fn port_outcome(r: Result<ConnectionConfig, SerialError>, args: SerialPortArgs, config: Config) -> bool {
    settings_outcome(
        r,
        args.port,
        chosen_baud_rate(args, config),
        chosen_data_bits(args, config),
        chosen(args.stop_bits, config.serial.default_stop_bits),
        chosen(args.parity, config.serial.default_parity),
        chosen(args.flow_control, config.serial.default_flow_control),
    )
}

/// The complaint about a command-line read window, if any: its size first,
/// then the window.
pub open spec fn read_window_problem(
    timeout_ms: u64,
    max_bytes: usize,
    duration_ms: Option<u64>,
    start_trigger: CaptureStartTrigger,
    initial_timeout_ms: Option<u64>,
    idle_timeout_ms: Option<u64>,
) -> Option<Seq<char>> {
    if max_bytes_complaint(max_bytes) is Some {
        max_bytes_complaint(max_bytes)
    } else {
        match duration_ms {
            Some(d) => capture_config_problem(CaptureConfig {
                timeout_ms, max_bytes, duration_ms: d, start_trigger, initial_timeout_ms, idle_timeout_ms,
            }),
            None => None,
        }
    }
}

/// The read window a command line asks for, once it passed its checks.
pub open spec fn read_window(
    timeout_ms: u64,
    max_bytes: usize,
    duration_ms: Option<u64>,
    start_trigger: CaptureStartTrigger,
    initial_timeout_ms: Option<u64>,
    idle_timeout_ms: Option<u64>,
) -> Option<CaptureConfig> {
    match duration_ms {
        Some(d) => Some(CaptureConfig { timeout_ms, max_bytes, duration_ms: d, start_trigger, initial_timeout_ms, idle_timeout_ms }),
        None => None,
    }
}

/// A `write` command that passed its checks: the port's settings, the
/// response read (if one was asked for), the data format and the bytes to
/// send.
#[derive(Debug, Clone)]
pub struct WritePlan {
    pub connection: ConnectionConfig,
    pub read: Option<ReadCaptureConfig>,
    pub format: DataFormat,
    pub payload: Vec<u8>,
}

/// A `read` command that passed its checks: the port's settings, the read
/// and the data format.
#[derive(Debug, Clone)]
pub struct ReadPlan {
    pub connection: ConnectionConfig,
    pub read: ReadCaptureConfig,
    pub format: DataFormat,
}

/// Checks a `write` command before any port is opened, in this order: the
/// port's settings, the response read when `--read` is given (its size and
/// window; the read timeout defaults to the configured one), then the data
/// in its format.
pub fn prepare_write(args: &WriteCommand, config: &Config) -> (r: Result<WritePlan, SerialError>)
    ensures
        ({
            let t = match args.timeout_ms { Some(t) => t, None => config.serial.default_timeout_ms };
            let c = args.capture;
            let format = match args.format {
                CliDataFormat::Utf8 => DataFormat::Text,
                CliDataFormat::Hex => DataFormat::Hex,
                CliDataFormat::Base64 => DataFormat::Base64,
            };
            let problem = read_window_problem(t, args.max_bytes, c.duration_ms, c.start_trigger, c.initial_timeout_ms, c.idle_timeout_ms);
            let decoded = decoding_of(format_encoding(format), args.data@);
            &&& !port_settings_parse(args.serial, *config) ==> (r matches Err(e)
                && port_outcome(Err(e), args.serial, *config))
            &&& port_settings_parse(args.serial, *config) && args.read && problem is Some
                ==> (r matches Err(SerialError::InvalidConfig(m)) && m@ == problem->0)
            &&& port_settings_parse(args.serial, *config) && (!args.read || problem is None) && decoded is None
                ==> (r matches Err(SerialError::EncodingError(m)) && (format == DataFormat::Hex
                    ==> "Hex decoding failed: "@.is_prefix_of(m@)) && (format == DataFormat::Base64
                    ==> "Base64 decoding failed: "@.is_prefix_of(m@)))
            &&& r matches Ok(p) ==> {
                &&& port_outcome(Ok(p.connection), args.serial, *config)
                &&& p.format == format
                &&& Some(p.payload@) == decoded
                &&& (args.read ==> (p.read matches Some(rc) && rc.timeout_ms == t
                    && rc.capture == read_window(t, args.max_bytes, c.duration_ms, c.start_trigger, c.initial_timeout_ms, c.idle_timeout_ms)))
                &&& (!args.read ==> p.read is None)
            }
            &&& (port_settings_parse(args.serial, *config) && (!args.read || problem is None) && decoded is Some)
                ==> r is Ok
        }),
{
    let connection = connection_config(&args.serial, config)?;
    let read = if args.read {
        let t = match args.timeout_ms {
            Some(t) => t,
            None => config.serial.default_timeout_ms,
        };
        Some(capture_config(
            t,
            args.max_bytes,
            args.capture.duration_ms,
            args.capture.start_trigger,
            args.capture.initial_timeout_ms,
            args.capture.idle_timeout_ms,
        )?)
    } else {
        None
    };
    let format = args.format.as_data_format();
    let payload = decode_cli_data(args.data.as_str(), format)?;
    Ok(WritePlan { connection, read, format, payload })
}

/// Checks a `read` command before any port is opened: the port's settings,
/// then the read's size and window (the read timeout defaults to the
/// configured one).
pub fn prepare_read(args: &ReadCommand, config: &Config) -> (r: Result<ReadPlan, SerialError>)
    ensures
        ({
            let t = match args.timeout_ms { Some(t) => t, None => config.serial.default_timeout_ms };
            let c = args.capture;
            let problem = read_window_problem(t, args.max_bytes, c.duration_ms, c.start_trigger, c.initial_timeout_ms, c.idle_timeout_ms);
            &&& !port_settings_parse(args.serial, *config) ==> (r matches Err(e)
                && port_outcome(Err(e), args.serial, *config))
            &&& port_settings_parse(args.serial, *config) && problem is Some
                ==> (r matches Err(SerialError::InvalidConfig(m)) && m@ == problem->0)
            &&& port_settings_parse(args.serial, *config) && problem is None ==> r is Ok
            &&& r matches Ok(p) ==> {
                &&& port_outcome(Ok(p.connection), args.serial, *config)
                &&& p.read.timeout_ms == t
                &&& p.read.capture == read_window(t, args.max_bytes, c.duration_ms, c.start_trigger, c.initial_timeout_ms, c.idle_timeout_ms)
                &&& p.format == match args.format {
                    CliDataFormat::Utf8 => DataFormat::Text,
                    CliDataFormat::Hex => DataFormat::Hex,
                    CliDataFormat::Base64 => DataFormat::Base64,
                }
            }
        }),
{
    let connection = connection_config(&args.serial, config)?;
    let t = match args.timeout_ms {
        Some(t) => t,
        None => config.serial.default_timeout_ms,
    };
    let read = capture_config(
        t,
        args.max_bytes,
        args.capture.duration_ms,
        args.capture.start_trigger,
        args.capture.initial_timeout_ms,
        args.capture.idle_timeout_ms,
    )?;
    Ok(ReadPlan { connection, read, format: args.format.as_data_format() })
}

/// Stop-bit names agree with their number: once lower-cased, `two` and `2`
/// name two stop bits, `one` and `1` name one, and no other name names
/// either.
pub proof fn law_stop_bit_names_agree_with_their_number(s: Seq<char>)
    ensures
        cli_stop_bits(s) == Some(StopBits::Two) <==> (s == "two"@ || s == "2"@),
        cli_stop_bits(s) == Some(StopBits::One) <==> (s == "one"@ || s == "1"@),
        cli_stop_bits(s) is None <==> !(s == "one"@ || s == "1"@ || s == "two"@ || s == "2"@),
{
    reveal_strlit("one");
    reveal_strlit("1");
    reveal_strlit("two");
    reveal_strlit("2");
    assert("two"@[0] != "one"@[0]);
    assert("two"@ != "one"@);
    assert("two"@.len() != "1"@.len());
    assert("2"@.len() != "one"@.len());
    assert("2"@[0] != "1"@[0]);
    assert("2"@ != "1"@);
}

} // verus!
