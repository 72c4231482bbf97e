//! Tool requests and responses, and the conversions they need.

use vstd::prelude::*;
use vstd::utf8::{decode_utf8, encode_utf8, valid_utf8};
use vstd::string::StrSliceExecFns;
use crate::automation::planner::MacroTarget;
use crate::encoding::{
    base64_standard_decode, base64_standard_encode, base64_url_safe_no_pad_decode, hex_decode,
    hex_text_value, is_hex_text, spaced_hex, spaced_hex_encode, standard_base64_decoding,
    standard_base64_encoding, to_lowercase, unicode_lowercase, url_safe_no_pad_base64_decoding,
    utf8_string,
};
use crate::serial::capture::{CaptureChunk, CaptureCompletionReason, CaptureStartTrigger};
use crate::serial::connection::{ConnectionConfig, DataBits, FlowControl, Parity, StopBits, MAX_BAUD_RATE};
use crate::text::{append_decimal, blank, decimal, is_blank, remove_spaces, str_eq, without_spaces};

verus! {

/// A serial port found on the system.
#[derive(Debug, Clone)]
pub struct PortInfo {
    pub name: String,
    pub description: String,
    pub hardware_id: Option<String>,
}

/// Arguments of `list_ports` (none).
#[derive(Debug, Clone)]
pub struct ListPortsArgs {}

/// Arguments of `open`.
#[derive(Debug, Clone)]
pub struct OpenArgs {
    pub port: String,
    pub baud_rate: u32,
    pub data_bits: String,
    pub stop_bits: String,
    pub parity: String,
    pub flow_control: String,
}

/// Data bits of an open request that names none.
pub fn default_data_bits() -> (r: String)
    ensures
        r@ == "8"@,
{
    String::from_str("8")
}

/// Stop bits of an open request that names none.
pub fn default_stop_bits() -> (r: String)
    ensures
        r@ == "1"@,
{
    String::from_str("1")
}

/// Parity of an open request that names none.
pub fn default_parity() -> (r: String)
    ensures
        r@ == "none"@,
{
    String::from_str("none")
}

/// Flow control of an open request that names none.
pub fn default_flow_control() -> (r: String)
    ensures
        r@ == "none"@,
{
    String::from_str("none")
}

/// Arguments of `close`.
#[derive(Debug, Clone)]
pub struct CloseArgs {
    pub connection_id: String,
}

/// Arguments of `write`.
#[derive(Debug, Clone)]
pub struct WriteArgs {
    pub connection_id: String,
    pub data: String,
    pub encoding: String,
}

/// Encoding of a request that names none.
pub fn default_encoding() -> (r: String)
    ensures
        r@ == "utf8"@,
{
    String::from_str("utf8")
}

/// Arguments of `read`.
#[derive(Debug, Clone)]
pub struct ReadArgs {
    pub connection_id: String,
    pub timeout_ms: Option<u64>,
    pub max_bytes: usize,
    pub encoding: String,
    pub duration_ms: Option<u64>,
    pub start_trigger: CaptureStartTrigger,
    pub initial_timeout_ms: Option<u64>,
    pub idle_timeout_ms: Option<u64>,
}

/// Byte limit of a read request that names none.
pub fn default_max_bytes() -> (r: usize)
    ensures
        r == 1024,
{
    1024
}

/// Arguments of `set_control_lines`.
#[derive(Debug, Clone)]
pub struct SetControlLinesArgs {
    pub connection_id: String,
    pub rts: Option<bool>,
    pub dtr: Option<bool>,
}

impl SetControlLinesArgs {
    /// Whether the request changes at least one line.
    pub fn has_line_update(&self) -> (r: bool)
        ensures
            r == (self.rts is Some || self.dtr is Some),
    {
        self.rts.is_some() || self.dtr.is_some()
    }
}

/// Arguments of `configure`.
#[derive(Debug, Clone)]
pub struct ConfigureArgs {
    pub connection_id: String,
    pub baud_rate: Option<u32>,
}

/// Arguments of `status`.
#[derive(Debug, Clone)]
pub struct StatusArgs {
    pub connection_id: String,
}

/// Arguments of `macro_load`.
#[derive(Debug, Clone)]
pub struct MacroLoadArgs {
    pub pack_json: Option<String>,
    pub path: Option<String>,
}

/// Arguments of `macro_list`.
#[derive(Debug, Clone)]
pub struct MacroListArgs {
    pub pack_id: Option<String>,
}

/// Arguments of `macro_unload`.
#[derive(Debug, Clone)]
pub struct MacroUnloadArgs {
    pub pack_id: String,
}

/// A macro or assembly named in a tool request.
#[derive(Debug, Clone)]
pub struct MacroTargetArgs {
    pub kind: String,
    pub name: String,
}

impl MacroTargetArgs {
    /// The macro called `name`.
    pub fn macro_named(name: String) -> (r: Self)
        ensures
            r.kind@ == "macro"@,
            r.name == name,
    {
        MacroTargetArgs { kind: String::from_str("macro"), name }
    }

    /// The assembly called `name`.
    pub fn assembly_named(name: String) -> (r: Self)
        ensures
            r.kind@ == "assembly"@,
            r.name == name,
    {
        MacroTargetArgs { kind: String::from_str("assembly"), name }
    }

    /// The target the request names: kind `macro` or `assembly`; any other
    /// kind is refused.
    pub fn into_target(self) -> (r: Result<MacroTarget, String>)
        ensures
            self.kind@ == "macro"@ ==> (r matches Ok(MacroTarget::Macro(n)) && n == self.name),
            self.kind@ == "assembly"@ ==> (r matches Ok(MacroTarget::Assembly(n)) && n == self.name),
            self.kind@ != "macro"@ && self.kind@ != "assembly"@ ==> (r matches Err(m)
                && m@ == "Unsupported macro target kind: "@ + self.kind@),
    {
        proof {
            reveal_strlit("macro");
            reveal_strlit("assembly");
            assert("macro"@.len() == 5);
            assert("assembly"@.len() == 8);
            assert("macro"@ != "assembly"@);
        }
        if str_eq(self.kind.as_str(), "macro") {
            Ok(MacroTarget::macro_named(self.name))
        } else if str_eq(self.kind.as_str(), "assembly") {
            Ok(MacroTarget::assembly_named(self.name))
        } else {
            let mut m = String::from_str("Unsupported macro target kind: ");
            m.append(self.kind.as_str());
            Err(m)
        }
    }
}

/// Arguments of `macro_plan`.
#[derive(Debug, Clone)]
pub struct MacroPlanArgs {
    pub pack_id: Option<String>,
    pub pack_json: Option<String>,
    pub path: Option<String>,
    pub target: MacroTargetArgs,
}

/// Arguments of `macro_run`.
#[derive(Debug, Clone)]
pub struct MacroRunArgs {
    pub pack_id: String,
    pub target: MacroTargetArgs,
    pub input: MacroRunInput,
}

/// Arguments of `macro_run_inline`.
#[derive(Debug, Clone)]
pub struct MacroRunInlineArgs {
    pub pack_json: String,
    pub target: MacroTargetArgs,
    pub input: MacroRunInput,
}

/// Where a macro run reads and writes.
#[derive(Debug, Clone)]
pub enum MacroRunInput {
    Connection { connection_id: String },
    Simulation { reads: Vec<String> },
}

/// Response of `macro_unload`.
#[derive(Debug, Clone)]
pub struct MacroUnloadResponse {
    pub pack_id: String,
    pub unloaded: bool,
}

/// Response of `list_ports`.
#[derive(Debug, Clone)]
pub struct PortsResponse {
    pub ports: Vec<PortInfo>,
}

/// Response of `open`.
#[derive(Debug, Clone)]
pub struct OpenResponse {
    pub connection_id: String,
    pub status: String,
    pub port: String,
    pub baud_rate: u32,
    pub config: String,
}

/// Response of `close`.
#[derive(Debug, Clone)]
pub struct CloseResponse {
    pub connection_id: String,
    pub status: String,
}

/// Response of `write`.
#[derive(Debug, Clone)]
pub struct WriteResponse {
    pub connection_id: String,
    pub bytes_written: usize,
    pub data: String,
}

/// Response of `read`.
#[derive(Debug, Clone)]
pub struct ReadResponse {
    pub connection_id: String,
    pub bytes_read: usize,
    pub data: String,
    pub encoding: String,
    pub status: String,
    pub timeout_ms: Option<u64>,
    pub duration_ms: Option<u64>,
    pub start_trigger: Option<CaptureStartTrigger>,
    pub initial_timeout_ms: Option<u64>,
    pub idle_timeout_ms: Option<u64>,
    pub waited_ms: Option<u64>,
    pub elapsed_ms: Option<u64>,
    pub completion_reason: Option<CaptureCompletionReason>,
    pub chunks: Option<Vec<CaptureChunk>>,
}

/// Response of `configure`.
#[derive(Debug, Clone)]
pub struct ConfigureResponse {
    pub connection_id: String,
    pub status: String,
    pub new_baud_rate: Option<u32>,
}

/// Response of `status`.
#[derive(Debug, Clone)]
pub struct StatusResponse {
    pub connection_id: String,
    pub port: String,
    pub baud_rate: u32,
    pub config: String,
    pub status: String,
    pub created_at: String,
    pub bytes_sent: u64,
    pub bytes_received: u64,
}

// ---------------------------------------------------------------------------
// Data encodings of tool requests
// ---------------------------------------------------------------------------

/// Whether an encoding name (already lower-cased) means UTF-8.
pub open spec fn names_utf8(e: Seq<char>) -> bool {
    e == "utf8"@ || e == "utf-8"@
}

/// Encodes read data for a response in the named encoding (case does not
/// matter): UTF-8 text, spaced lower-case hex, or standard base64.
pub fn encode_data(data: &[u8], encoding: &str) -> (r: Result<String, String>)
    requires
        data@.len() <= usize::MAX / 2,
    ensures
        names_utf8(unicode_lowercase(encoding@)) ==> (r is Ok <==> valid_utf8(data@))
            && (r matches Ok(s) ==> s@ == decode_utf8(data@))
            && (r matches Err(m) ==> "UTF-8 encoding error: "@.is_prefix_of(m@)),
        !names_utf8(unicode_lowercase(encoding@)) && unicode_lowercase(encoding@) == "hex"@
            ==> (r matches Ok(s) && s@ == spaced_hex(data@)),
        !names_utf8(unicode_lowercase(encoding@)) && unicode_lowercase(encoding@) == "base64"@
            ==> (r matches Ok(s) && s@ == standard_base64_encoding(data@)),
        !names_utf8(unicode_lowercase(encoding@)) && unicode_lowercase(encoding@) != "hex"@
            && unicode_lowercase(encoding@) != "base64"@
            ==> (r matches Err(m) && m@ == "Unsupported encoding: "@ + encoding@),
{
    proof {
        reveal_strlit("utf8");
        reveal_strlit("utf-8");
        reveal_strlit("hex");
        reveal_strlit("base64");
        assert("hex"@.len() == 3 && "base64"@.len() == 6);
        assert("utf8"@.len() == 4 && "utf-8"@.len() == 5);
        assert("base64"@ != "hex"@ && "base64"@ != "utf8"@ && "base64"@ != "utf-8"@);
        assert("hex"@ != "utf8"@ && "hex"@ != "utf-8"@);
    }
    let lower = to_lowercase(encoding);
    let e = lower.as_str();
    if str_eq(e, "utf8") || str_eq(e, "utf-8") {
        match utf8_string(crate::text::bytes_vec(data)) {
            Ok(s) => Ok(s),
            Err(m) => {
                let mut msg = String::from_str("UTF-8 encoding error: ");
                msg.append(m.as_str());
                Err(msg)
            },
        }
    } else if str_eq(e, "hex") {
        Ok(spaced_hex_encode(data))
    } else if str_eq(e, "base64") {
        Ok(base64_standard_encode(data))
    } else {
        let mut msg = String::from_str("Unsupported encoding: ");
        msg.append(encoding);
        Err(msg)
    }
}

/// Decodes request data in the named encoding (case does not matter):
/// UTF-8 text as its bytes; hex with spaces ignored; base64 in the standard
/// alphabet with padding, or else URL-safe without padding.
pub fn decode_data(data: &str, encoding: &str) -> (r: Result<Vec<u8>, String>)
    ensures
        names_utf8(unicode_lowercase(encoding@)) ==> (r matches Ok(v) && v@ == encode_utf8(data@)),
        !names_utf8(unicode_lowercase(encoding@)) && unicode_lowercase(encoding@) == "hex"@ ==> {
            let digits = encode_utf8(without_spaces(data@));
            &&& (r is Ok <==> is_hex_text(digits))
            &&& (r matches Ok(v) ==> v@ == hex_text_value(digits))
            &&& (r matches Err(m) ==> "Hex decoding error: "@.is_prefix_of(m@))
        },
        !names_utf8(unicode_lowercase(encoding@)) && unicode_lowercase(encoding@) == "base64"@ ==> {
            &&& (r is Ok <==> (standard_base64_decoding(data@) is Some
                || url_safe_no_pad_base64_decoding(data@) is Some))
            &&& (r matches Ok(v) ==> v@ == match standard_base64_decoding(data@) {
                Some(d) => d,
                None => url_safe_no_pad_base64_decoding(data@)->0,
            })
            &&& (r matches Err(m) ==> "Base64 decoding error: "@.is_prefix_of(m@))
        },
        !names_utf8(unicode_lowercase(encoding@)) && unicode_lowercase(encoding@) != "hex"@
            && unicode_lowercase(encoding@) != "base64"@
            ==> (r matches Err(m) && m@ == "Unsupported encoding: "@ + encoding@),
{
    proof {
        reveal_strlit("utf8");
        reveal_strlit("utf-8");
        reveal_strlit("hex");
        reveal_strlit("base64");
        assert("hex"@.len() == 3 && "base64"@.len() == 6);
        assert("utf8"@.len() == 4 && "utf-8"@.len() == 5);
        assert("base64"@ != "hex"@ && "base64"@ != "utf8"@ && "base64"@ != "utf-8"@);
        assert("hex"@ != "utf8"@ && "hex"@ != "utf-8"@);
    }
    let lower = to_lowercase(encoding);
    let e = lower.as_str();
    if str_eq(e, "utf8") || str_eq(e, "utf-8") {
        Ok(data.as_bytes_vec())
    } else if str_eq(e, "hex") {
        let clean = remove_spaces(data);
        match hex_decode(clean.as_str()) {
            Ok(v) => Ok(v),
            Err(m) => {
                let mut msg = String::from_str("Hex decoding error: ");
                msg.append(m.as_str());
                Err(msg)
            },
        }
    } else if str_eq(e, "base64") {
        match base64_standard_decode(data) {
            Ok(v) => Ok(v),
            Err(_) => match base64_url_safe_no_pad_decode(data) {
                Ok(v) => Ok(v),
                Err(m) => {
                    let mut msg = String::from_str("Base64 decoding error: ");
                    msg.append(m.as_str());
                    Err(msg)
                },
            },
        }
    } else {
        let mut msg = String::from_str("Unsupported encoding: ");
        msg.append(encoding);
        Err(msg)
    }
}

// ---------------------------------------------------------------------------
// Open requests
// ---------------------------------------------------------------------------

/// The data bits a request names: `5`, `6`, `7` or `8`.
pub open spec fn data_bits_named(s: Seq<char>) -> Option<DataBits> {
    if s == "5"@ { Some(DataBits::Five) }
    else if s == "6"@ { Some(DataBits::Six) }
    else if s == "7"@ { Some(DataBits::Seven) }
    else if s == "8"@ { Some(DataBits::Eight) }
    else { None }
}

/// The stop bits a request names: `1` or `2`.
pub open spec fn stop_bits_named(s: Seq<char>) -> Option<StopBits> {
    if s == "1"@ { Some(StopBits::One) }
    else if s == "2"@ { Some(StopBits::Two) }
    else { None }
}

/// The parity a lower-cased name denotes.
pub open spec fn parity_named(s: Seq<char>) -> Option<Parity> {
    if s == "none"@ { Some(Parity::NoParity) }
    else if s == "odd"@ { Some(Parity::Odd) }
    else if s == "even"@ { Some(Parity::Even) }
    else { None }
}

/// The flow control a lower-cased name denotes.
pub open spec fn flow_control_named(s: Seq<char>) -> Option<FlowControl> {
    if s == "none"@ { Some(FlowControl::NoFlowControl) }
    else if s == "software"@ { Some(FlowControl::Software) }
    else if s == "hardware"@ { Some(FlowControl::Hardware) }
    else { None }
}

/// The first problem of an open request, if any.
pub open spec fn open_args_problem(a: OpenArgs) -> Option<Seq<char>> {
    if is_blank(a.port@) {
        Some("port must not be empty"@)
    } else if !(1 <= a.baud_rate <= MAX_BAUD_RATE) {
        Some("baud_rate must be between 1 and 4000000 (got "@ + decimal(a.baud_rate as nat) + ")"@)
    } else if data_bits_named(a.data_bits@) is None {
        Some("Unsupported data_bits value: "@ + a.data_bits@)
    } else if stop_bits_named(a.stop_bits@) is None {
        Some("Unsupported stop_bits value: "@ + a.stop_bits@)
    } else if parity_named(unicode_lowercase(a.parity@)) is None {
        Some("Unsupported parity value: "@ + unicode_lowercase(a.parity@))
    } else if flow_control_named(unicode_lowercase(a.flow_control@)) is None {
        Some("Unsupported flow_control value: "@ + unicode_lowercase(a.flow_control@))
    } else {
        None
    }
}

fn data_bits_of(s: &str) -> (r: Option<DataBits>)
    ensures
        r == data_bits_named(s@),
{
    if str_eq(s, "5") { Some(DataBits::Five) }
    else if str_eq(s, "6") { Some(DataBits::Six) }
    else if str_eq(s, "7") { Some(DataBits::Seven) }
    else if str_eq(s, "8") { Some(DataBits::Eight) }
    else { None }
}

fn stop_bits_of(s: &str) -> (r: Option<StopBits>)
    ensures
        r == stop_bits_named(s@),
{
    if str_eq(s, "1") { Some(StopBits::One) }
    else if str_eq(s, "2") { Some(StopBits::Two) }
    else { None }
}

/// The parity a lower-cased name denotes.
pub fn parity_of(s: &str) -> (r: Option<Parity>)
    ensures
        r == parity_named(s@),
{
    if str_eq(s, "none") { Some(Parity::NoParity) }
    else if str_eq(s, "odd") { Some(Parity::Odd) }
    else if str_eq(s, "even") { Some(Parity::Even) }
    else { None }
}

/// The flow control a lower-cased name denotes.
pub fn flow_control_of(s: &str) -> (r: Option<FlowControl>)
    ensures
        r == flow_control_named(s@),
{
    if str_eq(s, "none") { Some(FlowControl::NoFlowControl) }
    else if str_eq(s, "software") { Some(FlowControl::Software) }
    else if str_eq(s, "hardware") { Some(FlowControl::Hardware) }
    else { None }
}

fn unsupported(prefix: &str, value: &str) -> (r: String)
    ensures
        r@ == prefix@ + value@,
{
    let mut m = String::from_str(prefix);
    m.append(value);
    m
}

impl ConnectionConfig {
    /// Turns an open request into connection settings, checking the port
    /// name (not blank), the baud rate (`1..=4000000`) and the named data
    /// bits, stop bits, parity and flow control (the last two in any case).
    pub fn try_from(args: OpenArgs) -> (r: Result<ConnectionConfig, String>)
        ensures
            r is Ok <==> open_args_problem(args) is None,
            r matches Err(m) ==> Some(m@) == open_args_problem(args),
            r matches Ok(c) ==> {
                &&& c.port == args.port
                &&& c.baud_rate == args.baud_rate
                &&& Some(c.data_bits) == data_bits_named(args.data_bits@)
                &&& Some(c.stop_bits) == stop_bits_named(args.stop_bits@)
                &&& Some(c.parity) == parity_named(unicode_lowercase(args.parity@))
                &&& Some(c.flow_control) == flow_control_named(unicode_lowercase(args.flow_control@))
            },
    {
        if blank(args.port.as_str()) {
            return Err(String::from_str("port must not be empty"));
        }
        if !(1 <= args.baud_rate && args.baud_rate <= MAX_BAUD_RATE) {
            let mut m = String::from_str("baud_rate must be between 1 and 4000000 (got ");
            append_decimal(&mut m, args.baud_rate as u64);
            m.append(")");
            return Err(m);
        }
        let data_bits = match data_bits_of(args.data_bits.as_str()) {
            Some(d) => d,
            None => return Err(unsupported("Unsupported data_bits value: ", args.data_bits.as_str())),
        };
        let stop_bits = match stop_bits_of(args.stop_bits.as_str()) {
            Some(s) => s,
            None => return Err(unsupported("Unsupported stop_bits value: ", args.stop_bits.as_str())),
        };
        let parity_text = to_lowercase(args.parity.as_str());
        let parity = match parity_of(parity_text.as_str()) {
            Some(p) => p,
            None => return Err(unsupported("Unsupported parity value: ", parity_text.as_str())),
        };
        let flow_text = to_lowercase(args.flow_control.as_str());
        let flow_control = match flow_control_of(flow_text.as_str()) {
            Some(f) => f,
            None => return Err(unsupported("Unsupported flow_control value: ", flow_text.as_str())),
        };
        Ok(ConnectionConfig {
            port: args.port,
            baud_rate: args.baud_rate,
            data_bits,
            stop_bits,
            parity,
            flow_control,
        })
    }
}

} // verus!
