//! What the serial tools check and answer before and after they reach the
//! broker: request payloads, read sizes and capture windows, and the text of
//! their replies. The protocol plumbing that carries them lives outside the
//! library.

use vstd::prelude::*;
use vstd::utf8::{decode_utf8, encode_utf8, valid_utf8};
use vstd::string::StrSliceExecFns;
use crate::broker::{max_bytes_complaint, max_bytes_error};
use crate::encoding::{
    lemma_lower_hex_digit, lemma_lower_hex_text_reads_back, lemma_spaced_hex_shape, lower_hex_digit, lower_hex_text,
    base64_standard_decode, base64_standard_encode, hex_digit_value, hex_text_value, spaced_hex,
    spaced_lower_hex, standard_base64_decoding, standard_base64_encoding, utf8_string,
};
use crate::serial::capture::{capture_config_problem, law_read_step_is_bounded, step_at, CaptureConfig, CaptureReport, CaptureStep};
use crate::serial::error::LocalSerialError;
use crate::tools::types::{open_args_problem, data_bits_named, flow_control_named, parity_named, stop_bits_named, OpenArgs, PortInfo, ReadArgs, ReadResponse};
use crate::serial::connection::ConnectionConfig;
use crate::encoding::unicode_lowercase;
use crate::text::{trim_back, trim_front, append_decimal, bytes_vec, decimal, remove_spaces, str_eq, trim, trimmed, without_spaces};

verus! {

/// How a tool call fails: the request itself is wrong, or carrying it out
/// failed.
#[derive(Debug, Clone)]
pub enum ToolError {
    InvalidParams(String),
    Internal(String),
}

/// Whether a payload encoding name is one the tools accept (exact match).
pub open spec fn is_tool_encoding(e: Seq<char>) -> bool {
    e == "utf8"@ || e == "utf-8"@ || e == "hex"@ || e == "base64"@
}

/// Checks a read size against `1..=MAX_READ_BYTES`.
pub fn validate_max_bytes(max_bytes: usize) -> (r: Result<(), ToolError>)
    ensures
        r is Ok <==> max_bytes_complaint(max_bytes) is None,
        r matches Err(e) ==> (e matches ToolError::InvalidParams(m)
            && max_bytes_complaint(max_bytes) == Some(m@)),
{
    match max_bytes_error(max_bytes) {
        None => Ok(()),
        Some(m) => Err(ToolError::InvalidParams(String::from_str(m))),
    }
}

/// Checks an open request before any hardware is touched: a bad setting is
/// an invalid-params error carrying the complaint of `open_args_problem`;
/// otherwise the connection settings it names.
pub fn open_request_config(args: OpenArgs) -> (r: Result<ConnectionConfig, ToolError>)
    ensures
        r is Ok <==> open_args_problem(args) is None,
        r matches Err(e) ==> (e matches ToolError::InvalidParams(m) && Some(m@) == open_args_problem(args)),
        r matches Ok(c) ==> {
            &&& c.port == args.port
            &&& c.baud_rate == args.baud_rate
            &&& Some(c.data_bits) == data_bits_named(args.data_bits@)
            &&& Some(c.stop_bits) == stop_bits_named(args.stop_bits@)
            &&& Some(c.parity) == parity_named(unicode_lowercase(args.parity@))
            &&& Some(c.flow_control) == flow_control_named(unicode_lowercase(args.flow_control@))
        },
{
    match ConnectionConfig::try_from(args) {
        Ok(c) => Ok(c),
        Err(m) => Err(ToolError::InvalidParams(m)),
    }
}

/// Checks that a read names an encoding the tools can produce.
pub fn validate_encoding(encoding: &str) -> (r: Result<(), ToolError>)
    ensures
        r is Ok <==> is_tool_encoding(encoding@),
        r matches Err(e) ==> (e matches ToolError::InvalidParams(m)
            && m@ == "Unsupported encoding: "@ + encoding@),
{
    if str_eq(encoding, "utf8") || str_eq(encoding, "utf-8") || str_eq(encoding, "hex")
        || str_eq(encoding, "base64") {
        Ok(())
    } else {
        let mut m = String::from_str("Unsupported encoding: ");
        m.append(encoding);
        Err(ToolError::InvalidParams(m))
    }
}

// ---------------------------------------------------------------------------
// Hex payloads
// ---------------------------------------------------------------------------

/// The position of the first byte at or after `i` that is not a hex digit.
pub open spec fn first_non_hex_from(b: Seq<u8>, i: nat) -> Option<nat>
    decreases b.len() - i,
{
    if i >= b.len() {
        None
    } else if hex_digit_value(b[i as int]) is None {
        Some(i)
    } else {
        first_non_hex_from(b, i + 1)
    }
}

/// The position of the first byte that is not a hex digit.
pub open spec fn first_non_hex(b: Seq<u8>) -> Option<nat> {
    first_non_hex_from(b, 0)
}

/// `first_non_hex_from` finds the first offending byte, and none where
/// every byte from `i` on is a digit.
pub proof fn lemma_first_non_hex_from(b: Seq<u8>, i: nat)
    ensures
        match first_non_hex_from(b, i) {
            Some(p) => i <= p < b.len() && hex_digit_value(b[p as int]) is None
                && forall|j: int| i <= j < p ==> #[trigger] hex_digit_value(b[j]) is Some,
            None => forall|j: int| i <= j < b.len() ==> #[trigger] hex_digit_value(b[j]) is Some,
        },
    decreases b.len() - i,
{
    if i < b.len() && hex_digit_value(b[i as int]) is Some {
        lemma_first_non_hex_from(b, i + 1);
    }
}

/// The bytes of a hex payload once surrounding whitespace and every space
/// are removed.
pub open spec fn hex_payload_bytes(data: Seq<char>) -> Seq<u8> {
    encode_utf8(without_spaces(trimmed(data)))
}

/// What a hex payload decodes to, or the complaint about it.
pub open spec fn hex_payload(data: Seq<char>) -> Result<Seq<u8>, Seq<char>> {
    let b = hex_payload_bytes(data);
    if b.len() % 2 != 0 {
        Err("Hex string must have even length"@)
    } else {
        match first_non_hex(b) {
            Some(p) => Err("Invalid hex character at position "@ + decimal(p)),
            None => Ok(hex_text_value(b)),
        }
    }
}

/// What a hex read shows reads back as the same bytes: the spaced hex text
/// that `encode_data` produces for `hex` decodes, as a `hex` payload, to
/// exactly the bytes it was made from.
pub proof fn law_hex_reply_round_trips(data: Seq<u8>)
    ensures
        hex_payload(spaced_hex(data)) == Ok::<Seq<u8>, Seq<char>>(data),
{
    let s = spaced_hex(data);
    lemma_spaced_hex_shape(data);
    if data.len() > 0 {
        lemma_lower_hex_digit(data[0] / 16);
        lemma_lower_hex_digit(data.last() % 16);
    }
    assert(trim_front(s) == s);
    assert(trim_back(s) == s);
    assert(trimmed(s) == s);
    lemma_lower_hex_text_reads_back(data);
    let b = encode_utf8(lower_hex_text(data));
    assert(b == hex_payload_bytes(s));
    lemma_first_non_hex_from(b, 0);
    if first_non_hex(b) is Some {
        let p = first_non_hex(b)->0;
        assert(hex_digit_value(b[p as int]) is Some);
    }
}

/// The value of one hex digit byte, if it is one.
fn hex_digit(b: u8) -> (r: Option<u8>)
    ensures
        r == hex_digit_value(b),
{
    if 0x30 <= b && b <= 0x39 {
        Some(b - 0x30)
    } else if 0x41 <= b && b <= 0x46 {
        Some(b - 0x41 + 10)
    } else if 0x61 <= b && b <= 0x66 {
        Some(b - 0x61 + 10)
    } else {
        None
    }
}

/// Decodes a hex payload: surrounding whitespace and spaces are ignored, the
/// digits must come in pairs, and the first byte that is not a digit is
/// reported by its position.
pub fn decode_hex_payload(data: &str) -> (r: Result<Vec<u8>, String>)
    ensures
        match hex_payload(data@) {
            Ok(v) => r matches Ok(w) && w@ == v,
            Err(m) => r matches Err(n) && n@ == m,
        },
{
    let trimmed_text = trim(data);
    let clean = remove_spaces(trimmed_text.as_str());
    let b = clean.as_str().as_bytes_vec();
    let ghost bs = hex_payload_bytes(data@);
    assert(b@ == bs);
    if b.len() % 2 != 0 {
        return Err(String::from_str("Hex string must have even length"));
    }
    let mut i: usize = 0;
    while i < b.len()
        invariant
            b@ == bs,
            bs.len() % 2 == 0,
            bs == hex_payload_bytes(data@),
            i <= b.len(),
            first_non_hex_from(bs, 0) == first_non_hex_from(bs, i as nat),
        decreases b.len() - i,
    {
        if hex_digit(b[i]).is_none() {
            assert(first_non_hex_from(bs, i as nat) == Some(i as nat));
            let mut m = String::from_str("Invalid hex character at position ");
            append_decimal(&mut m, i as u64);
            return Err(m);
        }
        i = i + 1;
    }
    proof {
        lemma_first_non_hex_from(bs, 0);
    }
    let mut out: Vec<u8> = Vec::new();
    let mut k: usize = 0;
    while k < b.len() / 2
        invariant
            b@ == bs,
            bs.len() % 2 == 0,
            k <= bs.len() / 2,
            forall|j: int| 0 <= j < bs.len() ==> #[trigger] hex_digit_value(bs[j]) is Some,
            out@ == hex_text_value(bs).take(k as int),
        decreases b.len() / 2 - k,
    {
        let hi = hex_digit(b[2 * k]).unwrap();
        let lo = hex_digit(b[2 * k + 1]).unwrap();
        assert(hi < 16 && lo < 16);
        out.push(hi * 16 + lo);
        assert(hex_text_value(bs).take(k + 1) == hex_text_value(bs).take(k as int).push(hex_text_value(bs)[k as int]));
        k = k + 1;
    }
    assert(hex_text_value(bs).take(k as int) == hex_text_value(bs));
    Ok(out)
}

/// Decodes a request payload in the named encoding (exact name): UTF-8
/// text as its bytes; hex as `decode_hex_payload` reads it; base64 in the
/// standard alphabet, once surrounding whitespace is trimmed.
pub fn decode_data(data: &str, encoding: &str) -> (r: Result<Vec<u8>, String>)
    ensures
        encoding@ == "utf8"@ || encoding@ == "utf-8"@ ==> (r matches Ok(v) && v@ == encode_utf8(data@)),
        encoding@ == "hex"@ ==> match hex_payload(data@) {
            Ok(v) => r matches Ok(w) && w@ == v,
            Err(m) => r matches Err(n) && n@ == m,
        },
        encoding@ == "base64"@ ==> {
            &&& (r is Ok <==> standard_base64_decoding(trimmed(data@)) is Some)
            &&& (r matches Ok(v) ==> v@ == standard_base64_decoding(trimmed(data@))->0)
            &&& (r matches Err(m) ==> "Invalid base64: "@.is_prefix_of(m@))
        },
        !is_tool_encoding(encoding@) ==> (r matches Err(m) && m@ == "Unsupported encoding: "@ + encoding@),
{
    proof {
        reveal_strlit("utf8");
        reveal_strlit("utf-8");
        reveal_strlit("hex");
        reveal_strlit("base64");
        assert("hex"@.len() == 3 && "base64"@.len() == 6);
        assert("utf8"@.len() == 4 && "utf-8"@.len() == 5);
        assert("base64"@ != "hex"@ && "base64"@ != "utf8"@ && "base64"@ != "utf-8"@);
        assert("hex"@ != "utf8"@ && "hex"@ != "utf-8"@);
    }
    if str_eq(encoding, "utf8") || str_eq(encoding, "utf-8") {
        Ok(data.as_bytes_vec())
    } else if str_eq(encoding, "hex") {
        decode_hex_payload(data)
    } else if str_eq(encoding, "base64") {
        let t = trim(data);
        match base64_standard_decode(t.as_str()) {
            Ok(v) => Ok(v),
            Err(e) => {
                let mut m = String::from_str("Invalid base64: ");
                m.append(e.as_str());
                Err(m)
            },
        }
    } else {
        let mut m = String::from_str("Unsupported encoding: ");
        m.append(encoding);
        Err(m)
    }
}

/// Encodes read data in the named encoding (exact name): UTF-8 text,
/// lower-case hex pairs separated by spaces, or standard base64.
pub fn encode_data(data: &[u8], encoding: &str) -> (r: Result<String, String>)
    requires
        data@.len() <= usize::MAX / 2,
    ensures
        encoding@ == "utf8"@ || encoding@ == "utf-8"@ ==> {
            &&& (r is Ok <==> valid_utf8(data@))
            &&& (r matches Ok(s) ==> s@ == decode_utf8(data@))
            &&& (r matches Err(m) ==> "Invalid UTF-8: "@.is_prefix_of(m@))
        },
        encoding@ == "hex"@ ==> (r matches Ok(s) && s@ == spaced_hex(data@)),
        encoding@ == "base64"@ ==> (r matches Ok(s) && s@ == standard_base64_encoding(data@)),
        !is_tool_encoding(encoding@) ==> (r matches Err(m) && m@ == "Unsupported encoding: "@ + encoding@),
{
    proof {
        reveal_strlit("utf8");
        reveal_strlit("utf-8");
        reveal_strlit("hex");
        reveal_strlit("base64");
        assert("hex"@.len() == 3 && "base64"@.len() == 6);
        assert("utf8"@.len() == 4 && "utf-8"@.len() == 5);
        assert("base64"@ != "hex"@ && "base64"@ != "utf8"@ && "base64"@ != "utf-8"@);
        assert("hex"@ != "utf8"@ && "hex"@ != "utf-8"@);
    }
    if str_eq(encoding, "utf8") || str_eq(encoding, "utf-8") {
        match utf8_string(bytes_vec(data)) {
            Ok(s) => Ok(s),
            Err(e) => {
                let mut m = String::from_str("Invalid UTF-8: ");
                m.append(e.as_str());
                Err(m)
            },
        }
    } else if str_eq(encoding, "hex") {
        Ok(spaced_lower_hex(data))
    } else if str_eq(encoding, "base64") {
        Ok(base64_standard_encode(data))
    } else {
        let mut m = String::from_str("Unsupported encoding: ");
        m.append(encoding);
        Err(m)
    }
}

// ---------------------------------------------------------------------------
// Reads
// ---------------------------------------------------------------------------

/// A read request that passed its checks: how long a single read may wait,
/// and the capture window, where one was asked for.
#[derive(Debug, Clone, Copy)]
pub struct ReadPlan {
    pub timeout_ms: u64,
    pub capture: Option<CaptureConfig>,
}

/// The capture window a read request asks for, with the read timeout it
/// ends up with.
pub open spec fn requested_capture(args: ReadArgs, timeout_ms: u64) -> Option<CaptureConfig> {
    match args.duration_ms {
        Some(d) => Some(CaptureConfig {
            timeout_ms,
            max_bytes: args.max_bytes,
            duration_ms: d,
            start_trigger: args.start_trigger,
            initial_timeout_ms: args.initial_timeout_ms,
            idle_timeout_ms: args.idle_timeout_ms,
        }),
        None => None,
    }
}

/// The first complaint about a read request, checked in this order: the
/// encoding, the size, then the capture window.
pub open spec fn read_problem(args: ReadArgs, timeout_ms: u64) -> Option<Seq<char>> {
    if !is_tool_encoding(args.encoding@) {
        Some("Unsupported encoding: "@ + args.encoding@)
    } else if max_bytes_complaint(args.max_bytes) is Some {
        max_bytes_complaint(args.max_bytes)
    } else {
        match requested_capture(args, timeout_ms) {
            Some(c) => match capture_config_problem(c) {
                Some(m) => Some("Invalid configuration: "@ + m),
                None => None,
            },
            None => None,
        }
    }
}

/// Checks a read request before any connection is looked up. The read
/// timeout is the requested one, or `default_timeout_ms`.
pub fn plan_read(args: &ReadArgs, default_timeout_ms: u64) -> (r: Result<ReadPlan, ToolError>)
    ensures
        ({
            let t = match args.timeout_ms {
                Some(t) => t,
                None => default_timeout_ms,
            };
            match read_problem(*args, t) {
                Some(m) => r matches Err(ToolError::InvalidParams(n)) && n@ == m,
                None => r matches Ok(p) && p.timeout_ms == t && p.capture == requested_capture(*args, t),
            }
        }),
{
    validate_encoding(args.encoding.as_str())?;
    validate_max_bytes(args.max_bytes)?;
    let timeout_ms = match args.timeout_ms {
        Some(t) => t,
        None => default_timeout_ms,
    };
    let capture = match args.duration_ms {
        Some(duration_ms) => Some(CaptureConfig {
            timeout_ms,
            max_bytes: args.max_bytes,
            duration_ms,
            start_trigger: args.start_trigger,
            initial_timeout_ms: args.initial_timeout_ms,
            idle_timeout_ms: args.idle_timeout_ms,
        }),
        None => None,
    };
    if let Some(config) = capture {
        match config.validate() {
            Ok(()) => {},
            Err(LocalSerialError::InvalidConfig(m)) => {
                let mut msg = String::from_str("Invalid configuration: ");
                msg.append(m.as_str());
                return Err(ToolError::InvalidParams(msg));
            },
            Err(_) => {
                proof {
                    assert(false);
                }
                return Err(ToolError::Internal(String::new()));
            },
        }
    }
    Ok(ReadPlan { timeout_ms, capture })
}

/// A capture window that a read request passed its checks with never asks
/// the broker for a read it refuses: every read step of the window asks for
/// between one and `MAX_READ_BYTES` bytes and waits a positive time no
/// longer than the read timeout.
pub proof fn law_planned_capture_reads_stay_in_bounds(
    args: ReadArgs,
    timeout_ms: u64,
    len: usize,
    started: Option<u64>,
    last: Option<u64>,
    now: u64,
)
    requires
        read_problem(args, timeout_ms) is None,
        requested_capture(args, timeout_ms) is Some,
        len <= args.max_bytes,
    ensures
        ({
            let c = requested_capture(args, timeout_ms)->0;
            step_at(c, len, started, last, now) matches CaptureStep::Read { timeout_ms: t, max_len }
                ==> max_bytes_complaint(max_len) is None && 1 <= t <= timeout_ms
        }),
{
    let c = requested_capture(args, timeout_ms)->0;
    law_read_step_is_bounded(c, len, started, last, now);
}

// ---------------------------------------------------------------------------
// Replies
// ---------------------------------------------------------------------------

/// The Rust debug rendering of a string: quoted, with special characters
/// escaped.
pub uninterp spec fn debug_quoted(s: Seq<char>) -> Seq<char>;

/// Renders a string as `{:?}` does.
#[verifier::external_body]
fn quoted(s: &str) -> (r: String)
    ensures
        r@ == debug_quoted(s@),
{
    format!("{:?}", s)
}

/// `high` or `low` for a control line level.
pub open spec fn level_name(level: bool) -> Seq<char> {
    if level { "high"@ } else { "low"@ }
}

/// The reply to a missing connection.
pub open spec fn missing_connection_text(id: Seq<char>) -> Seq<char> {
    "Error: Connection ID "@ + id + " not found"@
}

/// The failure of a tool that names a connection the broker does not know.
pub fn missing_connection(connection_id: &str) -> (r: ToolError)
    ensures
        r matches ToolError::Internal(m) && m@ == missing_connection_text(connection_id@),
{
    let mut m = String::from_str("Error: Connection ID ");
    m.append(connection_id);
    m.append(" not found");
    ToolError::Internal(m)
}

/// The reply to a control-line update.
pub open spec fn control_lines_text(id: Seq<char>, rts: Option<bool>, dtr: Option<bool>) -> Seq<char> {
    "Control lines updated\nConnection ID: "@ + id
        + match rts { Some(l) => "\nRTS: "@ + level_name(l), None => Seq::empty() }
        + match dtr { Some(l) => "\nDTR: "@ + level_name(l), None => Seq::empty() }
}

/// Checks that a control-line request changes at least one line.
pub fn check_line_update(rts: Option<bool>, dtr: Option<bool>) -> (r: Result<(), ToolError>)
    ensures
        r is Ok <==> (rts is Some || dtr is Some),
        r matches Err(e) ==> (e matches ToolError::InvalidParams(m)
            && m@ == "At least one of 'rts' or 'dtr' must be specified"@),
{
    if rts.is_none() && dtr.is_none() {
        Err(ToolError::InvalidParams(String::from_str("At least one of 'rts' or 'dtr' must be specified")))
    } else {
        Ok(())
    }
}

fn append_level(m: &mut String, label: &str, level: Option<bool>)
    ensures
        final(m)@ == old(m)@ + match level {
            Some(l) => label@ + level_name(l),
            None => Seq::empty(),
        },
{
    match level {
        Some(l) => {
            m.append(label);
            if l {
                m.append("high");
            } else {
                m.append("low");
            }
        },
        None => {
            assert(old(m)@ + Seq::<char>::empty() == old(m)@);
        },
    }
}

/// The reply to a control-line update: the connection, then each line that
/// was set.
pub fn control_lines_message(connection_id: &str, rts: Option<bool>, dtr: Option<bool>) -> (r: String)
    ensures
        r@ == control_lines_text(connection_id@, rts, dtr),
{
    let mut m = String::from_str("Control lines updated\nConnection ID: ");
    m.append(connection_id);
    append_level(&mut m, "\nRTS: ", rts);
    append_level(&mut m, "\nDTR: ", dtr);
    m
}

/// One line of the port list.
pub open spec fn port_line(p: PortInfo) -> Seq<char> {
    match p.hardware_id {
        Some(h) => "- "@ + p.name@ + ": "@ + p.description@ + " ("@ + h@ + ")"@,
        None => "- "@ + p.name@ + ": "@ + p.description@,
    }
}

/// The lines of the port list, separated by line breaks.
pub open spec fn port_lines(ps: Seq<PortInfo>) -> Seq<char>
    decreases ps.len(),
{
    if ps.len() == 0 {
        Seq::empty()
    } else if ps.len() == 1 {
        port_line(ps[0])
    } else {
        port_lines(ps.drop_last()) + "\n"@ + port_line(ps.last())
    }
}

/// The reply to `list_ports`.
pub open spec fn ports_text(ps: Seq<PortInfo>) -> Seq<char> {
    if ps.len() == 0 {
        "No serial ports found on the system"@
    } else {
        "Found "@ + decimal(ps.len()) + " serial ports:\n"@ + port_lines(ps)
    }
}

fn append_port_line(m: &mut String, p: &PortInfo)
    ensures
        final(m)@ == old(m)@ + port_line(*p),
{
    m.append("- ");
    m.append(p.name.as_str());
    m.append(": ");
    m.append(p.description.as_str());
    match &p.hardware_id {
        Some(h) => {
            m.append(" (");
            m.append(h.as_str());
            m.append(")");
        },
        None => {},
    }
}

/// The reply to `list_ports`: how many ports there are, one line each.
pub fn ports_message(ports: &Vec<PortInfo>) -> (r: String)
    ensures
        r@ == ports_text(ports@),
{
    if ports.len() == 0 {
        return String::from_str("No serial ports found on the system");
    }
    let mut lines = String::new();
    append_port_line(&mut lines, &ports[0]);
    assert(ports@.take(1).drop_last() == Seq::<PortInfo>::empty());
    assert(port_lines(ports@.take(1)) == port_line(ports@[0]));
    let mut i: usize = 1;
    while i < ports.len()
        invariant
            1 <= i <= ports.len(),
            lines@ == port_lines(ports@.take(i as int)),
        decreases ports.len() - i,
    {
        lines.append("\n");
        append_port_line(&mut lines, &ports[i]);
        assert(ports@.take(i + 1).drop_last() == ports@.take(i as int));
        i = i + 1;
    }
    assert(ports@.take(ports.len() as int) == ports@);
    let mut m = String::from_str("Found ");
    append_decimal(&mut m, ports.len() as u64);
    m.append(" serial ports:\n");
    m.append(lines.as_str());
    m
}

/// The reply to a successful `open`.
pub fn opened_message(connection_id: &str, port: &str, baud_rate: u32) -> (r: String)
    ensures
        r@ == "Serial connection opened\nConnection ID: "@ + connection_id@ + "\nPort: "@ + port@
            + "\nBaud rate: "@ + decimal(baud_rate as nat),
{
    let mut m = String::from_str("Serial connection opened\nConnection ID: ");
    m.append(connection_id);
    m.append("\nPort: ");
    m.append(port);
    m.append("\nBaud rate: ");
    append_decimal(&mut m, baud_rate as u64);
    m
}

/// The reply to a successful `close`.
pub fn closed_message(connection_id: &str) -> (r: String)
    ensures
        r@ == "Serial connection closed\nConnection ID: "@ + connection_id@,
{
    let mut m = String::from_str("Serial connection closed\nConnection ID: ");
    m.append(connection_id);
    m
}

/// The reply to a successful `write`; the payload is shown as given, quoted.
pub fn written_message(connection_id: &str, bytes_written: usize, data: &str) -> (r: String)
    ensures
        r@ == "Data sent successfully\nConnection ID: "@ + connection_id@ + "\nBytes written: "@
            + decimal(bytes_written as nat) + "\nData: "@ + debug_quoted(data@),
{
    let mut m = String::from_str("Data sent successfully\nConnection ID: ");
    m.append(connection_id);
    m.append("\nBytes written: ");
    append_decimal(&mut m, bytes_written as u64);
    m.append("\nData: ");
    let q = quoted(data);
    m.append(q.as_str());
    m
}

/// The reply to a read that returned nothing before its timeout.
pub fn read_timeout_message(connection_id: &str, timeout_ms: u64) -> (r: String)
    ensures
        r@ == "Read timeout\nConnection ID: "@ + connection_id@ + "\nTimeout: "@ + decimal(timeout_ms as nat)
            + "ms\nBytes read: 0"@,
{
    let mut m = String::from_str("Read timeout\nConnection ID: ");
    m.append(connection_id);
    m.append("\nTimeout: ");
    append_decimal(&mut m, timeout_ms);
    m.append("ms\nBytes read: 0");
    m
}

/// The reply to a plain read: the encoded data, or the timeout reply when
/// nothing arrived.
pub fn read_message(connection_id: &str, bytes_read: usize, encoded: &str, timeout_ms: u64) -> (r: String)
    ensures
        bytes_read > 0 ==> r@ == "Data read successfully\nConnection ID: "@ + connection_id@
            + "\nBytes read: "@ + decimal(bytes_read as nat) + "\nData: "@ + debug_quoted(encoded@),
        bytes_read == 0 ==> r@ == "Read timeout\nConnection ID: "@ + connection_id@ + "\nTimeout: "@
            + decimal(timeout_ms as nat) + "ms\nBytes read: 0"@,
{
    if bytes_read > 0 {
        let mut m = String::from_str("Data read successfully\nConnection ID: ");
        m.append(connection_id);
        m.append("\nBytes read: ");
        append_decimal(&mut m, bytes_read as u64);
        m.append("\nData: ");
        let q = quoted(encoded);
        m.append(q.as_str());
        m
    } else {
        read_timeout_message(connection_id, timeout_ms)
    }
}

/// The response to a capture: what was captured, in the requested
/// encoding, with the window's parameters and outcome.
pub fn capture_response(
    connection_id: String,
    encoding: String,
    config: &CaptureConfig,
    report: CaptureReport,
    encoded: String,
) -> (r: ReadResponse)
    ensures
        r.connection_id == connection_id,
        r.encoding == encoding,
        r.data == encoded,
        r.bytes_read == report.data@.len(),
        r.status@ == (if report.data@.len() > 0 { "ok"@ } else { "timeout"@ }),
        r.timeout_ms == Some(config.timeout_ms),
        r.duration_ms == Some(config.duration_ms),
        r.start_trigger == Some(config.start_trigger),
        r.initial_timeout_ms == config.initial_timeout_ms,
        r.idle_timeout_ms == config.idle_timeout_ms,
        r.waited_ms == Some(report.waited_ms),
        r.elapsed_ms == Some(report.elapsed_ms),
        r.completion_reason == Some(report.completion_reason),
        r.chunks matches Some(c) && c@ == report.chunks@,
{
    let bytes_read = report.bytes_read();
    let status = if bytes_read > 0 { String::from_str("ok") } else { String::from_str("timeout") };
    ReadResponse {
        connection_id,
        bytes_read,
        data: encoded,
        encoding,
        status,
        timeout_ms: Some(config.timeout_ms),
        duration_ms: Some(config.duration_ms),
        start_trigger: Some(config.start_trigger),
        initial_timeout_ms: config.initial_timeout_ms,
        idle_timeout_ms: config.idle_timeout_ms,
        waited_ms: Some(report.waited_ms),
        elapsed_ms: Some(report.elapsed_ms),
        completion_reason: Some(report.completion_reason),
        chunks: Some(report.chunks),
    }
}

// ---------------------------------------------------------------------------
// Macro packs
// ---------------------------------------------------------------------------

/// Where a macro pack is read from.
#[derive(Debug, Clone)]
pub enum PackSource {
    /// JSON text given with the request.
    Inline(String),
    /// A file to read.
    File(String),
}

/// Where a plan's pack comes from.
#[derive(Debug, Clone)]
pub enum PlanSource {
    /// A pack already loaded, by id.
    Loaded(String),
    /// JSON text given with the request.
    Inline(String),
    /// A file to read.
    File(String),
}

/// The pack a `macro_load` request names: exactly one of inline JSON or a
/// path.
pub fn macro_pack_source(pack_json: Option<String>, path: Option<String>) -> (r: Result<PackSource, ToolError>)
    ensures
        match (pack_json, path) {
            (Some(j), None) => r matches Ok(PackSource::Inline(k)) && k == j,
            (None, Some(p)) => r matches Ok(PackSource::File(q)) && q == p,
            _ => r matches Err(ToolError::Internal(m))
                && m@ == "Specify exactly one of pack_json or path for macro_load"@,
        },
{
    match (pack_json, path) {
        (Some(j), None) => Ok(PackSource::Inline(j)),
        (None, Some(p)) => Ok(PackSource::File(p)),
        _ => Err(ToolError::Internal(String::from_str("Specify exactly one of pack_json or path for macro_load"))),
    }
}

/// The pack a `macro_plan` request names: exactly one of a loaded pack's id,
/// inline JSON or a path.
pub fn macro_plan_source(
    pack_id: Option<String>,
    pack_json: Option<String>,
    path: Option<String>,
) -> (r: Result<PlanSource, ToolError>)
    ensures
        match (pack_id, pack_json, path) {
            (Some(i), None, None) => r matches Ok(PlanSource::Loaded(k)) && k == i,
            (None, Some(j), None) => r matches Ok(PlanSource::Inline(k)) && k == j,
            (None, None, Some(p)) => r matches Ok(PlanSource::File(q)) && q == p,
            _ => r matches Err(ToolError::Internal(m))
                && m@ == "Specify exactly one of pack_id, pack_json, or path for macro_plan"@,
        },
{
    match (pack_id, pack_json, path) {
        (Some(i), None, None) => Ok(PlanSource::Loaded(i)),
        (None, Some(j), None) => Ok(PlanSource::Inline(j)),
        (None, None, Some(p)) => Ok(PlanSource::File(p)),
        _ => Err(ToolError::Internal(String::from_str(
            "Specify exactly one of pack_id, pack_json, or path for macro_plan",
        ))),
    }
}

/// The reads a simulated run replays: the UTF-8 bytes of each given chunk,
/// in order.
pub fn simulation_reads(reads: &Vec<String>) -> (r: Vec<Vec<u8>>)
    ensures
        r@.len() == reads@.len(),
        forall|i: int| 0 <= i < reads@.len() ==> #[trigger] r@[i]@ == encode_utf8(reads@[i]@),
{
    let mut out: Vec<Vec<u8>> = Vec::new();
    let mut i: usize = 0;
    while i < reads.len()
        invariant
            i <= reads.len(),
            out@.len() == i,
            forall|j: int| 0 <= j < i ==> #[trigger] out@[j]@ == encode_utf8(reads@[j]@),
        decreases reads.len() - i,
    {
        out.push(reads[i].as_str().as_bytes_vec());
        i = i + 1;
    }
    out
}

} // verus!
