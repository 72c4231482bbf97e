//! The desktop console's decisions: the exact setting names its port dialog
//! sends, the bounds it puts on reads and history, and how transferred
//! bytes are shown. The window and its commands are not part of the
//! library.

use vstd::prelude::*;
use crate::encoding::{lossy_utf8_decoding, spaced_hex, spaced_lower_hex, utf8_lossy};
use crate::serial::connection::{ConnectionConfig, DataBits, FlowControl, Parity, StopBits};
use crate::text::str_eq;
use crate::tools::types::{data_bits_named, flow_control_named, flow_control_of, parity_named, parity_of, stop_bits_named};

verus! {

/// Bytes as lower-case hex pairs separated by spaces.
pub fn hex_view(data: &[u8]) -> (r: String)
    ensures
        r@ == spaced_hex(data@),
{
    spaced_lower_hex(data)
}

fn with_value(prefix: &str, value: &str) -> (r: String)
    ensures
        r@ == prefix@ + value@,
{
    let mut m = String::from_str(prefix);
    m.append(value);
    m
}

/// Parses the data bits the dialog sends (`5` to `8`).
pub fn parse_data_bits(value: &str) -> (r: Result<DataBits, String>)
    ensures
        match data_bits_named(value@) {
            Some(b) => r matches Ok(x) && x == b,
            None => r matches Err(m) && m@ == "Unsupported data bits: "@ + value@,
        },
{
    if str_eq(value, "5") {
        Ok(DataBits::Five)
    } else if str_eq(value, "6") {
        Ok(DataBits::Six)
    } else if str_eq(value, "7") {
        Ok(DataBits::Seven)
    } else if str_eq(value, "8") {
        Ok(DataBits::Eight)
    } else {
        Err(with_value("Unsupported data bits: ", value))
    }
}

/// Parses the stop bits the dialog sends (`1` or `2`).
pub fn parse_stop_bits(value: &str) -> (r: Result<StopBits, String>)
    ensures
        match stop_bits_named(value@) {
            Some(b) => r matches Ok(x) && x == b,
            None => r matches Err(m) && m@ == "Unsupported stop bits: "@ + value@,
        },
{
    if str_eq(value, "1") {
        Ok(StopBits::One)
    } else if str_eq(value, "2") {
        Ok(StopBits::Two)
    } else {
        Err(with_value("Unsupported stop bits: ", value))
    }
}

/// Parses the parity the dialog sends (exact lower-case name).
pub fn parse_parity(value: &str) -> (r: Result<Parity, String>)
    ensures
        match parity_named(value@) {
            Some(p) => r matches Ok(x) && x == p,
            None => r matches Err(m) && m@ == "Unsupported parity: "@ + value@,
        },
{
    match parity_of(value) {
        Some(p) => Ok(p),
        None => Err(with_value("Unsupported parity: ", value)),
    }
}

/// Parses the flow control the dialog sends (exact lower-case name).
pub fn parse_flow_control(value: &str) -> (r: Result<FlowControl, String>)
    ensures
        match flow_control_named(value@) {
            Some(f) => r matches Ok(x) && x == f,
            None => r matches Err(m) && m@ == "Unsupported flow control: "@ + value@,
        },
{
    match flow_control_of(value) {
        Some(f) => Ok(f),
        None => Err(with_value("Unsupported flow control: ", value)),
    }
}

/// The size of a console read's buffer: the request, kept within
/// `1..=65536`.
pub fn read_buffer_len(max_bytes: usize) -> (r: usize)
    ensures
        r == (if max_bytes < 1 { 1 } else if max_bytes > 65_536 { 65_536 } else { max_bytes }),
{
    if max_bytes < 1 {
        1
    } else if max_bytes > 65_536 {
        65_536
    } else {
        max_bytes
    }
}

/// The number of events a console history request reads: the request, kept
/// within `1..=5000`.
pub fn history_limit(limit: usize) -> (r: usize)
    ensures
        r == (if limit < 1 { 1 } else if limit > 5_000 { 5_000 } else { limit }),
{
    if limit < 1 {
        1
    } else if limit > 5_000 {
        5_000
    } else {
        limit
    }
}

/// Checks that a console control-line request sets at least one line.
pub fn check_control_lines(rts: Option<bool>, dtr: Option<bool>) -> (r: Result<(), String>)
    ensures
        r is Ok <==> (rts is Some || dtr is Some),
        r matches Err(m) ==> m@ == "RTS or DTR must be provided"@,
{
    if rts.is_none() && dtr.is_none() {
        Err(String::from_str("RTS or DTR must be provided"))
    } else {
        Ok(())
    }
}

/// What the console shows of transferred bytes.
#[derive(Debug, Clone)]
pub struct TransferView {
    pub bytes: usize,
    pub data: String,
    pub hex: String,
}

/// The first `count` bytes of `payload` as the console shows them: their
/// number, their text with invalid UTF-8 replaced, and their hex.
pub fn transfer_view(payload: &[u8], count: usize) -> (r: TransferView)
    requires
        count <= payload@.len(),
    ensures
        r.bytes == count,
        r.data@ == lossy_utf8_decoding(payload@.take(count as int)),
        r.hex@ == spaced_hex(payload@.take(count as int)),
{
    let mut shown: Vec<u8> = Vec::new();
    let mut i: usize = 0;
    while i < count
        invariant
            i <= count <= payload@.len(),
            shown@ == payload@.take(i as int),
        decreases count - i,
    {
        shown.push(payload[i]);
        assert(payload@.take(i + 1) == payload@.take(i as int).push(payload@[i as int]));
        i = i + 1;
    }
    TransferView { bytes: count, data: utf8_lossy(shown.as_slice()), hex: spaced_lower_hex(shown.as_slice()) }
}

/// What the console's port dialog asks to open.
#[derive(Debug, Clone)]
pub struct OpenPortRequest {
    pub port: String,
    pub baud_rate: u32,
    pub data_bits: String,
    pub stop_bits: String,
    pub parity: String,
    pub flow_control: String,
}

/// The settings a console open request names, each checked in turn (data
/// bits, stop bits, parity, flow control); the first unknown name is
/// reported.
pub fn open_request_config(request: OpenPortRequest) -> (r: Result<ConnectionConfig, String>)
    ensures
        data_bits_named(request.data_bits@) is None ==> (r matches Err(m)
            && m@ == "Unsupported data bits: "@ + request.data_bits@),
        data_bits_named(request.data_bits@) is Some && stop_bits_named(request.stop_bits@) is None
            ==> (r matches Err(m) && m@ == "Unsupported stop bits: "@ + request.stop_bits@),
        data_bits_named(request.data_bits@) is Some && stop_bits_named(request.stop_bits@) is Some
            && parity_named(request.parity@) is None
            ==> (r matches Err(m) && m@ == "Unsupported parity: "@ + request.parity@),
        data_bits_named(request.data_bits@) is Some && stop_bits_named(request.stop_bits@) is Some
            && parity_named(request.parity@) is Some && flow_control_named(request.flow_control@) is None
            ==> (r matches Err(m) && m@ == "Unsupported flow control: "@ + request.flow_control@),
        r matches Ok(c) ==> {
            &&& c.port == request.port
            &&& c.baud_rate == request.baud_rate
            &&& Some(c.data_bits) == data_bits_named(request.data_bits@)
            &&& Some(c.stop_bits) == stop_bits_named(request.stop_bits@)
            &&& Some(c.parity) == parity_named(request.parity@)
            &&& Some(c.flow_control) == flow_control_named(request.flow_control@)
        },
        (data_bits_named(request.data_bits@) is Some && stop_bits_named(request.stop_bits@) is Some
            && parity_named(request.parity@) is Some && flow_control_named(request.flow_control@) is Some)
            ==> r is Ok,
{
    let data_bits = parse_data_bits(request.data_bits.as_str())?;
    let stop_bits = parse_stop_bits(request.stop_bits.as_str())?;
    let parity = parse_parity(request.parity.as_str())?;
    let flow_control = parse_flow_control(request.flow_control.as_str())?;
    Ok(ConnectionConfig {
        port: request.port,
        baud_rate: request.baud_rate,
        data_bits,
        stop_bits,
        parity,
        flow_control,
    })
}

} // verus!
