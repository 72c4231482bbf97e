//! Events the server, the command line and the desktop window share: what
//! an event holds and how it is built, where events go, and which part of
//! the journal a history request returns. Writing the journal and sending
//! datagrams are left to the program around the library.

use vstd::prelude::*;
use crate::encoding::{lossy_utf8_decoding, spaced_hex, spaced_lower_hex, utf8_lossy};

verus! {

/// Version of the event format.
pub const EVENT_SCHEMA_VERSION: u8 = 1;
/// Where event datagrams go unless configured otherwise.
pub const DEFAULT_EVENT_ADDRESS: &'static str = "127.0.0.1:47831";
/// Environment variable that overrides the event address.
pub const EVENT_ADDRESS_ENV: &'static str = "SERIAL_MCP_EVENT_ADDR";
/// Environment variable that overrides the journal's path.
pub const EVENT_LOG_ENV: &'static str = "SERIAL_MCP_EVENT_LOG";
/// Environment variable that names the publishing program.
pub const EVENT_SOURCE_ENV: &'static str = "SERIAL_MCP_EVENT_SOURCE";

/// Arbitrary JSON details of an event.
#[verifier::external_type_specification]
#[verifier::external_body]
pub struct ExJsonValue(serde_json::Value);

/// Who publishes events from a task: the program's name and its process.
#[derive(Debug, Clone)]
pub struct EventContext {
    pub source: String,
    pub process_id: u32,
}

/// Serial data attached to an event, as a byte count, text and hex.
#[derive(Debug, Clone, PartialEq, Eq)]
pub struct SerialEventData {
    pub bytes: usize,
    pub utf8: String,
    pub hex: String,
}

impl SerialEventData {
    /// The views of `data`: its length, its text with invalid UTF-8
    /// replaced, and its bytes as spaced lower-case hex.
    pub fn from_bytes(data: &[u8]) -> (r: Self)
        ensures
            r.bytes == data@.len(),
            r.utf8@ == lossy_utf8_decoding(data@),
            r.hex@ == spaced_hex(data@),
    {
        SerialEventData { bytes: data.len(), utf8: utf8_lossy(data), hex: spaced_lower_hex(data) }
    }
}

/// A new random event id (`uuid::Uuid::new_v4`, hyphenated). The id is
/// random; the contract states only its shape: 36 characters with hyphens
/// at positions 8, 13, 18 and 23.
#[verifier::external_body]
fn new_event_id() -> (r: String)
    ensures
        r@.len() == 36,
        r@[8] == '-' && r@[13] == '-' && r@[18] == '-' && r@[23] == '-',
{
    uuid::Uuid::new_v4().to_string()
}

/// The current time (`chrono::Utc::now`) in RFC 3339 form, as an event's
/// timestamp is written. The clock's reading is not stated.
#[verifier::external_body]
fn event_timestamp() -> (r: String)
{
    chrono::Utc::now().to_rfc3339_opts(chrono::SecondsFormat::AutoSi, true)
}

/// Empty JSON details (`{}`).
#[verifier::external_body]
fn empty_details() -> (r: serde_json::Value)
{
    serde_json::Value::Object(serde_json::Map::new())
}

/// An event of the shared stream.
#[derive(Debug)]
pub struct SerialEvent {
    pub schema_version: u8,
    pub id: String,
    /// RFC 3339 time of the event.
    pub timestamp: String,
    pub process_id: u32,
    pub source: String,
    pub event_type: String,
    pub message: String,
    pub connection_id: Option<String>,
    pub port: Option<String>,
    pub direction: Option<String>,
    pub data: Option<SerialEventData>,
    pub details: serde_json::Value,
}

impl SerialEvent {
    /// A new event of `event_type` published by `source` from process
    /// `process_id`, with a fresh id, the current time, no connection, port,
    /// direction or data, and empty details.
    pub fn new(event_type: String, message: String, source: String, process_id: u32) -> (r: Self)
        ensures
            r.schema_version == EVENT_SCHEMA_VERSION,
            r.id@.len() == 36,
            r.process_id == process_id,
            r.source == source,
            r.event_type == event_type,
            r.message == message,
            r.connection_id is None,
            r.port is None,
            r.direction is None,
            r.data is None,
    {
        SerialEvent {
            schema_version: EVENT_SCHEMA_VERSION,
            id: new_event_id(),
            timestamp: event_timestamp(),
            process_id,
            source,
            event_type,
            message,
            connection_id: None,
            port: None,
            direction: None,
            data: None,
            details: empty_details(),
        }
    }

    /// The event, about connection `connection_id`.
    pub fn connection(self, connection_id: String) -> (r: Self)
        ensures
            r == (SerialEvent { connection_id: Some(connection_id), ..self }),
    {
        SerialEvent { connection_id: Some(connection_id), ..self }
    }

    /// The event, about port `port`.
    pub fn port(self, port: String) -> (r: Self)
        ensures
            r == (SerialEvent { port: Some(port), ..self }),
    {
        SerialEvent { port: Some(port), ..self }
    }

    /// The event, with the direction of its data.
    pub fn direction(self, direction: String) -> (r: Self)
        ensures
            r == (SerialEvent { direction: Some(direction), ..self }),
    {
        SerialEvent { direction: Some(direction), ..self }
    }

    /// The event, carrying the views of `data`.
    pub fn data(self, data: &[u8]) -> (r: Self)
        ensures
            r.data matches Some(d) && d.bytes == data@.len() && d.utf8@ == lossy_utf8_decoding(data@)
                && d.hex@ == spaced_hex(data@),
            r == (SerialEvent { data: r.data, ..self }),
    {
        SerialEvent { data: Some(SerialEventData::from_bytes(data)), ..self }
    }

    /// The event, with `details`.
    pub fn details(self, details: serde_json::Value) -> (r: Self)
        ensures
            r == (SerialEvent { details, ..self }),
    {
        SerialEvent { details, ..self }
    }
}

/// The event address: the configured one, or the default.
pub fn event_address(configured: Option<String>) -> (r: String)
    ensures
        r@ == match configured {
            Some(a) => a@,
            None => DEFAULT_EVENT_ADDRESS@,
        },
{
    match configured {
        Some(a) => a,
        None => String::from_str(DEFAULT_EVENT_ADDRESS),
    }
}

/// The publishing program's name: the task's context, else the configured
/// name, else `unknown`.
pub fn event_source(context: Option<&EventContext>, configured: Option<String>) -> (r: String)
    ensures
        r@ == match context {
            Some(c) => c.source@,
            None => match configured {
                Some(s) => s@,
                None => "unknown"@,
            },
        },
{
    match context {
        Some(c) => c.source.clone(),
        None => match configured {
            Some(s) => s,
            None => String::from_str("unknown"),
        },
    }
}

/// The publishing process: the task's context, else this process.
pub fn event_process_id(context: Option<&EventContext>, own: u32) -> (r: u32)
    ensures
        r == match context {
            Some(c) => c.process_id,
            None => own,
        },
{
    match context {
        Some(c) => c.process_id,
        None => own,
    }
}

/// Where the journal lives.
#[derive(Debug, Clone)]
pub enum EventLogLocation {
    /// At the configured path.
    Configured(String),
    /// In the application directory under this per-user base directory.
    UnderBase(String),
    /// In the application directory under the system's temporary directory.
    UnderTemp,
}

/// Where the journal lives: the configured path, else under the platform's
/// per-user state directory, else under the temporary directory.
pub fn event_log_location(configured: Option<String>, state_base: Option<String>) -> (r: EventLogLocation)
    ensures
        match (configured, state_base) {
            (Some(p), _) => r matches EventLogLocation::Configured(q) && q == p,
            (None, Some(b)) => r matches EventLogLocation::UnderBase(c) && c == b,
            (None, None) => r matches EventLogLocation::UnderTemp,
        },
{
    match configured {
        Some(p) => EventLogLocation::Configured(p),
        None => match state_base {
            Some(b) => EventLogLocation::UnderBase(b),
            None => EventLogLocation::UnderTemp,
        },
    }
}

/// The events a history request returns: the last `limit` of the readable
/// events, oldest first; none for a limit of zero.
pub fn history_tail<T>(events: Vec<T>, limit: usize) -> (r: Vec<T>)
    ensures
        limit == 0 ==> r@.len() == 0,
        limit > 0 && events@.len() <= limit ==> r@ == events@,
        limit > 0 && events@.len() > limit ==> r@ == events@.skip(events@.len() - limit),
{
    if limit == 0 {
        return Vec::new();
    }
    let mut events = events;
    if events.len() > limit {
        let at = events.len() - limit;
        let tail = events.split_off(at);
        return tail;
    }
    events
}

} // verus!
