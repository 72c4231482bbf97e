//! The macro-pack language: packs of named macros (send, delay, expect
//! steps) and assemblies that chain macros by name.

use vstd::prelude::*;
use vstd::utf8::encode_utf8;
use vstd::string::StrSliceExecFns;
use crate::automation::error::AutomationError;
use crate::encoding::{
    base64_standard_decode, base64_standard_encode, base64_url_safe_no_pad_decode, hex_decode, hex_encode,
    hex_text_value, is_hex_text, lower_hex_text, standard_base64_decoding, standard_base64_encoding,
    url_safe_no_pad_base64_decoding, utf8_string,
};
use crate::text::{remove_spaces, without_spaces};

verus! {

/// A named collection of macros and assemblies.
#[derive(Debug, Clone)]
pub struct MacroPack {
    pub schema_version: String,
    pub name: String,
    pub description: Option<String>,
    pub macros: Vec<MacroDefinition>,
    pub assemblies: Vec<AssemblyDefinition>,
}

/// A macro: a named list of steps.
#[derive(Debug, Clone)]
pub struct MacroDefinition {
    pub name: String,
    pub description: Option<String>,
    pub steps: Vec<MacroStep>,
}

/// An assembly: a named list of macro calls.
#[derive(Debug, Clone)]
pub struct AssemblyDefinition {
    pub name: String,
    pub description: Option<String>,
    pub steps: Vec<AssemblyStep>,
}

/// A step of a macro.
#[derive(Debug, Clone)]
pub enum MacroStep {
    Send(SendStep),
    Delay(DelayStep),
    Expect(ExpectStep),
}

/// A step of an assembly.
#[derive(Debug, Clone)]
pub enum AssemblyStep {
    Macro(MacroCallStep),
}

/// A call of a macro by name.
#[derive(Debug, Clone)]
pub struct MacroCallStep {
    pub name: String,
}

/// Write data to the port.
#[derive(Debug, Clone)]
pub struct SendStep {
    pub data: String,
    pub encoding: Encoding,
}

/// Wait a fixed time.
#[derive(Debug, Clone, Copy)]
pub struct DelayStep {
    pub ms: u64,
}

/// Read until the response contains or equals the expected data.
#[derive(Debug, Clone)]
pub struct ExpectStep {
    pub op: ExpectOperation,
    pub data: String,
    pub encoding: Encoding,
    pub timeout_ms: u64,
    pub idle_ms: u64,
    pub max_bytes: usize,
    pub trim: bool,
}

/// How an expect step compares the response with the expected data.
#[derive(Debug, Clone, Copy, PartialEq, Eq, Structural)]
pub enum ExpectOperation {
    Contains,
    Equals,
}

/// How a data field is written.
#[derive(Debug, Clone, Copy, PartialEq, Eq, Structural)]
pub enum Encoding {
    Utf8,
    Hex,
    Base64,
}

impl Default for Encoding {
    fn default() -> (r: Self)
        ensures
            r == Encoding::Utf8,
    {
        Encoding::Utf8
    }
}

/// The name of an encoding.
pub open spec fn encoding_name(e: Encoding) -> Seq<char> {
    match e {
        Encoding::Utf8 => "utf8"@,
        Encoding::Hex => "hex"@,
        Encoding::Base64 => "base64"@,
    }
}

/// The bytes that `text` stands for in encoding `e`, if it is valid: UTF-8
/// text stands for its UTF-8 bytes; hex text, with spaces ignored, for its
/// digit pairs; base64 text for its standard decoding, or else for its
/// URL-safe unpadded decoding.
pub open spec fn decoding_of(e: Encoding, text: Seq<char>) -> Option<Seq<u8>> {
    match e {
        Encoding::Utf8 => Some(encode_utf8(text)),
        Encoding::Hex => {
            let digits = encode_utf8(without_spaces(text));
            if is_hex_text(digits) { Some(hex_text_value(digits)) } else { None }
        },
        Encoding::Base64 => match standard_base64_decoding(text) {
            Some(v) => Some(v),
            None => url_safe_no_pad_base64_decoding(text),
        },
    }
}

/// The text that stands for `data` in encoding `e`, if there is one: UTF-8
/// needs valid UTF-8 data; hex is lower case; base64 is standard and padded.
pub open spec fn encoding_of(e: Encoding, data: Seq<u8>) -> Option<Seq<char>> {
    match e {
        Encoding::Utf8 => if vstd::utf8::valid_utf8(data) { Some(vstd::utf8::decode_utf8(data)) } else { None },
        Encoding::Hex => Some(lower_hex_text(data)),
        Encoding::Base64 => Some(standard_base64_encoding(data)),
    }
}

impl Encoding {
    /// The name of the encoding as written in a pack.
    pub fn as_str(self) -> (r: &'static str)
        ensures
            r@ == encoding_name(self),
    {
        match self {
            Encoding::Utf8 => "utf8",
            Encoding::Hex => "hex",
            Encoding::Base64 => "base64",
        }
    }

    /// Decodes the data field `field` holding `data`. Invalid data is
    /// reported as an encoding error at `field`, with the decoder's message.
    pub fn decode(self, data: &str, field: &str) -> (r: Result<Vec<u8>, AutomationError>)
        ensures
            r is Ok <==> decoding_of(self, data@) is Some,
            r matches Ok(v) ==> v@ == decoding_of(self, data@)->0,
            r matches Err(e) ==> (e matches AutomationError::Encoding { field: f, .. } && f@ == field@),
    {
        match self {
            Encoding::Utf8 => Ok(data.as_bytes_vec()),
            Encoding::Hex => {
                let clean = remove_spaces(data);
                match hex_decode(clean.as_str()) {
                    Ok(v) => Ok(v),
                    Err(m) => Err(AutomationError::encoding(String::from_str(field), m)),
                }
            },
            Encoding::Base64 => match base64_standard_decode(data) {
                Ok(v) => Ok(v),
                Err(_) => match base64_url_safe_no_pad_decode(data) {
                    Ok(v) => Ok(v),
                    Err(m) => Err(AutomationError::encoding(String::from_str(field), m)),
                },
            },
        }
    }

    /// Encodes `data` for the field `field`. Data that is not valid UTF-8
    /// cannot be written as UTF-8 and is reported as an encoding error.
    pub fn encode(self, data: &[u8], field: &str) -> (r: Result<String, AutomationError>)
        requires
            data@.len() <= usize::MAX / 2,
        ensures
            r is Ok <==> encoding_of(self, data@) is Some,
            r matches Ok(s) ==> s@ == encoding_of(self, data@)->0,
            r matches Err(e) ==> (e matches AutomationError::Encoding { field: f, .. } && f@ == field@),
    {
        match self {
            Encoding::Utf8 => match utf8_string(crate::text::bytes_vec(data)) {
                Ok(s) => Ok(s),
                Err(m) => Err(AutomationError::encoding(String::from_str(field), m)),
            },
            Encoding::Hex => Ok(hex_encode(data)),
            Encoding::Base64 => Ok(base64_standard_encode(data)),
        }
    }
}

/// Data shown to users: as text when it is valid UTF-8, else as hex.
#[derive(Debug, Clone)]
pub struct DataRecord {
    pub data: String,
    pub encoding: Encoding,
}

impl DataRecord {
    /// Records `data` as UTF-8 text when it is valid UTF-8, else as lower-case
    /// hex.
    pub fn from_bytes(data: &[u8]) -> (r: Self)
        ensures
            vstd::utf8::valid_utf8(data@) ==> r.encoding == Encoding::Utf8
                && r.data@ == vstd::utf8::decode_utf8(data@),
            !vstd::utf8::valid_utf8(data@) ==> r.encoding == Encoding::Hex
                && r.data@ == lower_hex_text(data@),
    {
        match utf8_string(crate::text::bytes_vec(data)) {
            Ok(text) => DataRecord { data: text, encoding: Encoding::Utf8 },
            Err(_) => DataRecord { data: hex_encode(data), encoding: Encoding::Hex },
        }
    }
}

/// Read timeout of an expect step that names none.
pub fn default_timeout_ms() -> (r: u64)
    ensures
        r == 1_000,
{
    1_000
}

/// Idle boundary of an expect step that names none.
pub fn default_idle_ms() -> (r: u64)
    ensures
        r == 50,
{
    50
}

/// Byte limit of an expect step that names none.
pub fn default_max_bytes() -> (r: usize)
    ensures
        r == 1_024,
{
    1_024
}

/// Data written in an encoding reads back as the same bytes: the UTF-8 text
/// of valid UTF-8 data decodes to that data, and so does its lower-case hex
/// text. (The base64 case rests on the base64 crate's round trip, which is
/// not stated here.)
pub proof fn law_encoded_data_decodes_back(e: Encoding, data: Seq<u8>)
    requires
        e != Encoding::Base64,
        encoding_of(e, data) is Some,
    ensures
        decoding_of(e, encoding_of(e, data)->0) == Some(data),
{
    match e {
        Encoding::Utf8 => {
            vstd::utf8::decode_utf8_encode_utf8(data);
        },
        Encoding::Hex => {
            crate::encoding::lemma_lower_hex_text_has_no_space(data);
            crate::encoding::lemma_lower_hex_text_reads_back(data);
        },
        Encoding::Base64 => {},
    }
}

} // verus!
