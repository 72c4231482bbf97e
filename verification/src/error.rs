//! Errors of the command line and of configuration handling.

use vstd::prelude::*;
use crate::serial::error::IoErrorKind;

verus! {

/// A configuration value that breaks a rule.
#[derive(Debug, Clone)]
pub enum ConfigError {
    InvalidValue { field: String, value: String },
    ValueOutOfRange { field: String, value: String, min: String, max: String },
}

/// Errors reported by the command line and the server.
#[derive(Debug, Clone)]
pub enum SerialError {
    PortNotFound(String),
    ConnectionFailed(String),
    InvalidConnection(String),
    ConnectionExists(String),
    InvalidBaudRate(u32),
    InvalidConfig(String),
    ReadTimeout,
    WriteTimeout,
    EncodingError(String),
    IoError(IoErrorKind, String),
    SerialPortError(String),
    Utf8Error(String),
    InternalError(String),
    InvalidDataBits(u8),
    InvalidStopBits(String),
    InvalidParity(String),
    InvalidFlowControl(String),
    Config(ConfigError),
}

} // verus!
