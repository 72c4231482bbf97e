//! Errors of the serial layer.

use vstd::prelude::*;

verus! {

/// Kind of an I/O failure reported by the serial layer.
#[derive(Debug, Clone, Copy, PartialEq, Eq, Structural)]
pub enum IoErrorKind {
    /// The stream ended (a read returned zero bytes).
    UnexpectedEof,
    /// Any other I/O failure.
    Other,
}

/// Errors of a serial connection or of the shared broker protocol.
#[derive(Debug, Clone)]
pub enum LocalSerialError {
    PortNotFound(String),
    ConnectionFailed(String),
    InvalidConnection(String),
    ConnectionExists(String),
    InvalidBaudRate(u32),
    InvalidConfig(String),
    ReadTimeout,
    WriteTimeout,
    EncodingError(String),
    IoError(IoErrorKind, String),
    SerialPortError(String),
    Utf8Error(String),
}

} // verus!
