//! Connection settings of a serial port.

use vstd::prelude::*;

verus! {

/// Number of data bits per character.
#[derive(Debug, Clone, Copy, PartialEq, Eq, Structural)]
pub enum DataBits {
    Five,
    Six,
    Seven,
    Eight,
}

/// Number of stop bits.
#[derive(Debug, Clone, Copy, PartialEq, Eq, Structural)]
pub enum StopBits {
    One,
    Two,
}

/// Parity checking mode.
#[derive(Debug, Clone, Copy, PartialEq, Eq, Structural)]
pub enum Parity {
    NoParity,
    Odd,
    Even,
}

/// Flow control mode.
#[derive(Debug, Clone, Copy, PartialEq, Eq, Structural)]
pub enum FlowControl {
    NoFlowControl,
    Software,
    Hardware,
}

/// Everything needed to open a serial port.
#[derive(Debug, Clone)]
pub struct ConnectionConfig {
    pub port: String,
    pub baud_rate: u32,
    pub data_bits: DataBits,
    pub stop_bits: StopBits,
    pub parity: Parity,
    pub flow_control: FlowControl,
}

impl ConnectionConfig {
    /// Whether two configurations use the same serial settings
    /// (everything but the port name).
    pub open spec fn same_settings(self, other: ConnectionConfig) -> bool {
        &&& self.baud_rate == other.baud_rate
        &&& self.data_bits == other.data_bits
        &&& self.stop_bits == other.stop_bits
        &&& self.parity == other.parity
        &&& self.flow_control == other.flow_control
    }
}

/// The data bits used when a request names none.
pub fn default_data_bits() -> (r: DataBits)
    ensures
        r == DataBits::Eight,
{
    DataBits::Eight
}

/// The stop bits used when a request names none.
pub fn default_stop_bits() -> (r: StopBits)
    ensures
        r == StopBits::One,
{
    StopBits::One
}

/// The parity used when a request names none.
pub fn default_parity() -> (r: Parity)
    ensures
        r == Parity::NoParity,
{
    Parity::NoParity
}

/// The flow control used when a request names none.
pub fn default_flow_control() -> (r: FlowControl)
    ensures
        r == FlowControl::NoFlowControl,
{
    FlowControl::NoFlowControl
}

/// The highest baud rate a connection accepts.
pub const MAX_BAUD_RATE: u32 = 4_000_000;

/// Checks a baud rate before a port is opened or reconfigured: it must lie
/// in `1..=4_000_000`.
pub fn check_baud_rate(baud_rate: u32) -> (r: Result<(), crate::serial::error::LocalSerialError>)
    ensures
        r is Ok <==> 1 <= baud_rate <= MAX_BAUD_RATE,
        r matches Err(e) ==> e == crate::serial::error::LocalSerialError::InvalidBaudRate(baud_rate),
{
    if baud_rate == 0 || baud_rate > MAX_BAUD_RATE {
        Err(crate::serial::error::LocalSerialError::InvalidBaudRate(baud_rate))
    } else {
        Ok(())
    }
}

/// What a request to change a connection's baud rate gets: nothing to do
/// without a new rate; a rate outside `1..=4_000_000` is refused; any other
/// rate is refused too, since an open port cannot change its settings (it
/// has to be closed and opened again).
pub fn reconfigure(new_baud_rate: Option<u32>) -> (r: Result<(), crate::serial::error::LocalSerialError>)
    ensures
        match new_baud_rate {
            None => r is Ok,
            Some(b) => if 1 <= b <= MAX_BAUD_RATE {
                r matches Err(crate::serial::error::LocalSerialError::InvalidConfig(m))
                    && m@ == "Runtime reconfiguration not supported. Please close and reopen the connection."@
            } else {
                r matches Err(crate::serial::error::LocalSerialError::InvalidBaudRate(x)) && x == b
            },
        },
{
    match new_baud_rate {
        None => Ok(()),
        Some(b) => {
            check_baud_rate(b)?;
            Err(crate::serial::error::LocalSerialError::InvalidConfig(String::from_str(
                "Runtime reconfiguration not supported. Please close and reopen the connection.",
            )))
        },
    }
}

} // verus!
