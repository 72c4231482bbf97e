//! Serial-port settings, errors and the capture-window state machine.

pub mod capture;
pub mod connection;
pub mod error;
