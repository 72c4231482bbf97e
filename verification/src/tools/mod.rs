//! The MCP tool layer: request and response types, and every check a tool
//! makes before it reaches the broker.

pub mod serial_handler;
pub mod types;
