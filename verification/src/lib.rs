//! Serial port automation library: macro-pack validation, shared-broker
//! bookkeeping, capture windows, configuration checks and data encodings.

pub mod text;
pub mod serial;
pub mod broker;
pub mod encoding;
pub mod automation;
pub mod error;
pub mod config;
pub mod cli;
pub mod events;
pub mod console;
pub mod tools;
