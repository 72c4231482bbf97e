//! Macro automation: the JSON macro-pack language, its validation, target
//! selection and the simulated transport.

pub mod dsl;
pub mod error;
pub mod limits;
pub mod planner;
pub mod transport;
pub mod validation;
