//! Errors of macro automation.

use vstd::prelude::*;

verus! {

/// Why a macro pack was refused or a macro could not run.
#[derive(Debug, Clone)]
pub enum AutomationError {
    /// A field of the pack breaks a rule of the language.
    Validation { field: String, message: String },
    /// A data field could not be decoded in its encoding.
    Encoding { field: String, message: String },
    /// The serial transport failed.
    Transport(String),
}

impl AutomationError {
    /// A validation error at `field`.
    pub fn validation(field: String, message: String) -> (r: Self)
        ensures
            r matches AutomationError::Validation { field: f, message: m } && f == field && m == message,
    {
        AutomationError::Validation { field, message }
    }

    /// An encoding error at `field`.
    pub fn encoding(field: String, message: String) -> (r: Self)
        ensures
            r matches AutomationError::Encoding { field: f, message: m } && f == field && m == message,
    {
        AutomationError::Encoding { field, message }
    }
}

} // verus!
