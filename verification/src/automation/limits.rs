//! Limits that macro steps share with the broker protocol.

use vstd::prelude::*;
use crate::broker::{max_bytes_complaint, MAX_READ_BYTES};

verus! {

/// Checks the byte limit of an expect step against the broker's read bounds
/// `1..=MAX_READ_BYTES`.
pub fn max_bytes_error(max_bytes: usize) -> (r: Option<String>)
    ensures
        r is None <==> max_bytes_complaint(max_bytes) is None,
        r matches Some(m) ==> max_bytes_complaint(max_bytes) == Some(m@),
{
    if max_bytes == 0 {
        Some(String::from_str("max_bytes must be greater than zero"))
    } else if max_bytes > MAX_READ_BYTES {
        Some(String::from_str("max_bytes must not exceed 65536"))
    } else {
        None
    }
}

} // verus!
