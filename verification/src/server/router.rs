//! What the HTTP routes answer, apart from the I/O that serves them.

use vstd::prelude::*;
use crate::server::app_error::AppError;

verus! {

/// The answer of the `/version` route: a counter and the version text.
#[derive(Debug)]
pub struct Version {
    pub value: i32,
    pub version: String,
}

impl Version {
    /// The answer for the counter value that Redis returned.
    pub fn with_count(value: i32) -> (v: Self)
        ensures
            v.value == value,
            v.version@ == "0.0.0"@,
    {
        proof {
            reveal_strlit("0.0.0");
        }
        Version { value, version: String::from_str("0.0.0") }
    }
}

/// The error for a served directory that does not exist.
pub fn path_missing(path: &str) -> (e: AppError)
    ensures
        e matches AppError::GenerateError(m) && m@ == "Path "@ + path@ + " does not exist"@,
{
    proof {
        reveal_strlit("Path ");
        reveal_strlit(" does not exist");
    }
    let mut m = String::from_str("Path ");
    m.append(path);
    m.append(" does not exist");
    AppError::GenerateError(m)
}

} // verus!
