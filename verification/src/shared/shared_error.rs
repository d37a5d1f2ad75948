//! Errors that both sides can report.

use vstd::prelude::*;

verus! {

#[derive(Debug)]
pub enum SharedError {
    /// The two sides disagree about the state.
    Consistency,
}

impl SharedError {
    /// The error's text.
    pub fn message(&self) -> (s: String)
        ensures
            s@ == "error"@,
    {
        proof {
            reveal_strlit("error");
        }
        match self {
            SharedError::Consistency => String::from_str("error"),
        }
    }
}

} // verus!
