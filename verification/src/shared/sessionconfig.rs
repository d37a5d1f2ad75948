//! Settings of a session that the server hands the client.

use vstd::prelude::*;

verus! {

/// Whether registering needs an invitation code.
#[derive(Debug, Clone, Copy)]
pub struct SessionConfig {
    pub need_invitation: bool,
}

impl Default for SessionConfig {
    /// No invitation is needed.
    fn default() -> (c: Self)
        ensures
            !c.need_invitation,
    {
        SessionConfig { need_invitation: false }
    }
}

} // verus!
