//! Requests that the client sends.

use vstd::prelude::*;

verus! {

/// A request to log in, or to register when it carries an invitation.
#[derive(Debug)]
pub struct LoginRegisterRequest {
    pub username: String,
    pub password: String,
    pub invitation_code: Option<String>,
}

} // verus!
