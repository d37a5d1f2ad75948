//! A user as the user repository reads it.

use vstd::prelude::*;

verus! {

/// A registered user.
#[derive(Debug)]
pub struct User {
    pub password: String,
}

} // verus!
