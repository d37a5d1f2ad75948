//! The login and registration form.

use vstd::prelude::*;
use vstd::utf8::encode_utf8;

verus! {

/// The properties of the login form (it has none).
#[derive(Debug, PartialEq, Eq)]
pub struct LoginProps {}

/// What the form reports before it sends a registration: the two passwords
/// must match, and then the password must take at least 4 bytes of UTF-8.
/// `None` when the registration may be sent.
pub fn registration_problem(password: &String, retyped: &String) -> (r: Option<String>)
    ensures
        password@ != retyped@ ==> (r matches Some(m) && m@ == "Passwords do not match"@),
        password@ == retyped@ && encode_utf8(password@).len() < 4 ==> (r matches Some(m) && m@
            == "Password must be at least 4 characters"@),
        password@ == retyped@ && encode_utf8(password@).len() >= 4 ==> r is None,
{
    proof {
        reveal_strlit("Passwords do not match");
        reveal_strlit("Password must be at least 4 characters");
    }
    if *password != *retyped {
        return Some(String::from_str("Passwords do not match"));
    }
    if password.as_str().as_bytes().len() < 4 {
        return Some(String::from_str("Password must be at least 4 characters"));
    }
    None
}

} // verus!
