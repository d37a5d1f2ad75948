//! The home page.

use vstd::prelude::*;

verus! {

/// The properties of the home page.
#[derive(Debug, PartialEq, Eq)]
pub struct HomeProps {
    pub title: String,
}

} // verus!
