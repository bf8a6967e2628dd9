//! People records as the marketing query reads them.

use vstd::prelude::*;

verus! {

/// A person's first and last name.
#[derive(Debug)]
pub struct Name {
    pub first: String,
    pub last: String,
}

/// A person's marketing flag and name.
#[derive(Debug)]
pub struct Marketing {
    pub marketing: bool,
    pub name: Name,
}

} // verus!
