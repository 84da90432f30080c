//! The authenticated user's profile.

use vstd::prelude::*;

verus! {

/// An identity as the backend returns it.
#[derive(Clone, Debug, PartialEq)]
pub struct User {
    pub login: String,
    pub name: String,
    pub email: String,
    pub is_admin: bool,
}

} // verus!
