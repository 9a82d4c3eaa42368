//! The user object that Discord sends in member payloads.

use vstd::prelude::*;

verus! {

/// A Discord user as it appears inside a guild member.
pub struct User {
    pub id: String,
    pub username: String,
    pub discriminator: String,
}

} // verus!
