//! Guild members and their permission bits.

use vstd::prelude::*;

use super::user::User;
use crate::text::{parse_unsigned, parse_unsigned_radix};

verus! {

/// The bit of the `ADMINISTRATOR` permission.
pub const ADMINISTRATOR_BIT: u64 = 8;

/// A guild member as Discord sends it with an interaction.
pub struct Member {
    pub user: Option<User>,
    pub nick: Option<String>,
    /// The permission bitfield, as a decimal string.
    pub permissions: Option<String>,
}

/// The permission bits that a permission string stands for: the decimal
/// number it holds, or no bit where it holds none that fits in a `u64`.
pub open spec fn permission_bits(p: Seq<char>) -> u64 {
    match parse_unsigned(p, 10, u64::MAX as nat) {
        Some(v) => v as u64,
        None => 0,
    }
}

/// Whether a member with these permissions is an administrator.
pub open spec fn spec_is_admin(permissions: Option<Seq<char>>) -> bool {
    match permissions {
        Some(p) => permission_bits(p) & ADMINISTRATOR_BIT == ADMINISTRATOR_BIT,
        None => false,
    }
}

impl Member {
    /// Whether the member holds the administrator permission.
    pub fn is_admin(&self) -> (res: bool)
        ensures
            res == spec_is_admin(match self.permissions {
                Some(p) => Some(p@),
                None => None,
            }),
    {
        match &self.permissions {
            Some(permissions) => {
                let num = match parse_unsigned_radix(permissions.as_str(), 10, u64::MAX) {
                    Some(v) => v,
                    None => 0,
                };
                num & ADMINISTRATOR_BIT == ADMINISTRATOR_BIT
            },
            None => false,
        }
    }
}

} // verus!
