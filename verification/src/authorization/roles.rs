use vstd::prelude::*;

verus! {

/// Marker: an administrator.
pub struct Admin;

/// Marker: a registered user.
pub struct User;

/// Marker: any requester.
pub struct Any;

/// The role of a requester.
#[derive(Copy, Clone, Debug, PartialEq, Eq, Structural)]
pub enum Role {
    NoRole,
    User,
    Admin,
    Any,
}

impl Default for Role {
    fn default() -> (r: Self)
        ensures
            r == Role::NoRole,
    {
        Role::NoRole
    }
}

} // verus!
