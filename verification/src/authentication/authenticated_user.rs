use vstd::prelude::*;

verus! {

/// The claims of an authenticated user: its groups and its email.
#[derive(Debug)]
pub struct Claims {
    pub groups: Vec<String>,
    pub email: String,
}

/// A user that has been authenticated, with its claims.
#[derive(Debug)]
pub struct AuthenticatedUser {
    claims: Claims,
}

impl AuthenticatedUser {
    /// The claims the user was authenticated with.
    pub closed spec fn spec_claims(&self) -> Claims {
        self.claims
    }

    pub fn new(claims: Claims) -> (u: Self)
        ensures
            u.spec_claims() == claims,
    {
        AuthenticatedUser { claims }
    }

    pub fn email(&self) -> (s: &str)
        ensures
            s@ == self.spec_claims().email@,
    {
        self.claims.email.as_str()
    }

    pub fn groups(&self) -> (g: &[String])
        ensures
            g@ == self.spec_claims().groups@,
    {
        self.claims.groups.as_slice()
    }
}

} // verus!
