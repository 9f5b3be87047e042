use vstd::prelude::*;

use crate::authentication::authenticated_token::AuthenticatedToken;
use crate::model::user::{UserCreate, UserFilter, UserUpdate};

verus! {

/// Marks the answer to the deletion of a user, which has no body.
#[derive(Copy, Clone, Debug, Default, PartialEq, Eq, Structural)]
pub struct UserDeleteResponse {}

impl UserDeleteResponse {
    /// The HTTP status of a deletion: 204, no content.
    pub fn status() -> (s: u16)
        ensures
            s == 204,
    {
        204
    }
}

/// A request to register.
#[derive(Debug)]
pub struct CreateRequest {
    /// The user name
    pub name: String,
}

impl CreateRequest {
    /// The registration of the caller: the name it asks for, and the email,
    /// subject and issuer of its token.
    pub fn into_create(self, token: &AuthenticatedToken) -> (u: UserCreate)
        ensures
            u.name == self.name,
            u.email@ == token.spec_claims().spec_email(),
            u.sub@ == token.spec_claims().spec_sub(),
            u.iss@ == token.spec_claims().spec_iss(),
    {
        UserCreate {
            name: self.name,
            email: token.email().to_owned(),
            sub: token.sub().to_owned(),
            iss: token.iss().to_owned(),
        }
    }
}

/// A request for a list of users.
#[derive(Debug)]
pub struct GetListRequest {
    /// The name to filter on
    pub name: Option<String>,
    /// The email to filter on
    pub email: Option<String>,
}

impl GetListRequest {
    /// The filter of the request: on name and email only.
    pub fn into_filter(self) -> (f: UserFilter)
        ensures
            f.name == self.name,
            f.email == self.email,
            f.id is None,
            f.sub is None,
            f.iss is None,
    {
        UserFilter { id: None, name: self.name, email: self.email, sub: None, iss: None }
    }
}

/// A request to change a user.
#[derive(Debug)]
pub struct UpdateRequest {
    /// The new user name
    pub name: Option<String>,
}

impl UpdateRequest {
    /// The change of the request: the name only; the email stays.
    pub fn into_update(self) -> (u: UserUpdate)
        ensures
            u.name == self.name,
            u.email is None,
    {
        UserUpdate { name: self.name, email: None }
    }
}

} // verus!
