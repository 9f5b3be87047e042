use vstd::prelude::*;

use crate::authentication::registered_user::RegisteredUser;
use crate::model::account::{AccountCreate, AccountFilter, AccountUpdate};
use crate::model::institution::InstitutionId;

verus! {

/// Marks the answer to a deletion, which has no body.
#[derive(Copy, Clone, Debug, Default, PartialEq, Eq, Structural)]
pub struct DeleteResponse;

impl DeleteResponse {
    /// The HTTP status of a deletion: 204, no content.
    pub fn status() -> (s: u16)
        ensures
            s == 204,
    {
        204
    }
}

/// A request to open an account.
#[derive(Debug)]
pub struct CreateRequest {
    /// The account name
    pub name: String,
    /// The institution id of which the account belongs
    pub institution_id: InstitutionId,
}

impl CreateRequest {
    /// The account of the request, owned by the caller.
    pub fn into_create(self, user: &RegisteredUser) -> (a: AccountCreate)
        ensures
            a.name == self.name,
            a.institution_id == self.institution_id,
            a.user_id == user.user.id,
    {
        AccountCreate { name: self.name, institution_id: self.institution_id, user_id: user.id() }
    }
}

/// A request for a list of accounts.
#[derive(Debug)]
pub struct GetListRequest {
    /// The name to filter on
    pub name: Option<String>,
    /// The institution_id to filter on
    pub institution_id: Option<InstitutionId>,
}

impl GetListRequest {
    /// The filter of the request: on name and institution only.
    pub fn into_filter(self) -> (f: AccountFilter)
        ensures
            f.name == self.name,
            f.institution_id == self.institution_id,
            f.id is None,
            f.user_id is None,
    {
        AccountFilter { id: None, name: self.name, institution_id: self.institution_id, user_id: None }
    }
}

/// A request to rename an account.
#[derive(Debug)]
pub struct UpdateRequest {
    /// The new account name
    pub name: String,
}

impl UpdateRequest {
    pub fn into_update(self) -> (u: AccountUpdate)
        ensures
            u.name == self.name,
    {
        AccountUpdate { name: self.name }
    }
}

} // verus!
