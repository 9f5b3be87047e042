use vstd::prelude::*;

use crate::model::institution::{InstitutionCreate, InstitutionFilter, InstitutionUpdate};

verus! {

/// Marks the answer to a deletion, which has no body.
#[derive(Copy, Clone, Debug, Default, PartialEq, Eq, Structural)]
pub struct DeleteResponse;

impl DeleteResponse {
    /// The HTTP status of a deletion: 204, no content.
    pub fn status() -> (s: u16)
        ensures
            s == 204,
    {
        204
    }
}

/// A request to add an institution.
#[derive(Debug)]
pub struct CreateRequest {
    pub name: String,
}

impl CreateRequest {
    pub fn into_create(self) -> (i: InstitutionCreate)
        ensures
            i.name == self.name,
    {
        InstitutionCreate { name: self.name }
    }
}

/// A request for a list of institutions.
#[derive(Debug)]
pub struct GetListRequest {
    pub name: Option<String>,
}

impl GetListRequest {
    pub fn into_filter(self) -> (f: InstitutionFilter)
        ensures
            f.name == self.name,
    {
        InstitutionFilter { name: self.name }
    }
}

/// A request to rename an institution.
#[derive(Debug)]
pub struct UpdateRequest {
    pub name: Option<String>,
}

impl UpdateRequest {
    pub fn into_update(self) -> (u: InstitutionUpdate)
        ensures
            u.name == self.name,
    {
        InstitutionUpdate { name: self.name }
    }
}

} // verus!
