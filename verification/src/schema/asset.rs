use vstd::prelude::*;

use crate::model::asset::{AssetCreate, AssetFilter, AssetUpdate};

verus! {

/// Marks the answer to a deletion, which has no body.
#[derive(Copy, Clone, Debug, Default, PartialEq, Eq, Structural)]
pub struct DeleteResponse;

impl DeleteResponse {
    /// The HTTP status of a deletion: 204, no content.
    pub fn status() -> (s: u16)
        ensures
            s == 204,
    {
        204
    }
}

/// A request to add an asset.
#[derive(Debug)]
pub struct CreateRequest {
    pub name: String,
    pub symbol: String,
}

impl CreateRequest {
    pub fn into_create(self) -> (a: AssetCreate)
        ensures
            a.name == self.name,
            a.symbol == self.symbol,
    {
        AssetCreate { name: self.name, symbol: self.symbol }
    }
}

/// A request for a list of assets.
#[derive(Debug)]
pub struct GetListRequest {
    pub name: Option<String>,
    pub symbol: Option<String>,
}

impl GetListRequest {
    pub fn into_filter(self) -> (f: AssetFilter)
        ensures
            f.name == self.name,
            f.symbol == self.symbol,
    {
        AssetFilter { name: self.name, symbol: self.symbol }
    }
}

/// A request to change an asset.
#[derive(Debug)]
pub struct UpdateRequest {
    pub name: Option<String>,
    pub symbol: Option<String>,
}

impl UpdateRequest {
    pub fn into_update(self) -> (u: AssetUpdate)
        ensures
            u.name == self.name,
            u.symbol == self.symbol,
    {
        AssetUpdate { name: self.name, symbol: self.symbol }
    }
}

} // verus!
