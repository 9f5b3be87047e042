use vstd::prelude::*;

use crate::model::account::AccountId;
use crate::model::asset::AssetId;
use crate::model::transaction::{TransactionCreate, TransactionFilter, TransactionUpdate};
use crate::model::Timestamp;

verus! {

/// Marks the answer to a deletion, which has no body.
#[derive(Copy, Clone, Debug, Default, PartialEq, Eq, Structural)]
pub struct DeleteResponse;

impl DeleteResponse {
    /// The HTTP status of a deletion: 204, no content.
    pub fn status() -> (s: u16)
        ensures
            s == 204,
    {
        204
    }
}

/// A request to record a transaction.
#[derive(Debug)]
pub struct CreateRequest {
    pub posted_at: Timestamp,
    pub description: Option<String>,
    pub account_id: AccountId,
    pub asset_id: AssetId,
    pub quantity: i64,
}

impl CreateRequest {
    pub fn into_create(self) -> (t: TransactionCreate)
        ensures
            t.posted_at == self.posted_at,
            t.description == self.description,
            t.account_id == self.account_id,
            t.asset_id == self.asset_id,
            t.quantity == self.quantity,
    {
        TransactionCreate {
            posted_at: self.posted_at,
            description: self.description,
            account_id: self.account_id,
            asset_id: self.asset_id,
            quantity: self.quantity,
        }
    }
}

/// A request for a list of transactions.
#[derive(Debug)]
pub struct GetListRequest {
    pub posted_at: Option<Timestamp>,
    pub posted_before: Option<Timestamp>,
    pub posted_after: Option<Timestamp>,
    pub quantity: Option<i64>,
    pub max_quantity: Option<i64>,
    pub min_quantity: Option<i64>,
    pub description: Option<String>,
    pub asset_id: Option<AssetId>,
    pub account_id: Option<AccountId>,
}

impl GetListRequest {
    pub fn into_filter(self) -> (f: TransactionFilter)
        ensures
            f.posted_at == self.posted_at,
            f.posted_before == self.posted_before,
            f.posted_after == self.posted_after,
            f.quantity == self.quantity,
            f.max_quantity == self.max_quantity,
            f.min_quantity == self.min_quantity,
            f.description == self.description,
            f.asset_id == self.asset_id,
            f.account_id == self.account_id,
    {
        TransactionFilter {
            posted_at: self.posted_at,
            posted_before: self.posted_before,
            posted_after: self.posted_after,
            quantity: self.quantity,
            max_quantity: self.max_quantity,
            min_quantity: self.min_quantity,
            description: self.description,
            account_id: self.account_id,
            asset_id: self.asset_id,
        }
    }
}

/// A request to change a transaction.
#[derive(Debug)]
pub struct UpdateRequest {
    pub asset_id: Option<AssetId>,
    pub posted_at: Option<Timestamp>,
    pub description: Option<String>,
    pub quantity: Option<i64>,
}

impl UpdateRequest {
    pub fn into_update(self) -> (u: TransactionUpdate)
        ensures
            u.asset_id == self.asset_id,
            u.posted_at == self.posted_at,
            u.description == self.description,
            u.quantity == self.quantity,
    {
        TransactionUpdate {
            asset_id: self.asset_id,
            posted_at: self.posted_at,
            description: self.description,
            quantity: self.quantity,
        }
    }
}

} // verus!
