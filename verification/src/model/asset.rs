use vstd::prelude::*;

use crate::model::{Filter, Timestamp};
use crate::resource::{column_condition, condition, push_where, query_views, BindValue, Param, SqlPart, SqlQuery};

verus! {

/// The id of an asset: the 128 bits of its UUID.
#[derive(Debug, Default, Clone, Copy, PartialEq, Eq, Structural, Hash)]
pub struct AssetId(pub u128);

/// Something that can be held in an account, such as a currency or a stock.
#[derive(Debug)]
pub struct Asset {
    pub id: AssetId,
    pub created_at: Timestamp,
    pub updated_at: Timestamp,
    pub name: String,
    pub symbol: String,
}

impl Clone for Asset {
    fn clone(&self) -> (r: Self)
        ensures
            r == *self,
    {
        Asset {
            id: self.id,
            created_at: self.created_at,
            updated_at: self.updated_at,
            name: self.name.clone(),
            symbol: self.symbol.clone(),
        }
    }
}

/// What is needed to create an asset.
#[derive(Debug)]
pub struct AssetCreate {
    pub name: String,
    pub symbol: String,
}

/// The new values of an asset; unset fields stay.
#[derive(Debug)]
pub struct AssetUpdate {
    pub name: Option<String>,
    pub symbol: Option<String>,
}

impl Default for AssetUpdate {
    fn default() -> (u: Self)
        ensures
            u.name is None,
            u.symbol is None,
    {
        AssetUpdate { name: None, symbol: None }
    }
}

/// A filter on assets.
#[derive(Debug)]
pub struct AssetFilter {
    pub name: Option<String>,
    pub symbol: Option<String>,
}

impl Default for AssetFilter {
    fn default() -> (f: Self)
        ensures
            f.name is None,
            f.symbol is None,
    {
        AssetFilter { name: None, symbol: None }
    }
}

impl Filter for AssetFilter {
    open spec fn spec_conditions(&self) -> Seq<Seq<SqlPart>> {
        (match self.name {
            Some(name) => seq![condition("name = "@, Param::Text(name@))],
            None => Seq::empty(),
        }) + (match self.symbol {
            Some(symbol) => seq![condition("symbol = "@, Param::Text(symbol@))],
            None => Seq::empty(),
        })
    }

    fn push(self, query: &mut SqlQuery) {
        let ghost conds = self.spec_conditions();
        let mut parts: Vec<SqlQuery> = Vec::new();
        if let Some(name) = self.name {
            parts.push(column_condition("name = ", BindValue::Text(name)));
        }
        if let Some(symbol) = self.symbol {
            parts.push(column_condition("symbol = ", BindValue::Text(symbol)));
        }
        assert(query_views(parts@) =~= conds);
        push_where(query, parts);
    }
}

} // verus!
