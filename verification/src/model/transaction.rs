use vstd::prelude::*;

use crate::model::{account::AccountId, asset::AssetId, Filter, Timestamp};
use crate::resource::{
    where_clause, option_param, optional_condition_views, push_optional_condition, push_where, query_views, text, BindValue,
    Param, SqlPart, SqlQuery,
};

verus! {

/// The id of a transaction.
#[derive(Debug, Default, Clone, Copy, PartialEq, Eq, Structural, Hash)]
pub struct TransactionId(pub i64);

/// A movement of an asset in or out of an account.
#[derive(Debug)]
pub struct Transaction {
    pub id: TransactionId,
    pub created_at: Timestamp,
    pub updated_at: Timestamp,
    pub posted_at: Timestamp,
    pub account_id: AccountId,
    pub asset_id: AssetId,
    pub description: Option<String>,
    pub quantity: i64,
}

impl Clone for Transaction {
    fn clone(&self) -> (r: Self)
        ensures
            r == *self,
    {
        let description = match &self.description {
            Some(d) => Some(d.clone()),
            None => None,
        };
        Transaction {
            id: self.id,
            created_at: self.created_at,
            updated_at: self.updated_at,
            posted_at: self.posted_at,
            account_id: self.account_id,
            asset_id: self.asset_id,
            description,
            quantity: self.quantity,
        }
    }
}

impl Transaction {
    /// The transaction with the update's set fields written over it.
    pub open spec fn spec_updated(self, u: TransactionUpdate) -> Transaction {
        Transaction {
            asset_id: match u.asset_id { Some(a) => a, None => self.asset_id },
            description: match u.description { Some(d) => Some(d), None => self.description },
            posted_at: match u.posted_at { Some(p) => p, None => self.posted_at },
            quantity: match u.quantity { Some(q) => q, None => self.quantity },
            ..self
        }
    }

    /// Writes the update's set fields over the transaction; the id, the
    /// account and the creation and update times stay.
    pub fn update(&mut self, update_model: TransactionUpdate)
        ensures
            *final(self) == old(self).spec_updated(update_model),
    {
        if let Some(asset_id) = update_model.asset_id {
            self.asset_id = asset_id;
        }
        if let Some(description) = update_model.description {
            self.description = Some(description);
        }
        if let Some(posted_at) = update_model.posted_at {
            self.posted_at = posted_at;
        }
        if let Some(quantity) = update_model.quantity {
            self.quantity = quantity;
        }
    }
}

/// An update never moves a transaction: its id and its account stay, and
/// updating twice with the same update is updating once.
pub proof fn lemma_update_keeps_identity(t: Transaction, u: TransactionUpdate)
    ensures
        t.spec_updated(u).id == t.id,
        t.spec_updated(u).account_id == t.account_id,
        t.spec_updated(u).created_at == t.created_at,
        t.spec_updated(u).spec_updated(u) == t.spec_updated(u),
{
}

/// An update writes each field it sets and keeps each field it leaves
/// unset: a new posting date, asset, description or quantity is what the
/// transaction holds afterwards, and nothing else changes.
pub proof fn lemma_update_writes_set_fields(t: Transaction, u: TransactionUpdate)
    ensures
        u.posted_at matches Some(p) ==> t.spec_updated(u).posted_at == p,
        u.posted_at is None ==> t.spec_updated(u).posted_at == t.posted_at,
        u.asset_id matches Some(a) ==> t.spec_updated(u).asset_id == a,
        u.asset_id is None ==> t.spec_updated(u).asset_id == t.asset_id,
        u.description matches Some(d) ==> t.spec_updated(u).description == Some(d),
        u.description is None ==> t.spec_updated(u).description == t.description,
        u.quantity matches Some(q) ==> t.spec_updated(u).quantity == q,
        u.quantity is None ==> t.spec_updated(u).quantity == t.quantity,
        t.spec_updated(u).id == t.id,
        t.spec_updated(u).account_id == t.account_id,
        t.spec_updated(u).created_at == t.created_at,
        t.spec_updated(u).updated_at == t.updated_at,
{
}

/// What is needed to record a transaction.
#[derive(Debug)]
pub struct TransactionCreate {
    pub account_id: AccountId,
    pub asset_id: AssetId,
    pub description: Option<String>,
    pub posted_at: Timestamp,
    pub quantity: i64,
}

/// The new values of a transaction; unset fields stay.
#[derive(Debug)]
pub struct TransactionUpdate {
    pub asset_id: Option<AssetId>,
    pub description: Option<String>,
    pub posted_at: Option<Timestamp>,
    pub quantity: Option<i64>,
}

impl Default for TransactionUpdate {
    fn default() -> (u: Self)
        ensures
            u.asset_id is None,
            u.description is None,
            u.posted_at is None,
            u.quantity is None,
    {
        TransactionUpdate { asset_id: None, description: None, posted_at: None, quantity: None }
    }
}

/// A filter on transactions.
#[derive(Debug)]
pub struct TransactionFilter {
    pub account_id: Option<AccountId>,
    pub asset_id: Option<AssetId>,
    pub description: Option<String>,
    pub quantity: Option<i64>,
    pub max_quantity: Option<i64>,
    pub min_quantity: Option<i64>,
    pub posted_at: Option<Timestamp>,
    pub posted_before: Option<Timestamp>,
    pub posted_after: Option<Timestamp>,
}

impl Default for TransactionFilter {
    fn default() -> (f: Self)
        ensures
            f.account_id is None,
            f.asset_id is None,
            f.description is None,
            f.quantity is None,
            f.max_quantity is None,
            f.min_quantity is None,
            f.posted_at is None,
            f.posted_before is None,
            f.posted_after is None,
    {
        TransactionFilter {
            account_id: None,
            asset_id: None,
            description: None,
            quantity: None,
            max_quantity: None,
            min_quantity: None,
            posted_at: None,
            posted_before: None,
            posted_after: None,
        }
    }
}

pub open spec fn option_uuid(o: Option<u128>) -> Option<Param> {
    match o {
        Some(u) => Some(Param::Uuid(u)),
        None => None,
    }
}

pub open spec fn option_int(o: Option<i64>) -> Option<Param> {
    match o {
        Some(q) => Some(Param::Int(q)),
        None => None,
    }
}

pub open spec fn option_time(o: Option<Timestamp>) -> Option<Param> {
    match o {
        Some(t) => Some(Param::Timestamp(t.0)),
        None => None,
    }
}

impl TransactionFilter {
    pub open spec fn asset_uuid(&self) -> Option<u128> {
        match self.asset_id {
            Some(a) => Some(a.0),
            None => None,
        }
    }

    pub open spec fn account_uuid(&self) -> Option<u128> {
        match self.account_id {
            Some(a) => Some(a.0),
            None => None,
        }
    }
}

pub fn bind_uuid(o: Option<u128>) -> (r: Option<BindValue>)
    ensures
        option_param(r) == option_uuid(o),
{
    match o {
        Some(u) => Some(BindValue::Uuid(u)),
        None => None,
    }
}

pub fn bind_int(o: Option<i64>) -> (r: Option<BindValue>)
    ensures
        option_param(r) == option_int(o),
{
    match o {
        Some(q) => Some(BindValue::Int(q)),
        None => None,
    }
}

pub fn bind_time(o: Option<Timestamp>) -> (r: Option<BindValue>)
    ensures
        option_param(r) == option_time(o),
{
    match o {
        Some(t) => Some(BindValue::Timestamp(t)),
        None => None,
    }
}

impl Filter for TransactionFilter {
    open spec fn spec_conditions(&self) -> Seq<Seq<SqlPart>> {
        (match self.description {
            Some(d) => seq![seq![text("description ILIKE %"), SqlPart::Param(Param::Text(d@)), text("%")]],
            None => Seq::empty(),
        })
            + optional_condition_views("asset_id = "@, option_uuid(self.asset_uuid()))
            + optional_condition_views("account_id = "@, option_uuid(self.account_uuid()))
            + optional_condition_views("quantity = "@, option_int(self.quantity))
            + optional_condition_views("quantity <= "@, option_int(self.max_quantity))
            + optional_condition_views("quantity >= "@, option_int(self.min_quantity))
            + optional_condition_views("posted_at = "@, option_time(self.posted_at))
            + optional_condition_views("posted_at < "@, option_time(self.posted_before))
            + optional_condition_views("posted_at > "@, option_time(self.posted_after))
    }

    fn push(self, query: &mut SqlQuery) {
        let ghost conds = self.spec_conditions();
        let mut parts: Vec<SqlQuery> = Vec::new();
        if let Some(description) = self.description {
            let mut q = SqlQuery::new("description ILIKE %");
            q.push_bind(BindValue::Text(description));
            q.push("%");
            assert(q@ =~= seq![text("description ILIKE %"), SqlPart::Param(Param::Text(description@)), text("%")]);
            parts.push(q);
            assert(query_views(parts@) =~= seq![seq![text("description ILIKE %"), SqlPart::Param(Param::Text(description@)), text("%")]]);
        }
        assert(query_views(parts@) =~= match self.description {
            Some(d) => seq![seq![text("description ILIKE %"), SqlPart::Param(Param::Text(d@)), text("%")]],
            None => Seq::<Seq<SqlPart>>::empty(),
        });
        let asset = match self.asset_id {
            Some(a) => Some(a.0),
            None => None,
        };
        let account = match self.account_id {
            Some(a) => Some(a.0),
            None => None,
        };
        push_optional_condition(&mut parts, "asset_id = ", bind_uuid(asset));
        push_optional_condition(&mut parts, "account_id = ", bind_uuid(account));
        push_optional_condition(&mut parts, "quantity = ", bind_int(self.quantity));
        push_optional_condition(&mut parts, "quantity <= ", bind_int(self.max_quantity));
        push_optional_condition(&mut parts, "quantity >= ", bind_int(self.min_quantity));
        push_optional_condition(&mut parts, "posted_at = ", bind_time(self.posted_at));
        push_optional_condition(&mut parts, "posted_at < ", bind_time(self.posted_before));
        push_optional_condition(&mut parts, "posted_at > ", bind_time(self.posted_after));
        assert(query_views(parts@) =~= conds);
        push_where(query, parts);
    }
}

/// A filter with no field set.
pub open spec fn empty_transaction_filter() -> TransactionFilter {
    TransactionFilter {
        description: None,
        asset_id: None,
        account_id: None,
        quantity: None,
        max_quantity: None,
        min_quantity: None,
        posted_at: None,
        posted_before: None,
        posted_after: None,
    }
}

/// `max_quantity` is an upper bound on the quantity and `min_quantity` a
/// lower bound: whatever else a filter sets, a set `max_quantity` of `m`
/// adds the condition `quantity <= m`, and a set `min_quantity` of `m` the
/// condition `quantity >= m`.
pub proof fn lemma_quantity_bounds(f: TransactionFilter)
    ensures
        f.max_quantity matches Some(m) ==> f.spec_conditions().contains(
            seq![SqlPart::Text("quantity <= "@), SqlPart::Param(Param::Int(m))],
        ),
        f.min_quantity matches Some(m) ==> f.spec_conditions().contains(
            seq![SqlPart::Text("quantity >= "@), SqlPart::Param(Param::Int(m))],
        ),
{
    let d = match f.description {
        Some(x) => seq![seq![text("description ILIKE %"), SqlPart::Param(Param::Text(x@)), text("%")]],
        None => Seq::<Seq<SqlPart>>::empty(),
    };
    let before_max = d + optional_condition_views("asset_id = "@, option_uuid(f.asset_uuid()))
        + optional_condition_views("account_id = "@, option_uuid(f.account_uuid()))
        + optional_condition_views("quantity = "@, option_int(f.quantity));
    let with_max = before_max + optional_condition_views("quantity <= "@, option_int(f.max_quantity));
    let with_min = with_max + optional_condition_views("quantity >= "@, option_int(f.min_quantity));
    let conds = f.spec_conditions();
    if let Some(m) = f.max_quantity {
        let k = before_max.len() as int;
        assert(with_max[k] == seq![SqlPart::Text("quantity <= "@), SqlPart::Param(Param::Int(m))]);
        assert(with_min[k] == with_max[k]);
        assert(conds[k] == with_min[k]);
    }
    if let Some(m) = f.min_quantity {
        let k = with_max.len() as int;
        assert(with_min[k] == seq![SqlPart::Text("quantity >= "@), SqlPart::Param(Param::Int(m))]);
        assert(conds[k] == with_min[k]);
    }
}

/// A filter that sets only `max_quantity` to `m` gives the clause
/// `WHERE quantity <= m`, and one that sets only `min_quantity` to `m` the
/// clause `WHERE quantity >= m`.
pub proof fn lemma_quantity_bound_alone(m: i64)
    ensures
        where_clause(TransactionFilter { max_quantity: Some(m), ..empty_transaction_filter() }.spec_conditions())
            == seq![SqlPart::Text("WHERE "@), SqlPart::Text("quantity <= "@), SqlPart::Param(Param::Int(m))],
        where_clause(TransactionFilter { min_quantity: Some(m), ..empty_transaction_filter() }.spec_conditions())
            == seq![SqlPart::Text("WHERE "@), SqlPart::Text("quantity >= "@), SqlPart::Param(Param::Int(m))],
{
    let fmax = TransactionFilter { max_quantity: Some(m), ..empty_transaction_filter() };
    let fmin = TransactionFilter { min_quantity: Some(m), ..empty_transaction_filter() };
    assert(fmax.spec_conditions() =~= seq![seq![SqlPart::Text("quantity <= "@), SqlPart::Param(Param::Int(m))]]);
    assert(fmin.spec_conditions() =~= seq![seq![SqlPart::Text("quantity >= "@), SqlPart::Param(Param::Int(m))]]);
    assert(where_clause(fmax.spec_conditions()) =~= seq![
        SqlPart::Text("WHERE "@),
        SqlPart::Text("quantity <= "@),
        SqlPart::Param(Param::Int(m)),
    ]);
    assert(where_clause(fmin.spec_conditions()) =~= seq![
        SqlPart::Text("WHERE "@),
        SqlPart::Text("quantity >= "@),
        SqlPart::Param(Param::Int(m)),
    ]);
}

} // verus!
