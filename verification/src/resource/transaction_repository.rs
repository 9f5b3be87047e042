use vstd::prelude::*;

use crate::model::transaction::{
    lemma_update_writes_set_fields, TransactionUpdate, bind_int, bind_time, bind_uuid, option_int, option_time, option_uuid, Transaction, TransactionCreate,
    TransactionFilter, TransactionId,
};
use crate::model::user::UserId;
use crate::model::Filter;
use crate::resource::{
    bound_params, lemma_interleave_binds, and_clause, column_condition, condition, option_string_view, optional_condition_views, paging, push_and_conditions,
    push_optional_condition, push_paging, query_views, SqlQuery,
};
use crate::resource::{
    bind_views, interleave, interleaved, list_query, list_statement, str_views, BindValue, CreateRepository,
    DeleteRepository, Fetch, GetListRepository, GetRepository, Param, Repository, SqlPart, Statement, UpdateRepository,
};

verus! {

/// The conditions of a list of a user's transactions: those of the filter,
/// on the transaction table `t`, with the description matched anywhere.
pub open spec fn owned_conditions(filter: TransactionFilter) -> Seq<Seq<SqlPart>> {
    (match filter.description {
        Some(d) => seq![condition("t.description ILIKE "@, Param::Text("%"@ + d@ + "%"@))],
        None => Seq::empty(),
    })
        + optional_condition_views("t.asset_id = "@, option_uuid(filter.asset_uuid()))
        + optional_condition_views("t.account_id = "@, option_uuid(filter.account_uuid()))
        + optional_condition_views("t.quantity = "@, option_int(filter.quantity))
        + optional_condition_views("t.quantity <= "@, option_int(filter.max_quantity))
        + optional_condition_views("t.quantity >= "@, option_int(filter.min_quantity))
        + optional_condition_views("t.posted_at = "@, option_time(filter.posted_at))
        + optional_condition_views("t.posted_at < "@, option_time(filter.posted_before))
        + optional_condition_views("t.posted_at > "@, option_time(filter.posted_after))
}

/// The query that reads one transaction by id.
pub open spec fn transaction_get_query(id: TransactionId) -> Seq<SqlPart> {
    interleave(seq!["SELECT * FROM \"transaction\" WHERE id = "@], seq![Param::Int(id.0)])
}

/// The query that records a transaction.
pub open spec fn transaction_create_query(create_model: TransactionCreate) -> Seq<SqlPart> {
    interleave(seq!["INSERT INTO \"transaction\" (account_id, asset_id, description, posted_at, quantity) VALUES ("@, ", "@, ", "@, ", "@, ", "@, ") RETURNING *"@], seq![Param::Uuid(create_model.account_id.0), Param::Uuid(create_model.asset_id.0), Param::OptionalText(option_string_view(create_model.description)), Param::Timestamp(create_model.posted_at.0), Param::Int(create_model.quantity)])
}

/// The query that writes a transaction over the stored one.
pub open spec fn transaction_update_query(model: Transaction) -> Seq<SqlPart> {
    interleave(seq!["UPDATE \"transaction\" SET account_id = "@, ", asset_id = "@, ", description = "@, ", posted_at = "@, ", quantity = "@, " WHERE id = "@, " RETURNING *"@], seq![Param::Uuid(model.account_id.0), Param::Uuid(model.asset_id.0), Param::OptionalText(option_string_view(model.description)), Param::Timestamp(model.posted_at.0), Param::Int(model.quantity), Param::Int(model.id.0)])
}

/// The query that deletes a transaction by id.
pub open spec fn transaction_delete_query(id: TransactionId) -> Seq<SqlPart> {
    interleave(seq!["DELETE FROM \"transaction\" WHERE id = "@, " RETURNING *"@], seq![Param::Int(id.0)])
}

/// The query that reads a transaction of one of the user's accounts.
pub open spec fn owned_transaction_get_query(transaction_id: TransactionId, user_id: UserId) -> Seq<SqlPart> {
    interleave(seq!["SELECT t.* FROM \"transaction\" t JOIN account a ON t.account_id = a.id WHERE t.id = "@, " AND a.user_id = "@], seq![Param::Int(transaction_id.0), Param::Uuid(user_id.0)])
}

/// The query that records a transaction only when its account belongs to the user.
pub open spec fn owned_transaction_create_query(create_model: TransactionCreate, user_id: UserId) -> Seq<SqlPart> {
    interleave(seq!["INSERT INTO \"transaction\" (account_id, asset_id, description, posted_at, quantity) SELECT "@, ", "@, ", "@, ", "@, ", "@, " WHERE EXISTS (SELECT 1 FROM account WHERE id = "@, " AND user_id = "@, ") RETURNING *"@], seq![Param::Uuid(create_model.account_id.0), Param::Uuid(create_model.asset_id.0), Param::OptionalText(option_string_view(create_model.description)), Param::Timestamp(create_model.posted_at.0), Param::Int(create_model.quantity), Param::Uuid(create_model.account_id.0), Param::Uuid(user_id.0)])
}

/// The query that writes a transaction over the stored one only when it is in one of the user's accounts.
pub open spec fn owned_transaction_update_query(model: Transaction, user_id: UserId) -> Seq<SqlPart> {
    interleave(seq!["UPDATE \"transaction\" SET asset_id = "@, ", description = "@, ", posted_at = "@, ", quantity = "@, " WHERE id = "@, " AND account_id IN (SELECT id FROM account WHERE user_id = "@, ") RETURNING *"@], seq![Param::Uuid(model.asset_id.0), Param::OptionalText(option_string_view(model.description)), Param::Timestamp(model.posted_at.0), Param::Int(model.quantity), Param::Int(model.id.0), Param::Uuid(user_id.0)])
}

/// The query that deletes a transaction only when it is in one of the user's accounts.
pub open spec fn owned_transaction_delete_query(id: TransactionId, user_id: UserId) -> Seq<SqlPart> {
    interleave(seq!["DELETE FROM \"transaction\" WHERE id = "@, " AND account_id IN (SELECT id FROM account WHERE user_id = "@, ") RETURNING *"@], seq![Param::Int(id.0), Param::Uuid(user_id.0)])
}

/// Recording a transaction binds the create model's own values, in the
/// order of the columns `account_id, asset_id, description, posted_at,
/// quantity`; the owned form then binds the account and the user that
/// must own it.
pub proof fn lemma_create_binds_the_model(c: TransactionCreate, user_id: UserId)
    ensures
        bound_params(transaction_create_query(c)) == seq![
            Param::Uuid(c.account_id.0),
            Param::Uuid(c.asset_id.0),
            Param::OptionalText(option_string_view(c.description)),
            Param::Timestamp(c.posted_at.0),
            Param::Int(c.quantity),
        ],
        bound_params(owned_transaction_create_query(c, user_id)) == seq![
            Param::Uuid(c.account_id.0),
            Param::Uuid(c.asset_id.0),
            Param::OptionalText(option_string_view(c.description)),
            Param::Timestamp(c.posted_at.0),
            Param::Int(c.quantity),
            Param::Uuid(c.account_id.0),
            Param::Uuid(user_id.0),
        ],
{
    lemma_interleave_binds(
        seq!["INSERT INTO \"transaction\" (account_id, asset_id, description, posted_at, quantity) VALUES ("@, ", "@, ", "@, ", "@, ", "@, ") RETURNING *"@],
        seq![
            Param::Uuid(c.account_id.0),
            Param::Uuid(c.asset_id.0),
            Param::OptionalText(option_string_view(c.description)),
            Param::Timestamp(c.posted_at.0),
            Param::Int(c.quantity),
        ],
    );
    lemma_interleave_binds(
        seq!["INSERT INTO \"transaction\" (account_id, asset_id, description, posted_at, quantity) SELECT "@, ", "@, ", "@, ", "@, ", "@, " WHERE EXISTS (SELECT 1 FROM account WHERE id = "@, " AND user_id = "@, ") RETURNING *"@],
        seq![
            Param::Uuid(c.account_id.0),
            Param::Uuid(c.asset_id.0),
            Param::OptionalText(option_string_view(c.description)),
            Param::Timestamp(c.posted_at.0),
            Param::Int(c.quantity),
            Param::Uuid(c.account_id.0),
            Param::Uuid(user_id.0),
        ],
    );
}

/// Writing a transaction binds its own asset, description, posting date
/// and quantity, then its id (and, owned, the user); so an update that
/// sets a field has the new value written.
pub proof fn lemma_update_binds_the_model(t: Transaction, u: TransactionUpdate, user_id: UserId)
    ensures
        bound_params(owned_transaction_update_query(t, user_id)) == seq![
            Param::Uuid(t.asset_id.0),
            Param::OptionalText(option_string_view(t.description)),
            Param::Timestamp(t.posted_at.0),
            Param::Int(t.quantity),
            Param::Int(t.id.0),
            Param::Uuid(user_id.0),
        ],
        bound_params(transaction_update_query(t)) == seq![
            Param::Uuid(t.account_id.0),
            Param::Uuid(t.asset_id.0),
            Param::OptionalText(option_string_view(t.description)),
            Param::Timestamp(t.posted_at.0),
            Param::Int(t.quantity),
            Param::Int(t.id.0),
        ],
        u.posted_at matches Some(p) ==> bound_params(owned_transaction_update_query(t.spec_updated(u), user_id))[2]
            == Param::Timestamp(p.0),
        u.quantity matches Some(q) ==> bound_params(owned_transaction_update_query(t.spec_updated(u), user_id))[3]
            == Param::Int(q),
{
    lemma_interleave_binds(
        seq!["UPDATE \"transaction\" SET asset_id = "@, ", description = "@, ", posted_at = "@, ", quantity = "@, " WHERE id = "@, " AND account_id IN (SELECT id FROM account WHERE user_id = "@, ") RETURNING *"@],
        seq![
            Param::Uuid(t.asset_id.0),
            Param::OptionalText(option_string_view(t.description)),
            Param::Timestamp(t.posted_at.0),
            Param::Int(t.quantity),
            Param::Int(t.id.0),
            Param::Uuid(user_id.0),
        ],
    );
    lemma_interleave_binds(
        seq!["UPDATE \"transaction\" SET account_id = "@, ", asset_id = "@, ", description = "@, ", posted_at = "@, ", quantity = "@, " WHERE id = "@, " RETURNING *"@],
        seq![
            Param::Uuid(t.account_id.0),
            Param::Uuid(t.asset_id.0),
            Param::OptionalText(option_string_view(t.description)),
            Param::Timestamp(t.posted_at.0),
            Param::Int(t.quantity),
            Param::Int(t.id.0),
        ],
    );
    let t2 = t.spec_updated(u);
    lemma_update_writes_set_fields(t, u);
    lemma_interleave_binds(
        seq!["UPDATE \"transaction\" SET asset_id = "@, ", description = "@, ", posted_at = "@, ", quantity = "@, " WHERE id = "@, " AND account_id IN (SELECT id FROM account WHERE user_id = "@, ") RETURNING *"@],
        seq![
            Param::Uuid(t2.asset_id.0),
            Param::OptionalText(option_string_view(t2.description)),
            Param::Timestamp(t2.posted_at.0),
            Param::Int(t2.quantity),
            Param::Int(t2.id.0),
            Param::Uuid(user_id.0),
        ],
    );
}

/// The statements on transactions.
#[derive(Debug, Clone, Copy)]
pub struct TransactionRepository;

impl GetRepository<TransactionId, Transaction> for TransactionRepository {
    fn get(&self, id: TransactionId) -> (s: Statement)
        ensures
            s.query@ == transaction_get_query(id),
            s.fetch == Fetch::One,
            !s.commit,
    {
        let texts = vec!["SELECT * FROM \"transaction\" WHERE id = "];
        let values = vec![BindValue::Int(id.0)];
        assert(str_views(texts@) =~= seq!["SELECT * FROM \"transaction\" WHERE id = "@]);
        assert(bind_views(values@) =~= seq![Param::Int(id.0)]);
        interleaved(&texts, values, Fetch::One, false)
    }
}

impl GetListRepository<Transaction, TransactionFilter> for TransactionRepository {
    fn get_list(&self, offset: i64, limit: Option<i64>, filter: TransactionFilter) -> (s: Statement)
        ensures
            s.query@ == list_query("SELECT * FROM \"transaction\" "@, filter.spec_conditions(), offset, limit),
            s.fetch == Fetch::All,
            !s.commit,
    {
        list_statement("SELECT * FROM \"transaction\" ", filter, offset, limit)
    }
}

impl CreateRepository<TransactionCreate, Transaction> for TransactionRepository {
    fn create(&self, create_model: TransactionCreate) -> (s: Statement)
        ensures
            s.query@ == transaction_create_query(create_model),
            s.fetch == Fetch::One,
            s.commit,
    {
        let ghost g_create_model = create_model;
        let texts = vec!["INSERT INTO \"transaction\" (account_id, asset_id, description, posted_at, quantity) VALUES (", ", ", ", ", ", ", ", ", ") RETURNING *"];
        let values = vec![BindValue::Uuid(create_model.account_id.0), BindValue::Uuid(create_model.asset_id.0), BindValue::OptionalText(create_model.description), BindValue::Timestamp(create_model.posted_at), BindValue::Int(create_model.quantity)];
        assert(str_views(texts@) =~= seq!["INSERT INTO \"transaction\" (account_id, asset_id, description, posted_at, quantity) VALUES ("@, ", "@, ", "@, ", "@, ", "@, ") RETURNING *"@]);
        assert(bind_views(values@) =~= seq![Param::Uuid(g_create_model.account_id.0), Param::Uuid(g_create_model.asset_id.0), Param::OptionalText(option_string_view(g_create_model.description)), Param::Timestamp(g_create_model.posted_at.0), Param::Int(g_create_model.quantity)]);
        interleaved(&texts, values, Fetch::One, true)
    }
}

impl UpdateRepository<Transaction> for TransactionRepository {
    fn update(&self, model: Transaction) -> (s: Statement)
        ensures
            s.query@ == transaction_update_query(model),
            s.fetch == Fetch::One,
            s.commit,
    {
        let ghost g_model = model;
        let texts = vec!["UPDATE \"transaction\" SET account_id = ", ", asset_id = ", ", description = ", ", posted_at = ", ", quantity = ", " WHERE id = ", " RETURNING *"];
        let values = vec![BindValue::Uuid(model.account_id.0), BindValue::Uuid(model.asset_id.0), BindValue::OptionalText(model.description), BindValue::Timestamp(model.posted_at), BindValue::Int(model.quantity), BindValue::Int(model.id.0)];
        assert(str_views(texts@) =~= seq!["UPDATE \"transaction\" SET account_id = "@, ", asset_id = "@, ", description = "@, ", posted_at = "@, ", quantity = "@, " WHERE id = "@, " RETURNING *"@]);
        assert(bind_views(values@) =~= seq![Param::Uuid(g_model.account_id.0), Param::Uuid(g_model.asset_id.0), Param::OptionalText(option_string_view(g_model.description)), Param::Timestamp(g_model.posted_at.0), Param::Int(g_model.quantity), Param::Int(g_model.id.0)]);
        interleaved(&texts, values, Fetch::One, true)
    }
}

impl DeleteRepository<TransactionId, Transaction> for TransactionRepository {
    fn delete(&self, id: TransactionId) -> (s: Statement)
        ensures
            s.query@ == transaction_delete_query(id),
            s.fetch == Fetch::One,
            s.commit,
    {
        let texts = vec!["DELETE FROM \"transaction\" WHERE id = ", " RETURNING *"];
        let values = vec![BindValue::Int(id.0)];
        assert(str_views(texts@) =~= seq!["DELETE FROM \"transaction\" WHERE id = "@, " RETURNING *"@]);
        assert(bind_views(values@) =~= seq![Param::Int(id.0)]);
        interleaved(&texts, values, Fetch::One, true)
    }
}

impl Repository<TransactionId, Transaction, TransactionCreate, TransactionFilter> for TransactionRepository {}

impl TransactionRepository {
    pub fn get_with_user_id(&self, transaction_id: TransactionId, user_id: UserId) -> (s: Statement)
        ensures
            s.query@ == owned_transaction_get_query(transaction_id, user_id),
            s.fetch == Fetch::One,
            !s.commit,
    {
        let texts = vec!["SELECT t.* FROM \"transaction\" t JOIN account a ON t.account_id = a.id WHERE t.id = ", " AND a.user_id = "];
        let values = vec![BindValue::Int(transaction_id.0), BindValue::Uuid(user_id.0)];
        assert(str_views(texts@) =~= seq!["SELECT t.* FROM \"transaction\" t JOIN account a ON t.account_id = a.id WHERE t.id = "@, " AND a.user_id = "@]);
        assert(bind_views(values@) =~= seq![Param::Int(transaction_id.0), Param::Uuid(user_id.0)]);
        interleaved(&texts, values, Fetch::One, false)
    }
    pub fn create_with_user_id(&self, create_model: TransactionCreate, user_id: UserId) -> (s: Statement)
        ensures
            s.query@ == owned_transaction_create_query(create_model, user_id),
            s.fetch == Fetch::One,
            s.commit,
    {
        let ghost g_create_model = create_model;
        let texts = vec!["INSERT INTO \"transaction\" (account_id, asset_id, description, posted_at, quantity) SELECT ", ", ", ", ", ", ", ", ", " WHERE EXISTS (SELECT 1 FROM account WHERE id = ", " AND user_id = ", ") RETURNING *"];
        let values = vec![BindValue::Uuid(create_model.account_id.0), BindValue::Uuid(create_model.asset_id.0), BindValue::OptionalText(create_model.description), BindValue::Timestamp(create_model.posted_at), BindValue::Int(create_model.quantity), BindValue::Uuid(create_model.account_id.0), BindValue::Uuid(user_id.0)];
        assert(str_views(texts@) =~= seq!["INSERT INTO \"transaction\" (account_id, asset_id, description, posted_at, quantity) SELECT "@, ", "@, ", "@, ", "@, ", "@, " WHERE EXISTS (SELECT 1 FROM account WHERE id = "@, " AND user_id = "@, ") RETURNING *"@]);
        assert(bind_views(values@) =~= seq![Param::Uuid(g_create_model.account_id.0), Param::Uuid(g_create_model.asset_id.0), Param::OptionalText(option_string_view(g_create_model.description)), Param::Timestamp(g_create_model.posted_at.0), Param::Int(g_create_model.quantity), Param::Uuid(g_create_model.account_id.0), Param::Uuid(user_id.0)]);
        interleaved(&texts, values, Fetch::One, true)
    }
    pub fn update_with_user_id(&self, model: Transaction, user_id: UserId) -> (s: Statement)
        ensures
            s.query@ == owned_transaction_update_query(model, user_id),
            s.fetch == Fetch::One,
            s.commit,
    {
        let ghost g_model = model;
        let texts = vec!["UPDATE \"transaction\" SET asset_id = ", ", description = ", ", posted_at = ", ", quantity = ", " WHERE id = ", " AND account_id IN (SELECT id FROM account WHERE user_id = ", ") RETURNING *"];
        let values = vec![BindValue::Uuid(model.asset_id.0), BindValue::OptionalText(model.description), BindValue::Timestamp(model.posted_at), BindValue::Int(model.quantity), BindValue::Int(model.id.0), BindValue::Uuid(user_id.0)];
        assert(str_views(texts@) =~= seq!["UPDATE \"transaction\" SET asset_id = "@, ", description = "@, ", posted_at = "@, ", quantity = "@, " WHERE id = "@, " AND account_id IN (SELECT id FROM account WHERE user_id = "@, ") RETURNING *"@]);
        assert(bind_views(values@) =~= seq![Param::Uuid(g_model.asset_id.0), Param::OptionalText(option_string_view(g_model.description)), Param::Timestamp(g_model.posted_at.0), Param::Int(g_model.quantity), Param::Int(g_model.id.0), Param::Uuid(user_id.0)]);
        interleaved(&texts, values, Fetch::One, true)
    }
    pub fn delete_with_user_id(&self, id: TransactionId, user_id: UserId) -> (s: Statement)
        ensures
            s.query@ == owned_transaction_delete_query(id, user_id),
            s.fetch == Fetch::One,
            s.commit,
    {
        let texts = vec!["DELETE FROM \"transaction\" WHERE id = ", " AND account_id IN (SELECT id FROM account WHERE user_id = ", ") RETURNING *"];
        let values = vec![BindValue::Int(id.0), BindValue::Uuid(user_id.0)];
        assert(str_views(texts@) =~= seq!["DELETE FROM \"transaction\" WHERE id = "@, " AND account_id IN (SELECT id FROM account WHERE user_id = "@, ") RETURNING *"@]);
        assert(bind_views(values@) =~= seq![Param::Int(id.0), Param::Uuid(user_id.0)]);
        interleaved(&texts, values, Fetch::One, true)
    }
    /// Lists the transactions of the user's accounts that match the filter.
    pub fn get_list_with_user_id(
        &self,
        offset: i64,
        limit: Option<i64>,
        user_id: UserId,
        filter: TransactionFilter,
    ) -> (s: Statement)
        ensures
            s.query@ == seq![
                SqlPart::Text("SELECT t.* FROM \"transaction\" t WHERE t.account_id IN (SELECT id FROM account WHERE user_id ="@),
                SqlPart::Param(Param::Uuid(user_id.0)),
                SqlPart::Text(")"@),
            ] + and_clause(owned_conditions(filter)) + paging(offset, limit),
            s.fetch == Fetch::All,
            !s.commit,
    {
        let ghost conds = owned_conditions(filter);
        let mut conditions: Vec<SqlQuery> = Vec::new();
        if let Some(description) = filter.description {
            let pattern = "%".to_owned().concat(description.as_str()).concat("%");
            conditions.push(column_condition("t.description ILIKE ", BindValue::Text(pattern)));
        }
        assert(query_views(conditions@) =~= match filter.description {
            Some(d) => seq![condition("t.description ILIKE "@, Param::Text("%"@ + d@ + "%"@))],
            None => Seq::<Seq<SqlPart>>::empty(),
        });
        let asset = match filter.asset_id {
            Some(a) => Some(a.0),
            None => None,
        };
        let account = match filter.account_id {
            Some(a) => Some(a.0),
            None => None,
        };
        push_optional_condition(&mut conditions, "t.asset_id = ", bind_uuid(asset));
        push_optional_condition(&mut conditions, "t.account_id = ", bind_uuid(account));
        push_optional_condition(&mut conditions, "t.quantity = ", bind_int(filter.quantity));
        push_optional_condition(&mut conditions, "t.quantity <= ", bind_int(filter.max_quantity));
        push_optional_condition(&mut conditions, "t.quantity >= ", bind_int(filter.min_quantity));
        push_optional_condition(&mut conditions, "t.posted_at = ", bind_time(filter.posted_at));
        push_optional_condition(&mut conditions, "t.posted_at < ", bind_time(filter.posted_before));
        push_optional_condition(&mut conditions, "t.posted_at > ", bind_time(filter.posted_after));
        assert(query_views(conditions@) =~= conds);
        let mut query = SqlQuery::new("SELECT t.* FROM \"transaction\" t WHERE t.account_id IN (SELECT id FROM account WHERE user_id =");
        query.push_bind(BindValue::Uuid(user_id.0));
        query.push(")");
        push_and_conditions(&mut query, conditions);
        push_paging(&mut query, offset, limit);
        Statement { query, fetch: Fetch::All, commit: false }
    }
}

} // verus!
