use vstd::prelude::*;

use crate::model::account::{Account, AccountCreate, AccountFilter, AccountId};
use crate::model::Filter;
use crate::resource::{
    bind_views, interleave, interleaved, list_query, list_statement, str_views, BindValue, CreateRepository,
    DeleteRepository, Fetch, GetListRepository, GetRepository, Param, Repository, SqlPart, Statement, UpdateRepository,
};

verus! {

/// The query that reads one account by id.
pub open spec fn account_get_query(id: AccountId) -> Seq<SqlPart> {
    interleave(seq!["SELECT * FROM account WHERE id = "@], seq![Param::Uuid(id.0)])
}

/// The query that creates a account.
pub open spec fn account_create_query(create_model: AccountCreate) -> Seq<SqlPart> {
    interleave(seq!["INSERT INTO account (name, institution_id, user_id) VALUES ("@, ", "@, ", "@, ") RETURNING *"@], seq![Param::Text(create_model.name@), Param::Uuid(create_model.institution_id.0), Param::Uuid(create_model.user_id.0)])
}

/// The query that writes a account over the stored one.
pub open spec fn account_update_query(model: Account) -> Seq<SqlPart> {
    interleave(seq!["UPDATE account SET name = "@, ", institution_id = "@, ", user_id = "@, " WHERE id = "@, " RETURNING *"@], seq![Param::Text(model.name@), Param::Uuid(model.institution_id.0), Param::Uuid(model.user_id.0), Param::Uuid(model.id.0)])
}

/// The query that deletes a account by id.
pub open spec fn account_delete_query(id: AccountId) -> Seq<SqlPart> {
    interleave(seq!["DELETE FROM account WHERE id = "@, " RETURNING *"@], seq![Param::Uuid(id.0)])
}

/// The statements on accounts.
#[derive(Debug, Clone, Copy)]
pub struct AccountRepository;

impl GetRepository<AccountId, Account> for AccountRepository {
    fn get(&self, id: AccountId) -> (s: Statement)
        ensures
            s.query@ == account_get_query(id),
            s.fetch == Fetch::One,
            !s.commit,
    {
        let texts = vec!["SELECT * FROM account WHERE id = "];
        let values = vec![BindValue::Uuid(id.0)];
        assert(str_views(texts@) =~= seq!["SELECT * FROM account WHERE id = "@]);
        assert(bind_views(values@) =~= seq![Param::Uuid(id.0)]);
        interleaved(&texts, values, Fetch::One, false)
    }
}

impl GetListRepository<Account, AccountFilter> for AccountRepository {
    fn get_list(&self, offset: i64, limit: Option<i64>, filter: AccountFilter) -> (s: Statement)
        ensures
            s.query@ == list_query("SELECT * FROM account "@, filter.spec_conditions(), offset, limit),
            s.fetch == Fetch::All,
            !s.commit,
    {
        list_statement("SELECT * FROM account ", filter, offset, limit)
    }
}

impl CreateRepository<AccountCreate, Account> for AccountRepository {
    fn create(&self, create_model: AccountCreate) -> (s: Statement)
        ensures
            s.query@ == account_create_query(create_model),
            s.fetch == Fetch::One,
            s.commit,
    {
        let ghost g_create_model = create_model;
        let texts = vec!["INSERT INTO account (name, institution_id, user_id) VALUES (", ", ", ", ", ") RETURNING *"];
        let values = vec![BindValue::Text(create_model.name), BindValue::Uuid(create_model.institution_id.0), BindValue::Uuid(create_model.user_id.0)];
        assert(str_views(texts@) =~= seq!["INSERT INTO account (name, institution_id, user_id) VALUES ("@, ", "@, ", "@, ") RETURNING *"@]);
        assert(bind_views(values@) =~= seq![Param::Text(g_create_model.name@), Param::Uuid(g_create_model.institution_id.0), Param::Uuid(g_create_model.user_id.0)]);
        interleaved(&texts, values, Fetch::One, true)
    }
}

impl UpdateRepository<Account> for AccountRepository {
    fn update(&self, model: Account) -> (s: Statement)
        ensures
            s.query@ == account_update_query(model),
            s.fetch == Fetch::One,
            s.commit,
    {
        let ghost g_model = model;
        let texts = vec!["UPDATE account SET name = ", ", institution_id = ", ", user_id = ", " WHERE id = ", " RETURNING *"];
        let values = vec![BindValue::Text(model.name), BindValue::Uuid(model.institution_id.0), BindValue::Uuid(model.user_id.0), BindValue::Uuid(model.id.0)];
        assert(str_views(texts@) =~= seq!["UPDATE account SET name = "@, ", institution_id = "@, ", user_id = "@, " WHERE id = "@, " RETURNING *"@]);
        assert(bind_views(values@) =~= seq![Param::Text(g_model.name@), Param::Uuid(g_model.institution_id.0), Param::Uuid(g_model.user_id.0), Param::Uuid(g_model.id.0)]);
        interleaved(&texts, values, Fetch::One, true)
    }
}

impl DeleteRepository<AccountId, Account> for AccountRepository {
    fn delete(&self, id: AccountId) -> (s: Statement)
        ensures
            s.query@ == account_delete_query(id),
            s.fetch == Fetch::One,
            s.commit,
    {
        let texts = vec!["DELETE FROM account WHERE id = ", " RETURNING *"];
        let values = vec![BindValue::Uuid(id.0)];
        assert(str_views(texts@) =~= seq!["DELETE FROM account WHERE id = "@, " RETURNING *"@]);
        assert(bind_views(values@) =~= seq![Param::Uuid(id.0)]);
        interleaved(&texts, values, Fetch::One, true)
    }
}

impl Repository<AccountId, Account, AccountCreate, AccountFilter> for AccountRepository {}

} // verus!
