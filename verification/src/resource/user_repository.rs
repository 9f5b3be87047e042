use vstd::prelude::*;

use crate::model::user::{User, UserCreate, UserFilter, UserId};
use crate::model::Filter;
use crate::resource::{
    bind_views, interleave, interleaved, list_query, list_statement, str_views, BindValue, CreateRepository,
    DeleteRepository, Fetch, GetListRepository, GetRepository, Param, Repository, SqlPart, Statement, UpdateRepository,
};

verus! {

/// The query that reads one user by id.
pub open spec fn user_get_query(id: UserId) -> Seq<SqlPart> {
    interleave(seq!["SELECT * FROM \"user\" WHERE id = "@], seq![Param::Uuid(id.0)])
}

/// The query that registers a user with its name, email and OAuth subject and issuer.
pub open spec fn user_create_query(create_model: UserCreate) -> Seq<SqlPart> {
    interleave(seq!["INSERT INTO \"user\" (name, email, sub, iss) VALUES ("@, ", "@, ", "@, ", "@, ") RETURNING *"@], seq![Param::Text(create_model.name@), Param::Text(create_model.email@), Param::Text(create_model.sub@), Param::Text(create_model.iss@)])
}

/// The query that writes a user's name and email over the stored ones.
pub open spec fn user_update_query(model: User) -> Seq<SqlPart> {
    interleave(seq!["UPDATE \"user\" SET name = "@, ", email = "@, " WHERE id = "@, " RETURNING *"@], seq![Param::Text(model.name@), Param::Text(model.email@), Param::Uuid(model.id.0)])
}

/// The query that deletes a user by id.
pub open spec fn user_delete_query(id: UserId) -> Seq<SqlPart> {
    interleave(seq!["DELETE FROM \"user\" WHERE id = "@, " RETURNING *"@], seq![Param::Uuid(id.0)])
}

/// The statements on users.
#[derive(Debug, Clone, Copy)]
pub struct UserRepository;

impl GetRepository<UserId, User> for UserRepository {
    fn get(&self, id: UserId) -> (s: Statement)
        ensures
            s.query@ == user_get_query(id),
            s.fetch == Fetch::One,
            !s.commit,
    {
        let texts = vec!["SELECT * FROM \"user\" WHERE id = "];
        let values = vec![BindValue::Uuid(id.0)];
        assert(str_views(texts@) =~= seq!["SELECT * FROM \"user\" WHERE id = "@]);
        assert(bind_views(values@) =~= seq![Param::Uuid(id.0)]);
        interleaved(&texts, values, Fetch::One, false)
    }
}

impl GetListRepository<User, UserFilter> for UserRepository {
    fn get_list(&self, offset: i64, limit: Option<i64>, filter: UserFilter) -> (s: Statement)
        ensures
            s.query@ == list_query("SELECT * FROM \"user\" "@, filter.spec_conditions(), offset, limit),
            s.fetch == Fetch::All,
            !s.commit,
    {
        list_statement("SELECT * FROM \"user\" ", filter, offset, limit)
    }
}

impl CreateRepository<UserCreate, User> for UserRepository {
    fn create(&self, create_model: UserCreate) -> (s: Statement)
        ensures
            s.query@ == user_create_query(create_model),
            s.fetch == Fetch::One,
            s.commit,
    {
        let ghost g_create_model = create_model;
        let texts = vec!["INSERT INTO \"user\" (name, email, sub, iss) VALUES (", ", ", ", ", ", ", ") RETURNING *"];
        let values = vec![BindValue::Text(create_model.name), BindValue::Text(create_model.email), BindValue::Text(create_model.sub), BindValue::Text(create_model.iss)];
        assert(str_views(texts@) =~= seq!["INSERT INTO \"user\" (name, email, sub, iss) VALUES ("@, ", "@, ", "@, ", "@, ") RETURNING *"@]);
        assert(bind_views(values@) =~= seq![Param::Text(g_create_model.name@), Param::Text(g_create_model.email@), Param::Text(g_create_model.sub@), Param::Text(g_create_model.iss@)]);
        interleaved(&texts, values, Fetch::One, true)
    }
}

impl UpdateRepository<User> for UserRepository {
    fn update(&self, model: User) -> (s: Statement)
        ensures
            s.query@ == user_update_query(model),
            s.fetch == Fetch::One,
            s.commit,
    {
        let ghost g_model = model;
        let texts = vec!["UPDATE \"user\" SET name = ", ", email = ", " WHERE id = ", " RETURNING *"];
        let values = vec![BindValue::Text(model.name), BindValue::Text(model.email), BindValue::Uuid(model.id.0)];
        assert(str_views(texts@) =~= seq!["UPDATE \"user\" SET name = "@, ", email = "@, " WHERE id = "@, " RETURNING *"@]);
        assert(bind_views(values@) =~= seq![Param::Text(g_model.name@), Param::Text(g_model.email@), Param::Uuid(g_model.id.0)]);
        interleaved(&texts, values, Fetch::One, true)
    }
}

impl DeleteRepository<UserId, User> for UserRepository {
    fn delete(&self, id: UserId) -> (s: Statement)
        ensures
            s.query@ == user_delete_query(id),
            s.fetch == Fetch::One,
            s.commit,
    {
        let texts = vec!["DELETE FROM \"user\" WHERE id = ", " RETURNING *"];
        let values = vec![BindValue::Uuid(id.0)];
        assert(str_views(texts@) =~= seq!["DELETE FROM \"user\" WHERE id = "@, " RETURNING *"@]);
        assert(bind_views(values@) =~= seq![Param::Uuid(id.0)]);
        interleaved(&texts, values, Fetch::One, true)
    }
}

impl Repository<UserId, User, UserCreate, UserFilter> for UserRepository {}

} // verus!
