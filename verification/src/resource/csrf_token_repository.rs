use vstd::prelude::*;

use crate::model::csrf_token::CsrfToken;
use crate::resource::{
    bind_views, interleave, interleaved, list_query, list_statement, str_views, BindValue, CreateRepository,
    DeleteRepository, Fetch, GetListRepository, GetRepository, Param, Repository, SqlPart, Statement, UpdateRepository,
};

verus! {

/// The statements on sign-in anti-forgery tokens.
#[derive(Debug, Clone, Copy)]
pub struct CsrfTokenRepository;

impl GetRepository<String, CsrfToken> for CsrfTokenRepository {
    fn get(&self, id: String) -> (s: Statement)
        ensures
            s.query@ == interleave(seq!["SELECT * FROM csrf_token WHERE token = "@], seq![Param::Text(id@)]),
            s.fetch == Fetch::One,
            !s.commit,
    {
        let ghost g_id = id;
        let texts = vec!["SELECT * FROM csrf_token WHERE token = "];
        let values = vec![BindValue::Text(id)];
        assert(str_views(texts@) =~= seq!["SELECT * FROM csrf_token WHERE token = "@]);
        assert(bind_views(values@) =~= seq![Param::Text(g_id@)]);
        interleaved(&texts, values, Fetch::One, false)
    }
}

impl CreateRepository<CsrfToken, CsrfToken> for CsrfTokenRepository {
    fn create(&self, create_model: CsrfToken) -> (s: Statement)
        ensures
            s.query@ == interleave(seq!["INSERT INTO csrf_token (token) VALUES ("@, ") RETURNING *"@], seq![Param::Text(create_model.token@)]),
            s.fetch == Fetch::One,
            s.commit,
    {
        let ghost g_create_model = create_model;
        let texts = vec!["INSERT INTO csrf_token (token) VALUES (", ") RETURNING *"];
        let values = vec![BindValue::Text(create_model.token)];
        assert(str_views(texts@) =~= seq!["INSERT INTO csrf_token (token) VALUES ("@, ") RETURNING *"@]);
        assert(bind_views(values@) =~= seq![Param::Text(g_create_model.token@)]);
        interleaved(&texts, values, Fetch::One, true)
    }
}

impl DeleteRepository<String, CsrfToken> for CsrfTokenRepository {
    fn delete(&self, id: String) -> (s: Statement)
        ensures
            s.query@ == interleave(seq!["DELETE FROM csrf_token WHERE token = "@, " RETURNING *"@], seq![Param::Text(id@)]),
            s.fetch == Fetch::One,
            s.commit,
    {
        let ghost g_id = id;
        let texts = vec!["DELETE FROM csrf_token WHERE token = ", " RETURNING *"];
        let values = vec![BindValue::Text(id)];
        assert(str_views(texts@) =~= seq!["DELETE FROM csrf_token WHERE token = "@, " RETURNING *"@]);
        assert(bind_views(values@) =~= seq![Param::Text(g_id@)]);
        interleaved(&texts, values, Fetch::One, true)
    }
}

} // verus!
