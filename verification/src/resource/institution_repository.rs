use vstd::prelude::*;

use crate::model::institution::{Institution, InstitutionCreate, InstitutionFilter, InstitutionId};
use crate::model::Filter;
use crate::resource::{
    bind_views, interleave, interleaved, list_query, list_statement, str_views, BindValue, CreateRepository,
    DeleteRepository, Fetch, GetListRepository, GetRepository, Param, Repository, SqlPart, Statement, UpdateRepository,
};

verus! {

/// The query that reads one institution by id.
pub open spec fn institution_get_query(id: InstitutionId) -> Seq<SqlPart> {
    interleave(seq!["SELECT * FROM institution WHERE id = "@], seq![Param::Uuid(id.0)])
}

/// The query that creates a institution.
pub open spec fn institution_create_query(create_model: InstitutionCreate) -> Seq<SqlPart> {
    interleave(seq!["INSERT INTO institution (name) VALUES ("@, ") RETURNING *"@], seq![Param::Text(create_model.name@)])
}

/// The query that writes a institution over the stored one.
pub open spec fn institution_update_query(model: Institution) -> Seq<SqlPart> {
    interleave(seq!["UPDATE institution SET name = "@, " WHERE id = "@, " RETURNING *"@], seq![Param::Text(model.name@), Param::Uuid(model.id.0)])
}

/// The query that deletes a institution by id.
pub open spec fn institution_delete_query(id: InstitutionId) -> Seq<SqlPart> {
    interleave(seq!["DELETE FROM institution WHERE id = "@, " RETURNING *"@], seq![Param::Uuid(id.0)])
}

/// The statements on institutions.
#[derive(Debug, Clone, Copy)]
pub struct InstitutionRepository;

impl GetRepository<InstitutionId, Institution> for InstitutionRepository {
    fn get(&self, id: InstitutionId) -> (s: Statement)
        ensures
            s.query@ == institution_get_query(id),
            s.fetch == Fetch::One,
            !s.commit,
    {
        let texts = vec!["SELECT * FROM institution WHERE id = "];
        let values = vec![BindValue::Uuid(id.0)];
        assert(str_views(texts@) =~= seq!["SELECT * FROM institution WHERE id = "@]);
        assert(bind_views(values@) =~= seq![Param::Uuid(id.0)]);
        interleaved(&texts, values, Fetch::One, false)
    }
}

impl GetListRepository<Institution, InstitutionFilter> for InstitutionRepository {
    fn get_list(&self, offset: i64, limit: Option<i64>, filter: InstitutionFilter) -> (s: Statement)
        ensures
            s.query@ == list_query("SELECT * FROM institution "@, filter.spec_conditions(), offset, limit),
            s.fetch == Fetch::All,
            !s.commit,
    {
        list_statement("SELECT * FROM institution ", filter, offset, limit)
    }
}

impl CreateRepository<InstitutionCreate, Institution> for InstitutionRepository {
    fn create(&self, create_model: InstitutionCreate) -> (s: Statement)
        ensures
            s.query@ == institution_create_query(create_model),
            s.fetch == Fetch::One,
            s.commit,
    {
        let ghost g_create_model = create_model;
        let texts = vec!["INSERT INTO institution (name) VALUES (", ") RETURNING *"];
        let values = vec![BindValue::Text(create_model.name)];
        assert(str_views(texts@) =~= seq!["INSERT INTO institution (name) VALUES ("@, ") RETURNING *"@]);
        assert(bind_views(values@) =~= seq![Param::Text(g_create_model.name@)]);
        interleaved(&texts, values, Fetch::One, true)
    }
}

impl UpdateRepository<Institution> for InstitutionRepository {
    fn update(&self, model: Institution) -> (s: Statement)
        ensures
            s.query@ == institution_update_query(model),
            s.fetch == Fetch::One,
            s.commit,
    {
        let ghost g_model = model;
        let texts = vec!["UPDATE institution SET name = ", " WHERE id = ", " RETURNING *"];
        let values = vec![BindValue::Text(model.name), BindValue::Uuid(model.id.0)];
        assert(str_views(texts@) =~= seq!["UPDATE institution SET name = "@, " WHERE id = "@, " RETURNING *"@]);
        assert(bind_views(values@) =~= seq![Param::Text(g_model.name@), Param::Uuid(g_model.id.0)]);
        interleaved(&texts, values, Fetch::One, true)
    }
}

impl DeleteRepository<InstitutionId, Institution> for InstitutionRepository {
    fn delete(&self, id: InstitutionId) -> (s: Statement)
        ensures
            s.query@ == institution_delete_query(id),
            s.fetch == Fetch::One,
            s.commit,
    {
        let texts = vec!["DELETE FROM institution WHERE id = ", " RETURNING *"];
        let values = vec![BindValue::Uuid(id.0)];
        assert(str_views(texts@) =~= seq!["DELETE FROM institution WHERE id = "@, " RETURNING *"@]);
        assert(bind_views(values@) =~= seq![Param::Uuid(id.0)]);
        interleaved(&texts, values, Fetch::One, true)
    }
}

impl Repository<InstitutionId, Institution, InstitutionCreate, InstitutionFilter> for InstitutionRepository {}

} // verus!
