use vstd::prelude::*;

use crate::model::asset::{Asset, AssetCreate, AssetFilter, AssetId};
use crate::model::Filter;
use crate::resource::{
    bind_views, interleave, interleaved, list_query, list_statement, str_views, BindValue, CreateRepository,
    DeleteRepository, Fetch, GetListRepository, GetRepository, Param, Repository, SqlPart, Statement, UpdateRepository,
};

verus! {

/// The query that reads one asset by id.
pub open spec fn asset_get_query(id: AssetId) -> Seq<SqlPart> {
    interleave(seq!["SELECT * FROM asset WHERE id = "@], seq![Param::Uuid(id.0)])
}

/// The query that creates a asset.
pub open spec fn asset_create_query(create_model: AssetCreate) -> Seq<SqlPart> {
    interleave(seq!["INSERT INTO asset (name, symbol) VALUES ("@, ", "@, ") RETURNING *"@], seq![Param::Text(create_model.name@), Param::Text(create_model.symbol@)])
}

/// The query that writes a asset over the stored one.
pub open spec fn asset_update_query(model: Asset) -> Seq<SqlPart> {
    interleave(seq!["UPDATE asset SET name = "@, ", symbol = "@, " WHERE id = "@, " RETURNING *"@], seq![Param::Text(model.name@), Param::Text(model.symbol@), Param::Uuid(model.id.0)])
}

/// The query that deletes a asset by id.
pub open spec fn asset_delete_query(id: AssetId) -> Seq<SqlPart> {
    interleave(seq!["DELETE FROM asset WHERE id = "@, " RETURNING *"@], seq![Param::Uuid(id.0)])
}

/// The statements on assets.
#[derive(Debug, Clone, Copy)]
pub struct AssetRepository;

impl GetRepository<AssetId, Asset> for AssetRepository {
    fn get(&self, id: AssetId) -> (s: Statement)
        ensures
            s.query@ == asset_get_query(id),
            s.fetch == Fetch::One,
            !s.commit,
    {
        let texts = vec!["SELECT * FROM asset WHERE id = "];
        let values = vec![BindValue::Uuid(id.0)];
        assert(str_views(texts@) =~= seq!["SELECT * FROM asset WHERE id = "@]);
        assert(bind_views(values@) =~= seq![Param::Uuid(id.0)]);
        interleaved(&texts, values, Fetch::One, false)
    }
}

impl GetListRepository<Asset, AssetFilter> for AssetRepository {
    fn get_list(&self, offset: i64, limit: Option<i64>, filter: AssetFilter) -> (s: Statement)
        ensures
            s.query@ == list_query("SELECT * FROM asset "@, filter.spec_conditions(), offset, limit),
            s.fetch == Fetch::All,
            !s.commit,
    {
        list_statement("SELECT * FROM asset ", filter, offset, limit)
    }
}

impl CreateRepository<AssetCreate, Asset> for AssetRepository {
    fn create(&self, create_model: AssetCreate) -> (s: Statement)
        ensures
            s.query@ == asset_create_query(create_model),
            s.fetch == Fetch::One,
            s.commit,
    {
        let ghost g_create_model = create_model;
        let texts = vec!["INSERT INTO asset (name, symbol) VALUES (", ", ", ") RETURNING *"];
        let values = vec![BindValue::Text(create_model.name), BindValue::Text(create_model.symbol)];
        assert(str_views(texts@) =~= seq!["INSERT INTO asset (name, symbol) VALUES ("@, ", "@, ") RETURNING *"@]);
        assert(bind_views(values@) =~= seq![Param::Text(g_create_model.name@), Param::Text(g_create_model.symbol@)]);
        interleaved(&texts, values, Fetch::One, true)
    }
}

impl UpdateRepository<Asset> for AssetRepository {
    fn update(&self, model: Asset) -> (s: Statement)
        ensures
            s.query@ == asset_update_query(model),
            s.fetch == Fetch::One,
            s.commit,
    {
        let ghost g_model = model;
        let texts = vec!["UPDATE asset SET name = ", ", symbol = ", " WHERE id = ", " RETURNING *"];
        let values = vec![BindValue::Text(model.name), BindValue::Text(model.symbol), BindValue::Uuid(model.id.0)];
        assert(str_views(texts@) =~= seq!["UPDATE asset SET name = "@, ", symbol = "@, " WHERE id = "@, " RETURNING *"@]);
        assert(bind_views(values@) =~= seq![Param::Text(g_model.name@), Param::Text(g_model.symbol@), Param::Uuid(g_model.id.0)]);
        interleaved(&texts, values, Fetch::One, true)
    }
}

impl DeleteRepository<AssetId, Asset> for AssetRepository {
    fn delete(&self, id: AssetId) -> (s: Statement)
        ensures
            s.query@ == asset_delete_query(id),
            s.fetch == Fetch::One,
            s.commit,
    {
        let texts = vec!["DELETE FROM asset WHERE id = ", " RETURNING *"];
        let values = vec![BindValue::Uuid(id.0)];
        assert(str_views(texts@) =~= seq!["DELETE FROM asset WHERE id = "@, " RETURNING *"@]);
        assert(bind_views(values@) =~= seq![Param::Uuid(id.0)]);
        interleaved(&texts, values, Fetch::One, true)
    }
}

impl Repository<AssetId, Asset, AssetCreate, AssetFilter> for AssetRepository {}

} // verus!
