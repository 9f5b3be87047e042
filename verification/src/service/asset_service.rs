use vstd::prelude::*;

use crate::authorization::actions::{CreateLevel, DeleteLevel, ReadLevel, UpdateLevel};
use crate::authorization::PermissionSet;
use crate::model::asset::{Asset, AssetCreate, AssetFilter, AssetId, AssetUpdate};
use crate::model::Filter;
use crate::resource::asset_repository::{
    asset_create_query, asset_delete_query, asset_get_query, asset_update_query, AssetRepository,
};
use crate::resource::{
    bound_params, lemma_interleave_binds, Param, list_query, CreateRepository, DeleteRepository, Fetch, GetListRepository, GetRepository, UpdateRepository,
};
use crate::service::{
    runs, ServiceCreate, ServiceCrud, ServiceDelete, ServiceError, ServiceGet, ServiceGetList, ServiceUpdate,
    Step,
};

verus! {

/// `asset` with the fields that `update_model` sets.
pub open spec fn updated_asset(asset: Asset, update_model: AssetUpdate) -> Asset {
    Asset {
        name: match update_model.name {
            Some(n) => n,
            None => asset.name,
        },
        symbol: match update_model.symbol {
            Some(s) => s,
            None => asset.symbol,
        },
        ..asset
    }
}

/// An update writes each field it sets and keeps each field it leaves
/// unset, and the statement that stores the asset binds the new name and
/// symbol: a set `symbol` of `e` is the symbol written.
pub proof fn lemma_update_writes_set_fields(asset: Asset, update_model: AssetUpdate)
    ensures
        update_model.name matches Some(n) ==> updated_asset(asset, update_model).name == n,
        update_model.name is None ==> updated_asset(asset, update_model).name == asset.name,
        update_model.symbol matches Some(e) ==> updated_asset(asset, update_model).symbol == e,
        update_model.symbol is None ==> updated_asset(asset, update_model).symbol == asset.symbol,
        updated_asset(asset, update_model).id == asset.id,
        updated_asset(asset, update_model).created_at == asset.created_at,
        bound_params(asset_update_query(updated_asset(asset, update_model))) == seq![
            Param::Text(updated_asset(asset, update_model).name@),
            Param::Text(updated_asset(asset, update_model).symbol@),
            Param::Uuid(asset.id.0),
        ],
        update_model.symbol matches Some(e) ==> bound_params(asset_update_query(updated_asset(asset, update_model)))[1] == Param::Text(e@),
        update_model.name matches Some(n) ==> bound_params(asset_update_query(updated_asset(asset, update_model)))[0] == Param::Text(n@),
{
    let w = updated_asset(asset, update_model);
    lemma_interleave_binds(
        seq!["UPDATE asset SET name = "@, ", symbol = "@, " WHERE id = "@, " RETURNING *"@],
        seq![Param::Text(w.name@), Param::Text(w.symbol@), Param::Uuid(w.id.0)],
    );
}

fn apply_update(asset: Asset, update_model: AssetUpdate) -> (r: Asset)
    ensures
        r == updated_asset(asset, update_model),
{
    let mut asset = asset;
    if let Some(name) = update_model.name {
        asset.name = name;
    }
    if let Some(symbol) = update_model.symbol {
        asset.symbol = symbol;
    }
    asset
}

/// The operations on assets, as far as the permissions allow. Assets
/// are shared by all users: only the plain levels give access, the `All`
/// levels give none.
pub trait AssetServiceMethods: ServiceCrud<
    AssetId,
    Asset,
    AssetFilter,
    AssetCreate,
    AssetUpdate,
> {

}

/// The asset service of a requester.
pub struct AssetService {
    asset_repository: AssetRepository,
    permissions: PermissionSet,
}

impl AssetService {
    /// The permissions the service acts with.
    pub closed spec fn spec_permissions(&self) -> PermissionSet {
        self.permissions
    }

    pub fn new(asset_repository: AssetRepository, permissions: PermissionSet) -> (s: Self)
        ensures
            s.spec_permissions() == permissions,
    {
        AssetService { asset_repository, permissions }
    }

    /// The permissions the service acts with.
    pub fn permissions(&self) -> (p: PermissionSet)
        ensures
            p == self.spec_permissions(),
    {
        self.permissions
    }
}

impl ServiceGet<AssetId, Asset> for AssetService {
    fn get(&self, id: AssetId) -> (s: Step<Asset>)
        ensures
            self.spec_permissions().read_level is Read ==> (s matches Step::Run(st) && runs(
                st,
                asset_get_query(id),
                Fetch::One,
                false,
            )),
            !(self.spec_permissions().read_level is Read) ==> s matches Step::Fail(ServiceError::Unauthorized),
    {
        match self.permissions.read_level {
            ReadLevel::Read => Step::Run(self.asset_repository.get(id)),
            _ => Step::Fail(ServiceError::Unauthorized),
        }
    }
}

impl ServiceGetList<AssetFilter, Asset> for AssetService {
    fn get_list(&self, offset: i64, limit: Option<i64>, filter: AssetFilter) -> (s: Step<Vec<Asset>>)
        ensures
            self.spec_permissions().read_level is Read ==> (s matches Step::Run(st) && runs(
                st,
                list_query("SELECT * FROM asset "@, filter.spec_conditions(), offset, limit),
                Fetch::All,
                false,
            )),
            !(self.spec_permissions().read_level is Read) ==> s matches Step::Fail(ServiceError::Unauthorized),
    {
        match self.permissions.read_level {
            ReadLevel::Read => Step::Run(self.asset_repository.get_list(offset, limit, filter)),
            _ => Step::Fail(ServiceError::Unauthorized),
        }
    }
}

impl ServiceCreate<AssetCreate, Asset> for AssetService {
    fn create(&self, create_model: AssetCreate) -> (s: Step<Asset>)
        ensures
            self.spec_permissions().create_level is Create ==> (s matches Step::Run(st) && runs(
                st,
                asset_create_query(create_model),
                Fetch::One,
                true,
            )),
            !(self.spec_permissions().create_level is Create) ==> s matches Step::Fail(
                ServiceError::Unauthorized,
            ),
    {
        match self.permissions.create_level {
            CreateLevel::Create => Step::Run(self.asset_repository.create(create_model)),
            _ => Step::Fail(ServiceError::Unauthorized),
        }
    }
}

impl ServiceUpdate<AssetId, AssetUpdate, Asset> for AssetService {
    fn update(&self, id: AssetId, update_model: AssetUpdate) -> (s: Step<Asset>)
        ensures
            self.spec_permissions().update_level is Update ==> (s matches Step::Lookup(st) && runs(
                st,
                asset_get_query(id),
                Fetch::One,
                false,
            )),
            !(self.spec_permissions().update_level is Update) ==> s matches Step::Fail(
                ServiceError::Unauthorized,
            ),
    {
        match self.permissions.update_level {
            UpdateLevel::Update => Step::Lookup(self.asset_repository.get(id)),
            _ => Step::Fail(ServiceError::Unauthorized),
        }
    }

    fn update_found(&self, rows: Vec<Asset>, update_model: AssetUpdate) -> (s: Step<Asset>)
        ensures
            !(self.spec_permissions().update_level is Update) ==> s matches Step::Fail(
                ServiceError::Unauthorized,
            ),
            self.spec_permissions().update_level is Update && rows@.len() == 0 ==> s matches Step::Fail(
                ServiceError::NotFound,
            ),
            self.spec_permissions().update_level is Update && rows@.len() > 0 ==> (s matches Step::Run(st) && runs(
                st,
                asset_update_query(updated_asset(rows@.last(), update_model)),
                Fetch::One,
                true,
            )),
    {
        match self.permissions.update_level {
            UpdateLevel::Update => {
                let mut rows = rows;
                match rows.pop() {
                    None => Step::Fail(ServiceError::NotFound),
                    Some(asset) => Step::Run(self.asset_repository.update(apply_update(asset, update_model))),
                }
            },
            _ => Step::Fail(ServiceError::Unauthorized),
        }
    }
}

impl ServiceDelete<AssetId, Asset> for AssetService {
    fn delete(&self, id: AssetId) -> (s: Step<Asset>)
        ensures
            self.spec_permissions().delete_level is Delete ==> (s matches Step::Run(st) && runs(
                st,
                asset_delete_query(id),
                Fetch::One,
                true,
            )),
            !(self.spec_permissions().delete_level is Delete) ==> s matches Step::Fail(
                ServiceError::Unauthorized,
            ),
    {
        match self.permissions.delete_level {
            DeleteLevel::Delete => Step::Run(self.asset_repository.delete(id)),
            _ => Step::Fail(ServiceError::Unauthorized),
        }
    }

    /// Deleting looks nothing up: whatever was found, the delete of
    /// `delete` is run.
    fn delete_found(&self, id: AssetId, rows: Vec<Asset>) -> (s: Step<Asset>)
        ensures
            self.spec_permissions().delete_level is Delete ==> (s matches Step::Run(st) && runs(
                st,
                asset_delete_query(id),
                Fetch::One,
                true,
            )),
            !(self.spec_permissions().delete_level is Delete) ==> s matches Step::Fail(
                ServiceError::Unauthorized,
            ),
    {
        self.delete(id)
    }
}

impl ServiceCrud<AssetId, Asset, AssetFilter, AssetCreate, AssetUpdate> for AssetService {

}

impl AssetServiceMethods for AssetService {

}

/// An update never changes which asset it is: its id and creation time
/// stay, and an update that sets nothing changes nothing.
pub proof fn lemma_asset_update_keeps_identity(asset: Asset, update_model: AssetUpdate)
    ensures
        updated_asset(asset, update_model).id == asset.id,
        updated_asset(asset, update_model).created_at == asset.created_at,
        update_model.name is None && update_model.symbol is None ==> updated_asset(asset, update_model) == asset,
{
}

} // verus!
