use vstd::prelude::*;

use crate::authorization::actions::{CreateLevel, DeleteLevel, ReadLevel, UpdateLevel};
use crate::authorization::PermissionSet;
use crate::model::institution::{Institution, InstitutionCreate, InstitutionFilter, InstitutionId, InstitutionUpdate};
use crate::model::Filter;
use crate::resource::institution_repository::{
    institution_create_query, institution_delete_query, institution_get_query, institution_update_query, InstitutionRepository,
};
use crate::resource::{
    bound_params, lemma_interleave_binds, Param, list_query, CreateRepository, DeleteRepository, Fetch, GetListRepository, GetRepository, UpdateRepository,
};
use crate::service::{
    runs, ServiceCreate, ServiceCrud, ServiceDelete, ServiceError, ServiceGet, ServiceGetList, ServiceUpdate,
    Step,
};

verus! {

/// `institution` with the fields that `update_model` sets.
pub open spec fn updated_institution(institution: Institution, update_model: InstitutionUpdate) -> Institution {
    Institution {
        name: match update_model.name {
            Some(n) => n,
            None => institution.name,
        },
        ..institution
    }
}

/// An update writes the name it sets and keeps it when unset, and the
/// statement that stores the institution binds that name.
pub proof fn lemma_update_writes_set_fields(institution: Institution, update_model: InstitutionUpdate)
    ensures
        update_model.name matches Some(n) ==> updated_institution(institution, update_model).name == n,
        update_model.name is None ==> updated_institution(institution, update_model).name == institution.name,
        updated_institution(institution, update_model).id == institution.id,
        update_model.name matches Some(n) ==> bound_params(
            institution_update_query(updated_institution(institution, update_model)),
        ) == seq![Param::Text(n@), Param::Uuid(institution.id.0)],
{
    let w = updated_institution(institution, update_model);
    lemma_interleave_binds(
        seq!["UPDATE institution SET name = "@, " WHERE id = "@, " RETURNING *"@],
        seq![Param::Text(w.name@), Param::Uuid(w.id.0)],
    );
}

fn apply_update(institution: Institution, update_model: InstitutionUpdate) -> (r: Institution)
    ensures
        r == updated_institution(institution, update_model),
{
    let mut institution = institution;
    if let Some(name) = update_model.name {
        institution.name = name;
    }
    institution
}

/// The operations on institutions, as far as the permissions allow. Institutions
/// are shared by all users: only the plain levels give access, the `All`
/// levels give none.
pub trait InstitutionServiceMethods: ServiceCrud<
    InstitutionId,
    Institution,
    InstitutionFilter,
    InstitutionCreate,
    InstitutionUpdate,
> {

}

/// The institution service of a requester.
pub struct InstitutionService {
    institution_repository: InstitutionRepository,
    permissions: PermissionSet,
}

impl InstitutionService {
    /// The permissions the service acts with.
    pub closed spec fn spec_permissions(&self) -> PermissionSet {
        self.permissions
    }

    pub fn new(institution_repository: InstitutionRepository, permissions: PermissionSet) -> (s: Self)
        ensures
            s.spec_permissions() == permissions,
    {
        InstitutionService { institution_repository, permissions }
    }

    /// The permissions the service acts with.
    pub fn permissions(&self) -> (p: PermissionSet)
        ensures
            p == self.spec_permissions(),
    {
        self.permissions
    }
}

impl ServiceGet<InstitutionId, Institution> for InstitutionService {
    fn get(&self, id: InstitutionId) -> (s: Step<Institution>)
        ensures
            self.spec_permissions().read_level is Read ==> (s matches Step::Run(st) && runs(
                st,
                institution_get_query(id),
                Fetch::One,
                false,
            )),
            !(self.spec_permissions().read_level is Read) ==> s matches Step::Fail(ServiceError::Unauthorized),
    {
        match self.permissions.read_level {
            ReadLevel::Read => Step::Run(self.institution_repository.get(id)),
            _ => Step::Fail(ServiceError::Unauthorized),
        }
    }
}

impl ServiceGetList<InstitutionFilter, Institution> for InstitutionService {
    fn get_list(&self, offset: i64, limit: Option<i64>, filter: InstitutionFilter) -> (s: Step<Vec<Institution>>)
        ensures
            self.spec_permissions().read_level is Read ==> (s matches Step::Run(st) && runs(
                st,
                list_query("SELECT * FROM institution "@, filter.spec_conditions(), offset, limit),
                Fetch::All,
                false,
            )),
            !(self.spec_permissions().read_level is Read) ==> s matches Step::Fail(ServiceError::Unauthorized),
    {
        match self.permissions.read_level {
            ReadLevel::Read => Step::Run(self.institution_repository.get_list(offset, limit, filter)),
            _ => Step::Fail(ServiceError::Unauthorized),
        }
    }
}

impl ServiceCreate<InstitutionCreate, Institution> for InstitutionService {
    fn create(&self, create_model: InstitutionCreate) -> (s: Step<Institution>)
        ensures
            self.spec_permissions().create_level is Create ==> (s matches Step::Run(st) && runs(
                st,
                institution_create_query(create_model),
                Fetch::One,
                true,
            )),
            !(self.spec_permissions().create_level is Create) ==> s matches Step::Fail(
                ServiceError::Unauthorized,
            ),
    {
        match self.permissions.create_level {
            CreateLevel::Create => Step::Run(self.institution_repository.create(create_model)),
            _ => Step::Fail(ServiceError::Unauthorized),
        }
    }
}

impl ServiceUpdate<InstitutionId, InstitutionUpdate, Institution> for InstitutionService {
    fn update(&self, id: InstitutionId, update_model: InstitutionUpdate) -> (s: Step<Institution>)
        ensures
            self.spec_permissions().update_level is Update ==> (s matches Step::Lookup(st) && runs(
                st,
                institution_get_query(id),
                Fetch::One,
                false,
            )),
            !(self.spec_permissions().update_level is Update) ==> s matches Step::Fail(
                ServiceError::Unauthorized,
            ),
    {
        match self.permissions.update_level {
            UpdateLevel::Update => Step::Lookup(self.institution_repository.get(id)),
            _ => Step::Fail(ServiceError::Unauthorized),
        }
    }

    fn update_found(&self, rows: Vec<Institution>, update_model: InstitutionUpdate) -> (s: Step<Institution>)
        ensures
            !(self.spec_permissions().update_level is Update) ==> s matches Step::Fail(
                ServiceError::Unauthorized,
            ),
            self.spec_permissions().update_level is Update && rows@.len() == 0 ==> s matches Step::Fail(
                ServiceError::NotFound,
            ),
            self.spec_permissions().update_level is Update && rows@.len() > 0 ==> (s matches Step::Run(st) && runs(
                st,
                institution_update_query(updated_institution(rows@.last(), update_model)),
                Fetch::One,
                true,
            )),
    {
        match self.permissions.update_level {
            UpdateLevel::Update => {
                let mut rows = rows;
                match rows.pop() {
                    None => Step::Fail(ServiceError::NotFound),
                    Some(institution) => Step::Run(self.institution_repository.update(apply_update(institution, update_model))),
                }
            },
            _ => Step::Fail(ServiceError::Unauthorized),
        }
    }
}

impl ServiceDelete<InstitutionId, Institution> for InstitutionService {
    fn delete(&self, id: InstitutionId) -> (s: Step<Institution>)
        ensures
            self.spec_permissions().delete_level is Delete ==> (s matches Step::Run(st) && runs(
                st,
                institution_delete_query(id),
                Fetch::One,
                true,
            )),
            !(self.spec_permissions().delete_level is Delete) ==> s matches Step::Fail(
                ServiceError::Unauthorized,
            ),
    {
        match self.permissions.delete_level {
            DeleteLevel::Delete => Step::Run(self.institution_repository.delete(id)),
            _ => Step::Fail(ServiceError::Unauthorized),
        }
    }

    /// Deleting looks nothing up: whatever was found, the delete of
    /// `delete` is run.
    fn delete_found(&self, id: InstitutionId, rows: Vec<Institution>) -> (s: Step<Institution>)
        ensures
            self.spec_permissions().delete_level is Delete ==> (s matches Step::Run(st) && runs(
                st,
                institution_delete_query(id),
                Fetch::One,
                true,
            )),
            !(self.spec_permissions().delete_level is Delete) ==> s matches Step::Fail(
                ServiceError::Unauthorized,
            ),
    {
        self.delete(id)
    }
}

impl ServiceCrud<InstitutionId, Institution, InstitutionFilter, InstitutionCreate, InstitutionUpdate> for InstitutionService {

}

impl InstitutionServiceMethods for InstitutionService {

}

/// An update never changes which institution it is: its id and creation time
/// stay, and an update that sets nothing changes nothing.
pub proof fn lemma_institution_update_keeps_identity(institution: Institution, update_model: InstitutionUpdate)
    ensures
        updated_institution(institution, update_model).id == institution.id,
        updated_institution(institution, update_model).created_at == institution.created_at,
        update_model.name is None ==> updated_institution(institution, update_model) == institution,
{
}

} // verus!
