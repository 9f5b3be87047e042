use vstd::prelude::*;

use crate::authorization::PermissionSet;
use crate::resource::institution_repository::InstitutionRepository;
use crate::service::institution_service::InstitutionService;
use crate::service::{shared_permissions, spec_shared_permissions};

verus! {

/// Builds the institution service of a request.
#[derive(Clone, Debug, Copy)]
pub struct InstitutionServiceFactory;

impl InstitutionServiceFactory {
    /// The institution service for `permission_set`. Institutions are
    /// shared, so only plain levels have a service: a set with an `All`
    /// level gets the service that permits nothing.
    pub fn build(permission_set: PermissionSet) -> (s: InstitutionService)
        ensures
            s.spec_permissions() == spec_shared_permissions(permission_set),
    {
        InstitutionService::new(InstitutionRepository, shared_permissions(permission_set))
    }
}

} // verus!
