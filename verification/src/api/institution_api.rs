use std::sync::Arc;

use casbin::Enforcer;
use vstd::prelude::*;

use crate::api::{api_config, spec_api_config, ApiError};
use crate::authentication::authenticated_token::AuthenticatedToken;
use crate::authorization::PermissionSet;
use crate::service::institution_service::InstitutionService;
use crate::service::institution_service_factory::InstitutionServiceFactory;
use crate::service::spec_shared_permissions;

verus! {

/// The id in the path of an institution request.
pub struct PathInstitutionId {
    pub id: crate::model::institution::InstitutionId,
}

/// What a request to the institutions API works with: the caller's token and the
/// institution service that its permissions allow.
pub struct InstitutionApiState {
    pub authenticated_token: AuthenticatedToken,
    pub institution_service: InstitutionService,
}

impl InstitutionApiState {
    /// The state of a request: the permissions of the token's groups on
    /// `institutions` at the plain levels decide the service; a failure of the
    /// policy is a server error.
    pub fn new(
        enforcer: &Arc<Enforcer>,
        authenticated_token: AuthenticatedToken,
    ) -> (r: Result<Self, ApiError>)
        ensures
            r is Err ==> r matches Err(ApiError::ServerError),
            r matches Ok(s) ==> s.authenticated_token == authenticated_token,
            r matches Ok(s) ==> exists|p: PermissionSet|
                PermissionSet::decided_by_policy(
                    authenticated_token.group_names(),
                    "institutions"@,
                    spec_api_config(),
                    Ok(p),
                ) && s.institution_service.spec_permissions() == spec_shared_permissions(p),
            authenticated_token.spec_claims().spec_groups().len() == 0 ==> (r matches Ok(s)
                && s.institution_service.spec_permissions() == PermissionSet::spec_none()),
    {
        let permission_set = match PermissionSet::new("institutions", enforcer, &authenticated_token, api_config()) {
            Ok(p) => p,
            Err(_) => {
                return Err(ApiError::ServerError);
            },
        };
        let institution_service = InstitutionServiceFactory::build(permission_set);
        Ok(InstitutionApiState { authenticated_token, institution_service })
    }
}

/// The routes of the institutions API.
pub struct InstitutionApi;

} // verus!
