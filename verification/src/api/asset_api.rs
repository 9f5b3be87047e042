use std::sync::Arc;

use casbin::Enforcer;
use vstd::prelude::*;

use crate::api::{api_config, spec_api_config, ApiError};
use crate::authentication::authenticated_token::AuthenticatedToken;
use crate::authorization::PermissionSet;
use crate::service::asset_service::AssetService;
use crate::service::asset_service_factory::AssetServiceFactory;
use crate::service::spec_shared_permissions;

verus! {

/// The id in the path of an asset request.
pub struct PathAssetId {
    pub id: crate::model::asset::AssetId,
}

/// What a request to the assets API works with: the caller's token and the
/// asset service that its permissions allow.
pub struct AssetApiState {
    pub authenticated_token: AuthenticatedToken,
    pub asset_service: AssetService,
}

impl AssetApiState {
    /// The state of a request: the permissions of the token's groups on
    /// `assets` at the plain levels decide the service; a failure of the
    /// policy is a server error.
    pub fn new(
        enforcer: &Arc<Enforcer>,
        authenticated_token: AuthenticatedToken,
    ) -> (r: Result<Self, ApiError>)
        ensures
            r is Err ==> r matches Err(ApiError::ServerError),
            r matches Ok(s) ==> s.authenticated_token == authenticated_token,
            r matches Ok(s) ==> exists|p: PermissionSet|
                PermissionSet::decided_by_policy(
                    authenticated_token.group_names(),
                    "assets"@,
                    spec_api_config(),
                    Ok(p),
                ) && s.asset_service.spec_permissions() == spec_shared_permissions(p),
            authenticated_token.spec_claims().spec_groups().len() == 0 ==> (r matches Ok(s)
                && s.asset_service.spec_permissions() == PermissionSet::spec_none()),
    {
        let factory = AssetServiceFactory::new(Arc::clone(enforcer));
        let asset_service = match factory.build(&authenticated_token, api_config()) {
            Ok(s) => s,
            Err(_) => {
                return Err(ApiError::ServerError);
            },
        };
        Ok(AssetApiState { authenticated_token, asset_service })
    }
}

/// The routes of the assets API.
pub struct AssetApi;

} // verus!
