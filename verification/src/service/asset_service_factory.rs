use std::sync::Arc;

use casbin::Enforcer;
use vstd::prelude::*;

use crate::authentication::authenticated_token::AuthenticatedToken;
use crate::authorization::{PermissionConfig, PermissionSet};
use crate::resource::asset_repository::AssetRepository;
use crate::service::asset_service::AssetService;
use crate::service::{plain_levels, shared_permissions, spec_shared_permissions, ServiceFactoryError};
use crate::authorization::AuthorizationError;

verus! {

/// Builds the asset service of a request from the policy.
#[derive(Clone)]
pub struct AssetServiceFactory {
    enforcer: Arc<Enforcer>,
}

impl AssetServiceFactory {
    /// The policy the factory decides permissions with.
    pub closed spec fn spec_enforcer(&self) -> Arc<Enforcer> {
        self.enforcer
    }

    pub fn new(enforcer: Arc<Enforcer>) -> (f: Self)
        ensures
            f.spec_enforcer() == enforcer,
    {
        AssetServiceFactory { enforcer }
    }

    /// The asset service for the token's groups: their permissions on
    /// `assets` are decided by the policy, as `PermissionSet::new` does, and
    /// since assets are shared only plain levels are kept.
    pub fn build(&self, token: &AuthenticatedToken, config: PermissionConfig) -> (r: Result<
        AssetService,
        ServiceFactoryError,
    >)
        ensures
            r matches Ok(s) ==> plain_levels(s.spec_permissions()) || s.spec_permissions()
                == PermissionSet::spec_none(),
            r matches Ok(s) ==> exists|p: PermissionSet|
                PermissionSet::decided_by_policy(token.group_names(), "assets"@, config, Ok(p))
                    && s.spec_permissions() == spec_shared_permissions(p),
            r matches Err(ServiceFactoryError::Authorization(e)) ==> PermissionSet::decided_by_policy(
                token.group_names(),
                "assets"@,
                config,
                Err(e),
            ),
            token.spec_claims().spec_groups().len() == 0 ==> (r matches Ok(s) && s.spec_permissions()
                == PermissionSet::spec_none()),
    {
        match PermissionSet::new("assets", &self.enforcer, token, config) {
            Ok(p) => Ok(AssetService::new(AssetRepository, shared_permissions(p))),
            Err(e) => Err(ServiceFactoryError::Authorization(e)),
        }
    }
}

} // verus!
