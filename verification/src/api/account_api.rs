use std::sync::Arc;

use casbin::Enforcer;
use vstd::prelude::*;

use crate::api::{api_config, spec_api_config, ApiError};
use crate::authentication::authenticated_token::AuthenticatedToken;
use crate::authentication::registered_user::RegisteredUser;
use crate::authorization::PermissionSet;
use crate::service::account_service::AccountService;
use crate::service::account_service_factory::AccountServiceFactory;

verus! {

/// The id in the path of an account request.
pub struct PathAccountId {
    pub id: crate::model::account::AccountId,
}

/// What a request to the accounts API works with: the caller's token and the
/// account service that its permissions allow.
pub struct AccountApiState {
    pub authenticated_token: AuthenticatedToken,
    pub account_service: AccountService,
}

impl AccountApiState {
    /// The state of a request: the permissions of the token's groups on
    /// `accounts` at the plain levels decide the service; a failure of the
    /// policy is a server error.
    pub fn new(
        enforcer: &Arc<Enforcer>,
        authenticated_token: AuthenticatedToken,
        registered_user: RegisteredUser,
    ) -> (r: Result<Self, ApiError>)
        ensures
            r is Err ==> r matches Err(ApiError::ServerError),
            r matches Ok(s) ==> s.authenticated_token == authenticated_token,
            r matches Ok(s) ==> s.account_service.spec_user_id() == registered_user.user.id,
            r matches Ok(s) ==> exists|p: PermissionSet|
                PermissionSet::decided_by_policy(
                    authenticated_token.group_names(),
                    "accounts"@,
                    spec_api_config(),
                    Ok(p),
                ) && s.account_service.spec_permissions() == p,
            authenticated_token.spec_claims().spec_groups().len() == 0 ==> (r matches Ok(s)
                && s.account_service.spec_permissions() == PermissionSet::spec_none()),
    {
        let permission_set = match PermissionSet::new("accounts", enforcer, &authenticated_token, api_config()) {
            Ok(p) => p,
            Err(_) => {
                return Err(ApiError::ServerError);
            },
        };
        let account_service = AccountServiceFactory::build(registered_user, permission_set);
        Ok(AccountApiState { authenticated_token, account_service })
    }
}

/// The routes of the accounts API.
pub struct AccountApi;

} // verus!
