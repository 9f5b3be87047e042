use std::sync::Arc;

use casbin::Enforcer;
use vstd::prelude::*;

use crate::api::{api_config, spec_api_config, ApiError};
use crate::authentication::authenticated_token::AuthenticatedToken;
use crate::authentication::registered_user::RegisteredUser;
use crate::authorization::PermissionSet;
use crate::service::user_service::UserService;
use crate::service::user_service_factory::UserServiceFactory;

verus! {

/// The id in the path of a user request.
pub struct PathUserId {
    pub id: crate::model::user::UserId,
}

/// What a request to the users API works with: the caller's token and the
/// user service that its permissions allow.
pub struct UserApiState {
    pub authenticated_token: AuthenticatedToken,
    pub user_service: UserService,
}

impl UserApiState {
    /// The state of a request: the permissions of the token's groups on
    /// `users` at the plain levels decide the service; a failure of the
    /// policy is a server error.
    pub fn new(
        enforcer: &Arc<Enforcer>,
        authenticated_token: AuthenticatedToken,
        registered_user: Option<RegisteredUser>,
    ) -> (r: Result<Self, ApiError>)
        ensures
            r is Err ==> r matches Err(ApiError::ServerError),
            r matches Ok(s) ==> s.authenticated_token == authenticated_token,
            r matches Ok(s) ==> s.user_service.spec_user() == (match registered_user {
                Some(u) => Some(u.user),
                None => None,
            }),
            r matches Ok(s) ==> exists|p: PermissionSet|
                PermissionSet::decided_by_policy(
                    authenticated_token.group_names(),
                    "users"@,
                    spec_api_config(),
                    Ok(p),
                ) && s.user_service.spec_permissions() == p,
            authenticated_token.spec_claims().spec_groups().len() == 0 ==> (r matches Ok(s)
                && s.user_service.spec_permissions() == PermissionSet::spec_none()),
    {
        let permission_set = match PermissionSet::new("users", enforcer, &authenticated_token, api_config()) {
            Ok(p) => p,
            Err(_) => {
                return Err(ApiError::ServerError);
            },
        };
        let user_service = UserServiceFactory::build(registered_user, permission_set);
        Ok(UserApiState { authenticated_token, user_service })
    }
}

/// The routes of the users API.
pub struct UserApi;

} // verus!
