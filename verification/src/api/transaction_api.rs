use std::sync::Arc;

use casbin::Enforcer;
use vstd::prelude::*;

use crate::api::{api_config, spec_api_config, ApiError};
use crate::authentication::authenticated_token::AuthenticatedToken;
use crate::authentication::registered_user::RegisteredUser;
use crate::authorization::PermissionSet;
use crate::resource::transaction_repository::TransactionRepository;
use crate::service::transaction_service::TransactionService;

verus! {

/// The id in the path of a transaction request.
pub struct PathTransactionId {
    pub id: crate::model::transaction::TransactionId,
}

/// What a request to the transactions API works with: the caller's token and the
/// transaction service that its permissions allow.
pub struct TransactionApiState {
    pub authenticated_token: AuthenticatedToken,
    pub transaction_service: TransactionService,
}

impl TransactionApiState {
    /// The state of a request: the permissions of the token's groups on
    /// `transactions` at the plain levels decide the service; a failure of the
    /// policy is a server error.
    pub fn new(
        enforcer: &Arc<Enforcer>,
        authenticated_token: AuthenticatedToken,
        registered_user: RegisteredUser,
    ) -> (r: Result<Self, ApiError>)
        ensures
            r is Err ==> r matches Err(ApiError::ServerError),
            r matches Ok(s) ==> s.authenticated_token == authenticated_token,
            r matches Ok(s) ==> s.transaction_service.spec_user_id() == registered_user.user.id,
            r matches Ok(s) ==> exists|p: PermissionSet|
                PermissionSet::decided_by_policy(
                    authenticated_token.group_names(),
                    "transactions"@,
                    spec_api_config(),
                    Ok(p),
                ) && s.transaction_service.spec_permissions() == p,
            authenticated_token.spec_claims().spec_groups().len() == 0 ==> (r matches Ok(s)
                && s.transaction_service.spec_permissions() == PermissionSet::spec_none()),
    {
        let permission_set = match PermissionSet::new("transactions", enforcer, &authenticated_token, api_config()) {
            Ok(p) => p,
            Err(_) => {
                return Err(ApiError::ServerError);
            },
        };
        let transaction_service = TransactionService::new(TransactionRepository, registered_user, permission_set);
        Ok(TransactionApiState { authenticated_token, transaction_service })
    }
}

/// The routes of the transactions API.
pub struct TransactionApi;

} // verus!
