use vstd::prelude::*;

use crate::authentication::registered_user::RegisteredUser;
use crate::authorization::PermissionSet;
use crate::resource::account_repository::AccountRepository;
use crate::service::account_service::AccountService;

verus! {

/// Builds the account service of a request.
#[derive(Clone, Copy, Debug)]
pub struct AccountServiceFactory;

impl AccountServiceFactory {
    /// The account service that acts for `user` with `permission_set`:
    /// every combination of levels has its service.
    pub fn build(user: RegisteredUser, permission_set: PermissionSet) -> (s: AccountService)
        ensures
            s.spec_permissions() == permission_set,
            s.spec_user_id() == user.user.id,
    {
        AccountService::new(AccountRepository, user, permission_set)
    }
}

} // verus!
