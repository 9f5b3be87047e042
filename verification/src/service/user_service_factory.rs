use vstd::prelude::*;

use crate::authentication::registered_user::RegisteredUser;
use crate::authorization::PermissionSet;
use crate::resource::user_repository::UserRepository;
use crate::service::user_service::UserService;

verus! {

/// Builds the user service of a request.
#[derive(Clone, Debug, Copy)]
pub struct UserServiceFactory;

impl UserServiceFactory {
    /// The user service that acts for `user` with `permission_set`: every
    /// combination of levels has its service.
    pub fn build(user: Option<RegisteredUser>, permission_set: PermissionSet) -> (s: UserService)
        ensures
            s.spec_permissions() == permission_set,
            s.spec_user() == (match user {
                Some(r) => Some(r.user),
                None => None,
            }),
    {
        UserService::new(UserRepository, user, permission_set)
    }
}

} // verus!
