use vstd::prelude::*;

use crate::authentication::registered_user::RegisteredUser;
use crate::authorization::actions::{CreateLevel, DeleteLevel, ReadLevel, UpdateLevel};
use crate::authorization::PermissionSet;
use crate::model::user::{User, UserCreate, UserFilter, UserId, UserUpdate};
use crate::model::Filter;
use crate::resource::user_repository::{
    user_create_query, user_delete_query, user_get_query, user_update_query, UserRepository,
};
use crate::resource::{
    bound_params, lemma_interleave_binds, Param, list_query, CreateRepository, DeleteRepository, Fetch, GetListRepository, GetRepository, UpdateRepository,
};
use crate::service::{
    runs, ServiceCreate, ServiceCrud, ServiceDelete, ServiceError, ServiceGet, ServiceGetList, ServiceUpdate,
    Step,
};

verus! {

/// `user` with the fields that `update_model` sets.
pub open spec fn updated_user(user: User, update_model: UserUpdate) -> User {
    User {
        name: match update_model.name {
            Some(n) => n,
            None => user.name,
        },
        email: match update_model.email {
            Some(e) => e,
            None => user.email,
        },
        ..user
    }
}

/// An update writes each field it sets and keeps each field it leaves
/// unset, and the statement that stores the user binds the new name and
/// email: a set `email` of `e` is the email written.
pub proof fn lemma_update_writes_set_fields(user: User, update_model: UserUpdate)
    ensures
        update_model.name matches Some(n) ==> updated_user(user, update_model).name == n,
        update_model.name is None ==> updated_user(user, update_model).name == user.name,
        update_model.email matches Some(e) ==> updated_user(user, update_model).email == e,
        update_model.email is None ==> updated_user(user, update_model).email == user.email,
        updated_user(user, update_model).id == user.id,
        updated_user(user, update_model).created_at == user.created_at,
        bound_params(user_update_query(updated_user(user, update_model))) == seq![
            Param::Text(updated_user(user, update_model).name@),
            Param::Text(updated_user(user, update_model).email@),
            Param::Uuid(user.id.0),
        ],
        update_model.email matches Some(e) ==> bound_params(user_update_query(updated_user(user, update_model)))[1] == Param::Text(e@),
        update_model.name matches Some(n) ==> bound_params(user_update_query(updated_user(user, update_model)))[0] == Param::Text(n@),
{
    let w = updated_user(user, update_model);
    lemma_interleave_binds(
        seq!["UPDATE \"user\" SET name = "@, ", email = "@, " WHERE id = "@, " RETURNING *"@],
        seq![Param::Text(w.name@), Param::Text(w.email@), Param::Uuid(w.id.0)],
    );
}

fn apply_update(user: User, update_model: UserUpdate) -> (r: User)
    ensures
        r == updated_user(user, update_model),
{
    let mut user = user;
    if let Some(name) = update_model.name {
        user.name = name;
    }
    if let Some(email) = update_model.email {
        user.email = email;
    }
    user
}

/// The operations on users, as far as the permissions allow: with the
/// plain levels a user reaches only itself, with the `All` levels every
/// user.
pub trait UserServiceMethods: ServiceCrud<UserId, User, UserFilter, UserCreate, UserUpdate> {

}

/// The user service of a requester, who may not be registered yet.
pub struct UserService {
    user_repository: UserRepository,
    registered_user: Option<RegisteredUser>,
    permissions: PermissionSet,
}

impl UserService {
    /// The permissions the service acts with.
    pub closed spec fn spec_permissions(&self) -> PermissionSet {
        self.permissions
    }

    /// The registered user the service acts for, if the requester is one.
    pub closed spec fn spec_user(&self) -> Option<User> {
        match self.registered_user {
            Some(r) => Some(r.user),
            None => None,
        }
    }

    pub fn new(
        user_repository: UserRepository,
        registered_user: Option<RegisteredUser>,
        permissions: PermissionSet,
    ) -> (s: Self)
        ensures
            s.spec_permissions() == permissions,
            s.spec_user() == (match registered_user {
                Some(r) => Some(r.user),
                None => None::<User>,
            }),
    {
        UserService { user_repository, registered_user, permissions }
    }

    /// The permissions the service acts with.
    pub fn permissions(&self) -> (p: PermissionSet)
        ensures
            p == self.spec_permissions(),
    {
        self.permissions
    }

    /// The registered user, or `Unauthorized` for a requester who has not
    /// registered.
    fn registered_user(&self) -> (r: Result<User, ServiceError>)
        ensures
            self.spec_user() is None ==> r matches Err(ServiceError::Unauthorized),
            self.spec_user() matches Some(u) ==> r == Ok::<User, ServiceError>(u),
    {
        match &self.registered_user {
            Some(r) => Ok(r.user.clone()),
            None => Err(ServiceError::Unauthorized),
        }
    }
}

impl ServiceGet<UserId, User> for UserService {
    fn get(&self, id: UserId) -> (s: Step<User>)
        ensures
            match self.spec_permissions().read_level {
                ReadLevel::NoPermission => s matches Step::Fail(ServiceError::Unauthorized),
                ReadLevel::Read => match self.spec_user() {
                    None => s matches Step::Fail(ServiceError::Unauthorized),
                    Some(u) => if u.id != id {
                        s matches Step::Fail(ServiceError::NotFound)
                    } else {
                        s == Step::<User>::Done(u)
                    },
                },
                ReadLevel::ReadAll => s matches Step::Run(st) && runs(st, user_get_query(id), Fetch::One, false),
            },
    {
        match self.permissions.read_level {
            ReadLevel::NoPermission => Step::Fail(ServiceError::Unauthorized),
            ReadLevel::Read => {
                let user = match self.registered_user() {
                    Ok(u) => u,
                    Err(e) => {
                        return Step::Fail(e);
                    },
                };
                if id != user.id {
                    return Step::Fail(ServiceError::NotFound);
                }
                Step::Done(user)
            },
            ReadLevel::ReadAll => Step::Run(self.user_repository.get(id)),
        }
    }
}

impl ServiceGetList<UserFilter, User> for UserService {
    /// With the plain read level the list holds at most the requester, on
    /// the first pages.
    fn get_list(&self, offset: i64, limit: Option<i64>, filter: UserFilter) -> (s: Step<Vec<User>>)
        ensures
            match self.spec_permissions().read_level {
                ReadLevel::NoPermission => s matches Step::Fail(ServiceError::Unauthorized),
                ReadLevel::Read => match self.spec_user() {
                    None => s matches Step::Fail(ServiceError::Unauthorized),
                    Some(u) => if offset > 1 {
                        s matches Step::Done(v) && v@ == Seq::<User>::empty()
                    } else {
                        s matches Step::Done(v) && v@ == seq![u]
                    },
                },
                ReadLevel::ReadAll => s matches Step::Run(st) && runs(
                    st,
                    list_query("SELECT * FROM \"user\" "@, filter.spec_conditions(), offset, limit),
                    Fetch::All,
                    false,
                ),
            },
    {
        match self.permissions.read_level {
            ReadLevel::NoPermission => Step::Fail(ServiceError::Unauthorized),
            ReadLevel::Read => {
                let user = match self.registered_user() {
                    Ok(u) => u,
                    Err(e) => {
                        return Step::Fail(e);
                    },
                };
                if offset > 1 {
                    return Step::Done(Vec::new());
                }
                let mut users = Vec::new();
                users.push(user);
                Step::Done(users)
            },
            ReadLevel::ReadAll => Step::Run(self.user_repository.get_list(offset, limit, filter)),
        }
    }
}

impl ServiceCreate<UserCreate, User> for UserService {
    /// A requester registers once: a registered one is refused.
    fn create(&self, create_model: UserCreate) -> (s: Step<User>)
        ensures
            self.spec_permissions().create_level is NoPermission ==> s matches Step::Fail(
                ServiceError::Unauthorized,
            ),
            self.spec_permissions().create_level is Create && self.spec_user() is Some ==> s matches Step::Fail(
                ServiceError::AlreadyRegistered,
            ),
            self.spec_permissions().create_level is Create && self.spec_user() is None ==> (s matches Step::Run(st)
                && runs(st, user_create_query(create_model), Fetch::One, true)),
    {
        match self.permissions.create_level {
            CreateLevel::NoPermission => Step::Fail(ServiceError::Unauthorized),
            CreateLevel::Create => {
                if self.registered_user.is_some() {
                    return Step::Fail(ServiceError::AlreadyRegistered);
                }
                Step::Run(self.user_repository.create(create_model))
            },
        }
    }
}

impl ServiceUpdate<UserId, UserUpdate, User> for UserService {
    fn update(&self, id: UserId, update_model: UserUpdate) -> (s: Step<User>)
        ensures
            match self.spec_permissions().update_level {
                UpdateLevel::NoPermission => s matches Step::Fail(ServiceError::Unauthorized),
                UpdateLevel::Update => match self.spec_user() {
                    None => s matches Step::Fail(ServiceError::Unauthorized),
                    Some(u) => if u.id != id {
                        s matches Step::Fail(ServiceError::NotFound)
                    } else {
                        s matches Step::Run(st) && runs(
                            st,
                            user_update_query(updated_user(u, update_model)),
                            Fetch::One,
                            true,
                        )
                    },
                },
                UpdateLevel::UpdateAll => s matches Step::Lookup(st) && runs(
                    st,
                    user_get_query(id),
                    Fetch::One,
                    false,
                ),
            },
    {
        match self.permissions.update_level {
            UpdateLevel::NoPermission => Step::Fail(ServiceError::Unauthorized),
            UpdateLevel::Update => {
                let user = match self.registered_user() {
                    Ok(u) => u,
                    Err(e) => {
                        return Step::Fail(e);
                    },
                };
                if id != user.id {
                    return Step::Fail(ServiceError::NotFound);
                }
                Step::Run(self.user_repository.update(apply_update(user, update_model)))
            },
            UpdateLevel::UpdateAll => Step::Lookup(self.user_repository.get(id)),
        }
    }

    fn update_found(&self, rows: Vec<User>, update_model: UserUpdate) -> (s: Step<User>)
        ensures
            self.spec_permissions().update_level is NoPermission ==> s matches Step::Fail(
                ServiceError::Unauthorized,
            ),
            !(self.spec_permissions().update_level is NoPermission) && rows@.len() == 0 ==> s matches Step::Fail(
                ServiceError::NotFound,
            ),
            !(self.spec_permissions().update_level is NoPermission) && rows@.len() > 0 ==> (s matches Step::Run(st)
                && runs(st, user_update_query(updated_user(rows@.last(), update_model)), Fetch::One, true)),
    {
        if let UpdateLevel::NoPermission = self.permissions.update_level {
            return Step::Fail(ServiceError::Unauthorized);
        }
        let mut rows = rows;
        match rows.pop() {
            None => Step::Fail(ServiceError::NotFound),
            Some(user) => Step::Run(self.user_repository.update(apply_update(user, update_model))),
        }
    }
}

impl ServiceDelete<UserId, User> for UserService {
    fn delete(&self, id: UserId) -> (s: Step<User>)
        ensures
            match self.spec_permissions().delete_level {
                DeleteLevel::NoPermission => s matches Step::Fail(ServiceError::Unauthorized),
                DeleteLevel::Delete => match self.spec_user() {
                    None => s matches Step::Fail(ServiceError::Unauthorized),
                    Some(u) => if u.id != id {
                        s matches Step::Fail(ServiceError::NotFound)
                    } else {
                        s matches Step::Run(st) && runs(st, user_delete_query(id), Fetch::One, true)
                    },
                },
                DeleteLevel::DeleteAll => s matches Step::Run(st) && runs(
                    st,
                    user_delete_query(id),
                    Fetch::One,
                    true,
                ),
            },
    {
        match self.permissions.delete_level {
            DeleteLevel::NoPermission => Step::Fail(ServiceError::Unauthorized),
            DeleteLevel::Delete => {
                let user = match self.registered_user() {
                    Ok(u) => u,
                    Err(e) => {
                        return Step::Fail(e);
                    },
                };
                if id != user.id {
                    return Step::Fail(ServiceError::NotFound);
                }
                Step::Run(self.user_repository.delete(id))
            },
            DeleteLevel::DeleteAll => Step::Run(self.user_repository.delete(id)),
        }
    }

    fn delete_found(&self, id: UserId, rows: Vec<User>) -> (s: Step<User>)
        ensures
            self.spec_permissions().delete_level is NoPermission ==> s matches Step::Fail(
                ServiceError::Unauthorized,
            ),
            !(self.spec_permissions().delete_level is NoPermission) && rows@.len() == 0 ==> s matches Step::Fail(
                ServiceError::NotFound,
            ),
            !(self.spec_permissions().delete_level is NoPermission) && rows@.len() > 0 ==> (s matches Step::Run(st)
                && runs(st, user_delete_query(id), Fetch::One, true)),
    {
        if let DeleteLevel::NoPermission = self.permissions.delete_level {
            return Step::Fail(ServiceError::Unauthorized);
        }
        if rows.len() == 0 {
            return Step::Fail(ServiceError::NotFound);
        }
        Step::Run(self.user_repository.delete(id))
    }
}

impl ServiceCrud<UserId, User, UserFilter, UserCreate, UserUpdate> for UserService {

}

impl UserServiceMethods for UserService {

}

/// An update never changes who a user is: its id, subject and issuer stay;
/// an empty update changes nothing.
pub proof fn lemma_user_update_keeps_identity(user: User, update_model: UserUpdate)
    ensures
        updated_user(user, update_model).id == user.id,
        updated_user(user, update_model).sub == user.sub,
        updated_user(user, update_model).iss == user.iss,
        update_model.name is None && update_model.email is None ==> updated_user(user, update_model) == user,
{
}

} // verus!
