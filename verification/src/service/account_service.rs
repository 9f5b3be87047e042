use vstd::prelude::*;

use crate::authentication::registered_user::RegisteredUser;
use crate::authorization::actions::{CreateLevel, DeleteLevel, ReadLevel, UpdateLevel};
use crate::authorization::PermissionSet;
use crate::model::account::{Account, AccountCreate, AccountFilter, AccountId, AccountUpdate};
use crate::model::user::UserId;
use crate::model::Filter;
use crate::resource::account_repository::{
    account_create_query, account_delete_query, account_get_query, account_update_query, AccountRepository,
};
use crate::resource::{
    bound_params, lemma_interleave_binds, Param, list_query, CreateRepository, DeleteRepository, Fetch, GetListRepository, GetRepository, SqlPart,
    UpdateRepository,
};
use crate::service::{
    runs, ServiceCreate, ServiceCrud, ServiceDelete, ServiceError, ServiceGet, ServiceGetList, ServiceUpdate,
    Step,
};

verus! {

/// The accounts filter of a user's own account `id`.
pub open spec fn own_account_filter(id: AccountId, user_id: UserId) -> AccountFilter {
    AccountFilter { id: Some(id), name: None, institution_id: None, user_id: Some(user_id) }
}

/// The query that looks up the account `id` among the user's own.
pub open spec fn own_account_query(id: AccountId, user_id: UserId) -> Seq<SqlPart> {
    list_query("SELECT * FROM account "@, own_account_filter(id, user_id).spec_conditions(), 0, Some(1i64))
}

/// `filter` narrowed to the accounts of `user_id`.
pub open spec fn owned_accounts(filter: AccountFilter, user_id: UserId) -> AccountFilter {
    AccountFilter {
        id: filter.id,
        name: filter.name,
        institution_id: filter.institution_id,
        user_id: Some(user_id),
    }
}

/// `account` with the name of `update_model`.
pub open spec fn updated_account(account: Account, update_model: AccountUpdate) -> Account {
    Account { name: update_model.name, ..account }
}

/// An update renames the account and keeps its owner and institution, and
/// the statement that stores it binds the new name with the kept ones.
pub proof fn lemma_update_writes_the_name(account: Account, update_model: AccountUpdate)
    ensures
        updated_account(account, update_model).name == update_model.name,
        updated_account(account, update_model).user_id == account.user_id,
        updated_account(account, update_model).institution_id == account.institution_id,
        updated_account(account, update_model).id == account.id,
        bound_params(account_update_query(updated_account(account, update_model))) == seq![
            Param::Text(update_model.name@),
            Param::Uuid(account.institution_id.0),
            Param::Uuid(account.user_id.0),
            Param::Uuid(account.id.0),
        ],
{
    let w = updated_account(account, update_model);
    lemma_interleave_binds(
        seq!["UPDATE account SET name = "@, ", institution_id = "@, ", user_id = "@, " WHERE id = "@, " RETURNING *"@],
        seq![Param::Text(w.name@), Param::Uuid(w.institution_id.0), Param::Uuid(w.user_id.0), Param::Uuid(w.id.0)],
    );
}

/// The operations on accounts, as far as the permissions allow: with the
/// plain levels a user reaches only its own accounts, with the `All`
/// levels every account.
pub trait AccountServiceMethods: ServiceCrud<
    AccountId,
    Account,
    AccountFilter,
    AccountCreate,
    AccountUpdate,
> {

}

/// The account service of a registered user.
pub struct AccountService {
    account_repository: AccountRepository,
    registered_user: RegisteredUser,
    permissions: PermissionSet,
}

impl AccountService {
    /// The permissions the service acts with.
    pub closed spec fn spec_permissions(&self) -> PermissionSet {
        self.permissions
    }

    /// The id of the user the service acts for.
    pub closed spec fn spec_user_id(&self) -> UserId {
        self.registered_user.user.id
    }

    pub fn new(
        account_repository: AccountRepository,
        registered_user: RegisteredUser,
        permissions: PermissionSet,
    ) -> (s: Self)
        ensures
            s.spec_permissions() == permissions,
            s.spec_user_id() == registered_user.user.id,
    {
        AccountService { account_repository, registered_user, permissions }
    }

    /// The permissions the service acts with.
    pub fn permissions(&self) -> (p: PermissionSet)
        ensures
            p == self.spec_permissions(),
    {
        self.permissions
    }

    fn own_filter(&self, id: AccountId) -> (f: AccountFilter)
        ensures
            f == own_account_filter(id, self.spec_user_id()),
    {
        let mut filter = AccountFilter::default();
        filter.id = Some(id);
        filter.user_id = Some(self.registered_user.id());
        filter
    }
}

impl ServiceGet<AccountId, Account> for AccountService {
    fn get(&self, id: AccountId) -> (s: Step<Account>)
        ensures
            match self.spec_permissions().read_level {
                ReadLevel::NoPermission => s matches Step::Fail(ServiceError::Unauthorized),
                ReadLevel::Read => s matches Step::Lookup(st) && runs(
                    st,
                    own_account_query(id, self.spec_user_id()),
                    Fetch::All,
                    false,
                ),
                ReadLevel::ReadAll => s matches Step::Run(st) && runs(st, account_get_query(id), Fetch::One, false),
            },
    {
        match self.permissions.read_level {
            ReadLevel::NoPermission => Step::Fail(ServiceError::Unauthorized),
            ReadLevel::Read => Step::Lookup(self.account_repository.get_list(0, Some(1), self.own_filter(id))),
            ReadLevel::ReadAll => Step::Run(self.account_repository.get(id)),
        }
    }
}

impl ServiceGetList<AccountFilter, Account> for AccountService {
    fn get_list(&self, offset: i64, limit: Option<i64>, filter: AccountFilter) -> (s: Step<Vec<Account>>)
        ensures
            match self.spec_permissions().read_level {
                ReadLevel::NoPermission => s matches Step::Fail(ServiceError::Unauthorized),
                ReadLevel::Read => s matches Step::Run(st) && runs(
                    st,
                    list_query(
                        "SELECT * FROM account "@,
                        owned_accounts(filter, self.spec_user_id()).spec_conditions(),
                        offset,
                        limit,
                    ),
                    Fetch::All,
                    false,
                ),
                ReadLevel::ReadAll => s matches Step::Run(st) && runs(
                    st,
                    list_query("SELECT * FROM account "@, filter.spec_conditions(), offset, limit),
                    Fetch::All,
                    false,
                ),
            },
    {
        match self.permissions.read_level {
            ReadLevel::NoPermission => Step::Fail(ServiceError::Unauthorized),
            ReadLevel::Read => {
                let mut filter = filter;
                filter.user_id = Some(self.registered_user.id());
                Step::Run(self.account_repository.get_list(offset, limit, filter))
            },
            ReadLevel::ReadAll => Step::Run(self.account_repository.get_list(offset, limit, filter)),
        }
    }
}

impl ServiceCreate<AccountCreate, Account> for AccountService {
    fn create(&self, create_model: AccountCreate) -> (s: Step<Account>)
        ensures
            self.spec_permissions().create_level is NoPermission ==> s matches Step::Fail(
                ServiceError::Unauthorized,
            ),
            self.spec_permissions().create_level is Create && create_model.user_id != self.spec_user_id()
                ==> s matches Step::Fail(ServiceError::Unauthorized),
            self.spec_permissions().create_level is Create && create_model.user_id == self.spec_user_id()
                ==> (s matches Step::Run(st) && runs(st, account_create_query(create_model), Fetch::One, true)),
    {
        match self.permissions.create_level {
            CreateLevel::NoPermission => Step::Fail(ServiceError::Unauthorized),
            CreateLevel::Create => {
                if self.registered_user.id() != create_model.user_id {
                    return Step::Fail(ServiceError::Unauthorized);
                }
                Step::Run(self.account_repository.create(create_model))
            },
        }
    }
}

impl ServiceUpdate<AccountId, AccountUpdate, Account> for AccountService {
    fn update(&self, id: AccountId, update_model: AccountUpdate) -> (s: Step<Account>)
        ensures
            match self.spec_permissions().update_level {
                UpdateLevel::NoPermission => s matches Step::Fail(ServiceError::Unauthorized),
                UpdateLevel::Update => s matches Step::Lookup(st) && runs(
                    st,
                    own_account_query(id, self.spec_user_id()),
                    Fetch::All,
                    false,
                ),
                UpdateLevel::UpdateAll => s matches Step::Lookup(st) && runs(
                    st,
                    account_get_query(id),
                    Fetch::One,
                    false,
                ),
            },
    {
        match self.permissions.update_level {
            UpdateLevel::NoPermission => Step::Fail(ServiceError::Unauthorized),
            UpdateLevel::Update => Step::Lookup(self.account_repository.get_list(0, Some(1), self.own_filter(id))),
            UpdateLevel::UpdateAll => Step::Lookup(self.account_repository.get(id)),
        }
    }

    fn update_found(&self, rows: Vec<Account>, update_model: AccountUpdate) -> (s: Step<Account>)
        ensures
            self.spec_permissions().update_level is NoPermission ==> s matches Step::Fail(
                ServiceError::Unauthorized,
            ),
            !(self.spec_permissions().update_level is NoPermission) && rows@.len() == 0 ==> s matches Step::Fail(
                ServiceError::NotFound,
            ),
            !(self.spec_permissions().update_level is NoPermission) && rows@.len() > 0 ==> (s matches Step::Run(st)
                && runs(st, account_update_query(updated_account(rows@.last(), update_model)), Fetch::One, true)),
    {
        if let UpdateLevel::NoPermission = self.permissions.update_level {
            return Step::Fail(ServiceError::Unauthorized);
        }
        let mut rows = rows;
        match rows.pop() {
            None => Step::Fail(ServiceError::NotFound),
            Some(account) => {
                let mut account = account;
                account.name = update_model.name;
                Step::Run(self.account_repository.update(account))
            },
        }
    }
}

impl ServiceDelete<AccountId, Account> for AccountService {
    fn delete(&self, id: AccountId) -> (s: Step<Account>)
        ensures
            match self.spec_permissions().delete_level {
                DeleteLevel::NoPermission => s matches Step::Fail(ServiceError::Unauthorized),
                DeleteLevel::Delete => s matches Step::Lookup(st) && runs(
                    st,
                    own_account_query(id, self.spec_user_id()),
                    Fetch::All,
                    false,
                ),
                DeleteLevel::DeleteAll => s matches Step::Run(st) && runs(
                    st,
                    account_delete_query(id),
                    Fetch::One,
                    true,
                ),
            },
    {
        match self.permissions.delete_level {
            DeleteLevel::NoPermission => Step::Fail(ServiceError::Unauthorized),
            DeleteLevel::Delete => Step::Lookup(self.account_repository.get_list(0, Some(1), self.own_filter(id))),
            DeleteLevel::DeleteAll => Step::Run(self.account_repository.delete(id)),
        }
    }

    fn delete_found(&self, id: AccountId, rows: Vec<Account>) -> (s: Step<Account>)
        ensures
            self.spec_permissions().delete_level is NoPermission ==> s matches Step::Fail(
                ServiceError::Unauthorized,
            ),
            !(self.spec_permissions().delete_level is NoPermission) && rows@.len() == 0 ==> s matches Step::Fail(
                ServiceError::NotFound,
            ),
            !(self.spec_permissions().delete_level is NoPermission) && rows@.len() > 0 ==> (s matches Step::Run(st)
                && runs(st, account_delete_query(id), Fetch::One, true)),
    {
        if let DeleteLevel::NoPermission = self.permissions.delete_level {
            return Step::Fail(ServiceError::Unauthorized);
        }
        if rows.len() == 0 {
            return Step::Fail(ServiceError::NotFound);
        }
        Step::Run(self.account_repository.delete(id))
    }
}

impl ServiceCrud<AccountId, Account, AccountFilter, AccountCreate, AccountUpdate> for AccountService {

}

impl AccountServiceMethods for AccountService {

}

/// With the plain read level a user's lists of accounts are always
/// narrowed to its own accounts, whatever filter it asks for: the last
/// condition of the query is on its user id.
pub proof fn lemma_own_accounts_only(filter: AccountFilter, user_id: UserId)
    ensures
        owned_accounts(filter, user_id).spec_conditions().len() > 0,
        owned_accounts(filter, user_id).spec_conditions().last() == crate::resource::condition(
            "user_id = "@,
            crate::resource::Param::Uuid(user_id.0),
        ),
{
}

/// Renaming an account never moves it: its id, owner and institution stay.
pub proof fn lemma_rename_keeps_owner(account: Account, update_model: AccountUpdate)
    ensures
        updated_account(account, update_model).id == account.id,
        updated_account(account, update_model).user_id == account.user_id,
        updated_account(account, update_model).institution_id == account.institution_id,
        updated_account(account, update_model).name == update_model.name,
{
}

} // verus!
