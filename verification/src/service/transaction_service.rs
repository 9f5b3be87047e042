use vstd::prelude::*;

use crate::authentication::registered_user::RegisteredUser;
use crate::authorization::actions::{CreateLevel, DeleteLevel, ReadLevel, UpdateLevel};
use crate::authorization::PermissionSet;
use crate::model::transaction::{Transaction, TransactionCreate, TransactionFilter, TransactionId, TransactionUpdate};
use crate::model::user::UserId;
use crate::model::Filter;
use crate::resource::transaction_repository::{
    owned_conditions, owned_transaction_create_query, owned_transaction_delete_query,
    owned_transaction_get_query, owned_transaction_update_query, transaction_delete_query,
    transaction_get_query, transaction_update_query, TransactionRepository,
};
use crate::resource::{
    and_clause, list_query, paging, DeleteRepository, Fetch, GetListRepository, GetRepository, Param, SqlPart,
    UpdateRepository,
};
use crate::service::{
    runs, ServiceCreate, ServiceCrud, ServiceDelete, ServiceError, ServiceGet, ServiceGetList, ServiceUpdate,
    Step,
};

verus! {

/// The query that lists the transactions on the accounts of `user_id`.
pub open spec fn owned_transaction_list_query(
    offset: i64,
    limit: Option<i64>,
    user_id: UserId,
    filter: TransactionFilter,
) -> Seq<SqlPart> {
    seq![
        SqlPart::Text("SELECT t.* FROM \"transaction\" t WHERE t.account_id IN (SELECT id FROM account WHERE user_id ="@),
        SqlPart::Param(Param::Uuid(user_id.0)),
        SqlPart::Text(")"@),
    ] + and_clause(owned_conditions(filter)) + paging(offset, limit)
}

/// The operations on transactions, as far as the permissions allow: with
/// the plain levels a user reaches only the transactions on its own
/// accounts, with the `All` levels every transaction.
pub trait TransactionServiceMethods: ServiceCrud<
    TransactionId,
    Transaction,
    TransactionFilter,
    TransactionCreate,
    TransactionUpdate,
> {

}

/// The transaction service of a registered user.
pub struct TransactionService {
    transaction_repository: TransactionRepository,
    registered_user: RegisteredUser,
    permissions: PermissionSet,
}

impl TransactionService {
    /// The permissions the service acts with.
    pub closed spec fn spec_permissions(&self) -> PermissionSet {
        self.permissions
    }

    /// The id of the user the service acts for.
    pub closed spec fn spec_user_id(&self) -> UserId {
        self.registered_user.user.id
    }

    pub fn new(
        transaction_repository: TransactionRepository,
        registered_user: RegisteredUser,
        permissions: PermissionSet,
    ) -> (s: Self)
        ensures
            s.spec_permissions() == permissions,
            s.spec_user_id() == registered_user.user.id,
    {
        TransactionService { transaction_repository, registered_user, permissions }
    }

    /// The permissions the service acts with.
    pub fn permissions(&self) -> (p: PermissionSet)
        ensures
            p == self.spec_permissions(),
    {
        self.permissions
    }
}

impl ServiceGet<TransactionId, Transaction> for TransactionService {
    fn get(&self, id: TransactionId) -> (s: Step<Transaction>)
        ensures
            match self.spec_permissions().read_level {
                ReadLevel::NoPermission => s matches Step::Fail(ServiceError::Unauthorized),
                ReadLevel::Read => s matches Step::Run(st) && runs(
                    st,
                    owned_transaction_get_query(id, self.spec_user_id()),
                    Fetch::One,
                    false,
                ),
                ReadLevel::ReadAll => s matches Step::Run(st) && runs(
                    st,
                    transaction_get_query(id),
                    Fetch::One,
                    false,
                ),
            },
    {
        match self.permissions.read_level {
            ReadLevel::NoPermission => Step::Fail(ServiceError::Unauthorized),
            ReadLevel::Read => Step::Run(
                self.transaction_repository.get_with_user_id(id, self.registered_user.id()),
            ),
            ReadLevel::ReadAll => Step::Run(self.transaction_repository.get(id)),
        }
    }
}

impl ServiceGetList<TransactionFilter, Transaction> for TransactionService {
    fn get_list(&self, offset: i64, limit: Option<i64>, filter: TransactionFilter) -> (s: Step<
        Vec<Transaction>,
    >)
        ensures
            match self.spec_permissions().read_level {
                ReadLevel::NoPermission => s matches Step::Fail(ServiceError::Unauthorized),
                ReadLevel::Read => s matches Step::Run(st) && runs(
                    st,
                    owned_transaction_list_query(offset, limit, self.spec_user_id(), filter),
                    Fetch::All,
                    false,
                ),
                ReadLevel::ReadAll => s matches Step::Run(st) && runs(
                    st,
                    list_query("SELECT * FROM \"transaction\" "@, filter.spec_conditions(), offset, limit),
                    Fetch::All,
                    false,
                ),
            },
    {
        match self.permissions.read_level {
            ReadLevel::NoPermission => Step::Fail(ServiceError::Unauthorized),
            ReadLevel::Read => Step::Run(
                self.transaction_repository.get_list_with_user_id(offset, limit, self.registered_user.id(), filter),
            ),
            ReadLevel::ReadAll => Step::Run(self.transaction_repository.get_list(offset, limit, filter)),
        }
    }
}

impl ServiceCreate<TransactionCreate, Transaction> for TransactionService {
    /// A transaction is created only on an account of the user.
    fn create(&self, create_model: TransactionCreate) -> (s: Step<Transaction>)
        ensures
            self.spec_permissions().create_level is NoPermission ==> s matches Step::Fail(
                ServiceError::Unauthorized,
            ),
            self.spec_permissions().create_level is Create ==> (s matches Step::Run(st) && runs(
                st,
                owned_transaction_create_query(create_model, self.spec_user_id()),
                Fetch::One,
                true,
            )),
    {
        match self.permissions.create_level {
            CreateLevel::NoPermission => Step::Fail(ServiceError::Unauthorized),
            CreateLevel::Create => Step::Run(
                self.transaction_repository.create_with_user_id(create_model, self.registered_user.id()),
            ),
        }
    }
}

impl ServiceUpdate<TransactionId, TransactionUpdate, Transaction> for TransactionService {
    fn update(&self, id: TransactionId, update_model: TransactionUpdate) -> (s: Step<Transaction>)
        ensures
            match self.spec_permissions().update_level {
                UpdateLevel::NoPermission => s matches Step::Fail(ServiceError::Unauthorized),
                UpdateLevel::Update => s matches Step::Lookup(st) && runs(
                    st,
                    owned_transaction_get_query(id, self.spec_user_id()),
                    Fetch::One,
                    false,
                ),
                UpdateLevel::UpdateAll => s matches Step::Lookup(st) && runs(
                    st,
                    transaction_get_query(id),
                    Fetch::One,
                    false,
                ),
            },
    {
        match self.permissions.update_level {
            UpdateLevel::NoPermission => Step::Fail(ServiceError::Unauthorized),
            UpdateLevel::Update => Step::Lookup(
                self.transaction_repository.get_with_user_id(id, self.registered_user.id()),
            ),
            UpdateLevel::UpdateAll => Step::Lookup(self.transaction_repository.get(id)),
        }
    }

    fn update_found(&self, rows: Vec<Transaction>, update_model: TransactionUpdate) -> (s: Step<Transaction>)
        ensures
            self.spec_permissions().update_level is NoPermission ==> s matches Step::Fail(
                ServiceError::Unauthorized,
            ),
            !(self.spec_permissions().update_level is NoPermission) && rows@.len() == 0 ==> s matches Step::Fail(
                ServiceError::NotFound,
            ),
            self.spec_permissions().update_level is Update && rows@.len() > 0 ==> (s matches Step::Run(st) && runs(
                st,
                owned_transaction_update_query(rows@.last().spec_updated(update_model), self.spec_user_id()),
                Fetch::One,
                true,
            )),
            self.spec_permissions().update_level is UpdateAll && rows@.len() > 0 ==> (s matches Step::Run(st)
                && runs(st, transaction_update_query(rows@.last().spec_updated(update_model)), Fetch::One, true)),
    {
        if let UpdateLevel::NoPermission = self.permissions.update_level {
            return Step::Fail(ServiceError::Unauthorized);
        }
        let mut rows = rows;
        match rows.pop() {
            None => Step::Fail(ServiceError::NotFound),
            Some(transaction) => {
                let mut transaction = transaction;
                transaction.update(update_model);
                match self.permissions.update_level {
                    UpdateLevel::Update => Step::Run(
                        self.transaction_repository.update_with_user_id(transaction, self.registered_user.id()),
                    ),
                    _ => Step::Run(self.transaction_repository.update(transaction)),
                }
            },
        }
    }
}

impl ServiceDelete<TransactionId, Transaction> for TransactionService {
    fn delete(&self, id: TransactionId) -> (s: Step<Transaction>)
        ensures
            match self.spec_permissions().delete_level {
                DeleteLevel::NoPermission => s matches Step::Fail(ServiceError::Unauthorized),
                DeleteLevel::Delete => s matches Step::Run(st) && runs(
                    st,
                    owned_transaction_delete_query(id, self.spec_user_id()),
                    Fetch::One,
                    true,
                ),
                DeleteLevel::DeleteAll => s matches Step::Run(st) && runs(
                    st,
                    transaction_delete_query(id),
                    Fetch::One,
                    true,
                ),
            },
    {
        match self.permissions.delete_level {
            DeleteLevel::NoPermission => Step::Fail(ServiceError::Unauthorized),
            DeleteLevel::Delete => Step::Run(
                self.transaction_repository.delete_with_user_id(id, self.registered_user.id()),
            ),
            DeleteLevel::DeleteAll => Step::Run(self.transaction_repository.delete(id)),
        }
    }

    /// Deleting looks nothing up: whatever was found, the delete of
    /// `delete` is run.
    fn delete_found(&self, id: TransactionId, rows: Vec<Transaction>) -> (s: Step<Transaction>)
        ensures
            match self.spec_permissions().delete_level {
                DeleteLevel::NoPermission => s matches Step::Fail(ServiceError::Unauthorized),
                DeleteLevel::Delete => s matches Step::Run(st) && runs(
                    st,
                    owned_transaction_delete_query(id, self.spec_user_id()),
                    Fetch::One,
                    true,
                ),
                DeleteLevel::DeleteAll => s matches Step::Run(st) && runs(
                    st,
                    transaction_delete_query(id),
                    Fetch::One,
                    true,
                ),
            },
    {
        self.delete(id)
    }
}

impl ServiceCrud<TransactionId, Transaction, TransactionFilter, TransactionCreate, TransactionUpdate> for TransactionService {

}

impl TransactionServiceMethods for TransactionService {

}

} // verus!
