use vstd::prelude::*;

use crate::authorization::actions::{DeleteLevel, ReadLevel, UpdateLevel};
use crate::authorization::{AuthorizationError, PermissionSet};
use crate::resource::{Fetch, RepositoryError, SqlPart, Statement};

pub mod account_service;
pub mod account_service_factory;
pub mod asset_service;
pub mod asset_service_factory;
pub mod institution_service;
pub mod institution_service_factory;
pub mod transaction_service;
pub mod user_service;
pub mod user_service_factory;

verus! {

/// Why a service refused or failed a request.
#[derive(Debug)]
pub enum ServiceError {
    AlreadyRegistered,
    NotFound,
    UnhandledRepositoryError(RepositoryError),
    UnhandledSqlxError(sqlx::Error),
    Unauthorized,
}

impl ServiceError {
    /// The service error for a repository error: a missing row is
    /// `NotFound`, any other error is passed on unhandled.
    pub fn from_repository(value: RepositoryError) -> (r: Self)
        ensures
            value is NotFound ==> r is NotFound,
            value is Sqlx ==> r == ServiceError::UnhandledRepositoryError(value),
    {
        match value {
            RepositoryError::NotFound => ServiceError::NotFound,
            e => ServiceError::UnhandledRepositoryError(e),
        }
    }

    /// The service error for a failure to open a database session.
    pub fn from_sqlx(value: sqlx::Error) -> (r: Self)
        ensures
            r == ServiceError::UnhandledSqlxError(value),
    {
        ServiceError::UnhandledSqlxError(value)
    }

    /// The text that describes the error.
    pub open spec fn spec_message(&self) -> Seq<char> {
        match self {
            ServiceError::AlreadyRegistered => "User is already registered."@,
            ServiceError::NotFound => "Item not found."@,
            ServiceError::UnhandledRepositoryError(_) => "Unhandled repository error"@,
            ServiceError::UnhandledSqlxError(_) => "Unhandled sqlx error"@,
            ServiceError::Unauthorized => "Unauthorized"@,
        }
    }

    /// The text that describes the error.
    pub fn message(&self) -> (s: &'static str)
        ensures
            s@ == self.spec_message(),
    {
        match self {
            ServiceError::AlreadyRegistered => "User is already registered.",
            ServiceError::NotFound => "Item not found.",
            ServiceError::UnhandledRepositoryError(_) => "Unhandled repository error",
            ServiceError::UnhandledSqlxError(_) => "Unhandled sqlx error",
            ServiceError::Unauthorized => "Unauthorized",
        }
    }
}

/// Why a service could not be built.
#[derive(Debug)]
pub enum ServiceFactoryError {
    /// The permissions could not be decided.
    Authorization(AuthorizationError),
}

/// Whether `p` holds only plain levels: no `All` level.
pub open spec fn plain_levels(p: PermissionSet) -> bool {
    &&& !(p.read_level is ReadAll)
    &&& !(p.update_level is UpdateAll)
    &&& !(p.delete_level is DeleteAll)
}

/// The permissions of a service over records that all users share: `p`
/// when it holds only plain levels, else none at all.
pub open spec fn spec_shared_permissions(p: PermissionSet) -> PermissionSet {
    if plain_levels(p) {
        p
    } else {
        PermissionSet::spec_none()
    }
}

/// The permissions of a service over records that all users share.
pub fn shared_permissions(p: PermissionSet) -> (r: PermissionSet)
    ensures
        r == spec_shared_permissions(p),
{
    let plain = match p.read_level {
        ReadLevel::ReadAll => false,
        _ => true,
    } && match p.update_level {
        UpdateLevel::UpdateAll => false,
        _ => true,
    } && match p.delete_level {
        DeleteLevel::DeleteAll => false,
        _ => true,
    };
    if plain {
        p
    } else {
        PermissionSet {
            read_level: ReadLevel::NoPermission,
            create_level: crate::authorization::actions::CreateLevel::NoPermission,
            update_level: UpdateLevel::NoPermission,
            delete_level: DeleteLevel::NoPermission,
        }
    }
}

/// What a service does next for a request: fail, answer, run a statement
/// whose rows are the answer, or run a statement that looks the record up
/// and go on with what it found.
#[derive(Debug)]
pub enum Step<T> {
    Fail(ServiceError),
    Done(T),
    Run(Statement),
    Lookup(Statement),
}

/// Whether `s` runs `query`, answers with `fetch` and commits when
/// `commit` says so.
pub open spec fn runs(s: Statement, query: Seq<SqlPart>, fetch: Fetch, commit: bool) -> bool {
    &&& s.query@ == query
    &&& s.fetch == fetch
    &&& s.commit == commit
}

/// The record that a lookup found: the last row, or `NotFound` when there
/// is none.
pub fn last_found<M>(rows: Vec<M>) -> (r: Result<M, ServiceError>)
    ensures
        rows@.len() == 0 ==> r matches Err(ServiceError::NotFound),
        rows@.len() > 0 ==> r == Ok::<M, ServiceError>(rows@.last()),
{
    let mut rows = rows;
    match rows.pop() {
        Some(m) => Ok(m),
        None => Err(ServiceError::NotFound),
    }
}

/// Reads one record.
pub trait ServiceGet<Id, Model> {
    /// The first step of reading the record `id`. A `Lookup` is answered by
    /// `last_found` of its rows.
    fn get(&self, id: Id) -> Step<Model>;
}

/// Lists records.
pub trait ServiceGetList<Filter, Model> {
    fn get_list(&self, offset: i64, limit: Option<i64>, filter: Filter) -> Step<Vec<Model>>;
}

/// Creates a record.
pub trait ServiceCreate<CreateModel, Model> {
    fn create(&self, create_model: CreateModel) -> Step<Model>;
}

/// Updates a record.
pub trait ServiceUpdate<Id, UpdateModel, Model> {
    /// The first step of updating the record `id`.
    fn update(&self, id: Id, update_model: UpdateModel) -> Step<Model>;

    /// The step after the lookup of `update` found `rows`.
    fn update_found(&self, rows: Vec<Model>, update_model: UpdateModel) -> Step<Model>;
}

/// Deletes a record.
pub trait ServiceDelete<Id, Model> {
    /// The first step of deleting the record `id`.
    fn delete(&self, id: Id) -> Step<Model>;

    /// The step after the lookup of `delete` found `rows`.
    fn delete_found(&self, id: Id, rows: Vec<Model>) -> Step<Model>;
}

/// All that a service does with one kind of record.
pub trait ServiceCrud<Id, Model, Filter, CreateModel, UpdateModel>:
    ServiceGet<Id, Model> + ServiceGetList<Filter, Model> + ServiceCreate<CreateModel, Model> + ServiceUpdate<
        Id,
        UpdateModel,
        Model,
    > + ServiceDelete<Id, Model> {

}

} // verus!
