use treasury::authentication::registered_user::RegisteredUser;
use treasury::authorization::actions::{CreateLevel, DeleteLevel, ReadLevel, UpdateLevel};
use treasury::authorization::PermissionSet;
use treasury::model::account::{Account, AccountCreate, AccountFilter, AccountId, AccountUpdate};
use treasury::model::institution::{InstitutionId, InstitutionUpdate};
use treasury::model::transaction::TransactionId;
use treasury::model::user::{User, UserCreate, UserFilter, UserId, UserUpdate};
use treasury::model::Timestamp;
use treasury::resource::institution_repository::InstitutionRepository;
use treasury::resource::transaction_repository::TransactionRepository;
use treasury::resource::{BindValue, Fetch, QueryPart, RepositoryError, Statement};
use treasury::service::account_service_factory::AccountServiceFactory;
use treasury::service::institution_service::InstitutionService;
use treasury::service::institution_service_factory::InstitutionServiceFactory;
use treasury::service::transaction_service::TransactionService;
use treasury::service::user_service_factory::UserServiceFactory;
use treasury::service::{
    last_found, ServiceCreate, ServiceDelete, ServiceError, ServiceGet, ServiceGetList, ServiceUpdate, Step,
};

fn sql(s: &str) -> QueryPart {
    QueryPart::Sql(s.to_owned())
}

fn bind(v: BindValue) -> QueryPart {
    QueryPart::Bind(v)
}

fn perms(r: ReadLevel, c: CreateLevel, u: UpdateLevel, d: DeleteLevel) -> PermissionSet {
    PermissionSet { read_level: r, create_level: c, update_level: u, delete_level: d }
}

fn none() -> PermissionSet {
    perms(ReadLevel::NoPermission, CreateLevel::NoPermission, UpdateLevel::NoPermission, DeleteLevel::NoPermission)
}

fn own() -> PermissionSet {
    perms(ReadLevel::Read, CreateLevel::Create, UpdateLevel::Update, DeleteLevel::Delete)
}

fn all() -> PermissionSet {
    perms(ReadLevel::ReadAll, CreateLevel::Create, UpdateLevel::UpdateAll, DeleteLevel::DeleteAll)
}

fn user(id: u128) -> User {
    User {
        id: UserId(id),
        created_at: Timestamp(10),
        updated_at: Timestamp(20),
        name: "Name".to_owned(),
        email: "name@example.com".to_owned(),
        sub: "s".to_owned(),
        iss: "i".to_owned(),
    }
}

fn account(id: u128, user_id: u128) -> Account {
    Account {
        id: AccountId(id),
        created_at: Timestamp(1),
        updated_at: Timestamp(2),
        user_id: UserId(user_id),
        institution_id: InstitutionId(9),
        name: "Checking".to_owned(),
    }
}

fn run<T>(s: Step<T>) -> Statement {
    match s {
        Step::Run(st) => st,
        _ => panic!("expected a statement to run"),
    }
}

fn lookup<T>(s: Step<T>) -> Statement {
    match s {
        Step::Lookup(st) => st,
        _ => panic!("expected a lookup"),
    }
}

fn own_account_lookup(id: u128, user_id: u128) -> Vec<QueryPart> {
    vec![
        sql("SELECT * FROM account "),
        sql("WHERE "),
        sql("id = "),
        bind(BindValue::Uuid(id)),
        sql(" AND "),
        sql("user_id = "),
        bind(BindValue::Uuid(user_id)),
        sql(" OFFSET "),
        bind(BindValue::Int(0)),
        sql(" LIMIT "),
        bind(BindValue::Int(1)),
    ]
}

#[test]
fn no_permission_refuses_every_account_operation() {
    let s = AccountServiceFactory::build(RegisteredUser::new(user(1)), none());
    assert!(matches!(s.get(AccountId(5)), Step::Fail(ServiceError::Unauthorized)));
    assert!(matches!(s.get_list(0, None, AccountFilter::default()), Step::Fail(ServiceError::Unauthorized)));
    let create = AccountCreate { name: "x".to_owned(), institution_id: InstitutionId(9), user_id: UserId(1) };
    assert!(matches!(s.create(create), Step::Fail(ServiceError::Unauthorized)));
    assert!(matches!(
        s.update(AccountId(5), AccountUpdate { name: "y".to_owned() }),
        Step::Fail(ServiceError::Unauthorized)
    ));
    assert!(matches!(s.delete(AccountId(5)), Step::Fail(ServiceError::Unauthorized)));
}

#[test]
fn read_level_looks_up_only_own_accounts() {
    let s = AccountServiceFactory::build(RegisteredUser::new(user(1)), own());
    let st = lookup(s.get(AccountId(5)));
    assert_eq!(st.query.parts, own_account_lookup(5, 1));
    assert_eq!(st.fetch, Fetch::All);
    assert!(!st.commit);
}

#[test]
fn read_all_level_reads_any_account() {
    let s = AccountServiceFactory::build(RegisteredUser::new(user(1)), all());
    let st = run(s.get(AccountId(5)));
    assert_eq!(st.query.parts, vec![sql("SELECT * FROM account WHERE id = "), bind(BindValue::Uuid(5))]);
    assert_eq!(st.fetch, Fetch::One);
}

#[test]
fn read_level_lists_only_own_accounts_whatever_the_filter() {
    let s = AccountServiceFactory::build(RegisteredUser::new(user(1)), own());
    let mut filter = AccountFilter::default();
    filter.user_id = Some(UserId(2));
    let st = run(s.get_list(10, Some(5), filter));
    assert_eq!(
        st.query.parts,
        vec![
            sql("SELECT * FROM account "),
            sql("WHERE "),
            sql("user_id = "),
            bind(BindValue::Uuid(1)),
            sql(" OFFSET "),
            bind(BindValue::Int(10)),
            sql(" LIMIT "),
            bind(BindValue::Int(5)),
        ]
    );
}

#[test]
fn accounts_are_created_only_for_oneself() {
    let s = AccountServiceFactory::build(RegisteredUser::new(user(1)), own());
    let other = AccountCreate { name: "x".to_owned(), institution_id: InstitutionId(9), user_id: UserId(2) };
    assert!(matches!(s.create(other), Step::Fail(ServiceError::Unauthorized)));
    let mine = AccountCreate { name: "x".to_owned(), institution_id: InstitutionId(9), user_id: UserId(1) };
    let st = run(s.create(mine));
    assert!(st.commit);
    assert_eq!(
        st.query.parts,
        vec![
            sql("INSERT INTO account (name, institution_id, user_id) VALUES ("),
            bind(BindValue::Text("x".to_owned())),
            sql(", "),
            bind(BindValue::Uuid(9)),
            sql(", "),
            bind(BindValue::Uuid(1)),
            sql(") RETURNING *"),
        ]
    );
}

#[test]
fn account_update_renames_what_the_lookup_found() {
    let s = AccountServiceFactory::build(RegisteredUser::new(user(1)), own());
    let st = lookup(s.update(AccountId(5), AccountUpdate { name: "new".to_owned() }));
    assert_eq!(st.query.parts, own_account_lookup(5, 1));
    assert!(matches!(
        s.update_found(vec![], AccountUpdate { name: "new".to_owned() }),
        Step::Fail(ServiceError::NotFound)
    ));
    let st = run(s.update_found(vec![account(5, 1)], AccountUpdate { name: "new".to_owned() }));
    assert!(st.commit);
    assert_eq!(
        st.query.parts,
        vec![
            sql("UPDATE account SET name = "),
            bind(BindValue::Text("new".to_owned())),
            sql(", institution_id = "),
            bind(BindValue::Uuid(9)),
            sql(", user_id = "),
            bind(BindValue::Uuid(1)),
            sql(" WHERE id = "),
            bind(BindValue::Uuid(5)),
            sql(" RETURNING *"),
        ]
    );
}

#[test]
fn account_update_all_reads_the_account_by_id() {
    let s = AccountServiceFactory::build(RegisteredUser::new(user(1)), all());
    let st = lookup(s.update(AccountId(5), AccountUpdate { name: "new".to_owned() }));
    assert_eq!(st.query.parts, vec![sql("SELECT * FROM account WHERE id = "), bind(BindValue::Uuid(5))]);
    assert_eq!(st.fetch, Fetch::One);
}

#[test]
fn account_delete_checks_ownership_first() {
    let s = AccountServiceFactory::build(RegisteredUser::new(user(1)), own());
    let st = lookup(s.delete(AccountId(5)));
    assert_eq!(st.query.parts, own_account_lookup(5, 1));
    assert!(matches!(s.delete_found(AccountId(5), vec![]), Step::Fail(ServiceError::NotFound)));
    let st = run(s.delete_found(AccountId(5), vec![account(5, 1)]));
    assert_eq!(
        st.query.parts,
        vec![sql("DELETE FROM account WHERE id = "), bind(BindValue::Uuid(5)), sql(" RETURNING *")]
    );
    let s = AccountServiceFactory::build(RegisteredUser::new(user(1)), all());
    let st = run(s.delete(AccountId(5)));
    assert!(st.commit);
}

#[test]
fn users_with_read_level_see_only_themselves() {
    let s = UserServiceFactory::build(Some(RegisteredUser::new(user(1))), own());
    match s.get(UserId(1)) {
        Step::Done(u) => assert_eq!(u.id, UserId(1)),
        _ => panic!("expected the user"),
    }
    assert!(matches!(s.get(UserId(2)), Step::Fail(ServiceError::NotFound)));
    match s.get_list(0, None, UserFilter::default()) {
        Step::Done(v) => {
            assert_eq!(v.len(), 1);
            assert_eq!(v[0].id, UserId(1));
        },
        _ => panic!("expected the list"),
    }
    match s.get_list(2, None, UserFilter::default()) {
        Step::Done(v) => assert!(v.is_empty()),
        _ => panic!("expected an empty list"),
    }
}

#[test]
fn unregistered_requesters_are_refused_their_own_user() {
    let s = UserServiceFactory::build(None, own());
    assert!(matches!(s.get(UserId(1)), Step::Fail(ServiceError::Unauthorized)));
    assert!(matches!(s.delete(UserId(1)), Step::Fail(ServiceError::Unauthorized)));
}

#[test]
fn a_user_registers_once() {
    let create = || UserCreate {
        name: "N".to_owned(),
        email: "e".to_owned(),
        sub: "s".to_owned(),
        iss: "i".to_owned(),
    };
    let s = UserServiceFactory::build(Some(RegisteredUser::new(user(1))), own());
    assert!(matches!(s.create(create()), Step::Fail(ServiceError::AlreadyRegistered)));
    let s = UserServiceFactory::build(None, own());
    let st = run(s.create(create()));
    assert_eq!(
        st.query.parts,
        vec![
            sql("INSERT INTO \"user\" (name, email, sub, iss) VALUES ("),
            bind(BindValue::Text("N".to_owned())),
            sql(", "),
            bind(BindValue::Text("e".to_owned())),
            sql(", "),
            bind(BindValue::Text("s".to_owned())),
            sql(", "),
            bind(BindValue::Text("i".to_owned())),
            sql(") RETURNING *"),
        ]
    );
}

#[test]
fn a_user_updates_its_own_name() {
    let s = UserServiceFactory::build(Some(RegisteredUser::new(user(1))), own());
    let st = run(s.update(UserId(1), UserUpdate { name: Some("Renamed".to_owned()), email: None }));
    assert_eq!(
        st.query.parts,
        vec![
            sql("UPDATE \"user\" SET name = "),
            bind(BindValue::Text("Renamed".to_owned())),
            sql(", email = "),
            bind(BindValue::Text("name@example.com".to_owned())),
            sql(" WHERE id = "),
            bind(BindValue::Uuid(1)),
            sql(" RETURNING *"),
        ]
    );
    assert!(matches!(
        s.update(UserId(2), UserUpdate { name: None, email: None }),
        Step::Fail(ServiceError::NotFound)
    ));
}

#[test]
fn transactions_with_read_level_are_read_through_the_owner() {
    let s = TransactionService::new(TransactionRepository, RegisteredUser::new(user(3)), own());
    let st = run(s.get(TransactionId(7)));
    assert_eq!(
        st.query.parts,
        vec![
            sql("SELECT t.* FROM \"transaction\" t JOIN account a ON t.account_id = a.id WHERE t.id = "),
            bind(BindValue::Int(7)),
            sql(" AND a.user_id = "),
            bind(BindValue::Uuid(3)),
        ]
    );
    let st = run(s.delete(TransactionId(7)));
    assert_eq!(
        st.query.parts,
        vec![
            sql("DELETE FROM \"transaction\" WHERE id = "),
            bind(BindValue::Int(7)),
            sql(" AND account_id IN (SELECT id FROM account WHERE user_id = "),
            bind(BindValue::Uuid(3)),
            sql(") RETURNING *"),
        ]
    );
}

#[test]
fn institutions_have_no_all_levels() {
    let s = InstitutionService::new(InstitutionRepository, all());
    assert!(matches!(s.get(InstitutionId(1)), Step::Fail(ServiceError::Unauthorized)));
    let s = InstitutionServiceFactory::build(all());
    assert_eq!(s.permissions(), none());
    let s = InstitutionServiceFactory::build(own());
    assert_eq!(s.permissions(), own());
    let st = lookup(s.update(InstitutionId(1), InstitutionUpdate { name: None }));
    assert_eq!(st.query.parts, vec![sql("SELECT * FROM institution WHERE id = "), bind(BindValue::Uuid(1))]);
}

#[test]
fn last_found_takes_the_last_row() {
    assert!(matches!(last_found::<u8>(vec![]), Err(ServiceError::NotFound)));
    assert_eq!(last_found(vec![1, 2, 3]).unwrap(), 3);
}

#[test]
fn repository_errors_map_to_service_errors() {
    assert!(matches!(ServiceError::from_repository(RepositoryError::NotFound), ServiceError::NotFound));
    assert!(matches!(
        ServiceError::from_repository(RepositoryError::Sqlx(sqlx::Error::PoolClosed)),
        ServiceError::UnhandledRepositoryError(_)
    ));
    assert!(matches!(RepositoryError::from_sqlx(sqlx::Error::RowNotFound), RepositoryError::NotFound));
    assert!(matches!(RepositoryError::from_sqlx(sqlx::Error::PoolTimedOut), RepositoryError::Sqlx(_)));
}
