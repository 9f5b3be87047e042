use std::sync::Arc;

use casbin::{CoreApi, DefaultModel, Enforcer, MemoryAdapter, MgmtApi};
use treasury::api::user_api::UserApiState;
use treasury::api::institution_api::InstitutionApiState;
use treasury::api::ApiError;
use treasury::authentication::authenticated_token::{AuthenticatedToken, Claims};
use treasury::authorization::actions::{CreateLevel, DeleteLevel, ReadLevel, UpdateLevel};
use treasury::authorization::{PermissionConfig, PermissionSet, PolicyCheck};
use treasury::service::asset_service_factory::AssetServiceFactory;

const MODEL: &str = "[request_definition]
r = sub, obj, act

[policy_definition]
p = sub, obj, act

[policy_effect]
e = some(where (p.eft == allow))

[matchers]
m = r.sub == p.sub && r.obj == p.obj && r.act == p.act
";

fn enforcer(policies: &[(&str, &str, &str)]) -> Arc<Enforcer> {
    let rt = tokio::runtime::Runtime::new().unwrap();
    rt.block_on(async {
        let m = DefaultModel::from_str(MODEL).await.unwrap();
        let mut e = Enforcer::new(m, MemoryAdapter::default()).await.unwrap();
        for (s, o, a) in policies {
            e.add_policy(vec![s.to_string(), o.to_string(), a.to_string()]).await.unwrap();
        }
        Arc::new(e)
    })
}

fn token(groups: &[&str]) -> AuthenticatedToken {
    AuthenticatedToken::new(Claims::new(
        groups.iter().map(|g| g.to_string()).collect(),
        "a@b.c".to_owned(),
        true,
        "sub".to_owned(),
        "iss".to_owned(),
    ))
}

fn all_levels() -> PermissionConfig {
    PermissionConfig {
        min_read_level: ReadLevel::ReadAll,
        min_create_level: CreateLevel::Create,
        min_update_level: UpdateLevel::UpdateAll,
        min_delete_level: DeleteLevel::DeleteAll,
    }
}

#[test]
fn permissions_follow_the_policy() {
    let e = enforcer(&[
        ("user", "accounts", "read"),
        ("user", "accounts", "update"),
        ("admin", "accounts", "read_all"),
        ("admin", "accounts", "delete_all"),
    ]);
    let p = PermissionSet::new("accounts", &e, &token(&["user"]), all_levels()).unwrap();
    assert_eq!(p.read_level, ReadLevel::Read);
    assert_eq!(p.create_level, CreateLevel::NoPermission);
    assert_eq!(p.update_level, UpdateLevel::Update);
    assert_eq!(p.delete_level, DeleteLevel::NoPermission);

    let p = PermissionSet::new("accounts", &e, &token(&["user", "admin"]), all_levels()).unwrap();
    assert_eq!(p.read_level, ReadLevel::ReadAll);
    assert_eq!(p.delete_level, DeleteLevel::DeleteAll);
    assert_eq!(p.update_level, UpdateLevel::Update);
}

#[test]
fn permissions_are_capped_by_the_config() {
    let e = enforcer(&[("admin", "accounts", "read_all"), ("admin", "accounts", "read")]);
    let capped = PermissionConfig {
        min_read_level: ReadLevel::Read,
        min_create_level: CreateLevel::Create,
        min_update_level: UpdateLevel::Update,
        min_delete_level: DeleteLevel::Delete,
    };
    let p = PermissionSet::new("accounts", &e, &token(&["admin"]), capped).unwrap();
    assert_eq!(p.read_level, ReadLevel::Read);
}

#[test]
fn permissions_are_per_resource() {
    let e = enforcer(&[("user", "assets", "read")]);
    let p = PermissionSet::new("accounts", &e, &token(&["user"]), all_levels()).unwrap();
    assert_eq!(p.read_level, ReadLevel::NoPermission);
}

#[test]
fn a_token_without_groups_has_no_permission() {
    let e = enforcer(&[("user", "accounts", "read")]);
    let p = PermissionSet::new("accounts", &e, &token(&[]), all_levels()).unwrap();
    assert_eq!(
        p,
        PermissionSet {
            read_level: ReadLevel::NoPermission,
            create_level: CreateLevel::NoPermission,
            update_level: UpdateLevel::NoPermission,
            delete_level: DeleteLevel::NoPermission,
        }
    );
}

#[test]
fn asset_factory_keeps_only_plain_levels() {
    let e = enforcer(&[("admin", "assets", "read_all"), ("editor", "assets", "read"), ("editor", "assets", "create")]);
    let f = AssetServiceFactory::new(Arc::clone(&e));
    let s = f.build(&token(&["admin"]), all_levels()).unwrap();
    assert_eq!(s.permissions().read_level, ReadLevel::NoPermission);
    let s = f.build(&token(&["editor"]), all_levels()).unwrap();
    assert_eq!(s.permissions().read_level, ReadLevel::Read);
    assert_eq!(s.permissions().create_level, CreateLevel::Create);
}

#[test]
fn api_states_ask_for_plain_levels() {
    let e = enforcer(&[("admin", "users", "read_all"), ("admin", "users", "read"), ("admin", "institutions", "update")]);
    let state = UserApiState::new(&e, token(&["admin"]), None).unwrap();
    assert_eq!(state.user_service.permissions().read_level, ReadLevel::Read);
    let state = InstitutionApiState::new(&e, token(&["admin"])).unwrap();
    assert_eq!(state.institution_service.permissions().update_level, UpdateLevel::Update);
    assert_eq!(state.institution_service.permissions().read_level, ReadLevel::NoPermission);
    let _ = ApiError::ServerError;
}

fn asked(checks: &[PolicyCheck]) -> Vec<(String, String, String, Option<bool>)> {
    checks.iter().map(|c| (c.subject().to_owned(), c.object().to_owned(), c.action().to_owned(), c.answer())).collect()
}

fn q(s: &str, o: &str, a: &str, answer: bool) -> (String, String, String, Option<bool>) {
    (s.to_owned(), o.to_owned(), a.to_owned(), Some(answer))
}

#[test]
fn decide_asks_each_group_per_level_and_stops_at_the_first_grant() {
    let e = enforcer(&[("admin", "accounts", "read"), ("user", "accounts", "create")]);
    let (r, checks) = PermissionSet::decide("accounts", &e, &token(&["user", "admin"]), all_levels());
    let p = r.unwrap();
    assert_eq!(p.read_level, ReadLevel::Read);
    assert_eq!(p.create_level, CreateLevel::Create);
    assert_eq!(p.update_level, UpdateLevel::NoPermission);
    assert_eq!(p.delete_level, DeleteLevel::NoPermission);
    assert_eq!(
        asked(&checks.read),
        vec![
            q("user", "accounts", "read_all", false),
            q("admin", "accounts", "read_all", false),
            q("user", "accounts", "read", false),
            q("admin", "accounts", "read", true),
        ]
    );
    assert_eq!(asked(&checks.create), vec![q("user", "accounts", "create", true)]);
    assert_eq!(checks.update.len(), 6);
    assert_eq!(checks.update[5].action(), "none");
    assert!(checks.update.iter().all(|c| c.answer() == Some(false)));
    assert_eq!(checks.delete.len(), 6);
}

#[test]
fn decide_starts_at_the_configured_level() {
    let e = enforcer(&[("admin", "accounts", "read_all"), ("admin", "accounts", "read")]);
    let capped = PermissionConfig {
        min_read_level: ReadLevel::Read,
        min_create_level: CreateLevel::NoPermission,
        min_update_level: UpdateLevel::Update,
        min_delete_level: DeleteLevel::Delete,
    };
    let (r, checks) = PermissionSet::decide("accounts", &e, &token(&["admin"]), capped);
    assert_eq!(r.unwrap().read_level, ReadLevel::Read);
    assert_eq!(asked(&checks.read), vec![q("admin", "accounts", "read", true)]);
    assert_eq!(asked(&checks.create), vec![q("admin", "accounts", "none", false)]);
    assert_eq!(
        asked(&checks.update),
        vec![q("admin", "accounts", "update", false), q("admin", "accounts", "none", false)]
    );
}

#[test]
fn decide_asks_nothing_without_groups() {
    let e = enforcer(&[("user", "accounts", "read")]);
    let (r, checks) = PermissionSet::decide("accounts", &e, &token(&[]), all_levels());
    assert_eq!(r.unwrap().read_level, ReadLevel::NoPermission);
    assert!(checks.read.is_empty() && checks.create.is_empty());
    assert!(checks.update.is_empty() && checks.delete.is_empty());
}

#[test]
fn more_groups_never_lose_a_permission() {
    let e = enforcer(&[("user", "accounts", "read"), ("admin", "accounts", "read_all"), ("user", "accounts", "delete")]);
    let fewer = PermissionSet::new("accounts", &e, &token(&["user"]), all_levels()).unwrap();
    let more = PermissionSet::new("accounts", &e, &token(&["user", "admin"]), all_levels()).unwrap();
    assert!(more.read_level <= fewer.read_level);
    assert!(more.create_level <= fewer.create_level);
    assert!(more.update_level <= fewer.update_level);
    assert!(more.delete_level <= fewer.delete_level);
    assert_eq!(more.read_level, ReadLevel::ReadAll);
    assert_eq!(fewer.read_level, ReadLevel::Read);
}

