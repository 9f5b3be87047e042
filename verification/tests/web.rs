use treasury::api::ApiError;
use treasury::authentication::authenticated_token::{AuthenticatedToken, Claims};
use treasury::authentication::registered_user::RegisteredUser;
use treasury::model::account::{Account, AccountId};
use treasury::model::institution::{Institution, InstitutionId};
use treasury::model::user::{User, UserId};
use treasury::model::Timestamp;
use treasury::web::auth::{code_challenge, login_scopes, registration, required_refresh_token};
use treasury::web::pages::{institution_name, listed_accounts, refresh_delay, row_class};

fn token(email_verified: bool) -> AuthenticatedToken {
    AuthenticatedToken::new(Claims::new(vec![], "e@x.io".to_owned(), email_verified, "s".to_owned(), "i".to_owned()))
}

fn institution(id: u128, name: &str) -> Institution {
    Institution { id: InstitutionId(id), created_at: Timestamp(0), updated_at: Timestamp(0), name: name.to_owned() }
}

fn account(id: u128, institution_id: u128) -> Account {
    Account {
        id: AccountId(id),
        created_at: Timestamp(0),
        updated_at: Timestamp(0),
        user_id: UserId(1),
        institution_id: InstitutionId(institution_id),
        name: format!("account {id}"),
    }
}

#[test]
fn code_challenge_is_the_s256_challenge() {
    // SHA-256 of "abc" in URL-safe base64 without padding.
    assert_eq!(code_challenge("abc"), "ungWv48Bz-pBQUDeXa4iI7ADYaOWF3qctBD_YfIAFa0");
    assert_eq!(code_challenge(""), "47DEQpj8HBSa-_TImW-5JCeuQeRkm5NMpJWZG3hSuFU");
}

#[test]
fn sign_in_scopes() {
    assert_eq!(login_scopes(), vec!["openid", "email", "groups", "profile", "offline_access"]);
}

#[test]
fn refresh_token_is_required() {
    assert_eq!(required_refresh_token(Some("rt".to_owned())).unwrap(), "rt");
    assert!(matches!(required_refresh_token(None), Err(ApiError::ServerError)));
}

#[test]
fn registration_needs_a_verified_email() {
    assert!(matches!(
        registration(&token(false), &None),
        Err(ApiError::ClientError(m)) if m == "Email address is not verified."
    ));
    let user = User {
        id: UserId(1),
        created_at: Timestamp(0),
        updated_at: Timestamp(0),
        name: "n".to_owned(),
        email: "e@x.io".to_owned(),
        sub: "s".to_owned(),
        iss: "i".to_owned(),
    };
    assert!(registration(&token(true), &Some(RegisteredUser::new(user))).unwrap().is_none());
    let u = registration(&token(true), &None).unwrap().unwrap();
    assert_eq!((u.name.as_str(), u.email.as_str(), u.sub.as_str(), u.iss.as_str()), ("", "e@x.io", "s", "i"));
}

#[test]
fn refresh_is_planned_ahead_of_expiry() {
    assert_eq!(refresh_delay(0), None);
    assert_eq!(refresh_delay(86400), Some(3600));
    assert_eq!(refresh_delay(3600), Some((3600i64 - 82800) as u64));
    assert_eq!(refresh_delay(i64::MIN), Some(0));
}

#[test]
fn rows_alternate() {
    assert_eq!(row_class(0), "bg-ctp-surface0 border border-ctp-surface2");
    assert_eq!(row_class(1), "bg-ctp-surface1 border border-ctp-surface2");
    assert_eq!(row_class(4), "bg-ctp-surface0 border border-ctp-surface2");
}

#[test]
fn institution_names() {
    let list = vec![institution(1, "Toss Bank"), institution(2, "Hana Bank")];
    assert_eq!(institution_name(&list, InstitutionId(2)), "Hana Bank");
    assert_eq!(institution_name(&list, InstitutionId(3)), "");
}

#[test]
fn accounts_page_lists_accounts_of_known_institutions() {
    let institutions = vec![institution(1, "Toss Bank"), institution(2, "Hana Bank")];
    let accounts = vec![account(10, 2), account(11, 3), account(12, 1)];
    assert_eq!(
        listed_accounts(&accounts, &institutions),
        vec![(0, "Hana Bank".to_owned()), (2, "Toss Bank".to_owned())]
    );
}

#[test]
fn a_repeated_institution_id_takes_the_last_name() {
    let list = vec![institution(1, "Old"), institution(2, "Other"), institution(1, "New")];
    assert_eq!(institution_name(&list, InstitutionId(1)), "New");
}
