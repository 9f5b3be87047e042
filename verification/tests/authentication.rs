use treasury::authentication::authenticated_token::{AuthenticatedToken, Claims};
use treasury::authentication::authenticated_user::{AuthenticatedUser, Claims as UserClaims};
use treasury::authentication::authenticator::{Authenticator, TokenFields};
use treasury::authentication::registered_user::RegisteredUser;
use treasury::authentication::AuthenticationError;
use treasury::model::user::{User, UserId};
use treasury::model::Timestamp;
use treasury::resource::{BindValue, Fetch, QueryPart};

fn token(groups: &[&str], email_verified: bool) -> AuthenticatedToken {
    AuthenticatedToken::new(Claims::new(
        groups.iter().map(|g| g.to_string()).collect(),
        "someone@example.com".to_owned(),
        email_verified,
        "subject-1".to_owned(),
        "https://issuer.example.com".to_owned(),
    ))
}

fn user(id: u128) -> User {
    User {
        id: UserId(id),
        created_at: Timestamp(1),
        updated_at: Timestamp(2),
        name: "Test User".to_owned(),
        email: "someone@example.com".to_owned(),
        sub: "subject-1".to_owned(),
        iss: "https://issuer.example.com".to_owned(),
    }
}

#[test]
fn token_getters_return_the_claims() {
    let t = token(&["admin"], true);
    assert_eq!(t.sub(), "subject-1");
    assert_eq!(t.iss(), "https://issuer.example.com");
    assert_eq!(t.email(), "someone@example.com");
    assert!(t.email_verified());
    assert_eq!(t.groups(), &["admin".to_owned()]);
}

#[test]
fn add_group_appends_a_group() {
    let mut t = token(&["a"], true);
    t.add_group("b".to_owned());
    assert_eq!(t.groups(), &["a".to_owned(), "b".to_owned()]);
}

#[test]
fn normalize_groups_keeps_the_last_segment() {
    let mut t = token(&["org:team:admin", "user", "a:", ":b", ""], true);
    t.normalize_groups();
    assert_eq!(
        t.groups(),
        &["admin".to_owned(), "user".to_owned(), "".to_owned(), "b".to_owned(), "".to_owned()]
    );
}

#[test]
fn normalize_groups_twice_is_normalize_once() {
    let mut t = token(&["x:y:z", "w"], true);
    t.normalize_groups();
    let once: Vec<String> = t.groups().to_vec();
    t.normalize_groups();
    assert_eq!(t.groups(), once.as_slice());
}

#[test]
fn authenticated_user_exposes_its_claims() {
    let u = AuthenticatedUser::new(UserClaims {
        groups: vec!["users".to_owned()],
        email: "a@b.c".to_owned(),
    });
    assert_eq!(u.email(), "a@b.c");
    assert_eq!(u.groups(), &["users".to_owned()]);
}

#[test]
fn bearer_token_reads_the_second_word() {
    assert_eq!(Authenticator::bearer_token("Bearer abc.def.ghi").unwrap(), "abc.def.ghi");
    assert_eq!(Authenticator::bearer_token("  Bearer \t tok  extra").unwrap(), "tok");
}

#[test]
fn bearer_token_needs_bearer_first() {
    assert!(matches!(Authenticator::bearer_token("Basic abc"), Err(AuthenticationError::MissingBearer)));
    assert!(matches!(Authenticator::bearer_token(""), Err(AuthenticationError::MissingBearer)));
    assert!(matches!(Authenticator::bearer_token("bearer abc"), Err(AuthenticationError::MissingBearer)));
    assert!(matches!(Authenticator::bearer_token("Bearerabc"), Err(AuthenticationError::MissingBearer)));
}

#[test]
fn bearer_token_needs_a_token() {
    assert!(matches!(Authenticator::bearer_token("Bearer"), Err(AuthenticationError::MissingToken)));
    assert!(matches!(Authenticator::bearer_token("Bearer   "), Err(AuthenticationError::MissingToken)));
}

#[test]
fn bearer_header_round_trip() {
    let id_token = "header.claims.signature";
    let header = format!("Bearer {id_token}");
    assert_eq!(Authenticator::bearer_token(&header).unwrap(), id_token);
}

#[test]
fn key_id_of_maps_each_outcome() {
    assert_eq!(Authenticator::key_id_of(Ok(Some("k1".to_owned()))).unwrap(), "k1");
    assert!(matches!(Authenticator::key_id_of(Ok(None)), Err(AuthenticationError::MissingKeyId)));
}

// {"alg":"HS256","kid":"key-1"} and {"alg":"HS256"} in URL-safe base64.
const HEADER_WITH_KID: &str = "eyJhbGciOiJIUzI1NiIsImtpZCI6ImtleS0xIn0";
const HEADER_WITHOUT_KID: &str = "eyJhbGciOiJIUzI1NiJ9";

#[test]
fn key_id_reads_the_kid_of_the_header() {
    let t = format!("{HEADER_WITH_KID}.e30.c2lnbmF0dXJl");
    assert_eq!(Authenticator::key_id(&t).unwrap(), "key-1");
}

#[test]
fn key_id_refuses_a_header_without_kid() {
    let t = format!("{HEADER_WITHOUT_KID}.e30.c2lnbmF0dXJl");
    assert!(matches!(Authenticator::key_id(&t), Err(AuthenticationError::MissingKeyId)));
}

#[test]
fn key_id_refuses_garbage() {
    assert!(matches!(Authenticator::key_id("not-a-jwt"), Err(AuthenticationError::InvalidToken(_))));
}

#[test]
fn authenticate_reads_token_and_key_id() {
    let t = format!("{HEADER_WITH_KID}.e30.c2lnbmF0dXJl");
    let b = Authenticator::authenticate(&format!("Bearer {t}")).unwrap();
    assert_eq!(b.token, t);
    assert_eq!(b.key_id, "key-1");
    assert_eq!(b.algorithm, jsonwebtoken::Algorithm::HS256);
    assert!(matches!(Authenticator::authenticate("Token x"), Err(AuthenticationError::MissingBearer)));
}

#[test]
fn rejection_statuses() {
    assert_eq!(AuthenticationError::MissingHeader.status(), 401);
    assert_eq!(AuthenticationError::MissingBearer.status(), 401);
    assert_eq!(AuthenticationError::MissingToken.status(), 401);
    assert_eq!(AuthenticationError::MissingKeyId.status(), 401);
    assert_eq!(AuthenticationError::MissingKey.status(), 401);
    assert_eq!(AuthenticationError::WellKnownParse.status(), 500);
    assert_eq!(AuthenticationError::MissingKey.message(), "Missing key with kid in JWKSet");
}

#[test]
fn registered_user_lookup_filters_by_subject_and_issuer() {
    let t = token(&[], true);
    let s = RegisteredUser::lookup(&t);
    assert_eq!(s.fetch, Fetch::All);
    assert!(!s.commit);
    assert_eq!(
        s.query.parts,
        vec![
            QueryPart::Sql("SELECT * FROM \"user\" ".to_owned()),
            QueryPart::Sql("WHERE ".to_owned()),
            QueryPart::Sql("sub = ".to_owned()),
            QueryPart::Bind(BindValue::Text("subject-1".to_owned())),
            QueryPart::Sql(" AND ".to_owned()),
            QueryPart::Sql("iss = ".to_owned()),
            QueryPart::Bind(BindValue::Text("https://issuer.example.com".to_owned())),
            QueryPart::Sql(" OFFSET ".to_owned()),
            QueryPart::Bind(BindValue::Int(0)),
            QueryPart::Sql(" LIMIT ".to_owned()),
            QueryPart::Bind(BindValue::Int(1)),
        ]
    );
}

#[test]
fn registered_user_from_rows() {
    assert!(RegisteredUser::from_rows(vec![]).is_none());
    let r = RegisteredUser::from_rows(vec![user(1), user(2)]).unwrap();
    assert_eq!(r.id(), UserId(2));
    assert_eq!(RegisteredUser::new(user(7)).id(), UserId(7));
}

#[test]
fn client_header_is_read_back_by_the_server() {
    let header = treasury::web::auth::bearer_header("eyJ.e30.sig");
    assert_eq!(header, "Bearer eyJ.e30.sig");
    assert_eq!(Authenticator::bearer_token(&header).unwrap(), "eyJ.e30.sig");
}

const SECRET: &[u8] = b"a-test-secret-of-32-bytes-length";
const JWKS: &str = r#"{"keys":[{"kty":"oct","kid":"key-1","alg":"HS256","k":"YS10ZXN0LXNlY3JldC1vZi0zMi1ieXRlcy1sZW5ndGg"}]}"#;

fn signed(kid: &str, claims: serde_json::Value) -> String {
    let mut header = jsonwebtoken::Header::new(jsonwebtoken::Algorithm::HS256);
    header.kid = Some(kid.to_owned());
    jsonwebtoken::encode(&header, &claims, &jsonwebtoken::EncodingKey::from_secret(SECRET)).unwrap()
}

fn claims(iss: &str, aud: &str, exp: u64) -> serde_json::Value {
    serde_json::from_str(&format!(
        r#"{{"iss":"{iss}","aud":"{aud}","exp":{exp},"sub":"s-1","email":"a@b.c","email_verified":true,"groups":["user"]}}"#
    ))
    .unwrap()
}

fn keys() -> jsonwebtoken::jwk::JwkSet {
    serde_json::from_str(JWKS).unwrap()
}

fn bearer(token: &str) -> treasury::authentication::authenticator::BearerToken {
    Authenticator::authenticate(&format!("Bearer {token}")).unwrap()
}

const FAR: u64 = 4_000_000_000;

#[test]
fn verify_token_accepts_a_good_token() {
    let t = signed("key-1", claims("https://issuer", "app", FAR));
    let a = Authenticator::verify_token(&bearer(&t), &keys(), "https://issuer", "app").unwrap();
    assert_eq!(a.iss(), "https://issuer");
    assert_eq!(a.sub(), "s-1");
    assert_eq!(a.email(), "a@b.c");
    assert!(a.email_verified());
    assert_eq!(a.groups(), &["user".to_owned()]);
}

#[test]
fn verify_token_needs_the_key() {
    let t = signed("key-2", claims("https://issuer", "app", FAR));
    let r = Authenticator::verify_token(&bearer(&t), &keys(), "https://issuer", "app");
    assert!(matches!(r, Err(AuthenticationError::MissingKey)));
}

#[test]
fn verify_token_refuses_another_issuer_audience_or_an_expired_token() {
    let t = signed("key-1", claims("https://other", "app", FAR));
    assert!(matches!(
        Authenticator::verify_token(&bearer(&t), &keys(), "https://issuer", "app"),
        Err(AuthenticationError::InvalidToken(_))
    ));
    let t = signed("key-1", claims("https://issuer", "other", FAR));
    assert!(matches!(
        Authenticator::verify_token(&bearer(&t), &keys(), "https://issuer", "app"),
        Err(AuthenticationError::InvalidToken(_))
    ));
    let t = signed("key-1", claims("https://issuer", "app", 1000));
    assert!(matches!(
        Authenticator::verify_token(&bearer(&t), &keys(), "https://issuer", "app"),
        Err(AuthenticationError::InvalidToken(_))
    ));
}

#[test]
fn verify_token_refuses_a_forged_signature() {
    let t = signed("key-1", claims("https://issuer", "app", FAR));
    let forged = format!("{}x", &t[..t.len() - 1]);
    assert!(matches!(
        Authenticator::verify_token(&bearer(&forged), &keys(), "https://issuer", "app"),
        Err(AuthenticationError::InvalidToken(_))
    ));
}

#[test]
fn verify_token_needs_the_email_claim() {
    let c: serde_json::Value = serde_json::from_str(&format!(
        r#"{{"iss":"https://issuer","aud":"app","exp":{FAR},"sub":"s-1","email_verified":true}}"#
    ))
    .unwrap();
    let t = signed("key-1", c);
    assert!(matches!(
        Authenticator::verify_token(&bearer(&t), &keys(), "https://issuer", "app"),
        Err(AuthenticationError::InvalidToken(_))
    ));
}

fn fields() -> TokenFields {
    TokenFields {
        groups: None,
        email: Some("a@b.c".to_owned()),
        email_verified: Some(false),
        sub: Some("s".to_owned()),
        iss: Some("i".to_owned()),
        aud: None,
    }
}

#[test]
fn claims_of_defaults_groups_and_names_the_first_missing_claim() {
    let c = Authenticator::claims_of(fields()).unwrap();
    let t = AuthenticatedToken::new(c);
    assert!(t.groups().is_empty());
    assert_eq!(t.iss(), "i");
    assert!(!t.email_verified());
    assert_eq!(Authenticator::claims_of(TokenFields { groups: Some(None), ..fields() }).unwrap_err(), "groups");
    assert_eq!(Authenticator::claims_of(TokenFields { email: None, sub: None, ..fields() }).unwrap_err(), "email");
    assert_eq!(Authenticator::claims_of(TokenFields { email_verified: None, ..fields() }).unwrap_err(), "email_verified");
    assert_eq!(Authenticator::claims_of(TokenFields { sub: None, ..fields() }).unwrap_err(), "sub");
    assert_eq!(Authenticator::claims_of(TokenFields { iss: None, ..fields() }).unwrap_err(), "iss");
}

#[test]
fn required_claims_are_the_six_claims_of_a_token() {
    assert_eq!(Authenticator::required_claims(), vec!["iss", "exp", "aud", "email", "email_verified", "sub"]);
}
