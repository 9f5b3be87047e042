use treasury::api::{
    set_user_groups, ApiError, ApiErrorResponse, ALREADY_REGISTERED, BAD_REQUEST, FORBIDDEN, INTERNAL_SERVER_ERROR,
    JSON_REJECTION, NOT_FOUND,
};
use treasury::authentication::authenticated_token::{AuthenticatedToken, Claims};
use treasury::authentication::registered_user::RegisteredUser;
use treasury::model::user::{User, UserId};
use treasury::model::Timestamp;
use treasury::service::ServiceError;

fn token(groups: &[&str], email_verified: bool) -> AuthenticatedToken {
    AuthenticatedToken::new(Claims::new(
        groups.iter().map(|g| g.to_string()).collect(),
        "e@x.io".to_owned(),
        email_verified,
        "sub".to_owned(),
        "iss".to_owned(),
    ))
}

fn registered() -> Option<RegisteredUser> {
    Some(RegisteredUser::new(User {
        id: UserId(1),
        created_at: Timestamp(0),
        updated_at: Timestamp(0),
        name: "n".to_owned(),
        email: "e@x.io".to_owned(),
        sub: "sub".to_owned(),
        iss: "iss".to_owned(),
    }))
}

fn all_errors() -> Vec<ApiError> {
    vec![
        ApiError::JsonRejection,
        ApiError::NotFound,
        ApiError::Service(ServiceError::AlreadyRegistered),
        ApiError::Service(ServiceError::NotFound),
        ApiError::Service(ServiceError::Unauthorized),
        ApiError::Service(ServiceError::UnhandledSqlxError(sqlx::Error::PoolClosed)),
        ApiError::ServerError,
        ApiError::ClientError("bad".to_owned()),
    ]
}

#[test]
fn groupless_verified_tokens_get_a_default_group() {
    let t = set_user_groups(token(&[], true), &registered());
    assert_eq!(t.groups(), &["user".to_owned()]);
    let t = set_user_groups(token(&[], true), &None);
    assert_eq!(t.groups(), &["unregistered_user".to_owned()]);
}

#[test]
fn unverified_tokens_get_no_default_group() {
    let t = set_user_groups(token(&[], false), &registered());
    assert!(t.groups().is_empty());
}

#[test]
fn groups_are_normalized_and_kept() {
    let t = set_user_groups(token(&["org:admins", "users"], true), &None);
    assert_eq!(t.groups(), &["admins".to_owned(), "users".to_owned()]);
    assert_eq!(t.email(), "e@x.io");
}

#[test]
fn statuses() {
    let statuses: Vec<u16> = all_errors().iter().map(|e| e.status()).collect();
    assert_eq!(statuses, vec![400, 404, 409, 404, 403, 500, 500, 400]);
}

#[test]
fn error_response_codes_and_messages() {
    let responses: Vec<(usize, String)> = all_errors()
        .iter()
        .map(|e| {
            let r = ApiErrorResponse::from_error(e);
            (r.code, r.message)
        })
        .collect();
    assert_eq!(
        responses,
        vec![
            (JSON_REJECTION, "Invalid JSON in request.".to_owned()),
            (NOT_FOUND, "Not found.".to_owned()),
            (ALREADY_REGISTERED, "User is already registered.".to_owned()),
            (NOT_FOUND, "Not found.".to_owned()),
            (FORBIDDEN, "Forbidden.".to_owned()),
            (INTERNAL_SERVER_ERROR, "Internal server error.".to_owned()),
            (INTERNAL_SERVER_ERROR, "Internal server error.".to_owned()),
            (BAD_REQUEST, "bad".to_owned()),
        ]
    );
}

#[test]
fn codes_follow_statuses() {
    for e in all_errors() {
        assert_eq!(ApiErrorResponse::from_error(&e).code / 10, e.status() as usize);
    }
}

#[test]
fn responses_read_back() {
    let back = ApiError::from_response(ApiErrorResponse::from_error(&ApiError::ServerError));
    assert!(matches!(back, ApiError::ServerError));
    let back = ApiError::from_response(ApiErrorResponse::from_error(&ApiError::ClientError("oops".to_owned())));
    assert!(matches!(back, ApiError::ClientError(m) if m == "oops"));
    let back = ApiError::from_response(ApiErrorResponse::from_error(&ApiError::Service(ServiceError::Unauthorized)));
    assert!(matches!(back, ApiError::ClientError(m) if m == "Forbidden."));
    let back = ApiError::from_response(ApiErrorResponse { code: 5000, message: "x".to_owned() });
    assert!(matches!(back, ApiError::ServerError));
}

#[test]
fn service_errors_become_api_errors() {
    assert!(matches!(ApiError::from_service(ServiceError::NotFound), ApiError::Service(ServiceError::NotFound)));
    assert_eq!(ServiceError::AlreadyRegistered.message(), "User is already registered.");
}
