use vstd::prelude::*;

use crate::authentication::authenticated_token::{
    last_segment, lemma_last_segment_has_no_colon, lemma_normalize_groups_idempotent, AuthenticatedToken,
};
use crate::authentication::registered_user::RegisteredUser;
use crate::authorization::actions::{CreateLevel, DeleteLevel, ReadLevel, UpdateLevel};
use crate::authorization::PermissionConfig;
use crate::service::ServiceError;

pub mod account_api;
pub mod asset_api;
pub mod docs_api;
pub mod institution_api;
pub mod transaction_api;
pub mod user_api;

verus! {

/// The group names a token ends up with: a token with a verified email and
/// no groups is put in `user` when its user is registered and in
/// `unregistered_user` when not; then each name is cut to its last
/// `:`-separated segment.
pub open spec fn spec_user_groups(groups: Seq<Seq<char>>, email_verified: bool, registered: bool) -> Seq<
    Seq<char>,
> {
    let groups = if groups.len() == 0 && email_verified {
        if registered {
            seq!["user"@]
        } else {
            seq!["unregistered_user"@]
        }
    } else {
        groups
    };
    groups.map_values(|g: Seq<char>| last_segment(g))
}

/// Sets the groups of an authenticated token before the request goes on.
pub fn set_user_groups(token: AuthenticatedToken, user: &Option<RegisteredUser>) -> (r: AuthenticatedToken)
    ensures
        r.group_names() == spec_user_groups(
            token.group_names(),
            token.spec_claims().spec_email_verified(),
            user is Some,
        ),
        r.spec_claims().spec_email() == token.spec_claims().spec_email(),
        r.spec_claims().spec_email_verified() == token.spec_claims().spec_email_verified(),
        r.spec_claims().spec_sub() == token.spec_claims().spec_sub(),
        r.spec_claims().spec_iss() == token.spec_claims().spec_iss(),
{
    let mut token = token;
    let ghost before = token.group_names();
    if token.groups().len() == 0 && token.email_verified() {
        if user.is_some() {
            token.add_group("user".to_owned());
        } else {
            token.add_group("unregistered_user".to_owned());
        }
        proof {
            assert(token.group_names() =~= seq![
                if user is Some {
                    "user"@
                } else {
                    "unregistered_user"@
                },
            ]);
        }
    }
    token.normalize_groups();
    token
}

/// The groups that a request goes on with are normalized: none holds a
/// `:`, and normalizing them again changes nothing.
pub proof fn lemma_user_groups_normalized(groups: Seq<Seq<char>>, email_verified: bool, registered: bool)
    ensures
        forall|i: int|
            0 <= i < spec_user_groups(groups, email_verified, registered).len() ==> !(#[trigger] spec_user_groups(
                groups,
                email_verified,
                registered,
            )[i]).contains(':'),
        spec_user_groups(groups, email_verified, registered).map_values(|g: Seq<char>| last_segment(g))
            == spec_user_groups(groups, email_verified, registered),
{
    let start = if groups.len() == 0 && email_verified {
        if registered {
            seq!["user"@]
        } else {
            seq!["unregistered_user"@]
        }
    } else {
        groups
    };
    let r = spec_user_groups(groups, email_verified, registered);
    assert forall|i: int| 0 <= i < r.len() implies !(#[trigger] r[i]).contains(':') by {
        lemma_last_segment_has_no_colon(start[i]);
    }
    lemma_normalize_groups_idempotent(start);
}

/// The permission levels that the API asks for on every resource: the
/// plain levels, never the `All` ones.
pub open spec fn spec_api_config() -> PermissionConfig {
    PermissionConfig {
        min_read_level: ReadLevel::Read,
        min_create_level: CreateLevel::Create,
        min_update_level: UpdateLevel::Update,
        min_delete_level: DeleteLevel::Delete,
    }
}

/// The permission levels that the API asks for on every resource.
pub fn api_config() -> (c: PermissionConfig)
    ensures
        c == spec_api_config(),
{
    PermissionConfig {
        min_read_level: ReadLevel::Read,
        min_create_level: CreateLevel::Create,
        min_update_level: UpdateLevel::Update,
        min_delete_level: DeleteLevel::Delete,
    }
}

/// An error answered by the API.
#[derive(Debug)]
pub enum ApiError {
    JsonRejection,
    NotFound,
    Service(ServiceError),
    ServerError,
    ClientError(String),
}

/// The code of an error response for invalid JSON.
pub const JSON_REJECTION: usize = 4000;

/// The code of an error response for any other bad request.
pub const BAD_REQUEST: usize = 4001;

/// The code of an error response for a refused request.
pub const FORBIDDEN: usize = 4030;

/// The code of an error response for a missing record.
pub const NOT_FOUND: usize = 4040;

/// The code of an error response for a second registration.
pub const ALREADY_REGISTERED: usize = 4090;

/// The code of an error response for a failure of the server.
pub const INTERNAL_SERVER_ERROR: usize = 5000;

impl ApiError {
    /// The HTTP status of the error.
    pub open spec fn spec_status(&self) -> u16 {
        match self {
            ApiError::JsonRejection => 400,
            ApiError::NotFound => 404,
            ApiError::Service(e) => match e {
                ServiceError::AlreadyRegistered => 409,
                ServiceError::NotFound => 404,
                ServiceError::Unauthorized => 403,
                _ => 500,
            },
            ApiError::ServerError => 500,
            ApiError::ClientError(_) => 400,
        }
    }

    /// The HTTP status of the error.
    pub fn status(&self) -> (s: u16)
        ensures
            s == self.spec_status(),
    {
        match self {
            ApiError::JsonRejection => 400,
            ApiError::NotFound => 404,
            ApiError::Service(e) => match e {
                ServiceError::AlreadyRegistered => 409,
                ServiceError::NotFound => 404,
                ServiceError::Unauthorized => 403,
                _ => 500,
            },
            ApiError::ServerError => 500,
            ApiError::ClientError(_) => 400,
        }
    }

    /// The API error of a service error.
    pub fn from_service(value: ServiceError) -> (r: Self)
        ensures
            r == ApiError::Service(value),
    {
        ApiError::Service(value)
    }

    /// The error that an error response stands for, as a client reads it:
    /// a server failure, or a client error with the response's message.
    pub fn from_response(response: ApiErrorResponse) -> (r: Self)
        ensures
            response.code == INTERNAL_SERVER_ERROR ==> r is ServerError,
            response.code != INTERNAL_SERVER_ERROR ==> (r matches ApiError::ClientError(m) && m@
                == response.message@),
    {
        if response.code == INTERNAL_SERVER_ERROR {
            ApiError::ServerError
        } else {
            ApiError::ClientError(response.message)
        }
    }
}

/// The body of an error answer: a code and a message.
#[derive(Debug)]
pub struct ApiErrorResponse {
    pub code: usize,
    pub message: String,
}

impl ApiErrorResponse {
    /// The code of the response for an error.
    pub open spec fn spec_code(e: &ApiError) -> usize {
        match e {
            ApiError::JsonRejection => JSON_REJECTION,
            ApiError::NotFound => NOT_FOUND,
            ApiError::Service(s) => match s {
                ServiceError::AlreadyRegistered => ALREADY_REGISTERED,
                ServiceError::NotFound => NOT_FOUND,
                ServiceError::Unauthorized => FORBIDDEN,
                _ => INTERNAL_SERVER_ERROR,
            },
            ApiError::ServerError => INTERNAL_SERVER_ERROR,
            ApiError::ClientError(_) => BAD_REQUEST,
        }
    }

    /// The message of the response for an error.
    pub open spec fn spec_message(e: &ApiError) -> Seq<char> {
        match e {
            ApiError::JsonRejection => "Invalid JSON in request."@,
            ApiError::NotFound => "Not found."@,
            ApiError::Service(s) => match s {
                ServiceError::AlreadyRegistered => "User is already registered."@,
                ServiceError::NotFound => "Not found."@,
                ServiceError::Unauthorized => "Forbidden."@,
                _ => "Internal server error."@,
            },
            ApiError::ServerError => "Internal server error."@,
            ApiError::ClientError(m) => m@,
        }
    }

    /// The response that answers an error. Failures of the server are
    /// answered without their detail.
    pub fn from_error(value: &ApiError) -> (r: Self)
        ensures
            r.code == Self::spec_code(value),
            r.message@ == Self::spec_message(value),
    {
        match value {
            ApiError::JsonRejection => ApiErrorResponse {
                code: JSON_REJECTION,
                message: "Invalid JSON in request.".to_owned(),
            },
            ApiError::NotFound => ApiErrorResponse { code: NOT_FOUND, message: "Not found.".to_owned() },
            ApiError::Service(s) => match s {
                ServiceError::AlreadyRegistered => ApiErrorResponse {
                    code: ALREADY_REGISTERED,
                    message: "User is already registered.".to_owned(),
                },
                ServiceError::NotFound => ApiErrorResponse { code: NOT_FOUND, message: "Not found.".to_owned() },
                ServiceError::Unauthorized => ApiErrorResponse {
                    code: FORBIDDEN,
                    message: "Forbidden.".to_owned(),
                },
                _ => ApiErrorResponse {
                    code: INTERNAL_SERVER_ERROR,
                    message: "Internal server error.".to_owned(),
                },
            },
            ApiError::ServerError => ApiErrorResponse {
                code: INTERNAL_SERVER_ERROR,
                message: "Internal server error.".to_owned(),
            },
            ApiError::ClientError(m) => ApiErrorResponse { code: BAD_REQUEST, message: m.clone() },
        }
    }
}

/// The code of every error response is its HTTP status followed by one
/// more digit.
pub proof fn lemma_code_follows_status(e: ApiError)
    ensures
        ApiErrorResponse::spec_code(&e) / 10 == e.spec_status() as usize,
{
}

/// A client reads an error response back as a server failure exactly when
/// the error was answered with status 500, and otherwise as a client error
/// that carries the response's message.
pub proof fn lemma_response_read_back(e: ApiError)
    ensures
        ApiErrorResponse::spec_code(&e) == INTERNAL_SERVER_ERROR <==> e.spec_status() == 500,
        e is ClientError ==> ApiErrorResponse::spec_message(&e) == e->ClientError_0@,
{
}

} // verus!
