use vstd::prelude::*;

pub mod authenticated_token;
pub mod authenticated_user;
pub mod authenticator;
pub mod registered_user;

verus! {

#[verifier::external_type_specification]
#[verifier::external_body]
pub struct ExJwtError(jsonwebtoken::errors::Error);

#[verifier::external_type_specification]
#[verifier::external_body]
pub struct ExReqwestError(reqwest::Error);

/// Why a request could not be authenticated.
#[derive(Debug)]
pub enum AuthenticationError {
    MissingHeader,
    MissingBearer,
    MissingToken,
    MissingKeyId,
    MissingKey,
    InvalidToken(jsonwebtoken::errors::Error),
    WellKnownParse,
    WellKnownConnection(reqwest::Error),
}

impl AuthenticationError {
    /// The HTTP status of the rejection: failing to read or reach the
    /// identity provider's metadata is the server's fault (500), every other
    /// failure is the client's (401).
    pub open spec fn spec_status(&self) -> u16 {
        match self {
            AuthenticationError::WellKnownParse => 500,
            AuthenticationError::WellKnownConnection(_) => 500,
            _ => 401,
        }
    }

    /// The HTTP status with which the request is rejected.
    pub fn status(&self) -> (s: u16)
        ensures
            s == self.spec_status(),
    {
        match self {
            AuthenticationError::WellKnownParse => 500,
            AuthenticationError::WellKnownConnection(_) => 500,
            _ => 401,
        }
    }

    /// The text that describes the error.
    pub open spec fn spec_message(&self) -> Seq<char> {
        match self {
            AuthenticationError::MissingHeader => "Missing `Authorization` header in request."@,
            AuthenticationError::MissingBearer => "Missing `Bearer` in authorization header."@,
            AuthenticationError::MissingToken => "Missing token in authorization header."@,
            AuthenticationError::MissingKeyId => "Missing `kid` in authorization token header."@,
            AuthenticationError::MissingKey => "Missing key with kid in JWKSet"@,
            AuthenticationError::InvalidToken(_) => "Invalid token in authorization header."@,
            AuthenticationError::WellKnownParse => "Failed to parse `AUTH_WELL_KNOWN_URI` variable."@,
            AuthenticationError::WellKnownConnection(_) => "Failed to connect to `AUTH_WELL_KNOWN_URI` endpoint."@,
        }
    }

    /// The text that describes the error.
    pub fn message(&self) -> (s: &'static str)
        ensures
            s@ == self.spec_message(),
    {
        match self {
            AuthenticationError::MissingHeader => "Missing `Authorization` header in request.",
            AuthenticationError::MissingBearer => "Missing `Bearer` in authorization header.",
            AuthenticationError::MissingToken => "Missing token in authorization header.",
            AuthenticationError::MissingKeyId => "Missing `kid` in authorization token header.",
            AuthenticationError::MissingKey => "Missing key with kid in JWKSet",
            AuthenticationError::InvalidToken(_) => "Invalid token in authorization header.",
            AuthenticationError::WellKnownParse => "Failed to parse `AUTH_WELL_KNOWN_URI` variable.",
            AuthenticationError::WellKnownConnection(_) => "Failed to connect to `AUTH_WELL_KNOWN_URI` endpoint.",
        }
    }
}

} // verus!
