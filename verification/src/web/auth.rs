use base64::Engine;
use sha2::Digest;
use vstd::prelude::*;

use crate::api::ApiError;
use crate::authentication::authenticated_token::AuthenticatedToken;
use crate::authentication::registered_user::RegisteredUser;
use crate::model::user::UserCreate;

verus! {

/// How long the refresh token cookie lives, in seconds.
pub const REFRESH_TOKEN_MAX_AGE: i64 = 86400;

/// How long before the refresh token cookie expires the access token is
/// refreshed, in seconds.
pub const REFRESH_TOKEN_INTERVAL: i64 = 3600;

/// The SHA-256 digest that `sha2::Sha256` computes of the UTF-8 bytes of
/// `text`.
pub uninterp spec fn sha256_of(text: Seq<char>) -> Seq<u8>;

/// The text that the URL-safe, unpadded base64 engine of the `base64`
/// crate encodes `bytes` to.
pub uninterp spec fn url_safe_encoded(bytes: Seq<u8>) -> Seq<char>;

/// Hashes the UTF-8 bytes of `verifier` with `sha2::Sha256`. The contract
/// says only that the digest is `sha256_of` the text.
#[verifier::external_body]
fn get_code_challenge(verifier: &str) -> (r: [u8; 32])
    ensures
        r@ == sha256_of(verifier@),
{
    let mut hasher = sha2::Sha256::new();
    hasher.update(verifier.as_bytes());
    hasher.finalize().into()
}

/// Encodes `bytes` with `base64`'s `BASE64_URL_SAFE_NO_PAD` engine. The
/// contract says only that the text is `url_safe_encoded` of the bytes.
#[verifier::external_body]
fn encode_url_safe(bytes: &[u8]) -> (r: String)
    ensures
        r@ == url_safe_encoded(bytes@),
{
    base64::prelude::BASE64_URL_SAFE_NO_PAD.encode(bytes)
}

/// The PKCE code challenge of a verifier: its SHA-256 digest in URL-safe
/// base64 without padding (the `S256` method).
pub fn code_challenge(verifier: &str) -> (r: String)
    ensures
        r@ == url_safe_encoded(sha256_of(verifier@)),
{
    let hash = get_code_challenge(verifier);
    encode_url_safe(&hash)
}

/// The `Authorization` header that carries a bearer token: `Bearer `, then
/// the token. `Authenticator::bearer_token` reads the token back when it
/// holds no white space (see `lemma_bearer_header`).
pub fn bearer_header(token: &str) -> (r: String)
    ensures
        r@ == "Bearer "@ + token@,
{
    "Bearer ".to_owned().concat(token)
}

/// The scopes that sign-in asks the identity provider for.
pub fn login_scopes() -> (r: Vec<&'static str>)
    ensures
        r@.len() == 5,
        r@[0]@ == "openid"@,
        r@[1]@ == "email"@,
        r@[2]@ == "groups"@,
        r@[3]@ == "profile"@,
        r@[4]@ == "offline_access"@,
{
    vec!["openid", "email", "groups", "profile", "offline_access"]
}

/// The refresh token of a token response, which sign-in needs: without one
/// the server failed.
pub fn required_refresh_token(refresh_token: Option<String>) -> (r: Result<String, ApiError>)
    ensures
        refresh_token matches Some(t) ==> (r matches Ok(s) && s@ == t@),
        refresh_token is None ==> r matches Err(ApiError::ServerError),
{
    match refresh_token {
        Some(t) => Ok(t),
        None => Err(ApiError::ServerError),
    }
}

/// What sign-in does with the user of an authenticated token: a token
/// whose email is not verified is refused, a registered user is left as it
/// is, and a new user is registered with the token's email, subject and
/// issuer.
pub fn registration(token: &AuthenticatedToken, registered: &Option<RegisteredUser>) -> (r: Result<
    Option<UserCreate>,
    ApiError,
>)
    ensures
        !token.spec_claims().spec_email_verified() ==> (r matches Err(ApiError::ClientError(m)) && m@
            == "Email address is not verified."@),
        token.spec_claims().spec_email_verified() && registered is Some ==> r matches Ok(None),
        token.spec_claims().spec_email_verified() && registered is None ==> (r matches Ok(Some(u)) && u.name@
            == Seq::<char>::empty() && u.email@ == token.spec_claims().spec_email() && u.sub@
            == token.spec_claims().spec_sub() && u.iss@ == token.spec_claims().spec_iss()),
{
    if !token.email_verified() {
        return Err(ApiError::ClientError("Email address is not verified.".to_owned()));
    }
    if registered.is_some() {
        return Ok(None);
    }
    Ok(
        Some(
            UserCreate {
                name: String::new(),
                email: token.email().to_owned(),
                sub: token.sub().to_owned(),
                iss: token.iss().to_owned(),
            },
        ),
    )
}

} // verus!
