use vstd::prelude::*;

use crate::authentication::authenticated_token::{string_views, AuthenticatedToken, Claims};
use crate::authentication::AuthenticationError;
use crate::authorization::actions::str_equals;
use crate::resource::{option_string_view, str_views};

verus! {

/// Whether `c` has the Unicode `White_Space` property, the property that
/// separates the words of an `Authorization` header.
pub open spec fn is_white_space(c: char) -> bool {
    let n = c as u32;
    ||| 9 <= n <= 13
    ||| n == 32
    ||| n == 0x85
    ||| n == 0xa0
    ||| n == 0x1680
    ||| 0x2000 <= n <= 0x200a
    ||| n == 0x2028
    ||| n == 0x2029
    ||| n == 0x202f
    ||| n == 0x205f
    ||| n == 0x3000
}

/// The first index at or after `i` that holds no white space, or the length.
pub open spec fn skip_space(s: Seq<char>, i: int) -> int
    decreases s.len() - i,
{
    if i >= s.len() {
        s.len() as int
    } else if is_white_space(s[i]) {
        skip_space(s, i + 1)
    } else {
        i
    }
}

/// The first index at or after `i` that holds white space, or the length.
pub open spec fn word_end(s: Seq<char>, i: int) -> int
    decreases s.len() - i,
{
    if i >= s.len() {
        s.len() as int
    } else if is_white_space(s[i]) {
        i
    } else {
        word_end(s, i + 1)
    }
}

/// The first word at or after `i`.
pub open spec fn word_at(s: Seq<char>, i: int) -> Seq<char> {
    s.subrange(skip_space(s, i), word_end(s, skip_space(s, i)))
}

/// Where the first word at or after `i` ends.
pub open spec fn after_word(s: Seq<char>, i: int) -> int {
    word_end(s, skip_space(s, i))
}

/// The `kid` that `jsonwebtoken::decode_header` reads from the header of
/// `token`: `None` when the header cannot be decoded, `Some(None)` when it
/// names no key.
pub uninterp spec fn jwt_header_kid(token: Seq<char>) -> Option<Option<Seq<char>>>;

#[verifier::external_type_specification]
#[verifier::external_body]
pub struct ExAlgorithm(jsonwebtoken::Algorithm);

#[verifier::external_type_specification]
#[verifier::external_body]
pub struct ExJwkSet(jsonwebtoken::jwk::JwkSet);

#[verifier::external_type_specification]
#[verifier::external_body]
pub struct ExJwk(jsonwebtoken::jwk::Jwk);

#[verifier::external_type_specification]
#[verifier::external_body]
pub struct ExDecodingKey(jsonwebtoken::DecodingKey);

#[verifier::external_type_specification]
#[verifier::external_body]
pub struct ExJsonValue(serde_json::Value);

/// Decodes the header of `token` with `jsonwebtoken::decode_header` and
/// picks its `kid` and `alg`. The contract says only that the outcome and
/// the `kid` are `jwt_header_kid` of the token: decoding takes base64 and
/// JSON, which are not written out here. Nothing is said of `alg`.
#[verifier::external_body]
fn decode_token_header(token: &str) -> (r: Result<(Option<String>, jsonwebtoken::Algorithm), jsonwebtoken::errors::Error>)
    ensures
        match r {
            Ok(h) => jwt_header_kid(token@) == Some(option_string_view(h.0)),
            Err(_) => jwt_header_kid(token@) is None,
        },
{
    jsonwebtoken::decode_header(token).map(|h| (h.kid, h.alg))
}

/// The `kid` of each key of a JWK set, in the set's order.
pub uninterp spec fn jwk_key_ids(keys: jsonwebtoken::jwk::JwkSet) -> Seq<Option<Seq<char>>>;

/// `JwkSet::find`: the first key of the set whose `kid` is `kid`. The
/// contract says that a key comes back exactly when one of the set's keys
/// has that `kid`.
#[verifier::external_body]
fn find_key<'a>(keys: &'a jsonwebtoken::jwk::JwkSet, kid: &str) -> (r: Option<&'a jsonwebtoken::jwk::Jwk>)
    ensures
        r is Some <==> jwk_key_ids(*keys).contains(Some(kid@)),
{
    keys.find(kid)
}

/// `DecodingKey::from_jwk`: the key to check signatures with. Whether the
/// key can be used depends on its parameters; the contract says nothing of
/// the outcome.
#[verifier::external_body]
fn decoding_key(jwk: &jsonwebtoken::jwk::Jwk) -> (r: Result<jsonwebtoken::DecodingKey, jsonwebtoken::errors::Error>) {
    jsonwebtoken::DecodingKey::from_jwk(jwk)
}

/// The claims of a token as they were sent: `None` for a claim that is
/// missing or has another JSON type (`groups`: `Some(None)` when it is
/// there but not a list of strings).
#[derive(Debug)]
pub struct TokenFields {
    pub groups: Option<Option<Vec<String>>>,
    pub email: Option<String>,
    pub email_verified: Option<bool>,
    pub sub: Option<String>,
    pub iss: Option<String>,
    pub aud: Option<String>,
}

impl View for TokenFields {
    type V = (
        Option<Option<Seq<Seq<char>>>>,
        Option<Seq<char>>,
        Option<bool>,
        Option<Seq<char>>,
        Option<Seq<char>>,
        Option<Seq<char>>,
    );

    open spec fn view(&self) -> Self::V {
        (
            match self.groups {
                None => None,
                Some(None) => Some(None),
                Some(Some(g)) => Some(Some(string_views(g@))),
            },
            option_string_view(self.email),
            self.email_verified,
            option_string_view(self.sub),
            option_string_view(self.iss),
            option_string_view(self.aud),
        )
    }
}

/// The claims in the payload of `token`, read as `TokenFields` reads them:
/// `groups`, `email`, `email_verified`, `sub`, `iss` and `aud`, each `None`
/// when missing or of another JSON type.
pub uninterp spec fn jwt_payload_fields(token: Seq<char>) -> (
    Option<Option<Seq<Seq<char>>>>,
    Option<Seq<char>>,
    Option<bool>,
    Option<Seq<char>>,
    Option<Seq<char>>,
    Option<Seq<char>>,
);

/// Reads the claims of a decoded token out of its JSON object with
/// `serde_json`'s accessors; a conversion, with nothing promised of it.
#[verifier::external_body]
fn token_fields(c: &serde_json::Value) -> (r: TokenFields) {
    let text = |n: &str| c.get(n).and_then(|v| v.as_str()).map(|v| v.to_owned());
    TokenFields {
        groups: c.get("groups").map(|g| serde_json::from_value::<Vec<String>>(g.clone()).ok()),
        email: text("email"),
        email_verified: c.get("email_verified").and_then(|v| v.as_bool()),
        sub: text("sub"),
        iss: text("iss"),
        aud: text("aud"),
    }
}

/// `jsonwebtoken::decode` with a `Validation` for `algorithm` that names
/// `issuer`, `audience` and the claims `required`. The crate enforces the
/// presence only of the registered claims among them (`exp`, `sub`, `iss`,
/// `aud`, `nbf`) and skips any other name. Whether the signature holds
/// under `key` and the token is unexpired rests on the key and the clock,
/// and the contract leaves it open. It says what holds of a token the crate
/// accepts: the claims read are those of the token's own payload, an `iss`
/// that is a string is `issuer`, and an `aud` that is a string is
/// `audience`.
#[verifier::external_body]
fn decode_token(
    token: &str,
    key: &jsonwebtoken::DecodingKey,
    algorithm: jsonwebtoken::Algorithm,
    issuer: &str,
    audience: &str,
    required: &[&str],
) -> (r: Result<TokenFields, jsonwebtoken::errors::Error>)
    ensures
        r matches Ok(f) ==> f@ == jwt_payload_fields(token@),
        r matches Ok(f) ==> (f.iss matches Some(i) ==> i@ == issuer@),
        r matches Ok(f) ==> (f.aud matches Some(a) ==> a@ == audience@),
{
    let mut validation = jsonwebtoken::Validation::new(algorithm);
    validation.set_issuer(&[issuer]);
    validation.set_audience(&[audience]);
    validation.set_required_spec_claims(required);
    jsonwebtoken::decode::<serde_json::Value>(token, key, &validation).map(|d| token_fields(&d.claims))
}

/// The error of a token that lacks the claim `name`, as
/// `jsonwebtoken::errors::ErrorKind::MissingRequiredClaim`.
#[verifier::external_body]
fn missing_claim(name: &str) -> (r: jsonwebtoken::errors::Error) {
    jsonwebtoken::errors::ErrorKind::MissingRequiredClaim(name.to_owned()).into()
}

/// Whether `c` is white space.
fn white_space(c: char) -> (b: bool)
    ensures
        b == is_white_space(c),
{
    let n = c as u32;
    (9 <= n && n <= 13) || n == 32 || n == 0x85 || n == 0xa0 || n == 0x1680 || (0x2000 <= n && n
        <= 0x200a) || n == 0x2028 || n == 0x2029 || n == 0x202f || n == 0x205f || n == 0x3000
}

/// `skip_space(s@, i)`, computed.
fn skip_space_from(s: &str, i: usize) -> (r: usize)
    requires
        i <= s@.len(),
    ensures
        r == skip_space(s@, i as int),
        i <= r <= s@.len(),
{
    let n = s.unicode_len();
    let mut j = i;
    while j < n && white_space(s.get_char(j))
        invariant
            n == s@.len(),
            i <= j <= n,
            skip_space(s@, j as int) == skip_space(s@, i as int),
        decreases n - j,
    {
        j = j + 1;
    }
    j
}

/// `word_end(s@, i)`, computed.
fn word_end_from(s: &str, i: usize) -> (r: usize)
    requires
        i <= s@.len(),
    ensures
        r == word_end(s@, i as int),
        i <= r <= s@.len(),
{
    let n = s.unicode_len();
    let mut j = i;
    while j < n && !white_space(s.get_char(j))
        invariant
            n == s@.len(),
            i <= j <= n,
            word_end(s@, j as int) == word_end(s@, i as int),
        decreases n - j,
    {
        j = j + 1;
    }
    j
}

/// From `i` on, a run of characters without white space ends at the end.
proof fn lemma_word_runs_to_end(s: Seq<char>, i: int)
    requires
        0 <= i <= s.len(),
        forall|k: int| i <= k < s.len() ==> !is_white_space(#[trigger] s[k]),
    ensures
        word_end(s, i) == s.len(),
    decreases s.len() - i,
{
    if i < s.len() {
        lemma_word_runs_to_end(s, i + 1);
    }
}

/// The header `Bearer <token>` carries `token`, for any token without white
/// space: authentication reads back the token that was sent.
pub proof fn lemma_bearer_header(token: Seq<char>)
    requires
        token.len() > 0,
        forall|k: int| 0 <= k < token.len() ==> !is_white_space(#[trigger] token[k]),
    ensures
        word_at("Bearer "@ + token, 0) == "Bearer"@,
        word_at("Bearer "@ + token, after_word("Bearer "@ + token, 0)) == token,
{
    reveal_strlit("Bearer ");
    reveal_strlit("Bearer");
    let h = "Bearer "@ + token;
    assert(h.len() == token.len() + 7);
    assert(!is_white_space(h[0]));
    assert(skip_space(h, 0) == 0);
    assert(!is_white_space(h[1]));
    assert(!is_white_space(h[2]));
    assert(!is_white_space(h[3]));
    assert(!is_white_space(h[4]));
    assert(!is_white_space(h[5]));
    assert(is_white_space(h[6]));
    assert(word_end(h, 0) == 6) by {
        reveal_with_fuel(word_end, 7);
    }
    assert(h.subrange(0, 6) =~= "Bearer"@);
    assert(!is_white_space(h[7])) by {
        assert(h[7] == token[0]);
    }
    assert(skip_space(h, 6) == 7) by {
        reveal_with_fuel(skip_space, 2);
    }
    assert forall|k: int| 7 <= k < h.len() implies !is_white_space(#[trigger] h[k]) by {
        assert(h[k] == token[k - 7]);
    }
    lemma_word_runs_to_end(h, 7);
    assert(h.subrange(7, h.len() as int) =~= token);
}

/// The first claim, in the order they are read, that `f` lacks or holds
/// with another type; `None` when every claim is there. A missing `groups`
/// is no fault: it stands for no groups.
pub open spec fn missing_claim_name(
    f: (
        Option<Option<Seq<Seq<char>>>>,
        Option<Seq<char>>,
        Option<bool>,
        Option<Seq<char>>,
        Option<Seq<char>>,
        Option<Seq<char>>,
    ),
) -> Option<Seq<char>> {
    if f.0 matches Some(None) {
        Some("groups"@)
    } else if f.1 is None {
        Some("email"@)
    } else if f.2 is None {
        Some("email_verified"@)
    } else if f.3 is None {
        Some("sub"@)
    } else if f.4 is None {
        Some("iss"@)
    } else {
        None
    }
}

/// Whether `c` holds the claims of `f`, with no groups where `f` has none.
pub open spec fn claims_agree(
    f: (
        Option<Option<Seq<Seq<char>>>>,
        Option<Seq<char>>,
        Option<bool>,
        Option<Seq<char>>,
        Option<Seq<char>>,
        Option<Seq<char>>,
    ),
    c: Claims,
) -> bool {
    &&& string_views(c.spec_groups()) == (match f.0 {
        Some(Some(g)) => g,
        _ => Seq::<Seq<char>>::empty(),
    })
    &&& f.1 == Some(c.spec_email())
    &&& f.2 == Some(c.spec_email_verified())
    &&& f.3 == Some(c.spec_sub())
    &&& f.4 == Some(c.spec_iss())
}

/// The claims that every accepted token must name. The decoder enforces the
/// registered ones among them; `claims_of` checks the rest.
pub open spec fn spec_required_claims() -> Seq<Seq<char>> {
    seq!["iss"@, "exp"@, "aud"@, "email"@, "email_verified"@, "sub"@]
}

/// The bearer token that an `Authorization` header carries and the id of
/// the key it was signed with.
#[derive(Debug)]
pub struct BearerToken {
    pub token: String,
    pub key_id: String,
    pub algorithm: jsonwebtoken::Algorithm,
}

/// Authenticates requests by the bearer token in their `Authorization`
/// header.
#[derive(Debug, Clone, Copy)]
pub struct Authenticator;

impl Authenticator {
    /// The token of an `Authorization` header: its first white-space
    /// separated word must be `Bearer`, and the token is the second word.
    pub fn bearer_token(authorization_header: &str) -> (r: Result<String, AuthenticationError>)
        ensures
            word_at(authorization_header@, 0) != "Bearer"@ ==> r matches Err(
                AuthenticationError::MissingBearer,
            ),
            word_at(authorization_header@, 0) == "Bearer"@ && word_at(
                authorization_header@,
                after_word(authorization_header@, 0),
            ).len() == 0 ==> r matches Err(AuthenticationError::MissingToken),
            word_at(authorization_header@, 0) == "Bearer"@ && word_at(
                authorization_header@,
                after_word(authorization_header@, 0),
            ).len() > 0 ==> (r matches Ok(t) && t@ == word_at(
                authorization_header@,
                after_word(authorization_header@, 0),
            )),
    {
        let h = authorization_header;
        let a = skip_space_from(h, 0);
        let b = word_end_from(h, a);
        let first = h.substring_char(a, b);
        if !str_equals(first, "Bearer") {
            return Err(AuthenticationError::MissingBearer);
        }
        let c = skip_space_from(h, b);
        let d = word_end_from(h, c);
        if c == d {
            return Err(AuthenticationError::MissingToken);
        }
        Ok(h.substring_char(c, d).to_owned())
    }

    /// The key id of a decoded token header: an undecodable header makes the
    /// token invalid, and a header without `kid` is refused.
    pub fn key_id_of(decoded: Result<Option<String>, jsonwebtoken::errors::Error>) -> (r: Result<
        String,
        AuthenticationError,
    >)
        ensures
            decoded is Err ==> r matches Err(AuthenticationError::InvalidToken(_)),
            decoded matches Ok(None) ==> r matches Err(AuthenticationError::MissingKeyId),
            decoded matches Ok(Some(k)) ==> (r matches Ok(s) && s@ == k@),
    {
        match decoded {
            Err(e) => Err(AuthenticationError::InvalidToken(e)),
            Ok(None) => Err(AuthenticationError::MissingKeyId),
            Ok(Some(k)) => Ok(k),
        }
    }

    /// The id of the key that signed `token`, read from the token's header.
    pub fn key_id(token: &str) -> (r: Result<String, AuthenticationError>)
        ensures
            jwt_header_kid(token@) is None ==> r matches Err(AuthenticationError::InvalidToken(_)),
            jwt_header_kid(token@) == Some(None::<Seq<char>>) ==> r matches Err(
                AuthenticationError::MissingKeyId,
            ),
            jwt_header_kid(token@) matches Some(Some(k)) ==> (r matches Ok(s) && s@ == k),
    {
        match decode_token_header(token) {
            Ok((kid, _)) => Self::key_id_of(Ok(kid)),
            Err(e) => Self::key_id_of(Err(e)),
        }
    }

    /// The part of authentication that reads the request: the bearer token
    /// of the header and the id of the key that signed it. Checking the
    /// signature against that key follows.
    pub fn authenticate(authorization_header: &str) -> (r: Result<BearerToken, AuthenticationError>)
        ensures
            word_at(authorization_header@, 0) != "Bearer"@ ==> r matches Err(
                AuthenticationError::MissingBearer,
            ),
            word_at(authorization_header@, 0) == "Bearer"@ && word_at(
                authorization_header@,
                after_word(authorization_header@, 0),
            ).len() == 0 ==> r matches Err(AuthenticationError::MissingToken),
            r matches Ok(b) ==> {
                &&& word_at(authorization_header@, 0) == "Bearer"@
                &&& b.token@ == word_at(authorization_header@, after_word(authorization_header@, 0))
                &&& b.token@.len() > 0
                &&& jwt_header_kid(b.token@) == Some(Some(b.key_id@))
            },
            word_at(authorization_header@, 0) == "Bearer"@ && word_at(
                authorization_header@,
                after_word(authorization_header@, 0),
            ).len() > 0 ==> match jwt_header_kid(
                word_at(authorization_header@, after_word(authorization_header@, 0)),
            ) {
                None => r matches Err(AuthenticationError::InvalidToken(_)),
                Some(None) => r matches Err(AuthenticationError::MissingKeyId),
                Some(Some(_)) => r is Ok,
            },
    {
        let token = match Self::bearer_token(authorization_header) {
            Ok(t) => t,
            Err(e) => {
                return Err(e);
            },
        };
        let (kid, algorithm) = match decode_token_header(token.as_str()) {
            Ok(h) => h,
            Err(e) => {
                return Err(AuthenticationError::InvalidToken(e));
            },
        };
        let key_id = match Self::key_id_of(Ok(kid)) {
            Ok(k) => k,
            Err(e) => {
                return Err(e);
            },
        };
        Ok(BearerToken { token, key_id, algorithm })
    }

    /// The claims of a token from its fields: `groups` defaults to none,
    /// every other claim must be there with its type; the first that is not
    /// is named in the error.
    pub fn claims_of(fields: TokenFields) -> (r: Result<Claims, &'static str>)
        ensures
            r is Err <==> missing_claim_name(fields@) is Some,
            r matches Err(name) ==> missing_claim_name(fields@) == Some(name@),
            r matches Ok(c) ==> claims_agree(fields@, c),
    {
        let ghost fv = fields@;
        let TokenFields { groups, email, email_verified, sub, iss, aud: _ } = fields;
        let groups = match groups {
            None => Vec::new(),
            Some(Some(g)) => g,
            Some(None) => {
                return Err("groups");
            },
        };
        let email = match email {
            Some(e) => e,
            None => {
                return Err("email");
            },
        };
        let email_verified = match email_verified {
            Some(v) => v,
            None => {
                return Err("email_verified");
            },
        };
        let sub = match sub {
            Some(v) => v,
            None => {
                return Err("sub");
            },
        };
        let iss = match iss {
            Some(v) => v,
            None => {
                return Err("iss");
            },
        };
        proof {
            assert(string_views(groups@) =~= (match fv.0 {
                Some(Some(g)) => g,
                _ => Seq::<Seq<char>>::empty(),
            }));
        }
        Ok(Claims::new(groups, email, email_verified, sub, iss))
    }

    /// The claims that every accepted token must name, for the decoder.
    pub fn required_claims() -> (r: Vec<&'static str>)
        ensures
            str_views(r@) == spec_required_claims(),
    {
        let r = vec!["iss", "exp", "aud", "email", "email_verified", "sub"];
        assert(str_views(r@) =~= spec_required_claims());
        r
    }

    /// Checks a bearer token against the identity provider's keys: the key
    /// named by the token's `kid` must be in `keys`, the signature must hold
    /// under it with the header's algorithm, the token must be unexpired,
    /// issued by `issuer` for `audience`, and carry the claims of
    /// `claims_of`. The token that comes back holds the claims of the
    /// bearer token's own payload.
    pub fn verify_token(bearer: &BearerToken, keys: &jsonwebtoken::jwk::JwkSet, issuer: &str, audience: &str) -> (r:
        Result<AuthenticatedToken, AuthenticationError>)
        ensures
            !jwk_key_ids(*keys).contains(Some(bearer.key_id@)) ==> r matches Err(AuthenticationError::MissingKey),
            jwk_key_ids(*keys).contains(Some(bearer.key_id@)) ==> !(r matches Err(AuthenticationError::MissingKey)),
            r matches Err(e) ==> (e is MissingKey || e is InvalidToken),
            r matches Ok(t) ==> missing_claim_name(jwt_payload_fields(bearer.token@)) is None && claims_agree(
                jwt_payload_fields(bearer.token@),
                t.spec_claims(),
            ),
            r matches Ok(t) ==> t.spec_claims().spec_iss() == issuer@,
            r is Ok ==> (jwt_payload_fields(bearer.token@).5 matches Some(a) ==> a == audience@),
    {
        let jwk = match find_key(keys, bearer.key_id.as_str()) {
            Some(k) => k,
            None => {
                return Err(AuthenticationError::MissingKey);
            },
        };
        let key = match decoding_key(jwk) {
            Ok(k) => k,
            Err(e) => {
                return Err(AuthenticationError::InvalidToken(e));
            },
        };
        let required = Self::required_claims();
        let fields = match decode_token(bearer.token.as_str(), &key, bearer.algorithm, issuer, audience, required.as_slice()) {
            Ok(f) => f,
            Err(e) => {
                return Err(AuthenticationError::InvalidToken(e));
            },
        };
        match Self::claims_of(fields) {
            Ok(c) => Ok(AuthenticatedToken::new(c)),
            Err(name) => Err(AuthenticationError::InvalidToken(missing_claim(name))),
        }
    }
}

} // verus!
