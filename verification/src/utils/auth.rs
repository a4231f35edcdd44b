use vstd::prelude::*;

use crate::domain::data_stores::{BannedTokenStore, BannedTokenStoreError};
use crate::domain::email::Email;
use crate::utils::constants::{TokenConfig, JWT_COOKIE_NAME};

verus! {

/// What a session token states: whose it is and the second, in Unix time,
/// after which it is no longer valid.
#[derive(Debug)]
pub struct Claims {
    pub sub: String,
    pub exp: usize,
}

/// Why no token was issued, or why one was not accepted.
#[derive(Debug, PartialEq, Eq, Structural, Clone, Copy)]
pub enum TokenError {
    /// The token is banned.
    Revoked,
    /// The revocation store could not say whether the token is banned.
    RevocationUnknown,
    /// The token's structure or signature is wrong.
    Malformed,
    /// The token's time is over.
    Expired,
    /// The expiry of a new token is not a time that a token can state.
    ExpiryOutOfRange,
    /// The claims could not be signed. Signing under a secret key does not
    /// fail, so no function of this library returns this.
    EncodingFailed,
}

/// The cross-site policy of a cookie.
#[derive(Debug, PartialEq, Eq, Structural, Clone, Copy)]
pub enum SameSite {
    Strict,
    Lax,
    Unrestricted,
}

/// A cookie as plain values.
#[derive(Debug)]
pub struct AuthCookie {
    pub name: String,
    pub value: String,
    pub path: String,
    pub domain: String,
    pub http_only: bool,
    pub secure: bool,
    pub same_site: Option<SameSite>,
    /// The age in seconds after which the client drops the cookie.
    pub max_age_seconds: Option<i64>,
}

/// A cookie as a mathematical value.
pub struct AuthCookieView {
    pub name: Seq<char>,
    pub value: Seq<char>,
    pub path: Seq<char>,
    pub domain: Seq<char>,
    pub http_only: bool,
    pub secure: bool,
    pub same_site: Option<SameSite>,
    pub max_age_seconds: Option<i64>,
}

impl View for AuthCookie {
    type V = AuthCookieView;

    open spec fn view(&self) -> AuthCookieView {
        AuthCookieView {
            name: self.name@,
            value: self.value@,
            path: self.path@,
            domain: self.domain@,
            http_only: self.http_only,
            secure: self.secure,
            same_site: self.same_site,
            max_age_seconds: self.max_age_seconds,
        }
    }
}

/// The cookie that carries the session token `token`.
pub open spec fn session_cookie(token: Seq<char>) -> AuthCookieView {
    AuthCookieView {
        name: JWT_COOKIE_NAME@,
        value: token,
        path: "/"@,
        domain: ""@,
        http_only: true,
        secure: false,
        same_site: Some(SameSite::Lax),
        max_age_seconds: None,
    }
}

/// The cookie that makes a client drop its session token.
pub open spec fn expired_cookie() -> AuthCookieView {
    AuthCookieView {
        name: JWT_COOKIE_NAME@,
        value: ""@,
        path: "/"@,
        domain: ""@,
        http_only: true,
        secure: false,
        same_site: None,
        max_age_seconds: Some(0i64),
    }
}

/// The claims that `jsonwebtoken::decode` reads from `token` under the
/// HS256 key `secret`, with the expiry left unchecked: the subject and the
/// expiry where the signature and the structure are right and both claims
/// are there, else nothing.
pub uninterp spec fn jwt_claims(token: Seq<char>, secret: Seq<char>) -> Option<(Seq<char>, usize)>;

/// The token that `jsonwebtoken::encode` makes of the claims `sub` and
/// `exp` under the default header (HS256) and the key `secret`.
pub uninterp spec fn jwt_signed(sub: Seq<char>, exp: usize, secret: Seq<char>) -> Seq<char>;

/// Signs the claims `sub` and `exp` with `jsonwebtoken::encode` under the
/// default header (HS256) and the key `secret`. With a secret key and that
/// header the call cannot fail: the key fits the algorithm, a header and a
/// map of a text and a number always serialize, and HMAC signing returns no
/// error. The token depends on the three arguments alone, and decoding it
/// under the same key gives the two claims back.
#[verifier::external_body]
fn jwt_encode(sub: &str, exp: usize, secret: &str) -> (r: Option<String>)
    requires
        secret@.len() > 0,
    ensures
        r is Some,
        r matches Some(t) ==> t@ == jwt_signed(sub@, exp, secret@),
        r matches Some(t) ==> jwt_claims(t@, secret@) == Some((sub@, exp)),
{
    let mut claims = serde_json::Map::new();
    claims.insert("sub".to_owned(), serde_json::Value::from(sub));
    claims.insert("exp".to_owned(), serde_json::Value::from(exp));
    let key = jsonwebtoken::EncodingKey::from_secret(secret.as_bytes());
    jsonwebtoken::encode(&jsonwebtoken::Header::default(), &claims, &key).ok()
}

/// Decodes `token` with `jsonwebtoken::decode` under the key `secret` and
/// the default validation (HS256) with the expiry check switched off, and
/// picks the claims `sub` and `exp`. The answer depends on the two texts
/// alone.
#[verifier::external_body]
fn jwt_decode(token: &str, secret: &str) -> (r: Option<(String, usize)>)
    requires
        secret@.len() > 0,
    ensures
        match r {
            Some(c) => jwt_claims(token@, secret@) == Some((c.0@, c.1)),
            None => jwt_claims(token@, secret@) is None,
        },
{
    let mut validation = jsonwebtoken::Validation::default();
    validation.validate_exp = false;
    let key = jsonwebtoken::DecodingKey::from_secret(secret.as_bytes());
    let data = jsonwebtoken::decode::<serde_json::Value>(token, &key, &validation).ok()?;
    let sub = data.claims.get("sub")?.as_str()?.to_owned();
    let exp = usize::try_from(data.claims.get("exp")?.as_u64()?).ok()?;
    Some((sub, exp))
}

/// Reads the clock with `chrono::Utc::now` and gives the Unix time in
/// seconds. Nothing is known of the value.
#[verifier::external_body]
pub(crate) fn unix_time_now() -> (r: i64) {
    chrono::Utc::now().timestamp()
}

/// The session cookie for `token`.
pub fn create_auth_cookie(token: String) -> (r: AuthCookie)
    ensures
        r@ == session_cookie(token@),
{
    AuthCookie {
        name: JWT_COOKIE_NAME.to_owned(),
        value: token,
        path: "/".to_owned(),
        domain: "".to_owned(),
        http_only: true,
        secure: false,
        same_site: Some(SameSite::Lax),
        max_age_seconds: None,
    }
}

/// The cookie that makes a client drop its session token.
pub fn create_removal_cookie() -> (r: AuthCookie)
    ensures
        r@ == expired_cookie(),
{
    AuthCookie {
        name: JWT_COOKIE_NAME.to_owned(),
        value: "".to_owned(),
        path: "/".to_owned(),
        domain: "".to_owned(),
        http_only: true,
        secure: false,
        same_site: None,
        max_age_seconds: Some(0),
    }
}

/// Whether a token issued at `now` with a lifetime of `ttl` seconds can
/// state its expiry.
pub open spec fn expiry_in_range(now: int, ttl: int) -> bool {
    0 <= now + ttl <= i64::MAX && now + ttl <= usize::MAX
}

/// The expiry of a token issued at `now` with a lifetime of `ttl` seconds.
pub fn expiry_at(now: i64, ttl: i64) -> (r: Result<usize, TokenError>)
    ensures
        match r {
            Ok(exp) => expiry_in_range(now as int, ttl as int) && exp == now + ttl,
            Err(e) => !expiry_in_range(now as int, ttl as int) && e == TokenError::ExpiryOutOfRange,
        },
{
    match now.checked_add(ttl) {
        None => Err(TokenError::ExpiryOutOfRange),
        Some(exp) => {
            if exp < 0 {
                Err(TokenError::ExpiryOutOfRange)
            } else {
                let wide: u64 = exp as u64;
                if wide > usize::MAX as u64 {
                    Err(TokenError::ExpiryOutOfRange)
                } else {
                    Ok(wide as usize)
                }
            }
        },
    }
}

/// Signs `claims` under the secret of `config`. This always succeeds, and
/// the token decodes to the claims.
pub fn create_token(claims: &Claims, config: &TokenConfig) -> (r: Result<String, TokenError>)
    ensures
        r matches Ok(t) && t@ == jwt_signed(claims.sub@, claims.exp, config.secret())
            && jwt_claims(t@, config.secret()) == Some((claims.sub@, claims.exp)),
{
    match jwt_encode(claims.sub.as_str(), claims.exp, config.secret_text().as_str()) {
        Some(t) => Ok(t),
        None => Err(TokenError::EncodingFailed),
    }
}

/// What `generate_auth_token_at` returns for `email` at the time `now`: the
/// token that states `email` and the expiry `now + ttl`, exactly when that
/// expiry is a time that a token can state.
pub open spec fn issued_at(
    email: Seq<char>,
    secret: Seq<char>,
    ttl: int,
    now: int,
    r: Result<String, TokenError>,
) -> bool {
    match r {
        Ok(t) => {
            &&& expiry_in_range(now, ttl)
            &&& t@ == jwt_signed(email, (now + ttl) as usize, secret)
            &&& jwt_claims(t@, secret) == Some((email, (now + ttl) as usize))
        },
        Err(TokenError::ExpiryOutOfRange) => !expiry_in_range(now, ttl),
        Err(_) => false,
    }
}

/// Issues a token for `email` as of the time `now`.
pub fn generate_auth_token_at(email: &Email, config: &TokenConfig, now: i64) -> (r: Result<
    String,
    TokenError,
>)
    ensures
        issued_at(email@, config.secret(), config.ttl(), now as int, r),
{
    match expiry_at(now, config.ttl_seconds()) {
        Err(e) => Err(e),
        Ok(exp) => {
            let claims = Claims { sub: email.to_string(), exp };
            create_token(&claims, config)
        },
    }
}

/// Issues a token for `email` as of the time that the clock shows.
pub fn generate_auth_token(email: &Email, config: &TokenConfig) -> (r: Result<String, TokenError>)
    ensures
        exists|now: int| #[trigger] issued_at(email@, config.secret(), config.ttl(), now, r),
{
    let now: i64 = unix_time_now();
    let r = generate_auth_token_at(email, config, now);
    assert(issued_at(email@, config.secret(), config.ttl(), now as int, r));
    r
}

/// Whether `cookie` is there and is the session cookie of a token issued for
/// `email` at the time `now`.
pub open spec fn grants_session(
    cookie: Option<AuthCookie>,
    email: Seq<char>,
    secret: Seq<char>,
    ttl: int,
    now: int,
) -> bool {
    cookie matches Some(c) && c@ == session_cookie(c.value@) && issued_at(
        email,
        secret,
        ttl,
        now,
        Ok(c.value),
    )
}

/// Issues a token for `email` as of the time `now` and wraps it in the
/// session cookie.
pub fn generate_auth_cookie_at(email: &Email, config: &TokenConfig, now: i64) -> (r: Result<
    AuthCookie,
    TokenError,
>)
    ensures
        match r {
            Ok(cookie) => grants_session(
                Some(cookie),
                email@,
                config.secret(),
                config.ttl(),
                now as int,
            ),
            Err(e) => issued_at(email@, config.secret(), config.ttl(), now as int, Err(e)),
        },
{
    match generate_auth_token_at(email, config, now) {
        Ok(token) => Ok(create_auth_cookie(token)),
        Err(e) => Err(e),
    }
}

/// Issues a token for `email` as of the time that the clock shows and wraps
/// it in the session cookie.
pub fn generate_auth_cookie(email: &Email, config: &TokenConfig) -> (r: Result<
    AuthCookie,
    TokenError,
>)
    ensures
        match r {
            Ok(cookie) => exists|now: int| #[trigger]
                grants_session(Some(cookie), email@, config.secret(), config.ttl(), now),
            Err(e) => exists|now: int| #[trigger]
                issued_at(email@, config.secret(), config.ttl(), now, Err(e)),
        },
{
    let now: i64 = unix_time_now();
    let r = generate_auth_cookie_at(email, config, now);
    proof {
        if r is Ok {
            assert(grants_session(
                Some(r->Ok_0),
                email@,
                config.secret(),
                config.ttl(),
                now as int,
            ));
        } else {
            assert(issued_at(email@, config.secret(), config.ttl(), now as int, Err(r->Err_0)));
        }
    }
    r
}

/// What the revocation check says of a token: pass, or the reason to
/// refuse it.
pub fn ban_verdict(check: Result<bool, BannedTokenStoreError>) -> (r: Result<(), TokenError>)
    ensures
        match check {
            Ok(true) => r == Err::<(), TokenError>(TokenError::Revoked),
            Ok(false) => r is Ok,
            Err(_) => r == Err::<(), TokenError>(TokenError::RevocationUnknown),
        },
{
    match check {
        Ok(true) => Err(TokenError::Revoked),
        Ok(false) => Ok(()),
        Err(_) => Err(TokenError::RevocationUnknown),
    }
}

/// What the claims of a token and the time say of it, the revocation check
/// left aside: the claims, or the reason to refuse it.
pub open spec fn claims_verdict(
    decoded: Option<(Seq<char>, usize)>,
    now: int,
    r: Result<Claims, TokenError>,
) -> bool {
    match decoded {
        None => r matches Err(TokenError::Malformed),
        Some(c) => if c.1 < now {
            r matches Err(TokenError::Expired)
        } else {
            r matches Ok(claims) && claims.sub@ == c.0 && claims.exp == c.1
        },
    }
}

/// Decodes `token` and checks its expiry against `now`. A token is expired
/// once `now` is past its expiry.
pub fn decode_token_at(token: &str, config: &TokenConfig, now: i64) -> (r: Result<
    Claims,
    TokenError,
>)
    ensures
        claims_verdict(jwt_claims(token@, config.secret()), now as int, r),
{
    match jwt_decode(token, config.secret_text().as_str()) {
        None => Err(TokenError::Malformed),
        Some((sub, exp)) => {
            if now > 0 && (exp as u64) < (now as u64) {
                Err(TokenError::Expired)
            } else {
                Ok(Claims { sub, exp })
            }
        },
    }
}

/// What `validate_token_at` may return for `token` at the time `now` when
/// the banned tokens are `banned`. The revocation check comes first; a store
/// that cannot answer it leaves the token refused, which a store that is
/// `reliable` never does.
pub open spec fn validated_at(
    banned: Set<Seq<char>>,
    reliable: bool,
    token: Seq<char>,
    secret: Seq<char>,
    now: int,
    r: Result<Claims, TokenError>,
) -> bool {
    if r matches Err(TokenError::RevocationUnknown) {
        !reliable
    } else if banned.contains(token) {
        r matches Err(TokenError::Revoked)
    } else {
        claims_verdict(jwt_claims(token, secret), now, r)
    }
}

/// What becomes of `token` at the time `now`, given what the revocation
/// store answered when it was asked about it: a banned token is revoked, an
/// unanswered check leaves the token refused, and otherwise the claims and
/// the time decide.
pub fn judge_token(
    ban_check: Result<bool, BannedTokenStoreError>,
    token: &str,
    config: &TokenConfig,
    now: i64,
) -> (r: Result<Claims, TokenError>)
    ensures
        match ban_check {
            Ok(true) => r matches Err(TokenError::Revoked),
            Ok(false) => claims_verdict(jwt_claims(token@, config.secret()), now as int, r),
            Err(_) => r matches Err(TokenError::RevocationUnknown),
        },
{
    match ban_verdict(ban_check) {
        Err(e) => Err(e),
        Ok(()) => decode_token_at(token, config, now),
    }
}

/// Validates `token` as of the time `now`.
pub fn validate_token_at<T: BannedTokenStore>(
    token: &str,
    banned_token_store: &T,
    config: &TokenConfig,
    now: i64,
) -> (r: Result<Claims, TokenError>)
    ensures
        validated_at(
            banned_token_store.banned(),
            banned_token_store.reliable(),
            token@,
            config.secret(),
            now as int,
            r,
        ),
{
    judge_token(banned_token_store.contains_token(token), token, config, now)
}

/// Validates `token` as of the time that the clock shows.
pub fn validate_token<T: BannedTokenStore>(
    token: &str,
    banned_token_store: &T,
    config: &TokenConfig,
) -> (r: Result<Claims, TokenError>)
    ensures
        exists|now: int| #[trigger]
            validated_at(
                banned_token_store.banned(),
                banned_token_store.reliable(),
                token@,
                config.secret(),
                now,
                r,
            ),
{
    let now: i64 = unix_time_now();
    let r = validate_token_at(token, banned_token_store, config, now);
    assert(validated_at(
        banned_token_store.banned(),
        banned_token_store.reliable(),
        token@,
        config.secret(),
        now as int,
        r,
    ));
    r
}

/// A token that is validated before its expiry and before any ban is
/// accepted, and the claims name the address it was issued for. Only a
/// revocation store that is not reliable can leave the answer open instead.
pub proof fn lemma_issue_then_validate(
    email: Seq<char>,
    secret: Seq<char>,
    ttl: int,
    issued: int,
    token: String,
    banned: Set<Seq<char>>,
    reliable: bool,
    now: int,
    r: Result<Claims, TokenError>,
)
    requires
        issued_at(email, secret, ttl, issued, Ok(token)),
        !banned.contains(token@),
        now <= issued + ttl,
        validated_at(banned, reliable, token@, secret, now, r),
    ensures
        (r matches Ok(claims) && claims.sub@ == email && claims.exp == issued + ttl) || (!reliable
            && r matches Err(TokenError::RevocationUnknown)),
{
}

/// Issuing succeeds exactly when the expiry is a time that a token can
/// state, and then a validation before that expiry and before any ban,
/// against a revocation store that is reliable, returns the address.
pub proof fn lemma_round_trip(
    email: Seq<char>,
    secret: Seq<char>,
    ttl: int,
    issued: int,
    made: Result<String, TokenError>,
    banned: Set<Seq<char>>,
    now: int,
    r: Result<Claims, TokenError>,
)
    requires
        issued_at(email, secret, ttl, issued, made),
        expiry_in_range(issued, ttl),
        now <= issued + ttl,
    ensures
        made is Ok,
        !banned.contains(made->Ok_0@) && validated_at(banned, true, made->Ok_0@, secret, now, r)
            ==> (r matches Ok(claims) && claims.sub@ == email && claims.exp == issued + ttl),
{
}

} // verus!
