use vstd::prelude::*;

use crate::app_state::AppState;
use crate::domain::data_stores::{BannedTokenStore, TwoFACodeStore, UserStore};
use crate::domain::email_client::EmailClient;
use crate::domain::error::AuthAPIError;
use crate::utils::auth::{jwt_claims, unix_time_now, validate_token_at, Claims, TokenError};
use crate::utils::constants::STATUS_OK;

verus! {

/// What a client sends to have a token checked.
#[derive(Debug)]
pub struct VerifyTokenRequest {
    pub token: String,
}

/// What a client is told when the token is valid.
#[derive(Debug)]
pub struct VerifyTokenResponse {
    pub message: String,
}

/// Whether `token` is valid at the time `now`: not banned, rightly signed
/// and not past its expiry.
pub open spec fn token_valid(
    banned: Set<Seq<char>>,
    token: Seq<char>,
    secret: Seq<char>,
    now: int,
) -> bool {
    &&& !banned.contains(token)
    &&& jwt_claims(token, secret) matches Some(c) && !(c.1 < now)
}

/// The error that stands for a refused token. Why a token is invalid is
/// not told; a revocation store that could not be asked is an unexpected
/// failure.
pub fn token_refusal(reason: TokenError) -> (r: AuthAPIError)
    ensures
        match reason {
            TokenError::RevocationUnknown => r matches AuthAPIError::UnexpectedError(c) && c@
                == "Failed to check banned token status"@,
            _ => r matches AuthAPIError::InvalidToken,
        },
{
    match reason {
        TokenError::RevocationUnknown => AuthAPIError::unexpected_msg(
            "Failed to check banned token status",
        ),
        _ => AuthAPIError::InvalidToken,
    }
}

/// The answer to a check, given what the token service said.
pub fn verify_token_outcome(validated: Result<Claims, TokenError>) -> (r: Result<
    (u16, VerifyTokenResponse),
    AuthAPIError,
>)
    ensures
        match validated {
            Ok(_) => r matches Ok((status, response)) && status == STATUS_OK && response.message@
                == "Token is valid"@,
            Err(TokenError::RevocationUnknown) => r matches Err(AuthAPIError::UnexpectedError(_)),
            Err(_) => r matches Err(AuthAPIError::InvalidToken),
        },
{
    match validated {
        Ok(_) => Ok((STATUS_OK, VerifyTokenResponse { message: "Token is valid".to_owned() })),
        Err(reason) => Err(token_refusal(reason)),
    }
}

/// What a check of `token` at the time `now` may answer: success exactly
/// for a valid token and, for any other, that it is invalid, unless the
/// revocation store could not be asked, which does not happen with one that
/// is `reliable`.
pub open spec fn verify_token_post(
    banned: Set<Seq<char>>,
    reliable: bool,
    token: Seq<char>,
    secret: Seq<char>,
    now: int,
    r: Result<(u16, VerifyTokenResponse), AuthAPIError>,
) -> bool {
    match r {
        Ok((status, response)) => {
            &&& status == STATUS_OK
            &&& response.message@ == "Token is valid"@
            &&& token_valid(banned, token, secret, now)
        },
        Err(AuthAPIError::InvalidToken) => !token_valid(banned, token, secret, now),
        Err(AuthAPIError::UnexpectedError(_)) => !reliable,
        Err(_) => false,
    }
}

/// Checks the token of `payload` as of the time `now`.
pub fn verify_token_at<U: UserStore, B: BannedTokenStore, T: TwoFACodeStore, E: EmailClient>(
    state: &AppState<U, B, T, E>,
    payload: VerifyTokenRequest,
    now: i64,
) -> (r: Result<(u16, VerifyTokenResponse), AuthAPIError>)
    ensures
        verify_token_post(
            state.banned_token_store.banned(),
            state.banned_token_store.reliable(),
            payload.token@,
            state.token_config.secret(),
            now as int,
            r,
        ),
{
    let validated = validate_token_at(
        payload.token.as_str(),
        &state.banned_token_store,
        &state.token_config,
        now,
    );
    verify_token_outcome(validated)
}

/// Checks the token of `payload` as of the time that the clock shows.
pub fn verify_token<U: UserStore, B: BannedTokenStore, T: TwoFACodeStore, E: EmailClient>(
    state: &AppState<U, B, T, E>,
    payload: VerifyTokenRequest,
) -> (r: Result<(u16, VerifyTokenResponse), AuthAPIError>)
    ensures
        exists|now: int| #[trigger]
            verify_token_post(
                state.banned_token_store.banned(),
                state.banned_token_store.reliable(),
                payload.token@,
                state.token_config.secret(),
                now,
                r,
            ),
{
    let now: i64 = unix_time_now();
    let ghost token = payload.token@;
    let r = verify_token_at(state, payload, now);
    assert(verify_token_post(
        state.banned_token_store.banned(),
        state.banned_token_store.reliable(),
        token,
        state.token_config.secret(),
        now as int,
        r,
    ));
    r
}

} // verus!
