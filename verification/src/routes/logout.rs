use vstd::prelude::*;

use crate::app_state::AppState;
use crate::domain::data_stores::{
    BannedTokenStore, BannedTokenStoreError, TwoFACodeStore, UserStore,
};
use crate::domain::email_client::EmailClient;
use crate::domain::error::AuthAPIError;
use crate::services::hashset_banned_token_store::HashsetBannedTokenStore;
use crate::routes::verify_token::{
    token_refusal, token_valid, verify_token_post, VerifyTokenResponse,
};
use crate::utils::auth::{
    create_removal_cookie, expired_cookie, unix_time_now, validate_token_at, AuthCookie,
};
use crate::utils::constants::STATUS_OK;

verus! {

/// The text of the token that a request presents, if it presents one.
pub open spec fn presented(token: Option<String>) -> Option<Seq<char>> {
    match token {
        Some(t) => Some(t@),
        None => None,
    }
}

/// The answer to a logout whose token was valid, given what the revocation
/// store said of the ban.
pub fn logout_outcome(banned: Result<(), BannedTokenStoreError>) -> (r: Result<
    (AuthCookie, u16),
    AuthAPIError,
>)
    ensures
        match banned {
            Ok(()) => r matches Ok((cookie, status)) && cookie@ == expired_cookie() && status
                == STATUS_OK,
            Err(BannedTokenStoreError::UnexpectedError(cause)) => r matches Err(
                AuthAPIError::UnexpectedError(c),
            ) && c == cause,
        },
{
    match banned {
        Ok(()) => Ok((create_removal_cookie(), STATUS_OK)),
        Err(BannedTokenStoreError::UnexpectedError(cause)) => Err(
            AuthAPIError::UnexpectedError(cause),
        ),
    }
}

/// What a logout that presents `token` at the time `now` may answer and do
/// to the banned tokens `pre`. A request without a token is refused as
/// such. A token that is not valid is refused as invalid. A valid token is
/// banned, and the client is told to drop its cookie. Every failure
/// leaves the banned tokens as they were; one of the revocation store is
/// unexpected and does not happen with a store that is `reliable`.
pub open spec fn logout_post(
    pre: Set<Seq<char>>,
    reliable: bool,
    token: Option<Seq<char>>,
    secret: Seq<char>,
    now: int,
    post: Set<Seq<char>>,
    r: Result<(AuthCookie, u16), AuthAPIError>,
) -> bool {
    match token {
        None => post == pre && r matches Err(AuthAPIError::MissingToken),
        Some(t) => match r {
            Ok((cookie, status)) => {
                &&& status == STATUS_OK
                &&& cookie@ == expired_cookie()
                &&& token_valid(pre, t, secret, now)
                &&& post == pre.insert(t)
            },
            Err(AuthAPIError::InvalidToken) => post == pre && !token_valid(pre, t, secret, now),
            Err(AuthAPIError::UnexpectedError(_)) => post == pre && !reliable,
            Err(_) => false,
        },
    }
}

/// Ends the session of `token` as of the time `now`.
pub fn logout_at<U: UserStore, B: BannedTokenStore, T: TwoFACodeStore, E: EmailClient>(
    state: &mut AppState<U, B, T, E>,
    token: Option<String>,
    now: i64,
) -> (r: Result<(AuthCookie, u16), AuthAPIError>)
    ensures
        logout_post(
            old(state).banned_token_store.banned(),
            old(state).banned_token_store.reliable(),
            presented(token),
            old(state).token_config.secret(),
            now as int,
            final(state).banned_token_store.banned(),
            r,
        ),
        final(state).user_store == old(state).user_store,
        final(state).two_fa_code_store == old(state).two_fa_code_store,
        final(state).email_client == old(state).email_client,
        final(state).token_config == old(state).token_config,
        final(state).banned_token_store.reliable() == old(state).banned_token_store.reliable(),
{
    let token = match token {
        Some(token) => token,
        None => {
            return Err(AuthAPIError::MissingToken);
        },
    };
    let validated = validate_token_at(
        token.as_str(),
        &state.banned_token_store,
        &state.token_config,
        now,
    );
    match validated {
        Err(reason) => Err(token_refusal(reason)),
        Ok(_) => logout_outcome(state.banned_token_store.store_token(token)),
    }
}

/// Ends the session of `token` as of the time that the clock shows.
pub fn logout<U: UserStore, B: BannedTokenStore, T: TwoFACodeStore, E: EmailClient>(
    state: &mut AppState<U, B, T, E>,
    token: Option<String>,
) -> (r: Result<(AuthCookie, u16), AuthAPIError>)
    ensures
        exists|now: int| #[trigger]
            logout_post(
                old(state).banned_token_store.banned(),
                old(state).banned_token_store.reliable(),
                presented(token),
                old(state).token_config.secret(),
                now,
                final(state).banned_token_store.banned(),
                r,
            ),
        final(state).user_store == old(state).user_store,
        final(state).two_fa_code_store == old(state).two_fa_code_store,
        final(state).email_client == old(state).email_client,
        final(state).token_config == old(state).token_config,
        final(state).banned_token_store.reliable() == old(state).banned_token_store.reliable(),
{
    let now: i64 = unix_time_now();
    let ghost shown = presented(token);
    let r = logout_at(state, token, now);
    assert(logout_post(
        old(state).banned_token_store.banned(),
        old(state).banned_token_store.reliable(),
        shown,
        old(state).token_config.secret(),
        now as int,
        state.banned_token_store.banned(),
        r,
    ));
    r
}

/// A token that a logout has banned is accepted no more: whenever it is
/// presented afterwards, a check and a second logout both fail, and the
/// second logout bans nothing. Both say that the token is invalid; only a
/// store that is not reliable can fail unexpectedly instead.
pub proof fn lemma_banned_token_refused(
    start: Set<Seq<char>>,
    reliable: bool,
    token: Seq<char>,
    secret: Seq<char>,
    first_now: int,
    banned: Set<Seq<char>>,
    first: Result<(AuthCookie, u16), AuthAPIError>,
    check_now: int,
    check: Result<(u16, VerifyTokenResponse), AuthAPIError>,
    second_now: int,
    after: Set<Seq<char>>,
    second: Result<(AuthCookie, u16), AuthAPIError>,
)
    requires
        logout_post(start, reliable, Some(token), secret, first_now, banned, first),
        first is Ok,
        verify_token_post(banned, reliable, token, secret, check_now, check),
        logout_post(banned, reliable, Some(token), secret, second_now, after, second),
    ensures
        banned.contains(token),
        after == banned,
        check matches Err(AuthAPIError::InvalidToken) || (!reliable && check matches Err(
            AuthAPIError::UnexpectedError(_),
        )),
        second matches Err(AuthAPIError::InvalidToken) || (!reliable && second matches Err(
            AuthAPIError::UnexpectedError(_),
        )),
{
}

/// With the revocation store in memory, a token that a logout has banned is
/// refused as invalid by every later check and by a second logout, which
/// bans nothing.
pub proof fn lemma_banned_token_refused_in_memory(
    start: HashsetBannedTokenStore,
    token: Seq<char>,
    secret: Seq<char>,
    first_now: int,
    banned: HashsetBannedTokenStore,
    first: Result<(AuthCookie, u16), AuthAPIError>,
    check_now: int,
    check: Result<(u16, VerifyTokenResponse), AuthAPIError>,
    second_now: int,
    after: HashsetBannedTokenStore,
    second: Result<(AuthCookie, u16), AuthAPIError>,
)
    requires
        logout_post(
            start.banned(),
            start.reliable(),
            Some(token),
            secret,
            first_now,
            banned.banned(),
            first,
        ),
        first is Ok,
        verify_token_post(banned.banned(), banned.reliable(), token, secret, check_now, check),
        logout_post(
            banned.banned(),
            banned.reliable(),
            Some(token),
            secret,
            second_now,
            after.banned(),
            second,
        ),
    ensures
        check matches Err(AuthAPIError::InvalidToken),
        second matches Err(AuthAPIError::InvalidToken),
        after.banned() == banned.banned(),
{
}

} // verus!
