use vstd::prelude::*;

use crate::app_state::AppState;
use crate::domain::data_stores::{
    challenge_live, code_text, uuid_text, BannedTokenStore, Challenges, LoginAttemptId,
    TwoFACode, TwoFACodeStore, TwoFACodeStoreError, UserStore,
};
use crate::domain::email::{email_valid, Email};
use crate::domain::email_client::EmailClient;
use crate::domain::error::AuthAPIError;
use crate::services::hashmap_two_fa_code_store::HashmapTwoFACodeStore;
use crate::utils::auth::{
    expiry_in_range, generate_auth_cookie_at, grants_session, unix_time_now, AuthCookie,
    TokenError,
};
use crate::utils::constants::STATUS_OK;

verus! {

/// What a client sends to complete a login with its second factor.
#[derive(Debug)]
pub struct Verify2FARequest {
    pub email: String,
    pub login_attempt_id: String,
    pub two_fa_code: String,
}

/// What a verification hands back: the cookie to set, if any, and the
/// answer.
pub type Verify2FAOutput = (Option<AuthCookie>, Result<u16, AuthAPIError>);

/// Whether the challenges `all` hold, for `email`, a challenge that can be
/// answered at the time `now` and is exactly the login attempt
/// `login_attempt_id` with the code `code`.
pub open spec fn challenge_matches(
    all: Challenges,
    email: Seq<char>,
    login_attempt_id: Seq<char>,
    code: Seq<char>,
    now: int,
) -> bool {
    &&& challenge_live(all, email, now)
    &&& all[email].login_attempt_id == login_attempt_id
    &&& all[email].code == code
}

/// Whether the stored challenge is the one that the client presents. A
/// mismatch of the login attempt and one of the code give the same answer.
pub fn challenge_presented(
    stored_id: &LoginAttemptId,
    stored_code: &TwoFACode,
    login_attempt_id: &LoginAttemptId,
    two_fa_code: &TwoFACode,
) -> (r: bool)
    ensures
        r == (stored_id@ == login_attempt_id@ && stored_code@ == two_fa_code@),
{
    let same_id = *stored_id.as_ref() == *login_attempt_id.as_ref();
    let same_code = *stored_code.as_ref() == *two_fa_code.as_ref();
    same_id && same_code
}

/// The answer to a verification that has consumed its challenge, given what
/// the token service said.
pub fn verified_outcome(issued: Result<AuthCookie, TokenError>) -> (out: Verify2FAOutput)
    ensures
        match issued {
            Ok(cookie) => out.0 == Some(cookie) && out.1 == Ok::<u16, AuthAPIError>(STATUS_OK),
            Err(_) => {
                &&& out.0 is None
                &&& (out.1 matches Err(AuthAPIError::UnexpectedError(c)) && c@
                    == "Failed to generate auth cookie"@)
            },
        },
{
    match issued {
        Ok(cookie) => (Some(cookie), Ok(STATUS_OK)),
        Err(_) => (None, Err(AuthAPIError::unexpected_msg("Failed to generate auth cookie"))),
    }
}

/// What a verification with `email`, `login_attempt_id` and `code` at the
/// time `now` may hand back and do to the challenges `pre`. Malformed input
/// is refused before the store is asked. A challenge that is missing, has
/// expired or differs in any part is refused and stays as it was. A
/// challenge that matches is consumed, and the session is granted. With a
/// store that is `reliable`, a challenge that does not match is always
/// refused as incorrect, and one that matches is always consumed and the
/// session granted, but where the expiry of the token is not a time that a
/// token can state.
pub open spec fn verify_2fa_post(
    pre: Challenges,
    reliable: bool,
    email: Seq<char>,
    login_attempt_id: Seq<char>,
    code: Seq<char>,
    secret: Seq<char>,
    ttl: int,
    now: int,
    post: Challenges,
    out: Verify2FAOutput,
) -> bool {
    if !email_valid(email) || !uuid_text(login_attempt_id) || !code_text(code) {
        out.0 is None && post == pre && out.1 matches Err(AuthAPIError::InvalidCredentials)
    } else {
        match out.1 {
            Ok(status) => {
                &&& status == STATUS_OK
                &&& challenge_matches(pre, email, login_attempt_id, code, now)
                &&& post == pre.remove(email)
                &&& grants_session(out.0, email, secret, ttl, now)
            },
            Err(AuthAPIError::IncorrectCredentials) => {
                &&& out.0 is None
                &&& post == pre
                &&& !challenge_matches(pre, email, login_attempt_id, code, now)
            },
            Err(AuthAPIError::UnexpectedError(_)) => {
                &&& out.0 is None
                &&& (post == pre || (challenge_matches(pre, email, login_attempt_id, code, now) && post
                    == pre.remove(email)))
                &&& reliable ==> {
                    &&& challenge_matches(pre, email, login_attempt_id, code, now)
                    &&& post == pre.remove(email)
                    &&& !expiry_in_range(now, ttl)
                }
            },
            Err(_) => false,
        }
    }
}

/// Completes a login with its second factor, as of the time `now`.
pub fn verify_2fa_at<U: UserStore, B: BannedTokenStore, T: TwoFACodeStore, E: EmailClient>(
    state: &mut AppState<U, B, T, E>,
    request: Verify2FARequest,
    now: i64,
) -> (out: Verify2FAOutput)
    ensures
        verify_2fa_post(
            old(state).two_fa_code_store.challenges(),
            old(state).two_fa_code_store.reliable(),
            request.email@,
            request.login_attempt_id@,
            request.two_fa_code@,
            old(state).token_config.secret(),
            old(state).token_config.ttl(),
            now as int,
            final(state).two_fa_code_store.challenges(),
            out,
        ),
        final(state).user_store == old(state).user_store,
        final(state).banned_token_store == old(state).banned_token_store,
        final(state).email_client == old(state).email_client,
        final(state).token_config == old(state).token_config,
        final(state).two_fa_code_store.reliable() == old(state).two_fa_code_store.reliable(),
{
    let email = match Email::parse(request.email) {
        Ok(email) => email,
        Err(_) => {
            return (None, Err(AuthAPIError::InvalidCredentials));
        },
    };
    let login_attempt_id = match LoginAttemptId::parse(request.login_attempt_id) {
        Ok(id) => id,
        Err(_) => {
            return (None, Err(AuthAPIError::InvalidCredentials));
        },
    };
    let two_fa_code = match TwoFACode::parse(request.two_fa_code) {
        Ok(code) => code,
        Err(_) => {
            return (None, Err(AuthAPIError::InvalidCredentials));
        },
    };
    let (stored_id, stored_code) = match state.two_fa_code_store.get_code(&email, now) {
        Ok(stored) => stored,
        Err(TwoFACodeStoreError::LoginAttemptIdNotFound) => {
            return (None, Err(AuthAPIError::IncorrectCredentials));
        },
        Err(TwoFACodeStoreError::UnexpectedError(cause)) => {
            return (None, Err(AuthAPIError::UnexpectedError(cause)));
        },
    };
    if !challenge_presented(&stored_id, &stored_code, &login_attempt_id, &two_fa_code) {
        return (None, Err(AuthAPIError::IncorrectCredentials));
    }
    match state.two_fa_code_store.remove_code(&email) {
        Ok(()) => {},
        Err(TwoFACodeStoreError::LoginAttemptIdNotFound) => {
            return (None, Err(AuthAPIError::IncorrectCredentials));
        },
        Err(TwoFACodeStoreError::UnexpectedError(cause)) => {
            return (None, Err(AuthAPIError::UnexpectedError(cause)));
        },
    }
    verified_outcome(generate_auth_cookie_at(&email, &state.token_config, now))
}

/// Completes a login with its second factor, as of the time that the clock
/// shows.
pub fn verify_2fa<U: UserStore, B: BannedTokenStore, T: TwoFACodeStore, E: EmailClient>(
    state: &mut AppState<U, B, T, E>,
    request: Verify2FARequest,
) -> (out: Verify2FAOutput)
    ensures
        exists|now: int| #[trigger]
            verify_2fa_post(
                old(state).two_fa_code_store.challenges(),
                old(state).two_fa_code_store.reliable(),
                request.email@,
                request.login_attempt_id@,
                request.two_fa_code@,
                old(state).token_config.secret(),
                old(state).token_config.ttl(),
                now,
                final(state).two_fa_code_store.challenges(),
                out,
            ),
        final(state).user_store == old(state).user_store,
        final(state).banned_token_store == old(state).banned_token_store,
        final(state).email_client == old(state).email_client,
        final(state).token_config == old(state).token_config,
        final(state).two_fa_code_store.reliable() == old(state).two_fa_code_store.reliable(),
{
    let now: i64 = unix_time_now();
    let ghost email = request.email@;
    let ghost login_attempt_id = request.login_attempt_id@;
    let ghost code = request.two_fa_code@;
    let out = verify_2fa_at(state, request, now);
    assert(verify_2fa_post(
        old(state).two_fa_code_store.challenges(),
        old(state).two_fa_code_store.reliable(),
        email,
        login_attempt_id,
        code,
        old(state).token_config.secret(),
        old(state).token_config.ttl(),
        now as int,
        state.two_fa_code_store.challenges(),
        out,
    ));
    out
}

/// A challenge is consumed once: after a verification has succeeded, a
/// second one with the same address, login attempt and code finds no
/// challenge, grants nothing and changes nothing. It is refused as
/// incorrect; only a store that is not reliable can fail unexpectedly
/// instead.
pub proof fn lemma_challenge_consumed_once(
    start: Challenges,
    reliable: bool,
    email: Seq<char>,
    login_attempt_id: Seq<char>,
    code: Seq<char>,
    secret: Seq<char>,
    ttl: int,
    first_now: int,
    between: Challenges,
    first: Verify2FAOutput,
    second_now: int,
    after: Challenges,
    second: Verify2FAOutput,
)
    requires
        verify_2fa_post(
            start,
            reliable,
            email,
            login_attempt_id,
            code,
            secret,
            ttl,
            first_now,
            between,
            first,
        ),
        first.1 is Ok,
        verify_2fa_post(
            between,
            reliable,
            email,
            login_attempt_id,
            code,
            secret,
            ttl,
            second_now,
            after,
            second,
        ),
    ensures
        !between.contains_key(email),
        second.0 is None,
        after == between,
        second.1 matches Err(AuthAPIError::IncorrectCredentials) || (!reliable && second.1 matches Err(
            AuthAPIError::UnexpectedError(_),
        )),
{
}

/// A verification that presents the live challenge of its address consumes
/// it and grants the session. Nothing else can happen but an unexpected
/// failure, and that only where the store is not reliable or the expiry of
/// the token is not a time that a token can state.
pub proof fn lemma_matching_challenge_grants(
    pre: Challenges,
    reliable: bool,
    email: Seq<char>,
    login_attempt_id: Seq<char>,
    code: Seq<char>,
    secret: Seq<char>,
    ttl: int,
    now: int,
    post: Challenges,
    out: Verify2FAOutput,
)
    requires
        email_valid(email),
        uuid_text(login_attempt_id),
        code_text(code),
        challenge_matches(pre, email, login_attempt_id, code, now),
        verify_2fa_post(pre, reliable, email, login_attempt_id, code, secret, ttl, now, post, out),
    ensures
        out.1 is Ok ==> {
            &&& out.1 == Ok::<u16, AuthAPIError>(STATUS_OK)
            &&& grants_session(out.0, email, secret, ttl, now)
            &&& post == pre.remove(email)
        },
        out.1 is Ok || (out.1 matches Err(AuthAPIError::UnexpectedError(_)) && (!reliable
            || !expiry_in_range(now, ttl))),
{
}

/// With the challenge store in memory, a verification that presents the
/// live challenge of its address, at a time from which a token can state
/// its expiry, consumes the challenge and grants the session; the same
/// verification once more is refused as incorrect.
pub proof fn lemma_challenge_granted_then_refused_in_memory(
    start: HashmapTwoFACodeStore,
    email: Seq<char>,
    login_attempt_id: Seq<char>,
    code: Seq<char>,
    secret: Seq<char>,
    ttl: int,
    first_now: int,
    between: HashmapTwoFACodeStore,
    first: Verify2FAOutput,
    second_now: int,
    after: HashmapTwoFACodeStore,
    second: Verify2FAOutput,
)
    requires
        email_valid(email),
        uuid_text(login_attempt_id),
        code_text(code),
        challenge_matches(start.challenges(), email, login_attempt_id, code, first_now),
        expiry_in_range(first_now, ttl),
        verify_2fa_post(
            start.challenges(),
            start.reliable(),
            email,
            login_attempt_id,
            code,
            secret,
            ttl,
            first_now,
            between.challenges(),
            first,
        ),
        verify_2fa_post(
            between.challenges(),
            between.reliable(),
            email,
            login_attempt_id,
            code,
            secret,
            ttl,
            second_now,
            after.challenges(),
            second,
        ),
    ensures
        first.1 == Ok::<u16, AuthAPIError>(STATUS_OK),
        grants_session(first.0, email, secret, ttl, first_now),
        !between.challenges().contains_key(email),
        second.1 matches Err(AuthAPIError::IncorrectCredentials),
        second.0 is None,
        after.challenges() == between.challenges(),
{
}

} // verus!
