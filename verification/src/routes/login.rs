use vstd::prelude::*;

use crate::app_state::AppState;
use crate::domain::data_stores::{
    code_text, credentials_match, uuid_text, Accounts, BannedTokenStore, Challenges,
    LoginAttemptId, TwoFACode, TwoFACodeStore, TwoFACodeStoreError, UserStore, UserStoreError,
    TWO_FA_CODE_TTL_SECONDS,
};
use crate::domain::email::{email_valid, Email};
use crate::domain::email_client::{EmailClient, Message, Outbox};
use crate::domain::error::AuthAPIError;
use crate::domain::password::{password_valid, Password};
use crate::routes::signup::{signup_post, SignupResponse};
use crate::services::hashmap_two_fa_code_store::HashmapTwoFACodeStore;
use crate::services::hashmap_user_store::HashmapUserStore;
use crate::services::mock_email_client::MockEmailClient;
use crate::utils::auth::{
    expiry_in_range, generate_auth_cookie_at, grants_session, unix_time_now, AuthCookie,
    TokenError,
};
use crate::utils::constants::{TokenConfig, STATUS_OK, STATUS_PARTIAL_CONTENT};

verus! {

/// What a client sends to log in. It holds the password in clear text and
/// therefore cannot be printed.
pub struct LoginRequest {
    pub email: String,
    pub password: String,
}

/// What a client is told when the password stage has passed.
#[derive(Debug)]
pub enum LoginResponse {
    /// The session is granted; the token travels in the cookie.
    RegularAuth,
    /// A second factor is asked for.
    TwoFactorAuth(TwoFactorAuthResponse),
}

/// The answer that asks for the second factor. It names the login attempt
/// and never the code, which goes to the user out of band.
#[derive(Debug)]
pub struct TwoFactorAuthResponse {
    pub message: String,
    pub login_attempt_id: String,
}

/// What a login hands back: the cookie to set, if any, and the answer.
pub type LoginOutput = (Option<AuthCookie>, Result<(u16, LoginResponse), AuthAPIError>);

/// Which of the collaborators of a login promise not to fail.
pub struct LoginReliability {
    pub user_store: bool,
    pub two_fa_code_store: bool,
    pub email_client: bool,
}

/// Which of the collaborators of a login on `state` promise not to fail.
pub open spec fn login_reliability<
    U: UserStore,
    B: BannedTokenStore,
    T: TwoFACodeStore,
    E: EmailClient,
>(state: &AppState<U, B, T, E>) -> LoginReliability {
    LoginReliability {
        user_store: state.user_store.reliable(),
        two_fa_code_store: state.two_fa_code_store.reliable(),
        email_client: state.email_client.reliable(),
    }
}

/// What a login can change: the challenges and the messages that the
/// notifier has taken.
pub struct LoginEffects {
    pub challenges: Challenges,
    pub outbox: Outbox,
}

/// The challenges and the messages of `state`.
pub open spec fn login_effects<U: UserStore, B: BannedTokenStore, T: TwoFACodeStore, E: EmailClient>(
    state: &AppState<U, B, T, E>,
) -> LoginEffects {
    LoginEffects {
        challenges: state.two_fa_code_store.challenges(),
        outbox: state.email_client.outbox(),
    }
}

/// The subject of the message that carries a code.
pub const TWO_FA_SUBJECT: &'static str = "Your 2FA Code";

/// The message that carries `code` to `email`.
pub open spec fn two_fa_mail(email: Seq<char>, code: Seq<char>) -> Message {
    Message {
        recipient: email,
        subject: TWO_FA_SUBJECT@,
        content: "Your verification code is: "@ + code,
    }
}

/// The text of the message that carries `code`.
pub fn two_fa_message(code: &TwoFACode) -> (r: String)
    ensures
        r@ == "Your verification code is: "@ + code@,
{
    let mut text: String = "Your verification code is: ".to_owned();
    text.append(code.as_ref().as_str());
    text
}

/// What a login without a second factor hands back for `email` at the time
/// `now`: the session cookie and a plain success, or, exactly when the
/// expiry of the token is not a time that a token can state, an unexpected
/// error and no cookie.
pub open spec fn no_2fa_post(
    email: Seq<char>,
    secret: Seq<char>,
    ttl: int,
    now: int,
    out: LoginOutput,
) -> bool {
    match out.1 {
        Ok((status, response)) => {
            &&& status == STATUS_OK
            &&& response is RegularAuth
            &&& grants_session(out.0, email, secret, ttl, now)
        },
        Err(AuthAPIError::UnexpectedError(_)) => out.0 is None && !expiry_in_range(now, ttl),
        Err(_) => false,
    }
}

/// The answer to a login without a second factor, given what the token
/// service said.
pub fn no_2fa_outcome(issued: Result<AuthCookie, TokenError>) -> (out: LoginOutput)
    ensures
        match issued {
            Ok(cookie) => {
                &&& out.0 == Some(cookie)
                &&& (out.1 matches Ok((status, response)) && status == STATUS_OK
                    && response is RegularAuth)
            },
            Err(_) => {
                &&& out.0 is None
                &&& (out.1 matches Err(AuthAPIError::UnexpectedError(c)) && c@
                    == "Failed to generate auth cookie"@)
            },
        },
{
    match issued {
        Ok(cookie) => (Some(cookie), Ok((STATUS_OK, LoginResponse::RegularAuth))),
        Err(_) => (None, Err(AuthAPIError::unexpected_msg("Failed to generate auth cookie"))),
    }
}

/// Grants the session to `email` as of the time `now`.
pub fn handle_no_2fa(email: &Email, config: &TokenConfig, now: i64) -> (out: LoginOutput)
    ensures
        no_2fa_post(email@, config.secret(), config.ttl(), now as int, out),
{
    no_2fa_outcome(generate_auth_cookie_at(email, config, now))
}

/// Whether `post` is `pre` with a fresh challenge stored for `email` at the
/// time `now`.
pub open spec fn challenge_stored(
    pre: Challenges,
    email: Seq<char>,
    now: int,
    post: Challenges,
) -> bool {
    &&& post.contains_key(email)
    &&& post == pre.insert(email, post[email])
    &&& uuid_text(post[email].login_attempt_id)
    &&& code_text(post[email].code)
    &&& post[email].expires_at == now + TWO_FA_CODE_TTL_SECONDS
}

/// Whether `post` is `pre` with a fresh challenge stored for `email` at the
/// time `now` and its code, and no other, handed to the notifier, which may
/// or may not have taken it.
pub open spec fn challenge_left(
    pre: LoginEffects,
    email: Seq<char>,
    now: int,
    post: LoginEffects,
) -> bool {
    &&& challenge_stored(pre.challenges, email, now, post.challenges)
    &&& (post.outbox == pre.outbox || post.outbox == pre.outbox.push(
        two_fa_mail(email, post.challenges[email].code),
    ))
}

/// What a login that needs a second factor may hand back, at the time
/// `now`, and do to the challenges and the messages `pre`. Success stores a
/// fresh challenge, names its login attempt and sends the stored code, and
/// nothing else, to the address. A store that fails leaves everything as it
/// was; a notifier that fails leaves the fresh challenge stored. With a
/// store and a notifier that are both `reliable`, the login succeeds
/// whenever the time of expiry is one that the clock can show.
pub open spec fn challenge_post(
    pre: LoginEffects,
    reliable: bool,
    email: Seq<char>,
    now: int,
    post: LoginEffects,
    out: LoginOutput,
) -> bool {
    &&& out.0 is None
    &&& match out.1 {
        Ok((status, LoginResponse::TwoFactorAuth(response))) => {
            &&& status == STATUS_PARTIAL_CONTENT
            &&& response.message@ == "2FA required"@
            &&& challenge_stored(pre.challenges, email, now, post.challenges)
            &&& post.challenges[email].login_attempt_id == response.login_attempt_id@
            &&& post.outbox == pre.outbox.push(two_fa_mail(email, post.challenges[email].code))
        },
        Err(AuthAPIError::UnexpectedError(_)) => {
            &&& post == pre || challenge_left(pre, email, now, post)
            &&& !(reliable && now + TWO_FA_CODE_TTL_SECONDS <= i64::MAX)
        },
        _ => false,
    }
}

/// The answer to a login that needs a second factor, given what the
/// notifier said of the message for the login attempt `login_attempt_id`.
pub fn challenge_outcome(sent: Result<(), String>, login_attempt_id: &LoginAttemptId) -> (out:
    LoginOutput)
    ensures
        out.0 is None,
        match sent {
            Ok(()) => out.1 matches Ok((status, LoginResponse::TwoFactorAuth(response)))
                && status == STATUS_PARTIAL_CONTENT && response.message@ == "2FA required"@
                && response.login_attempt_id@ == login_attempt_id@,
            Err(cause) => out.1 matches Err(AuthAPIError::UnexpectedError(c)) && c == cause,
        },
{
    match sent {
        Ok(()) => {
            let response = TwoFactorAuthResponse {
                message: "2FA required".to_owned(),
                login_attempt_id: login_attempt_id.as_ref().clone(),
            };
            (None, Ok((STATUS_PARTIAL_CONTENT, LoginResponse::TwoFactorAuth(response))))
        },
        Err(cause) => (None, Err(AuthAPIError::UnexpectedError(cause))),
    }
}

/// Issues, at the time `now`, a fresh challenge for `email` and sends the
/// code.
pub fn handle_2fa<U: UserStore, B: BannedTokenStore, T: TwoFACodeStore, E: EmailClient>(
    email: &Email,
    state: &mut AppState<U, B, T, E>,
    now: i64,
) -> (out: LoginOutput)
    ensures
        challenge_post(
            login_effects(old(state)),
            old(state).two_fa_code_store.reliable() && old(state).email_client.reliable(),
            email@,
            now as int,
            login_effects(final(state)),
            out,
        ),
        final(state).user_store == old(state).user_store,
        final(state).banned_token_store == old(state).banned_token_store,
        final(state).token_config == old(state).token_config,
        login_reliability(final(state)) == login_reliability(old(state)),
{
    let login_attempt_id = LoginAttemptId::default();
    let two_fa_code = TwoFACode::default();
    let stored = state.two_fa_code_store.add_code(
        email.clone(),
        login_attempt_id.clone(),
        two_fa_code.clone(),
        now,
    );
    match stored {
        Err(TwoFACodeStoreError::UnexpectedError(cause)) => (
            None,
            Err(AuthAPIError::UnexpectedError(cause)),
        ),
        Err(TwoFACodeStoreError::LoginAttemptIdNotFound) => (
            None,
            Err(AuthAPIError::unexpected_msg("Failed to store 2FA code")),
        ),
        Ok(()) => {
            let content = two_fa_message(&two_fa_code);
            let sent = state.email_client.send_email(
                email,
                TWO_FA_SUBJECT,
                content.as_str(),
            );
            challenge_outcome(sent, &login_attempt_id)
        },
    }
}

/// What a login with `email` and `password` at the time `now` may hand back
/// and do to the challenges `pre`, the accounts being `accounts`. Malformed
/// input is refused before any store is asked. Credentials that do not
/// match are refused whether the account is missing or the password wrong.
/// Credentials that match lead, by the account's flag, to the session or to
/// a fresh challenge whose code goes to the address. Nothing is sent on any
/// other path. A credential store that is reliable never lets
/// credentials that do not match end otherwise than refused as incorrect.
pub open spec fn login_post(
    accounts: Accounts,
    sure: LoginReliability,
    pre: LoginEffects,
    email: Seq<char>,
    password: Seq<char>,
    secret: Seq<char>,
    ttl: int,
    now: int,
    post: LoginEffects,
    out: LoginOutput,
) -> bool {
    if !email_valid(email) || !password_valid(password) {
        out.0 is None && post == pre && out.1 matches Err(AuthAPIError::InvalidCredentials)
    } else {
        match out.1 {
            Err(AuthAPIError::IncorrectCredentials) => {
                &&& out.0 is None
                &&& post == pre
                &&& !credentials_match(accounts, email, password)
            },
            Err(AuthAPIError::UnexpectedError(_)) => {
                &&& out.0 is None
                &&& (post == pre || (credentials_match(accounts, email, password)
                    && accounts[email].requires_2fa && challenge_left(pre, email, now, post)))
                &&& !(sure.user_store && !credentials_match(accounts, email, password))
                &&& !(sure.user_store && credentials_match(accounts, email, password)
                    && !accounts[email].requires_2fa && expiry_in_range(now, ttl))
                &&& !(sure.user_store && sure.two_fa_code_store && sure.email_client
                    && credentials_match(accounts, email, password)
                    && accounts[email].requires_2fa && now + TWO_FA_CODE_TTL_SECONDS <= i64::MAX)
            },
            Ok(_) => {
                &&& credentials_match(accounts, email, password)
                &&& if accounts[email].requires_2fa {
                    challenge_post(
                        pre,
                        sure.two_fa_code_store && sure.email_client,
                        email,
                        now,
                        post,
                        out,
                    )
                } else {
                    post == pre && no_2fa_post(email, secret, ttl, now, out)
                }
            },
            Err(_) => false,
        }
    }
}

/// Checks the credentials of `request` and branches on the account's flag,
/// as of the time `now`.
pub fn process_login<U: UserStore, B: BannedTokenStore, T: TwoFACodeStore, E: EmailClient>(
    state: &mut AppState<U, B, T, E>,
    request: LoginRequest,
    now: i64,
) -> (out: LoginOutput)
    ensures
        login_post(
            old(state).user_store.accounts(),
            login_reliability(old(state)),
            login_effects(old(state)),
            request.email@,
            request.password@,
            old(state).token_config.secret(),
            old(state).token_config.ttl(),
            now as int,
            login_effects(final(state)),
            out,
        ),
        final(state).user_store == old(state).user_store,
        final(state).banned_token_store == old(state).banned_token_store,
        final(state).token_config == old(state).token_config,
        login_reliability(final(state)) == login_reliability(old(state)),
{
    let email = match Email::parse(request.email) {
        Ok(email) => email,
        Err(_) => {
            return (None, Err(AuthAPIError::InvalidCredentials));
        },
    };
    let password = match Password::parse(request.password) {
        Ok(password) => password,
        Err(_) => {
            return (None, Err(AuthAPIError::InvalidCredentials));
        },
    };
    match state.user_store.validate_user(&email, &password) {
        Ok(()) => {},
        Err(UserStoreError::UnexpectedError(cause)) => {
            return (None, Err(AuthAPIError::UnexpectedError(cause)));
        },
        Err(_) => {
            return (None, Err(AuthAPIError::IncorrectCredentials));
        },
    }
    let user = match state.user_store.get_user(&email) {
        Ok(user) => user,
        Err(UserStoreError::UnexpectedError(cause)) => {
            return (None, Err(AuthAPIError::UnexpectedError(cause)));
        },
        Err(_) => {
            return (None, Err(AuthAPIError::unexpected_msg("Failed to get user")));
        },
    };
    if user.requires_2fa {
        handle_2fa(&email, state, now)
    } else {
        handle_no_2fa(&email, &state.token_config, now)
    }
}

/// Logs in as of the time that the clock shows.
pub fn login<U: UserStore, B: BannedTokenStore, T: TwoFACodeStore, E: EmailClient>(
    state: &mut AppState<U, B, T, E>,
    request: LoginRequest,
) -> (out: LoginOutput)
    ensures
        exists|now: int| #[trigger]
            login_post(
                old(state).user_store.accounts(),
                login_reliability(old(state)),
                login_effects(old(state)),
                request.email@,
                request.password@,
                old(state).token_config.secret(),
                old(state).token_config.ttl(),
                now,
                login_effects(final(state)),
                out,
            ),
        final(state).user_store == old(state).user_store,
        final(state).banned_token_store == old(state).banned_token_store,
        final(state).token_config == old(state).token_config,
        login_reliability(final(state)) == login_reliability(old(state)),
{
    let now: i64 = unix_time_now();
    let ghost email = request.email@;
    let ghost password = request.password@;
    let out = process_login(state, request, now);
    assert(login_post(
        old(state).user_store.accounts(),
        login_reliability(old(state)),
        login_effects(old(state)),
        email,
        password,
        old(state).token_config.secret(),
        old(state).token_config.ttl(),
        now as int,
        login_effects(state),
        out,
    ));
    out
}

/// After a sign-up has created an account, a login with the same address
/// and password passes the password stage: it is never refused as
/// malformed or incorrect. Where the account asks for no second factor, the
/// login grants the session and sends nothing; where it asks for one, the
/// login issues a challenge and sends its code. Nothing else can happen but
/// an unexpected failure, and that only where a collaborator that the path
/// uses is not reliable or the time is out of range.
pub proof fn lemma_login_after_signup(
    start: Accounts,
    sure: LoginReliability,
    email: Seq<char>,
    password: Seq<char>,
    requires_2fa: bool,
    accounts: Accounts,
    created: Result<(u16, SignupResponse), AuthAPIError>,
    pre: LoginEffects,
    secret: Seq<char>,
    ttl: int,
    now: int,
    post: LoginEffects,
    out: LoginOutput,
)
    requires
        signup_post(start, sure.user_store, email, password, requires_2fa, accounts, created),
        created is Ok,
        login_post(accounts, sure, pre, email, password, secret, ttl, now, post, out),
    ensures
        out.1 is Ok && !requires_2fa ==> {
            &&& out.1 matches Ok((status, LoginResponse::RegularAuth)) && status == STATUS_OK
            &&& grants_session(out.0, email, secret, ttl, now)
            &&& post == pre
        },
        out.1 is Ok && requires_2fa ==> {
            &&& out.1 matches Ok((status, LoginResponse::TwoFactorAuth(response))) && status
                == STATUS_PARTIAL_CONTENT && post.challenges[email].login_attempt_id
                == response.login_attempt_id@
            &&& out.0 is None
            &&& challenge_stored(pre.challenges, email, now, post.challenges)
            &&& post.outbox == pre.outbox.push(two_fa_mail(email, post.challenges[email].code))
        },
        out.1 is Ok || (out.1 matches Err(AuthAPIError::UnexpectedError(_)) && if requires_2fa {
            !sure.user_store || !sure.two_fa_code_store || !sure.email_client || now
                + TWO_FA_CODE_TTL_SECONDS > i64::MAX
        } else {
            !sure.user_store || !expiry_in_range(now, ttl)
        }),
{
}

/// With the stores in memory and the mock notifier, a login after a sign-up
/// with the same address and password, at a time that is in range, grants
/// the session where the account asks for no second factor and issues a
/// challenge where it asks for one.
pub proof fn lemma_login_after_signup_in_memory(
    start: HashmapUserStore,
    email: Seq<char>,
    password: Seq<char>,
    requires_2fa: bool,
    users: HashmapUserStore,
    created: Result<(u16, SignupResponse), AuthAPIError>,
    codes: HashmapTwoFACodeStore,
    notifier: MockEmailClient,
    secret: Seq<char>,
    ttl: int,
    now: int,
    codes_after: HashmapTwoFACodeStore,
    notifier_after: MockEmailClient,
    out: LoginOutput,
)
    requires
        signup_post(
            start.accounts(),
            start.reliable(),
            email,
            password,
            requires_2fa,
            users.accounts(),
            created,
        ),
        created is Ok,
        expiry_in_range(now, ttl),
        now + TWO_FA_CODE_TTL_SECONDS <= i64::MAX,
        login_post(
            users.accounts(),
            (LoginReliability {
                user_store: users.reliable(),
                two_fa_code_store: codes.reliable(),
                email_client: notifier.reliable(),
            }),
            (LoginEffects { challenges: codes.challenges(), outbox: notifier.outbox() }),
            email,
            password,
            secret,
            ttl,
            now,
            (LoginEffects {
                challenges: codes_after.challenges(),
                outbox: notifier_after.outbox(),
            }),
            out,
        ),
    ensures
        !requires_2fa ==> {
            &&& out.1 matches Ok((status, LoginResponse::RegularAuth)) && status == STATUS_OK
            &&& grants_session(out.0, email, secret, ttl, now)
            &&& codes_after.challenges() == codes.challenges()
            &&& notifier_after.outbox() == notifier.outbox()
        },
        requires_2fa ==> {
            &&& out.1 matches Ok((status, LoginResponse::TwoFactorAuth(response))) && status
                == STATUS_PARTIAL_CONTENT && codes_after.challenges()[email].login_attempt_id
                == response.login_attempt_id@
            &&& out.0 is None
            &&& challenge_stored(codes.challenges(), email, now, codes_after.challenges())
            &&& notifier_after.outbox() == notifier.outbox().push(
                two_fa_mail(email, codes_after.challenges()[email].code),
            )
        },
{
}

} // verus!
