use vstd::prelude::*;

use crate::app_state::AppState;
use crate::domain::data_stores::{
    add_user_post, Accounts, BannedTokenStore, TwoFACodeStore, UserStore, UserStoreError,
};
use crate::domain::email::{email_valid, Email};
use crate::domain::email_client::EmailClient;
use crate::domain::error::AuthAPIError;
use crate::domain::password::{password_valid, Password};
use crate::domain::user::User;
use crate::services::hashmap_user_store::HashmapUserStore;
use crate::services::password_hash::hashable;
use crate::utils::constants::STATUS_CREATED;

verus! {

/// What a client sends to register. It holds the password in clear text and
/// therefore cannot be printed.
pub struct SignupRequest {
    pub email: String,
    pub password: String,
    pub requires_2fa: bool,
}

/// What a client is told when the account was created.
#[derive(Debug)]
pub struct SignupResponse {
    pub message: String,
}

/// The answer to a sign-up, given what the credential store said.
pub fn signup_outcome(added: Result<(), UserStoreError>) -> (r: Result<
    (u16, SignupResponse),
    AuthAPIError,
>)
    ensures
        match added {
            Ok(()) => r matches Ok((status, response)) && status == STATUS_CREATED
                && response.message@ == "User created successfully!"@,
            Err(UserStoreError::UserAlreadyExists) => r matches Err(
                AuthAPIError::UserAlreadyExists,
            ),
            Err(UserStoreError::UnexpectedError(cause)) => r matches Err(
                AuthAPIError::UnexpectedError(c),
            ) && c == cause,
            Err(_) => r matches Err(AuthAPIError::UnexpectedError(c)) && c@
                == "Unexpected error during signup"@,
        },
{
    match added {
        Ok(()) => Ok(
            (STATUS_CREATED, SignupResponse { message: "User created successfully!".to_owned() }),
        ),
        Err(UserStoreError::UserAlreadyExists) => Err(AuthAPIError::UserAlreadyExists),
        Err(UserStoreError::UnexpectedError(cause)) => Err(AuthAPIError::UnexpectedError(cause)),
        Err(_) => Err(AuthAPIError::unexpected_msg("Unexpected error during signup")),
    }
}

/// What a sign-up with `email`, `password` and `requires_2fa` may answer and
/// do to the accounts `pre`. Malformed input is refused before the store is
/// asked. A created account holds a hash that accepts the password. Every
/// failure leaves the accounts as they were. With a store that is
/// `reliable`, an address that is taken is always refused as such, and a
/// free one always gets its account, but for a password too long to be
/// hashed.
pub open spec fn signup_post(
    pre: Accounts,
    reliable: bool,
    email: Seq<char>,
    password: Seq<char>,
    requires_2fa: bool,
    post: Accounts,
    r: Result<(u16, SignupResponse), AuthAPIError>,
) -> bool {
    if !email_valid(email) || !password_valid(password) {
        r matches Err(AuthAPIError::InvalidCredentials) && post == pre
    } else {
        match r {
            Ok((status, response)) => {
                &&& status == STATUS_CREATED
                &&& response.message@ == "User created successfully!"@
                &&& add_user_post(pre, reliable, email, password, requires_2fa, post, Ok(()))
            },
            Err(AuthAPIError::UserAlreadyExists) => pre.contains_key(email) && post == pre,
            Err(AuthAPIError::UnexpectedError(_)) => post == pre && !(reliable && (
            pre.contains_key(email) || hashable(password))),
            Err(_) => false,
        }
    }
}

/// Registers an account.
pub fn signup<U: UserStore, B: BannedTokenStore, T: TwoFACodeStore, E: EmailClient>(
    state: &mut AppState<U, B, T, E>,
    request: SignupRequest,
) -> (r: Result<(u16, SignupResponse), AuthAPIError>)
    ensures
        signup_post(
            old(state).user_store.accounts(),
            old(state).user_store.reliable(),
            request.email@,
            request.password@,
            request.requires_2fa,
            final(state).user_store.accounts(),
            r,
        ),
        final(state).banned_token_store == old(state).banned_token_store,
        final(state).two_fa_code_store == old(state).two_fa_code_store,
        final(state).email_client == old(state).email_client,
        final(state).token_config == old(state).token_config,
        final(state).user_store.reliable() == old(state).user_store.reliable(),
{
    let email = match Email::parse(request.email) {
        Ok(email) => email,
        Err(_) => {
            return Err(AuthAPIError::InvalidCredentials);
        },
    };
    let password = match Password::parse(request.password) {
        Ok(password) => password,
        Err(_) => {
            return Err(AuthAPIError::InvalidCredentials);
        },
    };
    let user = User::new(email, password, request.requires_2fa);
    let added = state.user_store.add_user(user);
    signup_outcome(added)
}

/// A second sign-up with an address that a first one registered creates
/// nothing and changes nothing. It is refused because the account exists;
/// only a store that is not reliable can fail unexpectedly instead.
pub proof fn lemma_second_signup_refused(
    start: Accounts,
    reliable: bool,
    email: Seq<char>,
    first_password: Seq<char>,
    first_flag: bool,
    between: Accounts,
    first: Result<(u16, SignupResponse), AuthAPIError>,
    second_password: Seq<char>,
    second_flag: bool,
    after: Accounts,
    second: Result<(u16, SignupResponse), AuthAPIError>,
)
    requires
        signup_post(start, reliable, email, first_password, first_flag, between, first),
        first is Ok,
        password_valid(second_password),
        signup_post(between, reliable, email, second_password, second_flag, after, second),
    ensures
        between.contains_key(email),
        after == between,
        second matches Err(AuthAPIError::UserAlreadyExists) || (!reliable && second matches Err(
            AuthAPIError::UnexpectedError(_),
        )),
{
}

/// With the credential store in memory, a second sign-up with an address
/// that a first one registered is refused because the account exists.
pub proof fn lemma_second_signup_refused_in_memory(
    start: HashmapUserStore,
    email: Seq<char>,
    first_password: Seq<char>,
    first_flag: bool,
    between: HashmapUserStore,
    first: Result<(u16, SignupResponse), AuthAPIError>,
    second_password: Seq<char>,
    second_flag: bool,
    after: HashmapUserStore,
    second: Result<(u16, SignupResponse), AuthAPIError>,
)
    requires
        signup_post(
            start.accounts(),
            start.reliable(),
            email,
            first_password,
            first_flag,
            between.accounts(),
            first,
        ),
        first is Ok,
        password_valid(second_password),
        signup_post(
            between.accounts(),
            between.reliable(),
            email,
            second_password,
            second_flag,
            after.accounts(),
            second,
        ),
    ensures
        second matches Err(AuthAPIError::UserAlreadyExists),
        after.accounts() == between.accounts(),
{
}

} // verus!
