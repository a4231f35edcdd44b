use vstd::prelude::*;

use crate::domain::data_stores::{
    code_text, uuid_text, LoginAttemptId, TwoFACode, TwoFACodeStoreError,
};
use crate::domain::email::Email;

verus! {

/// How long the cache keeps a challenge, in seconds.
pub const TEN_MINUTES_IN_SECONDS: u64 = 600;

/// How long the cache keeps a ban, in seconds: as long as any token lives,
/// so that no ban ends before the token that it shadows.
pub const BANNED_TOKEN_TTL_SECONDS: u64 = 600;

/// What the key of a challenge begins with.
pub const TWO_FA_CODE_PREFIX: &'static str = "two_fa_code:";

/// What the key of a banned token begins with.
pub const BANNED_TOKEN_PREFIX: &'static str = "banned_token:";

/// The key under which the cache keeps the challenge of `email`.
pub fn get_key(email: &Email) -> (r: String)
    ensures
        r@ == TWO_FA_CODE_PREFIX@ + email@,
{
    let mut key: String = TWO_FA_CODE_PREFIX.to_owned();
    key.append(email.as_ref().as_str());
    key
}

/// The key under which the cache keeps the ban of `token`.
pub fn get_banned_token_key(token: &str) -> (r: String)
    ensures
        r@ == BANNED_TOKEN_PREFIX@ + token@,
{
    let mut key: String = BANNED_TOKEN_PREFIX.to_owned();
    key.append(token);
    key
}

/// What the removal of a challenge's key says of the challenge, given the
/// number of keys that the cache removed: with none removed there was no
/// challenge to consume.
pub fn removal_outcome(removed: i64) -> (r: Result<(), TwoFACodeStoreError>)
    ensures
        removed == 0 ==> r matches Err(TwoFACodeStoreError::LoginAttemptIdNotFound),
        removed != 0 ==> r is Ok,
{
    if removed == 0 {
        Err(TwoFACodeStoreError::LoginAttemptIdNotFound)
    } else {
        Ok(())
    }
}

/// The challenge that the two texts of a cache entry stand for. An entry
/// whose texts are not a login attempt and a code is an unexpected failure.
pub fn challenge_from_stored(login_attempt_id: String, code: String) -> (r: Result<
    (LoginAttemptId, TwoFACode),
    TwoFACodeStoreError,
>)
    ensures
        match r {
            Ok((id, c)) => uuid_text(login_attempt_id@) && code_text(code@) && id@
                == login_attempt_id@ && c@ == code@,
            Err(e) => (!uuid_text(login_attempt_id@) || !code_text(code@))
                && e is UnexpectedError,
        },
{
    let id = match LoginAttemptId::parse(login_attempt_id) {
        Ok(id) => id,
        Err(cause) => {
            return Err(TwoFACodeStoreError::UnexpectedError(cause));
        },
    };
    match TwoFACode::parse(code) {
        Ok(code) => Ok((id, code)),
        Err(cause) => Err(TwoFACodeStoreError::UnexpectedError(cause)),
    }
}

} // verus!
