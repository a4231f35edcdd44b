use vstd::prelude::*;

use crate::domain::data_stores::UserStoreError;
use crate::domain::email::{email_valid, Email};
use crate::domain::password::Password;
use crate::domain::user::{Identity, IdentityView};
use crate::services::password_hash::{hash_accepts, verify_password_hash};

verus! {

/// The name of the constraint that keeps the addresses of the accounts
/// table unique.
pub const USERS_PRIMARY_KEY: &'static str = "users_pkey";

/// Whether two texts are the same.
fn same_text(a: &str, b: &str) -> (r: bool)
    ensures
        r == (a@ == b@),
{
    let left: String = a.to_owned();
    let right: String = b.to_owned();
    left == right
}

/// The error that stands for a failed insert into the accounts table:
/// the account exists already when the database names the uniqueness
/// constraint of the table, and the failure is unexpected otherwise.
pub fn insert_failure(constraint: Option<&str>, cause: String) -> (r: UserStoreError)
    ensures
        match constraint {
            Some(name) if name@ == USERS_PRIMARY_KEY@ => r matches UserStoreError::UserAlreadyExists,
            _ => r matches UserStoreError::UnexpectedError(c) && c == cause,
        },
{
    match constraint {
        Some(name) => {
            if same_text(name, USERS_PRIMARY_KEY) {
                UserStoreError::UserAlreadyExists
            } else {
                UserStoreError::UnexpectedError(cause)
            }
        },
        None => UserStoreError::UnexpectedError(cause),
    }
}

/// The account that the row found for an address stands for: the address,
/// the hash and the flag. No row means that there is no such account; a row
/// whose address is not one is an unexpected failure.
pub fn identity_from_row(row: Option<(String, String, bool)>) -> (r: Result<
    Identity,
    UserStoreError,
>)
    ensures
        match row {
            None => r matches Err(UserStoreError::UserNotFound),
            Some((email, password_hash, requires_2fa)) => match r {
                Ok(identity) => email_valid(email@) && identity.email@ == email@ && identity@ == (
                IdentityView { password_hash: password_hash@, requires_2fa }),
                Err(e) => !email_valid(email@) && (e matches UserStoreError::UnexpectedError(c)
                    && c@ == "Invalid email address"@),
            },
        },
{
    match row {
        None => Err(UserStoreError::UserNotFound),
        Some((email, password_hash, requires_2fa)) => match Email::parse(email) {
            Ok(email) => Ok(Identity { email, password_hash, requires_2fa }),
            Err(cause) => Err(UserStoreError::UnexpectedError(cause)),
        },
    }
}

/// Checks `password` against the hash that the accounts table holds for an
/// address, if it holds one. A missing row and a wrong password give the
/// same answer.
pub fn validate_row(stored_hash: Option<&str>, password: &Password) -> (r: Result<
    (),
    UserStoreError,
>)
    ensures
        match stored_hash {
            Some(hash) if hash_accepts(hash@, password@) => r is Ok,
            _ => r matches Err(UserStoreError::InvalidCredentials),
        },
{
    match stored_hash {
        Some(hash) => {
            if verify_password_hash(hash, password) {
                Ok(())
            } else {
                Err(UserStoreError::InvalidCredentials)
            }
        },
        None => Err(UserStoreError::InvalidCredentials),
    }
}

} // verus!
