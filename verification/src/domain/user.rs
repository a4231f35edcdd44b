use vstd::prelude::*;

use crate::domain::email::Email;
use crate::domain::password::Password;

verus! {

/// What a sign-up hands to the credential store: the address, the password in
/// clear text and whether logins need a second factor.
pub struct User {
    pub email: Email,
    pub password: Password,
    pub requires_2fa: bool,
}

impl User {
    pub fn new(email: Email, password: Password, requires_2fa: bool) -> (r: Self)
        ensures
            r.email == email,
            r.password == password,
            r.requires_2fa == requires_2fa,
    {
        User { email, password, requires_2fa }
    }
}

impl Clone for User {
    fn clone(&self) -> (r: Self)
        ensures
            r.email@ == self.email@,
            r.password@ == self.password@,
            r.requires_2fa == self.requires_2fa,
    {
        User {
            email: self.email.clone(),
            password: self.password.clone(),
            requires_2fa: self.requires_2fa,
        }
    }
}

/// What a credential store keeps of one account, as a mathematical value.
pub struct IdentityView {
    pub password_hash: Seq<char>,
    pub requires_2fa: bool,
}

/// A registered account as the credential store hands it out: the password
/// is present only as its hash.
#[derive(Debug)]
pub struct Identity {
    pub email: Email,
    pub password_hash: String,
    pub requires_2fa: bool,
}

impl View for Identity {
    type V = IdentityView;

    open spec fn view(&self) -> IdentityView {
        IdentityView { password_hash: self.password_hash@, requires_2fa: self.requires_2fa }
    }
}

impl Clone for Identity {
    fn clone(&self) -> (r: Self)
        ensures
            r.email@ == self.email@,
            r@ == self@,
    {
        Identity {
            email: self.email.clone(),
            password_hash: self.password_hash.clone(),
            requires_2fa: self.requires_2fa,
        }
    }
}

} // verus!
