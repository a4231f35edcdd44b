use vstd::prelude::*;

verus! {

/// The least number of bytes a password holds.
pub const MIN_PASSWORD_BYTES: usize = 8;

/// The number of bytes that `s` takes as UTF-8 text.
pub open spec fn byte_len(s: Seq<char>) -> nat {
    vstd::utf8::encode_utf8(s).len()
}

/// A password is accepted when it is at least eight bytes long.
pub open spec fn password_valid(s: Seq<char>) -> bool {
    byte_len(s) >= MIN_PASSWORD_BYTES
}

/// A validated password in clear text. It has no `Debug` and shows itself
/// only as a fixed mask.
pub struct Password(String);

impl View for Password {
    type V = Seq<char>;

    closed spec fn view(&self) -> Seq<char> {
        self.0@
    }
}

impl Password {
    #[verifier::type_invariant]
    closed spec fn well_formed(&self) -> bool {
        password_valid(self.0@)
    }

    /// Accepts `s` exactly when it is at least eight bytes long.
    pub fn parse(s: String) -> (r: Result<Password, String>)
        ensures
            match r {
                Ok(p) => password_valid(s@) && p@ == s@,
                Err(m) => !password_valid(s@)
                    && m@ == "Password must be at least 8 characters long"@,
            },
    {
        if validate_password(&s) {
            Ok(Password(s))
        } else {
            Err("Password must be at least 8 characters long".to_owned())
        }
    }

    /// The clear text, for the credential store to hash or to verify.
    pub fn as_ref(&self) -> (r: &String)
        ensures
            r@ == self@,
            password_valid(self@),
    {
        proof {
            use_type_invariant(self);
        }
        &self.0
    }

    /// The fixed mask that stands for any password in text output.
    pub fn to_string(&self) -> (r: String)
        ensures
            r@ == "********"@,
    {
        "********".to_owned()
    }
}

impl Clone for Password {
    fn clone(&self) -> (r: Self)
        ensures
            r@ == self@,
    {
        proof {
            use_type_invariant(self);
        }
        Password(self.0.clone())
    }
}

impl PartialEq for Password {
    fn eq(&self, other: &Self) -> (r: bool) {
        self.0 == other.0
    }
}

impl vstd::std_specs::cmp::PartialEqSpecImpl for Password {
    open spec fn obeys_eq_spec() -> bool {
        true
    }

    open spec fn eq_spec(&self, other: &Self) -> bool {
        self@ == other@
    }
}

/// Whether `s` is long enough for a password.
pub fn validate_password(s: &String) -> (r: bool)
    ensures
        r == password_valid(s@),
{
    s.as_str().as_bytes().len() >= MIN_PASSWORD_BYTES
}

} // verus!
