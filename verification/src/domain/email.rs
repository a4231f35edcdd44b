use vstd::prelude::*;

verus! {

/// An address is accepted when it holds an at sign.
pub open spec fn email_valid(s: Seq<char>) -> bool {
    s.contains('@')
}

/// A validated e-mail address.
#[derive(Debug, Hash)]
pub struct Email(String);

impl View for Email {
    type V = Seq<char>;

    closed spec fn view(&self) -> Seq<char> {
        self.0@
    }
}

impl Email {
    #[verifier::type_invariant]
    closed spec fn well_formed(&self) -> bool {
        email_valid(self.0@)
    }

    /// Accepts `s` exactly when it holds an at sign.
    pub fn parse(s: String) -> (r: Result<Email, String>)
        ensures
            match r {
                Ok(e) => email_valid(s@) && e@ == s@,
                Err(m) => !email_valid(s@) && m@ == "Invalid email address"@,
            },
    {
        if has_at_sign(s.as_str()) {
            Ok(Email(s))
        } else {
            Err("Invalid email address".to_owned())
        }
    }

    /// The address as text.
    pub fn as_ref(&self) -> (r: &String)
        ensures
            r@ == self@,
            email_valid(self@),
    {
        proof {
            use_type_invariant(self);
        }
        &self.0
    }

    /// The address as an owned string.
    pub fn to_string(&self) -> (r: String)
        ensures
            r@ == self@,
    {
        self.0.clone()
    }
}

impl Clone for Email {
    fn clone(&self) -> (r: Self)
        ensures
            r@ == self@,
    {
        proof {
            use_type_invariant(self);
        }
        Email(self.0.clone())
    }
}

impl PartialEq for Email {
    fn eq(&self, other: &Self) -> (r: bool) {
        self.0 == other.0
    }
}

impl Eq for Email {}

impl vstd::std_specs::cmp::PartialEqSpecImpl for Email {
    open spec fn obeys_eq_spec() -> bool {
        true
    }

    open spec fn eq_spec(&self, other: &Self) -> bool {
        self@ == other@
    }
}

/// Whether `s` holds an at sign.
fn has_at_sign(s: &str) -> (r: bool)
    ensures
        r == email_valid(s@),
{
    let n: usize = s.unicode_len();
    let mut i: usize = 0;
    while i < n
        invariant
            n == s@.len(),
            i <= n,
            forall|j: int| 0 <= j < i ==> s@[j] != '@',
        decreases n - i,
    {
        if s.get_char(i) == '@' {
            return true;
        }
        i += 1;
    }
    false
}

} // verus!
