use vstd::prelude::*;

use crate::domain::data_stores::{credentials_match, Accounts, UserStore, UserStoreError};
use crate::domain::email::Email;
use crate::domain::password::Password;
use crate::domain::user::{Identity, User};
use crate::services::password_hash::{compute_password_hash, verify_password_hash};

verus! {

/// Whether `model` holds exactly the accounts listed in `users`.
spec fn consistent(users: Seq<Identity>, model: Accounts) -> bool {
    &&& forall|i: int|
        0 <= i < users.len() ==> model.contains_key((#[trigger] users[i]).email@)
            && model[users[i].email@] == users[i]@
    &&& forall|e: Seq<char>|
        model.contains_key(e) ==> exists|i: int|
            0 <= i < users.len() && (#[trigger] users[i]).email@ == e
}

/// A credential store in memory. It keeps the accounts in the order in which
/// they were registered and, of each password, only the hash.
pub struct HashmapUserStore {
    users: Vec<Identity>,
    model: Ghost<Accounts>,
}

impl HashmapUserStore {
    #[verifier::type_invariant]
    closed spec fn well_formed(&self) -> bool {
        consistent(self.users@, self.model@)
    }

    /// A store without accounts.
    pub fn new() -> (r: Self)
        ensures
            r.accounts() == Accounts::empty(),
    {
        HashmapUserStore { users: Vec::new(), model: Ghost(Map::empty()) }
    }

    /// Registers the account `identity`, whose password is already hashed,
    /// unless its address is taken.
    pub fn insert(&mut self, identity: Identity) -> (r: Result<(), UserStoreError>)
        ensures
            match r {
                Ok(()) => !old(self).accounts().contains_key(identity.email@)
                    && final(self).accounts() == old(self).accounts().insert(
                    identity.email@,
                    identity@,
                ),
                Err(e) => e matches UserStoreError::UserAlreadyExists
                    && old(self).accounts().contains_key(identity.email@)
                    && final(self).accounts() == old(self).accounts(),
            },
    {
        if self.position(&identity.email).is_some() {
            return Err(UserStoreError::UserAlreadyExists);
        }
        let mut taken = HashmapUserStore::new();
        core::mem::swap(self, &mut taken);
        proof {
            use_type_invariant(&taken);
        }
        let HashmapUserStore { users, model } = taken;
        let ghost before = users@;
        let ghost added = identity;
        let mut users = users;
        users.push(identity);
        let ghost after = model@.insert(added.email@, added@);
        assert forall|i: int| 0 <= i < users@.len() implies after.contains_key(
            (#[trigger] users@[i]).email@,
        ) && after[users@[i].email@] == users@[i]@ by {
            if i < before.len() {
                assert(users@[i] == before[i]);
            }
        }
        assert forall|e: Seq<char>| after.contains_key(e) implies exists|i: int|
            0 <= i < users@.len() && (#[trigger] users@[i]).email@ == e by {
            if e == added.email@ {
                assert(users@[before.len() as int].email@ == e);
            } else {
                let i = choose|i: int|
                    0 <= i < before.len() && (#[trigger] before[i]).email@ == e;
                assert(users@[i] == before[i]);
            }
        }
        *self = HashmapUserStore {
            users,
            model: Ghost(after),
        };
        Ok(())
    }

    /// The place of the account of `email`, if there is one.
    fn position(&self, email: &Email) -> (r: Option<usize>)
        ensures
            match r {
                Some(i) => i < self.users@.len() && self.users@[i as int].email@ == email@
                    && self.accounts().contains_key(email@) && self.accounts()[email@]
                    == self.users@[i as int]@,
                None => !self.accounts().contains_key(email@),
            },
    {
        proof {
            use_type_invariant(self);
        }
        let mut i: usize = 0;
        while i < self.users.len()
            invariant
                i <= self.users@.len(),
                forall|j: int| 0 <= j < i ==> (#[trigger] self.users@[j]).email@ != email@,
            decreases self.users@.len() - i,
        {
            if self.users[i].email == *email {
                proof {
                    use_type_invariant(self);
                }
                return Some(i);
            }
            i += 1;
        }
        None
    }
}

impl Default for HashmapUserStore {
    fn default() -> (r: Self)
        ensures
            r.accounts() == Accounts::empty(),
    {
        HashmapUserStore::new()
    }
}

impl UserStore for HashmapUserStore {
    closed spec fn accounts(&self) -> Accounts {
        self.model@
    }

    /// The store is in memory and fails on nothing but a password that
    /// cannot be hashed.
    open spec fn reliable(&self) -> bool {
        true
    }

    /// Fails with `UserAlreadyExists` exactly when the address is taken, and
    /// otherwise only if the password could not be hashed.
    fn add_user(&mut self, user: User) -> (r: Result<(), UserStoreError>)
        ensures
            old(self).accounts().contains_key(user.email@) <==> r matches Err(
                UserStoreError::UserAlreadyExists,
            ),
    {
        if self.position(&user.email).is_some() {
            return Err(UserStoreError::UserAlreadyExists);
        }
        match compute_password_hash(&user.password) {
            Err(cause) => Err(UserStoreError::UnexpectedError(cause)),
            Ok(password_hash) => self.insert(
                Identity { email: user.email, password_hash, requires_2fa: user.requires_2fa },
            ),
        }
    }

    /// Fails with `UserNotFound` exactly when no account has the address.
    fn get_user(&self, email: &Email) -> (r: Result<Identity, UserStoreError>)
        ensures
            r is Ok <==> self.accounts().contains_key(email@),
    {
        match self.position(email) {
            Some(i) => Ok(self.users[i].clone()),
            None => Err(UserStoreError::UserNotFound),
        }
    }

    /// Succeeds exactly when the account exists and its hash accepts the
    /// password.
    fn validate_user(&self, email: &Email, password: &Password) -> (r: Result<
        (),
        UserStoreError,
    >)
        ensures
            r is Ok <==> credentials_match(self.accounts(), email@, password@),
    {
        match self.position(email) {
            Some(i) => {
                if verify_password_hash(self.users[i].password_hash.as_str(), password) {
                    Ok(())
                } else {
                    Err(UserStoreError::InvalidCredentials)
                }
            },
            None => Err(UserStoreError::InvalidCredentials),
        }
    }
}

} // verus!
