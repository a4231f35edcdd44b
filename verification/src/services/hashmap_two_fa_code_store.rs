use vstd::prelude::*;

use crate::domain::data_stores::{
    challenge_live, ChallengeView, Challenges, LoginAttemptId, TwoFACode, TwoFACodeStore,
    TwoFACodeStoreError, TWO_FA_CODE_TTL_SECONDS,
};
use crate::domain::email::Email;

verus! {

/// One outstanding challenge.
struct Challenge {
    email: Email,
    login_attempt_id: LoginAttemptId,
    code: TwoFACode,
    expires_at: i64,
}

impl View for Challenge {
    type V = ChallengeView;

    closed spec fn view(&self) -> ChallengeView {
        ChallengeView {
            login_attempt_id: self.login_attempt_id@,
            code: self.code@,
            expires_at: self.expires_at as int,
        }
    }
}

/// Whether `model` holds exactly the challenges listed in `entries`, and no
/// address is listed twice.
spec fn consistent(entries: Seq<Challenge>, model: Challenges) -> bool {
    &&& forall|i: int|
        0 <= i < entries.len() ==> model.contains_key((#[trigger] entries[i]).email@)
            && model[entries[i].email@] == entries[i]@
    &&& forall|e: Seq<char>|
        model.contains_key(e) ==> exists|i: int|
            0 <= i < entries.len() && (#[trigger] entries[i]).email@ == e
    &&& forall|i: int, j: int|
        0 <= i < entries.len() && 0 <= j < entries.len() && (#[trigger] entries[i]).email@ == (
        #[trigger] entries[j]).email@ ==> i == j
}

/// A challenge store in memory. A challenge that has expired stays in it,
/// unanswerable, until it is consumed or replaced.
pub struct HashmapTwoFACodeStore {
    codes: Vec<Challenge>,
    model: Ghost<Challenges>,
}

impl HashmapTwoFACodeStore {
    #[verifier::type_invariant]
    closed spec fn well_formed(&self) -> bool {
        consistent(self.codes@, self.model@)
    }

    /// A store without challenges.
    pub fn new() -> (r: Self)
        ensures
            r.challenges() == Challenges::empty(),
    {
        HashmapTwoFACodeStore { codes: Vec::new(), model: Ghost(Map::empty()) }
    }

    /// The place of the challenge of `email`, if there is one.
    fn position(&self, email: &Email) -> (r: Option<usize>)
        ensures
            match r {
                Some(i) => i < self.codes@.len() && self.codes@[i as int].email@ == email@
                    && self.challenges().contains_key(email@) && self.challenges()[email@]
                    == self.codes@[i as int]@,
                None => !self.challenges().contains_key(email@),
            },
    {
        proof {
            use_type_invariant(self);
        }
        let mut i: usize = 0;
        while i < self.codes.len()
            invariant
                i <= self.codes@.len(),
                forall|j: int| 0 <= j < i ==> (#[trigger] self.codes@[j]).email@ != email@,
            decreases self.codes@.len() - i,
        {
            if self.codes[i].email == *email {
                proof {
                    use_type_invariant(self);
                }
                return Some(i);
            }
            i += 1;
        }
        None
    }
}

impl Default for HashmapTwoFACodeStore {
    fn default() -> (r: Self)
        ensures
            r.challenges() == Challenges::empty(),
    {
        HashmapTwoFACodeStore::new()
    }
}

impl TwoFACodeStore for HashmapTwoFACodeStore {
    closed spec fn challenges(&self) -> Challenges {
        self.model@
    }

    /// The store is in memory and fails on nothing but a time of expiry
    /// that the clock cannot show.
    open spec fn reliable(&self) -> bool {
        true
    }

    /// Fails only when the time of expiry is past the last second that the
    /// clock can show.
    fn add_code(
        &mut self,
        email: Email,
        login_attempt_id: LoginAttemptId,
        code: TwoFACode,
        now: i64,
    ) -> (r: Result<(), TwoFACodeStoreError>)
        ensures
            r is Ok <==> now + TWO_FA_CODE_TTL_SECONDS <= i64::MAX,
    {
        let expires_at: i64 = match now.checked_add(TWO_FA_CODE_TTL_SECONDS) {
            Some(t) => t,
            None => {
                return Err(
                    TwoFACodeStoreError::UnexpectedError("Time of expiry out of range".to_owned()),
                );
            },
        };
        let found = self.position(&email);
        let mut taken = HashmapTwoFACodeStore::new();
        core::mem::swap(self, &mut taken);
        proof {
            use_type_invariant(&taken);
        }
        let HashmapTwoFACodeStore { codes, model } = taken;
        let ghost before = codes@;
        let ghost key = email@;
        let entry = Challenge { email, login_attempt_id, code, expires_at };
        let ghost after = model@.insert(key, entry@);
        let mut codes = codes;
        match found {
            Some(i) => {
                codes.set(i, entry);
                assert forall|k: int| 0 <= k < codes@.len() implies after.contains_key(
                    (#[trigger] codes@[k]).email@,
                ) && after[codes@[k].email@] == codes@[k]@ by {
                    if k != i {
                        assert(codes@[k] == before[k]);
                        assert(before[k].email@ != before[i as int].email@);
                    }
                }
                assert forall|e: Seq<char>| after.contains_key(e) implies exists|k: int|
                    0 <= k < codes@.len() && (#[trigger] codes@[k]).email@ == e by {
                    if e == key {
                        assert(codes@[i as int].email@ == e);
                    } else {
                        let k = choose|k: int|
                            0 <= k < before.len() && (#[trigger] before[k]).email@ == e;
                        assert(codes@[k] == before[k]);
                    }
                }
                assert forall|a: int, b: int|
                    0 <= a < codes@.len() && 0 <= b < codes@.len() && (#[trigger] codes@[a]).email@
                        == (#[trigger] codes@[b]).email@ implies a == b by {
                    assert(codes@[a].email@ == before[a].email@);
                    assert(codes@[b].email@ == before[b].email@);
                }
            },
            None => {
                codes.push(entry);
                assert forall|k: int| 0 <= k < codes@.len() implies after.contains_key(
                    (#[trigger] codes@[k]).email@,
                ) && after[codes@[k].email@] == codes@[k]@ by {
                    if k < before.len() {
                        assert(codes@[k] == before[k]);
                    }
                }
                assert forall|e: Seq<char>| after.contains_key(e) implies exists|k: int|
                    0 <= k < codes@.len() && (#[trigger] codes@[k]).email@ == e by {
                    if e == key {
                        assert(codes@[before.len() as int].email@ == e);
                    } else {
                        let k = choose|k: int|
                            0 <= k < before.len() && (#[trigger] before[k]).email@ == e;
                        assert(codes@[k] == before[k]);
                    }
                }
                assert forall|a: int, b: int|
                    0 <= a < codes@.len() && 0 <= b < codes@.len() && (#[trigger] codes@[a]).email@
                        == (#[trigger] codes@[b]).email@ implies a == b by {
                    if a < before.len() {
                        assert(codes@[a] == before[a]);
                    }
                    if b < before.len() {
                        assert(codes@[b] == before[b]);
                    }
                }
            },
        }
        *self = HashmapTwoFACodeStore { codes, model: Ghost(after) };
        Ok(())
    }

    /// Fails, with `LoginAttemptIdNotFound`, exactly when `email` has no
    /// challenge.
    fn remove_code(&mut self, email: &Email) -> (r: Result<(), TwoFACodeStoreError>)
        ensures
            r is Ok <==> old(self).challenges().contains_key(email@),
    {
        match self.position(email) {
            None => Err(TwoFACodeStoreError::LoginAttemptIdNotFound),
            Some(i) => {
                let mut taken = HashmapTwoFACodeStore::new();
                core::mem::swap(self, &mut taken);
                proof {
                    use_type_invariant(&taken);
                }
                let HashmapTwoFACodeStore { codes, model } = taken;
                let ghost before = codes@;
                let ghost after = model@.remove(email@);
                let mut codes = codes;
                let _ = codes.remove(i);
                assert forall|k: int| 0 <= k < codes@.len() implies after.contains_key(
                    (#[trigger] codes@[k]).email@,
                ) && after[codes@[k].email@] == codes@[k]@ by {
                    if k < i {
                        assert(codes@[k] == before[k]);
                    } else {
                        assert(codes@[k] == before[k + 1]);
                    }
                }
                assert forall|e: Seq<char>| after.contains_key(e) implies exists|k: int|
                    0 <= k < codes@.len() && (#[trigger] codes@[k]).email@ == e by {
                    let k = choose|k: int|
                        0 <= k < before.len() && (#[trigger] before[k]).email@ == e;
                    if k < i {
                        assert(codes@[k] == before[k]);
                    } else {
                        assert(codes@[k - 1] == before[k]);
                    }
                }
                assert forall|a: int, b: int|
                    0 <= a < codes@.len() && 0 <= b < codes@.len() && (#[trigger] codes@[a]).email@
                        == (#[trigger] codes@[b]).email@ implies a == b by {
                    let a0 = if a < i { a } else { a + 1 };
                    let b0 = if b < i { b } else { b + 1 };
                    assert(codes@[a] == before[a0]);
                    assert(codes@[b] == before[b0]);
                }
                *self = HashmapTwoFACodeStore { codes, model: Ghost(after) };
                Ok(())
            },
        }
    }

    /// Fails, with `LoginAttemptIdNotFound`, exactly when `email` has no
    /// challenge that can be answered at the time `now`.
    fn get_code(&self, email: &Email, now: i64) -> (r: Result<
        (LoginAttemptId, TwoFACode),
        TwoFACodeStoreError,
    >)
        ensures
            r is Ok <==> challenge_live(self.challenges(), email@, now as int),
    {
        match self.position(email) {
            Some(i) => {
                if now < self.codes[i].expires_at {
                    Ok((self.codes[i].login_attempt_id.clone(), self.codes[i].code.clone()))
                } else {
                    Err(TwoFACodeStoreError::LoginAttemptIdNotFound)
                }
            },
            None => Err(TwoFACodeStoreError::LoginAttemptIdNotFound),
        }
    }
}

} // verus!
