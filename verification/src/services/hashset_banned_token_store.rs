use vstd::prelude::*;

use crate::domain::data_stores::{BannedTokenStore, BannedTokenStoreError, BannedTokens};

verus! {

/// Whether `model` holds exactly the tokens listed in `tokens`.
spec fn consistent(tokens: Seq<String>, model: BannedTokens) -> bool {
    &&& forall|i: int| 0 <= i < tokens.len() ==> model.contains((#[trigger] tokens[i])@)
    &&& forall|t: Seq<char>|
        model.contains(t) ==> exists|i: int| 0 <= i < tokens.len() && (#[trigger] tokens[i])@ == t
}

/// A revocation store in memory. Entries never leave it, so it suits
/// short-lived deployments only.
pub struct HashsetBannedTokenStore {
    tokens: Vec<String>,
    model: Ghost<BannedTokens>,
}

impl HashsetBannedTokenStore {
    #[verifier::type_invariant]
    closed spec fn well_formed(&self) -> bool {
        consistent(self.tokens@, self.model@)
    }

    /// A store without banned tokens.
    pub fn new() -> (r: Self)
        ensures
            r.banned() == BannedTokens::empty(),
    {
        HashsetBannedTokenStore { tokens: Vec::new(), model: Ghost(Set::empty()) }
    }

    /// Whether `token` is among the banned ones.
    fn holds(&self, token: &str) -> (r: bool)
        ensures
            r == self.banned().contains(token@),
    {
        proof {
            use_type_invariant(self);
        }
        let wanted: String = token.to_owned();
        let mut i: usize = 0;
        while i < self.tokens.len()
            invariant
                wanted@ == token@,
                i <= self.tokens@.len(),
                forall|j: int| 0 <= j < i ==> (#[trigger] self.tokens@[j])@ != token@,
            decreases self.tokens@.len() - i,
        {
            if self.tokens[i] == wanted {
                proof {
                    use_type_invariant(self);
                }
                return true;
            }
            i += 1;
        }
        false
    }
}

impl Default for HashsetBannedTokenStore {
    fn default() -> (r: Self)
        ensures
            r.banned() == BannedTokens::empty(),
    {
        HashsetBannedTokenStore::new()
    }
}

impl BannedTokenStore for HashsetBannedTokenStore {
    closed spec fn banned(&self) -> BannedTokens {
        self.model@
    }

    /// The store is in memory and never fails.
    open spec fn reliable(&self) -> bool {
        true
    }

    /// Bans `token`; a token that is banned already stays so.
    fn store_token(&mut self, token: String) -> (r: Result<(), BannedTokenStoreError>) {
        if self.holds(token.as_str()) {
            assert(self.banned().insert(token@) =~= self.banned());
            return Ok(());
        }
        let mut taken = HashsetBannedTokenStore::new();
        core::mem::swap(self, &mut taken);
        proof {
            use_type_invariant(&taken);
        }
        let HashsetBannedTokenStore { tokens, model } = taken;
        let ghost before = tokens@;
        let ghost added = token@;
        let ghost after = model@.insert(added);
        let mut tokens = tokens;
        tokens.push(token);
        assert forall|i: int| 0 <= i < tokens@.len() implies after.contains(
            (#[trigger] tokens@[i])@,
        ) by {
            if i < before.len() {
                assert(tokens@[i] == before[i]);
            }
        }
        assert forall|t: Seq<char>| after.contains(t) implies exists|i: int|
            0 <= i < tokens@.len() && (#[trigger] tokens@[i])@ == t by {
            if t == added {
                assert(tokens@[before.len() as int]@ == t);
            } else {
                let i = choose|i: int| 0 <= i < before.len() && (#[trigger] before[i])@ == t;
                assert(tokens@[i] == before[i]);
            }
        }
        *self = HashsetBannedTokenStore { tokens, model: Ghost(after) };
        Ok(())
    }

    /// Whether `token` is banned.
    fn contains_token(&self, token: &str) -> (r: Result<bool, BannedTokenStoreError>) {
        Ok(self.holds(token))
    }
}

} // verus!
