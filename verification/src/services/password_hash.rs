use vstd::prelude::*;

use crate::domain::password::{byte_len, Password};

verus! {

/// Memory cost of a new hash, in KiB.
pub const HASH_MEMORY_KIB: u32 = 15000;

/// Number of passes of a new hash.
pub const HASH_PASSES: u32 = 2;

/// Number of lanes of a new hash.
pub const HASH_LANES: u32 = 1;

/// The largest memory cost, in KiB, that a stored hash may ask for.
pub const MAX_HASH_MEMORY_KIB: u32 = 262_144;

/// The largest number of passes that a stored hash may ask for.
pub const MAX_HASH_PASSES: u32 = 16;

/// The largest number of lanes that a stored hash may ask for.
pub const MAX_HASH_LANES: u32 = 16;

/// The longest password, in bytes, that can be hashed.
pub const MAX_PASSWORD_BYTES: usize = 0xFFFF_FFFF;

/// One parameter of an encoded hash: its name and, where its value is a
/// decimal number, that number.
pub type HashParam = (Seq<char>, Option<u32>);

/// The parameters that `PasswordHash::new` reads from the encoded hash
/// `text`, in their order, each with the number that `Value::decimal` reads
/// from its value; nothing where `text` is no PHC string.
pub uninterp spec fn phc_params(text: Seq<char>) -> Option<Seq<HashParam>>;

/// Whether Argon2 verification accepts `password` against the encoded hash
/// `hash`: `hash` parses as a PHC string, and hashing `password` again with
/// the salt and the parameters that it records gives the output that it
/// records.
pub uninterp spec fn password_hash_accepts(hash: Seq<char>, password: Seq<char>) -> bool;

/// Whether a parameter of an encoded hash asks for no more than this library
/// is ready to spend: a cost must be a number within its limit.
pub open spec fn param_within_limits(param: HashParam) -> bool {
    &&& param.0 == "m"@ ==> (param.1 matches Some(m) && 8 <= m <= MAX_HASH_MEMORY_KIB)
    &&& param.0 == "t"@ ==> (param.1 matches Some(t) && 1 <= t <= MAX_HASH_PASSES)
    &&& param.0 == "p"@ ==> (param.1 matches Some(p) && 1 <= p <= MAX_HASH_LANES)
}

/// Whether every parameter is within the limits.
pub open spec fn costs_within_limits(params: Seq<HashParam>) -> bool {
    forall|i: int| 0 <= i < params.len() ==> param_within_limits(#[trigger] params[i])
}

/// Whether the stored hash `hash` accepts `password`: it is a PHC string
/// whose costs are within the limits, and Argon2 verification accepts the
/// password against it.
pub open spec fn hash_accepts(hash: Seq<char>, password: Seq<char>) -> bool {
    &&& phc_params(hash) matches Some(params) && costs_within_limits(params)
    &&& password_hash_accepts(hash, password)
}

/// The parameters that a hash made under the given costs records.
pub open spec fn cost_params(memory_kib: u32, passes: u32, lanes: u32) -> Seq<HashParam> {
    seq![("m"@, Some(memory_kib)), ("t"@, Some(passes)), ("p"@, Some(lanes))]
}

/// Parameters as mathematical values.
pub open spec fn params_view(params: Seq<(String, Option<u32>)>) -> Seq<HashParam> {
    Seq::new(params.len(), |i: int| (params[i].0@, params[i].1))
}

/// Draws a fresh salt with `SaltString::generate` and hashes `password` with
/// Argon2id, version 0x13, under the given costs (`Params::new`,
/// `Argon2::new`, `PasswordHasher::hash_password`), returning the PHC string.
/// Under costs that `Params::new` takes, hashing fails only on a password of
/// more than 2^32 - 1 bytes. The salt is random, so the string differs from
/// call to call; whatever it is, it records the three costs as its
/// parameters, and verification accepts it for the same password.
#[verifier::external_body]
fn argon2id_hash(password: &str, memory_kib: u32, passes: u32, lanes: u32) -> (r: Option<String>)
    requires
        1 <= lanes <= MAX_HASH_LANES,
        1 <= passes <= MAX_HASH_PASSES,
        8 * lanes <= memory_kib <= MAX_HASH_MEMORY_KIB,
    ensures
        byte_len(password@) <= MAX_PASSWORD_BYTES ==> r is Some,
        r matches Some(h) ==> phc_params(h@) == Some(cost_params(memory_kib, passes, lanes))
            && password_hash_accepts(h@, password@),
{
    let salt = argon2::password_hash::SaltString::generate(&mut rand::thread_rng());
    let params = argon2::Params::new(memory_kib, passes, lanes, None).ok()?;
    let hasher = argon2::Argon2::new(argon2::Algorithm::Argon2id, argon2::Version::V0x13, params);
    let hash = argon2::PasswordHasher::hash_password(&hasher, password.as_bytes(), &salt).ok()?;
    Some(hash.to_string())
}

/// Parses `text` with `PasswordHash::new` and lists its parameters, each
/// with the number that `Value::decimal` reads from its value. The answer
/// depends on the text alone.
#[verifier::external_body]
fn read_phc_params(text: &str) -> (r: Option<Vec<(String, Option<u32>)>>)
    ensures
        match r {
            Some(params) => phc_params(text@) == Some(params_view(params@)),
            None => phc_params(text@) is None,
        },
{
    let parsed = argon2::PasswordHash::new(text).ok()?;
    let mut params = Vec::new();
    for (name, value) in parsed.params.iter() {
        params.push((name.as_str().to_owned(), value.decimal().ok()));
    }
    Some(params)
}

/// Parses `expected` with `PasswordHash::new` and checks `candidate` against
/// it with `PasswordVerifier::verify_password` on `Argon2::default()`. The
/// answer depends on the two texts alone. Texts whose costs are beyond the
/// limits are left out: on some of them the hasher does not return.
#[verifier::external_body]
fn argon2_verify(expected: &str, candidate: &str) -> (r: bool)
    requires
        phc_params(expected@) matches Some(params) && costs_within_limits(params),
    ensures
        r == password_hash_accepts(expected@, candidate@),
{
    match argon2::PasswordHash::new(expected) {
        Ok(parsed) => argon2::PasswordVerifier::verify_password(
            &argon2::Argon2::default(),
            candidate.as_bytes(),
            &parsed,
        ).is_ok(),
        Err(_) => false,
    }
}

/// Whether two texts are the same.
fn same_text(a: &str, b: &str) -> (r: bool)
    ensures
        r == (a@ == b@),
{
    let left: String = a.to_owned();
    let right: String = b.to_owned();
    left == right
}

/// Whether a cost is a number from `least` to `most`.
fn cost_between(value: Option<u32>, least: u32, most: u32) -> (r: bool)
    ensures
        r == (value matches Some(v) && least <= v <= most),
{
    match value {
        Some(v) => least <= v && v <= most,
        None => false,
    }
}

/// Whether every parameter of a stored hash is within the limits.
pub fn costs_acceptable(params: &Vec<(String, Option<u32>)>) -> (r: bool)
    ensures
        r == costs_within_limits(params_view(params@)),
{
    let mut i: usize = 0;
    while i < params.len()
        invariant
            i <= params@.len(),
            forall|j: int| 0 <= j < i ==> param_within_limits(#[trigger] params_view(params@)[j]),
        decreases params@.len() - i,
    {
        let name = params[i].0.as_str();
        let value = params[i].1;
        assert(params_view(params@)[i as int] == (name@, value));
        let memory_ok = !same_text(name, "m") || cost_between(value, 8, MAX_HASH_MEMORY_KIB);
        let passes_ok = !same_text(name, "t") || cost_between(value, 1, MAX_HASH_PASSES);
        let lanes_ok = !same_text(name, "p") || cost_between(value, 1, MAX_HASH_LANES);
        if !(memory_ok && passes_ok && lanes_ok) {
            return false;
        }
        i += 1;
    }
    true
}

/// The costs of a new hash are within the limits for stored hashes.
proof fn lemma_new_hash_within_limits()
    ensures
        costs_within_limits(cost_params(HASH_MEMORY_KIB, HASH_PASSES, HASH_LANES)),
{
    reveal_strlit("m");
    reveal_strlit("t");
    reveal_strlit("p");
    let params = cost_params(HASH_MEMORY_KIB, HASH_PASSES, HASH_LANES);
    assert("m"@[0] == 'm' && "t"@[0] == 't' && "p"@[0] == 'p');
    assert forall|i: int| 0 <= i < params.len() implies param_within_limits(
        #[trigger] params[i],
    ) by {
        assert(params[i].0[0] == 'm' || params[i].0[0] == 't' || params[i].0[0] == 'p');
    }
}

/// Whether `password` is short enough to be hashed.
pub open spec fn hashable(password: Seq<char>) -> bool {
    byte_len(password) <= MAX_PASSWORD_BYTES
}

/// Hashes `password` with a fresh salt. Hashing succeeds on every password
/// of at most 2^32 - 1 bytes; the result is accepted for `password`, and
/// which string it is depends on the salt.
pub fn compute_password_hash(password: &Password) -> (r: Result<String, String>)
    ensures
        hashable(password@) ==> r is Ok,
        match r {
            Ok(h) => hash_accepts(h@, password@),
            Err(m) => m@ == "Failed to compute password hash"@,
        },
{
    proof {
        lemma_new_hash_within_limits();
    }
    match argon2id_hash(password.as_ref().as_str(), HASH_MEMORY_KIB, HASH_PASSES, HASH_LANES) {
        Some(h) => Ok(h),
        None => Err("Failed to compute password hash".to_owned()),
    }
}

/// Whether the stored hash `expected_password_hash` accepts
/// `password_candidate`. A text that is no PHC string, or whose costs are
/// beyond the limits, accepts nothing and is never handed to the hasher.
pub fn verify_password_hash(expected_password_hash: &str, password_candidate: &Password) -> (r:
    bool)
    ensures
        r == hash_accepts(expected_password_hash@, password_candidate@),
{
    match read_phc_params(expected_password_hash) {
        None => false,
        Some(params) => {
            if costs_acceptable(&params) {
                argon2_verify(expected_password_hash, password_candidate.as_ref().as_str())
            } else {
                false
            }
        },
    }
}

} // verus!
