use vstd::prelude::*;

use crate::domain::email::Email;
use crate::domain::password::Password;
use crate::domain::user::{Identity, IdentityView, User};
use crate::services::password_hash::{hash_accepts, hashable};

verus! {

/// Why a credential store did not do what it was asked.
#[derive(Debug)]
pub enum UserStoreError {
    UserAlreadyExists,
    UserNotFound,
    InvalidCredentials,
    /// The backend failed; the text says how.
    UnexpectedError(String),
}

impl UserStoreError {
    /// Two errors are alike when they are of the same kind, whatever the
    /// cause that an unexpected one carries.
    pub open spec fn same_kind(&self, other: &Self) -> bool {
        match (*self, *other) {
            (UserStoreError::UserAlreadyExists, UserStoreError::UserAlreadyExists) => true,
            (UserStoreError::UserNotFound, UserStoreError::UserNotFound) => true,
            (UserStoreError::InvalidCredentials, UserStoreError::InvalidCredentials) => true,
            (UserStoreError::UnexpectedError(_), UserStoreError::UnexpectedError(_)) => true,
            _ => false,
        }
    }

    /// The message that stands for this kind of error.
    pub fn to_string(&self) -> (r: String)
        ensures
            r@ == match *self {
                UserStoreError::UserAlreadyExists => "User already exists"@,
                UserStoreError::UserNotFound => "User not found"@,
                UserStoreError::InvalidCredentials => "Invalid credentials"@,
                UserStoreError::UnexpectedError(_) => "Unexpected error"@,
            },
    {
        match self {
            UserStoreError::UserAlreadyExists => "User already exists".to_owned(),
            UserStoreError::UserNotFound => "User not found".to_owned(),
            UserStoreError::InvalidCredentials => "Invalid credentials".to_owned(),
            UserStoreError::UnexpectedError(_) => "Unexpected error".to_owned(),
        }
    }
}

impl PartialEq for UserStoreError {
    fn eq(&self, other: &Self) -> (r: bool) {
        match (self, other) {
            (UserStoreError::UserAlreadyExists, UserStoreError::UserAlreadyExists) => true,
            (UserStoreError::UserNotFound, UserStoreError::UserNotFound) => true,
            (UserStoreError::InvalidCredentials, UserStoreError::InvalidCredentials) => true,
            (UserStoreError::UnexpectedError(_), UserStoreError::UnexpectedError(_)) => true,
            _ => false,
        }
    }
}

impl vstd::std_specs::cmp::PartialEqSpecImpl for UserStoreError {
    open spec fn obeys_eq_spec() -> bool {
        true
    }

    open spec fn eq_spec(&self, other: &Self) -> bool {
        self.same_kind(other)
    }
}

/// Why a revocation store did not do what it was asked.
#[derive(Debug)]
pub enum BannedTokenStoreError {
    /// The backend failed; the text says how.
    UnexpectedError(String),
}

impl BannedTokenStoreError {
    /// The message that stands for this error.
    pub fn to_string(&self) -> (r: String)
        ensures
            r@ == "Unexpected error"@,
    {
        "Unexpected error".to_owned()
    }
}

/// Why a challenge store did not do what it was asked.
#[derive(Debug)]
pub enum TwoFACodeStoreError {
    LoginAttemptIdNotFound,
    /// The backend failed; the text says how.
    UnexpectedError(String),
}

impl TwoFACodeStoreError {
    /// Two errors are alike when they are of the same kind, whatever the
    /// cause that an unexpected one carries.
    pub open spec fn same_kind(&self, other: &Self) -> bool {
        match (*self, *other) {
            (
                TwoFACodeStoreError::LoginAttemptIdNotFound,
                TwoFACodeStoreError::LoginAttemptIdNotFound,
            ) => true,
            (TwoFACodeStoreError::UnexpectedError(_), TwoFACodeStoreError::UnexpectedError(_)) => true,
            _ => false,
        }
    }

    /// The message that stands for this kind of error.
    pub fn to_string(&self) -> (r: String)
        ensures
            r@ == match *self {
                TwoFACodeStoreError::LoginAttemptIdNotFound => "Login attempt ID not found"@,
                TwoFACodeStoreError::UnexpectedError(_) => "Unexpected error"@,
            },
    {
        match self {
            TwoFACodeStoreError::LoginAttemptIdNotFound => "Login attempt ID not found".to_owned(),
            TwoFACodeStoreError::UnexpectedError(_) => "Unexpected error".to_owned(),
        }
    }
}

impl PartialEq for TwoFACodeStoreError {
    fn eq(&self, other: &Self) -> (r: bool) {
        match (self, other) {
            (
                TwoFACodeStoreError::LoginAttemptIdNotFound,
                TwoFACodeStoreError::LoginAttemptIdNotFound,
            ) => true,
            (TwoFACodeStoreError::UnexpectedError(_), TwoFACodeStoreError::UnexpectedError(_)) => true,
            _ => false,
        }
    }
}

impl vstd::std_specs::cmp::PartialEqSpecImpl for TwoFACodeStoreError {
    open spec fn obeys_eq_spec() -> bool {
        true
    }

    open spec fn eq_spec(&self, other: &Self) -> bool {
        self.same_kind(other)
    }
}

/// The accounts of a credential store, by address.
pub type Accounts = Map<Seq<char>, IdentityView>;

/// The tokens of a revocation store.
pub type BannedTokens = Set<Seq<char>>;

/// How long a challenge can be answered, in seconds.
pub const TWO_FA_CODE_TTL_SECONDS: i64 = 600;

/// One outstanding challenge, as a mathematical value: the text of the
/// login attempt's identifier, that of the code, and the second, in Unix
/// time, from which on the challenge can no longer be answered.
pub struct ChallengeView {
    pub login_attempt_id: Seq<char>,
    pub code: Seq<char>,
    pub expires_at: int,
}

/// The challenges of a challenge store, by address.
pub type Challenges = Map<Seq<char>, ChallengeView>;

/// Whether the challenges `all` hold one for `email` that can still be
/// answered at the time `now`.
pub open spec fn challenge_live(all: Challenges, email: Seq<char>, now: int) -> bool {
    all.contains_key(email) && now < all[email].expires_at
}

/// What `UserStore::add_user` may do to the accounts `pre` when it is handed
/// `email`, `password` and `requires_2fa`: on success the address was free
/// and now holds a hash that accepts the password; on any failure nothing
/// changed, and the address was taken if the failure says so. A store that
/// is `reliable` fails unexpectedly only where the address is free and the
/// password too long to be hashed.
pub open spec fn add_user_post(
    pre: Accounts,
    reliable: bool,
    email: Seq<char>,
    password: Seq<char>,
    requires_2fa: bool,
    post: Accounts,
    r: Result<(), UserStoreError>,
) -> bool {
    match r {
        Ok(()) => {
            &&& !pre.contains_key(email)
            &&& post.contains_key(email)
            &&& post == pre.insert(email, post[email])
            &&& post[email].requires_2fa == requires_2fa
            &&& hash_accepts(post[email].password_hash, password)
        },
        Err(UserStoreError::UserAlreadyExists) => pre.contains_key(email) && post == pre,
        Err(UserStoreError::UnexpectedError(_)) => post == pre && !(reliable && (pre.contains_key(
            email,
        ) || hashable(password))),
        Err(_) => false,
    }
}

/// What `UserStore::get_user` may answer for `email` on the accounts `all`.
pub open spec fn get_user_post(
    all: Accounts,
    email: Seq<char>,
    r: Result<Identity, UserStoreError>,
) -> bool {
    match r {
        Ok(identity) => all.contains_key(email) && identity.email@ == email && identity@
            == all[email],
        Err(UserStoreError::UserNotFound) => !all.contains_key(email),
        Err(UserStoreError::UnexpectedError(_)) => true,
        Err(_) => false,
    }
}

/// Whether the accounts `all` hold `email` with a hash that accepts
/// `password`.
pub open spec fn credentials_match(all: Accounts, email: Seq<char>, password: Seq<char>) -> bool {
    all.contains_key(email) && hash_accepts(all[email].password_hash, password)
}

/// What `UserStore::validate_user` may answer on the accounts `all`.
pub open spec fn validate_user_post(
    all: Accounts,
    email: Seq<char>,
    password: Seq<char>,
    r: Result<(), UserStoreError>,
) -> bool {
    match r {
        Ok(()) => credentials_match(all, email, password),
        Err(UserStoreError::InvalidCredentials) => !credentials_match(all, email, password),
        Err(UserStoreError::UnexpectedError(_)) => true,
        Err(_) => false,
    }
}

/// The credential store: one account per address, the password kept only as
/// a salted hash.
pub trait UserStore {
    /// The accounts that the store holds.
    spec fn accounts(&self) -> Accounts;

    /// Whether the store never fails on its own account. A store says so
    /// only if it can keep the promise; by default it does not.
    open spec fn reliable(&self) -> bool {
        false
    }

    /// Registers `user` unless the address is taken.
    fn add_user(&mut self, user: User) -> (r: Result<(), UserStoreError>)
        ensures
            add_user_post(
                old(self).accounts(),
                old(self).reliable(),
                user.email@,
                user.password@,
                user.requires_2fa,
                final(self).accounts(),
                r,
            ),
            final(self).reliable() == old(self).reliable(),
    ;

    /// A copy of the account registered under `email`.
    fn get_user(&self, email: &Email) -> (r: Result<Identity, UserStoreError>)
        ensures
            get_user_post(self.accounts(), email@, r),
            self.reliable() ==> !(r matches Err(UserStoreError::UnexpectedError(_))),
    ;

    /// Checks `password` against the hash kept for `email`. A missing
    /// account and a wrong password give the same answer.
    fn validate_user(&self, email: &Email, password: &Password) -> (r: Result<
        (),
        UserStoreError,
    >)
        ensures
            validate_user_post(self.accounts(), email@, password@, r),
            self.reliable() ==> !(r matches Err(UserStoreError::UnexpectedError(_))),
    ;
}

/// What `BannedTokenStore::store_token` may do to the banned tokens `pre`.
pub open spec fn store_token_post(
    pre: BannedTokens,
    token: Seq<char>,
    post: BannedTokens,
    r: Result<(), BannedTokenStoreError>,
) -> bool {
    match r {
        Ok(()) => post == pre.insert(token),
        Err(_) => post == pre,
    }
}

/// The revocation store: the session tokens that are no longer accepted.
pub trait BannedTokenStore {
    /// The tokens that the store holds.
    spec fn banned(&self) -> BannedTokens;

    /// Whether the store never fails on its own account. A store says so
    /// only if it can keep the promise; by default it does not.
    open spec fn reliable(&self) -> bool {
        false
    }

    /// Bans `token`. Banning a banned token changes nothing and succeeds.
    fn store_token(&mut self, token: String) -> (r: Result<(), BannedTokenStoreError>)
        ensures
            store_token_post(old(self).banned(), token@, final(self).banned(), r),
            final(self).reliable() == old(self).reliable(),
            old(self).reliable() ==> r is Ok,
    ;

    /// Whether `token` is banned.
    fn contains_token(&self, token: &str) -> (r: Result<bool, BannedTokenStoreError>)
        ensures
            r matches Ok(b) ==> b == self.banned().contains(token@),
            self.reliable() ==> r is Ok,
    ;
}

/// What `TwoFACodeStore::add_code` may do to the challenges `pre` at the
/// time `now`: on success the address holds the new challenge, which can be
/// answered for the next ten minutes, in place of any earlier one.
pub open spec fn add_code_post(
    pre: Challenges,
    email: Seq<char>,
    login_attempt_id: Seq<char>,
    code: Seq<char>,
    now: int,
    post: Challenges,
    r: Result<(), TwoFACodeStoreError>,
) -> bool {
    match r {
        Ok(()) => post == pre.insert(
            email,
            ChallengeView { login_attempt_id, code, expires_at: now + TWO_FA_CODE_TTL_SECONDS },
        ),
        Err(TwoFACodeStoreError::UnexpectedError(_)) => post == pre,
        Err(_) => false,
    }
}

/// What `TwoFACodeStore::remove_code` may do to the challenges `pre`.
pub open spec fn remove_code_post(
    pre: Challenges,
    email: Seq<char>,
    post: Challenges,
    r: Result<(), TwoFACodeStoreError>,
) -> bool {
    match r {
        Ok(()) => pre.contains_key(email) && post == pre.remove(email),
        Err(TwoFACodeStoreError::LoginAttemptIdNotFound) => !pre.contains_key(email) && post == pre,
        Err(TwoFACodeStoreError::UnexpectedError(_)) => post == pre,
    }
}

/// What `TwoFACodeStore::get_code` may answer for `email` at the time `now`
/// on the challenges `all`.
pub open spec fn get_code_post(
    all: Challenges,
    email: Seq<char>,
    now: int,
    r: Result<(LoginAttemptId, TwoFACode), TwoFACodeStoreError>,
) -> bool {
    match r {
        Ok((id, code)) => {
            &&& challenge_live(all, email, now)
            &&& all[email].login_attempt_id == id@
            &&& all[email].code == code@
        },
        Err(TwoFACodeStoreError::LoginAttemptIdNotFound) => !challenge_live(all, email, now),
        Err(TwoFACodeStoreError::UnexpectedError(_)) => true,
    }
}

/// The challenge store: at most one challenge per address, each with a time
/// after which it can no longer be answered. A challenge that was never
/// issued, one that has expired and one that was consumed all show as not
/// found.
pub trait TwoFACodeStore {
    /// The challenges that the store holds.
    spec fn challenges(&self) -> Challenges;

    /// Whether the store never fails on its own account. A store says so
    /// only if it can keep the promise; by default it does not.
    open spec fn reliable(&self) -> bool {
        false
    }

    /// Issues, at the time `now`, a challenge for `email` in place of any
    /// earlier one.
    fn add_code(
        &mut self,
        email: Email,
        login_attempt_id: LoginAttemptId,
        code: TwoFACode,
        now: i64,
    ) -> (r: Result<(), TwoFACodeStoreError>)
        ensures
            add_code_post(
                old(self).challenges(),
                email@,
                login_attempt_id@,
                code@,
                now as int,
                final(self).challenges(),
                r,
            ),
            final(self).reliable() == old(self).reliable(),
            old(self).reliable() && now + TWO_FA_CODE_TTL_SECONDS <= i64::MAX ==> r is Ok,
    ;

    /// Consumes the challenge of `email`.
    fn remove_code(&mut self, email: &Email) -> (r: Result<(), TwoFACodeStoreError>)
        ensures
            remove_code_post(old(self).challenges(), email@, final(self).challenges(), r),
            final(self).reliable() == old(self).reliable(),
            old(self).reliable() ==> !(r matches Err(TwoFACodeStoreError::UnexpectedError(_))),
    ;

    /// The challenge of `email`, if it can be answered at the time `now`.
    fn get_code(&self, email: &Email, now: i64) -> (r: Result<
        (LoginAttemptId, TwoFACode),
        TwoFACodeStoreError,
    >)
        ensures
            get_code_post(self.challenges(), email@, now as int, r),
            self.reliable() ==> !(r matches Err(TwoFACodeStoreError::UnexpectedError(_))),
    ;
}

/// Whether `uuid::Uuid::parse_str` accepts the text `s`.
pub uninterp spec fn uuid_text(s: Seq<char>) -> bool;

/// Calls `uuid::Uuid::parse_str` and says whether it returned a UUID. The
/// answer depends on the text alone and is given the name `uuid_text`.
#[verifier::external_body]
fn is_uuid_text(s: &str) -> (r: bool)
    ensures
        r == uuid_text(s@),
{
    uuid::Uuid::parse_str(s).is_ok()
}

/// Calls `uuid::Uuid::new_v4` and renders the fresh random UUID with its
/// `Display`, which writes the hyphenated form; `uuid::Uuid::parse_str`
/// accepts every text of that form. Which UUID comes back is left open.
#[verifier::external_body]
fn fresh_uuid_text() -> (r: String)
    ensures
        uuid_text(r@),
{
    uuid::Uuid::new_v4().to_string()
}

/// Calls `rand::Rng::gen_range` on the thread's generator with the closed
/// range from zero to `max`. Only the range of the result is known.
#[verifier::external_body]
fn random_up_to(max: u32) -> (n: u32)
    ensures
        n <= max,
{
    rand::Rng::gen_range(&mut rand::thread_rng(), 0..=max)
}

/// `String::push` appends one character.
pub assume_specification[ String::push ](s: &mut String, c: char)
    ensures
        final(s)@ == old(s)@.push(c),
;

/// The identifier of one login attempt: the text of a UUID.
#[derive(Debug)]
pub struct LoginAttemptId(String);

impl View for LoginAttemptId {
    type V = Seq<char>;

    closed spec fn view(&self) -> Seq<char> {
        self.0@
    }
}

impl LoginAttemptId {
    #[verifier::type_invariant]
    closed spec fn well_formed(&self) -> bool {
        uuid_text(self.0@)
    }

    /// Accepts `id` exactly when it is the text of a UUID.
    pub fn parse(id: String) -> (r: Result<Self, String>)
        ensures
            match r {
                Ok(v) => uuid_text(id@) && v@ == id@,
                Err(m) => !uuid_text(id@) && m@ == "Invalid login attempt ID format"@,
            },
    {
        if is_uuid_text(id.as_str()) {
            Ok(LoginAttemptId(id))
        } else {
            Err("Invalid login attempt ID format".to_owned())
        }
    }

    /// The identifier as text.
    pub fn as_ref(&self) -> (r: &String)
        ensures
            r@ == self@,
            uuid_text(self@),
    {
        proof {
            use_type_invariant(self);
        }
        &self.0
    }
}

impl Default for LoginAttemptId {
    /// A fresh random identifier.
    fn default() -> (r: Self)
        ensures
            uuid_text(r@),
    {
        LoginAttemptId(fresh_uuid_text())
    }
}

impl Clone for LoginAttemptId {
    fn clone(&self) -> (r: Self)
        ensures
            r@ == self@,
    {
        proof {
            use_type_invariant(self);
        }
        LoginAttemptId(self.0.clone())
    }
}

impl PartialEq for LoginAttemptId {
    fn eq(&self, other: &Self) -> (r: bool) {
        self.0 == other.0
    }
}

impl vstd::std_specs::cmp::PartialEqSpecImpl for LoginAttemptId {
    open spec fn obeys_eq_spec() -> bool {
        true
    }

    open spec fn eq_spec(&self, other: &Self) -> bool {
        self@ == other@
    }
}

/// The largest number a second-factor code can show.
pub const MAX_CODE_NUMBER: u32 = 999_999;

/// The number of digits of a second-factor code.
pub const CODE_LENGTH: usize = 6;

/// Whether `c` is one of the ten ASCII digits.
pub open spec fn is_digit(c: char) -> bool {
    c == '0' || c == '1' || c == '2' || c == '3' || c == '4' || c == '5' || c == '6' || c == '7'
        || c == '8' || c == '9'
}

/// A second-factor code is six ASCII digits.
pub open spec fn code_text(s: Seq<char>) -> bool {
    s.len() == CODE_LENGTH && forall|i: int| 0 <= i < s.len() ==> is_digit(#[trigger] s[i])
}

/// The character of the decimal digit `d`.
pub open spec fn digit_char(d: int) -> char {
    if d == 0 {
        '0'
    } else if d == 1 {
        '1'
    } else if d == 2 {
        '2'
    } else if d == 3 {
        '3'
    } else if d == 4 {
        '4'
    } else if d == 5 {
        '5'
    } else if d == 6 {
        '6'
    } else if d == 7 {
        '7'
    } else if d == 8 {
        '8'
    } else {
        '9'
    }
}

/// The six decimal digits of `n`, the highest first, with leading zeros.
pub open spec fn six_digits(n: int) -> Seq<char> {
    seq![
        digit_char((n / 100000) % 10),
        digit_char((n / 10000) % 10),
        digit_char((n / 1000) % 10),
        digit_char((n / 100) % 10),
        digit_char((n / 10) % 10),
        digit_char(n % 10),
    ]
}

/// A one-time second-factor code.
#[derive(Debug)]
pub struct TwoFACode(String);

impl View for TwoFACode {
    type V = Seq<char>;

    closed spec fn view(&self) -> Seq<char> {
        self.0@
    }
}

impl TwoFACode {
    #[verifier::type_invariant]
    closed spec fn well_formed(&self) -> bool {
        code_text(self.0@)
    }

    /// Accepts `code` exactly when it is six ASCII digits.
    pub fn parse(code: String) -> (r: Result<Self, String>)
        ensures
            match r {
                Ok(v) => code_text(code@) && v@ == code@,
                Err(m) => !code_text(code@) && m@ == "2FA code must be exactly 6 digits"@,
            },
    {
        if all_digits(code.as_str()) {
            Ok(TwoFACode(code))
        } else {
            Err("2FA code must be exactly 6 digits".to_owned())
        }
    }

    /// The code that shows `n` in six digits, zero-padded.
    pub fn from_number(n: u32) -> (r: Self)
        requires
            n <= MAX_CODE_NUMBER,
        ensures
            r@ == six_digits(n as int),
            code_text(r@),
    {
        let mut text = String::new();
        text.push(digit_of((n / 100000) % 10));
        text.push(digit_of((n / 10000) % 10));
        text.push(digit_of((n / 1000) % 10));
        text.push(digit_of((n / 100) % 10));
        text.push(digit_of((n / 10) % 10));
        text.push(digit_of(n % 10));
        assert(text@ =~= six_digits(n as int));
        TwoFACode(text)
    }

    /// The code as text.
    pub fn as_ref(&self) -> (r: &String)
        ensures
            r@ == self@,
            code_text(self@),
    {
        proof {
            use_type_invariant(self);
        }
        &self.0
    }

    /// The six digits as an owned string.
    pub fn to_string(&self) -> (r: String)
        ensures
            r@ == self@,
            code_text(self@),
    {
        proof {
            use_type_invariant(self);
        }
        self.0.clone()
    }
}

impl Default for TwoFACode {
    /// A random code, each number from 0 to 999999 being possible.
    fn default() -> (r: Self)
        ensures
            code_text(r@),
            exists|n: int| 0 <= n <= MAX_CODE_NUMBER && r@ == six_digits(n),
    {
        let n: u32 = random_up_to(MAX_CODE_NUMBER);
        let code = TwoFACode::from_number(n);
        assert(0 <= n as int <= MAX_CODE_NUMBER && code@ == six_digits(n as int));
        code
    }
}

impl Clone for TwoFACode {
    fn clone(&self) -> (r: Self)
        ensures
            r@ == self@,
    {
        proof {
            use_type_invariant(self);
        }
        TwoFACode(self.0.clone())
    }
}

impl PartialEq for TwoFACode {
    fn eq(&self, other: &Self) -> (r: bool) {
        self.0 == other.0
    }
}

impl vstd::std_specs::cmp::PartialEqSpecImpl for TwoFACode {
    open spec fn obeys_eq_spec() -> bool {
        true
    }

    open spec fn eq_spec(&self, other: &Self) -> bool {
        self@ == other@
    }
}

/// The character of the decimal digit `d`.
fn digit_of(d: u32) -> (c: char)
    requires
        d < 10,
    ensures
        c == digit_char(d as int),
        is_digit(c),
{
    if d == 0 {
        '0'
    } else if d == 1 {
        '1'
    } else if d == 2 {
        '2'
    } else if d == 3 {
        '3'
    } else if d == 4 {
        '4'
    } else if d == 5 {
        '5'
    } else if d == 6 {
        '6'
    } else if d == 7 {
        '7'
    } else if d == 8 {
        '8'
    } else {
        '9'
    }
}

/// Whether `c` is an ASCII digit.
fn digit(c: char) -> (r: bool)
    ensures
        r == is_digit(c),
{
    c == '0' || c == '1' || c == '2' || c == '3' || c == '4' || c == '5' || c == '6' || c == '7'
        || c == '8' || c == '9'
}

/// Whether `s` is six ASCII digits.
fn all_digits(s: &str) -> (r: bool)
    ensures
        r == code_text(s@),
{
    let n: usize = s.unicode_len();
    if n != CODE_LENGTH {
        return false;
    }
    let mut i: usize = 0;
    while i < n
        invariant
            n == s@.len(),
            n == CODE_LENGTH,
            i <= n,
            forall|j: int| 0 <= j < i ==> is_digit(#[trigger] s@[j]),
        decreases n - i,
    {
        if !digit(s.get_char(i)) {
            return false;
        }
        i += 1;
    }
    true
}

} // verus!
