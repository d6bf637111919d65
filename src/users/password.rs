use vstd::prelude::*;
use vstd::utf8::encode_utf8;
use crate::users::hashing::{hash, sha256_hex};
use crate::users::pattern::{is_found, pattern_found};

verus! {

/// Fewest bytes a password may have.
pub const MIN_PASSWORD_LEN: usize = 6;

pub const NUMBER_PATTERN: &'static str = r"\d";

pub const LOWERCASE_PATTERN: &'static str = r"[a-z]";

pub const UPPERCASE_PATTERN: &'static str = r"[A-Z]";

/// A rule that a password breaks.
#[derive(Debug, Clone, Copy, PartialEq, Eq, Structural)]
pub enum PasswordErrorType {
    TooShort,
    MustContainNumber,
    MustContainLowercase,
    MustContainUppercase,
    MustContainUnderscore,
}

/// The rules that a password breaks, in the order in which they are checked.
#[derive(Debug, PartialEq)]
pub struct PasswordError {
    pub errors: Vec<PasswordErrorType>,
}

/// A password, held only as the hash of its text.
#[derive(Debug, Clone)]
pub struct Password(String);

impl View for Password {
    type V = Seq<char>;

    closed spec fn view(&self) -> Seq<char> {
        self.0@
    }
}

pub open spec fn flag_error(holds: bool, e: PasswordErrorType) -> Seq<PasswordErrorType> {
    if holds {
        Seq::empty()
    } else {
        seq![e]
    }
}

/// The rules broken, given whether each of them holds.
pub open spec fn strength_errors(
    long_enough: bool,
    has_number: bool,
    has_lowercase: bool,
    has_uppercase: bool,
    has_underscore: bool,
) -> Seq<PasswordErrorType> {
    flag_error(long_enough, PasswordErrorType::TooShort) + flag_error(
        has_number,
        PasswordErrorType::MustContainNumber,
    ) + flag_error(has_lowercase, PasswordErrorType::MustContainLowercase) + flag_error(
        has_uppercase,
        PasswordErrorType::MustContainUppercase,
    ) + flag_error(has_underscore, PasswordErrorType::MustContainUnderscore)
}

/// The rules that a password text breaks.
pub open spec fn password_errors(plaintext: Seq<char>) -> Seq<PasswordErrorType> {
    strength_errors(
        encode_utf8(plaintext).len() >= MIN_PASSWORD_LEN,
        pattern_found(NUMBER_PATTERN@, plaintext),
        pattern_found(LOWERCASE_PATTERN@, plaintext),
        pattern_found(UPPERCASE_PATTERN@, plaintext),
        plaintext.contains('_'),
    )
}

pub open spec fn error_message(e: PasswordErrorType) -> Seq<char> {
    match e {
        PasswordErrorType::TooShort => "is too short"@,
        PasswordErrorType::MustContainNumber => "must contain a number"@,
        PasswordErrorType::MustContainLowercase => "must contain a lowercase"@,
        PasswordErrorType::MustContainUppercase => "must contain a uppercase"@,
        PasswordErrorType::MustContainUnderscore => "must contain an underscore"@,
    }
}

/// The messages of the first `n` errors, separated by a comma and a space.
pub open spec fn joined_messages(errors: Seq<PasswordErrorType>, n: nat) -> Seq<char>
    decreases n,
{
    if n == 0 {
        Seq::empty()
    } else if n == 1 {
        error_message(errors[0])
    } else {
        joined_messages(errors, (n - 1) as nat) + ", "@ + error_message(errors[n - 1])
    }
}

/// The rules broken, given whether each of them holds, in the order in which they
/// are checked.
pub fn strength_errors_of(
    long_enough: bool,
    has_number: bool,
    has_lowercase: bool,
    has_uppercase: bool,
    has_underscore: bool,
) -> (r: Vec<PasswordErrorType>)
    ensures
        r@ == strength_errors(long_enough, has_number, has_lowercase, has_uppercase, has_underscore),
{
    let mut errors: Vec<PasswordErrorType> = Vec::new();
    if !long_enough {
        errors.push(PasswordErrorType::TooShort);
    }
    if !has_number {
        errors.push(PasswordErrorType::MustContainNumber);
    }
    if !has_lowercase {
        errors.push(PasswordErrorType::MustContainLowercase);
    }
    if !has_uppercase {
        errors.push(PasswordErrorType::MustContainUppercase);
    }
    if !has_underscore {
        errors.push(PasswordErrorType::MustContainUnderscore);
    }
    assert(errors@ =~= strength_errors(
        long_enough,
        has_number,
        has_lowercase,
        has_uppercase,
        has_underscore,
    ));
    errors
}

fn message_of(e: PasswordErrorType) -> (r: &'static str)
    ensures
        r@ == error_message(e),
{
    match e {
        PasswordErrorType::TooShort => "is too short",
        PasswordErrorType::MustContainNumber => "must contain a number",
        PasswordErrorType::MustContainLowercase => "must contain a lowercase",
        PasswordErrorType::MustContainUppercase => "must contain a uppercase",
        PasswordErrorType::MustContainUnderscore => "must contain an underscore",
    }
}

impl PasswordErrorType {
    pub fn to_string(&self) -> (r: String)
        ensures
            r@ == error_message(*self),
    {
        String::from_str(message_of(*self))
    }
}

impl PasswordError {
    /// `Password` followed by the message of each broken rule, separated by commas.
    pub fn to_string(&self) -> (r: String)
        ensures
            r@ == "Password "@ + joined_messages(self.errors@, self.errors@.len()),
    {
        let mut s = String::new();
        let mut i: usize = 0;
        while i < self.errors.len()
            invariant
                i <= self.errors@.len(),
                s@ == joined_messages(self.errors@, i as nat),
            decreases self.errors@.len() - i,
        {
            if i > 0 {
                s.append(", ");
            }
            s.append(message_of(self.errors[i]));
            i = i + 1;
        }
        let mut r = String::from_str("Password ");
        r.append(s.as_str());
        r
    }
}

impl Password {
    pub fn new(plaintext: String) -> (r: Result<Password, PasswordError>)
        ensures
            r is Ok <==> password_errors(plaintext@).len() == 0,
            r matches Ok(p) ==> p@ == sha256_hex(plaintext@),
            r matches Err(e) ==> e.errors@ == password_errors(plaintext@),
    {
        match Self::ensure_is_strong_password(plaintext.as_str()) {
            Ok(()) => Ok(Password(Self::hash_plaintext(plaintext.as_str()))),
            Err(e) => Err(e),
        }
    }

    fn hash_plaintext(plaintext: &str) -> (r: String)
        ensures
            r@ == sha256_hex(plaintext@),
    {
        hash(plaintext)
    }

    fn ensure_is_strong_password(plaintext: &str) -> (r: Result<(), PasswordError>)
        ensures
            r is Ok <==> password_errors(plaintext@).len() == 0,
            r matches Err(e) ==> e.errors@ == password_errors(plaintext@),
    {
        let accumulated_errors = strength_errors_of(
            Self::has_six_characters_or_more(plaintext),
            Self::contains_number(plaintext),
            Self::contains_lowercase(plaintext),
            Self::contains_uppercase(plaintext),
            Self::contains_underscore(plaintext),
        );
        if accumulated_errors.len() > 0 {
            Err(PasswordError { errors: accumulated_errors })
        } else {
            Ok(())
        }
    }

    fn has_six_characters_or_more(plaintext: &str) -> (r: bool)
        ensures
            r == (encode_utf8(plaintext@).len() >= MIN_PASSWORD_LEN),
    {
        plaintext.as_bytes().len() >= MIN_PASSWORD_LEN
    }

    fn contains_number(plaintext: &str) -> (r: bool)
        ensures
            r == pattern_found(NUMBER_PATTERN@, plaintext@),
    {
        is_found(NUMBER_PATTERN, plaintext)
    }

    fn contains_lowercase(plaintext: &str) -> (r: bool)
        ensures
            r == pattern_found(LOWERCASE_PATTERN@, plaintext@),
    {
        is_found(LOWERCASE_PATTERN, plaintext)
    }

    fn contains_uppercase(plaintext: &str) -> (r: bool)
        ensures
            r == pattern_found(UPPERCASE_PATTERN@, plaintext@),
    {
        is_found(UPPERCASE_PATTERN, plaintext)
    }

    fn contains_underscore(plaintext: &str) -> (r: bool)
        ensures
            r == plaintext@.contains('_'),
    {
        let n = plaintext.unicode_len();
        let mut i: usize = 0;
        while i < n
            invariant
                n == plaintext@.len(),
                i <= n,
                forall|j: int| 0 <= j < i ==> plaintext@[j] != '_',
            decreases n - i,
        {
            if plaintext.get_char(i) == '_' {
                return true;
            }
            i = i + 1;
        }
        false
    }

    /// A password of which only the hash is known, as it was kept.
    pub fn from_hash(hash: String) -> (r: Password)
        ensures
            r@ == hash@,
    {
        Password(hash)
    }

    /// The hash that stands for the password.
    pub fn to_string(&self) -> (r: String)
        ensures
            r@ == self@,
    {
        self.0.clone()
    }

    /// The same password, in a value of its own.
    pub fn duplicate(&self) -> (r: Password)
        ensures
            r@ == self@,
    {
        Password(self.0.clone())
    }
}

impl PartialEq for Password {
    fn eq(&self, other: &Password) -> (r: bool) {
        self.0 == other.0
    }
}

impl Eq for Password {
}

impl vstd::std_specs::cmp::PartialEqSpecImpl for Password {
    open spec fn obeys_eq_spec() -> bool {
        true
    }

    open spec fn eq_spec(&self, other: &Password) -> bool {
        self@ == other@
    }
}

} // verus!
