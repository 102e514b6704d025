//! Passcodes: what one looks like, and how one is hashed and verified.

use vstd::prelude::*;

use crate::text::char_vec;

use argon2::{Argon2, PasswordHasher, PasswordVerifier};
use password_hash::{PasswordHash, Salt, SaltString};
use rand_core::OsRng;

verus! {

/// Five ASCII digits.
pub open spec fn five_digits(s: Seq<char>) -> bool {
    &&& s.len() == 5
    &&& forall|i: int| 0 <= i < 5 ==> '0' <= #[trigger] s[i] <= '9'
}

/// A character of the standard Base64 alphabet.
pub open spec fn is_base64_char(c: char) -> bool {
    'A' <= c <= 'Z' || 'a' <= c <= 'z' || '0' <= c <= '9' || c == '+' || c == '/'
}

/// The unpadded Base64 text of sixteen bytes: the last character carries two
/// bits, and its other four are zero.
pub open spec fn is_salt(s: Seq<char>) -> bool {
    &&& s.len() == 22
    &&& forall|i: int| 0 <= i < 22 ==> is_base64_char(#[trigger] s[i])
    &&& s[21] == 'A' || s[21] == 'Q' || s[21] == 'g' || s[21] == 'w'
}

/// A lane count is given at `i`: the value of a parameter named `p`.
pub open spec fn names_lanes_at(hash: Seq<char>, i: int) -> bool {
    &&& 1 <= i
    &&& i + 2 <= hash.len()
    &&& hash[i - 1] == '$' || hash[i - 1] == ','
    &&& hash[i] == 'p'
    &&& hash[i + 1] == '='
}

/// Nine digits stand at `from`.
pub open spec fn nine_digits_at(hash: Seq<char>, from: int) -> bool {
    &&& from + 9 <= hash.len()
    &&& forall|k: int| from <= k < from + 9 ==> '0' <= #[trigger] hash[k] <= '9'
}

/// The last lane count that a hash gives, which is the one that counts, has nine
/// digits or more.
pub open spec fn has_long_lane_count(hash: Seq<char>) -> bool {
    exists|i: int|
        #![trigger names_lanes_at(hash, i)]
        names_lanes_at(hash, i) && nine_digits_at(hash, i + 2) && forall|j: int|
            j > i ==> !#[trigger] names_lanes_at(hash, j)
}

/// A result by its texts.
pub open spec fn result_text(r: Result<String, String>) -> Result<Seq<char>, Seq<char>> {
    match r {
        Ok(t) => Ok(t@),
        Err(t) => Err(t@),
    }
}

/// What hashing a passcode with a salt gives: the hash in PHC string format,
/// or the text of the error.
pub uninterp spec fn argon2_hash(passcode: Seq<char>, salt: Seq<char>) -> Result<
    Seq<char>,
    Seq<char>,
>;

/// Whether a text is a hash in PHC string format.
pub uninterp spec fn is_phc_string(hash: Seq<char>) -> bool;

/// Whether a passcode is the one that a hash was made of.
pub uninterp spec fn argon2_accepts(hash: Seq<char>, passcode: Seq<char>) -> bool;

/// `SaltString::generate` with the operating system's generator: the Base64
/// text of sixteen random bytes.
#[verifier::external_body]
fn generate_salt() -> (r: String)
    ensures
        is_salt(r@),
{
    SaltString::generate(&mut OsRng).as_str().to_owned()
}

/// `Argon2::hash_password` with the default parameters, and the text of the
/// hash. It succeeds with a generated salt on any passcode that is not
/// gigabytes long. The hash parses, names one lane, and is accepted with the
/// passcode that it was made of.
#[verifier::external_body]
fn hash_with_salt(passcode: &str, salt: &str) -> (r: Result<String, String>)
    ensures
        result_text(r) == argon2_hash(passcode@, salt@),
        is_salt(salt@) && passcode@.len() <= 0x3FFF_FFFF ==> r is Ok,
        r matches Ok(h) ==> is_phc_string(h@),
        r matches Ok(h) ==> !has_long_lane_count(h@),
        r matches Ok(h) ==> argon2_accepts(h@, passcode@),
{
    Salt::from_b64(salt)
        .and_then(|s| Argon2::default().hash_password(passcode.as_bytes(), s))
        .map(|h| h.to_string())
        .map_err(|e| e.to_string())
}

/// `PasswordHash::new`: whether the text parses as a PHC string.
#[verifier::external_body]
fn parses_as_phc(hash: &str) -> (r: bool)
    ensures
        r == is_phc_string(hash@),
{
    PasswordHash::new(hash).is_ok()
}

/// `PasswordVerifier::verify_password` of `Argon2`, with the parameters that
/// the hash names, the last where it names one more than once. The check of the
/// lane count multiplies it by eight in 32 bits, so counts of nine digits and
/// more are left out. Memory and time are what the hash asks for.
#[verifier::external_body]
fn accepts(hash: &str, passcode: &str) -> (r: bool)
    requires
        !has_long_lane_count(hash@),
    ensures
        r == argon2_accepts(hash@, passcode@),
{
    match PasswordHash::new(hash) {
        Ok(h) => Argon2::default().verify_password(passcode.as_bytes(), &h).is_ok(),
        Err(_) => false,
    }
}

/// Whether `s` is exactly five ASCII digits.
pub fn is_five_digit_passcode(s: &str) -> (r: bool)
    ensures
        r == five_digits(s@),
{
    let count = s.unicode_len();
    if count != 5 {
        return false;
    }
    let mut i: usize = 0;
    while i < 5
        invariant
            i <= 5,
            s@.len() == 5,
            forall|k: int| 0 <= k < i ==> '0' <= #[trigger] s@[k] <= '9',
        decreases 5 - i,
    {
        let c = s.get_char(i);
        if !('0' <= c && c <= '9') {
            return false;
        }
        i += 1;
    }
    true
}

/// Draws a fresh salt.
pub fn fresh_salt() -> (r: String)
    ensures
        is_salt(r@),
{
    generate_salt()
}

/// Hashes a passcode with a salt.
pub fn hash_passcode_with(passcode: &str, salt: &str) -> (r: Result<String, String>)
    ensures
        result_text(r) == argon2_hash(passcode@, salt@),
        is_salt(salt@) && passcode@.len() <= 0x3FFF_FFFF ==> r is Ok,
        r matches Ok(h) ==> passcode_matches(h@, passcode@) == Some(true),
{
    hash_with_salt(passcode, salt)
}

/// Hashes a passcode with a salt of its own.
pub fn hash_passcode(passcode: &str) -> (r: Result<String, String>)
    ensures
        exists|salt: Seq<char>|
            is_salt(salt) && result_text(r) == #[trigger] argon2_hash(passcode@, salt),
        passcode@.len() <= 0x3FFF_FFFF ==> r is Ok,
        r matches Ok(h) ==> passcode_matches(h@, passcode@) == Some(true),
{
    let salt = fresh_salt();
    hash_passcode_with(passcode, salt.as_str())
}

/// The answer to "is this the passcode of that hash": none where the hash does
/// not parse, and no where it asks for more lanes than there may be.
pub open spec fn passcode_matches(hash: Seq<char>, passcode: Seq<char>) -> Option<bool> {
    if !is_phc_string(hash) {
        None
    } else {
        Some(!has_long_lane_count(hash) && argon2_accepts(hash, passcode))
    }
}

/// Why a passcode could not be checked against a hash.
#[derive(Clone, Copy, Debug, PartialEq, Eq, Structural)]
pub enum VerifyError {
    /// The hash does not parse.
    ParsePasscodeHash,
}

impl VerifyError {
    /// The text of the error.
    pub open spec fn text_spec(self) -> Seq<char> {
        "parse passcode hash"@
    }

    /// The text of the error.
    pub fn text(&self) -> (r: &'static str)
        ensures
            r@ == self.text_spec(),
    {
        "parse passcode hash"
    }
}

/// Whether nine digits stand at `from`.
fn finds_nine_digits(chars: &Vec<char>, from: usize) -> (r: bool)
    requires
        from <= chars@.len(),
    ensures
        r == nine_digits_at(chars@, from as int),
{
    if chars.len() - from < 9 {
        return false;
    }
    let mut k: usize = 0;
    while k < 9
        invariant
            k <= 9,
            from + 9 <= chars.len(),
            forall|m: int| from <= m < from + k ==> '0' <= #[trigger] chars@[m] <= '9',
        decreases 9 - k,
    {
        let c = chars[from + k];
        if c < '0' || c > '9' {
            return false;
        }
        k += 1;
    }
    true
}

/// Whether the last lane count that a hash gives has nine digits or more.
fn finds_long_lane_count(hash: &str) -> (r: bool)
    ensures
        r == has_long_lane_count(hash@),
{
    let chars = char_vec(hash);
    let mut i: usize = chars.len();
    while i > 1
        invariant
            chars@ == hash@,
            i <= chars@.len(),
            forall|j: int| j >= i ==> !#[trigger] names_lanes_at(hash@, j),
        decreases i,
    {
        i -= 1;
        if chars.len() - i >= 2 && (chars[i - 1] == '$' || chars[i - 1] == ',') && chars[i] == 'p'
            && chars[i + 1] == '=' {
            assert(names_lanes_at(hash@, i as int));
            return finds_nine_digits(&chars, i + 2);
        }
        assert(!names_lanes_at(hash@, i as int));
    }
    false
}

/// Whether `passcode` is the one that `hash` was made of.
pub fn verify_passcode(hash: &str, passcode: &str) -> (r: Result<bool, VerifyError>)
    ensures
        r == (match passcode_matches(hash@, passcode@) {
            Some(b) => Ok::<bool, VerifyError>(b),
            None => Err::<bool, VerifyError>(VerifyError::ParsePasscodeHash),
        }),
{
    if !parses_as_phc(hash) {
        Err(VerifyError::ParsePasscodeHash)
    } else if finds_long_lane_count(hash) {
        Ok(false)
    } else {
        Ok(accepts(hash, passcode))
    }
}

} // verus!
