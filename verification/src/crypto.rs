//! Trusted boundary to the credential and token primitives: password hashing
//! and verification, operating-system randomness, and base64 encoding. Each
//! item's contract states only what the outside crate's source shows.

use vstd::prelude::*;
use vstd::string::StringSliceAdditionalSpecFns;
use rand::RngCore;
use base64::Engine;

verus! {

/// The encoded hash `argon2::hash_encoded` returns for a password and a salt
/// under the crate's default configuration; it depends on those two arguments
/// alone.
pub uninterp spec fn argon2_encoded(pwd: Seq<u8>, salt: Seq<u8>) -> Seq<char>;

/// Whether `argon2::verify_encoded` accepts a password against an encoded
/// hash; it depends on those two arguments alone.
pub uninterp spec fn argon2_verifies(encoded: Seq<char>, pwd: Seq<u8>) -> bool;

/// Whether the verifier can use an encoded hash at all: it decodes, and the
/// parameters it carries pass the same validation hashing uses. A property of
/// the encoded string alone.
pub uninterp spec fn argon2_decodable(encoded: Seq<char>) -> bool;

/// The string base64's standard engine encodes a byte sequence to; it depends
/// on the bytes alone.
pub uninterp spec fn base64_standard(bytes: Seq<u8>) -> Seq<char>;

/// The error type of the argon2 crate, carried through opaquely.
#[verifier::external_type_specification]
#[verifier::external_body]
pub struct ExArgonError(argon2::Error);

/// Relies on `argon2::hash_encoded` with `Config::default()`: its validation
/// accepts any salt of 8 to 2^32 - 1 bytes and any password of at most
/// 2^32 - 1 bytes (the default configuration satisfies every other check), and
/// the encoded hash is a function of the password and the salt.
#[verifier::external_body]
pub(crate) fn argon2_hash(pwd: &str, salt: &Vec<u8>) -> (r: String)
    requires
        8 <= salt@.len() <= 0xFFFF_FFFFu64,
        pwd.spec_bytes().len() <= 0xFFFF_FFFFu64,
    ensures
        r@ == argon2_encoded(pwd.spec_bytes(), salt@),
{
    let config = argon2::Config::default();
    argon2::hash_encoded(pwd.as_bytes(), salt, &config).unwrap()
}

/// Relies on `argon2::verify_encoded`: acceptance is a function of the encoded
/// hash and the password; the call succeeds exactly when the encoded hash
/// decodes to usable parameters and the password is within the crate's
/// 2^32 - 1 byte bound (its source decodes the string, re-validates the
/// decoded parameters and the password length, then recomputes
/// deterministically); an empty encoded string cannot be decoded, so it always
/// yields an error.
#[verifier::external_body]
pub(crate) fn argon2_verify(encoded: &str, pwd: &str) -> (r: Result<bool, argon2::Error>)
    ensures
        r matches Ok(b) ==> b == argon2_verifies(encoded@, pwd.spec_bytes()),
        r is Ok <==> (argon2_decodable(encoded@) && pwd.spec_bytes().len() <= 0xFFFF_FFFFu64),
        encoded@.len() == 0 ==> r is Err,
{
    argon2::verify_encoded(encoded, pwd.as_bytes())
}

/// Relies on `argon2::Error`'s `Display` impl: each error renders as a fixed
/// description; nothing is assumed of the text.
#[verifier::external_body]
pub(crate) fn argon2_error_message(e: &argon2::Error) -> String {
    e.to_string()
}

/// Relies on rand's `OsRng` (`RngCore::fill_bytes`): it fills the buffer from
/// the operating system's randomness source; nothing is assumed of the values.
#[verifier::external_body]
pub(crate) fn os_random_bytes(n: usize) -> (r: Vec<u8>)
    ensures
        r@.len() == n,
{
    let mut buf = vec![0u8; n];
    rand::rngs::OsRng.fill_bytes(&mut buf);
    buf
}

/// Relies on base64's standard engine `encode`: the output is a function of
/// the input bytes alone, four characters for every started group of three
/// bytes (the standard engine pads).
#[verifier::external_body]
pub(crate) fn base64_encode(bytes: &Vec<u8>) -> (r: String)
    ensures
        r@ == base64_standard(bytes@),
        r@.len() == 4 * ((bytes@.len() + 2) / 3),
{
    base64::prelude::BASE64_STANDARD.encode(bytes)
}

/// Whether chrono can represent a timestamp of this many milliseconds since
/// the epoch.
pub uninterp spec fn chrono_millis_representable(ms: i64) -> bool;

/// Relies on chrono's `DateTime::<Utc>::from_timestamp_millis`: it returns
/// `Some` exactly on the timestamps chrono can represent, a property of the
/// argument alone.
#[verifier::external_body]
pub(crate) fn timestamp_millis_representable(ms: i64) -> (r: bool)
    ensures
        r == chrono_millis_representable(ms),
{
    chrono::DateTime::<chrono::Utc>::from_timestamp_millis(ms).is_some()
}

} // verus!
