//! Password hashing with Argon2id (PHC string format, random salt).

use vstd::prelude::*;
use crate::errors::{AppError, AppErrorView};
use argon2::password_hash::{rand_core::OsRng, PasswordHash, PasswordHasher, PasswordVerifier, SaltString};

verus! {

/// Why `password_hash::PasswordHash::new` refuses a string (the text of its
/// error), or nothing when the string is a well-formed PHC hash.
pub uninterp spec fn spec_phc_parse_error(hash: Seq<char>) -> Option<Seq<char>>;

/// Whether `Argon2::default().verify_password` accepts the password against
/// a well-formed PHC hash.
pub uninterp spec fn spec_argon2_verifies(password: Seq<char>, hash: Seq<char>) -> bool;

/// Checks a password against a stored hash (`PasswordHash::new`, then
/// `Argon2::verify_password`). The contract names both outcomes: the parse
/// error of a malformed hash, and whether a well-formed one matches.
#[verifier::external_body]
fn argon2_verify(password: &str, hash: &str) -> (r: Result<bool, String>)
    ensures
        match spec_phc_parse_error(hash@) {
            Some(m) => (r matches Err(e) && e@ == m),
            None => r == Ok::<bool, String>(spec_argon2_verifies(password@, hash@)),
        },
{
    match PasswordHash::new(hash) {
        Ok(parsed) => Ok(argon2::Argon2::default().verify_password(password.as_bytes(), &parsed).is_ok()),
        Err(e) => Err(e.to_string()),
    }
}

/// The PHC prefix of an Argon2id hash made with the default parameters
/// (version 0x13, 19 MiB of memory, 2 passes, 1 lane).
pub open spec fn argon2id_default_prefix() -> Seq<char> {
    "$argon2id$v=19$m=19456,t=2,p=1$"@
}

/// A character of the standard Base64 alphabet (`A`-`Z`, `a`-`z`, `0`-`9`, `+`, `/`).
pub open spec fn is_b64_char(c: char) -> bool {
    let n = c as u32;
    ||| 0x41 <= n <= 0x5A
    ||| 0x61 <= n <= 0x7A
    ||| 0x30 <= n <= 0x39
    ||| n == 0x2B
    ||| n == 0x2F
}

/// Text made only of Base64 characters (the "B64" of PHC strings: standard
/// Base64 without padding).
pub open spec fn is_b64_text(s: Seq<char>) -> bool {
    forall|i: int| 0 <= i < s.len() ==> is_b64_char(#[trigger] s[i])
}

/// The shape of an Argon2id PHC string made with the default parameters: the
/// default-parameter prefix, then the 16-byte salt in B64 (22 characters),
/// `$`, and the 32-byte output in B64 (43 characters).
pub open spec fn is_argon2id_default_hash(h: Seq<char>) -> bool {
    let p = argon2id_default_prefix().len() as int;
    &&& h.len() == p + 22 + 1 + 43
    &&& h.subrange(0, p) == argon2id_default_prefix()
    &&& is_b64_text(h.subrange(p, p + 22))
    &&& h[p + 22] == '$'
    &&& is_b64_text(h.subrange(p + 23, h.len() as int))
}

/// The longest password Argon2 accepts, in bytes (`argon2::MAX_PWD_LEN`).
pub open spec fn max_password_bytes() -> nat {
    0xFFFF_FFFF
}

/// Hashes a password with Argon2id default parameters and a fresh random
/// salt (`SaltString::generate(&mut OsRng)`, `Argon2::hash_password`, then the
/// PHC `Display`). Hashing succeeds for every password of at most
/// `MAX_PWD_LEN` bytes: the generated salt is 16 bytes, within Argon2's salt
/// limits, and the default parameters are valid. A hash is a well-formed PHC
/// string: the Argon2id default-parameter prefix, the 16 salt bytes in B64,
/// `$`, and the 32 output bytes (`Params::DEFAULT_OUTPUT_LEN`) in B64; and
/// the password verifies against it. The salt is random, so which B64 texts
/// come out is not stated, nor the text of a failure.
#[verifier::external_body]
fn argon2_hash(password: &str) -> (r: Result<String, String>)
    ensures
        vstd::utf8::encode_utf8(password@).len() <= max_password_bytes() ==> r is Ok,
        r matches Ok(h) ==> spec_phc_parse_error(h@) is None && spec_argon2_verifies(password@, h@)
            && is_argon2id_default_hash(h@),
{
    let salt = SaltString::generate(&mut OsRng);
    argon2::Argon2::default()
        .hash_password(password.as_bytes(), &salt)
        .map(|h| h.to_string())
        .map_err(|e| e.to_string())
}

/// What checking a password against a stored hash gives: an internal error
/// for a malformed hash, otherwise whether the password matches.
pub open spec fn spec_verify_password(password: Seq<char>, hash: Seq<char>) -> Result<bool, AppErrorView> {
    match spec_phc_parse_error(hash) {
        Some(m) => Err(AppErrorView::Internal("Invalid password hash format: "@ + m)),
        None => Ok(spec_argon2_verifies(password, hash)),
    }
}

/// The mathematical form of a verification result.
pub open spec fn bool_result_view(r: Result<bool, AppError>) -> Result<bool, AppErrorView> {
    match r {
        Ok(b) => Ok(b),
        Err(e) => Err(e@),
    }
}

/// Hashes a password (Argon2id, random salt, PHC string). It succeeds for
/// every password of at most 4 GiB.
pub fn hash_password(password: &str) -> (r: Result<String, AppError>)
    ensures
        vstd::utf8::encode_utf8(password@).len() <= max_password_bytes() ==> r is Ok,
        r matches Ok(h) ==> spec_verify_password(password@, h@) == Ok::<bool, AppErrorView>(true)
            && is_argon2id_default_hash(h@),
        r matches Err(e) ==> e@ matches AppErrorView::Internal(m) && m.len() >= "Password hashing failed: "@.len()
            && m.subrange(0, "Password hashing failed: "@.len() as int) == "Password hashing failed: "@,
{
    match argon2_hash(password) {
        Ok(h) => Ok(h),
        Err(e) => {
            let mut m = String::from_str("Password hashing failed: ");
            m.append(e.as_str());
            assert(m@.subrange(0, "Password hashing failed: "@.len() as int) =~= "Password hashing failed: "@);
            Err(AppError::Internal(m))
        },
    }
}

/// Checks a password against a stored hash.
pub fn verify_password(password: &str, hash: &str) -> (r: Result<bool, AppError>)
    ensures
        bool_result_view(r) == spec_verify_password(password@, hash@),
{
    match argon2_verify(password, hash) {
        Ok(b) => Ok(b),
        Err(e) => {
            let mut m = String::from_str("Invalid password hash format: ");
            m.append(e.as_str());
            Err(AppError::Internal(m))
        },
    }
}

/// A password always verifies against a hash made of it.
pub proof fn law_hash_then_verify(password: Seq<char>, hash: Seq<char>)
    requires
        spec_phc_parse_error(hash) is None,
        spec_argon2_verifies(password, hash),
    ensures
        spec_verify_password(password, hash) == Ok::<bool, AppErrorView>(true),
{
}

} // verus!
