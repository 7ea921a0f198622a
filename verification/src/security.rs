//! Password hashing and verification with Argon2.
//!
//! The hash function itself is the `argon2` crate's, and what it computes is
//! taken on trust: that a text parses, that a password is accepted, which
//! hash a password and a salt give, and that a hash accepts the password it
//! was made from. What is proved here is what the service makes of those
//! answers: which error a malformed hash gives, that a mismatch is `false`
//! and no error, and which error a refused salt gives.

use argon2::password_hash::{PasswordHasher, PasswordVerifier};
use vstd::prelude::*;
use vstd::string::*;

verus! {

/// The error type of the `password-hash` crate, as `argon2` re-exports it.
#[verifier::external_type_specification]
#[verifier::external_body]
pub struct ExPasswordHashError(argon2::password_hash::Error);

/// Whether `text` parses as a password hash in PHC string format.
pub uninterp spec fn phc_parses(text: Seq<char>) -> bool;

/// Whether Argon2, run with the parameters and the salt that the PHC string
/// `text` carries, computes from `password` the output that `text` carries.
pub uninterp spec fn argon2_accepts(password: Seq<char>, text: Seq<char>) -> bool;

/// The PHC string that Argon2id computes with its default parameters from
/// `password` and the B64 salt `salt`, or `None` where it refuses them.
pub uninterp spec fn argon2_phc(password: Seq<char>, salt: Seq<char>) -> Option<Seq<char>>;

/// Why a password could not be hashed or a hash could not be read. The text
/// is the hash library's own account and is no part of the value.
#[derive(Debug, PartialEq, Eq)]
pub enum PasswordError {
    /// The hash function refused the password or the salt.
    HashFailed(String),
    /// The stored hash is no PHC string.
    InvalidHash(String),
}

/// The mathematical value of a `PasswordError`: which of the two it is.
pub enum PasswordErrorView {
    HashFailed,
    InvalidHash,
}

impl View for PasswordError {
    type V = PasswordErrorView;

    open spec fn view(&self) -> PasswordErrorView {
        match *self {
            PasswordError::HashFailed(_) => PasswordErrorView::HashFailed,
            PasswordError::InvalidHash(_) => PasswordErrorView::InvalidHash,
        }
    }
}

impl PasswordError {
    /// The text of the message: what went wrong, a colon and the hash
    /// library's account.
    pub open spec fn message_text(&self) -> Seq<char> {
        match *self {
            PasswordError::HashFailed(detail) => "Failed to hash password: "@ + detail@,
            PasswordError::InvalidHash(detail) => "Invalid password hash: "@ + detail@,
        }
    }

    /// The message of the error.
    pub fn message(&self) -> (text: String)
        ensures
            text@ == self.message_text(),
    {
        match self {
            PasswordError::HashFailed(detail) => {
                let mut text = String::from_str("Failed to hash password: ");
                text.append(detail.as_str());
                text
            },
            PasswordError::InvalidHash(detail) => {
                let mut text = String::from_str("Invalid password hash: ");
                text.append(detail.as_str());
                text
            },
        }
    }
}

/// Draws a fresh random salt in B64 form.
///
/// Trusted: the body calls `SaltString::generate` of `password-hash` on the
/// operating system's random number generator. The contract claims nothing
/// of the salt: two calls differ.
#[verifier::external_body]
fn fresh_salt() -> (salt: String) {
    let salt = argon2::password_hash::SaltString::generate(
        &mut argon2::password_hash::rand_core::OsRng,
    );
    salt.as_str().to_owned()
}

/// Hashes `password` with `salt` and writes the result as a PHC string.
///
/// Trusted: the body reads the salt with `SaltString::from_b64` and calls
/// `PasswordHasher::hash_password` on `Argon2::default()`. The contract
/// claims that the call succeeds exactly where `argon2_phc` names a result,
/// and that the result is the one named. It further claims what the hash
/// library's documentation shows by example: the string it returns parses,
/// and the same password verifies against it.
#[verifier::external_body]
fn argon2_hash(password: &str, salt: &str) -> (hashed: Result<
    String,
    argon2::password_hash::Error,
>)
    ensures
        hashed is Ok <==> argon2_phc(password@, salt@) is Some,
        hashed matches Ok(text) ==> argon2_phc(password@, salt@) == Some(text@),
        hashed matches Ok(text) ==> phc_parses(text@) && argon2_accepts(password@, text@),
{
    let salt = argon2::password_hash::SaltString::from_b64(salt)?;
    let hash = argon2::Argon2::default().hash_password(password.as_bytes(), &salt)?;
    Ok(hash.to_string())
}

/// Reads `text` as a PHC string and says whether it is one.
///
/// Trusted: the body calls `PasswordHash::new` of `password-hash`. The
/// contract claims that it succeeds exactly on the texts that `phc_parses`
/// names.
#[verifier::external_body]
fn read_phc(text: &str) -> (read: Result<(), argon2::password_hash::Error>)
    ensures
        read is Ok <==> phc_parses(text@),
{
    match argon2::password_hash::PasswordHash::new(text) {
        Ok(_) => Ok(()),
        Err(error) => Err(error),
    }
}

/// Verifies `password` against the PHC string `text`.
///
/// Trusted: the body parses `text` with `PasswordHash::new` and calls
/// `PasswordVerifier::verify_password` on `Argon2::default()`, which
/// recomputes the hash with the parameters and salt of `text`. The contract
/// claims that the answer is the one `argon2_accepts` names; any refusal,
/// a mismatch as much as a text that does not parse, is `false`. The memory
/// that the call needs is set by the parameters in `text`.
#[verifier::external_body]
fn argon2_verify(password: &str, text: &str) -> (accepted: bool)
    ensures
        accepted == argon2_accepts(password@, text@),
{
    match argon2::password_hash::PasswordHash::new(text) {
        Ok(parsed) => argon2::Argon2::default().verify_password(password.as_bytes(), &parsed).is_ok(),
        Err(_) => false,
    }
}

/// The hash library's account of one of its errors.
///
/// Trusted: the body formats the error with its `Display` impl. The
/// contract claims nothing of the text.
#[verifier::external_body]
fn describe(error: &argon2::password_hash::Error) -> (text: String) {
    error.to_string()
}

/// What hashing `password` with `salt` returns: the PHC string that Argon2
/// computes, or `HashFailed` where it refuses the two.
pub open spec fn hashed_with(password: Seq<char>, salt: Seq<char>) -> Result<
    Seq<char>,
    PasswordErrorView,
> {
    match argon2_phc(password, salt) {
        Some(text) => Ok(text),
        None => Err(PasswordErrorView::HashFailed),
    }
}

/// What verifying `password` against `hash` returns: `InvalidHash` where the
/// hash is no PHC string, else whether Argon2 accepts the password.
pub open spec fn verified_against(password: Seq<char>, hash: Seq<char>) -> Result<
    bool,
    PasswordErrorView,
> {
    if phc_parses(hash) {
        Ok(argon2_accepts(password, hash))
    } else {
        Err(PasswordErrorView::InvalidHash)
    }
}

/// The view of a hashing result.
pub open spec fn hash_result_view(result: Result<String, PasswordError>) -> Result<
    Seq<char>,
    PasswordErrorView,
> {
    match result {
        Ok(text) => Ok(text@),
        Err(error) => Err(error@),
    }
}

/// The view of a verification result.
pub open spec fn check_result_view(result: Result<bool, PasswordError>) -> Result<
    bool,
    PasswordErrorView,
> {
    match result {
        Ok(accepted) => Ok(accepted),
        Err(error) => Err(error@),
    }
}

/// Hashes `raw_password` with the given B64 salt.
pub fn hash_password_with_salt(raw_password: &str, salt: &str) -> (hashed: Result<
    String,
    PasswordError,
>)
    ensures
        hash_result_view(hashed) == hashed_with(raw_password@, salt@),
        hashed matches Ok(text) ==> verified_against(raw_password@, text@) == Ok::<
            bool,
            PasswordErrorView,
        >(true),
{
    match argon2_hash(raw_password, salt) {
        Ok(text) => Ok(text),
        Err(error) => Err(PasswordError::HashFailed(describe(&error))),
    }
}

/// Hashes `raw_password` with a fresh random salt.
///
/// The salt is drawn anew at each call, so the hash is not determined by the
/// password. What holds whatever salt was drawn: the result is what hashing
/// the password with some salt returns, and a hash that comes back is a PHC
/// string against which the password verifies.
pub fn hash_password(raw_password: &str) -> (hashed: Result<String, PasswordError>)
    ensures
        (exists|salt: Seq<char>|
            hash_result_view(hashed) == #[trigger] hashed_with(raw_password@, salt)),
        hashed matches Ok(text) ==> verified_against(raw_password@, text@) == Ok::<
            bool,
            PasswordErrorView,
        >(true),
        hashed matches Err(error) ==> error@ == PasswordErrorView::HashFailed,
{
    let salt = fresh_salt();
    hash_password_with_salt(raw_password, salt.as_str())
}

/// Verifies `raw_password` against the stored hash. A mismatch is
/// `Ok(false)`; only a hash that cannot be read is an error.
pub fn verify_password(raw_password: &str, password_hash: &str) -> (checked: Result<
    bool,
    PasswordError,
>)
    ensures
        check_result_view(checked) == verified_against(raw_password@, password_hash@),
{
    match read_phc(password_hash) {
        Ok(()) => Ok(argon2_verify(raw_password, password_hash)),
        Err(error) => Err(PasswordError::InvalidHash(describe(&error))),
    }
}

impl Clone for PasswordError {
    fn clone(&self) -> (copy: PasswordError)
        ensures
            copy == *self,
    {
        match self {
            PasswordError::HashFailed(detail) => PasswordError::HashFailed(detail.clone()),
            PasswordError::InvalidHash(detail) => PasswordError::InvalidHash(detail.clone()),
        }
    }
}

} // verus!
