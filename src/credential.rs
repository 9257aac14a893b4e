use vstd::prelude::*;
use argon2::password_hash::rand_core::OsRng;
use argon2::password_hash::{PasswordHash, PasswordHasher, PasswordVerifier, SaltString};
use argon2::Argon2;

verus! {

/// Whether `artifact`, a PHC-format argon2 hash string, verifies against
/// `password`.
pub uninterp spec fn password_matches(password: Seq<char>, artifact: Seq<char>) -> bool;

/// Why a credential could not be produced.
#[derive(Debug, Clone, Copy, PartialEq, Eq, Structural)]
pub enum CredentialError {
    /// The password is empty; no hash is made of an empty secret.
    EmptyPassword,
    /// The hashing primitive reported an error.
    HashingFailed,
}

/// Relies on argon2's `PasswordHasher::hash_password` (argon2id, default
/// parameters) over a salt drawn by `SaltString::generate` from the OS random
/// source: on success the PHC string it serialises to is non-empty and, by the
/// way the hash is computed, verifies against the password it was made from.
#[verifier::external_body]
fn argon2_hash(password: &str) -> (r: Option<String>)
    ensures
        r matches Some(a) ==> a@.len() > 0 && password_matches(password@, a@),
{
    let salt = SaltString::generate(&mut OsRng);
    Argon2::default().hash_password(password.as_bytes(), &salt).ok().map(|h| h.to_string())
}

/// Relies on argon2's `PasswordVerifier::verify_password` after
/// `PasswordHash::new` parses the artifact: the answer depends on the two
/// strings alone; an artifact that does not parse verifies nothing.
#[verifier::external_body]
fn argon2_verify(password: &str, artifact: &str) -> (r: bool)
    ensures
        r == password_matches(password@, artifact@),
{
    match PasswordHash::new(artifact) {
        Ok(parsed) => Argon2::default().verify_password(password.as_bytes(), &parsed).is_ok(),
        Err(_) => false,
    }
}

/// Whether `password` is accepted against `artifact`: an empty password
/// never is.
pub open spec fn accepts(password: Seq<char>, artifact: Seq<char>) -> bool {
    password.len() > 0 && password_matches(password, artifact)
}

/// Produces salted, slow (argon2id) password hashes and checks passwords
/// against them.
pub struct CredentialHasher {}

impl CredentialHasher {
    pub fn new() -> (h: CredentialHasher) {
        CredentialHasher {}
    }

    /// Hashes a password into a self-describing artifact. An empty password is
    /// refused before any hashing.
    pub fn hash(&self, password: &str) -> (r: Result<String, CredentialError>)
        ensures
            password@.len() == 0 <==> r == Err::<String, CredentialError>(CredentialError::EmptyPassword),
            r matches Err(e) ==> e == CredentialError::EmptyPassword || e == CredentialError::HashingFailed,
            r matches Ok(a) ==> a@.len() > 0 && accepts(password@, a@),
    {
        if password.is_empty() {
            return Err(CredentialError::EmptyPassword);
        }
        match argon2_hash(password) {
            Some(a) => Ok(a),
            None => Err(CredentialError::HashingFailed),
        }
    }

    /// Checks a password against an artifact made by `hash`.
    pub fn verify(&self, password: &str, artifact: &str) -> (r: bool)
        ensures
            r == accepts(password@, artifact@),
    {
        if password.is_empty() {
            return false;
        }
        argon2_verify(password, artifact)
    }
}

/// An empty password is accepted against no artifact.
pub proof fn lemma_empty_password_never_accepted(artifact: Seq<char>)
    ensures
        !accepts(Seq::<char>::empty(), artifact),
{
}

} // verus!
