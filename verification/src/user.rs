//! User accounts at the core's boundary. Accounts live in the external user
//! store; the core only models the row it reads and checks credentials
//! against the stored password hash.

use vstd::prelude::*;

use crate::error::AzumaError;
use crate::ids::UserId;

verus! {

/// A user account row, with the password as its encoded Argon2 hash and the
/// creation time as Unix seconds.
#[derive(Clone, Debug)]
pub struct User {
    pub id: UserId,
    pub name: String,
    pub password: String,
    pub created_at: i64,
}

/// Whether `pwd` is the password hashed into the encoded Argon2 string
/// `encoded`: a function of the two arguments alone.
pub uninterp spec fn argon2_matches(encoded: Seq<char>, pwd: Seq<u8>) -> bool;

/// Whether `encoded` is a well-formed Argon2 hash encoding whose carried
/// parameters the verifier accepts: a function of the string alone.
pub uninterp spec fn argon2_encoded_valid(encoded: Seq<char>) -> bool;

#[verifier::external_type_specification]
#[verifier::external_body]
pub struct ExArgon2Error(argon2::Error);

/// Relies on `argon2::verify_encoded` (crate `rust-argon2`): it recomputes
/// the hash from the password and the parameters and salt carried in the
/// encoded string, so its verdict depends on the two arguments alone; it
/// fails exactly where the encoded string is undecodable or carries unusable
/// parameters, or the password exceeds the four-byte length field.
#[verifier::external_body]
fn argon2_verify_encoded(encoded: &str, pwd: &[u8]) -> (r: Result<bool, argon2::Error>)
    ensures
        (r is Ok) == (argon2_encoded_valid(encoded@) && pwd@.len() <= 0xFFFF_FFFF),
        r matches Ok(b) ==> b == argon2_matches(encoded@, pwd@),
{
    argon2::verify_encoded(encoded, pwd)
}

/// Relies on `argon2::hash_encoded` (crate `rust-argon2`): under the default
/// configuration only the password and salt length checks can fail, and on
/// success it returns the encoded hash of the password, which
/// `argon2::verify_encoded` decodes and verifies against that password.
#[verifier::external_body]
fn argon2_hash_encoded(pwd: &[u8], salt: &[u8]) -> (r: Result<String, argon2::Error>)
    ensures
        (r is Ok) == (pwd@.len() <= 0xFFFF_FFFF && 8 <= salt@.len() && salt@.len()
            <= 0xFFFF_FFFF),
        r matches Ok(s) ==> argon2_matches(s@, pwd@) && argon2_encoded_valid(s@),
{
    let config = argon2::Config::default();
    argon2::hash_encoded(pwd, salt, &config)
}

/// Hash a new password for storage: succeeds exactly on a password and salt
/// of usable length, and the stored encoding then verifies against the
/// password. Any failure of the hashing primitive is an internal error (it
/// is never the client's fault).
pub fn hash_password(password: &[u8], salt: &[u8]) -> (r: Result<String, AzumaError>)
    ensures
        (r is Ok) == (password@.len() <= 0xFFFF_FFFF && 8 <= salt@.len() && salt@.len()
            <= 0xFFFF_FFFF),
        r matches Ok(s) ==> argon2_matches(s@, password@) && argon2_encoded_valid(s@),
        r is Err ==> r == Err::<String, AzumaError>(AzumaError::InternalServerError),
{
    match argon2_hash_encoded(password, salt) {
        Ok(s) => Ok(s),
        Err(_) => Err(AzumaError::InternalServerError),
    }
}

impl User {
    /// Check a login attempt against the stored hash: success exactly where
    /// the stored encoding is usable and the password matches, a forbidden
    /// error exactly where it is usable and the password does not match, and
    /// an internal error exactly where the stored encoding is unusable (or
    /// the attempted password exceeds the four-byte length field).
    pub fn verify_login(&self, password: &[u8]) -> (r: Result<(), AzumaError>)
        ensures
            (r is Ok) == (argon2_encoded_valid(self.password@) && password@.len()
                <= 0xFFFF_FFFF && argon2_matches(self.password@, password@)),
            (r == Err::<(), AzumaError>(AzumaError::Forbidden)) == (argon2_encoded_valid(
                self.password@,
            ) && password@.len() <= 0xFFFF_FFFF && !argon2_matches(self.password@, password@)),
            (r == Err::<(), AzumaError>(AzumaError::InternalServerError)) == (!(
            argon2_encoded_valid(self.password@) && password@.len() <= 0xFFFF_FFFF)),
    {
        match argon2_verify_encoded(self.password.as_str(), password) {
            Ok(true) => Ok(()),
            Ok(false) => Err(AzumaError::Forbidden),
            Err(_) => Err(AzumaError::InternalServerError),
        }
    }
}

} // verus!
