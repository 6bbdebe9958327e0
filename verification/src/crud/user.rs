//! What the user operations write, and how a password is checked.

use vstd::prelude::*;
use crate::models::{NewUser, User};
use crate::text::str_opt_view;

verus! {

/// What bcrypt's `verify` gives for a password and a stored hash: `None`
/// when it cannot read the hash, else whether the password matches it.
/// The result depends on these two texts alone.
pub uninterp spec fn bcrypt_verify_outcome(password: Seq<char>, hash: Seq<char>) -> Option<bool>;

/// bcrypt's error type.
#[verifier::external_type_specification]
#[verifier::external_body]
pub struct ExBcryptError(bcrypt::BcryptError);

/// `bcrypt::hash` with bcrypt's default cost: hashes a password under a
/// fresh random salt.  It fails only when the system gives no randomness.
/// The salt is random, so the hash itself is left unsaid; bcrypt's source
/// shows that `verify` reads back any hash it makes and finds that the same
/// password matches it.
#[verifier::external_body]
fn bcrypt_hash(password: &str) -> (hashed: Result<String, bcrypt::BcryptError>)
    ensures
        hashed matches Ok(h) ==> bcrypt_verify_outcome(password@, h@) == Some(true),
{
    bcrypt::hash(password, bcrypt::DEFAULT_COST)
}

/// `bcrypt::verify`: whether a password matches a stored hash, or an error
/// when the hash cannot be read.
#[verifier::external_body]
fn bcrypt_verify(password: &str, hash: &str) -> (matched: Result<bool, bcrypt::BcryptError>)
    ensures
        matched matches Ok(b) ==> bcrypt_verify_outcome(password@, hash@) == Some(b),
        matched is Err ==> bcrypt_verify_outcome(password@, hash@) is None,
{
    bcrypt::verify(password, hash)
}

/// Hashing a password failed: the system gave no randomness for the salt.
#[derive(Debug, Clone, Copy, PartialEq, Eq, Structural)]
pub struct PasswordHashError;

/// Why a login with a password was refused.
#[derive(Debug, Clone, Copy, PartialEq, Eq, Structural)]
pub enum LoginError {
    /// The password does not match the user's stored hash.
    WrongPassword,
    /// The user's stored hash is not one that bcrypt can read.
    UnreadableHash,
}

/// The outcome of checking `password` against `user`'s stored hash.
pub open spec fn password_check(user: User, password: Seq<char>) -> Result<User, LoginError> {
    match bcrypt_verify_outcome(password, user.password_hash@) {
        Some(true) => Ok(user),
        Some(false) => Err(LoginError::WrongPassword),
        None => Err(LoginError::UnreadableHash),
    }
}

/// The e-mail address stored for an optional one: an absent address is
/// stored as the empty text.
pub open spec fn stored_email(email: Option<&str>) -> Seq<char> {
    match str_opt_view(email) {
        Some(e) => e,
        None => Seq::empty(),
    }
}

/// The e-mail address stored for an optional one.
pub fn email_or_empty(email: Option<&str>) -> (stored: String)
    ensures
        stored@ == stored_email(email),
{
    match email {
        Some(e) => e.to_owned(),
        None => String::new(),
    }
}

/// The row that creating a user inserts, given what hashing the password
/// gave: the stored hash when hashing succeeded, with an absent e-mail
/// address stored as the empty text; the failure when it failed.
pub fn new_user_with_hash(
    new_username: &str,
    new_email: Option<&str>,
    hashed: Result<String, PasswordHashError>,
) -> (row: Result<NewUser, PasswordHashError>)
    ensures
        match hashed {
            Ok(h) => row matches Ok(u) && u.username@ == new_username@ && u.email@ == stored_email(
                new_email,
            ) && u.password_hash == h,
            Err(e) => row == Err::<NewUser, PasswordHashError>(e),
        },
{
    match hashed {
        Ok(h) => Ok(
            NewUser {
                username: new_username.to_owned(),
                email: email_or_empty(new_email),
                password_hash: h,
            },
        ),
        Err(e) => Err(e),
    }
}

/// The row that creating a user inserts: the password is stored as a bcrypt
/// hash that the same password matches, and an absent e-mail address as the
/// empty text.  Fails when the password cannot be hashed, which happens only
/// when the system gives no randomness for the salt.
pub fn new_user_row(new_username: &str, new_email: Option<&str>, new_password: &str) -> (row:
    Result<NewUser, PasswordHashError>)
    ensures
        row matches Ok(u) ==> {
            &&& u.username@ == new_username@
            &&& u.email@ == stored_email(new_email)
            &&& bcrypt_verify_outcome(new_password@, u.password_hash@) == Some(true)
        },
{
    let hashed = match bcrypt_hash(new_password) {
        Ok(h) => Ok(h),
        Err(_) => Err(PasswordHashError),
    };
    new_user_with_hash(new_username, new_email, hashed)
}

/// Checks a password against the stored hash of the user found under the
/// given name: the user when it matches, else why not.
pub fn check_password(user: User, password: &str) -> (checked: Result<User, LoginError>)
    ensures
        checked == password_check(user, password@),
{
    match bcrypt_verify(password, user.password_hash.as_str()) {
        Ok(true) => Ok(user),
        Ok(false) => Err(LoginError::WrongPassword),
        Err(_) => Err(LoginError::UnreadableHash),
    }
}

/// The columns that updating a user writes.
#[derive(Debug, Clone, PartialEq)]
pub struct UserChanges {
    pub password_hash: String,
    pub email: String,
}

/// The columns written when a user's stored hash and e-mail address change;
/// an absent address is stored as the empty text.
pub fn user_changes(new_password_hash: &str, new_email: Option<&str>) -> (changes: UserChanges)
    ensures
        changes.password_hash@ == new_password_hash@,
        changes.email@ == stored_email(new_email),
{
    UserChanges { password_hash: new_password_hash.to_owned(), email: email_or_empty(new_email) }
}

/// A user whose stored hash was made from a password, when created, is
/// let in with that same password.
pub proof fn lemma_new_user_password_accepted(row: NewUser, password: Seq<char>, user: User)
    requires
        bcrypt_verify_outcome(password, row.password_hash@) == Some(true),
        user.password_hash@ == row.password_hash@,
    ensures
        password_check(user, password) == Ok::<User, LoginError>(user),
{
}

} // verus!
