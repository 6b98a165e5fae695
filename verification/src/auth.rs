//! Email accounts: checking a registration, hashing and verifying
//! passwords with Argon2, the account created for a new user, and the
//! messages the login and registration forms show.
use vstd::prelude::*;
use vstd::string::StringSliceAdditionalSpecFns;
use argon2::password_hash::rand_core::OsRng;
use argon2::password_hash::{PasswordHash, PasswordHasher, PasswordVerifier, SaltString};
use argon2::Argon2;
use crate::text::{before_first, owned, prefix_before, replace, replace_all, str_eq};

verus! {

/// A signed-in user.
#[derive(Clone, Debug, PartialEq)]
pub struct User {
    pub id: String,
    pub name: String,
    pub email: String,
}

/// A user's stored account: who they are and their password's PHC string.
#[derive(Clone, Debug, PartialEq)]
pub struct StoredCredentials {
    pub user: User,
    pub password_hash: String,
}

/// Why signing up or signing in failed.
#[derive(Clone, Copy, Debug, PartialEq, Eq, Structural)]
pub enum AuthError {
    PasswordMismatch,
    WeakPassword,
    HashFailed,
    EmailTaken,
    RegistrationFailed,
    InvalidCredentials,
    HashFormat,
}

impl AuthError {
    /// The message shown to the user.
    pub open spec fn text(self) -> Seq<char> {
        match self {
            AuthError::PasswordMismatch => "Passwords do not match."@,
            AuthError::WeakPassword => "Password is too weak (minimum 6 characters)."@,
            AuthError::HashFailed => "Failed to hash password"@,
            AuthError::EmailTaken => "This email is already registered."@,
            AuthError::RegistrationFailed => "Registration failed due to database error."@,
            AuthError::InvalidCredentials => "Invalid email or password."@,
            AuthError::HashFormat => "Password hash error"@,
        }
    }

    /// The message shown to the user.
    pub fn message(&self) -> (s: String)
        ensures
            s@ == self.text(),
    {
        match self {
            AuthError::PasswordMismatch => owned("Passwords do not match."),
            AuthError::WeakPassword => owned("Password is too weak (minimum 6 characters)."),
            AuthError::HashFailed => owned("Failed to hash password"),
            AuthError::EmailTaken => owned("This email is already registered."),
            AuthError::RegistrationFailed => owned("Registration failed due to database error."),
            AuthError::InvalidCredentials => owned("Invalid email or password."),
            AuthError::HashFormat => owned("Password hash error"),
        }
    }
}

/// Whether `PasswordHash::new` accepts the text as a PHC string.
pub uninterp spec fn phc_hash_parses(hash: Seq<char>) -> bool;

/// Whether Argon2 (default configuration) verifies the password against the
/// parsed PHC string, that is `verify_password` returns `Ok`.
pub uninterp spec fn argon2_verifies(password: Seq<char>, hash: Seq<char>) -> bool;

/// Checks a password against a stored PHC string: `None` when the string
/// does not parse, otherwise whether the password matches.
/// Trusted: calls `PasswordHash::new` and `Argon2::default().verify_password`
/// (argon2 / password-hash 0.5); the contract only names their outcomes,
/// which depend on the two texts alone.
#[verifier::external_body]
fn argon2_verify(password: &str, hash: &str) -> (r: Option<bool>)
    ensures
        r is Some <==> phc_hash_parses(hash@),
        r matches Some(b) ==> b == argon2_verifies(password@, hash@),
{
    match PasswordHash::new(hash) {
        Ok(parsed) => Some(Argon2::default().verify_password(password.as_bytes(), &parsed).is_ok()),
        Err(_) => None,
    }
}

/// Hashes a password with a fresh random salt into a PHC string, `None` when
/// hashing fails.
/// Trusted: calls `SaltString::generate(&mut OsRng)` and
/// `Argon2::default().hash_password` (argon2 0.5). The salt is random, so the
/// string itself is left open; the contract states what the crate's
/// documented usage shows: the string parses and verifies the same password.
/// With the default parameters and a generated 16-byte salt, hashing fails
/// only for a password longer than `MAX_PWD_LEN` (0xFFFFFFFF bytes).
#[verifier::external_body]
fn argon2_hash(password: &str) -> (r: Option<String>)
    ensures
        r matches Some(h) ==> phc_hash_parses(h@) && argon2_verifies(password@, h@),
        password.spec_bytes().len() <= 0xFFFF_FFFF ==> r is Some,
{
    let salt = SaltString::generate(&mut OsRng);
    match Argon2::default().hash_password(password.as_bytes(), &salt) {
        Ok(h) => Some(h.to_string()),
        Err(_) => None,
    }
}

/// The form's checks on a new password: both entries agree and the password
/// is at least six bytes long.
pub fn validate_registration(password: &str, password_confirm: &str) -> (r: Result<(), AuthError>)
    ensures
        password@ != password_confirm@ ==> r == Err::<(), AuthError>(AuthError::PasswordMismatch),
        password@ == password_confirm@ && password.len() < 6 ==> r == Err::<
            (),
            AuthError,
        >(AuthError::WeakPassword),
        password@ == password_confirm@ && password.len() >= 6 ==> r is Ok,
{
    if !str_eq(password, password_confirm) {
        return Err(AuthError::PasswordMismatch);
    }
    if password.len() < 6 {
        return Err(AuthError::WeakPassword);
    }
    Ok(())
}

/// What a PHC string stored at registration must satisfy for the same
/// password to sign in later.
pub open spec fn hash_admits(password: Seq<char>, hash: Seq<char>) -> bool {
    phc_hash_parses(hash) && argon2_verifies(password, hash)
}

/// Checks a registration and hashes its password: the PHC string to store.
pub fn prepare_registration(password: &str, password_confirm: &str) -> (r: Result<
    String,
    AuthError,
>)
    ensures
        password@ != password_confirm@ ==> r == Err::<String, AuthError>(
            AuthError::PasswordMismatch,
        ),
        password@ == password_confirm@ && password.len() < 6 ==> r == Err::<
            String,
            AuthError,
        >(AuthError::WeakPassword),
        password@ == password_confirm@ && password.len() >= 6 ==> (r is Ok || r
            == Err::<String, AuthError>(AuthError::HashFailed)),
        password@ == password_confirm@ && 6 <= password.len() && password.spec_bytes().len()
            <= 0xFFFF_FFFF ==> r is Ok,
        r matches Ok(h) ==> hash_admits(password@, h@),
{
    match validate_registration(password, password_confirm) {
        Err(e) => Err(e),
        Ok(()) => match argon2_hash(password) {
            Some(h) => Ok(h),
            None => Err(AuthError::HashFailed),
        },
    }
}

/// The account created for a new registration; its name is the part of the
/// email before the `@`.
pub fn new_user(user_id: String, email: String) -> (u: User)
    ensures
        u.id@ == user_id@,
        u.email@ == email@,
        u.name@ == before_first(email@, '@'),
{
    let name = prefix_before(email.as_str(), '@');
    User { id: user_id, name, email }
}

/// The error for a failed insert of a new user: a unique-constraint
/// violation (Postgres code 23505) means the email is taken.
pub fn registration_db_error(code: Option<&str>) -> (e: AuthError)
    ensures
        (code matches Some(c) && c@ == "23505"@) ==> e == AuthError::EmailTaken,
        !(code matches Some(c) && c@ == "23505"@) ==> e == AuthError::RegistrationFailed,
{
    match code {
        Some(c) => {
            if str_eq(c, "23505") {
                AuthError::EmailTaken
            } else {
                AuthError::RegistrationFailed
            }
        },
        None => AuthError::RegistrationFailed,
    }
}

/// The outcome of signing in with `password` against the account found
/// for the email, if any.
pub open spec fn spec_login(record: Option<StoredCredentials>, password: Seq<char>) -> Result<
    User,
    AuthError,
> {
    match record {
        None => Err(AuthError::InvalidCredentials),
        Some(c) => if !phc_hash_parses(c.password_hash@) {
            Err(AuthError::HashFormat)
        } else if argon2_verifies(password, c.password_hash@) {
            Ok(c.user)
        } else {
            Err(AuthError::InvalidCredentials)
        },
    }
}

/// Signing in with `password` against the account found for the email, if
/// any.
pub fn login_decision(record: Option<StoredCredentials>, password: &str) -> (r: Result<
    User,
    AuthError,
>)
    ensures
        r == spec_login(record, password@),
{
    match record {
        None => Err(AuthError::InvalidCredentials),
        Some(c) => match argon2_verify(password, c.password_hash.as_str()) {
            None => Err(AuthError::HashFormat),
            Some(false) => Err(AuthError::InvalidCredentials),
            Some(true) => Ok(c.user),
        },
    }
}

/// A password accepted at registration signs in: an account stored with the
/// PHC string that `prepare_registration` returned for `password` lets
/// `password` sign in as that account's user.
pub proof fn law_registered_password_signs_in(password: Seq<char>, account: StoredCredentials)
    requires
        hash_admits(password, account.password_hash@),
    ensures
        spec_login(Some(account), password) == Ok::<User, AuthError>(account.user),
{
}

/// Signing in does not tell an unknown email from a wrong password: both
/// get the same answer.
pub proof fn law_unknown_email_like_wrong_password(password: Seq<char>, account: StoredCredentials)
    requires
        phc_hash_parses(account.password_hash@),
        !argon2_verifies(password, account.password_hash@),
    ensures
        spec_login(Some(account), password) == spec_login(None, password),
        spec_login(None, password) == Err::<User, AuthError>(AuthError::InvalidCredentials),
{
}

/// The error text a form shows: the server error with every
/// `"error: "` removed.
pub fn form_error_text(message: &str) -> (s: String)
    ensures
        s@ == replace_all(message@, "error: "@, ""@),
{
    proof {
        reveal_strlit("error: ");
    }
    replace(message, "error: ", "")
}

} // verus!
