//! Holds all the necessary things for a `User`
use vstd::prelude::*;

verus! {

/// A user of the service, with the bcrypt hash of its password.
#[derive(Debug, Clone)]
pub struct User {
    pub id: i32,
    pub username: String,
    pub password: String,
}

/// The part of a [`User`] that a token carries.
#[derive(Debug, Clone)]
pub struct JwtUser {
    pub id: i32,
    pub username: String,
}

impl From<User> for JwtUser {
    fn from(u: User) -> (r: JwtUser) {
        JwtUser { id: u.id, username: u.username }
    }
}

impl vstd::std_specs::convert::FromSpecImpl<User> for JwtUser {
    open spec fn obeys_from_spec() -> bool {
        true
    }

    open spec fn from_spec(u: User) -> JwtUser {
        jwt_user_of(u)
    }
}

/// The part of `u` that a token carries.
pub open spec fn jwt_user_of(u: User) -> JwtUser {
    JwtUser { id: u.id, username: u.username }
}

impl JwtUser {
    /// A copy of the user.
    pub fn duplicate(&self) -> (r: JwtUser)
        ensures
            r == *self,
    {
        JwtUser { id: self.id, username: self.username.clone() }
    }
}

/// What `bcrypt::verify` gives for `password` and the stored hash `hash`: whether the
/// password matches, or the text of the error (a hash that is malformed, for instance).
pub uninterp spec fn bcrypt_verify_outcome(password: Seq<char>, hash: Seq<char>) -> VerifyOutcome;

/// Whether a password matches a hash, or the text of the error that prevented the check.
pub type VerifyOutcome = Result<bool, Seq<char>>;

/// `bcrypt::verify(password, hash)`, its error turned into its text. The crate's source
/// (0.10.1) computes the outcome from the password and the hash alone (the salt and the
/// cost are read from the hash), so the contract names it.
#[verifier::external_body]
fn bcrypt_verify(password: &str, hash: &str) -> (r: Result<bool, String>)
    ensures
        r matches Ok(b) ==> bcrypt_verify_outcome(password@, hash@) == VerifyOutcome::Ok(b),
        r matches Err(e) ==> bcrypt_verify_outcome(password@, hash@) == VerifyOutcome::Err(e@),
{
    match bcrypt::verify(password, hash) {
        Ok(b) => Ok(b),
        Err(e) => Err(e.to_string()),
    }
}

/// Why a login is refused.
#[derive(Debug)]
pub enum LoginError {
    /// The stored hash could not be checked; the text of bcrypt's error.
    Hash(String),
    /// The password does not match.
    WrongCredentials,
}

/// The text of the error that the service reports.
pub open spec fn login_error_message(e: LoginError) -> Seq<char> {
    match e {
        LoginError::Hash(text) => text@,
        LoginError::WrongCredentials => "Wrong username or password"@,
    }
}

impl LoginError {
    /// The text of the error that the service reports.
    pub fn message(&self) -> (r: String)
        ensures
            r@ == login_error_message(*self),
    {
        match self {
            LoginError::Hash(text) => text.clone(),
            LoginError::WrongCredentials => String::from_str("Wrong username or password"),
        }
    }
}

/// Checks `password` against the stored hash of `user`: `Ok` when bcrypt finds that
/// they match, [`LoginError::WrongCredentials`] when it finds that they do not, and
/// bcrypt's error where it cannot check.
pub fn check_password(user: &User, password: &str) -> (r: Result<(), LoginError>)
    ensures
        r is Ok <==> bcrypt_verify_outcome(password@, user.password@) == VerifyOutcome::Ok(
            true,
        ),
        r matches Err(LoginError::WrongCredentials) <==> bcrypt_verify_outcome(
            password@,
            user.password@,
        ) == VerifyOutcome::Ok(false),
        r matches Err(LoginError::Hash(t)) ==> bcrypt_verify_outcome(password@, user.password@)
            == VerifyOutcome::Err(t@),
{
    match bcrypt_verify(password, user.password.as_str()) {
        Ok(true) => Ok(()),
        Ok(false) => Err(LoginError::WrongCredentials),
        Err(text) => Err(LoginError::Hash(text)),
    }
}

} // verus!
