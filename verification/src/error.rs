//! The failures that the authentication core reports, each with the text
//! that an outer layer may show.

use vstd::prelude::*;

verus! {

/// The process was started without the configuration that it needs.
#[derive(Clone, Copy, Debug, PartialEq, Eq, Structural)]
pub enum ConfigError {
    /// No secret key was supplied, or an empty one.
    MissingSecret,
}

/// A cryptographic computation did not produce a result.
#[derive(Clone, Copy, Debug, PartialEq, Eq, Structural)]
pub enum CryptoError {
    /// The password hasher reported a failure.
    HashFailure,
    /// The claims could not be serialised or signed.
    SignFailure,
}

/// Why a user was not created.
#[derive(Clone, Copy, Debug, PartialEq, Eq, Structural)]
pub enum CreateUserError {
    /// The email is not a syntactically valid address.
    InvalidEmail,
    /// The password is shorter than the policy allows.
    WeakPassword,
    /// A user with this email exists already.
    DuplicateEmail,
    /// No connection to the store could be had.
    StoreUnavailable,
    /// The store refused the new record for a reason other than a duplicate.
    StoreWrite,
    /// The password could not be hashed.
    HashingFailed,
}

/// Why a login did not yield a token.
#[derive(Clone, Copy, Debug, PartialEq, Eq, Structural)]
pub enum UserLoginError {
    /// No user has this email.
    NotFound,
    /// The password does not match the stored digest.
    InvalidCredentials,
    /// No connection to the store could be had, or the lookup failed.
    StoreUnavailable,
    /// The user was authenticated, but no token could be signed.
    TokenFailure,
}

impl ConfigError {
    /// The text of this error.
    pub open spec fn spec_message(self) -> Seq<char> {
        "The hashing secret is not set."@
    }

    pub fn message(&self) -> (text: String)
        ensures
            text@ == self.spec_message(),
    {
        "The hashing secret is not set.".to_owned()
    }
}

impl CryptoError {
    /// The text of this error.
    pub open spec fn spec_message(self) -> Seq<char> {
        match self {
            CryptoError::HashFailure => "The password could not be hashed."@,
            CryptoError::SignFailure => "The token could not be signed."@,
        }
    }

    pub fn message(&self) -> (text: String)
        ensures
            text@ == self.spec_message(),
    {
        match self {
            CryptoError::HashFailure => "The password could not be hashed.".to_owned(),
            CryptoError::SignFailure => "The token could not be signed.".to_owned(),
        }
    }
}

impl CreateUserError {
    /// The text of this error.
    pub open spec fn spec_message(self) -> Seq<char> {
        match self {
            CreateUserError::InvalidEmail => "Email is not valid."@,
            CreateUserError::WeakPassword => "Password is too short."@,
            CreateUserError::DuplicateEmail => "User with this email address already exists."@,
            CreateUserError::StoreUnavailable => "The user store is unavailable."@,
            CreateUserError::StoreWrite => "The user could not be stored."@,
            CreateUserError::HashingFailed => "The password could not be hashed."@,
        }
    }

    pub fn message(&self) -> (text: String)
        ensures
            text@ == self.spec_message(),
    {
        match self {
            CreateUserError::InvalidEmail => "Email is not valid.".to_owned(),
            CreateUserError::WeakPassword => "Password is too short.".to_owned(),
            CreateUserError::DuplicateEmail => "User with this email address already exists.".to_owned(),
            CreateUserError::StoreUnavailable => "The user store is unavailable.".to_owned(),
            CreateUserError::StoreWrite => "The user could not be stored.".to_owned(),
            CreateUserError::HashingFailed => "The password could not be hashed.".to_owned(),
        }
    }
}

impl UserLoginError {
    /// The text of this error. A login that fails for want of the user reads
    /// as one that fails for a wrong password.
    pub open spec fn spec_message(self) -> Seq<char> {
        match self {
            UserLoginError::NotFound => "The email or the password is not correct."@,
            UserLoginError::InvalidCredentials => "The email or the password is not correct."@,
            UserLoginError::StoreUnavailable => "The user store is unavailable."@,
            UserLoginError::TokenFailure => "The token could not be signed."@,
        }
    }

    pub fn message(&self) -> (text: String)
        ensures
            text@ == self.spec_message(),
    {
        match self {
            UserLoginError::NotFound => "The email or the password is not correct.".to_owned(),
            UserLoginError::InvalidCredentials => "The email or the password is not correct.".to_owned(),
            UserLoginError::StoreUnavailable => "The user store is unavailable.".to_owned(),
            UserLoginError::TokenFailure => "The token could not be signed.".to_owned(),
        }
    }
}

/// Nothing in the text of a failed login tells whether the email is known:
/// an unknown email and a wrong password read alike.
pub proof fn unknown_email_reads_as_wrong_password()
    ensures
        UserLoginError::NotFound.spec_message()
            == UserLoginError::InvalidCredentials.spec_message(),
{
}

} // verus!
