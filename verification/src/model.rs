//! The data that the core works on: the persisted user, the two requests and
//! the bodies that answer them.

use vstd::prelude::*;
use crate::error::{CreateUserError, UserLoginError};

verus! {

/// A point in time: seconds since the epoch, and the nanoseconds within
/// that second.
#[derive(Clone, Copy, Debug, PartialEq, Eq, Structural)]
pub struct Timestamp {
    pub seconds: i64,
    pub nanos: u32,
}

/// The identifier under which a user is known outside the store: 128 bits
/// that say nothing of how many users there are.
#[derive(Clone, Copy, Debug, PartialEq, Eq, Structural)]
pub struct ExternalId {
    pub value: u128,
}

/// Sixteen to the power of `n`.
pub open spec fn pow16(n: nat) -> nat
    decreases n,
{
    if n == 0 {
        1
    } else {
        16 * pow16((n - 1) as nat)
    }
}

/// The sixteen digits of lower-case hexadecimal.
pub open spec fn hex_digits() -> Seq<char> {
    seq![
        '0', '1', '2', '3', '4', '5', '6', '7',
        '8', '9', 'a', 'b', 'c', 'd', 'e', 'f',
    ]
}

/// How many hyphens stand before position `i` of the hyphenated form.
pub open spec fn hyphens_before(i: int) -> int {
    if i > 23 {
        4
    } else if i > 18 {
        3
    } else if i > 13 {
        2
    } else if i > 8 {
        1
    } else {
        0
    }
}

/// The character at position `i` of the hyphenated form of `value`: a
/// hyphen after the 8th, 12th, 16th and 20th digit, and the hexadecimal
/// digits of `value` between them, the most significant first.
pub open spec fn hyphenated_char(value: u128, i: int) -> char {
    if i == 8 || i == 13 || i == 18 || i == 23 {
        '-'
    } else {
        let digit = i - hyphens_before(i);
        hex_digits()[(value as int / pow16((31 - digit) as nat) as int) % 16]
    }
}

/// The hyphenated form of an identifier: 36 characters in the groups
/// 8-4-4-4-12.
pub open spec fn hyphenated_text(value: u128) -> Seq<char> {
    Seq::new(36, |i: int| hyphenated_char(value, i))
}

/// Trusted: calls `uuid::Uuid::from_bytes` on the sixteen bytes of `value`,
/// the most significant first, and formats the identifier with its
/// `Display` impl, which the `uuid` crate documents as the lower-case
/// hyphenated form.
#[verifier::external_body]
fn format_uuid(value: u128) -> (text: String)
    ensures
        text@ == hyphenated_text(value),
{
    uuid::Uuid::from_bytes(value.to_be_bytes()).to_string()
}

impl ExternalId {
    /// The identifier as text.
    pub open spec fn spec_text(self) -> Seq<char> {
        hyphenated_text(self.value)
    }

    /// The identifier as text, in the lower-case hyphenated form.
    pub fn to_text(&self) -> (text: String)
        ensures
            text@ == self.spec_text(),
            text@.len() == 36,
    {
        format_uuid(self.value)
    }
}

/// A user as the store holds it.
#[derive(Debug)]
pub struct User {
    /// Sequential identifier, assigned by the store.
    pub id: i32,
    /// External identifier, assigned when the user is created.
    pub uuid: ExternalId,
    /// The email, unique among all users.
    pub email: String,
    /// The digest of the password, never the password.
    pub password_digest: String,
    pub created_at: Timestamp,
    pub updated_at: Timestamp,
}

/// What a user is, as plain values.
pub struct UserView {
    pub id: int,
    pub uuid: ExternalId,
    pub email: Seq<char>,
    pub password_digest: Seq<char>,
    pub created_at: Timestamp,
    pub updated_at: Timestamp,
}

impl View for User {
    type V = UserView;

    open spec fn view(&self) -> UserView {
        UserView {
            id: self.id as int,
            uuid: self.uuid,
            email: self.email@,
            password_digest: self.password_digest@,
            created_at: self.created_at,
            updated_at: self.updated_at,
        }
    }
}

/// A user as it is shown to the outside: everything but the digest.
#[derive(Debug)]
pub struct UserRecord {
    pub id: i32,
    pub uuid: String,
    pub email: String,
    pub created_at: Timestamp,
    pub updated_at: Timestamp,
}

impl User {
    /// A copy of this user.
    pub fn duplicate(&self) -> (copy: User)
        ensures
            copy == *self,
    {
        User {
            id: self.id,
            uuid: self.uuid,
            email: self.email.clone(),
            password_digest: self.password_digest.clone(),
            created_at: self.created_at,
            updated_at: self.updated_at,
        }
    }

    /// The record that is shown to the outside. It holds no digest.
    pub fn record(&self) -> (shown: UserRecord)
        ensures
            shown.id == self.id,
            shown.uuid@ == self.uuid.spec_text(),
            shown.email@ == self.email@,
            shown.created_at == self.created_at,
            shown.updated_at == self.updated_at,
    {
        UserRecord {
            id: self.id,
            uuid: self.uuid.to_text(),
            email: self.email.clone(),
            created_at: self.created_at,
            updated_at: self.updated_at,
        }
    }
}

/// The values of a user that the core supplies for an insert; the store
/// assigns the rest.
#[derive(Debug)]
pub struct NewUser {
    pub email: String,
    pub password_digest: String,
}

/// A request to register a user.
#[derive(Debug)]
pub struct CreateUser {
    pub email: String,
    pub password: String,
}

/// A request to log a user in.
#[derive(Debug)]
pub struct UserLogin {
    pub email: String,
    pub password: String,
}

/// The fewest characters that a password may have.
pub const MIN_PASSWORD_CHARS: u64 = 4;

/// Whether the `validator` crate takes a text for an email address.
pub uninterp spec fn email_syntax_valid(email: Seq<char>) -> bool;

/// Trusted: calls `validator::validate_email`, which matches the part before
/// the last `@` and the part after it against the patterns of the HTML
/// specification. It computes its answer from the text alone, and answers
/// `false` for a text without an `@`.
#[verifier::external_body]
fn check_email(email: &str) -> (valid: bool)
    ensures
        valid == email_syntax_valid(email@),
        valid ==> email@.contains('@'),
{
    validator::validate_email(email)
}

/// Trusted: calls `validator::validate_length` with a lower bound only. For
/// a string it counts the characters and compares the count with the bound.
#[verifier::external_body]
fn check_min_chars(text: &str, min: u64) -> (enough: bool)
    ensures
        enough == (text@.len() >= min),
{
    validator::validate_length(
        validator::Validator::Length { min: Some(min), max: None, equal: None },
        text,
    )
}

/// What the two checks on a registration amount to: the email is looked at
/// first, then the password.
pub open spec fn spec_validation_verdict(email_valid: bool, password_long_enough: bool) -> Result<
    (),
    CreateUserError,
> {
    if !email_valid {
        Err(CreateUserError::InvalidEmail)
    } else if !password_long_enough {
        Err(CreateUserError::WeakPassword)
    } else {
        Ok(())
    }
}

/// Turns the answers of the two checks on a registration into its verdict.
pub fn validation_verdict(email_valid: bool, password_long_enough: bool) -> (verdict: Result<
    (),
    CreateUserError,
>)
    ensures
        verdict == spec_validation_verdict(email_valid, password_long_enough),
{
    if !email_valid {
        Err(CreateUserError::InvalidEmail)
    } else if !password_long_enough {
        Err(CreateUserError::WeakPassword)
    } else {
        Ok(())
    }
}

impl CreateUser {
    /// What validation says of this request.
    pub open spec fn spec_validate(&self) -> Result<(), CreateUserError> {
        spec_validation_verdict(
            email_syntax_valid(self.email@),
            self.password@.len() >= MIN_PASSWORD_CHARS,
        )
    }

    /// Checks that the email is an email address and that the password has
    /// at least `MIN_PASSWORD_CHARS` characters.
    pub fn validate(&self) -> (verdict: Result<(), CreateUserError>)
        ensures
            verdict == self.spec_validate(),
            !self.email@.contains('@') ==> verdict == Err::<(), CreateUserError>(
                CreateUserError::InvalidEmail,
            ),
    {
        let email_valid = check_email(self.email.as_str());
        let long_enough = check_min_chars(self.password.as_str(), MIN_PASSWORD_CHARS);
        validation_verdict(email_valid, long_enough)
    }
}

/// The body that answers a registration that failed.
#[derive(Debug)]
pub struct EpicFailure {
    pub error: bool,
    pub reason: String,
}

impl EpicFailure {
    /// The body for a given failure: the error flag is set, and the reason
    /// is the failure's text.
    pub fn from_error(error: CreateUserError) -> (body: EpicFailure)
        ensures
            body.error,
            body.reason@ == error.spec_message(),
    {
        EpicFailure { error: true, reason: error.message() }
    }
}

/// The body that answers a login.
#[derive(Debug)]
pub struct LoginResponse {
    pub error: bool,
    pub message: Option<String>,
    pub token: Option<String>,
}

impl LoginResponse {
    /// The body for a login's outcome: the token and no message where it
    /// succeeded, the failure's text and no token where it did not.
    pub fn from_outcome(outcome: Result<String, UserLoginError>) -> (body: LoginResponse)
        ensures
            match outcome {
                Ok(token) => !body.error && body.message is None && body.token == Some(token),
                Err(e) => body.error && body.token is None && body.message is Some
                    && body.message->Some_0@ == e.spec_message(),
            },
    {
        match outcome {
            Ok(token) => LoginResponse { error: false, message: None, token: Some(token) },
            Err(e) => LoginResponse { error: true, message: Some(e.message()), token: None },
        }
    }
}

} // verus!
