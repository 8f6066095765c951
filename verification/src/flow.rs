//! The two operations of the credential store as state machines. A flow
//! says what it asks of its surroundings next; the answer advances it, until
//! it has an outcome. Nothing but a flow decides what a request leads to.

use vstd::prelude::*;
use crate::error::{CreateUserError, CryptoError, UserLoginError};
use crate::model::{CreateUser, ExternalId, NewUser, User, UserLogin};
use crate::password::{digest, spec_digest, spec_verified, verified};
use crate::secret::SecretKey;
use crate::token::{issue, spec_issue, unix_now, TOKEN_TTL_SECONDS};

verus! {

/// What a flow asks of its surroundings.
#[derive(Debug)]
pub enum Action {
    /// Take a connection from the pool.
    Acquire,
    /// Say whether a user with this email exists.
    CheckExists { email: String },
    /// Hash this password under the secret key.
    Hash { password: String },
    /// Insert this user.
    Insert { user: NewUser },
    /// Fetch the user with this email.
    Lookup { email: String },
    /// Compare this password with this digest under the secret key.
    Verify { password: String, digest: String },
}

/// What the surroundings answer.
#[derive(Debug)]
pub enum Event {
    /// A connection was taken.
    Connected,
    /// The pool gave no connection.
    Unavailable,
    /// The existence check gave this answer.
    Exists(bool),
    /// The existence check failed.
    ExistsUnknown,
    /// The hasher's answer: a digest, or none where it failed.
    Hashed(Option<String>),
    /// The store inserted the user and assigned the rest of its values.
    Inserted(User),
    /// The store refused the insert because the email is taken.
    Conflict,
    /// The store refused the insert for another reason.
    WriteFailed,
    /// The lookup found this user.
    Found(User),
    /// The lookup found no user.
    Absent,
    /// The lookup failed.
    LookupFailed,
    /// The hasher's answer to a comparison, or none where it failed.
    Verified(Option<bool>),
}

/// The registration of a user, from the request to its outcome.
#[derive(Debug)]
pub enum CreateUserFlow {
    /// The request is valid; a connection is awaited.
    Connecting { request: CreateUser },
    /// The answer of the existence check is awaited.
    Checking { request: CreateUser },
    /// The digest of the password is awaited.
    Hashing { request: CreateUser },
    /// The answer to the insert is awaited.
    Inserting { user: NewUser },
    /// The flow has its outcome.
    Finished { outcome: Result<User, CreateUserError> },
}

impl CreateUserFlow {
    /// The flow of a request: one that is not valid has its outcome at
    /// once, and asks nothing of the store.
    pub open spec fn spec_start(request: CreateUser) -> CreateUserFlow {
        match request.spec_validate() {
            Ok(_) => CreateUserFlow::Connecting { request },
            Err(e) => CreateUserFlow::Finished { outcome: Err(e) },
        }
    }

    /// What the flow asks next; nothing once it has its outcome.
    pub open spec fn spec_pending(self) -> Option<Action> {
        match self {
            CreateUserFlow::Connecting { request } => Some(Action::Acquire),
            CreateUserFlow::Checking { request } => Some(
                Action::CheckExists { email: request.email },
            ),
            CreateUserFlow::Hashing { request } => Some(Action::Hash { password: request.password }),
            CreateUserFlow::Inserting { user } => Some(
                Action::Insert {
                    user: NewUser { email: user.email, password_digest: user.password_digest },
                },
            ),
            CreateUserFlow::Finished { outcome } => None,
        }
    }

    /// The flow after an answer. An answer that the flow does not await
    /// leaves it as it is.
    pub open spec fn spec_advance(self, event: Event) -> CreateUserFlow {
        match self {
            CreateUserFlow::Connecting { request } => match event {
                Event::Connected => CreateUserFlow::Checking { request },
                Event::Unavailable => CreateUserFlow::Finished {
                    outcome: Err(CreateUserError::StoreUnavailable),
                },
                _ => self,
            },
            CreateUserFlow::Checking { request } => match event {
                Event::Exists(true) => CreateUserFlow::Finished {
                    outcome: Err(CreateUserError::DuplicateEmail),
                },
                Event::Exists(false) => CreateUserFlow::Hashing { request },
                Event::ExistsUnknown => CreateUserFlow::Hashing { request },
                _ => self,
            },
            CreateUserFlow::Hashing { request } => match event {
                Event::Hashed(answer) => match spec_digest(answer) {
                    Ok(password_digest) => CreateUserFlow::Inserting {
                        user: NewUser { email: request.email, password_digest },
                    },
                    Err(_) => CreateUserFlow::Finished {
                        outcome: Err(CreateUserError::HashingFailed),
                    },
                },
                _ => self,
            },
            CreateUserFlow::Inserting { user } => match event {
                Event::Inserted(stored) => CreateUserFlow::Finished { outcome: Ok(stored) },
                Event::Conflict => CreateUserFlow::Finished {
                    outcome: Err(CreateUserError::DuplicateEmail),
                },
                Event::WriteFailed => CreateUserFlow::Finished {
                    outcome: Err(CreateUserError::StoreWrite),
                },
                _ => self,
            },
            CreateUserFlow::Finished { outcome } => self,
        }
    }

    /// Validates a request and starts its flow.
    pub fn start(request: CreateUser) -> (flow: CreateUserFlow)
        ensures
            flow == Self::spec_start(request),
            !request.email@.contains('@') ==> flow == (CreateUserFlow::Finished {
                outcome: Err(CreateUserError::InvalidEmail),
            }),
    {
        match request.validate() {
            Ok(_) => CreateUserFlow::Connecting { request },
            Err(e) => CreateUserFlow::Finished { outcome: Err(e) },
        }
    }

    /// What the flow asks of its surroundings next.
    pub fn pending(&self) -> (action: Option<Action>)
        ensures
            action == self.spec_pending(),
    {
        match self {
            CreateUserFlow::Connecting { request } => Some(Action::Acquire),
            CreateUserFlow::Checking { request } => Some(
                Action::CheckExists { email: request.email.clone() },
            ),
            CreateUserFlow::Hashing { request } => Some(
                Action::Hash { password: request.password.clone() },
            ),
            CreateUserFlow::Inserting { user } => Some(
                Action::Insert {
                    user: NewUser {
                        email: user.email.clone(),
                        password_digest: user.password_digest.clone(),
                    },
                },
            ),
            CreateUserFlow::Finished { outcome } => None,
        }
    }

    /// Advances the flow by an answer.
    pub fn advance(self, event: Event) -> (next: CreateUserFlow)
        ensures
            next == self.spec_advance(event),
    {
        match self {
            CreateUserFlow::Connecting { request } => match event {
                Event::Connected => CreateUserFlow::Checking { request },
                Event::Unavailable => CreateUserFlow::Finished {
                    outcome: Err(CreateUserError::StoreUnavailable),
                },
                _ => CreateUserFlow::Connecting { request },
            },
            CreateUserFlow::Checking { request } => match event {
                Event::Exists(true) => CreateUserFlow::Finished {
                    outcome: Err(CreateUserError::DuplicateEmail),
                },
                Event::Exists(false) => CreateUserFlow::Hashing { request },
                Event::ExistsUnknown => CreateUserFlow::Hashing { request },
                _ => CreateUserFlow::Checking { request },
            },
            CreateUserFlow::Hashing { request } => match event {
                Event::Hashed(answer) => match digest(answer) {
                    Ok(password_digest) => CreateUserFlow::Inserting {
                        user: NewUser { email: request.email, password_digest },
                    },
                    Err(_) => CreateUserFlow::Finished {
                        outcome: Err(CreateUserError::HashingFailed),
                    },
                },
                _ => CreateUserFlow::Hashing { request },
            },
            CreateUserFlow::Inserting { user } => match event {
                Event::Inserted(stored) => CreateUserFlow::Finished { outcome: Ok(stored) },
                Event::Conflict => CreateUserFlow::Finished {
                    outcome: Err(CreateUserError::DuplicateEmail),
                },
                Event::WriteFailed => CreateUserFlow::Finished {
                    outcome: Err(CreateUserError::StoreWrite),
                },
                _ => CreateUserFlow::Inserting { user },
            },
            CreateUserFlow::Finished { outcome } => CreateUserFlow::Finished { outcome },
        }
    }

    /// The outcome, once the flow has one.
    pub fn outcome(self) -> (outcome: Option<Result<User, CreateUserError>>)
        ensures
            outcome == match self {
                CreateUserFlow::Finished { outcome } => Some(outcome),
                _ => None,
            },
    {
        match self {
            CreateUserFlow::Finished { outcome } => Some(outcome),
            _ => None,
        }
    }
}

/// A login, from the request to its outcome.
#[derive(Debug)]
pub enum LoginFlow {
    /// A connection is awaited.
    Connecting { request: UserLogin },
    /// The answer of the lookup is awaited.
    Looking { request: UserLogin },
    /// The user was found; the comparison of the password with the stored
    /// digest is awaited.
    Verifying { user: User, password: String },
    /// The flow has its outcome: a token, or the reason why there is none.
    Finished { outcome: Result<String, UserLoginError> },
}

/// What a login ends with, given what the issuer returned.
pub open spec fn spec_token_outcome(issued: Result<String, CryptoError>) -> Result<
    String,
    UserLoginError,
> {
    match issued {
        Ok(token) => Ok(token),
        Err(_) => Err(UserLoginError::TokenFailure),
    }
}

/// A login's outcome with the token as a sequence of characters.
pub open spec fn outcome_text(outcome: Result<String, UserLoginError>) -> Result<
    Seq<char>,
    UserLoginError,
> {
    match outcome {
        Ok(token) => Ok(token@),
        Err(e) => Err(e),
    }
}

/// The outcome, with the token as a sequence of characters, of a login
/// that was verified at `now`: the token that is issued for the user's
/// external identifier with the fixed validity window.
pub open spec fn spec_verified_outcome(subject: ExternalId, key: Seq<char>, now: i64) -> Result<
    Seq<char>,
    UserLoginError,
> {
    match spec_issue(subject, key, now, TOKEN_TTL_SECONDS) {
        Ok(token) => Ok(token),
        Err(_) => Err(UserLoginError::TokenFailure),
    }
}

impl LoginFlow {
    /// The flow of a request.
    pub open spec fn spec_start(request: UserLogin) -> LoginFlow {
        LoginFlow::Connecting { request }
    }

    /// What the flow asks next; nothing once it has its outcome.
    pub open spec fn spec_pending(self) -> Option<Action> {
        match self {
            LoginFlow::Connecting { request } => Some(Action::Acquire),
            LoginFlow::Looking { request } => Some(Action::Lookup { email: request.email }),
            LoginFlow::Verifying { user, password } => Some(
                Action::Verify { password, digest: user.password_digest },
            ),
            LoginFlow::Finished { outcome } => None,
        }
    }

    /// Whether this answer completes the login with success, so that a
    /// token is to be issued.
    pub open spec fn spec_needs_token(self, event: Event) -> bool {
        self is Verifying && event is Verified && spec_verified(event->Verified_0)
    }

    /// The flow after an answer, where `issued` is what the issuer returns
    /// if a token is needed. An answer that the flow does not await leaves
    /// it as it is.
    pub open spec fn spec_advance(self, event: Event, issued: Result<String, CryptoError>) -> LoginFlow {
        match self {
            LoginFlow::Connecting { request } => match event {
                Event::Connected => LoginFlow::Looking { request },
                Event::Unavailable => LoginFlow::Finished {
                    outcome: Err(UserLoginError::StoreUnavailable),
                },
                _ => self,
            },
            LoginFlow::Looking { request } => match event {
                Event::Found(user) => LoginFlow::Verifying { user, password: request.password },
                Event::Absent => LoginFlow::Finished { outcome: Err(UserLoginError::NotFound) },
                Event::LookupFailed => LoginFlow::Finished {
                    outcome: Err(UserLoginError::StoreUnavailable),
                },
                _ => self,
            },
            LoginFlow::Verifying { user, password } => match event {
                Event::Verified(answer) => if spec_verified(answer) {
                    LoginFlow::Finished { outcome: spec_token_outcome(issued) }
                } else {
                    LoginFlow::Finished { outcome: Err(UserLoginError::InvalidCredentials) }
                },
                _ => self,
            },
            LoginFlow::Finished { outcome } => self,
        }
    }

    /// Starts the flow of a request.
    pub fn start(request: UserLogin) -> (flow: LoginFlow)
        ensures
            flow == Self::spec_start(request),
    {
        LoginFlow::Connecting { request }
    }

    /// What the flow asks of its surroundings next.
    pub fn pending(&self) -> (action: Option<Action>)
        ensures
            action == self.spec_pending(),
    {
        match self {
            LoginFlow::Connecting { request } => Some(Action::Acquire),
            LoginFlow::Looking { request } => Some(Action::Lookup { email: request.email.clone() }),
            LoginFlow::Verifying { user, password } => Some(
                Action::Verify { password: password.clone(), digest: user.password_digest.clone() },
            ),
            LoginFlow::Finished { outcome } => None,
        }
    }

    /// Whether this answer completes the login with success.
    pub fn needs_token(&self, event: &Event) -> (needed: bool)
        ensures
            needed == self.spec_needs_token(*event),
    {
        match self {
            LoginFlow::Verifying { user, password } => match event {
                Event::Verified(answer) => verified(*answer),
                _ => false,
            },
            _ => false,
        }
    }

    /// Advances the flow by an answer, given what the issuer returned for
    /// the case that a token is needed.
    pub fn advance_with(self, event: Event, issued: Result<String, CryptoError>) -> (next: LoginFlow)
        ensures
            next == self.spec_advance(event, issued),
    {
        match self {
            LoginFlow::Connecting { request } => match event {
                Event::Connected => LoginFlow::Looking { request },
                Event::Unavailable => LoginFlow::Finished {
                    outcome: Err(UserLoginError::StoreUnavailable),
                },
                _ => LoginFlow::Connecting { request },
            },
            LoginFlow::Looking { request } => match event {
                Event::Found(user) => LoginFlow::Verifying { user, password: request.password },
                Event::Absent => LoginFlow::Finished { outcome: Err(UserLoginError::NotFound) },
                Event::LookupFailed => LoginFlow::Finished {
                    outcome: Err(UserLoginError::StoreUnavailable),
                },
                _ => LoginFlow::Looking { request },
            },
            LoginFlow::Verifying { user, password } => match event {
                Event::Verified(answer) => if verified(answer) {
                    match issued {
                        Ok(token) => LoginFlow::Finished { outcome: Ok(token) },
                        Err(_) => LoginFlow::Finished { outcome: Err(UserLoginError::TokenFailure) },
                    }
                } else {
                    LoginFlow::Finished { outcome: Err(UserLoginError::InvalidCredentials) }
                },
                _ => LoginFlow::Verifying { user, password },
            },
            LoginFlow::Finished { outcome } => LoginFlow::Finished { outcome },
        }
    }

    /// Advances the flow by an answer, at the time `now`. Where the answer
    /// completes the login with success, the token is issued for the user's
    /// external identifier, at `now` and with the fixed validity window.
    pub fn advance_at(self, event: Event, secret: &SecretKey, now: i64) -> (next: LoginFlow)
        ensures
            !self.spec_needs_token(event) ==> next == self.spec_advance(
                event,
                Err(CryptoError::SignFailure),
            ),
            self.spec_needs_token(event) ==> next is Finished && outcome_text(next->outcome)
                == spec_verified_outcome(self->user.uuid, secret@, now),
            next is Finished && next->outcome is Ok && !(self is Finished) ==> next->outcome->Ok_0@.len()
                > 0,
    {
        if self.needs_token(&event) {
            let subject = match &self {
                LoginFlow::Verifying { user, password } => user.uuid,
                _ => ExternalId { value: 0 },
            };
            let issued = issue(subject, secret, now, TOKEN_TTL_SECONDS);
            self.advance_with(event, issued)
        } else {
            self.advance_with(event, Err(CryptoError::SignFailure))
        }
    }

    /// Advances the flow by an answer. Where the answer completes the login
    /// with success, the token is issued at the time that the clock shows.
    pub fn advance(self, event: Event, secret: &SecretKey) -> (next: LoginFlow)
        ensures
            !self.spec_needs_token(event) ==> next == self.spec_advance(
                event,
                Err(CryptoError::SignFailure),
            ),
            self.spec_needs_token(event) ==> next is Finished && exists|now: i64|
                outcome_text(next->outcome) == #[trigger] spec_verified_outcome(
                    self->user.uuid,
                    secret@,
                    now,
                ),
            next is Finished && next->outcome is Ok && !(self is Finished) ==> next->outcome->Ok_0@.len()
                > 0,
    {
        let now = unix_now();
        self.advance_at(event, secret, now)
    }

    /// The outcome, once the flow has one.
    pub fn outcome(self) -> (outcome: Option<Result<String, UserLoginError>>)
        ensures
            outcome == match self {
                LoginFlow::Finished { outcome } => Some(outcome),
                _ => None,
            },
    {
        match self {
            LoginFlow::Finished { outcome } => Some(outcome),
            _ => None,
        }
    }
}

} // verus!
