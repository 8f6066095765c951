use heimdallr::error::{CreateUserError, UserLoginError};
use heimdallr::flow::{Action, CreateUserFlow, Event, LoginFlow};
use heimdallr::model::{CreateUser, ExternalId, Timestamp, User, UserLogin};
use heimdallr::secret::SecretKey;
use heimdallr::table::UserTable;

const NOW: Timestamp = Timestamp { seconds: 1_700_000_000, nanos: 0 };

fn stand_in_digest(password: &str) -> String {
    format!("digest-of:{}", password)
}

fn secret() -> SecretKey {
    SecretKey::resolve(Some("Supercalifragilisticexpialidocious".to_string())).unwrap()
}

fn request(email: &str, password: &str) -> CreateUser {
    CreateUser { email: email.to_string(), password: password.to_string() }
}

fn login(email: &str, password: &str) -> UserLogin {
    UserLogin { email: email.to_string(), password: password.to_string() }
}

/// Answers one action: the table answers for the store, and a stand-in
/// answers for the hasher.
fn answer(table: &mut UserTable, action: Action, uuid: u128) -> Event {
    match action {
        Action::Hash { password } => Event::Hashed(Some(stand_in_digest(&password))),
        Action::Verify { password, digest } => {
            Event::Verified(Some(stand_in_digest(&password) == digest))
        }
        other => table.answer(other, ExternalId { value: uuid }, NOW).unwrap(),
    }
}

fn create_user(table: &mut UserTable, email: &str, password: &str, uuid: u128) -> Result<User, CreateUserError> {
    let mut flow = CreateUserFlow::start(request(email, password));
    while let Some(action) = flow.pending() {
        let event = answer(table, action, uuid);
        flow = flow.advance(event);
    }
    flow.outcome().unwrap()
}

fn user_login(table: &mut UserTable, email: &str, password: &str) -> Result<String, UserLoginError> {
    let key = secret();
    let mut flow = LoginFlow::start(login(email, password));
    while let Some(action) = flow.pending() {
        let event = answer(table, action, 0);
        flow = flow.advance(event, &key);
    }
    flow.outcome().unwrap()
}

#[test]
fn email_without_at_sign_is_invalid() {
    let mut table = UserTable::new();
    let outcome = create_user(&mut table, "not-an-email", "secret1", 1);
    assert_eq!(outcome.unwrap_err(), CreateUserError::InvalidEmail);
    assert_eq!(table.len(), 0);
}

#[test]
fn invalid_request_asks_nothing_of_the_store() {
    let flow = CreateUserFlow::start(request("not-an-email", "secret1"));
    assert!(flow.pending().is_none());
}

#[test]
fn password_of_three_characters_is_weak() {
    let mut table = UserTable::new();
    let outcome = create_user(&mut table, "a@example.com", "abc", 1);
    assert_eq!(outcome.unwrap_err(), CreateUserError::WeakPassword);
    assert_eq!(table.len(), 0);
}

#[test]
fn password_of_four_characters_is_accepted() {
    let mut table = UserTable::new();
    let user = create_user(&mut table, "a@example.com", "abcd", 7).unwrap();
    assert_eq!(user.id, 1);
    assert_eq!(user.uuid, ExternalId { value: 7 });
    assert_eq!(user.email, "a@example.com");
    assert_eq!(user.password_digest, "digest-of:abcd");
    assert_eq!(user.created_at, NOW);
    assert_eq!(user.updated_at, NOW);
    assert_eq!(table.len(), 1);
}

#[test]
fn password_length_counts_characters_not_bytes() {
    let mut table = UserTable::new();
    // Three characters in nine bytes.
    let outcome = create_user(&mut table, "a@example.com", "\u{20ac}\u{20ac}\u{20ac}", 1);
    assert_eq!(outcome.unwrap_err(), CreateUserError::WeakPassword);
    // Four characters.
    let outcome = create_user(&mut table, "a@example.com", "\u{20ac}\u{20ac}\u{20ac}\u{20ac}", 1);
    assert!(outcome.is_ok());
}

#[test]
fn invalid_email_is_reported_before_weak_password() {
    let mut table = UserTable::new();
    let outcome = create_user(&mut table, "not-an-email", "abc", 1);
    assert_eq!(outcome.unwrap_err(), CreateUserError::InvalidEmail);
}

#[test]
fn register_then_log_in() {
    let mut table = UserTable::new();

    let user = create_user(&mut table, "a@example.com", "secret1", 0xfeed).unwrap();
    assert_eq!(user.uuid, ExternalId { value: 0xfeed });
    assert_eq!(user.email, "a@example.com");

    let again = create_user(&mut table, "a@example.com", "secret1", 0xbeef);
    assert_eq!(again.unwrap_err(), CreateUserError::DuplicateEmail);
    assert_eq!(table.len(), 1);

    let token = user_login(&mut table, "a@example.com", "secret1").unwrap();
    assert!(!token.is_empty());
    assert_eq!(token.split('.').count(), 3);

    let wrong = user_login(&mut table, "a@example.com", "wrong");
    assert_eq!(wrong.unwrap_err(), UserLoginError::InvalidCredentials);

    let nobody = user_login(&mut table, "nobody@example.com", "x");
    assert_eq!(nobody.unwrap_err(), UserLoginError::NotFound);
}

#[test]
fn email_is_case_sensitive_as_stored() {
    let mut table = UserTable::new();
    create_user(&mut table, "a@example.com", "secret1", 1).unwrap();
    let upper = create_user(&mut table, "A@example.com", "secret1", 2).unwrap();
    assert_eq!(upper.id, 2);
    assert_eq!(table.len(), 2);
}

#[test]
fn two_workers_with_one_email_yield_one_user() {
    let mut table = UserTable::new();
    let mut first = CreateUserFlow::start(request("a@example.com", "secret1"));
    let mut second = CreateUserFlow::start(request("a@example.com", "secret2"));

    // Both take a connection and both pass the existence check before
    // either inserts.
    for _ in 0..3 {
        let event = answer(&mut table, first.pending().unwrap(), 1);
        first = first.advance(event);
        let event = answer(&mut table, second.pending().unwrap(), 2);
        second = second.advance(event);
    }
    assert!(matches!(first.pending(), Some(Action::Insert { .. })));
    assert!(matches!(second.pending(), Some(Action::Insert { .. })));

    // The second worker's insert comes first.
    let event = answer(&mut table, second.pending().unwrap(), 2);
    second = second.advance(event);
    let event = answer(&mut table, first.pending().unwrap(), 1);
    first = first.advance(event);

    let winner = second.outcome().unwrap().unwrap();
    assert_eq!(winner.uuid, ExternalId { value: 2 });
    assert_eq!(winner.password_digest, "digest-of:secret2");
    assert_eq!(first.outcome().unwrap().unwrap_err(), CreateUserError::DuplicateEmail);
    assert_eq!(table.len(), 1);
}

#[test]
fn no_connection_fails_the_registration() {
    let flow = CreateUserFlow::start(request("a@example.com", "secret1"));
    assert!(matches!(flow.pending(), Some(Action::Acquire)));
    let flow = flow.advance(Event::Unavailable);
    assert_eq!(flow.outcome().unwrap().unwrap_err(), CreateUserError::StoreUnavailable);
}

#[test]
fn failed_hash_leaves_no_user_behind() {
    let mut table = UserTable::new();
    let mut flow = CreateUserFlow::start(request("a@example.com", "secret1"));
    loop {
        let action = flow.pending().unwrap();
        if let Action::Hash { password } = &action {
            assert_eq!(password, "secret1");
            break;
        }
        let event = answer(&mut table, action, 1);
        flow = flow.advance(event);
    }
    let flow = flow.advance(Event::Hashed(None));
    assert!(flow.pending().is_none());
    assert_eq!(flow.outcome().unwrap().unwrap_err(), CreateUserError::HashingFailed);
    assert_eq!(table.len(), 0);
}

#[test]
fn failed_write_fails_the_registration() {
    let flow = CreateUserFlow::start(request("a@example.com", "secret1"))
        .advance(Event::Connected)
        .advance(Event::Exists(false))
        .advance(Event::Hashed(Some("d".to_string())))
        .advance(Event::WriteFailed);
    assert_eq!(flow.outcome().unwrap().unwrap_err(), CreateUserError::StoreWrite);
}

#[test]
fn conflict_on_insert_is_a_duplicate() {
    let flow = CreateUserFlow::start(request("a@example.com", "secret1"))
        .advance(Event::Connected)
        .advance(Event::Exists(false))
        .advance(Event::Hashed(Some("d".to_string())))
        .advance(Event::Conflict);
    assert_eq!(flow.outcome().unwrap().unwrap_err(), CreateUserError::DuplicateEmail);
}

#[test]
fn failed_existence_check_goes_on_to_the_insert() {
    let flow = CreateUserFlow::start(request("a@example.com", "secret1"))
        .advance(Event::Connected)
        .advance(Event::ExistsUnknown);
    assert!(matches!(flow.pending(), Some(Action::Hash { .. })));
    let flow = flow.advance(Event::Hashed(Some("d".to_string())));
    match flow.pending() {
        Some(Action::Insert { user }) => {
            assert_eq!(user.email, "a@example.com");
            assert_eq!(user.password_digest, "d");
        }
        other => panic!("unexpected action: {:?}", other),
    }
}

#[test]
fn existing_email_ends_the_flow_before_hashing() {
    let flow = CreateUserFlow::start(request("a@example.com", "secret1"))
        .advance(Event::Connected)
        .advance(Event::Exists(true));
    assert!(flow.pending().is_none());
    assert_eq!(flow.outcome().unwrap().unwrap_err(), CreateUserError::DuplicateEmail);
}

#[test]
fn answer_that_is_not_awaited_is_ignored() {
    let flow = CreateUserFlow::start(request("a@example.com", "secret1"));
    let flow = flow.advance(Event::Conflict);
    assert!(matches!(flow.pending(), Some(Action::Acquire)));
    let flow = flow.advance(Event::Connected).advance(Event::Connected);
    match flow.pending() {
        Some(Action::CheckExists { email }) => assert_eq!(email, "a@example.com"),
        other => panic!("unexpected action: {:?}", other),
    }
    let done = flow.advance(Event::Exists(true)).advance(Event::Exists(false));
    assert_eq!(done.outcome().unwrap().unwrap_err(), CreateUserError::DuplicateEmail);
}

#[test]
fn unfinished_flow_has_no_outcome() {
    let flow = CreateUserFlow::start(request("a@example.com", "secret1"));
    assert!(flow.outcome().is_none());
    let flow = LoginFlow::start(login("a@example.com", "secret1"));
    assert!(flow.outcome().is_none());
}

#[test]
fn login_without_connection_is_unavailable() {
    let flow = LoginFlow::start(login("a@example.com", "secret1"));
    assert!(matches!(flow.pending(), Some(Action::Acquire)));
    let flow = flow.advance(Event::Unavailable, &secret());
    assert_eq!(flow.outcome().unwrap().unwrap_err(), UserLoginError::StoreUnavailable);
}

#[test]
fn failed_lookup_is_unavailable() {
    let flow = LoginFlow::start(login("a@example.com", "secret1"))
        .advance(Event::Connected, &secret())
        .advance(Event::LookupFailed, &secret());
    assert_eq!(flow.outcome().unwrap().unwrap_err(), UserLoginError::StoreUnavailable);
}

#[test]
fn login_asks_to_compare_with_the_stored_digest() {
    let mut table = UserTable::new();
    create_user(&mut table, "a@example.com", "secret1", 1).unwrap();
    let flow = LoginFlow::start(login("a@example.com", "other"))
        .advance(Event::Connected, &secret());
    match flow.pending() {
        Some(Action::Lookup { email }) => assert_eq!(email, "a@example.com"),
        other => panic!("unexpected action: {:?}", other),
    }
    let event = answer(&mut table, flow.pending().unwrap(), 0);
    let flow = flow.advance(event, &secret());
    match flow.pending() {
        Some(Action::Verify { password, digest }) => {
            assert_eq!(password, "other");
            assert_eq!(digest, "digest-of:secret1");
        }
        other => panic!("unexpected action: {:?}", other),
    }
    assert!(!flow.needs_token(&Event::Verified(Some(false))));
    assert!(!flow.needs_token(&Event::Verified(None)));
    assert!(!flow.needs_token(&Event::Connected));
    assert!(flow.needs_token(&Event::Verified(Some(true))));
}

#[test]
fn comparison_that_failed_is_invalid_credentials() {
    let mut table = UserTable::new();
    let user = create_user(&mut table, "a@example.com", "secret1", 1).unwrap();
    let flow = LoginFlow::start(login("a@example.com", "secret1"))
        .advance(Event::Connected, &secret())
        .advance(Event::Found(user), &secret())
        .advance(Event::Verified(None), &secret());
    assert_eq!(flow.outcome().unwrap().unwrap_err(), UserLoginError::InvalidCredentials);
}

#[test]
fn token_that_cannot_be_issued_is_a_token_failure() {
    let mut table = UserTable::new();
    let user = create_user(&mut table, "a@example.com", "secret1", 1).unwrap();
    let flow = LoginFlow::start(login("a@example.com", "secret1"))
        .advance(Event::Connected, &secret())
        .advance(Event::Found(user), &secret())
        .advance_at(Event::Verified(Some(true)), &secret(), i64::MAX);
    assert_eq!(flow.outcome().unwrap().unwrap_err(), UserLoginError::TokenFailure);
}

#[test]
fn login_advances_with_what_the_issuer_returned() {
    let mut table = UserTable::new();
    let user = create_user(&mut table, "a@example.com", "secret1", 1).unwrap();
    let flow = LoginFlow::start(login("a@example.com", "secret1"))
        .advance(Event::Connected, &secret())
        .advance(Event::Found(user), &secret())
        .advance_with(Event::Verified(Some(true)), Ok("a.b.c".to_string()));
    assert_eq!(flow.outcome().unwrap().unwrap(), "a.b.c");
}
