use heimdallr::flow::{Action, Event};
use heimdallr::model::{ExternalId, NewUser, Timestamp};
use heimdallr::table::UserTable;

const T1: Timestamp = Timestamp { seconds: 100, nanos: 1 };
const T2: Timestamp = Timestamp { seconds: 200, nanos: 2 };

fn new_user(email: &str, digest: &str) -> NewUser {
    NewUser { email: email.to_string(), password_digest: digest.to_string() }
}

#[test]
fn new_table_is_empty() {
    let table = UserTable::new();
    assert_eq!(table.len(), 0);
    assert!(!table.contains_email("a@example.com"));
    assert!(table.find("a@example.com").is_none());
}

#[test]
fn insert_assigns_the_rest() {
    let mut table = UserTable::new();
    match table.insert(new_user("a@example.com", "d1"), ExternalId { value: 9 }, T1) {
        Event::Inserted(user) => {
            assert_eq!(user.id, 1);
            assert_eq!(user.uuid, ExternalId { value: 9 });
            assert_eq!(user.email, "a@example.com");
            assert_eq!(user.password_digest, "d1");
            assert_eq!(user.created_at, T1);
            assert_eq!(user.updated_at, T1);
        }
        other => panic!("unexpected answer: {:?}", other),
    }
    match table.insert(new_user("b@example.com", "d2"), ExternalId { value: 10 }, T2) {
        Event::Inserted(user) => {
            assert_eq!(user.id, 2);
            assert_eq!(user.created_at, T2);
        }
        other => panic!("unexpected answer: {:?}", other),
    }
    assert_eq!(table.len(), 2);
    assert!(table.contains_email("a@example.com"));
    assert!(table.contains_email("b@example.com"));
    assert!(!table.contains_email("c@example.com"));
}

#[test]
fn taken_email_is_a_conflict_and_changes_nothing() {
    let mut table = UserTable::new();
    table.insert(new_user("a@example.com", "d1"), ExternalId { value: 9 }, T1);
    let answer = table.insert(new_user("a@example.com", "d2"), ExternalId { value: 10 }, T2);
    assert!(matches!(answer, Event::Conflict));
    assert_eq!(table.len(), 1);
    let kept = table.find("a@example.com").unwrap();
    assert_eq!(kept.password_digest, "d1");
    assert_eq!(kept.uuid, ExternalId { value: 9 });
}

#[test]
fn find_returns_the_user_with_the_email() {
    let mut table = UserTable::new();
    table.insert(new_user("a@example.com", "d1"), ExternalId { value: 9 }, T1);
    table.insert(new_user("b@example.com", "d2"), ExternalId { value: 10 }, T2);
    let found = table.find("b@example.com").unwrap();
    assert_eq!(found.id, 2);
    assert_eq!(found.email, "b@example.com");
    assert_eq!(found.password_digest, "d2");
    assert!(table.find("B@example.com").is_none());
}

#[test]
fn table_answers_the_store_s_actions() {
    let mut table = UserTable::new();
    let id = ExternalId { value: 1 };
    assert!(matches!(table.answer(Action::Acquire, id, T1), Some(Event::Connected)));
    assert!(matches!(
        table.answer(Action::CheckExists { email: "a@example.com".to_string() }, id, T1),
        Some(Event::Exists(false))
    ));
    assert!(matches!(
        table.answer(Action::Lookup { email: "a@example.com".to_string() }, id, T1),
        Some(Event::Absent)
    ));
    assert!(matches!(
        table.answer(Action::Insert { user: new_user("a@example.com", "d") }, id, T1),
        Some(Event::Inserted(_))
    ));
    assert!(matches!(
        table.answer(Action::CheckExists { email: "a@example.com".to_string() }, id, T1),
        Some(Event::Exists(true))
    ));
    assert!(matches!(
        table.answer(Action::Insert { user: new_user("a@example.com", "e") }, id, T1),
        Some(Event::Conflict)
    ));
    match table.answer(Action::Lookup { email: "a@example.com".to_string() }, id, T1) {
        Some(Event::Found(user)) => assert_eq!(user.password_digest, "d"),
        other => panic!("unexpected answer: {:?}", other),
    }
}

#[test]
fn table_does_not_answer_for_the_hasher() {
    let mut table = UserTable::new();
    let id = ExternalId { value: 1 };
    assert!(table.answer(Action::Hash { password: "p".to_string() }, id, T1).is_none());
    assert!(table
        .answer(Action::Verify { password: "p".to_string(), digest: "d".to_string() }, id, T1)
        .is_none());
    assert_eq!(table.len(), 0);
}
