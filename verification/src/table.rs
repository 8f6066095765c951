//! The users relation: the rows of the store, among which no email and no
//! identifier occurs twice, and what a store that keeps it so may answer.

use vstd::prelude::*;
use crate::flow::{Action, Event};
use crate::model::{ExternalId, NewUser, Timestamp, User};

verus! {

/// Whether a user with this email is among the rows.
pub open spec fn has_email(rows: Seq<User>, email: Seq<char>) -> bool {
    exists|i: int| 0 <= i < rows.len() && (#[trigger] rows[i]).email@ == email
}

/// Whether a user with this identifier is among the rows.
pub open spec fn has_id(rows: Seq<User>, id: i32) -> bool {
    exists|i: int| 0 <= i < rows.len() && (#[trigger] rows[i]).id == id
}

/// The uniqueness constraints of the relation: no two rows share an email,
/// and no two share an identifier.
pub open spec fn consistent(rows: Seq<User>) -> bool {
    forall|i: int, j: int|
        0 <= i < j < rows.len() ==> (#[trigger] rows[i]).email@ != (#[trigger] rows[j]).email@
            && rows[i].id != rows[j].id
}

/// Whether `stored` is what an insert of `user` may put into the relation
/// `rows`: it bears the email and the digest that were handed in, and an
/// identifier that no row has.
pub open spec fn stores(rows: Seq<User>, user: NewUser, stored: User) -> bool {
    &&& stored.email@ == user.email@
    &&& stored.password_digest@ == user.password_digest@
    &&& !has_id(rows, stored.id)
}

/// What a store that keeps the relation consistent may answer to an action
/// on the rows `before`, and the rows that it then holds. Only an insert
/// that succeeds changes the rows: it appends the new user. An insert of an
/// email that is taken never succeeds. The hasher's answers are not the
/// store's, and leave the rows as they are.
pub open spec fn store_answers(before: Seq<User>, action: Action, event: Event, after: Seq<User>) -> bool {
    match action {
        Action::Acquire => after == before && (event is Connected || event is Unavailable),
        Action::CheckExists { email } => after == before && (event is ExistsUnknown || event
            == Event::Exists(has_email(before, email@))),
        Action::Hash { password } => after == before && event is Hashed,
        Action::Insert { user } => match event {
            Event::Inserted(stored) => !has_email(before, user.email@) && stores(
                before,
                user,
                stored,
            ) && after == before.push(stored),
            Event::Conflict => after == before && has_email(before, user.email@),
            Event::WriteFailed => after == before,
            _ => false,
        },
        Action::Lookup { email } => after == before && match event {
            Event::Found(user) => user.email@ == email@ && before.contains(user),
            Event::Absent => !has_email(before, email@),
            Event::LookupFailed => true,
            _ => false,
        },
        Action::Verify { password, digest } => after == before && event is Verified,
    }
}

/// A store that keeps the relation consistent leaves it consistent.
pub proof fn answers_keep_consistency(before: Seq<User>, action: Action, event: Event, after: Seq<User>)
    requires
        consistent(before),
        store_answers(before, action, event, after),
    ensures
        consistent(after),
{
    if action is Insert && event is Inserted {
        let stored = event->Inserted_0;
        assert forall|i: int, j: int| 0 <= i < j < after.len() implies (#[trigger] after[i]).email@
            != (#[trigger] after[j]).email@ && after[i].id != after[j].id by {
            if j == before.len() {
                assert(before[i].email@ != stored.email@);
                assert(before[i].id != stored.id);
            }
        }
    }
}

/// The users relation, held in memory.
pub struct UserTable {
    rows: Vec<User>,
}

impl View for UserTable {
    type V = Seq<User>;

    closed spec fn view(&self) -> Seq<User> {
        self.rows@
    }
}

impl UserTable {
    /// The rows are consistent, the identifiers count up from one, and
    /// there is room for the next.
    pub closed spec fn well_formed(&self) -> bool {
        &&& consistent(self.rows@)
        &&& self.rows@.len() < i32::MAX
        &&& forall|i: int| 0 <= i < self.rows@.len() ==> (#[trigger] self.rows@[i]).id == i + 1
    }

    /// A well-formed table is consistent.
    pub proof fn well_formed_is_consistent(&self)
        requires
            self.well_formed(),
        ensures
            consistent(self@),
    {
    }

    /// The empty relation.
    pub fn new() -> (table: UserTable)
        ensures
            table.well_formed(),
            table@ == Seq::<User>::empty(),
    {
        UserTable { rows: Vec::new() }
    }

    /// How many users there are.
    pub fn len(&self) -> (n: usize)
        ensures
            n == self@.len(),
    {
        self.rows.len()
    }

    /// The place of the user with this email, if there is one.
    fn position(&self, email: &str) -> (place: Option<usize>)
        ensures
            match place {
                Some(i) => i < self@.len() && self@[i as int].email@ == email@,
                None => !has_email(self@, email@),
            },
    {
        let wanted = email.to_owned();
        let mut i: usize = 0;
        while i < self.rows.len()
            invariant
                i <= self.rows@.len(),
                wanted@ == email@,
                forall|k: int| 0 <= k < i ==> (#[trigger] self.rows@[k]).email@ != email@,
            decreases self.rows@.len() - i,
        {
            if self.rows[i].email == wanted {
                return Some(i);
            }
            i += 1;
        }
        None
    }

    /// Whether a user with this email exists.
    pub fn contains_email(&self, email: &str) -> (found: bool)
        ensures
            found == has_email(self@, email@),
    {
        self.position(email).is_some()
    }

    /// The user with this email, if there is one.
    pub fn find(&self, email: &str) -> (found: Option<User>)
        ensures
            match found {
                Some(user) => user.email@ == email@ && self@.contains(user),
                None => !has_email(self@, email@),
            },
    {
        match self.position(email) {
            Some(i) => {
                let user = self.rows[i].duplicate();
                assert(self@[i as int] == user);
                Some(user)
            },
            None => None,
        }
    }

    /// Inserts a user with the next identifier, the given external
    /// identifier, and `now` as the time of its creation and of its last
    /// update. An email that is taken is refused, and so is an insert into a
    /// table that has no identifier left; both leave the table as it is.
    pub fn insert(&mut self, user: NewUser, uuid: ExternalId, now: Timestamp) -> (answer: Event)
        requires
            old(self).well_formed(),
        ensures
            final(self).well_formed(),
            has_email(old(self)@, user.email@) ==> answer is Conflict && final(self)@ == old(self)@,
            !has_email(old(self)@, user.email@) && old(self)@.len() + 1 >= i32::MAX ==> answer
                is WriteFailed && final(self)@ == old(self)@,
            !has_email(old(self)@, user.email@) && old(self)@.len() + 1 < i32::MAX ==> answer
                is Inserted && final(self)@ == old(self)@.push(answer->Inserted_0) && answer->Inserted_0
                == (User {
                id: (old(self)@.len() + 1) as i32,
                uuid,
                email: user.email,
                password_digest: user.password_digest,
                created_at: now,
                updated_at: now,
            }),
            store_answers(old(self)@, Action::Insert { user }, answer, final(self)@),
    {
        if self.position(user.email.as_str()).is_some() {
            return Event::Conflict;
        }
        let count = self.rows.len();
        if count >= 2147483646 {
            return Event::WriteFailed;
        }
        let stored = User {
            id: (count + 1) as i32,
            uuid,
            email: user.email,
            password_digest: user.password_digest,
            created_at: now,
            updated_at: now,
        };
        let copy = stored.duplicate();
        proof {
            let before = self.rows@;
            assert(!has_id(before, stored.id)) by {
                if has_id(before, stored.id) {
                    let k = choose|k: int| 0 <= k < before.len() && (#[trigger] before[k]).id
                        == stored.id;
                    assert(before[k].id == k + 1);
                }
            }
            assert(store_answers(before, Action::Insert { user }, Event::Inserted(stored), before.push(stored)));
            answers_keep_consistency(
                before,
                Action::Insert { user },
                Event::Inserted(stored),
                before.push(stored),
            );
        }
        self.rows.push(stored);
        Event::Inserted(copy)
    }

    /// Answers an action as the store does: a connection is always to be
    /// had, and no query fails. The hasher's actions are not the store's, and
    /// get no answer.
    pub fn answer(&mut self, action: Action, uuid: ExternalId, now: Timestamp) -> (event: Option<
        Event,
    >)
        requires
            old(self).well_formed(),
        ensures
            final(self).well_formed(),
            event is None <==> action is Hash || action is Verify,
            event is None ==> final(self)@ == old(self)@,
            event is Some ==> store_answers(old(self)@, action, event->Some_0, final(self)@),
            action is Acquire ==> event == Some(Event::Connected),
            action is CheckExists ==> event == Some(
                Event::Exists(has_email(old(self)@, action->CheckExists_email@)),
            ),
            action is Lookup ==> event is Some && (has_email(old(self)@, action->Lookup_email@)
                <==> event->Some_0 is Found) && (!has_email(old(self)@, action->Lookup_email@)
                <==> event->Some_0 is Absent),
            action is Insert ==> event is Some && (has_email(old(self)@, action->Insert_user.email@)
                <==> event->Some_0 is Conflict),
    {
        match action {
            Action::Acquire => Some(Event::Connected),
            Action::CheckExists { email } => Some(Event::Exists(self.contains_email(email.as_str()))),
            Action::Hash { password } => None,
            Action::Insert { user } => Some(self.insert(user, uuid, now)),
            Action::Lookup { email } => match self.find(email.as_str()) {
                Some(user) => Some(Event::Found(user)),
                None => Some(Event::Absent),
            },
            Action::Verify { password, digest } => None,
        }
    }
}

} // verus!
