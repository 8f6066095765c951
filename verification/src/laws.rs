//! Registrations that run side by side. Each worker drives the flow of one
//! request against the same store; the store answers one action at a time,
//! in whatever order the workers come. What holds of every such run is
//! stated and proved here.

use vstd::prelude::*;
use crate::error::{CreateUserError, CryptoError};
use crate::flow::{Action, CreateUserFlow, Event, LoginFlow};
use crate::model::{CreateUser, NewUser, User};
use crate::table::{consistent, has_email, has_id, store_answers, stores};

verus! {

/// One turn of a run: the store answers what the flow of one worker asked,
/// and holds `rows` afterwards.
pub struct Turn {
    pub worker: int,
    pub event: Event,
    pub rows: Seq<User>,
}

/// The flows of a sequence of requests, each at its start.
pub open spec fn started(requests: Seq<CreateUser>) -> Seq<CreateUserFlow> {
    Seq::new(requests.len(), |k: int| CreateUserFlow::spec_start(requests[k]))
}

/// Whether a turn may follow on the rows and flows given: the worker's flow
/// asks for something, and the answer is one that a store which keeps the
/// relation consistent may give.
pub open spec fn turn_allowed(rows: Seq<User>, flows: Seq<CreateUserFlow>, turn: Turn) -> bool {
    &&& 0 <= turn.worker < flows.len()
    &&& flows[turn.worker].spec_pending() is Some
    &&& store_answers(rows, flows[turn.worker].spec_pending()->Some_0, turn.event, turn.rows)
}

/// The flows after a turn: the worker's flow has advanced by the answer,
/// the others are as they were.
pub open spec fn flows_after(flows: Seq<CreateUserFlow>, turn: Turn) -> Seq<CreateUserFlow> {
    flows.update(turn.worker, flows[turn.worker].spec_advance(turn.event))
}

/// Whether the turns, one after the other, make a run from the rows and
/// flows given. The order of the workers is free.
pub open spec fn run_allowed(rows: Seq<User>, flows: Seq<CreateUserFlow>, turns: Seq<Turn>) -> bool
    decreases turns.len(),
{
    turns.len() == 0 || (turn_allowed(rows, flows, turns[0]) && run_allowed(
        turns[0].rows,
        flows_after(flows, turns[0]),
        turns.drop_first(),
    ))
}

/// The rows that the store holds after a run.
pub open spec fn rows_at_end(rows: Seq<User>, turns: Seq<Turn>) -> Seq<User>
    decreases turns.len(),
{
    if turns.len() == 0 {
        rows
    } else {
        rows_at_end(turns[0].rows, turns.drop_first())
    }
}

/// The flows after a run.
pub open spec fn flows_at_end(flows: Seq<CreateUserFlow>, turns: Seq<Turn>) -> Seq<CreateUserFlow>
    decreases turns.len(),
{
    if turns.len() == 0 {
        flows
    } else {
        flows_at_end(flows_after(flows, turns[0]), turns.drop_first())
    }
}

/// Whether a flow has ended with a user.
pub open spec fn succeeded(flow: CreateUserFlow) -> bool {
    flow is Finished && flow->outcome is Ok
}

/// The user that a flow has ended with.
pub open spec fn registered(flow: CreateUserFlow) -> User
    recommends
        succeeded(flow),
{
    flow->outcome->Ok_0
}

/// Whether a flow is one of this request: what it holds of the request is
/// the request's, and a user that it ended with bears the request's email.
pub open spec fn belongs(flow: CreateUserFlow, request: CreateUser) -> bool {
    match flow {
        CreateUserFlow::Connecting { request: held } => held == request,
        CreateUserFlow::Checking { request: held } => held == request,
        CreateUserFlow::Hashing { request: held } => held == request,
        CreateUserFlow::Inserting { user } => user.email@ == request.email@,
        CreateUserFlow::Finished { outcome: Ok(user) } => user.email@ == request.email@,
        CreateUserFlow::Finished { outcome: Err(_) } => true,
    }
}

/// What holds between the rows and the flows throughout a run: the rows
/// are consistent; every flow is one of its request; a user that a flow
/// ended with is among the rows; and no two flows ended with the same
/// identifier.
pub open spec fn orderly(rows: Seq<User>, flows: Seq<CreateUserFlow>, requests: Seq<CreateUser>) -> bool {
    &&& consistent(rows)
    &&& flows.len() == requests.len()
    &&& forall|k: int| 0 <= k < flows.len() ==> belongs(#[trigger] flows[k], requests[k])
    &&& forall|k: int|
        0 <= k < flows.len() && succeeded(#[trigger] flows[k]) ==> rows.contains(
            registered(flows[k]),
        )
    &&& forall|a: int, b: int|
        0 <= a < b < flows.len() && succeeded(#[trigger] flows[a]) && succeeded(
            #[trigger] flows[b],
        ) ==> registered(flows[a]).id != registered(flows[b]).id
}

/// An answer that tells of a failure of the surroundings: no connection, no
/// digest, or a write that failed for another reason than a taken email.
pub open spec fn is_failure(event: Event) -> bool {
    event is Unavailable || event is WriteFailed || event == Event::Hashed(None)
}

/// Whether none of the turns tells of a failure of the surroundings.
pub open spec fn no_failures(turns: Seq<Turn>) -> bool {
    forall|t: int| 0 <= t < turns.len() ==> !is_failure((#[trigger] turns[t]).event)
}

/// Whether every flow that has ended did so with a user or with the answer
/// that the email is taken.
pub open spec fn ended_well(flows: Seq<CreateUserFlow>) -> bool {
    forall|k: int|
        0 <= k < flows.len() && (#[trigger] flows[k]) is Finished ==> flows[k]->outcome is Ok
            || flows[k]->outcome == Err::<User, CreateUserError>(CreateUserError::DuplicateEmail)
}

proof fn turn_keeps_order(
    rows: Seq<User>,
    flows: Seq<CreateUserFlow>,
    requests: Seq<CreateUser>,
    turn: Turn,
)
    requires
        orderly(rows, flows, requests),
        turn_allowed(rows, flows, turn),
    ensures
        orderly(turn.rows, flows_after(flows, turn), requests),
{
    let w = turn.worker;
    let action = flows[w].spec_pending()->Some_0;
    let next = flows_after(flows, turn);
    crate::table::answers_keep_consistency(rows, action, turn.event, turn.rows);
    assert(belongs(flows[w], requests[w]));
    assert(belongs(next[w], requests[w]));
    assert forall|u: User| rows.contains(u) implies turn.rows.contains(u) by {
        let i = choose|i: int| 0 <= i < rows.len() && rows[i] == u;
        assert(turn.rows[i] == u);
    }
    let fresh = flows[w] is Inserting && turn.event is Inserted;
    if fresh {
        let stored = turn.event->Inserted_0;
        assert(turn.rows[rows.len() as int] == stored);
        assert(turn.rows.contains(stored));
        assert forall|k: int| 0 <= k < flows.len() && k != w && succeeded(#[trigger] flows[k])
            implies registered(flows[k]).id != stored.id by {
            let u = registered(flows[k]);
            assert(rows.contains(u));
            let i = choose|i: int| 0 <= i < rows.len() && rows[i] == u;
            assert(rows[i].id == u.id);
            assert(has_id(rows, u.id));
        }
    } else {
        assert(!succeeded(next[w]));
    }
    assert forall|k: int| 0 <= k < next.len() implies belongs(#[trigger] next[k], requests[k]) by {
        if k != w {
            assert(next[k] == flows[k]);
        }
    }
    assert forall|k: int| 0 <= k < next.len() && succeeded(#[trigger] next[k]) implies turn.rows.contains(
        registered(next[k]),
    ) by {
        if k != w {
            assert(next[k] == flows[k]);
            assert(rows.contains(registered(flows[k])));
        }
    }
    assert forall|a: int, b: int|
        0 <= a < b < next.len() && succeeded(#[trigger] next[a]) && succeeded(
            #[trigger] next[b],
        ) implies registered(next[a]).id != registered(next[b]).id by {
        if a != w {
            assert(next[a] == flows[a]);
        }
        if b != w {
            assert(next[b] == flows[b]);
        }
    }
}

proof fn run_keeps_order(
    rows: Seq<User>,
    flows: Seq<CreateUserFlow>,
    requests: Seq<CreateUser>,
    turns: Seq<Turn>,
)
    requires
        orderly(rows, flows, requests),
        run_allowed(rows, flows, turns),
    ensures
        orderly(rows_at_end(rows, turns), flows_at_end(flows, turns), requests),
    decreases turns.len(),
{
    if turns.len() > 0 {
        turn_keeps_order(rows, flows, requests, turns[0]);
        run_keeps_order(turns[0].rows, flows_after(flows, turns[0]), requests, turns.drop_first());
    }
}

proof fn run_ends_well(rows: Seq<User>, flows: Seq<CreateUserFlow>, turns: Seq<Turn>)
    requires
        ended_well(flows),
        run_allowed(rows, flows, turns),
        no_failures(turns),
    ensures
        ended_well(flows_at_end(flows, turns)),
    decreases turns.len(),
{
    if turns.len() > 0 {
        let turn = turns[0];
        let next = flows_after(flows, turn);
        assert(!is_failure(turn.event));
        assert forall|k: int| 0 <= k < next.len() && (#[trigger] next[k]) is Finished implies next[k]->outcome is Ok
            || next[k]->outcome == Err::<User, CreateUserError>(
            CreateUserError::DuplicateEmail,
        ) by {
            if k != turn.worker {
                assert(next[k] == flows[k]);
            }
        }
        let rest = turns.drop_first();
        assert forall|t: int| 0 <= t < rest.len() implies !is_failure((#[trigger] rest[t]).event) by {
            assert(rest[t] == turns[t + 1]);
        }
        run_ends_well(turn.rows, next, rest);
    }
}

/// The rows stay consistent through every run: whatever the order in which
/// the workers come, no email and no identifier is stored twice.
pub proof fn runs_keep_rows_consistent(rows: Seq<User>, requests: Seq<CreateUser>, turns: Seq<Turn>)
    requires
        consistent(rows),
        run_allowed(rows, started(requests), turns),
    ensures
        consistent(rows_at_end(rows, turns)),
{
    run_keeps_order(rows, started(requests), requests, turns);
}

/// Of the registrations that share an email, at most one succeeds, in
/// whatever order the workers come: two requests with one email never both
/// end with a user.
pub proof fn at_most_one_registration_per_email(
    rows: Seq<User>,
    requests: Seq<CreateUser>,
    turns: Seq<Turn>,
    a: int,
    b: int,
)
    requires
        consistent(rows),
        run_allowed(rows, started(requests), turns),
        0 <= a < requests.len(),
        0 <= b < requests.len(),
        a != b,
        requests[a].email@ == requests[b].email@,
    ensures
        !(succeeded(flows_at_end(started(requests), turns)[a]) && succeeded(
            flows_at_end(started(requests), turns)[b],
        )),
{
    run_keeps_order(rows, started(requests), requests, turns);
    let end_rows = rows_at_end(rows, turns);
    let end = flows_at_end(started(requests), turns);
    if succeeded(end[a]) && succeeded(end[b]) {
        let ua = registered(end[a]);
        let ub = registered(end[b]);
        assert(belongs(end[a], requests[a]));
        assert(belongs(end[b], requests[b]));
        assert(end_rows.contains(ua));
        assert(end_rows.contains(ub));
        let i = choose|i: int| 0 <= i < end_rows.len() && end_rows[i] == ua;
        let j = choose|j: int| 0 <= j < end_rows.len() && end_rows[j] == ub;
        if a < b {
            assert(ua.id != ub.id);
        } else {
            assert(ub.id != ua.id);
        }
        assert(i != j);
        if i < j {
            assert(end_rows[i].email@ != end_rows[j].email@);
        } else {
            assert(end_rows[j].email@ != end_rows[i].email@);
        }
    }
}

/// Where the requests are valid and the surroundings do not fail, a
/// registration that has ended did so with a user or with the answer that
/// the email is taken: beside the one that succeeds, the others with its
/// email are refused as duplicates.
pub proof fn others_are_refused_as_duplicates(
    rows: Seq<User>,
    requests: Seq<CreateUser>,
    turns: Seq<Turn>,
    k: int,
)
    requires
        run_allowed(rows, started(requests), turns),
        no_failures(turns),
        forall|r: int| 0 <= r < requests.len() ==> (#[trigger] requests[r]).spec_validate() is Ok,
        0 <= k < requests.len(),
        flows_at_end(started(requests), turns)[k] is Finished,
    ensures
        succeeded(flows_at_end(started(requests), turns)[k]) || flows_at_end(
            started(requests),
            turns,
        )[k]->outcome == Err::<User, CreateUserError>(CreateUserError::DuplicateEmail),
{
    let flows = started(requests);
    assert forall|r: int| 0 <= r < flows.len() && (#[trigger] flows[r]) is Finished implies flows[r]->outcome is Ok
        || flows[r]->outcome == Err::<User, CreateUserError>(CreateUserError::DuplicateEmail) by {
        assert(requests[r].spec_validate() is Ok);
    }
    run_ends_well(rows, flows, turns);
    flows_keep_their_number(rows, flows, turns);
}

/// A registration leaves a row behind only where it succeeds: a turn that
/// ends a flow with a user appends that user to the rows, and every other
/// turn leaves the rows as they were.
pub proof fn only_success_adds_a_row(rows: Seq<User>, flows: Seq<CreateUserFlow>, turn: Turn)
    requires
        turn_allowed(rows, flows, turn),
    ensures
        succeeded(flows_after(flows, turn)[turn.worker]) ==> turn.rows == rows.push(
            registered(flows_after(flows, turn)[turn.worker]),
        ),
        !succeeded(flows_after(flows, turn)[turn.worker]) ==> turn.rows == rows,
{
}

/// A login yields a token only where the hasher compared the password with
/// the digest of the user that was found, and found a match.
pub proof fn token_only_after_a_match(flow: LoginFlow, event: Event, issued: Result<String, CryptoError>)
    requires
        !(flow is Finished),
        flow.spec_advance(event, issued) is Finished,
        flow.spec_advance(event, issued)->outcome is Ok,
    ensures
        flow.spec_needs_token(event),
        issued is Ok,
        flow.spec_advance(event, issued)->outcome->Ok_0 == issued->Ok_0,
{
}

/// A registration that is not valid never reaches the store: its flow has
/// its outcome from the start, and asks for nothing.
pub proof fn invalid_request_touches_no_store(request: CreateUser)
    requires
        request.spec_validate() is Err,
    ensures
        CreateUserFlow::spec_start(request).spec_pending() is None,
        CreateUserFlow::spec_start(request) == (CreateUserFlow::Finished {
            outcome: Err(request.spec_validate()->Err_0),
        }),
{
}

/// A valid registration of an email that is free succeeds where the
/// surroundings do not fail: the store may give each of the four answers,
/// and they lead the flow to the user that was stored.
pub proof fn registration_of_a_free_email_succeeds(
    rows: Seq<User>,
    request: CreateUser,
    digest: String,
    stored: User,
)
    requires
        request.spec_validate() is Ok,
        !has_email(rows, request.email@),
        stores(rows, NewUser { email: request.email, password_digest: digest }, stored),
    ensures
        ({
            let connecting = CreateUserFlow::spec_start(request);
            let checking = connecting.spec_advance(Event::Connected);
            let hashing = checking.spec_advance(Event::Exists(false));
            let inserting = hashing.spec_advance(Event::Hashed(Some(digest)));
            let finished = inserting.spec_advance(Event::Inserted(stored));
            &&& store_answers(rows, connecting.spec_pending()->Some_0, Event::Connected, rows)
            &&& store_answers(rows, checking.spec_pending()->Some_0, Event::Exists(false), rows)
            &&& store_answers(rows, hashing.spec_pending()->Some_0, Event::Hashed(Some(digest)), rows)
            &&& store_answers(
                rows,
                inserting.spec_pending()->Some_0,
                Event::Inserted(stored),
                rows.push(stored),
            )
            &&& finished == (CreateUserFlow::Finished { outcome: Ok(stored) })
        }),
{
}

/// A registration of an email that is taken is refused as a duplicate
/// before anything is hashed, and the rows stay as they are: the existence
/// check can only say that the email exists, or fail; and should it fail,
/// the insert can only meet a conflict, or fail.
pub proof fn registration_of_a_taken_email_is_refused(rows: Seq<User>, request: CreateUser)
    requires
        request.spec_validate() is Ok,
        has_email(rows, request.email@),
    ensures
        ({
            let checking = CreateUserFlow::spec_start(request).spec_advance(Event::Connected);
            &&& forall|event: Event, after: Seq<User>| #[trigger]
                store_answers(rows, checking.spec_pending()->Some_0, event, after) ==> after == rows
                    && (event is ExistsUnknown || event == Event::Exists(true))
            &&& checking.spec_advance(Event::Exists(true)) == (CreateUserFlow::Finished {
                outcome: Err(CreateUserError::DuplicateEmail),
            })
            &&& forall|digest: String, event: Event, after: Seq<User>| #[trigger]
                store_answers(
                    rows,
                    Action::Insert {
                        user: NewUser { email: request.email, password_digest: digest },
                    },
                    event,
                    after,
                ) ==> after == rows && (event is Conflict || event is WriteFailed)
        }),
{
}

/// A run neither adds a flow nor drops one.
pub proof fn flows_keep_their_number(rows: Seq<User>, flows: Seq<CreateUserFlow>, turns: Seq<Turn>)
    requires
        run_allowed(rows, flows, turns),
    ensures
        flows_at_end(flows, turns).len() == flows.len(),
    decreases turns.len(),
{
    if turns.len() > 0 {
        flows_keep_their_number(turns[0].rows, flows_after(flows, turns[0]), turns.drop_first());
    }
}

} // verus!
