//! The poll loop's state machine: one step per tick, from the previous state
//! and the tick's fetch outcome to the next state and the notification to
//! deliver.  The timer, the network request and the delivery are outside;
//! this module owns every decision they feed.

use crate::notify::NotificationContent;
use crate::notify::is_failure_notification;
use crate::notify::is_status_notification;
use crate::status::FetchError;
use crate::status::ServerStatus;
use crate::tracker::evaluate;
use crate::tracker::spec_should_notify;
use vstd::prelude::*;

verus! {

/// The whole state the loop carries between ticks.
#[derive(Clone, Copy, Debug, PartialEq, Eq, Structural)]
pub enum PollState {
    /// No fetch has succeeded yet; the first successful one must notify,
    /// whatever it reports.
    AwaitingFirstFetch,
    /// At least one fetch has succeeded; the payload is the availability it
    /// reported last.
    Steady(bool),
}

impl PollState {
    /// The availability the loop currently believes, with `false` as the
    /// sentinel before the first successful fetch.
    pub open spec fn spec_tracked_online(self) -> bool {
        match self {
            PollState::AwaitingFirstFetch => false,
            PollState::Steady(b) => b,
        }
    }

    /// Whether the next successful fetch must notify unconditionally.
    pub open spec fn spec_force_notify(self) -> bool {
        self is AwaitingFirstFetch
    }

    pub fn tracked_online(&self) -> (b: bool)
        ensures
            b == self.spec_tracked_online(),
    {
        match *self {
            PollState::AwaitingFirstFetch => false,
            PollState::Steady(b) => b,
        }
    }

    pub fn force_notify(&self) -> (f: bool)
        ensures
            f == self.spec_force_notify(),
    {
        matches!(*self, PollState::AwaitingFirstFetch)
    }
}

/// The state after one tick: a successful fetch moves to `Steady` with the
/// availability it reported; a failed one leaves the state untouched.
pub open spec fn spec_next_state(s: PollState, r: Result<ServerStatus, FetchError>) -> PollState {
    match r {
        Ok(st) => PollState::Steady(st.online),
        Err(_) => s,
    }
}

/// Whether the tick with outcome `r`, taken in state `s`, emits a
/// state-change notification.  Failed fetches never do (they emit the fixed
/// failure notification instead, which this does not count).
pub open spec fn spec_emits_change_note(s: PollState, r: Result<ServerStatus, FetchError>) -> bool {
    r matches Ok(st) && spec_should_notify(s.spec_tracked_online(), st.online, s.spec_force_notify())
}

/// One tick of the loop.  On a successful fetch, runs the tracker: the next
/// state records the observed availability and a state-change notification
/// comes back exactly when one is due.  On a failed fetch, the state is
/// returned unchanged and the fixed failure notification is emitted.
pub fn process_fetch(state: PollState, result: Result<ServerStatus, FetchError>) -> (r: (
    PollState,
    Option<NotificationContent>,
))
    requires
        result matches Ok(st) ==> st.well_formed(),
    ensures
        r.0 == spec_next_state(state, result),
        result is Err ==> (r.1 matches Some(n) && is_failure_notification(n)),
        result matches Ok(st) ==> {
            &&& r.1 is Some <==> spec_emits_change_note(state, result)
            &&& (r.1 matches Some(n) ==> is_status_notification(n, st))
        },
{
    match result {
        Ok(st) => {
            let (next, note) = evaluate(state.tracked_online(), &st, state.force_notify());
            (PollState::Steady(next), note)
        },
        Err(_) => (state, Some(NotificationContent::fetch_failure())),
    }
}

/// The state after processing a whole sequence of fetch outcomes, earliest
/// first.
pub open spec fn spec_run(s: PollState, results: Seq<Result<ServerStatus, FetchError>>) -> PollState
    decreases results.len(),
{
    if results.len() == 0 {
        s
    } else {
        spec_run(spec_next_state(s, results[0]), results.drop_first())
    }
}

/// How many state-change notifications a sequence of fetch outcomes emits in
/// total, starting from state `s`.
pub open spec fn spec_change_note_count(
    s: PollState,
    results: Seq<Result<ServerStatus, FetchError>>,
) -> nat
    decreases results.len(),
{
    if results.len() == 0 {
        0
    } else {
        (if spec_emits_change_note(s, results[0]) {
            1nat
        } else {
            0nat
        }) + spec_change_note_count(spec_next_state(s, results[0]), results.drop_first())
    }
}

/// Running one more outcome after a history is one step taken from the
/// history's final state.
pub proof fn lemma_run_push(
    s: PollState,
    results: Seq<Result<ServerStatus, FetchError>>,
    r: Result<ServerStatus, FetchError>,
)
    ensures
        spec_run(s, results.push(r)) == spec_next_state(spec_run(s, results), r),
    decreases results.len(),
{
    let p = results.push(r);
    if results.len() == 0 {
        assert(p[0] == r);
        assert(p.drop_first() =~= Seq::<Result<ServerStatus, FetchError>>::empty());
        assert(spec_run(s, p) == spec_run(spec_next_state(s, r), p.drop_first()));
        assert(spec_run(spec_next_state(s, r), p.drop_first()) == spec_next_state(s, r));
        assert(spec_run(s, results) == s);
    } else {
        assert(p[0] == results[0]);
        assert(p.drop_first() =~= results.drop_first().push(r));
        lemma_run_push(spec_next_state(s, results[0]), results.drop_first(), r);
        assert(spec_run(s, p) == spec_run(spec_next_state(s, results[0]), p.drop_first()));
        assert(spec_run(s, results) == spec_run(
            spec_next_state(s, results[0]),
            results.drop_first(),
        ));
    }
}

/// Failure-isolation law: after any history of outcomes, one more failed
/// fetch leaves the tracked state exactly where it was.
pub proof fn lemma_failure_isolation(
    s0: PollState,
    history: Seq<Result<ServerStatus, FetchError>>,
    e: FetchError,
)
    ensures
        spec_run(s0, history.push(Result::<ServerStatus, FetchError>::Err(e))) == spec_run(
            s0,
            history,
        ),
{
    lemma_run_push(s0, history, Result::<ServerStatus, FetchError>::Err(e));
}

/// The state after `i + 1` outcomes is one step from the state after `i`.
pub proof fn lemma_run_take_step(
    s0: PollState,
    results: Seq<Result<ServerStatus, FetchError>>,
    i: int,
)
    requires
        0 <= i < results.len(),
    ensures
        spec_run(s0, results.take(i + 1)) == spec_next_state(
            spec_run(s0, results.take(i)),
            results[i],
        ),
{
    assert(results.take(i + 1) =~= results.take(i).push(results[i]));
    lemma_run_push(s0, results.take(i), results[i]);
}

/// When ticks `a..b` all failed, the state after `b` outcomes equals the
/// state after `a` outcomes.
pub proof fn lemma_failures_keep_state(
    s0: PollState,
    results: Seq<Result<ServerStatus, FetchError>>,
    a: int,
    b: int,
)
    requires
        0 <= a <= b <= results.len(),
        forall|k: int| a <= k < b ==> results[k] is Err,
    ensures
        spec_run(s0, results.take(b)) == spec_run(s0, results.take(a)),
    decreases b - a,
{
    if a < b {
        lemma_failures_keep_state(s0, results, a, b - 1);
        lemma_run_take_step(s0, results, b - 1);
        assert(results[b - 1] is Err);
    }
}

/// Appending one more outcome to a history adds one state-change
/// notification exactly when that outcome emits one from the history's
/// final state.
pub proof fn lemma_count_push(
    s: PollState,
    results: Seq<Result<ServerStatus, FetchError>>,
    r: Result<ServerStatus, FetchError>,
)
    ensures
        spec_change_note_count(s, results.push(r)) == spec_change_note_count(s, results) + (
        if spec_emits_change_note(spec_run(s, results), r) {
            1nat
        } else {
            0nat
        }),
    decreases results.len(),
{
    let p = results.push(r);
    if results.len() == 0 {
        assert(p[0] == r);
        assert(p.drop_first() =~= Seq::<Result<ServerStatus, FetchError>>::empty());
        assert(spec_change_note_count(s, p) == (if spec_emits_change_note(s, r) {
            1nat
        } else {
            0nat
        }) + spec_change_note_count(spec_next_state(s, r), p.drop_first()));
        assert(spec_change_note_count(spec_next_state(s, r), p.drop_first()) == 0);
        assert(spec_change_note_count(s, results) == 0);
        assert(spec_run(s, results) == s);
    } else {
        assert(p[0] == results[0]);
        assert(p.drop_first() =~= results.drop_first().push(r));
        let stepped = spec_next_state(s, results[0]);
        lemma_count_push(stepped, results.drop_first(), r);
        assert(spec_change_note_count(s, p) == (if spec_emits_change_note(s, results[0]) {
            1nat
        } else {
            0nat
        }) + spec_change_note_count(stepped, p.drop_first()));
        assert(spec_change_note_count(s, results) == (if spec_emits_change_note(s, results[0]) {
            1nat
        } else {
            0nat
        }) + spec_change_note_count(stepped, results.drop_first()));
        assert(spec_run(s, results) == spec_run(stepped, results.drop_first()));
    }
}

/// Failed ticks emit no state-change notification: a history made of
/// failures alone counts none, from any starting state.
pub proof fn lemma_failures_emit_no_change_notes(
    s0: PollState,
    results: Seq<Result<ServerStatus, FetchError>>,
    b: int,
)
    requires
        0 <= b <= results.len(),
        forall|j: int| 0 <= j < b ==> results[j] is Err,
    ensures
        spec_change_note_count(s0, results.take(b)) == 0,
    decreases b,
{
    if b > 0 {
        lemma_failures_emit_no_change_notes(s0, results, b - 1);
        assert(results.take(b) =~= results.take(b - 1).push(results[b - 1]));
        lemma_count_push(s0, results.take(b - 1), results[b - 1]);
        assert(results[b - 1] is Err);
    } else {
        assert(results.take(0) =~= Seq::<Result<ServerStatus, FetchError>>::empty());
    }
}

/// First-notification law: whatever outcomes precede it, the first
/// successful fetch of the process emits a state-change notification,
/// regardless of the availability it reports — and it is the only one
/// emitted up to and including that tick.
pub proof fn lemma_first_success_notifies(results: Seq<Result<ServerStatus, FetchError>>, i: int)
    requires
        0 <= i < results.len(),
        results[i] is Ok,
        forall|j: int| 0 <= j < i ==> results[j] is Err,
    ensures
        spec_emits_change_note(
            spec_run(PollState::AwaitingFirstFetch, results.take(i)),
            results[i],
        ),
        spec_change_note_count(PollState::AwaitingFirstFetch, results.take(i + 1)) == 1,
{
    lemma_failures_keep_state(PollState::AwaitingFirstFetch, results, 0, i);
    assert(results.take(0) =~= Seq::<Result<ServerStatus, FetchError>>::empty());
    lemma_failures_emit_no_change_notes(PollState::AwaitingFirstFetch, results, i);
    assert(results.take(i + 1) =~= results.take(i).push(results[i]));
    lemma_count_push(PollState::AwaitingFirstFetch, results.take(i), results[i]);
}

/// Change-detection law: of two consecutive successful fetches — only
/// failures in between — the later notifies exactly when the reported
/// availability changed.
pub proof fn lemma_change_detection(
    s0: PollState,
    results: Seq<Result<ServerStatus, FetchError>>,
    i: int,
    j: int,
)
    requires
        0 <= i < j < results.len(),
        results[i] is Ok,
        results[j] is Ok,
        forall|k: int| i < k < j ==> results[k] is Err,
    ensures
        spec_emits_change_note(spec_run(s0, results.take(j)), results[j]) <==> (
        results[j]->Ok_0.online != results[i]->Ok_0.online),
{
    lemma_run_take_step(s0, results, i);
    lemma_failures_keep_state(s0, results, i + 1, j);
    assert(spec_run(s0, results.take(j)) == PollState::Steady(results[i]->Ok_0.online));
}

/// No-duplicate law: a non-empty run of successful fetches all reporting
/// availability `v` emits exactly one state-change notification in total —
/// or none at all, when the run continues an already-tracked `v`.
pub proof fn lemma_no_duplicate(
    s: PollState,
    results: Seq<Result<ServerStatus, FetchError>>,
    v: bool,
)
    requires
        results.len() > 0,
        forall|k: int|
            0 <= k < results.len() ==> ((#[trigger] results[k]) matches Ok(st) && st.online == v),
    ensures
        spec_change_note_count(s, results) == (if s == PollState::Steady(v) {
            0nat
        } else {
            1nat
        }),
        spec_run(s, results) == PollState::Steady(v),
    decreases results.len(),
{
    assert(results[0] matches Ok(st) && st.online == v);
    let rest = results.drop_first();
    assert(spec_next_state(s, results[0]) == PollState::Steady(v));
    if s == PollState::Steady(v) {
        assert(s.spec_tracked_online() == v);
        assert(!s.spec_force_notify());
        assert(!spec_emits_change_note(s, results[0]));
    } else {
        match s {
            PollState::AwaitingFirstFetch => {
                assert(s.spec_force_notify());
            },
            PollState::Steady(w) => {
                assert(w != v);
            },
        }
        assert(spec_emits_change_note(s, results[0]));
    }
    assert(spec_change_note_count(s, results) == (if spec_emits_change_note(s, results[0]) {
        1nat
    } else {
        0nat
    }) + spec_change_note_count(PollState::Steady(v), rest));
    assert(spec_run(s, results) == spec_run(PollState::Steady(v), rest));
    if results.len() > 1 {
        assert forall|k: int|
            0 <= k < rest.len() implies ((#[trigger] rest[k]) matches Ok(st) && st.online
            == v) by {
            assert(rest[k] == results[k + 1]);
        }
        lemma_no_duplicate(PollState::Steady(v), rest, v);
    } else {
        assert(rest.len() == 0);
        assert(spec_change_note_count(PollState::Steady(v), rest) == 0);
        assert(spec_run(PollState::Steady(v), rest) == PollState::Steady(v));
    }
}

} // verus!
