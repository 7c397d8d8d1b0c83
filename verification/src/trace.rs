//! Runs of the engine: what holds of every sequence of events, whatever the
//! order in which replies, refusals and timeouts arrive.

use crate::engine::actions_allowed;
use crate::engine::capture_actions;
use crate::engine::initial_engine;
use crate::engine::lemma_responses_end_requests;
use crate::engine::lists_due;
use crate::engine::next_state;
use crate::engine::timeout_actions;
use crate::engine::ActionView;
use crate::engine::EngineView;
use crate::engine::EventView;
use crate::engine::NO_REQUEST;
use vstd::prelude::*;

verus! {

/// One turn of the engine's loop: the event that arrived, when, and what the
/// engine had the loop do.
pub struct Step {
    pub event: EventView,
    pub now_ms: u64,
    pub actions: Seq<ActionView>,
}

/// The state after all of `steps`, from `start`.
pub open spec fn state_after(start: EngineView, steps: Seq<Step>) -> EngineView
    decreases steps.len(),
{
    if steps.len() == 0 {
        start
    } else {
        next_state(state_after(start, steps.drop_last()), steps.last().event, steps.last().now_ms)
    }
}

/// The state in which step `k` of `steps` begins.
pub open spec fn state_before(start: EngineView, steps: Seq<Step>, k: int) -> EngineView {
    state_after(start, steps.take(k))
}

/// Whether the actions of step `k` are what the engine may decide there.
pub open spec fn step_allowed(start: EngineView, steps: Seq<Step>, k: int) -> bool {
    actions_allowed(
        state_before(start, steps, k),
        steps[k].event,
        steps[k].now_ms,
        steps[k].actions,
    )
}

/// Whether `steps` is a run of the engine from `start`: at every step the
/// actions are what the engine may decide in the state that the steps
/// before it left.
pub open spec fn is_run(start: EngineView, steps: Seq<Step>) -> bool {
    forall|k: int| 0 <= k < steps.len() ==> #[trigger] step_allowed(start, steps, k)
}

/// The identifier of the request that `event` begins, if it begins one.
pub open spec fn issued_id(event: EventView) -> Option<i64> {
    match event {
        EventView::Navigate { id, .. } => Some(id),
        EventView::RunCommand { id, .. } => Some(id),
        _ => None,
    }
}

/// Whether step `k` begins a request with an identifier that no earlier
/// step used, and that is not `NO_REQUEST`.
pub open spec fn issues_fresh_id(steps: Seq<Step>, k: int) -> bool {
    issued_id(steps[k].event) matches Some(id) ==> id != NO_REQUEST && forall|j: int|
        0 <= j < k ==> issued_id(#[trigger] steps[j].event) != Some(id)
}

/// Whether the events of `steps` keep to the one rule that the host must
/// keep: a request identifier is never reused, and never `NO_REQUEST`.
/// Nothing is asked of the page or of the browser engine: replies may be
/// late, repeated or made up, and refusals and page loads may come at any
/// time.
pub open spec fn in_protocol(steps: Seq<Step>) -> bool {
    forall|k: int| 0 <= k < steps.len() ==> #[trigger] issues_fresh_id(steps, k)
}

/// Whether action `a` of step `k` is a response to the request `id`.
pub open spec fn answers_at(steps: Seq<Step>, k: int, a: int, id: i64) -> bool {
    &&& 0 <= k < steps.len()
    &&& 0 <= a < steps[k].actions.len()
    &&& steps[k].actions[a] matches ActionView::Respond(response)
    &&& response.request_id == id
}

/// Whether some step before step `k` began the request `id`.
pub open spec fn issued_before(steps: Seq<Step>, k: int, id: i64) -> bool {
    exists|j: int| 0 <= j < k && issued_id(#[trigger] steps[j].event) == Some(id)
}

/// Each step starts in the state that the step before it left.
proof fn lemma_state_unfolds(start: EngineView, steps: Seq<Step>, k: int)
    requires
        0 <= k < steps.len(),
    ensures
        state_before(start, steps, k + 1) == next_state(
            state_before(start, steps, k),
            steps[k].event,
            steps[k].now_ms,
        ),
{
    assert(steps.take(k + 1).drop_last() =~= steps.take(k));
    assert(steps.take(k + 1).last() == steps[k]);
}

/// A request comes to be in flight only through the event that begins it.
proof fn lemma_in_flight_only_by_issue(state: EngineView, event: EventView, now_ms: u64, id: i64)
    requires
        next_state(state, event, now_ms).pending.contains_key(id),
    ensures
        state.pending.contains_key(id) || issued_id(event) == Some(id),
{
}

/// From a start with nothing in flight, every request in flight was begun
/// by an earlier step.
proof fn lemma_bookkeeping(start: EngineView, steps: Seq<Step>, k: int)
    requires
        start.pending == Map::<i64, u64>::empty(),
        0 <= k <= steps.len(),
    ensures
        forall|id: i64| #[trigger]
            state_before(start, steps, k).pending.contains_key(id) ==> issued_before(steps, k, id),
    decreases k,
{
    if k == 0 {
        assert(steps.take(0) =~= Seq::<Step>::empty());
    } else {
        let before = state_before(start, steps, k - 1);
        let after = state_before(start, steps, k);
        lemma_bookkeeping(start, steps, k - 1);
        lemma_state_unfolds(start, steps, k - 1);
        assert forall|id: i64| #[trigger] after.pending.contains_key(id) implies issued_before(
            steps,
            k,
            id,
        ) by {
            lemma_in_flight_only_by_issue(before, steps[k - 1].event, steps[k - 1].now_ms, id);
            if before.pending.contains_key(id) {
                assert(issued_before(steps, k - 1, id));
                let j = choose|j: int| 0 <= j < k - 1 && issued_id(#[trigger] steps[j].event) == Some(id);
                assert(issued_id(steps[j].event) == Some(id));
            } else {
                assert(issued_id(steps[k - 1].event) == Some(id));
            }
        }
    }
}

/// A response to a request other than `NO_REQUEST` comes from the step that
/// ends that request: the request is in flight before the step and gone
/// after it.
pub proof fn lemma_answer_ends_request(start: EngineView, steps: Seq<Step>, k: int, a: int, id: i64)
    requires
        is_run(start, steps),
        answers_at(steps, k, a, id),
        id != NO_REQUEST,
    ensures
        state_before(start, steps, k).pending.contains_key(id),
        !state_before(start, steps, k + 1).pending.contains_key(id),
{
    assert(step_allowed(start, steps, k));
    lemma_state_unfolds(start, steps, k);
    lemma_responses_end_requests(
        state_before(start, steps, k),
        steps[k].event,
        steps[k].now_ms,
        steps[k].actions,
    );
    assert(steps[k].actions[a] is Respond);
}

/// Within one step no two responses answer the same request.
proof fn lemma_one_answer_per_step(
    start: EngineView,
    steps: Seq<Step>,
    k: int,
    a: int,
    b: int,
    id: i64,
)
    requires
        is_run(start, steps),
        answers_at(steps, k, a, id),
        answers_at(steps, k, b, id),
    ensures
        a == b,
{
    let state = state_before(start, steps, k);
    let now_ms = steps[k].now_ms;
    let actions = steps[k].actions;
    assert(step_allowed(start, steps, k));
    if steps[k].event is Tick {
        let ids = choose|ids: Seq<i64>| #[trigger]
            lists_due(ids, state.pending, now_ms) && actions == capture_actions(
                state.capture,
                now_ms,
            ) + timeout_actions(ids, state.kinds);
        let lead = capture_actions(state.capture, now_ms);
        assert(a >= lead.len());
        assert(b >= lead.len());
        assert(ids[a - lead.len()] == ids[b - lead.len()]);
    }
}

/// A request that is not in flight stays so as long as no step begins it.
proof fn lemma_stays_ended(start: EngineView, steps: Seq<Step>, from: int, to: int, id: i64)
    requires
        0 <= from <= to <= steps.len(),
        !state_before(start, steps, from).pending.contains_key(id),
        forall|j: int| from <= j < to ==> issued_id(#[trigger] steps[j].event) != Some(id),
    ensures
        !state_before(start, steps, to).pending.contains_key(id),
    decreases to - from,
{
    if from < to {
        lemma_stays_ended(start, steps, from, to - 1, id);
        lemma_state_unfolds(start, steps, to - 1);
        if state_before(start, steps, to).pending.contains_key(id) {
            lemma_in_flight_only_by_issue(
                state_before(start, steps, to - 1),
                steps[to - 1].event,
                steps[to - 1].now_ms,
                id,
            );
        }
    }
}

/// First wins: in a run that starts with nothing in flight, and in which
/// the host never reuses an identifier, no request is answered twice.
/// Whichever of a reply from the page, a refusal by the browser engine, a
/// finished page load or a timeout answers a request first, ends it; what
/// comes later for the same request, also a late or repeated reply, is not
/// reported under its identifier.
pub proof fn lemma_at_most_one_response(
    capture: Option<crate::capture::ScheduleView>,
    steps: Seq<Step>,
    id: i64,
    k1: int,
    a1: int,
    k2: int,
    a2: int,
)
    requires
        is_run(initial_engine(capture), steps),
        in_protocol(steps),
        id != NO_REQUEST,
        answers_at(steps, k1, a1, id),
        answers_at(steps, k2, a2, id),
    ensures
        k1 == k2,
        a1 == a2,
{
    let start = initial_engine(capture);
    if k1 == k2 {
        lemma_one_answer_per_step(start, steps, k1, a1, a2, id);
    } else {
        let (first, second) = if k1 < k2 {
            (k1, k2)
        } else {
            (k2, k1)
        };
        let (first_action, second_action) = if k1 < k2 {
            (a1, a2)
        } else {
            (a2, a1)
        };
        lemma_answer_ends_request(start, steps, first, first_action, id);
        lemma_answer_ends_request(start, steps, second, second_action, id);
        lemma_bookkeeping(start, steps, first);
        assert(issued_before(steps, first, id));
        let j = choose|j: int| 0 <= j < first && issued_id(#[trigger] steps[j].event) == Some(id);
        assert forall|m: int| first + 1 <= m < second implies issued_id(#[trigger] steps[m].event)
            != Some(id) by {
            assert(issues_fresh_id(steps, m));
            assert(issued_id(steps[j].event) == Some(id));
        }
        lemma_stays_ended(start, steps, first + 1, second, id);
    }
}

} // verus!
