//! The engine's side of the conversation with the host: every event that
//! reaches the engine's loop is decided here. The loop itself performs what
//! is decided and reports back what came of it.

use crate::capture::after_capture_done;
use crate::capture::after_capture_once;
use crate::capture::after_navigation_started;
use crate::capture::after_page_loaded;
use crate::capture::after_set_fps;
use crate::capture::after_tick;
use crate::capture::capture_due;
use crate::capture::initial_schedule;
use crate::capture::CaptureSchedule;
use crate::capture::ScheduleView;
use crate::decimal::format_i64;
use crate::decimal::int_text;
use crate::decimal::lemma_text_round_trip;
use crate::decimal::parse_i64;
use crate::decimal::text_to_i64;
use crate::json::json_error_text;
use crate::json::json_quoted;
use crate::json::quote;
use crate::pending::after_sweep;
use crate::pending::deadline_of;
use crate::pending::due_ids;
use crate::pending::is_due;
use crate::pending::PendingRequests;
use crate::protocol::build_dispatch_script;
use crate::protocol::dispatch_script;
use crate::protocol::envelope_in;
use crate::protocol::error_text;
use crate::protocol::parse_ipc_envelope;
use crate::protocol::Command;
use crate::protocol::CommandView;
use crate::protocol::EnvelopeView;
use crate::protocol::IpcEnvelope;
use crate::protocol::ProtocolError;
use crate::protocol::ProtocolErrorView;
use crate::protocol::LITERAL_NULL;
use std::collections::HashMap;
use vstd::prelude::*;
use vstd::string::StringExecFns;

verus! {

broadcast use vstd::std_specs::hash::group_hash_axioms;

/// The identifier of responses that answer no request: a message from the
/// page that could not be read, or a failed capture.
pub const NO_REQUEST: i64 = -1;

/// The one and final answer to a request.
#[derive(Debug, Clone, PartialEq)]
pub struct BrowserResponse {
    pub request_id: i64,
    pub ok: bool,
    /// The result as JSON text; `null` where there is none.
    pub result_json: String,
    /// What went wrong; empty when `ok`.
    pub error: String,
}

/// A `BrowserResponse` with its texts as sequences of characters.
pub struct ResponseView {
    pub request_id: i64,
    pub ok: bool,
    pub result_json: Seq<char>,
    pub error: Seq<char>,
}

impl View for BrowserResponse {
    type V = ResponseView;

    open spec fn view(&self) -> ResponseView {
        ResponseView {
            request_id: self.request_id,
            ok: self.ok,
            result_json: self.result_json@,
            error: self.error@,
        }
    }
}

/// The response that reports `error` for the request `request_id`.
pub open spec fn failure_response(request_id: i64, error: Seq<char>) -> ResponseView {
    ResponseView { request_id, ok: false, result_json: LITERAL_NULL@, error }
}

/// The response that reports success with `result_json` for the request
/// `request_id`.
pub open spec fn success_response(request_id: i64, result_json: Seq<char>) -> ResponseView {
    ResponseView { request_id, ok: true, result_json, error: Seq::<char>::empty() }
}

impl BrowserResponse {
    /// The response that reports `error` for the request `request_id`.
    pub fn failure(request_id: i64, error: String) -> (response: Self)
        ensures
            response@ == failure_response(request_id, error@),
    {
        BrowserResponse { request_id, ok: false, result_json: LITERAL_NULL.to_owned(), error }
    }

    /// The response that reports success with `result_json` for the request
    /// `request_id`.
    pub fn success(request_id: i64, result_json: String) -> (response: Self)
        ensures
            response@ == success_response(request_id, result_json@),
    {
        BrowserResponse { request_id, ok: true, result_json, error: String::new() }
    }
}

/// What kind of operation a request stands for.
#[derive(Debug, Clone, Copy, PartialEq, Eq)]
pub enum RequestKind {
    /// A page navigation.
    Navigation,
    /// A command dispatched to the script in the page.
    Script,
}

pub const LABEL_NAVIGATION: &'static str = "goto";

pub const LABEL_SCRIPT: &'static str = "js";

pub const LABEL_UNKNOWN: &'static str = "cmd";

pub const TIMEOUT_SUFFIX: &'static str = "_timeout";

/// The name of an operation kind in error texts; `cmd` where the kind of a
/// request is not on record.
pub open spec fn kind_label(kind: Option<RequestKind>) -> Seq<char> {
    match kind {
        Some(RequestKind::Navigation) => LABEL_NAVIGATION@,
        Some(RequestKind::Script) => LABEL_SCRIPT@,
        None => LABEL_UNKNOWN@,
    }
}

/// The kind on record for `id`, if any.
pub open spec fn kind_of(kinds: Map<i64, RequestKind>, id: i64) -> Option<RequestKind> {
    if kinds.contains_key(id) {
        Some(kinds[id])
    } else {
        None
    }
}

/// The response that reports that the request `id` ran out of time: the
/// name of its kind, then `_timeout`.
pub open spec fn timeout_response(id: i64, kind: Option<RequestKind>) -> ResponseView {
    failure_response(id, kind_label(kind) + TIMEOUT_SUFFIX@)
}

/// The response that reports that the request `id` ran out of time.
pub fn make_timeout_response(id: i64, kind: Option<RequestKind>) -> (response: BrowserResponse)
    ensures
        response@ == timeout_response(id, kind),
{
    let mut error = match kind {
        Some(RequestKind::Navigation) => LABEL_NAVIGATION.to_owned(),
        Some(RequestKind::Script) => LABEL_SCRIPT.to_owned(),
        None => LABEL_UNKNOWN.to_owned(),
    };
    error.append(TIMEOUT_SUFFIX);
    BrowserResponse::failure(id, error)
}

/// The request that an envelope answers: the number that its identifier
/// spells, or `NO_REQUEST` where it spells none.
pub open spec fn envelope_request_id(envelope: EnvelopeView) -> i64 {
    match text_to_i64(envelope.id) {
        Some(id) => id,
        None => NO_REQUEST,
    }
}

/// An envelope that carries the identifier that a dispatch script was given,
/// the decimal text of the request's number, answers that request.
pub proof fn lemma_envelope_names_its_request(id: i64, envelope: EnvelopeView)
    requires
        envelope.id == int_text(id as int),
    ensures
        envelope_request_id(envelope) == id,
{
    lemma_text_round_trip(id);
}

/// The response that forwards what an envelope reports.
pub open spec fn envelope_response(envelope: EnvelopeView) -> ResponseView {
    ResponseView {
        request_id: envelope_request_id(envelope),
        ok: envelope.ok,
        result_json: match envelope.result {
            Some(text) => text,
            None => LITERAL_NULL@,
        },
        error: match envelope.error {
            Some(text) => text,
            None => Seq::<char>::empty(),
        },
    }
}

/// The response that forwards what an envelope reports.
pub fn make_envelope_response(envelope: IpcEnvelope) -> (response: BrowserResponse)
    ensures
        response@ == envelope_response(envelope@),
{
    let request_id = match parse_i64(envelope.id.as_str()) {
        Some(id) => id,
        None => NO_REQUEST,
    };
    let result_json = match envelope.result {
        Some(text) => text,
        None => LITERAL_NULL.to_owned(),
    };
    let error = match envelope.error {
        Some(text) => text,
        None => String::new(),
    };
    BrowserResponse { request_id, ok: envelope.ok, result_json, error }
}

pub const IPC_PARSE_ERROR_PREFIX: &'static str = "ipc_parse_error: ";

/// The response that reports a message from the page that could not be
/// read. It answers no request.
pub open spec fn unreadable_response(error: ProtocolErrorView) -> ResponseView {
    failure_response(NO_REQUEST, IPC_PARSE_ERROR_PREFIX@ + error_text(error))
}

pub const STALE_REPLY_PREFIX: &'static str = "ipc_stale_reply: ";

/// The response that reports an envelope for a request that is not in
/// flight: the request was answered before, or never begun. It answers no
/// request, and names the identifier that the envelope carried.
pub open spec fn stale_response(envelope: EnvelopeView) -> ResponseView {
    failure_response(NO_REQUEST, STALE_REPLY_PREFIX@ + envelope.id)
}

/// The response that reports an envelope for a request that is not in
/// flight.
pub fn make_stale_response(envelope: &IpcEnvelope) -> (response: BrowserResponse)
    ensures
        response@ == stale_response(envelope@),
{
    let mut text = STALE_REPLY_PREFIX.to_owned();
    text.append(envelope.id.as_str());
    BrowserResponse::failure(NO_REQUEST, text)
}

/// The response that reports a message from the page that could not be
/// read.
pub fn make_unreadable_response(error: &ProtocolError) -> (response: BrowserResponse)
    ensures
        response@ == unreadable_response(error@),
{
    let mut text = IPC_PARSE_ERROR_PREFIX.to_owned();
    text.append(error.message().as_str());
    BrowserResponse::failure(NO_REQUEST, text)
}

pub const EMPTY_JSON_STRING: &'static str = "\"\"";

/// The result of a navigation, given how writing the final address as a
/// JSON string went: that string, or an empty JSON string where it could
/// not be written.
pub open spec fn loaded_result(quoted_url: Result<Seq<char>, Seq<char>>) -> Seq<char> {
    match quoted_url {
        Ok(text) => text,
        Err(_) => EMPTY_JSON_STRING@,
    }
}

/// The response that reports that the navigation `id` has loaded the page
/// at `url`: a success whose result is that address as a JSON string.
pub open spec fn loaded_response(id: i64, url: Seq<char>) -> ResponseView {
    success_response(id, json_quoted(url))
}

/// The response that reports that the navigation `id` has loaded its page,
/// given how writing the page's address as a JSON string went.
pub fn make_loaded_response(id: i64, quoted_url: Result<String, serde_json::Error>) -> (response:
    BrowserResponse)
    ensures
        response@ == success_response(
            id,
            loaded_result(
                match quoted_url {
                    Ok(text) => Ok(text@),
                    Err(error) => Err(json_error_text(error)),
                },
            ),
        ),
{
    let result_json = match quoted_url {
        Ok(text) => text,
        Err(_) => EMPTY_JSON_STRING.to_owned(),
    };
    BrowserResponse::success(id, result_json)
}

/// What reaches the engine's loop: the host's control events, what the
/// browser engine and the page report, the timer's ticks, and what came of
/// the actions that the loop carried out.
#[derive(Debug, Clone, PartialEq)]
pub enum Event {
    /// The host asks to load `url` as request `id`.
    Navigate { id: i64, url: String, timeout_ms: u64 },
    /// The host asks the page to carry out `cmd` as request `id`.
    RunCommand { id: i64, cmd: Command, timeout_ms: u64 },
    /// The browser engine refused at once to load the address of request
    /// `id`.
    NavigateFailed { id: i64, error: String },
    /// The browser engine refused at once to run the dispatch script of
    /// request `id`.
    RunCommandFailed { id: i64, error: String },
    /// The page posted a message.
    IpcEnvelope(String),
    /// The browser engine finished loading a page, whose address is given.
    PageLoadFinished(String),
    /// The timer fired.
    Tick,
    /// The host sets the capture rate.
    SetCaptureFps { fps: i32 },
    /// The host asks for a capture at the next tick.
    CaptureOnce,
    /// The capture in flight delivered a frame.
    CaptureFinished(Vec<u8>),
    /// The capture in flight failed.
    CaptureFailed(String),
    /// The host asks the loop to end.
    Stop,
}

/// An `Event` with its texts and bytes as sequences.
pub enum EventView {
    Navigate { id: i64, url: Seq<char>, timeout_ms: u64 },
    RunCommand { id: i64, cmd: CommandView, timeout_ms: u64 },
    NavigateFailed { id: i64, error: Seq<char> },
    RunCommandFailed { id: i64, error: Seq<char> },
    IpcEnvelope(Seq<char>),
    PageLoadFinished(Seq<char>),
    Tick,
    SetCaptureFps { fps: i32 },
    CaptureOnce,
    CaptureFinished(Seq<u8>),
    CaptureFailed(Seq<char>),
    Stop,
}

impl View for Event {
    type V = EventView;

    open spec fn view(&self) -> EventView {
        match self {
            Event::Navigate { id, url, timeout_ms } => EventView::Navigate {
                id: *id,
                url: url@,
                timeout_ms: *timeout_ms,
            },
            Event::RunCommand { id, cmd, timeout_ms } => EventView::RunCommand {
                id: *id,
                cmd: cmd@,
                timeout_ms: *timeout_ms,
            },
            Event::NavigateFailed { id, error } => EventView::NavigateFailed {
                id: *id,
                error: error@,
            },
            Event::RunCommandFailed { id, error } => EventView::RunCommandFailed {
                id: *id,
                error: error@,
            },
            Event::IpcEnvelope(body) => EventView::IpcEnvelope(body@),
            Event::PageLoadFinished(url) => EventView::PageLoadFinished(url@),
            Event::Tick => EventView::Tick,
            Event::SetCaptureFps { fps } => EventView::SetCaptureFps { fps: *fps },
            Event::CaptureOnce => EventView::CaptureOnce,
            Event::CaptureFinished(frame) => EventView::CaptureFinished(frame@),
            Event::CaptureFailed(error) => EventView::CaptureFailed(error@),
            Event::Stop => EventView::Stop,
        }
    }
}

/// What the loop is to do after an event.
#[derive(Debug, Clone, PartialEq)]
pub enum Action {
    /// Tell the browser engine to load `url`; report a refusal as
    /// `NavigateFailed` for `id`.
    LoadUrl { id: i64, url: String },
    /// Run `script` in the page; report a refusal as `RunCommandFailed` for
    /// `id`.
    EvaluateScript { id: i64, script: String },
    /// Send a response to the host.
    Respond(BrowserResponse),
    /// Ask the browser engine for a frame; report what comes of it as
    /// `CaptureFinished` or `CaptureFailed`.
    RequestCapture,
    /// Send a frame to the host.
    EmitFrame(Vec<u8>),
    /// Leave the loop.
    Exit,
}

/// An `Action` with its texts and bytes as sequences.
pub enum ActionView {
    LoadUrl { id: i64, url: Seq<char> },
    EvaluateScript { id: i64, script: Seq<char> },
    Respond(ResponseView),
    RequestCapture,
    EmitFrame(Seq<u8>),
    Exit,
}

impl View for Action {
    type V = ActionView;

    open spec fn view(&self) -> ActionView {
        match self {
            Action::LoadUrl { id, url } => ActionView::LoadUrl { id: *id, url: url@ },
            Action::EvaluateScript { id, script } => ActionView::EvaluateScript {
                id: *id,
                script: script@,
            },
            Action::Respond(response) => ActionView::Respond(response@),
            Action::RequestCapture => ActionView::RequestCapture,
            Action::EmitFrame(frame) => ActionView::EmitFrame(frame@),
            Action::Exit => ActionView::Exit,
        }
    }
}

/// The views of a list of actions, in order.
pub open spec fn action_views(actions: Seq<Action>) -> Seq<ActionView> {
    Seq::new(actions.len(), |i: int| actions[i]@)
}

/// The state that the engine's loop owns.
pub struct EngineView {
    /// The deadline of every request in flight.
    pub pending: Map<i64, u64>,
    /// The kind of every request in flight, for the text of a timeout.
    pub kinds: Map<i64, RequestKind>,
    /// The navigation whose page load is awaited, if any.
    pub navigation: Option<i64>,
    /// The capture cadence, where frames are streamed.
    pub capture: Option<ScheduleView>,
}

/// The engine before any event: nothing in flight.
pub open spec fn initial_engine(capture: Option<ScheduleView>) -> EngineView {
    EngineView {
        pending: Map::<i64, u64>::empty(),
        kinds: Map::<i64, RequestKind>::empty(),
        navigation: None,
        capture,
    }
}

/// `change` applied to the capture cadence, where there is one.
pub open spec fn map_capture(
    capture: Option<ScheduleView>,
    change: spec_fn(ScheduleView) -> ScheduleView,
) -> Option<ScheduleView> {
    match capture {
        Some(schedule) => Some(change(schedule)),
        None => None,
    }
}

/// The state without the request `id`.
pub open spec fn without_request(state: EngineView, id: i64) -> EngineView {
    EngineView { pending: state.pending.remove(id), kinds: state.kinds.remove(id), ..state }
}

/// The state after the request `id` was ended: without it where it was in
/// flight, unchanged where it was not.
pub open spec fn ended(state: EngineView, id: i64) -> EngineView {
    if state.pending.contains_key(id) {
        without_request(state, id)
    } else {
        state
    }
}

/// The identifier under which an outcome for the request `id` is reported:
/// `id` itself where that request is in flight, so that the report ends it;
/// `NO_REQUEST` where it is not, so that no request is answered twice.
pub open spec fn reported_under(state: EngineView, id: i64) -> i64 {
    if state.pending.contains_key(id) {
        id
    } else {
        NO_REQUEST
    }
}

/// The state after a navigation was begun as request `id`: it is in flight,
/// it alone occupies the navigation slot, and captures wait for its page.
pub open spec fn after_navigate(state: EngineView, id: i64, timeout_ms: u64, now_ms: u64) -> EngineView {
    EngineView {
        pending: state.pending.insert(id, deadline_of(now_ms, timeout_ms)),
        kinds: state.kinds.insert(id, RequestKind::Navigation),
        navigation: Some(id),
        capture: map_capture(state.capture, |c: ScheduleView| after_navigation_started(c)),
    }
}

/// The state after a command was dispatched as request `id`.
pub open spec fn after_run_command(state: EngineView, id: i64, timeout_ms: u64, now_ms: u64) -> EngineView {
    EngineView {
        pending: state.pending.insert(id, deadline_of(now_ms, timeout_ms)),
        kinds: state.kinds.insert(id, RequestKind::Script),
        ..state
    }
}

/// The state after the navigation `id` was refused: where it was in
/// flight, the request is gone and the navigation slot is empty; where it
/// was not, nothing changes.
pub open spec fn after_navigate_failed(state: EngineView, id: i64) -> EngineView {
    if state.pending.contains_key(id) {
        EngineView { navigation: None, ..without_request(state, id) }
    } else {
        state
    }
}

/// The state after an envelope arrived: the request that it answers is
/// gone; an envelope for a request that is not in flight changes nothing.
pub open spec fn after_envelope(state: EngineView, envelope: EnvelopeView) -> EngineView {
    ended(state, envelope_request_id(envelope))
}

/// The state after the page posted `body`: the request that a readable
/// envelope answers is gone; an unreadable message changes nothing.
pub open spec fn after_ipc(state: EngineView, body: Seq<char>) -> EngineView {
    match envelope_in(body) {
        Ok(envelope) => after_envelope(state, envelope),
        Err(_) => state,
    }
}

/// The state after a page finished loading at `now_ms`: the slot is empty,
/// the navigation that occupied it, if any, is gone, and captures may go
/// ahead.
pub open spec fn after_page_load(state: EngineView, now_ms: u64) -> EngineView {
    match state.navigation {
        Some(id) => EngineView {
            navigation: None,
            capture: map_capture(state.capture, |c: ScheduleView| after_page_loaded(c, now_ms)),
            ..ended(state, id)
        },
        None => state,
    }
}

/// The state after a tick at `now_ms`: every request due is gone, the
/// navigation slot is empty if its occupant was due, and the capture
/// cadence has moved on.
pub open spec fn after_engine_tick(state: EngineView, now_ms: u64) -> EngineView {
    EngineView {
        pending: after_sweep(state.pending, now_ms),
        kinds: state.kinds.remove_keys(due_ids(state.pending, now_ms)),
        navigation: match state.navigation {
            Some(id) => if is_due(state.pending, id, now_ms) {
                None
            } else {
                Some(id)
            },
            None => None,
        },
        capture: map_capture(state.capture, |c: ScheduleView| after_tick(c, now_ms)),
    }
}

/// The state after `event` at `now_ms`.
pub open spec fn next_state(state: EngineView, event: EventView, now_ms: u64) -> EngineView {
    match event {
        EventView::Navigate { id, url, timeout_ms } => after_navigate(state, id, timeout_ms, now_ms),
        EventView::RunCommand { id, cmd, timeout_ms } => after_run_command(
            state,
            id,
            timeout_ms,
            now_ms,
        ),
        EventView::NavigateFailed { id, error } => after_navigate_failed(state, id),
        EventView::RunCommandFailed { id, error } => ended(state, id),
        EventView::IpcEnvelope(body) => after_ipc(state, body),
        EventView::PageLoadFinished(url) => after_page_load(state, now_ms),
        EventView::Tick => after_engine_tick(state, now_ms),
        EventView::SetCaptureFps { fps } => EngineView {
            capture: map_capture(state.capture, |c: ScheduleView| after_set_fps(c, fps, now_ms)),
            ..state
        },
        EventView::CaptureOnce => EngineView {
            capture: map_capture(state.capture, |c: ScheduleView| after_capture_once(c, now_ms)),
            ..state
        },
        EventView::CaptureFinished(frame) => EngineView {
            capture: map_capture(state.capture, |c: ScheduleView| after_capture_done(c)),
            ..state
        },
        EventView::CaptureFailed(error) => EngineView {
            capture: map_capture(state.capture, |c: ScheduleView| after_capture_done(c)),
            ..state
        },
        EventView::Stop => state,
    }
}

/// Whether an envelope that names the request `id` is forwarded: the
/// request is in flight, or the envelope names no request at all.
pub open spec fn is_forwarded(state: EngineView, id: i64) -> bool {
    state.pending.contains_key(id) || id == NO_REQUEST
}

/// The response to an envelope: the envelope is forwarded where the request
/// that it answers is in flight, or where it names no request; an envelope
/// for a request that is not in flight is reported under `NO_REQUEST` as a
/// stale reply.
pub open spec fn answer_to_envelope(state: EngineView, envelope: EnvelopeView) -> ResponseView {
    if is_forwarded(state, envelope_request_id(envelope)) {
        envelope_response(envelope)
    } else {
        stale_response(envelope)
    }
}

/// The response to a message `body` from the page: the answer to the
/// envelope that `body` holds, or a report under `NO_REQUEST` that `body`
/// could not be read.
pub open spec fn ipc_response(state: EngineView, body: Seq<char>) -> ResponseView {
    match envelope_in(body) {
        Ok(envelope) => answer_to_envelope(state, envelope),
        Err(error) => unreadable_response(error),
    }
}

/// The response to the end of a page load: the navigation in the slot
/// succeeds with the page's address where it is still in flight; otherwise
/// there is none.
pub open spec fn page_load_response(state: EngineView, url: Seq<char>) -> Option<ResponseView> {
    match state.navigation {
        Some(id) => if state.pending.contains_key(id) {
            Some(loaded_response(id, url))
        } else {
            None
        },
        None => None,
    }
}

/// The responses that report the timeouts of `ids`, in order.
pub open spec fn timeout_actions(ids: Seq<i64>, kinds: Map<i64, RequestKind>) -> Seq<ActionView> {
    Seq::new(ids.len(), |i: int| ActionView::Respond(timeout_response(ids[i], kind_of(kinds, ids[i]))))
}

/// Whether `ids` lists, each once and in any order, the requests of
/// `pending` that are due at `now_ms`.
pub open spec fn lists_due(ids: Seq<i64>, pending: Map<i64, u64>, now_ms: u64) -> bool {
    ids.no_duplicates() && forall|id: i64| ids.contains(id) <==> is_due(pending, id, now_ms)
}

/// The capture request that a tick at `now_ms` begins with, if one is due.
pub open spec fn capture_actions(capture: Option<ScheduleView>, now_ms: u64) -> Seq<ActionView> {
    match capture {
        Some(schedule) => if capture_due(schedule, now_ms) {
            seq![ActionView::RequestCapture]
        } else {
            Seq::<ActionView>::empty()
        },
        None => Seq::<ActionView>::empty(),
    }
}

/// Whether `actions` may follow a tick at `now_ms`: a capture request where
/// one is due, then one timeout response for each request that is due, in
/// any order.
pub open spec fn tick_allowed(state: EngineView, now_ms: u64, actions: Seq<ActionView>) -> bool {
    exists|ids: Seq<i64>| #[trigger]
        lists_due(ids, state.pending, now_ms) && actions == capture_actions(state.capture, now_ms)
            + timeout_actions(ids, state.kinds)
}

/// Whether `actions` may follow `event` at `now_ms` in `state`.
pub open spec fn actions_allowed(
    state: EngineView,
    event: EventView,
    now_ms: u64,
    actions: Seq<ActionView>,
) -> bool {
    match event {
        EventView::Navigate { id, url, timeout_ms } => actions == seq![
            ActionView::LoadUrl { id, url },
        ],
        EventView::RunCommand { id, cmd, timeout_ms } => actions == seq![
            ActionView::EvaluateScript { id, script: dispatch_script(int_text(id as int), cmd) },
        ],
        EventView::NavigateFailed { id, error } => actions == seq![
            ActionView::Respond(failure_response(reported_under(state, id), error)),
        ],
        EventView::RunCommandFailed { id, error } => actions == seq![
            ActionView::Respond(failure_response(reported_under(state, id), error)),
        ],
        EventView::IpcEnvelope(body) => actions == seq![
            ActionView::Respond(ipc_response(state, body)),
        ],
        EventView::PageLoadFinished(url) => match page_load_response(state, url) {
            Some(response) => actions == seq![ActionView::Respond(response)],
            None => actions.len() == 0,
        },
        EventView::Tick => tick_allowed(state, now_ms, actions),
        EventView::SetCaptureFps { fps } => actions.len() == 0,
        EventView::CaptureOnce => actions.len() == 0,
        EventView::CaptureFinished(frame) => actions == seq![ActionView::EmitFrame(frame)],
        EventView::CaptureFailed(error) => actions == seq![
            ActionView::Respond(failure_response(NO_REQUEST, error)),
        ],
        EventView::Stop => actions == seq![ActionView::Exit],
    }
}

/// Whether every response among `actions` that answers a request ends that
/// request: the request is in flight in `before` and gone in `after`.
/// Responses under `NO_REQUEST` answer no request.
pub open spec fn responses_end_requests(
    before: EngineView,
    after: EngineView,
    actions: Seq<ActionView>,
) -> bool {
    forall|a: int|
        0 <= a < actions.len() ==> (#[trigger] actions[a] matches ActionView::Respond(response)
            ==> response.request_id == NO_REQUEST || (before.pending.contains_key(
            response.request_id,
        ) && !after.pending.contains_key(response.request_id)))
}

/// A response carries a request's identifier only from the step that ends
/// that request: whatever the event, each response that the engine decides
/// on either answers no request, or answers one that was in flight before
/// the event and is gone after it.
pub proof fn lemma_responses_end_requests(
    state: EngineView,
    event: EventView,
    now_ms: u64,
    actions: Seq<ActionView>,
)
    requires
        actions_allowed(state, event, now_ms, actions),
    ensures
        responses_end_requests(state, next_state(state, event, now_ms), actions),
{
    let after = next_state(state, event, now_ms);
    assert forall|a: int| 0 <= a < actions.len() implies (#[trigger] actions[a] matches ActionView::Respond(
        response,
    ) ==> response.request_id == NO_REQUEST || (state.pending.contains_key(response.request_id)
        && !after.pending.contains_key(response.request_id))) by {
        if event is Tick {
            let ids = choose|ids: Seq<i64>| #[trigger]
                lists_due(ids, state.pending, now_ms) && actions == capture_actions(
                    state.capture,
                    now_ms,
                ) + timeout_actions(ids, state.kinds);
            let lead = capture_actions(state.capture, now_ms);
            if a >= lead.len() {
                assert(ids.contains(ids[a - lead.len()]));
            }
        }
    }
}

/// The bookkeeping of the engine's loop: which requests are in flight, what
/// kind each is, which navigation is awaited, and the capture cadence.
///
/// First wins: a request ends with the first of a reply from the page, a
/// refusal by the browser engine, a finished page load and a timeout that
/// reaches the engine, and only that one is reported under the request's
/// identifier.
#[derive(Debug)]
pub struct Engine {
    pending: PendingRequests,
    kinds: HashMap<i64, RequestKind>,
    navigation: Option<i64>,
    capture: Option<CaptureSchedule>,
}

impl View for Engine {
    type V = EngineView;

    closed spec fn view(&self) -> EngineView {
        EngineView {
            pending: self.pending@,
            kinds: self.kinds@,
            navigation: self.navigation,
            capture: match self.capture {
                Some(schedule) => Some(schedule@),
                None => None,
            },
        }
    }
}

impl Engine {
    /// An engine that answers requests and streams no frames.
    pub fn new() -> (engine: Self)
        ensures
            engine@ == initial_engine(None),
    {
        Engine {
            pending: PendingRequests::new(),
            kinds: HashMap::new(),
            navigation: None,
            capture: None,
        }
    }

    /// An engine that answers requests and streams frames at `fps` frames
    /// per second, created at `now_ms`.
    pub fn with_capture(fps: i32, now_ms: u64) -> (engine: Self)
        ensures
            engine@ == initial_engine(Some(initial_schedule(fps, now_ms))),
    {
        Engine {
            pending: PendingRequests::new(),
            kinds: HashMap::new(),
            navigation: None,
            capture: Some(CaptureSchedule::new(fps, now_ms)),
        }
    }

    /// Ends the request `id` where it is in flight; says whether it was.
    /// This is the one way in which a request ends before its deadline, so
    /// whichever outcome gets here first is the one that is reported.
    fn end_request(&mut self, id: i64) -> (was_pending: bool)
        ensures
            final(self)@ == ended(old(self)@, id),
            was_pending == old(self)@.pending.contains_key(id),
    {
        if self.pending.complete(id) {
            self.kinds.remove(&id);
            true
        } else {
            false
        }
    }

    /// Begins the navigation `id`: records its deadline, gives it the
    /// navigation slot, and has the loop load `url`.
    pub fn navigate(&mut self, id: i64, url: String, timeout_ms: u64, now_ms: u64) -> (action: Action)
        ensures
            final(self)@ == after_navigate(old(self)@, id, timeout_ms, now_ms),
            action@ == (ActionView::LoadUrl { id, url: url@ }),
    {
        match &mut self.capture {
            Some(schedule) => {
                schedule.navigation_started();
            },
            None => {},
        }
        self.pending.insert(id, now_ms, timeout_ms);
        self.kinds.insert(id, RequestKind::Navigation);
        self.navigation = Some(id);
        Action::LoadUrl { id, url }
    }

    /// Begins the command `id`: records its deadline and has the loop run
    /// the dispatch script in the page.
    pub fn run_command(&mut self, id: i64, cmd: Command, timeout_ms: u64, now_ms: u64) -> (action:
        Action)
        ensures
            final(self)@ == after_run_command(old(self)@, id, timeout_ms, now_ms),
            action@ == (ActionView::EvaluateScript {
                id,
                script: dispatch_script(int_text(id as int), cmd@),
            }),
    {
        self.pending.insert(id, now_ms, timeout_ms);
        self.kinds.insert(id, RequestKind::Script);
        let script = build_dispatch_script(format_i64(id).as_str(), cmd);
        Action::EvaluateScript { id, script }
    }

    /// Ends the navigation `id` that the browser engine refused at once.
    /// The refusal is reported under `id` where the navigation was in
    /// flight, and under `NO_REQUEST` where it was not.
    pub fn navigate_failed(&mut self, id: i64, error: String) -> (response: BrowserResponse)
        ensures
            final(self)@ == after_navigate_failed(old(self)@, id),
            response@ == failure_response(reported_under(old(self)@, id), error@),
    {
        if self.end_request(id) {
            self.navigation = None;
            BrowserResponse::failure(id, error)
        } else {
            BrowserResponse::failure(NO_REQUEST, error)
        }
    }

    /// Ends the command `id` whose script the browser engine refused at
    /// once. The refusal is reported under `id` where the command was in
    /// flight, and under `NO_REQUEST` where it was not.
    pub fn run_command_failed(&mut self, id: i64, error: String) -> (response: BrowserResponse)
        ensures
            final(self)@ == ended(old(self)@, id),
            response@ == failure_response(reported_under(old(self)@, id), error@),
    {
        if self.end_request(id) {
            BrowserResponse::failure(id, error)
        } else {
            BrowserResponse::failure(NO_REQUEST, error)
        }
    }

    /// Ends the request that a message from the page answers, given what
    /// reading that message gave.
    ///
    /// A readable envelope for a request in flight ends that request and is
    /// forwarded under its identifier. One for a request that is not in
    /// flight, because a timeout or another reply came first, touches
    /// nothing and is reported under `NO_REQUEST` as a stale reply; so is
    /// an unreadable message, as a parse error. Nothing is dropped
    /// silently, and no request is answered twice.
    pub fn envelope_received(&mut self, parsed: Result<IpcEnvelope, ProtocolError>) -> (response:
        BrowserResponse)
        ensures
            match parsed {
                Ok(envelope) => final(self)@ == after_envelope(old(self)@, envelope@) && response@
                    == answer_to_envelope(old(self)@, envelope@),
                Err(error) => final(self)@ == old(self)@ && response@ == unreadable_response(
                    error@,
                ),
            },
            response@.request_id != NO_REQUEST ==> old(self)@.pending.contains_key(
                response@.request_id,
            ) && !final(self)@.pending.contains_key(response@.request_id),
    {
        match parsed {
            Ok(envelope) => {
                let request_id = match parse_i64(envelope.id.as_str()) {
                    Some(id) => id,
                    None => NO_REQUEST,
                };
                if self.end_request(request_id) || request_id == NO_REQUEST {
                    make_envelope_response(envelope)
                } else {
                    make_stale_response(&envelope)
                }
            },
            Err(error) => make_unreadable_response(&error),
        }
    }

    /// Handles a message that the page posted.
    pub fn ipc_envelope(&mut self, body: &str) -> (response: BrowserResponse)
        ensures
            final(self)@ == after_ipc(old(self)@, body@),
            response@ == ipc_response(old(self)@, body@),
            envelope_in(body@) is Err ==> final(self)@ == old(self)@ && response@.request_id
                == NO_REQUEST && !response@.ok,
            response@.request_id != NO_REQUEST ==> old(self)@.pending.contains_key(
                response@.request_id,
            ) && !final(self)@.pending.contains_key(response@.request_id),
    {
        self.envelope_received(parse_ipc_envelope(body))
    }

    /// Handles the end of a page load: the slot is cleared, and the
    /// navigation that occupied it succeeds with the page's address as its
    /// result if it is still in flight. Where something else has answered
    /// it first, there is no response.
    pub fn page_load_finished(&mut self, url: &str, now_ms: u64) -> (response: Option<
        BrowserResponse,
    >)
        ensures
            final(self)@ == after_page_load(old(self)@, now_ms),
            match page_load_response(old(self)@, url@) {
                Some(expected) => response matches Some(r) && r@ == expected,
                None => response is None,
            },
    {
        match self.navigation {
            Some(id) => {
                self.navigation = None;
                match &mut self.capture {
                    Some(schedule) => {
                        schedule.page_loaded(now_ms);
                    },
                    None => {},
                }
                if self.end_request(id) {
                    Some(make_loaded_response(id, quote(url)))
                } else {
                    None
                }
            },
            None => None,
        }
    }

    /// Handles a tick: requests a capture where one is due, then ends every
    /// request whose deadline has come with a timeout response.
    pub fn tick(&mut self, now_ms: u64) -> (actions: Vec<Action>)
        ensures
            final(self)@ == after_engine_tick(old(self)@, now_ms),
            tick_allowed(old(self)@, now_ms, action_views(actions@)),
    {
        let mut actions: Vec<Action> = Vec::new();
        let capture_now = match &mut self.capture {
            Some(schedule) => schedule.tick(now_ms),
            None => false,
        };
        if capture_now {
            actions.push(Action::RequestCapture);
        }
        let ghost lead = action_views(actions@);
        assert(lead =~= capture_actions(old(self)@.capture, now_ms));
        let ids = self.pending.expired(now_ms);
        let ghost swept = self@;
        let mut i: usize = 0;
        assert(ids@.take(0) =~= Seq::<i64>::empty());
        assert(action_views(actions@) =~= lead + timeout_actions(ids@.take(0), old(self)@.kinds));
        assert(self@.kinds =~= old(self)@.kinds.remove_keys(ids@.take(0).to_set()));
        while i < ids.len()
            invariant
                i <= ids.len(),
                ids@.no_duplicates(),
                self@.pending == swept.pending,
                self@.capture == swept.capture,
                self@.kinds == old(self)@.kinds.remove_keys(ids@.take(i as int).to_set()),
                self@.navigation == match old(self)@.navigation {
                    Some(id) => if ids@.take(i as int).contains(id) {
                        None
                    } else {
                        Some(id)
                    },
                    None => None,
                },
                action_views(actions@) == lead + timeout_actions(
                    ids@.take(i as int),
                    old(self)@.kinds,
                ),
            decreases ids.len() - i,
        {
            let id = ids[i];
            let ghost done = ids@.take(i as int);
            let ghost kinds_before = self@.kinds;
            let ghost actions_before = action_views(actions@);
            let kind = self.kinds.remove(&id);
            match self.navigation {
                Some(occupant) => {
                    if occupant == id {
                        self.navigation = None;
                    }
                },
                None => {},
            }
            actions.push(Action::Respond(make_timeout_response(id, kind)));
            proof {
                let next = ids@.take(i + 1);
                assert(next =~= done.push(id));
                assert(!done.contains(id)) by {
                    if done.contains(id) {
                        let k = choose|k: int| 0 <= k < done.len() && done[k] == id;
                        assert(ids@[k] == ids@[i as int]);
                    }
                }
                assert forall|other: i64| next.contains(other) <==> done.contains(other) || other
                    == id by {
                    if done.contains(other) {
                        let k = choose|k: int| 0 <= k < done.len() && done[k] == other;
                        assert(next[k] == other);
                    }
                    assert(next[i as int] == id);
                }
                assert(next.to_set() =~= done.to_set().insert(id));
                assert(self@.kinds =~= old(self)@.kinds.remove_keys(next.to_set()));
                assert(kind == kind_of(old(self)@.kinds, id));
                assert(action_views(actions@) =~= actions_before.push(
                    ActionView::Respond(timeout_response(id, kind_of(old(self)@.kinds, id))),
                ));
                assert(action_views(actions@) =~= lead + timeout_actions(next, old(self)@.kinds));
            }
            i += 1;
        }
        proof {
            assert(ids@.take(ids@.len() as int) =~= ids@);
            assert(ids@.to_set() =~= due_ids(old(self)@.pending, now_ms));
            assert(lists_due(ids@, old(self)@.pending, now_ms));
            assert(self@.kinds =~= old(self)@.kinds.remove_keys(
                due_ids(old(self)@.pending, now_ms),
            ));
        }
        actions
    }

    /// Sets the capture rate, where frames are streamed.
    pub fn set_capture_fps(&mut self, fps: i32, now_ms: u64)
        ensures
            final(self)@ == next_state(old(self)@, EventView::SetCaptureFps { fps }, now_ms),
    {
        match &mut self.capture {
            Some(schedule) => {
                schedule.set_fps(fps, now_ms);
            },
            None => {},
        }
    }

    /// Makes the next tick eligible to capture, where frames are streamed.
    pub fn capture_once(&mut self, now_ms: u64)
        ensures
            final(self)@ == next_state(old(self)@, EventView::CaptureOnce, now_ms),
    {
        match &mut self.capture {
            Some(schedule) => {
                schedule.capture_once(now_ms);
            },
            None => {},
        }
    }

    /// Records that the capture in flight has ended.
    pub fn capture_done(&mut self)
        ensures
            final(self)@ == (EngineView {
                capture: map_capture(old(self)@.capture, |c: ScheduleView| after_capture_done(c)),
                ..old(self)@
            }),
    {
        match &mut self.capture {
            Some(schedule) => {
                schedule.capture_done();
            },
            None => {},
        }
    }

    /// Decides what follows `event`, which reached the loop at `now_ms`.
    pub fn handle(&mut self, event: Event, now_ms: u64) -> (actions: Vec<Action>)
        ensures
            final(self)@ == next_state(old(self)@, event@, now_ms),
            actions_allowed(old(self)@, event@, now_ms, action_views(actions@)),
            responses_end_requests(old(self)@, final(self)@, action_views(actions@)),
    {
        let ghost given = event@;
        let mut actions: Vec<Action> = Vec::new();
        match event {
            Event::Navigate { id, url, timeout_ms } => {
                let action = self.navigate(id, url, timeout_ms, now_ms);
                actions.push(action);
                assert(action_views(actions@) =~= seq![action@]);
            },
            Event::RunCommand { id, cmd, timeout_ms } => {
                let action = self.run_command(id, cmd, timeout_ms, now_ms);
                actions.push(action);
                assert(action_views(actions@) =~= seq![action@]);
            },
            Event::NavigateFailed { id, error } => {
                let response = self.navigate_failed(id, error);
                actions.push(Action::Respond(response));
                assert(action_views(actions@) =~= seq![ActionView::Respond(response@)]);
            },
            Event::RunCommandFailed { id, error } => {
                let response = self.run_command_failed(id, error);
                actions.push(Action::Respond(response));
                assert(action_views(actions@) =~= seq![ActionView::Respond(response@)]);
            },
            Event::IpcEnvelope(body) => {
                let response = self.ipc_envelope(body.as_str());
                actions.push(Action::Respond(response));
                assert(action_views(actions@) =~= seq![ActionView::Respond(response@)]);
            },
            Event::PageLoadFinished(url) => {
                match self.page_load_finished(url.as_str(), now_ms) {
                    Some(response) => {
                        actions.push(Action::Respond(response));
                        assert(action_views(actions@) =~= seq![ActionView::Respond(response@)]);
                    },
                    None => {},
                }
            },
            Event::Tick => {
                actions = self.tick(now_ms);
            },
            Event::SetCaptureFps { fps } => {
                self.set_capture_fps(fps, now_ms);
            },
            Event::CaptureOnce => {
                self.capture_once(now_ms);
            },
            Event::CaptureFinished(frame) => {
                self.capture_done();
                let ghost bytes = frame@;
                actions.push(Action::EmitFrame(frame));
                assert(action_views(actions@) =~= seq![ActionView::EmitFrame(bytes)]);
            },
            Event::CaptureFailed(error) => {
                self.capture_done();
                let response = BrowserResponse::failure(NO_REQUEST, error);
                actions.push(Action::Respond(response));
                assert(action_views(actions@) =~= seq![ActionView::Respond(response@)]);
            },
            Event::Stop => {
                actions.push(Action::Exit);
                assert(action_views(actions@) =~= seq![ActionView::Exit]);
            },
        }
        proof {
            lemma_responses_end_requests(old(self)@, given, now_ms, action_views(actions@));
        }
        actions
    }
}

} // verus!
