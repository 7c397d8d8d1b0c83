//! The messages exchanged with the scripted page: commands sent to it as
//! dispatch scripts, and the result envelopes that it posts back.

use crate::decimal::nat_text;
use crate::decimal::push_u64;
use crate::json::as_flag;
use crate::json::as_text;
use crate::json::debug_quote;
use crate::json::debug_quoted;
use crate::json::error_message;
use crate::json::is_null;
use crate::json::json_error_text;
use crate::json::json_parse;
use crate::json::json_quoted;
use crate::json::json_text;
use crate::json::json_view;
use crate::json::member;
use crate::json::parse_document;
use crate::json::quote;
use crate::json::render;
use crate::json::JsonView;
use vstd::prelude::*;
use vstd::string::StringExecFns;

verus! {

/// An action for the page to carry out.
#[derive(Debug, Clone, PartialEq)]
pub enum Command {
    Eval { js: String },
    Click { selector: String },
    Fill { selector: String, text: String },
    Text { selector: String },
    Attr { selector: String, name: String },
    WaitForSelector { selector: String, timeout_ms: u64 },
}

/// A `Command` with its texts as sequences of characters.
pub enum CommandView {
    Eval { js: Seq<char> },
    Click { selector: Seq<char> },
    Fill { selector: Seq<char>, text: Seq<char> },
    Text { selector: Seq<char> },
    Attr { selector: Seq<char>, name: Seq<char> },
    WaitForSelector { selector: Seq<char>, timeout_ms: u64 },
}

impl View for Command {
    type V = CommandView;

    open spec fn view(&self) -> CommandView {
        match self {
            Command::Eval { js } => CommandView::Eval { js: js@ },
            Command::Click { selector } => CommandView::Click { selector: selector@ },
            Command::Fill { selector, text } => CommandView::Fill {
                selector: selector@,
                text: text@,
            },
            Command::Text { selector } => CommandView::Text { selector: selector@ },
            Command::Attr { selector, name } => CommandView::Attr {
                selector: selector@,
                name: name@,
            },
            Command::WaitForSelector { selector, timeout_ms } => CommandView::WaitForSelector {
                selector: selector@,
                timeout_ms: *timeout_ms,
            },
        }
    }
}

/// What the page reports for one request.
#[derive(Debug, Clone, PartialEq)]
pub struct IpcEnvelope {
    pub id: String,
    pub ok: bool,
    /// The compact JSON text of the result; `None` where it is absent or
    /// null.
    pub result: Option<String>,
    pub error: Option<String>,
}

/// An `IpcEnvelope` with its texts as sequences of characters.
pub struct EnvelopeView {
    pub id: Seq<char>,
    pub ok: bool,
    pub result: Option<Seq<char>>,
    pub error: Option<Seq<char>>,
}

impl View for IpcEnvelope {
    type V = EnvelopeView;

    open spec fn view(&self) -> EnvelopeView {
        EnvelopeView {
            id: self.id@,
            ok: self.ok,
            result: match self.result {
                Some(text) => Some(text@),
                None => None,
            },
            error: match self.error {
                Some(text) => Some(text@),
                None => None,
            },
        }
    }
}

/// Why a message could not be read or written.
#[derive(Debug)]
pub enum ProtocolError {
    /// A result envelope was not JSON, or not of the envelope's shape.
    InvalidJson(String),
    /// A dispatch request could not be written as JSON.
    Serialize(String),
}

/// A `ProtocolError` with its detail as a sequence of characters.
pub enum ProtocolErrorView {
    InvalidJson(Seq<char>),
    Serialize(Seq<char>),
}

impl View for ProtocolError {
    type V = ProtocolErrorView;

    open spec fn view(&self) -> ProtocolErrorView {
        match self {
            ProtocolError::InvalidJson(detail) => ProtocolErrorView::InvalidJson(detail@),
            ProtocolError::Serialize(detail) => ProtocolErrorView::Serialize(detail@),
        }
    }
}

pub const INVALID_JSON_PREFIX: &'static str = "invalid ipc envelope json: ";

pub const SERIALIZE_PREFIX: &'static str = "failed to serialize dispatch request: ";

/// The message of an error: what kind it is, then its detail.
pub open spec fn error_text(error: ProtocolErrorView) -> Seq<char> {
    match error {
        ProtocolErrorView::InvalidJson(detail) => INVALID_JSON_PREFIX@ + detail,
        ProtocolErrorView::Serialize(detail) => SERIALIZE_PREFIX@ + detail,
    }
}

impl ProtocolError {
    /// The message of this error, for display.
    pub fn message(&self) -> (text: String)
        ensures
            text@ == error_text(self@),
    {
        match self {
            ProtocolError::InvalidJson(detail) => {
                let mut text = INVALID_JSON_PREFIX.to_owned();
                text.append(detail.as_str());
                text
            },
            ProtocolError::Serialize(detail) => {
                let mut text = SERIALIZE_PREFIX.to_owned();
                text.append(detail.as_str());
                text
            },
        }
    }
}

pub const FIELD_ID: &'static str = "id";

pub const FIELD_OK: &'static str = "ok";

pub const FIELD_RESULT: &'static str = "result";

pub const FIELD_ERROR: &'static str = "error";

pub const MISSING_ID: &'static str = "missing field `id`";

pub const ID_NOT_TEXT: &'static str = "invalid type for field `id`, expected a string";

pub const MISSING_OK: &'static str = "missing field `ok`";

pub const OK_NOT_BOOL: &'static str = "invalid type for field `ok`, expected a boolean";

pub const ERROR_NOT_TEXT: &'static str = "invalid type for field `error`, expected a string";

/// The members of a JSON object; no members for any other value.
pub open spec fn members_of(doc: JsonView) -> Map<Seq<char>, JsonView> {
    match doc {
        JsonView::Object(members) => members,
        _ => Map::<Seq<char>, JsonView>::empty(),
    }
}

/// The result that an envelope object carries: the text of its `result`
/// member, or nothing where that member is missing or null.
pub open spec fn result_member(members: Map<Seq<char>, JsonView>) -> Option<Seq<char>> {
    if members.contains_key(FIELD_RESULT@) && !(members[FIELD_RESULT@] is Null) {
        Some(json_text(members[FIELD_RESULT@]))
    } else {
        None
    }
}

/// The error that an envelope object carries: the text of its `error`
/// member where that is a string, nothing otherwise.
pub open spec fn error_member(members: Map<Seq<char>, JsonView>) -> Option<Seq<char>> {
    if members.contains_key(FIELD_ERROR@) {
        match members[FIELD_ERROR@] {
            JsonView::Text(text) => Some(text),
            _ => None,
        }
    } else {
        None
    }
}

/// What is wrong with a JSON value as an envelope, if anything: the first
/// of a missing `id`, an `id` that is no string, a missing `ok`, an `ok`
/// that is no boolean, and an `error` that is neither a string nor null. A
/// value that is no object has no `id`.
pub open spec fn envelope_violation(doc: JsonView) -> Option<Seq<char>> {
    let members = members_of(doc);
    if !members.contains_key(FIELD_ID@) {
        Some(MISSING_ID@)
    } else if !(members[FIELD_ID@] is Text) {
        Some(ID_NOT_TEXT@)
    } else if !members.contains_key(FIELD_OK@) {
        Some(MISSING_OK@)
    } else if !(members[FIELD_OK@] is Bool) {
        Some(OK_NOT_BOOL@)
    } else if members.contains_key(FIELD_ERROR@) && !(members[FIELD_ERROR@] is Null)
        && !(members[FIELD_ERROR@] is Text) {
        Some(ERROR_NOT_TEXT@)
    } else {
        None
    }
}

/// The envelope that a JSON value holds: it must be an object with a string
/// `id` and a boolean `ok`; `result` may be anything or missing; `error`
/// may be a string, null or missing. Other members are ignored. Any other
/// value is an `InvalidJson` error that says what is wrong with it.
pub open spec fn envelope_of(doc: JsonView) -> Result<EnvelopeView, ProtocolErrorView> {
    match envelope_violation(doc) {
        Some(detail) => Err(ProtocolErrorView::InvalidJson(detail)),
        None => Ok(
            EnvelopeView {
                id: members_of(doc)[FIELD_ID@]->Text_0,
                ok: members_of(doc)[FIELD_OK@]->Bool_0,
                result: result_member(members_of(doc)),
                error: error_member(members_of(doc)),
            },
        ),
    }
}

/// The envelope that `text` holds, where it is JSON of the envelope's
/// shape; otherwise an `InvalidJson` error with the parser's message or
/// with what is wrong with the value.
pub open spec fn envelope_in(text: Seq<char>) -> Result<EnvelopeView, ProtocolErrorView> {
    match json_parse(text) {
        Ok(doc) => envelope_of(doc),
        Err(detail) => Err(ProtocolErrorView::InvalidJson(detail)),
    }
}

/// The view of what reading an envelope gave.
pub open spec fn envelope_outcome(r: Result<IpcEnvelope, ProtocolError>) -> Result<
    EnvelopeView,
    ProtocolErrorView,
> {
    match r {
        Ok(envelope) => Ok(envelope@),
        Err(error) => Err(error@),
    }
}

/// An `InvalidJson` error with the given detail.
fn invalid(detail: &str) -> (error: ProtocolError)
    ensures
        error@ == ProtocolErrorView::InvalidJson(detail@),
{
    ProtocolError::InvalidJson(detail.to_owned())
}

/// Reads the envelope out of a parsed JSON value.
///
/// Succeeds exactly on objects of the envelope's shape; everything else is
/// an `InvalidJson` error that names the first member at fault.
pub fn decode_envelope(doc: &serde_json::Value) -> (r: Result<IpcEnvelope, ProtocolError>)
    ensures
        envelope_outcome(r) == envelope_of(json_view(*doc)),
{
    let id = match member(doc, FIELD_ID) {
        Some(value) => match as_text(value) {
            Some(text) => text.to_owned(),
            None => {
                return Err(invalid(ID_NOT_TEXT));
            },
        },
        None => {
            return Err(invalid(MISSING_ID));
        },
    };
    let ok = match member(doc, FIELD_OK) {
        Some(value) => match as_flag(value) {
            Some(flag) => flag,
            None => {
                return Err(invalid(OK_NOT_BOOL));
            },
        },
        None => {
            return Err(invalid(MISSING_OK));
        },
    };
    let result = match member(doc, FIELD_RESULT) {
        Some(value) => if is_null(value) {
            None
        } else {
            Some(render(value))
        },
        None => None,
    };
    let error = match member(doc, FIELD_ERROR) {
        Some(value) => match as_text(value) {
            Some(text) => Some(text.to_owned()),
            None => if is_null(value) {
                None
            } else {
                return Err(invalid(ERROR_NOT_TEXT));
            },
        },
        None => None,
    };
    Ok(IpcEnvelope { id, ok, result, error })
}

/// Gives what reading a message from the page amounts to, given what the
/// JSON parser made of it: the envelope in the value that was read, or an
/// `InvalidJson` error with the parser's message.
pub fn envelope_from_document(parsed: Result<serde_json::Value, serde_json::Error>) -> (r: Result<
    IpcEnvelope,
    ProtocolError,
>)
    ensures
        envelope_outcome(r) == match parsed {
            Ok(doc) => envelope_of(json_view(doc)),
            Err(error) => Err(ProtocolErrorView::InvalidJson(json_error_text(error))),
        },
{
    match parsed {
        Ok(doc) => decode_envelope(&doc),
        Err(error) => Err(ProtocolError::InvalidJson(error_message(&error))),
    }
}

/// Reads a result envelope from the text that the page posted.
///
/// Succeeds exactly on JSON objects of the envelope's shape; everything else
/// is an `InvalidJson` error.
pub fn parse_ipc_envelope(s: &str) -> (r: Result<IpcEnvelope, ProtocolError>)
    ensures
        envelope_outcome(r) == envelope_in(s@),
        r matches Err(error) ==> error is InvalidJson,
{
    envelope_from_document(parse_document(s))
}

pub const TAG_EVAL: &'static str = "eval";

pub const TAG_CLICK: &'static str = "click";

pub const TAG_FILL: &'static str = "fill";

pub const TAG_TEXT: &'static str = "text";

pub const TAG_ATTR: &'static str = "attr";

pub const TAG_WAIT_FOR_SELECTOR: &'static str = "wait_for_selector";

/// The tag that names a command's kind on the wire.
pub open spec fn command_tag(cmd: CommandView) -> Seq<char> {
    match cmd {
        CommandView::Eval { .. } => TAG_EVAL@,
        CommandView::Click { .. } => TAG_CLICK@,
        CommandView::Fill { .. } => TAG_FILL@,
        CommandView::Text { .. } => TAG_TEXT@,
        CommandView::Attr { .. } => TAG_ATTR@,
        CommandView::WaitForSelector { .. } => TAG_WAIT_FOR_SELECTOR@,
    }
}

pub const OBJECT_OPEN_ID: &'static str = "{\"id\":";

pub const MEMBER_CMD: &'static str = ",\"cmd\":\"";

pub const TAG_CLOSE: &'static str = "\"";

pub const MEMBER_JS: &'static str = ",\"js\":";

pub const MEMBER_SELECTOR: &'static str = ",\"selector\":";

pub const MEMBER_TEXT: &'static str = ",\"text\":";

pub const MEMBER_NAME: &'static str = ",\"name\":";

pub const MEMBER_TIMEOUT_MS: &'static str = ",\"timeout_ms\":";

pub const OBJECT_CLOSE: &'static str = "}";

/// The members that carry a command's own fields, each with a leading
/// comma, in the order in which the command declares them.
pub open spec fn command_members(cmd: CommandView) -> Seq<char> {
    match cmd {
        CommandView::Eval { js } => MEMBER_JS@ + json_quoted(js),
        CommandView::Click { selector } => MEMBER_SELECTOR@ + json_quoted(selector),
        CommandView::Fill { selector, text } => MEMBER_SELECTOR@ + json_quoted(selector) + MEMBER_TEXT@
            + json_quoted(text),
        CommandView::Text { selector } => MEMBER_SELECTOR@ + json_quoted(selector),
        CommandView::Attr { selector, name } => MEMBER_SELECTOR@ + json_quoted(selector) + MEMBER_NAME@
            + json_quoted(name),
        CommandView::WaitForSelector { selector, timeout_ms } => MEMBER_SELECTOR@ + json_quoted(selector)
            + MEMBER_TIMEOUT_MS@ + nat_text(timeout_ms as nat),
    }
}

/// The dispatch request for `cmd` under the identifier `id`: a JSON object
/// with the members `id`, `cmd` and then the command's fields.
pub open spec fn dispatch_json(id: Seq<char>, cmd: CommandView) -> Seq<char> {
    OBJECT_OPEN_ID@ + json_quoted(id) + MEMBER_CMD@ + command_tag(cmd) + TAG_CLOSE@
        + command_members(cmd) + OBJECT_CLOSE@
}

/// The view of what writing JSON gave.
pub open spec fn json_outcome(r: Result<String, ProtocolError>) -> Result<
    Seq<char>,
    ProtocolErrorView,
> {
    match r {
        Ok(json) => Ok(json@),
        Err(error) => Err(error@),
    }
}

impl Command {
    /// The tag that names this command's kind on the wire.
    pub fn tag(&self) -> (tag: &'static str)
        ensures
            tag@ == command_tag(self@),
    {
        match self {
            Command::Eval { .. } => TAG_EVAL,
            Command::Click { .. } => TAG_CLICK,
            Command::Fill { .. } => TAG_FILL,
            Command::Text { .. } => TAG_TEXT,
            Command::Attr { .. } => TAG_ATTR,
            Command::WaitForSelector { .. } => TAG_WAIT_FOR_SELECTOR,
        }
    }
}

/// Appends a member to an object under construction, given how writing its
/// value as a JSON string literal went: `label` and the literal on success;
/// nothing, and a `Serialize` error with the message, where the literal
/// could not be written.
pub fn push_member(out: &mut String, label: &str, literal: Result<String, serde_json::Error>) -> (r:
    Result<(), ProtocolError>)
    ensures
        match literal {
            Ok(text) => r is Ok && final(out)@ == old(out)@ + label@ + text@,
            Err(error) => r is Err && r->Err_0@ == ProtocolErrorView::Serialize(
                json_error_text(error),
            ) && final(out)@ == old(out)@,
        },
{
    match literal {
        Ok(text) => {
            out.append(label);
            out.append(text.as_str());
            Ok(())
        },
        Err(error) => Err(ProtocolError::Serialize(error_message(&error))),
    }
}

/// Appends `label` and then the JSON string literal of `text` to `out`.
fn push_text_member(out: &mut String, label: &str, text: &str) -> (r: Result<(), ProtocolError>)
    ensures
        r is Ok,
        final(out)@ == old(out)@ + label@ + json_quoted(text@),
{
    push_member(out, label, quote(text))
}

/// Writes the dispatch request for `cmd` under the identifier `id`.
///
/// The result is always `Ok`, and its text is exactly `dispatch_json`.
pub fn encode_dispatch_request(id: &str, cmd: &Command) -> (r: Result<String, ProtocolError>)
    ensures
        r matches Ok(json) && json@ == dispatch_json(id@, cmd@),
{
    let mut out = String::new();
    match push_text_member(&mut out, OBJECT_OPEN_ID, id) {
        Ok(()) => {},
        Err(error) => {
            return Err(error);
        },
    }
    out.append(MEMBER_CMD);
    out.append(cmd.tag());
    out.append(TAG_CLOSE);
    let ghost head = out@;
    assert(head =~= OBJECT_OPEN_ID@ + json_quoted(id@) + MEMBER_CMD@ + command_tag(cmd@) + TAG_CLOSE@);
    let written = match cmd {
        Command::Eval { js } => push_text_member(&mut out, MEMBER_JS, js.as_str()),
        Command::Click { selector } => push_text_member(
            &mut out,
            MEMBER_SELECTOR,
            selector.as_str(),
        ),
        Command::Fill { selector, text } => {
            match push_text_member(&mut out, MEMBER_SELECTOR, selector.as_str()) {
                Ok(()) => push_text_member(&mut out, MEMBER_TEXT, text.as_str()),
                Err(error) => Err(error),
            }
        },
        Command::Text { selector } => push_text_member(&mut out, MEMBER_SELECTOR, selector.as_str()),
        Command::Attr { selector, name } => {
            match push_text_member(&mut out, MEMBER_SELECTOR, selector.as_str()) {
                Ok(()) => push_text_member(&mut out, MEMBER_NAME, name.as_str()),
                Err(error) => Err(error),
            }
        },
        Command::WaitForSelector { selector, timeout_ms } => {
            match push_text_member(&mut out, MEMBER_SELECTOR, selector.as_str()) {
                Ok(()) => {
                    out.append(MEMBER_TIMEOUT_MS);
                    push_u64(&mut out, *timeout_ms);
                    Ok(())
                },
                Err(error) => Err(error),
            }
        },
    };
    match written {
        Ok(()) => {
            assert(out@ =~= head + command_members(cmd@));
            out.append(OBJECT_CLOSE);
            assert(out@ =~= dispatch_json(id@, cmd@));
            Ok(out)
        },
        Err(error) => Err(error),
    }
}

pub const MEMBER_OK: &'static str = ",\"ok\":";

pub const MEMBER_RESULT: &'static str = ",\"result\":";

pub const MEMBER_ERROR: &'static str = ",\"error\":";

pub const LITERAL_TRUE: &'static str = "true";

pub const LITERAL_FALSE: &'static str = "false";

pub const LITERAL_NULL: &'static str = "null";

/// The JSON text of an envelope: an object with the members `id`, `ok`,
/// `result` and `error`, in that order; a missing result or error is
/// written as `null`.
pub open spec fn envelope_json(envelope: EnvelopeView) -> Seq<char> {
    OBJECT_OPEN_ID@ + json_quoted(envelope.id) + MEMBER_OK@ + (if envelope.ok {
        LITERAL_TRUE@
    } else {
        LITERAL_FALSE@
    }) + MEMBER_RESULT@ + (match envelope.result {
        Some(text) => text,
        None => LITERAL_NULL@,
    }) + MEMBER_ERROR@ + (match envelope.error {
        Some(text) => json_quoted(text),
        None => LITERAL_NULL@,
    }) + OBJECT_CLOSE@
}

impl IpcEnvelope {
    /// Writes this envelope as JSON.
    ///
    /// The result is always `Ok`, and its text is exactly `envelope_json`.
    pub fn to_json(&self) -> (r: Result<String, ProtocolError>)
        ensures
            r matches Ok(json) && json@ == envelope_json(self@),
    {
        let mut out = String::new();
        match push_text_member(&mut out, OBJECT_OPEN_ID, self.id.as_str()) {
            Ok(()) => {},
            Err(error) => {
                return Err(error);
            },
        }
        out.append(MEMBER_OK);
        if self.ok {
            out.append(LITERAL_TRUE);
        } else {
            out.append(LITERAL_FALSE);
        }
        out.append(MEMBER_RESULT);
        match &self.result {
            Some(text) => {
                out.append(text.as_str());
            },
            None => {
                out.append(LITERAL_NULL);
            },
        }
        match &self.error {
            Some(text) => {
                match push_text_member(&mut out, MEMBER_ERROR, text.as_str()) {
                    Ok(()) => {},
                    Err(error) => {
                        return Err(error);
                    },
                }
            },
            None => {
                out.append(MEMBER_ERROR);
                out.append(LITERAL_NULL);
            },
        }
        out.append(OBJECT_CLOSE);
        assert(out@ =~= envelope_json(self@));
        Ok(out)
    }
}

pub const DISPATCH_OPEN: &'static str = "window.__gwry && window.__gwry.dispatch(";

pub const POST_MESSAGE_OPEN: &'static str = "window.ipc && window.ipc.postMessage(";

pub const CALL_CLOSE: &'static str = ");";

pub const BARE_FAILURE: &'static str = "{\"ok\":false}";

/// The script that hands a dispatch request to the shim in the page.
pub open spec fn dispatch_call(request_json: Seq<char>) -> Seq<char> {
    DISPATCH_OPEN@ + request_json + CALL_CLOSE@
}

/// The script that posts `payload`, as a string literal, straight back to
/// the engine.
pub open spec fn post_message_script(payload: Seq<char>) -> Seq<char> {
    POST_MESSAGE_OPEN@ + debug_quoted(payload) + CALL_CLOSE@
}

/// The envelope that reports, for the request `id`, that its dispatch
/// request could not be written.
pub open spec fn failure_envelope(id: Seq<char>, error: ProtocolErrorView) -> EnvelopeView {
    EnvelopeView { id, ok: false, result: None, error: Some(error_text(error)) }
}

/// The script that stands in for a dispatch request that could not be
/// written, given how writing the failure envelope went: it posts that
/// envelope, or a bare failure where the envelope could not be written
/// either.
pub open spec fn fallback_script(envelope_json: Result<Seq<char>, ProtocolErrorView>) -> Seq<char> {
    match envelope_json {
        Ok(json) => post_message_script(json),
        Err(_) => post_message_script(BARE_FAILURE@),
    }
}

/// The script that finishes a dispatch for `id`, given how writing its
/// request went: the dispatch call on success; otherwise a fallback that
/// posts a failure envelope for `id` through the channel that the shim
/// would have used, so that the request is still answered.
pub open spec fn script_from(id: Seq<char>, request_json: Result<Seq<char>, ProtocolErrorView>) -> Seq<
    char,
> {
    match request_json {
        Ok(json) => dispatch_call(json),
        Err(error) => post_message_script(envelope_json(failure_envelope(id, error))),
    }
}

/// The script that dispatches `cmd` under the identifier `id`: it hands the
/// dispatch request to the shim.
pub open spec fn dispatch_script(id: Seq<char>, cmd: CommandView) -> Seq<char> {
    dispatch_call(dispatch_json(id, cmd))
}

/// Wraps a dispatch request into the script that hands it to the shim.
pub fn dispatch_call_script(request_json: &str) -> (script: String)
    ensures
        script@ == dispatch_call(request_json@),
{
    let mut script = DISPATCH_OPEN.to_owned();
    script.append(request_json);
    script.append(CALL_CLOSE);
    script
}

/// The envelope that reports, for the request `id`, that its dispatch
/// request could not be written.
pub fn make_failure_envelope(id: &str, error: &ProtocolError) -> (envelope: IpcEnvelope)
    ensures
        envelope@ == failure_envelope(id@, error@),
{
    IpcEnvelope { id: id.to_owned(), ok: false, result: None, error: Some(error.message()) }
}

/// The script that posts a failure straight back to the engine, given how
/// writing the failure envelope went.
pub fn make_fallback_script(envelope_json: Result<String, ProtocolError>) -> (script: String)
    ensures
        script@ == fallback_script(json_outcome(envelope_json)),
{
    let payload = match envelope_json {
        Ok(json) => json,
        Err(_) => BARE_FAILURE.to_owned(),
    };
    let mut script = POST_MESSAGE_OPEN.to_owned();
    script.append(debug_quote(payload.as_str()).as_str());
    script.append(CALL_CLOSE);
    script
}

/// The script that finishes a dispatch for `id`, given how writing its
/// request went: the dispatch call on success, a fallback that reports the
/// failure otherwise.
pub fn script_for_request(id: &str, request_json: Result<String, ProtocolError>) -> (script: String)
    ensures
        script@ == script_from(id@, json_outcome(request_json)),
{
    match request_json {
        Ok(json) => dispatch_call_script(json.as_str()),
        Err(error) => {
            let envelope = make_failure_envelope(id, &error);
            make_fallback_script(envelope.to_json())
        },
    }
}

/// The script to inject into the page so that the shim carries out `cmd`
/// for the request `id`: it hands the dispatch request to the shim.
///
/// Should the request ever fail to be written as JSON, `script_for_request`
/// answers with a script that posts a failure envelope for `id` through the
/// same channel that the shim would have used.
pub fn build_dispatch_script(id: &str, cmd: Command) -> (script: String)
    ensures
        script@ == dispatch_script(id@, cmd@),
{
    script_for_request(id, encode_dispatch_request(id, &cmd))
}

/// The source of the shim that runs inside the page. It installs
/// `window.__gwry.dispatch` once, carries out each dispatched command, and
/// posts one envelope per request through `window.ipc.postMessage`.
pub const AUTOMATION_SHIM: &'static str = r#"
(function () {
  if (window.__gwry && window.__gwry.__installed) return;

  function postMessage(obj) {
    try {
      if (window.ipc && typeof window.ipc.postMessage === "function") {
        window.ipc.postMessage(JSON.stringify(obj));
      }
    } catch (_) {}
  }

  function sendOk(id, result) {
    postMessage({ id: String(id), ok: true, result: result ?? null, error: null });
  }

  function sendErr(id, error) {
    postMessage({ id: String(id), ok: false, result: null, error: String(error) });
  }

  function qs(selector) {
    return document.querySelector(selector);
  }

  function waitForSelector(selector, timeoutMs) {
    return new Promise(function (resolve, reject) {
      var el = qs(selector);
      if (el) return resolve(true);

      var done = false;
      var timeout = setTimeout(function () {
        if (done) return;
        done = true;
        try { obs.disconnect(); } catch (_) {}
        reject(new Error("timeout"));
      }, Math.max(0, Number(timeoutMs || 0)));

      var obs = new MutationObserver(function () {
        var el2 = qs(selector);
        if (el2 && !done) {
          done = true;
          clearTimeout(timeout);
          try { obs.disconnect(); } catch (_) {}
          resolve(true);
        }
      });
      obs.observe(document.documentElement || document, { childList: true, subtree: true });
    });
  }

  async function dispatch(msg) {
    var id = msg && msg.id;
    var cmd = msg && msg.cmd;
    try {
      if (!id) throw new Error("missing_id");
      if (!cmd) throw new Error("missing_cmd");

      switch (cmd) {
        case "eval": {
          var f = (0, eval)(msg.js);
          var value = (typeof f === "function") ? f() : f;
          var result = await Promise.resolve(value);
          sendOk(id, result);
          return;
        }
        case "click": {
          var el = qs(msg.selector);
          if (!el) throw new Error("not_found");
          el.click();
          sendOk(id, true);
          return;
        }
        case "fill": {
          var el2 = qs(msg.selector);
          if (!el2) throw new Error("not_found");
          el2.value = String(msg.text ?? "");
          el2.dispatchEvent(new Event("input", { bubbles: true }));
          el2.dispatchEvent(new Event("change", { bubbles: true }));
          sendOk(id, true);
          return;
        }
        case "text": {
          var el3 = qs(msg.selector);
          if (!el3) throw new Error("not_found");
          sendOk(id, el3.textContent ?? "");
          return;
        }
        case "attr": {
          var el4 = qs(msg.selector);
          if (!el4) throw new Error("not_found");
          sendOk(id, el4.getAttribute(String(msg.name)));
          return;
        }
        case "wait_for_selector": {
          await waitForSelector(msg.selector, msg.timeout_ms);
          sendOk(id, true);
          return;
        }
        default:
          throw new Error("unsupported_cmd:" + String(cmd));
      }
    } catch (e) {
      sendErr(id || "unknown", e && e.message ? e.message : e);
    }
  }

  window.__gwry = {
    __installed: true,
    dispatch: dispatch,
  };
})();
"#;

/// The script to add to every page before its own scripts run.
pub fn automation_shim_js() -> (js: &'static str)
    ensures
        js@ == AUTOMATION_SHIM@,
{
    AUTOMATION_SHIM
}

/// The script that gives a page `window.ipc.postMessage` where the browser
/// engine offers only `window.chrome.webview.postMessage`. The shim posts
/// its envelopes through `window.ipc`.
pub const IPC_BRIDGE: &'static str = "Object.defineProperty(window, 'ipc', { value: Object.freeze({ postMessage: s=> window.chrome.webview.postMessage(s) }) });";

/// The script to add, before the shim, to every page of a browser engine
/// that has no `window.ipc` of its own.
pub fn ipc_bridge_js() -> (js: &'static str)
    ensures
        js@ == IPC_BRIDGE@,
{
    IPC_BRIDGE
}

/// The script that scales a page down to the width of its window, so that a
/// captured frame shows the page in full width.
pub const FIT_WIDTH: &'static str = r#"
(() => {
  const applyTextureFitWidth = () => {
    const docEl = document.documentElement;
    const body = document.body;

    if (!docEl || !body) {
      return;
    }

    const clientWidth = Math.max(1, docEl.clientWidth || window.innerWidth || 1);
    const scrollWidth = Math.max(clientWidth, body.scrollWidth || 0, docEl.scrollWidth || 0);
    const fitScale = Math.min(1, clientWidth / scrollWidth);

    body.style.transformOrigin = 'top left';
    body.style.transform = `scale(${fitScale})`;
    body.style.width = `${100 / fitScale}%`;
    body.style.margin = '0';

    docEl.style.overflowX = 'hidden';
    body.style.overflowX = 'hidden';
  };

  if (!window.__gwry_texture_fit_width_bound__) {
    window.__gwry_texture_fit_width_bound__ = true;
    window.addEventListener('resize', () => applyTextureFitWidth(), { passive: true });
    if (document.readyState === 'loading') {
      document.addEventListener('DOMContentLoaded', () => applyTextureFitWidth(), { once: true });
    }
  }

  applyTextureFitWidth();
})();
"#;

/// The script to add to every page whose frames are captured.
pub fn fit_width_script() -> (js: &'static str)
    ensures
        js@ == FIT_WIDTH@,
{
    FIT_WIDTH
}

/// The envelope object that the shim posts for a request: the members
/// `id`, `ok`, `result` and `error`.
pub open spec fn envelope_object(
    id: Seq<char>,
    ok: bool,
    result: JsonView,
    error: JsonView,
) -> JsonView {
    JsonView::Object(
        Map::<Seq<char>, JsonView>::empty().insert(FIELD_ID@, JsonView::Text(id)).insert(
            FIELD_OK@,
            JsonView::Bool(ok),
        ).insert(FIELD_RESULT@, result).insert(FIELD_ERROR@, error),
    )
}

/// An envelope object is read back as what it was built from: an object
/// built from an identifier, `ok`, a result and an error reads back as that
/// identifier, that `ok`, the text of that result and that error. In
/// particular one built from an identifier, `ok` = true, a result and a null
/// error reads back as that identifier, true, that result and no error. A
/// null result reads back as no result.
pub proof fn lemma_envelope_round_trip(
    id: Seq<char>,
    ok: bool,
    result: JsonView,
    error: Option<Seq<char>>,
)
    ensures
        envelope_of(
            envelope_object(
                id,
                ok,
                result,
                match error {
                    Some(text) => JsonView::Text(text),
                    None => JsonView::Null,
                },
            ),
        ) == Ok::<EnvelopeView, ProtocolErrorView>(
            EnvelopeView {
                id,
                ok,
                result: if result is Null {
                    None
                } else {
                    Some(json_text(result))
                },
                error,
            },
        ),
{
    reveal_strlit("id");
    reveal_strlit("ok");
    reveal_strlit("result");
    reveal_strlit("error");
    assert(FIELD_ID@ != FIELD_OK@) by {
        assert(FIELD_ID@[0] != FIELD_OK@[0]);
    }
    assert(FIELD_ID@ != FIELD_RESULT@) by {
        assert(FIELD_ID@[0] != FIELD_RESULT@[0]);
    }
    assert(FIELD_ID@ != FIELD_ERROR@) by {
        assert(FIELD_ID@[0] != FIELD_ERROR@[0]);
    }
    assert(FIELD_OK@ != FIELD_RESULT@) by {
        assert(FIELD_OK@[0] != FIELD_RESULT@[0]);
    }
    assert(FIELD_OK@ != FIELD_ERROR@) by {
        assert(FIELD_OK@[0] != FIELD_ERROR@[0]);
    }
    assert(FIELD_RESULT@ != FIELD_ERROR@) by {
        assert(FIELD_RESULT@[0] != FIELD_ERROR@[0]);
    }
}

} // verus!
