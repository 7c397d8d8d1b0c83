//! JSON as `serde_json` reads and writes it: the calls that this library
//! makes into that crate, each with the contract that the rest of the library
//! relies on. None of these contracts is proved; each restates what the
//! crate's source shows. What a call returns is given a name where it takes
//! too long to state, and the library's own contracts are exact over those
//! names.

use vstd::prelude::*;

verus! {

/// What a JSON value holds. A number is kept as its text.
pub enum JsonView {
    Null,
    Bool(bool),
    Number(Seq<char>),
    Text(Seq<char>),
    Array(Seq<JsonView>),
    Object(Map<Seq<char>, JsonView>),
}

/// `serde_json::Value`, carried through verified code as an opaque value.
#[verifier::external_type_specification]
#[verifier::external_body]
pub struct ExJsonValue(serde_json::Value);

/// `serde_json::Error`, carried through verified code as an opaque value.
#[verifier::external_type_specification]
#[verifier::external_body]
pub struct ExJsonError(serde_json::Error);

/// The contents of a `serde_json::Value`.
pub uninterp spec fn json_view(value: serde_json::Value) -> JsonView;

/// The message of a `serde_json::Error`.
pub uninterp spec fn json_error_text(error: serde_json::Error) -> Seq<char>;

/// What `serde_json::from_str` makes of `text`: the value that it reads, or
/// the message of the error that it reports.
pub uninterp spec fn json_parse(text: Seq<char>) -> Result<JsonView, Seq<char>>;

/// The compact text that `serde_json` writes for a value.
pub uninterp spec fn json_text(value: JsonView) -> Seq<char>;

/// The JSON string literal, quotes and escapes included, that
/// `serde_json::to_string` writes for the string `text`.
pub uninterp spec fn json_quoted(text: Seq<char>) -> Seq<char>;

/// The text that the `{:?}` format of `str` writes for `text`: a Rust string
/// literal, quotes and escapes included.
pub uninterp spec fn debug_quoted(text: Seq<char>) -> Seq<char>;

/// `serde_json::from_str::<Value>`: reads a whole document. The outcome
/// depends on the text alone: the value read holds what `json_parse` names,
/// and an error has the message that `json_parse` names.
#[verifier::external_body]
pub(crate) fn parse_document(text: &str) -> (r: Result<serde_json::Value, serde_json::Error>)
    ensures
        match r {
            Ok(value) => json_parse(text@) == Ok::<JsonView, Seq<char>>(json_view(value)),
            Err(error) => json_parse(text@) == Err::<JsonView, Seq<char>>(json_error_text(error)),
        },
{
    serde_json::from_str::<serde_json::Value>(text)
}

/// `Value::get` with a string key: the member of that name where the value
/// is an object that has one, `None` for any other value or a missing key.
#[verifier::external_body]
pub(crate) fn member<'a>(value: &'a serde_json::Value, key: &str) -> (r: Option<
    &'a serde_json::Value,
>)
    ensures
        match r {
            Some(found) => json_view(*value) matches JsonView::Object(members)
                && members.contains_key(key@) && json_view(*found) == members[key@],
            None => !(json_view(*value) matches JsonView::Object(members) && members.contains_key(
                key@,
            )),
        },
{
    value.get(key)
}

/// `Value::as_str`: the text of a JSON string, `None` for any other value.
#[verifier::external_body]
pub(crate) fn as_text<'a>(value: &'a serde_json::Value) -> (r: Option<&'a str>)
    ensures
        match r {
            Some(text) => json_view(*value) == JsonView::Text(text@),
            None => !(json_view(*value) is Text),
        },
{
    value.as_str()
}

/// `Value::as_bool`: the value of a JSON boolean, `None` for any other
/// value.
#[verifier::external_body]
pub(crate) fn as_flag(value: &serde_json::Value) -> (r: Option<bool>)
    ensures
        match r {
            Some(flag) => json_view(*value) == JsonView::Bool(flag),
            None => !(json_view(*value) is Bool),
        },
{
    value.as_bool()
}

/// `Value::is_null`: whether the value is JSON `null`.
#[verifier::external_body]
pub(crate) fn is_null(value: &serde_json::Value) -> (r: bool)
    ensures
        r == (json_view(*value) is Null),
{
    value.is_null()
}

/// `Value`'s `Display`, through `to_string`: the compact text of the value.
#[verifier::external_body]
pub(crate) fn render(value: &serde_json::Value) -> (text: String)
    ensures
        text@ == json_text(json_view(*value)),
{
    value.to_string()
}

/// `serde_json::to_string` on a `str`: the quoted and escaped literal. The
/// call returns a `Result`, and for a `str` it is always `Ok`: writing a
/// string reports only what its writer reports, and the writer here is a
/// `Vec<u8>`, which takes every write.
#[verifier::external_body]
pub(crate) fn quote(text: &str) -> (r: Result<String, serde_json::Error>)
    ensures
        r is Ok,
        r matches Ok(literal) ==> literal@ == json_quoted(text@),
{
    serde_json::to_string(text)
}

/// `serde_json::Error`'s `Display`, through `to_string`: the message of the
/// error.
#[verifier::external_body]
pub(crate) fn error_message(error: &serde_json::Error) -> (message: String)
    ensures
        message@ == json_error_text(*error),
{
    error.to_string()
}

/// std's `Debug` for `str`, through `format!` with `{:?}`: the text as a
/// Rust string literal.
#[verifier::external_body]
pub(crate) fn debug_quote(text: &str) -> (literal: String)
    ensures
        literal@ == debug_quoted(text@),
{
    format!("{:?}", text)
}

} // verus!
