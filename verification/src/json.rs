//! JSON values: the outside types, the objects that are built here, and the
//! step from a serialized answer to a tool's reply.

use crate::error::{internal_error, internal_error_view, ErrorData, ErrorView};
use vstd::prelude::*;
use vstd::string::to_string_from_display_ensures;
use vstd::string::StringExecFns;

verus! {

/// `serde_json::Value`, carried through as it is.
#[verifier::external_type_specification]
#[verifier::external_body]
pub struct ExValue(serde_json::Value);

/// `serde_json::Error`, what a failed serialization leaves behind.
#[verifier::external_type_specification]
#[verifier::external_body]
pub struct ExJsonError(serde_json::Error);

/// `serde_json::Map`, the members of a JSON object.
#[verifier::external_type_specification]
#[verifier::external_body]
#[verifier::reject_recursive_types(K)]
#[verifier::reject_recursive_types(V)]
pub struct ExJsonMap<K, V>(serde_json::Map<K, V>);

/// A member of the objects that are built here.
pub enum Member {
    Text(String),
    Flag(bool),
}

/// What one member of a JSON object holds.
pub enum MemberView {
    /// A string.
    Text(Seq<char>),
    /// `true` or `false`.
    Flag(bool),
    /// Null, a number, an array or an object.
    Other,
}

impl View for Member {
    type V = MemberView;

    open spec fn view(&self) -> MemberView {
        match self {
            Member::Text(text) => MemberView::Text(text@),
            Member::Flag(flag) => MemberView::Flag(*flag),
        }
    }
}

/// The members that a `serde_json::Map` holds, by key.
pub uninterp spec fn members(object: serde_json::Map<String, serde_json::Value>) -> Map<Seq<char>, MemberView>;

/// The members of a `serde_json::Value` that is an object, by key; no member
/// at all where the value is anything else.
pub uninterp spec fn value_members(value: serde_json::Value) -> Map<Seq<char>, MemberView>;

/// What an object without members holds.
pub open spec fn no_members() -> Map<Seq<char>, MemberView> {
    Map::empty()
}

/// `serde_json::Map::new`: an object without members.
#[verifier::external_body]
pub(crate) fn new_object() -> (object: serde_json::Map<String, serde_json::Value>)
    ensures
        members(object) == no_members(),
{
    serde_json::Map::new()
}

/// `serde_json::Map::insert`: the key now holds `member`; every other key holds
/// what it held.
#[verifier::external_body]
pub(crate) fn insert(
    object: &mut serde_json::Map<String, serde_json::Value>,
    key: &str,
    member: Member,
)
    ensures
        members(*final(object)) == members(*old(object)).insert(key@, member@),
{
    let value = match member {
        Member::Text(text) => serde_json::Value::String(text),
        Member::Flag(flag) => serde_json::Value::Bool(flag),
    };
    object.insert(key.to_owned(), value);
}

/// `serde_json::to_value` of an object, which never fails: the value is an
/// object with the same members.
#[verifier::external_body]
pub(crate) fn to_value(object: serde_json::Map<String, serde_json::Value>) -> (value: Result<
    serde_json::Value,
    serde_json::Error,
>)
    ensures
        value is Ok,
        value_members(value->Ok_0) == members(object),
{
    serde_json::to_value(serde_json::Value::Object(object))
}

/// The text that starts the message of a failed serialization.
pub const SERIALIZATION_FAILED: &'static str = "序列化失败: ";

/// The error of a serialization that failed with `text`.
pub open spec fn serialization_error(text: Seq<char>) -> ErrorView {
    internal_error_view(SERIALIZATION_FAILED@ + text)
}

/// `reply` is what a tool answers once its handler's answer was serialized: the
/// value itself, or an internal error with the text of what went wrong.
pub open spec fn answered(
    answer: Result<serde_json::Value, serde_json::Error>,
    reply: Result<serde_json::Value, ErrorData>,
) -> bool {
    match answer {
        Ok(value) => reply == Ok::<serde_json::Value, ErrorData>(value),
        Err(error) => {
            &&& reply is Err
            &&& exists|text: String| #[trigger]
                to_string_from_display_ensures(&error, text) && reply->Err_0@
                    == serialization_error(text@)
        },
    }
}

/// The error of a serialization that failed with `text`.
pub fn serialization_failure(text: &str) -> (error: ErrorData)
    ensures
        error@ == serialization_error(text@),
{
    internal_error(SERIALIZATION_FAILED.to_owned().concat(text))
}

/// Turns the serialized answer of a handler into the reply of its tool.
pub fn json_of(answer: Result<serde_json::Value, serde_json::Error>) -> (reply: Result<
    serde_json::Value,
    ErrorData,
>)
    ensures
        answered(answer, reply),
        answer matches Ok(value) ==> reply == Ok::<serde_json::Value, ErrorData>(value),
        answer is Err ==> reply is Err,
{
    match answer {
        Ok(value) => Ok(value),
        Err(error) => {
            let text = error.to_string();
            Err(serialization_failure(text.as_str()))
        },
    }
}

} // verus!
