//! Reading the action and the fields of an incoming request.
//!
//! A request is `mould`'s: what it carries is named here, and the functions
//! of `mould` that read it are taken on trust as their doc comments say.

use vstd::prelude::*;
use mould::session::{ExtractError, Extractor, Request};
use serde_json::Value;
use crate::json::json_text;
use crate::rejection::{Rejection, RejectionKind, RejectionView};

verus! {

#[verifier::external_type_specification]
#[verifier::external_body]
pub struct ExRequest(Request);

/// The action name that a request carries.
pub uninterp spec fn request_action(request: Request) -> Seq<char>;

/// The fields of a request's payload whose value is a string, by field name.
pub uninterp spec fn text_fields(request: Request) -> Map<Seq<char>, Seq<char>>;

/// The fields of a request's payload whose value is an object, by field name,
/// each as the JSON text of that object.
pub uninterp spec fn object_fields(request: Request) -> Map<Seq<char>, Seq<char>>;

/// Whether two requests carry the same action and the same fields.
pub open spec fn carries_the_same(before: Request, after: Request) -> bool {
    &&& request_action(after) == request_action(before)
    &&& text_fields(after) == text_fields(before)
    &&& object_fields(after) == object_fields(before)
}

/// The message that reports a field as missing or of the wrong type.
pub open spec fn missing_field_text(name: Seq<char>) -> Seq<char> {
    "Field "@ + name + " not provided or have wrong format."@
}

/// The rejection of a request that lacks the named field.
pub open spec fn malformed(name: Seq<char>) -> RejectionView {
    RejectionView { kind: RejectionKind::MalformedRequest, message: missing_field_text(name) }
}

/// Reads the public field `action` of `mould::session::Request`.
///
/// Taken on trust: the text is the one that [`request_action`] names.
#[verifier::external_body]
pub(crate) fn action_of(request: &Request) -> (action: &String)
    ensures
        action@ == request_action(*request),
{
    &request.action
}

/// Calls `<Request as Extractor<String>>::extract` of `mould`, which looks the
/// name up in the payload and copies the value out if it is a string.
///
/// Taken on trust: the result is the string stored under `name`, or `None`
/// when the payload has no such field or its value is not a string, and the
/// request is left as it was.
#[verifier::external_body]
pub(crate) fn extract_string(request: &mut Request, name: &str) -> (found: Option<String>)
    ensures
        carries_the_same(*old(request), *final(request)),
        match found {
            Some(text) => text_fields(*old(request)).contains_key(name@) && text@ == text_fields(
                *old(request),
            )[name@],
            None => !text_fields(*old(request)).contains_key(name@),
        },
{
    let found: Result<String, ExtractError> = request.extract(name);
    found.ok()
}

/// Calls `<Request as Extractor<Object>>::extract` of `mould`, which looks the
/// name up in the payload and copies the value out if it is an object, and
/// wraps the object as a `serde_json::Value`.
///
/// Taken on trust: the result is the object stored under `name`, or `None`
/// when the payload has no such field or its value is not an object, and the
/// request is left as it was.
#[verifier::external_body]
pub(crate) fn extract_object(request: &mut Request, name: &str) -> (found: Option<Value>)
    ensures
        carries_the_same(*old(request), *final(request)),
        match found {
            Some(object) => object_fields(*old(request)).contains_key(name@) && json_text(object)
                == object_fields(*old(request))[name@],
            None => !object_fields(*old(request)).contains_key(name@),
        },
{
    let found: Result<serde_json::Map<String, Value>, ExtractError> = request.extract(name);
    found.ok().map(Value::Object)
}

/// Calls `to_string` on the `mould::session::ExtractError` of the field
/// `name`, whose `Display` impl writes the name between two fixed texts.
///
/// Taken on trust: the message is those three texts in a row.
#[verifier::external_body]
pub(crate) fn missing_field_message(name: &str) -> (message: String)
    ensures
        message@ == missing_field_text(name@),
{
    ExtractError::from(name).to_string()
}

/// Turns the outcome of an extraction into the field's value, or into the
/// rejection that names the field.
pub fn required<T>(found: Option<T>, name: &str) -> (field: Result<T, Rejection>)
    ensures
        match field {
            Ok(value) => found == Some(value),
            Err(rejection) => found is None && rejection@ == malformed(name@),
        },
{
    match found {
        Some(value) => Ok(value),
        None => Err(Rejection::new(RejectionKind::MalformedRequest, missing_field_message(name))),
    }
}

/// Extracts the string field `name` from the request.
///
/// Fails with a malformed-request rejection naming the field when the field
/// is missing or does not hold a string.
pub fn extract_text_field(request: &mut Request, name: &str) -> (field: Result<String, Rejection>)
    ensures
        carries_the_same(*old(request), *final(request)),
        match field {
            Ok(text) => text_fields(*old(request)).contains_key(name@) && text@ == text_fields(
                *old(request),
            )[name@],
            Err(rejection) => !text_fields(*old(request)).contains_key(name@) && rejection@
                == malformed(name@),
        },
{
    let found = extract_string(request, name);
    required(found, name)
}

/// Extracts the object field `name` from the request as a JSON value.
///
/// Fails with a malformed-request rejection naming the field when the field
/// is missing or does not hold an object.
pub fn extract_object_field(request: &mut Request, name: &str) -> (field: Result<Value, Rejection>)
    ensures
        carries_the_same(*old(request), *final(request)),
        match field {
            Ok(object) => object_fields(*old(request)).contains_key(name@) && json_text(object)
                == object_fields(*old(request))[name@],
            Err(rejection) => !object_fields(*old(request)).contains_key(name@) && rejection@
                == malformed(name@),
        },
{
    let found = extract_object(request, name);
    required(found, name)
}

} // verus!
