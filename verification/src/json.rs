//! JSON values: parsing the text of a file and rendering objects as text.
//!
//! Parsing and rendering are `serde_json`'s. What its functions return is
//! named here and not proved: the workers' contracts speak of these names.

use vstd::prelude::*;
use serde_json::{Error, Value};

verus! {

#[verifier::external_type_specification]
#[verifier::external_body]
pub struct ExValue(Value);

#[verifier::external_type_specification]
#[verifier::external_body]
pub struct ExError(Error);

/// The compact JSON text of a value, as `serde_json` writes it.
pub uninterp spec fn json_text(value: Value) -> Seq<char>;

/// The message of a parse error, as `serde_json` writes it.
pub uninterp spec fn json_error_text(error: Error) -> Seq<char>;

/// What parsing a text as one JSON value gives: the compact text of the
/// parsed value, or the message of the parse error.
pub uninterp spec fn json_parse(text: Seq<char>) -> Result<Seq<char>, Seq<char>>;

/// Calls `<serde_json::Value as FromStr>::from_str`, which parses the whole
/// text as one JSON value.
///
/// Taken on trust: whether the text parses, the compact text of the value it
/// denotes and the message of the error depend on the text alone.
#[verifier::external_body]
pub(crate) fn parse_value(text: &str) -> (parsed: Result<Value, Error>)
    ensures
        match parsed {
            Ok(value) => json_parse(text@) == Ok::<Seq<char>, Seq<char>>(json_text(value)),
            Err(error) => json_parse(text@) == Err::<Seq<char>, Seq<char>>(json_error_text(error)),
        },
{
    text.parse()
}

/// Calls `to_string` on a `serde_json::Value`, whose `Display` impl writes the
/// value as compact JSON.
///
/// Taken on trust: the text is the one that [`json_text`] names.
#[verifier::external_body]
pub(crate) fn render_value(value: &Value) -> (text: String)
    ensures
        text@ == json_text(*value),
{
    value.to_string()
}

/// Calls `to_string` on a `serde_json::Error`, whose `Display` impl writes what
/// went wrong and where.
///
/// Taken on trust: the text is the one that [`json_error_text`] names.
#[verifier::external_body]
pub(crate) fn error_message(error: &Error) -> (message: String)
    ensures
        message@ == json_error_text(*error),
{
    error.to_string()
}

} // verus!
