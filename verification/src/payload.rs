//! JSON payloads.
use crate::decimal::is_digit;
use crate::statement::opt_text;
use std::borrow::Cow;
use vstd::prelude::*;

verus! {

/// A JSON document of the `serde_json` crate.
#[verifier::external_type_specification]
#[verifier::external_body]
pub struct ExJsonValue(serde_json::Value);

/// An error of the `serde_json` crate.
#[verifier::external_type_specification]
#[verifier::external_body]
pub struct ExJsonError(serde_json::Error);

/// The text that `serde_json::to_string` returns for a document; `None` where it fails.
pub uninterp spec fn json_text(value: serde_json::Value) -> Option<Seq<char>>;

/// The document that `serde_json::from_str` reads out of a text; `None` where it fails.
pub uninterp spec fn json_value(text: Seq<char>) -> Option<serde_json::Value>;

/// Where a place in the text of a document stands.
pub enum Place {
    /// Not in a string.
    Outside,
    /// In a string.
    Inside,
    /// In a string, right behind a backslash.
    Escaped,
}

/// Where the place behind the first `n` characters of a document's text stands.
pub open spec fn place(text: Seq<char>, n: int) -> Place
    decreases n,
{
    if n <= 0 {
        Place::Outside
    } else {
        match place(text, n - 1) {
            Place::Outside => if text[n - 1] == '"' {
                Place::Inside
            } else {
                Place::Outside
            },
            Place::Inside => if text[n - 1] == '"' {
                Place::Outside
            } else if text[n - 1] == '\\' {
                Place::Escaped
            } else {
                Place::Inside
            },
            Place::Escaped => Place::Inside,
        }
    }
}

/// How many arrays and objects are open behind the first `n` characters of a document's text.
pub open spec fn depth(text: Seq<char>, n: int) -> int
    decreases n,
{
    if n <= 0 {
        0
    } else if place(text, n - 1) is Outside && (text[n - 1] == '[' || text[n - 1] == '{') {
        depth(text, n - 1) + 1
    } else if place(text, n - 1) is Outside && (text[n - 1] == ']' || text[n - 1] == '}') {
        depth(text, n - 1) - 1
    } else {
        depth(text, n - 1)
    }
}

/// The start of an object whose first key is one that `serde_json` keeps to itself.
pub open spec fn private_start() -> Seq<char> {
    "{\"$serde_json::private::RawValue\""@
}

/// Says of the text of a document that it holds no number with a fraction or an exponent, no
/// arrays and objects more than 127 deep, and no object whose first key `serde_json` keeps to
/// itself. What stands inside a string does not matter.
pub open spec fn is_plain(text: Seq<char>) -> bool {
    &&& forall|i: int|
        0 < i < text.len() && place(text, i) is Outside && is_digit(text[i - 1]) ==> (
        #[trigger] text[i]) != '.' && text[i] != 'e'
    &&& forall|n: int| 0 <= n <= text.len() ==> #[trigger] depth(text, n) <= 127
    &&& forall|i: int|
        0 <= i <= text.len() - private_start().len() && #[trigger] place(text, i) is Outside
            ==> text.subrange(i, i + private_start().len()) != private_start()
}

/// `serde_json::to_string` on a document: its outcome is a function of the document. From a
/// plain text `serde_json::from_str` reads the document back: of other texts that is not said,
/// since a fraction may be read with a rounding error, deeper nesting is refused, and an object
/// that begins with a key of the crate's own is read as something else.
#[verifier::external_body]
fn write_json(value: &serde_json::Value) -> (text: Result<String, serde_json::Error>)
    ensures
        match text {
            Ok(t) => {
                &&& json_text(*value) == Some(t@)
                &&& is_plain(t@) ==> json_value(t@) == Some(*value)
            },
            Err(_) => json_text(*value) is None,
        },
{
    serde_json::to_string(value)
}

/// `serde_json::from_str` for a document: its outcome is a function of the text.
#[verifier::external_body]
fn read_json(text: &str) -> (value: Result<serde_json::Value, serde_json::Error>)
    ensures
        match value {
            Ok(v) => json_value(text@) == Some(v),
            Err(_) => json_value(text@) is None,
        },
{
    serde_json::from_str(text)
}

/// A payload that could not be written as JSON or read from it.
#[derive(Debug)]
pub enum PayloadError {
    /// The value could not be written.
    Encode(serde_json::Error),
    /// The text could not be read.
    Decode(serde_json::Error),
}

/// Writes a document as text. Where the text is plain, reading it gives the document back.
pub fn encode_json(value: &serde_json::Value) -> (text: Result<String, PayloadError>)
    ensures
        match text {
            Ok(t) => {
                &&& json_text(*value) == Some(t@)
                &&& is_plain(t@) ==> json_value(t@) == Some(*value)
            },
            Err(PayloadError::Encode(_)) => json_text(*value) is None,
            Err(_) => false,
        },
{
    match write_json(value) {
        Ok(t) => Ok(t),
        Err(e) => Err(PayloadError::Encode(e)),
    }
}

/// Reads a document from text.
pub fn decode_json(text: &str) -> (value: Result<serde_json::Value, PayloadError>)
    ensures
        match value {
            Ok(v) => json_value(text@) == Some(v),
            Err(PayloadError::Decode(_)) => json_value(text@) is None,
            Err(_) => false,
        },
{
    match read_json(text) {
        Ok(v) => Ok(v),
        Err(e) => Err(PayloadError::Decode(e)),
    }
}

/// Turns the outcome of reading a payload that may be absent inside out: no payload is no
/// error.
pub fn decoded<T, E>(payload: Option<Result<T, E>>) -> (value: Result<Option<T>, E>)
    ensures
        match payload {
            Some(Ok(v)) => value == Ok::<Option<T>, E>(Some(v)),
            Some(Err(e)) => value == Err::<Option<T>, E>(e),
            None => value == Ok::<Option<T>, E>(None),
        },
{
    match payload {
        Some(Ok(v)) => Ok(Some(v)),
        Some(Err(e)) => Err(e),
        None => Ok(None),
    }
}

/// The text behind an optional borrowed or owned text.
pub open spec fn opt_cow(t: Option<Cow<'_, str>>) -> Option<Seq<char>> {
    match t {
        Some(s) => Some(s@),
        None => None,
    }
}

/// Borrows an optional text.
pub fn cow_text<'b>(t: &'b Option<Cow<'_, str>>) -> (text: Option<&'b str>)
    ensures
        opt_text(text) == opt_cow(*t),
{
    match t {
        Some(Cow::Borrowed(s)) => Some(*s),
        Some(Cow::Owned(s)) => Some(s.as_str()),
        None => None,
    }
}

/// Copies an optional text.
pub fn cow_clone<'a>(t: &Option<Cow<'a, str>>) -> (copy: Option<Cow<'a, str>>)
    ensures
        opt_cow(copy) == opt_cow(*t),
{
    match t {
        Some(Cow::Borrowed(s)) => Some(Cow::Borrowed(*s)),
        Some(Cow::Owned(s)) => Some(Cow::Owned(s.clone())),
        None => None,
    }
}

} // verus!
