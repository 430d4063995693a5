//! Reading a JSON document through `serde_json`.
//!
//! The parser and the two accessors are trusted: each is called as it is, and
//! what it returns is stated over names for what a JSON value holds.
//! Everything that decides on those results is verified.

use vstd::prelude::*;

verus! {

/// `serde_json::Value`, a parsed JSON value. Nothing inside it is visible to
/// the verifier.
#[verifier::external_type_specification]
#[verifier::external_body]
pub struct ExJsonValue(serde_json::Value);

/// `serde_json::Error`, the reason a text was not accepted as JSON.
#[verifier::external_type_specification]
#[verifier::external_body]
pub struct ExJsonError(serde_json::Error);

/// The strings that a JSON value holds as an object: for each key under
/// which `value` has a member that is a JSON string, that string. Empty where
/// `value` is no object.
pub uninterp spec fn json_strings(value: serde_json::Value) -> Map<Seq<char>, Seq<char>>;

/// The text of a JSON value that is itself a JSON string, and `None` for any
/// other value.
pub uninterp spec fn json_text(value: serde_json::Value) -> Option<Seq<char>>;

/// What `serde_json::from_str` makes of `text`: `None` where it reports an
/// error, else the strings that the value it returns holds as an object.
pub uninterp spec fn json_document(text: Seq<char>) -> Option<Map<Seq<char>, Seq<char>>>;

/// Calls `serde_json::from_str` for a `serde_json::Value`. Trusted: the
/// outcome depends on `text` alone, so it is what `json_document(text)`
/// names: an error where that is `None`, else a value with those strings.
#[verifier::external_body]
fn parse_json(text: &str) -> (r: Result<serde_json::Value, serde_json::Error>)
    ensures
        match r {
            Ok(value) => json_document(text@) == Some(json_strings(value)),
            Err(_) => json_document(text@) is None,
        },
{
    serde_json::from_str::<serde_json::Value>(text)
}

/// Calls `serde_json::Value::get` with a string key, which looks the key up
/// in an object and finds nothing in any other value. Trusted: where it finds
/// no member, `value` holds no string under `key`; where it finds one, `value`
/// holds a string under `key` exactly if the member is a JSON string, and
/// then that string.
#[verifier::external_body]
fn json_get<'a>(value: &'a serde_json::Value, key: &str) -> (r: Option<&'a serde_json::Value>)
    ensures
        match r {
            Some(member) => match json_text(*member) {
                Some(s) => json_strings(*value).contains_key(key@) && json_strings(*value)[key@]
                    == s,
                None => !json_strings(*value).contains_key(key@),
            },
            None => !json_strings(*value).contains_key(key@),
        },
{
    value.get(key)
}

/// Calls `serde_json::Value::as_str`, which returns the string of a JSON
/// string and `None` for any other value. Trusted: the outcome is
/// `json_text(value)`.
#[verifier::external_body]
fn json_as_str<'a>(value: &'a serde_json::Value) -> (r: Option<&'a str>)
    ensures
        match r {
            Some(s) => json_text(*value) == Some(s@),
            None => json_text(*value) is None,
        },
{
    value.as_str()
}

/// What a response body yields when it is read as JSON and asked for a text
/// member.
#[derive(Clone, Debug, PartialEq, Eq)]
pub enum TextField {
    /// The body is not JSON.
    Undecodable,
    /// The body is JSON without the member, or the member is no string.
    Absent,
    /// The member, which may be empty.
    Present(String),
}

/// The mathematical value of a `TextField`.
pub enum TextFieldView {
    Undecodable,
    Absent,
    Present(Seq<char>),
}

impl View for TextField {
    type V = TextFieldView;

    open spec fn view(&self) -> TextFieldView {
        match self {
            TextField::Undecodable => TextFieldView::Undecodable,
            TextField::Absent => TextFieldView::Absent,
            TextField::Present(s) => TextFieldView::Present(s@),
        }
    }
}

/// The string member `key` among the strings of a document, where `None`
/// stands for a text that is no JSON.
pub open spec fn string_member(document: Option<Map<Seq<char>, Seq<char>>>, key: Seq<char>)
    -> TextFieldView {
    match document {
        None => TextFieldView::Undecodable,
        Some(strings) => if strings.contains_key(key) {
            TextFieldView::Present(strings[key])
        } else {
            TextFieldView::Absent
        },
    }
}

/// The string member `key` of the JSON document in `body`.
pub open spec fn text_field(body: Seq<char>, key: Seq<char>) -> TextFieldView {
    string_member(json_document(body), key)
}

/// The text of a stored setting, given the string that is stored for it, if
/// any: that string, and the empty text where there is none.
pub open spec fn setting_text(text: Option<Seq<char>>) -> Seq<char> {
    match text {
        Some(s) => s,
        None => Seq::empty(),
    }
}

/// Reads `body` as JSON and takes its string member `key`.
pub fn read_text_field(body: &str, key: &str) -> (field: TextField)
    ensures
        field@ == text_field(body@, key@),
{
    match parse_json(body) {
        Err(_) => TextField::Undecodable,
        Ok(document) => match json_get(&document, key) {
            None => TextField::Absent,
            Some(member) => match json_as_str(member) {
                None => TextField::Absent,
                Some(s) => TextField::Present(s.to_owned()),
            },
        },
    }
}

/// Returns the string that is stored for a setting, and the empty text where
/// there is none.
pub fn text_or_empty(stored: Option<&str>) -> (text: String)
    ensures
        text@ == setting_text(
            match stored {
                Some(s) => Some(s@),
                None => None,
            },
        ),
{
    match stored {
        Some(s) => s.to_owned(),
        None => String::new(),
    }
}

/// Reads a setting as it comes out of the key-value store: missing values and
/// values that are no strings give the empty text.
pub fn stored_string(value: Option<&serde_json::Value>) -> (text: String)
    ensures
        text@ == setting_text(
            match value {
                Some(v) => json_text(*v),
                None => None,
            },
        ),
{
    text_or_empty(
        match value {
            Some(v) => json_as_str(v),
            None => None,
        },
    )
}

} // verus!
