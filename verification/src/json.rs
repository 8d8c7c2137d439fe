//! Reading of JSON documents.
//!
//! Of a document only its strings are read. They are found by their path: the keys and
//! the array indices that lead to them.

use vstd::prelude::*;

use crate::text::is_digit;

verus! {

/// `serde_json::Value`, a JSON value.
#[verifier::external_type_specification]
#[verifier::external_body]
pub struct ExValue(serde_json::Value);

/// The strings in a JSON value, by their paths. A path holds a key for each object and an
/// index, in decimal, for each array on the way. A value that is a string itself has one
/// string, with the empty path.
pub uninterp spec fn json_strings(value: serde_json::Value) -> Map<Seq<Seq<char>>, Seq<char>>;

/// What `serde_json::from_str` makes of a text as a list of values: the strings in each of
/// the values, or the text of the error.
pub uninterp spec fn json_list(text: Seq<char>) -> Result<
    Seq<Map<Seq<Seq<char>>, Seq<char>>>,
    Seq<char>,
>;

/// The strings below `path`, by what is left of their paths.
pub open spec fn strings_below(
    strings: Map<Seq<Seq<char>>, Seq<char>>,
    path: Seq<Seq<char>>,
) -> Map<Seq<Seq<char>>, Seq<char>> {
    Map::new(
        |rest: Seq<Seq<char>>| strings.dom().contains(path + rest),
        |rest: Seq<Seq<char>>| strings[path + rest],
    )
}

/// The string at `path`, if there is one.
pub open spec fn string_at(
    strings: Map<Seq<Seq<char>>, Seq<char>>,
    path: Seq<Seq<char>>,
) -> Option<Seq<char>> {
    if strings.dom().contains(path) {
        Some(strings[path])
    } else {
        None
    }
}

/// The parts of `text` between separators.
pub open spec fn split_at_char(text: Seq<char>, separator: char) -> Seq<Seq<char>>
    decreases text.len(),
{
    match text.index_of_first(separator) {
        Some(i) => if 0 <= i < text.len() {
            seq![text.take(i)] + split_at_char(text.skip(i + 1), separator)
        } else {
            seq![text]
        },
        None => seq![text],
    }
}

/// A text without separators is its only part.
pub proof fn split_of_one(part: Seq<char>, separator: char)
    requires
        !part.contains(separator),
    ensures
        split_at_char(part, separator) == seq![part],
{
    part.index_of_first_ensures(separator);
}

/// What stands before the first separator is the first part, and what follows it has the
/// other parts.
pub proof fn split_of_more(part: Seq<char>, separator: char, rest: Seq<char>)
    requires
        !part.contains(separator),
    ensures
        split_at_char(part + seq![separator] + rest, separator) == seq![part] + split_at_char(
            rest,
            separator,
        ),
{
    let text = part + seq![separator] + rest;
    let at = part.len() as int;
    text.index_of_first_ensures(separator);
    assert(text[at] == separator);
    let i = text.index_of_first(separator)->0;
    if i < at {
        assert(part[i] == separator);
    }
    assert(text.take(at) =~= part);
    assert(text.skip(at + 1) =~= rest);
}

/// `serde_json::from_str`, into a list of values. Which texts it accepts, and what it
/// reads from them, is left to its name.
#[verifier::external_body]
pub(crate) fn parse_list(text: &str) -> (parsed: Result<Vec<serde_json::Value>, String>)
    ensures
        match parsed {
            Ok(values) => json_list(text@) == Ok::<_, Seq<char>>(
                Seq::new(values@.len(), |i: int| json_strings(values@[i])),
            ),
            Err(message) => json_list(text@) == Err::<Seq<Map<Seq<Seq<char>>, Seq<char>>>, _>(
                message@,
            ),
        },
{
    serde_json::from_str::<Vec<serde_json::Value>>(text).map_err(|e| e.to_string())
}

/// `Value::pointer`, for a pointer that begins with a slash and escapes nothing: it goes
/// down the path between the slashes. Where it finds a value, the strings of that value
/// are those below the path. Where it finds none, there are no strings below the path.
#[verifier::external_body]
fn pointer<'a>(value: &'a serde_json::Value, path: &str) -> (found: Option<&'a serde_json::Value>)
    requires
        path@.len() > 0,
        path@[0] == '/',
        !path@.contains('~'),
    ensures
        match found {
            Some(inner) => json_strings(*inner) == strings_below(
                json_strings(*value),
                split_at_char(path@, '/').drop_first(),
            ),
            None => strings_below(
                json_strings(*value),
                split_at_char(path@, '/').drop_first(),
            ).dom() == Set::<Seq<Seq<char>>>::empty(),
        },
{
    value.pointer(path)
}

/// `Value::get`, for a key that begins with no digit and so is no array index: it goes down
/// that key of an object. Where it finds a value, the strings of that value are those below
/// the key. Where it finds none, there are no strings below the key.
#[verifier::external_body]
fn get<'a>(value: &'a serde_json::Value, key: &str) -> (found: Option<&'a serde_json::Value>)
    requires
        key@.len() > 0,
        !is_digit(key@[0]),
    ensures
        match found {
            Some(inner) => json_strings(*inner) == strings_below(
                json_strings(*value),
                seq![key@],
            ),
            None => strings_below(json_strings(*value), seq![key@]).dom() == Set::<
                Seq<Seq<char>>,
            >::empty(),
        },
{
    value.get(key)
}

/// `Value::as_str`: the string that the value is, if it is one.
#[verifier::external_body]
fn as_str<'a>(value: &'a serde_json::Value) -> (text: Option<&'a str>)
    ensures
        text.deep_view() == string_at(json_strings(*value), Seq::empty()),
{
    value.as_str()
}

proof fn lemma_string_below(strings: Map<Seq<Seq<char>>, Seq<char>>, path: Seq<Seq<char>>)
    ensures
        string_at(strings_below(strings, path), Seq::empty()) == string_at(strings, path),
{
    assert(path + Seq::<Seq<char>>::empty() =~= path);
}

/// The string that a pointer leads to, if it leads to one.
pub fn string_at_pointer(value: &serde_json::Value, path: &str) -> (text: Option<String>)
    requires
        path@.len() > 0,
        path@[0] == '/',
        !path@.contains('~'),
    ensures
        text.deep_view() == string_at(
            json_strings(*value),
            split_at_char(path@, '/').drop_first(),
        ),
{
    proof {
        lemma_string_below(json_strings(*value), split_at_char(path@, '/').drop_first());
    }
    match pointer(value, path) {
        Some(inner) => match as_str(inner) {
            Some(text) => Some(text.to_string()),
            None => None,
        },
        None => None,
    }
}

/// The string that an object holds under a key, if it holds one.
pub fn string_of_key(value: &serde_json::Value, key: &str) -> (text: Option<String>)
    requires
        key@.len() > 0,
        !is_digit(key@[0]),
    ensures
        text.deep_view() == string_at(json_strings(*value), seq![key@]),
{
    proof {
        lemma_string_below(json_strings(*value), seq![key@]);
    }
    match get(value, key) {
        Some(inner) => match as_str(inner) {
            Some(text) => Some(text.to_string()),
            None => None,
        },
        None => None,
    }
}

}
