//! Layer changes out of kanata's TCP messages.

use vstd::prelude::*;

verus! {

broadcast use vstd::string::group_string_axioms;

/// A JSON value, as `serde_json` holds it.
#[verifier::external_type_specification]
#[verifier::external_body]
pub struct ExValue(serde_json::Value);

/// The strings in a JSON value, each by the object keys that lead to it; a
/// value that is itself a string is found by the empty path.
pub uninterp spec fn strings_in(value: serde_json::Value) -> Map<Seq<Seq<char>>, Seq<char>>;

/// The strings in the JSON document that a text writes, by the object keys that
/// lead to them; `None` where the text is no JSON document.
pub uninterp spec fn document(text: Seq<char>) -> Option<Map<Seq<Seq<char>>, Seq<char>>>;

/// The strings below one key of an object.
pub open spec fn below(
    strings: Map<Seq<Seq<char>>, Seq<char>>,
    key: Seq<char>,
) -> Map<Seq<Seq<char>>, Seq<char>> {
    Map::new(
        |path: Seq<Seq<char>>| strings.dom().contains(seq![key] + path),
        |path: Seq<Seq<char>>| strings[seq![key] + path],
    )
}

/// The string that a path of keys leads to.
pub open spec fn string_at(
    strings: Map<Seq<Seq<char>>, Seq<char>>,
    path: Seq<Seq<char>>,
) -> Option<Seq<char>> {
    if strings.dom().contains(path) {
        Some(strings[path])
    } else {
        None
    }
}

/// `serde_json::from_str` into a `Value`: what the document holds is a function
/// of the text alone, and it fails exactly where the text is no document.
#[verifier::external_body]
fn parse_document(text: &str) -> (r: Option<serde_json::Value>)
    ensures
        match r {
            Some(value) => document(text@) == Some(strings_in(value)),
            None => document(text@) is None,
        },
{
    serde_json::from_str(text).ok()
}

/// `serde_json::Value::get` with a string: the value under that key of an
/// object, so what lies below it is what lay below the key; `None` where the
/// value is no object or has no such key, so nothing lies below the key.
#[verifier::external_body]
fn member<'a>(value: &'a serde_json::Value, key: &str) -> (r: Option<&'a serde_json::Value>)
    ensures
        match r {
            Some(inner) => strings_in(*inner) == below(strings_in(*value), key@),
            None => below(strings_in(*value), key@) == Map::<Seq<Seq<char>>, Seq<char>>::empty(),
        },
{
    value.get(key)
}

/// `serde_json::Value::as_str`: the string that the value itself is, if it is
/// one.
#[verifier::external_body]
fn as_text(value: &serde_json::Value) -> (r: Option<String>)
    ensures
        r.deep_view() == string_at(strings_in(*value), Seq::empty()),
{
    value.as_str().map(str::to_string)
}

/// The path to the new layer's name in a `LayerChange` message.
pub open spec fn layer_path() -> Seq<Seq<char>> {
    seq!["LayerChange"@, "new"@]
}

/// The layer that a kanata TCP message names as the new one.
pub fn layer_in(message: &serde_json::Value) -> (r: Option<String>)
    ensures
        r.deep_view() == string_at(strings_in(*message), layer_path()),
{
    let ghost all = strings_in(*message);
    proof {
        let empty = Seq::<Seq<char>>::empty();
        assert(seq!["new"@] + empty =~= seq!["new"@]);
        assert(seq!["LayerChange"@] + seq!["new"@] =~= layer_path());
        // Membership below the two keys, spelled out for the two steps.
        assert(below(all, "LayerChange"@).dom().contains(seq!["new"@]) == all.dom().contains(
            layer_path(),
        ));
        assert(below(below(all, "LayerChange"@), "new"@).dom().contains(empty) == below(
            all,
            "LayerChange"@,
        ).dom().contains(seq!["new"@]));
    }
    match member(message, "LayerChange") {
        None => None,
        Some(change) => match member(change, "new") {
            None => None,
            Some(name) => as_text(name),
        },
    }
}

/// The active layer named by a kanata TCP `LayerChange` message, or `None` for
/// any other/unparseable message, as in `{"LayerChange":{"new":"<layer>"}}`.
pub fn parse_layer_change(line: &str) -> (r: Option<String>)
    ensures
        r.deep_view() == (match document(line@) {
            Some(strings) => string_at(strings, layer_path()),
            None => None,
        }),
{
    match parse_document(line) {
        Some(message) => layer_in(&message),
        None => None,
    }
}

} // verus!
