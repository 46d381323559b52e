//! Trusted boundary around serde_json. Every probe here is a function
//! of the text it is given alone, so each result carries a name, and
//! the wrappers tie the names to what serde_json computes; the
//! library's logic then works on the named plain values and its
//! contracts pin what is done with them.

use vstd::prelude::*;

use crate::credentials::view_opt;

verus! {

/// Whether a text is well-formed JSON, i.e. whether serde_json's parser
/// accepts it.
pub uninterp spec fn json_parses(s: Seq<char>) -> bool;

/// The pretty-printed form of the value a JSON text parses to.
pub uninterp spec fn pretty_of(s: Seq<char>) -> Seq<char>;

/// Whether the value a JSON text parses to carries a top-level `items`
/// member that is an array.
pub uninterp spec fn has_items_of(s: Seq<char>) -> bool;

/// The length of that `items` array.
pub uninterp spec fn items_len_of(s: Seq<char>) -> int;

/// The member `key` of element `i` of the `items` array: nothing when
/// the text does not parse or the element or member is absent,
/// `Some(None)` when the member is present but no string,
/// `Some(Some(content))` when it is a string.
pub uninterp spec fn item_member_of(s: Seq<char>, i: int, key: Seq<char>) -> Option<
    Option<Seq<char>>,
>;

/// The pretty-printed form of element `i` of the `items` array, when
/// the text parses and that element exists.
pub uninterp spec fn item_pretty_of(s: Seq<char>, i: int) -> Option<Seq<char>>;

/// Whether a text parses as a JSON object.
pub uninterp spec fn is_object_of(s: Seq<char>) -> bool;

/// The top-level `error` member of that object, in the same
/// absent / present-but-no-string / string shape as `item_member_of`.
pub uninterp spec fn error_member_of(s: Seq<char>) -> Option<Option<Seq<char>>>;

/// The top-level `message` member of that object.
pub uninterp spec fn message_member_of(s: Seq<char>) -> Option<Option<Seq<char>>>;

/// The top-level `hint` member of that object.
pub uninterp spec fn hint_member_of(s: Seq<char>) -> Option<Option<Seq<char>>>;

/// The character-level model of a probed member.
pub open spec fn view_member(o: Option<Option<String>>) -> Option<Option<Seq<char>>> {
    match o {
        Some(m) => Some(view_opt(m)),
        None => None,
    }
}

/// Relies on serde_json::from_str::<Value> and to_string_pretty:
/// parsing succeeds exactly on well-formed JSON and depends on the text
/// alone; serializing a `Value` back out does not fail.
#[verifier::external_body]
pub fn probe_pretty(s: &str) -> (r: Option<String>)
    ensures
        (r is Some) == json_parses(s@),
        r matches Some(p) ==> p@ == pretty_of(s@),
{
    match serde_json::from_str::<serde_json::Value>(s) {
        Ok(v) => match serde_json::to_string_pretty(&v) {
            Ok(p) => Some(p),
            Err(_) => Some(String::new()),
        },
        Err(_) => None,
    }
}

/// Relies on serde_json's from_str, Value::get and Value::as_array: the
/// probe yields a length exactly when the text parses and its `items`
/// member is an array.
#[verifier::external_body]
pub fn probe_items_len(s: &str) -> (r: Option<usize>)
    ensures
        (r is Some) == (json_parses(s@) && has_items_of(s@)),
        r matches Some(n) ==> n as int == items_len_of(s@),
{
    match serde_json::from_str::<serde_json::Value>(s) {
        Ok(v) => match v.get("items").and_then(|x| x.as_array()) {
            Some(a) => Some(a.len()),
            None => None,
        },
        Err(_) => None,
    }
}

/// Relies on serde_json's from_str, Value::get (by key and by index)
/// and Value::as_str: the member of one list element, telling a present
/// non-string member apart from an absent one.
#[verifier::external_body]
pub fn probe_item_member(s: &str, i: usize, key: &str) -> (r: Option<Option<String>>)
    ensures
        view_member(r) == item_member_of(s@, i as int, key@),
{
    match serde_json::from_str::<serde_json::Value>(s) {
        Ok(v) => match v.get("items").and_then(|x| x.get(i)).and_then(|e| e.get(key)) {
            Some(m) => Some(m.as_str().map(|t| t.to_string())),
            None => None,
        },
        Err(_) => None,
    }
}

/// Relies on serde_json's from_str, Value::get and to_string_pretty:
/// the pretty form of one list element, when it exists.
#[verifier::external_body]
pub fn probe_item_pretty(s: &str, i: usize) -> (r: Option<String>)
    ensures
        view_opt(r) == item_pretty_of(s@, i as int),
{
    match serde_json::from_str::<serde_json::Value>(s) {
        Ok(v) => match v.get("items").and_then(|x| x.get(i)) {
            Some(e) => match serde_json::to_string_pretty(e) {
                Ok(p) => Some(p),
                Err(_) => Some(String::new()),
            },
            None => None,
        },
        Err(_) => None,
    }
}

/// Relies on serde_json's from_str, Value::is_object, Value::get and
/// Value::as_str: the `error`, `message` and `hint` members of a text
/// that parses as an object, each in the three-way member shape.
#[verifier::external_body]
pub fn probe_error_members(s: &str) -> (r: Option<
    (Option<Option<String>>, Option<Option<String>>, Option<Option<String>>),
>)
    ensures
        (r is Some) == is_object_of(s@),
        r matches Some(t) ==> view_member(t.0) == error_member_of(s@) && view_member(t.1)
            == message_member_of(s@) && view_member(t.2) == hint_member_of(s@),
{
    match serde_json::from_str::<serde_json::Value>(s) {
        Ok(v) => {
            if v.is_object() {
                Some((
                    v.get("error").map(|x| x.as_str().map(|t| t.to_string())),
                    v.get("message").map(|x| x.as_str().map(|t| t.to_string())),
                    v.get("hint").map(|x| x.as_str().map(|t| t.to_string())),
                ))
            } else {
                None
            }
        },
        Err(_) => None,
    }
}

} // verus!
