//! Pattern matching and JSON field access, from the regex and serde_json crates.

use vstd::prelude::*;
use crate::state::opt_text;

verus! {

/// The capture groups of the leftmost match of a regular expression in a
/// text, group 0 first, each `None` where the group took no part in the
/// match; `None` when the pattern is invalid or does not match.
pub uninterp spec fn regex_captures(pattern: Seq<char>, text: Seq<char>) -> Option<Seq<Option<Seq<char>>>>;

/// Capture groups as values.
pub open spec fn groups_view(g: Option<Vec<Option<String>>>) -> Option<Seq<Option<Seq<char>>>> {
    match g {
        Some(v) => Some(v@.map_values(|o: Option<String>| opt_text(o))),
        None => None,
    }
}

/// Relies on `regex::Regex::new` and `Regex::captures`: compiles the pattern
/// and returns the groups of its leftmost match in `text`.
#[verifier::external_body]
pub(crate) fn regex_groups(pattern: &str, text: &str) -> (r: Option<Vec<Option<String>>>)
    ensures
        groups_view(r) == regex_captures(pattern@, text@),
{
    let re = regex::Regex::new(pattern).ok()?;
    let caps = re.captures(text)?;
    Some(caps.iter().map(|m| m.map(|m| m.as_str().to_string())).collect())
}

/// The JSON text of field `key` of the JSON object in `json`; `None` when
/// `json` is not a JSON object or has no such field.
pub uninterp spec fn json_field_text(json: Seq<char>, key: Seq<char>) -> Option<Seq<char>>;

/// Relies on `serde_json::from_str` into a `Value`, `Value::get` and the
/// compact `Display` of `Value`: the field's value written back as JSON.
#[verifier::external_body]
pub(crate) fn json_field(json: &str, key: &str) -> (r: Option<String>)
    ensures
        opt_text(r) == json_field_text(json@, key@),
{
    let value: serde_json::Value = serde_json::from_str(json).ok()?;
    value.get(key).map(|field| field.to_string())
}

/// The text of group `k` of a match: empty when the group took no part.
pub open spec fn group_text(g: Seq<Option<Seq<char>>>, k: int) -> Seq<char> {
    if 0 <= k < g.len() && g[k] is Some {
        g[k].unwrap()
    } else {
        Seq::empty()
    }
}

/// The text of group `k` of a match: empty when the group took no part.
pub fn group_text_exec(g: &Vec<Option<String>>, k: usize) -> (r: String)
    ensures
        r@ == group_text(g@.map_values(|o: Option<String>| opt_text(o)), k as int),
{
    if k < g.len() {
        match &g[k] {
            Some(s) => s.clone(),
            None => String::new(),
        }
    } else {
        String::new()
    }
}

} // verus!
