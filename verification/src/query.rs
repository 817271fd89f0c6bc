//! Query strings: the form in which the parameters of a `GET` request
//! travel. Writing one is the work of `serde_qs`.

use vstd::prelude::*;

verus! {

/// The query string that `serde_qs::to_string` writes for a map that holds
/// the given names with their values, in their order; `None` where it
/// reports an error.
pub uninterp spec fn query_text(fields: Seq<(Seq<char>, Seq<char>)>) -> Option<Seq<char>>;

/// `serde_qs::to_string` on a map from each name to its value, both text.
/// The contract only names the result: the same fields always give the
/// same query string.
#[verifier::external_body]
pub(crate) fn render_query(fields: &Vec<(String, String)>) -> (text: Option<String>)
    ensures
        text.deep_view() == query_text(fields.deep_view()),
{
    let map: serde_json::Map<String, serde_json::Value> = fields.iter().map(
        |(name, value)| (name.clone(), serde_json::Value::String(value.clone())),
    ).collect();
    match serde_qs::to_string(&map) {
        Ok(text) => Some(text),
        Err(_) => None,
    }
}

} // verus!
