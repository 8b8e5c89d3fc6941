//! Re-indenting a JSON body.

use vstd::prelude::*;
use crate::text::{is_blank, is_white_space};

verus! {

/// The text `serde_json::to_string_pretty` gives for the `serde_json::Value`
/// that `serde_json::from_str` reads from `text`, or none when either fails.
pub uninterp spec fn pretty_json(text: Seq<char>) -> Option<Seq<char>>;

/// Reads `text` as a JSON value and writes it back pretty-printed
/// (`serde_json::from_str::<serde_json::Value>`, then
/// `serde_json::to_string_pretty` on the value read).
#[verifier::external_body]
fn reformat_json(text: &str) -> (r: Option<String>)
    ensures
        match r {
            Some(t) => pretty_json(text@) == Some(t@),
            None => pretty_json(text@) is None,
        },
{
    match serde_json::from_str::<serde_json::Value>(text) {
        Ok(value) => serde_json::to_string_pretty(&value).ok(),
        Err(_) => None,
    }
}

/// The pretty-printed form of a JSON body, when there is one to give: none
/// for a body that is all white space or is not JSON.
pub fn format_json(text: &str) -> (r: Option<String>)
    ensures
        (forall|i: int| 0 <= i < text@.len() ==> is_white_space(#[trigger] text@[i])) ==> r is None,
        !(forall|i: int| 0 <= i < text@.len() ==> is_white_space(#[trigger] text@[i])) ==> match r {
            Some(t) => pretty_json(text@) == Some(t@),
            None => pretty_json(text@) is None,
        },
{
    if is_blank(text) {
        return None;
    }
    reformat_json(text)
}

} // verus!
