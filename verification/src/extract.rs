//! Cutting a component's source out of a transcript.

use vstd::prelude::*;
use crate::text::{contains, last_index, first_index, find, rfind, string_from_chars, to_chars, trim, trimmed};

verus! {

/// The component text that starts at the last `start_marker` in `content` and
/// ends right before the next code fence (three backticks), trimmed; `None`
/// when the marker does not occur or no fence follows it.
pub open spec fn component_of(content: Seq<char>, start_marker: Seq<char>) -> Option<Seq<char>> {
    if !contains(content, start_marker) {
        None
    } else {
        let rest = content.skip(last_index(content, start_marker));
        if !contains(rest, "```"@) {
            None
        } else {
            Some(trimmed(rest.take(first_index(rest, "```"@))))
        }
    }
}

/// Extracts the source of one component from a transcript (see [`component_of`]).
pub fn extract_component(content: &str, start_marker: &str) -> (r: Option<String>)
    ensures
        r is Some <==> component_of(content@, start_marker@) is Some,
        r matches Some(t) ==> component_of(content@, start_marker@) == Some(t@),
{
    let c = to_chars(content);
    let m = to_chars(start_marker);
    let fence = to_chars("```");
    if let Some(start) = rfind(c.as_slice(), m.as_slice()) {
        let rest = vstd::slice::slice_subrange(c.as_slice(), start, c.len());
        assert(rest@ =~= content@.skip(start as int));
        if let Some(end) = find(rest, fence.as_slice()) {
            let body = vstd::slice::slice_subrange(rest, 0, end);
            assert(body@ =~= rest@.take(end as int));
            return Some(string_from_chars(trim(body)));
        }
    }
    None
}

} // verus!
