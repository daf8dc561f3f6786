//! What the multiplexer answers when it is asked about the caller.

use crate::text::{trim, trimmed};
use vstd::prelude::*;

verus! {

/// The session that the caller is attached to, as the multiplexer's answer
/// tells it: the trimmed output, if the multiplexer succeeded and printed a
/// name.
pub open spec fn attached_session_in(succeeded: bool, output: Seq<char>) -> Option<Seq<char>> {
    if succeeded && trimmed(output).len() > 0 {
        Some(trimmed(output))
    } else {
        None
    }
}

/// Reads the session that the caller is attached to from the multiplexer's
/// answer: whether it succeeded, and what it printed.
pub fn attached_session_name(succeeded: bool, output: &str) -> (session: Option<String>)
    ensures
        match session {
            Some(name) => attached_session_in(succeeded, output@) == Some(name@),
            None => attached_session_in(succeeded, output@) is None,
        },
{
    if !succeeded {
        return None;
    }
    let name = trim(output);
    if name.as_str().is_empty() {
        None
    } else {
        Some(name)
    }
}

} // verus!
