//! The identity line of a script: the first line that starts with
//! `session_name=`. What follows the sign on that line, trimmed, is the name
//! of the session that the script creates. No other line of a script is read.

use crate::text::{
    chars_of, find_next, is_single_line, is_trimmed, lemma_next_position,
    lemma_next_position_bounds, lemma_trimmed_fixpoint, line_end, matches_at, stands_at, trimmed,
    trimmed_bounds,
};
use vstd::prelude::*;

verus! {

/// What an identity line starts with.
pub open spec fn identity_prefix() -> Seq<char> {
    "session_name="@
}

/// A line starts at `i`: the text starts there, or a line feed stands before.
pub open spec fn is_line_start(text: Seq<char>, i: int) -> bool {
    i == 0 || (0 < i <= text.len() && text[i - 1] == '\n')
}

/// An identity line starts at `i`.
pub open spec fn is_identity_line_at(text: Seq<char>, i: int) -> bool {
    is_line_start(text, i) && matches_at(text, i, identity_prefix())
}

/// The text has an identity line.
pub open spec fn has_identity_line(text: Seq<char>) -> bool {
    exists|i: int| is_identity_line_at(text, i)
}

/// The first identity line of the text starts at `i`.
pub open spec fn is_first_identity_line(text: Seq<char>, i: int) -> bool {
    &&& is_identity_line_at(text, i)
    &&& forall|j: int| 0 <= j < i ==> !is_identity_line_at(text, j)
}

/// Where the first identity line starts, in a text that has one.
pub open spec fn identity_line_start(text: Seq<char>) -> int {
    choose|i: int| is_first_identity_line(text, i)
}

/// Where the value of the first identity line starts: behind the sign.
pub open spec fn identity_value_start(text: Seq<char>) -> int {
    identity_line_start(text) + identity_prefix().len()
}

/// Where the value of the first identity line ends: at the end of the line.
pub open spec fn identity_value_end(text: Seq<char>) -> int {
    line_end(text, identity_value_start(text))
}

/// The session name that the text carries: the trimmed value of its first
/// identity line, and the empty text if it has no identity line.
pub open spec fn session_name_in(text: Seq<char>) -> Seq<char> {
    if has_identity_line(text) {
        trimmed(text.subrange(identity_value_start(text), identity_value_end(text)))
    } else {
        Seq::empty()
    }
}

/// The text with the value of its first identity line replaced by `name`, and
/// the text itself if it has no identity line.
pub open spec fn with_session_name(text: Seq<char>, name: Seq<char>) -> Seq<char> {
    if has_identity_line(text) {
        text.subrange(0, identity_value_start(text)) + name + text.subrange(
            identity_value_end(text),
            text.len() as int,
        )
    } else {
        text
    }
}

/// A name that an identity line hands back as it is: on one line, without
/// white space at either end.
pub open spec fn is_plain_name(name: Seq<char>) -> bool {
    is_single_line(name) && is_trimmed(name)
}

/// A text has at most one first identity line.
pub proof fn lemma_first_identity_line(text: Seq<char>, i: int)
    requires
        is_first_identity_line(text, i),
    ensures
        has_identity_line(text),
        identity_line_start(text) == i,
{
    let k = identity_line_start(text);
    assert(is_first_identity_line(text, k));
    if k < i {
        assert(!is_identity_line_at(text, k));
    }
    if i < k {
        assert(!is_identity_line_at(text, i));
    }
}

/// A text that has an identity line has a first one.
pub proof fn lemma_identity_line_exists(text: Seq<char>)
    requires
        has_identity_line(text),
    ensures
        is_first_identity_line(text, identity_line_start(text)),
        0 <= identity_line_start(text),
        identity_value_start(text) <= identity_value_end(text) <= text.len(),
{
    let some = choose|i: int| is_identity_line_at(text, i);
    lemma_least_identity_line(text, some, 0);
    lemma_next_position_bounds(text, '\n', identity_value_start(text));
}

/// If no identity line starts before `from`, and one starts at `some`, then a
/// first one exists.
proof fn lemma_least_identity_line(text: Seq<char>, some: int, from: int)
    requires
        is_identity_line_at(text, some),
        0 <= from <= some,
        forall|j: int| 0 <= j < from ==> !is_identity_line_at(text, j),
    ensures
        exists|i: int| is_first_identity_line(text, i),
    decreases some - from,
{
    if is_identity_line_at(text, from) {
        assert(is_first_identity_line(text, from));
    } else {
        lemma_least_identity_line(text, some, from + 1);
    }
}

/// Rewriting the identity of a script to a plain name makes that name the
/// one that is read from the script, whatever name it carried before.
pub proof fn lemma_rewritten_identity(text: Seq<char>, name: Seq<char>)
    requires
        has_identity_line(text),
        is_plain_name(name),
    ensures
        has_identity_line(with_session_name(text, name)),
        session_name_in(with_session_name(text, name)) == name,
{
    lemma_identity_line_exists(text);
    let k = identity_line_start(text);
    let start = identity_value_start(text);
    let end = identity_value_end(text);
    let out = with_session_name(text, name);
    let prefix = identity_prefix();
    assert forall|j: int| 0 <= j <= k implies (is_identity_line_at(out, j) <==> is_identity_line_at(
        text,
        j,
    )) by {
        assert(out.subrange(j, j + prefix.len()) =~= text.subrange(j, j + prefix.len()));
        if j > 0 {
            assert(out[j - 1] == text[j - 1]);
        }
    }
    assert(is_first_identity_line(out, k));
    lemma_first_identity_line(out, k);
    assert forall|i: int| start <= i < start + name.len() implies out[i] != '\n' by {
        assert(out[i] == name[i - start]);
    }
    lemma_next_position_bounds(text, '\n', start);
    if start + name.len() < out.len() {
        assert(out[start + name.len()] == text[end]);
    }
    lemma_next_position(out, '\n', start, start + name.len());
    assert(out.subrange(start, start + name.len()) =~= name);
    lemma_trimmed_fixpoint(name);
}

/// No identity line starts inside `head`, whatever text follows it, and what
/// follows it starts a line.
pub open spec fn is_identity_free_head(head: Seq<char>) -> bool {
    &&& head.len() > 0 ==> head.last() == '\n'
    &&& forall|tail: Seq<char>, j: int|
        0 <= j < head.len() ==> !#[trigger] is_identity_line_at(head + tail, j)
}

/// A whole line that differs from the sign at position `d`.
pub open spec fn is_other_line(line: Seq<char>, d: int) -> bool {
    &&& line.len() > 0
    &&& line.last() == '\n'
    &&& forall|i: int| 0 <= i < line.len() - 1 ==> line[i] != '\n'
    &&& 0 <= d < line.len()
    &&& d < identity_prefix().len()
    &&& line[d] != identity_prefix()[d]
}

/// A head without identity line stays one when a line that does not start
/// with the sign is added to it.
pub proof fn lemma_head_grows(head: Seq<char>, line: Seq<char>, d: int)
    requires
        is_identity_free_head(head),
        is_other_line(line, d),
    ensures
        is_identity_free_head(head + line),
{
    let grown = head + line;
    let prefix = identity_prefix();
    assert forall|tail: Seq<char>, j: int| 0 <= j < grown.len() implies !#[trigger] is_identity_line_at(
        grown + tail,
        j,
    ) by {
        let text = grown + tail;
        if j < head.len() {
            assert(text =~= head + (line + tail));
            assert(!is_identity_line_at(head + (line + tail), j));
        } else if j == head.len() {
            if matches_at(text, j, prefix) {
                assert(text.subrange(j, j + prefix.len())[d] == prefix[d]);
                assert(text[j + d] == line[d]);
            }
        } else {
            assert(text[j - 1] == line[j - 1 - head.len()]);
        }
    }
}

/// A text that is made of a head without identity line, the sign, a plain
/// name and the rest of the text from the next line on, carries that name.
pub proof fn lemma_identity_behind_head(head: Seq<char>, name: Seq<char>, rest: Seq<char>)
    requires
        is_identity_free_head(head),
        is_plain_name(name),
    ensures
        has_identity_line(head + identity_prefix() + name + seq!['\n'] + rest),
        session_name_in(head + identity_prefix() + name + seq!['\n'] + rest) == name,
{
    let prefix = identity_prefix();
    let text = head + prefix + name + seq!['\n'] + rest;
    let k = head.len() as int;
    let start = k + prefix.len();
    assert(matches_at(text, k, prefix)) by {
        assert(text.subrange(k, k + prefix.len()) =~= prefix);
    }
    if k > 0 {
        assert(text[k - 1] == head.last());
    }
    assert forall|j: int| 0 <= j < k implies !is_identity_line_at(text, j) by {
        assert(text =~= head + (prefix + name + seq!['\n'] + rest));
    }
    lemma_first_identity_line(text, k);
    assert forall|i: int| start <= i < start + name.len() implies text[i] != '\n' by {
        assert(text[i] == name[i - start]);
    }
    assert(text[start + name.len()] == '\n');
    lemma_next_position(text, '\n', start, start + name.len());
    assert(text.subrange(start, start + name.len()) =~= name);
    lemma_trimmed_fixpoint(name);
}

/// Where the first identity line of the text starts, if it has one.
fn find_identity_line(text: &Vec<char>, prefix: &Vec<char>) -> (found: Option<usize>)
    requires
        prefix@ == identity_prefix(),
    ensures
        match found {
            Some(i) => is_first_identity_line(text@, i as int),
            None => !has_identity_line(text@),
        },
{
    let mut i: usize = 0;
    while i < text.len()
        invariant
            0 <= i <= text.len(),
            prefix@ == identity_prefix(),
            forall|j: int| 0 <= j < i ==> !is_identity_line_at(text@, j),
        decreases text.len() - i,
    {
        if (i == 0 || text[i - 1] == '\n') && stands_at(text, i, prefix) {
            return Some(i);
        }
        i += 1;
    }
    proof {
        reveal_strlit("session_name=");
        assert(!matches_at(text@, text.len() as int, identity_prefix()));
    }
    None
}

/// Reads the session name from a script: the trimmed value of its first
/// identity line. The result is empty if the script has no identity line.
pub fn capture_session_name_from_script(shell_script: &str) -> (name: String)
    ensures
        name@ == session_name_in(shell_script@),
{
    let text = chars_of(shell_script);
    let prefix = chars_of("session_name=");
    match find_identity_line(&text, &prefix) {
        None => String::new(),
        Some(k) => {
            proof {
                lemma_first_identity_line(text@, k as int);
            }
            let start = k + prefix.len();
            let end = find_next(&text, '\n', start);
            let (a, b) = trimmed_bounds(&text, start, end);
            shell_script.substring_char(a, b).to_owned()
        },
    }
}

/// Gives the script another identity: the value of its first identity line
/// becomes `session_name`, and nothing else changes. A script without an
/// identity line is handed back as it is.
pub fn replace_session_name_in_script(shell_script: &str, session_name: &str) -> (script: String)
    ensures
        script@ == with_session_name(shell_script@, session_name@),
{
    let text = chars_of(shell_script);
    let prefix = chars_of("session_name=");
    match find_identity_line(&text, &prefix) {
        None => shell_script.to_owned(),
        Some(k) => {
            proof {
                lemma_first_identity_line(text@, k as int);
            }
            let start = k + prefix.len();
            let end = find_next(&text, '\n', start);
            let mut script = shell_script.substring_char(0, start).to_owned();
            script.append(session_name);
            script.append(shell_script.substring_char(end, text.len()));
            script
        },
    }
}

} // verus!
