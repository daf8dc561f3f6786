//! The menu of saved sessions: one option for each saved script, with the
//! session's name and the directory it was saved for, and an option to quit.
//!
//! The options have the keys `1`, `2`, `3` and so on, in the order of the
//! list, by the character codes that follow the one of `1`.

use crate::common::{OptionView, UserOption};
use crate::text::{decimal, decimal_text};
use crate::ui::{option_views, QUIT_KEY};
use vstd::prelude::*;

verus! {

/// The number of saved sessions that a menu has keys for.
pub const MAX_LISTED_SESSIONS: usize = 207;

/// The text that a percent-encoded text stands for, if it stands for one.
pub uninterp spec fn percent_decoded(text: Seq<char>) -> Option<Seq<char>>;

/// `urlencoding::decode`: the text with every percent sign and the two
/// hexadecimal digits behind it read as one byte, if the bytes are UTF-8,
/// and nothing if they are not. The result depends on the text alone.
#[verifier::external_body]
fn percent_decode(text: &str) -> (decoded: Option<String>)
    ensures
        match decoded {
            Some(plain) => percent_decoded(text@) == Some(plain@),
            None => percent_decoded(text@) is None,
        },
{
    match urlencoding::decode(text) {
        Ok(plain) => Some(plain.into_owned()),
        Err(_) => None,
    }
}

/// The key of the saved session at position `index` of the list.
pub open spec fn session_key(index: int) -> char {
    (49 + index) as char
}

/// The label of the saved session at position `index` of the list.
pub open spec fn session_label(index: int, name: Seq<char>, location: Seq<char>) -> Seq<char> {
    "["@ + decimal((index + 1) as nat) + "] "@ + name + ": "@ + location
}

/// The option for the saved session at position `index` of the list.
pub open spec fn session_entry(index: int, name: Seq<char>, location: Seq<char>) -> OptionView {
    OptionView { label: session_label(index, name, location), keybind: session_key(index) }
}

/// The option to leave the menu.
pub open spec fn quit_entry() -> OptionView {
    OptionView { label: "[q] Quit"@, keybind: QUIT_KEY }
}

/// The position of the saved session that the key `choice` selects in a list
/// of `count` sessions. The quit key selects none, nor does a key that no
/// option of the list has.
pub open spec fn selected_session_of(choice: char, count: int) -> Option<int> {
    let index = choice as int - 49;
    if choice != QUIT_KEY && 0 <= index < count && index < MAX_LISTED_SESSIONS {
        Some(index)
    } else {
        None
    }
}

/// The names of the saved sessions, and for each the name of its file
/// without the extension.
pub open spec fn entry_views(entries: Seq<(String, String)>) -> Seq<(Seq<char>, Seq<char>)> {
    entries.map_values(|e: (String, String)| (e.0@, e.1@))
}

/// The sessions of a list have keys of their own: two positions have
/// different keys, a key selects the session at its position unless it is the
/// quit key, and the quit key is the key of position 64 only.
pub proof fn lemma_session_keys(i: int, j: int, count: int)
    requires
        0 <= i < count <= MAX_LISTED_SESSIONS,
        0 <= j < count,
    ensures
        i != j ==> session_key(i) != session_key(j),
        session_key(i) == QUIT_KEY <==> i == 64,
        session_key(i) != QUIT_KEY ==> selected_session_of(session_key(i), count) == Some(i),
{
}

/// The option for the saved session at position `index` of the list, called
/// `name` and saved for the directory `location`.
pub fn session_option(index: usize, name: &str, location: &str) -> (option: UserOption)
    requires
        index < MAX_LISTED_SESSIONS,
    ensures
        option@ == session_entry(index as int, name@, location@),
{
    let mut label = String::new();
    label.append("[");
    let number = decimal_text(index + 1);
    label.append(number.as_str());
    label.append("] ");
    label.append(name);
    label.append(": ");
    label.append(location);
    let code: u8 = 49u8 + (index as u8);
    UserOption { label, keybind: code as char }
}

/// The options of the menu of saved sessions. Each entry is the name of a
/// session and the name of its file without the extension, which is the
/// percent-encoded path of the directory. The result is `None` if one of the
/// file names stands for no text.
pub fn session_options(entries: &Vec<(String, String)>) -> (options: Option<Vec<UserOption>>)
    requires
        entries.len() <= MAX_LISTED_SESSIONS,
    ensures
        match options {
            Some(listed) => {
                &&& listed@.len() == entries@.len() + 1
                &&& forall|i: int|
                    0 <= i < entries@.len() ==> {
                        let entry = #[trigger] entry_views(entries@)[i];
                        &&& percent_decoded(entry.1) is Some
                        &&& option_views(listed@)[i] == session_entry(
                            i,
                            entry.0,
                            percent_decoded(entry.1)->0,
                        )
                    }
                &&& option_views(listed@)[entries@.len() as int] == quit_entry()
            },
            None => exists|i: int|
                0 <= i < entries@.len() && percent_decoded(
                    (#[trigger] entry_views(entries@)[i]).1,
                ) is None,
        },
{
    let ghost views = entry_views(entries@);
    let mut listed: Vec<UserOption> = Vec::new();
    let mut i: usize = 0;
    while i < entries.len()
        invariant
            0 <= i <= entries.len(),
            entries.len() <= MAX_LISTED_SESSIONS,
            views == entry_views(entries@),
            listed@.len() == i,
            forall|j: int|
                0 <= j < i ==> {
                    let entry = #[trigger] views[j];
                    &&& percent_decoded(entry.1) is Some
                    &&& option_views(listed@)[j] == session_entry(
                        j,
                        entry.0,
                        percent_decoded(entry.1)->0,
                    )
                },
        decreases entries.len() - i,
    {
        let entry = &entries[i];
        assert(views[i as int] == (entry.0@, entry.1@));
        match percent_decode(entry.1.as_str()) {
            None => {
                assert(percent_decoded(views[i as int].1) is None);
                return None;
            },
            Some(location) => {
                let option = session_option(i, entry.0.as_str(), location.as_str());
                let ghost before = option_views(listed@);
                listed.push(option);
                assert(option_views(listed@) == before.push(option@));
            },
        }
        i += 1;
    }
    let ghost before = option_views(listed@);
    let quit = UserOption { label: "[q] Quit".to_owned(), keybind: QUIT_KEY };
    listed.push(quit);
    assert(option_views(listed@) == before.push(quit@));
    Some(listed)
}

/// The position of the saved session that the key `choice` selects in a list
/// of `count` sessions.
pub fn selected_session(choice: char, count: usize) -> (selected: Option<usize>)
    ensures
        match selected {
            Some(index) => selected_session_of(choice, count as int) == Some(index as int),
            None => selected_session_of(choice, count as int) is None,
        },
{
    let code: u32 = choice as u32;
    if choice == QUIT_KEY || code < 49 {
        return None;
    }
    let index: u32 = code - 49;
    if index < MAX_LISTED_SESSIONS as u32 && (index as usize) < count {
        Some(index as usize)
    } else {
        None
    }
}

} // verus!
