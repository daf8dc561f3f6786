//! Capturing a session: from what the multiplexer and the process table
//! report, line by line, to the windows, panes and commands of the model.
//!
//! The multiplexer describes a window as `index:name:layout:active:zoomed` and
//! a pane as `index:directory:pid:active`, with `1` for a flag that is set.
//! The process table gives the command line of a process, and one process id
//! on a line for its children.

use crate::common::{PaneView, TmuxPane, TmuxWindow, WindowView};
use crate::text::{
    chars_of, contains, fields_of, i32_value, lines, lines_of, occurs_in, parse_i32, same_text,
    split, text_views, trim, trimmed, trimmed_bounds,
};
use vstd::prelude::*;

verus! {

/// The text that a lossy reading of `bytes` as UTF-8 gives.
pub uninterp spec fn utf8_lossy(bytes: Seq<u8>) -> Seq<char>;

/// `String::from_utf8_lossy` of the standard library: the bytes read as
/// UTF-8, with a replacement character for what is no UTF-8. The result
/// depends on the bytes alone.
#[verifier::external_body]
fn lossy_text(bytes: &Vec<u8>) -> (text: String)
    ensures
        text@ == utf8_lossy(bytes@),
{
    String::from_utf8_lossy(bytes).into_owned()
}

/// A command line as the model holds it: trimmed, and without the hyphen that
/// marks a login shell.
pub open spec fn sanitized(text: Seq<char>) -> Seq<char> {
    let command = trimmed(text);
    if command.len() > 0 && command[0] == '-' {
        command.drop_first()
    } else {
        command
    }
}

/// A command that may stand for what runs in a pane: not empty, and not this
/// program itself.
pub open spec fn is_foreground_command(command: Seq<char>) -> bool {
    command.len() > 0 && !occurs_in("tmuxession"@, command)
}

/// Index of the first foreground command from `from` on, if there is one.
pub open spec fn first_foreground(commands: Seq<Seq<char>>, from: int) -> Option<int>
    decreases commands.len() - from,
{
    if from < 0 || from >= commands.len() {
        None
    } else if is_foreground_command(commands[from]) {
        Some(from)
    } else {
        first_foreground(commands, from + 1)
    }
}

/// The commands of a pane: the command of its shell, and behind it the first
/// foreground command among those of the shell's children, if there is one.
pub open spec fn pane_commands_of(shell: Seq<char>, children: Seq<Seq<char>>) -> Seq<Seq<char>> {
    match first_foreground(children, 0) {
        Some(i) => seq![shell, children[i]],
        None => seq![shell],
    }
}

/// The window that the fields of a line describe, without its panes. A line
/// of fewer than five fields describes no window; fields after the fifth are
/// not read.
pub open spec fn window_of_fields(fields: Seq<Seq<char>>) -> Option<WindowView> {
    if fields.len() >= 5 {
        Some(
            WindowView {
                id: fields[0],
                name: fields[1],
                layout: fields[2],
                active: fields[3] == "1"@,
                zoomed: fields[4] == "1"@,
                panes: Seq::empty(),
            },
        )
    } else {
        None
    }
}

/// The pane that the fields of a line describe, without its commands, and
/// the id of the process that runs in it. A line of fewer than four fields,
/// or one whose third field is no process id, describes no pane; fields after
/// the fourth are not read.
pub open spec fn pane_of_fields(fields: Seq<Seq<char>>) -> Option<(PaneView, i32)> {
    if fields.len() >= 4 {
        match i32_value(fields[2]) {
            Some(pid) => Some(
                (
                    PaneView {
                        id: fields[0],
                        cwd: fields[1],
                        active: fields[3] == "1"@,
                        commands: Seq::empty(),
                    },
                    pid,
                ),
            ),
            None => None,
        }
    } else {
        None
    }
}

/// The view of a parsed pane and its process id.
pub open spec fn pane_record_view(record: (TmuxPane, i32)) -> (PaneView, i32) {
    (record.0@, record.1)
}

/// Brings a command line into the form that the model holds.
pub fn sanitize_command(text: &str) -> (command: String)
    ensures
        command@ == sanitized(text@),
{
    let chars = chars_of(text);
    let (a, b) = trimmed_bounds(&chars, 0, chars.len());
    assert(chars@.subrange(0, chars.len() as int) == chars@);
    if a < b && chars[a] == '-' {
        assert(text@.subrange(a as int, b as int).drop_first() == text@.subrange(
            a + 1,
            b as int,
        ));
        text.substring_char(a + 1, b).to_owned()
    } else {
        text.substring_char(a, b).to_owned()
    }
}

/// Brings the command line that the process table printed into the form that
/// the model holds.
pub fn sanitize_command_from_ps(stdout: Vec<u8>) -> (command: String)
    ensures
        command@ == sanitized(utf8_lossy(stdout@)),
{
    let text = lossy_text(&stdout);
    sanitize_command(text.as_str())
}

/// Whether a command may stand for what runs in a pane.
pub fn is_foreground(command: &str) -> (foreground: bool)
    ensures
        foreground == is_foreground_command(command@),
{
    !command.is_empty() && !contains(command, "tmuxession")
}

/// The commands of a pane, from the command of its shell and the commands of
/// the shell's children in the order of the process table.
pub fn pane_commands(shell: String, children: &Vec<String>) -> (commands: Vec<String>)
    ensures
        text_views(commands@) == pane_commands_of(shell@, text_views(children@)),
{
    let ghost views = text_views(children@);
    let mut commands: Vec<String> = Vec::new();
    commands.push(shell);
    assert(text_views(commands@) == seq![shell@]);
    let mut i: usize = 0;
    while i < children.len()
        invariant
            0 <= i <= children.len(),
            views == text_views(children@),
            text_views(commands@) == seq![shell@],
            first_foreground(views, 0) == first_foreground(views, i as int),
        decreases children.len() - i,
    {
        if is_foreground(children[i].as_str()) {
            let command = children[i].clone();
            let ghost before = text_views(commands@);
            assert(command@ == views[i as int]);
            commands.push(command);
            assert(text_views(commands@) == before + seq![command@]);
            return commands;
        }
        i += 1;
    }
    commands
}

/// Reads the line that describes a window.
pub fn parse_window_line(line: &str) -> (window: Option<TmuxWindow>)
    ensures
        match window {
            Some(w) => window_of_fields(fields_of(line@, ':')) == Some(w@),
            None => window_of_fields(fields_of(line@, ':')) is None,
        },
{
    let fields = split(line, ':');
    if fields.len() < 5 {
        return None;
    }
    let ghost views = text_views(fields@);
    assert(views[0] == fields[0]@ && views[1] == fields[1]@ && views[2] == fields[2]@);
    assert(views[3] == fields[3]@ && views[4] == fields[4]@);
    let window = TmuxWindow {
        id: fields[0].clone(),
        name: fields[1].clone(),
        layout: fields[2].clone(),
        active: same_text(fields[3].as_str(), "1"),
        zoomed: same_text(fields[4].as_str(), "1"),
        panes: Vec::new(),
    };
    assert(window@.panes == Seq::<PaneView>::empty());
    Some(window)
}

/// Reads the line that describes a pane.
pub fn parse_pane_line(line: &str) -> (pane: Option<(TmuxPane, i32)>)
    ensures
        match pane {
            Some(record) => pane_of_fields(fields_of(line@, ':')) == Some(pane_record_view(record)),
            None => pane_of_fields(fields_of(line@, ':')) is None,
        },
{
    let fields = split(line, ':');
    if fields.len() < 4 {
        return None;
    }
    let ghost views = text_views(fields@);
    assert(views[0] == fields[0]@ && views[1] == fields[1]@ && views[2] == fields[2]@);
    assert(views[3] == fields[3]@);
    match parse_i32(fields[2].as_str()) {
        None => None,
        Some(pid) => {
            let pane = TmuxPane {
                id: fields[0].clone(),
                cwd: fields[1].clone(),
                active: same_text(fields[3].as_str(), "1"),
                commands: Vec::new(),
            };
            assert(pane@.commands == Seq::<Seq<char>>::empty());
            Some((pane, pid))
        },
    }
}

/// Reads the process ids that the process table printed, one on a line, with
/// white space around them. The result is `None` if one of the lines holds
/// no process id.
pub fn parse_pid_lines(output: &str) -> (pids: Option<Vec<i32>>)
    ensures
        match pids {
            Some(found) => {
                &&& found@.len() == lines_of(output@).len()
                &&& forall|i: int|
                    0 <= i < found@.len() ==> i32_value(trimmed(#[trigger] lines_of(output@)[i]))
                        == Some(found@[i])
            },
            None => exists|i: int|
                0 <= i < lines_of(output@).len() && i32_value(
                    trimmed(#[trigger] lines_of(output@)[i]),
                ) is None,
        },
{
    let all = lines(output);
    let ghost views = text_views(all@);
    let mut found: Vec<i32> = Vec::new();
    let mut i: usize = 0;
    while i < all.len()
        invariant
            0 <= i <= all.len(),
            views == text_views(all@),
            views == lines_of(output@),
            found@.len() == i,
            forall|j: int| 0 <= j < i ==> i32_value(trimmed(#[trigger] views[j])) == Some(found@[j]),
        decreases all.len() - i,
    {
        let entry = trim(all[i].as_str());
        assert(views[i as int] == all[i as int]@);
        match parse_i32(entry.as_str()) {
            None => {
                assert(i32_value(trimmed(views[i as int])) is None);
                return None;
            },
            Some(pid) => {
                found.push(pid);
            },
        }
        i += 1;
    }
    Some(found)
}

} // verus!
