//! The session model: a session owns an ordered list of windows, a window an
//! ordered list of panes, a pane an ordered list of commands.

use crate::text::same_text;
use vstd::prelude::*;
use vstd::utf8::encode_utf8;

verus! {

/// A single terminal surface of a window.
#[derive(Debug, Clone, PartialEq, Eq)]
pub struct TmuxPane {
    /// Positional index of the pane inside its window, as the multiplexer names it.
    pub id: String,
    /// Working directory of the pane.
    pub cwd: String,
    /// Whether this is the selected pane of its window.
    pub active: bool,
    /// The command the pane was launched with, followed by the commands that
    /// were issued into it afterwards, in order.
    pub commands: Vec<String>,
}

/// A window of a session, with its panes in creation order.
#[derive(Debug, Clone, PartialEq, Eq)]
pub struct TmuxWindow {
    /// Positional index of the window inside its session.
    pub id: String,
    /// Display name.
    pub name: String,
    /// Serialized pane geometry, handed back to the multiplexer verbatim.
    pub layout: String,
    /// Whether this is the selected window of the session.
    pub active: bool,
    /// Whether the window's selected pane occupies the whole window.
    pub zoomed: bool,
    /// Pane 0 is the one created together with the window, the others come
    /// from splitting it.
    pub panes: Vec<TmuxPane>,
}

/// A captured session.
#[derive(Debug, Clone, PartialEq, Eq)]
pub struct TmuxSession {
    pub name: String,
    pub windows: Vec<TmuxWindow>,
}

/// One entry of a menu: what is shown, and the key that selects it.
#[derive(Debug, Clone, PartialEq, Eq)]
pub struct UserOption {
    pub label: String,
    pub keybind: char,
}

/// Mathematical model of a [`TmuxPane`].
pub struct PaneView {
    pub id: Seq<char>,
    pub cwd: Seq<char>,
    pub active: bool,
    pub commands: Seq<Seq<char>>,
}

/// Mathematical model of a [`TmuxWindow`].
pub struct WindowView {
    pub id: Seq<char>,
    pub name: Seq<char>,
    pub layout: Seq<char>,
    pub active: bool,
    pub zoomed: bool,
    pub panes: Seq<PaneView>,
}

/// Mathematical model of a [`TmuxSession`].
pub struct SessionView {
    pub name: Seq<char>,
    pub windows: Seq<WindowView>,
}

/// Mathematical model of a [`UserOption`].
pub struct OptionView {
    pub label: Seq<char>,
    pub keybind: char,
}

impl View for TmuxPane {
    type V = PaneView;

    open spec fn view(&self) -> PaneView {
        PaneView {
            id: self.id@,
            cwd: self.cwd@,
            active: self.active,
            commands: self.commands@.map_values(|c: String| c@),
        }
    }
}

impl View for TmuxWindow {
    type V = WindowView;

    open spec fn view(&self) -> WindowView {
        WindowView {
            id: self.id@,
            name: self.name@,
            layout: self.layout@,
            active: self.active,
            zoomed: self.zoomed,
            panes: self.panes@.map_values(|p: TmuxPane| p@),
        }
    }
}

impl View for TmuxSession {
    type V = SessionView;

    open spec fn view(&self) -> SessionView {
        SessionView { name: self.name@, windows: self.windows@.map_values(|w: TmuxWindow| w@) }
    }
}

impl View for UserOption {
    type V = OptionView;

    open spec fn view(&self) -> OptionView {
        OptionView { label: self.label@, keybind: self.keybind }
    }
}

impl PaneView {
    /// The pane has the command it was launched with.
    pub open spec fn complete(self) -> bool {
        self.commands.len() >= 1
    }
}

impl WindowView {
    /// The window has a first pane, and every pane has a first command.
    pub open spec fn complete(self) -> bool {
        &&& self.panes.len() >= 1
        &&& forall|i: int| 0 <= i < self.panes.len() ==> (#[trigger] self.panes[i]).complete()
    }

    /// Complete, pane indices are pairwise distinct, and at most one pane is
    /// active.
    pub open spec fn well_formed(self) -> bool {
        &&& self.complete()
        &&& forall|i: int, j: int|
            0 <= i < j < self.panes.len() ==> (#[trigger] self.panes[i]).id
                != (#[trigger] self.panes[j]).id
        &&& forall|i: int, j: int|
            0 <= i < j < self.panes.len() ==> !((#[trigger] self.panes[i]).active
                && (#[trigger] self.panes[j]).active)
    }
}

impl SessionView {
    /// Every window is complete.
    pub open spec fn complete(self) -> bool {
        forall|i: int| 0 <= i < self.windows.len() ==> (#[trigger] self.windows[i]).complete()
    }

    /// Every window is well formed, window indices are pairwise distinct, and
    /// at most one window is active.
    pub open spec fn well_formed(self) -> bool {
        &&& forall|i: int|
            0 <= i < self.windows.len() ==> (#[trigger] self.windows[i]).well_formed()
        &&& forall|i: int, j: int|
            0 <= i < j < self.windows.len() ==> (#[trigger] self.windows[i]).id
                != (#[trigger] self.windows[j]).id
        &&& forall|i: int, j: int|
            0 <= i < j < self.windows.len() ==> !((#[trigger] self.windows[i]).active
                && (#[trigger] self.windows[j]).active)
    }
}

impl TmuxPane {
    /// Whether the pane has the command it was launched with.
    pub fn is_complete(&self) -> (complete: bool)
        ensures
            complete == self@.complete(),
    {
        self.commands.len() >= 1
    }
}

impl TmuxWindow {
    /// Whether the window has a first pane, and every pane a first command.
    pub fn is_complete(&self) -> (complete: bool)
        ensures
            complete == self@.complete(),
    {
        if self.panes.len() == 0 {
            return false;
        }
        let mut i: usize = 0;
        while i < self.panes.len()
            invariant
                0 <= i <= self.panes.len(),
                forall|j: int| 0 <= j < i ==> (#[trigger] self@.panes[j]).complete(),
            decreases self.panes.len() - i,
        {
            assert(self@.panes[i as int] == self.panes[i as int]@);
            if !self.panes[i].is_complete() {
                return false;
            }
            i += 1;
        }
        true
    }
}

impl TmuxSession {
    /// Whether every window of the session is complete.
    pub fn is_complete(&self) -> (complete: bool)
        ensures
            complete == self@.complete(),
    {
        let mut i: usize = 0;
        while i < self.windows.len()
            invariant
                0 <= i <= self.windows.len(),
                forall|j: int| 0 <= j < i ==> (#[trigger] self@.windows[j]).complete(),
            decreases self.windows.len() - i,
        {
            assert(self@.windows[i as int] == self.windows[i as int]@);
            if !self.windows[i].is_complete() {
                return false;
            }
            i += 1;
        }
        true
    }
}

/// A byte that stands for itself in a percent-encoded text: a letter or a
/// digit of ASCII, or one of `-`, `.`, `_` and `~`.
pub open spec fn is_unreserved(b: u8) -> bool {
    ||| 0x30 <= b <= 0x39
    ||| 0x41 <= b <= 0x5A
    ||| 0x61 <= b <= 0x7A
    ||| b == 0x2D
    ||| b == 0x2E
    ||| b == 0x5F
    ||| b == 0x7E
}

/// The hexadecimal digit `d`, in upper case.
pub open spec fn hex_digit(d: int) -> char {
    if d < 10 {
        (48 + d) as char
    } else {
        (55 + d) as char
    }
}

/// A byte in percent-encoding: itself if it is unreserved, a percent sign and
/// its two hexadecimal digits if it is not.
pub open spec fn percent_encoded_byte(b: u8) -> Seq<char> {
    if is_unreserved(b) {
        seq![b as char]
    } else {
        seq!['%', hex_digit(b as int / 16), hex_digit(b as int % 16)]
    }
}

/// Bytes in percent-encoding, one after the other.
pub open spec fn percent_encoded(bytes: Seq<u8>) -> Seq<char>
    decreases bytes.len(),
{
    if bytes.len() == 0 {
        Seq::empty()
    } else {
        percent_encoded(bytes.drop_last()) + percent_encoded_byte(bytes.last())
    }
}

/// The name of the file that holds the script saved for `directory`: the
/// directory's path in UTF-8, percent-encoded, with the extension of a shell
/// script.
pub open spec fn script_file_name(directory: Seq<char>) -> Seq<char> {
    percent_encoded(encode_utf8(directory)) + ".sh"@
}

/// `urlencoding::encode`: the bytes of the text in UTF-8, each unreserved
/// byte as it is and every other byte as a percent sign with its two
/// hexadecimal digits in upper case.
#[verifier::external_body]
fn percent_encode(text: &str) -> (encoded: String)
    ensures
        encoded@ == percent_encoded(encode_utf8(text@)),
{
    urlencoding::encode(text).into_owned()
}

/// The name of the file that holds the script saved for `directory`.
pub fn session_script_file_name(directory: &str) -> (name: String)
    ensures
        name@ == script_file_name(directory@),
{
    let mut name = percent_encode(directory);
    name.append(".sh");
    name
}

/// Whether the caller runs inside the multiplexer, as far as its environment
/// tells: `TMUX` or `TMUX_PANE` is set, or `TERM_PROGRAM` names it.
///
/// `tmux` and `tmux_pane` say whether the variable is set, `term_program` is
/// the value of the variable, empty if it is not set.
pub fn is_inside_tmux(tmux: bool, term_program: &str, tmux_pane: bool) -> (inside: bool)
    ensures
        inside == (tmux || term_program@ == "tmux"@ || tmux_pane),
{
    tmux || same_text(term_program, "tmux") || tmux_pane
}

} // verus!
