//! The script generator: from a captured session to the text of a shell
//! script that rebuilds it.
//!
//! The script names the session once, in its identity line, and refers to it
//! through the shell variable everywhere else. It creates the windows and
//! panes in order, and selects the focused window and pane last, after the
//! zoom instructions.

use crate::common::{PaneView, SessionView, TmuxPane, TmuxSession, TmuxWindow, WindowView};
use crate::identity::{
    has_identity_line, identity_prefix, is_identity_free_head, is_other_line, is_plain_name,
    lemma_head_grows, lemma_identity_behind_head, session_name_in,
};
use vstd::prelude::*;

verus! {

/// The lines that precede the identity line.
pub open spec fn script_preamble() -> Seq<char> {
    "#!/bin/bash\n"@ + "\n"@ + "###############################################\n"@
        + "# Script generated by tmuxession              #\n"@
        + "###############################################\n"@ + "\n"@
        + "# Exit on error or unset variable\n"@ + "set -e\n"@ + "set -u\n"@ + "\n"@ + "\n"@
        + "# Session name\n"@
}

/// The identity line of a session called `name`.
pub open spec fn identity_line(name: Seq<char>) -> Seq<char> {
    "session_name="@ + name + "\n"@
}

/// Everything up to the first window: the preamble, the identity line and the
/// creation of the detached session.
pub open spec fn script_header(name: Seq<char>) -> Seq<char> {
    script_preamble() + identity_line(name) + "\n\n"@ + "### Create a new detached tmux session\n"@
        + "tmux new-session -d -s \"$session_name\"\n\n\n"@
}

/// How the script addresses the window slot `window_id`.
pub open spec fn window_target(window_id: Seq<char>) -> Seq<char> {
    "\"$session_name\":"@ + window_id
}

/// How the script addresses pane `pane_id` of window `window_id`.
pub open spec fn pane_target(window_id: Seq<char>, pane_id: Seq<char>) -> Seq<char> {
    window_target(window_id) + "."@ + pane_id
}

/// `## Window <id>:<name>`, the given marker in front.
pub open spec fn window_caption(marker: Seq<char>, w: WindowView) -> Seq<char> {
    marker + w.id + ":"@ + w.name
}

/// Creates or replaces the window at its slot and launches the first command of
/// pane 0 in that pane's directory.
pub open spec fn new_window_lines(w: WindowView) -> Seq<char> {
    window_caption("## Window "@, w) + "\n"@ + "tmux new-window -t "@ + window_target(w.id)
        + " -k -n "@ + w.name + " -c "@ + w.panes[0].cwd + " \""@ + w.panes[0].commands[0]
        + "\"\n\n"@
}

/// Splits the window for a pane after the first and launches its first command.
pub open spec fn split_window_lines(w: WindowView, p: PaneView) -> Seq<char> {
    "# Create pane "@ + p.id + "\n"@ + "tmux split-window -t "@ + window_target(w.id) + " -c "@
        + p.cwd + " \""@ + p.commands[0] + "\"\n"@
}

/// Types one later command into the pane and submits it.
pub open spec fn send_keys_lines(w: WindowView, p: PaneView, command: Seq<char>) -> Seq<char> {
    "# Run command in pane "@ + p.id + "\n"@ + "tmux send-keys -t "@ + pane_target(w.id, p.id)
        + " \""@ + command + "\" C-m\n\n"@
}

/// The send-keys lines for commands `1 .. n` of the pane, in order.
pub open spec fn later_commands_lines(w: WindowView, p: PaneView, n: int) -> Seq<char>
    decreases n,
{
    if n <= 1 {
        Seq::empty()
    } else {
        later_commands_lines(w, p, n - 1) + send_keys_lines(w, p, p.commands[n - 1])
    }
}

/// What pane `i` of the window adds to the script where it stands: its split,
/// unless it is pane 0, and its later commands.
pub open spec fn pane_lines(w: WindowView, i: int) -> Seq<char> {
    let p = w.panes[i];
    let split = if i == 0 {
        Seq::empty()
    } else {
        split_window_lines(w, p)
    };
    split + later_commands_lines(w, p, p.commands.len() as int)
}

/// The lines of the first `n` panes of the window.
pub open spec fn panes_lines(w: WindowView, n: int) -> Seq<char>
    decreases n,
{
    if n <= 0 {
        Seq::empty()
    } else {
        panes_lines(w, n - 1) + pane_lines(w, n - 1)
    }
}

/// Selects a pane.
pub open spec fn select_pane_line(window_id: Seq<char>, pane_id: Seq<char>) -> Seq<char> {
    "tmux select-pane -t "@ + pane_target(window_id, pane_id) + "\n\n"@
}

/// Toggles the zoom of a pane.
pub open spec fn resize_pane_line(window_id: Seq<char>, pane_id: Seq<char>) -> Seq<char> {
    "tmux resize-pane -t "@ + pane_target(window_id, pane_id) + " -Z\n"@
}

/// Selects a window.
pub open spec fn select_window_line(window_id: Seq<char>) -> Seq<char> {
    "tmux select-window -t "@ + window_target(window_id) + "\n\n"@
}

/// Restores the pane geometry of the window.
pub open spec fn select_layout_lines(w: WindowView) -> Seq<char> {
    "# Set layout for window "@ + w.name + "\n"@ + "tmux select-layout -t "@ + window_target(w.id)
        + " \""@ + w.layout + "\"\n\n"@
}

/// Index of the last active pane among the first `n`, if there is one. In a
/// well-formed window that is the active pane.
pub open spec fn last_active_pane(panes: Seq<PaneView>, n: int) -> Option<int>
    decreases n,
{
    if n <= 0 {
        None
    } else if panes[n - 1].active {
        Some(n - 1)
    } else {
        last_active_pane(panes, n - 1)
    }
}

/// The pane selection that directly follows the panes of a window that is not
/// the active one, so that the window remembers its pane. The active window's
/// pane is selected at the end of the script instead.
pub open spec fn deferred_selection(w: WindowView) -> Seq<char> {
    match last_active_pane(w.panes, w.panes.len() as int) {
        Some(k) if !w.active => select_pane_line(w.id, w.panes[k].id),
        _ => Seq::empty(),
    }
}

/// Everything the script holds for one window.
pub open spec fn window_lines(w: WindowView) -> Seq<char> {
    new_window_lines(w) + panes_lines(w, w.panes.len() as int)
        + "# Select the active pane in window "@ + w.name + "\n"@ + deferred_selection(w)
        + select_layout_lines(w) + window_caption("## End of window "@, w) + "\n\n"@
}

/// The lines of the first `n` windows.
pub open spec fn windows_lines(ws: Seq<WindowView>, n: int) -> Seq<char>
    decreases n,
{
    if n <= 0 {
        Seq::empty()
    } else {
        windows_lines(ws, n - 1) + window_lines(ws[n - 1])
    }
}

/// The zoom instructions that the first `n` panes of the window ask for: one
/// for each active pane, if the window is both active and zoomed.
pub open spec fn window_zoom_lines(w: WindowView, n: int) -> Seq<char>
    decreases n,
{
    if n <= 0 {
        Seq::empty()
    } else if w.active && w.zoomed && w.panes[n - 1].active {
        window_zoom_lines(w, n - 1) + resize_pane_line(w.id, w.panes[n - 1].id)
    } else {
        window_zoom_lines(w, n - 1)
    }
}

/// The zoom instructions of the first `n` windows, in order.
pub open spec fn zoom_lines(ws: Seq<WindowView>, n: int) -> Seq<char>
    decreases n,
{
    if n <= 0 {
        Seq::empty()
    } else {
        zoom_lines(ws, n - 1) + window_zoom_lines(ws[n - 1], ws[n - 1].panes.len() as int)
    }
}

/// The zoom section: absent when no pane is to be zoomed.
pub open spec fn zoom_section(ws: Seq<WindowView>) -> Seq<char> {
    let lines = zoom_lines(ws, ws.len() as int);
    if lines.len() == 0 {
        Seq::empty()
    } else {
        "### Zoom the zoomed panes\n"@ + lines
    }
}

/// Selection of the last active window among the first `n`; empty if none is
/// active.
pub open spec fn focus_window_line(ws: Seq<WindowView>, n: int) -> Seq<char>
    decreases n,
{
    if n <= 0 {
        Seq::empty()
    } else if ws[n - 1].active {
        select_window_line(ws[n - 1].id)
    } else {
        focus_window_line(ws, n - 1)
    }
}

/// Selection of the active pane of the last window, among the first `n`, that
/// is active and has one; empty if there is none.
pub open spec fn focus_pane_line(ws: Seq<WindowView>, n: int) -> Seq<char>
    decreases n,
{
    if n <= 0 {
        Seq::empty()
    } else {
        let w = ws[n - 1];
        match last_active_pane(w.panes, w.panes.len() as int) {
            Some(k) if w.active => select_pane_line(w.id, w.panes[k].id),
            _ => focus_pane_line(ws, n - 1),
        }
    }
}

/// What closes the script: the zoom section, then the focused window, then
/// the focused pane.
pub open spec fn script_footer(ws: Seq<WindowView>) -> Seq<char> {
    zoom_section(ws) + "### Select the active window\n"@ + focus_window_line(ws, ws.len() as int)
        + "### Select the active pane\n"@ + focus_pane_line(ws, ws.len() as int)
}

/// The script of a session.
pub open spec fn session_script(s: SessionView) -> Seq<char> {
    script_header(s.name) + windows_lines(s.windows, s.windows.len() as int) + script_footer(
        s.windows,
    )
}

/// Sessions that are equal as values have the same script, character for
/// character: the script depends on nothing but the session.
pub proof fn lemma_script_is_deterministic(a: TmuxSession, b: TmuxSession)
    requires
        a@ == b@,
    ensures
        session_script(a@) == session_script(b@),
{
}

/// No identity line starts in the preamble, and the preamble ends a line.
proof fn lemma_preamble_is_identity_free()
    ensures
        is_identity_free_head(script_preamble()),
{
    reveal_strlit("session_name=");
    reveal_strlit("#!/bin/bash\n");
    reveal_strlit("\n");
    reveal_strlit("###############################################\n");
    reveal_strlit("# Script generated by tmuxession              #\n");
    reveal_strlit("# Exit on error or unset variable\n");
    reveal_strlit("set -e\n");
    reveal_strlit("set -u\n");
    reveal_strlit("# Session name\n");
    let shebang = "#!/bin/bash\n"@;
    let blank = "\n"@;
    let rule = "###############################################\n"@;
    let banner = "# Script generated by tmuxession              #\n"@;
    let h1 = shebang;
    let h2 = h1 + blank;
    let h3 = h2 + rule;
    let h4 = h3 + banner;
    let h5 = h4 + rule;
    let h6 = h5 + blank;
    let h7 = h6 + "# Exit on error or unset variable\n"@;
    let h8 = h7 + "set -e\n"@;
    let h9 = h8 + "set -u\n"@;
    let h10 = h9 + blank;
    let h11 = h10 + blank;
    assert(is_identity_free_head(Seq::<char>::empty()));
    assert(is_other_line(shebang, 0));
    lemma_head_grows(Seq::empty(), shebang, 0);
    assert(Seq::<char>::empty() + shebang =~= h1);
    assert(is_other_line(blank, 0));
    lemma_head_grows(h1, blank, 0);
    assert(is_other_line(rule, 0));
    lemma_head_grows(h2, rule, 0);
    assert(is_other_line(banner, 0));
    lemma_head_grows(h3, banner, 0);
    lemma_head_grows(h4, rule, 0);
    lemma_head_grows(h5, blank, 0);
    assert(is_other_line("# Exit on error or unset variable\n"@, 0));
    lemma_head_grows(h6, "# Exit on error or unset variable\n"@, 0);
    assert(is_other_line("set -e\n"@, 2));
    lemma_head_grows(h7, "set -e\n"@, 2);
    assert(is_other_line("set -u\n"@, 2));
    lemma_head_grows(h8, "set -u\n"@, 2);
    lemma_head_grows(h9, blank, 0);
    lemma_head_grows(h10, blank, 0);
    assert(is_other_line("# Session name\n"@, 0));
    lemma_head_grows(h11, "# Session name\n"@, 0);
}

/// The name that is read from the script of a session is the name of the
/// session, provided that the name is plain: an identity line hands back
/// no line feed, and no white space at either end of its value.
pub proof fn lemma_script_carries_session_name(s: SessionView)
    requires
        is_plain_name(s.name),
    ensures
        has_identity_line(session_script(s)),
        session_name_in(session_script(s)) == s.name,
{
    lemma_preamble_is_identity_free();
    reveal_strlit("\n");
    let rest = "\n\n"@ + "### Create a new detached tmux session\n"@
        + "tmux new-session -d -s \"$session_name\"\n\n\n"@ + windows_lines(
        s.windows,
        s.windows.len() as int,
    ) + script_footer(s.windows);
    lemma_identity_behind_head(script_preamble(), s.name, rest);
    assert(session_script(s) =~= script_preamble() + identity_prefix() + s.name + seq!['\n']
        + rest);
}

/// Among panes of which at most one is active, the last active pane is the
/// active pane.
proof fn lemma_last_active_pane(panes: Seq<PaneView>, n: int, k: int)
    requires
        0 <= k < n <= panes.len(),
        panes[k].active,
        forall|a: int, b: int|
            0 <= a < b < panes.len() ==> !((#[trigger] panes[a]).active && (
            #[trigger] panes[b]).active),
    ensures
        last_active_pane(panes, n) == Some(k),
    decreases n,
{
    if k < n - 1 {
        assert(!(panes[k].active && panes[n - 1].active));
        lemma_last_active_pane(panes, n - 1, k);
    }
}

/// The zoom instructions of a well-formed window: one for its active pane, if
/// the window is active and zoomed.
proof fn lemma_window_zoom_lines(w: WindowView, n: int, k: int)
    requires
        w.well_formed(),
        0 <= n <= w.panes.len(),
        0 <= k < w.panes.len(),
        w.panes[k].active,
    ensures
        window_zoom_lines(w, n) == if w.active && w.zoomed && n > k {
            resize_pane_line(w.id, w.panes[k].id)
        } else {
            Seq::empty()
        },
    decreases n,
{
    if n > 0 {
        lemma_window_zoom_lines(w, n - 1, k);
        if n - 1 < k {
            assert(!(w.panes[n - 1].active && w.panes[k].active));
        } else if n - 1 > k {
            assert(!(w.panes[k].active && w.panes[n - 1].active));
        } else {
            assert(Seq::<char>::empty() + resize_pane_line(w.id, w.panes[k].id)
                == resize_pane_line(w.id, w.panes[k].id));
        }
    }
}

/// A window that is not both active and zoomed asks for no zoom instruction.
proof fn lemma_window_without_zoom(w: WindowView, n: int)
    requires
        !(w.active && w.zoomed),
    ensures
        window_zoom_lines(w, n) == Seq::<char>::empty(),
    decreases n,
{
    if n > 0 {
        lemma_window_without_zoom(w, n - 1);
    }
}

/// What the first `n` windows of a well-formed session leave for the end of
/// the script, if window `i` is the active one and pane `k` its active pane.
proof fn lemma_deferred_buffers(s: SessionView, n: int, i: int, k: int)
    requires
        s.well_formed(),
        0 <= n <= s.windows.len(),
        0 <= i < s.windows.len(),
        s.windows[i].active,
        0 <= k < s.windows[i].panes.len(),
        s.windows[i].panes[k].active,
    ensures
        focus_window_line(s.windows, n) == if n > i {
            select_window_line(s.windows[i].id)
        } else {
            Seq::empty()
        },
        focus_pane_line(s.windows, n) == if n > i {
            select_pane_line(s.windows[i].id, s.windows[i].panes[k].id)
        } else {
            Seq::empty()
        },
        zoom_lines(s.windows, n) == if n > i && s.windows[i].zoomed {
            resize_pane_line(s.windows[i].id, s.windows[i].panes[k].id)
        } else {
            Seq::empty()
        },
    decreases n,
{
    if n > 0 {
        lemma_deferred_buffers(s, n - 1, i, k);
        let w = s.windows[n - 1];
        assert(w.well_formed());
        if n - 1 == i {
            lemma_last_active_pane(w.panes, w.panes.len() as int, k);
            lemma_window_zoom_lines(w, w.panes.len() as int, k);
            assert(Seq::<char>::empty() + window_zoom_lines(w, w.panes.len() as int)
                == window_zoom_lines(w, w.panes.len() as int));
        } else {
            if n - 1 < i {
                assert(!(s.windows[n - 1].active && s.windows[i].active));
            } else {
                assert(!(s.windows[i].active && s.windows[n - 1].active));
            }
            lemma_window_without_zoom(w, w.panes.len() as int);
            assert(zoom_lines(s.windows, n - 1) + Seq::<char>::empty() == zoom_lines(
                s.windows,
                n - 1,
            ));
        }
    }
}

/// In a well-formed session with an active window and an active pane in it,
/// the script ends with the selection of that window and then of that pane,
/// and before the two it zooms that pane, and no other, if the window is
/// zoomed.
pub proof fn lemma_footer_of_well_formed_session(s: SessionView, i: int, k: int)
    requires
        s.well_formed(),
        0 <= i < s.windows.len(),
        s.windows[i].active,
        0 <= k < s.windows[i].panes.len(),
        s.windows[i].panes[k].active,
    ensures
        script_footer(s.windows) == (if s.windows[i].zoomed {
            "### Zoom the zoomed panes\n"@ + resize_pane_line(
                s.windows[i].id,
                s.windows[i].panes[k].id,
            )
        } else {
            Seq::empty()
        }) + "### Select the active window\n"@ + select_window_line(s.windows[i].id)
            + "### Select the active pane\n"@ + select_pane_line(
            s.windows[i].id,
            s.windows[i].panes[k].id,
        ),
{
    lemma_deferred_buffers(s, s.windows.len() as int, i, k);
    reveal_strlit(" -Z\n");
}

/// In a well-formed window the pane that is selected behind the window's
/// panes is the active pane, if the window is not the active one. The active
/// window's pane is left for the end of the script.
pub proof fn lemma_deferred_selection_of_well_formed_window(w: WindowView, k: int)
    requires
        w.well_formed(),
        0 <= k < w.panes.len(),
        w.panes[k].active,
    ensures
        deferred_selection(w) == if w.active {
            Seq::empty()
        } else {
            select_pane_line(w.id, w.panes[k].id)
        },
{
    lemma_last_active_pane(w.panes, w.panes.len() as int, k);
}

fn push_header(out: &mut String, name: &str)
    ensures
        final(out)@ == old(out)@ + script_header(name@),
{
    out.append("#!/bin/bash\n");
    out.append("\n");
    out.append("###############################################\n");
    out.append("# Script generated by tmuxession              #\n");
    out.append("###############################################\n");
    out.append("\n");
    out.append("# Exit on error or unset variable\n");
    out.append("set -e\n");
    out.append("set -u\n");
    out.append("\n");
    out.append("\n");
    out.append("# Session name\n");
    out.append("session_name=");
    out.append(name);
    out.append("\n");
    out.append("\n\n");
    out.append("### Create a new detached tmux session\n");
    out.append("tmux new-session -d -s \"$session_name\"\n\n\n");
}

fn push_window_target(out: &mut String, window: &TmuxWindow)
    ensures
        final(out)@ == old(out)@ + window_target(window@.id),
{
    out.append("\"$session_name\":");
    out.append(window.id.as_str());
}

fn push_pane_target(out: &mut String, window: &TmuxWindow, pane: &TmuxPane)
    ensures
        final(out)@ == old(out)@ + pane_target(window@.id, pane@.id),
{
    push_window_target(out, window);
    out.append(".");
    out.append(pane.id.as_str());
}

fn push_window_caption(out: &mut String, marker: &str, window: &TmuxWindow)
    ensures
        final(out)@ == old(out)@ + window_caption(marker@, window@),
{
    out.append(marker);
    out.append(window.id.as_str());
    out.append(":");
    out.append(window.name.as_str());
}

fn push_new_window(out: &mut String, window: &TmuxWindow)
    requires
        window@.complete(),
    ensures
        final(out)@ == old(out)@ + new_window_lines(window@),
{
    assert(window@.panes[0].complete());
    let first = &window.panes[0];
    push_window_caption(out, "## Window ", window);
    out.append("\n");
    out.append("tmux new-window -t ");
    push_window_target(out, window);
    out.append(" -k -n ");
    out.append(window.name.as_str());
    out.append(" -c ");
    out.append(first.cwd.as_str());
    out.append(" \"");
    out.append(first.commands[0].as_str());
    out.append("\"\n\n");
}

fn push_split_window(out: &mut String, window: &TmuxWindow, pane: &TmuxPane)
    requires
        pane@.complete(),
    ensures
        final(out)@ == old(out)@ + split_window_lines(window@, pane@),
{
    out.append("# Create pane ");
    out.append(pane.id.as_str());
    out.append("\n");
    out.append("tmux split-window -t ");
    push_window_target(out, window);
    out.append(" -c ");
    out.append(pane.cwd.as_str());
    out.append(" \"");
    out.append(pane.commands[0].as_str());
    out.append("\"\n");
}

fn push_send_keys(out: &mut String, window: &TmuxWindow, pane: &TmuxPane, command: &str)
    ensures
        final(out)@ == old(out)@ + send_keys_lines(window@, pane@, command@),
{
    out.append("# Run command in pane ");
    out.append(pane.id.as_str());
    out.append("\n");
    out.append("tmux send-keys -t ");
    push_pane_target(out, window, pane);
    out.append(" \"");
    out.append(command);
    out.append("\" C-m\n\n");
}

fn push_later_commands(out: &mut String, window: &TmuxWindow, pane: &TmuxPane)
    requires
        pane@.complete(),
    ensures
        final(out)@ == old(out)@ + later_commands_lines(
            window@,
            pane@,
            pane@.commands.len() as int,
        ),
{
    let mut k: usize = 1;
    while k < pane.commands.len()
        invariant
            1 <= k <= pane.commands.len(),
            out@ == old(out)@ + later_commands_lines(window@, pane@, k as int),
        decreases pane.commands.len() - k,
    {
        push_send_keys(out, window, pane, pane.commands[k].as_str());
        k += 1;
    }
}

fn select_pane(window: &TmuxWindow, pane: &TmuxPane) -> (line: String)
    ensures
        line@ == select_pane_line(window@.id, pane@.id),
{
    let mut line = String::new();
    line.append("tmux select-pane -t ");
    push_pane_target(&mut line, window, pane);
    line.append("\n\n");
    line
}

fn push_resize_pane(out: &mut String, window: &TmuxWindow, pane: &TmuxPane)
    ensures
        final(out)@ == old(out)@ + resize_pane_line(window@.id, pane@.id),
{
    out.append("tmux resize-pane -t ");
    push_pane_target(out, window, pane);
    out.append(" -Z\n");
}

fn select_window(window: &TmuxWindow) -> (line: String)
    ensures
        line@ == select_window_line(window@.id),
{
    let mut line = String::new();
    line.append("tmux select-window -t ");
    push_window_target(&mut line, window);
    line.append("\n\n");
    line
}

fn push_select_layout(out: &mut String, window: &TmuxWindow)
    ensures
        final(out)@ == old(out)@ + select_layout_lines(window@),
{
    out.append("# Set layout for window ");
    out.append(window.name.as_str());
    out.append("\n");
    out.append("tmux select-layout -t ");
    push_window_target(out, window);
    out.append(" \"");
    out.append(window.layout.as_str());
    out.append("\"\n\n");
}

/// The selection of the window's pane after its first `n` panes, with
/// `before` standing for what was chosen before the window.
spec fn pane_choice(w: WindowView, n: int, wanted: bool, before: Seq<char>) -> Seq<char> {
    match last_active_pane(w.panes, n) {
        Some(k) if wanted => select_pane_line(w.id, w.panes[k].id),
        _ => before,
    }
}

/// What closes the lines of a window, with `deferred` for the selection of
/// its pane.
spec fn window_closing(w: WindowView, deferred: Seq<char>) -> Seq<char> {
    "# Select the active pane in window "@ + w.name + "\n"@ + deferred + select_layout_lines(w)
        + window_caption("## End of window "@, w) + "\n\n"@
}

/// Appends the lines of pane `i` of the window to `out`, and brings the
/// deferred buffers up to date: the focused pane, the selection that follows
/// the window's panes, and the zoom instructions.
fn push_pane(
    out: &mut String,
    window: &TmuxWindow,
    i: usize,
    focus_pane: &mut String,
    deferred: &mut String,
    zoom: &mut String,
)
    requires
        window@.complete(),
        i < window.panes.len(),
    ensures
        final(out)@ == old(out)@ + pane_lines(window@, i as int),
        final(focus_pane)@ == if window@.active && window@.panes[i as int].active {
            select_pane_line(window@.id, window@.panes[i as int].id)
        } else {
            old(focus_pane)@
        },
        final(deferred)@ == if !window@.active && window@.panes[i as int].active {
            select_pane_line(window@.id, window@.panes[i as int].id)
        } else {
            old(deferred)@
        },
        final(zoom)@ == if window@.active && window@.zoomed && window@.panes[i as int].active {
            old(zoom)@ + resize_pane_line(window@.id, window@.panes[i as int].id)
        } else {
            old(zoom)@
        },
{
    let pane = &window.panes[i];
    assert(pane@ == window@.panes[i as int]);
    assert(pane@.complete());
    if i != 0 {
        push_split_window(out, window, pane);
    }
    if window.active && pane.active {
        *focus_pane = select_pane(window, pane);
    } else if pane.active {
        *deferred = select_pane(window, pane);
    }
    if window.active && window.zoomed && pane.active {
        push_resize_pane(zoom, window, pane);
    }
    let ghost split = out@;
    push_later_commands(out, window, pane);
    assert(out@ == old(out)@ + pane_lines(window@, i as int)) by {
        if i == 0 {
            assert(split == old(out)@ + Seq::<char>::empty());
        }
    }
}

/// Appends the lines of the window's panes to `out`, and brings the deferred
/// buffers up to date.
fn push_panes(
    out: &mut String,
    window: &TmuxWindow,
    focus_pane: &mut String,
    deferred: &mut String,
    zoom: &mut String,
)
    requires
        window@.complete(),
    ensures
        final(out)@ == old(out)@ + panes_lines(window@, window@.panes.len() as int),
        final(focus_pane)@ == pane_choice(
            window@,
            window@.panes.len() as int,
            window@.active,
            old(focus_pane)@,
        ),
        final(deferred)@ == pane_choice(
            window@,
            window@.panes.len() as int,
            !window@.active,
            old(deferred)@,
        ),
        final(zoom)@ == old(zoom)@ + window_zoom_lines(window@, window@.panes.len() as int),
{
    let mut i: usize = 0;
    assert(out@ == old(out)@ + panes_lines(window@, 0));
    assert(zoom@ == old(zoom)@ + window_zoom_lines(window@, 0));
    while i < window.panes.len()
        invariant
            0 <= i <= window.panes.len(),
            window@.complete(),
            out@ == old(out)@ + panes_lines(window@, i as int),
            focus_pane@ == pane_choice(window@, i as int, window@.active, old(focus_pane)@),
            deferred@ == pane_choice(window@, i as int, !window@.active, old(deferred)@),
            zoom@ == old(zoom)@ + window_zoom_lines(window@, i as int),
        decreases window.panes.len() - i,
    {
        let ghost lines = panes_lines(window@, i as int);
        let ghost zoomed = window_zoom_lines(window@, i as int);
        push_pane(out, window, i, focus_pane, deferred, zoom);
        assert(out@ == old(out)@ + (lines + pane_lines(window@, i as int)));
        assert(zoom@ == old(zoom)@ + window_zoom_lines(window@, i + 1)) by {
            if window@.active && window@.zoomed && window@.panes[i as int].active {
                assert(zoom@ == old(zoom)@ + (zoomed + resize_pane_line(
                    window@.id,
                    window@.panes[i as int].id,
                )));
            }
        }
        i += 1;
    }
}

/// Appends what closes the lines of a window to `out`.
fn push_window_closing(out: &mut String, window: &TmuxWindow, deferred: &String)
    ensures
        final(out)@ == old(out)@ + window_closing(window@, deferred@),
{
    out.append("# Select the active pane in window ");
    out.append(window.name.as_str());
    out.append("\n");
    out.append(deferred.as_str());
    let ghost selected = out@;
    push_select_layout(out, window);
    let ghost laid_out = out@;
    push_window_caption(out, "## End of window ", window);
    out.append("\n\n");
    assert(out@ == old(out)@ + window_closing(window@, deferred@)) by {
        assert(selected == old(out)@ + ("# Select the active pane in window "@ + window@.name
            + "\n"@ + deferred@));
        assert(laid_out == selected + select_layout_lines(window@));
        assert(out@ == laid_out + window_caption("## End of window "@, window@) + "\n\n"@);
    }
}

/// Appends the lines of one window to `out`, and brings the three deferred
/// buffers up to date: the focused pane, the focused window and the zoom
/// instructions.
fn push_window(
    out: &mut String,
    window: &TmuxWindow,
    focus_pane: &mut String,
    focus_window: &mut String,
    zoom: &mut String,
)
    requires
        window@.complete(),
    ensures
        final(out)@ == old(out)@ + window_lines(window@),
        final(focus_pane)@ == pane_choice(
            window@,
            window@.panes.len() as int,
            window@.active,
            old(focus_pane)@,
        ),
        final(focus_window)@ == if window@.active {
            select_window_line(window@.id)
        } else {
            old(focus_window)@
        },
        final(zoom)@ == old(zoom)@ + window_zoom_lines(window@, window@.panes.len() as int),
{
    push_new_window(out, window);
    let ghost opened = out@;
    let mut deferred = String::new();
    push_panes(out, window, focus_pane, &mut deferred, zoom);
    let ghost filled = out@;
    if window.active {
        *focus_window = select_window(window);
    }
    push_window_closing(out, window, &deferred);
    assert(deferred@ == deferred_selection(window@));
    assert(out@ == old(out)@ + window_lines(window@)) by {
        assert(opened == old(out)@ + new_window_lines(window@));
        assert(filled == opened + panes_lines(window@, window@.panes.len() as int));
        assert(out@ == filled + window_closing(window@, deferred_selection(window@)));
    }
}

/// Appends the closing part of the script from the three deferred buffers.
fn push_footer(out: &mut String, zoom: &String, focus_window: &String, focus_pane: &String)
    ensures
        final(out)@ == old(out)@ + (if zoom@.len() == 0 {
            Seq::empty()
        } else {
            "### Zoom the zoomed panes\n"@ + zoom@
        }) + "### Select the active window\n"@ + focus_window@ + "### Select the active pane\n"@
            + focus_pane@,
{
    if !zoom.as_str().is_empty() {
        out.append("### Zoom the zoomed panes\n");
        out.append(zoom.as_str());
    }
    out.append("### Select the active window\n");
    out.append(focus_window.as_str());
    out.append("### Select the active pane\n");
    out.append(focus_pane.as_str());
}

/// Writes the script that rebuilds `session`.
///
/// The session has to be complete: the script launches the first command of
/// every pane, and creates each window together with its first pane.
pub fn generate_tmux_session_script(session: &TmuxSession) -> (script: String)
    requires
        session@.complete(),
    ensures
        script@ == session_script(session@),
{
    let mut script = String::new();
    push_header(&mut script, session.name.as_str());
    let mut focus_pane = String::new();
    let mut focus_window = String::new();
    let mut zoom = String::new();
    let ghost ws = session@.windows;
    let mut i: usize = 0;
    while i < session.windows.len()
        invariant
            0 <= i <= session.windows.len(),
            session@.complete(),
            ws == session@.windows,
            script@ == script_header(session@.name) + windows_lines(ws, i as int),
            focus_pane@ == focus_pane_line(ws, i as int),
            focus_window@ == focus_window_line(ws, i as int),
            zoom@ == zoom_lines(ws, i as int),
        decreases session.windows.len() - i,
    {
        let window = &session.windows[i];
        assert(window@ == ws[i as int]);
        let ghost lines = windows_lines(ws, i as int);
        push_window(&mut script, window, &mut focus_pane, &mut focus_window, &mut zoom);
        assert(script@ == script_header(session@.name) + (lines + window_lines(ws[i as int])));
        i += 1;
    }
    let ghost body = script@;
    push_footer(&mut script, &zoom, &focus_window, &focus_pane);
    assert(script@ == body + script_footer(ws));
    script
}

} // verus!
