use tmuxession::common::{TmuxPane, TmuxSession, TmuxWindow};
use tmuxession::generate_script::generate_tmux_session_script;
use tmuxession::identity::capture_session_name_from_script;

fn pane(id: &str, cwd: &str, active: bool, commands: &[&str]) -> TmuxPane {
    TmuxPane {
        id: id.to_string(),
        cwd: cwd.to_string(),
        active,
        commands: commands.iter().map(|c| c.to_string()).collect(),
    }
}

fn window(
    id: &str,
    name: &str,
    layout: &str,
    active: bool,
    zoomed: bool,
    panes: Vec<TmuxPane>,
) -> TmuxWindow {
    TmuxWindow {
        id: id.to_string(),
        name: name.to_string(),
        layout: layout.to_string(),
        active,
        zoomed,
        panes,
    }
}

fn count(text: &str, part: &str) -> usize {
    text.matches(part).count()
}

fn header(name: &str) -> String {
    format!(
        "#!/bin/bash\n\n###############################################\n# Script generated by tmuxession              #\n###############################################\n\n# Exit on error or unset variable\nset -e\nset -u\n\n\n# Session name\nsession_name={}\n\n\n### Create a new detached tmux session\ntmux new-session -d -s \"$session_name\"\n\n\n",
        name
    )
}

fn two_windows() -> TmuxSession {
    TmuxSession {
        name: "work".to_string(),
        windows: vec![
            window(
                "1",
                "edit",
                "aaaa,10x10,0,0,1",
                false,
                true,
                vec![
                    pane("0", "/src", false, &["zsh", "vim main.rs"]),
                    pane("1", "/src/doc", true, &["zsh"]),
                ],
            ),
            window(
                "2",
                "run",
                "bbbb,10x10,0,0,2",
                true,
                true,
                vec![
                    pane("0", "/tmp", true, &["bash", "make", "make test"]),
                    pane("3", "/var", false, &["sh"]),
                ],
            ),
        ],
    }
}

#[test]
fn single_window_single_pane_script() {
    let session = TmuxSession {
        name: "dev".to_string(),
        windows: vec![window(
            "0",
            "main",
            "b25f,80x24,0,0,0",
            true,
            false,
            vec![pane("0", "/home/u", true, &["bash"])],
        )],
    };
    let script = generate_tmux_session_script(&session);
    let expected = format!(
        "{}{}",
        header("dev"),
        "## Window 0:main\n\
         tmux new-window -t \"$session_name\":0 -k -n main -c /home/u \"bash\"\n\n\
         # Select the active pane in window main\n\
         # Set layout for window main\n\
         tmux select-layout -t \"$session_name\":0 \"b25f,80x24,0,0,0\"\n\n\
         ## End of window 0:main\n\n\
         ### Select the active window\n\
         tmux select-window -t \"$session_name\":0\n\n\
         ### Select the active pane\n\
         tmux select-pane -t \"$session_name\":0.0\n\n"
    );
    assert_eq!(script, expected);
    assert_eq!(count(&script, "tmux new-session -d "), 1);
    assert_eq!(count(&script, "resize-pane"), 0);
    assert_eq!(count(&script, "split-window"), 0);
    assert_eq!(count(&script, "send-keys"), 0);
}

#[test]
fn second_pane_active_and_zoomed() {
    let session = TmuxSession {
        name: "dev".to_string(),
        windows: vec![window(
            "0",
            "main",
            "layout",
            true,
            true,
            vec![
                pane("0", "/home/u", false, &["bash"]),
                pane("1", "/tmp", true, &["zsh"]),
            ],
        )],
    };
    let script = generate_tmux_session_script(&session);
    assert_eq!(count(&script, "tmux split-window "), 1);
    assert!(script.contains("tmux split-window -t \"$session_name\":0 -c /tmp \"zsh\"\n"));
    assert_eq!(count(&script, "tmux resize-pane "), 1);
    assert!(script.contains(
        "### Zoom the zoomed panes\ntmux resize-pane -t \"$session_name\":0.1 -Z\n### Select the active window\n"
    ));
    assert!(script.ends_with(
        "### Select the active pane\ntmux select-pane -t \"$session_name\":0.1\n\n"
    ));
    assert_eq!(count(&script, "tmux select-pane "), 1);
}

#[test]
fn two_windows_script_is_exact() {
    let script = generate_tmux_session_script(&two_windows());
    let expected = format!(
        "{}{}",
        header("work"),
        "## Window 1:edit\n\
         tmux new-window -t \"$session_name\":1 -k -n edit -c /src \"zsh\"\n\n\
         # Run command in pane 0\n\
         tmux send-keys -t \"$session_name\":1.0 \"vim main.rs\" C-m\n\n\
         # Create pane 1\n\
         tmux split-window -t \"$session_name\":1 -c /src/doc \"zsh\"\n\
         # Select the active pane in window edit\n\
         tmux select-pane -t \"$session_name\":1.1\n\n\
         # Set layout for window edit\n\
         tmux select-layout -t \"$session_name\":1 \"aaaa,10x10,0,0,1\"\n\n\
         ## End of window 1:edit\n\n\
         ## Window 2:run\n\
         tmux new-window -t \"$session_name\":2 -k -n run -c /tmp \"bash\"\n\n\
         # Run command in pane 0\n\
         tmux send-keys -t \"$session_name\":2.0 \"make\" C-m\n\n\
         # Run command in pane 0\n\
         tmux send-keys -t \"$session_name\":2.0 \"make test\" C-m\n\n\
         # Create pane 3\n\
         tmux split-window -t \"$session_name\":2 -c /var \"sh\"\n\
         # Select the active pane in window run\n\
         # Set layout for window run\n\
         tmux select-layout -t \"$session_name\":2 \"bbbb,10x10,0,0,2\"\n\n\
         ## End of window 2:run\n\n\
         ### Zoom the zoomed panes\n\
         tmux resize-pane -t \"$session_name\":2.0 -Z\n\
         ### Select the active window\n\
         tmux select-window -t \"$session_name\":2\n\n\
         ### Select the active pane\n\
         tmux select-pane -t \"$session_name\":2.0\n\n"
    );
    assert_eq!(script, expected);
}

#[test]
fn zoom_is_for_the_active_window_only() {
    let script = generate_tmux_session_script(&two_windows());
    assert_eq!(count(&script, "resize-pane"), 1);
    assert!(!script.contains("tmux resize-pane -t \"$session_name\":1.1 -Z\n"));
}

#[test]
fn focus_comes_last_and_zoom_before_it() {
    let script = generate_tmux_session_script(&two_windows());
    let zoom = script.find("### Zoom the zoomed panes\n").unwrap();
    let focus_window = script.find("### Select the active window\n").unwrap();
    let focus_pane = script.find("### Select the active pane\n").unwrap();
    let last_window = script.find("## End of window 2:run\n").unwrap();
    assert!(last_window < zoom);
    assert!(zoom < focus_window);
    assert!(focus_window < focus_pane);
}

#[test]
fn session_without_windows() {
    let session = TmuxSession { name: "empty".to_string(), windows: vec![] };
    let script = generate_tmux_session_script(&session);
    let expected = format!(
        "{}### Select the active window\n### Select the active pane\n",
        header("empty")
    );
    assert_eq!(script, expected);
}

#[test]
fn no_active_window_selects_nothing_at_the_end() {
    let session = TmuxSession {
        name: "dev".to_string(),
        windows: vec![window(
            "0",
            "main",
            "l",
            false,
            true,
            vec![pane("0", "/", true, &["bash"])],
        )],
    };
    let script = generate_tmux_session_script(&session);
    assert!(script.ends_with("### Select the active window\n### Select the active pane\n"));
    assert_eq!(count(&script, "resize-pane"), 0);
    assert!(script.contains(
        "# Select the active pane in window main\ntmux select-pane -t \"$session_name\":0.0\n\n# Set layout"
    ));
}

#[test]
fn generation_is_deterministic() {
    let first = generate_tmux_session_script(&two_windows());
    let second = generate_tmux_session_script(&two_windows());
    assert_eq!(first, second);
    assert_eq!(first.as_bytes(), second.as_bytes());
}

#[test]
fn script_names_the_session_once() {
    let script = generate_tmux_session_script(&two_windows());
    assert_eq!(count(&script, "session_name="), 1);
    assert_eq!(count(&script, "work"), 1);
}

#[test]
fn generated_script_carries_the_session_name() {
    let script = generate_tmux_session_script(&two_windows());
    assert_eq!(capture_session_name_from_script(&script), "work");
    let mut other = two_windows();
    other.name = "my session 2".to_string();
    let script = generate_tmux_session_script(&other);
    assert_eq!(capture_session_name_from_script(&script), "my session 2");
}
