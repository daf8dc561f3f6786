use tmuxession::common::{TmuxPane, TmuxWindow};
use tmuxession::save_session::{
    is_foreground, pane_commands, parse_pane_line, parse_pid_lines, parse_window_line,
    sanitize_command, sanitize_command_from_ps,
};

fn strings(list: &[&str]) -> Vec<String> {
    list.iter().map(|s| s.to_string()).collect()
}

#[test]
fn command_is_trimmed() {
    assert_eq!(sanitize_command("  vim main.rs \n"), "vim main.rs");
    assert_eq!(sanitize_command(""), "");
    assert_eq!(sanitize_command(" \n"), "");
}

#[test]
fn login_shell_loses_its_hyphen() {
    assert_eq!(sanitize_command("-bash\n"), "bash");
    assert_eq!(sanitize_command("  -zsh"), "zsh");
    assert_eq!(sanitize_command("--x"), "-x");
    assert_eq!(sanitize_command("-"), "");
    assert_eq!(sanitize_command("- sh"), " sh");
    assert_eq!(sanitize_command("ls -la"), "ls -la");
}

#[test]
fn command_from_the_process_table() {
    assert_eq!(sanitize_command_from_ps(b"-bash\n".to_vec()), "bash");
    assert_eq!(sanitize_command_from_ps(b"  htop  \n".to_vec()), "htop");
    assert_eq!(sanitize_command_from_ps(Vec::new()), "");
    assert_eq!(sanitize_command_from_ps("vim é.txt\n".as_bytes().to_vec()), "vim é.txt");
}

#[test]
fn bytes_that_are_no_text_are_replaced() {
    assert_eq!(sanitize_command_from_ps(vec![b'a', 0xff, b'b', b'\n']), "a\u{fffd}b");
}

#[test]
fn foreground_commands() {
    assert!(is_foreground("vim"));
    assert!(!is_foreground(""));
    assert!(!is_foreground("tmuxession save"));
    assert!(!is_foreground("/usr/bin/tmuxession"));
    assert!(is_foreground("tmuxessio"));
}

#[test]
fn pane_with_an_idle_shell() {
    assert_eq!(pane_commands("bash".to_string(), &vec![]), strings(&["bash"]));
    assert_eq!(
        pane_commands("bash".to_string(), &strings(&["", "tmuxession save"])),
        strings(&["bash"])
    );
}

#[test]
fn pane_with_a_running_command() {
    assert_eq!(
        pane_commands("zsh".to_string(), &strings(&["", "tmuxession save", "vim a", "htop"])),
        strings(&["zsh", "vim a"])
    );
    assert_eq!(pane_commands("zsh".to_string(), &strings(&["htop"])), strings(&["zsh", "htop"]));
}

#[test]
fn window_line() {
    assert_eq!(
        parse_window_line("1:main:b25f,80x24,0,0,0:1:0"),
        Some(TmuxWindow {
            id: "1".to_string(),
            name: "main".to_string(),
            layout: "b25f,80x24,0,0,0".to_string(),
            active: true,
            zoomed: false,
            panes: vec![],
        })
    );
    let window = parse_window_line("12:w:l:0:1:more").unwrap();
    assert!(!window.active);
    assert!(window.zoomed);
    assert_eq!(window.id, "12");
}

#[test]
fn window_flags_are_set_by_one_only() {
    let window = parse_window_line("0:n:l:true:11").unwrap();
    assert!(!window.active);
    assert!(!window.zoomed);
}

#[test]
fn short_window_line_is_refused() {
    assert_eq!(parse_window_line("1:main:layout:1"), None);
    assert_eq!(parse_window_line(""), None);
    assert!(parse_window_line("::::").is_some());
}

#[test]
fn pane_line() {
    assert_eq!(
        parse_pane_line("0:/home/u:4242:1"),
        Some((
            TmuxPane { id: "0".to_string(), cwd: "/home/u".to_string(), active: true, commands: vec![] },
            4242
        ))
    );
    let (pane, pid) = parse_pane_line("3:/tmp:7:0:x").unwrap();
    assert_eq!(pane.id, "3");
    assert_eq!(pane.cwd, "/tmp");
    assert!(!pane.active);
    assert_eq!(pid, 7);
}

#[test]
fn pane_line_without_process_id_is_refused() {
    assert_eq!(parse_pane_line("0:/home/u:pid:1"), None);
    assert_eq!(parse_pane_line("0:/home/u::1"), None);
    assert_eq!(parse_pane_line("0:/home/u:42"), None);
    assert_eq!(parse_pane_line("0:/a:b:42:1"), None);
}

#[test]
fn process_ids() {
    assert_eq!(parse_pid_lines("  101\n 2002\n"), Some(vec![101, 2002]));
    assert_eq!(parse_pid_lines(""), Some(vec![]));
    assert_eq!(parse_pid_lines("7"), Some(vec![7]));
}

#[test]
fn process_ids_with_a_bad_line() {
    assert_eq!(parse_pid_lines("101\n\n202\n"), None);
    assert_eq!(parse_pid_lines("101\nPID\n"), None);
    assert_eq!(parse_pid_lines("\n"), None);
}
