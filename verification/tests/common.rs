use tmuxession::common::{
    is_inside_tmux, session_script_file_name, TmuxPane, TmuxSession, TmuxWindow,
};
use tmuxession::list_sessions::{selected_session, session_option, session_options};
use tmuxession::tmux_commands::attached_session_name;

fn entries(list: &[(&str, &str)]) -> Vec<(String, String)> {
    list.iter().map(|(a, b)| (a.to_string(), b.to_string())).collect()
}

#[test]
fn file_name_for_a_directory() {
    assert_eq!(session_script_file_name("/home/u/my dir"), "%2Fhome%2Fu%2Fmy%20dir.sh");
    assert_eq!(session_script_file_name("plain-name_1.0~"), "plain-name_1.0~.sh");
    assert_eq!(session_script_file_name(""), ".sh");
    assert_eq!(session_script_file_name("/é"), "%2F%C3%A9.sh");
    assert_eq!(session_script_file_name("a+b%"), "a%2Bb%25.sh");
}

#[test]
fn inside_the_multiplexer() {
    assert!(is_inside_tmux(true, "", false));
    assert!(is_inside_tmux(false, "tmux", false));
    assert!(is_inside_tmux(false, "", true));
    assert!(is_inside_tmux(true, "tmux", true));
    assert!(!is_inside_tmux(false, "", false));
    assert!(!is_inside_tmux(false, "xterm", false));
    assert!(!is_inside_tmux(false, "tmux2", false));
    assert!(!is_inside_tmux(false, "TMUX", false));
}

#[test]
fn attached_session() {
    assert_eq!(attached_session_name(true, "dev\n"), Some("dev".to_string()));
    assert_eq!(attached_session_name(true, "  my session \n"), Some("my session".to_string()));
    assert_eq!(attached_session_name(true, "\n"), None);
    assert_eq!(attached_session_name(true, ""), None);
    assert_eq!(attached_session_name(false, "dev\n"), None);
}

#[test]
fn option_of_a_saved_session() {
    let option = session_option(0, "dev", "/home/u");
    assert_eq!(option.label, "[1] dev: /home/u");
    assert_eq!(option.keybind, '1');
    let option = session_option(8, "x", "");
    assert_eq!(option.label, "[9] x: ");
    assert_eq!(option.keybind, '9');
    let option = session_option(9, "x", "y");
    assert_eq!(option.label, "[10] x: y");
    assert_eq!(option.keybind, ':');
    let option = session_option(206, "a", "b");
    assert_eq!(option.label, "[207] a: b");
    assert_eq!(option.keybind, '\u{ff}');
}

#[test]
fn options_of_the_saved_sessions() {
    let options = session_options(&entries(&[
        ("dev", "%2Fhome%2Fu%2Fmy%20dir"),
        ("work", "plain"),
    ]))
    .unwrap();
    let shown: Vec<(char, &str)> = options.iter().map(|o| (o.keybind, o.label.as_str())).collect();
    assert_eq!(
        shown,
        vec![('1', "[1] dev: /home/u/my dir"), ('2', "[2] work: plain"), ('q', "[q] Quit")]
    );
}

#[test]
fn no_saved_sessions_leave_the_quit_option() {
    let options = session_options(&vec![]).unwrap();
    assert_eq!(options.len(), 1);
    assert_eq!(options[0].label, "[q] Quit");
    assert_eq!(options[0].keybind, 'q');
}

#[test]
fn file_name_that_stands_for_no_text() {
    assert!(session_options(&entries(&[("dev", "ok"), ("bad", "%FF")])).is_none());
    assert!(session_options(&entries(&[("dev", "%zz%4")])).is_some());
}

#[test]
fn key_selects_a_saved_session() {
    assert_eq!(selected_session('1', 3), Some(0));
    assert_eq!(selected_session('3', 3), Some(2));
    assert_eq!(selected_session('4', 3), None);
    assert_eq!(selected_session('0', 3), None);
    assert_eq!(selected_session('q', 3), None);
    assert_eq!(selected_session('q', 100), None);
    assert_eq!(selected_session(':', 10), Some(9));
    assert_eq!(selected_session('\u{ff}', 207), Some(206));
    assert_eq!(selected_session('\u{100}', 300), None);
    assert_eq!(selected_session('1', 0), None);
}

#[test]
fn keys_and_positions_agree() {
    for index in 0..207usize {
        let key = session_option(index, "", "").keybind;
        if key == 'q' {
            assert_eq!(index, 64);
            assert_eq!(selected_session(key, 207), None);
        } else {
            assert_eq!(selected_session(key, 207), Some(index));
        }
    }
}

#[test]
fn complete_sessions() {
    let pane = |commands: &[&str]| TmuxPane {
        id: "0".to_string(),
        cwd: "/".to_string(),
        active: false,
        commands: commands.iter().map(|c| c.to_string()).collect(),
    };
    let window = |panes: Vec<TmuxPane>| TmuxWindow {
        id: "0".to_string(),
        name: "w".to_string(),
        layout: "l".to_string(),
        active: false,
        zoomed: false,
        panes,
    };
    assert!(pane(&["sh"]).is_complete());
    assert!(!pane(&[]).is_complete());
    assert!(window(vec![pane(&["sh"]), pane(&["sh", "vi"])]).is_complete());
    assert!(!window(vec![]).is_complete());
    assert!(!window(vec![pane(&["sh"]), pane(&[])]).is_complete());
    let session = |windows: Vec<TmuxWindow>| TmuxSession { name: "s".to_string(), windows };
    assert!(session(vec![]).is_complete());
    assert!(session(vec![window(vec![pane(&["sh"])])]).is_complete());
    assert!(!session(vec![window(vec![pane(&["sh"])]), window(vec![])]).is_complete());
}
