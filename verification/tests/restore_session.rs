use tmuxession::restore_session::{
    get_session_exists_option, is_listed, live_session_names, Restore, RestoreAction,
    RestoreError, RestoreEvent, RestoreState,
};

const SCRIPT: &str = "#!/bin/bash\nset -e\n\nsession_name=dev\n\ntmux new-session -d -s \"$session_name\"\n";

fn names(list: &[&str]) -> Vec<String> {
    list.iter().map(|n| n.to_string()).collect()
}

fn started(inside: bool) -> Restore {
    Restore::start(SCRIPT.to_string(), inside).unwrap()
}

fn resolving(inside: bool) -> Restore {
    let mut flow = started(inside);
    let action = flow.step(RestoreEvent::LiveSessions(names(&["other", "dev"])));
    assert_eq!(action, RestoreAction::PresentOptions { session_name: "dev".to_string() });
    assert_eq!(flow.state, RestoreState::Resolving);
    flow
}

#[test]
fn start_reads_the_name() {
    let flow = started(false);
    assert_eq!(flow.state, RestoreState::CheckConflict);
    assert_eq!(flow.session_name, "dev");
    assert_eq!(flow.script, SCRIPT);
    assert!(!flow.inside_client);
    assert_eq!(flow.pending(), RestoreAction::ListSessions);
}

#[test]
fn start_fails_without_identity() {
    assert_eq!(
        Restore::start("tmux new-session\n".to_string(), false),
        Err(RestoreError::MissingIdentity)
    );
    assert_eq!(
        Restore::start("session_name=  \n".to_string(), true),
        Err(RestoreError::MissingIdentity)
    );
}

#[test]
fn no_conflict_leads_to_execute() {
    let mut flow = started(false);
    let action = flow.step(RestoreEvent::LiveSessions(names(&["a", "b"])));
    assert_eq!(action, RestoreAction::RunScript { script: SCRIPT.to_string() });
    assert_eq!(flow.state, RestoreState::Execute);
    let action = flow.step(RestoreEvent::ScriptFinished);
    assert_eq!(action, RestoreAction::AttachClient { session_name: "dev".to_string() });
    assert_eq!(flow.state, RestoreState::Attached);
    assert_eq!(action.exit_status(), Some(0));
}

#[test]
fn inside_a_client_the_client_is_switched() {
    let mut flow = started(true);
    flow.step(RestoreEvent::LiveSessions(vec![]));
    let action = flow.step(RestoreEvent::ScriptFinished);
    assert_eq!(action, RestoreAction::SwitchClient { session_name: "dev".to_string() });
    assert_eq!(action.exit_status(), Some(0));
}

#[test]
fn attach_resolution_skips_the_script() {
    let mut flow = started(false);
    let mut actions = vec![flow.pending()];
    actions.push(flow.step(RestoreEvent::LiveSessions(names(&["dev"]))));
    actions.push(flow.step(RestoreEvent::OptionChosen('A')));
    assert_eq!(
        actions,
        vec![
            RestoreAction::ListSessions,
            RestoreAction::PresentOptions { session_name: "dev".to_string() },
            RestoreAction::AttachClient { session_name: "dev".to_string() },
        ]
    );
    assert_eq!(flow.state, RestoreState::Attached);
    assert_eq!(flow.script, SCRIPT);
    let menus = actions.iter().filter(|a| matches!(a, RestoreAction::PresentOptions { .. })).count();
    assert_eq!(menus, 1);
    assert!(!actions.iter().any(|a| matches!(a, RestoreAction::RunScript { .. })));
    let after = flow.step(RestoreEvent::ScriptFinished);
    assert_eq!(after, RestoreAction::AttachClient { session_name: "dev".to_string() });
    assert_eq!(flow.state, RestoreState::Attached);
}

#[test]
fn attach_resolution_inside_a_client_switches() {
    let mut flow = resolving(true);
    let action = flow.step(RestoreEvent::OptionChosen('A'));
    assert_eq!(action, RestoreAction::SwitchClient { session_name: "dev".to_string() });
}

#[test]
fn rename_to_a_free_name_runs_the_rewritten_script() {
    let mut flow = resolving(false);
    let mut rounds = 1;
    let action = flow.step(RestoreEvent::OptionChosen('R'));
    assert_eq!(action, RestoreAction::ReadName);
    assert_eq!(flow.state, RestoreState::NameEntry);
    let action = flow.step(RestoreEvent::NameEntered("dev2\n".to_string()));
    assert_eq!(action, RestoreAction::ListSessions);
    assert_eq!(flow.state, RestoreState::CheckConflict);
    assert_eq!(flow.session_name, "dev2");
    let rewritten = "#!/bin/bash\nset -e\n\nsession_name=dev2\n\ntmux new-session -d -s \"$session_name\"\n";
    assert_eq!(flow.script, rewritten);
    let action = flow.step(RestoreEvent::LiveSessions(names(&["dev", "other"])));
    if matches!(action, RestoreAction::PresentOptions { .. }) {
        rounds += 1;
    }
    assert_eq!(rounds, 1);
    assert_eq!(action, RestoreAction::RunScript { script: rewritten.to_string() });
    let action = flow.step(RestoreEvent::ScriptFinished);
    assert_eq!(action, RestoreAction::AttachClient { session_name: "dev2".to_string() });
}

#[test]
fn rename_to_a_taken_name_is_a_conflict_again() {
    let mut flow = resolving(false);
    flow.step(RestoreEvent::OptionChosen('R'));
    flow.step(RestoreEvent::NameEntered("  other \n".to_string()));
    assert_eq!(flow.session_name, "other");
    let action = flow.step(RestoreEvent::LiveSessions(names(&["other", "dev"])));
    assert_eq!(action, RestoreAction::PresentOptions { session_name: "other".to_string() });
    assert_eq!(flow.state, RestoreState::Resolving);
}

#[test]
fn kill_from_outside_kills_and_checks_again() {
    let mut flow = resolving(false);
    let action = flow.step(RestoreEvent::OptionChosen('K'));
    assert_eq!(action, RestoreAction::QueryAttachedSession);
    assert_eq!(flow.state, RestoreState::KillGuard);
    let action = flow.step(RestoreEvent::AttachedSession(None));
    assert_eq!(action, RestoreAction::KillSession { session_name: "dev".to_string() });
    assert_eq!(flow.state, RestoreState::Killing);
    assert_eq!(action.exit_status(), None);
    let action = flow.step(RestoreEvent::SessionKilled);
    assert_eq!(action, RestoreAction::ListSessions);
    assert_eq!(flow.state, RestoreState::CheckConflict);
    let action = flow.step(RestoreEvent::LiveSessions(names(&["other"])));
    assert_eq!(action, RestoreAction::RunScript { script: SCRIPT.to_string() });
}

#[test]
fn kill_from_another_session_is_allowed() {
    let mut flow = resolving(true);
    flow.step(RestoreEvent::OptionChosen('K'));
    let action = flow.step(RestoreEvent::AttachedSession(Some("other".to_string())));
    assert_eq!(action, RestoreAction::KillSession { session_name: "dev".to_string() });
}

#[test]
fn kill_of_the_own_session_is_refused() {
    let mut flow = resolving(true);
    flow.step(RestoreEvent::OptionChosen('K'));
    let action = flow.step(RestoreEvent::AttachedSession(Some("dev".to_string())));
    assert_eq!(action, RestoreAction::RefuseKill);
    assert_eq!(action.exit_status(), Some(1));
    assert_eq!(flow.state, RestoreState::Refused);
    for event in [
        RestoreEvent::SessionKilled,
        RestoreEvent::LiveSessions(names(&["dev"])),
        RestoreEvent::OptionChosen('K'),
        RestoreEvent::AttachedSession(None),
        RestoreEvent::NameEntered("x".to_string()),
        RestoreEvent::ScriptFinished,
    ] {
        let action = flow.step(event);
        assert_eq!(action, RestoreAction::RefuseKill);
        assert_eq!(flow.state, RestoreState::Refused);
    }
}

#[test]
fn failed_kill_comes_back_to_the_menu() {
    let mut flow = resolving(false);
    flow.step(RestoreEvent::OptionChosen('K'));
    flow.step(RestoreEvent::AttachedSession(None));
    flow.step(RestoreEvent::SessionKilled);
    let action = flow.step(RestoreEvent::LiveSessions(names(&["dev"])));
    assert_eq!(action, RestoreAction::PresentOptions { session_name: "dev".to_string() });
}

#[test]
fn quit_aborts_with_success() {
    let mut flow = resolving(false);
    let action = flow.step(RestoreEvent::OptionChosen('q'));
    assert_eq!(action, RestoreAction::Quit);
    assert_eq!(action.exit_status(), Some(0));
    assert_eq!(flow.state, RestoreState::Aborted);
    assert_eq!(flow.step(RestoreEvent::LiveSessions(vec![])), RestoreAction::Quit);
}

#[test]
fn unknown_key_leaves_the_menu_open() {
    let mut flow = resolving(false);
    let before = flow.clone();
    for key in ['a', 'k', 'r', 'Q', 'x', '1'] {
        let action = flow.step(RestoreEvent::OptionChosen(key));
        assert_eq!(action, RestoreAction::PresentOptions { session_name: "dev".to_string() });
        assert_eq!(flow, before);
    }
}

#[test]
fn unawaited_events_are_ignored() {
    let mut flow = started(false);
    let before = flow.clone();
    for event in [
        RestoreEvent::OptionChosen('A'),
        RestoreEvent::AttachedSession(None),
        RestoreEvent::SessionKilled,
        RestoreEvent::NameEntered("x".to_string()),
        RestoreEvent::ScriptFinished,
    ] {
        assert_eq!(flow.step(event), RestoreAction::ListSessions);
        assert_eq!(flow, before);
    }
    let mut flow = resolving(false);
    flow.step(RestoreEvent::OptionChosen('R'));
    assert_eq!(flow.step(RestoreEvent::SessionKilled), RestoreAction::ReadName);
    assert_eq!(flow.session_name, "dev");
}

#[test]
fn menu_returns_only_after_a_kill_or_a_rename() {
    let mut flow = resolving(false);
    let mut changed = false;
    let events = vec![
        RestoreEvent::ScriptFinished,
        RestoreEvent::OptionChosen('K'),
        RestoreEvent::LiveSessions(names(&["dev"])),
        RestoreEvent::AttachedSession(Some("elsewhere".to_string())),
        RestoreEvent::NameEntered("x".to_string()),
        RestoreEvent::SessionKilled,
        RestoreEvent::LiveSessions(names(&["dev"])),
    ];
    let mut left = false;
    for event in events {
        let before = flow.state;
        if before == RestoreState::Killing && event == RestoreEvent::SessionKilled {
            changed = true;
        }
        flow.step(event);
        if flow.state != RestoreState::Resolving {
            left = true;
        }
        if left && flow.state == RestoreState::Resolving {
            assert!(changed);
        }
    }
    assert_eq!(flow.state, RestoreState::Resolving);
    assert!(left && changed);
}

#[test]
fn conflict_menu() {
    let (title, options) = get_session_exists_option("dev");
    assert_eq!(title, "A session with the name \"dev\" already exists in the tmux server.");
    let shown: Vec<(char, &str)> = options.iter().map(|o| (o.keybind, o.label.as_str())).collect();
    assert_eq!(
        shown,
        vec![
            ('A', "[A]ttach or switch to existing session"),
            ('K', "[K]ill existing session and replace"),
            ('R', "[R]estore with a different session name"),
            ('q', "[q]uit"),
        ]
    );
}

#[test]
fn listed_names() {
    assert!(is_listed(&names(&["a", "dev", "b"]), &"dev".to_string()));
    assert!(!is_listed(&names(&["a", "dev2", "de"]), &"dev".to_string()));
    assert!(!is_listed(&vec![], &"dev".to_string()));
}

#[test]
fn live_sessions_from_the_listing() {
    assert_eq!(live_session_names("dev\nother\n", ""), Ok(names(&["dev", "other"])));
    assert_eq!(live_session_names("", ""), Ok(vec![]));
    assert_eq!(live_session_names("one", ""), Ok(names(&["one"])));
}

#[test]
fn no_server_means_no_sessions() {
    assert_eq!(
        live_session_names("", "no server running on /tmp/tmux-1000/default\n"),
        Ok(vec![])
    );
    assert_eq!(live_session_names("ignored\n", "error: no server running"), Ok(vec![]));
}

#[test]
fn other_complaints_are_errors() {
    assert_eq!(
        live_session_names("dev\n", "permission denied\n"),
        Err("permission denied\n".to_string())
    );
    assert_eq!(live_session_names("", "no server"), Err("no server".to_string()));
}
