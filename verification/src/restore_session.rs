//! The restore flow: bringing a saved script back to life when a live session
//! may already carry its name.
//!
//! The flow is a state machine. In each state it asks its caller for one
//! thing, the pending action: a question to the multiplexer, a menu, a line
//! of input, a command to run. The caller does it and hands the answer back
//! as an event, which moves the machine to its next state.
//!
//! A conflict, a live session with the script's name, is resolved by the user:
//! attach to the live session, kill it, restore under another name, or quit.
//! After a kill or a rename the conflict is looked for again, as the kill may
//! have failed and the new name may be taken as well.

use crate::common::{OptionView, UserOption};
use crate::identity::{
    capture_session_name_from_script, replace_session_name_in_script, session_name_in,
    with_session_name,
};
use crate::text::{contains, lines, lines_of, occurs_in, text_views, trim, trimmed};
use crate::ui::{has_distinct_keys, option_views, QUIT_KEY};
use vstd::prelude::*;

verus! {

/// The key of the option to attach to the live session.
pub const ATTACH_KEY: char = 'A';

/// The key of the option to kill the live session.
pub const KILL_KEY: char = 'K';

/// The key of the option to restore under another name.
pub const RENAME_KEY: char = 'R';

/// Where the restore flow stands.
#[derive(Debug, Clone, Copy, PartialEq, Eq, Structural)]
pub enum RestoreState {
    /// The live sessions are being asked for.
    CheckConflict,
    /// A live session has the script's name; the user is choosing what to do.
    Resolving,
    /// The user chose to kill; the session the caller is attached to is being
    /// asked for.
    KillGuard,
    /// The live session is being killed.
    Killing,
    /// The user chose to rename; the new name is being read.
    NameEntry,
    /// The script is running.
    Execute,
    /// Done: the caller is handed over to the session.
    Attached,
    /// Done: the user quit.
    Aborted,
    /// Done: the user asked to kill the session that the caller is attached
    /// to, which is refused.
    Refused,
}

/// What the caller reports back to the flow.
#[derive(Debug, Clone, PartialEq, Eq)]
pub enum RestoreEvent {
    /// The names of the live sessions.
    LiveSessions(Vec<String>),
    /// The key of the option that the user chose.
    OptionChosen(char),
    /// The session that the caller is attached to, if any.
    AttachedSession(Option<String>),
    /// The live session was asked to end.
    SessionKilled,
    /// The line that the user entered as the new name.
    NameEntered(String),
    /// The script ran to its end.
    ScriptFinished,
}

/// What the flow asks its caller to do.
#[derive(Debug, Clone, PartialEq, Eq)]
pub enum RestoreAction {
    /// List the live sessions; answer with `LiveSessions`.
    ListSessions,
    /// Present the options for a conflict on this name; answer with
    /// `OptionChosen`.
    PresentOptions { session_name: String },
    /// Find the session that the caller is attached to; answer with
    /// `AttachedSession`.
    QueryAttachedSession,
    /// Kill the live session of this name; answer with `SessionKilled`.
    KillSession { session_name: String },
    /// Read a new session name; answer with `NameEntered`.
    ReadName,
    /// Run the script as a shell program, to its end; answer with
    /// `ScriptFinished`.
    RunScript { script: String },
    /// Switch the caller's client to the session, and exit.
    SwitchClient { session_name: String },
    /// Attach a new client to the session, and exit when it detaches.
    AttachClient { session_name: String },
    /// Exit without a trace.
    Quit,
    /// Tell the user that a session cannot be killed from inside, and exit.
    RefuseKill,
}

/// Why a restore cannot start.
#[derive(Debug, Clone, Copy, PartialEq, Eq)]
pub enum RestoreError {
    /// The script has no identity line, or one without a name.
    MissingIdentity,
}

/// The restore flow of one script.
#[derive(Debug, Clone, PartialEq, Eq)]
pub struct Restore {
    pub state: RestoreState,
    /// The name under which the script creates its session.
    pub session_name: String,
    /// The text that will be run.
    pub script: String,
    /// Whether the caller runs inside a client of the multiplexer.
    pub inside_client: bool,
}

/// Mathematical model of a [`RestoreEvent`].
pub enum EventView {
    LiveSessions(Seq<Seq<char>>),
    OptionChosen(char),
    AttachedSession(Option<Seq<char>>),
    SessionKilled,
    NameEntered(Seq<char>),
    ScriptFinished,
}

/// Mathematical model of a [`RestoreAction`].
pub enum ActionView {
    ListSessions,
    PresentOptions { session_name: Seq<char> },
    QueryAttachedSession,
    KillSession { session_name: Seq<char> },
    ReadName,
    RunScript { script: Seq<char> },
    SwitchClient { session_name: Seq<char> },
    AttachClient { session_name: Seq<char> },
    Quit,
    RefuseKill,
}

/// Mathematical model of a [`Restore`].
pub struct FlowView {
    pub state: RestoreState,
    pub session_name: Seq<char>,
    pub script: Seq<char>,
    pub inside_client: bool,
}

impl View for RestoreEvent {
    type V = EventView;

    open spec fn view(&self) -> EventView {
        match self {
            RestoreEvent::LiveSessions(names) => EventView::LiveSessions(text_views(names@)),
            RestoreEvent::OptionChosen(key) => EventView::OptionChosen(*key),
            RestoreEvent::AttachedSession(Some(name)) => EventView::AttachedSession(Some(name@)),
            RestoreEvent::AttachedSession(None) => EventView::AttachedSession(None),
            RestoreEvent::SessionKilled => EventView::SessionKilled,
            RestoreEvent::NameEntered(line) => EventView::NameEntered(line@),
            RestoreEvent::ScriptFinished => EventView::ScriptFinished,
        }
    }
}

impl View for RestoreAction {
    type V = ActionView;

    open spec fn view(&self) -> ActionView {
        match self {
            RestoreAction::ListSessions => ActionView::ListSessions,
            RestoreAction::PresentOptions { session_name } => ActionView::PresentOptions {
                session_name: session_name@,
            },
            RestoreAction::QueryAttachedSession => ActionView::QueryAttachedSession,
            RestoreAction::KillSession { session_name } => ActionView::KillSession {
                session_name: session_name@,
            },
            RestoreAction::ReadName => ActionView::ReadName,
            RestoreAction::RunScript { script } => ActionView::RunScript { script: script@ },
            RestoreAction::SwitchClient { session_name } => ActionView::SwitchClient {
                session_name: session_name@,
            },
            RestoreAction::AttachClient { session_name } => ActionView::AttachClient {
                session_name: session_name@,
            },
            RestoreAction::Quit => ActionView::Quit,
            RestoreAction::RefuseKill => ActionView::RefuseKill,
        }
    }
}

impl View for Restore {
    type V = FlowView;

    open spec fn view(&self) -> FlowView {
        FlowView {
            state: self.state,
            session_name: self.session_name@,
            script: self.script@,
            inside_client: self.inside_client,
        }
    }
}

impl FlowView {
    /// The same flow in another state.
    pub open spec fn at(self, state: RestoreState) -> FlowView {
        FlowView { state, ..self }
    }

    /// The flow after the user entered `line` as the new name: the trimmed
    /// line is the session's name, and the script creates it under that name.
    pub open spec fn renamed(self, line: Seq<char>) -> FlowView {
        FlowView {
            state: RestoreState::CheckConflict,
            session_name: trimmed(line),
            script: with_session_name(self.script, trimmed(line)),
            inside_client: self.inside_client,
        }
    }
}

/// The flow of a script before its first event.
pub open spec fn initial(script: Seq<char>, inside_client: bool) -> FlowView {
    FlowView {
        state: RestoreState::CheckConflict,
        session_name: session_name_in(script),
        script,
        inside_client,
    }
}

/// The state is final: no event leads out of it.
pub open spec fn is_final(state: RestoreState) -> bool {
    state == RestoreState::Attached || state == RestoreState::Aborted || state
        == RestoreState::Refused
}

/// What the chosen option leads to. A key that belongs to none of the four
/// options leaves the flow where it is.
pub open spec fn resolution(m: FlowView, key: char) -> FlowView {
    if key == ATTACH_KEY {
        m.at(RestoreState::Attached)
    } else if key == KILL_KEY {
        m.at(RestoreState::KillGuard)
    } else if key == RENAME_KEY {
        m.at(RestoreState::NameEntry)
    } else if key == QUIT_KEY {
        m.at(RestoreState::Aborted)
    } else {
        m
    }
}

/// The flow after one event. An event that the state does not wait for leaves
/// the flow as it is.
pub open spec fn next_state(m: FlowView, event: EventView) -> FlowView {
    match (m.state, event) {
        (RestoreState::CheckConflict, EventView::LiveSessions(names)) => {
            if names.contains(m.session_name) {
                m.at(RestoreState::Resolving)
            } else {
                m.at(RestoreState::Execute)
            }
        },
        (RestoreState::Resolving, EventView::OptionChosen(key)) => resolution(m, key),
        (RestoreState::KillGuard, EventView::AttachedSession(attached)) => {
            if attached == Some(m.session_name) {
                m.at(RestoreState::Refused)
            } else {
                m.at(RestoreState::Killing)
            }
        },
        (RestoreState::Killing, EventView::SessionKilled) => m.at(RestoreState::CheckConflict),
        (RestoreState::NameEntry, EventView::NameEntered(line)) => m.renamed(line),
        (RestoreState::Execute, EventView::ScriptFinished) => m.at(RestoreState::Attached),
        _ => m,
    }
}

/// How the caller is handed over to the session: from inside a client by
/// switching that client, from outside by attaching a new one.
pub open spec fn hand_over(m: FlowView) -> ActionView {
    if m.inside_client {
        ActionView::SwitchClient { session_name: m.session_name }
    } else {
        ActionView::AttachClient { session_name: m.session_name }
    }
}

/// What the flow asks for in its state.
pub open spec fn pending_action(m: FlowView) -> ActionView {
    match m.state {
        RestoreState::CheckConflict => ActionView::ListSessions,
        RestoreState::Resolving => ActionView::PresentOptions { session_name: m.session_name },
        RestoreState::KillGuard => ActionView::QueryAttachedSession,
        RestoreState::Killing => ActionView::KillSession { session_name: m.session_name },
        RestoreState::NameEntry => ActionView::ReadName,
        RestoreState::Execute => ActionView::RunScript { script: m.script },
        RestoreState::Attached => hand_over(m),
        RestoreState::Aborted => ActionView::Quit,
        RestoreState::Refused => ActionView::RefuseKill,
    }
}

/// The exit status that goes with an action that ends the program.
pub open spec fn exit_status(action: ActionView) -> Option<int> {
    match action {
        ActionView::SwitchClient { .. } => Some(0),
        ActionView::AttachClient { .. } => Some(0),
        ActionView::Quit => Some(0),
        ActionView::RefuseKill => Some(1),
        _ => None,
    }
}

/// The flow after a sequence of events.
pub open spec fn run(m: FlowView, events: Seq<EventView>) -> FlowView
    decreases events.len(),
{
    if events.len() == 0 {
        m
    } else {
        next_state(run(m, events.drop_last()), events.last())
    }
}

/// The flow has left `Resolving` at some point of the events.
pub open spec fn has_left_resolving(m: FlowView, events: Seq<EventView>) -> bool
    decreases events.len(),
{
    if events.len() == 0 {
        false
    } else {
        has_left_resolving(m, events.drop_last()) || run(m, events).state
            != RestoreState::Resolving
    }
}

/// The event changes what the conflict is about: it reports the kill of the
/// live session, or it gives the session another name.
pub open spec fn is_change(before: FlowView, event: EventView) -> bool {
    ||| before.state == RestoreState::Killing && event is SessionKilled
    ||| before.state == RestoreState::NameEntry && event is NameEntered
}

/// One of the events changed what the conflict is about.
pub open spec fn has_changed(m: FlowView, events: Seq<EventView>) -> bool
    decreases events.len(),
{
    if events.len() == 0 {
        false
    } else {
        has_changed(m, events.drop_last()) || is_change(
            run(m, events.drop_last()),
            events.last(),
        )
    }
}

/// No event leads out of a final state.
pub proof fn lemma_final_is_absorbing(m: FlowView, events: Seq<EventView>)
    requires
        is_final(m.state),
    ensures
        run(m, events) == m,
    decreases events.len(),
{
    if events.len() > 0 {
        lemma_final_is_absorbing(m, events.drop_last());
    }
}

/// On its way from `Resolving` the flow is in the middle of a kill or a
/// rename, or at an end, until the conflict has changed.
proof fn lemma_way_from_resolving(m: FlowView, events: Seq<EventView>)
    requires
        m.state == RestoreState::Resolving,
    ensures
        !has_left_resolving(m, events) ==> run(m, events) == m,
        has_left_resolving(m, events) && !has_changed(m, events) ==> ({
            let state = run(m, events).state;
            ||| state == RestoreState::KillGuard
            ||| state == RestoreState::Killing
            ||| state == RestoreState::NameEntry
            ||| is_final(state)
        }),
    decreases events.len(),
{
    if events.len() > 0 {
        lemma_way_from_resolving(m, events.drop_last());
    }
}

/// The flow does not come back to `Resolving` over the same conflict: if it
/// leaves `Resolving` and returns to it, then in between the live session was
/// killed or the session to restore was given another name.
pub proof fn lemma_no_unchanged_revisit(m: FlowView, events: Seq<EventView>)
    requires
        m.state == RestoreState::Resolving,
        has_left_resolving(m, events),
        run(m, events).state == RestoreState::Resolving,
    ensures
        has_changed(m, events),
{
    lemma_way_from_resolving(m, events);
}

/// A kill is asked for only behind the guard: the flow comes to ask for the
/// kill of a session only from `KillGuard`, on the report that the caller is
/// not attached to that session, and the session is the one in conflict.
pub proof fn lemma_kill_is_guarded(m: FlowView, event: EventView)
    requires
        pending_action(next_state(m, event)) is KillSession,
        !(pending_action(m) is KillSession),
    ensures
        m.state == RestoreState::KillGuard,
        event is AttachedSession,
        event->AttachedSession_0 != Some(m.session_name),
        pending_action(next_state(m, event)) == (ActionView::KillSession {
            session_name: m.session_name,
        }),
{
}

/// The session that the caller is attached to is not killed: when the guard
/// finds the caller attached to the session in conflict, the flow ends in
/// `Refused`, asks for the refusal with exit status 1, and no later event
/// makes it ask for anything else.
pub proof fn lemma_self_kill_refused(m: FlowView, events: Seq<EventView>)
    requires
        m.state == RestoreState::KillGuard,
    ensures
        ({
            let refused = next_state(m, EventView::AttachedSession(Some(m.session_name)));
            &&& refused.state == RestoreState::Refused
            &&& run(refused, events) == refused
            &&& pending_action(run(refused, events)) == ActionView::RefuseKill
            &&& exit_status(ActionView::RefuseKill) == Some(1int)
        }),
{
    let refused = next_state(m, EventView::AttachedSession(Some(m.session_name)));
    lemma_final_is_absorbing(refused, events);
}

/// Attaching to the live session ends the flow without running the script:
/// the caller is handed over to the session under the name that was in
/// conflict, the script is as it was, and no later event makes the flow ask
/// for anything else.
pub proof fn lemma_attach_resolution(m: FlowView, events: Seq<EventView>)
    requires
        m.state == RestoreState::Resolving,
    ensures
        ({
            let attached = next_state(m, EventView::OptionChosen(ATTACH_KEY));
            &&& attached == m.at(RestoreState::Attached)
            &&& pending_action(attached) == hand_over(m)
            &&& exit_status(pending_action(attached)) == Some(0int)
            &&& run(attached, events) == attached
        }),
{
    lemma_final_is_absorbing(next_state(m, EventView::OptionChosen(ATTACH_KEY)), events);
}

/// A kill from outside the session: the flow asks where the caller is
/// attached, then for the kill of the session in conflict, then for the live
/// sessions. It is back at the menu if the session is still among them, and
/// runs the script if it is gone. Name and script are as they were.
pub proof fn lemma_kill_round(m: FlowView, attached: Option<Seq<char>>, live: Seq<Seq<char>>)
    requires
        m.state == RestoreState::Resolving,
        attached != Some(m.session_name),
    ensures
        ({
            let guard = next_state(m, EventView::OptionChosen(KILL_KEY));
            let killing = next_state(guard, EventView::AttachedSession(attached));
            let check = next_state(killing, EventView::SessionKilled);
            let after = next_state(check, EventView::LiveSessions(live));
            &&& pending_action(guard) == ActionView::QueryAttachedSession
            &&& pending_action(killing) == (ActionView::KillSession {
                session_name: m.session_name,
            })
            &&& pending_action(check) == ActionView::ListSessions
            &&& after == m.at(
                if live.contains(m.session_name) {
                    RestoreState::Resolving
                } else {
                    RestoreState::Execute
                },
            )
        }),
{
}

/// A rename: the flow asks for a name, takes the trimmed line as the name of
/// the session, rewrites the script to it, and asks for the live sessions.
/// It is back at the menu, with the new name, if that name is among them, and
/// runs the rewritten script if it is free.
pub proof fn lemma_rename_round(m: FlowView, line: Seq<char>, live: Seq<Seq<char>>)
    requires
        m.state == RestoreState::Resolving,
    ensures
        ({
            let entry = next_state(m, EventView::OptionChosen(RENAME_KEY));
            let check = next_state(entry, EventView::NameEntered(line));
            let after = next_state(check, EventView::LiveSessions(live));
            let script = with_session_name(m.script, trimmed(line));
            &&& pending_action(entry) == ActionView::ReadName
            &&& pending_action(check) == ActionView::ListSessions
            &&& after.session_name == trimmed(line)
            &&& after.script == script
            &&& after.inside_client == m.inside_client
            &&& pending_action(after) == if live.contains(trimmed(line)) {
                ActionView::PresentOptions { session_name: trimmed(line) }
            } else {
                ActionView::RunScript { script }
            }
        }),
{
}

/// The title of the menu that resolves a conflict on `name`.
pub open spec fn conflict_title(name: Seq<char>) -> Seq<char> {
    "A session with the name \""@ + name + "\" already exists in the tmux server."@
}

/// The options of the menu that resolves a conflict.
pub open spec fn conflict_options() -> Seq<OptionView> {
    seq![
        OptionView { label: "[A]ttach or switch to existing session"@, keybind: ATTACH_KEY },
        OptionView { label: "[K]ill existing session and replace"@, keybind: KILL_KEY },
        OptionView { label: "[R]estore with a different session name"@, keybind: RENAME_KEY },
        OptionView { label: "[q]uit"@, keybind: QUIT_KEY },
    ]
}

/// The live sessions that the multiplexer's answer to a listing stands for.
///
/// With nothing on the error stream the names are the lines of the output. A
/// complaint that no server is running means that no session is live. Any
/// other complaint is an error, with the complaint as its text.
pub open spec fn listed_sessions(output: Seq<char>, complaint: Seq<char>) -> Result<
    Seq<Seq<char>>,
    Seq<char>,
> {
    if complaint.len() == 0 {
        Ok(lines_of(output))
    } else if occurs_in("no server running"@, complaint) {
        Ok(Seq::empty())
    } else {
        Err(complaint)
    }
}

/// The menu that resolves a conflict on `session_name`: its title and its
/// four options.
pub fn get_session_exists_option(session_name: &str) -> (menu: (String, Vec<UserOption>))
    ensures
        menu.0@ == conflict_title(session_name@),
        option_views(menu.1@) == conflict_options(),
        has_distinct_keys(conflict_options()),
{
    let mut title = String::new();
    title.append("A session with the name \"");
    title.append(session_name);
    title.append("\" already exists in the tmux server.");
    let mut options: Vec<UserOption> = Vec::new();
    options.push(
        UserOption {
            keybind: ATTACH_KEY,
            label: "[A]ttach or switch to existing session".to_owned(),
        },
    );
    options.push(
        UserOption { keybind: KILL_KEY, label: "[K]ill existing session and replace".to_owned() },
    );
    options.push(
        UserOption {
            keybind: RENAME_KEY,
            label: "[R]estore with a different session name".to_owned(),
        },
    );
    options.push(UserOption { keybind: QUIT_KEY, label: "[q]uit".to_owned() });
    (title, options)
}

/// Reads the live sessions from what the multiplexer wrote when asked to list
/// them, on its output and on its error stream.
pub fn live_session_names(output: &str, complaint: &str) -> (listed: Result<Vec<String>, String>)
    ensures
        match listed {
            Ok(names) => listed_sessions(output@, complaint@) == Ok::<
                Seq<Seq<char>>,
                Seq<char>,
            >(text_views(names@)),
            Err(text) => listed_sessions(output@, complaint@) == Err::<
                Seq<Seq<char>>,
                Seq<char>,
            >(text@),
        },
{
    if complaint.is_empty() {
        Ok(lines(output))
    } else if contains(complaint, "no server running") {
        let none: Vec<String> = Vec::new();
        assert(text_views(none@) == Seq::<Seq<char>>::empty());
        Ok(none)
    } else {
        Err(complaint.to_owned())
    }
}

/// Whether `name` is one of `names`.
pub fn is_listed(names: &Vec<String>, name: &String) -> (listed: bool)
    ensures
        listed == text_views(names@).contains(name@),
{
    let ghost views = text_views(names@);
    let mut i: usize = 0;
    while i < names.len()
        invariant
            0 <= i <= names.len(),
            views == text_views(names@),
            forall|j: int| 0 <= j < i ==> views[j] != name@,
        decreases names.len() - i,
    {
        if names[i] == *name {
            assert(views[i as int] == name@);
            return true;
        }
        i += 1;
    }
    false
}

impl RestoreAction {
    /// The exit status of the program, for an action that ends it.
    pub fn exit_status(&self) -> (status: Option<i32>)
        ensures
            match status {
                Some(code) => exit_status(self@) == Some(code as int),
                None => exit_status(self@) is None,
            },
    {
        match self {
            RestoreAction::SwitchClient { .. } => Some(0),
            RestoreAction::AttachClient { .. } => Some(0),
            RestoreAction::Quit => Some(0),
            RestoreAction::RefuseKill => Some(1),
            _ => None,
        }
    }
}

impl Restore {
    /// Starts the restore of `script`: reads the name under which it creates
    /// its session, and fails if it carries none.
    pub fn start(script: String, inside_client: bool) -> (started: Result<Restore, RestoreError>)
        ensures
            match started {
                Ok(m) => session_name_in(script@).len() > 0 && m@ == initial(
                    script@,
                    inside_client,
                ),
                Err(e) => e == RestoreError::MissingIdentity && session_name_in(script@).len() == 0,
            },
    {
        let session_name = capture_session_name_from_script(script.as_str());
        if session_name.as_str().is_empty() {
            Err(RestoreError::MissingIdentity)
        } else {
            Ok(Restore { state: RestoreState::CheckConflict, session_name, script, inside_client })
        }
    }

    /// What the flow asks its caller to do now.
    pub fn pending(&self) -> (action: RestoreAction)
        ensures
            action@ == pending_action(self@),
    {
        match self.state {
            RestoreState::CheckConflict => RestoreAction::ListSessions,
            RestoreState::Resolving => RestoreAction::PresentOptions {
                session_name: self.session_name.clone(),
            },
            RestoreState::KillGuard => RestoreAction::QueryAttachedSession,
            RestoreState::Killing => RestoreAction::KillSession {
                session_name: self.session_name.clone(),
            },
            RestoreState::NameEntry => RestoreAction::ReadName,
            RestoreState::Execute => RestoreAction::RunScript { script: self.script.clone() },
            RestoreState::Attached => {
                if self.inside_client {
                    RestoreAction::SwitchClient { session_name: self.session_name.clone() }
                } else {
                    RestoreAction::AttachClient { session_name: self.session_name.clone() }
                }
            },
            RestoreState::Aborted => RestoreAction::Quit,
            RestoreState::Refused => RestoreAction::RefuseKill,
        }
    }

    /// Takes the answer to the pending action, moves to the next state, and
    /// hands back what is to be done there.
    pub fn step(&mut self, event: RestoreEvent) -> (action: RestoreAction)
        ensures
            final(self)@ == next_state(old(self)@, event@),
            action@ == pending_action(final(self)@),
    {
        match event {
            RestoreEvent::LiveSessions(names) => {
                if self.state == RestoreState::CheckConflict {
                    if is_listed(&names, &self.session_name) {
                        self.state = RestoreState::Resolving;
                    } else {
                        self.state = RestoreState::Execute;
                    }
                }
            },
            RestoreEvent::OptionChosen(key) => {
                if self.state == RestoreState::Resolving {
                    if key == ATTACH_KEY {
                        self.state = RestoreState::Attached;
                    } else if key == KILL_KEY {
                        self.state = RestoreState::KillGuard;
                    } else if key == RENAME_KEY {
                        self.state = RestoreState::NameEntry;
                    } else if key == QUIT_KEY {
                        self.state = RestoreState::Aborted;
                    }
                }
            },
            RestoreEvent::AttachedSession(attached) => {
                if self.state == RestoreState::KillGuard {
                    let inside = match attached {
                        Some(name) => name == self.session_name,
                        None => false,
                    };
                    if inside {
                        self.state = RestoreState::Refused;
                    } else {
                        self.state = RestoreState::Killing;
                    }
                }
            },
            RestoreEvent::SessionKilled => {
                if self.state == RestoreState::Killing {
                    self.state = RestoreState::CheckConflict;
                }
            },
            RestoreEvent::NameEntered(line) => {
                if self.state == RestoreState::NameEntry {
                    let name = trim(line.as_str());
                    self.script = replace_session_name_in_script(
                        self.script.as_str(),
                        name.as_str(),
                    );
                    self.session_name = name;
                    self.state = RestoreState::CheckConflict;
                }
            },
            RestoreEvent::ScriptFinished => {
                if self.state == RestoreState::Execute {
                    self.state = RestoreState::Attached;
                }
            },
        }
        self.pending()
    }
}

} // verus!
