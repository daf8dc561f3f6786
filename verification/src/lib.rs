//! Capture and restore of terminal-multiplexer sessions.
//!
//! The library holds the session model, the generator that turns a captured
//! session into a replayable shell script, the reader and rewriter of the
//! script's identity line, the decisions of the interactive restore flow and
//! of its menus, and the readers of what the multiplexer and the process
//! table report. Everything that talks to a terminal, a file system or
//! another process is left to the program built around it.

pub mod common;
pub mod generate_script;
pub mod identity;
pub mod list_sessions;
pub mod restore_session;
pub mod save_session;
pub mod text;
pub mod tmux_commands;
pub mod ui;
