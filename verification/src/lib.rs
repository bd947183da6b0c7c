//! Core of a system-tray timer that logs time on Jira issues: the timer and
//! settings flows as a state machine, the dialog and request descriptions it
//! hands to its host, and the procedurally drawn tray icons.
pub mod config;
pub mod dialogs;
pub mod icons;
pub mod jira;
pub mod laws;
pub mod text;
pub mod tray;
