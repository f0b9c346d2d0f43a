//! State of two editor side panels: a chat panel that talks to a command-line assistant, and a
//! panel that lists the commits of a repository.
//!
//! The library decides what each event does to a panel, what the panel shows, and what is asked of
//! the outside (a process to run, a range of commits to fetch, a redraw). Drawing, processes and
//! repositories are the caller's.

pub mod chat_display;
pub mod chat_laws;
pub mod claude_code_panel;
pub mod commands;
pub mod dock;
pub mod git_graph_panel;
pub mod json;
pub mod stream;
pub mod task;
pub mod text;
