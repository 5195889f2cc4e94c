//! Decision logic of a hot-reload development session for a managed server
//! process: which commands a settled filesystem change produces, and how the
//! session controller reacts to each event it is handed.

pub mod command;
pub mod paths;
pub mod text;
pub mod session;
pub mod config;
pub mod watcher;
pub mod addons;
pub mod laws;
