//! Fuzzy-finder front-end logic for a command-history store: togglable view
//! options persisted to a side file, query composition over the stored
//! history, and compact relative-age formatting for display.

pub mod cli;
pub mod duration;
pub mod fzf;
pub mod query;
pub mod toggle_file;
