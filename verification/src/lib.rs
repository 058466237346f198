//! Decisions behind a small command-line helper that creates and deletes
//! remote repositories with `git` and `gh`.
//!
//! The library never touches the file system and never starts a process.
//! Each operation is a step function: it is told what happened last and
//! answers with what to do next, so a caller runs the commands and reads the
//! files while every decision stays here, with a contract.

pub mod command;
pub mod config;
pub mod failure;
pub mod json;
pub mod laws;
pub mod operations;
pub mod session;
pub mod text;

pub use crate::json::read_json_value_from_file;
pub use crate::operations::{create_vhost_subdomain, new_remote_repo, remove_remote_repo};
