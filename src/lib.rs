//! Manage a workspace of git checkouts: classify changed files, resolve
//! repository heads, aggregate dirtiness across a workspace, decide the outcome
//! of batch pushes, and resolve short repository specs into remote URLs.
use vstd::prelude::*;

pub mod command;
pub mod config;
pub mod error;
pub mod opt;
pub mod order;
pub mod provider;
pub mod repo;
pub mod spec;
pub mod status;
pub mod template;
pub mod workspace;
