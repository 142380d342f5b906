//! A multi-repository git manager library.
//!
//! A declarative "listfile" describes a tree of repositories (remote path,
//! local path, optional media path).  This crate holds the verified core of
//! the manager: the escaped-delimited line grammar shared by config files and
//! listfiles, the cascading configuration model, path resolution and remote
//! URL construction, and the reconciliation engine that decides which actions
//! bring one local repository into its declared state.  Process execution,
//! filesystem inspection and recursion live outside the library and consume
//! its decisions.

pub mod config;
pub mod engine;
pub mod mode;
pub mod paths;
pub mod recursive;
pub mod remote_url;
pub mod repository;
pub mod strutil;
pub mod tokenizer;

use vstd::prelude::*;

verus! {

/// Separator character used in listfiles and config files.
pub const LIST_SEPARATOR: char = '*';

} // verus!
