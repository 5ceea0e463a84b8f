//! A compile-time module-tree inliner: it takes the declaration of an
//! external (file-backed) module and recursively folds the whole file tree
//! it refers to into a single in-memory module body.
//!
//! The crate is organised as a pipeline over plain data:
//! byte strings stand for identifiers, attribute tokens and file paths, and
//! the file system is handed in as a snapshot value ([`fs_model::FsModel`])
//! that the caller fills in answer to the queries the walk reports.

use vstd::prelude::*;

pub mod engine;
pub mod fs_model;
pub mod messages;
pub mod model;
pub mod parse;
pub mod resolve;
pub mod text;

verus! {

/// ASCII code of `/`, the path separator.
pub const SLASH: u8 = 47;

} // verus!
