//! Core of a language server for a contract-oriented DSL.
//!
//! The crate keeps, per open document, the raw text and an index of the
//! top-level function declarations, answers editor queries (completion,
//! hover, go-to-definition, find-references) over that state, and maps
//! between the compiler's 1-based line/column coordinates and the editor's
//! 0-based ones.  The DSL's grammar and semantic analyzer are external
//! collaborators; this crate states exactly how their answers drive the
//! document state and the query results.

use vstd::prelude::*;

pub mod builtins;
pub mod casts;
pub mod chars;
pub mod coords;
pub mod document;
pub mod errors;
pub mod funcs;
pub mod queries;
pub mod comments;
pub mod compiler;
pub mod completion;
pub mod resolve;
pub mod template;
pub mod textbuf;
pub mod tokens;

verus! {

} // verus!
