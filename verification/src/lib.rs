//! A coordination layer over an embedded, lexically searchable record store.
//!
//! Callers append text frames tagged with a session identifier and retrieve
//! them by free-text search or by exact session lookup.  The persistent store
//! engine is an external collaborator; this crate owns the discipline around
//! it: the store-handle lifecycle (open or create, then enable the lexical
//! index and commit), the append protocol (re-affirm the index, insert a
//! tagged record, commit before anything else may run), and the search
//! protocol (re-affirm the index, attach a permissive audit-mode access
//! context, project hits to plain text).

pub mod engine;
pub mod errors;
pub mod model;
pub mod store;
