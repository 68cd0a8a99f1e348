//! Memora's core: classification of clipboard content, content hashing and
//! deduplication, workspaces, and the decisions of the use cases that the
//! desktop shell drives against its SQLite storage.

pub mod application;
pub mod domain;
pub mod infrastructure;
pub mod text;
