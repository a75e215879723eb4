//! Named text notes stored in a relational table, each paired with at most
//! one entry of an external vector index.
//!
//! The library holds the note model, the lookup rules of the table and the
//! upsert-with-reindex protocol as a state machine: the caller performs each
//! storage or index operation that it asks for and feeds the outcome back.
//! `model` describes the table and the index that answer those operations,
//! and proves what an upsert guarantees over them.
pub mod handle;
pub mod model;
pub mod note;
pub mod repository;
pub mod upsert;
