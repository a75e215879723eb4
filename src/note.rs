use vstd::prelude::*;

verus! {

/// A point in time, as microseconds since the Unix epoch (local wall clock).
#[derive(Clone, Copy, Debug, PartialEq, Eq, Structural)]
pub struct Timestamp {
    pub micros: i64,
}

/// The SQL type of the vector column of the embedding table.
#[derive(Clone, Copy, Debug, PartialEq, Eq, Structural)]
pub struct Vector;

/// Errors of the content path: lookups and writes of note records.
#[derive(Clone, Copy, Debug, PartialEq, Eq, Structural)]
pub enum NoteError {
    /// No record has the requested identity or name.
    NotFound,
    /// More than one record carries the requested name.
    AmbiguousMatch,
    /// The relational store failed to read or write.
    StorageFailure,
}

/// A stored note. `embed_id` is the handle of its vector-index entry, if any.
#[derive(Clone, Debug)]
pub struct ObsidianFile {
    pub id: i32,
    pub name: String,
    pub content: String,
    pub created_at: Timestamp,
    pub updated_at: Timestamp,
    pub embed_id: Option<u128>,
}

/// A note not yet stored: everything but the identity.
#[derive(Clone, Debug)]
pub struct NewObsidianFile {
    pub name: String,
    pub content: String,
    pub created_at: Timestamp,
    pub updated_at: Timestamp,
    pub embed_id: Option<u128>,
}

impl ObsidianFile {
    /// A field-by-field copy.
    pub fn duplicate(&self) -> (r: ObsidianFile)
        ensures
            r == *self,
    {
        ObsidianFile {
            id: self.id,
            name: self.name.clone(),
            content: self.content.clone(),
            created_at: self.created_at,
            updated_at: self.updated_at,
            embed_id: self.embed_id,
        }
    }
}

impl NewObsidianFile {
    /// The record that storing `self` under identity `id` yields.
    pub open spec fn stored_as(self, id: i32) -> ObsidianFile {
        ObsidianFile {
            id,
            name: self.name,
            content: self.content,
            created_at: self.created_at,
            updated_at: self.updated_at,
            embed_id: self.embed_id,
        }
    }

    /// Builds the record that storing `self` under identity `id` yields.
    pub fn into_stored(self, id: i32) -> (r: ObsidianFile)
        ensures
            r == self.stored_as(id),
    {
        ObsidianFile {
            id,
            name: self.name,
            content: self.content,
            created_at: self.created_at,
            updated_at: self.updated_at,
            embed_id: self.embed_id,
        }
    }
}

} // verus!
