use vstd::prelude::*;
use crate::handle::{IndexError, handle_from_reply, handle_of_reply, reply_view};
use crate::note::{NewObsidianFile, NoteError, ObsidianFile, Timestamp};
use crate::repository::{find_by_name, lookup_by_name};

verus! {

/// Where an upsert by name stands, and what it carries between steps.
#[derive(Debug)]
#[allow(inconsistent_fields)]
pub enum Stage {
    /// Waiting for the records that carry the name.
    Lookup,
    /// Waiting for the removal of the existing note's index entry.
    Retiring { note: ObsidianFile },
    /// Waiting for the new content of the existing note to be indexed.
    Reindexing { note: ObsidianFile },
    /// Waiting for the content of a new note to be indexed.
    Creating,
    /// Waiting for the revised note to be written by identity.
    Saving { note: ObsidianFile },
    /// Waiting for the new note to be inserted.
    Inserting { note: NewObsidianFile },
    /// The outcome has been handed out.
    Finished,
}

/// The outcome of the operation that the last action asked for.
#[derive(Debug)]
pub enum UpsertEvent {
    /// The records that carry the name, or the store's failure.
    Found { rows: Result<Vec<ObsidianFile>, NoteError> },
    /// Whether the old index entry was removed.
    Retired { removed: bool },
    /// The key of the new index entry, or the index's failure.
    Indexed { reply: Result<String, IndexError> },
    /// Whether the revised note was written.
    Saved { outcome: Result<(), NoteError> },
    /// The identity that the store gave the new note, or its failure.
    Inserted { id: Result<i32, NoteError> },
}

/// The operation that the caller is to perform next.
#[derive(Debug)]
#[allow(inconsistent_fields)]
pub enum UpsertAction {
    /// Read every record that carries `name`.
    FindByName { name: String },
    /// Remove the index entry with this handle.
    RemoveEntry { embed_id: u128 },
    /// Index this text and report the key of the new entry.
    IndexContent { content: String },
    /// Write content, update time and handle of the record with `note.id`.
    UpdateNote { note: ObsidianFile },
    /// Insert a new record and report its identity.
    InsertNote { note: NewObsidianFile },
    /// The upsert is over, with this outcome.
    Complete { result: Result<ObsidianFile, NoteError> },
}

/// One upsert of `content` under `name`, at time `now`.
#[derive(Debug)]
pub struct NoteUpsert {
    pub name: String,
    pub content: String,
    pub now: Timestamp,
    pub stage: Stage,
}

/// The rows of a lookup reply as a sequence.
pub open spec fn rows_view(rows: Result<Vec<ObsidianFile>, NoteError>) -> Result<
    Seq<ObsidianFile>,
    NoteError,
> {
    match rows {
        Ok(v) => Ok(v@),
        Err(e) => Err(e),
    }
}

impl NoteUpsert {
    /// The upsert before its first step.
    pub open spec fn initial(name: String, content: String, now: Timestamp) -> NoteUpsert {
        NoteUpsert { name, content, now, stage: Stage::Lookup }
    }

    pub open spec fn at(self, stage: Stage) -> NoteUpsert {
        NoteUpsert { stage, ..self }
    }

    pub open spec fn finish(self, result: Result<ObsidianFile, NoteError>) -> (NoteUpsert, UpsertAction) {
        (self.at(Stage::Finished), UpsertAction::Complete { result })
    }

    /// `note` with the new content, the upsert's time and `handle`.
    pub open spec fn revised(self, note: ObsidianFile, handle: Option<u128>) -> ObsidianFile {
        ObsidianFile { content: self.content, updated_at: self.now, embed_id: handle, ..note }
    }

    /// The new note: created and updated at the upsert's time.
    pub open spec fn fresh(self, handle: Option<u128>) -> NewObsidianFile {
        NewObsidianFile {
            name: self.name,
            content: self.content,
            created_at: self.now,
            updated_at: self.now,
            embed_id: handle,
        }
    }

    /// Asks the index for the content, carrying on to `stage`.
    pub open spec fn index_next(self, stage: Stage) -> (NoteUpsert, UpsertAction) {
        (self.at(stage), UpsertAction::IndexContent { content: self.content })
    }

    /// After the lookup: fail on a store error or an ambiguous name, create
    /// when nothing matched, else retire the old entry (if any) and reindex.
    pub open spec fn on_found(self, rows: Result<Seq<ObsidianFile>, NoteError>) -> (NoteUpsert, UpsertAction) {
        match rows {
            Err(e) => self.finish(Err(e)),
            Ok(rows) => match lookup_by_name(rows, self.name@) {
                Err(NoteError::NotFound) => self.index_next(Stage::Creating),
                Err(e) => self.finish(Err(e)),
                Ok(note) => match note.embed_id {
                    Some(h) => (self.at(Stage::Retiring { note }), UpsertAction::RemoveEntry { embed_id: h }),
                    None => self.index_next(Stage::Reindexing { note }),
                },
            },
        }
    }

    /// After a removal, whatever its outcome: reindex.
    pub open spec fn on_retired(self) -> (NoteUpsert, UpsertAction)
        recommends
            self.stage is Retiring,
    {
        self.index_next(Stage::Reindexing { note: self.stage->Retiring_note })
    }

    /// After indexing: write the existing note with the handle, or with
    /// none; or insert the new note so.
    pub open spec fn on_indexed(self, handle: Option<u128>) -> (NoteUpsert, UpsertAction)
        recommends
            self.stage is Reindexing || self.stage is Creating,
    {
        if self.stage is Reindexing {
            let note = self.revised(self.stage->Reindexing_note, handle);
            (self.at(Stage::Saving { note }), UpsertAction::UpdateNote { note })
        } else {
            let note = self.fresh(handle);
            (self.at(Stage::Inserting { note }), UpsertAction::InsertNote { note })
        }
    }

    /// After the write by identity: hand out the note, or the store's error.
    pub open spec fn on_saved(self, outcome: Result<(), NoteError>) -> (NoteUpsert, UpsertAction)
        recommends
            self.stage is Saving,
    {
        match outcome {
            Ok(()) => self.finish(Ok(self.stage->Saving_note)),
            Err(e) => self.finish(Err(e)),
        }
    }

    /// After the insert: hand out the stored note, or the store's error.
    pub open spec fn on_inserted(self, id: Result<i32, NoteError>) -> (NoteUpsert, UpsertAction)
        recommends
            self.stage is Inserting,
    {
        match id {
            Ok(id) => self.finish(Ok(self.stage->Inserting_note.stored_as(id))),
            Err(e) => self.finish(Err(e)),
        }
    }

    /// The event is the one that the current stage waits for.
    pub open spec fn awaits(self, e: UpsertEvent) -> bool {
        match e {
            UpsertEvent::Found { .. } => self.stage is Lookup,
            UpsertEvent::Retired { .. } => self.stage is Retiring,
            UpsertEvent::Indexed { .. } => self.stage is Reindexing || self.stage is Creating,
            UpsertEvent::Saved { .. } => self.stage is Saving,
            UpsertEvent::Inserted { .. } => self.stage is Inserting,
        }
    }

    /// The next state and action on an awaited event.
    pub open spec fn next(self, e: UpsertEvent) -> (NoteUpsert, UpsertAction) {
        match e {
            UpsertEvent::Found { rows } => self.on_found(rows_view(rows)),
            UpsertEvent::Retired { .. } => self.on_retired(),
            UpsertEvent::Indexed { reply } => self.on_indexed(handle_of_reply(reply_view(reply))),
            UpsertEvent::Saved { outcome } => self.on_saved(outcome),
            UpsertEvent::Inserted { id } => self.on_inserted(id),
        }
    }

    /// Starts an upsert: the first action is the lookup by name.
    pub fn new(name: String, content: String, now: Timestamp) -> (r: (NoteUpsert, UpsertAction))
        ensures
            r.0 == NoteUpsert::initial(name, content, now),
            r.1 == (UpsertAction::FindByName { name }),
    {
        let lookup = UpsertAction::FindByName { name: name.clone() };
        (NoteUpsert { name, content, now, stage: Stage::Lookup }, lookup)
    }

    /// Whether `e` is the event that the current stage waits for.
    pub fn is_awaited(&self, e: &UpsertEvent) -> (r: bool)
        ensures
            r == self.awaits(*e),
    {
        match e {
            UpsertEvent::Found { .. } => matches!(self.stage, Stage::Lookup),
            UpsertEvent::Retired { .. } => matches!(self.stage, Stage::Retiring { .. }),
            UpsertEvent::Indexed { .. } => matches!(self.stage, Stage::Reindexing { .. } | Stage::Creating),
            UpsertEvent::Saved { .. } => matches!(self.stage, Stage::Saving { .. }),
            UpsertEvent::Inserted { .. } => matches!(self.stage, Stage::Inserting { .. }),
        }
    }

    /// Moves the stage out, leaving `Finished` in its place.
    fn take_stage(&mut self) -> (stage: Stage)
        ensures
            stage == old(self).stage,
            *final(self) == old(self).at(Stage::Finished),
    {
        let mut stage = Stage::Finished;
        std::mem::swap(&mut stage, &mut self.stage);
        stage
    }

    fn index_content(&mut self, stage: Stage) -> (a: UpsertAction)
        ensures
            (*final(self), a) == old(self).index_next(stage),
    {
        self.stage = stage;
        UpsertAction::IndexContent { content: self.content.clone() }
    }

    fn complete(&mut self, result: Result<ObsidianFile, NoteError>) -> (a: UpsertAction)
        ensures
            (*final(self), a) == old(self).finish(result),
    {
        self.stage = Stage::Finished;
        UpsertAction::Complete { result }
    }

    /// Takes the outcome of the lookup by name.
    pub fn found(&mut self, rows: Result<Vec<ObsidianFile>, NoteError>) -> (a: UpsertAction)
        requires
            old(self).stage is Lookup,
        ensures
            (*final(self), a) == old(self).on_found(rows_view(rows)),
    {
        match rows {
            Err(e) => self.complete(Err(e)),
            Ok(rows) => match find_by_name(&rows, &self.name) {
                Err(NoteError::NotFound) => self.index_content(Stage::Creating),
                Err(e) => self.complete(Err(e)),
                Ok(note) => match note.embed_id {
                    Some(h) => {
                        self.stage = Stage::Retiring { note };
                        UpsertAction::RemoveEntry { embed_id: h }
                    },
                    None => self.index_content(Stage::Reindexing { note }),
                },
            },
        }
    }

    /// Takes the outcome of the removal of the old index entry.
    pub fn retired(&mut self, removed: bool) -> (a: UpsertAction)
        requires
            old(self).stage is Retiring,
        ensures
            (*final(self), a) == old(self).on_retired(),
    {
        let stage = self.take_stage();
        match stage {
            Stage::Retiring { note } => self.index_content(Stage::Reindexing { note }),
            // Not reached: the precondition fixes the stage.
            _ => UpsertAction::Complete { result: Err(NoteError::StorageFailure) },
        }
    }

    /// Takes the handle of the new index entry, if indexing gave one.
    pub fn indexed(&mut self, handle: Option<u128>) -> (a: UpsertAction)
        requires
            old(self).stage is Reindexing || old(self).stage is Creating,
        ensures
            (*final(self), a) == old(self).on_indexed(handle),
    {
        let stage = self.take_stage();
        match stage {
            Stage::Reindexing { note } => {
                let note = ObsidianFile {
                    content: self.content.clone(),
                    updated_at: self.now,
                    embed_id: handle,
                    ..note
                };
                let written = note.duplicate();
                self.stage = Stage::Saving { note };
                UpsertAction::UpdateNote { note: written }
            },
            _ => {
                let note = NewObsidianFile {
                    name: self.name.clone(),
                    content: self.content.clone(),
                    created_at: self.now,
                    updated_at: self.now,
                    embed_id: handle,
                };
                let written = NewObsidianFile {
                    name: note.name.clone(),
                    content: note.content.clone(),
                    ..note
                };
                self.stage = Stage::Inserting { note };
                UpsertAction::InsertNote { note: written }
            },
        }
    }

    /// Takes the outcome of the write by identity.
    pub fn saved(&mut self, outcome: Result<(), NoteError>) -> (a: UpsertAction)
        requires
            old(self).stage is Saving,
        ensures
            (*final(self), a) == old(self).on_saved(outcome),
    {
        let stage = self.take_stage();
        match (stage, outcome) {
            (Stage::Saving { note }, Ok(())) => self.complete(Ok(note)),
            (_, Err(e)) => self.complete(Err(e)),
            // Not reached: the precondition fixes the stage.
            _ => self.complete(Err(NoteError::StorageFailure)),
        }
    }

    /// Takes the outcome of the insert.
    pub fn inserted(&mut self, id: Result<i32, NoteError>) -> (a: UpsertAction)
        requires
            old(self).stage is Inserting,
        ensures
            (*final(self), a) == old(self).on_inserted(id),
    {
        let stage = self.take_stage();
        match (stage, id) {
            (Stage::Inserting { note }, Ok(id)) => self.complete(Ok(note.into_stored(id))),
            (_, Err(e)) => self.complete(Err(e)),
            // Not reached: the precondition fixes the stage.
            _ => self.complete(Err(NoteError::StorageFailure)),
        }
    }

    /// Takes an awaited event and returns the next action.
    pub fn step(&mut self, e: UpsertEvent) -> (a: UpsertAction)
        requires
            old(self).awaits(e),
        ensures
            (*final(self), a) == old(self).next(e),
    {
        match e {
            UpsertEvent::Found { rows } => self.found(rows),
            UpsertEvent::Retired { removed } => self.retired(removed),
            UpsertEvent::Indexed { reply } => {
                let handle = handle_from_reply(&reply);
                self.indexed(handle)
            },
            UpsertEvent::Saved { outcome } => self.saved(outcome),
            UpsertEvent::Inserted { id } => self.inserted(id),
        }
    }
}

} // verus!
