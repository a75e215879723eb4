use obsidian_notes::handle::{handle_from_reply, IndexError};
use obsidian_notes::note::{NoteError, ObsidianFile, Timestamp};
use obsidian_notes::repository::{find_by_name, get_obsidian_file_by_id};
use obsidian_notes::upsert::{NoteUpsert, Stage, UpsertAction, UpsertEvent};

const KEY_A: &str = "67e55044-10b1-426f-9247-bb680e5fe0c8";
const KEY_B: &str = "a1a2a3a4-b1b2-c1c2-d1d2-d3d4d5d6d7d8";

/// A table and an index that answer the upsert's actions in memory.
struct Memory {
    rows: Vec<ObsidianFile>,
    live: Vec<u128>,
    keys: Vec<Result<String, IndexError>>,
    fail_removal: bool,
    fail_writes: bool,
    removals: Vec<u128>,
}

impl Memory {
    fn new() -> Memory {
        Memory {
            rows: Vec::new(),
            live: Vec::new(),
            keys: Vec::new(),
            fail_removal: false,
            fail_writes: false,
            removals: Vec::new(),
        }
    }

    fn next_key(&mut self) -> Result<String, IndexError> {
        if self.keys.is_empty() {
            Err(IndexError::IndexUnavailable)
        } else {
            self.keys.remove(0)
        }
    }

    fn upsert(&mut self, name: &str, content: &str, micros: i64) -> Result<ObsidianFile, NoteError> {
        let (mut up, mut action) =
            NoteUpsert::new(name.to_string(), content.to_string(), Timestamp { micros });
        loop {
            let event = match action {
                UpsertAction::FindByName { name } => UpsertEvent::Found {
                    rows: Ok(self.rows.iter().filter(|r| r.name == name).cloned().collect()),
                },
                UpsertAction::RemoveEntry { embed_id } => {
                    self.removals.push(embed_id);
                    if !self.fail_removal {
                        self.live.retain(|h| *h != embed_id);
                    }
                    UpsertEvent::Retired { removed: !self.fail_removal }
                }
                UpsertAction::IndexContent { .. } => {
                    let reply = self.next_key();
                    if let Ok(key) = &reply {
                        self.live.push(uuid::Uuid::parse_str(key).unwrap().as_u128());
                    }
                    UpsertEvent::Indexed { reply }
                }
                UpsertAction::UpdateNote { note } => {
                    if self.fail_writes {
                        UpsertEvent::Saved { outcome: Err(NoteError::StorageFailure) }
                    } else {
                        let row = self.rows.iter_mut().find(|r| r.id == note.id).unwrap();
                        row.content = note.content;
                        row.updated_at = note.updated_at;
                        row.embed_id = note.embed_id;
                        UpsertEvent::Saved { outcome: Ok(()) }
                    }
                }
                UpsertAction::InsertNote { note } => {
                    if self.fail_writes {
                        UpsertEvent::Inserted { id: Err(NoteError::StorageFailure) }
                    } else {
                        let id = self.rows.len() as i32 + 1;
                        self.rows.push(note.into_stored(id));
                        UpsertEvent::Inserted { id: Ok(id) }
                    }
                }
                UpsertAction::Complete { result } => return result,
            };
            assert!(up.is_awaited(&event));
            action = up.step(event);
        }
    }

    fn get(&self, id: i32) -> Result<ObsidianFile, NoteError> {
        let rows: Vec<ObsidianFile> = self.rows.iter().filter(|r| r.id == id).cloned().collect();
        get_obsidian_file_by_id(&rows, id)
    }
}

fn row(id: i32, name: &str, content: &str, embed_id: Option<u128>) -> ObsidianFile {
    ObsidianFile {
        id,
        name: name.to_string(),
        content: content.to_string(),
        created_at: Timestamp { micros: 10 },
        updated_at: Timestamp { micros: 10 },
        embed_id,
    }
}

#[test]
fn create_then_read() {
    let mut m = Memory::new();
    m.keys.push(Ok(KEY_A.to_string()));
    let r = m.upsert("n", "hello", 100).unwrap();
    let back = m.get(r.id).unwrap();
    assert_eq!(back.content, "hello");
    assert_eq!(back.name, "n");
}

#[test]
fn update_then_read_reflects_latest_content() {
    let mut m = Memory::new();
    m.keys.push(Ok(KEY_A.to_string()));
    m.keys.push(Ok(KEY_B.to_string()));
    let first = m.upsert("n", "a", 100).unwrap();
    let second = m.upsert("n", "b", 200).unwrap();
    assert_eq!(first.id, second.id);
    let back = m.get(second.id).unwrap();
    assert_eq!(back.content, "b");
    assert_eq!(m.rows.len(), 1);
}

#[test]
fn ambiguous_name_fails_closed() {
    let mut m = Memory::new();
    m.rows.push(row(1, "dup", "one", None));
    m.rows.push(row(2, "dup", "two", None));
    m.keys.push(Ok(KEY_A.to_string()));
    assert_eq!(m.upsert("dup", "x", 100).unwrap_err(), NoteError::AmbiguousMatch);
    assert_eq!(m.rows[0].content, "one");
    assert_eq!(m.rows[1].content, "two");
    assert_eq!(m.rows[0].updated_at, Timestamp { micros: 10 });
    assert!(m.live.is_empty());
    assert_eq!(m.keys.len(), 1);
}

#[test]
fn not_found_creates_with_equal_times() {
    let mut m = Memory::new();
    m.rows.push(row(1, "other", "o", None));
    m.keys.push(Ok(KEY_A.to_string()));
    let r = m.upsert("new-name", "x", 500).unwrap();
    assert_eq!(r.created_at, r.updated_at);
    assert_eq!(r.created_at, Timestamp { micros: 500 });
    assert_eq!(r.id, 2);
    assert_eq!(r.content, "x");
    assert_eq!(m.rows.len(), 2);
}

#[test]
fn index_failure_keeps_content() {
    let mut m = Memory::new();
    m.keys.push(Err(IndexError::IndexUnavailable));
    let created = m.upsert("n", "first", 100).unwrap();
    assert_eq!(created.embed_id, None);
    assert_eq!(created.content, "first");
    m.keys.push(Err(IndexError::IndexRejected));
    let updated = m.upsert("n", "second", 200).unwrap();
    assert_eq!(updated.embed_id, None);
    assert_eq!(updated.content, "second");
    assert_eq!(m.get(updated.id).unwrap().content, "second");
}

#[test]
fn same_content_twice_keeps_content_and_advances_time() {
    let mut m = Memory::new();
    m.keys.push(Ok(KEY_A.to_string()));
    m.keys.push(Ok(KEY_B.to_string()));
    let first = m.upsert("n", "same", 100).unwrap();
    let second = m.upsert("n", "same", 300).unwrap();
    assert_eq!(first.content, second.content);
    assert!(second.updated_at.micros > first.updated_at.micros);
    assert_eq!(second.created_at, first.created_at);
    assert_ne!(first.embed_id, second.embed_id);
}

#[test]
fn one_live_handle_after_reindex() {
    let mut m = Memory::new();
    m.keys.push(Ok(KEY_A.to_string()));
    m.keys.push(Ok(KEY_B.to_string()));
    let first = m.upsert("n", "a", 100).unwrap();
    let old = first.embed_id.unwrap();
    let second = m.upsert("n", "b", 200).unwrap();
    assert_eq!(m.removals, vec![old]);
    assert_eq!(m.live, vec![second.embed_id.unwrap()]);
    assert_eq!(second.embed_id, Some(0xa1a2a3a4_b1b2_c1c2_d1d2_d3d4d5d6d7d8));
}

#[test]
fn failed_removal_still_updates() {
    let mut m = Memory::new();
    m.keys.push(Ok(KEY_A.to_string()));
    m.keys.push(Ok(KEY_B.to_string()));
    m.upsert("n", "a", 100).unwrap();
    m.fail_removal = true;
    let second = m.upsert("n", "b", 200).unwrap();
    assert_eq!(second.content, "b");
    assert_eq!(second.embed_id, Some(0xa1a2a3a4_b1b2_c1c2_d1d2_d3d4d5d6d7d8));
    assert_eq!(m.live.len(), 2);
}

#[test]
fn storage_failure_on_update_propagates() {
    let mut m = Memory::new();
    m.keys.push(Ok(KEY_A.to_string()));
    m.upsert("n", "a", 100).unwrap();
    m.fail_writes = true;
    assert_eq!(m.upsert("n", "b", 200).unwrap_err(), NoteError::StorageFailure);
    assert_eq!(m.rows[0].content, "a");
}

#[test]
fn storage_failure_on_insert_propagates() {
    let mut m = Memory::new();
    m.fail_writes = true;
    assert_eq!(m.upsert("n", "a", 100).unwrap_err(), NoteError::StorageFailure);
    assert!(m.rows.is_empty());
}

#[test]
fn lookup_failure_ends_upsert() {
    let (mut up, _) = NoteUpsert::new("n".to_string(), "c".to_string(), Timestamp { micros: 1 });
    let action = up.step(UpsertEvent::Found { rows: Err(NoteError::StorageFailure) });
    match action {
        UpsertAction::Complete { result } => assert_eq!(result.unwrap_err(), NoteError::StorageFailure),
        other => panic!("unexpected action {:?}", other),
    }
    assert!(matches!(up.stage, Stage::Finished));
}

#[test]
fn existing_note_without_handle_skips_removal() {
    let (mut up, first) = NoteUpsert::new("n".to_string(), "c".to_string(), Timestamp { micros: 1 });
    assert!(matches!(first, UpsertAction::FindByName { ref name } if name == "n"));
    let action = up.step(UpsertEvent::Found { rows: Ok(vec![row(7, "n", "old", None)]) });
    assert!(matches!(action, UpsertAction::IndexContent { ref content } if content == "c"));
    assert!(!up.is_awaited(&UpsertEvent::Retired { removed: true }));
    let action = up.step(UpsertEvent::Indexed { reply: Ok(KEY_A.to_string()) });
    match action {
        UpsertAction::UpdateNote { note } => {
            assert_eq!(note.id, 7);
            assert_eq!(note.content, "c");
            assert_eq!(note.created_at, Timestamp { micros: 10 });
            assert_eq!(note.updated_at, Timestamp { micros: 1 });
            assert_eq!(note.embed_id, Some(0x67e55044_10b1_426f_9247_bb680e5fe0c8));
        }
        other => panic!("unexpected action {:?}", other),
    }
}

#[test]
fn find_by_name_cases() {
    let rows = vec![row(1, "a", "x", None), row(2, "b", "y", None), row(3, "a", "z", None)];
    assert_eq!(find_by_name(&rows, &"b".to_string()).unwrap().id, 2);
    assert_eq!(find_by_name(&rows, &"a".to_string()).unwrap_err(), NoteError::AmbiguousMatch);
    assert_eq!(find_by_name(&rows, &"c".to_string()).unwrap_err(), NoteError::NotFound);
    assert_eq!(find_by_name(&Vec::new(), &"a".to_string()).unwrap_err(), NoteError::NotFound);
}

#[test]
fn get_by_id_cases() {
    let rows = vec![row(1, "a", "x", None), row(4, "b", "y", Some(9))];
    let found = get_obsidian_file_by_id(&rows, 4).unwrap();
    assert_eq!(found.name, "b");
    assert_eq!(found.embed_id, Some(9));
    assert_eq!(get_obsidian_file_by_id(&rows, 2).unwrap_err(), NoteError::NotFound);
}

#[test]
fn handle_from_reply_parses_uuid_keys() {
    assert_eq!(
        handle_from_reply(&Ok(KEY_A.to_string())),
        Some(0x67e55044_10b1_426f_9247_bb680e5fe0c8)
    );
    assert_eq!(
        handle_from_reply(&Ok("67e5504410b1426f9247bb680e5fe0c8".to_string())),
        Some(0x67e55044_10b1_426f_9247_bb680e5fe0c8)
    );
    assert_eq!(handle_from_reply(&Ok("not-a-uuid".to_string())), None);
    assert_eq!(handle_from_reply(&Ok(String::new())), None);
    assert_eq!(handle_from_reply(&Err(IndexError::IndexRejected)), None);
}

#[test]
fn unparsable_key_leaves_no_handle() {
    let (mut up, _) = NoteUpsert::new("n".to_string(), "b".to_string(), Timestamp { micros: 5 });
    up.step(UpsertEvent::Found { rows: Ok(vec![row(1, "n", "a", None)]) });
    let action = up.step(UpsertEvent::Indexed { reply: Ok("garbage".to_string()) });
    match action {
        UpsertAction::UpdateNote { note } => assert_eq!(note.embed_id, None),
        other => panic!("unexpected action {:?}", other),
    }
}
