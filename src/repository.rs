use vstd::prelude::*;
use crate::note::{NoteError, ObsidianFile};

verus! {

/// Row `i` of `rows` carries the name `name`.
pub open spec fn named_at(rows: Seq<ObsidianFile>, name: Seq<char>, i: int) -> bool {
    0 <= i < rows.len() && rows[i].name@ == name
}

/// Some row carries the name.
pub open spec fn has_name(rows: Seq<ObsidianFile>, name: Seq<char>) -> bool {
    exists|i: int| named_at(rows, name, i)
}

/// Two distinct rows carry the name.
pub open spec fn name_shared(rows: Seq<ObsidianFile>, name: Seq<char>) -> bool {
    exists|i: int, j: int| named_at(rows, name, i) && named_at(rows, name, j) && i != j
}

/// What a lookup by name yields: the one record with that name, `NotFound`
/// when there is none, `AmbiguousMatch` when there are several.
pub open spec fn lookup_by_name(rows: Seq<ObsidianFile>, name: Seq<char>) -> Result<
    ObsidianFile,
    NoteError,
> {
    if !has_name(rows, name) {
        Err(NoteError::NotFound)
    } else if name_shared(rows, name) {
        Err(NoteError::AmbiguousMatch)
    } else {
        Ok(rows[choose|i: int| named_at(rows, name, i)])
    }
}

/// Row `i` of `rows` has identity `id`.
pub open spec fn id_at(rows: Seq<ObsidianFile>, id: int, i: int) -> bool {
    0 <= i < rows.len() && rows[i].id == id
}

/// No two rows share an identity.
pub open spec fn ids_unique(rows: Seq<ObsidianFile>) -> bool {
    forall|i: int, j: int|
        #![trigger rows[i].id, rows[j].id]
        0 <= i < rows.len() && 0 <= j < rows.len() && rows[i].id == rows[j].id ==> i == j
}

/// What a lookup by identity yields: the record with that identity, or
/// `NotFound`.
pub open spec fn lookup_by_id(rows: Seq<ObsidianFile>, id: int) -> Result<ObsidianFile, NoteError> {
    if exists|i: int| id_at(rows, id, i) {
        Ok(rows[choose|i: int| id_at(rows, id, i)])
    } else {
        Err(NoteError::NotFound)
    }
}

/// Resolves a lookup by name over the rows that the store returned for it.
pub fn find_by_name(rows: &Vec<ObsidianFile>, name: &String) -> (r: Result<ObsidianFile, NoteError>)
    ensures
        r == lookup_by_name(rows@, name@),
{
    let mut found: Option<usize> = None;
    let mut i: usize = 0;
    while i < rows.len()
        invariant
            i <= rows.len(),
            found is None ==> forall|k: int| 0 <= k < i ==> !named_at(rows@, name@, k),
            found matches Some(f) ==> f < i && named_at(rows@, name@, f as int) && forall|k: int|
                0 <= k < i && k != f ==> !named_at(rows@, name@, k),
        decreases rows.len() - i,
    {
        if rows[i].name == *name {
            match found {
                Some(f) => {
                    assert(named_at(rows@, name@, f as int) && named_at(rows@, name@, i as int));
                    assert(name_shared(rows@, name@));
                    return Err(NoteError::AmbiguousMatch);
                },
                None => {
                    found = Some(i);
                },
            }
        }
        i = i + 1;
    }
    match found {
        None => Err(NoteError::NotFound),
        Some(f) => {
            assert(named_at(rows@, name@, f as int));
            assert(!name_shared(rows@, name@));
            let ghost k = choose|k: int| named_at(rows@, name@, k);
            assert(k == f);
            Ok(rows[f].duplicate())
        },
    }
}

/// Reads the record with identity `file_id` out of the rows that the store
/// returned for it.
pub fn get_obsidian_file_by_id(rows: &Vec<ObsidianFile>, file_id: i32) -> (r: Result<
    ObsidianFile,
    NoteError,
>)
    requires
        ids_unique(rows@),
    ensures
        r == lookup_by_id(rows@, file_id as int),
{
    let mut i: usize = 0;
    while i < rows.len()
        invariant
            i <= rows.len(),
            ids_unique(rows@),
            forall|k: int| 0 <= k < i ==> !id_at(rows@, file_id as int, k),
        decreases rows.len() - i,
    {
        if rows[i].id == file_id {
            assert(id_at(rows@, file_id as int, i as int));
            let ghost k = choose|k: int| id_at(rows@, file_id as int, k);
            assert(rows@[k].id == rows@[i as int].id);
            assert(k == i);
            return Ok(rows[i].duplicate());
        }
        i = i + 1;
    }
    Err(NoteError::NotFound)
}

} // verus!
