use vstd::prelude::*;
use crate::handle::{IndexError, handle_of_reply};
use crate::note::{NoteError, ObsidianFile, Timestamp};
use crate::repository::{has_name, id_at, ids_unique, lookup_by_id, lookup_by_name, name_shared, named_at};
use crate::upsert::{NoteUpsert, UpsertAction};

verus! {

/// What an upsert acts on: the note table, and the live entries of the
/// vector index by handle, each with the text it was made from.
pub struct World {
    pub rows: Seq<ObsidianFile>,
    pub live: Map<u128, Seq<char>>,
}

/// How the outside services answer during one upsert, when nothing else
/// touches the table or the index meanwhile.
pub struct Replies {
    /// The removal of the old entry succeeds.
    pub removed: bool,
    /// The index service's reply: the key of the new entry, or its failure.
    pub reply: Result<Seq<char>, IndexError>,
    /// Writes to the table succeed.
    pub stored: bool,
    /// The identity that the table gives an inserted record.
    pub next_id: i32,
}

/// The table after writing content, update time and handle of `note` into
/// the record with its identity.
pub open spec fn write_by_id(rows: Seq<ObsidianFile>, note: ObsidianFile) -> Seq<ObsidianFile> {
    rows.map_values(
        |r: ObsidianFile|
            if r.id == note.id {
                ObsidianFile {
                    content: note.content,
                    updated_at: note.updated_at,
                    embed_id: note.embed_id,
                    ..r
                }
            } else {
                r
            },
    )
}

/// The index after storing `text` under `handle`, if there is one.
pub open spec fn with_entry(live: Map<u128, Seq<char>>, handle: Option<u128>, text: Seq<char>) -> Map<
    u128,
    Seq<char>,
> {
    match handle {
        Some(h) => live.insert(h, text),
        None => live,
    }
}

/// The world performs action `a` and the upsert takes the outcome.
pub open spec fn answer(m: NoteUpsert, a: UpsertAction, w: World, rp: Replies) -> (
    NoteUpsert,
    UpsertAction,
    World,
) {
    match a {
        UpsertAction::FindByName { .. } => {
            let (m2, a2) = m.on_found(Ok(w.rows));
            (m2, a2, w)
        },
        UpsertAction::RemoveEntry { embed_id } => {
            let (m2, a2) = m.on_retired();
            let live = if rp.removed {
                w.live.remove(embed_id)
            } else {
                w.live
            };
            (m2, a2, World { live, ..w })
        },
        UpsertAction::IndexContent { content } => {
            let handle = handle_of_reply(rp.reply);
            let (m2, a2) = m.on_indexed(handle);
            (m2, a2, World { live: with_entry(w.live, handle, content@), ..w })
        },
        UpsertAction::UpdateNote { note } => if rp.stored {
            let (m2, a2) = m.on_saved(Ok(()));
            (m2, a2, World { rows: write_by_id(w.rows, note), ..w })
        } else {
            let (m2, a2) = m.on_saved(Err(NoteError::StorageFailure));
            (m2, a2, w)
        },
        UpsertAction::InsertNote { note } => if rp.stored {
            let (m2, a2) = m.on_inserted(Ok(rp.next_id));
            (m2, a2, World { rows: w.rows.push(note.stored_as(rp.next_id)), ..w })
        } else {
            let (m2, a2) = m.on_inserted(Err(NoteError::StorageFailure));
            (m2, a2, w)
        },
        UpsertAction::Complete { .. } => (m, a, w),
    }
}

/// The world and the outcome after a whole upsert of `content` under
/// `name` at time `now`. An upsert takes at most four operations.
pub open spec fn upsert_by_name(w: World, name: String, content: String, now: Timestamp, rp: Replies) -> (
    World,
    Result<ObsidianFile, NoteError>,
) {
    let m0 = NoteUpsert::initial(name, content, now);
    let (m1, a1, w1) = answer(m0, UpsertAction::FindByName { name }, w, rp);
    let (m2, a2, w2) = answer(m1, a1, w1, rp);
    let (m3, a3, w3) = answer(m2, a2, w2, rp);
    let (m4, a4, w4) = answer(m3, a3, w3, rp);
    match a4 {
        UpsertAction::Complete { result } => (w4, result),
        _ => (w4, Err(NoteError::StorageFailure)),
    }
}

/// No record of the table has identity `id`.
pub open spec fn id_unused(rows: Seq<ObsidianFile>, id: i32) -> bool {
    forall|i: int| 0 <= i < rows.len() ==> rows[i].id != id
}

/// The lookup that an upsert starts with finds one record, or none.
pub proof fn lemma_lookup_unique(rows: Seq<ObsidianFile>, name: Seq<char>)
    requires
        has_name(rows, name),
        !name_shared(rows, name),
    ensures
        lookup_by_name(rows, name) matches Ok(note) && exists|i: int|
            named_at(rows, name, i) && rows[i] == note,
{
    let i = choose|i: int| named_at(rows, name, i);
}

/// Where writes succeed and the name is not shared, an upsert succeeds, and
/// the record it returns holds the name, the new content and the upsert's
/// time as its update time.
pub proof fn lemma_upsert_succeeds(w: World, name: String, content: String, now: Timestamp, rp: Replies)
    requires
        rp.stored,
        !name_shared(w.rows, name@),
    ensures
        upsert_by_name(w, name, content, now, rp).1 matches Ok(r) && r.name@ == name@ && r.content
            == content && r.updated_at == now,
{
    if has_name(w.rows, name@) {
        lemma_lookup_unique(w.rows, name@);
    }
}

/// Content is durable whatever the index does: where the index service
/// fails, the upsert still succeeds, with the new content and no handle.
pub proof fn lemma_index_failure_keeps_content(
    w: World,
    name: String,
    content: String,
    now: Timestamp,
    rp: Replies,
)
    requires
        rp.stored,
        rp.reply is Err,
        !name_shared(w.rows, name@),
    ensures
        upsert_by_name(w, name, content, now, rp).1 matches Ok(r) && r.content == content
            && r.embed_id is None,
{
    if has_name(w.rows, name@) {
        lemma_lookup_unique(w.rows, name@);
    }
}

/// A name that several records share fails the upsert with `AmbiguousMatch`
/// and leaves the table and the index as they were.
pub proof fn lemma_ambiguous_name_fails_closed(
    w: World,
    name: String,
    content: String,
    now: Timestamp,
    rp: Replies,
)
    requires
        name_shared(w.rows, name@),
    ensures
        upsert_by_name(w, name, content, now, rp) == (w, Err::<ObsidianFile, NoteError>(
            NoteError::AmbiguousMatch,
        )),
{
}

/// Where no record has the name, the upsert inserts one, created and
/// updated at the same time, under the identity that the table gives it.
pub proof fn lemma_create_path(w: World, name: String, content: String, now: Timestamp, rp: Replies)
    requires
        rp.stored,
        !has_name(w.rows, name@),
    ensures
        ({
            let (w2, res) = upsert_by_name(w, name, content, now, rp);
            res matches Ok(r) && r.created_at == r.updated_at && r.created_at == now && r.id
                == rp.next_id && r.name == name && r.content == content && w2.rows == w.rows.push(r)
        }),
{
}

/// After an upsert, reading the returned identity yields the returned
/// record; identities stay unique and the name names exactly one record.
/// An insert gets an identity that no record has.
pub proof fn lemma_read_after_upsert(w: World, name: String, content: String, now: Timestamp, rp: Replies)
    requires
        rp.stored,
        !name_shared(w.rows, name@),
        ids_unique(w.rows),
        has_name(w.rows, name@) || id_unused(w.rows, rp.next_id),
    ensures
        ({
            let (w2, res) = upsert_by_name(w, name, content, now, rp);
            &&& res matches Ok(r) && lookup_by_id(w2.rows, r.id as int) == Ok::<
                ObsidianFile,
                NoteError,
            >(r)
            &&& ids_unique(w2.rows)
            &&& has_name(w2.rows, name@)
            &&& !name_shared(w2.rows, name@)
        }),
{
    let (w2, res) = upsert_by_name(w, name, content, now, rp);
    let r = res->Ok_0;
    if has_name(w.rows, name@) {
        lemma_lookup_unique(w.rows, name@);
        let i = choose|i: int| named_at(w.rows, name@, i);
        assert(w2.rows == write_by_id(w.rows, r));
        assert(w2.rows.len() == w.rows.len());
        assert(forall|j: int|
            0 <= j < w.rows.len() ==> #[trigger] w2.rows[j].id == w.rows[j].id && w2.rows[j].name
                == w.rows[j].name);
        assert(w2.rows[i] == r);
        assert(named_at(w2.rows, name@, i));
        assert(id_at(w2.rows, r.id as int, i));
        let k = choose|k: int| id_at(w2.rows, r.id as int, k);
        assert(w.rows[k].id == w.rows[i].id);
        assert(k == i);
        assert(forall|a: int, b: int|
            named_at(w2.rows, name@, a) && named_at(w2.rows, name@, b) ==> named_at(w.rows, name@, a)
                && named_at(w.rows, name@, b));
    } else {
        let n = w.rows.len() as int;
        assert(w2.rows == w.rows.push(r));
        assert(w2.rows[n] == r);
        assert(named_at(w2.rows, name@, n));
        assert(id_at(w2.rows, r.id as int, n));
        let k = choose|k: int| id_at(w2.rows, r.id as int, k);
        assert(k == n);
        assert forall|a: int| named_at(w2.rows, name@, a) implies a == n by {
            if a < n {
                assert(w2.rows[a] == w.rows[a]);
                assert(named_at(w.rows, name@, a));
            }
        }
    }
}

/// Two upserts of the same content under one name return the same record
/// with the same content; its update time is that of each upsert, so it
/// advances with the clock.
pub proof fn lemma_idempotent_content(
    w: World,
    name: String,
    content: String,
    now1: Timestamp,
    now2: Timestamp,
    rp1: Replies,
    rp2: Replies,
)
    requires
        rp1.stored,
        rp2.stored,
        !name_shared(w.rows, name@),
        ids_unique(w.rows),
        id_unused(w.rows, rp1.next_id),
    ensures
        ({
            let (w1, res1) = upsert_by_name(w, name, content, now1, rp1);
            let (w2, res2) = upsert_by_name(w1, name, content, now2, rp2);
            &&& res1 matches Ok(r1)
            &&& res2 matches Ok(r2)
            &&& r1.content == r2.content
            &&& r1.id == r2.id
            &&& r1.updated_at == now1
            &&& r2.updated_at == now2
            &&& now1.micros < now2.micros ==> r1.updated_at.micros < r2.updated_at.micros
        }),
{
    let (w1, res1) = upsert_by_name(w, name, content, now1, rp1);
    lemma_read_after_upsert(w, name, content, now1, rp1);
    lemma_upsert_succeeds(w1, name, content, now2, rp2);
    lemma_same_record(w1, name, content, now2, rp2, res1->Ok_0);
}

/// Where the table holds exactly one record with the name, an upsert
/// returns that record's identity.
proof fn lemma_same_record(
    w: World,
    name: String,
    content: String,
    now: Timestamp,
    rp: Replies,
    prior: ObsidianFile,
)
    requires
        rp.stored,
        has_name(w.rows, name@),
        !name_shared(w.rows, name@),
        lookup_by_id(w.rows, prior.id as int) == Ok::<ObsidianFile, NoteError>(prior),
        prior.name@ == name@,
    ensures
        upsert_by_name(w, name, content, now, rp).1 matches Ok(r) && r.id == prior.id,
{
    lemma_lookup_unique(w.rows, name@);
    let k = choose|k: int| id_at(w.rows, prior.id as int, k);
    assert(named_at(w.rows, name@, k));
}

/// After upserting `first` and then `second` under one name, reading the
/// returned identity yields `second`.
pub proof fn lemma_latest_content_read(
    w: World,
    name: String,
    first: String,
    second: String,
    now1: Timestamp,
    now2: Timestamp,
    rp1: Replies,
    rp2: Replies,
)
    requires
        rp1.stored,
        rp2.stored,
        !name_shared(w.rows, name@),
        ids_unique(w.rows),
        id_unused(w.rows, rp1.next_id),
    ensures
        ({
            let (w1, res1) = upsert_by_name(w, name, first, now1, rp1);
            let (w2, res2) = upsert_by_name(w1, name, second, now2, rp2);
            &&& res1 matches Ok(r1)
            &&& res2 matches Ok(r2)
            &&& r2.id == r1.id
            &&& lookup_by_id(w2.rows, r2.id as int) matches Ok(n) && n.content == second
        }),
{
    let (w1, res1) = upsert_by_name(w, name, first, now1, rp1);
    lemma_read_after_upsert(w, name, first, now1, rp1);
    lemma_upsert_succeeds(w1, name, second, now2, rp2);
    lemma_same_record(w1, name, second, now2, rp2, res1->Ok_0);
    lemma_read_after_upsert(w1, name, second, now2, rp2);
}

/// The handle that the index gives is fresh: no live entry and no record
/// holds it yet.
pub open spec fn handle_fresh(w: World, handle: Option<u128>) -> bool {
    handle matches Some(h) ==> !w.live.contains_key(h) && forall|i: int|
        0 <= i < w.rows.len() ==> w.rows[i].embed_id != Some(h)
}

/// After an upsert, the record holds the handle of the new entry when
/// indexing succeeded and none when it failed; that entry holds the new
/// content; the entry of the previous content, once removed, is no longer
/// live, and is never the record's handle.
pub proof fn lemma_one_live_handle(w: World, name: String, content: String, now: Timestamp, rp: Replies)
    requires
        rp.stored,
        !name_shared(w.rows, name@),
        handle_fresh(w, handle_of_reply(rp.reply)),
    ensures
        ({
            let (w2, res) = upsert_by_name(w, name, content, now, rp);
            &&& res matches Ok(r)
            &&& r.embed_id == handle_of_reply(rp.reply)
            &&& r.embed_id matches Some(h) ==> w2.live.contains_key(h) && w2.live[h] == content@
            &&& lookup_by_name(w.rows, name@) matches Ok(prior) ==> (prior.embed_id matches Some(
                old_h) ==> r.embed_id != Some(old_h) && (rp.removed ==> !w2.live.contains_key(
                old_h)))
        }),
{
    if has_name(w.rows, name@) {
        lemma_lookup_unique(w.rows, name@);
    }
}

} // verus!
