//! Use case: save clipboard content.
//!
//! Pipeline: classification (type and metadata, done by the caller) → hash →
//! dedupe → insert, or count one more copy. The steps that touch the
//! repository are the caller's; this module decides each of them.

use std::sync::Arc;
use vstd::prelude::*;
use crate::domain::errors::DomainError;
use crate::domain::ids::Uuid;
use crate::domain::models::{ClipMetadata, ClipboardEntry, ContentType, ContentTypeView};
use crate::domain::value_objects::{content_hash_of, ContentHash};
use crate::text::{trim, trimmed};

verus! {

/// The message of the error for content that is empty once trimmed.
pub const EMPTY_CLIPBOARD_MESSAGE: &'static str = "el portapapeles está vacío";

/// The result of saving a clip: a new entry, or the existing duplicate with
/// its copy counted.
#[derive(Debug, Clone, PartialEq, Eq)]
pub enum SaveOutcome {
    Created(ClipboardEntry),
    Duplicate(ClipboardEntry),
}

/// Content ready to be looked up: trimmed, non-empty, and its hash.
#[derive(Debug, Clone)]
pub struct PreparedClip {
    pub content: String,
    pub hash: String,
}

/// The write that a save asks of the repository.
#[derive(Debug, Clone)]
pub enum SaveWrite {
    /// Insert the entry of `SaveOutcome::Created`.
    Insert,
    /// Count one more copy of the clip `id` at the time `now`.
    RecordCopy { id: Uuid, now: String },
}

/// Use case: save clipboard content into a repository of clips.
pub struct SaveClip<Repo> {
    repo: Arc<Repo>,
}

impl<Repo> SaveClip<Repo> {
    /// The repository that the use case works on.
    pub closed spec fn repository(&self) -> Arc<Repo> {
        self.repo
    }

    /// The use case on the repository `repo`.
    pub fn new(repo: Arc<Repo>) -> (s: SaveClip<Repo>)
        ensures
            s.repository() == repo,
    {
        SaveClip { repo }
    }

    /// The repository that the use case works on.
    pub fn repo(&self) -> (r: &Arc<Repo>)
        ensures
            *r == self.repository(),
    {
        &self.repo
    }

    /// First step: trims the content and hashes it. Content that is empty
    /// once trimmed is refused.
    pub fn prepare(&self, content: &str) -> (r: Result<PreparedClip, DomainError>)
        ensures
            r is Ok <==> trimmed(content@).len() > 0,
            r matches Ok(p) ==> p.content@ == trimmed(content@) && p.hash@ == content_hash_of(
                trimmed(content@),
            ),
            r matches Err(e) ==> e matches DomainError::InvalidContent(m) && m@
                == EMPTY_CLIPBOARD_MESSAGE@,
    {
        let content = trim(content);
        if content.is_empty() {
            return Err(DomainError::InvalidContent(String::from_str(EMPTY_CLIPBOARD_MESSAGE)));
        }
        let hash = ContentHash::compute(content).into_string();
        Ok(PreparedClip { content: String::from_str(content), hash })
    }

    /// Second step, once the repository has been asked for an entry with
    /// the same hash: a duplicate counts one more copy; otherwise a new entry
    /// is created, copied once, with the given id, type, metadata and
    /// workspace, and `now` as all of its timestamps.
    pub fn resolve(
        &self,
        prepared: PreparedClip,
        existing: Option<ClipboardEntry>,
        now: &str,
        new_id: Uuid,
        content_type: ContentType,
        metadata: ClipMetadata,
        workspace_id: Option<Uuid>,
    ) -> (r: (SaveOutcome, SaveWrite))
        requires
            existing matches Some(e) ==> e.copy_count < i64::MAX,
        ensures
            save_decision(
                prepared.content@,
                prepared.hash@,
                existing,
                now@,
                new_id,
                content_type@,
                metadata,
                workspace_id,
                r,
            ),
    {
        match existing {
            Some(existing) => {
                let mut updated = existing;
                updated.record_copy(now);
                let id = updated.id;
                (SaveOutcome::Duplicate(updated), SaveWrite::RecordCopy { id, now: String::from_str(now) })
            },
            None => {
                let entry = ClipboardEntry {
                    id: new_id,
                    created_at: String::from_str(now),
                    updated_at: String::from_str(now),
                    last_copied_at: String::from_str(now),
                    content_hash: prepared.hash,
                    content_type,
                    metadata,
                    workspace_id,
                    copy_count: 1,
                    favorite: false,
                    pinned: false,
                    is_secret: false,
                    is_image: false,
                    image_path: None,
                    content: prepared.content,
                };
                (SaveOutcome::Created(entry), SaveWrite::Insert)
            },
        }
    }
}

/// What a save decides, given the trimmed content, its hash and the
/// repository's answer to the lookup by that hash. An existing clip is
/// counted once more at the time `now`, and the repository is asked to record
/// that copy; otherwise a new clip is created from the content, the hash and
/// the caller's id, type, metadata and workspace, copied once, with `now` as
/// all of its timestamps, and the repository is asked to insert it.
pub open spec fn save_decision(
    content: Seq<char>,
    hash: Seq<char>,
    existing: Option<ClipboardEntry>,
    now: Seq<char>,
    new_id: Uuid,
    content_type: ContentTypeView,
    metadata: ClipMetadata,
    workspace_id: Option<Uuid>,
    r: (SaveOutcome, SaveWrite),
) -> bool {
    match existing {
        Some(e) => {
            &&& r.0 matches SaveOutcome::Duplicate(d)
            &&& d.is_copy_of(e, now)
            &&& r.1 matches SaveWrite::RecordCopy { id, now: at }
            &&& id == e.id
            &&& at@ == now
        },
        None => {
            &&& r.0 matches SaveOutcome::Created(c)
            &&& c.id == new_id
            &&& c.content@ == content
            &&& c.content_hash@ == hash
            &&& c.content_type@ == content_type
            &&& c.metadata == metadata
            &&& c.workspace_id == workspace_id
            &&& c.copy_count == 1
            &&& !c.favorite
            &&& !c.pinned
            &&& !c.is_secret
            &&& !c.is_image
            &&& c.image_path is None
            &&& c.created_at@ == now
            &&& c.updated_at@ == now
            &&& c.last_copied_at@ == now
            &&& r.1 is Insert
        },
    }
}

/// The clip that a save returns, new or counted.
pub open spec fn saved_entry(outcome: SaveOutcome) -> ClipboardEntry {
    match outcome {
        SaveOutcome::Created(e) => e,
        SaveOutcome::Duplicate(e) => e,
    }
}

/// `found` is an answer that the clips `store` give to a lookup by `hash`:
/// nothing when no clip has that hash, otherwise one of the clips that have it.
pub open spec fn found_by_hash(
    store: Seq<ClipboardEntry>,
    hash: Seq<char>,
    found: Option<ClipboardEntry>,
) -> bool {
    match found {
        None => forall|i: int| 0 <= i < store.len() ==> #[trigger] store[i].content_hash@ != hash,
        Some(e) => exists|i: int| 0 <= i < store.len() && #[trigger] store[i] == e && e.content_hash@ == hash,
    }
}

/// No two clips of `store` have the same hash.
pub open spec fn hashes_unique(store: Seq<ClipboardEntry>) -> bool {
    forall|i: int, j: int|
        0 <= i < store.len() && 0 <= j < store.len() && i != j ==> #[trigger] store[i].content_hash@
            != #[trigger] store[j].content_hash@
}

/// The clips `after` are the clips `before` once the repository has performed
/// the write of the save `r`: the new clip appended, or one more copy counted
/// of each clip with the recorded id, the others left as they were.
pub open spec fn store_after_save(
    before: Seq<ClipboardEntry>,
    r: (SaveOutcome, SaveWrite),
    after: Seq<ClipboardEntry>,
) -> bool {
    match r.1 {
        SaveWrite::Insert => r.0 matches SaveOutcome::Created(c) && after == before.push(c),
        SaveWrite::RecordCopy { id, now } => {
            &&& after.len() == before.len()
            &&& forall|i: int|
                #![trigger after[i]]
                0 <= i < before.len() ==> if before[i].id == id {
                    after[i].is_copy_of(before[i], now@)
                } else {
                    after[i] == before[i]
                }
        },
    }
}

/// A save keeps the hashes of a store distinct: it adds a clip only when no
/// clip has its hash, and counting a copy changes no hash.
pub proof fn law_save_keeps_hashes_unique(
    store: Seq<ClipboardEntry>,
    content: Seq<char>,
    found: Option<ClipboardEntry>,
    now: Seq<char>,
    new_id: Uuid,
    content_type: ContentTypeView,
    metadata: ClipMetadata,
    workspace_id: Option<Uuid>,
    r: (SaveOutcome, SaveWrite),
    after: Seq<ClipboardEntry>,
)
    requires
        hashes_unique(store),
        found_by_hash(store, content_hash_of(content), found),
        save_decision(
            content,
            content_hash_of(content),
            found,
            now,
            new_id,
            content_type,
            metadata,
            workspace_id,
            r,
        ),
        store_after_save(store, r, after),
    ensures
        hashes_unique(after),
{
    match found {
        None => {
            let c = saved_entry(r.0);
            assert(after == store.push(c));
            assert forall|i: int, j: int|
                0 <= i < after.len() && 0 <= j < after.len() && i != j implies #[trigger] after[i].content_hash@
                    != #[trigger] after[j].content_hash@ by {
                if i == store.len() {
                    assert(store[j].content_hash@ != content_hash_of(content));
                } else if j == store.len() {
                    assert(store[i].content_hash@ != content_hash_of(content));
                } else {
                    assert(after[i] == store[i] && after[j] == store[j]);
                }
            }
        },
        Some(x) => {
            assert forall|i: int| 0 <= i < after.len() implies #[trigger] after[i].content_hash@
                == store[i].content_hash@ by {
                assert(after[i].content_hash@ == store[i].content_hash@);
            }
            assert forall|i: int, j: int|
                0 <= i < after.len() && 0 <= j < after.len() && i != j implies #[trigger] after[i].content_hash@
                    != #[trigger] after[j].content_hash@ by {
                assert(after[i].content_hash@ == store[i].content_hash@);
                assert(after[j].content_hash@ == store[j].content_hash@);
            }
        },
    }
}

/// A save that finds no clip with the content's hash adds exactly one clip
/// to the store, and that clip is what the caller classified: the trimmed
/// content and its hash, the caller's id, type, metadata and workspace,
/// copied once at the time `now`, and neither favourite, pinned, secret nor
/// an image.
pub proof fn law_new_clip_is_what_the_caller_classified(
    store: Seq<ClipboardEntry>,
    content: Seq<char>,
    now: Seq<char>,
    new_id: Uuid,
    content_type: ContentTypeView,
    metadata: ClipMetadata,
    workspace_id: Option<Uuid>,
    r: (SaveOutcome, SaveWrite),
    after: Seq<ClipboardEntry>,
)
    requires
        found_by_hash(store, content_hash_of(content), None),
        save_decision(
            content,
            content_hash_of(content),
            None,
            now,
            new_id,
            content_type,
            metadata,
            workspace_id,
            r,
        ),
        store_after_save(store, r, after),
    ensures
        r.0 is Created,
        after.len() == store.len() + 1,
        after.subrange(0, store.len() as int) == store,
        after[store.len() as int] == saved_entry(r.0),
        saved_entry(r.0).content@ == content,
        saved_entry(r.0).content_hash@ == content_hash_of(content),
        saved_entry(r.0).id == new_id,
        saved_entry(r.0).content_type@ == content_type,
        saved_entry(r.0).metadata == metadata,
        saved_entry(r.0).workspace_id == workspace_id,
        saved_entry(r.0).copy_count == 1,
        !saved_entry(r.0).favorite,
        !saved_entry(r.0).pinned,
        !saved_entry(r.0).is_secret,
        !saved_entry(r.0).is_image,
        saved_entry(r.0).image_path is None,
        saved_entry(r.0).created_at@ == now,
        saved_entry(r.0).updated_at@ == now,
        saved_entry(r.0).last_copied_at@ == now,
{
    assert(after.subrange(0, store.len() as int) =~= store);
}

/// A save that finds a clip with the content's hash creates nothing: it
/// returns that clip with one more copy counted at the time `now` (same id,
/// content, hash, type, metadata, workspace, flags and creation time), and
/// the store keeps its size, that clip counted once more and every other
/// clip as it was.
pub proof fn law_found_clip_is_counted_once_more(
    store: Seq<ClipboardEntry>,
    content: Seq<char>,
    found: ClipboardEntry,
    now: Seq<char>,
    new_id: Uuid,
    content_type: ContentTypeView,
    metadata: ClipMetadata,
    workspace_id: Option<Uuid>,
    r: (SaveOutcome, SaveWrite),
    after: Seq<ClipboardEntry>,
)
    requires
        hashes_unique(store),
        found_by_hash(store, content_hash_of(content), Some(found)),
        save_decision(
            content,
            content_hash_of(content),
            Some(found),
            now,
            new_id,
            content_type,
            metadata,
            workspace_id,
            r,
        ),
        store_after_save(store, r, after),
    ensures
        r.0 is Duplicate,
        saved_entry(r.0).id == found.id,
        saved_entry(r.0).content@ == found.content@,
        saved_entry(r.0).content_hash@ == found.content_hash@,
        saved_entry(r.0).content_type@ == found.content_type@,
        saved_entry(r.0).metadata == found.metadata,
        saved_entry(r.0).workspace_id == found.workspace_id,
        saved_entry(r.0).favorite == found.favorite,
        saved_entry(r.0).pinned == found.pinned,
        saved_entry(r.0).is_secret == found.is_secret,
        saved_entry(r.0).created_at@ == found.created_at@,
        saved_entry(r.0).copy_count == found.copy_count + 1,
        saved_entry(r.0).last_copied_at@ == now,
        saved_entry(r.0).updated_at@ == now,
        after.len() == store.len(),
        forall|i: int|
            0 <= i < store.len() && store[i].content_hash@ == content_hash_of(content) ==> #[trigger] store[i]
                == found,
        forall|i: int| 0 <= i < store.len() && store[i].id != found.id ==> #[trigger] after[i] == store[i],
        forall|i: int|
            0 <= i < store.len() && store[i].id == found.id ==> {
                &&& (#[trigger] after[i]).id == found.id
                &&& after[i].content_hash@ == store[i].content_hash@
                &&& after[i].copy_count == store[i].copy_count + 1
                &&& after[i].last_copied_at@ == now
            },
{
    let k = choose|i: int| 0 <= i < store.len() && #[trigger] store[i] == found && found.content_hash@ == content_hash_of(content);
    assert forall|i: int|
        0 <= i < store.len() && store[i].content_hash@ == content_hash_of(content) implies #[trigger] store[i]
            == found by {
        if i != k {
            assert(store[i].content_hash@ != store[k].content_hash@);
        }
    }
    assert forall|i: int|
        0 <= i < store.len() && store[i].id == found.id implies {
            &&& (#[trigger] after[i]).id == found.id
            &&& after[i].content_hash@ == store[i].content_hash@
            &&& after[i].copy_count == store[i].copy_count + 1
            &&& after[i].last_copied_at@ == now
        } by {
        assert(after[i].is_copy_of(store[i], now));
    }
}

/// Surrounding whitespace never makes a new clip: once content has been saved
/// (created or counted) into a store whose clips have distinct hashes, saving
/// content that is the same once trimmed finds that very clip, counts one more
/// copy of it, and adds no clip to the store.
pub proof fn law_surrounding_whitespace_never_makes_a_new_clip(
    store0: Seq<ClipboardEntry>,
    a: Seq<char>,
    b: Seq<char>,
    found1: Option<ClipboardEntry>,
    now1: Seq<char>,
    id1: Uuid,
    type1: ContentTypeView,
    metadata1: ClipMetadata,
    workspace1: Option<Uuid>,
    r1: (SaveOutcome, SaveWrite),
    store1: Seq<ClipboardEntry>,
    found2: Option<ClipboardEntry>,
    now2: Seq<char>,
    id2: Uuid,
    type2: ContentTypeView,
    metadata2: ClipMetadata,
    workspace2: Option<Uuid>,
    r2: (SaveOutcome, SaveWrite),
    store2: Seq<ClipboardEntry>,
)
    requires
        trimmed(a) == trimmed(b),
        trimmed(a).len() > 0,
        hashes_unique(store0),
        found_by_hash(store0, content_hash_of(trimmed(a)), found1),
        save_decision(
            trimmed(a),
            content_hash_of(trimmed(a)),
            found1,
            now1,
            id1,
            type1,
            metadata1,
            workspace1,
            r1,
        ),
        store_after_save(store0, r1, store1),
        found_by_hash(store1, content_hash_of(trimmed(b)), found2),
        save_decision(
            trimmed(b),
            content_hash_of(trimmed(b)),
            found2,
            now2,
            id2,
            type2,
            metadata2,
            workspace2,
            r2,
        ),
        store_after_save(store1, r2, store2),
    ensures
        r2.0 is Duplicate,
        saved_entry(r2.0).id == saved_entry(r1.0).id,
        saved_entry(r2.0).content_hash@ == saved_entry(r1.0).content_hash@,
        saved_entry(r2.0).copy_count == saved_entry(r1.0).copy_count + 1,
        store2.len() == store1.len(),
        hashes_unique(store2),
{
    let h = content_hash_of(trimmed(a));
    let e = saved_entry(r1.0);
    // Every clip of `store1` with the hash `h` is the saved clip, and one has it.
    let k: int = match found1 {
        None => {
            assert forall|i: int| 0 <= i < store1.len() && #[trigger] store1[i].content_hash@ == h implies
                store1[i].id == e.id && store1[i].copy_count == e.copy_count by {
                if i < store0.len() {
                    assert(store1[i] == store0[i]);
                }
            }
            store0.len() as int
        },
        Some(x) => {
            let k0 = choose|i: int| 0 <= i < store0.len() && #[trigger] store0[i] == x && x.content_hash@ == h;
            assert forall|i: int| 0 <= i < store1.len() && #[trigger] store1[i].content_hash@ == h implies
                store1[i].id == e.id && store1[i].copy_count == e.copy_count by {
                if store0[i].id == x.id {
                    assert(store1[i].is_copy_of(store0[i], now1));
                    assert(store0[i].content_hash@ == h);
                    if i != k0 {
                        assert(store0[i].content_hash@ != store0[k0].content_hash@);
                    }
                } else {
                    assert(store1[i] == store0[i]);
                    if i != k0 {
                        assert(store0[i].content_hash@ != store0[k0].content_hash@);
                    }
                }
            }
            assert(store1[k0].is_copy_of(store0[k0], now1));
            k0
        },
    };
    assert(0 <= k < store1.len() && store1[k].content_hash@ == h);
    assert(e.content_hash@ == h);
    law_save_keeps_hashes_unique(store0, trimmed(a), found1, now1, id1, type1, metadata1, workspace1, r1, store1);
    match found2 {
        None => {
            assert(store1[k].content_hash@ != h);
        },
        Some(y) => {
            let j = choose|i: int| 0 <= i < store1.len() && #[trigger] store1[i] == y && y.content_hash@ == h;
            assert(store1[j].content_hash@ == h);
            assert(y.id == e.id && y.copy_count == e.copy_count);
        },
    }
    law_save_keeps_hashes_unique(store1, trimmed(b), found2, now2, id2, type2, metadata2, workspace2, r2, store2);
}

/// Content that was saved is its own trimmed form: copying a saved clip's
/// content again hashes to the same value, so it is found as a duplicate.
pub proof fn law_saved_content_hashes_alike(content: Seq<char>)
    ensures
        trimmed(trimmed(content)) == trimmed(content),
        content_hash_of(trimmed(trimmed(content))) == content_hash_of(trimmed(content)),
{
    crate::text::lemma_trimmed_idempotent(content);
}

} // verus!
