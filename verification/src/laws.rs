use vstd::prelude::*;

use crate::assemble::{assembled_meta, assembled_writes, lemma_field_names_distinct};
use crate::encode::{blob_path_view, utf8_lossy_of};
use crate::metadata::MetaView;

verus! {

/// Law: committing the same record twice leaves exactly the table that
/// committing it once leaves; there is one row per id, never an appended
/// duplicate.
pub proof fn lemma_upsert_idempotent(t: Map<Seq<char>, MetaView>, m: MetaView)
    ensures
        t.insert(m.id, m).insert(m.id, m) == t.insert(m.id, m),
        t.insert(m.id, m)[m.id] == m,
        t.insert(m.id, m).contains_key(m.id),
{
    assert(t.insert(m.id, m).insert(m.id, m) =~= t.insert(m.id, m));
}

/// Law: two serialized commits to distinct ids land on the same table in
/// either order, and neither row is lost: afterwards each id holds its own
/// record.
pub proof fn lemma_upsert_distinct_ids_commute(
    t: Map<Seq<char>, MetaView>,
    a: MetaView,
    b: MetaView,
)
    requires
        a.id != b.id,
    ensures
        t.insert(a.id, a).insert(b.id, b) == t.insert(b.id, b).insert(a.id, a),
        t.insert(a.id, a).insert(b.id, b)[a.id] == a,
        t.insert(a.id, a).insert(b.id, b)[b.id] == b,
{
    assert(t.insert(a.id, a).insert(b.id, b) =~= t.insert(b.id, b).insert(a.id, a));
}

/// The table left by committing the records of `ms`, in order, into `t`.
pub open spec fn table_after(t: Map<Seq<char>, MetaView>, ms: Seq<MetaView>) -> Map<
    Seq<char>,
    MetaView,
>
    decreases ms.len(),
{
    if ms.len() == 0 {
        t
    } else {
        table_after(t, ms.drop_last()).insert(ms.last().id, ms.last())
    }
}

/// Law: after committing records with pairwise distinct ids into an empty
/// table, the table holds exactly one row per record, each id bound to its
/// own record, and nothing else.
pub proof fn lemma_list_complete(ms: Seq<MetaView>)
    requires
        forall|i: int, j: int| 0 <= i < j < ms.len() ==> ms[i].id != ms[j].id,
    ensures
        table_after(Map::<Seq<char>, MetaView>::empty(), ms).dom().finite(),
        table_after(Map::<Seq<char>, MetaView>::empty(), ms).dom().len() == ms.len(),
        forall|i: int|
            0 <= i < ms.len() ==> table_after(Map::<Seq<char>, MetaView>::empty(), ms).contains_key(
                (#[trigger] ms[i]).id,
            ) && table_after(Map::<Seq<char>, MetaView>::empty(), ms)[ms[i].id] == ms[i],
        forall|k: Seq<char>|
            table_after(Map::<Seq<char>, MetaView>::empty(), ms).contains_key(k) ==> exists|i: int|
                0 <= i < ms.len() && (#[trigger] ms[i]).id == k,
    decreases ms.len(),
{
    broadcast use vstd::set::axiom_set_insert_len;

    let empty = Map::<Seq<char>, MetaView>::empty();
    if ms.len() == 0 {
        assert(table_after(empty, ms).dom() =~= Set::<Seq<char>>::empty());
    } else {
        let head = ms.drop_last();
        lemma_list_complete(head);
        let prev = table_after(empty, head);
        let last = ms.last();
        assert(!prev.contains_key(last.id)) by {
            if prev.contains_key(last.id) {
                let i = choose|i: int| 0 <= i < head.len() && (#[trigger] head[i]).id == last.id;
                assert(ms[i].id == ms[ms.len() - 1].id);
                assert(false);
            }
        };
        assert(table_after(empty, ms) == prev.insert(last.id, last));
        assert(prev.insert(last.id, last).dom() =~= prev.dom().insert(last.id));
        assert(prev.dom().insert(last.id).len() == prev.dom().len() + 1);
        assert forall|i: int| 0 <= i < ms.len() implies table_after(empty, ms).contains_key(
            (#[trigger] ms[i]).id,
        ) && table_after(empty, ms)[ms[i].id] == ms[i] by {
            if i < ms.len() - 1 {
                assert(head[i] == ms[i]);
                assert(ms[i].id != last.id);
            }
        };
        assert forall|k: Seq<char>| table_after(empty, ms).contains_key(k) implies exists|i: int|
            0 <= i < ms.len() && (#[trigger] ms[i]).id == k by {
            if k != last.id {
                let i = choose|i: int| 0 <= i < head.len() && (#[trigger] head[i]).id == k;
                assert(ms[i].id == k);
            } else {
                assert(ms[ms.len() - 1].id == k);
            }
        };
    }
}

/// Law: the record assembled from parts that never carry the name `id` keeps
/// the empty id.
pub proof fn lemma_meta_id_empty(parts: Seq<(Seq<char>, Seq<u8>)>)
    requires
        forall|k: int| 0 <= k < parts.len() ==> (#[trigger] parts[k]).0 != "id"@,
    ensures
        assembled_meta(parts).id == Seq::<char>::empty(),
    decreases parts.len(),
{
    if parts.len() > 0 {
        lemma_meta_id_empty(parts.drop_last());
    }
}

/// Law: the assembled id is the lossy UTF-8 reading of the bytes of the last
/// `id` part; parts after it that are not `id` parts leave it alone.
pub proof fn lemma_meta_id_stable(parts: Seq<(Seq<char>, Seq<u8>)>, i: int)
    requires
        0 <= i < parts.len(),
        parts[i].0 == "id"@,
        forall|k: int| i < k < parts.len() ==> (#[trigger] parts[k]).0 != "id"@,
    ensures
        assembled_meta(parts).id == utf8_lossy_of(parts[i].1),
    decreases parts.len(),
{
    if i == parts.len() - 1 {
        assert(parts.last() == parts[i]);
    } else {
        lemma_meta_id_stable(parts.drop_last(), i);
        assert(parts.last() == parts[parts.len() - 1]);
    }
}

/// Law: parts from position `j` on that never carry the name `file` change
/// neither the assembled blob location nor the requested blob writes.
pub proof fn lemma_suffix_preserves_file(parts: Seq<(Seq<char>, Seq<u8>)>, j: int)
    requires
        0 <= j <= parts.len(),
        forall|k: int| j <= k < parts.len() ==> (#[trigger] parts[k]).0 != "file"@,
    ensures
        assembled_meta(parts).file_path == assembled_meta(parts.take(j)).file_path,
        assembled_writes(parts) == assembled_writes(parts.take(j)),
    decreases parts.len(),
{
    if j == parts.len() {
        assert(parts.take(j) =~= parts);
    } else {
        lemma_suffix_preserves_file(parts.drop_last(), j);
        assert(parts.drop_last().take(j) =~= parts.take(j));
        assert(parts.last() == parts[parts.len() - 1]);
    }
}

/// Law (upload-then-download round trip, the stored side): when an upload's
/// parts carry an `id` part before the `file` part, no later part renames the
/// id in between, and no `file` part follows, then the assembled record's
/// blob location is exactly the location of the last requested blob write,
/// and that write carries exactly the file part's bytes. A download of the
/// committed record therefore reads back the very bytes the upload stored.
pub proof fn lemma_upload_round_trip(parts: Seq<(Seq<char>, Seq<u8>)>, i: int, j: int)
    requires
        0 <= i < j < parts.len(),
        parts[i].0 == "id"@,
        parts[j].0 == "file"@,
        forall|k: int| i < k < j ==> (#[trigger] parts[k]).0 != "id"@,
        forall|k: int| j < k < parts.len() ==> (#[trigger] parts[k]).0 != "file"@,
    ensures
        assembled_writes(parts).len() >= 1,
        assembled_writes(parts).last() == (
            blob_path_view(utf8_lossy_of(parts[i].1)),
            parts[j].1,
        ),
        assembled_meta(parts).file_path == blob_path_view(utf8_lossy_of(parts[i].1)),
{
    lemma_field_names_distinct();
    lemma_suffix_preserves_file(parts, j + 1);
    let pj = parts.take(j + 1);
    assert(pj.drop_last() =~= parts.take(j));
    assert(pj.last() == parts[j]);
    lemma_meta_id_stable(parts.take(j), i);
    assert(assembled_meta(parts.take(j)).id == utf8_lossy_of(parts[i].1));
    assert(assembled_writes(pj) == assembled_writes(parts.take(j)).push(
        (blob_path_view(utf8_lossy_of(parts[i].1)), parts[j].1),
    ));
}

/// Law: an upload that never carries a `version` part leaves the version
/// field empty, never a previously stored value; a partial re-upload blanks
/// what it omits.
pub proof fn lemma_omitted_version_blanked(parts: Seq<(Seq<char>, Seq<u8>)>)
    requires
        forall|k: int| 0 <= k < parts.len() ==> (#[trigger] parts[k]).0 != "version"@,
    ensures
        assembled_meta(parts).version == Seq::<char>::empty(),
    decreases parts.len(),
{
    if parts.len() > 0 {
        lemma_omitted_version_blanked(parts.drop_last());
    }
}

/// The blob location derived from the empty id, spelled out: where a `file`
/// part that arrives before any `id` part is stored.
pub proof fn lemma_empty_id_blob_path()
    ensures
        blob_path_view(Seq::<char>::empty()) == "mods/.gz"@,
{
    reveal_strlit("mods/");
    reveal_strlit(".gz");
    reveal_strlit("mods/.gz");
    assert(blob_path_view(Seq::<char>::empty()) =~= "mods/.gz"@);
}

/// Law (the ordering dependency pinned): a `file` part that arrives before
/// any `id` part asks for a blob write at exactly the empty-id location.
pub proof fn lemma_file_before_id_writes_empty_id_path(parts: Seq<(Seq<char>, Seq<u8>)>, j: int)
    requires
        0 <= j < parts.len(),
        parts[j].0 == "file"@,
        forall|k: int| 0 <= k < j ==> (#[trigger] parts[k]).0 != "id"@,
    ensures
        assembled_writes(parts.take(j + 1)).len() >= 1,
        assembled_writes(parts.take(j + 1)).last().0 == "mods/.gz"@,
        assembled_writes(parts.take(j + 1)).last().1 == parts[j].1,
{
    lemma_empty_id_blob_path();
    let pj = parts.take(j + 1);
    assert(pj.drop_last() =~= parts.take(j));
    assert(pj.last() == parts[j]);
    lemma_meta_id_empty(parts.take(j));
}

} // verus!
