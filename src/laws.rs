use vstd::prelude::*;
use crate::access::{access_granted, F_OK, R_OK, W_OK, X_OK};
use crate::attrs::{record_of, AttrView, RawMetadata};
use crate::engine::{
    change_result, changed, meta_supported, populated, refresh_result, refreshed, removal_result,
    removed,
};
use crate::errno::ENOENT;
use crate::handlers::{access_spec, kind_path};
use crate::mode::{kind_spec, kind_type_bits, supported_mode, type_bits, FileKind, S_IFREG};
use crate::request::{mknod_spec, page_spec, page_start, read_len_spec, DirEntry, DirSlot};
use crate::errno::EISDIR;

verus! {

/// A node creation that goes ahead creates the kind its mode's type bits
/// name.
pub proof fn lemma_mknod_creates_requested_kind(mode: u32)
    requires
        supported_mode(mode),
    ensures
        mknod_spec(mode, false) == Ok::<FileKind, i32>(kind_spec(mode)),
        kind_type_bits(kind_spec(mode)) == type_bits(mode),
{
}

/// After an entry of kind `kind` was created at `path`, a lookup that reads
/// back metadata carrying that kind's type bits returns that kind and
/// records it in the table.
pub proof fn lemma_lookup_after_create(t: Map<u64, AttrView>, path: Seq<char>, kind: FileKind, m: RawMetadata)
    requires
        type_bits(m.mode) == kind_type_bits(kind),
    ensures
        supported_mode(m.mode),
        refresh_result(path, Ok(m)) is Ok,
        refresh_result(path, Ok(m))->Ok_0.kind == kind,
        refreshed(t, path, Ok(m))[m.ino].kind == kind,
{
}

/// After a write of `n` bytes at `offset` left the file at least
/// `offset + n` bytes long, a read of `n` bytes at `offset` is served
/// from the same regular file and returns exactly `n` bytes.
pub proof fn lemma_read_after_write(
    t: Map<u64, AttrView>,
    ino: u64,
    path: Seq<char>,
    m: RawMetadata,
    offset: i64,
    n: u32,
)
    requires
        type_bits(m.mode) == S_IFREG,
        offset >= 0,
        offset + n <= m.len,
    ensures
        kind_path(t.insert(ino, record_of(m, path)), ino, FileKind::File, EISDIR) == Ok::<Seq<char>, i32>(path),
        read_len_spec(n, m.len, offset) == n,
{
}

/// An existence check on a known inode always succeeds, whatever the mode.
pub proof fn lemma_existence_always_granted(t: Map<u64, AttrView>, ino: u64, uid: u32, gid: u32)
    requires
        t.contains_key(ino),
    ensures
        access_spec(t, ino, uid, gid, F_OK) == Ok::<(), i32>(()),
{
}

/// Root may always read and write; it may execute only where some execute
/// bit is set.
pub proof fn lemma_root_access(file_uid: u32, file_gid: u32, file_mode: u32, gid: u32)
    ensures
        access_granted(file_uid, file_gid, file_mode, 0, gid, R_OK),
        access_granted(file_uid, file_gid, file_mode, 0, gid, W_OK),
        access_granted(file_uid, file_gid, file_mode, 0, gid, R_OK | W_OK),
        file_mode & 0o111 == 0 ==> !access_granted(file_uid, file_gid, file_mode, 0, gid, X_OK),
{
    assert((4i32 & 1i32) == 0 && (2i32 & 1i32) == 0 && ((4i32 | 2i32) & 1i32) == 0 && (1i32 & 1i32) != 0)
        by (bit_vector);
}

/// After a rename succeeded, the destination is reported, and recorded,
/// under the inode number that a fresh metadata read of the destination
/// path gives, with that path as its real path.
pub proof fn lemma_rename_keeps_fresh_identity(t: Map<u64, AttrView>, dest: Seq<char>, m: RawMetadata)
    requires
        supported_mode(m.mode),
    ensures
        change_result(dest, Ok(()), Ok(m)) is Ok,
        change_result(dest, Ok(()), Ok(m))->Ok_0.ino == m.ino,
        changed(t, dest, Ok(()), Ok(m)).contains_key(m.ino),
        changed(t, dest, Ok(()), Ok(m))[m.ino] == record_of(m, dest),
        changed(t, dest, Ok(()), Ok(m))[m.ino].real_path == dest,
{
}

/// After an unlink succeeded, the removed inode has no record, and a lookup
/// of the name reports `ENOENT` once the real filesystem no longer has it,
/// whatever the table still holds.
pub proof fn lemma_unlink_then_lookup(t: Map<u64, AttrView>, m: RawMetadata, path: Seq<char>)
    ensures
        removal_result(Ok(m), Ok(())) == Ok::<(), i32>(()),
        !removed(t, Ok(m), Ok(())).contains_key(m.ino),
        refresh_result(path, Err(Some(ENOENT))) == Err::<AttrView, i32>(ENOENT),
        refreshed(removed(t, Ok(m), Ok(())), path, Err(Some(ENOENT))) == removed(t, Ok(m), Ok(())),
{
}

/// A directory read from the start hands back every entry, the k-th with
/// the resume offset k + 1, so the offsets rise one by one.
pub proof fn lemma_listing_offsets_rise(entries: Seq<DirEntry>, slots: Seq<DirSlot>)
    requires
        page_spec(entries, 0, slots),
    ensures
        slots.len() == entries.len(),
        forall|k: int| 0 <= k < slots.len() ==> #[trigger] slots[k].next_offset == k + 1,
{
    assert forall|k: int| 0 <= k < slots.len() implies #[trigger] slots[k].next_offset == k + 1 by {
        let e = entries[0 + k];
    }
}

/// Two reads of the same listing at the same offset hand back the same
/// entries, with the same offsets, in the same order.
pub proof fn lemma_listing_is_determined(entries: Seq<DirEntry>, offset: i64, a: Seq<DirSlot>, b: Seq<DirSlot>)
    requires
        page_spec(entries, offset, a),
        page_spec(entries, offset, b),
    ensures
        a.len() == b.len(),
        forall|k: int|
            #![trigger a[k]]
            0 <= k < a.len() ==> {
                &&& a[k].ino == b[k].ino
                &&& a[k].kind == b[k].kind
                &&& a[k].name@ == b[k].name@
                &&& a[k].next_offset == b[k].next_offset
            },
{
    let start = page_start(entries.len() as int, offset);
    assert forall|k: int| #![trigger a[k]] 0 <= k < a.len() implies {
        &&& a[k].ino == b[k].ino
        &&& a[k].kind == b[k].kind
        &&& a[k].name@ == b[k].name@
        &&& a[k].next_offset == b[k].next_offset
    } by {
        let e = entries[start + k];
    }
}

/// Every record in the table has a supported entry type, and its kind is
/// the one its mode's type bits name.
pub open spec fn kinds_follow_modes(t: Map<u64, AttrView>) -> bool {
    forall|k: u64|
        #![trigger t[k]]
        t.contains_key(k) ==> supported_mode(t[k].mode) && t[k].kind == kind_spec(t[k].mode)
}

/// Refreshing, completing a change, writing and removing keep every
/// record's kind derived from its mode.
pub proof fn lemma_updates_keep_kinds(
    t: Map<u64, AttrView>,
    path: Seq<char>,
    action: Result<(), Option<i32>>,
    meta: Result<RawMetadata, Option<i32>>,
    ino: u64,
    result: Result<(), Option<i32>>,
)
    requires
        kinds_follow_modes(t),
        meta_supported(meta),
    ensures
        kinds_follow_modes(refreshed(t, path, meta)),
        kinds_follow_modes(changed(t, path, action, meta)),
        kinds_follow_modes(removed(t, meta, result)),
        meta is Ok ==> kinds_follow_modes(t.insert(ino, record_of(meta->Ok_0, path))),
{
}

/// The initial walk of a tree whose entries all have supported types fills
/// the table with records whose kinds follow their modes.
pub proof fn lemma_walk_keeps_kinds(
    t: Map<u64, AttrView>,
    root: Seq<char>,
    entries: Seq<(RawMetadata, Seq<char>)>,
)
    requires
        kinds_follow_modes(t),
        forall|i: int| 0 <= i < entries.len() ==> supported_mode(#[trigger] entries[i].0.mode),
    ensures
        kinds_follow_modes(populated(t, root, entries)),
    decreases entries.len(),
{
    if entries.len() > 0 {
        let rest = entries.drop_last();
        assert forall|i: int| 0 <= i < rest.len() implies supported_mode(#[trigger] rest[i].0.mode) by {
            assert(rest[i] == entries[i]);
        }
        lemma_walk_keeps_kinds(t, root, rest);
        assert(supported_mode(entries[entries.len() - 1].0.mode));
    }
}

} // verus!
