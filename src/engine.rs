use vstd::prelude::*;
use std::collections::BTreeMap;
use std::sync::mpsc::Sender;
use crate::attrs::{record_of, AttrView, InodeAttributes, RawMetadata};
use crate::errno::{os_code, os_error_code, ENOENT};
use crate::mode::supported_mode;
use crate::path::{join_path, join_spec};

verus! {

broadcast use vstd::std_specs::btree::group_btree_axioms, vstd::laws_cmp::group_laws_cmp;

/// std's mpsc Sender, held for the lifecycle notifications.
#[verifier::external_type_specification]
#[verifier::external_body]
#[verifier::reject_recursive_types(T)]
pub struct ExSender<T>(Sender<T>);

/// Relies on Sender::send: whether the one-shot notification reached a
/// receiver that is still listening.
#[verifier::external_body]
fn signal(s: &Sender<()>) -> (sent: bool) {
    s.send(()).is_ok()
}

/// The inode number that the protocol reserves for the mount's root.
pub const FUSE_ROOT_ID: u64 = 1;

/// A metadata read whose success names a supported entry type.
pub open spec fn meta_supported(meta: Result<RawMetadata, Option<i32>>) -> bool {
    meta is Ok ==> supported_mode(meta->Ok_0.mode)
}

/// The table after the Attribute Refresher has seen a metadata read of
/// `path`: a successful read is recorded under its own inode number.
pub open spec fn refreshed(
    t: Map<u64, AttrView>,
    path: Seq<char>,
    meta: Result<RawMetadata, Option<i32>>,
) -> Map<u64, AttrView> {
    match meta {
        Ok(m) => t.insert(m.ino, record_of(m, path)),
        Err(_) => t,
    }
}

/// What the Attribute Refresher returns for a metadata read of `path`.
pub open spec fn refresh_result(path: Seq<char>, meta: Result<RawMetadata, Option<i32>>) -> Result<
    AttrView,
    i32,
> {
    match meta {
        Ok(m) => Ok(record_of(m, path)),
        Err(e) => Err(os_code(e)),
    }
}

/// The view of a returned record, or the error code.
pub open spec fn view_result(r: Result<InodeAttributes, i32>) -> Result<AttrView, i32> {
    match r {
        Ok(a) => Ok(a@),
        Err(c) => Err(c),
    }
}

/// The table after a mutating action and the refresh that follows it.
pub open spec fn changed(
    t: Map<u64, AttrView>,
    path: Seq<char>,
    action: Result<(), Option<i32>>,
    meta: Result<RawMetadata, Option<i32>>,
) -> Map<u64, AttrView> {
    match action {
        Ok(_) => refreshed(t, path, meta),
        Err(_) => t,
    }
}

/// What a mutating handler replies: the action's failure, else the refresh.
pub open spec fn change_result(
    path: Seq<char>,
    action: Result<(), Option<i32>>,
    meta: Result<RawMetadata, Option<i32>>,
) -> Result<AttrView, i32> {
    match action {
        Ok(_) => refresh_result(path, meta),
        Err(e) => Err(os_code(e)),
    }
}

/// The table after a removal: the entry read before it goes, if both the
/// read and the removal succeeded.
pub open spec fn removed(
    t: Map<u64, AttrView>,
    meta: Result<RawMetadata, Option<i32>>,
    result: Result<(), Option<i32>>,
) -> Map<u64, AttrView> {
    match (result, meta) {
        (Ok(_), Ok(m)) => t.remove(m.ino),
        _ => t,
    }
}

/// What a removal replies.
pub open spec fn removal_result(
    meta: Result<RawMetadata, Option<i32>>,
    result: Result<(), Option<i32>>,
) -> Result<(), i32> {
    match (result, meta) {
        (Err(e), _) => Err(os_code(e)),
        (Ok(_), Err(e)) => Err(os_code(e)),
        (Ok(_), Ok(_)) => Ok(()),
    }
}

/// The real path of a known inode, `ENOENT` for an unknown one.
pub open spec fn path_result(t: Map<u64, AttrView>, ino: u64) -> Result<Seq<char>, i32> {
    if t.contains_key(ino) {
        Ok(t[ino].real_path)
    } else {
        Err(ENOENT)
    }
}

/// The concrete path of child `name` under `parent`.
pub open spec fn child_path(t: Map<u64, AttrView>, parent: u64, name: Seq<char>) -> Result<
    Seq<char>,
    i32,
> {
    if t.contains_key(parent) {
        Ok(join_spec(t[parent].real_path, name))
    } else {
        Err(ENOENT)
    }
}

/// The view of a returned path, or the error code.
pub open spec fn string_result(r: Result<String, i32>) -> Result<Seq<char>, i32> {
    match r {
        Ok(s) => Ok(s@),
        Err(c) => Err(c),
    }
}

/// One entry met by the initial walk of the mirrored tree.
pub struct WalkEntry {
    pub meta: RawMetadata,
    pub path: String,
}

/// The walk's entries as metadata and path values.
pub open spec fn walk_seq(v: Seq<WalkEntry>) -> Seq<(RawMetadata, Seq<char>)> {
    v.map_values(|e: WalkEntry| (e.meta, e.path@))
}

/// The table key of a walked entry: the tree's own root goes under the
/// reserved root inode, every other entry under its real inode number.
pub open spec fn walk_key(root: Seq<char>, meta: RawMetadata, path: Seq<char>) -> u64 {
    if path == root {
        FUSE_ROOT_ID
    } else {
        meta.ino
    }
}

/// The table after recording the walked entries in order, a later entry
/// overwriting an earlier one under the same key.
pub open spec fn populated(
    t: Map<u64, AttrView>,
    root: Seq<char>,
    entries: Seq<(RawMetadata, Seq<char>)>,
) -> Map<u64, AttrView>
    decreases entries.len(),
{
    if entries.len() == 0 {
        t
    } else {
        let (m, p) = entries.last();
        populated(t, root, entries.drop_last()).insert(walk_key(root, m, p), record_of(m, p))
    }
}

/// The mirror's state: the root of the mirrored tree, the inode table, and
/// the two one-shot notifications of the mount's lifecycle.
pub struct TracerFS {
    root: String,
    attrs: BTreeMap<u64, InodeAttributes>,
    init: Sender<()>,
    destroy: Sender<()>,
}

impl TracerFS {
    /// The inode table: each known inode number with its record.
    pub closed spec fn table(&self) -> Map<u64, AttrView> {
        self.attrs@.map_values(|a: InodeAttributes| a@)
    }

    /// The root directory of the mirrored tree.
    pub closed spec fn root_path(&self) -> Seq<char> {
        self.root@
    }

    /// A mirror of `root` with an empty table.
    pub fn new(root: String, init: Sender<()>, destroy: Sender<()>) -> (r: TracerFS)
        ensures
            r.table() == Map::<u64, AttrView>::empty(),
            r.root_path() == root@,
    {
        let r = TracerFS { root, attrs: BTreeMap::new(), init, destroy };
        assert(r.table() =~= Map::<u64, AttrView>::empty());
        r
    }

    /// The root directory of the mirrored tree.
    pub fn root(&self) -> (r: &String)
        ensures
            r@ == self.root_path(),
    {
        &self.root
    }

    /// The cached record of `ino`, `ENOENT` if it is unknown.
    pub fn getattr(&self, ino: u64) -> (r: Result<&InodeAttributes, i32>)
        ensures
            match r {
                Ok(a) => self.table().contains_key(ino) && a@ == self.table()[ino],
                Err(c) => !self.table().contains_key(ino) && c == ENOENT,
            },
    {
        match self.attrs.get(&ino) {
            Some(a) => Ok(a),
            None => Err(ENOENT),
        }
    }

    /// The real path of `ino`.
    pub fn real_path_of(&self, ino: u64) -> (r: Result<String, i32>)
        ensures
            string_result(r) == path_result(self.table(), ino),
    {
        match self.attrs.get(&ino) {
            Some(a) => Ok(a.real_path.clone()),
            None => Err(ENOENT),
        }
    }

    /// Path Resolver: the parent's real path joined with `name`.
    pub fn get_path(&self, parent: u64, name: &str) -> (r: Result<String, i32>)
        ensures
            string_result(r) == child_path(self.table(), parent, name@),
    {
        match self.attrs.get(&parent) {
            Some(a) => Ok(join_path(a.real_path.as_str(), name)),
            None => Err(ENOENT),
        }
    }

    /// Records `rec` under `ino`.
    fn put(&mut self, ino: u64, rec: InodeAttributes)
        ensures
            final(self).table() == old(self).table().insert(ino, rec@),
            final(self).root_path() == old(self).root_path(),
    {
        self.attrs.insert(ino, rec);
        assert(self.table() =~= old(self).table().insert(ino, rec@));
    }

    /// Attribute Refresher: records a fresh metadata read of `path` under
    /// the inode number it reports and returns the record; a failed read
    /// leaves the table as it was.
    pub fn refresh(&mut self, path: String, meta: Result<RawMetadata, Option<i32>>) -> (r: Result<
        InodeAttributes,
        i32,
    >)
        requires
            meta_supported(meta),
        ensures
            final(self).table() == refreshed(old(self).table(), path@, meta),
            final(self).root_path() == old(self).root_path(),
            view_result(r) == refresh_result(path@, meta),
    {
        match meta {
            Ok(m) => {
                let rec = InodeAttributes::from_metadata(m, path);
                let reply = rec.duplicate();
                self.put(m.ino, rec);
                Ok(reply)
            },
            Err(e) => Err(os_error_code(e)),
        }
    }

    /// Lookup: a metadata read of the child's path decides; what it finds
    /// is recorded and returned.
    pub fn lookup(&mut self, path: String, meta: Result<RawMetadata, Option<i32>>) -> (r: Result<
        InodeAttributes,
        i32,
    >)
        requires
            meta_supported(meta),
        ensures
            final(self).table() == refreshed(old(self).table(), path@, meta),
            final(self).root_path() == old(self).root_path(),
            view_result(r) == refresh_result(path@, meta),
    {
        self.refresh(path, meta)
    }

    /// Completes a mutating handler: a failed action is reported as is;
    /// after a successful one the refresh of `path` decides the reply.
    pub fn handle_metadata_on_change(
        &mut self,
        path: String,
        action: Result<(), Option<i32>>,
        meta: Result<RawMetadata, Option<i32>>,
    ) -> (r: Result<InodeAttributes, i32>)
        requires
            action is Ok ==> meta_supported(meta),
        ensures
            final(self).table() == changed(old(self).table(), path@, action, meta),
            final(self).root_path() == old(self).root_path(),
            view_result(r) == change_result(path@, action, meta),
    {
        match action {
            Ok(_) => self.refresh(path, meta),
            Err(e) => Err(os_error_code(e)),
        }
    }

    /// Completes a removal: with the entry's metadata read before it and the
    /// removal's outcome, drops the entry's record when both succeeded.
    pub fn handle_metadata_on_removal(
        &mut self,
        meta: Result<RawMetadata, Option<i32>>,
        result: Result<(), Option<i32>>,
    ) -> (r: Result<(), i32>)
        ensures
            final(self).table() == removed(old(self).table(), meta, result),
            final(self).root_path() == old(self).root_path(),
            r == removal_result(meta, result),
    {
        match result {
            Err(e) => Err(os_error_code(e)),
            Ok(_) => match meta {
                Err(e) => Err(os_error_code(e)),
                Ok(m) => {
                    self.attrs.remove(&m.ino);
                    assert(self.table() =~= old(self).table().remove(m.ino));
                    Ok(())
                },
            },
        }
    }

    /// Records what the open file reported after a write of `len` bytes to
    /// `ino`, under `ino` itself, and returns the count written.
    pub fn on_written(
        &mut self,
        ino: u64,
        path: String,
        meta: Result<RawMetadata, Option<i32>>,
        len: usize,
    ) -> (r: Result<u32, i32>)
        requires
            meta_supported(meta),
            len <= u32::MAX,
        ensures
            final(self).root_path() == old(self).root_path(),
            match meta {
                Ok(m) => final(self).table() == old(self).table().insert(ino, record_of(m, path@))
                    && r == Ok::<u32, i32>(len as u32),
                Err(e) => final(self).table() == old(self).table() && r == Err::<u32, i32>(
                    os_code(e),
                ),
            },
    {
        match meta {
            Ok(m) => {
                let rec = InodeAttributes::from_metadata(m, path);
                self.put(ino, rec);
                Ok(len as u32)
            },
            Err(e) => Err(os_error_code(e)),
        }
    }

    /// Fills the table from the initial walk of the mirrored tree, in the
    /// walk's order (the tree's own root under the reserved root inode),
    /// then signals readiness; false when nobody listens for it.
    pub fn init(&mut self, entries: &Vec<WalkEntry>) -> (sent: bool)
        requires
            forall|i: int| 0 <= i < entries@.len() ==> supported_mode(#[trigger] entries@[i].meta.mode),
        ensures
            final(self).table() == populated(old(self).table(), old(self).root_path(), walk_seq(entries@)),
            final(self).root_path() == old(self).root_path(),
    {
        let ghost start = self.table();
        let mut i: usize = 0;
        while i < entries.len()
            invariant
                0 <= i <= entries@.len(),
                self.root_path() == old(self).root_path(),
                self.table() == populated(start, self.root_path(), walk_seq(entries@).take(i as int)),
                forall|j: int| 0 <= j < entries@.len() ==> supported_mode(#[trigger] entries@[j].meta.mode),
            decreases entries@.len() - i,
        {
            let e = &entries[i];
            let key: u64 = if e.path == self.root {
                FUSE_ROOT_ID
            } else {
                e.meta.ino
            };
            let rec = InodeAttributes::from_metadata(e.meta, e.path.clone());
            self.put(key, rec);
            proof {
                assert(walk_seq(entries@).take(i + 1).drop_last() =~= walk_seq(entries@).take(i as int));
            }
            i = i + 1;
        }
        assert(walk_seq(entries@).take(entries@.len() as int) =~= walk_seq(entries@));
        signal(&self.init)
    }

    /// Tells the surrounding process that the mount is being torn down;
    /// false when nobody listens any more.
    pub fn destroy(&self) -> (sent: bool) {
        signal(&self.destroy)
    }
}

} // verus!
