use vstd::prelude::*;
use crate::mode::{as_file_kind, kind_spec, supported_mode, FileKind};

verus! {

/// What a fresh metadata read of a real entry reports, as plain values.
#[derive(Clone, Copy, Debug)]
pub struct RawMetadata {
    pub ino: u64,
    pub uid: u32,
    pub gid: u32,
    pub mode: u32,
    pub atime: (i64, u32),
    pub mtime: (i64, u32),
    pub len: u64,
    pub nlinks: u64,
    pub blksize: u64,
    pub blocks: u64,
    pub rdev: u64,
}

/// The cached record of one known inode.
#[derive(Debug)]
pub struct InodeAttributes {
    pub ino: u64,
    pub uid: u32,
    pub gid: u32,
    pub mode: u32,
    pub atime: (i64, u32),
    pub mtime: (i64, u32),
    pub kind: FileKind,
    pub len: u64,
    pub nlinks: u64,
    pub blksize: u64,
    pub blocks: u64,
    pub rdev: u64,
    pub real_path: String,
}

/// The mathematical value of a record: its fields, with the real path as
/// a sequence of characters.
pub struct AttrView {
    pub ino: u64,
    pub uid: u32,
    pub gid: u32,
    pub mode: u32,
    pub atime: (i64, u32),
    pub mtime: (i64, u32),
    pub kind: FileKind,
    pub len: u64,
    pub nlinks: u64,
    pub blksize: u64,
    pub blocks: u64,
    pub rdev: u64,
    pub real_path: Seq<char>,
}

impl View for InodeAttributes {
    type V = AttrView;

    open spec fn view(&self) -> AttrView {
        AttrView {
            ino: self.ino,
            uid: self.uid,
            gid: self.gid,
            mode: self.mode,
            atime: self.atime,
            mtime: self.mtime,
            kind: self.kind,
            len: self.len,
            nlinks: self.nlinks,
            blksize: self.blksize,
            blocks: self.blocks,
            rdev: self.rdev,
            real_path: self.real_path@,
        }
    }
}

/// The record built from a metadata read of the entry at `path`: every
/// field passed through, the kind taken from the mode's type bits.
pub open spec fn record_of(meta: RawMetadata, path: Seq<char>) -> AttrView {
    AttrView {
        ino: meta.ino,
        uid: meta.uid,
        gid: meta.gid,
        mode: meta.mode,
        atime: meta.atime,
        mtime: meta.mtime,
        kind: kind_spec(meta.mode),
        len: meta.len,
        nlinks: meta.nlinks,
        blksize: meta.blksize,
        blocks: meta.blocks,
        rdev: meta.rdev,
        real_path: path,
    }
}

impl InodeAttributes {
    /// Builds the record of the entry at `real_path` from its metadata.
    pub fn from_metadata(meta: RawMetadata, real_path: String) -> (r: InodeAttributes)
        requires
            supported_mode(meta.mode),
        ensures
            r@ == record_of(meta, real_path@),
    {
        InodeAttributes {
            ino: meta.ino,
            uid: meta.uid,
            gid: meta.gid,
            mode: meta.mode,
            atime: meta.atime,
            mtime: meta.mtime,
            kind: as_file_kind(meta.mode),
            len: meta.len,
            nlinks: meta.nlinks,
            blksize: meta.blksize,
            blocks: meta.blocks,
            rdev: meta.rdev,
            real_path,
        }
    }

    /// A copy of this record.
    pub fn duplicate(&self) -> (r: InodeAttributes)
        ensures
            r@ == self@,
    {
        InodeAttributes {
            ino: self.ino,
            uid: self.uid,
            gid: self.gid,
            mode: self.mode,
            atime: self.atime,
            mtime: self.mtime,
            kind: self.kind,
            len: self.len,
            nlinks: self.nlinks,
            blksize: self.blksize,
            blocks: self.blocks,
            rdev: self.rdev,
            real_path: self.real_path.clone(),
        }
    }
}

} // verus!
