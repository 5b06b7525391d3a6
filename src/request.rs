use vstd::prelude::*;
use vstd::string::StringExecFns;
use crate::access::{R_OK, W_OK, X_OK};
use crate::errno::{EACCES, EEXIST, EINVAL, ENOSYS};
use crate::mode::{kind_spec, supported_mode, as_file_kind, FileKind, S_IFDIR, S_IFLNK, S_IFMT, S_IFREG};

verus! {

/// Mask of the access-mode bits of open flags.
pub const O_ACCMODE: i32 = 3;

/// Read-only access mode.
pub const O_RDONLY: i32 = 0;

/// Write-only access mode.
pub const O_WRONLY: i32 = 1;

/// Read-write access mode.
pub const O_RDWR: i32 = 2;

/// Truncate-on-open flag.
pub const O_TRUNC: i32 = 0o1000;

/// Flag the kernel sets on an open made for executing the file.
pub const FMODE_EXEC: i32 = 0x20;

/// The access class that an open asks for, and how to open the real file.
#[derive(Clone, Copy, Debug, PartialEq, Eq, Structural)]
pub struct OpenMode {
    pub access: i32,
    pub read: bool,
    pub write: bool,
}

/// How open flags are read: exactly one access mode; read-only with
/// truncation is refused; a read-only open for executing asks for execute.
pub open spec fn open_mode_spec(flags: i32) -> Result<OpenMode, i32> {
    let acc = flags & O_ACCMODE;
    if acc == O_RDONLY {
        if flags & O_TRUNC != 0 {
            Err(EACCES)
        } else if flags & FMODE_EXEC != 0 {
            Ok(OpenMode { access: X_OK, read: true, write: false })
        } else {
            Ok(OpenMode { access: R_OK, read: true, write: false })
        }
    } else if acc == O_WRONLY {
        Ok(OpenMode { access: W_OK, read: false, write: true })
    } else if acc == O_RDWR {
        Ok(OpenMode { access: R_OK | W_OK, read: true, write: true })
    } else {
        Err(EINVAL)
    }
}

/// Validates the flags of an open or a directory open.
pub fn open_mode(flags: i32) -> (r: Result<OpenMode, i32>)
    ensures
        r == open_mode_spec(flags),
{
    let acc = flags & O_ACCMODE;
    if acc == O_RDONLY {
        if flags & O_TRUNC != 0 {
            Err(EACCES)
        } else if flags & FMODE_EXEC != 0 {
            Ok(OpenMode { access: X_OK, read: true, write: false })
        } else {
            Ok(OpenMode { access: R_OK, read: true, write: false })
        }
    } else if acc == O_WRONLY {
        Ok(OpenMode { access: W_OK, read: false, write: true })
    } else if acc == O_RDWR {
        Ok(OpenMode { access: R_OK | W_OK, read: true, write: true })
    } else {
        Err(EINVAL)
    }
}

/// The number of bytes a read of `size` at `offset` returns from a file of
/// `file_size` bytes: what is left after the offset, at most `size`,
/// nothing at or past the end or at a negative offset.
pub open spec fn read_len_spec(size: u32, file_size: u64, offset: i64) -> int {
    if offset < 0 || file_size <= offset {
        0
    } else if file_size - offset < size {
        file_size - offset
    } else {
        size as int
    }
}

/// The effective length of a read.
pub fn read_length(size: u32, file_size: u64, offset: i64) -> (r: u32)
    ensures
        r == read_len_spec(size, file_size, offset),
{
    if offset < 0 || file_size <= offset as u64 {
        0
    } else {
        let left: u64 = file_size - offset as u64;
        if left < size as u64 {
            left as u32
        } else {
            size
        }
    }
}

/// The entry type that a node creation with `mode` asks for; unsupported
/// types are not implemented, and an existing name is refused.
pub open spec fn mknod_spec(mode: u32, exists: bool) -> Result<FileKind, i32> {
    if !supported_mode(mode) {
        Err(ENOSYS)
    } else if exists {
        Err(EEXIST)
    } else {
        Ok(kind_spec(mode))
    }
}

/// Decides a node creation from its mode and whether the name exists.
pub fn mknod_check(mode: u32, exists: bool) -> (r: Result<FileKind, i32>)
    ensures
        r == mknod_spec(mode, exists),
{
    let file_type = mode & S_IFMT;
    if file_type != S_IFREG && file_type != S_IFLNK && file_type != S_IFDIR {
        return Err(ENOSYS);
    }
    if exists {
        return Err(EEXIST);
    }
    Ok(as_file_kind(mode))
}

/// One entry of a real directory listing.
pub struct DirEntry {
    pub ino: u64,
    pub kind: FileKind,
    pub name: String,
}

/// One entry handed back by a directory read, with the offset at which
/// the next read resumes.
pub struct DirSlot {
    pub ino: u64,
    pub next_offset: i64,
    pub kind: FileKind,
    pub name: String,
}

/// The listing a directory read walks: the directory itself as ".", its
/// parent as "..", then the real entries in the order they were listed.
pub fn with_dot_entries(dir_ino: u64, parent_ino: u64, listed: Vec<DirEntry>) -> (r: Vec<DirEntry>)
    ensures
        r@.len() == listed@.len() + 2,
        r@[0].ino == dir_ino && r@[0].kind == FileKind::Directory && r@[0].name@ == seq!['.'],
        r@[1].ino == parent_ino && r@[1].kind == FileKind::Directory && r@[1].name@ == seq!['.', '.'],
        r@.subrange(2, r@.len() as int) == listed@,
{
    proof {
        reveal_strlit(".");
        reveal_strlit("..");
    }
    let mut out: Vec<DirEntry> = Vec::new();
    out.push(DirEntry { ino: dir_ino, kind: FileKind::Directory, name: String::from_str(".") });
    out.push(DirEntry { ino: parent_ino, kind: FileKind::Directory, name: String::from_str("..") });
    let mut rest = listed;
    out.append(&mut rest);
    assert(out@.subrange(2, out@.len() as int) =~= listed@);
    out
}

/// The index of the first entry that a directory read at `offset` returns.
pub open spec fn page_start(len: int, offset: i64) -> int {
    if offset <= 0 {
        0
    } else if offset >= len {
        len
    } else {
        offset as int
    }
}

/// A directory read at `offset`: the entries from that index on, each
/// tagged with the offset just past it.
pub open spec fn page_spec(entries: Seq<DirEntry>, offset: i64, slots: Seq<DirSlot>) -> bool {
    let start = page_start(entries.len() as int, offset);
    &&& slots.len() == entries.len() - start
    &&& forall|j: int|
        0 <= j < slots.len() ==> {
            let e = #[trigger] entries[start + j];
            &&& slots[j].ino == e.ino
            &&& slots[j].kind == e.kind
            &&& slots[j].name@ == e.name@
            &&& slots[j].next_offset == start + j + 1
        }
}

/// The entries a directory read at `offset` returns.
pub fn dir_page(entries: &Vec<DirEntry>, offset: i64) -> (r: Vec<DirSlot>)
    requires
        entries@.len() < i64::MAX,
    ensures
        page_spec(entries@, offset, r@),
{
    let len = entries.len();
    let start: usize = if offset <= 0 {
        0
    } else if offset as u64 >= len as u64 {
        len
    } else {
        offset as usize
    };
    let mut out: Vec<DirSlot> = Vec::new();
    let mut i: usize = start;
    while i < len
        invariant
            start == page_start(entries@.len() as int, offset),
            start <= i <= len,
            len == entries@.len(),
            len < i64::MAX,
            out@.len() == i - start,
            forall|j: int|
                0 <= j < out@.len() ==> {
                    let e = #[trigger] entries@[start + j];
                    &&& out@[j].ino == e.ino
                    &&& out@[j].kind == e.kind
                    &&& out@[j].name@ == e.name@
                    &&& out@[j].next_offset == start + j + 1
                },
        decreases len - i,
    {
        let e = &entries[i];
        out.push(DirSlot { ino: e.ino, next_offset: (i + 1) as i64, kind: e.kind, name: e.name.clone() });
        i = i + 1;
    }
    out
}

/// A point in time given to an attribute change: a time, or the moment of
/// the change.
#[derive(Clone, Copy, Debug, PartialEq, Eq, Structural)]
pub enum TimeOrNow {
    SpecificTime(i64, u32),
    Now,
}

/// The changes one attribute-setting request carries.
#[derive(Clone, Copy, Debug)]
pub struct AttrChanges {
    pub mode: Option<u32>,
    pub uid: Option<u32>,
    pub gid: Option<u32>,
    pub size: Option<u64>,
    pub atime: Option<TimeOrNow>,
    pub mtime: Option<TimeOrNow>,
}

/// The one change an attribute-setting request carries out.
#[derive(Clone, Copy, Debug)]
pub enum AttrAction {
    Chmod(u32),
    Chown(Option<u32>, Option<u32>),
    Truncate(u64),
    /// New access and modification seconds.
    SetTimes(i64, i64),
    Unchanged,
}

/// The seconds that a time argument stands for.
pub open spec fn time_secs(t: TimeOrNow, now: i64) -> i64 {
    match t {
        TimeOrNow::SpecificTime(s, _) => s,
        TimeOrNow::Now => now,
    }
}

} // verus!
