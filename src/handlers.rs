use vstd::prelude::*;
use crate::access::{access_granted, check_access};
use crate::attrs::AttrView;
use crate::engine::{string_result, TracerFS, FUSE_ROOT_ID};
use vstd::string::StringExecFns;
use crate::errno::{EACCES, EINVAL, EISDIR, ENOENT, ENOTDIR, EPERM};
use crate::mode::FileKind;
use crate::request::{open_mode, open_mode_spec, time_secs, AttrAction, AttrChanges, TimeOrNow};

verus! {

/// The real path of `ino` when its kind is `want`: `ENOENT` for an unknown
/// inode, `mismatch` for another kind.
pub open spec fn kind_path(t: Map<u64, AttrView>, ino: u64, want: FileKind, mismatch: i32) -> Result<
    Seq<char>,
    i32,
> {
    if !t.contains_key(ino) {
        Err(ENOENT)
    } else if t[ino].kind != want {
        Err(mismatch)
    } else {
        Ok(t[ino].real_path)
    }
}

/// How to open the real file behind an inode.
pub struct OpenPlan {
    pub path: String,
    pub read: bool,
    pub write: bool,
}

/// What an open of `ino` with `flags` resolves to: first the flags, then
/// the inode and its kind.
pub open spec fn open_spec(t: Map<u64, AttrView>, ino: u64, flags: i32, want: FileKind, mismatch: i32) -> Result<
    (Seq<char>, bool, bool),
    i32,
> {
    match open_mode_spec(flags) {
        Err(c) => Err(c),
        Ok(m) => match kind_path(t, ino, want, mismatch) {
            Err(c) => Err(c),
            Ok(p) => Ok((p, m.read, m.write)),
        },
    }
}

/// The view of a returned open plan, or the error code.
pub open spec fn plan_result(r: Result<OpenPlan, i32>) -> Result<(Seq<char>, bool, bool), i32> {
    match r {
        Ok(p) => Ok((p.path@, p.read, p.write)),
        Err(c) => Err(c),
    }
}

/// The outcome of an access check on `ino`.
pub open spec fn access_spec(t: Map<u64, AttrView>, ino: u64, uid: u32, gid: u32, mask: i32) -> Result<
    (),
    i32,
> {
    if !t.contains_key(ino) {
        Err(ENOENT)
    } else if access_granted(t[ino].uid, t[ino].gid, t[ino].mode, uid, gid, mask) {
        Ok(())
    } else {
        Err(EACCES)
    }
}

/// The one change that an attribute-setting request on `rec` carries out:
/// the first present in the order mode, ownership, size, access time,
/// modification time. Only the owner or root may change the mode. A time
/// change keeps the other time's seconds as recorded.
pub open spec fn setattr_spec(rec: AttrView, req_uid: u32, c: AttrChanges, now: i64) -> Result<
    AttrAction,
    i32,
> {
    if c.mode is Some {
        if req_uid != 0 && req_uid != rec.uid {
            Err(EPERM)
        } else {
            Ok(AttrAction::Chmod(c.mode->Some_0))
        }
    } else if c.uid is Some || c.gid is Some {
        Ok(AttrAction::Chown(c.uid, c.gid))
    } else if c.size is Some {
        Ok(AttrAction::Truncate(c.size->Some_0))
    } else if c.atime is Some {
        Ok(AttrAction::SetTimes(time_secs(c.atime->Some_0, now), rec.mtime.0))
    } else if c.mtime is Some {
        Ok(AttrAction::SetTimes(rec.atime.0, time_secs(c.mtime->Some_0, now)))
    } else {
        Ok(AttrAction::Unchanged)
    }
}

/// The real path an attribute change applies to, and the change.
pub struct SetAttrPlan {
    pub path: String,
    pub action: AttrAction,
}

/// What an attribute-setting request on `ino` resolves to.
pub open spec fn plan_setattr_spec(t: Map<u64, AttrView>, ino: u64, req_uid: u32, c: AttrChanges, now: i64) -> Result<
    (Seq<char>, AttrAction),
    i32,
> {
    if !t.contains_key(ino) {
        Err(ENOENT)
    } else {
        match setattr_spec(t[ino], req_uid, c, now) {
            Err(e) => Err(e),
            Ok(a) => Ok((t[ino].real_path, a)),
        }
    }
}

/// The view of a returned attribute plan, or the error code.
pub open spec fn setattr_result(r: Result<SetAttrPlan, i32>) -> Result<(Seq<char>, AttrAction), i32> {
    match r {
        Ok(p) => Ok((p.path@, p.action)),
        Err(c) => Err(c),
    }
}

/// The inode that a listing of directory `dir_ino` reports for "..": the
/// reserved root inode for the mirrored root itself and for a directory
/// whose real parent is the mirrored root, else the real parent's inode.
pub open spec fn dotdot_spec(root: Seq<char>, dir_ino: u64, parent_path: Seq<char>, parent_ino: u64) -> u64 {
    if dir_ino == FUSE_ROOT_ID || parent_path == root {
        FUSE_ROOT_ID
    } else {
        parent_ino
    }
}

fn resolve_time(t: TimeOrNow, now: i64) -> (r: i64)
    ensures
        r == time_secs(t, now),
{
    match t {
        TimeOrNow::SpecificTime(s, _) => s,
        TimeOrNow::Now => now,
    }
}

impl TracerFS {
    /// The real path of `ino` if it has the kind `want`.
    fn path_of_kind(&self, ino: u64, want: FileKind, mismatch: i32) -> (r: Result<String, i32>)
        ensures
            string_result(r) == kind_path(self.table(), ino, want, mismatch),
    {
        match self.getattr(ino) {
            Err(c) => Err(c),
            Ok(a) => {
                if a.kind == want {
                    Ok(a.real_path.clone())
                } else {
                    Err(mismatch)
                }
            },
        }
    }

    /// ReadLink: the real path whose link target is read; only a symlink
    /// has one.
    pub fn readlink(&self, ino: u64) -> (r: Result<String, i32>)
        ensures
            string_result(r) == kind_path(self.table(), ino, FileKind::Symlink, EINVAL),
    {
        self.path_of_kind(ino, FileKind::Symlink, EINVAL)
    }

    /// Read: the real path of a regular file to read from.
    pub fn read(&self, ino: u64) -> (r: Result<String, i32>)
        ensures
            string_result(r) == kind_path(self.table(), ino, FileKind::File, EISDIR),
    {
        self.path_of_kind(ino, FileKind::File, EISDIR)
    }

    /// The inode reported for ".." of `dir_ino`, given the real path and the
    /// real inode of its parent directory.
    pub fn dotdot_ino(&self, dir_ino: u64, parent_path: &str, parent_ino: u64) -> (r: u64)
        ensures
            r == dotdot_spec(self.root_path(), dir_ino, parent_path@, parent_ino),
    {
        if dir_ino == FUSE_ROOT_ID || String::from_str(parent_path) == *self.root() {
            FUSE_ROOT_ID
        } else {
            parent_ino
        }
    }

    /// ReadDirectory: the real path of a directory to list.
    pub fn readdir(&self, ino: u64) -> (r: Result<String, i32>)
        ensures
            string_result(r) == kind_path(self.table(), ino, FileKind::Directory, ENOTDIR),
    {
        self.path_of_kind(ino, FileKind::Directory, ENOTDIR)
    }

    fn open_kind(&self, ino: u64, flags: i32, want: FileKind, mismatch: i32) -> (r: Result<OpenPlan, i32>)
        ensures
            plan_result(r) == open_spec(self.table(), ino, flags, want, mismatch),
    {
        match open_mode(flags) {
            Err(c) => Err(c),
            Ok(m) => match self.path_of_kind(ino, want, mismatch) {
                Err(c) => Err(c),
                Ok(path) => Ok(OpenPlan { path, read: m.read, write: m.write }),
            },
        }
    }

    /// Open: validates the flags, then that `ino` is a regular file.
    pub fn open(&self, ino: u64, flags: i32) -> (r: Result<OpenPlan, i32>)
        ensures
            plan_result(r) == open_spec(self.table(), ino, flags, FileKind::File, EISDIR),
    {
        self.open_kind(ino, flags, FileKind::File, EISDIR)
    }

    /// OpenDirectory: validates the flags, then that `ino` is a directory.
    pub fn opendir(&self, ino: u64, flags: i32) -> (r: Result<OpenPlan, i32>)
        ensures
            plan_result(r) == open_spec(self.table(), ino, flags, FileKind::Directory, ENOTDIR),
    {
        self.open_kind(ino, flags, FileKind::Directory, ENOTDIR)
    }

    /// Access: the permission check against the cached owner, group and mode.
    pub fn access(&self, ino: u64, uid: u32, gid: u32, mask: i32) -> (r: Result<(), i32>)
        ensures
            r == access_spec(self.table(), ino, uid, gid, mask),
    {
        match self.getattr(ino) {
            Err(c) => Err(c),
            Ok(a) => {
                if check_access(a.uid, a.gid, a.mode, uid, gid, mask) {
                    Ok(())
                } else {
                    Err(EACCES)
                }
            },
        }
    }

    /// SetAttributes: picks the one change to carry out, checking that a
    /// mode change comes from the owner or root. `now` is the seconds that
    /// a change "to now" stands for.
    pub fn setattr(&self, ino: u64, req_uid: u32, changes: AttrChanges, now: i64) -> (r: Result<
        SetAttrPlan,
        i32,
    >)
        ensures
            setattr_result(r) == plan_setattr_spec(self.table(), ino, req_uid, changes, now),
    {
        let a = match self.getattr(ino) {
            Err(c) => {
                return Err(c);
            },
            Ok(a) => a,
        };
        let action = if let Some(mode) = changes.mode {
            if req_uid != 0 && req_uid != a.uid {
                return Err(EPERM);
            }
            AttrAction::Chmod(mode)
        } else if changes.uid.is_some() || changes.gid.is_some() {
            AttrAction::Chown(changes.uid, changes.gid)
        } else if let Some(size) = changes.size {
            AttrAction::Truncate(size)
        } else if let Some(t) = changes.atime {
            AttrAction::SetTimes(resolve_time(t, now), a.mtime.0)
        } else if let Some(t) = changes.mtime {
            AttrAction::SetTimes(a.atime.0, resolve_time(t, now))
        } else {
            AttrAction::Unchanged
        };
        Ok(SetAttrPlan { path: a.real_path.clone(), action })
    }
}

} // verus!
