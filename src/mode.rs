use vstd::prelude::*;

verus! {

/// Mask of the POSIX file-type bits of a mode.
pub const S_IFMT: u32 = 0o170000;

/// Type bits of a regular file.
pub const S_IFREG: u32 = 0o100000;

/// Type bits of a directory.
pub const S_IFDIR: u32 = 0o040000;

/// Type bits of a symbolic link.
pub const S_IFLNK: u32 = 0o120000;

/// The kinds of entries that the mirror can expose.
#[derive(Clone, Copy, Debug, PartialEq, Eq, Structural)]
pub enum FileKind {
    File,
    Directory,
    Symlink,
}

/// The file-type bits of a mode.
pub open spec fn type_bits(mode: u32) -> u32 {
    mode & S_IFMT
}

/// Whether the type bits of `mode` name one of the supported kinds.
pub open spec fn supported_mode(mode: u32) -> bool {
    type_bits(mode) == S_IFREG || type_bits(mode) == S_IFDIR || type_bits(mode) == S_IFLNK
}

/// The kind that a supported mode describes.
pub open spec fn kind_spec(mode: u32) -> FileKind
    recommends
        supported_mode(mode),
{
    if type_bits(mode) == S_IFREG {
        FileKind::File
    } else if type_bits(mode) == S_IFLNK {
        FileKind::Symlink
    } else {
        FileKind::Directory
    }
}

/// The type bits that stand for `kind` in a mode.
pub open spec fn kind_type_bits(kind: FileKind) -> u32 {
    match kind {
        FileKind::File => S_IFREG,
        FileKind::Directory => S_IFDIR,
        FileKind::Symlink => S_IFLNK,
    }
}

/// The kind of a supported mode; any other entry type is outside what the
/// mirror serves, so callers test `kind_of_mode` first.
pub fn as_file_kind(mode: u32) -> (r: FileKind)
    requires
        supported_mode(mode),
    ensures
        r == kind_spec(mode),
{
    let bits = mode & S_IFMT;
    if bits == S_IFREG {
        FileKind::File
    } else if bits == S_IFLNK {
        FileKind::Symlink
    } else {
        FileKind::Directory
    }
}

/// The kind of `mode`, or `None` for an unsupported entry type (a pipe, a
/// socket, a device).
pub fn kind_of_mode(mode: u32) -> (r: Option<FileKind>)
    ensures
        r.is_some() == supported_mode(mode),
        r.is_some() ==> r.unwrap() == kind_spec(mode),
{
    let bits = mode & S_IFMT;
    if bits == S_IFREG || bits == S_IFDIR || bits == S_IFLNK {
        Some(as_file_kind(mode))
    } else {
        None
    }
}

} // verus!
