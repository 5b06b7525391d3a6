//! Operation engine of a mirroring userspace filesystem: the inode-indexed
//! attribute table, path resolution, the per-request decisions of each
//! handler, the permission check and the mount lifecycle. The real
//! filesystem calls are made by the caller, which hands their outcomes in
//! as plain values.

pub mod access;
pub mod attrs;
pub mod engine;
pub mod errno;
pub mod handlers;
pub mod laws;
pub mod lifecycle;
pub mod mode;
pub mod path;
pub mod request;
pub mod time;

pub use access::check_access;
pub use attrs::{InodeAttributes, RawMetadata};
pub use engine::{TracerFS, WalkEntry, FUSE_ROOT_ID};
pub use mode::{as_file_kind, kind_of_mode, FileKind};
pub use time::{system_time_from_time, time_from_system_time, time_now};
