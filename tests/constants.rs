use cairn_fuse::access::{F_OK, R_OK, W_OK, X_OK};
use cairn_fuse::errno::{EACCES, EEXIST, EINVAL, EIO, EISDIR, ENOENT, ENOSYS, ENOTDIR, EPERM};
use cairn_fuse::mode::{S_IFDIR, S_IFLNK, S_IFMT, S_IFREG};
use cairn_fuse::request::{O_ACCMODE, O_RDONLY, O_RDWR, O_TRUNC, O_WRONLY};

#[test]
fn error_codes_match_the_platform() {
    assert_eq!(EPERM, libc::EPERM);
    assert_eq!(ENOENT, libc::ENOENT);
    assert_eq!(EIO, libc::EIO);
    assert_eq!(EACCES, libc::EACCES);
    assert_eq!(EEXIST, libc::EEXIST);
    assert_eq!(ENOTDIR, libc::ENOTDIR);
    assert_eq!(EISDIR, libc::EISDIR);
    assert_eq!(EINVAL, libc::EINVAL);
    assert_eq!(ENOSYS, libc::ENOSYS);
}

#[test]
fn mode_bits_match_the_platform() {
    assert_eq!(S_IFMT, libc::S_IFMT as u32);
    assert_eq!(S_IFREG, libc::S_IFREG as u32);
    assert_eq!(S_IFDIR, libc::S_IFDIR as u32);
    assert_eq!(S_IFLNK, libc::S_IFLNK as u32);
}

#[test]
fn access_and_open_flags_match_the_platform() {
    assert_eq!(F_OK, libc::F_OK);
    assert_eq!(R_OK, libc::R_OK);
    assert_eq!(W_OK, libc::W_OK);
    assert_eq!(X_OK, libc::X_OK);
    assert_eq!(O_ACCMODE, libc::O_ACCMODE);
    assert_eq!(O_RDONLY, libc::O_RDONLY);
    assert_eq!(O_WRONLY, libc::O_WRONLY);
    assert_eq!(O_RDWR, libc::O_RDWR);
    assert_eq!(O_TRUNC, libc::O_TRUNC);
}
