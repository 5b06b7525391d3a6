use cairn_fuse::access::{check_access, F_OK, R_OK, W_OK, X_OK};
use cairn_fuse::errno::{
    open_failure_code, os_error_code, OpenFailure, EACCES, EEXIST, EINVAL, EIO, ENOENT,
};
use cairn_fuse::lifecycle::{marker_path, step, LifeAction, LifeEvent, Phase};
use cairn_fuse::mode::{as_file_kind, kind_of_mode, FileKind};
use cairn_fuse::path::join_path;
use cairn_fuse::request::{open_mode, OpenMode};
use cairn_fuse::time::{signed_time, system_time_from_time, time_from_system_time, time_now};
use std::time::{Duration, SystemTime, UNIX_EPOCH};

#[test]
fn existence_is_always_granted() {
    assert!(check_access(1, 1, 0, 5, 5, F_OK));
    assert!(check_access(1, 1, 0o100000, 0, 0, F_OK));
    assert!(check_access(1, 1, 0o777, 5, 5, F_OK));
}

#[test]
fn root_without_exec_bits() {
    assert!(!check_access(1000, 1000, 0o100644, 0, 0, X_OK));
    assert!(check_access(1000, 1000, 0o100644, 0, 0, R_OK));
    assert!(check_access(1000, 1000, 0o100644, 0, 0, W_OK));
    assert!(check_access(1000, 1000, 0o100000, 0, 0, R_OK | W_OK));
    assert!(!check_access(1000, 1000, 0o100000, 0, 0, R_OK | X_OK));
}

#[test]
fn root_with_any_exec_bit() {
    assert!(check_access(1000, 1000, 0o100100, 0, 0, X_OK));
    assert!(check_access(1000, 1000, 0o100010, 0, 0, X_OK));
    assert!(check_access(1000, 1000, 0o100001, 0, 0, X_OK));
}

#[test]
fn triad_is_chosen_by_identity() {
    // owner rw-, group r--, other ---
    let mode = 0o100640;
    assert!(check_access(10, 20, mode, 10, 99, R_OK | W_OK));
    assert!(!check_access(10, 20, mode, 10, 99, X_OK));
    assert!(check_access(10, 20, mode, 11, 20, R_OK));
    assert!(!check_access(10, 20, mode, 11, 20, W_OK));
    assert!(!check_access(10, 20, mode, 11, 21, R_OK));
    // the owner's triad applies even where the group's would grant more
    assert!(!check_access(10, 20, 0o100070, 10, 20, R_OK));
}

#[test]
fn error_translation() {
    assert_eq!(os_error_code(Some(ENOENT)), ENOENT);
    assert_eq!(os_error_code(Some(28)), 28);
    assert_eq!(os_error_code(None), EIO);
    assert_eq!(open_failure_code(OpenFailure::NotFound), ENOENT);
    assert_eq!(open_failure_code(OpenFailure::PermissionDenied), EACCES);
    assert_eq!(open_failure_code(OpenFailure::AlreadyExists), EEXIST);
    assert_eq!(open_failure_code(OpenFailure::InvalidInput), EINVAL);
    assert_eq!(open_failure_code(OpenFailure::Other), EIO);
}

#[test]
fn open_flag_classes() {
    assert_eq!(open_mode(0), Ok(OpenMode { access: R_OK, read: true, write: false }));
    assert_eq!(open_mode(0x20), Ok(OpenMode { access: X_OK, read: true, write: false }));
    assert_eq!(open_mode(1), Ok(OpenMode { access: W_OK, read: false, write: true }));
    assert_eq!(open_mode(2), Ok(OpenMode { access: R_OK | W_OK, read: true, write: true }));
    assert_eq!(open_mode(1 | 0o1000), Ok(OpenMode { access: W_OK, read: false, write: true }));
    assert_eq!(open_mode(3), Err(EINVAL));
    assert_eq!(open_mode(0o1000), Err(EACCES));
    assert_eq!(open_mode(0o1000 | 0x20), Err(EACCES));
}

#[test]
fn kinds_from_modes() {
    assert_eq!(as_file_kind(0o100644), FileKind::File);
    assert_eq!(as_file_kind(0o040755), FileKind::Directory);
    assert_eq!(as_file_kind(0o120777), FileKind::Symlink);
    assert_eq!(kind_of_mode(0o100644), Some(FileKind::File));
    assert_eq!(kind_of_mode(0o010644), None);
    assert_eq!(kind_of_mode(0o140755), None);
    assert_eq!(kind_of_mode(0o020644), None);
}

#[test]
fn paths_join_with_one_separator() {
    assert_eq!(join_path("/R", "a.txt"), "/R/a.txt");
    assert_eq!(join_path("/R/", "a.txt"), "/R/a.txt");
    assert_eq!(join_path("/", "a"), "/a");
    assert_eq!(join_path("", "a"), "a");
    assert_eq!(join_path("/R/d", "é"), "/R/d/é");
    assert_eq!(marker_path("/R"), "/R/.ready-marker");
}

#[test]
fn signed_time_of_distances() {
    assert_eq!(signed_time(false, 5, 7), (5, 7));
    assert_eq!(signed_time(true, 5, 7), (-5, 7));
    assert_eq!(signed_time(true, 1 << 63, 0), (i64::MIN, 0));
    assert_eq!(signed_time(true, u64::MAX, 0), (i64::MIN, 0));
    assert_eq!(signed_time(false, u64::MAX, 1), (i64::MAX, 1));
}

#[test]
fn time_conversions_round_trip() {
    assert_eq!(time_from_system_time(&UNIX_EPOCH), (0, 0));
    let later = UNIX_EPOCH + Duration::new(1_700_000_000, 250);
    assert_eq!(time_from_system_time(&later), (1_700_000_000, 250));
    let earlier = UNIX_EPOCH - Duration::new(86_400, 0);
    assert_eq!(time_from_system_time(&earlier), (-86_400, 0));
    assert_eq!(system_time_from_time(1_700_000_000, 250), later);
    assert_eq!(system_time_from_time(-86_400, 0), earlier);
    assert_eq!(time_from_system_time(&system_time_from_time(-5, 7)), (-5, 7));
    assert_eq!(time_from_system_time(&system_time_from_time(12, 999_999_999)), (12, 999_999_999));
    assert_eq!(time_from_system_time(&system_time_from_time(0, 0)), (0, 0));
    assert_eq!(time_from_system_time(&system_time_from_time(-1, 500)), (-1, 500));
    assert_eq!(system_time_from_time(-5, 7), UNIX_EPOCH - Duration::new(5, 7));
    assert_eq!(time_from_system_time(&system_time_from_time(i64::MAX, 0)), (i64::MAX, 0));
}

#[test]
fn now_is_after_the_epoch() {
    let before = SystemTime::now().duration_since(UNIX_EPOCH).unwrap().as_secs() as i64;
    let (secs, nanos) = time_now();
    assert!(secs >= before);
    assert!(nanos < 1_000_000_000);
}

#[test]
fn lifecycle_runs_in_order() {
    let (p, a) = step(Phase::Uninitialized, LifeEvent::MountStarted);
    assert_eq!((p, a), (Phase::Walking, LifeAction::WalkTree));
    let (p, a) = step(p, LifeEvent::TablePopulated);
    assert_eq!((p, a), (Phase::Ready, LifeAction::CreateMarker));
    let (p, a) = step(p, LifeEvent::MarkerCreated);
    assert_eq!((p, a), (Phase::Mounted, LifeAction::Nothing));
    let (p, a) = step(p, LifeEvent::Interrupted);
    assert_eq!((p, a), (Phase::ShuttingDown, LifeAction::RemoveMarkerAndRelease));
    let (q, a) = step(p, LifeEvent::TeardownNotified);
    assert_eq!((q, a), (Phase::ShuttingDown, LifeAction::Nothing));
    let (p, a) = step(p, LifeEvent::Released);
    assert_eq!((p, a), (Phase::Unmounted, LifeAction::Nothing));
}

#[test]
fn lifecycle_ignores_out_of_order_events() {
    assert_eq!(step(Phase::Uninitialized, LifeEvent::TablePopulated), (Phase::Uninitialized, LifeAction::Nothing));
    assert_eq!(step(Phase::Mounted, LifeEvent::TablePopulated), (Phase::Mounted, LifeAction::Nothing));
    assert_eq!(step(Phase::Unmounted, LifeEvent::Interrupted), (Phase::Unmounted, LifeAction::Nothing));
    assert_eq!(
        step(Phase::Walking, LifeEvent::TeardownNotified),
        (Phase::ShuttingDown, LifeAction::RemoveMarkerAndRelease)
    );
}
