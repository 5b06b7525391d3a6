use vstd::prelude::*;

verus! {

/// Existence-only request.
pub const F_OK: i32 = 0;

/// Read permission request.
pub const R_OK: i32 = 4;

/// Write permission request.
pub const W_OK: i32 = 2;

/// Execute permission request.
pub const X_OK: i32 = 1;

/// The permission triad that applies to a non-root requester: the owner's
/// bits when the uid matches, else the group's when the gid matches, else
/// the others'. Shifted so that the triad sits in the low bits.
pub open spec fn selected_triad(file_uid: u32, file_gid: u32, file_mode: u32, uid: u32, gid: u32) -> i32 {
    let m = file_mode as i32;
    if uid == file_uid {
        m >> 6
    } else if gid == file_gid {
        m >> 3
    } else {
        m
    }
}

/// Whether any of the owner, group or other execute bits is set.
pub open spec fn any_exec_bit(file_mode: u32) -> bool {
    file_mode & 0o111 != 0
}

/// The access decision: existence always holds; root is granted reading and
/// writing, and executing only where some execute bit is set; anyone else
/// needs every requested bit in the triad that applies to them.
pub open spec fn access_granted(
    file_uid: u32,
    file_gid: u32,
    file_mode: u32,
    uid: u32,
    gid: u32,
    mask: i32,
) -> bool {
    if mask == F_OK {
        true
    } else if uid == 0 {
        mask & X_OK == 0 || any_exec_bit(file_mode)
    } else {
        mask & !selected_triad(file_uid, file_gid, file_mode, uid, gid) == 0
    }
}

/// Decides whether a requester may access an entry in the way `mask` asks.
pub fn check_access(file_uid: u32, file_gid: u32, file_mode: u32, uid: u32, gid: u32, mask: i32) -> (r: bool)
    ensures
        r == access_granted(file_uid, file_gid, file_mode, uid, gid, mask),
{
    if mask == F_OK {
        return true;
    }
    let mode: i32 = file_mode as i32;
    if uid == 0 {
        let outstanding: i32 = mask & X_OK & !(mode >> 6) & !(mode >> 3) & !mode;
        assert(((mask & 1i32 & !(mode >> 6i32) & !(mode >> 3i32) & !mode) == 0) <==> ((mask & 1i32) == 0
            || (file_mode & 0o111u32) != 0)) by (bit_vector)
            requires
                mode == file_mode as i32,
        ;
        return outstanding == 0;
    }
    let triad: i32 = if uid == file_uid {
        mode >> 6
    } else if gid == file_gid {
        mode >> 3
    } else {
        mode
    };
    mask & !triad == 0
}

} // verus!
