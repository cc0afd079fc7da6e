//! Device selection and the open-access rule.
//!
//! The event library asks its caller to open the device file with a flag
//! word; the file must come back readable for read-only or read-write
//! requests and writable for write-only or read-write requests. Device
//! selection prefers the configured override and falls back to the first
//! discovered keyboard.

use vstd::prelude::*;

verus! {

/// The access-mode bits of an open-flag word.
pub const ACCESS_MODE_MASK: i32 = 3;

/// Access mode: read-only.
pub const ACCESS_READ_ONLY: i32 = 0;

/// Access mode: write-only.
pub const ACCESS_WRITE_ONLY: i32 = 1;

/// Access mode: read-write.
pub const ACCESS_READ_WRITE: i32 = 2;

/// From the flag word the event library supplies, whether the device file
/// must be opened readable and whether writable: readable for read-only or
/// read-write requests, writable for write-only or read-write requests.
pub fn open_access(flags: i32) -> (rw: (bool, bool))
    ensures
        rw.0 == (flags & ACCESS_MODE_MASK == ACCESS_READ_ONLY || flags & ACCESS_MODE_MASK
            == ACCESS_READ_WRITE),
        rw.1 == (flags & ACCESS_MODE_MASK == ACCESS_WRITE_ONLY || flags & ACCESS_MODE_MASK
            == ACCESS_READ_WRITE),
{
    let mode = flags & ACCESS_MODE_MASK;
    (mode == ACCESS_READ_ONLY || mode == ACCESS_READ_WRITE, mode == ACCESS_WRITE_ONLY || mode
        == ACCESS_READ_WRITE)
}

/// Pick the device path to open: the override when one was given, else the
/// first discovered keyboard, else nothing — and "nothing" is fatal to
/// startup.
pub fn choose_device(override_path: Option<String>, discovered: &Vec<String>) -> (r: Option<
    String,
>)
    ensures
        override_path matches Some(p) ==> r == Some(p),
        override_path is None && discovered@.len() > 0 ==> (r matches Some(q) && q@
            == discovered@[0]@),
        override_path is None && discovered@.len() == 0 ==> r is None,
{
    match override_path {
        Some(p) => Some(p),
        None => if discovered.len() > 0 {
            Some(discovered[0].clone())
        } else {
            None
        },
    }
}

} // verus!
