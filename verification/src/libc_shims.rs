//! Answers of the libc functions devkitA64's newlib lacks (`sysconf`,
//! `getrandom`), with the constants of devkitA64's `sys/unistd.h`.

use vstd::prelude::*;

verus! {

/// `_SC_PAGESIZE` and `_SC_NPROCESSORS_ONLN` in devkitA64's `sys/unistd.h`.
pub const SC_PAGESIZE: i32 = 8;
pub const SC_NPROCESSORS_ONLN: i32 = 10;

/// The Switch page size, and the cores homebrew may schedule on (the OS keeps
/// the fourth core of the Tegra X1).
pub const PAGE_SIZE: i64 = 0x1000;
pub const USABLE_CORES: i64 = 3;

/// `sysconf`: the two queries that get asked are answered; anything else is
/// -1, the documented "no determinate limit" reply.
pub open spec fn sysconf_value(name: i32) -> i64 {
    if name == SC_PAGESIZE {
        PAGE_SIZE
    } else if name == SC_NPROCESSORS_ONLN {
        USABLE_CORES
    } else {
        -1i64
    }
}

pub fn sysconf_answer(name: i32) -> (r: i64)
    ensures
        r == sysconf_value(name),
{
    if name == SC_PAGESIZE {
        PAGE_SIZE
    } else if name == SC_NPROCESSORS_ONLN {
        USABLE_CORES
    } else {
        -1i64
    }
}

/// What `getrandom` returns: -1 for a null buffer; otherwise the whole buffer
/// is filled (libnx's `randomGet` cannot fail or short-read) and its length
/// is returned as `isize`.
pub fn getrandom_result(buffer_is_null: bool, buffer_len: usize) -> (r: isize)
    ensures
        r == (if buffer_is_null { -1isize } else { buffer_len as isize }),
{
    if buffer_is_null {
        -1
    } else {
        buffer_len as isize
    }
}

} // verus!
