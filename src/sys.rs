//! The platform values this library takes from the C library bindings, and the
//! calling thread's last OS error code.

use vstd::prelude::*;

verus! {

/// The `errno` value with which a data or hole seek reports that no such
/// extent follows the given offset.
pub open spec fn no_such_address() -> i32 {
    6
}

/// Relies on `libc::SEEK_SET`: the whence value of a seek from the start.
#[verifier::external_body]
pub(crate) fn seek_set() -> (r: i32)
    ensures
        r == 0,
{
    libc::SEEK_SET
}

/// Relies on `libc::SEEK_CUR`: the whence value of a seek from the current position.
#[verifier::external_body]
pub(crate) fn seek_cur() -> (r: i32)
    ensures
        r == 1,
{
    libc::SEEK_CUR
}

/// Relies on `libc::SEEK_END`: the whence value of a seek from the end.
#[verifier::external_body]
pub(crate) fn seek_end() -> (r: i32)
    ensures
        r == 2,
{
    libc::SEEK_END
}

/// Relies on `libc::SEEK_DATA`: the whence value of a seek to the next data.
#[verifier::external_body]
pub(crate) fn seek_data() -> (r: i32)
    ensures
        r == 3,
{
    libc::SEEK_DATA
}

/// Relies on `libc::SEEK_HOLE`: the whence value of a seek to the next hole.
#[verifier::external_body]
pub(crate) fn seek_hole() -> (r: i32)
    ensures
        r == 4,
{
    libc::SEEK_HOLE
}

/// Relies on `libc::ENXIO`: the "no such device or address" error code.
#[verifier::external_body]
pub(crate) fn enxio() -> (r: i32)
    ensures
        r == no_such_address(),
{
    libc::ENXIO
}

/// Relies on `std::io::Error::last_os_error` and `raw_os_error`: the calling
/// thread's last OS error code, which an error built by `last_os_error`
/// always carries. What the code is depends on the last failed call.
#[verifier::external_body]
pub(crate) fn last_os_errno() -> (r: Option<i32>)
    ensures
        r is Some,
{
    std::io::Error::last_os_error().raw_os_error()
}

} // verus!
