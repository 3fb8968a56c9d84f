//! Typed outcomes of the file-copy system calls.

use vstd::prelude::*;

use crate::sys;

verus! {

/// The error of a failed system call: the OS error code it left behind.
#[derive(Clone, Copy, Debug, PartialEq, Eq, Structural)]
pub struct OsError {
    pub code: i32,
}

impl OsError {
    /// The platform error code.
    pub fn raw_os_error(&self) -> (r: i32)
        ensures
            r == self.code,
    {
        self.code
    }
}

/// Whether a raw return value reports failure: every wrapped call fails with -1.
pub open spec fn failed(raw: i64) -> bool {
    raw == -1
}

/// Translates a raw return value: -1 is a failure carrying `errno`, any other
/// value a success carrying `retval`.
pub fn result_with_errno<T>(result: i64, retval: T, errno: i32) -> (r: Result<T, OsError>)
    ensures
        failed(result) ==> r == Err::<T, OsError>(OsError { code: errno }),
        !failed(result) ==> r == Ok::<T, OsError>(retval),
{
    if result == -1 {
        Err(OsError { code: errno })
    } else {
        Ok(retval)
    }
}

/// Translates a raw return value, to be called right after the system call
/// that produced it: -1 is a failure carrying the thread's last OS error code,
/// any other value a success carrying `retval`.
pub fn result_or_errno<T>(result: i64, retval: T) -> (r: Result<T, OsError>)
    ensures
        failed(result) <==> r is Err,
        !failed(result) ==> r == Ok::<T, OsError>(retval),
{
    if result == -1 {
        let errno = sys::last_os_errno().unwrap();
        result_with_errno(result, retval, errno)
    } else {
        Ok(retval)
    }
}

/// The byte count reported by a range copy: -1 is a failure, any other value
/// the number of bytes copied.
pub fn copied_bytes(raw: i64) -> (r: Result<u64, OsError>)
    ensures
        failed(raw) <==> r is Err,
        !failed(raw) ==> r == Ok::<u64, OsError>(raw as u64),
{
    result_or_errno(raw, raw as u64)
}

/// The origin of a seek, the `whence` of `lseek(2)`.
#[derive(Clone, Copy, Debug, PartialEq, Eq, Structural)]
pub enum Wence {
    Start,
    Cur,
    End,
    Data,
    Hole,
}

impl Wence {
    /// The platform's `whence` value for this origin.
    pub open spec fn spec_code(self) -> i32 {
        match self {
            Wence::Start => 0,
            Wence::Cur => 1,
            Wence::End => 2,
            Wence::Data => 3,
            Wence::Hole => 4,
        }
    }

    /// Whether this origin asks for the next data or the next hole.
    pub open spec fn seeks_extent(self) -> bool {
        self is Data || self is Hole
    }

    /// The platform's `whence` value for this origin.
    pub fn code(&self) -> (r: i32)
        ensures
            r == self.spec_code(),
    {
        match self {
            Wence::Start => sys::seek_set(),
            Wence::Cur => sys::seek_cur(),
            Wence::End => sys::seek_end(),
            Wence::Data => sys::seek_data(),
            Wence::Hole => sys::seek_hole(),
        }
    }
}

/// The outcome of a seek: the new offset, or the end of the extents of the
/// kind that was asked for.
#[derive(Clone, Copy, Debug, PartialEq, Eq, Structural)]
pub enum SeekOff {
    Offset(u64),
    EOF,
}

/// What a seek with origin `wence` yields when `lseek` returned `raw` and left
/// `errno` behind.
pub open spec fn seek_outcome(raw: i64, wence: Wence, errno: i32) -> Result<SeekOff, OsError> {
    if !failed(raw) {
        Ok(SeekOff::Offset(raw as u64))
    } else if wence.seeks_extent() && errno == sys::no_such_address() {
        Ok(SeekOff::EOF)
    } else {
        Err(OsError { code: errno })
    }
}

/// Translates the result of a seek, given the error code it left behind: a
/// data or hole seek that found no such address is the end of the extents.
pub fn seek_result_with_errno(raw: i64, wence: Wence, errno: i32) -> (r: Result<SeekOff, OsError>)
    ensures
        r == seek_outcome(raw, wence, errno),
{
    if raw == -1 {
        if (wence == Wence::Data || wence == Wence::Hole) && errno == sys::enxio() {
            Ok(SeekOff::EOF)
        } else {
            Err(OsError { code: errno })
        }
    } else {
        Ok(SeekOff::Offset(raw as u64))
    }
}

/// Translates the result of a seek, to be called right after the `lseek` that
/// produced it.
pub fn seek_result(raw: i64, wence: Wence) -> (r: Result<SeekOff, OsError>)
    ensures
        !failed(raw) ==> r == Ok::<SeekOff, OsError>(SeekOff::Offset(raw as u64)),
        failed(raw) ==> r is Err || r == Ok::<SeekOff, OsError>(SeekOff::EOF),
        failed(raw) && !wence.seeks_extent() ==> r is Err,
        exists|errno: i32| r == seek_outcome(raw, wence, errno),
{
    if raw == -1 {
        let errno = sys::last_os_errno().unwrap();
        seek_result_with_errno(raw, wence, errno)
    } else {
        seek_result_with_errno(raw, wence, 0)
    }
}

/// The part of a file's status that the sparseness estimate reads.
#[derive(Clone, Copy, Debug, PartialEq, Eq, Structural)]
pub struct FileStat {
    /// Logical length in bytes (`st_size`).
    pub size: i64,
    /// Allocated blocks (`st_blocks`).
    pub blocks: i64,
    /// Preferred block size for I/O (`st_blksize`).
    pub block_size: i64,
}

/// The number of whole blocks a file's length fills: for a positive block
/// size, the quotient rounded toward zero.
pub open spec fn blocks_filled(st: FileStat) -> int {
    let size = st.size as int;
    let block_size = st.block_size as int;
    if size >= 0 {
        size / block_size
    } else {
        -((-size) / block_size)
    }
}

/// Whether a file with this status has fewer allocated blocks than its length
/// would fill.
pub open spec fn looks_sparse(st: FileStat) -> bool {
    st.blocks < blocks_filled(st)
}

/// Guesses whether a file is sparse from its status: it has fewer allocated
/// blocks than its length divided by its block size.
pub fn probably_sparse_stat(st: &FileStat) -> (r: bool)
    requires
        st.block_size > 0,
    ensures
        r == looks_sparse(*st),
{
    st.blocks < st.size / st.block_size
}

/// A file that has no allocated blocks and is at least one block long is
/// estimated sparse, and a seek to its next data, which the kernel answers
/// with "no such address", reports the end of the extents.
pub proof fn lemma_unwritten_file(st: FileStat, raw: i64, errno: i32)
    requires
        st.block_size > 0,
        st.blocks == 0,
        st.size >= st.block_size,
        failed(raw),
        errno == sys::no_such_address(),
    ensures
        looks_sparse(st),
        seek_outcome(raw, Wence::Data, errno) == Ok::<SeekOff, OsError>(SeekOff::EOF),
{
    vstd::arithmetic::div_mod::lemma_div_is_ordered(
        st.block_size as int,
        st.size as int,
        st.block_size as int,
    );
    vstd::arithmetic::div_mod::lemma_div_by_self(st.block_size as int);
}

/// A seek that succeeds reports the offset the kernel returned, unchanged,
/// whatever its origin: a data seek gives the offset of the first data byte
/// at or after the one asked for.
pub proof fn lemma_seek_reports_offset(raw: i64, wence: Wence, errno: i32)
    requires
        raw >= 0,
    ensures
        seek_outcome(raw, wence, errno) matches Ok(SeekOff::Offset(off)) && off == raw,
{
}

} // verus!
