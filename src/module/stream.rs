//! The decisions of the stream callbacks that the native library calls
//! while it reads a module from a stream.

use vstd::prelude::*;

verus! {

pub const SEEK_SET: i32 = 0;

pub const SEEK_CUR: i32 = 1;

pub const SEEK_END: i32 = 2;

/// A seek request, in the terms of a seekable byte source.
#[derive(Debug, Clone, Copy, PartialEq, Eq, Structural)]
pub enum StreamSeek {
    /// To a position counted from the start.
    Start(u64),
    /// By an offset from the current position.
    Current(i64),
    /// By an offset from the end.
    End(i64),
}

/// The seek request that a native offset and origin stand for, `None` for
/// an unknown origin. An offset from the start is read as unsigned.
pub open spec fn seek_of(offset: i64, whence: i32) -> Option<StreamSeek> {
    if whence == SEEK_SET {
        Some(StreamSeek::Start(offset as u64))
    } else if whence == SEEK_CUR {
        Some(StreamSeek::Current(offset))
    } else if whence == SEEK_END {
        Some(StreamSeek::End(offset))
    } else {
        None
    }
}

/// Decodes the arguments of the native seek callback.
pub fn seek_request(offset: i64, whence: i32) -> (r: Option<StreamSeek>)
    ensures
        r == seek_of(offset, whence),
{
    if whence == SEEK_SET {
        Some(StreamSeek::Start(offset as u64))
    } else if whence == SEEK_CUR {
        Some(StreamSeek::Current(offset))
    } else if whence == SEEK_END {
        Some(StreamSeek::End(offset))
    } else {
        None
    }
}

} // verus!
