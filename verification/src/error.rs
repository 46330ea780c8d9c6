//! Error management.

use vstd::prelude::*;

verus! {

/// An error number of the C side of the media framework: zero for success, a
/// negative number for a failure.
#[derive(Debug, Eq, PartialEq, Hash, Copy, Clone, Structural)]
pub struct Errno(pub i32);

impl Errno {
    /// Wraps a raw error number.
    pub fn from_raw(errno: i32) -> (e: Errno)
        ensures
            e.0 == errno,
    {
        Errno(errno)
    }

    /// The raw error number.
    pub fn to_vlc_errno(self) -> (errno: i32)
        ensures
            errno == self.0,
    {
        self.0
    }
}

/// What can go wrong in the core.
#[derive(Debug, Eq, PartialEq, Copy, Clone, Structural)]
pub enum CoreError {
    /// The media framework reported this error number.
    Core(Errno),
    /// Bytes that should have been UTF-8 were not; holds the length of the
    /// valid prefix.
    Utf8Error(usize),
    /// The operation is not implemented.
    Unimplemented,
    /// A failure without a cause: a probe that did not match, or a collaborator
    /// that gave no error number.
    Unknown,
    /// The end of the stream: nothing more can be demuxed.
    Eof,
}

/// Shortcut for results of the core.
pub type Result<T> = core::result::Result<T, CoreError>;

/// What a C status code means: zero is success, anything else is the error.
pub open spec fn spec_cvt(result: i32) -> Result<()> {
    if result != 0 {
        Err(CoreError::Core(Errno(result)))
    } else {
        Ok(())
    }
}

/// Turns a C status code into a result.
pub fn cvt(result: i32) -> (r: Result<()>)
    ensures
        r == spec_cvt(result),
{
    if result != 0 {
        Err(CoreError::Core(Errno::from_raw(result)))
    } else {
        Ok(())
    }
}

/// The low 32 bits of `v`, read as a signed number.
pub open spec fn low_i32(v: int) -> int {
    let m = v % 0x1_0000_0000;
    if m >= 0x8000_0000 {
        m - 0x1_0000_0000
    } else {
        m
    }
}

/// What a C count-or-error means: a negative number is an error code, anything
/// else the count.
pub open spec fn spec_cvr(result: isize) -> Result<usize> {
    if result < 0 {
        Err(CoreError::Core(Errno(low_i32(result as int) as i32)))
    } else {
        Ok(result as usize)
    }
}

/// Turns a C count-or-error into a result. An error code wider than 32 bits
/// keeps its low 32 bits.
pub fn cvr(result: isize) -> (r: Result<usize>)
    ensures
        r == spec_cvr(result),
{
    if result < 0 {
        let wide: i128 = result as i128;
        let m: i128 = wide % 0x1_0000_0000;
        let low: i128 = if m < 0 {
            m + 0x1_0000_0000
        } else {
            m
        };
        assert(low == (result as int) % 0x1_0000_0000) by {
            assert(wide == result as int);
        }
        let code: i128 = if low >= 0x8000_0000 {
            low - 0x1_0000_0000
        } else {
            low
        };
        Err(CoreError::Core(Errno::from_raw(code as i32)))
    } else {
        Ok(result as usize)
    }
}

} // verus!
