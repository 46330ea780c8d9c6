//! Which decompressor a compressed stream needs.

use vstd::prelude::*;
use crate::error::{CoreError, Result};

verus! {

/// The two framings of deflated data.
#[derive(Debug, Clone, Copy, PartialEq, Eq, Structural)]
pub enum Inflate {
    Gz,
    Zlib,
}

impl Inflate {
    /// The framing that a window size stands for: 15 for zlib, 47 (15 and the
    /// flag 32) for gzip.
    pub open spec fn spec_new(deflate: u8) -> Option<Inflate> {
        if deflate == 15 {
            Some(Inflate::Zlib)
        } else if deflate == 47 {
            Some(Inflate::Gz)
        } else {
            None
        }
    }

    /// Picks the framing by the window size.
    pub fn new(deflate: u8) -> (r: Option<Inflate>)
        ensures
            r == Self::spec_new(deflate),
    {
        match deflate {
            15 => Some(Inflate::Zlib),
            47 => Some(Inflate::Gz),
            _ => None,
        }
    }

    /// The framing that two probed bytes announce: `F8` and any byte for
    /// zlib, `1F 8B` for gzip. Anything else, and any other number of bytes,
    /// is no compressed stream.
    pub open spec fn spec_open(buf: Seq<u8>) -> Result<Inflate> {
        if buf.len() == 2 && buf[0] == 0xF8 {
            Ok(Inflate::Zlib)
        } else if buf.len() == 2 && buf[0] == 0x1F && buf[1] == 0x8B {
            Ok(Inflate::Gz)
        } else {
            Err(CoreError::Unknown)
        }
    }

    /// Picks the framing by the first two bytes of the stream.
    pub fn open(buf: &[u8]) -> (r: Result<Inflate>)
        ensures
            r == Self::spec_open(buf@),
    {
        if buf.len() != 2 {
            return Err(CoreError::Unknown);
        }
        if buf[0] == 0xF8 {
            Ok(Inflate::Zlib)
        } else if buf[0] == 0x1F && buf[1] == 0x8B {
            Ok(Inflate::Gz)
        } else {
            Err(CoreError::Unknown)
        }
    }
}

} // verus!
