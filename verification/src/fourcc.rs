//! Four-character codes, which name data formats.

use vstd::prelude::*;

verus! {

/// A sequence of four bytes (mostly ASCII) that names a data format.
#[derive(Copy, Clone, Debug, PartialEq, Eq, Structural)]
pub struct FourCC(pub u32);

/// The number that holds the four bytes `a`, `b`, `c`, `d` in this order in
/// memory on a little-endian machine.
pub open spec fn spec_fourcc(a: u8, b: u8, c: u8, d: u8) -> FourCC {
    FourCC((a as int + b as int * 0x100 + c as int * 0x1_0000 + d as int * 0x100_0000) as u32)
}

/// Builds a code from its four bytes.
pub fn fourcc(a: u8, b: u8, c: u8, d: u8) -> (f: FourCC)
    ensures
        f == spec_fourcc(a, b, c, d),
{
    let a32: u32 = a as u32;
    let b32: u32 = b as u32;
    let c32: u32 = c as u32;
    let d32: u32 = d as u32;
    FourCC(a32 + b32 * 0x100 + c32 * 0x1_0000 + d32 * 0x100_0000)
}

impl FourCC {
    pub const VLC_CODEC_UNKNOWN: u32 = 0x66646e75;

    pub const VLC_CODEC_DVD_LPCM: u32 = 0x6d63706c;

    pub const VLC_CODEC_ADPCM_SWF: u32 = 0x61465753;

    pub const VLC_CODEC_MP3: u32 = 0x2033706d;

    pub const VLC_CODEC_NELLYMOSER: u32 = 0x4c4c454e;

    pub const VLC_CODEC_ALAW: u32 = 0x77616c61;

    pub const VLC_CODEC_MULAW: u32 = 0x77616c75;

    pub const VLC_CODEC_MP4A: u32 = 0x6134706d;

    pub const VLC_CODEC_SPEEX: u32 = 0x20787073;

    pub const VLC_CODEC_JPEG: u32 = 0x6765706a;

    pub const VLC_CODEC_H263: u32 = 0x33363268;

    pub const VLC_CODEC_FLASHSV: u32 = 0x31565346;

    pub const VLC_CODEC_FLASHSV2: u32 = 0x32565346;

    pub const VLC_CODEC_VP6: u32 = 0x32365056;

    pub const VLC_CODEC_VP6A: u32 = 0x41365056;

    pub const VLC_CODEC_H264: u32 = 0x34363268;

    pub const VLC_CODEC_MP4V: u32 = 0x7634706d;

    pub const AVC1: u32 = 0x31637661;

    /// Wraps a number.
    pub fn from_u32(value: u32) -> (f: FourCC)
        ensures
            f.0 == value,
    {
        FourCC(value)
    }

    /// The number inside.
    pub fn as_u32(&self) -> (v: u32)
        ensures
            v == self.0,
    {
        self.0
    }

    /// Whether this is the code for "unknown codec".
    pub fn is_unknown(&self) -> (r: bool)
        ensures
            r == (self.0 == Self::VLC_CODEC_UNKNOWN),
    {
        self.0 == Self::VLC_CODEC_UNKNOWN
    }
}

} // verus!
