//! Frames: blocks of data with their time stamps and flags.

use vstd::prelude::*;
use crate::stream::block::Block;
use crate::tick::Tick;

verus! {

/// The flags that a frame can carry.
#[derive(Copy, Clone, PartialEq, Eq, Debug, Structural)]
pub enum FrameFlag {
    Discontinuity,
    /// An intra frame: a point at which decoding can start.
    TypeI,
    TypeP,
    TypeB,
    TypePB,
    Header,
    EndOfSequence,
    Scrambled,
    Preroll,
    Corrupted,
    AuEnd,
    TopFieldFirst,
    BottomFieldFirst,
    SingleField,
}

impl FrameFlag {
    /// The bit of this flag in the flags word of a frame.
    pub open spec fn spec_bit(self) -> u32 {
        match self {
            FrameFlag::Discontinuity => 0x0001,
            FrameFlag::TypeI => 0x0002,
            FrameFlag::TypeP => 0x0004,
            FrameFlag::TypeB => 0x0008,
            FrameFlag::TypePB => 0x0010,
            FrameFlag::Header => 0x0020,
            FrameFlag::EndOfSequence => 0x0040,
            FrameFlag::Scrambled => 0x0100,
            FrameFlag::Preroll => 0x0200,
            FrameFlag::Corrupted => 0x0400,
            FrameFlag::AuEnd => 0x0800,
            FrameFlag::TopFieldFirst => 0x1000,
            FrameFlag::BottomFieldFirst => 0x2000,
            FrameFlag::SingleField => 0x4000,
        }
    }

    /// The bit of this flag in the flags word of a frame.
    pub fn bit(self) -> (b: u32)
        ensures
            b == self.spec_bit(),
    {
        match self {
            FrameFlag::Discontinuity => 0x0001,
            FrameFlag::TypeI => 0x0002,
            FrameFlag::TypeP => 0x0004,
            FrameFlag::TypeB => 0x0008,
            FrameFlag::TypePB => 0x0010,
            FrameFlag::Header => 0x0020,
            FrameFlag::EndOfSequence => 0x0040,
            FrameFlag::Scrambled => 0x0100,
            FrameFlag::Preroll => 0x0200,
            FrameFlag::Corrupted => 0x0400,
            FrameFlag::AuEnd => 0x0800,
            FrameFlag::TopFieldFirst => 0x1000,
            FrameFlag::BottomFieldFirst => 0x2000,
            FrameFlag::SingleField => 0x4000,
        }
    }
}

/// A frame: a payload with its stamps.
#[derive(Debug, Clone, PartialEq, Eq)]
pub struct Frame {
    pub payload: Vec<u8>,
    /// The presentation time.
    pub pts: Tick,
    /// The decoding time.
    pub dts: Tick,
    pub length: Tick,
    pub samples: u32,
    pub flags: u32,
}

/// What a [`Frame`] stands for.
pub struct FrameView {
    pub payload: Seq<u8>,
    pub pts: Tick,
    pub dts: Tick,
    pub length: Tick,
    pub samples: u32,
    pub flags: u32,
}

impl View for Frame {
    type V = FrameView;

    open spec fn view(&self) -> FrameView {
        FrameView {
            payload: self.payload@,
            pts: self.pts,
            dts: self.dts,
            length: self.length,
            samples: self.samples,
            flags: self.flags,
        }
    }
}

impl FrameView {
    /// The frame that holds `payload` and no stamp: its dates are invalid, its
    /// flags clear.
    pub open spec fn bare(payload: Seq<u8>) -> FrameView {
        FrameView { payload, pts: Tick(0), dts: Tick(0), length: Tick(0), samples: 0, flags: 0 }
    }

    /// Whether every bit of `flag` is set.
    pub open spec fn has_flag(self, flag: FrameFlag) -> bool {
        self.flags & flag.spec_bit() == flag.spec_bit()
    }
}

impl Frame {
    /// Makes a frame of a block. The frame has no stamp yet.
    pub fn from_block(block: Block) -> (f: Frame)
        ensures
            f@ == FrameView::bare(block.data@),
    {
        Frame {
            payload: block.data,
            pts: Tick(0),
            dts: Tick(0),
            length: Tick(0),
            samples: 0,
            flags: 0,
        }
    }

    /// The presentation time.
    pub fn pts(&self) -> (t: Tick)
        ensures
            t == self.pts,
    {
        self.pts
    }

    /// The decoding time.
    pub fn dts(&self) -> (t: Tick)
        ensures
            t == self.dts,
    {
        self.dts
    }

    /// The duration.
    pub fn length(&self) -> (t: Tick)
        ensures
            t == self.length,
    {
        self.length
    }

    /// The number of samples.
    pub fn samples(&self) -> (n: u32)
        ensures
            n == self.samples,
    {
        self.samples
    }

    /// Sets the presentation time.
    pub fn set_pts(&mut self, pts: Tick)
        ensures
            final(self)@ == (FrameView { pts, ..old(self)@ }),
    {
        self.pts = pts;
    }

    /// Sets the decoding time.
    pub fn set_dts(&mut self, dts: Tick)
        ensures
            final(self)@ == (FrameView { dts, ..old(self)@ }),
    {
        self.dts = dts;
    }

    /// Sets the duration.
    pub fn set_length(&mut self, length: Tick)
        ensures
            final(self)@ == (FrameView { length, ..old(self)@ }),
    {
        self.length = length;
    }

    /// Sets the number of samples.
    pub fn set_samples(&mut self, samples: u32)
        ensures
            final(self)@ == (FrameView { samples, ..old(self)@ }),
    {
        self.samples = samples;
    }

    /// The payload.
    pub fn payload(&self) -> (p: &[u8])
        ensures
            p@ == self.payload@,
    {
        self.payload.as_slice()
    }

    /// Tells whether a flag is set.
    pub fn has_flag(&self, flag: FrameFlag) -> (r: bool)
        ensures
            r == self@.has_flag(flag),
    {
        let bit: u32 = flag.bit();
        self.flags & bit == bit
    }

    /// Sets a flag.
    pub fn set_flag(&mut self, flag: FrameFlag)
        ensures
            final(self)@ == (FrameView { flags: old(self).flags | flag.spec_bit(), ..old(self)@ }),
            final(self)@.has_flag(flag),
    {
        let bit: u32 = flag.bit();
        let flags: u32 = self.flags;
        assert((flags | bit) & bit == bit) by (bit_vector);
        self.flags = flags | bit;
    }

    /// Clears a flag.
    pub fn unset_flag(&mut self, flag: FrameFlag)
        ensures
            final(self)@ == (FrameView {
                flags: old(self).flags & !flag.spec_bit(),
                ..old(self)@
            }),
            !final(self)@.has_flag(flag),
    {
        let bit: u32 = flag.bit();
        let flags: u32 = self.flags;
        assert(bit != 0 ==> (flags & !bit) & bit != bit) by (bit_vector);
        self.flags = flags & !bit;
    }
}

} // verus!
