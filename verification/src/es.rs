//! Descriptions of elementary streams.

use vstd::prelude::*;
use crate::fourcc::FourCC;

verus! {

/// The kind of an elementary stream.
#[allow(non_camel_case_types)]
#[derive(Debug, Clone, Copy, PartialEq, Eq, Structural)]
pub enum EsFormatCategory {
    UNKNOWN_ES,
    VIDEO_ES,
    AUDIO_ES,
    SPU_ES,
    DATA_ES,
}

/// The audio part of a stream description. Zero stands for "not known".
#[derive(Debug, Clone, Copy, PartialEq, Eq, Structural)]
pub struct AudioFormat {
    /// Samples per second.
    pub i_rate: u32,
    /// The number of channels.
    pub i_channels: u8,
    /// Bits per sample.
    pub i_bitspersample: u32,
}

/// The video part of a stream description. Zero stands for "not known".
#[derive(Debug, Clone, Copy, PartialEq, Eq, Structural)]
pub struct VideoFormat {
    pub i_width: u32,
    pub i_height: u32,
    pub i_visible_width: u32,
    pub i_visible_height: u32,
    /// Sample aspect ratio, numerator and denominator.
    pub i_sar_num: u32,
    pub i_sar_den: u32,
    /// Frame rate, numerator and denominator.
    pub i_frame_rate: u32,
    pub i_frame_rate_base: u32,
}

/// The description of an elementary stream, as the output sink takes it.
#[derive(Debug, Clone, Copy, PartialEq, Eq, Structural)]
pub struct EsFormat {
    pub i_cat: EsFormatCategory,
    pub i_codec: FourCC,
    /// The codec as the container named it, where that differs; else zero.
    pub i_original_fourcc: FourCC,
    pub audio_format: AudioFormat,
    pub video_format: VideoFormat,
}

impl AudioFormat {
    /// The audio format of which nothing is known.
    pub open spec fn spec_blank() -> AudioFormat {
        AudioFormat { i_rate: 0, i_channels: 0, i_bitspersample: 0 }
    }
}

impl VideoFormat {
    /// The video format of which nothing is known.
    pub open spec fn spec_blank() -> VideoFormat {
        VideoFormat {
            i_width: 0,
            i_height: 0,
            i_visible_width: 0,
            i_visible_height: 0,
            i_sar_num: 0,
            i_sar_den: 0,
            i_frame_rate: 0,
            i_frame_rate_base: 0,
        }
    }
}

impl EsFormat {
    /// The description that holds a category and a codec and nothing else.
    pub open spec fn spec_new(cat: EsFormatCategory, fourcc: FourCC) -> EsFormat {
        EsFormat {
            i_cat: cat,
            i_codec: fourcc,
            i_original_fourcc: FourCC(0),
            audio_format: AudioFormat::spec_blank(),
            video_format: VideoFormat::spec_blank(),
        }
    }

    /// Creates a description with a category and a codec.
    pub fn new(cat: EsFormatCategory, fourcc: FourCC) -> (f: EsFormat)
        ensures
            f == Self::spec_new(cat, fourcc),
    {
        EsFormat {
            i_cat: cat,
            i_codec: fourcc,
            i_original_fourcc: FourCC(0),
            audio_format: AudioFormat { i_rate: 0, i_channels: 0, i_bitspersample: 0 },
            video_format: VideoFormat {
                i_width: 0,
                i_height: 0,
                i_visible_width: 0,
                i_visible_height: 0,
                i_sar_num: 0,
                i_sar_den: 0,
                i_frame_rate: 0,
                i_frame_rate_base: 0,
            },
        }
    }

    /// Sets the codec as the container named it.
    pub fn set_original_fourcc(&mut self, orig: FourCC)
        ensures
            *final(self) == (EsFormat { i_original_fourcc: orig, ..*old(self) }),
    {
        self.i_original_fourcc = orig;
    }

    /// The audio format, if this describes an audio stream.
    pub fn audio(&self) -> (r: Option<&AudioFormat>)
        ensures
            r is Some <==> self.i_cat == EsFormatCategory::AUDIO_ES,
            r matches Some(a) ==> *a == self.audio_format,
    {
        match self.i_cat {
            EsFormatCategory::AUDIO_ES => Some(&self.audio_format),
            _ => None,
        }
    }

    /// The audio format for writing, if this describes an audio stream.
    pub fn audio_mut(&mut self) -> (r: Option<&mut AudioFormat>)
        ensures
            r is Some <==> old(self).i_cat == EsFormatCategory::AUDIO_ES,
            r matches Some(a) ==> *a == old(self).audio_format && *final(self) == (EsFormat {
                audio_format: *final(a),
                ..*old(self)
            }),
            r is None ==> *final(self) == *old(self),
    {
        match self.i_cat {
            EsFormatCategory::AUDIO_ES => Some(&mut self.audio_format),
            _ => None,
        }
    }

    /// The video format, if this describes a video stream.
    pub fn video(&self) -> (r: Option<&VideoFormat>)
        ensures
            r is Some <==> self.i_cat == EsFormatCategory::VIDEO_ES,
            r matches Some(v) ==> *v == self.video_format,
    {
        match self.i_cat {
            EsFormatCategory::VIDEO_ES => Some(&self.video_format),
            _ => None,
        }
    }

    /// The video format for writing, if this describes a video stream.
    pub fn video_mut(&mut self) -> (r: Option<&mut VideoFormat>)
        ensures
            r is Some <==> old(self).i_cat == EsFormatCategory::VIDEO_ES,
            r matches Some(v) ==> *v == old(self).video_format && *final(self) == (EsFormat {
                video_format: *final(v),
                ..*old(self)
            }),
            r is None ==> *final(self) == *old(self),
    {
        match self.i_cat {
            EsFormatCategory::VIDEO_ES => Some(&mut self.video_format),
            _ => None,
        }
    }
}

} // verus!
