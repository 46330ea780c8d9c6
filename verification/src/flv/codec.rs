//! From the codec identifiers of FLV to stream descriptions for the sink.

use vstd::prelude::*;
use crate::es::{AudioFormat, EsFormat, EsFormatCategory, VideoFormat};
use crate::flv::metadata::MetaData;
use crate::flv::parser::{
    AudioDataHeader,
    CodecId,
    SoundFormat,
    SoundRate,
    SoundSize,
    SoundType,
    VideoDataHeader,
};
use crate::fourcc::FourCC;

verus! {

/// The sink's codec for each sound format. A format that has none maps to the
/// "unknown codec" code.
pub open spec fn spec_audio_codec_id_to_fourcc(id: SoundFormat) -> FourCC {
    FourCC(
        match id {
            SoundFormat::PCM_NE | SoundFormat::PCM_LE => FourCC::VLC_CODEC_DVD_LPCM,
            SoundFormat::ADPCM => FourCC::VLC_CODEC_ADPCM_SWF,
            SoundFormat::MP3 | SoundFormat::MP3_8KHZ => FourCC::VLC_CODEC_MP3,
            SoundFormat::NELLYMOSER_16KHZ_MONO
            | SoundFormat::NELLYMOSER_8KHZ_MONO
            | SoundFormat::NELLYMOSER => FourCC::VLC_CODEC_NELLYMOSER,
            SoundFormat::PCM_ALAW => FourCC::VLC_CODEC_ALAW,
            SoundFormat::PCM_ULAW => FourCC::VLC_CODEC_MULAW,
            SoundFormat::AAC => FourCC::VLC_CODEC_MP4A,
            SoundFormat::SPEEX => FourCC::VLC_CODEC_SPEEX,
            SoundFormat::DEVICE_SPECIFIC => FourCC::VLC_CODEC_UNKNOWN,
        },
    )
}

/// The sink's codec for each video codec id.
pub open spec fn spec_video_codec_id_to_fourcc(id: CodecId) -> FourCC {
    FourCC(
        match id {
            CodecId::JPEG => FourCC::VLC_CODEC_JPEG,
            CodecId::H263 | CodecId::SORENSON_H263 => FourCC::VLC_CODEC_H263,
            CodecId::SCREEN => FourCC::VLC_CODEC_FLASHSV,
            CodecId::VP6 => FourCC::VLC_CODEC_VP6,
            CodecId::VP6A => FourCC::VLC_CODEC_VP6A,
            CodecId::SCREEN2 => FourCC::VLC_CODEC_FLASHSV2,
            CodecId::H264 => FourCC::VLC_CODEC_H264,
            CodecId::MPEG4Part2 => FourCC::VLC_CODEC_MP4V,
        },
    )
}

/// Maps a sound format to the sink's codec.
pub fn audio_codec_id_to_fourcc(id: SoundFormat) -> (f: FourCC)
    ensures
        f == spec_audio_codec_id_to_fourcc(id),
{
    match id {
        SoundFormat::PCM_NE => FourCC(FourCC::VLC_CODEC_DVD_LPCM),
        SoundFormat::ADPCM => FourCC(FourCC::VLC_CODEC_ADPCM_SWF),
        SoundFormat::MP3 => FourCC(FourCC::VLC_CODEC_MP3),
        SoundFormat::PCM_LE => FourCC(FourCC::VLC_CODEC_DVD_LPCM),
        SoundFormat::NELLYMOSER_16KHZ_MONO => FourCC(FourCC::VLC_CODEC_NELLYMOSER),
        SoundFormat::NELLYMOSER_8KHZ_MONO => FourCC(FourCC::VLC_CODEC_NELLYMOSER),
        SoundFormat::NELLYMOSER => FourCC(FourCC::VLC_CODEC_NELLYMOSER),
        SoundFormat::PCM_ALAW => FourCC(FourCC::VLC_CODEC_ALAW),
        SoundFormat::PCM_ULAW => FourCC(FourCC::VLC_CODEC_MULAW),
        SoundFormat::AAC => FourCC(FourCC::VLC_CODEC_MP4A),
        SoundFormat::SPEEX => FourCC(FourCC::VLC_CODEC_SPEEX),
        SoundFormat::MP3_8KHZ => FourCC(FourCC::VLC_CODEC_MP3),
        SoundFormat::DEVICE_SPECIFIC => FourCC(FourCC::VLC_CODEC_UNKNOWN),
    }
}

/// Maps a video codec id to the sink's codec.
pub fn video_codec_id_to_fourcc(id: CodecId) -> (f: FourCC)
    ensures
        f == spec_video_codec_id_to_fourcc(id),
{
    match id {
        CodecId::JPEG => FourCC(FourCC::VLC_CODEC_JPEG),
        CodecId::H263 => FourCC(FourCC::VLC_CODEC_H263),
        CodecId::SCREEN => FourCC(FourCC::VLC_CODEC_FLASHSV),
        CodecId::VP6 => FourCC(FourCC::VLC_CODEC_VP6),
        CodecId::VP6A => FourCC(FourCC::VLC_CODEC_VP6A),
        CodecId::SCREEN2 => FourCC(FourCC::VLC_CODEC_FLASHSV2),
        CodecId::H264 => FourCC(FourCC::VLC_CODEC_H264),
        CodecId::SORENSON_H263 => FourCC(FourCC::VLC_CODEC_H263),
        CodecId::MPEG4Part2 => FourCC(FourCC::VLC_CODEC_MP4V),
    }
}

/// Every sound format and every video codec id has a codec of the sink. The one
/// sound format without a counterpart, and no other, maps to the "unknown
/// codec" code; no video codec id maps to it.
pub proof fn lemma_codec_mapping_total(sound: SoundFormat, video: CodecId)
    ensures
        spec_audio_codec_id_to_fourcc(sound).0 == FourCC::VLC_CODEC_UNKNOWN <==> sound
            == SoundFormat::DEVICE_SPECIFIC,
        spec_video_codec_id_to_fourcc(video).0 != FourCC::VLC_CODEC_UNKNOWN,
{
}

/// The sample rate that a rate class of the audio header stands for.
pub open spec fn spec_sound_rate_hz(rate: SoundRate) -> u32 {
    match rate {
        SoundRate::_5_5KHZ => 5500,
        SoundRate::_11KHZ => 11000,
        SoundRate::_22KHZ => 22050,
        SoundRate::_44KHZ => 44100,
    }
}

/// The description of the audio stream that `audio_header` announces.
///
/// The sample rate of the metadata, where there is one, goes before the rate
/// class of the header: the class is coarse, and encoders set it wrongly.
pub open spec fn spec_audio_codec_to_es_format(
    audio_header: AudioDataHeader,
    metadata: MetaData,
) -> EsFormat {
    EsFormat {
        audio_format: AudioFormat {
            i_channels: match audio_header.sound_type {
                SoundType::SndMono => 1,
                SoundType::SndStereo => 2,
            },
            i_rate: match metadata.audio_sample_rate {
                Some(rate) => rate,
                None => spec_sound_rate_hz(audio_header.sound_rate),
            },
            i_bitspersample: match audio_header.sound_size {
                SoundSize::Snd8bit => 8,
                SoundSize::Snd16bit => 16,
            },
        },
        ..EsFormat::spec_new(
            EsFormatCategory::AUDIO_ES,
            spec_audio_codec_id_to_fourcc(audio_header.sound_format),
        )
    }
}

/// The description of the video stream that `video_header` announces.
///
/// Width and height come from the metadata and are zero without it; the
/// visible size is the full size; the sample aspect ratio is 1:1; the frame
/// rate is the one of the metadata, truncated, over 1, and is left unset
/// without it. H.264 is marked as coming in AVC framing.
pub open spec fn spec_video_codec_to_es_format(
    video_header: VideoDataHeader,
    metadata: MetaData,
) -> EsFormat {
    let width: u32 = match metadata.width {
        Some(w) => w,
        None => 0,
    };
    let height: u32 = match metadata.height {
        Some(h) => h,
        None => 0,
    };
    EsFormat {
        i_original_fourcc: if video_header.codec_id == CodecId::H264 {
            FourCC(FourCC::AVC1)
        } else {
            FourCC(0)
        },
        video_format: VideoFormat {
            i_width: width,
            i_height: height,
            i_visible_width: width,
            i_visible_height: height,
            i_sar_num: 1,
            i_sar_den: 1,
            i_frame_rate: match metadata.framerate {
                Some(rate) => rate.truncated() as u32,
                None => 0,
            },
            i_frame_rate_base: match metadata.framerate {
                Some(_) => 1,
                None => 0,
            },
        },
        ..EsFormat::spec_new(
            EsFormatCategory::VIDEO_ES,
            spec_video_codec_id_to_fourcc(video_header.codec_id),
        )
    }
}

/// Builds the description of an audio stream from its header and the metadata.
pub fn audio_codec_to_es_format(audio_header: &AudioDataHeader, metadata: &MetaData) -> (f:
    EsFormat)
    ensures
        f == spec_audio_codec_to_es_format(*audio_header, *metadata),
{
    let mut es_format: EsFormat = EsFormat::new(
        EsFormatCategory::AUDIO_ES,
        audio_codec_id_to_fourcc(audio_header.sound_format),
    );

    if let Some(audio_format) = es_format.audio_mut() {
        audio_format.i_channels = match audio_header.sound_type {
            SoundType::SndMono => 1,
            SoundType::SndStereo => 2,
        };

        if let Some(audio_sample_rate) = metadata.audio_sample_rate {
            audio_format.i_rate = audio_sample_rate;
        } else {
            audio_format.i_rate = match audio_header.sound_rate {
                SoundRate::_5_5KHZ => 5500,
                SoundRate::_11KHZ => 11000,
                SoundRate::_22KHZ => 22050,
                SoundRate::_44KHZ => 44100,
            };
        }

        audio_format.i_bitspersample = match audio_header.sound_size {
            SoundSize::Snd8bit => 8,
            SoundSize::Snd16bit => 16,
        };
    }

    es_format
}

/// Builds the description of a video stream from its header and the metadata.
pub fn video_codec_to_es_format(video_header: &VideoDataHeader, metadata: &MetaData) -> (f:
    EsFormat)
    ensures
        f == spec_video_codec_to_es_format(*video_header, *metadata),
{
    let mut es_format: EsFormat = EsFormat::new(
        EsFormatCategory::VIDEO_ES,
        video_codec_id_to_fourcc(video_header.codec_id),
    );

    if video_header.codec_id == CodecId::H264 {
        es_format.set_original_fourcc(FourCC(FourCC::AVC1));
    }

    if let Some(video_format) = es_format.video_mut() {
        video_format.i_width = match metadata.width {
            Some(w) => w,
            None => 0,
        };
        video_format.i_height = match metadata.height {
            Some(h) => h,
            None => 0,
        };
        video_format.i_visible_width = video_format.i_width;
        video_format.i_visible_height = video_format.i_height;

        if let Some(framerate) = metadata.framerate {
            video_format.i_frame_rate = framerate.to_u32();
            video_format.i_frame_rate_base = 1;
        }
        video_format.i_sar_num = 1;
        video_format.i_sar_den = 1;
    }

    es_format
}

} // verus!
