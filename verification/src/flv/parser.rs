//! The binary grammar of the fixed-size headers of an FLV stream.
//!
//! Every parser takes a byte slice and gives back either the decoded record
//! with the number of bytes it took, or the reason why there is no record. No
//! parser reads beyond the slice it was given.

use vstd::prelude::*;

verus! {

/// Why a header could not be decoded.
#[derive(Debug, Clone, Copy, PartialEq, Eq, Structural)]
pub enum ParseError {
    /// The bytes do not start with the signature of the format.
    FormatMismatch,
    /// There are fewer bytes than the header has.
    ShortRead,
    /// A field holds a value that the format does not define.
    MalformedHeader,
}

/// The file header.
#[derive(Debug, Clone, Copy, PartialEq, Eq, Structural)]
pub struct Header {
    pub version: u8,
    /// The stream announces audio tags.
    pub audio: bool,
    /// The stream announces video tags.
    pub video: bool,
    /// The offset of the first tag record from the start of the stream.
    pub offset: u32,
}

/// What a tag carries.
#[derive(Debug, Clone, Copy, PartialEq, Eq, Structural)]
pub enum TagType {
    Audio,
    Video,
    Script,
}

/// The header of a tag.
#[derive(Debug, Clone, Copy, PartialEq, Eq, Structural)]
pub struct TagHeader {
    pub tag_type: TagType,
    /// The size of the payload in bytes (24 bits).
    pub data_size: u32,
    /// The timestamp in milliseconds.
    pub timestamp: u32,
    /// The stream id (24 bits).
    pub stream_id: u32,
}

#[allow(non_camel_case_types)]
#[derive(Debug, Clone, Copy, PartialEq, Eq, Structural)]
pub enum SoundFormat {
    PCM_NE,
    ADPCM,
    MP3,
    PCM_LE,
    NELLYMOSER_16KHZ_MONO,
    NELLYMOSER_8KHZ_MONO,
    NELLYMOSER,
    PCM_ALAW,
    PCM_ULAW,
    AAC,
    SPEEX,
    MP3_8KHZ,
    DEVICE_SPECIFIC,
}

#[allow(non_camel_case_types)]
#[derive(Debug, Clone, Copy, PartialEq, Eq, Structural)]
pub enum SoundRate {
    _5_5KHZ,
    _11KHZ,
    _22KHZ,
    _44KHZ,
}

#[derive(Debug, Clone, Copy, PartialEq, Eq, Structural)]
pub enum SoundSize {
    Snd8bit,
    Snd16bit,
}

#[derive(Debug, Clone, Copy, PartialEq, Eq, Structural)]
pub enum SoundType {
    SndMono,
    SndStereo,
}

/// The first byte of an audio payload.
#[derive(Debug, Clone, Copy, PartialEq, Eq, Structural)]
pub struct AudioDataHeader {
    pub sound_format: SoundFormat,
    pub sound_rate: SoundRate,
    pub sound_size: SoundSize,
    pub sound_type: SoundType,
}

#[derive(Debug, Clone, Copy, PartialEq, Eq, Structural)]
pub enum FrameType {
    Key,
    Inter,
    DisposableInter,
    Generated,
    Command,
}

#[allow(non_camel_case_types)]
#[derive(Debug, Clone, Copy, PartialEq, Eq, Structural)]
pub enum CodecId {
    JPEG,
    SORENSON_H263,
    SCREEN,
    VP6,
    VP6A,
    SCREEN2,
    H264,
    H263,
    MPEG4Part2,
}

/// The first byte of a video payload.
#[derive(Debug, Clone, Copy, PartialEq, Eq, Structural)]
pub struct VideoDataHeader {
    pub frame_type: FrameType,
    pub codec_id: CodecId,
}

#[derive(Debug, Clone, Copy, PartialEq, Eq, Structural)]
pub enum AVCPacketType {
    SequenceHeader,
    NALU,
    EndOfSequence,
}

/// The four bytes that follow the video header of an H.264 payload.
#[derive(Debug, Clone, Copy, PartialEq, Eq, Structural)]
pub struct AVCVideoPacketHeader {
    pub packet_type: AVCPacketType,
    /// The composition time offset in milliseconds (24 bits, signed).
    pub composition_time: i32,
}

/// The length of the file header.
pub const FILE_HEADER_LEN: usize = 9;

/// The length of a tag header, without the back-pointer before it.
pub const TAG_HEADER_LEN: usize = 11;

/// The big-endian number in the two bytes at `i`.
pub open spec fn be16(b: Seq<u8>, i: int) -> int {
    b[i] as int * 0x100 + b[i + 1] as int
}

/// The big-endian number in the three bytes at `i`.
pub open spec fn be24(b: Seq<u8>, i: int) -> int {
    b[i] as int * 0x1_0000 + b[i + 1] as int * 0x100 + b[i + 2] as int
}

/// The big-endian number in the four bytes at `i`.
pub open spec fn be32(b: Seq<u8>, i: int) -> int {
    b[i] as int * 0x100_0000 + b[i + 1] as int * 0x1_0000 + b[i + 2] as int * 0x100 + b[i
        + 3] as int
}

/// Whether `b` starts with the three signature bytes "FLV".
pub open spec fn has_signature(b: Seq<u8>) -> bool {
    b.len() >= 3 && b[0] == 0x46 && b[1] == 0x4c && b[2] == 0x56
}

/// The file header that `b` starts with.
///
/// The flags byte holds "audio present" at bit 2 and "video present" at bit 0;
/// its other bits are not looked at. The offset is taken as it stands.
pub open spec fn spec_parse_file_header(b: Seq<u8>) -> Result<(Header, usize), ParseError> {
    if !has_signature(b) {
        Err(ParseError::FormatMismatch)
    } else if b.len() < 9 {
        Err(ParseError::ShortRead)
    } else {
        Ok(
            (
                Header {
                    version: b[3],
                    audio: (b[4] as int / 4) % 2 == 1,
                    video: b[4] as int % 2 == 1,
                    offset: be32(b, 5) as u32,
                },
                9usize,
            ),
        )
    }
}

/// The tag type that a type byte stands for.
pub open spec fn spec_tag_type(v: u8) -> Option<TagType> {
    if v == 8 {
        Some(TagType::Audio)
    } else if v == 9 {
        Some(TagType::Video)
    } else if v == 18 {
        Some(TagType::Script)
    } else {
        None
    }
}

/// The tag header that `b` starts with.
///
/// The timestamp is made of three low bytes followed by one byte that extends
/// it at the top.
pub open spec fn spec_parse_tag_header(b: Seq<u8>) -> Result<(TagHeader, usize), ParseError> {
    if b.len() < 11 {
        Err(ParseError::ShortRead)
    } else {
        match spec_tag_type(b[0]) {
            None => Err(ParseError::MalformedHeader),
            Some(tag_type) => Ok(
                (
                    TagHeader {
                        tag_type,
                        data_size: be24(b, 1) as u32,
                        timestamp: (b[7] as int * 0x100_0000 + be24(b, 4)) as u32,
                        stream_id: be24(b, 8) as u32,
                    },
                    11usize,
                ),
            ),
        }
    }
}

/// The sound format that a four-bit code stands for.
pub open spec fn spec_sound_format(v: int) -> Option<SoundFormat> {
    if v == 0 {
        Some(SoundFormat::PCM_NE)
    } else if v == 1 {
        Some(SoundFormat::ADPCM)
    } else if v == 2 {
        Some(SoundFormat::MP3)
    } else if v == 3 {
        Some(SoundFormat::PCM_LE)
    } else if v == 4 {
        Some(SoundFormat::NELLYMOSER_16KHZ_MONO)
    } else if v == 5 {
        Some(SoundFormat::NELLYMOSER_8KHZ_MONO)
    } else if v == 6 {
        Some(SoundFormat::NELLYMOSER)
    } else if v == 7 {
        Some(SoundFormat::PCM_ALAW)
    } else if v == 8 {
        Some(SoundFormat::PCM_ULAW)
    } else if v == 10 {
        Some(SoundFormat::AAC)
    } else if v == 11 {
        Some(SoundFormat::SPEEX)
    } else if v == 14 {
        Some(SoundFormat::MP3_8KHZ)
    } else if v == 15 {
        Some(SoundFormat::DEVICE_SPECIFIC)
    } else {
        None
    }
}

/// The sample rate class that a two-bit code stands for.
pub open spec fn spec_sound_rate(v: int) -> SoundRate {
    if v == 0 {
        SoundRate::_5_5KHZ
    } else if v == 1 {
        SoundRate::_11KHZ
    } else if v == 2 {
        SoundRate::_22KHZ
    } else {
        SoundRate::_44KHZ
    }
}

/// The audio header in the first byte of `b`: sound format in bits 7 to 4,
/// rate in bits 3 and 2, sample size in bit 1, channel mode in bit 0.
pub open spec fn spec_parse_audio_payload_header(b: Seq<u8>) -> Result<
    (AudioDataHeader, usize),
    ParseError,
> {
    if b.len() < 1 {
        Err(ParseError::ShortRead)
    } else {
        match spec_sound_format(b[0] as int / 16) {
            None => Err(ParseError::MalformedHeader),
            Some(sound_format) => Ok(
                (
                    AudioDataHeader {
                        sound_format,
                        sound_rate: spec_sound_rate((b[0] as int / 4) % 4),
                        sound_size: if (b[0] as int / 2) % 2 == 1 {
                            SoundSize::Snd16bit
                        } else {
                            SoundSize::Snd8bit
                        },
                        sound_type: if b[0] as int % 2 == 1 {
                            SoundType::SndStereo
                        } else {
                            SoundType::SndMono
                        },
                    },
                    1usize,
                ),
            ),
        }
    }
}

/// The frame type that a four-bit code stands for.
pub open spec fn spec_frame_type(v: int) -> Option<FrameType> {
    if v == 1 {
        Some(FrameType::Key)
    } else if v == 2 {
        Some(FrameType::Inter)
    } else if v == 3 {
        Some(FrameType::DisposableInter)
    } else if v == 4 {
        Some(FrameType::Generated)
    } else if v == 5 {
        Some(FrameType::Command)
    } else {
        None
    }
}

/// The video codec that a four-bit code stands for.
pub open spec fn spec_codec_id(v: int) -> Option<CodecId> {
    if v == 1 {
        Some(CodecId::JPEG)
    } else if v == 2 {
        Some(CodecId::SORENSON_H263)
    } else if v == 3 {
        Some(CodecId::SCREEN)
    } else if v == 4 {
        Some(CodecId::VP6)
    } else if v == 5 {
        Some(CodecId::VP6A)
    } else if v == 6 {
        Some(CodecId::SCREEN2)
    } else if v == 7 {
        Some(CodecId::H264)
    } else if v == 8 {
        Some(CodecId::H263)
    } else if v == 9 {
        Some(CodecId::MPEG4Part2)
    } else {
        None
    }
}

/// The video header in the first byte of `b`: frame type in bits 7 to 4, codec
/// id in bits 3 to 0.
pub open spec fn spec_parse_video_payload_header(b: Seq<u8>) -> Result<
    (VideoDataHeader, usize),
    ParseError,
> {
    if b.len() < 1 {
        Err(ParseError::ShortRead)
    } else {
        match (spec_frame_type(b[0] as int / 16), spec_codec_id(b[0] as int % 16)) {
            (Some(frame_type), Some(codec_id)) => Ok(
                (VideoDataHeader { frame_type, codec_id }, 1usize),
            ),
            _ => Err(ParseError::MalformedHeader),
        }
    }
}

/// The AVC packet type that a byte stands for.
pub open spec fn spec_avc_packet_type(v: u8) -> Option<AVCPacketType> {
    if v == 0 {
        Some(AVCPacketType::SequenceHeader)
    } else if v == 1 {
        Some(AVCPacketType::NALU)
    } else if v == 2 {
        Some(AVCPacketType::EndOfSequence)
    } else {
        None
    }
}

/// A 24-bit number read as a signed one.
pub open spec fn signed24(v: int) -> int {
    if v >= 0x80_0000 {
        v - 0x100_0000
    } else {
        v
    }
}

/// The AVC packet header that `b` starts with: a type byte and a signed 24-bit
/// composition time offset.
pub open spec fn spec_parse_avc_packet_header(b: Seq<u8>) -> Result<
    (AVCVideoPacketHeader, usize),
    ParseError,
> {
    if b.len() < 4 {
        Err(ParseError::ShortRead)
    } else {
        match spec_avc_packet_type(b[0]) {
            None => Err(ParseError::MalformedHeader),
            Some(packet_type) => Ok(
                (
                    AVCVideoPacketHeader {
                        packet_type,
                        composition_time: signed24(be24(b, 1)) as i32,
                    },
                    4usize,
                ),
            ),
        }
    }
}

/// Reads the big-endian number in the three bytes at `i`.
pub fn read_be24(b: &[u8], i: usize) -> (v: u32)
    requires
        i + 3 <= b@.len(),
    ensures
        v == be24(b@, i as int),
        v < 0x100_0000,
{
    let b0: u32 = b[i] as u32;
    let b1: u32 = b[i + 1] as u32;
    let b2: u32 = b[i + 2] as u32;
    b0 * 0x1_0000 + b1 * 0x100 + b2
}

/// Reads the big-endian number in the four bytes at `i`.
pub fn read_be32(b: &[u8], i: usize) -> (v: u32)
    requires
        i + 4 <= b@.len(),
    ensures
        v == be32(b@, i as int),
{
    let b0: u32 = b[i] as u32;
    let b1: u32 = b[i + 1] as u32;
    let b2: u32 = b[i + 2] as u32;
    let b3: u32 = b[i + 3] as u32;
    b0 * 0x100_0000 + b1 * 0x1_0000 + b2 * 0x100 + b3
}

/// Decodes the file header at the start of `bytes`.
pub fn parse_file_header(bytes: &[u8]) -> (r: Result<(Header, usize), ParseError>)
    ensures
        r == spec_parse_file_header(bytes@),
{
    if bytes.len() < 3 || bytes[0] != 0x46 || bytes[1] != 0x4c || bytes[2] != 0x56 {
        return Err(ParseError::FormatMismatch);
    }
    if bytes.len() < FILE_HEADER_LEN {
        return Err(ParseError::ShortRead);
    }
    let flags: u8 = bytes[4];
    Ok(
        (
            Header {
                version: bytes[3],
                audio: (flags / 4) % 2 == 1,
                video: flags % 2 == 1,
                offset: read_be32(bytes, 5),
            },
            FILE_HEADER_LEN,
        ),
    )
}

/// Decodes the tag header at the start of `bytes`.
pub fn parse_tag_header(bytes: &[u8]) -> (r: Result<(TagHeader, usize), ParseError>)
    ensures
        r == spec_parse_tag_header(bytes@),
{
    if bytes.len() < TAG_HEADER_LEN {
        return Err(ParseError::ShortRead);
    }
    let tag_type: TagType = match bytes[0] {
        8 => TagType::Audio,
        9 => TagType::Video,
        18 => TagType::Script,
        _ => { return Err(ParseError::MalformedHeader); },
    };
    let extension: u32 = bytes[7] as u32;
    Ok(
        (
            TagHeader {
                tag_type,
                data_size: read_be24(bytes, 1),
                timestamp: extension * 0x100_0000 + read_be24(bytes, 4),
                stream_id: read_be24(bytes, 8),
            },
            TAG_HEADER_LEN,
        ),
    )
}

/// Decodes the audio header in the first byte of `bytes`.
pub fn parse_audio_payload_header(bytes: &[u8]) -> (r: Result<(AudioDataHeader, usize), ParseError>)
    ensures
        r == spec_parse_audio_payload_header(bytes@),
{
    if bytes.len() < 1 {
        return Err(ParseError::ShortRead);
    }
    let byte: u8 = bytes[0];
    let sound_format: SoundFormat = match byte / 16 {
        0 => SoundFormat::PCM_NE,
        1 => SoundFormat::ADPCM,
        2 => SoundFormat::MP3,
        3 => SoundFormat::PCM_LE,
        4 => SoundFormat::NELLYMOSER_16KHZ_MONO,
        5 => SoundFormat::NELLYMOSER_8KHZ_MONO,
        6 => SoundFormat::NELLYMOSER,
        7 => SoundFormat::PCM_ALAW,
        8 => SoundFormat::PCM_ULAW,
        10 => SoundFormat::AAC,
        11 => SoundFormat::SPEEX,
        14 => SoundFormat::MP3_8KHZ,
        15 => SoundFormat::DEVICE_SPECIFIC,
        _ => { return Err(ParseError::MalformedHeader); },
    };
    let sound_rate: SoundRate = match (byte / 4) % 4 {
        0 => SoundRate::_5_5KHZ,
        1 => SoundRate::_11KHZ,
        2 => SoundRate::_22KHZ,
        _ => SoundRate::_44KHZ,
    };
    let sound_size: SoundSize = if (byte / 2) % 2 == 1 {
        SoundSize::Snd16bit
    } else {
        SoundSize::Snd8bit
    };
    let sound_type: SoundType = if byte % 2 == 1 {
        SoundType::SndStereo
    } else {
        SoundType::SndMono
    };
    Ok((AudioDataHeader { sound_format, sound_rate, sound_size, sound_type }, 1))
}

/// Decodes the video header in the first byte of `bytes`.
pub fn parse_video_payload_header(bytes: &[u8]) -> (r: Result<(VideoDataHeader, usize), ParseError>)
    ensures
        r == spec_parse_video_payload_header(bytes@),
{
    if bytes.len() < 1 {
        return Err(ParseError::ShortRead);
    }
    let byte: u8 = bytes[0];
    let frame_type: FrameType = match byte / 16 {
        1 => FrameType::Key,
        2 => FrameType::Inter,
        3 => FrameType::DisposableInter,
        4 => FrameType::Generated,
        5 => FrameType::Command,
        _ => { return Err(ParseError::MalformedHeader); },
    };
    let codec_id: CodecId = match byte % 16 {
        1 => CodecId::JPEG,
        2 => CodecId::SORENSON_H263,
        3 => CodecId::SCREEN,
        4 => CodecId::VP6,
        5 => CodecId::VP6A,
        6 => CodecId::SCREEN2,
        7 => CodecId::H264,
        8 => CodecId::H263,
        9 => CodecId::MPEG4Part2,
        _ => { return Err(ParseError::MalformedHeader); },
    };
    Ok((VideoDataHeader { frame_type, codec_id }, 1))
}

/// Decodes the AVC packet header at the start of `bytes`.
pub fn parse_avc_packet_header(bytes: &[u8]) -> (r: Result<
    (AVCVideoPacketHeader, usize),
    ParseError,
>)
    ensures
        r == spec_parse_avc_packet_header(bytes@),
{
    if bytes.len() < 4 {
        return Err(ParseError::ShortRead);
    }
    let packet_type: AVCPacketType = match bytes[0] {
        0 => AVCPacketType::SequenceHeader,
        1 => AVCPacketType::NALU,
        2 => AVCPacketType::EndOfSequence,
        _ => { return Err(ParseError::MalformedHeader); },
    };
    let raw: u32 = read_be24(bytes, 1);
    let composition_time: i32 = if raw >= 0x80_0000 {
        (raw as i32) - 0x100_0000
    } else {
        raw as i32
    };
    Ok((AVCVideoPacketHeader { packet_type, composition_time }, 4))
}

} // verus!
