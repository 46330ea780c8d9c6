use vlcrs_demux::flv::parser::{
    parse_audio_payload_header, parse_avc_packet_header, parse_file_header, parse_tag_header,
    parse_video_payload_header, AVCPacketType, AVCVideoPacketHeader, AudioDataHeader, CodecId,
    FrameType, Header, ParseError, SoundFormat, SoundRate, SoundSize, SoundType, TagHeader,
    TagType, VideoDataHeader,
};

#[test]
fn file_header_is_decoded() {
    let bytes = [0x46, 0x4c, 0x56, 0x01, 0x05, 0x00, 0x00, 0x00, 0x09];
    assert_eq!(
        parse_file_header(&bytes),
        Ok((Header { version: 1, audio: true, video: true, offset: 9 }, 9))
    );
}

#[test]
fn file_header_flags_are_told_apart() {
    let audio_only = [0x46, 0x4c, 0x56, 0x01, 0x04, 0x00, 0x00, 0x00, 0x09];
    let video_only = [0x46, 0x4c, 0x56, 0x01, 0x01, 0x00, 0x00, 0x00, 0x09];
    assert_eq!(
        parse_file_header(&audio_only),
        Ok((Header { version: 1, audio: true, video: false, offset: 9 }, 9))
    );
    assert_eq!(
        parse_file_header(&video_only),
        Ok((Header { version: 1, audio: false, video: true, offset: 9 }, 9))
    );
}

#[test]
fn file_header_offset_is_kept_as_it_stands() {
    let bytes = [0x46, 0x4c, 0x56, 0x01, 0x00, 0x01, 0x02, 0x03, 0x04, 0xff, 0xff];
    assert_eq!(
        parse_file_header(&bytes),
        Ok((Header { version: 1, audio: false, video: false, offset: 0x01020304 }, 9))
    );
}

#[test]
fn file_header_without_signature_is_a_mismatch() {
    assert_eq!(parse_file_header(b"FLW\x01\x05\x00\x00\x00\x09"), Err(ParseError::FormatMismatch));
    assert_eq!(parse_file_header(b"FL"), Err(ParseError::FormatMismatch));
    assert_eq!(parse_file_header(b""), Err(ParseError::FormatMismatch));
}

#[test]
fn file_header_cut_short_is_a_short_read() {
    assert_eq!(parse_file_header(b"FLV\x01\x05\x00\x00\x00"), Err(ParseError::ShortRead));
    assert_eq!(parse_file_header(b"FLV"), Err(ParseError::ShortRead));
}

#[test]
fn tag_header_is_decoded() {
    let bytes = [0x08, 0x00, 0x0f, 0x30, 0x00, 0x0a, 0x14, 0x01, 0x00, 0x00, 0x00];
    assert_eq!(
        parse_tag_header(&bytes),
        Ok((
            TagHeader {
                tag_type: TagType::Audio,
                data_size: 0x0f30,
                timestamp: 0x01000a14,
                stream_id: 0
            },
            11
        ))
    );
}

#[test]
fn tag_header_types() {
    let mut bytes = [0u8; 11];
    bytes[0] = 9;
    assert_eq!(parse_tag_header(&bytes).unwrap().0.tag_type, TagType::Video);
    bytes[0] = 18;
    assert_eq!(parse_tag_header(&bytes).unwrap().0.tag_type, TagType::Script);
    bytes[0] = 10;
    assert_eq!(parse_tag_header(&bytes), Err(ParseError::MalformedHeader));
    bytes[0] = 0;
    assert_eq!(parse_tag_header(&bytes), Err(ParseError::MalformedHeader));
}

#[test]
fn tag_header_largest_fields() {
    let bytes = [0x12, 0xff, 0xff, 0xff, 0xff, 0xff, 0xff, 0xff, 0xff, 0xff, 0xff];
    assert_eq!(
        parse_tag_header(&bytes),
        Ok((
            TagHeader {
                tag_type: TagType::Script,
                data_size: 0xff_ffff,
                timestamp: 0xffff_ffff,
                stream_id: 0xff_ffff
            },
            11
        ))
    );
}

#[test]
fn tag_header_cut_short() {
    assert_eq!(parse_tag_header(&[8, 0, 0, 1, 0, 0, 0, 0, 0, 0]), Err(ParseError::ShortRead));
}

#[test]
fn audio_header_is_unpacked() {
    // AAC, 44 kHz, 16 bit, stereo
    assert_eq!(
        parse_audio_payload_header(&[0xaf]),
        Ok((
            AudioDataHeader {
                sound_format: SoundFormat::AAC,
                sound_rate: SoundRate::_44KHZ,
                sound_size: SoundSize::Snd16bit,
                sound_type: SoundType::SndStereo
            },
            1
        ))
    );
    // MP3, 22 kHz, 8 bit, mono
    assert_eq!(
        parse_audio_payload_header(&[0x28, 0x99]),
        Ok((
            AudioDataHeader {
                sound_format: SoundFormat::MP3,
                sound_rate: SoundRate::_22KHZ,
                sound_size: SoundSize::Snd8bit,
                sound_type: SoundType::SndMono
            },
            1
        ))
    );
}

#[test]
fn audio_header_every_sound_format() {
    let expected = [
        Some(SoundFormat::PCM_NE),
        Some(SoundFormat::ADPCM),
        Some(SoundFormat::MP3),
        Some(SoundFormat::PCM_LE),
        Some(SoundFormat::NELLYMOSER_16KHZ_MONO),
        Some(SoundFormat::NELLYMOSER_8KHZ_MONO),
        Some(SoundFormat::NELLYMOSER),
        Some(SoundFormat::PCM_ALAW),
        Some(SoundFormat::PCM_ULAW),
        None,
        Some(SoundFormat::AAC),
        Some(SoundFormat::SPEEX),
        None,
        None,
        Some(SoundFormat::MP3_8KHZ),
        Some(SoundFormat::DEVICE_SPECIFIC),
    ];
    for code in 0u8..16 {
        let got = parse_audio_payload_header(&[code << 4]);
        match expected[code as usize] {
            Some(format) => assert_eq!(got.unwrap().0.sound_format, format),
            None => assert_eq!(got, Err(ParseError::MalformedHeader)),
        }
    }
}

#[test]
fn audio_header_rates() {
    assert_eq!(parse_audio_payload_header(&[0x20]).unwrap().0.sound_rate, SoundRate::_5_5KHZ);
    assert_eq!(parse_audio_payload_header(&[0x24]).unwrap().0.sound_rate, SoundRate::_11KHZ);
    assert_eq!(parse_audio_payload_header(&[0x28]).unwrap().0.sound_rate, SoundRate::_22KHZ);
    assert_eq!(parse_audio_payload_header(&[0x2c]).unwrap().0.sound_rate, SoundRate::_44KHZ);
}

#[test]
fn audio_header_needs_a_byte() {
    assert_eq!(parse_audio_payload_header(&[]), Err(ParseError::ShortRead));
}

#[test]
fn video_header_is_unpacked() {
    assert_eq!(
        parse_video_payload_header(&[0x17]),
        Ok((VideoDataHeader { frame_type: FrameType::Key, codec_id: CodecId::H264 }, 1))
    );
    assert_eq!(
        parse_video_payload_header(&[0x22]),
        Ok((VideoDataHeader { frame_type: FrameType::Inter, codec_id: CodecId::SORENSON_H263 }, 1))
    );
}

#[test]
fn video_header_every_code() {
    let frames = [
        None,
        Some(FrameType::Key),
        Some(FrameType::Inter),
        Some(FrameType::DisposableInter),
        Some(FrameType::Generated),
        Some(FrameType::Command),
    ];
    let codecs = [
        None,
        Some(CodecId::JPEG),
        Some(CodecId::SORENSON_H263),
        Some(CodecId::SCREEN),
        Some(CodecId::VP6),
        Some(CodecId::VP6A),
        Some(CodecId::SCREEN2),
        Some(CodecId::H264),
        Some(CodecId::H263),
        Some(CodecId::MPEG4Part2),
    ];
    for byte in 0u16..256 {
        let byte = byte as u8;
        let frame = frames.get((byte >> 4) as usize).copied().flatten();
        let codec = codecs.get((byte & 15) as usize).copied().flatten();
        let got = parse_video_payload_header(&[byte]);
        match (frame, codec) {
            (Some(frame_type), Some(codec_id)) => {
                assert_eq!(got, Ok((VideoDataHeader { frame_type, codec_id }, 1)))
            }
            _ => assert_eq!(got, Err(ParseError::MalformedHeader)),
        }
    }
}

#[test]
fn video_header_needs_a_byte() {
    assert_eq!(parse_video_payload_header(&[]), Err(ParseError::ShortRead));
}

#[test]
fn avc_header_is_unpacked() {
    assert_eq!(
        parse_avc_packet_header(&[0x01, 0x00, 0x00, 0x50]),
        Ok((
            AVCVideoPacketHeader { packet_type: AVCPacketType::NALU, composition_time: 80 },
            4
        ))
    );
    assert_eq!(
        parse_avc_packet_header(&[0x00, 0x00, 0x00, 0x00]).unwrap().0.packet_type,
        AVCPacketType::SequenceHeader
    );
    assert_eq!(
        parse_avc_packet_header(&[0x02, 0x00, 0x00, 0x00]).unwrap().0.packet_type,
        AVCPacketType::EndOfSequence
    );
}

#[test]
fn avc_composition_time_is_signed() {
    assert_eq!(parse_avc_packet_header(&[1, 0xff, 0xff, 0xff]).unwrap().0.composition_time, -1);
    assert_eq!(
        parse_avc_packet_header(&[1, 0x80, 0x00, 0x00]).unwrap().0.composition_time,
        -8_388_608
    );
    assert_eq!(
        parse_avc_packet_header(&[1, 0x7f, 0xff, 0xff]).unwrap().0.composition_time,
        8_388_607
    );
}

#[test]
fn avc_header_failures() {
    assert_eq!(parse_avc_packet_header(&[3, 0, 0, 0]), Err(ParseError::MalformedHeader));
    assert_eq!(parse_avc_packet_header(&[1, 0, 0]), Err(ParseError::ShortRead));
}
