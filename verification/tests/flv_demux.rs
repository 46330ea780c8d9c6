use vlcrs_demux::error::{CoreError, Errno};
use vlcrs_demux::es::{AudioFormat, EsFormat, EsFormatCategory, VideoFormat};
use vlcrs_demux::es_out::{EsOutBaked, EsOutCall, EsOutId};
use vlcrs_demux::flv::codec::{
    audio_codec_id_to_fourcc, audio_codec_to_es_format, video_codec_id_to_fourcc,
    video_codec_to_es_format,
};
use vlcrs_demux::flv::demux::{FLVDemuxer, Phase, Reply, Request};
use vlcrs_demux::flv::driver::FLV;
use vlcrs_demux::flv::metadata::MetaData;
use vlcrs_demux::flv::parser::{
    AudioDataHeader, CodecId, FrameType, SoundFormat, SoundRate, SoundSize, SoundType,
    VideoDataHeader,
};
use vlcrs_demux::fourcc::FourCC;
use vlcrs_demux::number::Number;
use vlcrs_demux::stream::frame::{Frame, FrameFlag};
use vlcrs_demux::stream::impl_stream::Stream;
use vlcrs_demux::tick::Tick;

const AUDIO: u8 = 8;
const VIDEO: u8 = 9;
const SCRIPT: u8 = 18;

fn file_header(offset: u32) -> Vec<u8> {
    let mut out = vec![b'F', b'L', b'V', 1, 5];
    out.extend_from_slice(&offset.to_be_bytes());
    out.resize(offset.max(9) as usize, 0xee);
    out
}

fn tag(kind: u8, timestamp: u32, payload: &[u8]) -> Vec<u8> {
    let mut out = vec![0xba, 0xad, 0xf0, 0x0d, kind];
    out.extend_from_slice(&(payload.len() as u32).to_be_bytes()[1..]);
    out.extend_from_slice(&timestamp.to_be_bytes()[1..]);
    out.push((timestamp >> 24) as u8);
    out.extend_from_slice(&[0, 0, 0]);
    out.extend_from_slice(payload);
    out
}

fn amf_string(text: &str) -> Vec<u8> {
    let mut out = (text.len() as u16).to_be_bytes().to_vec();
    out.extend_from_slice(text.as_bytes());
    out
}

fn on_meta_data(fields: &[(&str, f64)]) -> Vec<u8> {
    let mut out = vec![2u8];
    out.extend(amf_string("onMetaData"));
    out.push(8);
    out.extend_from_slice(&(fields.len() as u32).to_be_bytes());
    for (name, value) in fields {
        out.extend(amf_string(name));
        out.push(0);
        out.extend_from_slice(&value.to_bits().to_be_bytes());
    }
    out.extend_from_slice(&[0, 0, 9]);
    out
}

fn audio_header(byte: u8) -> AudioDataHeader {
    vlcrs_demux::flv::parser::parse_audio_payload_header(&[byte]).unwrap().0
}

fn video_header(byte: u8) -> VideoDataHeader {
    vlcrs_demux::flv::parser::parse_video_payload_header(&[byte]).unwrap().0
}

fn frame(payload: &[u8], ticks: i64, flags: u32) -> Frame {
    Frame {
        payload: payload.to_vec(),
        pts: Tick(ticks),
        dts: Tick(ticks),
        length: Tick(0),
        samples: 0,
        flags,
    }
}

fn clocks(sink: &EsOutBaked) -> Vec<i64> {
    sink.calls()
        .iter()
        .filter_map(|call| match call {
            EsOutCall::SetPcr(tick) => Some(tick.0),
            _ => None,
        })
        .collect()
}

fn without_clocks(sink: &EsOutBaked) -> Vec<EsOutCall> {
    sink.calls().iter().filter(|call| !matches!(call, EsOutCall::SetPcr(_))).cloned().collect()
}

#[test]
fn probe_rejects_what_is_not_flv() {
    for data in [&b"RIFF\x00\x00\x00\x00WAVE"[..], b"FL", b"", b"flv\x01\x05\x00\x00\x00\x09", b"\x00FLV\x01\x05\x00\x00\x00\x09"] {
        let mut source = Stream::new(data.to_vec());
        assert_eq!(FLV::open(&mut source).err(), Some(CoreError::Unknown));
        assert_eq!(source.tell(), 0);
    }
}

#[test]
fn probe_rejects_a_header_cut_short() {
    let mut source = Stream::new(b"FLV\x01\x05\x00\x00".to_vec());
    assert_eq!(FLV::open(&mut source).err(), Some(CoreError::Unknown));
    assert_eq!(source.tell(), 0);
}

#[test]
fn probe_looks_from_the_read_position() {
    let mut data = vec![1, 2, 3];
    data.extend(file_header(9));
    let mut source = Stream::new(data);
    assert_eq!(FLV::open(&mut source).err(), Some(CoreError::Unknown));
    assert_eq!(source.seek(3), Ok(()));
    assert!(FLV::open(&mut source).is_ok());
    // the offset counts from the start of the stream
    assert_eq!(source.tell(), 9);
}

#[test]
fn open_moves_to_the_offset_of_the_header() {
    for offset in [9u32, 13, 200] {
        let mut source = Stream::new(file_header(offset));
        let demuxer = FLV::open(&mut source).unwrap();
        assert_eq!(source.tell(), offset as u64);
        assert_eq!(demuxer.time(), Tick(1));
        assert_eq!(demuxer.length(), None);
        assert!(!demuxer.can_seek());
        assert_eq!(demuxer.audio_track(), None);
        assert_eq!(demuxer.video_track(), None);
        assert_eq!(demuxer.metadata(), MetaData::empty());
        assert_eq!(demuxer.phase(), Phase::Idle);
    }
    // an offset beyond the end is honoured too; the first call then meets the end
    let mut source = Stream::new(b"FLV\x01\x05\x00\x00\x01\x00".to_vec());
    let mut demuxer = FLV::open(&mut source).unwrap();
    assert_eq!(source.tell(), 256);
    let mut sink = EsOutBaked::new();
    assert_eq!(demuxer.demux(&mut source, &mut sink), Err(CoreError::Eof));
}

#[test]
fn tag_framing_round_trip() {
    let payloads: Vec<(u8, u32, Vec<u8>)> = vec![
        (SCRIPT, 0, on_meta_data(&[("width", 320.0), ("height", 240.0)])),
        (VIDEO, 0, vec![0x17, 0, 0, 0, 0, 0xaa, 0xbb]),
        (AUDIO, 0, vec![0xaf, 1, 2, 3]),
        (AUDIO, 23, vec![0xaf]),
        (VIDEO, 40, vec![0x27, 1, 0, 0, 40]),
        (VIDEO, 80, vec![0x12, 9, 9, 9, 9, 9, 9, 9]),
        (AUDIO, 46, vec![0xaf; 300]),
        (SCRIPT, 90, vec![2, 0, 1, b'x', 5]),
    ];
    for offset in [9u32, 17] {
        let mut data = file_header(offset);
        let mut expected = offset as u64;
        for (kind, ts, payload) in &payloads {
            data.extend(tag(*kind, *ts, payload));
        }
        let mut source = Stream::new(data);
        let mut demuxer = FLV::open(&mut source).unwrap();
        let mut sink = EsOutBaked::new();
        for (_, _, payload) in &payloads {
            assert_eq!(demuxer.demux(&mut source, &mut sink), Ok(()));
            expected += 15 + payload.len() as u64;
            assert_eq!(source.tell(), expected);
        }
        assert!(source.eof());
        assert_eq!(demuxer.demux(&mut source, &mut sink), Err(CoreError::Eof));

        let h264_key = video_header(0x17);
        let h264_inter = video_header(0x27);
        let sorenson = video_header(0x12);
        let aac = audio_header(0xaf);
        let meta = MetaData { width: Some(320), height: Some(240), ..MetaData::empty() };
        assert_eq!(
            without_clocks(&sink),
            vec![
                EsOutCall::Add(video_codec_to_es_format(&h264_key, &meta)),
                EsOutCall::Send(EsOutId(0), frame(&[0xaa, 0xbb], 0, 2)),
                EsOutCall::Add(audio_codec_to_es_format(&aac, &meta)),
                EsOutCall::Send(EsOutId(1), frame(&[1, 2, 3], 0, 0)),
                EsOutCall::Send(EsOutId(1), frame(&[], 23_000, 0)),
                EsOutCall::Del(EsOutId(0)),
                EsOutCall::Add(video_codec_to_es_format(&h264_inter, &meta)),
                EsOutCall::Send(EsOutId(2), frame(&[], 40_000, 0)),
                EsOutCall::Del(EsOutId(2)),
                EsOutCall::Add(video_codec_to_es_format(&sorenson, &meta)),
                EsOutCall::Send(EsOutId(3), frame(&[9; 7], 80_000, 2)),
                EsOutCall::Send(EsOutId(1), frame(&[0xaf; 299], 46_000, 0)),
            ]
        );
        assert_eq!(clocks(&sink), vec![1, 1, 1, 23_000, 40_000, 80_000, 80_000, 90_000]);
        assert_eq!(demuxer.audio_track(), Some((aac, EsOutId(1))));
        assert_eq!(demuxer.video_track(), Some((sorenson, EsOutId(3))));
    }
}

#[test]
fn the_back_pointer_is_not_looked_at() {
    let mut one = tag(AUDIO, 5, &[0x2e, 7]);
    let mut other = one.clone();
    one[..4].copy_from_slice(&[0, 0, 0, 0]);
    other[..4].copy_from_slice(&[0xff, 0xff, 0xff, 0xff]);
    let mut logs = Vec::new();
    for data in [one, other] {
        let mut source = Stream::new(data);
        let mut demuxer = FLVDemuxer::new();
        let mut sink = EsOutBaked::new();
        assert_eq!(demuxer.demux(&mut source, &mut sink), Ok(()));
        logs.push(sink.calls().clone());
    }
    assert_eq!(logs[0], logs[1]);
    assert_eq!(logs[0].len(), 3);
}

#[test]
fn codec_mapping_is_total() {
    let sounds = [
        (SoundFormat::PCM_NE, FourCC::VLC_CODEC_DVD_LPCM),
        (SoundFormat::ADPCM, FourCC::VLC_CODEC_ADPCM_SWF),
        (SoundFormat::MP3, FourCC::VLC_CODEC_MP3),
        (SoundFormat::PCM_LE, FourCC::VLC_CODEC_DVD_LPCM),
        (SoundFormat::NELLYMOSER_16KHZ_MONO, FourCC::VLC_CODEC_NELLYMOSER),
        (SoundFormat::NELLYMOSER_8KHZ_MONO, FourCC::VLC_CODEC_NELLYMOSER),
        (SoundFormat::NELLYMOSER, FourCC::VLC_CODEC_NELLYMOSER),
        (SoundFormat::PCM_ALAW, FourCC::VLC_CODEC_ALAW),
        (SoundFormat::PCM_ULAW, FourCC::VLC_CODEC_MULAW),
        (SoundFormat::AAC, FourCC::VLC_CODEC_MP4A),
        (SoundFormat::SPEEX, FourCC::VLC_CODEC_SPEEX),
        (SoundFormat::MP3_8KHZ, FourCC::VLC_CODEC_MP3),
        (SoundFormat::DEVICE_SPECIFIC, FourCC::VLC_CODEC_UNKNOWN),
    ];
    for (format, code) in sounds {
        assert_eq!(audio_codec_id_to_fourcc(format), FourCC(code));
        assert_eq!(audio_codec_id_to_fourcc(format).is_unknown(), format == SoundFormat::DEVICE_SPECIFIC);
    }
    let videos = [
        (CodecId::JPEG, FourCC::VLC_CODEC_JPEG),
        (CodecId::SORENSON_H263, FourCC::VLC_CODEC_H263),
        (CodecId::SCREEN, FourCC::VLC_CODEC_FLASHSV),
        (CodecId::VP6, FourCC::VLC_CODEC_VP6),
        (CodecId::VP6A, FourCC::VLC_CODEC_VP6A),
        (CodecId::SCREEN2, FourCC::VLC_CODEC_FLASHSV2),
        (CodecId::H264, FourCC::VLC_CODEC_H264),
        (CodecId::H263, FourCC::VLC_CODEC_H263),
        (CodecId::MPEG4Part2, FourCC::VLC_CODEC_MP4V),
    ];
    for (codec, code) in videos {
        assert_eq!(video_codec_id_to_fourcc(codec), FourCC(code));
        assert!(!video_codec_id_to_fourcc(codec).is_unknown());
    }
    // MPEG-4 Part 2 is video: its code is 'mp4v'
    assert_eq!(video_codec_id_to_fourcc(CodecId::MPEG4Part2).as_u32(), 0x7634706d);
    // every byte that decodes maps to something
    for byte in 0u16..256 {
        if let Ok((header, _)) = vlcrs_demux::flv::parser::parse_audio_payload_header(&[byte as u8]) {
            let _ = audio_codec_id_to_fourcc(header.sound_format);
        }
        if let Ok((header, _)) = vlcrs_demux::flv::parser::parse_video_payload_header(&[byte as u8]) {
            let _ = video_codec_id_to_fourcc(header.codec_id);
        }
    }
}

#[test]
fn audio_format_is_built_from_header_and_metadata() {
    let header = AudioDataHeader {
        sound_format: SoundFormat::MP3,
        sound_rate: SoundRate::_22KHZ,
        sound_size: SoundSize::Snd8bit,
        sound_type: SoundType::SndMono,
    };
    assert_eq!(
        audio_codec_to_es_format(&header, &MetaData::empty()),
        EsFormat {
            i_cat: EsFormatCategory::AUDIO_ES,
            i_codec: FourCC(FourCC::VLC_CODEC_MP3),
            i_original_fourcc: FourCC(0),
            audio_format: AudioFormat { i_rate: 22050, i_channels: 1, i_bitspersample: 8 },
            video_format: EsFormat::new(EsFormatCategory::AUDIO_ES, FourCC(0)).video_format,
        }
    );
    let rates = [
        (SoundRate::_5_5KHZ, 5500),
        (SoundRate::_11KHZ, 11000),
        (SoundRate::_22KHZ, 22050),
        (SoundRate::_44KHZ, 44100),
    ];
    for (sound_rate, hz) in rates {
        let h = AudioDataHeader { sound_rate, sound_size: SoundSize::Snd16bit, sound_type: SoundType::SndStereo, ..header };
        let f = audio_codec_to_es_format(&h, &MetaData::empty());
        assert_eq!(f.audio_format, AudioFormat { i_rate: hz, i_channels: 2, i_bitspersample: 16 });
    }
}

#[test]
fn video_format_is_built_from_header_and_metadata() {
    let h264 = VideoDataHeader { frame_type: FrameType::Key, codec_id: CodecId::H264 };
    let bare = video_codec_to_es_format(&h264, &MetaData::empty());
    assert_eq!(bare.i_cat, EsFormatCategory::VIDEO_ES);
    assert_eq!(bare.i_codec, FourCC(FourCC::VLC_CODEC_H264));
    assert_eq!(bare.i_original_fourcc, FourCC(FourCC::AVC1));
    assert_eq!(
        bare.video_format,
        VideoFormat {
            i_width: 0,
            i_height: 0,
            i_visible_width: 0,
            i_visible_height: 0,
            i_sar_num: 1,
            i_sar_den: 1,
            i_frame_rate: 0,
            i_frame_rate_base: 0,
        }
    );
    let meta = MetaData {
        width: Some(1280),
        height: Some(720),
        framerate: Some(Number::from_bits(29.97f64.to_bits())),
        ..MetaData::empty()
    };
    let vp6 = VideoDataHeader { frame_type: FrameType::Inter, codec_id: CodecId::VP6 };
    let full = video_codec_to_es_format(&vp6, &meta);
    assert_eq!(full.i_original_fourcc, FourCC(0));
    assert_eq!(
        full.video_format,
        VideoFormat {
            i_width: 1280,
            i_height: 720,
            i_visible_width: 1280,
            i_visible_height: 720,
            i_sar_num: 1,
            i_sar_den: 1,
            i_frame_rate: 29,
            i_frame_rate_base: 1,
        }
    );
}

#[test]
fn reregistration_on_format_change() {
    let mut data = tag(AUDIO, 0, &[0x2e, 1]);
    data.extend(tag(AUDIO, 10, &[0x2c, 2]));
    data.extend(tag(AUDIO, 20, &[0x2c, 3]));
    let mut source = Stream::new(data);
    let mut demuxer = FLVDemuxer::new();
    let mut sink = EsOutBaked::new();
    assert_eq!(demuxer.demux(&mut source, &mut sink), Ok(()));
    let before = sink.calls().len();
    assert_eq!(demuxer.demux(&mut source, &mut sink), Ok(()));
    let sixteen = audio_header(0x2e);
    let eight = audio_header(0x2c);
    assert_eq!(sixteen.sound_size, SoundSize::Snd16bit);
    assert_eq!(eight.sound_size, SoundSize::Snd8bit);
    assert_eq!(
        sink.calls()[before..],
        [
            EsOutCall::SetPcr(Tick(10_000)),
            EsOutCall::Del(EsOutId(0)),
            EsOutCall::Add(audio_codec_to_es_format(&eight, &MetaData::empty())),
            EsOutCall::Send(EsOutId(1), frame(&[2], 10_000, 0)),
        ]
    );
    assert_eq!(sink.format(&EsOutId(0)), None);
    assert_eq!(sink.format(&EsOutId(1)).unwrap().audio_format.i_bitspersample, 8);
    assert!(!sink.is_live(&EsOutId(0)));
    assert!(sink.is_live(&EsOutId(1)));
    let before = sink.calls().len();
    assert_eq!(demuxer.demux(&mut source, &mut sink), Ok(()));
    assert_eq!(
        sink.calls()[before..],
        [EsOutCall::SetPcr(Tick(20_000)), EsOutCall::Send(EsOutId(1), frame(&[3], 20_000, 0))]
    );
    assert_eq!(demuxer.audio_track(), Some((eight, EsOutId(1))));
}

#[test]
fn clock_monotonicity() {
    let mut data = Vec::new();
    for ts in [5u32, 3, 10, 7] {
        data.extend(tag(AUDIO, ts, &[0x2e, 0]));
    }
    let mut source = Stream::new(data);
    let mut demuxer = FLVDemuxer::new();
    let mut sink = EsOutBaked::new();
    let mut times = Vec::new();
    for _ in 0..4 {
        assert_eq!(demuxer.demux(&mut source, &mut sink), Ok(()));
        times.push(demuxer.time().0);
    }
    assert_eq!(clocks(&sink), vec![5_000, 5_000, 10_000, 10_000]);
    assert_eq!(times, vec![5_000, 5_000, 10_000, 10_000]);
    // the frames keep the timestamps of their tags
    let stamps: Vec<i64> = sink
        .calls()
        .iter()
        .filter_map(|call| match call {
            EsOutCall::Send(_, frame) => Some(frame.pts.0),
            _ => None,
        })
        .collect();
    assert_eq!(stamps, vec![5_000, 3_000, 10_000, 7_000]);
}

#[test]
fn clock_takes_the_extended_timestamp() {
    let mut source = Stream::new(tag(SCRIPT, 0xff00_0001, &[2, 0, 0, 5]));
    let mut demuxer = FLVDemuxer::new();
    let mut sink = EsOutBaked::new();
    assert_eq!(demuxer.demux(&mut source, &mut sink), Ok(()));
    assert_eq!(demuxer.time(), Tick(0xff00_0001i64 * 1000));
    assert_eq!(sink.calls(), &vec![EsOutCall::SetPcr(Tick(0xff00_0001i64 * 1000))]);
}

#[test]
fn metadata_override() {
    let mut data = tag(SCRIPT, 0, &on_meta_data(&[("audiosamplerate", 48000.0), ("duration", 2.5)]));
    // MP3, rate class 44 kHz, 16 bit, stereo
    data.extend(tag(AUDIO, 0, &[0x2f, 1, 2]));
    let mut source = Stream::new(data);
    let mut demuxer = FLVDemuxer::new();
    let mut sink = EsOutBaked::new();
    assert_eq!(demuxer.demux(&mut source, &mut sink), Ok(()));
    assert_eq!(demuxer.metadata().audio_sample_rate, Some(48000));
    assert_eq!(demuxer.length(), Some(Number::from_bits(2.5f64.to_bits())));
    assert_eq!(demuxer.demux(&mut source, &mut sink), Ok(()));
    assert_eq!(audio_header(0x2f).sound_rate, SoundRate::_44KHZ);
    let format = sink.format(&EsOutId(0)).unwrap();
    assert_eq!(format.audio_format, AudioFormat { i_rate: 48000, i_channels: 2, i_bitspersample: 16 });

    // without the script tag the rate class counts
    let mut source = Stream::new(tag(AUDIO, 0, &[0x2f, 1, 2]));
    let mut demuxer = FLVDemuxer::new();
    let mut sink = EsOutBaked::new();
    assert_eq!(demuxer.demux(&mut source, &mut sink), Ok(()));
    assert_eq!(sink.format(&EsOutId(0)).unwrap().audio_format.i_rate, 44100);
}

#[test]
fn metadata_that_comes_late_does_not_touch_a_registered_track() {
    let mut data = tag(AUDIO, 0, &[0x2f, 1]);
    data.extend(tag(SCRIPT, 0, &on_meta_data(&[("audiosamplerate", 48000.0)])));
    data.extend(tag(AUDIO, 1, &[0x2f, 2]));
    let mut source = Stream::new(data);
    let mut demuxer = FLVDemuxer::new();
    let mut sink = EsOutBaked::new();
    for _ in 0..3 {
        assert_eq!(demuxer.demux(&mut source, &mut sink), Ok(()));
    }
    assert_eq!(sink.format(&EsOutId(0)).unwrap().audio_format.i_rate, 44100);
    assert_eq!(without_clocks(&sink).len(), 3);
}

#[test]
fn key_frame_flagging() {
    let mut data = Vec::new();
    for frame_type in 1u8..=5 {
        data.extend(tag(VIDEO, frame_type as u32, &[(frame_type << 4) | 2, 0x55]));
    }
    data.extend(tag(AUDIO, 9, &[0x1e, 0x66]));
    let mut source = Stream::new(data);
    let mut demuxer = FLVDemuxer::new();
    let mut sink = EsOutBaked::new();
    for _ in 0..6 {
        assert_eq!(demuxer.demux(&mut source, &mut sink), Ok(()));
    }
    let flags: Vec<(bool, u32)> = sink
        .calls()
        .iter()
        .filter_map(|call| match call {
            EsOutCall::Send(_, frame) => Some((frame.has_flag(FrameFlag::TypeI), frame.flags)),
            _ => None,
        })
        .collect();
    assert_eq!(
        flags,
        vec![(true, 2), (false, 0), (false, 0), (false, 0), (false, 0), (false, 0)]
    );
}

#[test]
fn truncated_stream() {
    let whole = tag(AUDIO, 1, &[0x2e, 1, 2, 3]);
    let mut data = whole.clone();
    data.extend_from_slice(&whole[..10]);
    let mut source = Stream::new(data);
    let mut demuxer = FLVDemuxer::new();
    let mut sink = EsOutBaked::new();
    assert_eq!(demuxer.demux(&mut source, &mut sink), Ok(()));
    let calls = sink.calls().len();
    let track = demuxer.audio_track();
    assert_eq!(demuxer.demux(&mut source, &mut sink), Err(CoreError::Eof));
    assert_eq!(sink.calls().len(), calls);
    assert_eq!(demuxer.audio_track(), track);
    assert_eq!(demuxer.time(), Tick(1000));
    assert_eq!(demuxer.phase(), Phase::Idle);
    assert!(source.eof());
    assert_eq!(demuxer.demux(&mut source, &mut sink), Err(CoreError::Eof));
    for cut in 0..15 {
        let mut source = Stream::new(whole[..cut].to_vec());
        let mut demuxer = FLVDemuxer::new();
        let mut sink = EsOutBaked::new();
        assert_eq!(demuxer.demux(&mut source, &mut sink), Err(CoreError::Eof));
        assert!(sink.calls().is_empty());
    }
}

#[test]
fn malformed_headers_end_the_stream() {
    let cases: Vec<Vec<u8>> = vec![
        tag(7, 0, &[0x2e, 1]),
        tag(AUDIO, 0, &[0x9e, 1]),
        tag(AUDIO, 0, &[]),
        tag(VIDEO, 0, &[0x00, 1]),
        tag(VIDEO, 0, &[0x1a, 1]),
        tag(VIDEO, 0, &[0x17, 3, 0, 0, 0, 1]),
        tag(VIDEO, 0, &[0x17, 1, 0, 0]),
        tag(VIDEO, 0, &[0x17]),
        tag(VIDEO, 0, &[]),
        tag(SCRIPT, 0, &[2, 0, 1]),
        tag(SCRIPT, 0, &[]),
    ];
    for (i, data) in cases.into_iter().enumerate() {
        let mut source = Stream::new(data);
        let mut demuxer = FLVDemuxer::new();
        let mut sink = EsOutBaked::new();
        assert_eq!(demuxer.demux(&mut source, &mut sink), Err(CoreError::Eof), "case {}", i);
        assert!(without_clocks(&sink).is_empty());
        assert_eq!(demuxer.audio_track(), None);
        assert_eq!(demuxer.video_track(), None);
        // the clock was published unless the tag header itself is at fault
        assert_eq!(clocks(&sink).len(), if i == 0 { 0 } else { 1 });
    }
}

#[test]
fn a_payload_cut_short_is_sent_as_far_as_it_goes() {
    let whole = tag(AUDIO, 0, &[0x2e, 1, 2, 3, 4]);
    let mut source = Stream::new(whole[..whole.len() - 2].to_vec());
    let mut demuxer = FLVDemuxer::new();
    let mut sink = EsOutBaked::new();
    assert_eq!(demuxer.demux(&mut source, &mut sink), Ok(()));
    assert_eq!(without_clocks(&sink)[1], EsOutCall::Send(EsOutId(0), frame(&[1, 2], 0, 0)));
}

fn expect_read(request: Request, len: usize) {
    assert_eq!(request, Request::Read { len });
}

#[test]
fn the_machine_asks_step_by_step() {
    let bytes = tag(VIDEO, 2, &[0x17, 1, 0, 0, 0, 0xaa, 0xbb, 0xcc]);
    let mut demuxer = FLVDemuxer::new();
    expect_read(demuxer.step(Reply::Start), 15);
    assert_eq!(demuxer.phase(), Phase::TagHeader);
    assert_eq!(demuxer.step(Reply::Data(bytes[..15].to_vec())), Request::SetPcr { pcr: Tick(2000) });
    expect_read(demuxer.step(Reply::Done), 1);
    expect_read(demuxer.step(Reply::Data(vec![0x17])), 4);
    assert_eq!(demuxer.step(Reply::Data(vec![1, 0, 0, 0])), Request::Block { len: 3 });
    let key = video_header(0x17);
    assert_eq!(
        demuxer.step(Reply::Done),
        Request::Add { format: video_codec_to_es_format(&key, &MetaData::empty()) }
    );
    assert_eq!(demuxer.video_track(), None);
    assert_eq!(
        demuxer.step(Reply::Added(EsOutId(41))),
        Request::Send { id: EsOutId(41), pts: Tick(2000), dts: Tick(2000), flags: 2 }
    );
    assert_eq!(demuxer.video_track(), Some((key, EsOutId(41))));
    assert_eq!(demuxer.step(Reply::Done), Request::Finished(Ok(())));
    assert_eq!(demuxer.phase(), Phase::Idle);
}

#[test]
fn a_failure_of_the_host_ends_the_call_with_its_error() {
    let error = CoreError::Core(Errno(-12));
    let header = tag(AUDIO, 4, &[0x2e, 1])[..15].to_vec();

    // reading fails
    let mut demuxer = FLVDemuxer::new();
    demuxer.step(Reply::Start);
    assert_eq!(demuxer.step(Reply::Failed(error)), Request::Finished(Err(error)));
    assert_eq!(demuxer.phase(), Phase::Idle);
    assert_eq!(demuxer.time(), Tick(1));

    // publishing the clock fails: the clock has moved all the same
    let mut demuxer = FLVDemuxer::new();
    demuxer.step(Reply::Start);
    demuxer.step(Reply::Data(header.clone()));
    assert_eq!(demuxer.step(Reply::Failed(error)), Request::Finished(Err(error)));
    assert_eq!(demuxer.time(), Tick(4000));

    // registering fails: there is no track
    let mut demuxer = FLVDemuxer::new();
    demuxer.step(Reply::Start);
    demuxer.step(Reply::Data(header.clone()));
    demuxer.step(Reply::Done);
    demuxer.step(Reply::Data(vec![0x2e]));
    assert!(matches!(demuxer.step(Reply::Done), Request::Add { .. }));
    assert_eq!(demuxer.step(Reply::Failed(CoreError::Unknown)), Request::Finished(Err(CoreError::Unknown)));
    assert_eq!(demuxer.audio_track(), None);

    // unregistering fails: the old track is forgotten
    let mut demuxer = FLVDemuxer::new();
    demuxer.step(Reply::Start);
    demuxer.step(Reply::Data(header.clone()));
    demuxer.step(Reply::Done);
    demuxer.step(Reply::Data(vec![0x2e]));
    demuxer.step(Reply::Done);
    demuxer.step(Reply::Added(EsOutId(3)));
    assert_eq!(demuxer.step(Reply::Done), Request::Finished(Ok(())));
    demuxer.step(Reply::Start);
    demuxer.step(Reply::Data(header.clone()));
    demuxer.step(Reply::Done);
    demuxer.step(Reply::Data(vec![0x2c]));
    assert_eq!(demuxer.step(Reply::Done), Request::Del { id: EsOutId(3) });
    assert_eq!(demuxer.step(Reply::Failed(error)), Request::Finished(Err(error)));
    assert_eq!(demuxer.audio_track(), None);

    // sending fails: the track stays
    let mut demuxer = FLVDemuxer::new();
    demuxer.step(Reply::Start);
    demuxer.step(Reply::Data(header));
    demuxer.step(Reply::Done);
    demuxer.step(Reply::Data(vec![0x2e]));
    demuxer.step(Reply::Done);
    assert!(matches!(demuxer.step(Reply::Added(EsOutId(0))), Request::Send { .. }));
    assert_eq!(demuxer.step(Reply::Failed(error)), Request::Finished(Err(error)));
    assert_eq!(demuxer.audio_track(), Some((audio_header(0x2e), EsOutId(0))));
}

#[test]
fn a_reply_out_of_turn_ends_the_call() {
    let mut demuxer = FLVDemuxer::new();
    assert_eq!(demuxer.step(Reply::Done), Request::Finished(Err(CoreError::Unknown)));
    assert_eq!(demuxer.step(Reply::Data(vec![0; 15])), Request::Finished(Err(CoreError::Unknown)));
    assert_eq!(demuxer.step(Reply::Added(EsOutId(0))), Request::Finished(Err(CoreError::Unknown)));
    demuxer.step(Reply::Start);
    assert_eq!(demuxer.step(Reply::Done), Request::Finished(Err(CoreError::Unknown)));
    assert_eq!(demuxer.phase(), Phase::Idle);
    // a call that was left is dropped by the next start
    demuxer.step(Reply::Start);
    demuxer.step(Reply::Data(tag(AUDIO, 0, &[0x2e])[..15].to_vec()));
    expect_read(demuxer.step(Reply::Start), 15);
}

#[test]
fn the_sink_refuses_handles_it_does_not_know() {
    let mut sink = EsOutBaked::new();
    let format = EsFormat::new(EsFormatCategory::AUDIO_ES, FourCC(FourCC::VLC_CODEC_MP3));
    assert_eq!(sink.send(&EsOutId(0), frame(&[1], 0, 0)), Err(CoreError::Unknown));
    assert_eq!(sink.del(EsOutId(0)), Err(CoreError::Unknown));
    assert_eq!(sink.add(&format), Ok(EsOutId(0)));
    assert_eq!(sink.add(&format), Ok(EsOutId(1)));
    assert_eq!(sink.send(&EsOutId(1), frame(&[1, 2], 0, 0)), Ok(2));
    assert_eq!(sink.del(EsOutId(1)), Ok(()));
    assert_eq!(sink.del(EsOutId(1)), Err(CoreError::Unknown));
    assert_eq!(sink.send(&EsOutId(1), frame(&[1], 0, 0)), Err(CoreError::Unknown));
    assert_eq!(sink.add(&format), Ok(EsOutId(2)));
    assert_eq!(sink.set_pcr(Tick(9)), Ok(()));
    assert_eq!(sink.calls().len(), 6);
}
