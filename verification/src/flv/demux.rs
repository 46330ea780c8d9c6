//! The demuxer as a state machine that does no input or output of its own.
//!
//! One call of "demux" handles one tag. The demuxer asks for one thing at a
//! time with a [`Request`] (bytes of the source, a call of the sink) and is
//! told how it went with a [`Reply`]. Whoever owns the source and the sink
//! starts a call with [`Reply::Start`], carries out each request, and feeds it
//! back in until the demuxer answers [`Request::Finished`].
//!
//! Nothing of a tag is kept from one call to the next: what stays is the clock,
//! the two tracks and the metadata.

use vstd::prelude::*;
use crate::error::CoreError;
use crate::es::EsFormat;
use crate::es_out::EsOutId;
use crate::flv::codec::{
    audio_codec_to_es_format,
    spec_audio_codec_to_es_format,
    spec_video_codec_to_es_format,
    video_codec_to_es_format,
};
use crate::flv::metadata::MetaData;
use crate::flv::parser::{
    AudioDataHeader,
    CodecId,
    FrameType,
    TagHeader,
    TagType,
    VideoDataHeader,
    parse_audio_payload_header,
    parse_avc_packet_header,
    parse_tag_header,
    parse_video_payload_header,
    spec_parse_audio_payload_header,
    spec_parse_avc_packet_header,
    spec_parse_tag_header,
    spec_parse_video_payload_header,
};
use crate::flv::script::{parse_script_data, spec_parse_script_data};
use crate::number::Number;
use crate::stream::frame::FrameFlag;
use crate::tick::{Miliseconds, Tick};

verus! {

/// The bytes before a payload: four of the back-pointer, eleven of the tag
/// header.
pub const TAG_PREFIX_LEN: usize = 15;

/// What the demuxer asks of its host.
#[derive(Debug, Clone, Copy, PartialEq, Eq)]
pub enum Request {
    /// Read `len` bytes from the source and hand over what came, be it less.
    Read { len: usize },
    /// Pull the next `len` bytes of the source as a block and keep it for the
    /// `Send` that follows.
    Block { len: usize },
    /// Publish the clock to the sink.
    SetPcr { pcr: Tick },
    /// Unregister a track.
    Del { id: EsOutId },
    /// Register a track with this description.
    Add { format: EsFormat },
    /// Stamp the block that was pulled last and send it to a track.
    Send { id: EsOutId, pts: Tick, dts: Tick, flags: u32 },
    /// The call is over, with this result.
    Finished(Result<(), CoreError>),
}

/// What the host tells the demuxer.
#[derive(Debug, Clone, PartialEq, Eq)]
pub enum Reply {
    /// A new call begins.
    Start,
    /// The bytes that a `Read` gave.
    Data(Vec<u8>),
    /// The request was carried out.
    Done,
    /// The track was registered under this handle.
    Added(EsOutId),
    /// The request failed.
    Failed(CoreError),
}

/// What a [`Reply`] stands for.
pub enum ReplyView {
    Start,
    Data(Seq<u8>),
    Done,
    Added(EsOutId),
    Failed(CoreError),
}

impl View for Reply {
    type V = ReplyView;

    open spec fn view(&self) -> ReplyView {
        match *self {
            Reply::Start => ReplyView::Start,
            Reply::Data(bytes) => ReplyView::Data(bytes@),
            Reply::Done => ReplyView::Done,
            Reply::Added(id) => ReplyView::Added(id),
            Reply::Failed(e) => ReplyView::Failed(e),
        }
    }
}

/// The payload header of the tag at hand, which tells the track it is for.
#[derive(Debug, Clone, Copy, PartialEq, Eq, Structural)]
pub enum Payload {
    Audio(AudioDataHeader),
    Video(VideoDataHeader),
}

/// Where the demuxer stands within a call: the request that is under way.
#[derive(Debug, Clone, Copy, PartialEq, Eq, Structural)]
pub enum Phase {
    /// Between two calls.
    Idle,
    /// Reading the back-pointer and the tag header.
    TagHeader,
    /// Publishing the clock.
    Clock(TagHeader),
    /// Reading the audio header.
    AudioHeader(TagHeader),
    /// Reading the video header.
    VideoHeader(TagHeader),
    /// Reading the AVC packet header.
    AvcHeader(TagHeader, VideoDataHeader),
    /// Pulling the payload.
    Block(TagHeader, Payload),
    /// Reading script data.
    Script(TagHeader),
    /// Unregistering the track whose header changed.
    Retire(Tick, Payload),
    /// Registering the track.
    Register(Tick, Payload),
    /// Sending the frame.
    Deliver,
}

/// All that a demuxer holds.
pub struct DemuxerState {
    /// The clock: the latest timestamp seen.
    pub pcr: Tick,
    /// The audio track: the header it was registered for, and its handle.
    pub audio: Option<(AudioDataHeader, EsOutId)>,
    /// The video track: the header it was registered for, and its handle.
    pub video: Option<(VideoDataHeader, EsOutId)>,
    pub metadata: MetaData,
    pub phase: Phase,
}

/// The demuxer of one FLV stream.
#[derive(Debug, Clone, Copy)]
pub struct FLVDemuxer {
    pcr: Tick,
    audio_es_out_id: Option<(AudioDataHeader, EsOutId)>,
    video_es_out_id: Option<(VideoDataHeader, EsOutId)>,
    metadata: MetaData,
    phase: Phase,
}

impl View for FLVDemuxer {
    type V = DemuxerState;

    closed spec fn view(&self) -> DemuxerState {
        DemuxerState {
            pcr: self.pcr,
            audio: self.audio_es_out_id,
            video: self.video_es_out_id,
            metadata: self.metadata,
            phase: self.phase,
        }
    }
}

/// The timestamp of a tag in ticks: a thousand ticks to the millisecond.
pub open spec fn tag_tick(header: TagHeader) -> Tick {
    Tick((1000 * header.timestamp) as i64)
}

/// The flags of the frame of a payload: a video key frame is a point at which
/// decoding can start, and nothing else is flagged.
pub open spec fn frame_flags(payload: Payload) -> u32 {
    match payload {
        Payload::Video(v) if v.frame_type == FrameType::Key => FrameFlag::TypeI.spec_bit(),
        _ => 0,
    }
}

impl DemuxerState {
    /// The state of a demuxer that has seen no tag.
    pub open spec fn initial() -> DemuxerState {
        DemuxerState {
            pcr: Tick::spec_zero(),
            audio: None,
            video: None,
            metadata: MetaData::spec_empty(),
            phase: Phase::Idle,
        }
    }

    /// This state in another phase.
    pub open spec fn at(self, phase: Phase) -> DemuxerState {
        DemuxerState { phase, ..self }
    }

    /// The call ends with an error. What was changed so far stays.
    pub open spec fn abort(self, e: CoreError) -> (DemuxerState, Request) {
        (self.at(Phase::Idle), Request::Finished(Err(e)))
    }

    /// The call begins: the fifteen bytes before the payload are to be read.
    pub open spec fn on_start(self) -> (DemuxerState, Request) {
        (self.at(Phase::TagHeader), Request::Read { len: TAG_PREFIX_LEN })
    }

    /// The bytes before the payload came. Fewer than fifteen, or a tag header
    /// that does not decode, end the stream. The back-pointer in the first
    /// four is not looked at. The clock moves to the timestamp of the tag if
    /// that is later, and is published whatever the tag holds.
    pub open spec fn on_tag_header(self, bytes: Seq<u8>) -> (DemuxerState, Request) {
        if bytes.len() < TAG_PREFIX_LEN {
            self.abort(CoreError::Eof)
        } else {
            match spec_parse_tag_header(bytes.subrange(4, TAG_PREFIX_LEN as int)) {
                Err(_) => self.abort(CoreError::Eof),
                Ok((header, _)) => {
                    let pcr = self.pcr.spec_later(tag_tick(header));
                    (
                        DemuxerState { pcr, phase: Phase::Clock(header), ..self },
                        Request::SetPcr { pcr },
                    )
                },
            }
        }
    }

    /// The clock was published: the payload is next. Of an audio or a video
    /// tag the first byte is read, of a script tag all of it.
    pub open spec fn on_clock(self, header: TagHeader) -> (DemuxerState, Request) {
        match header.tag_type {
            TagType::Audio => (self.at(Phase::AudioHeader(header)), Request::Read { len: 1 }),
            TagType::Video => (self.at(Phase::VideoHeader(header)), Request::Read { len: 1 }),
            TagType::Script => (
                self.at(Phase::Script(header)),
                Request::Read { len: header.data_size as usize },
            ),
        }
    }

    /// The block of a payload whose headers took `taken` bytes: what is left
    /// of the size that the tag declares. A tag that declares less than its
    /// headers take ends the stream.
    pub open spec fn pull(self, header: TagHeader, payload: Payload, taken: u32) -> (
        DemuxerState,
        Request,
    ) {
        if header.data_size < taken {
            self.abort(CoreError::Eof)
        } else {
            (
                self.at(Phase::Block(header, payload)),
                Request::Block { len: (header.data_size - taken) as usize },
            )
        }
    }

    /// The audio header came: the rest of the payload is the block.
    pub open spec fn on_audio_header(self, header: TagHeader, bytes: Seq<u8>) -> (
        DemuxerState,
        Request,
    ) {
        match spec_parse_audio_payload_header(bytes) {
            Err(_) => self.abort(CoreError::Eof),
            Ok((audio, _)) => self.pull(header, Payload::Audio(audio), 1),
        }
    }

    /// The video header came. H.264 has four more bytes of header; for any
    /// other codec the rest of the payload is the block.
    pub open spec fn on_video_header(self, header: TagHeader, bytes: Seq<u8>) -> (
        DemuxerState,
        Request,
    ) {
        match spec_parse_video_payload_header(bytes) {
            Err(_) => self.abort(CoreError::Eof),
            Ok((video, _)) => if video.codec_id == CodecId::H264 {
                (self.at(Phase::AvcHeader(header, video)), Request::Read { len: 4 })
            } else {
                self.pull(header, Payload::Video(video), 1)
            },
        }
    }

    /// The AVC packet header came. It must decode; nothing of it is used.
    pub open spec fn on_avc_header(self, header: TagHeader, video: VideoDataHeader, bytes: Seq<u8>)
        -> (DemuxerState, Request) {
        match spec_parse_avc_packet_header(bytes) {
            Err(_) => self.abort(CoreError::Eof),
            Ok(_) => self.pull(header, Payload::Video(video), 5),
        }
    }

    /// The script data came. Data that does not decode ends the stream; else
    /// the metadata takes over what it says, and the call is over.
    pub open spec fn on_script(self, bytes: Seq<u8>) -> (DemuxerState, Request) {
        match spec_parse_script_data(bytes) {
            None => self.abort(CoreError::Eof),
            Some((data, _)) => (
                DemuxerState { metadata: self.metadata.spec_update(data), phase: Phase::Idle, ..self },
                Request::Finished(Ok(())),
            ),
        }
    }

    /// Whether the track of this payload is registered, and under which handle.
    pub open spec fn track(self, payload: Payload) -> Option<(Payload, EsOutId)> {
        match payload {
            Payload::Audio(_) => match self.audio {
                Some((header, id)) => Some((Payload::Audio(header), id)),
                None => None,
            },
            Payload::Video(_) => match self.video {
                Some((header, id)) => Some((Payload::Video(header), id)),
                None => None,
            },
        }
    }

    /// This state with the track of `payload` registered under `id`, or with
    /// that track unregistered.
    pub open spec fn with_track(self, payload: Payload, id: Option<EsOutId>) -> DemuxerState {
        match payload {
            Payload::Audio(header) => DemuxerState {
                audio: match id {
                    Some(id) => Some((header, id)),
                    None => None,
                },
                ..self
            },
            Payload::Video(header) => DemuxerState {
                video: match id {
                    Some(id) => Some((header, id)),
                    None => None,
                },
                ..self
            },
        }
    }

    /// The description under which the track of `payload` is registered.
    pub open spec fn format(self, payload: Payload) -> EsFormat {
        match payload {
            Payload::Audio(header) => spec_audio_codec_to_es_format(header, self.metadata),
            Payload::Video(header) => spec_video_codec_to_es_format(header, self.metadata),
        }
    }

    /// The track of `payload` is to be registered.
    pub open spec fn register(self, ts: Tick, payload: Payload) -> (DemuxerState, Request) {
        (self.at(Phase::Register(ts, payload)), Request::Add { format: self.format(payload) })
    }

    /// The frame is to be sent to the track `id`, with both of its dates at
    /// the timestamp of the tag.
    pub open spec fn deliver(self, id: EsOutId, ts: Tick, payload: Payload) -> (
        DemuxerState,
        Request,
    ) {
        (
            self.at(Phase::Deliver),
            Request::Send { id, pts: ts, dts: ts, flags: frame_flags(payload) },
        )
    }

    /// A block is at hand for the track of `payload`.
    ///
    /// A track that is registered for another header is forgotten and
    /// unregistered. A track that is not registered is registered. Else the
    /// frame is sent.
    pub open spec fn submit(self, ts: Tick, payload: Payload) -> (DemuxerState, Request) {
        match self.track(payload) {
            Some((current, id)) => if current != payload {
                (
                    self.with_track(payload, None).at(Phase::Retire(ts, payload)),
                    Request::Del { id },
                )
            } else {
                self.deliver(id, ts, payload)
            },
            None => self.register(ts, payload),
        }
    }

    /// The bytes of a `Read` came.
    pub open spec fn on_data(self, bytes: Seq<u8>) -> (DemuxerState, Request) {
        match self.phase {
            Phase::TagHeader => self.on_tag_header(bytes),
            Phase::AudioHeader(header) => self.on_audio_header(header, bytes),
            Phase::VideoHeader(header) => self.on_video_header(header, bytes),
            Phase::AvcHeader(header, video) => self.on_avc_header(header, video, bytes),
            Phase::Script(_) => self.on_script(bytes),
            _ => self.abort(CoreError::Unknown),
        }
    }

    /// A request without a result of its own was carried out.
    pub open spec fn on_done(self) -> (DemuxerState, Request) {
        match self.phase {
            Phase::Clock(header) => self.on_clock(header),
            Phase::Block(header, payload) => self.submit(tag_tick(header), payload),
            Phase::Retire(ts, payload) => self.with_track(payload, None).register(ts, payload),
            Phase::Deliver => (self.at(Phase::Idle), Request::Finished(Ok(()))),
            _ => self.abort(CoreError::Unknown),
        }
    }

    /// A track was registered.
    pub open spec fn on_added(self, id: EsOutId) -> (DemuxerState, Request) {
        match self.phase {
            Phase::Register(ts, payload) => self.with_track(payload, Some(id)).deliver(
                id,
                ts,
                payload,
            ),
            _ => self.abort(CoreError::Unknown),
        }
    }

    /// The next state and the next request, for each state and reply.
    ///
    /// `Start` begins a call in any phase: a call that was left unfinished is
    /// dropped. A failure ends the call with the error of the host. A reply
    /// that does not answer the request under way ends the call with
    /// `Unknown`.
    pub open spec fn step(self, reply: ReplyView) -> (DemuxerState, Request) {
        match reply {
            ReplyView::Start => self.on_start(),
            ReplyView::Data(bytes) => self.on_data(bytes),
            ReplyView::Done => self.on_done(),
            ReplyView::Added(id) => self.on_added(id),
            ReplyView::Failed(e) => self.abort(e),
        }
    }
}

impl FLVDemuxer {
    /// Creates a demuxer that has seen no tag: the clock at its origin, no
    /// track, no metadata.
    pub fn new() -> (d: FLVDemuxer)
        ensures
            d@ == DemuxerState::initial(),
    {
        FLVDemuxer {
            pcr: Tick::zero(),
            audio_es_out_id: None,
            video_es_out_id: None,
            metadata: MetaData::empty(),
            phase: Phase::Idle,
        }
    }

    /// The clock.
    pub fn time(&self) -> (t: Tick)
        ensures
            t == self@.pcr,
    {
        self.pcr
    }

    /// The duration of the stream in seconds, if the metadata told it.
    pub fn length(&self) -> (d: Option<Number>)
        ensures
            d == self@.metadata.duration_in_seconds,
    {
        self.metadata.duration_in_seconds
    }

    /// Whether the demuxer can seek: it cannot.
    pub fn can_seek(&self) -> (r: bool)
        ensures
            !r,
    {
        false
    }

    /// The metadata.
    pub fn metadata(&self) -> (m: MetaData)
        ensures
            m == self@.metadata,
    {
        self.metadata
    }

    /// The audio track, if one is registered.
    pub fn audio_track(&self) -> (t: Option<(AudioDataHeader, EsOutId)>)
        ensures
            t == self@.audio,
    {
        self.audio_es_out_id
    }

    /// The video track, if one is registered.
    pub fn video_track(&self) -> (t: Option<(VideoDataHeader, EsOutId)>)
        ensures
            t == self@.video,
    {
        self.video_es_out_id
    }

    /// The phase.
    pub fn phase(&self) -> (p: Phase)
        ensures
            p == self@.phase,
    {
        self.phase
    }

    /// Ends the call with an error.
    fn abort(&mut self, e: CoreError) -> (request: Request)
        ensures
            (final(self)@, request) == old(self)@.abort(e),
    {
        self.phase = Phase::Idle;
        Request::Finished(Err(e))
    }

    /// Handles the fifteen bytes before a payload.
    fn on_tag_header(&mut self, bytes: &[u8]) -> (request: Request)
        ensures
            (final(self)@, request) == old(self)@.on_tag_header(bytes@),
    {
        if bytes.len() < TAG_PREFIX_LEN {
            return self.abort(CoreError::Eof);
        }
        let tag_bytes: &[u8] = vstd::slice::slice_subrange(bytes, 4, TAG_PREFIX_LEN);
        match parse_tag_header(tag_bytes) {
            Err(_) => self.abort(CoreError::Eof),
            Ok((header, _)) => {
                let ts: Tick = Tick::from_miliseconds(Miliseconds::from_u32(header.timestamp));
                self.pcr = self.pcr.later(ts);
                self.phase = Phase::Clock(header);
                Request::SetPcr { pcr: self.pcr }
            },
        }
    }

    /// Goes on to the payload once the clock is published.
    fn on_clock(&mut self, header: TagHeader) -> (request: Request)
        ensures
            (final(self)@, request) == old(self)@.on_clock(header),
    {
        match header.tag_type {
            TagType::Script => {
                self.phase = Phase::Script(header);
                Request::Read { len: header.data_size as usize }
            },
            TagType::Audio => {
                self.phase = Phase::AudioHeader(header);
                Request::Read { len: 1 }
            },
            TagType::Video => {
                self.phase = Phase::VideoHeader(header);
                Request::Read { len: 1 }
            },
        }
    }

    /// Asks for the block of a payload whose headers took `taken` bytes.
    fn pull(&mut self, header: TagHeader, payload: Payload, taken: u32) -> (request: Request)
        ensures
            (final(self)@, request) == old(self)@.pull(header, payload, taken),
    {
        if header.data_size < taken {
            return self.abort(CoreError::Eof);
        }
        self.phase = Phase::Block(header, payload);
        Request::Block { len: (header.data_size - taken) as usize }
    }

    /// Handles the first byte of an audio payload.
    fn on_audio_header(&mut self, header: TagHeader, bytes: &[u8]) -> (request: Request)
        ensures
            (final(self)@, request) == old(self)@.on_audio_header(header, bytes@),
    {
        match parse_audio_payload_header(bytes) {
            Err(_) => self.abort(CoreError::Eof),
            Ok((audio, _)) => self.pull(header, Payload::Audio(audio), 1),
        }
    }

    /// Handles the first byte of a video payload.
    fn on_video_header(&mut self, header: TagHeader, bytes: &[u8]) -> (request: Request)
        ensures
            (final(self)@, request) == old(self)@.on_video_header(header, bytes@),
    {
        match parse_video_payload_header(bytes) {
            Err(_) => self.abort(CoreError::Eof),
            Ok((video, _)) => {
                if video.codec_id == CodecId::H264 {
                    self.phase = Phase::AvcHeader(header, video);
                    Request::Read { len: 4 }
                } else {
                    self.pull(header, Payload::Video(video), 1)
                }
            },
        }
    }

    /// Handles the AVC packet header.
    fn on_avc_header(&mut self, header: TagHeader, video: VideoDataHeader, bytes: &[u8]) -> (request:
        Request)
        ensures
            (final(self)@, request) == old(self)@.on_avc_header(header, video, bytes@),
    {
        match parse_avc_packet_header(bytes) {
            Err(_) => self.abort(CoreError::Eof),
            Ok(_) => self.pull(header, Payload::Video(video), 5),
        }
    }

    /// Handles script data.
    fn on_script(&mut self, bytes: &[u8]) -> (request: Request)
        ensures
            (final(self)@, request) == old(self)@.on_script(bytes@),
    {
        match parse_script_data(bytes) {
            None => self.abort(CoreError::Eof),
            Some((data, _)) => {
                self.metadata.update(&data);
                self.phase = Phase::Idle;
                Request::Finished(Ok(()))
            },
        }
    }

    /// Forgets the track of `payload`, or notes its handle.
    fn set_track(&mut self, payload: Payload, id: Option<EsOutId>)
        ensures
            final(self)@ == old(self)@.with_track(payload, id),
    {
        match payload {
            Payload::Audio(header) => {
                self.audio_es_out_id = match id {
                    Some(id) => Some((header, id)),
                    None => None,
                };
            },
            Payload::Video(header) => {
                self.video_es_out_id = match id {
                    Some(id) => Some((header, id)),
                    None => None,
                };
            },
        }
    }

    /// Asks for the registration of the track of `payload`.
    fn register(&mut self, ts: Tick, payload: Payload) -> (request: Request)
        ensures
            (final(self)@, request) == old(self)@.register(ts, payload),
    {
        let es_format: EsFormat = match payload {
            Payload::Audio(audio_header) => audio_codec_to_es_format(
                &audio_header,
                &self.metadata,
            ),
            Payload::Video(video_header) => video_codec_to_es_format(
                &video_header,
                &self.metadata,
            ),
        };
        self.phase = Phase::Register(ts, payload);
        Request::Add { format: es_format }
    }

    /// Asks for the frame to be sent.
    fn deliver(&mut self, id: EsOutId, ts: Tick, payload: Payload) -> (request: Request)
        ensures
            (final(self)@, request) == old(self)@.deliver(id, ts, payload),
    {
        let flags: u32 = match payload {
            Payload::Video(video_header) => if video_header.frame_type == FrameType::Key {
                FrameFlag::TypeI.bit()
            } else {
                0
            },
            Payload::Audio(_) => 0,
        };
        self.phase = Phase::Deliver;
        Request::Send { id, pts: ts, dts: ts, flags }
    }

    /// Hands an audio block to its track.
    fn send_audio(&mut self, ts: Tick, audio_header: AudioDataHeader) -> (request: Request)
        ensures
            (final(self)@, request) == old(self)@.submit(ts, Payload::Audio(audio_header)),
    {
        match self.audio_es_out_id {
            Some((current_audio_header, es_out_id)) => {
                if current_audio_header != audio_header {
                    self.audio_es_out_id = None;
                    self.phase = Phase::Retire(ts, Payload::Audio(audio_header));
                    Request::Del { id: es_out_id }
                } else {
                    self.deliver(es_out_id, ts, Payload::Audio(audio_header))
                }
            },
            None => self.register(ts, Payload::Audio(audio_header)),
        }
    }

    /// Hands a video block to its track.
    fn send_video(&mut self, ts: Tick, video_header: VideoDataHeader) -> (request: Request)
        ensures
            (final(self)@, request) == old(self)@.submit(ts, Payload::Video(video_header)),
    {
        match self.video_es_out_id {
            Some((current_video_header, es_out_id)) => {
                if current_video_header != video_header {
                    self.video_es_out_id = None;
                    self.phase = Phase::Retire(ts, Payload::Video(video_header));
                    Request::Del { id: es_out_id }
                } else {
                    self.deliver(es_out_id, ts, Payload::Video(video_header))
                }
            },
            None => self.register(ts, Payload::Video(video_header)),
        }
    }

    /// Hands a block to the track of its payload.
    fn submit(&mut self, ts: Tick, payload: Payload) -> (request: Request)
        ensures
            (final(self)@, request) == old(self)@.submit(ts, payload),
    {
        match payload {
            Payload::Audio(audio_header) => self.send_audio(ts, audio_header),
            Payload::Video(video_header) => self.send_video(ts, video_header),
        }
    }

    /// Takes the reply to the request under way and gives the next request.
    pub fn step(&mut self, reply: Reply) -> (request: Request)
        ensures
            (final(self)@, request) == old(self)@.step(reply@),
    {
        match reply {
            Reply::Start => {
                self.phase = Phase::TagHeader;
                Request::Read { len: TAG_PREFIX_LEN }
            },
            Reply::Data(bytes) => match self.phase {
                Phase::TagHeader => self.on_tag_header(bytes.as_slice()),
                Phase::AudioHeader(header) => self.on_audio_header(header, bytes.as_slice()),
                Phase::VideoHeader(header) => self.on_video_header(header, bytes.as_slice()),
                Phase::AvcHeader(header, video) => self.on_avc_header(
                    header,
                    video,
                    bytes.as_slice(),
                ),
                Phase::Script(_) => self.on_script(bytes.as_slice()),
                _ => self.abort(CoreError::Unknown),
            },
            Reply::Done => match self.phase {
                Phase::Clock(header) => self.on_clock(header),
                Phase::Block(header, payload) => {
                    let ts: Tick = Tick::from_miliseconds(Miliseconds::from_u32(header.timestamp));
                    self.submit(ts, payload)
                },
                Phase::Retire(ts, payload) => {
                    self.set_track(payload, None);
                    self.register(ts, payload)
                },
                Phase::Deliver => {
                    self.phase = Phase::Idle;
                    Request::Finished(Ok(()))
                },
                _ => self.abort(CoreError::Unknown),
            },
            Reply::Added(id) => match self.phase {
                Phase::Register(ts, payload) => {
                    self.set_track(payload, Some(id));
                    self.deliver(id, ts, payload)
                },
                _ => self.abort(CoreError::Unknown),
            },
            Reply::Failed(e) => self.abort(e),
        }
    }
}

} // verus!
