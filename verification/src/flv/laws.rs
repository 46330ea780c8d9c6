//! What holds of the demuxer on every stream.
//!
//! The laws speak of the demuxer at work on a stream and a sink in memory, as
//! [`demuxed`] describes it.

use vstd::prelude::*;
use crate::error::{CoreError, Result};
use crate::es::EsFormatCategory;
use crate::es_out::{EsOutCallView, EsOutId, EsOutView};
use crate::flv::demux::{
    frame_flags,
    tag_tick,
    DemuxerState,
    Payload,
    Phase,
    ReplyView,
    Request,
    TAG_PREFIX_LEN,
};
use crate::flv::driver::{carried_out, demuxed, lemma_step_advances, opened, rank, World, PROBE_LEN};
use crate::flv::parser::{
    has_signature,
    spec_parse_audio_payload_header,
    spec_parse_avc_packet_header,
    spec_parse_file_header,
    spec_parse_tag_header,
    spec_parse_video_payload_header,
    CodecId,
    FrameType,
    SoundSize,
    SoundType,
    TagHeader,
    TagType,
};
use crate::flv::metadata::last_number;
use crate::flv::script::{spec_parse_script_data, ScriptDataView};
use crate::number::Number;
use crate::stream::frame::{FrameFlag, FrameView};
use crate::stream::impl_stream::StreamView;
use crate::tick::Tick;

verus! {

/// The tracks of the demuxer are registered with the sink, and the audio track
/// is not the video track.
pub open spec fn attached(state: DemuxerState, sink: EsOutView) -> bool {
    &&& match state.audio {
        Some((_, id)) => sink.live(id),
        None => true,
    }
    &&& match state.video {
        Some((_, id)) => sink.live(id),
        None => true,
    }
    &&& match (state.audio, state.video) {
        (Some((_, a)), Some((_, v))) => a != v,
        _ => true,
    }
}

/// The header of the tag record at `pos`: what the eleven bytes after the
/// back-pointer decode to.
pub open spec fn header_at(data: Seq<u8>, pos: int) -> Option<TagHeader> {
    if 0 <= pos && pos + TAG_PREFIX_LEN <= data.len() {
        match spec_parse_tag_header(data.subrange(pos + 4, pos + TAG_PREFIX_LEN)) {
            Ok((header, _)) => Some(header),
            Err(_) => None,
        }
    } else {
        None
    }
}

/// The payload header of the audio or video tag at `pos`, where the tag has
/// room for its headers and they decode.
pub open spec fn payload_at(data: Seq<u8>, pos: int, header: TagHeader) -> Option<Payload> {
    if header.data_size < 1 || pos + 16 > data.len() {
        None
    } else {
        match header.tag_type {
            TagType::Audio => match spec_parse_audio_payload_header(
                data.subrange(pos + 15, pos + 16),
            ) {
                Ok((audio, _)) => Some(Payload::Audio(audio)),
                Err(_) => None,
            },
            TagType::Video => match spec_parse_video_payload_header(
                data.subrange(pos + 15, pos + 16),
            ) {
                Ok((video, _)) => if video.codec_id != CodecId::H264 {
                    Some(Payload::Video(video))
                } else if header.data_size >= 5 && pos + 20 <= data.len()
                    && spec_parse_avc_packet_header(data.subrange(pos + 16, pos + 20)) is Ok {
                    Some(Payload::Video(video))
                } else {
                    None
                },
                Err(_) => None,
            },
            TagType::Script => None,
        }
    }
}

/// How many bytes of a payload its headers take.
pub open spec fn headers_len(payload: Payload) -> int {
    match payload {
        Payload::Video(video) if video.codec_id == CodecId::H264 => 5,
        _ => 1,
    }
}

/// A whole, well-formed tag record stands at `pos`: the back-pointer, a tag
/// header that decodes, and all of the payload that the header declares, with
/// headers that decode or with script data that decodes.
pub open spec fn complete_tag(data: Seq<u8>, pos: int) -> bool {
    match header_at(data, pos) {
        None => false,
        Some(header) => pos + TAG_PREFIX_LEN + header.data_size <= data.len() && match header.tag_type {
            TagType::Script => spec_parse_script_data(
                data.subrange(pos + 15, pos + 15 + header.data_size),
            ) is Some,
            _ => payload_at(data, pos, header) is Some,
        },
    }
}

/// The length of the tag record at `pos`: fifteen bytes and the payload.
pub open spec fn tag_span(data: Seq<u8>, pos: int) -> int {
    TAG_PREFIX_LEN + header_at(data, pos).unwrap().data_size
}

/// The frame that the audio or video tag at `pos` is sent as: the payload
/// after its headers, both dates at the timestamp of the tag, and the flag of
/// an intra frame on a video key frame.
pub open spec fn frame_at(data: Seq<u8>, pos: int, header: TagHeader, payload: Payload)
    -> FrameView {
    FrameView {
        pts: tag_tick(header),
        dts: tag_tick(header),
        flags: frame_flags(payload),
        ..FrameView::bare(
            if header.data_size - headers_len(payload) == 0 {
                Seq::empty()
            } else {
                data.subrange(
                    pos + 15 + headers_len(payload),
                    pos + 15 + header.data_size,
                )
            },
        )
    }
}

/// The demuxer after a frame went to the track of `payload`: the track is
/// registered for this payload header, under the handle it had if the header
/// is the one it had, else under `fresh`.
pub open spec fn track_after(state: DemuxerState, fresh: EsOutId, payload: Payload)
    -> DemuxerState {
    match state.track(payload) {
        Some((current, id)) if current == payload => state,
        _ => state.with_track(payload, Some(fresh)),
    }
}

/// The sink after a frame went to the track of `payload`.
///
/// A track that is registered for another payload header is unregistered and
/// registered anew before the frame is sent; a track that is not registered is
/// registered first. The handle of a new registration is the number of slots of
/// the sink.
pub open spec fn sink_after_frame(
    state: DemuxerState,
    sink: EsOutView,
    payload: Payload,
    frame: FrameView,
) -> EsOutView {
    let fresh = EsOutId(sink.slots.len() as usize);
    match state.track(payload) {
        Some((current, id)) => if current == payload {
            sink.sent(id, frame)
        } else {
            sink.deleted(id).added(state.format(payload)).sent(fresh, frame)
        },
        None => sink.added(state.format(payload)).sent(fresh, frame),
    }
}

/// The demuxer after the complete tag at `pos`: the clock is at the later of
/// its date and the timestamp of the tag; an audio or video tag leaves its
/// track registered for its payload header; a script tag updates the metadata.
pub open spec fn state_after_tag(state: DemuxerState, sink: EsOutView, data: Seq<u8>, pos: int)
    -> DemuxerState {
    let header = header_at(data, pos).unwrap();
    let clocked = DemuxerState {
        pcr: state.pcr.spec_later(tag_tick(header)),
        phase: Phase::Idle,
        ..state
    };
    match header.tag_type {
        TagType::Script => DemuxerState {
            metadata: state.metadata.spec_update(
                spec_parse_script_data(
                    data.subrange(pos + 15, pos + 15 + header.data_size),
                ).unwrap().0,
            ),
            ..clocked
        },
        _ => track_after(
            clocked,
            EsOutId(sink.slots.len() as usize),
            payload_at(data, pos, header).unwrap(),
        ),
    }
}

/// The sink after the complete tag at `pos`: it took the clock, and then, of
/// an audio or video tag, the frame.
pub open spec fn sink_after_tag(state: DemuxerState, sink: EsOutView, data: Seq<u8>, pos: int)
    -> EsOutView {
    let header = header_at(data, pos).unwrap();
    let clocked = sink.clocked(state.pcr.spec_later(tag_tick(header)));
    match header.tag_type {
        TagType::Script => clocked,
        _ => {
            let payload = payload_at(data, pos, header).unwrap();
            sink_after_frame(state, clocked, payload, frame_at(data, pos, header, payload))
        },
    }
}

/// One step of a call: the request under way is answered, and the demuxer
/// takes the reply.
proof fn lemma_carry(state: DemuxerState, world: World, request: Request)
    requires
        !(request is Finished),
    ensures
        carried_out(state, world, request) == ({
            let (after, reply) = world.answer(request);
            let (next, following) = state.step(reply);
            match following {
                Request::Finished(result) => (next, after, result),
                _ => carried_out(next, after, following),
            }
        }),
{
    let (after, reply) = world.answer(request);
    lemma_step_advances(state, reply);
}

/// From the moment a block is at hand: the track is brought up to date and
/// the frame is sent.
proof fn lemma_submit(state: DemuxerState, world: World, header: TagHeader, payload: Payload)
    requires
        attached(state, world.sink),
        world.sink.slots.len() < usize::MAX,
        state.phase == Phase::Block(header, payload),
    ensures
        ({
            let ts = tag_tick(header);
            let frame = FrameView {
                pts: ts,
                dts: ts,
                flags: frame_flags(payload),
                ..FrameView::bare(world.held)
            };
            let (next, request) = state.step(ReplyView::Done);
            let (after, w, result) = carried_out(next, world, request);
            &&& result == Ok::<(), CoreError>(())
            &&& after == track_after(
                state,
                EsOutId(world.sink.slots.len() as usize),
                payload,
            ).at(Phase::Idle)
            &&& w.source == world.source
            &&& w.sink == sink_after_frame(state, world.sink, payload, frame)
            &&& attached(after, w.sink)
        }),
{
    let ts = tag_tick(header);
    let (s1, r1) = state.step(ReplyView::Done);
    lemma_carry(s1, world, r1);
    let (w1, p1) = world.answer(r1);
    let (s2, r2) = s1.step(p1);
    match state.track(payload) {
        Some((current, id)) => {
            if current == payload {
                assert(r2 is Finished);
            } else {
                assert(r1 == Request::Del { id });
                assert(p1 == ReplyView::Done);
                lemma_carry(s2, w1, r2);
                let (w2, p2) = w1.answer(r2);
                let (s3, r3) = s2.step(p2);
                lemma_carry(s3, w2, r3);
                let (w3, p3) = w2.answer(r3);
                assert(w2.sink.live(EsOutId(w1.sink.slots.len() as usize)));
                assert(p3 == ReplyView::Done);
            }
        },
        None => {
            lemma_carry(s2, w1, r2);
            let (w2, p2) = w1.answer(r2);
            assert(w1.sink.live(EsOutId(world.sink.slots.len() as usize)));
            assert(p2 == ReplyView::Done);
        },
    }
}

/// A call on a complete tag succeeds, takes the tag and nothing else from the
/// source, and makes the calls of the tag on the sink, in order. (The sink
/// must have a handle left to give.)
pub proof fn lemma_demux_complete_tag(state: DemuxerState, source: StreamView, sink: EsOutView)
    requires
        attached(state, sink),
        sink.slots.len() < usize::MAX,
        complete_tag(source.data, source.pos),
    ensures
        demuxed(state, source, sink) == (
            state_after_tag(state, sink, source.data, source.pos),
            StreamView { pos: source.pos + tag_span(source.data, source.pos), ..source },
            sink_after_tag(state, sink, source.data, source.pos),
            Ok::<(), CoreError>(()),
        ),
        attached(
            state_after_tag(state, sink, source.data, source.pos),
            sink_after_tag(state, sink, source.data, source.pos),
        ),
{
    let data = source.data;
    let pos = source.pos;
    let header = header_at(data, pos).unwrap();
    let w0 = World { source, held: Seq::empty(), sink };
    let (s1, r1) = state.on_start();
    // the fifteen bytes before the payload
    lemma_carry(s1, w0, r1);
    let (w1, p1) = w0.answer(r1);
    assert(source.upcoming(15) == data.subrange(pos, pos + 15));
    assert(data.subrange(pos, pos + 15).subrange(4, 15) =~= data.subrange(pos + 4, pos + 15));
    let (s2, r2) = s1.step(p1);
    assert(s2.phase == Phase::Clock(header));
    // the clock
    lemma_carry(s2, w1, r2);
    let (w2, p2) = w1.answer(r2);
    let (s3, r3) = s2.step(p2);
    assert(w2.source.pos == pos + 15);
    // the payload
    lemma_carry(s3, w2, r3);
    let (w3, p3) = w2.answer(r3);
    let (s4, r4) = s3.step(p3);
    match header.tag_type {
        TagType::Script => {
            if header.data_size == 0 {
                assert(w2.source.upcoming(0) == Seq::<u8>::empty());
                assert(data.subrange(pos + 15, pos + 15) =~= Seq::<u8>::empty());
            } else {
                assert(w2.source.upcoming(header.data_size as int) == data.subrange(
                    pos + 15,
                    pos + 15 + header.data_size,
                ));
            }
            assert(r4 is Finished);
        },
        _ => {
            let payload = payload_at(data, pos, header).unwrap();
            assert(w2.source.upcoming(1) == data.subrange(pos + 15, pos + 16));
            assert(w3.source.pos == pos + 16);
            lemma_carry(s4, w3, r4);
            let (w4, p4) = w3.answer(r4);
            let (s5, r5) = s4.step(p4);
            if headers_len(payload) == 5 {
                assert(w3.source.upcoming(4) == data.subrange(pos + 16, pos + 20));
                assert(w4.source.pos == pos + 20);
                lemma_carry(s5, w4, r5);
                let (w5, p5) = w4.answer(r5);
                assert(s5.phase == Phase::Block(header, payload));
                assert(attached(s5, w5.sink));
                lemma_submit(s5, w5, header, payload);
                assert(w5.held == frame_at(data, pos, header, payload).payload);
            } else {
                assert(s4.phase == Phase::Block(header, payload));
                assert(attached(s4, w4.sink));
                lemma_submit(s4, w4, header, payload);
                assert(w4.held == frame_at(data, pos, header, payload).payload);
            }
        },
    }
}

/// `n` whole, well-formed tag records stand in a row from `pos`.
pub open spec fn complete_tags(data: Seq<u8>, pos: int, n: nat) -> bool
    decreases n,
{
    n == 0 || (complete_tag(data, pos) && complete_tags(
        data,
        pos + tag_span(data, pos),
        (n - 1) as nat,
    ))
}

/// The length of the `n` tag records from `pos`: for each, fifteen bytes and
/// its payload.
pub open spec fn tags_span(data: Seq<u8>, pos: int, n: nat) -> int
    decreases n,
{
    if n == 0 {
        0
    } else {
        tag_span(data, pos) + tags_span(data, pos + tag_span(data, pos), (n - 1) as nat)
    }
}

/// The demuxer and the sink after the `n` tags from `pos`, taken one after the
/// other in the order in which they stand.
pub open spec fn after_tags(
    state: DemuxerState,
    sink: EsOutView,
    data: Seq<u8>,
    pos: int,
    n: nat,
) -> (DemuxerState, EsOutView)
    decreases n,
{
    if n == 0 {
        (state, sink)
    } else {
        after_tags(
            state_after_tag(state, sink, data, pos),
            sink_after_tag(state, sink, data, pos),
            data,
            pos + tag_span(data, pos),
            (n - 1) as nat,
        )
    }
}

/// What `n` calls of "demux" in a row come to, and whether all of them
/// succeeded. The calls stop at the first that fails.
pub open spec fn demuxed_times(
    state: DemuxerState,
    source: StreamView,
    sink: EsOutView,
    n: nat,
) -> (DemuxerState, StreamView, EsOutView, bool)
    decreases n,
{
    if n == 0 {
        (state, source, sink, true)
    } else {
        let (next, rest, taken, result) = demuxed(state, source, sink);
        if result is Ok {
            demuxed_times(next, rest, taken, (n - 1) as nat)
        } else {
            (next, rest, taken, false)
        }
    }
}

/// Tag framing: on `n` complete tags in a row, `n` calls succeed, take
/// exactly the bytes of these tags from the source, fifteen and the payload for
/// each, and leave on the sink the calls of each tag in the order of the tags.
/// (The sink must have `n` handles left to give.)
pub proof fn lemma_tag_framing(state: DemuxerState, source: StreamView, sink: EsOutView, n: nat)
    requires
        attached(state, sink),
        sink.slots.len() + n <= usize::MAX,
        complete_tags(source.data, source.pos, n),
    ensures
        demuxed_times(state, source, sink, n) == (
            after_tags(state, sink, source.data, source.pos, n).0,
            StreamView { pos: source.pos + tags_span(source.data, source.pos, n), ..source },
            after_tags(state, sink, source.data, source.pos, n).1,
            true,
        ),
        attached(
            after_tags(state, sink, source.data, source.pos, n).0,
            after_tags(state, sink, source.data, source.pos, n).1,
        ),
    decreases n,
{
    if n > 0 {
        lemma_demux_complete_tag(state, source, sink);
        let (next, rest, taken, result) = demuxed(state, source, sink);
        assert(taken.slots.len() <= sink.slots.len() + 1);
        lemma_tag_framing(next, rest, taken, (n - 1) as nat);
    }
}

/// Tag framing from the start of a stream: a stream that is a file header,
/// whatever lies up to the offset that the header gives, and `n` complete tags
/// is opened and demuxed by `n` calls, after which the read position stands at
/// that offset plus the length of the tags.
pub proof fn lemma_stream_framing(data: Seq<u8>, n: nat)
    requires
        n <= usize::MAX,
        spec_parse_file_header(
            (StreamView { data, pos: 0 }).upcoming(PROBE_LEN as int),
        ) is Ok,
        complete_tags(
            data,
            spec_parse_file_header(
                (StreamView { data, pos: 0 }).upcoming(PROBE_LEN as int),
            ).unwrap().0.offset as int,
            n,
        ),
    ensures
        ({
            let start = StreamView { data, pos: 0 };
            let offset = spec_parse_file_header(
                start.upcoming(PROBE_LEN as int),
            ).unwrap().0.offset as int;
            let (source, demuxer) = opened(start);
            let (state, rest, sink, all) = demuxed_times(
                demuxer.unwrap(),
                source,
                EsOutView::empty(),
                n,
            );
            &&& demuxer is Ok
            &&& all
            &&& rest.pos == offset + tags_span(data, offset, n)
            &&& sink == after_tags(DemuxerState::initial(), EsOutView::empty(), data, offset, n).1
        }),
{
    let start = StreamView { data, pos: 0 };
    let (source, demuxer) = opened(start);
    lemma_tag_framing(demuxer.unwrap(), source, EsOutView::empty(), n);
}

/// Header probe: a stream whose next bytes are not the signature of the
/// format is not claimed, and opening it takes no byte from it.
pub proof fn lemma_probe_rejects(source: StreamView)
    requires
        !has_signature(source.upcoming(PROBE_LEN as int)),
    ensures
        opened(source) == (source, Err::<DemuxerState, CoreError>(CoreError::Unknown)),
{
}

/// Truncated stream: where fewer than fifteen bytes are left, a call ends the
/// stream. It takes the bytes that are left, and changes neither the clock,
/// nor the tracks, nor the metadata, nor the sink.
pub proof fn lemma_truncated_stream(state: DemuxerState, source: StreamView, sink: EsOutView)
    requires
        source.available(TAG_PREFIX_LEN as int) < TAG_PREFIX_LEN,
    ensures
        demuxed(state, source, sink) == (
            state.at(Phase::Idle),
            source.advanced(TAG_PREFIX_LEN as int),
            sink,
            Err::<(), CoreError>(CoreError::Eof),
        ),
{
    let w0 = World { source, held: Seq::empty(), sink };
    let (s1, r1) = state.on_start();
    lemma_carry(s1, w0, r1);
}

/// Clock monotonicity, step by step: no reply makes the clock go back, and a
/// clock that is published is the clock of the demuxer at that moment.
pub proof fn lemma_clock_step(state: DemuxerState, reply: ReplyView)
    ensures
        state.step(reply).0.pcr.0 >= state.pcr.0,
        match state.step(reply).1 {
            Request::SetPcr { pcr } => pcr == state.step(reply).0.pcr,
            _ => true,
        },
{
}

/// The clock does not go back while a call is carried out.
proof fn lemma_clock_carried(state: DemuxerState, world: World, request: Request)
    ensures
        carried_out(state, world, request).0.pcr.0 >= state.pcr.0,
    decreases rank(state.phase),
{
    if !(request is Finished) {
        let (after, reply) = world.answer(request);
        let (next, following) = state.step(reply);
        lemma_clock_step(state, reply);
        lemma_step_advances(state, reply);
        if !(following is Finished) {
            lemma_clock_carried(next, after, following);
        }
    }
}

/// Clock monotonicity: whatever a call meets, the clock after it is not
/// before the clock at its start. On a tag whose header decodes it is the
/// later of the clock and the timestamp of the tag.
pub proof fn lemma_clock_monotonic(state: DemuxerState, source: StreamView, sink: EsOutView)
    ensures
        demuxed(state, source, sink).0.pcr.0 >= state.pcr.0,
        complete_tag(source.data, source.pos) && attached(state, sink) && sink.slots.len()
            < usize::MAX ==> demuxed(state, source, sink).0.pcr == state.pcr.spec_later(
            tag_tick(header_at(source.data, source.pos).unwrap()),
        ),
{
    let w0 = World { source, held: Seq::empty(), sink };
    let (s1, r1) = state.on_start();
    lemma_clock_carried(s1, w0, r1);
    if complete_tag(source.data, source.pos) && attached(state, sink) && sink.slots.len()
        < usize::MAX {
        lemma_demux_complete_tag(state, source, sink);
    }
}

/// Key-frame flagging: the frame of a payload carries the flag of an intra
/// frame if and only if the payload is video and its frame type is "key
/// frame", and it carries no other flag.
pub proof fn lemma_key_frame_flag(payload: Payload, frame: FrameView)
    requires
        frame.flags == frame_flags(payload),
    ensures
        frame.has_flag(FrameFlag::TypeI) <==> (match payload {
            Payload::Video(video) => video.frame_type == FrameType::Key,
            Payload::Audio(_) => false,
        }),
        frame.flags == 0 || frame.flags == FrameFlag::TypeI.spec_bit(),
{
    assert(0u32 & 2u32 != 2u32) by (bit_vector);
    assert(2u32 & 2u32 == 2u32) by (bit_vector);
}

/// Re-registration on format change: a frame for a track that is registered
/// for another payload header makes the sink take exactly "unregister the old
/// handle", "register the new description", "send under the new handle", in
/// this order; a frame for a track that is registered for the same header
/// makes it take the frame alone, under the handle that the track has.
pub proof fn lemma_reregistration(
    state: DemuxerState,
    sink: EsOutView,
    payload: Payload,
    frame: FrameView,
)
    requires
        state.track(payload) is Some,
    ensures
        ({
            let (current, id) = state.track(payload).unwrap();
            let fresh = EsOutId(sink.slots.len() as usize);
            let after = sink_after_frame(state, sink, payload, frame);
            if current != payload {
                &&& after.log == sink.log + seq![
                    EsOutCallView::Del(id),
                    EsOutCallView::Add(state.format(payload)),
                    EsOutCallView::Send(fresh, frame),
                ]
                &&& track_after(state, fresh, payload).track(payload) == Some((payload, fresh))
            } else {
                &&& after.log == sink.log + seq![EsOutCallView::Send(id, frame)]
                &&& track_after(state, fresh, payload) == state
            }
        }),
{
    let (current, id) = state.track(payload).unwrap();
    let fresh = EsOutId(sink.slots.len() as usize);
    let after = sink_after_frame(state, sink, payload, frame);
    if current != payload {
        assert(after.log =~= sink.log + seq![
            EsOutCallView::Del(id),
            EsOutCallView::Add(state.format(payload)),
            EsOutCallView::Send(fresh, frame),
        ]);
    } else {
        assert(after.log =~= sink.log + seq![EsOutCallView::Send(id, frame)]);
    }
}

/// Metadata override: once the metadata holds a sample rate, every audio
/// track is registered with that rate, whatever the rate class of its header.
pub proof fn lemma_metadata_rate_wins(state: DemuxerState, payload: Payload, rate: u32)
    requires
        state.metadata.audio_sample_rate == Some(rate),
        payload is Audio,
    ensures
        state.format(payload).audio_format.i_rate == rate,
{
}

/// Metadata override, from the script tag on: after an `onMetaData` array
/// whose last numeric `audiosamplerate` is `rate`, an audio track is
/// registered with `rate` truncated, whatever the metadata held before and
/// whatever the rate class of the audio header.
pub proof fn lemma_metadata_override(
    state: DemuxerState,
    script: ScriptDataView,
    rate: Number,
    payload: Payload,
)
    requires
        script.name == "onMetaData"@,
        script.arguments is ECMAArray,
        last_number(script.properties, "audiosamplerate"@) == Some(rate),
        payload is Audio,
    ensures
        (DemuxerState { metadata: state.metadata.spec_update(script), ..state }).format(
            payload,
        ).audio_format.i_rate == rate.truncated(),
{
    rate.lemma_truncated_fits();
}

/// Re-registration on format change, request by request and whatever handle
/// the sink gives: with a block at hand for a track that is registered for
/// another payload header, the demuxer asks to unregister the old handle and
/// forgets the track, then asks to register the description of the new
/// header, then sends the frame under the handle it was given, and ends the
/// call with the track registered for the new header under that handle.
pub proof fn lemma_format_change_requests(
    state: DemuxerState,
    header: TagHeader,
    payload: Payload,
    given: EsOutId,
)
    requires
        state.phase == Phase::Block(header, payload),
        state.track(payload) is Some,
        state.track(payload).unwrap().0 != payload,
    ensures
        ({
            let stale = state.track(payload).unwrap().1;
            let (s1, r1) = state.step(ReplyView::Done);
            let (s2, r2) = s1.step(ReplyView::Done);
            let (s3, r3) = s2.step(ReplyView::Added(given));
            let (s4, r4) = s3.step(ReplyView::Done);
            &&& r1 == Request::Del { id: stale }
            &&& s1.track(payload) is None
            &&& r2 == Request::Add { format: state.format(payload) }
            &&& s2.track(payload) is None
            &&& r3 == Request::Send {
                id: given,
                pts: tag_tick(header),
                dts: tag_tick(header),
                flags: frame_flags(payload),
            }
            &&& s3.track(payload) == Some((payload, given))
            &&& r4 == Request::Finished(Ok(()))
            &&& s4.track(payload) == Some((payload, given))
            &&& s4.phase == Phase::Idle
        }),
{
}

/// The description of an audio track follows its header: one channel for
/// mono and two for stereo, 8 bits a sample or 16.
pub proof fn lemma_audio_format_follows_header(state: DemuxerState, payload: Payload)
    requires
        payload is Audio,
    ensures
        state.format(payload).i_cat == EsFormatCategory::AUDIO_ES,
        state.format(payload).audio_format.i_bitspersample == (match payload->Audio_0.sound_size {
            SoundSize::Snd8bit => 8u32,
            SoundSize::Snd16bit => 16u32,
        }),
        state.format(payload).audio_format.i_channels == (match payload->Audio_0.sound_type {
            SoundType::SndMono => 1u8,
            SoundType::SndStereo => 2u8,
        }),
{
}

/// Re-registration on format change, for a whole call: on a complete audio
/// or video tag whose payload header is not the one its track is registered
/// for, the call succeeds and the sink takes exactly the clock, one
/// "unregister" of the old handle, one "register" of the description of the
/// new header, and the frame under the new handle, in this order. After the
/// call the old handle is no longer registered, the new one holds the new
/// description, and the track is registered for the new header under it.
pub proof fn lemma_format_change(state: DemuxerState, source: StreamView, sink: EsOutView)
    requires
        attached(state, sink),
        sink.slots.len() < usize::MAX,
        complete_tag(source.data, source.pos),
        payload_at(source.data, source.pos, header_at(source.data, source.pos).unwrap()) is Some,
        state.track(
            payload_at(source.data, source.pos, header_at(source.data, source.pos).unwrap()).unwrap(),
        ) is Some,
        state.track(
            payload_at(source.data, source.pos, header_at(source.data, source.pos).unwrap()).unwrap(),
        ).unwrap().0 != payload_at(
            source.data,
            source.pos,
            header_at(source.data, source.pos).unwrap(),
        ).unwrap(),
    ensures
        ({
            let header = header_at(source.data, source.pos).unwrap();
            let payload = payload_at(source.data, source.pos, header).unwrap();
            let stale = state.track(payload).unwrap().1;
            let fresh = EsOutId(sink.slots.len() as usize);
            let (after, rest, taken, result) = demuxed(state, source, sink);
            &&& result == Ok::<(), CoreError>(())
            &&& taken.log == sink.log + seq![
                EsOutCallView::SetPcr(state.pcr.spec_later(tag_tick(header))),
                EsOutCallView::Del(stale),
                EsOutCallView::Add(state.format(payload)),
                EsOutCallView::Send(fresh, frame_at(source.data, source.pos, header, payload)),
            ]
            &&& fresh != stale
            &&& !taken.live(stale)
            &&& taken.live(fresh)
            &&& taken.slots[fresh.0 as int] == Some(state.format(payload))
            &&& after.track(payload) == Some((payload, fresh))
        }),
{
    let header = header_at(source.data, source.pos).unwrap();
    let payload = payload_at(source.data, source.pos, header).unwrap();
    let stale = state.track(payload).unwrap().1;
    let fresh = EsOutId(sink.slots.len() as usize);
    lemma_demux_complete_tag(state, source, sink);
    let clocked = sink.clocked(state.pcr.spec_later(tag_tick(header)));
    let frame = frame_at(source.data, source.pos, header, payload);
    let taken = sink_after_frame(state, clocked, payload, frame);
    assert(taken.log =~= sink.log + seq![
        EsOutCallView::SetPcr(state.pcr.spec_later(tag_tick(header))),
        EsOutCallView::Del(stale),
        EsOutCallView::Add(state.format(payload)),
        EsOutCallView::Send(fresh, frame),
    ]);
}

/// A call on a complete tag for a track that is registered for the payload
/// header of the tag makes no registration: the sink takes the clock and the
/// frame, under the handle that the track has, and the track stays as it is.
pub proof fn lemma_format_kept(state: DemuxerState, source: StreamView, sink: EsOutView)
    requires
        attached(state, sink),
        sink.slots.len() < usize::MAX,
        complete_tag(source.data, source.pos),
        payload_at(source.data, source.pos, header_at(source.data, source.pos).unwrap()) is Some,
        state.track(
            payload_at(source.data, source.pos, header_at(source.data, source.pos).unwrap()).unwrap(),
        ) is Some,
        state.track(
            payload_at(source.data, source.pos, header_at(source.data, source.pos).unwrap()).unwrap(),
        ).unwrap().0 == payload_at(
            source.data,
            source.pos,
            header_at(source.data, source.pos).unwrap(),
        ).unwrap(),
    ensures
        ({
            let header = header_at(source.data, source.pos).unwrap();
            let payload = payload_at(source.data, source.pos, header).unwrap();
            let id = state.track(payload).unwrap().1;
            let (after, rest, taken, result) = demuxed(state, source, sink);
            &&& result == Ok::<(), CoreError>(())
            &&& taken.log == sink.log + seq![
                EsOutCallView::SetPcr(state.pcr.spec_later(tag_tick(header))),
                EsOutCallView::Send(id, frame_at(source.data, source.pos, header, payload)),
            ]
            &&& taken.slots == sink.slots
            &&& after.track(payload) == state.track(payload)
        }),
{
    let header = header_at(source.data, source.pos).unwrap();
    let payload = payload_at(source.data, source.pos, header).unwrap();
    let id = state.track(payload).unwrap().1;
    lemma_demux_complete_tag(state, source, sink);
    let clocked = sink.clocked(state.pcr.spec_later(tag_tick(header)));
    let frame = frame_at(source.data, source.pos, header, payload);
    let taken = sink_after_frame(state, clocked, payload, frame);
    assert(taken.log =~= sink.log + seq![
        EsOutCallView::SetPcr(state.pcr.spec_later(tag_tick(header))),
        EsOutCallView::Send(id, frame),
    ]);
}

/// Two streams of one length that hold the same bytes but for the four at
/// `pos`.
pub open spec fn same_but_four(a: Seq<u8>, b: Seq<u8>, pos: int) -> bool {
    &&& a.len() == b.len()
    &&& forall|i: int| 0 <= i < a.len() && !(pos <= i < pos + 4) ==> a[i] == b[i]
}

/// The bytes that a source gives from a position beyond the four bytes in
/// which two streams differ are the same for both.
proof fn lemma_same_upcoming(a: StreamView, b: StreamView, pos: int, len: int)
    requires
        same_but_four(a.data, b.data, pos),
        a.pos == b.pos,
        a.pos >= pos + 4 || a.pos < 0,
    ensures
        a.upcoming(len) == b.upcoming(len),
        a.available(len) == b.available(len),
{
    assert(a.upcoming(len) =~= b.upcoming(len));
}

/// Once the read position is beyond the four bytes in which two streams
/// differ, a call comes to the same on both.
proof fn lemma_carried_alike(
    state: DemuxerState,
    one: World,
    other: World,
    request: Request,
    pos: int,
)
    requires
        same_but_four(one.source.data, other.source.data, pos),
        one.source.pos == other.source.pos,
        one.source.pos >= pos + 4,
        one.held == other.held,
        one.sink == other.sink,
    ensures
        ({
            let (s1, w1, r1) = carried_out(state, one, request);
            let (s2, w2, r2) = carried_out(state, other, request);
            &&& s1 == s2
            &&& r1 == r2
            &&& w1.sink == w2.sink
            &&& w1.source.pos == w2.source.pos
        }),
    decreases rank(state.phase),
{
    if !(request is Finished) {
        let (after1, reply1) = one.answer(request);
        let (after2, reply2) = other.answer(request);
        match request {
            Request::Read { len } => {
                lemma_same_upcoming(one.source, other.source, pos, len as int);
            },
            Request::Block { len } => {
                lemma_same_upcoming(one.source, other.source, pos, len as int);
            },
            _ => {},
        }
        assert(reply1 == reply2);
        let (next, following) = state.step(reply1);
        lemma_step_advances(state, reply1);
        if !(following is Finished) {
            lemma_carried_alike(next, after1, after2, following, pos);
        }
    }
}

/// The back-pointer is not looked at: two streams that differ in nothing but
/// the four bytes at the read position, where the back-pointer of a tag
/// record stands, are demuxed alike. The demuxer, the sink, the result and the
/// read position after the call are the same for both, whatever the tag holds
/// and whether or not the call succeeds.
pub proof fn lemma_back_pointer_is_not_read(
    state: DemuxerState,
    source: StreamView,
    other: Seq<u8>,
    sink: EsOutView,
)
    requires
        same_but_four(source.data, other, source.pos),
    ensures
        ({
            let (s1, rest1, sink1, r1) = demuxed(state, source, sink);
            let (s2, rest2, sink2, r2) = demuxed(
                state,
                StreamView { data: other, ..source },
                sink,
            );
            &&& s1 == s2
            &&& sink1 == sink2
            &&& r1 == r2
            &&& rest1.pos == rest2.pos
        }),
{
    let twin = StreamView { data: other, ..source };
    let w1 = World { source, held: Seq::empty(), sink };
    let w2 = World { source: twin, held: Seq::empty(), sink };
    let (begun, request) = state.on_start();
    lemma_carry(begun, w1, request);
    lemma_carry(begun, w2, request);
    let (after1, reply1) = w1.answer(request);
    let (after2, reply2) = w2.answer(request);
    let bytes1 = source.upcoming(TAG_PREFIX_LEN as int);
    let bytes2 = twin.upcoming(TAG_PREFIX_LEN as int);
    assert(bytes1.len() == bytes2.len());
    if bytes1.len() >= TAG_PREFIX_LEN {
        assert(bytes1.subrange(4, TAG_PREFIX_LEN as int) =~= bytes2.subrange(
            4,
            TAG_PREFIX_LEN as int,
        ));
        let (next, following) = begun.step(reply1);
        assert(begun.step(reply2) == (next, following));
        if !(following is Finished) {
            lemma_carried_alike(next, after1, after2, following, source.pos);
        }
    }
}

} // verus!
