//! The demuxer at work on a stream and a sink that are held in memory.
//!
//! [`World`] says what the collaborators do with each request of the demuxer;
//! [`demuxed`] says what a whole call comes to. [`FLVDemuxer::demux`] is that
//! call.

use vstd::prelude::*;
use crate::error::{CoreError, Result};
use crate::es_out::{EsOutBaked, EsOutId, EsOutView};
use crate::flv::demux::{DemuxerState, FLVDemuxer, Phase, Reply, ReplyView, Request};
use crate::flv::parser::{parse_file_header, spec_parse_file_header, FILE_HEADER_LEN};
use crate::stream::block::Block;
use crate::stream::frame::{Frame, FrameView};
use crate::stream::impl_stream::{Stream, StreamView};
use crate::tick::Tick;

verus! {

/// The collaborators of a demuxer: the source, the sink, and the block that
/// was pulled from the source for the sink.
pub struct World {
    pub source: StreamView,
    pub held: Seq<u8>,
    pub sink: EsOutView,
}

impl World {
    /// What the collaborators answer to a request, and what becomes of them.
    ///
    /// The source gives what it has, up to the length asked. The sink takes
    /// the clock and every registration; it refuses a handle that is not
    /// registered. The block that was pulled is gone once it was sent, or once
    /// the sink refused it.
    pub open spec fn answer(self, request: Request) -> (World, ReplyView) {
        match request {
            Request::Read { len } => (
                World { source: self.source.advanced(len as int), ..self },
                ReplyView::Data(self.source.upcoming(len as int)),
            ),
            Request::Block { len } => (
                World {
                    source: self.source.advanced(len as int),
                    held: self.source.upcoming(len as int),
                    ..self
                },
                ReplyView::Done,
            ),
            Request::SetPcr { pcr } => (
                World { sink: self.sink.clocked(pcr), ..self },
                ReplyView::Done,
            ),
            Request::Del { id } => if self.sink.live(id) {
                (World { sink: self.sink.deleted(id), ..self }, ReplyView::Done)
            } else {
                (self, ReplyView::Failed(CoreError::Unknown))
            },
            Request::Add { format } => (
                World { sink: self.sink.added(format), ..self },
                ReplyView::Added(EsOutId(self.sink.slots.len() as usize)),
            ),
            Request::Send { id, pts, dts, flags } => if self.sink.live(id) {
                (
                    World {
                        sink: self.sink.sent(
                            id,
                            FrameView { pts, dts, flags, ..FrameView::bare(self.held) },
                        ),
                        held: Seq::empty(),
                        ..self
                    },
                    ReplyView::Done,
                )
            } else {
                (World { held: Seq::empty(), ..self }, ReplyView::Failed(CoreError::Unknown))
            },
            Request::Finished(_) => (self, ReplyView::Done),
        }
    }
}

/// How far a phase is from the end of its call, at most, in requests.
pub open spec fn rank(phase: Phase) -> nat {
    match phase {
        Phase::Idle => 0,
        Phase::Deliver => 1,
        Phase::Register(_, _) => 2,
        Phase::Retire(_, _) => 3,
        Phase::Block(_, _) => 4,
        Phase::AvcHeader(_, _) => 5,
        Phase::AudioHeader(_) => 6,
        Phase::VideoHeader(_) => 6,
        Phase::Script(_) => 6,
        Phase::Clock(_) => 7,
        Phase::TagHeader => 8,
    }
}

/// Every reply but `Start` ends the call or brings the demuxer nearer to its
/// end.
pub proof fn lemma_step_advances(state: DemuxerState, reply: ReplyView)
    requires
        !(reply is Start),
    ensures
        state.step(reply).1 is Finished || rank(state.step(reply).0.phase) < rank(state.phase),
        state.step(reply).1 is Finished ==> state.step(reply).0.phase == Phase::Idle,
{
}

/// What comes of a call in which `request` is under way: the collaborators
/// answer it, the demuxer takes the reply, and so on until it has finished.
pub open spec fn carried_out(state: DemuxerState, world: World, request: Request) -> (
    DemuxerState,
    World,
    Result<()>,
)
    decreases rank(state.phase),
{
    match request {
        Request::Finished(result) => (state, world, result),
        _ => {
            let (after, reply) = world.answer(request);
            let (next, following) = state.step(reply);
            match following {
                Request::Finished(result) => (next, after, result),
                _ => if rank(next.phase) < rank(state.phase) {
                    carried_out(next, after, following)
                } else {
                    (state, world, Err(CoreError::Unknown))
                },
            }
        },
    }
}

/// What one call of "demux" comes to: the demuxer, the source and the sink
/// after it, and its result.
pub open spec fn demuxed(state: DemuxerState, source: StreamView, sink: EsOutView) -> (
    DemuxerState,
    StreamView,
    EsOutView,
    Result<()>,
) {
    let (begun, request) = state.on_start();
    let (after, world, result) = carried_out(
        begun,
        World { source, held: Seq::empty(), sink },
        request,
    );
    (after, world.source, world.sink, result)
}

/// The FLV module: it claims the streams that start with an FLV file header.
#[derive(Debug, Clone, Copy)]
pub struct FLV;

/// How many bytes the probe looks at.
pub const PROBE_LEN: usize = FILE_HEADER_LEN;

/// What opening a stream comes to.
///
/// The probe looks at the next nine bytes and takes none. Without a file
/// header there, for want of the signature or of bytes, the stream is not
/// claimed and stays as it was. With one, the read position moves to the
/// offset that the header gives for the first tag record, be it nine or more,
/// and a fresh demuxer is handed out.
pub open spec fn opened(source: StreamView) -> (StreamView, Result<DemuxerState>) {
    match spec_parse_file_header(source.upcoming(PROBE_LEN as int)) {
        Err(_) => (source, Err(CoreError::Unknown)),
        Ok((header, _)) => (
            StreamView { pos: header.offset as int, ..source },
            Ok(DemuxerState::initial()),
        ),
    }
}

impl FLV {
    /// Probes `source` and, if it is an FLV stream, makes a demuxer for it and
    /// moves to the first tag record.
    pub fn open(source: &mut Stream) -> (r: Result<FLVDemuxer>)
        ensures
            final(source)@ == opened(old(source)@).0,
            match r {
                Ok(demuxer) => opened(old(source)@).1 == Ok::<DemuxerState, CoreError>(demuxer@),
                Err(e) => opened(old(source)@).1 == Err::<DemuxerState, CoreError>(e),
            },
    {
        let parsed = parse_file_header(source.peek(PROBE_LEN));
        match parsed {
            Err(_) => Err(CoreError::Unknown),
            Ok((header, _)) => {
                match source.seek(header.offset as u64) {
                    Err(e) => Err(e),
                    Ok(_) => Ok(FLVDemuxer::new()),
                }
            },
        }
    }
}

impl FLVDemuxer {
    /// Demuxes one tag: reads it from `source` and hands what it holds to
    /// `es_out`.
    pub fn demux(&mut self, source: &mut Stream, es_out: &mut EsOutBaked) -> (r: Result<()>)
        ensures
            (final(self)@, final(source)@, final(es_out)@, r) == demuxed(
                old(self)@,
                old(source)@,
                old(es_out)@,
            ),
    {
        let ghost goal = demuxed(self@, source@, es_out@);
        let mut held: Block = Block::new();
        let mut request: Request = self.step(Reply::Start);
        loop
            invariant
                ({
                    let (after, world, result) = carried_out(
                        self@,
                        World { source: source@, held: held.data@, sink: es_out@ },
                        request,
                    );
                    (after, world.source, world.sink, result) == goal
                }),
                goal == demuxed(old(self)@, old(source)@, old(es_out)@),
            decreases rank(self@.phase), (if request is Finished { 0int } else { 1int }),
        {
            let ghost state: DemuxerState = self@;
            let ghost world: World = World { source: source@, held: held.data@, sink: es_out@ };
            let reply: Reply = match request {
                Request::Finished(result) => {
                    return result;
                },
                Request::Read { len } => Reply::Data(source.read(len)),
                Request::Block { len } => {
                    held = source.block(len);
                    Reply::Done
                },
                Request::SetPcr { pcr } => match es_out.set_pcr(pcr) {
                    Ok(_) => Reply::Done,
                    Err(e) => Reply::Failed(e),
                },
                Request::Del { id } => match es_out.del(id) {
                    Ok(_) => Reply::Done,
                    Err(e) => Reply::Failed(e),
                },
                Request::Add { format } => match es_out.add(&format) {
                    Ok(id) => Reply::Added(id),
                    Err(e) => Reply::Failed(e),
                },
                Request::Send { id, pts, dts, flags } => {
                    let block: Block = held;
                    held = Block::new();
                    let mut frame: Frame = Frame::from_block(block);
                    frame.set_pts(pts);
                    frame.set_dts(dts);
                    frame.flags = flags;
                    match es_out.send(&id, frame) {
                        Ok(_) => Reply::Done,
                        Err(e) => Reply::Failed(e),
                    }
                },
            };
            proof {
                lemma_step_advances(state, reply@);
                let after: World = World { source: source@, held: held.data@, sink: es_out@ };
                assert((after, reply@) == world.answer(request));
            }
            request = self.step(reply);
        }
    }
}

} // verus!
