//! The output sink of elementary streams.

use vstd::prelude::*;
use crate::error::{CoreError, Result};
use crate::es::EsFormat;
use crate::stream::frame::{Frame, FrameView};
use crate::tick::Tick;

verus! {

/// The handle of an elementary stream that was registered with the sink.
#[derive(Debug, Clone, Copy, PartialEq, Eq, Structural)]
pub struct EsOutId(pub usize);

/// A call that the sink took.
#[derive(Debug, Clone, PartialEq, Eq)]
pub enum EsOutCall {
    Add(EsFormat),
    Del(EsOutId),
    Send(EsOutId, Frame),
    SetPcr(Tick),
}

/// What an [`EsOutCall`] stands for.
pub enum EsOutCallView {
    Add(EsFormat),
    Del(EsOutId),
    Send(EsOutId, FrameView),
    SetPcr(Tick),
}

impl View for EsOutCall {
    type V = EsOutCallView;

    open spec fn view(&self) -> EsOutCallView {
        match *self {
            EsOutCall::Add(format) => EsOutCallView::Add(format),
            EsOutCall::Del(id) => EsOutCallView::Del(id),
            EsOutCall::Send(id, frame) => EsOutCallView::Send(id, frame@),
            EsOutCall::SetPcr(tick) => EsOutCallView::SetPcr(tick),
        }
    }
}

/// An output sink that keeps its elementary streams in a table and records
/// every call it takes.
///
/// A handle is the index of a slot of the table. A slot holds the description
/// of its stream for as long as the stream is registered.
#[derive(Debug)]
pub struct EsOutBaked {
    slots: Vec<Option<EsFormat>>,
    log: Vec<EsOutCall>,
}

/// What an [`EsOutBaked`] stands for.
pub struct EsOutView {
    /// One slot for each stream that was ever registered, in the order of
    /// registration; `None` once the stream was unregistered.
    pub slots: Seq<Option<EsFormat>>,
    /// The calls that were taken, oldest first.
    pub log: Seq<EsOutCallView>,
}

/// The views of the calls in `calls`, in order.
pub open spec fn calls_view(calls: Seq<EsOutCall>) -> Seq<EsOutCallView> {
    Seq::new(calls.len(), |i: int| calls[i]@)
}

impl EsOutView {
    /// The sink that has taken no call.
    pub open spec fn empty() -> EsOutView {
        EsOutView { slots: Seq::empty(), log: Seq::empty() }
    }

    /// Whether `id` is the handle of a registered stream.
    pub open spec fn live(self, id: EsOutId) -> bool {
        id.0 < self.slots.len() && self.slots[id.0 as int] is Some
    }

    /// The sink after a stream was registered.
    pub open spec fn added(self, format: EsFormat) -> EsOutView {
        EsOutView {
            slots: self.slots.push(Some(format)),
            log: self.log.push(EsOutCallView::Add(format)),
        }
    }

    /// The sink after the stream `id` was unregistered.
    pub open spec fn deleted(self, id: EsOutId) -> EsOutView {
        EsOutView {
            slots: self.slots.update(id.0 as int, None),
            log: self.log.push(EsOutCallView::Del(id)),
        }
    }

    /// The sink after it took a frame for the stream `id`.
    pub open spec fn sent(self, id: EsOutId, frame: FrameView) -> EsOutView {
        EsOutView { log: self.log.push(EsOutCallView::Send(id, frame)), ..self }
    }

    /// The sink after the clock was published.
    pub open spec fn clocked(self, tick: Tick) -> EsOutView {
        EsOutView { log: self.log.push(EsOutCallView::SetPcr(tick)), ..self }
    }
}

impl View for EsOutBaked {
    type V = EsOutView;

    closed spec fn view(&self) -> EsOutView {
        EsOutView { slots: self.slots@, log: calls_view(self.log@) }
    }
}

impl EsOutBaked {
    /// Creates a sink that has taken no call.
    pub fn new() -> (s: EsOutBaked)
        ensures
            s@ == EsOutView::empty(),
    {
        let s: EsOutBaked = EsOutBaked { slots: Vec::new(), log: Vec::new() };
        assert(calls_view(s.log@) =~= Seq::empty());
        s
    }

    /// Records a call.
    fn record(&mut self, call: EsOutCall)
        ensures
            final(self)@ == (EsOutView { log: old(self)@.log.push(call@), ..old(self)@ }),
    {
        let ghost before: Seq<EsOutCallView> = calls_view(self.log@);
        self.log.push(call);
        assert(calls_view(self.log@) =~= before.push(call@));
    }

    /// Registers a stream. Its handle is the number of streams that were
    /// registered before.
    pub fn add(&mut self, es_format: &EsFormat) -> (r: Result<EsOutId>)
        ensures
            r == Ok::<EsOutId, CoreError>(EsOutId(old(self)@.slots.len() as usize)),
            final(self)@ == old(self)@.added(*es_format),
    {
        let id: usize = self.slots.len();
        self.slots.push(Some(*es_format));
        self.record(EsOutCall::Add(*es_format));
        Ok(EsOutId(id))
    }

    /// Whether `es_out_id` is the handle of a registered stream.
    pub fn is_live(&self, es_out_id: &EsOutId) -> (r: bool)
        ensures
            r == self@.live(*es_out_id),
    {
        es_out_id.0 < self.slots.len() && self.slots[es_out_id.0].is_some()
    }

    /// Unregisters a stream. Fails with `Unknown`, and changes nothing, where
    /// the handle is not that of a registered stream.
    pub fn del(&mut self, es_out_id: EsOutId) -> (r: Result<()>)
        ensures
            r is Ok <==> old(self)@.live(es_out_id),
            r is Ok ==> final(self)@ == old(self)@.deleted(es_out_id),
            r matches Err(e) ==> e == CoreError::Unknown && final(self)@ == old(self)@,
    {
        if !self.is_live(&es_out_id) {
            return Err(CoreError::Unknown);
        }
        self.slots.set(es_out_id.0, None);
        self.record(EsOutCall::Del(es_out_id));
        Ok(())
    }

    /// Takes a frame for a stream and tells the size of its payload. Fails
    /// with `Unknown`, and changes nothing, where the handle is not that of a
    /// registered stream.
    pub fn send(&mut self, es_out_id: &EsOutId, frame: Frame) -> (r: Result<usize>)
        ensures
            r is Ok <==> old(self)@.live(*es_out_id),
            r matches Ok(n) ==> n == frame@.payload.len() && final(self)@ == old(self)@.sent(
                *es_out_id,
                frame@,
            ),
            r matches Err(e) ==> e == CoreError::Unknown && final(self)@ == old(self)@,
    {
        if !self.is_live(es_out_id) {
            return Err(CoreError::Unknown);
        }
        let n: usize = frame.payload.len();
        self.record(EsOutCall::Send(*es_out_id, frame));
        Ok(n)
    }

    /// Takes the clock.
    pub fn set_pcr(&mut self, tick: Tick) -> (r: Result<()>)
        ensures
            r is Ok,
            final(self)@ == old(self)@.clocked(tick),
    {
        self.record(EsOutCall::SetPcr(tick));
        Ok(())
    }

    /// The calls that were taken, oldest first.
    pub fn calls(&self) -> (log: &Vec<EsOutCall>)
        ensures
            calls_view(log@) == self@.log,
    {
        &self.log
    }

    /// The description of a registered stream.
    pub fn format(&self, es_out_id: &EsOutId) -> (f: Option<EsFormat>)
        ensures
            f == if self@.live(*es_out_id) {
                self@.slots[es_out_id.0 as int]
            } else {
                None
            },
    {
        if es_out_id.0 < self.slots.len() {
            self.slots[es_out_id.0]
        } else {
            None
        }
    }
}

} // verus!
