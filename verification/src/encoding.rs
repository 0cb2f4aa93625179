//! Paged event writer: frames typed events into fixed-size pages.
//!
//! Pages are plain byte vectors of a fixed size.  Each page reserves a
//! leading headroom of zero bytes for the sink to fill with its
//! framing prefix.  An event is framed as a header followed by its
//! encoded body and always lands whole in a single page: when it would
//! not fit the remaining space, the current page is completed first
//! and the event starts a fresh page.  An event too large for any page
//! is dropped and counted; the page substrate that recycles completed
//! pages belongs to the embedder.

use vstd::prelude::*;

use crate::bytes::{zeros, push_bytes};
use crate::codec::{
    encode_event_header,
    encode_create_source,
    encode_trace_body,
    encode_trace_aggregate,
};
use crate::wire::{
    EventId, EventKind, EventHeader, SourceId, CreateSource, Trace, TraceAggregate,
    CreateSourceView, TraceView,
    EVENT_HEADER_BASE_LEN, CREATE_SOURCE_BASE_LEN, TRACE_BASE_LEN,
    enc_event_header, enc_create_source, enc_trace_body, enc_trace_aggregate,
    trace_aggregate_encoded_len,
};

verus! {

/// The bytes of one framed event: its header, then its encoded body.
pub open spec fn event_frame(id: EventId, kind: EventKind, payload: Seq<u8>) -> Seq<u8> {
    enc_event_header(EventHeader { id, len: payload.len() as u16, kind }) + payload
}

/// Writer of framed events into fixed-size pages.
pub struct ProbiusWriter {
    pub buffer_headroom: usize,
    pub buffer_size: usize,
    pub current: Vec<u8>,
    pub completed: Vec<Vec<u8>>,
    pub dropped_events: u64,
}

impl ProbiusWriter {
    /// The current page fits its size, and once anything was written
    /// it starts with the reserved headroom.
    pub open spec fn wf(&self) -> bool {
        &&& self.buffer_headroom + EVENT_HEADER_BASE_LEN <= self.buffer_size
        &&& self.buffer_size <= u32::MAX
        &&& self.current@.len() <= self.buffer_size
        &&& (self.current@.len() > 0 ==> self.current@.len() >= self.buffer_headroom)
    }

    /// How one event write relates the writer's pages before and
    /// after: the frame lands whole in the current page, or in a fresh
    /// page after completing the current one, or is dropped and
    /// counted when no page could ever hold it.
    pub open spec fn wrote_event(w0: ProbiusWriter, w1: ProbiusWriter, frame: Seq<u8>, r: bool)
        -> bool {
        &&& w1.buffer_headroom == w0.buffer_headroom
        &&& w1.buffer_size == w0.buffer_size
        &&& (r <==> w0.buffer_headroom + frame.len() <= w0.buffer_size)
        &&& (w0.current@.len() > 0 && w0.current@.len() + frame.len() <= w0.buffer_size ==> (
        w1.current@ == w0.current@ + frame && w1.completed@ == w0.completed@ && w1.dropped_events
            == w0.dropped_events))
        &&& (w0.current@.len() == 0 && w0.buffer_headroom + frame.len() <= w0.buffer_size ==> (
        w1.current@ == zeros(w0.buffer_headroom as int) + frame && w1.completed@ == w0.completed@
            && w1.dropped_events == w0.dropped_events))
        &&& (w0.current@.len() > 0 && w0.current@.len() + frame.len() > w0.buffer_size
            && w0.buffer_headroom + frame.len() <= w0.buffer_size ==> (w1.current@ == zeros(
            w0.buffer_headroom as int,
        ) + frame && w1.completed@ == w0.completed@.push(w0.current) && w1.dropped_events
            == w0.dropped_events))
        &&& (w0.buffer_headroom + frame.len() > w0.buffer_size ==> (w1.current@ == w0.current@
            && w1.completed@ == w0.completed@ && w1.dropped_events
            == vstd::wrapping::u64_specs::wrapping_add(w0.dropped_events, 1)))
    }

    /// A fresh writer with no pages.
    pub fn new(buffer_headroom: usize, buffer_size: usize) -> (r: Self)
        requires
            buffer_headroom + EVENT_HEADER_BASE_LEN <= buffer_size,
            buffer_size <= u32::MAX,
        ensures
            r.wf(),
            r.buffer_headroom == buffer_headroom,
            r.buffer_size == buffer_size,
            r.current@.len() == 0,
            r.completed@.len() == 0,
            r.dropped_events == 0,
    {
        ProbiusWriter {
            buffer_headroom,
            buffer_size,
            current: Vec::new(),
            completed: Vec::new(),
            dropped_events: 0,
        }
    }

    /// Move the current page to the completed pages.
    fn complete_current(&mut self)
        requires
            old(self).wf(),
            old(self).current@.len() > 0,
        ensures
            final(self).wf(),
            final(self).buffer_headroom == old(self).buffer_headroom,
            final(self).buffer_size == old(self).buffer_size,
            final(self).current@.len() == 0,
            final(self).completed@ == old(self).completed@.push(old(self).current),
            final(self).dropped_events == old(self).dropped_events,
    {
        let mut page: Vec<u8> = Vec::new();
        core::mem::swap(&mut page, &mut self.current);
        self.completed.push(page);
    }

    /// Write one framed event: header, then the encoded payload, whole
    /// into one page, switching pages first when the remaining space
    /// would not hold it.  An event larger than a page minus headroom
    /// is dropped and counted.
    pub fn write_event(&mut self, id: EventId, kind: EventKind, payload: &Vec<u8>) -> (r: bool)
        requires
            old(self).wf(),
            payload@.len() <= u16::MAX,
        ensures
            final(self).wf(),
            ProbiusWriter::wrote_event(
                *old(self),
                *final(self),
                event_frame(id, kind, payload@),
                r,
            ),
    {
        let frame_len = EVENT_HEADER_BASE_LEN + payload.len();
        if (self.buffer_headroom as u64) + (frame_len as u64) > (self.buffer_size as u64) {
            self.dropped_events = self.dropped_events.wrapping_add(1);
            return false;
        }
        if self.current.len() > 0 && (self.current.len() as u64) + (frame_len as u64) > (
        self.buffer_size as u64) {
            self.complete_current();
        }
        let ghost pre = self.current@;
        if self.current.len() == 0 {
            crate::bytes::push_zeros(&mut self.current, self.buffer_headroom);
        }
        let header = EventHeader { id, len: payload.len() as u16, kind };
        encode_event_header(&header, &mut self.current);
        push_bytes(&mut self.current, payload);
        assert(self.current@ =~= (if pre.len() == 0 {
            zeros(self.buffer_headroom as int)
        } else {
            pre
        }) + event_frame(id, kind, payload@));
        true
    }

    /// Frame a `CreateSource` event for the given source name, parent
    /// and recurrence flag.
    pub fn create_source(
        &mut self,
        event_id: EventId,
        name: &Vec<u8>,
        parent: Option<SourceId>,
        is_recurring: bool,
    ) -> (r: bool)
        requires
            old(self).wf(),
            CREATE_SOURCE_BASE_LEN + name@.len() <= u16::MAX,
        ensures
            final(self).wf(),
            ProbiusWriter::wrote_event(
                *old(self),
                *final(self),
                event_frame(
                    event_id,
                    EventKind::CreateSource,
                    enc_create_source(CreateSourceView { name: name@, parent, is_recurring }),
                ),
                r,
            ),
    {
        let mut payload: Vec<u8> = Vec::new();
        let body = CreateSource {
            name: vstd::slice::slice_to_vec(name.as_slice()),
            parent,
            is_recurring,
        };
        encode_create_source(&body, &mut payload);
        self.write_event(event_id, EventKind::CreateSource, &payload)
    }

    /// Frame a `DeleteSource` event; its body is empty.
    pub fn delete_source(&mut self, event_id: EventId) -> (r: bool)
        requires
            old(self).wf(),
        ensures
            final(self).wf(),
            ProbiusWriter::wrote_event(
                *old(self),
                *final(self),
                event_frame(event_id, EventKind::DeleteSource, Seq::empty()),
                r,
            ),
    {
        let payload: Vec<u8> = Vec::new();
        self.write_event(event_id, EventKind::DeleteSource, &payload)
    }

    /// Frame a detailed `Trace` event carrying the invocation's start
    /// time and its collected op bytes.
    pub fn trace(&mut self, event_id: EventId, start_nanos: u64, payload: &Vec<u8>) -> (r: bool)
        requires
            old(self).wf(),
            TRACE_BASE_LEN + payload@.len() <= u16::MAX,
        ensures
            final(self).wf(),
            ProbiusWriter::wrote_event(
                *old(self),
                *final(self),
                event_frame(
                    event_id,
                    EventKind::Trace,
                    enc_trace_body(TraceView { start_nanos, trace: payload@ }),
                ),
                r,
            ),
    {
        let mut body_bytes: Vec<u8> = Vec::new();
        let body = Trace { start_nanos, trace: vstd::slice::slice_to_vec(payload.as_slice()) };
        encode_trace_body(&body, &mut body_bytes);
        self.write_event(event_id, EventKind::Trace, &body_bytes)
    }

    /// Frame a `TraceAggregate` event carrying a flushed graph.
    pub fn trace_aggregate(&mut self, event_id: EventId, aggregate: &TraceAggregate) -> (r: bool)
        requires
            old(self).wf(),
            trace_aggregate_encoded_len(aggregate@) <= u16::MAX,
        ensures
            final(self).wf(),
            ProbiusWriter::wrote_event(
                *old(self),
                *final(self),
                event_frame(
                    event_id,
                    EventKind::TraceAggregate,
                    enc_trace_aggregate(aggregate@),
                ),
                r,
            ),
    {
        let mut payload: Vec<u8> = Vec::new();
        proof {
            crate::wire::lemma_enc_trace_aggregate_len(aggregate@);
        }
        encode_trace_aggregate(aggregate, &mut payload);
        self.write_event(event_id, EventKind::TraceAggregate, &payload)
    }

    /// Complete the current page and hand out every completed page, in
    /// completion order, leaving the writer empty.
    pub fn flush(&mut self) -> (r: Vec<Vec<u8>>)
        requires
            old(self).wf(),
        ensures
            final(self).wf(),
            final(self).buffer_headroom == old(self).buffer_headroom,
            final(self).buffer_size == old(self).buffer_size,
            final(self).current@.len() == 0,
            final(self).completed@.len() == 0,
            final(self).dropped_events == old(self).dropped_events,
            r@ == (if old(self).current@.len() > 0 {
                old(self).completed@.push(old(self).current)
            } else {
                old(self).completed@
            }),
    {
        if self.current.len() > 0 {
            self.complete_current();
        }
        let mut out: Vec<Vec<u8>> = Vec::new();
        core::mem::swap(&mut out, &mut self.completed);
        out
    }
}


// ---------------------------------------------------------------------
// Laws of the paging.
// ---------------------------------------------------------------------

/// Total length of a sequence of frames.
pub open spec fn frames_total_len(frames: Seq<Seq<u8>>) -> int
    decreases frames.len(),
{
    if frames.len() == 0 {
        0
    } else {
        frames_total_len(frames.drop_last()) + frames.last().len()
    }
}

/// Concatenation of a sequence of frames.
pub open spec fn frames_concat(frames: Seq<Seq<u8>>) -> Seq<u8>
    decreases frames.len(),
{
    if frames.len() == 0 {
        Seq::empty()
    } else {
        frames_concat(frames.drop_last()) + frames.last()
    }
}

/// The writers form a chain in which each step accepted the matching
/// frame.
pub open spec fn wrote_chain(ws: Seq<ProbiusWriter>, frames: Seq<Seq<u8>>) -> bool {
    &&& ws.len() == frames.len() + 1
    &&& forall|i: int|
        0 <= i < frames.len() ==> ProbiusWriter::wrote_event(
            ws[i],
            ws[i + 1],
            #[trigger] frames[i],
            true,
        )
}

/// An accepted event lands whole in exactly one page: either appended
/// to the current page, or opening a fresh page right after its
/// headroom — never split across two pages.
pub proof fn lemma_event_never_straddles(
    w0: ProbiusWriter,
    w1: ProbiusWriter,
    frame: Seq<u8>,
    r: bool,
)
    requires
        ProbiusWriter::wrote_event(w0, w1, frame, r),
        r,
    ensures
        (w1.current@ == w0.current@ + frame && w1.completed@ == w0.completed@) || (w1.current@
            == zeros(w0.buffer_headroom as int) + frame && (w1.completed@ == w0.completed@
            || w1.completed@ == w0.completed@.push(w0.current))),
{
}

/// Events whose total size fits one page after the headroom accumulate
/// on a single page: starting from a fresh writer, a chain accepting
/// them all leaves no completed page and a current page holding the
/// headroom followed by every frame in order — so a flush hands back
/// exactly that one page.
pub proof fn lemma_single_page(ws: Seq<ProbiusWriter>, frames: Seq<Seq<u8>>)
    requires
        wrote_chain(ws, frames),
        frames.len() > 0,
        ws[0].current@.len() == 0,
        ws[0].completed@.len() == 0,
        ws[0].buffer_headroom + frames_total_len(frames) <= ws[0].buffer_size,
    ensures
        ws.last().completed@.len() == 0,
        ws.last().current@ == zeros(ws[0].buffer_headroom as int) + frames_concat(frames),
        ws.last().buffer_headroom == ws[0].buffer_headroom,
        ws.last().buffer_size == ws[0].buffer_size,
    decreases frames.len(),
{
    let n = frames.len() as int;
    let front = frames.drop_last();
    let frame = frames.last();
    let wm = ws[n - 1];
    let w1 = ws[n as int];
    assert(ProbiusWriter::wrote_event(wm, w1, frames[n - 1], true));
    lemma_frames_total_nonneg(front);
    if n == 1 {
        assert(wm == ws[0]);
        assert(frames_concat(front) =~= Seq::<u8>::empty());
        assert(w1.current@ =~= zeros(ws[0].buffer_headroom as int) + frames_concat(frames));
        assert(ws.last() == w1);
    } else {
        let front_ws = ws.drop_last();
        assert(wrote_chain(front_ws, front)) by {
            assert forall|i: int| 0 <= i < front.len() implies ProbiusWriter::wrote_event(
                front_ws[i],
                front_ws[i + 1],
                #[trigger] front[i],
                true,
            ) by {
                assert(front[i] == frames[i]);
                assert(front_ws[i] == ws[i]);
                assert(front_ws[i + 1] == ws[i + 1]);
            }
        }
        lemma_single_page(front_ws, front);
        assert(front_ws.last() == wm);
        lemma_frames_concat_len(front);
        assert(wm.current@.len() == ws[0].buffer_headroom + frames_total_len(front));
        assert(wm.current@.len() + frame.len() <= ws[0].buffer_size);
        if wm.current@.len() == 0 {
            assert(frames_concat(front).len() == 0);
            assert(w1.current@ =~= zeros(ws[0].buffer_headroom as int) + frames_concat(frames));
        } else {
            assert(w1.current@ == wm.current@ + frame);
            assert(w1.current@ =~= zeros(ws[0].buffer_headroom as int) + frames_concat(frames));
        }
        assert(ws.last() == w1);
    }
}

/// Frame totals are sums of lengths, hence non-negative and equal to
/// the concatenation's length.
pub proof fn lemma_frames_total_nonneg(frames: Seq<Seq<u8>>)
    ensures
        frames_total_len(frames) >= 0,
    decreases frames.len(),
{
    if frames.len() > 0 {
        lemma_frames_total_nonneg(frames.drop_last());
    }
}

pub proof fn lemma_frames_concat_len(frames: Seq<Seq<u8>>)
    ensures
        frames_concat(frames).len() == frames_total_len(frames),
    decreases frames.len(),
{
    if frames.len() > 0 {
        lemma_frames_concat_len(frames.drop_last());
    }
}

} // verus!
