//! Walking a byte buffer as a stream of framed events.
//!
//! Events are length-framed: a fixed header carrying the event id, the
//! body length and the kind, followed by that many body bytes.  The
//! iterator decodes the header at its offset, hands out a lazy view of
//! the body, and advances; a truncated buffer or an unknown kind ends
//! the iteration.

use vstd::prelude::*;

use crate::codec::decode_event_header;
use crate::wire::{EventId, EventKind, EVENT_HEADER_BASE_LEN, dec_event_header};
use crate::lazy::{CreateSourceLazy, TraceLazy, TraceAggregateLazy, TraceAggregateDeltaLazy};

verus! {

/// Cursor over a buffer of framed events.
pub struct DecodeEvents<'a> {
    pub buf: &'a [u8],
    pub offset: usize,
}

/// One decoded event: where it lay in the buffer, its header fields,
/// and a lazy view of its body.
pub struct DecodeEvent<'a> {
    pub buffer_offset: usize,
    pub buffer_body_len: usize,
    pub kind: EventKind,
    pub id: EventId,
    pub body: DecodeEventBody<'a>,
}

/// Lazy view of an event body, by kind.
pub enum DecodeEventBody<'a> {
    CreateSource(CreateSourceLazy<'a>),
    DeleteSource,
    Trace(TraceLazy<'a>),
    TraceAggregate(TraceAggregateLazy<'a>),
    TraceAggregateDelta(TraceAggregateDeltaLazy<'a>),
}

impl<'a> DecodeEvents<'a> {
    /// Start walking `buf` from its beginning.
    pub fn new(buf: &'a [u8]) -> (r: Self)
        ensures
            r.buf@ == buf@,
            r.offset == 0,
    {
        DecodeEvents { buf, offset: 0 }
    }

    /// The next event, or nothing at the buffer end, on a decode
    /// failure, or on a frame that does not fit the remaining bytes.
    pub fn next(&mut self) -> (r: Option<DecodeEvent<'a>>)
        ensures
            final(self).buf@ == old(self).buf@,
            old(self).offset >= old(self).buf@.len() ==> r is None,
            dec_event_header(old(self).buf@, old(self).offset as int) matches Some(h) ==> (old(
                self,
            ).offset + EVENT_HEADER_BASE_LEN + h.len <= old(self).buf@.len() ==> r is Some),
            r is None ==> *final(self) == *old(self),
            r matches Some(ev) ==> {
                &&& ev.buffer_offset == old(self).offset
                &&& dec_event_header(old(self).buf@, old(self).offset as int) matches Some(h)
                    && h.id == ev.id && h.kind == ev.kind && h.len == ev.buffer_body_len
                &&& final(self).offset == old(self).offset + EVENT_HEADER_BASE_LEN
                    + ev.buffer_body_len
            },
    {
        if self.offset >= self.buf.len() {
            return None;
        }
        let buffer_offset = self.offset;
        let header = match decode_event_header(self.buf, buffer_offset) {
            Ok(h) => h,
            Err(_) => {
                return None;
            },
        };
        let body_start = buffer_offset + EVENT_HEADER_BASE_LEN;
        let body_len = header.len as usize;
        if body_len > self.buf.len() - body_start {
            return None;
        }
        self.offset = body_start + body_len;
        // The body's scratch descriptors are relative to the body
        // itself, so the lazy views get the buffer from there on.
        let region = vstd::slice::slice_subrange(self.buf, body_start, self.buf.len());
        let body = match header.kind {
            EventKind::CreateSource => DecodeEventBody::CreateSource(
                CreateSourceLazy::new(region, 0),
            ),
            EventKind::DeleteSource => DecodeEventBody::DeleteSource,
            EventKind::Trace => DecodeEventBody::Trace(TraceLazy::new(region, 0)),
            EventKind::TraceAggregate => DecodeEventBody::TraceAggregate(
                TraceAggregateLazy::new(region, 0),
            ),
            EventKind::TraceAggregateDelta => DecodeEventBody::TraceAggregateDelta(
                TraceAggregateDeltaLazy::new(region, 0),
            ),
        };
        Some(
            DecodeEvent {
                buffer_offset,
                buffer_body_len: body_len,
                kind: header.kind,
                id: header.id,
                body,
            },
        )
    }
}

/// A no-op: the library's flushed pages are plain byte vectors, so a
/// void sink simply drops whatever the embedder hands it and nothing
/// needs setting up.
pub fn init_void_sink() {
}

} // verus!
