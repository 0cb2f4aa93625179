//! Lazy forms: zero-copy views into an encoded buffer.
//!
//! A lazy form is a `(buffer, offset)` pair whose accessors re-decode
//! individual fields on demand.  Each accessor returns exactly what the
//! spec decoder of its field denotes at the field's base offset, so for
//! any valid encoding it returns the corresponding field of the owned
//! form (proved at the end of this module).

use vstd::prelude::*;

use crate::codec::{
    DecodeError,
    decode_source_id,
    decode_global_source_id,
    decode_event_seq,
    decode_event_id,
    decode_event_kind,
    decode_opt_source_id,
    decode_opt_u16,
    decode_bytes_field,
    decode_trace_op,
    decode_nodes_list,
    decode_u32_list,
    decode_metric_list,
    nodes_view,
};
use crate::bytes::{read_u16, read_u32, read_u64, read_i64, le_u16, le_u32, le_u64, le_i64};
use crate::wire::{
    SourceId, GlobalSourceId, EventSeq, EventId, TraceCallerId, EventKind, EventHeader,
    MetricAggregate, TraceOp, TraceOpAggregate, TraceAggregateNode,
    SOURCE_ID_BASE_LEN, GLOBAL_SOURCE_ID_BASE_LEN, EVENT_SEQ_BASE_LEN, EVENT_ID_BASE_LEN,
    TRACE_CALLER_ID_BASE_LEN, EVENT_KIND_BASE_LEN, EVENT_HEADER_BASE_LEN,
    METRIC_AGGREGATE_BASE_LEN, TRACE_OP_BASE_LEN, TRACE_OP_AGGREGATE_BASE_LEN,
    TRACE_AGGREGATE_NODE_BASE_LEN,
    TraceOpAggregateView, TraceAggregateNodeView,
    dec_u16, dec_u32, dec_u64, dec_i64, dec_bool, dec_bytes, dec_source_id, dec_global_source_id,
    dec_event_seq, dec_event_id, dec_trace_caller_id, dec_event_kind, dec_event_header,
    dec_metric_aggregate, dec_opt_source_id, dec_opt_u16, dec_trace_op, dec_op_agg, dec_node,
    dec_nodes, dec_u32_items, dec_metric_items, dec_sink_handshake, dec_create_source,
    dec_trace_body, dec_trace_aggregate, dec_trace_aggregate_delta,
};

verus! {

/// Decode a field at `base + k`, treating an unrepresentable offset as
/// out of bounds.  Each closure of this shape is one accessor below.
///
/// When `base + k` does not fit a machine word it cannot lie within the
/// buffer either, so the spec decoder denotes none there.
fn field_offset(buf: &[u8], base: usize, k: usize) -> (r: Option<usize>)
    ensures
        r matches Some(o) ==> o == base + k,
        r is None ==> base + k > buf@.len(),
{
    let l = buf.len();
    base.checked_add(k)
}

/// View into an encoded `SinkHandshake`.
#[derive(Copy, Clone, Debug)]
pub struct SinkHandshakeLazy<'a> {
    pub buffer: &'a [u8],
    pub offset: usize,
}

impl<'a> SinkHandshakeLazy<'a> {
    pub fn new(buffer: &'a [u8], offset: usize) -> (r: Self)
        ensures
            r.buffer@ == buffer@,
            r.offset == offset,
    {
        SinkHandshakeLazy { buffer, offset }
    }

    pub fn app_name(&self) -> (r: Result<Vec<u8>, DecodeError>)
        ensures
            dec_bytes(self.buffer@, self.offset as int) == (match r {
                Ok(v) => Some(v@),
                Err(_) => None,
            }),
    {
        decode_bytes_field(self.buffer, self.offset)
    }

    pub fn session_id_hi(&self) -> (r: Result<u64, DecodeError>)
        ensures
            dec_u64(self.buffer@, self.offset + 8) == (match r {
                Ok(v) => Some(v),
                Err(_) => None,
            }),
    {
        match field_offset(self.buffer, self.offset, 8) {
            Some(o) => {
                if self.buffer.len() >= 8 && o <= self.buffer.len() - 8 {
                    Ok(read_u64(self.buffer, o))
                } else {
                    Err(DecodeError)
                }
            },
            None => Err(DecodeError),
        }
    }

    pub fn session_id_lo(&self) -> (r: Result<u64, DecodeError>)
        ensures
            dec_u64(self.buffer@, self.offset + 16) == (match r {
                Ok(v) => Some(v),
                Err(_) => None,
            }),
    {
        match field_offset(self.buffer, self.offset, 16) {
            Some(o) => {
                if self.buffer.len() >= 8 && o <= self.buffer.len() - 8 {
                    Ok(read_u64(self.buffer, o))
                } else {
                    Err(DecodeError)
                }
            },
            None => Err(DecodeError),
        }
    }
}

/// View into an encoded `SourceId`.
#[derive(Copy, Clone, Debug)]
pub struct SourceIdLazy<'a> {
    pub buffer: &'a [u8],
    pub offset: usize,
}

impl<'a> SourceIdLazy<'a> {
    pub fn new(buffer: &'a [u8], offset: usize) -> (r: Self)
        ensures
            r.buffer@ == buffer@,
            r.offset == offset,
    {
        SourceIdLazy { buffer, offset }
    }

    pub fn source(&self) -> (r: Result<u64, DecodeError>)
        ensures
            dec_u64(self.buffer@, self.offset as int) == (match r {
                Ok(v) => Some(v),
                Err(_) => None,
            }),
    {
        if self.buffer.len() >= 8 && self.offset <= self.buffer.len() - 8 {
            Ok(read_u64(self.buffer, self.offset))
        } else {
            Err(DecodeError)
        }
    }
}

/// View into an encoded `GlobalSourceId`.
#[derive(Copy, Clone, Debug)]
pub struct GlobalSourceIdLazy<'a> {
    pub buffer: &'a [u8],
    pub offset: usize,
}

impl<'a> GlobalSourceIdLazy<'a> {
    pub fn new(buffer: &'a [u8], offset: usize) -> (r: Self)
        ensures
            r.buffer@ == buffer@,
            r.offset == offset,
    {
        GlobalSourceIdLazy { buffer, offset }
    }

    pub fn session(&self) -> (r: Result<u64, DecodeError>)
        ensures
            dec_u64(self.buffer@, self.offset as int) == (match r {
                Ok(v) => Some(v),
                Err(_) => None,
            }),
    {
        if self.buffer.len() >= 8 && self.offset <= self.buffer.len() - 8 {
            Ok(read_u64(self.buffer, self.offset))
        } else {
            Err(DecodeError)
        }
    }

    pub fn source(&self) -> (r: Result<SourceId, DecodeError>)
        ensures
            dec_source_id(self.buffer@, self.offset + 8) == (match r {
                Ok(v) => Some(v),
                Err(_) => None,
            }),
    {
        match field_offset(self.buffer, self.offset, 8) {
            Some(o) => decode_source_id(self.buffer, o),
            None => Err(DecodeError),
        }
    }
}

/// View into an encoded `EventSeq`.
#[derive(Copy, Clone, Debug)]
pub struct EventSeqLazy<'a> {
    pub buffer: &'a [u8],
    pub offset: usize,
}

impl<'a> EventSeqLazy<'a> {
    pub fn new(buffer: &'a [u8], offset: usize) -> (r: Self)
        ensures
            r.buffer@ == buffer@,
            r.offset == offset,
    {
        EventSeqLazy { buffer, offset }
    }

    pub fn seq_no(&self) -> (r: Result<u16, DecodeError>)
        ensures
            dec_u16(self.buffer@, self.offset as int) == (match r {
                Ok(v) => Some(v),
                Err(_) => None,
            }),
    {
        if self.buffer.len() >= 2 && self.offset <= self.buffer.len() - 2 {
            Ok(read_u16(self.buffer, self.offset))
        } else {
            Err(DecodeError)
        }
    }
}

/// View into an encoded `EventId`.
#[derive(Copy, Clone, Debug)]
pub struct EventIdLazy<'a> {
    pub buffer: &'a [u8],
    pub offset: usize,
}

impl<'a> EventIdLazy<'a> {
    pub fn new(buffer: &'a [u8], offset: usize) -> (r: Self)
        ensures
            r.buffer@ == buffer@,
            r.offset == offset,
    {
        EventIdLazy { buffer, offset }
    }

    pub fn source(&self) -> (r: Result<SourceId, DecodeError>)
        ensures
            dec_source_id(self.buffer@, self.offset as int) == (match r {
                Ok(v) => Some(v),
                Err(_) => None,
            }),
    {
        decode_source_id(self.buffer, self.offset)
    }

    pub fn timestamp_nanos(&self) -> (r: Result<u64, DecodeError>)
        ensures
            dec_u64(self.buffer@, self.offset + 8) == (match r {
                Ok(v) => Some(v),
                Err(_) => None,
            }),
    {
        match field_offset(self.buffer, self.offset, 8) {
            Some(o) => {
                if self.buffer.len() >= 8 && o <= self.buffer.len() - 8 {
                    Ok(read_u64(self.buffer, o))
                } else {
                    Err(DecodeError)
                }
            },
            None => Err(DecodeError),
        }
    }

    pub fn seq_no(&self) -> (r: Result<EventSeq, DecodeError>)
        ensures
            dec_event_seq(self.buffer@, self.offset + 16) == (match r {
                Ok(v) => Some(v),
                Err(_) => None,
            }),
    {
        match field_offset(self.buffer, self.offset, 16) {
            Some(o) => decode_event_seq(self.buffer, o),
            None => Err(DecodeError),
        }
    }
}

/// View into an encoded `TraceCallerId`.
#[derive(Copy, Clone, Debug)]
pub struct TraceCallerIdLazy<'a> {
    pub buffer: &'a [u8],
    pub offset: usize,
}

impl<'a> TraceCallerIdLazy<'a> {
    pub fn new(buffer: &'a [u8], offset: usize) -> (r: Self)
        ensures
            r.buffer@ == buffer@,
            r.offset == offset,
    {
        TraceCallerIdLazy { buffer, offset }
    }

    pub fn event_id(&self) -> (r: Result<EventId, DecodeError>)
        ensures
            dec_event_id(self.buffer@, self.offset as int) == (match r {
                Ok(v) => Some(v),
                Err(_) => None,
            }),
    {
        decode_event_id(self.buffer, self.offset)
    }

    pub fn op_index(&self) -> (r: Result<u16, DecodeError>)
        ensures
            dec_u16(self.buffer@, self.offset + 18) == (match r {
                Ok(v) => Some(v),
                Err(_) => None,
            }),
    {
        match field_offset(self.buffer, self.offset, 18) {
            Some(o) => {
                if self.buffer.len() >= 2 && o <= self.buffer.len() - 2 {
                    Ok(read_u16(self.buffer, o))
                } else {
                    Err(DecodeError)
                }
            },
            None => Err(DecodeError),
        }
    }
}

/// Lazy form of an event kind; the tag set is closed, so the lazy form
/// is the kind itself.
#[derive(Copy, Clone, Debug, PartialEq, Eq, Structural)]
pub enum EventKindLazy {
    CreateSource,
    DeleteSource,
    Trace,
    TraceAggregate,
    TraceAggregateDelta,
}

/// The event kind an `EventKindLazy` stands for.
pub open spec fn event_kind_lazy_view(k: EventKindLazy) -> EventKind {
    match k {
        EventKindLazy::CreateSource => EventKind::CreateSource,
        EventKindLazy::DeleteSource => EventKind::DeleteSource,
        EventKindLazy::Trace => EventKind::Trace,
        EventKindLazy::TraceAggregate => EventKind::TraceAggregate,
        EventKindLazy::TraceAggregateDelta => EventKind::TraceAggregateDelta,
    }
}

/// Turn a decoded event kind into its lazy form.
pub fn event_kind_to_lazy(k: &EventKind) -> (r: EventKindLazy)
    ensures
        event_kind_lazy_view(r) == *k,
{
    match k {
        EventKind::CreateSource => EventKindLazy::CreateSource,
        EventKind::DeleteSource => EventKindLazy::DeleteSource,
        EventKind::Trace => EventKindLazy::Trace,
        EventKind::TraceAggregate => EventKindLazy::TraceAggregate,
        EventKind::TraceAggregateDelta => EventKindLazy::TraceAggregateDelta,
    }
}

/// View into an encoded `EventHeader`.
#[derive(Copy, Clone, Debug)]
pub struct EventHeaderLazy<'a> {
    pub buffer: &'a [u8],
    pub offset: usize,
}

impl<'a> EventHeaderLazy<'a> {
    pub fn new(buffer: &'a [u8], offset: usize) -> (r: Self)
        ensures
            r.buffer@ == buffer@,
            r.offset == offset,
    {
        EventHeaderLazy { buffer, offset }
    }

    pub fn id(&self) -> (r: Result<EventId, DecodeError>)
        ensures
            dec_event_id(self.buffer@, self.offset as int) == (match r {
                Ok(v) => Some(v),
                Err(_) => None,
            }),
    {
        decode_event_id(self.buffer, self.offset)
    }

    pub fn len(&self) -> (r: Result<u16, DecodeError>)
        ensures
            dec_u16(self.buffer@, self.offset + 18) == (match r {
                Ok(v) => Some(v),
                Err(_) => None,
            }),
    {
        match field_offset(self.buffer, self.offset, 18) {
            Some(o) => {
                if self.buffer.len() >= 2 && o <= self.buffer.len() - 2 {
                    Ok(read_u16(self.buffer, o))
                } else {
                    Err(DecodeError)
                }
            },
            None => Err(DecodeError),
        }
    }

    pub fn kind(&self) -> (r: Result<EventKind, DecodeError>)
        ensures
            dec_event_kind(self.buffer@, self.offset + 20) == (match r {
                Ok(v) => Some(v),
                Err(_) => None,
            }),
    {
        match field_offset(self.buffer, self.offset, 20) {
            Some(o) => decode_event_kind(self.buffer, o),
            None => Err(DecodeError),
        }
    }
}

/// View into an encoded `MetricAggregate`.
#[derive(Copy, Clone, Debug)]
pub struct MetricAggregateLazy<'a> {
    pub buffer: &'a [u8],
    pub offset: usize,
}

impl<'a> MetricAggregateLazy<'a> {
    pub fn new(buffer: &'a [u8], offset: usize) -> (r: Self)
        ensures
            r.buffer@ == buffer@,
            r.offset == offset,
    {
        MetricAggregateLazy { buffer, offset }
    }

    pub fn count(&self) -> (r: Result<u64, DecodeError>)
        ensures
            dec_u64(self.buffer@, self.offset as int) == (match r {
                Ok(v) => Some(v),
                Err(_) => None,
            }),
    {
        if self.buffer.len() >= 8 && self.offset <= self.buffer.len() - 8 {
            Ok(read_u64(self.buffer, self.offset))
        } else {
            Err(DecodeError)
        }
    }

    pub fn sum(&self) -> (r: Result<i64, DecodeError>)
        ensures
            dec_i64(self.buffer@, self.offset + 8) == (match r {
                Ok(v) => Some(v),
                Err(_) => None,
            }),
    {
        match field_offset(self.buffer, self.offset, 8) {
            Some(o) => {
                if self.buffer.len() >= 8 && o <= self.buffer.len() - 8 {
                    Ok(read_i64(self.buffer, o))
                } else {
                    Err(DecodeError)
                }
            },
            None => Err(DecodeError),
        }
    }

    pub fn min(&self) -> (r: Result<i64, DecodeError>)
        ensures
            dec_i64(self.buffer@, self.offset + 16) == (match r {
                Ok(v) => Some(v),
                Err(_) => None,
            }),
    {
        match field_offset(self.buffer, self.offset, 16) {
            Some(o) => {
                if self.buffer.len() >= 8 && o <= self.buffer.len() - 8 {
                    Ok(read_i64(self.buffer, o))
                } else {
                    Err(DecodeError)
                }
            },
            None => Err(DecodeError),
        }
    }

    pub fn max(&self) -> (r: Result<i64, DecodeError>)
        ensures
            dec_i64(self.buffer@, self.offset + 24) == (match r {
                Ok(v) => Some(v),
                Err(_) => None,
            }),
    {
        match field_offset(self.buffer, self.offset, 24) {
            Some(o) => {
                if self.buffer.len() >= 8 && o <= self.buffer.len() - 8 {
                    Ok(read_i64(self.buffer, o))
                } else {
                    Err(DecodeError)
                }
            },
            None => Err(DecodeError),
        }
    }
}

/// View into an encoded `CreateSource` body.
#[derive(Copy, Clone, Debug)]
pub struct CreateSourceLazy<'a> {
    pub buffer: &'a [u8],
    pub offset: usize,
}

impl<'a> CreateSourceLazy<'a> {
    pub fn new(buffer: &'a [u8], offset: usize) -> (r: Self)
        ensures
            r.buffer@ == buffer@,
            r.offset == offset,
    {
        CreateSourceLazy { buffer, offset }
    }

    pub fn name(&self) -> (r: Result<Vec<u8>, DecodeError>)
        ensures
            dec_bytes(self.buffer@, self.offset as int) == (match r {
                Ok(v) => Some(v@),
                Err(_) => None,
            }),
    {
        decode_bytes_field(self.buffer, self.offset)
    }

    pub fn parent(&self) -> (r: Result<Option<SourceId>, DecodeError>)
        ensures
            dec_opt_source_id(self.buffer@, self.offset + 8) == (match r {
                Ok(v) => Some(v),
                Err(_) => None,
            }),
    {
        match field_offset(self.buffer, self.offset, 8) {
            Some(o) => decode_opt_source_id(self.buffer, o),
            None => Err(DecodeError),
        }
    }

    pub fn is_recurring(&self) -> (r: Result<bool, DecodeError>)
        ensures
            dec_bool(self.buffer@, self.offset + 17) == (match r {
                Ok(v) => Some(v),
                Err(_) => None,
            }),
    {
        match field_offset(self.buffer, self.offset, 17) {
            Some(o) => {
                if o < self.buffer.len() {
                    let b = self.buffer[o];
                    if b == 0 {
                        Ok(false)
                    } else if b == 1 {
                        Ok(true)
                    } else {
                        Err(DecodeError)
                    }
                } else {
                    Err(DecodeError)
                }
            },
            None => Err(DecodeError),
        }
    }
}

/// View into an encoded `Trace` body.
#[derive(Copy, Clone, Debug)]
pub struct TraceLazy<'a> {
    pub buffer: &'a [u8],
    pub offset: usize,
}

impl<'a> TraceLazy<'a> {
    pub fn new(buffer: &'a [u8], offset: usize) -> (r: Self)
        ensures
            r.buffer@ == buffer@,
            r.offset == offset,
    {
        TraceLazy { buffer, offset }
    }

    pub fn start_nanos(&self) -> (r: Result<u64, DecodeError>)
        ensures
            dec_u64(self.buffer@, self.offset as int) == (match r {
                Ok(v) => Some(v),
                Err(_) => None,
            }),
    {
        if self.buffer.len() >= 8 && self.offset <= self.buffer.len() - 8 {
            Ok(read_u64(self.buffer, self.offset))
        } else {
            Err(DecodeError)
        }
    }

    pub fn trace(&self) -> (r: Result<Vec<u8>, DecodeError>)
        ensures
            dec_bytes(self.buffer@, self.offset + 8) == (match r {
                Ok(v) => Some(v@),
                Err(_) => None,
            }),
    {
        match field_offset(self.buffer, self.offset, 8) {
            Some(o) => decode_bytes_field(self.buffer, o),
            None => Err(DecodeError),
        }
    }
}


/// Lazy form of a wire trace op; every payload is fixed-size, so the
/// fields are decoded on construction.
#[derive(Copy, Clone, Debug, PartialEq, Eq, Structural)]
pub enum TraceOpLazy {
    CreateSource { source: SourceId },
    DeleteSource { source: SourceId },
    Call { source: SourceId },
    PushScope,
    PopScope,
    BranchStart,
    BranchEnd,
    Label,
    Tag { tag: u64 },
    Metric { value: i64 },
    ChannelSend { channel: SourceId },
    ChannelReceive { channel: SourceId, sender: TraceCallerId },
    ChannelTransfer { from: SourceId, to: SourceId },
    GlobalChannelSend { channel: GlobalSourceId },
    GlobalChannelReceive { channel: GlobalSourceId },
    GlobalChannelTransfer { from: GlobalSourceId, to: GlobalSourceId },
}

/// The wire trace op a `TraceOpLazy` stands for.
pub open spec fn trace_op_lazy_view(l: TraceOpLazy) -> TraceOp {
    match l {
        TraceOpLazy::CreateSource { source } => TraceOp::CreateSource { source },
        TraceOpLazy::DeleteSource { source } => TraceOp::DeleteSource { source },
        TraceOpLazy::Call { source } => TraceOp::Call { source },
        TraceOpLazy::PushScope => TraceOp::PushScope,
        TraceOpLazy::PopScope => TraceOp::PopScope,
        TraceOpLazy::BranchStart => TraceOp::BranchStart,
        TraceOpLazy::BranchEnd => TraceOp::BranchEnd,
        TraceOpLazy::Label => TraceOp::Label,
        TraceOpLazy::Tag { tag } => TraceOp::Tag { tag },
        TraceOpLazy::Metric { value } => TraceOp::Metric { value },
        TraceOpLazy::ChannelSend { channel } => TraceOp::ChannelSend { channel },
        TraceOpLazy::ChannelReceive { channel, sender } => TraceOp::ChannelReceive {
            channel,
            sender,
        },
        TraceOpLazy::ChannelTransfer { from, to } => TraceOp::ChannelTransfer { from, to },
        TraceOpLazy::GlobalChannelSend { channel } => TraceOp::GlobalChannelSend { channel },
        TraceOpLazy::GlobalChannelReceive { channel } => TraceOp::GlobalChannelReceive { channel },
        TraceOpLazy::GlobalChannelTransfer { from, to } => TraceOp::GlobalChannelTransfer {
            from,
            to,
        },
    }
}

/// Decode the lazy form of a wire trace op at `off`.
pub fn decode_trace_op_lazy(buf: &[u8], off: usize) -> (r: Result<TraceOpLazy, DecodeError>)
    ensures
        dec_trace_op(buf@, off as int) == (match r {
            Ok(l) => Some(trace_op_lazy_view(l)),
            Err(_) => None,
        }),
{
    match decode_trace_op(buf, off) {
        Ok(op) => Ok(
            match op {
                TraceOp::CreateSource { source } => TraceOpLazy::CreateSource { source },
                TraceOp::DeleteSource { source } => TraceOpLazy::DeleteSource { source },
                TraceOp::Call { source } => TraceOpLazy::Call { source },
                TraceOp::PushScope => TraceOpLazy::PushScope,
                TraceOp::PopScope => TraceOpLazy::PopScope,
                TraceOp::BranchStart => TraceOpLazy::BranchStart,
                TraceOp::BranchEnd => TraceOpLazy::BranchEnd,
                TraceOp::Label => TraceOpLazy::Label,
                TraceOp::Tag { tag } => TraceOpLazy::Tag { tag },
                TraceOp::Metric { value } => TraceOpLazy::Metric { value },
                TraceOp::ChannelSend { channel } => TraceOpLazy::ChannelSend { channel },
                TraceOp::ChannelReceive { channel, sender } => TraceOpLazy::ChannelReceive {
                    channel,
                    sender,
                },
                TraceOp::ChannelTransfer { from, to } => TraceOpLazy::ChannelTransfer { from, to },
                TraceOp::GlobalChannelSend { channel } => TraceOpLazy::GlobalChannelSend {
                    channel,
                },
                TraceOp::GlobalChannelReceive { channel } => TraceOpLazy::GlobalChannelReceive {
                    channel,
                },
                TraceOp::GlobalChannelTransfer { from, to } => TraceOpLazy::GlobalChannelTransfer {
                    from,
                    to,
                },
            },
        ),
        Err(e) => Err(e),
    }
}

/// Lazy form of an aggregate op: labels and metric names are borrowed
/// from the buffer, everything else is decoded on construction.
#[derive(Copy, Clone, Debug)]
pub enum TraceOpAggregateLazy<'a> {
    CreateSource,
    DeleteSource,
    Call { source: SourceId },
    PushScope,
    PopScope,
    BranchStart { branch_end: u16 },
    BranchEnd { parent_branch_end: u16 },
    Label { label: &'a [u8] },
    Tag,
    Metric { name: &'a [u8], index: u16 },
    ChannelSend { channel: SourceId },
    ChannelReceive { channel: SourceId },
    ChannelTransfer { from: SourceId, to: SourceId },
    GlobalChannelSend { channel: GlobalSourceId },
    GlobalChannelReceive { channel: GlobalSourceId },
    GlobalChannelTransfer { from: GlobalSourceId, to: GlobalSourceId },
}

/// The aggregate op model a `TraceOpAggregateLazy` stands for.
pub open spec fn op_agg_lazy_view(l: TraceOpAggregateLazy) -> TraceOpAggregateView {
    match l {
        TraceOpAggregateLazy::CreateSource => TraceOpAggregateView::CreateSource,
        TraceOpAggregateLazy::DeleteSource => TraceOpAggregateView::DeleteSource,
        TraceOpAggregateLazy::Call { source } => TraceOpAggregateView::Call { source },
        TraceOpAggregateLazy::PushScope => TraceOpAggregateView::PushScope,
        TraceOpAggregateLazy::PopScope => TraceOpAggregateView::PopScope,
        TraceOpAggregateLazy::BranchStart { branch_end } => TraceOpAggregateView::BranchStart {
            branch_end,
        },
        TraceOpAggregateLazy::BranchEnd { parent_branch_end } => TraceOpAggregateView::BranchEnd {
            parent_branch_end,
        },
        TraceOpAggregateLazy::Label { label } => TraceOpAggregateView::Label { label: label@ },
        TraceOpAggregateLazy::Tag => TraceOpAggregateView::Tag,
        TraceOpAggregateLazy::Metric { name, index } => TraceOpAggregateView::Metric {
            name: name@,
            index,
        },
        TraceOpAggregateLazy::ChannelSend { channel } => TraceOpAggregateView::ChannelSend {
            channel,
        },
        TraceOpAggregateLazy::ChannelReceive { channel } => TraceOpAggregateView::ChannelReceive {
            channel,
        },
        TraceOpAggregateLazy::ChannelTransfer { from, to } => TraceOpAggregateView::ChannelTransfer {
            from,
            to,
        },
        TraceOpAggregateLazy::GlobalChannelSend { channel } => TraceOpAggregateView::GlobalChannelSend {
            channel,
        },
        TraceOpAggregateLazy::GlobalChannelReceive { channel } => TraceOpAggregateView::GlobalChannelReceive {
            channel,
        },
        TraceOpAggregateLazy::GlobalChannelTransfer { from, to } => TraceOpAggregateView::GlobalChannelTransfer {
            from,
            to,
        },
    }
}

/// Decode the lazy form of an aggregate op at `off`, borrowing label
/// and metric-name bytes from the buffer.
pub fn decode_op_aggregate_lazy<'a>(buf: &'a [u8], off: usize) -> (r: Result<
    TraceOpAggregateLazy<'a>,
    DecodeError,
>)
    ensures
        dec_op_agg(buf@, off as int) == (match r {
            Ok(l) => Some(op_agg_lazy_view(l)),
            Err(_) => None,
        }),
{
    if !(buf.len() >= TRACE_OP_AGGREGATE_BASE_LEN && off <= buf.len()
        - TRACE_OP_AGGREGATE_BASE_LEN) {
        return Err(DecodeError);
    }
    let tag = buf[off];
    if tag == 7 {
        let len = read_u32(buf, off + 1);
        let pos = read_u32(buf, off + 5);
        if (pos as u64) + (len as u64) > (buf.len() as u64) {
            return Err(DecodeError);
        }
        let label = vstd::slice::slice_subrange(buf, pos as usize, pos as usize + len as usize);
        Ok(TraceOpAggregateLazy::Label { label })
    } else if tag == 9 {
        let len = read_u32(buf, off + 1);
        let pos = read_u32(buf, off + 5);
        if (pos as u64) + (len as u64) > (buf.len() as u64) {
            return Err(DecodeError);
        }
        let name = vstd::slice::slice_subrange(buf, pos as usize, pos as usize + len as usize);
        Ok(TraceOpAggregateLazy::Metric { name, index: read_u16(buf, off + 9) })
    } else {
        match crate::codec::decode_op_aggregate(buf, off) {
            Ok(op) => Ok(
                match op {
                    TraceOpAggregate::CreateSource => TraceOpAggregateLazy::CreateSource,
                    TraceOpAggregate::DeleteSource => TraceOpAggregateLazy::DeleteSource,
                    TraceOpAggregate::Call { source } => TraceOpAggregateLazy::Call { source },
                    TraceOpAggregate::PushScope => TraceOpAggregateLazy::PushScope,
                    TraceOpAggregate::PopScope => TraceOpAggregateLazy::PopScope,
                    TraceOpAggregate::BranchStart { branch_end } => TraceOpAggregateLazy::BranchStart {
                        branch_end,
                    },
                    TraceOpAggregate::BranchEnd { parent_branch_end } => TraceOpAggregateLazy::BranchEnd {
                        parent_branch_end,
                    },
                    TraceOpAggregate::Tag => TraceOpAggregateLazy::Tag,
                    TraceOpAggregate::ChannelSend { channel } => TraceOpAggregateLazy::ChannelSend {
                        channel,
                    },
                    TraceOpAggregate::ChannelReceive { channel } => TraceOpAggregateLazy::ChannelReceive {
                        channel,
                    },
                    TraceOpAggregate::ChannelTransfer { from, to } => TraceOpAggregateLazy::ChannelTransfer {
                        from,
                        to,
                    },
                    TraceOpAggregate::GlobalChannelSend { channel } => TraceOpAggregateLazy::GlobalChannelSend {
                        channel,
                    },
                    TraceOpAggregate::GlobalChannelReceive { channel } => TraceOpAggregateLazy::GlobalChannelReceive {
                        channel,
                    },
                    TraceOpAggregate::GlobalChannelTransfer { from, to } => TraceOpAggregateLazy::GlobalChannelTransfer {
                        from,
                        to,
                    },
                    _ => {
                        proof {
                            assert(false);
                        }
                        TraceOpAggregateLazy::Tag
                    },
                },
            ),
            Err(e) => Err(e),
        }
    }
}

/// View into an encoded graph node.
#[derive(Copy, Clone, Debug)]
pub struct TraceAggregateNodeLazy<'a> {
    pub buffer: &'a [u8],
    pub offset: usize,
}

impl<'a> TraceAggregateNodeLazy<'a> {
    pub fn new(buffer: &'a [u8], offset: usize) -> (r: Self)
        ensures
            r.buffer@ == buffer@,
            r.offset == offset,
    {
        TraceAggregateNodeLazy { buffer, offset }
    }

    pub fn op(&self) -> (r: Result<TraceOpAggregateLazy<'a>, DecodeError>)
        ensures
            dec_op_agg(self.buffer@, self.offset as int) == (match r {
                Ok(l) => Some(op_agg_lazy_view(l)),
                Err(_) => None,
            }),
    {
        decode_op_aggregate_lazy(self.buffer, self.offset)
    }

    pub fn branch_next(&self) -> (r: Result<Option<u16>, DecodeError>)
        ensures
            dec_opt_u16(self.buffer@, self.offset + 33) == (match r {
                Ok(v) => Some(v),
                Err(_) => None,
            }),
    {
        match field_offset(self.buffer, self.offset, 33) {
            Some(o) => decode_opt_u16(self.buffer, o),
            None => Err(DecodeError),
        }
    }

    pub fn next(&self) -> (r: Result<Option<u16>, DecodeError>)
        ensures
            dec_opt_u16(self.buffer@, self.offset + 36) == (match r {
                Ok(v) => Some(v),
                Err(_) => None,
            }),
    {
        match field_offset(self.buffer, self.offset, 36) {
            Some(o) => decode_opt_u16(self.buffer, o),
            None => Err(DecodeError),
        }
    }
}

/// The node list a `TraceAggregate` record at `off` refers to.
pub open spec fn agg_nodes_at(s: Seq<u8>, off: int) -> Option<Seq<TraceAggregateNodeView>> {
    match (dec_u32(s, off + 8), dec_u32(s, off + 12)) {
        (Some(n), Some(p)) => dec_nodes(s, p as int, n as nat),
        _ => None,
    }
}

/// The counter list a `TraceAggregate` record at `off` refers to.
pub open spec fn agg_counters_at(s: Seq<u8>, off: int) -> Option<Seq<u32>> {
    match (dec_u32(s, off + 16), dec_u32(s, off + 20)) {
        (Some(n), Some(p)) => dec_u32_items(s, p as int, n as nat),
        _ => None,
    }
}

/// The metric list a `TraceAggregate` record at `off` refers to.
pub open spec fn agg_metrics_at(s: Seq<u8>, off: int) -> Option<Seq<MetricAggregate>> {
    match (dec_u32(s, off + 24), dec_u32(s, off + 28)) {
        (Some(n), Some(p)) => dec_metric_items(s, p as int, n as nat),
        _ => None,
    }
}

/// View into an encoded `TraceAggregate` body.
#[derive(Copy, Clone, Debug)]
pub struct TraceAggregateLazy<'a> {
    pub buffer: &'a [u8],
    pub offset: usize,
}

impl<'a> TraceAggregateLazy<'a> {
    pub fn new(buffer: &'a [u8], offset: usize) -> (r: Self)
        ensures
            r.buffer@ == buffer@,
            r.offset == offset,
    {
        TraceAggregateLazy { buffer, offset }
    }

    pub fn start_nanos(&self) -> (r: Result<u64, DecodeError>)
        ensures
            dec_u64(self.buffer@, self.offset as int) == (match r {
                Ok(v) => Some(v),
                Err(_) => None,
            }),
    {
        if self.buffer.len() >= 8 && self.offset <= self.buffer.len() - 8 {
            Ok(read_u64(self.buffer, self.offset))
        } else {
            Err(DecodeError)
        }
    }

    pub fn nodes(&self) -> (r: Result<Vec<TraceAggregateNode>, DecodeError>)
        ensures
            agg_nodes_at(self.buffer@, self.offset as int) == (match r {
                Ok(v) => Some(nodes_view(v)),
                Err(_) => None,
            }),
    {
        let o = match field_offset(self.buffer, self.offset, 16) {
            Some(o) => o,
            None => {
                return Err(DecodeError);
            },
        };
        if self.offset > self.buffer.len() || self.buffer.len() - self.offset < 16 {
            return Err(DecodeError);
        }
        let n = read_u32(self.buffer, self.offset + 8);
        let p = read_u32(self.buffer, self.offset + 12);
        decode_nodes_list(self.buffer, p, n)
    }

    pub fn counters(&self) -> (r: Result<Vec<u32>, DecodeError>)
        ensures
            agg_counters_at(self.buffer@, self.offset as int) == (match r {
                Ok(v) => Some(v@),
                Err(_) => None,
            }),
    {
        let o = match field_offset(self.buffer, self.offset, 24) {
            Some(o) => o,
            None => {
                return Err(DecodeError);
            },
        };
        if self.offset > self.buffer.len() || self.buffer.len() - self.offset < 24 {
            return Err(DecodeError);
        }
        let n = read_u32(self.buffer, self.offset + 16);
        let p = read_u32(self.buffer, self.offset + 20);
        decode_u32_list(self.buffer, p, n)
    }

    pub fn metrics(&self) -> (r: Result<Vec<MetricAggregate>, DecodeError>)
        ensures
            agg_metrics_at(self.buffer@, self.offset as int) == (match r {
                Ok(v) => Some(v@),
                Err(_) => None,
            }),
    {
        let o = match field_offset(self.buffer, self.offset, 32) {
            Some(o) => o,
            None => {
                return Err(DecodeError);
            },
        };
        if self.offset > self.buffer.len() || self.buffer.len() - self.offset < 32 {
            return Err(DecodeError);
        }
        let n = read_u32(self.buffer, self.offset + 24);
        let p = read_u32(self.buffer, self.offset + 28);
        decode_metric_list(self.buffer, p, n)
    }
}

/// View into an encoded `TraceAggregateDelta` body.
#[derive(Copy, Clone, Debug)]
pub struct TraceAggregateDeltaLazy<'a> {
    pub buffer: &'a [u8],
    pub offset: usize,
}

impl<'a> TraceAggregateDeltaLazy<'a> {
    pub fn new(buffer: &'a [u8], offset: usize) -> (r: Self)
        ensures
            r.buffer@ == buffer@,
            r.offset == offset,
    {
        TraceAggregateDeltaLazy { buffer, offset }
    }

    pub fn start_nanos(&self) -> (r: Result<u64, DecodeError>)
        ensures
            dec_u64(self.buffer@, self.offset as int) == (match r {
                Ok(v) => Some(v),
                Err(_) => None,
            }),
    {
        if self.buffer.len() >= 8 && self.offset <= self.buffer.len() - 8 {
            Ok(read_u64(self.buffer, self.offset))
        } else {
            Err(DecodeError)
        }
    }

    pub fn end_nanos(&self) -> (r: Result<u64, DecodeError>)
        ensures
            dec_u64(self.buffer@, self.offset + 8) == (match r {
                Ok(v) => Some(v),
                Err(_) => None,
            }),
    {
        match field_offset(self.buffer, self.offset, 8) {
            Some(o) => {
                if self.buffer.len() >= 8 && o <= self.buffer.len() - 8 {
                    Ok(read_u64(self.buffer, o))
                } else {
                    Err(DecodeError)
                }
            },
            None => Err(DecodeError),
        }
    }

    pub fn counters(&self) -> (r: Result<Vec<u32>, DecodeError>)
        ensures
            agg_counters_at(self.buffer@, self.offset as int) == (match r {
                Ok(v) => Some(v@),
                Err(_) => None,
            }),
    {
        let o = match field_offset(self.buffer, self.offset, 24) {
            Some(o) => o,
            None => {
                return Err(DecodeError);
            },
        };
        if self.offset > self.buffer.len() || self.buffer.len() - self.offset < 24 {
            return Err(DecodeError);
        }
        let n = read_u32(self.buffer, self.offset + 16);
        let p = read_u32(self.buffer, self.offset + 20);
        decode_u32_list(self.buffer, p, n)
    }

    pub fn metrics(&self) -> (r: Result<Vec<MetricAggregate>, DecodeError>)
        ensures
            agg_metrics_at(self.buffer@, self.offset as int) == (match r {
                Ok(v) => Some(v@),
                Err(_) => None,
            }),
    {
        let o = match field_offset(self.buffer, self.offset, 32) {
            Some(o) => o,
            None => {
                return Err(DecodeError);
            },
        };
        if self.offset > self.buffer.len() || self.buffer.len() - self.offset < 32 {
            return Err(DecodeError);
        }
        let n = read_u32(self.buffer, self.offset + 24);
        let p = read_u32(self.buffer, self.offset + 28);
        decode_metric_list(self.buffer, p, n)
    }
}

// ---------------------------------------------------------------------
// Lazy accessors agree with the owned form.
//
// Whenever a whole record decodes, the spec decoder each accessor is
// held to yields exactly the corresponding field of the decoded record.
// ---------------------------------------------------------------------

/// On a decodable handshake, the accessors return the owned fields.
pub proof fn lemma_lazy_matches_owned_sink_handshake(s: Seq<u8>)
    requires
        dec_sink_handshake(s) is Some,
    ensures
        dec_bytes(s, 0) == Some(dec_sink_handshake(s).unwrap().app_name),
        dec_u64(s, 8) == Some(dec_sink_handshake(s).unwrap().session_id_hi),
        dec_u64(s, 16) == Some(dec_sink_handshake(s).unwrap().session_id_lo),
{
}

/// On a decodable `CreateSource` body, the accessors return the owned
/// fields.
pub proof fn lemma_lazy_matches_owned_create_source(s: Seq<u8>)
    requires
        dec_create_source(s) is Some,
    ensures
        dec_bytes(s, 0) == Some(dec_create_source(s).unwrap().name),
        dec_opt_source_id(s, 8) == Some(dec_create_source(s).unwrap().parent),
        dec_bool(s, 17) == Some(dec_create_source(s).unwrap().is_recurring),
{
}

/// On a decodable `Trace` body, the accessors return the owned fields.
pub proof fn lemma_lazy_matches_owned_trace_body(s: Seq<u8>)
    requires
        dec_trace_body(s) is Some,
    ensures
        dec_u64(s, 0) == Some(dec_trace_body(s).unwrap().start_nanos),
        dec_bytes(s, 8) == Some(dec_trace_body(s).unwrap().trace),
{
}

/// On a decodable event header, the accessors return the owned fields.
pub proof fn lemma_lazy_matches_owned_event_header(s: Seq<u8>, off: int)
    requires
        dec_event_header(s, off) is Some,
    ensures
        dec_event_id(s, off) == Some(dec_event_header(s, off).unwrap().id),
        dec_u16(s, off + 18) == Some(dec_event_header(s, off).unwrap().len),
        dec_event_kind(s, off + 20) == Some(dec_event_header(s, off).unwrap().kind),
{
}

/// On a decodable event id, the accessors return the owned fields.
pub proof fn lemma_lazy_matches_owned_event_id(s: Seq<u8>, off: int)
    requires
        dec_event_id(s, off) is Some,
    ensures
        dec_source_id(s, off) == Some(dec_event_id(s, off).unwrap().source),
        dec_u64(s, off + 8) == Some(dec_event_id(s, off).unwrap().timestamp_nanos),
        dec_event_seq(s, off + 16) == Some(dec_event_id(s, off).unwrap().seq_no),
{
}

/// On a decodable metric, the accessors return the owned fields.
pub proof fn lemma_lazy_matches_owned_metric(s: Seq<u8>, off: int)
    requires
        dec_metric_aggregate(s, off) is Some,
    ensures
        dec_u64(s, off) == Some(dec_metric_aggregate(s, off).unwrap().count),
        dec_i64(s, off + 8) == Some(dec_metric_aggregate(s, off).unwrap().sum),
        dec_i64(s, off + 16) == Some(dec_metric_aggregate(s, off).unwrap().min),
        dec_i64(s, off + 24) == Some(dec_metric_aggregate(s, off).unwrap().max),
{
}

/// On a decodable graph node, the accessors return the owned fields.
pub proof fn lemma_lazy_matches_owned_node(s: Seq<u8>, off: int)
    requires
        dec_node(s, off) is Some,
    ensures
        dec_op_agg(s, off) == Some(dec_node(s, off).unwrap().op),
        dec_opt_u16(s, off + 33) == Some(dec_node(s, off).unwrap().branch_next),
        dec_opt_u16(s, off + 36) == Some(dec_node(s, off).unwrap().next),
{
}

/// On a decodable `TraceAggregate` body, the accessors return the owned
/// fields.
pub proof fn lemma_lazy_matches_owned_trace_aggregate(s: Seq<u8>)
    requires
        dec_trace_aggregate(s) is Some,
    ensures
        dec_u64(s, 0) == Some(dec_trace_aggregate(s).unwrap().start_nanos),
        agg_nodes_at(s, 0) == Some(dec_trace_aggregate(s).unwrap().nodes),
        agg_counters_at(s, 0) == Some(dec_trace_aggregate(s).unwrap().counters),
        agg_metrics_at(s, 0) == Some(dec_trace_aggregate(s).unwrap().metrics),
{
}

/// On a decodable `TraceAggregateDelta` body, the accessors return the
/// owned fields.
pub proof fn lemma_lazy_matches_owned_trace_aggregate_delta(s: Seq<u8>)
    requires
        dec_trace_aggregate_delta(s) is Some,
    ensures
        dec_u64(s, 0) == Some(dec_trace_aggregate_delta(s).unwrap().start_nanos),
        dec_u64(s, 8) == Some(dec_trace_aggregate_delta(s).unwrap().end_nanos),
        agg_counters_at(s, 0) == Some(dec_trace_aggregate_delta(s).unwrap().counters),
        agg_metrics_at(s, 0) == Some(dec_trace_aggregate_delta(s).unwrap().metrics),
{
}


/// Whether two byte slices hold the same bytes.
fn bytes_eq(a: &[u8], b: &[u8]) -> (r: bool)
    ensures
        r == (a@ == b@),
{
    if a.len() != b.len() {
        return false;
    }
    let mut i: usize = 0;
    while i < a.len()
        invariant
            i <= a@.len(),
            a@.len() == b@.len(),
            forall|j: int| 0 <= j < i ==> a@[j] == b@[j],
        decreases a@.len() - i,
    {
        if a[i] != b[i] {
            return false;
        }
        i = i + 1;
    }
    proof {
        assert(a@ =~= b@);
    }
    true
}

/// Field-wise equality of two lazy aggregate ops: equal exactly when
/// the op models they stand for are equal.
pub fn op_agg_lazy_eq(a: &TraceOpAggregateLazy, b: &TraceOpAggregateLazy) -> (r: bool)
    ensures
        r == (op_agg_lazy_view(*a) == op_agg_lazy_view(*b)),
{
    match (a, b) {
        (TraceOpAggregateLazy::CreateSource, TraceOpAggregateLazy::CreateSource) => true,
        (TraceOpAggregateLazy::DeleteSource, TraceOpAggregateLazy::DeleteSource) => true,
        (
            TraceOpAggregateLazy::Call { source: x },
            TraceOpAggregateLazy::Call { source: y },
        ) => x == y,
        (TraceOpAggregateLazy::PushScope, TraceOpAggregateLazy::PushScope) => true,
        (TraceOpAggregateLazy::PopScope, TraceOpAggregateLazy::PopScope) => true,
        (
            TraceOpAggregateLazy::BranchStart { branch_end: x },
            TraceOpAggregateLazy::BranchStart { branch_end: y },
        ) => x == y,
        (
            TraceOpAggregateLazy::BranchEnd { parent_branch_end: x },
            TraceOpAggregateLazy::BranchEnd { parent_branch_end: y },
        ) => x == y,
        (
            TraceOpAggregateLazy::Label { label: x },
            TraceOpAggregateLazy::Label { label: y },
        ) => bytes_eq(x, y),
        (TraceOpAggregateLazy::Tag, TraceOpAggregateLazy::Tag) => true,
        (
            TraceOpAggregateLazy::Metric { name: x, index: xi },
            TraceOpAggregateLazy::Metric { name: y, index: yi },
        ) => bytes_eq(x, y) && xi == yi,
        (
            TraceOpAggregateLazy::ChannelSend { channel: x },
            TraceOpAggregateLazy::ChannelSend { channel: y },
        ) => x == y,
        (
            TraceOpAggregateLazy::ChannelReceive { channel: x },
            TraceOpAggregateLazy::ChannelReceive { channel: y },
        ) => x == y,
        (
            TraceOpAggregateLazy::ChannelTransfer { from: x, to: xt },
            TraceOpAggregateLazy::ChannelTransfer { from: y, to: yt },
        ) => x == y && xt == yt,
        (
            TraceOpAggregateLazy::GlobalChannelSend { channel: x },
            TraceOpAggregateLazy::GlobalChannelSend { channel: y },
        ) => x == y,
        (
            TraceOpAggregateLazy::GlobalChannelReceive { channel: x },
            TraceOpAggregateLazy::GlobalChannelReceive { channel: y },
        ) => x == y,
        (
            TraceOpAggregateLazy::GlobalChannelTransfer { from: x, to: xt },
            TraceOpAggregateLazy::GlobalChannelTransfer { from: y, to: yt },
        ) => x == y && xt == yt,
        _ => false,
    }
}

} // verus!
