//! Schema types of the wire format and their mathematical encodings.
//!
//! Every schema type occupies a fixed number of inline bytes, its base
//! (`*_BASE_LEN`).  Variable-length payloads are not stored inline: the
//! base holds an eight-byte descriptor (length, then absolute offset,
//! both `u32` little-endian) and the payload bytes live in a scratch
//! region following the outermost record.  Tagged unions spend one tag
//! byte, then the variant's fields, then zero padding up to the union's
//! base length.  `Option` spends one presence byte followed by the
//! payload base (zero-filled when absent).
//!
//! Records with variable-length fields have a ghost model (`...View`)
//! over `Seq<u8>`; the spec encoders and decoders below are stated on
//! those models, and the exec codec is proved against them.

use vstd::prelude::*;

use crate::bytes::{u16_le, u32_le, u64_le, i64_le, zeros, le_u16, le_u32, le_u64, le_i64};

verus! {

// ---------------------------------------------------------------------
// Fixed-size identifier types: these are their own model.
// ---------------------------------------------------------------------

/// Process-unique identifier of an event source.
#[derive(Copy, Clone, Debug, PartialEq, Eq, Structural, Hash, PartialOrd, Ord)]
pub struct SourceId {
    pub source: u64,
}

/// A source identified across sessions.
#[derive(Copy, Clone, Debug, PartialEq, Eq, Structural, Hash, PartialOrd, Ord)]
pub struct GlobalSourceId {
    pub session: u64,
    pub source: SourceId,
}

/// Distinguishes events of one source that share a timestamp.
#[derive(Copy, Clone, Debug, PartialEq, Eq, Structural, Hash, PartialOrd, Ord)]
pub struct EventSeq {
    pub seq_no: u16,
}

/// An event is identified by its source, timestamp and sequence number.
#[derive(Copy, Clone, Debug, PartialEq, Eq, Structural, Hash, PartialOrd, Ord)]
pub struct EventId {
    pub source: SourceId,
    pub timestamp_nanos: u64,
    pub seq_no: EventSeq,
}

/// Addresses one op within one emitted event.
#[derive(Copy, Clone, Debug, PartialEq, Eq, Structural, Hash, PartialOrd, Ord)]
pub struct TraceCallerId {
    pub event_id: EventId,
    pub op_index: u16,
}

/// The closed set of event kinds; an unknown tag is a decode error.
#[derive(Copy, Clone, Debug, PartialEq, Eq, Structural, Hash)]
pub enum EventKind {
    CreateSource,
    DeleteSource,
    Trace,
    TraceAggregate,
    TraceAggregateDelta,
}

/// Header framing every event: identifier, body length and kind.
#[derive(Copy, Clone, Debug, PartialEq, Eq, Structural)]
pub struct EventHeader {
    pub id: EventId,
    pub len: u16,
    pub kind: EventKind,
}

/// Online summary of one metric slot.
#[derive(Copy, Clone, Debug, PartialEq, Eq, Structural, Hash)]
pub struct MetricAggregate {
    pub count: u64,
    pub sum: i64,
    pub min: i64,
    pub max: i64,
}

/// A per-invocation trace operation as carried on the wire.
#[derive(Copy, Clone, Debug, PartialEq, Eq, Structural, Hash)]
pub enum TraceOp {
    CreateSource { source: SourceId },
    DeleteSource { source: SourceId },
    Call { source: SourceId },
    PushScope,
    PopScope,
    BranchStart,
    BranchEnd,
    Label,
    Tag { tag: u64 },
    Metric { value: i64 },
    ChannelSend { channel: SourceId },
    ChannelReceive { channel: SourceId, sender: TraceCallerId },
    ChannelTransfer { from: SourceId, to: SourceId },
    GlobalChannelSend { channel: GlobalSourceId },
    GlobalChannelReceive { channel: GlobalSourceId },
    GlobalChannelTransfer { from: GlobalSourceId, to: GlobalSourceId },
}

// ---------------------------------------------------------------------
// Schema types with variable-length payloads, and their ghost models.
// ---------------------------------------------------------------------

/// Handshake sent once per sink connection.
#[derive(Clone, Debug, PartialEq, Eq)]
pub struct SinkHandshake {
    pub app_name: Vec<u8>,
    pub session_id_hi: u64,
    pub session_id_lo: u64,
}

/// Ghost model of [`SinkHandshake`].
pub struct SinkHandshakeView {
    pub app_name: Seq<u8>,
    pub session_id_hi: u64,
    pub session_id_lo: u64,
}

impl View for SinkHandshake {
    type V = SinkHandshakeView;

    open spec fn view(&self) -> SinkHandshakeView {
        SinkHandshakeView {
            app_name: self.app_name@,
            session_id_hi: self.session_id_hi,
            session_id_lo: self.session_id_lo,
        }
    }
}

/// Body of a `CreateSource` event.
#[derive(Clone, Debug, PartialEq, Eq)]
pub struct CreateSource {
    pub name: Vec<u8>,
    pub parent: Option<SourceId>,
    pub is_recurring: bool,
}

/// Ghost model of [`CreateSource`].
pub struct CreateSourceView {
    pub name: Seq<u8>,
    pub parent: Option<SourceId>,
    pub is_recurring: bool,
}

impl View for CreateSource {
    type V = CreateSourceView;

    open spec fn view(&self) -> CreateSourceView {
        CreateSourceView {
            name: self.name@,
            parent: self.parent,
            is_recurring: self.is_recurring,
        }
    }
}

/// Body of a detailed `Trace` event: start time and raw op payload.
#[derive(Clone, Debug, PartialEq, Eq)]
pub struct Trace {
    pub start_nanos: u64,
    pub trace: Vec<u8>,
}

/// Ghost model of [`Trace`].
pub struct TraceView {
    pub start_nanos: u64,
    pub trace: Seq<u8>,
}

impl View for Trace {
    type V = TraceView;

    open spec fn view(&self) -> TraceView {
        TraceView { start_nanos: self.start_nanos, trace: self.trace@ }
    }
}

/// A trace operation stripped of per-instance data, as carried in
/// aggregate graphs on the wire.
#[derive(Clone, Debug, PartialEq, Eq)]
pub enum TraceOpAggregate {
    CreateSource,
    DeleteSource,
    Call { source: SourceId },
    PushScope,
    PopScope,
    BranchStart { branch_end: u16 },
    BranchEnd { parent_branch_end: u16 },
    Label { label: Vec<u8> },
    Tag,
    Metric { name: Vec<u8>, index: u16 },
    ChannelSend { channel: SourceId },
    ChannelReceive { channel: SourceId },
    ChannelTransfer { from: SourceId, to: SourceId },
    GlobalChannelSend { channel: GlobalSourceId },
    GlobalChannelReceive { channel: GlobalSourceId },
    GlobalChannelTransfer { from: GlobalSourceId, to: GlobalSourceId },
}

/// Ghost model of [`TraceOpAggregate`].
pub enum TraceOpAggregateView {
    CreateSource,
    DeleteSource,
    Call { source: SourceId },
    PushScope,
    PopScope,
    BranchStart { branch_end: u16 },
    BranchEnd { parent_branch_end: u16 },
    Label { label: Seq<u8> },
    Tag,
    Metric { name: Seq<u8>, index: u16 },
    ChannelSend { channel: SourceId },
    ChannelReceive { channel: SourceId },
    ChannelTransfer { from: SourceId, to: SourceId },
    GlobalChannelSend { channel: GlobalSourceId },
    GlobalChannelReceive { channel: GlobalSourceId },
    GlobalChannelTransfer { from: GlobalSourceId, to: GlobalSourceId },
}

impl View for TraceOpAggregate {
    type V = TraceOpAggregateView;

    open spec fn view(&self) -> TraceOpAggregateView {
        match self {
            TraceOpAggregate::CreateSource => TraceOpAggregateView::CreateSource,
            TraceOpAggregate::DeleteSource => TraceOpAggregateView::DeleteSource,
            TraceOpAggregate::Call { source } => TraceOpAggregateView::Call { source: *source },
            TraceOpAggregate::PushScope => TraceOpAggregateView::PushScope,
            TraceOpAggregate::PopScope => TraceOpAggregateView::PopScope,
            TraceOpAggregate::BranchStart { branch_end } => TraceOpAggregateView::BranchStart {
                branch_end: *branch_end,
            },
            TraceOpAggregate::BranchEnd { parent_branch_end } => TraceOpAggregateView::BranchEnd {
                parent_branch_end: *parent_branch_end,
            },
            TraceOpAggregate::Label { label } => TraceOpAggregateView::Label { label: label@ },
            TraceOpAggregate::Tag => TraceOpAggregateView::Tag,
            TraceOpAggregate::Metric { name, index } => TraceOpAggregateView::Metric {
                name: name@,
                index: *index,
            },
            TraceOpAggregate::ChannelSend { channel } => TraceOpAggregateView::ChannelSend {
                channel: *channel,
            },
            TraceOpAggregate::ChannelReceive { channel } => TraceOpAggregateView::ChannelReceive {
                channel: *channel,
            },
            TraceOpAggregate::ChannelTransfer { from, to } => TraceOpAggregateView::ChannelTransfer {
                from: *from,
                to: *to,
            },
            TraceOpAggregate::GlobalChannelSend { channel } => TraceOpAggregateView::GlobalChannelSend {
                channel: *channel,
            },
            TraceOpAggregate::GlobalChannelReceive { channel } => TraceOpAggregateView::GlobalChannelReceive {
                channel: *channel,
            },
            TraceOpAggregate::GlobalChannelTransfer { from, to } => TraceOpAggregateView::GlobalChannelTransfer {
                from: *from,
                to: *to,
            },
        }
    }
}

/// One node of an aggregate graph on the wire; `branch_next` and `next`
/// reference positions within the same node sequence.
#[derive(Clone, Debug, PartialEq, Eq)]
pub struct TraceAggregateNode {
    pub op: TraceOpAggregate,
    pub branch_next: Option<u16>,
    pub next: Option<u16>,
}

/// Ghost model of [`TraceAggregateNode`].
pub struct TraceAggregateNodeView {
    pub op: TraceOpAggregateView,
    pub branch_next: Option<u16>,
    pub next: Option<u16>,
}

impl View for TraceAggregateNode {
    type V = TraceAggregateNodeView;

    open spec fn view(&self) -> TraceAggregateNodeView {
        TraceAggregateNodeView { op: self.op@, branch_next: self.branch_next, next: self.next }
    }
}

/// Body of a `TraceAggregate` event: the full graph and its metrics.
#[derive(Clone, Debug, PartialEq, Eq)]
pub struct TraceAggregate {
    pub start_nanos: u64,
    pub nodes: Vec<TraceAggregateNode>,
    pub counters: Vec<u32>,
    pub metrics: Vec<MetricAggregate>,
}

/// Ghost model of [`TraceAggregate`].
pub struct TraceAggregateView {
    pub start_nanos: u64,
    pub nodes: Seq<TraceAggregateNodeView>,
    pub counters: Seq<u32>,
    pub metrics: Seq<MetricAggregate>,
}

impl View for TraceAggregate {
    type V = TraceAggregateView;

    open spec fn view(&self) -> TraceAggregateView {
        TraceAggregateView {
            start_nanos: self.start_nanos,
            nodes: Seq::new(self.nodes@.len(), |i: int| self.nodes@[i]@),
            counters: self.counters@,
            metrics: self.metrics@,
        }
    }
}

/// Body of a `TraceAggregateDelta` event: counters and metrics only.
#[derive(Clone, Debug, PartialEq, Eq)]
pub struct TraceAggregateDelta {
    pub start_nanos: u64,
    pub end_nanos: u64,
    pub counters: Vec<u32>,
    pub metrics: Vec<MetricAggregate>,
}

/// Ghost model of [`TraceAggregateDelta`].
pub struct TraceAggregateDeltaView {
    pub start_nanos: u64,
    pub end_nanos: u64,
    pub counters: Seq<u32>,
    pub metrics: Seq<MetricAggregate>,
}

impl View for TraceAggregateDelta {
    type V = TraceAggregateDeltaView;

    open spec fn view(&self) -> TraceAggregateDeltaView {
        TraceAggregateDeltaView {
            start_nanos: self.start_nanos,
            end_nanos: self.end_nanos,
            counters: self.counters@,
            metrics: self.metrics@,
        }
    }
}

// ---------------------------------------------------------------------
// Base lengths.
// ---------------------------------------------------------------------

pub const SOURCE_ID_BASE_LEN: usize = 8;

pub const GLOBAL_SOURCE_ID_BASE_LEN: usize = 16;

pub const EVENT_SEQ_BASE_LEN: usize = 2;

pub const EVENT_ID_BASE_LEN: usize = 18;

pub const TRACE_CALLER_ID_BASE_LEN: usize = 20;

pub const EVENT_KIND_BASE_LEN: usize = 1;

pub const EVENT_HEADER_BASE_LEN: usize = 21;

pub const METRIC_AGGREGATE_BASE_LEN: usize = 32;

pub const TRACE_OP_BASE_LEN: usize = 33;

pub const TRACE_OP_AGGREGATE_BASE_LEN: usize = 33;

pub const TRACE_AGGREGATE_NODE_BASE_LEN: usize = 39;

pub const SINK_HANDSHAKE_BASE_LEN: usize = 24;

pub const CREATE_SOURCE_BASE_LEN: usize = 18;

pub const TRACE_BASE_LEN: usize = 16;

pub const TRACE_AGGREGATE_BASE_LEN: usize = 32;

pub const TRACE_AGGREGATE_DELTA_BASE_LEN: usize = 32;

// ---------------------------------------------------------------------
// Spec encoders.
// ---------------------------------------------------------------------

/// Eight-byte descriptor of a variable-length payload: its length, then
/// the absolute offset of its bytes, both as `u32` little-endian.
pub open spec fn desc(len: int, pos: int) -> Seq<u8> {
    u32_le(len as u32) + u32_le(pos as u32)
}

pub open spec fn enc_source_id(v: SourceId) -> Seq<u8> {
    u64_le(v.source)
}

pub open spec fn enc_global_source_id(v: GlobalSourceId) -> Seq<u8> {
    u64_le(v.session) + enc_source_id(v.source)
}

pub open spec fn enc_event_seq(v: EventSeq) -> Seq<u8> {
    u16_le(v.seq_no)
}

pub open spec fn enc_event_id(v: EventId) -> Seq<u8> {
    enc_source_id(v.source) + u64_le(v.timestamp_nanos) + enc_event_seq(v.seq_no)
}

pub open spec fn enc_trace_caller_id(v: TraceCallerId) -> Seq<u8> {
    enc_event_id(v.event_id) + u16_le(v.op_index)
}

/// Tag byte of an event kind.
pub open spec fn event_kind_tag(k: EventKind) -> u8 {
    match k {
        EventKind::CreateSource => 0,
        EventKind::DeleteSource => 1,
        EventKind::Trace => 2,
        EventKind::TraceAggregate => 3,
        EventKind::TraceAggregateDelta => 4,
    }
}

pub open spec fn enc_event_kind(k: EventKind) -> Seq<u8> {
    seq![event_kind_tag(k)]
}

pub open spec fn enc_event_header(h: EventHeader) -> Seq<u8> {
    enc_event_id(h.id) + u16_le(h.len) + enc_event_kind(h.kind)
}

pub open spec fn enc_metric_aggregate(m: MetricAggregate) -> Seq<u8> {
    u64_le(m.count) + i64_le(m.sum) + i64_le(m.min) + i64_le(m.max)
}

pub open spec fn enc_opt_source_id(v: Option<SourceId>) -> Seq<u8> {
    match v {
        Some(p) => seq![1u8] + enc_source_id(p),
        None => seq![0u8] + zeros(8),
    }
}

pub open spec fn enc_opt_u16(v: Option<u16>) -> Seq<u8> {
    match v {
        Some(p) => seq![1u8] + u16_le(p),
        None => seq![0u8] + zeros(2),
    }
}

/// A wire trace op is fully inline: one tag byte, the variant's fields,
/// then zero padding up to the union base length.
pub open spec fn enc_trace_op(op: TraceOp) -> Seq<u8> {
    match op {
        TraceOp::CreateSource { source } => seq![0u8] + enc_source_id(source) + zeros(24),
        TraceOp::DeleteSource { source } => seq![1u8] + enc_source_id(source) + zeros(24),
        TraceOp::Call { source } => seq![2u8] + enc_source_id(source) + zeros(24),
        TraceOp::PushScope => seq![3u8] + zeros(32),
        TraceOp::PopScope => seq![4u8] + zeros(32),
        TraceOp::BranchStart => seq![5u8] + zeros(32),
        TraceOp::BranchEnd => seq![6u8] + zeros(32),
        TraceOp::Label => seq![7u8] + zeros(32),
        TraceOp::Tag { tag } => seq![8u8] + u64_le(tag) + zeros(24),
        TraceOp::Metric { value } => seq![9u8] + i64_le(value) + zeros(24),
        TraceOp::ChannelSend { channel } => seq![10u8] + enc_source_id(channel) + zeros(24),
        TraceOp::ChannelReceive { channel, sender } => seq![11u8] + enc_source_id(channel)
            + enc_trace_caller_id(sender) + zeros(4),
        TraceOp::ChannelTransfer { from, to } => seq![12u8] + enc_source_id(from) + enc_source_id(
            to,
        ) + zeros(16),
        TraceOp::GlobalChannelSend { channel } => seq![13u8] + enc_global_source_id(channel)
            + zeros(16),
        TraceOp::GlobalChannelReceive { channel } => seq![14u8] + enc_global_source_id(channel)
            + zeros(16),
        TraceOp::GlobalChannelTransfer { from, to } => seq![15u8] + enc_global_source_id(from)
            + enc_global_source_id(to),
    }
}

/// Number of scratch bytes an aggregate op contributes (its label or
/// metric name).
pub open spec fn op_agg_scratch_len(op: TraceOpAggregateView) -> int {
    match op {
        TraceOpAggregateView::Label { label } => label.len() as int,
        TraceOpAggregateView::Metric { name, .. } => name.len() as int,
        _ => 0,
    }
}

/// Scratch bytes of an aggregate op.
pub open spec fn op_agg_scratch(op: TraceOpAggregateView) -> Seq<u8> {
    match op {
        TraceOpAggregateView::Label { label } => label,
        TraceOpAggregateView::Metric { name, .. } => name,
        _ => Seq::empty(),
    }
}

/// Inline base of an aggregate op whose scratch bytes start at absolute
/// offset `pos`.
pub open spec fn enc_op_agg_base(op: TraceOpAggregateView, pos: int) -> Seq<u8> {
    match op {
        TraceOpAggregateView::CreateSource => seq![0u8] + zeros(32),
        TraceOpAggregateView::DeleteSource => seq![1u8] + zeros(32),
        TraceOpAggregateView::Call { source } => seq![2u8] + enc_source_id(source) + zeros(24),
        TraceOpAggregateView::PushScope => seq![3u8] + zeros(32),
        TraceOpAggregateView::PopScope => seq![4u8] + zeros(32),
        TraceOpAggregateView::BranchStart { branch_end } => seq![5u8] + u16_le(branch_end) + zeros(
            30,
        ),
        TraceOpAggregateView::BranchEnd { parent_branch_end } => seq![6u8] + u16_le(
            parent_branch_end,
        ) + zeros(30),
        TraceOpAggregateView::Label { label } => seq![7u8] + desc(label.len() as int, pos) + zeros(
            24,
        ),
        TraceOpAggregateView::Tag => seq![8u8] + zeros(32),
        TraceOpAggregateView::Metric { name, index } => seq![9u8] + desc(name.len() as int, pos)
            + u16_le(index) + zeros(22),
        TraceOpAggregateView::ChannelSend { channel } => seq![10u8] + enc_source_id(channel)
            + zeros(24),
        TraceOpAggregateView::ChannelReceive { channel } => seq![11u8] + enc_source_id(channel)
            + zeros(24),
        TraceOpAggregateView::ChannelTransfer { from, to } => seq![12u8] + enc_source_id(from)
            + enc_source_id(to) + zeros(16),
        TraceOpAggregateView::GlobalChannelSend { channel } => seq![13u8] + enc_global_source_id(
            channel,
        ) + zeros(16),
        TraceOpAggregateView::GlobalChannelReceive { channel } => seq![14u8]
            + enc_global_source_id(channel) + zeros(16),
        TraceOpAggregateView::GlobalChannelTransfer { from, to } => seq![15u8]
            + enc_global_source_id(from) + enc_global_source_id(to),
    }
}

/// A lone aggregate op encoded as a top-level value: base, then scratch.
pub open spec fn enc_op_agg_value(op: TraceOpAggregateView) -> Seq<u8> {
    enc_op_agg_base(op, TRACE_OP_AGGREGATE_BASE_LEN as int) + op_agg_scratch(op)
}

/// Inline base of a graph node whose op scratch starts at `pos`.
pub open spec fn enc_node_base(n: TraceAggregateNodeView, pos: int) -> Seq<u8> {
    enc_op_agg_base(n.op, pos) + enc_opt_u16(n.branch_next) + enc_opt_u16(n.next)
}

pub open spec fn node_scratch_len(n: TraceAggregateNodeView) -> int {
    op_agg_scratch_len(n.op)
}

/// Total scratch bytes of a node list.
pub open spec fn nodes_total_scratch(nodes: Seq<TraceAggregateNodeView>) -> int
    decreases nodes.len(),
{
    if nodes.len() == 0 {
        0
    } else {
        node_scratch_len(nodes[0]) + nodes_total_scratch(nodes.drop_first())
    }
}

/// The consecutive bases of the nodes, where `pos` is the absolute
/// offset at which the first node's scratch bytes will live.
pub open spec fn enc_nodes_bases(nodes: Seq<TraceAggregateNodeView>, pos: int) -> Seq<u8>
    decreases nodes.len(),
{
    if nodes.len() == 0 {
        Seq::empty()
    } else {
        enc_node_base(nodes[0], pos) + enc_nodes_bases(
            nodes.drop_first(),
            pos + node_scratch_len(nodes[0]),
        )
    }
}

/// The concatenated scratch bytes of the nodes, in node order.
pub open spec fn enc_nodes_scratches(nodes: Seq<TraceAggregateNodeView>) -> Seq<u8>
    decreases nodes.len(),
{
    if nodes.len() == 0 {
        Seq::empty()
    } else {
        op_agg_scratch(nodes[0].op) + enc_nodes_scratches(nodes.drop_first())
    }
}

/// The scratch block of a node list that itself begins at absolute
/// offset `pos`: first all node bases, then all node scratches.
pub open spec fn enc_nodes_block(nodes: Seq<TraceAggregateNodeView>, pos: int) -> Seq<u8> {
    enc_nodes_bases(nodes, pos + TRACE_AGGREGATE_NODE_BASE_LEN * nodes.len()) + enc_nodes_scratches(
        nodes,
    )
}

/// Flat item block of a `u32` list.
pub open spec fn enc_u32_items(items: Seq<u32>) -> Seq<u8>
    decreases items.len(),
{
    if items.len() == 0 {
        Seq::empty()
    } else {
        u32_le(items[0]) + enc_u32_items(items.drop_first())
    }
}

/// Flat item block of a metric list.
pub open spec fn enc_metric_items(items: Seq<MetricAggregate>) -> Seq<u8>
    decreases items.len(),
{
    if items.len() == 0 {
        Seq::empty()
    } else {
        enc_metric_aggregate(items[0]) + enc_metric_items(items.drop_first())
    }
}

/// Full top-level encoding of a sink handshake.
pub open spec fn enc_sink_handshake(v: SinkHandshakeView) -> Seq<u8> {
    desc(v.app_name.len() as int, SINK_HANDSHAKE_BASE_LEN as int) + u64_le(v.session_id_hi)
        + u64_le(v.session_id_lo) + v.app_name
}

/// Full top-level encoding of a `CreateSource` body.
pub open spec fn enc_create_source(v: CreateSourceView) -> Seq<u8> {
    desc(v.name.len() as int, CREATE_SOURCE_BASE_LEN as int) + enc_opt_source_id(v.parent) + seq![
        (if v.is_recurring {
            1u8
        } else {
            0u8
        }),
    ] + v.name
}

/// Full top-level encoding of a `Trace` body.
pub open spec fn enc_trace_body(v: TraceView) -> Seq<u8> {
    u64_le(v.start_nanos) + desc(v.trace.len() as int, TRACE_BASE_LEN as int) + v.trace
}

/// Full top-level encoding of a `TraceAggregate` body.
pub open spec fn enc_trace_aggregate(v: TraceAggregateView) -> Seq<u8> {
    let base = TRACE_AGGREGATE_BASE_LEN as int;
    let nodes_block_len = TRACE_AGGREGATE_NODE_BASE_LEN * v.nodes.len() + nodes_total_scratch(
        v.nodes,
    );
    let counters_pos = base + nodes_block_len;
    let metrics_pos = counters_pos + 4 * v.counters.len();
    u64_le(v.start_nanos) + desc(v.nodes.len() as int, base) + desc(
        v.counters.len() as int,
        counters_pos,
    ) + desc(v.metrics.len() as int, metrics_pos) + enc_nodes_block(v.nodes, base) + enc_u32_items(
        v.counters,
    ) + enc_metric_items(v.metrics)
}

/// Full top-level encoding of a `TraceAggregateDelta` body.
pub open spec fn enc_trace_aggregate_delta(v: TraceAggregateDeltaView) -> Seq<u8> {
    let base = TRACE_AGGREGATE_DELTA_BASE_LEN as int;
    let metrics_pos = base + 4 * v.counters.len();
    u64_le(v.start_nanos) + u64_le(v.end_nanos) + desc(v.counters.len() as int, base) + desc(
        v.metrics.len() as int,
        metrics_pos,
    ) + enc_u32_items(v.counters) + enc_metric_items(v.metrics)
}

/// Total encoded length of a `TraceAggregate` body.
pub open spec fn trace_aggregate_encoded_len(v: TraceAggregateView) -> int {
    TRACE_AGGREGATE_BASE_LEN + TRACE_AGGREGATE_NODE_BASE_LEN * v.nodes.len()
        + nodes_total_scratch(v.nodes) + 4 * v.counters.len() + METRIC_AGGREGATE_BASE_LEN
        * v.metrics.len()
}

// ---------------------------------------------------------------------
// Spec decoders.
//
// Each takes the encoded region and an offset and yields the denoted
// model value, or `None` for a truncated buffer, a tag at or beyond the
// variant count, a presence byte above one, or a descriptor reaching
// outside the region.
// ---------------------------------------------------------------------

pub open spec fn dec_u16(s: Seq<u8>, off: int) -> Option<u16> {
    if 0 <= off && off + 2 <= s.len() {
        Some(le_u16(s, off))
    } else {
        None
    }
}

pub open spec fn dec_u32(s: Seq<u8>, off: int) -> Option<u32> {
    if 0 <= off && off + 4 <= s.len() {
        Some(le_u32(s, off))
    } else {
        None
    }
}

pub open spec fn dec_u64(s: Seq<u8>, off: int) -> Option<u64> {
    if 0 <= off && off + 8 <= s.len() {
        Some(le_u64(s, off))
    } else {
        None
    }
}

pub open spec fn dec_i64(s: Seq<u8>, off: int) -> Option<i64> {
    if 0 <= off && off + 8 <= s.len() {
        Some(le_i64(s, off))
    } else {
        None
    }
}

pub open spec fn dec_bool(s: Seq<u8>, off: int) -> Option<bool> {
    if 0 <= off && off + 1 <= s.len() {
        if s[off] == 0 {
            Some(false)
        } else if s[off] == 1 {
            Some(true)
        } else {
            None
        }
    } else {
        None
    }
}

/// Resolve a descriptor at `off`: its length, then the absolute offset
/// of the payload bytes within the region.
pub open spec fn dec_bytes(s: Seq<u8>, off: int) -> Option<Seq<u8>> {
    if 0 <= off && off + 8 <= s.len() {
        let len = le_u32(s, off) as int;
        let pos = le_u32(s, off + 4) as int;
        if pos + len <= s.len() {
            Some(s.subrange(pos, pos + len))
        } else {
            None
        }
    } else {
        None
    }
}

pub open spec fn dec_source_id(s: Seq<u8>, off: int) -> Option<SourceId> {
    if 0 <= off && off + SOURCE_ID_BASE_LEN <= s.len() {
        Some(SourceId { source: le_u64(s, off) })
    } else {
        None
    }
}

pub open spec fn dec_global_source_id(s: Seq<u8>, off: int) -> Option<GlobalSourceId> {
    if 0 <= off && off + GLOBAL_SOURCE_ID_BASE_LEN <= s.len() {
        Some(
            GlobalSourceId {
                session: le_u64(s, off),
                source: SourceId { source: le_u64(s, off + 8) },
            },
        )
    } else {
        None
    }
}

pub open spec fn dec_event_seq(s: Seq<u8>, off: int) -> Option<EventSeq> {
    if 0 <= off && off + EVENT_SEQ_BASE_LEN <= s.len() {
        Some(EventSeq { seq_no: le_u16(s, off) })
    } else {
        None
    }
}

pub open spec fn dec_event_id(s: Seq<u8>, off: int) -> Option<EventId> {
    if 0 <= off && off + EVENT_ID_BASE_LEN <= s.len() {
        Some(
            EventId {
                source: SourceId { source: le_u64(s, off) },
                timestamp_nanos: le_u64(s, off + 8),
                seq_no: EventSeq { seq_no: le_u16(s, off + 16) },
            },
        )
    } else {
        None
    }
}

pub open spec fn dec_trace_caller_id(s: Seq<u8>, off: int) -> Option<TraceCallerId> {
    if 0 <= off && off + TRACE_CALLER_ID_BASE_LEN <= s.len() {
        match dec_event_id(s, off) {
            Some(id) => Some(TraceCallerId { event_id: id, op_index: le_u16(s, off + 18) }),
            None => None,
        }
    } else {
        None
    }
}

pub open spec fn dec_event_kind(s: Seq<u8>, off: int) -> Option<EventKind> {
    if 0 <= off && off + EVENT_KIND_BASE_LEN <= s.len() {
        if s[off] == 0 {
            Some(EventKind::CreateSource)
        } else if s[off] == 1 {
            Some(EventKind::DeleteSource)
        } else if s[off] == 2 {
            Some(EventKind::Trace)
        } else if s[off] == 3 {
            Some(EventKind::TraceAggregate)
        } else if s[off] == 4 {
            Some(EventKind::TraceAggregateDelta)
        } else {
            None
        }
    } else {
        None
    }
}

pub open spec fn dec_event_header(s: Seq<u8>, off: int) -> Option<EventHeader> {
    if 0 <= off && off + EVENT_HEADER_BASE_LEN <= s.len() {
        match (dec_event_id(s, off), dec_event_kind(s, off + 20)) {
            (Some(id), Some(kind)) => Some(EventHeader { id, len: le_u16(s, off + 18), kind }),
            _ => None,
        }
    } else {
        None
    }
}

pub open spec fn dec_metric_aggregate(s: Seq<u8>, off: int) -> Option<MetricAggregate> {
    if 0 <= off && off + METRIC_AGGREGATE_BASE_LEN <= s.len() {
        Some(
            MetricAggregate {
                count: le_u64(s, off),
                sum: le_i64(s, off + 8),
                min: le_i64(s, off + 16),
                max: le_i64(s, off + 24),
            },
        )
    } else {
        None
    }
}

pub open spec fn dec_opt_source_id(s: Seq<u8>, off: int) -> Option<Option<SourceId>> {
    if 0 <= off && off + 9 <= s.len() {
        if s[off] == 0 {
            Some(None)
        } else if s[off] == 1 {
            Some(Some(SourceId { source: le_u64(s, off + 1) }))
        } else {
            None
        }
    } else {
        None
    }
}

pub open spec fn dec_opt_u16(s: Seq<u8>, off: int) -> Option<Option<u16>> {
    if 0 <= off && off + 3 <= s.len() {
        if s[off] == 0 {
            Some(None)
        } else if s[off] == 1 {
            Some(Some(le_u16(s, off + 1)))
        } else {
            None
        }
    } else {
        None
    }
}

pub open spec fn dec_trace_op(s: Seq<u8>, off: int) -> Option<TraceOp> {
    if 0 <= off && off + TRACE_OP_BASE_LEN <= s.len() {
        let tag = s[off];
        if tag == 0 {
            Some(TraceOp::CreateSource { source: SourceId { source: le_u64(s, off + 1) } })
        } else if tag == 1 {
            Some(TraceOp::DeleteSource { source: SourceId { source: le_u64(s, off + 1) } })
        } else if tag == 2 {
            Some(TraceOp::Call { source: SourceId { source: le_u64(s, off + 1) } })
        } else if tag == 3 {
            Some(TraceOp::PushScope)
        } else if tag == 4 {
            Some(TraceOp::PopScope)
        } else if tag == 5 {
            Some(TraceOp::BranchStart)
        } else if tag == 6 {
            Some(TraceOp::BranchEnd)
        } else if tag == 7 {
            Some(TraceOp::Label)
        } else if tag == 8 {
            Some(TraceOp::Tag { tag: le_u64(s, off + 1) })
        } else if tag == 9 {
            Some(TraceOp::Metric { value: le_i64(s, off + 1) })
        } else if tag == 10 {
            Some(TraceOp::ChannelSend { channel: SourceId { source: le_u64(s, off + 1) } })
        } else if tag == 11 {
            match dec_trace_caller_id(s, off + 9) {
                Some(sender) => Some(
                    TraceOp::ChannelReceive {
                        channel: SourceId { source: le_u64(s, off + 1) },
                        sender,
                    },
                ),
                None => None,
            }
        } else if tag == 12 {
            Some(
                TraceOp::ChannelTransfer {
                    from: SourceId { source: le_u64(s, off + 1) },
                    to: SourceId { source: le_u64(s, off + 9) },
                },
            )
        } else if tag == 13 {
            match dec_global_source_id(s, off + 1) {
                Some(channel) => Some(TraceOp::GlobalChannelSend { channel }),
                None => None,
            }
        } else if tag == 14 {
            match dec_global_source_id(s, off + 1) {
                Some(channel) => Some(TraceOp::GlobalChannelReceive { channel }),
                None => None,
            }
        } else if tag == 15 {
            match (dec_global_source_id(s, off + 1), dec_global_source_id(s, off + 17)) {
                (Some(from), Some(to)) => Some(TraceOp::GlobalChannelTransfer { from, to }),
                _ => None,
            }
        } else {
            None
        }
    } else {
        None
    }
}

pub open spec fn dec_op_agg(s: Seq<u8>, off: int) -> Option<TraceOpAggregateView> {
    if 0 <= off && off + TRACE_OP_AGGREGATE_BASE_LEN <= s.len() {
        let tag = s[off];
        if tag == 0 {
            Some(TraceOpAggregateView::CreateSource)
        } else if tag == 1 {
            Some(TraceOpAggregateView::DeleteSource)
        } else if tag == 2 {
            Some(TraceOpAggregateView::Call { source: SourceId { source: le_u64(s, off + 1) } })
        } else if tag == 3 {
            Some(TraceOpAggregateView::PushScope)
        } else if tag == 4 {
            Some(TraceOpAggregateView::PopScope)
        } else if tag == 5 {
            Some(TraceOpAggregateView::BranchStart { branch_end: le_u16(s, off + 1) })
        } else if tag == 6 {
            Some(TraceOpAggregateView::BranchEnd { parent_branch_end: le_u16(s, off + 1) })
        } else if tag == 7 {
            match dec_bytes(s, off + 1) {
                Some(label) => Some(TraceOpAggregateView::Label { label }),
                None => None,
            }
        } else if tag == 8 {
            Some(TraceOpAggregateView::Tag)
        } else if tag == 9 {
            match dec_bytes(s, off + 1) {
                Some(name) => Some(
                    TraceOpAggregateView::Metric { name, index: le_u16(s, off + 9) },
                ),
                None => None,
            }
        } else if tag == 10 {
            Some(
                TraceOpAggregateView::ChannelSend {
                    channel: SourceId { source: le_u64(s, off + 1) },
                },
            )
        } else if tag == 11 {
            Some(
                TraceOpAggregateView::ChannelReceive {
                    channel: SourceId { source: le_u64(s, off + 1) },
                },
            )
        } else if tag == 12 {
            Some(
                TraceOpAggregateView::ChannelTransfer {
                    from: SourceId { source: le_u64(s, off + 1) },
                    to: SourceId { source: le_u64(s, off + 9) },
                },
            )
        } else if tag == 13 {
            match dec_global_source_id(s, off + 1) {
                Some(channel) => Some(TraceOpAggregateView::GlobalChannelSend { channel }),
                None => None,
            }
        } else if tag == 14 {
            match dec_global_source_id(s, off + 1) {
                Some(channel) => Some(TraceOpAggregateView::GlobalChannelReceive { channel }),
                None => None,
            }
        } else if tag == 15 {
            match (dec_global_source_id(s, off + 1), dec_global_source_id(s, off + 17)) {
                (Some(from), Some(to)) => Some(
                    TraceOpAggregateView::GlobalChannelTransfer { from, to },
                ),
                _ => None,
            }
        } else {
            None
        }
    } else {
        None
    }
}

pub open spec fn dec_node(s: Seq<u8>, off: int) -> Option<TraceAggregateNodeView> {
    if 0 <= off && off + TRACE_AGGREGATE_NODE_BASE_LEN <= s.len() {
        match (dec_op_agg(s, off), dec_opt_u16(s, off + 33), dec_opt_u16(s, off + 36)) {
            (Some(op), Some(branch_next), Some(next)) => Some(
                TraceAggregateNodeView { op, branch_next, next },
            ),
            _ => None,
        }
    } else {
        None
    }
}

/// Decode `n` node bases laid out consecutively from `pos`.
pub open spec fn dec_nodes(s: Seq<u8>, pos: int, n: nat) -> Option<Seq<TraceAggregateNodeView>>
    decreases n,
{
    if n == 0 {
        Some(Seq::empty())
    } else {
        match (dec_node(s, pos), dec_nodes(s, pos + TRACE_AGGREGATE_NODE_BASE_LEN, (n - 1) as nat)) {
            (Some(head), Some(rest)) => Some(seq![head] + rest),
            _ => None,
        }
    }
}

/// Decode `n` consecutive `u32` items from `pos`.
pub open spec fn dec_u32_items(s: Seq<u8>, pos: int, n: nat) -> Option<Seq<u32>>
    decreases n,
{
    if n == 0 {
        Some(Seq::empty())
    } else {
        match (dec_u32(s, pos), dec_u32_items(s, pos + 4, (n - 1) as nat)) {
            (Some(head), Some(rest)) => Some(seq![head] + rest),
            _ => None,
        }
    }
}

/// Decode `n` consecutive metric items from `pos`.
pub open spec fn dec_metric_items(s: Seq<u8>, pos: int, n: nat) -> Option<Seq<MetricAggregate>>
    decreases n,
{
    if n == 0 {
        Some(Seq::empty())
    } else {
        match (
            dec_metric_aggregate(s, pos),
            dec_metric_items(s, pos + METRIC_AGGREGATE_BASE_LEN, (n - 1) as nat),
        ) {
            (Some(head), Some(rest)) => Some(seq![head] + rest),
            _ => None,
        }
    }
}

pub open spec fn dec_sink_handshake(s: Seq<u8>) -> Option<SinkHandshakeView> {
    if SINK_HANDSHAKE_BASE_LEN <= s.len() {
        match dec_bytes(s, 0) {
            Some(app_name) => Some(
                SinkHandshakeView {
                    app_name,
                    session_id_hi: le_u64(s, 8),
                    session_id_lo: le_u64(s, 16),
                },
            ),
            None => None,
        }
    } else {
        None
    }
}

pub open spec fn dec_create_source(s: Seq<u8>) -> Option<CreateSourceView> {
    if CREATE_SOURCE_BASE_LEN <= s.len() {
        match (dec_bytes(s, 0), dec_opt_source_id(s, 8), dec_bool(s, 17)) {
            (Some(name), Some(parent), Some(is_recurring)) => Some(
                CreateSourceView { name, parent, is_recurring },
            ),
            _ => None,
        }
    } else {
        None
    }
}

pub open spec fn dec_trace_body(s: Seq<u8>) -> Option<TraceView> {
    if TRACE_BASE_LEN <= s.len() {
        match dec_bytes(s, 8) {
            Some(trace) => Some(TraceView { start_nanos: le_u64(s, 0), trace }),
            None => None,
        }
    } else {
        None
    }
}

pub open spec fn dec_trace_aggregate(s: Seq<u8>) -> Option<TraceAggregateView> {
    if TRACE_AGGREGATE_BASE_LEN <= s.len() {
        let nodes_n = le_u32(s, 8) as nat;
        let nodes_pos = le_u32(s, 12) as int;
        let counters_n = le_u32(s, 16) as nat;
        let counters_pos = le_u32(s, 20) as int;
        let metrics_n = le_u32(s, 24) as nat;
        let metrics_pos = le_u32(s, 28) as int;
        match (
            dec_nodes(s, nodes_pos, nodes_n),
            dec_u32_items(s, counters_pos, counters_n),
            dec_metric_items(s, metrics_pos, metrics_n),
        ) {
            (Some(nodes), Some(counters), Some(metrics)) => Some(
                TraceAggregateView { start_nanos: le_u64(s, 0), nodes, counters, metrics },
            ),
            _ => None,
        }
    } else {
        None
    }
}

pub open spec fn dec_trace_aggregate_delta(s: Seq<u8>) -> Option<TraceAggregateDeltaView> {
    if TRACE_AGGREGATE_DELTA_BASE_LEN <= s.len() {
        let counters_n = le_u32(s, 16) as nat;
        let counters_pos = le_u32(s, 20) as int;
        let metrics_n = le_u32(s, 24) as nat;
        let metrics_pos = le_u32(s, 28) as int;
        match (dec_u32_items(s, counters_pos, counters_n), dec_metric_items(s, metrics_pos, metrics_n)) {
            (Some(counters), Some(metrics)) => Some(
                TraceAggregateDeltaView {
                    start_nanos: le_u64(s, 0),
                    end_nanos: le_u64(s, 8),
                    counters,
                    metrics,
                },
            ),
            _ => None,
        }
    } else {
        None
    }
}

// ---------------------------------------------------------------------
// Length facts.
// ---------------------------------------------------------------------

/// A wire trace op occupies exactly its base length.
pub proof fn lemma_enc_trace_op_len(op: TraceOp)
    ensures
        enc_trace_op(op).len() == TRACE_OP_BASE_LEN,
{
}

/// An aggregate op base occupies exactly its base length.
pub proof fn lemma_enc_op_agg_base_len(op: TraceOpAggregateView, pos: int)
    ensures
        enc_op_agg_base(op, pos).len() == TRACE_OP_AGGREGATE_BASE_LEN,
{
}

/// A node base occupies exactly its base length.
pub proof fn lemma_enc_node_base_len(n: TraceAggregateNodeView, pos: int)
    ensures
        enc_node_base(n, pos).len() == TRACE_AGGREGATE_NODE_BASE_LEN,
{
    lemma_enc_op_agg_base_len(n.op, pos);
}

/// The node bases block holds one base per node.
pub proof fn lemma_enc_nodes_bases_len(nodes: Seq<TraceAggregateNodeView>, pos: int)
    ensures
        enc_nodes_bases(nodes, pos).len() == TRACE_AGGREGATE_NODE_BASE_LEN * nodes.len(),
    decreases nodes.len(),
{
    if nodes.len() == 0 {
    } else {
        lemma_enc_node_base_len(nodes[0], pos);
        lemma_enc_nodes_bases_len(nodes.drop_first(), pos + node_scratch_len(nodes[0]));
    }
}

/// The node scratches block holds exactly the nodes' total scratch.
pub proof fn lemma_enc_nodes_scratches_len(nodes: Seq<TraceAggregateNodeView>)
    ensures
        enc_nodes_scratches(nodes).len() == nodes_total_scratch(nodes),
        nodes_total_scratch(nodes) >= 0,
    decreases nodes.len(),
{
    if nodes.len() == 0 {
    } else {
        lemma_enc_nodes_scratches_len(nodes.drop_first());
    }
}

/// Length of the flat `u32` item block.
pub proof fn lemma_enc_u32_items_len(items: Seq<u32>)
    ensures
        enc_u32_items(items).len() == 4 * items.len(),
    decreases items.len(),
{
    if items.len() == 0 {
    } else {
        lemma_enc_u32_items_len(items.drop_first());
    }
}

/// Length of the flat metric item block.
pub proof fn lemma_enc_metric_items_len(items: Seq<MetricAggregate>)
    ensures
        enc_metric_items(items).len() == METRIC_AGGREGATE_BASE_LEN * items.len(),
    decreases items.len(),
{
    if items.len() == 0 {
    } else {
        lemma_enc_metric_items_len(items.drop_first());
    }
}

/// Total length of an encoded `TraceAggregate` body.
pub proof fn lemma_enc_trace_aggregate_len(v: TraceAggregateView)
    ensures
        enc_trace_aggregate(v).len() == trace_aggregate_encoded_len(v),
{
    lemma_enc_nodes_bases_len(v.nodes, TRACE_AGGREGATE_BASE_LEN + TRACE_AGGREGATE_NODE_BASE_LEN * v.nodes.len());
    lemma_enc_nodes_scratches_len(v.nodes);
    lemma_enc_u32_items_len(v.counters);
    lemma_enc_metric_items_len(v.metrics);
}


// ---------------------------------------------------------------------
// Splitting and indexing facts for the list blocks.
// ---------------------------------------------------------------------

/// Every node contributes a non-negative amount of scratch.
pub proof fn lemma_total_scratch_nonneg(nodes: Seq<TraceAggregateNodeView>)
    ensures
        nodes_total_scratch(nodes) >= 0,
    decreases nodes.len(),
{
    if nodes.len() > 0 {
        lemma_total_scratch_nonneg(nodes.drop_first());
    }
}

/// Scratch totals add over a split of the node list.
pub proof fn lemma_total_scratch_split(nodes: Seq<TraceAggregateNodeView>, i: int)
    requires
        0 <= i <= nodes.len(),
    ensures
        nodes_total_scratch(nodes) == nodes_total_scratch(nodes.take(i)) + nodes_total_scratch(
            nodes.skip(i),
        ),
    decreases i,
{
    if i == 0 {
        assert(nodes.take(0) =~= Seq::empty());
        assert(nodes.skip(0) =~= nodes);
    } else {
        let rest = nodes.drop_first();
        lemma_total_scratch_split(rest, i - 1);
        assert(nodes.take(i).drop_first() =~= rest.take(i - 1));
        assert(nodes.skip(i) =~= rest.skip(i - 1));
        assert(nodes.take(i)[0] == nodes[0]);
        assert(nodes.take(i).len() == i);
        assert(nodes_total_scratch(nodes.take(i)) == node_scratch_len(nodes[0])
            + nodes_total_scratch(rest.take(i - 1)));
    }
}

/// Extending the prefix by one node appends that node's base, placed
/// after the scratch of the nodes before it.
pub proof fn lemma_nodes_bases_snoc(nodes: Seq<TraceAggregateNodeView>, pos: int, i: int)
    requires
        0 <= i < nodes.len(),
    ensures
        enc_nodes_bases(nodes.take(i + 1), pos) == enc_nodes_bases(nodes.take(i), pos)
            + enc_node_base(nodes[i], pos + nodes_total_scratch(nodes.take(i))),
    decreases i,
{
    if i == 0 {
        assert(nodes.take(1) =~= seq![nodes[0]]);
        assert(nodes.take(0) =~= Seq::empty());
        assert(nodes.take(1).drop_first() =~= Seq::empty());
        assert(nodes.take(1)[0] == nodes[0]);
        assert(enc_nodes_bases(nodes.take(1), pos) == enc_node_base(nodes[0], pos)
            + enc_nodes_bases(Seq::empty(), pos + node_scratch_len(nodes[0])));
        assert(enc_node_base(nodes[0], pos) + Seq::<u8>::empty() =~= enc_node_base(nodes[0], pos));
    } else {
        let rest = nodes.drop_first();
        lemma_nodes_bases_snoc(rest, pos + node_scratch_len(nodes[0]), i - 1);
        assert(nodes.take(i + 1).drop_first() =~= rest.take(i));
        assert(nodes.take(i).drop_first() =~= rest.take(i - 1));
        assert(nodes.take(i + 1)[0] == nodes[0]);
        assert(nodes.take(i)[0] == nodes[0]);
        assert(rest.take(i - 1) =~= nodes.take(i).drop_first());
        assert(rest[i - 1] == nodes[i]);
        assert(nodes_total_scratch(nodes.take(i)) == node_scratch_len(nodes[0])
            + nodes_total_scratch(rest.take(i - 1)));
        assert(enc_nodes_bases(nodes.take(i + 1), pos) == enc_node_base(nodes[0], pos)
            + enc_nodes_bases(rest.take(i), pos + node_scratch_len(nodes[0])));
        assert(enc_nodes_bases(nodes.take(i), pos) == enc_node_base(nodes[0], pos)
            + enc_nodes_bases(rest.take(i - 1), pos + node_scratch_len(nodes[0])));
    }
}

/// Extending the prefix by one node appends that node's scratch bytes.
pub proof fn lemma_nodes_scratches_snoc(nodes: Seq<TraceAggregateNodeView>, i: int)
    requires
        0 <= i < nodes.len(),
    ensures
        enc_nodes_scratches(nodes.take(i + 1)) == enc_nodes_scratches(nodes.take(i))
            + op_agg_scratch(nodes[i].op),
    decreases i,
{
    if i == 0 {
        assert(nodes.take(1) =~= seq![nodes[0]]);
        assert(nodes.take(0) =~= Seq::empty());
        assert(nodes.take(1).drop_first() =~= Seq::empty());
        assert(nodes.take(1)[0] == nodes[0]);
        assert(op_agg_scratch(nodes[0].op) + Seq::<u8>::empty() =~= op_agg_scratch(nodes[0].op));
    } else {
        let rest = nodes.drop_first();
        lemma_nodes_scratches_snoc(rest, i - 1);
        assert(nodes.take(i + 1).drop_first() =~= rest.take(i));
        assert(nodes.take(i).drop_first() =~= rest.take(i - 1));
        assert(nodes.take(i + 1)[0] == nodes[0]);
        assert(nodes.take(i)[0] == nodes[0]);
        assert(rest[i - 1] == nodes[i]);
    }
}

/// The whole node list is the full prefix of itself.
pub proof fn lemma_nodes_take_all(nodes: Seq<TraceAggregateNodeView>)
    ensures
        nodes.take(nodes.len() as int) =~= nodes,
{
}

/// Extending the prefix of a `u32` list appends one item image.
pub proof fn lemma_u32_items_snoc(items: Seq<u32>, i: int)
    requires
        0 <= i < items.len(),
    ensures
        enc_u32_items(items.take(i + 1)) == enc_u32_items(items.take(i)) + u32_le(items[i]),
    decreases i,
{
    if i == 0 {
        assert(items.take(1) =~= seq![items[0]]);
        assert(items.take(0) =~= Seq::empty());
        assert(items.take(1).drop_first() =~= Seq::empty());
        assert(items.take(1)[0] == items[0]);
        assert(u32_le(items[0]) + Seq::<u8>::empty() =~= u32_le(items[0]));
    } else {
        let rest = items.drop_first();
        lemma_u32_items_snoc(rest, i - 1);
        assert(items.take(i + 1).drop_first() =~= rest.take(i));
        assert(items.take(i).drop_first() =~= rest.take(i - 1));
        assert(items.take(i + 1)[0] == items[0]);
        assert(items.take(i)[0] == items[0]);
        assert(rest[i - 1] == items[i]);
    }
}

/// Extending the prefix of a metric list appends one item image.
pub proof fn lemma_metric_items_snoc(items: Seq<MetricAggregate>, i: int)
    requires
        0 <= i < items.len(),
    ensures
        enc_metric_items(items.take(i + 1)) == enc_metric_items(items.take(i))
            + enc_metric_aggregate(items[i]),
    decreases i,
{
    if i == 0 {
        assert(items.take(1) =~= seq![items[0]]);
        assert(items.take(0) =~= Seq::empty());
        assert(items.take(1).drop_first() =~= Seq::empty());
        assert(items.take(1)[0] == items[0]);
        assert(enc_metric_aggregate(items[0]) + Seq::<u8>::empty() =~= enc_metric_aggregate(items[0]));
    } else {
        let rest = items.drop_first();
        lemma_metric_items_snoc(rest, i - 1);
        assert(items.take(i + 1).drop_first() =~= rest.take(i));
        assert(items.take(i).drop_first() =~= rest.take(i - 1));
        assert(items.take(i + 1)[0] == items[0]);
        assert(items.take(i)[0] == items[0]);
        assert(rest[i - 1] == items[i]);
    }
}

/// A successful node-list decode determines each node by position.
pub proof fn lemma_dec_nodes_index(s: Seq<u8>, pos: int, n: nat, ns: Seq<TraceAggregateNodeView>)
    requires
        dec_nodes(s, pos, n) == Some(ns),
    ensures
        ns.len() == n,
        forall|i: int|
            0 <= i < n ==> #[trigger] dec_node(s, pos + TRACE_AGGREGATE_NODE_BASE_LEN * i)
                == Some(ns[i]),
    decreases n,
{
    if n > 0 {
        let rest = dec_nodes(s, pos + TRACE_AGGREGATE_NODE_BASE_LEN, (n - 1) as nat).unwrap();
        lemma_dec_nodes_index(s, pos + TRACE_AGGREGATE_NODE_BASE_LEN, (n - 1) as nat, rest);
        assert forall|i: int| 0 <= i < n implies #[trigger] dec_node(
            s,
            pos + TRACE_AGGREGATE_NODE_BASE_LEN * i,
        ) == Some(ns[i]) by {
            if i > 0 {
                assert(dec_node(s, (pos + TRACE_AGGREGATE_NODE_BASE_LEN)
                    + TRACE_AGGREGATE_NODE_BASE_LEN * (i - 1)) == Some(rest[i - 1]));
                assert((pos + TRACE_AGGREGATE_NODE_BASE_LEN) + TRACE_AGGREGATE_NODE_BASE_LEN * (i
                    - 1) == pos + TRACE_AGGREGATE_NODE_BASE_LEN * i) by (nonlinear_arith);
                assert(ns[i] == rest[i - 1]);
            }
        }
    }
}

/// Conversely, nodes decodable at every position decode as a list.
pub proof fn lemma_dec_nodes_build(s: Seq<u8>, pos: int, n: nat, ns: Seq<TraceAggregateNodeView>)
    requires
        ns.len() == n,
        forall|i: int|
            0 <= i < n ==> #[trigger] dec_node(s, pos + TRACE_AGGREGATE_NODE_BASE_LEN * i)
                == Some(ns[i]),
    ensures
        dec_nodes(s, pos, n) == Some(ns),
    decreases n,
{
    if n == 0 {
        assert(ns =~= Seq::empty());
    } else {
        let rest = ns.drop_first();
        assert forall|i: int| 0 <= i < n - 1 implies #[trigger] dec_node(
            s,
            (pos + TRACE_AGGREGATE_NODE_BASE_LEN) + TRACE_AGGREGATE_NODE_BASE_LEN * i,
        ) == Some(rest[i]) by {
            assert((pos + TRACE_AGGREGATE_NODE_BASE_LEN) + TRACE_AGGREGATE_NODE_BASE_LEN * i == pos
                + TRACE_AGGREGATE_NODE_BASE_LEN * (i + 1)) by (nonlinear_arith);
            assert(dec_node(s, pos + TRACE_AGGREGATE_NODE_BASE_LEN * (i + 1)) == Some(ns[i + 1]));
        }
        lemma_dec_nodes_build(s, pos + TRACE_AGGREGATE_NODE_BASE_LEN, (n - 1) as nat, rest);
        assert(dec_node(s, pos + TRACE_AGGREGATE_NODE_BASE_LEN * 0) == Some(ns[0]));
        assert(seq![ns[0]] + rest =~= ns);
    }
}

/// A failing position makes the whole node-list decode fail.
pub proof fn lemma_dec_nodes_fail(s: Seq<u8>, pos: int, n: nat, i: int)
    requires
        0 <= i < n,
        dec_node(s, pos + TRACE_AGGREGATE_NODE_BASE_LEN * i) is None,
    ensures
        dec_nodes(s, pos, n) is None,
    decreases n,
{
    if i == 0 {
        assert(pos + TRACE_AGGREGATE_NODE_BASE_LEN * 0 == pos);
    } else {
        assert((pos + TRACE_AGGREGATE_NODE_BASE_LEN) + TRACE_AGGREGATE_NODE_BASE_LEN * (i - 1)
            == pos + TRACE_AGGREGATE_NODE_BASE_LEN * i) by (nonlinear_arith);
        lemma_dec_nodes_fail(s, pos + TRACE_AGGREGATE_NODE_BASE_LEN, (n - 1) as nat, i - 1);
    }
}

/// A successful `u32`-list decode determines each item by position.
pub proof fn lemma_dec_u32_items_index(s: Seq<u8>, pos: int, n: nat, items: Seq<u32>)
    requires
        dec_u32_items(s, pos, n) == Some(items),
    ensures
        items.len() == n,
        forall|i: int| 0 <= i < n ==> #[trigger] dec_u32(s, pos + 4 * i) == Some(items[i]),
    decreases n,
{
    if n > 0 {
        let rest = dec_u32_items(s, pos + 4, (n - 1) as nat).unwrap();
        lemma_dec_u32_items_index(s, pos + 4, (n - 1) as nat, rest);
        assert forall|i: int| 0 <= i < n implies #[trigger] dec_u32(s, pos + 4 * i) == Some(
            items[i],
        ) by {
            if i > 0 {
                assert(dec_u32(s, (pos + 4) + 4 * (i - 1)) == Some(rest[i - 1]));
                assert((pos + 4) + 4 * (i - 1) == pos + 4 * i);
                assert(items[i] == rest[i - 1]);
            }
        }
    }
}

/// Conversely, items decodable at every position decode as a list.
pub proof fn lemma_dec_u32_items_build(s: Seq<u8>, pos: int, n: nat, items: Seq<u32>)
    requires
        items.len() == n,
        forall|i: int| 0 <= i < n ==> #[trigger] dec_u32(s, pos + 4 * i) == Some(items[i]),
    ensures
        dec_u32_items(s, pos, n) == Some(items),
    decreases n,
{
    if n == 0 {
        assert(items =~= Seq::empty());
    } else {
        let rest = items.drop_first();
        assert forall|i: int| 0 <= i < n - 1 implies #[trigger] dec_u32(s, (pos + 4) + 4 * i)
            == Some(rest[i]) by {
            assert((pos + 4) + 4 * i == pos + 4 * (i + 1));
            assert(dec_u32(s, pos + 4 * (i + 1)) == Some(items[i + 1]));
        }
        lemma_dec_u32_items_build(s, pos + 4, (n - 1) as nat, rest);
        assert(dec_u32(s, pos + 4 * 0) == Some(items[0]));
        assert(seq![items[0]] + rest =~= items);
    }
}

/// A failing position makes the whole `u32`-list decode fail.
pub proof fn lemma_dec_u32_items_fail(s: Seq<u8>, pos: int, n: nat, i: int)
    requires
        0 <= i < n,
        dec_u32(s, pos + 4 * i) is None,
    ensures
        dec_u32_items(s, pos, n) is None,
    decreases n,
{
    if i == 0 {
        assert(pos + 4 * 0 == pos);
    } else {
        assert((pos + 4) + 4 * (i - 1) == pos + 4 * i);
        lemma_dec_u32_items_fail(s, pos + 4, (n - 1) as nat, i - 1);
    }
}

/// A successful metric-list decode determines each item by position.
pub proof fn lemma_dec_metric_items_index(s: Seq<u8>, pos: int, n: nat, items: Seq<MetricAggregate>)
    requires
        dec_metric_items(s, pos, n) == Some(items),
    ensures
        items.len() == n,
        forall|i: int|
            0 <= i < n ==> #[trigger] dec_metric_aggregate(s, pos + METRIC_AGGREGATE_BASE_LEN * i)
                == Some(items[i]),
    decreases n,
{
    if n > 0 {
        let rest = dec_metric_items(s, pos + METRIC_AGGREGATE_BASE_LEN, (n - 1) as nat).unwrap();
        lemma_dec_metric_items_index(s, pos + METRIC_AGGREGATE_BASE_LEN, (n - 1) as nat, rest);
        assert forall|i: int| 0 <= i < n implies #[trigger] dec_metric_aggregate(
            s,
            pos + METRIC_AGGREGATE_BASE_LEN * i,
        ) == Some(items[i]) by {
            if i > 0 {
                assert(dec_metric_aggregate(s, (pos + METRIC_AGGREGATE_BASE_LEN)
                    + METRIC_AGGREGATE_BASE_LEN * (i - 1)) == Some(rest[i - 1]));
                assert((pos + METRIC_AGGREGATE_BASE_LEN) + METRIC_AGGREGATE_BASE_LEN * (i - 1)
                    == pos + METRIC_AGGREGATE_BASE_LEN * i) by (nonlinear_arith);
                assert(items[i] == rest[i - 1]);
            }
        }
    }
}

/// Conversely, items decodable at every position decode as a list.
pub proof fn lemma_dec_metric_items_build(s: Seq<u8>, pos: int, n: nat, items: Seq<MetricAggregate>)
    requires
        items.len() == n,
        forall|i: int|
            0 <= i < n ==> #[trigger] dec_metric_aggregate(s, pos + METRIC_AGGREGATE_BASE_LEN * i)
                == Some(items[i]),
    ensures
        dec_metric_items(s, pos, n) == Some(items),
    decreases n,
{
    if n == 0 {
        assert(items =~= Seq::empty());
    } else {
        let rest = items.drop_first();
        assert forall|i: int| 0 <= i < n - 1 implies #[trigger] dec_metric_aggregate(
            s,
            (pos + METRIC_AGGREGATE_BASE_LEN) + METRIC_AGGREGATE_BASE_LEN * i,
        ) == Some(rest[i]) by {
            assert((pos + METRIC_AGGREGATE_BASE_LEN) + METRIC_AGGREGATE_BASE_LEN * i == pos
                + METRIC_AGGREGATE_BASE_LEN * (i + 1)) by (nonlinear_arith);
            assert(dec_metric_aggregate(s, pos + METRIC_AGGREGATE_BASE_LEN * (i + 1)) == Some(
                items[i + 1],
            ));
        }
        lemma_dec_metric_items_build(s, pos + METRIC_AGGREGATE_BASE_LEN, (n - 1) as nat, rest);
        assert(dec_metric_aggregate(s, pos + METRIC_AGGREGATE_BASE_LEN * 0) == Some(items[0]));
        assert(seq![items[0]] + rest =~= items);
    }
}

/// A failing position makes the whole metric-list decode fail.
pub proof fn lemma_dec_metric_items_fail(s: Seq<u8>, pos: int, n: nat, i: int)
    requires
        0 <= i < n,
        dec_metric_aggregate(s, pos + METRIC_AGGREGATE_BASE_LEN * i) is None,
    ensures
        dec_metric_items(s, pos, n) is None,
    decreases n,
{
    if i == 0 {
        assert(pos + METRIC_AGGREGATE_BASE_LEN * 0 == pos);
    } else {
        assert((pos + METRIC_AGGREGATE_BASE_LEN) + METRIC_AGGREGATE_BASE_LEN * (i - 1) == pos
            + METRIC_AGGREGATE_BASE_LEN * i) by (nonlinear_arith);
        lemma_dec_metric_items_fail(s, pos + METRIC_AGGREGATE_BASE_LEN, (n - 1) as nat, i - 1);
    }
}


/// Extending the prefix by one node adds that node's scratch length.
pub proof fn lemma_total_scratch_snoc(nodes: Seq<TraceAggregateNodeView>, i: int)
    requires
        0 <= i < nodes.len(),
    ensures
        nodes_total_scratch(nodes.take(i + 1)) == nodes_total_scratch(nodes.take(i))
            + node_scratch_len(nodes[i]),
{
    lemma_total_scratch_split(nodes.take(i + 1), i);
    assert(nodes.take(i + 1).take(i) =~= nodes.take(i));
    assert(nodes.take(i + 1).skip(i) =~= seq![nodes[i]]);
    assert(seq![nodes[i]].drop_first() =~= Seq::empty());
    assert(seq![nodes[i]][0] == nodes[i]);
    assert(nodes_total_scratch(Seq::<TraceAggregateNodeView>::empty()) == 0);
    assert(nodes_total_scratch(seq![nodes[i]]) == node_scratch_len(nodes[i]));
}

/// The scratch total of a prefix never exceeds that of the whole list.
pub proof fn lemma_total_scratch_prefix_bound(nodes: Seq<TraceAggregateNodeView>, i: int)
    requires
        0 <= i <= nodes.len(),
    ensures
        0 <= nodes_total_scratch(nodes.take(i)) <= nodes_total_scratch(nodes),
{
    lemma_total_scratch_split(nodes, i);
    assert(nodes.take(i) =~= nodes.take(i));
    lemma_total_scratch_nonneg(nodes.take(i));
    lemma_total_scratch_nonneg(nodes.skip(i));
}

} // verus!
