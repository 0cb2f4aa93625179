//! Executable codec: encoders and decoders for the wire schema.
//!
//! Encoders append the exact byte image given by the spec encoders in
//! [`crate::wire`].  Decoders return precisely the value of the spec
//! decoders: `Ok` exactly where the spec decoder denotes a value, and
//! [`DecodeError`] exactly where it denotes none.

use vstd::prelude::*;

use crate::bytes::{
    push_u16,
    push_u32,
    push_u64,
    push_i64,
    push_zeros,
    push_bytes,
    read_u16,
    read_u32,
    read_u64,
    read_i64,
};
use crate::wire::{
    SourceId, GlobalSourceId, EventSeq, EventId, TraceCallerId, EventKind, EventHeader,
    MetricAggregate, TraceOp, TraceOpAggregate, TraceAggregateNode, SinkHandshake, CreateSource,
    Trace, TraceAggregate, TraceAggregateDelta,
    SOURCE_ID_BASE_LEN, GLOBAL_SOURCE_ID_BASE_LEN, EVENT_SEQ_BASE_LEN, EVENT_ID_BASE_LEN,
    TRACE_CALLER_ID_BASE_LEN, EVENT_KIND_BASE_LEN, EVENT_HEADER_BASE_LEN,
    METRIC_AGGREGATE_BASE_LEN, TRACE_OP_BASE_LEN, TRACE_OP_AGGREGATE_BASE_LEN,
    TRACE_AGGREGATE_NODE_BASE_LEN, SINK_HANDSHAKE_BASE_LEN, CREATE_SOURCE_BASE_LEN,
    TRACE_BASE_LEN, TRACE_AGGREGATE_BASE_LEN, TRACE_AGGREGATE_DELTA_BASE_LEN,
    desc, enc_source_id, enc_global_source_id, enc_event_seq, enc_event_id, enc_trace_caller_id,
    enc_event_kind, enc_event_header, enc_metric_aggregate, enc_opt_source_id, enc_opt_u16,
    enc_trace_op, op_agg_scratch_len, op_agg_scratch, enc_op_agg_base, enc_op_agg_value,
    enc_node_base, node_scratch_len, nodes_total_scratch, enc_nodes_bases, enc_nodes_scratches,
    enc_nodes_block, enc_u32_items, enc_metric_items, enc_sink_handshake, enc_create_source,
    enc_trace_body, enc_trace_aggregate, enc_trace_aggregate_delta, trace_aggregate_encoded_len,
    dec_u16, dec_u32, dec_u64, dec_i64, dec_bool, dec_bytes, dec_source_id, dec_global_source_id,
    dec_event_seq, dec_event_id, dec_trace_caller_id, dec_event_kind, dec_event_header,
    dec_metric_aggregate, dec_opt_source_id, dec_opt_u16, dec_trace_op, dec_op_agg, dec_node,
    dec_nodes, dec_u32_items, dec_metric_items, dec_sink_handshake, dec_create_source,
    dec_trace_body, dec_trace_aggregate, dec_trace_aggregate_delta,
    TraceOpAggregateView, TraceAggregateNodeView, TraceAggregateView,
    lemma_u32_items_snoc, lemma_metric_items_snoc, lemma_nodes_bases_snoc,
    lemma_total_scratch_snoc, lemma_total_scratch_prefix_bound,
    lemma_nodes_scratches_snoc, lemma_total_scratch_split, lemma_total_scratch_nonneg,
    lemma_enc_nodes_bases_len, lemma_enc_nodes_scratches_len, lemma_enc_u32_items_len,
    lemma_enc_metric_items_len, lemma_enc_trace_aggregate_len, lemma_enc_node_base_len,
    lemma_dec_nodes_index, lemma_dec_nodes_build, lemma_dec_nodes_fail,
    lemma_dec_u32_items_index, lemma_dec_u32_items_build, lemma_dec_u32_items_fail,
    lemma_dec_metric_items_index, lemma_dec_metric_items_build, lemma_dec_metric_items_fail,
};

verus! {

/// The single error of the codec: malformed input, that is a truncated
/// buffer, an out-of-range tag or presence byte, or a descriptor that
/// reaches outside its region.
#[derive(Copy, Clone, Debug, PartialEq, Eq, Structural)]
pub struct DecodeError;

// ---------------------------------------------------------------------
// Encoders for fixed-size types.
// ---------------------------------------------------------------------

/// Append the descriptor of a payload of `len` bytes living at absolute
/// offset `pos`.
pub fn push_desc(out: &mut Vec<u8>, len: u32, pos: u32)
    ensures
        final(out)@ == old(out)@ + desc(len as int, pos as int),
{
    push_u32(out, len);
    push_u32(out, pos);
    assert(out@ =~= old(out)@ + desc(len as int, pos as int));
}

pub fn encode_source_id(v: &SourceId, out: &mut Vec<u8>)
    ensures
        final(out)@ == old(out)@ + enc_source_id(*v),
{
    push_u64(out, v.source);
}

pub fn encode_global_source_id(v: &GlobalSourceId, out: &mut Vec<u8>)
    ensures
        final(out)@ == old(out)@ + enc_global_source_id(*v),
{
    push_u64(out, v.session);
    push_u64(out, v.source.source);
    assert(out@ =~= old(out)@ + enc_global_source_id(*v));
}

pub fn encode_event_seq(v: &EventSeq, out: &mut Vec<u8>)
    ensures
        final(out)@ == old(out)@ + enc_event_seq(*v),
{
    push_u16(out, v.seq_no);
}

pub fn encode_event_id(v: &EventId, out: &mut Vec<u8>)
    ensures
        final(out)@ == old(out)@ + enc_event_id(*v),
{
    push_u64(out, v.source.source);
    push_u64(out, v.timestamp_nanos);
    push_u16(out, v.seq_no.seq_no);
    assert(out@ =~= old(out)@ + enc_event_id(*v));
}

pub fn encode_trace_caller_id(v: &TraceCallerId, out: &mut Vec<u8>)
    ensures
        final(out)@ == old(out)@ + enc_trace_caller_id(*v),
{
    encode_event_id(&v.event_id, out);
    push_u16(out, v.op_index);
    assert(out@ =~= old(out)@ + enc_trace_caller_id(*v));
}

pub fn encode_event_kind(k: &EventKind, out: &mut Vec<u8>)
    ensures
        final(out)@ == old(out)@ + enc_event_kind(*k),
{
    let tag: u8 = match k {
        EventKind::CreateSource => 0,
        EventKind::DeleteSource => 1,
        EventKind::Trace => 2,
        EventKind::TraceAggregate => 3,
        EventKind::TraceAggregateDelta => 4,
    };
    out.push(tag);
    assert(out@ =~= old(out)@ + enc_event_kind(*k));
}

pub fn encode_event_header(h: &EventHeader, out: &mut Vec<u8>)
    ensures
        final(out)@ == old(out)@ + enc_event_header(*h),
{
    encode_event_id(&h.id, out);
    push_u16(out, h.len);
    encode_event_kind(&h.kind, out);
    assert(out@ =~= old(out)@ + enc_event_header(*h));
}

pub fn encode_metric_aggregate(m: &MetricAggregate, out: &mut Vec<u8>)
    ensures
        final(out)@ == old(out)@ + enc_metric_aggregate(*m),
{
    push_u64(out, m.count);
    push_i64(out, m.sum);
    push_i64(out, m.min);
    push_i64(out, m.max);
    assert(out@ =~= old(out)@ + enc_metric_aggregate(*m));
}

pub fn encode_opt_source_id(v: &Option<SourceId>, out: &mut Vec<u8>)
    ensures
        final(out)@ == old(out)@ + enc_opt_source_id(*v),
{
    match v {
        Some(p) => {
            out.push(1u8);
            push_u64(out, p.source);
        },
        None => {
            out.push(0u8);
            push_zeros(out, 8);
        },
    }
    assert(out@ =~= old(out)@ + enc_opt_source_id(*v));
}

pub fn encode_opt_u16(v: &Option<u16>, out: &mut Vec<u8>)
    ensures
        final(out)@ == old(out)@ + enc_opt_u16(*v),
{
    match v {
        Some(p) => {
            out.push(1u8);
            push_u16(out, *p);
        },
        None => {
            out.push(0u8);
            push_zeros(out, 2);
        },
    }
    assert(out@ =~= old(out)@ + enc_opt_u16(*v));
}

/// Append the full inline image of a wire trace op: tag, fields, zero
/// padding up to the union base length.
pub fn encode_trace_op(op: &TraceOp, out: &mut Vec<u8>)
    ensures
        final(out)@ == old(out)@ + enc_trace_op(*op),
{
    match op {
        TraceOp::CreateSource { source } => {
            out.push(0u8);
            push_u64(out, source.source);
            push_zeros(out, 24);
        },
        TraceOp::DeleteSource { source } => {
            out.push(1u8);
            push_u64(out, source.source);
            push_zeros(out, 24);
        },
        TraceOp::Call { source } => {
            out.push(2u8);
            push_u64(out, source.source);
            push_zeros(out, 24);
        },
        TraceOp::PushScope => {
            out.push(3u8);
            push_zeros(out, 32);
        },
        TraceOp::PopScope => {
            out.push(4u8);
            push_zeros(out, 32);
        },
        TraceOp::BranchStart => {
            out.push(5u8);
            push_zeros(out, 32);
        },
        TraceOp::BranchEnd => {
            out.push(6u8);
            push_zeros(out, 32);
        },
        TraceOp::Label => {
            out.push(7u8);
            push_zeros(out, 32);
        },
        TraceOp::Tag { tag } => {
            out.push(8u8);
            push_u64(out, *tag);
            push_zeros(out, 24);
        },
        TraceOp::Metric { value } => {
            out.push(9u8);
            push_i64(out, *value);
            push_zeros(out, 24);
        },
        TraceOp::ChannelSend { channel } => {
            out.push(10u8);
            push_u64(out, channel.source);
            push_zeros(out, 24);
        },
        TraceOp::ChannelReceive { channel, sender } => {
            out.push(11u8);
            push_u64(out, channel.source);
            encode_trace_caller_id(sender, out);
            push_zeros(out, 4);
        },
        TraceOp::ChannelTransfer { from, to } => {
            out.push(12u8);
            push_u64(out, from.source);
            push_u64(out, to.source);
            push_zeros(out, 16);
        },
        TraceOp::GlobalChannelSend { channel } => {
            out.push(13u8);
            encode_global_source_id(channel, out);
            push_zeros(out, 16);
        },
        TraceOp::GlobalChannelReceive { channel } => {
            out.push(14u8);
            encode_global_source_id(channel, out);
            push_zeros(out, 16);
        },
        TraceOp::GlobalChannelTransfer { from, to } => {
            out.push(15u8);
            encode_global_source_id(from, out);
            encode_global_source_id(to, out);
        },
    }
    assert(out@ =~= old(out)@ + enc_trace_op(*op));
}

// ---------------------------------------------------------------------
// Encoders for scratch-bearing types.
// ---------------------------------------------------------------------

/// Scratch bytes an aggregate op will claim: its label or metric name.
pub fn op_agg_scratch_size(op: &TraceOpAggregate) -> (r: usize)
    ensures
        r == op_agg_scratch_len(op@),
{
    match op {
        TraceOpAggregate::Label { label } => label.len(),
        TraceOpAggregate::Metric { name, .. } => name.len(),
        _ => 0,
    }
}

/// Append the inline base of an aggregate op whose scratch bytes will
/// live at absolute offset `pos`.
pub fn encode_op_agg_base(op: &TraceOpAggregate, pos: u32, out: &mut Vec<u8>)
    requires
        op_agg_scratch_len(op@) <= u32::MAX,
    ensures
        final(out)@ == old(out)@ + enc_op_agg_base(op@, pos as int),
{
    match op {
        TraceOpAggregate::CreateSource => {
            out.push(0u8);
            push_zeros(out, 32);
        },
        TraceOpAggregate::DeleteSource => {
            out.push(1u8);
            push_zeros(out, 32);
        },
        TraceOpAggregate::Call { source } => {
            out.push(2u8);
            push_u64(out, source.source);
            push_zeros(out, 24);
        },
        TraceOpAggregate::PushScope => {
            out.push(3u8);
            push_zeros(out, 32);
        },
        TraceOpAggregate::PopScope => {
            out.push(4u8);
            push_zeros(out, 32);
        },
        TraceOpAggregate::BranchStart { branch_end } => {
            out.push(5u8);
            push_u16(out, *branch_end);
            push_zeros(out, 30);
        },
        TraceOpAggregate::BranchEnd { parent_branch_end } => {
            out.push(6u8);
            push_u16(out, *parent_branch_end);
            push_zeros(out, 30);
        },
        TraceOpAggregate::Label { label } => {
            out.push(7u8);
            push_desc(out, label.len() as u32, pos);
            push_zeros(out, 24);
        },
        TraceOpAggregate::Tag => {
            out.push(8u8);
            push_zeros(out, 32);
        },
        TraceOpAggregate::Metric { name, index } => {
            out.push(9u8);
            push_desc(out, name.len() as u32, pos);
            push_u16(out, *index);
            push_zeros(out, 22);
        },
        TraceOpAggregate::ChannelSend { channel } => {
            out.push(10u8);
            push_u64(out, channel.source);
            push_zeros(out, 24);
        },
        TraceOpAggregate::ChannelReceive { channel } => {
            out.push(11u8);
            push_u64(out, channel.source);
            push_zeros(out, 24);
        },
        TraceOpAggregate::ChannelTransfer { from, to } => {
            out.push(12u8);
            push_u64(out, from.source);
            push_u64(out, to.source);
            push_zeros(out, 16);
        },
        TraceOpAggregate::GlobalChannelSend { channel } => {
            out.push(13u8);
            encode_global_source_id(channel, out);
            push_zeros(out, 16);
        },
        TraceOpAggregate::GlobalChannelReceive { channel } => {
            out.push(14u8);
            encode_global_source_id(channel, out);
            push_zeros(out, 16);
        },
        TraceOpAggregate::GlobalChannelTransfer { from, to } => {
            out.push(15u8);
            encode_global_source_id(from, out);
            encode_global_source_id(to, out);
        },
    }
    assert(out@ =~= old(out)@ + enc_op_agg_base(op@, pos as int));
}

/// Append the scratch bytes of an aggregate op.
pub fn encode_op_agg_scratch(op: &TraceOpAggregate, out: &mut Vec<u8>)
    ensures
        final(out)@ == old(out)@ + op_agg_scratch(op@),
{
    match op {
        TraceOpAggregate::Label { label } => {
            push_bytes(out, label);
        },
        TraceOpAggregate::Metric { name, .. } => {
            push_bytes(out, name);
        },
        _ => {},
    }
    assert(out@ =~= old(out)@ + op_agg_scratch(op@));
}

/// Append a lone aggregate op encoded as a top-level value.
pub fn encode_op_aggregate(op: &TraceOpAggregate, out: &mut Vec<u8>)
    requires
        op_agg_scratch_len(op@) <= u32::MAX,
    ensures
        final(out)@ == old(out)@ + enc_op_agg_value(op@),
{
    encode_op_agg_base(op, TRACE_OP_AGGREGATE_BASE_LEN as u32, out);
    encode_op_agg_scratch(op, out);
    assert(out@ =~= old(out)@ + enc_op_agg_value(op@));
}

/// Append the inline base of a graph node whose op scratch will live at
/// absolute offset `pos`.
pub fn encode_node_base(n: &TraceAggregateNode, pos: u32, out: &mut Vec<u8>)
    requires
        node_scratch_len(n@) <= u32::MAX,
    ensures
        final(out)@ == old(out)@ + enc_node_base(n@, pos as int),
{
    encode_op_agg_base(&n.op, pos, out);
    encode_opt_u16(&n.branch_next, out);
    encode_opt_u16(&n.next, out);
    assert(out@ =~= old(out)@ + enc_node_base(n@, pos as int));
}

/// Append the full top-level encoding of a sink handshake.
pub fn encode_sink_handshake(v: &SinkHandshake, out: &mut Vec<u8>)
    requires
        SINK_HANDSHAKE_BASE_LEN + v.app_name@.len() <= u32::MAX,
    ensures
        final(out)@ == old(out)@ + enc_sink_handshake(v@),
{
    push_desc(out, v.app_name.len() as u32, SINK_HANDSHAKE_BASE_LEN as u32);
    push_u64(out, v.session_id_hi);
    push_u64(out, v.session_id_lo);
    push_bytes(out, &v.app_name);
    assert(out@ =~= old(out)@ + enc_sink_handshake(v@));
}

/// Append the full top-level encoding of a `CreateSource` body.
pub fn encode_create_source(v: &CreateSource, out: &mut Vec<u8>)
    requires
        CREATE_SOURCE_BASE_LEN + v.name@.len() <= u32::MAX,
    ensures
        final(out)@ == old(out)@ + enc_create_source(v@),
{
    push_desc(out, v.name.len() as u32, CREATE_SOURCE_BASE_LEN as u32);
    encode_opt_source_id(&v.parent, out);
    if v.is_recurring {
        out.push(1u8);
    } else {
        out.push(0u8);
    }
    push_bytes(out, &v.name);
    assert(out@ =~= old(out)@ + enc_create_source(v@));
}

/// Append the full top-level encoding of a `Trace` body.
pub fn encode_trace_body(v: &Trace, out: &mut Vec<u8>)
    requires
        TRACE_BASE_LEN + v.trace@.len() <= u32::MAX,
    ensures
        final(out)@ == old(out)@ + enc_trace_body(v@),
{
    push_u64(out, v.start_nanos);
    push_desc(out, v.trace.len() as u32, TRACE_BASE_LEN as u32);
    push_bytes(out, &v.trace);
    assert(out@ =~= old(out)@ + enc_trace_body(v@));
}

/// Append the full top-level encoding of a `TraceAggregateDelta` body.
pub fn encode_trace_aggregate_delta(v: &TraceAggregateDelta, out: &mut Vec<u8>)
    requires
        TRACE_AGGREGATE_DELTA_BASE_LEN + 4 * v.counters@.len() + METRIC_AGGREGATE_BASE_LEN
            * v.metrics@.len() <= u32::MAX,
    ensures
        final(out)@ == old(out)@ + enc_trace_aggregate_delta(v@),
{
    let counters_pos: u32 = (TRACE_AGGREGATE_DELTA_BASE_LEN + 4 * v.counters.len()) as u32;
    push_u64(out, v.start_nanos);
    push_u64(out, v.end_nanos);
    push_desc(out, v.counters.len() as u32, TRACE_AGGREGATE_DELTA_BASE_LEN as u32);
    push_desc(out, v.metrics.len() as u32, counters_pos);
    encode_u32_items(&v.counters, out);
    encode_metric_items(&v.metrics, out);
    assert(out@ =~= old(out)@ + enc_trace_aggregate_delta(v@));
}

/// Append the flat item block of a `u32` list.
pub fn encode_u32_items(items: &Vec<u32>, out: &mut Vec<u8>)
    ensures
        final(out)@ == old(out)@ + enc_u32_items(items@),
{
    let mut i: usize = 0;
    while i < items.len()
        invariant
            i <= items@.len(),
            out@ == old(out)@ + enc_u32_items(items@.take(i as int)),
        decreases items@.len() - i,
    {
        proof {
            lemma_u32_items_snoc(items@, i as int);
        }
        push_u32(out, items[i]);
        assert(out@ =~= old(out)@ + enc_u32_items(items@.take(i + 1)));
        i = i + 1;
    }
    assert(items@.take(items@.len() as int) =~= items@);
}

/// Append the flat item block of a metric list.
pub fn encode_metric_items(items: &Vec<MetricAggregate>, out: &mut Vec<u8>)
    ensures
        final(out)@ == old(out)@ + enc_metric_items(items@),
{
    let mut i: usize = 0;
    while i < items.len()
        invariant
            i <= items@.len(),
            out@ == old(out)@ + enc_metric_items(items@.take(i as int)),
        decreases items@.len() - i,
    {
        proof {
            lemma_metric_items_snoc(items@, i as int);
        }
        encode_metric_aggregate(&items[i], out);
        assert(out@ =~= old(out)@ + enc_metric_items(items@.take(i + 1)));
        i = i + 1;
    }
    assert(items@.take(items@.len() as int) =~= items@);
}


/// Ghost node list of an aggregate value.
pub open spec fn nodes_view(nodes: Vec<TraceAggregateNode>) -> Seq<TraceAggregateNodeView> {
    Seq::new(nodes@.len(), |i: int| nodes@[i]@)
}

/// Total scratch bytes the nodes of an aggregate will claim.
pub fn nodes_scratch_total_size(nodes: &Vec<TraceAggregateNode>) -> (r: u64)
    requires
        nodes_total_scratch(nodes_view(*nodes)) <= u32::MAX,
    ensures
        r == nodes_total_scratch(nodes_view(*nodes)),
{
    let ghost vnodes = nodes_view(*nodes);
    let mut ts: u64 = 0;
    let mut i: usize = 0;
    while i < nodes.len()
        invariant
            i <= nodes@.len(),
            vnodes == nodes_view(*nodes),
            vnodes.len() == nodes@.len(),
            nodes_total_scratch(vnodes) <= u32::MAX,
            ts == nodes_total_scratch(vnodes.take(i as int)),
        decreases nodes@.len() - i,
    {
        proof {
            lemma_total_scratch_snoc(vnodes, i as int);
            lemma_total_scratch_prefix_bound(vnodes, i + 1);
            assert(vnodes[i as int] == nodes@[i as int]@);
        }
        let sl = op_agg_scratch_size(&nodes[i].op);
        ts = ts + (sl as u64);
        i = i + 1;
    }
    proof {
        assert(vnodes.take(vnodes.len() as int) =~= vnodes);
    }
    ts
}

/// Total encoded length of a `TraceAggregate` body: base, node bases,
/// node scratch, counters and metrics.
pub fn trace_aggregate_size(v: &TraceAggregate) -> (r: u64)
    requires
        trace_aggregate_encoded_len(v@) <= u32::MAX,
    ensures
        r == trace_aggregate_encoded_len(v@),
{
    proof {
        assert(v@.nodes =~= nodes_view(v.nodes));
        lemma_total_scratch_nonneg(v@.nodes);
        lemma_agg_len_parts(v@);
    }
    let ts = nodes_scratch_total_size(&v.nodes);
    (TRACE_AGGREGATE_BASE_LEN as u64) + (TRACE_AGGREGATE_NODE_BASE_LEN as u64) * (v.nodes.len()
        as u64) + ts + 4 * (v.counters.len() as u64) + (METRIC_AGGREGATE_BASE_LEN as u64) * (
    v.metrics.len() as u64)
}

/// Append the full top-level encoding of a `TraceAggregate` body.
pub fn encode_trace_aggregate(v: &TraceAggregate, out: &mut Vec<u8>)
    requires
        trace_aggregate_encoded_len(v@) <= u32::MAX,
    ensures
        final(out)@ == old(out)@ + enc_trace_aggregate(v@),
{
    let ghost vnodes = v@.nodes;
    proof {
        assert(vnodes =~= nodes_view(v.nodes));
        lemma_total_scratch_nonneg(vnodes);
        lemma_agg_len_parts(v@);
    }
    let n = v.nodes.len();
    let ts = nodes_scratch_total_size(&v.nodes);
    let bases_pos: u64 = TRACE_AGGREGATE_BASE_LEN as u64;
    let scratch0: u64 = bases_pos + (TRACE_AGGREGATE_NODE_BASE_LEN as u64) * (n as u64);
    let counters_pos: u64 = scratch0 + ts;
    let metrics_pos: u64 = counters_pos + 4 * (v.counters.len() as u64);

    push_u64(out, v.start_nanos);
    push_desc(out, n as u32, TRACE_AGGREGATE_BASE_LEN as u32);
    push_desc(out, v.counters.len() as u32, counters_pos as u32);
    push_desc(out, v.metrics.len() as u32, metrics_pos as u32);
    let ghost header = out@.subrange(old(out)@.len() as int, out@.len() as int);
    assert(out@ == old(out)@ + header);

    // Node bases, each descriptor pointing at that node's scratch.
    let mut cur: u64 = scratch0;
    let mut i: usize = 0;
    while i < n
        invariant
            i <= n,
            n == v.nodes@.len(),
            vnodes == nodes_view(v.nodes),
            vnodes.len() == n,
            nodes_total_scratch(vnodes) <= u32::MAX,
            scratch0 == TRACE_AGGREGATE_BASE_LEN + TRACE_AGGREGATE_NODE_BASE_LEN * n,
            scratch0 <= u32::MAX,
            cur == scratch0 + nodes_total_scratch(vnodes.take(i as int)),
            out@ == old(out)@ + header + enc_nodes_bases(vnodes.take(i as int), scratch0 as int),
        decreases n - i,
    {
        proof {
            lemma_total_scratch_snoc(vnodes, i as int);
            lemma_total_scratch_prefix_bound(vnodes, i as int);
            lemma_total_scratch_prefix_bound(vnodes, i + 1);
            lemma_nodes_bases_snoc(vnodes, scratch0 as int, i as int);
            assert(vnodes[i as int] == v.nodes@[i as int]@);
        }
        encode_node_base(&v.nodes[i], cur as u32, out);
        assert(out@ =~= old(out)@ + header + enc_nodes_bases(vnodes.take(i + 1), scratch0 as int));
        let sl = op_agg_scratch_size(&v.nodes[i].op);
        cur = cur + (sl as u64);
        i = i + 1;
    }
    proof {
        assert(vnodes.take(n as int) =~= vnodes);
    }
    let ghost bases = enc_nodes_bases(vnodes, scratch0 as int);

    // Node scratch bytes, in node order.
    let mut i: usize = 0;
    while i < n
        invariant
            i <= n,
            n == v.nodes@.len(),
            vnodes == nodes_view(v.nodes),
            vnodes.len() == n,
            out@ == old(out)@ + header + bases + enc_nodes_scratches(vnodes.take(i as int)),
        decreases n - i,
    {
        proof {
            lemma_nodes_scratches_snoc(vnodes, i as int);
            assert(vnodes[i as int] == v.nodes@[i as int]@);
        }
        encode_op_agg_scratch(&v.nodes[i].op, out);
        assert(out@ =~= old(out)@ + header + bases + enc_nodes_scratches(vnodes.take(i + 1)));
        i = i + 1;
    }
    proof {
        assert(vnodes.take(n as int) =~= vnodes);
    }

    encode_u32_items(&v.counters, out);
    encode_metric_items(&v.metrics, out);
    assert(out@ =~= old(out)@ + enc_trace_aggregate(v@));
}

/// Each part of an aggregate body's length is bounded by the whole.
proof fn lemma_agg_len_parts(v: TraceAggregateView)
    ensures
        TRACE_AGGREGATE_NODE_BASE_LEN * v.nodes.len() + nodes_total_scratch(v.nodes) + 4
            * v.counters.len() + METRIC_AGGREGATE_BASE_LEN * v.metrics.len()
            == trace_aggregate_encoded_len(v) - TRACE_AGGREGATE_BASE_LEN,
        nodes_total_scratch(v.nodes) >= 0,
{
    lemma_total_scratch_nonneg(v.nodes);
}


// ---------------------------------------------------------------------
// Decoders.
//
// Each returns exactly the value its spec decoder denotes: `Ok` where
// the spec decoder yields a value, `Err(DecodeError)` where it yields
// none.
// ---------------------------------------------------------------------

pub fn decode_source_id(buf: &[u8], off: usize) -> (r: Result<SourceId, DecodeError>)
    ensures
        dec_source_id(buf@, off as int) == (match r {
            Ok(v) => Some(v),
            Err(_) => None,
        }),
{
    if buf.len() >= SOURCE_ID_BASE_LEN && off <= buf.len() - SOURCE_ID_BASE_LEN {
        Ok(SourceId { source: read_u64(buf, off) })
    } else {
        Err(DecodeError)
    }
}

pub fn decode_global_source_id(buf: &[u8], off: usize) -> (r: Result<GlobalSourceId, DecodeError>)
    ensures
        dec_global_source_id(buf@, off as int) == (match r {
            Ok(v) => Some(v),
            Err(_) => None,
        }),
{
    if buf.len() >= GLOBAL_SOURCE_ID_BASE_LEN && off <= buf.len() - GLOBAL_SOURCE_ID_BASE_LEN {
        Ok(
            GlobalSourceId {
                session: read_u64(buf, off),
                source: SourceId { source: read_u64(buf, off + 8) },
            },
        )
    } else {
        Err(DecodeError)
    }
}

pub fn decode_event_seq(buf: &[u8], off: usize) -> (r: Result<EventSeq, DecodeError>)
    ensures
        dec_event_seq(buf@, off as int) == (match r {
            Ok(v) => Some(v),
            Err(_) => None,
        }),
{
    if buf.len() >= EVENT_SEQ_BASE_LEN && off <= buf.len() - EVENT_SEQ_BASE_LEN {
        Ok(EventSeq { seq_no: read_u16(buf, off) })
    } else {
        Err(DecodeError)
    }
}

pub fn decode_event_id(buf: &[u8], off: usize) -> (r: Result<EventId, DecodeError>)
    ensures
        dec_event_id(buf@, off as int) == (match r {
            Ok(v) => Some(v),
            Err(_) => None,
        }),
{
    if buf.len() >= EVENT_ID_BASE_LEN && off <= buf.len() - EVENT_ID_BASE_LEN {
        Ok(
            EventId {
                source: SourceId { source: read_u64(buf, off) },
                timestamp_nanos: read_u64(buf, off + 8),
                seq_no: EventSeq { seq_no: read_u16(buf, off + 16) },
            },
        )
    } else {
        Err(DecodeError)
    }
}

pub fn decode_trace_caller_id(buf: &[u8], off: usize) -> (r: Result<TraceCallerId, DecodeError>)
    ensures
        dec_trace_caller_id(buf@, off as int) == (match r {
            Ok(v) => Some(v),
            Err(_) => None,
        }),
{
    if buf.len() >= TRACE_CALLER_ID_BASE_LEN && off <= buf.len() - TRACE_CALLER_ID_BASE_LEN {
        match decode_event_id(buf, off) {
            Ok(event_id) => Ok(TraceCallerId { event_id, op_index: read_u16(buf, off + 18) }),
            Err(e) => Err(e),
        }
    } else {
        Err(DecodeError)
    }
}

pub fn decode_event_kind(buf: &[u8], off: usize) -> (r: Result<EventKind, DecodeError>)
    ensures
        dec_event_kind(buf@, off as int) == (match r {
            Ok(v) => Some(v),
            Err(_) => None,
        }),
{
    if buf.len() >= EVENT_KIND_BASE_LEN && off <= buf.len() - EVENT_KIND_BASE_LEN {
        let tag = buf[off];
        if tag == 0 {
            Ok(EventKind::CreateSource)
        } else if tag == 1 {
            Ok(EventKind::DeleteSource)
        } else if tag == 2 {
            Ok(EventKind::Trace)
        } else if tag == 3 {
            Ok(EventKind::TraceAggregate)
        } else if tag == 4 {
            Ok(EventKind::TraceAggregateDelta)
        } else {
            Err(DecodeError)
        }
    } else {
        Err(DecodeError)
    }
}

pub fn decode_event_header(buf: &[u8], off: usize) -> (r: Result<EventHeader, DecodeError>)
    ensures
        dec_event_header(buf@, off as int) == (match r {
            Ok(v) => Some(v),
            Err(_) => None,
        }),
{
    if buf.len() >= EVENT_HEADER_BASE_LEN && off <= buf.len() - EVENT_HEADER_BASE_LEN {
        let id = match decode_event_id(buf, off) {
            Ok(id) => id,
            Err(e) => {
                return Err(e);
            },
        };
        let kind = match decode_event_kind(buf, off + 20) {
            Ok(kind) => kind,
            Err(e) => {
                return Err(e);
            },
        };
        Ok(EventHeader { id, len: read_u16(buf, off + 18), kind })
    } else {
        Err(DecodeError)
    }
}

pub fn decode_metric_aggregate(buf: &[u8], off: usize) -> (r: Result<MetricAggregate, DecodeError>)
    ensures
        dec_metric_aggregate(buf@, off as int) == (match r {
            Ok(v) => Some(v),
            Err(_) => None,
        }),
{
    if buf.len() >= METRIC_AGGREGATE_BASE_LEN && off <= buf.len() - METRIC_AGGREGATE_BASE_LEN {
        Ok(
            MetricAggregate {
                count: read_u64(buf, off),
                sum: read_i64(buf, off + 8),
                min: read_i64(buf, off + 16),
                max: read_i64(buf, off + 24),
            },
        )
    } else {
        Err(DecodeError)
    }
}

pub fn decode_opt_source_id(buf: &[u8], off: usize) -> (r: Result<Option<SourceId>, DecodeError>)
    ensures
        dec_opt_source_id(buf@, off as int) == (match r {
            Ok(v) => Some(v),
            Err(_) => None,
        }),
{
    if buf.len() >= 9 && off <= buf.len() - 9 {
        let tag = buf[off];
        if tag == 0 {
            Ok(None)
        } else if tag == 1 {
            Ok(Some(SourceId { source: read_u64(buf, off + 1) }))
        } else {
            Err(DecodeError)
        }
    } else {
        Err(DecodeError)
    }
}

pub fn decode_opt_u16(buf: &[u8], off: usize) -> (r: Result<Option<u16>, DecodeError>)
    ensures
        dec_opt_u16(buf@, off as int) == (match r {
            Ok(v) => Some(v),
            Err(_) => None,
        }),
{
    if buf.len() >= 3 && off <= buf.len() - 3 {
        let tag = buf[off];
        if tag == 0 {
            Ok(None)
        } else if tag == 1 {
            Ok(Some(read_u16(buf, off + 1)))
        } else {
            Err(DecodeError)
        }
    } else {
        Err(DecodeError)
    }
}

/// Resolve a descriptor at `off` and copy out the payload bytes.
pub fn decode_bytes_field(buf: &[u8], off: usize) -> (r: Result<Vec<u8>, DecodeError>)
    ensures
        dec_bytes(buf@, off as int) == (match r {
            Ok(v) => Some(v@),
            Err(_) => None,
        }),
{
    if !(buf.len() >= 8 && off <= buf.len() - 8) {
        return Err(DecodeError);
    }
    let len = read_u32(buf, off);
    let pos = read_u32(buf, off + 4);
    if (pos as u64) + (len as u64) > (buf.len() as u64) {
        return Err(DecodeError);
    }
    let sl = vstd::slice::slice_subrange(buf, pos as usize, pos as usize + len as usize);
    Ok(vstd::slice::slice_to_vec(sl))
}

pub fn decode_trace_op(buf: &[u8], off: usize) -> (r: Result<TraceOp, DecodeError>)
    ensures
        dec_trace_op(buf@, off as int) == (match r {
            Ok(v) => Some(v),
            Err(_) => None,
        }),
{
    if !(buf.len() >= TRACE_OP_BASE_LEN && off <= buf.len() - TRACE_OP_BASE_LEN) {
        return Err(DecodeError);
    }
    let tag = buf[off];
    if tag == 0 {
        Ok(TraceOp::CreateSource { source: SourceId { source: read_u64(buf, off + 1) } })
    } else if tag == 1 {
        Ok(TraceOp::DeleteSource { source: SourceId { source: read_u64(buf, off + 1) } })
    } else if tag == 2 {
        Ok(TraceOp::Call { source: SourceId { source: read_u64(buf, off + 1) } })
    } else if tag == 3 {
        Ok(TraceOp::PushScope)
    } else if tag == 4 {
        Ok(TraceOp::PopScope)
    } else if tag == 5 {
        Ok(TraceOp::BranchStart)
    } else if tag == 6 {
        Ok(TraceOp::BranchEnd)
    } else if tag == 7 {
        Ok(TraceOp::Label)
    } else if tag == 8 {
        Ok(TraceOp::Tag { tag: read_u64(buf, off + 1) })
    } else if tag == 9 {
        Ok(TraceOp::Metric { value: read_i64(buf, off + 1) })
    } else if tag == 10 {
        Ok(TraceOp::ChannelSend { channel: SourceId { source: read_u64(buf, off + 1) } })
    } else if tag == 11 {
        match decode_trace_caller_id(buf, off + 9) {
            Ok(sender) => Ok(
                TraceOp::ChannelReceive {
                    channel: SourceId { source: read_u64(buf, off + 1) },
                    sender,
                },
            ),
            Err(e) => Err(e),
        }
    } else if tag == 12 {
        Ok(
            TraceOp::ChannelTransfer {
                from: SourceId { source: read_u64(buf, off + 1) },
                to: SourceId { source: read_u64(buf, off + 9) },
            },
        )
    } else if tag == 13 {
        match decode_global_source_id(buf, off + 1) {
            Ok(channel) => Ok(TraceOp::GlobalChannelSend { channel }),
            Err(e) => Err(e),
        }
    } else if tag == 14 {
        match decode_global_source_id(buf, off + 1) {
            Ok(channel) => Ok(TraceOp::GlobalChannelReceive { channel }),
            Err(e) => Err(e),
        }
    } else if tag == 15 {
        let from = match decode_global_source_id(buf, off + 1) {
            Ok(from) => from,
            Err(e) => {
                return Err(e);
            },
        };
        match decode_global_source_id(buf, off + 17) {
            Ok(to) => Ok(TraceOp::GlobalChannelTransfer { from, to }),
            Err(e) => Err(e),
        }
    } else {
        Err(DecodeError)
    }
}

pub fn decode_op_aggregate(buf: &[u8], off: usize) -> (r: Result<TraceOpAggregate, DecodeError>)
    ensures
        dec_op_agg(buf@, off as int) == (match r {
            Ok(v) => Some(v@),
            Err(_) => None,
        }),
{
    if !(buf.len() >= TRACE_OP_AGGREGATE_BASE_LEN && off <= buf.len()
        - TRACE_OP_AGGREGATE_BASE_LEN) {
        return Err(DecodeError);
    }
    let tag = buf[off];
    if tag == 0 {
        Ok(TraceOpAggregate::CreateSource)
    } else if tag == 1 {
        Ok(TraceOpAggregate::DeleteSource)
    } else if tag == 2 {
        Ok(TraceOpAggregate::Call { source: SourceId { source: read_u64(buf, off + 1) } })
    } else if tag == 3 {
        Ok(TraceOpAggregate::PushScope)
    } else if tag == 4 {
        Ok(TraceOpAggregate::PopScope)
    } else if tag == 5 {
        Ok(TraceOpAggregate::BranchStart { branch_end: read_u16(buf, off + 1) })
    } else if tag == 6 {
        Ok(TraceOpAggregate::BranchEnd { parent_branch_end: read_u16(buf, off + 1) })
    } else if tag == 7 {
        match decode_bytes_field(buf, off + 1) {
            Ok(label) => Ok(TraceOpAggregate::Label { label }),
            Err(e) => Err(e),
        }
    } else if tag == 8 {
        Ok(TraceOpAggregate::Tag)
    } else if tag == 9 {
        match decode_bytes_field(buf, off + 1) {
            Ok(name) => Ok(TraceOpAggregate::Metric { name, index: read_u16(buf, off + 9) }),
            Err(e) => Err(e),
        }
    } else if tag == 10 {
        Ok(TraceOpAggregate::ChannelSend { channel: SourceId { source: read_u64(buf, off + 1) } })
    } else if tag == 11 {
        Ok(
            TraceOpAggregate::ChannelReceive {
                channel: SourceId { source: read_u64(buf, off + 1) },
            },
        )
    } else if tag == 12 {
        Ok(
            TraceOpAggregate::ChannelTransfer {
                from: SourceId { source: read_u64(buf, off + 1) },
                to: SourceId { source: read_u64(buf, off + 9) },
            },
        )
    } else if tag == 13 {
        match decode_global_source_id(buf, off + 1) {
            Ok(channel) => Ok(TraceOpAggregate::GlobalChannelSend { channel }),
            Err(e) => Err(e),
        }
    } else if tag == 14 {
        match decode_global_source_id(buf, off + 1) {
            Ok(channel) => Ok(TraceOpAggregate::GlobalChannelReceive { channel }),
            Err(e) => Err(e),
        }
    } else if tag == 15 {
        let from = match decode_global_source_id(buf, off + 1) {
            Ok(from) => from,
            Err(e) => {
                return Err(e);
            },
        };
        match decode_global_source_id(buf, off + 17) {
            Ok(to) => Ok(TraceOpAggregate::GlobalChannelTransfer { from, to }),
            Err(e) => Err(e),
        }
    } else {
        Err(DecodeError)
    }
}

pub fn decode_node(buf: &[u8], off: usize) -> (r: Result<TraceAggregateNode, DecodeError>)
    ensures
        dec_node(buf@, off as int) == (match r {
            Ok(v) => Some(v@),
            Err(_) => None,
        }),
{
    if !(buf.len() >= TRACE_AGGREGATE_NODE_BASE_LEN && off <= buf.len()
        - TRACE_AGGREGATE_NODE_BASE_LEN) {
        return Err(DecodeError);
    }
    let op = match decode_op_aggregate(buf, off) {
        Ok(op) => op,
        Err(e) => {
            return Err(e);
        },
    };
    let branch_next = match decode_opt_u16(buf, off + 33) {
        Ok(v) => v,
        Err(e) => {
            return Err(e);
        },
    };
    let next = match decode_opt_u16(buf, off + 36) {
        Ok(v) => v,
        Err(e) => {
            return Err(e);
        },
    };
    Ok(TraceAggregateNode { op, branch_next, next })
}

pub fn decode_sink_handshake(buf: &[u8]) -> (r: Result<SinkHandshake, DecodeError>)
    ensures
        dec_sink_handshake(buf@) == (match r {
            Ok(v) => Some(v@),
            Err(_) => None,
        }),
{
    if buf.len() < SINK_HANDSHAKE_BASE_LEN {
        return Err(DecodeError);
    }
    match decode_bytes_field(buf, 0) {
        Ok(app_name) => Ok(
            SinkHandshake {
                app_name,
                session_id_hi: read_u64(buf, 8),
                session_id_lo: read_u64(buf, 16),
            },
        ),
        Err(e) => Err(e),
    }
}

pub fn decode_create_source(buf: &[u8]) -> (r: Result<CreateSource, DecodeError>)
    ensures
        dec_create_source(buf@) == (match r {
            Ok(v) => Some(v@),
            Err(_) => None,
        }),
{
    if buf.len() < CREATE_SOURCE_BASE_LEN {
        return Err(DecodeError);
    }
    let name = match decode_bytes_field(buf, 0) {
        Ok(name) => name,
        Err(e) => {
            return Err(e);
        },
    };
    let parent = match decode_opt_source_id(buf, 8) {
        Ok(parent) => parent,
        Err(e) => {
            return Err(e);
        },
    };
    let is_recurring = if buf[17] == 0 {
        false
    } else if buf[17] == 1 {
        true
    } else {
        return Err(DecodeError);
    };
    Ok(CreateSource { name, parent, is_recurring })
}

pub fn decode_trace_body(buf: &[u8]) -> (r: Result<Trace, DecodeError>)
    ensures
        dec_trace_body(buf@) == (match r {
            Ok(v) => Some(v@),
            Err(_) => None,
        }),
{
    if buf.len() < TRACE_BASE_LEN {
        return Err(DecodeError);
    }
    match decode_bytes_field(buf, 8) {
        Ok(trace) => Ok(Trace { start_nanos: read_u64(buf, 0), trace }),
        Err(e) => Err(e),
    }
}


/// Decode `n` node bases laid out consecutively from `pos`.
pub fn decode_nodes_list(buf: &[u8], pos: u32, n: u32) -> (r: Result<
    Vec<TraceAggregateNode>,
    DecodeError,
>)
    ensures
        dec_nodes(buf@, pos as int, n as nat) == (match r {
            Ok(v) => Some(nodes_view(v)),
            Err(_) => None,
        }),
{
    let mut out: Vec<TraceAggregateNode> = Vec::new();
    let mut i: u32 = 0;
    while i < n
        invariant
            i <= n,
            out@.len() == i,
            forall|j: int|
                0 <= j < i ==> #[trigger] dec_node(
                    buf@,
                    pos + TRACE_AGGREGATE_NODE_BASE_LEN * j,
                ) == Some(out@[j]@),
        decreases n - i,
    {
        let p64: u64 = pos as u64 + (TRACE_AGGREGATE_NODE_BASE_LEN as u64) * (i as u64);
        assert(p64 == pos + TRACE_AGGREGATE_NODE_BASE_LEN * (i as int));
        if p64 + (TRACE_AGGREGATE_NODE_BASE_LEN as u64) > buf.len() as u64 {
            proof {
                lemma_dec_nodes_fail(buf@, pos as int, n as nat, i as int);
            }
            return Err(DecodeError);
        }
        let p = p64 as usize;
        match decode_node(buf, p) {
            Ok(node) => {
                out.push(node);
                assert(out@[i as int]@ == node@);
            },
            Err(e) => {
                proof {
                    lemma_dec_nodes_fail(buf@, pos as int, n as nat, i as int);
                }
                return Err(e);
            },
        }
        i = i + 1;
    }
    proof {
        let ns = nodes_view(out);
        assert(ns.len() == n);
        assert forall|j: int| 0 <= j < n implies #[trigger] dec_node(
            buf@,
            pos + TRACE_AGGREGATE_NODE_BASE_LEN * j,
        ) == Some(ns[j]) by {
            assert(ns[j] == out@[j]@);
        }
        lemma_dec_nodes_build(buf@, pos as int, n as nat, ns);
    }
    Ok(out)
}

/// Decode `n` consecutive `u32` items from `pos`.
pub fn decode_u32_list(buf: &[u8], pos: u32, n: u32) -> (r: Result<Vec<u32>, DecodeError>)
    ensures
        dec_u32_items(buf@, pos as int, n as nat) == (match r {
            Ok(v) => Some(v@),
            Err(_) => None,
        }),
{
    let mut out: Vec<u32> = Vec::new();
    let mut i: u32 = 0;
    while i < n
        invariant
            i <= n,
            out@.len() == i,
            forall|j: int| 0 <= j < i ==> #[trigger] dec_u32(buf@, pos + 4 * j) == Some(out@[j]),
        decreases n - i,
    {
        let p64: u64 = pos as u64 + 4u64 * (i as u64);
        assert(p64 == pos + 4 * (i as int));
        if p64 + 4u64 > buf.len() as u64 {
            proof {
                lemma_dec_u32_items_fail(buf@, pos as int, n as nat, i as int);
            }
            return Err(DecodeError);
        }
        let p = p64 as usize;
        out.push(read_u32(buf, p));
        i = i + 1;
    }
    proof {
        lemma_dec_u32_items_build(buf@, pos as int, n as nat, out@);
    }
    Ok(out)
}

/// Decode `n` consecutive metric items from `pos`.
pub fn decode_metric_list(buf: &[u8], pos: u32, n: u32) -> (r: Result<
    Vec<MetricAggregate>,
    DecodeError,
>)
    ensures
        dec_metric_items(buf@, pos as int, n as nat) == (match r {
            Ok(v) => Some(v@),
            Err(_) => None,
        }),
{
    let mut out: Vec<MetricAggregate> = Vec::new();
    let mut i: u32 = 0;
    while i < n
        invariant
            i <= n,
            out@.len() == i,
            forall|j: int|
                0 <= j < i ==> #[trigger] dec_metric_aggregate(
                    buf@,
                    pos + METRIC_AGGREGATE_BASE_LEN * j,
                ) == Some(out@[j]),
        decreases n - i,
    {
        let p64: u64 = pos as u64 + (METRIC_AGGREGATE_BASE_LEN as u64) * (i as u64);
        assert(p64 == pos + METRIC_AGGREGATE_BASE_LEN * (i as int));
        if p64 + (METRIC_AGGREGATE_BASE_LEN as u64) > buf.len() as u64 {
            proof {
                lemma_dec_metric_items_fail(buf@, pos as int, n as nat, i as int);
            }
            return Err(DecodeError);
        }
        let p = p64 as usize;
        match decode_metric_aggregate(buf, p) {
            Ok(m) => {
                out.push(m);
            },
            Err(e) => {
                proof {
                    lemma_dec_metric_items_fail(buf@, pos as int, n as nat, i as int);
                }
                return Err(e);
            },
        }
        i = i + 1;
    }
    proof {
        lemma_dec_metric_items_build(buf@, pos as int, n as nat, out@);
    }
    Ok(out)
}

pub fn decode_trace_aggregate(buf: &[u8]) -> (r: Result<TraceAggregate, DecodeError>)
    ensures
        dec_trace_aggregate(buf@) == (match r {
            Ok(v) => Some(v@),
            Err(_) => None,
        }),
{
    if buf.len() < TRACE_AGGREGATE_BASE_LEN {
        return Err(DecodeError);
    }
    let nodes_n = read_u32(buf, 8);
    let nodes_pos = read_u32(buf, 12);
    let counters_n = read_u32(buf, 16);
    let counters_pos = read_u32(buf, 20);
    let metrics_n = read_u32(buf, 24);
    let metrics_pos = read_u32(buf, 28);
    let nodes = match decode_nodes_list(buf, nodes_pos, nodes_n) {
        Ok(nodes) => nodes,
        Err(e) => {
            return Err(e);
        },
    };
    let counters = match decode_u32_list(buf, counters_pos, counters_n) {
        Ok(counters) => counters,
        Err(e) => {
            return Err(e);
        },
    };
    let metrics = match decode_metric_list(buf, metrics_pos, metrics_n) {
        Ok(metrics) => metrics,
        Err(e) => {
            return Err(e);
        },
    };
    let v = TraceAggregate { start_nanos: read_u64(buf, 0), nodes, counters, metrics };
    proof {
        assert(v@.nodes =~= nodes_view(v.nodes));
    }
    Ok(v)
}

pub fn decode_trace_aggregate_delta(buf: &[u8]) -> (r: Result<TraceAggregateDelta, DecodeError>)
    ensures
        dec_trace_aggregate_delta(buf@) == (match r {
            Ok(v) => Some(v@),
            Err(_) => None,
        }),
{
    if buf.len() < TRACE_AGGREGATE_DELTA_BASE_LEN {
        return Err(DecodeError);
    }
    let counters_n = read_u32(buf, 16);
    let counters_pos = read_u32(buf, 20);
    let metrics_n = read_u32(buf, 24);
    let metrics_pos = read_u32(buf, 28);
    let counters = match decode_u32_list(buf, counters_pos, counters_n) {
        Ok(counters) => counters,
        Err(e) => {
            return Err(e);
        },
    };
    let metrics = match decode_metric_list(buf, metrics_pos, metrics_n) {
        Ok(metrics) => metrics,
        Err(e) => {
            return Err(e);
        },
    };
    Ok(
        TraceAggregateDelta {
            start_nanos: read_u64(buf, 0),
            end_nanos: read_u64(buf, 8),
            counters,
            metrics,
        },
    )
}

} // verus!
