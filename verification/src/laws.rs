//! Laws of the codec.
//!
//! For every schema type, decoding an encoding yields the encoded value
//! back; encoded length is the base length plus the scratch length;
//! union variants are padded with zeros up to the union base length and
//! a tag at or beyond the variant count fails to decode.

use vstd::prelude::*;

use crate::bytes::{
    u16_le,
    u32_le,
    u64_le,
    i64_le,
    zeros,
    le_u16,
    le_u32,
    le_u64,
    le_i64,
    lemma_le_u16_sub,
    lemma_le_u32_sub,
    lemma_le_u64_sub,
    lemma_le_i64_sub,
};
use crate::wire::{
    SourceId, GlobalSourceId, EventSeq, EventId, TraceCallerId, EventKind, EventHeader,
    MetricAggregate, TraceOp,
    SOURCE_ID_BASE_LEN, GLOBAL_SOURCE_ID_BASE_LEN, EVENT_SEQ_BASE_LEN, EVENT_ID_BASE_LEN,
    TRACE_CALLER_ID_BASE_LEN, EVENT_KIND_BASE_LEN, EVENT_HEADER_BASE_LEN,
    METRIC_AGGREGATE_BASE_LEN, TRACE_OP_BASE_LEN, TRACE_OP_AGGREGATE_BASE_LEN,
    TRACE_AGGREGATE_NODE_BASE_LEN, SINK_HANDSHAKE_BASE_LEN, CREATE_SOURCE_BASE_LEN,
    TRACE_BASE_LEN, TRACE_AGGREGATE_BASE_LEN, TRACE_AGGREGATE_DELTA_BASE_LEN,
    desc, enc_source_id, enc_global_source_id, enc_event_seq, enc_event_id, enc_trace_caller_id,
    enc_event_kind, enc_event_header, enc_metric_aggregate, enc_opt_source_id, enc_opt_u16,
    enc_trace_op, event_kind_tag,
    op_agg_scratch_len, op_agg_scratch, enc_op_agg_base, enc_op_agg_value, enc_node_base,
    node_scratch_len, nodes_total_scratch, enc_nodes_bases, enc_nodes_scratches, enc_nodes_block,
    enc_u32_items, enc_metric_items, enc_sink_handshake, enc_create_source, enc_trace_body,
    enc_trace_aggregate, enc_trace_aggregate_delta, trace_aggregate_encoded_len,
    dec_source_id, dec_global_source_id, dec_event_seq, dec_event_id, dec_trace_caller_id,
    dec_event_kind, dec_event_header, dec_metric_aggregate, dec_opt_source_id, dec_opt_u16,
    dec_trace_op, dec_op_agg, dec_node, dec_nodes, dec_u32, dec_u32_items, dec_metric_items, dec_bytes,
    dec_sink_handshake, dec_create_source, dec_trace_body, dec_trace_aggregate,
    dec_trace_aggregate_delta,
    TraceOpAggregateView, TraceAggregateNodeView, SinkHandshakeView, CreateSourceView, TraceView,
    TraceAggregateView, TraceAggregateDeltaView,
    lemma_enc_trace_op_len, lemma_enc_op_agg_base_len, lemma_enc_node_base_len,
    lemma_enc_nodes_bases_len, lemma_enc_nodes_scratches_len, lemma_enc_u32_items_len,
    lemma_enc_metric_items_len, lemma_enc_trace_aggregate_len,
    lemma_total_scratch_nonneg, lemma_total_scratch_split, lemma_total_scratch_snoc,
    lemma_total_scratch_prefix_bound, lemma_nodes_bases_snoc, lemma_nodes_scratches_snoc,
    lemma_u32_items_snoc, lemma_metric_items_snoc,
    lemma_dec_nodes_build, lemma_dec_u32_items_build, lemma_dec_metric_items_build,
};

verus! {

// ---------------------------------------------------------------------
// Round trips for the fixed-size types, stated in framed form: the
// encoding may sit anywhere inside a larger buffer.
// ---------------------------------------------------------------------

/// A `SourceId` read back from where it was written.
pub proof fn lemma_dec_source_id_framed(s: Seq<u8>, off: int, v: SourceId)
    requires
        0 <= off,
        off + SOURCE_ID_BASE_LEN <= s.len(),
        s.subrange(off, off + SOURCE_ID_BASE_LEN) == enc_source_id(v),
    ensures
        dec_source_id(s, off) == Some(v),
{
    lemma_le_u64_sub(s, off, v.source);
}

/// A `GlobalSourceId` read back from where it was written.
pub proof fn lemma_dec_global_source_id_framed(s: Seq<u8>, off: int, v: GlobalSourceId)
    requires
        0 <= off,
        off + GLOBAL_SOURCE_ID_BASE_LEN <= s.len(),
        s.subrange(off, off + GLOBAL_SOURCE_ID_BASE_LEN) == enc_global_source_id(v),
    ensures
        dec_global_source_id(s, off) == Some(v),
{
    let e = enc_global_source_id(v);
    assert(s.subrange(off, off + 8) =~= u64_le(v.session)) by {
        assert forall|i: int| 0 <= i < 8 implies s.subrange(off, off + 8)[i] == u64_le(v.session)[i]
        by {
            assert(s.subrange(off, off + GLOBAL_SOURCE_ID_BASE_LEN)[i] == e[i]);
        }
    }
    assert(s.subrange(off + 8, off + 16) =~= u64_le(v.source.source)) by {
        assert forall|i: int| 0 <= i < 8 implies s.subrange(off + 8, off + 16)[i] == u64_le(
            v.source.source,
        )[i] by {
            assert(s.subrange(off, off + GLOBAL_SOURCE_ID_BASE_LEN)[8 + i] == e[8 + i]);
        }
    }
    lemma_le_u64_sub(s, off, v.session);
    lemma_le_u64_sub(s, off + 8, v.source.source);
}

/// An `EventSeq` read back from where it was written.
pub proof fn lemma_dec_event_seq_framed(s: Seq<u8>, off: int, v: EventSeq)
    requires
        0 <= off,
        off + EVENT_SEQ_BASE_LEN <= s.len(),
        s.subrange(off, off + EVENT_SEQ_BASE_LEN) == enc_event_seq(v),
    ensures
        dec_event_seq(s, off) == Some(v),
{
    lemma_le_u16_sub(s, off, v.seq_no);
}

/// An `EventId` read back from where it was written.
pub proof fn lemma_dec_event_id_framed(s: Seq<u8>, off: int, v: EventId)
    requires
        0 <= off,
        off + EVENT_ID_BASE_LEN <= s.len(),
        s.subrange(off, off + EVENT_ID_BASE_LEN) == enc_event_id(v),
    ensures
        dec_event_id(s, off) == Some(v),
{
    let e = enc_event_id(v);
    assert(s.subrange(off, off + 8) =~= u64_le(v.source.source)) by {
        assert forall|i: int| 0 <= i < 8 implies s.subrange(off, off + 8)[i] == u64_le(
            v.source.source,
        )[i] by {
            assert(s.subrange(off, off + EVENT_ID_BASE_LEN)[i] == e[i]);
        }
    }
    assert(s.subrange(off + 8, off + 16) =~= u64_le(v.timestamp_nanos)) by {
        assert forall|i: int| 0 <= i < 8 implies s.subrange(off + 8, off + 16)[i] == u64_le(
            v.timestamp_nanos,
        )[i] by {
            assert(s.subrange(off, off + EVENT_ID_BASE_LEN)[8 + i] == e[8 + i]);
        }
    }
    assert(s.subrange(off + 16, off + 18) =~= u16_le(v.seq_no.seq_no)) by {
        assert forall|i: int| 0 <= i < 2 implies s.subrange(off + 16, off + 18)[i] == u16_le(
            v.seq_no.seq_no,
        )[i] by {
            assert(s.subrange(off, off + EVENT_ID_BASE_LEN)[16 + i] == e[16 + i]);
        }
    }
    lemma_le_u64_sub(s, off, v.source.source);
    lemma_le_u64_sub(s, off + 8, v.timestamp_nanos);
    lemma_le_u16_sub(s, off + 16, v.seq_no.seq_no);
}

/// A `TraceCallerId` read back from where it was written.
pub proof fn lemma_dec_trace_caller_id_framed(s: Seq<u8>, off: int, v: TraceCallerId)
    requires
        0 <= off,
        off + TRACE_CALLER_ID_BASE_LEN <= s.len(),
        s.subrange(off, off + TRACE_CALLER_ID_BASE_LEN) == enc_trace_caller_id(v),
    ensures
        dec_trace_caller_id(s, off) == Some(v),
{
    let e = enc_trace_caller_id(v);
    assert(s.subrange(off, off + 18) =~= enc_event_id(v.event_id)) by {
        assert forall|i: int| 0 <= i < 18 implies s.subrange(off, off + 18)[i] == enc_event_id(
            v.event_id,
        )[i] by {
            assert(s.subrange(off, off + TRACE_CALLER_ID_BASE_LEN)[i] == e[i]);
        }
    }
    assert(s.subrange(off + 18, off + 20) =~= u16_le(v.op_index)) by {
        assert forall|i: int| 0 <= i < 2 implies s.subrange(off + 18, off + 20)[i] == u16_le(
            v.op_index,
        )[i] by {
            assert(s.subrange(off, off + TRACE_CALLER_ID_BASE_LEN)[18 + i] == e[18 + i]);
        }
    }
    lemma_dec_event_id_framed(s, off, v.event_id);
    lemma_le_u16_sub(s, off + 18, v.op_index);
}

/// An `EventKind` read back from where it was written.
pub proof fn lemma_dec_event_kind_framed(s: Seq<u8>, off: int, v: EventKind)
    requires
        0 <= off,
        off + EVENT_KIND_BASE_LEN <= s.len(),
        s.subrange(off, off + EVENT_KIND_BASE_LEN) == enc_event_kind(v),
    ensures
        dec_event_kind(s, off) == Some(v),
{
    assert(s.subrange(off, off + EVENT_KIND_BASE_LEN)[0] == s[off]);
}

/// An `EventHeader` read back from where it was written.
pub proof fn lemma_dec_event_header_framed(s: Seq<u8>, off: int, v: EventHeader)
    requires
        0 <= off,
        off + EVENT_HEADER_BASE_LEN <= s.len(),
        s.subrange(off, off + EVENT_HEADER_BASE_LEN) == enc_event_header(v),
    ensures
        dec_event_header(s, off) == Some(v),
{
    let e = enc_event_header(v);
    assert(s.subrange(off, off + 18) =~= enc_event_id(v.id)) by {
        assert forall|i: int| 0 <= i < 18 implies s.subrange(off, off + 18)[i] == enc_event_id(
            v.id,
        )[i] by {
            assert(s.subrange(off, off + EVENT_HEADER_BASE_LEN)[i] == e[i]);
        }
    }
    assert(s.subrange(off + 18, off + 20) =~= u16_le(v.len)) by {
        assert forall|i: int| 0 <= i < 2 implies s.subrange(off + 18, off + 20)[i] == u16_le(
            v.len,
        )[i] by {
            assert(s.subrange(off, off + EVENT_HEADER_BASE_LEN)[18 + i] == e[18 + i]);
        }
    }
    assert(s.subrange(off + 20, off + 21) =~= enc_event_kind(v.kind)) by {
        assert(s.subrange(off + 20, off + 21)[0] == s[off + 20]);
        assert(s.subrange(off, off + EVENT_HEADER_BASE_LEN)[20] == e[20]);
    }
    lemma_dec_event_id_framed(s, off, v.id);
    lemma_le_u16_sub(s, off + 18, v.len);
    lemma_dec_event_kind_framed(s, off + 20, v.kind);
}

/// A `MetricAggregate` read back from where it was written.
pub proof fn lemma_dec_metric_framed(s: Seq<u8>, off: int, v: MetricAggregate)
    requires
        0 <= off,
        off + METRIC_AGGREGATE_BASE_LEN <= s.len(),
        s.subrange(off, off + METRIC_AGGREGATE_BASE_LEN) == enc_metric_aggregate(v),
    ensures
        dec_metric_aggregate(s, off) == Some(v),
{
    let e = enc_metric_aggregate(v);
    assert(s.subrange(off, off + 8) =~= u64_le(v.count)) by {
        assert forall|i: int| 0 <= i < 8 implies s.subrange(off, off + 8)[i] == u64_le(v.count)[i]
        by {
            assert(s.subrange(off, off + METRIC_AGGREGATE_BASE_LEN)[i] == e[i]);
        }
    }
    assert(s.subrange(off + 8, off + 16) =~= i64_le(v.sum)) by {
        assert forall|i: int| 0 <= i < 8 implies s.subrange(off + 8, off + 16)[i] == i64_le(
            v.sum,
        )[i] by {
            assert(s.subrange(off, off + METRIC_AGGREGATE_BASE_LEN)[8 + i] == e[8 + i]);
        }
    }
    assert(s.subrange(off + 16, off + 24) =~= i64_le(v.min)) by {
        assert forall|i: int| 0 <= i < 8 implies s.subrange(off + 16, off + 24)[i] == i64_le(
            v.min,
        )[i] by {
            assert(s.subrange(off, off + METRIC_AGGREGATE_BASE_LEN)[16 + i] == e[16 + i]);
        }
    }
    assert(s.subrange(off + 24, off + 32) =~= i64_le(v.max)) by {
        assert forall|i: int| 0 <= i < 8 implies s.subrange(off + 24, off + 32)[i] == i64_le(
            v.max,
        )[i] by {
            assert(s.subrange(off, off + METRIC_AGGREGATE_BASE_LEN)[24 + i] == e[24 + i]);
        }
    }
    lemma_le_u64_sub(s, off, v.count);
    lemma_le_i64_sub(s, off + 8, v.sum);
    lemma_le_i64_sub(s, off + 16, v.min);
    lemma_le_i64_sub(s, off + 24, v.max);
}

// ---------------------------------------------------------------------
// Top-level round trips for the fixed-size types.
// ---------------------------------------------------------------------

/// Decoding an encoded `SourceId` yields the value again.
pub proof fn lemma_round_trip_source_id(v: SourceId)
    ensures
        dec_source_id(enc_source_id(v), 0) == Some(v),
{
    let s = enc_source_id(v);
    assert(s.subrange(0, SOURCE_ID_BASE_LEN as int) =~= s);
    lemma_dec_source_id_framed(s, 0, v);
}

/// Decoding an encoded `GlobalSourceId` yields the value again.
pub proof fn lemma_round_trip_global_source_id(v: GlobalSourceId)
    ensures
        dec_global_source_id(enc_global_source_id(v), 0) == Some(v),
{
    let s = enc_global_source_id(v);
    assert(s.subrange(0, GLOBAL_SOURCE_ID_BASE_LEN as int) =~= s);
    lemma_dec_global_source_id_framed(s, 0, v);
}

/// Decoding an encoded `EventSeq` yields the value again.
pub proof fn lemma_round_trip_event_seq(v: EventSeq)
    ensures
        dec_event_seq(enc_event_seq(v), 0) == Some(v),
{
    let s = enc_event_seq(v);
    assert(s.subrange(0, EVENT_SEQ_BASE_LEN as int) =~= s);
    lemma_dec_event_seq_framed(s, 0, v);
}

/// Decoding an encoded `EventId` yields the value again.
pub proof fn lemma_round_trip_event_id(v: EventId)
    ensures
        dec_event_id(enc_event_id(v), 0) == Some(v),
{
    let s = enc_event_id(v);
    assert(s.subrange(0, EVENT_ID_BASE_LEN as int) =~= s);
    lemma_dec_event_id_framed(s, 0, v);
}

/// Decoding an encoded `TraceCallerId` yields the value again.
pub proof fn lemma_round_trip_trace_caller_id(v: TraceCallerId)
    ensures
        dec_trace_caller_id(enc_trace_caller_id(v), 0) == Some(v),
{
    let s = enc_trace_caller_id(v);
    assert(s.subrange(0, TRACE_CALLER_ID_BASE_LEN as int) =~= s);
    lemma_dec_trace_caller_id_framed(s, 0, v);
}

/// Decoding an encoded `EventKind` yields the value again.
pub proof fn lemma_round_trip_event_kind(v: EventKind)
    ensures
        dec_event_kind(enc_event_kind(v), 0) == Some(v),
{
    let s = enc_event_kind(v);
    assert(s.subrange(0, EVENT_KIND_BASE_LEN as int) =~= s);
    lemma_dec_event_kind_framed(s, 0, v);
}

/// Decoding an encoded `EventHeader` yields the value again.
pub proof fn lemma_round_trip_event_header(v: EventHeader)
    ensures
        dec_event_header(enc_event_header(v), 0) == Some(v),
{
    let s = enc_event_header(v);
    assert(s.subrange(0, EVENT_HEADER_BASE_LEN as int) =~= s);
    lemma_dec_event_header_framed(s, 0, v);
}

/// Decoding an encoded `MetricAggregate` yields the value again.
pub proof fn lemma_round_trip_metric_aggregate(v: MetricAggregate)
    ensures
        dec_metric_aggregate(enc_metric_aggregate(v), 0) == Some(v),
{
    let s = enc_metric_aggregate(v);
    assert(s.subrange(0, METRIC_AGGREGATE_BASE_LEN as int) =~= s);
    lemma_dec_metric_framed(s, 0, v);
}


// ---------------------------------------------------------------------
// Options and the wire trace op.
// ---------------------------------------------------------------------

/// An optional `SourceId` read back from where it was written.
pub proof fn lemma_dec_opt_source_id_framed(s: Seq<u8>, off: int, v: Option<SourceId>)
    requires
        0 <= off,
        off + 9 <= s.len(),
        s.subrange(off, off + 9) == enc_opt_source_id(v),
    ensures
        dec_opt_source_id(s, off) == Some(v),
{
    let e = enc_opt_source_id(v);
    assert(s.subrange(off, off + 9)[0] == s[off]);
    match v {
        Some(p) => {
            assert(s[off] == 1);
            assert(s.subrange(off + 1, off + 9) =~= u64_le(p.source)) by {
                assert forall|i: int| 0 <= i < 8 implies s.subrange(off + 1, off + 9)[i] == u64_le(
                    p.source,
                )[i] by {
                    assert(s.subrange(off, off + 9)[1 + i] == e[1 + i]);
                }
            }
            lemma_le_u64_sub(s, off + 1, p.source);
        },
        None => {
            assert(s[off] == 0);
        },
    }
}

/// An optional `u16` read back from where it was written.
pub proof fn lemma_dec_opt_u16_framed(s: Seq<u8>, off: int, v: Option<u16>)
    requires
        0 <= off,
        off + 3 <= s.len(),
        s.subrange(off, off + 3) == enc_opt_u16(v),
    ensures
        dec_opt_u16(s, off) == Some(v),
{
    let e = enc_opt_u16(v);
    assert(s.subrange(off, off + 3)[0] == s[off]);
    match v {
        Some(p) => {
            assert(s[off] == 1);
            assert(s.subrange(off + 1, off + 3) =~= u16_le(p)) by {
                assert forall|i: int| 0 <= i < 2 implies s.subrange(off + 1, off + 3)[i] == u16_le(
                    p,
                )[i] by {
                    assert(s.subrange(off, off + 3)[1 + i] == e[1 + i]);
                }
            }
            lemma_le_u16_sub(s, off + 1, p);
        },
        None => {
            assert(s[off] == 0);
        },
    }
}

/// Decoding an encoded wire trace op yields the op again.
pub proof fn lemma_round_trip_trace_op(op: TraceOp)
    ensures
        dec_trace_op(enc_trace_op(op), 0) == Some(op),
{
    let s = enc_trace_op(op);
    lemma_enc_trace_op_len(op);
    match op {
        TraceOp::CreateSource { source } => {
            assert(s.subrange(1, 9) =~= u64_le(source.source));
            lemma_le_u64_sub(s, 1, source.source);
        },
        TraceOp::DeleteSource { source } => {
            assert(s.subrange(1, 9) =~= u64_le(source.source));
            lemma_le_u64_sub(s, 1, source.source);
        },
        TraceOp::Call { source } => {
            assert(s.subrange(1, 9) =~= u64_le(source.source));
            lemma_le_u64_sub(s, 1, source.source);
        },
        TraceOp::PushScope => {},
        TraceOp::PopScope => {},
        TraceOp::BranchStart => {},
        TraceOp::BranchEnd => {},
        TraceOp::Label => {},
        TraceOp::Tag { tag } => {
            assert(s.subrange(1, 9) =~= u64_le(tag));
            lemma_le_u64_sub(s, 1, tag);
        },
        TraceOp::Metric { value } => {
            assert(s.subrange(1, 9) =~= i64_le(value));
            lemma_le_i64_sub(s, 1, value);
        },
        TraceOp::ChannelSend { channel } => {
            assert(s.subrange(1, 9) =~= u64_le(channel.source));
            lemma_le_u64_sub(s, 1, channel.source);
        },
        TraceOp::ChannelReceive { channel, sender } => {
            assert(s.subrange(1, 9) =~= u64_le(channel.source));
            lemma_le_u64_sub(s, 1, channel.source);
            assert(s.subrange(9, 29) =~= enc_trace_caller_id(sender));
            lemma_dec_trace_caller_id_framed(s, 9, sender);
        },
        TraceOp::ChannelTransfer { from, to } => {
            assert(s.subrange(1, 9) =~= u64_le(from.source));
            lemma_le_u64_sub(s, 1, from.source);
            assert(s.subrange(9, 17) =~= u64_le(to.source));
            lemma_le_u64_sub(s, 9, to.source);
        },
        TraceOp::GlobalChannelSend { channel } => {
            assert(s.subrange(1, 17) =~= enc_global_source_id(channel));
            lemma_dec_global_source_id_framed(s, 1, channel);
        },
        TraceOp::GlobalChannelReceive { channel } => {
            assert(s.subrange(1, 17) =~= enc_global_source_id(channel));
            lemma_dec_global_source_id_framed(s, 1, channel);
        },
        TraceOp::GlobalChannelTransfer { from, to } => {
            assert(s.subrange(1, 17) =~= enc_global_source_id(from));
            lemma_dec_global_source_id_framed(s, 1, from);
            assert(s.subrange(17, 33) =~= enc_global_source_id(to));
            lemma_dec_global_source_id_framed(s, 17, to);
        },
    }
}

// ---------------------------------------------------------------------
// Round trips for the records with scratch payloads.
// ---------------------------------------------------------------------

/// Decoding an encoded sink handshake yields the value again.
pub proof fn lemma_round_trip_sink_handshake(v: SinkHandshakeView)
    requires
        SINK_HANDSHAKE_BASE_LEN + v.app_name.len() <= u32::MAX,
    ensures
        dec_sink_handshake(enc_sink_handshake(v)) == Some(v),
{
    let s = enc_sink_handshake(v);
    let base = SINK_HANDSHAKE_BASE_LEN as int;
    let nlen = v.app_name.len() as int;
    assert(s.len() == base + nlen);
    assert(s.subrange(0, 4) =~= u32_le(nlen as u32));
    lemma_le_u32_sub(s, 0, nlen as u32);
    assert(s.subrange(4, 8) =~= u32_le(base as u32));
    lemma_le_u32_sub(s, 4, base as u32);
    assert(s.subrange(base, base + nlen) =~= v.app_name);
    assert(s.subrange(8, 16) =~= u64_le(v.session_id_hi));
    lemma_le_u64_sub(s, 8, v.session_id_hi);
    assert(s.subrange(16, 24) =~= u64_le(v.session_id_lo));
    lemma_le_u64_sub(s, 16, v.session_id_lo);
}

/// Decoding an encoded `CreateSource` body yields the value again.
pub proof fn lemma_round_trip_create_source(v: CreateSourceView)
    requires
        CREATE_SOURCE_BASE_LEN + v.name.len() <= u32::MAX,
    ensures
        dec_create_source(enc_create_source(v)) == Some(v),
{
    let s = enc_create_source(v);
    let base = CREATE_SOURCE_BASE_LEN as int;
    let nlen = v.name.len() as int;
    assert(s.len() == base + nlen);
    assert(s.subrange(0, 4) =~= u32_le(nlen as u32));
    lemma_le_u32_sub(s, 0, nlen as u32);
    assert(s.subrange(4, 8) =~= u32_le(base as u32));
    lemma_le_u32_sub(s, 4, base as u32);
    assert(s.subrange(base, base + nlen) =~= v.name);
    assert(s.subrange(8, 17) =~= enc_opt_source_id(v.parent));
    lemma_dec_opt_source_id_framed(s, 8, v.parent);
    assert(s[17] == (if v.is_recurring { 1u8 } else { 0u8 }));
}

/// Decoding an encoded `Trace` body yields the value again.
pub proof fn lemma_round_trip_trace_body(v: TraceView)
    requires
        TRACE_BASE_LEN + v.trace.len() <= u32::MAX,
    ensures
        dec_trace_body(enc_trace_body(v)) == Some(v),
{
    let s = enc_trace_body(v);
    let base = TRACE_BASE_LEN as int;
    let tlen = v.trace.len() as int;
    assert(s.len() == base + tlen);
    assert(s.subrange(0, 8) =~= u64_le(v.start_nanos));
    lemma_le_u64_sub(s, 0, v.start_nanos);
    assert(s.subrange(8, 12) =~= u32_le(tlen as u32));
    lemma_le_u32_sub(s, 8, tlen as u32);
    assert(s.subrange(12, 16) =~= u32_le(base as u32));
    lemma_le_u32_sub(s, 12, base as u32);
    assert(s.subrange(base, base + tlen) =~= v.trace);
}

/// An aggregate op read back from where its base and scratch were
/// written.
pub proof fn lemma_dec_op_agg_framed(s: Seq<u8>, off: int, op: TraceOpAggregateView, pos: int)
    requires
        0 <= off,
        off + TRACE_OP_AGGREGATE_BASE_LEN <= s.len(),
        s.subrange(off, off + TRACE_OP_AGGREGATE_BASE_LEN) == enc_op_agg_base(op, pos),
        0 <= pos,
        pos <= u32::MAX,
        op_agg_scratch_len(op) <= u32::MAX,
        pos + op_agg_scratch_len(op) <= s.len(),
        s.subrange(pos, pos + op_agg_scratch_len(op)) == op_agg_scratch(op),
    ensures
        dec_op_agg(s, off) == Some(op),
{
    let base = TRACE_OP_AGGREGATE_BASE_LEN as int;
    let e = enc_op_agg_base(op, pos);
    lemma_enc_op_agg_base_len(op, pos);
    assert(s.subrange(off, off + base)[0] == s[off]);
    match op {
        TraceOpAggregateView::CreateSource => {},
        TraceOpAggregateView::DeleteSource => {},
        TraceOpAggregateView::Call { source } => {
            assert(s.subrange(off + 1, off + 9) =~= u64_le(source.source)) by {
                assert forall|i: int| 0 <= i < 8 implies s.subrange(off + 1, off + 9)[i] == u64_le(
                    source.source,
                )[i] by {
                    assert(s.subrange(off, off + base)[1 + i] == e[1 + i]);
                }
            }
            lemma_le_u64_sub(s, off + 1, source.source);
        },
        TraceOpAggregateView::PushScope => {},
        TraceOpAggregateView::PopScope => {},
        TraceOpAggregateView::BranchStart { branch_end } => {
            assert(s.subrange(off + 1, off + 3) =~= u16_le(branch_end)) by {
                assert forall|i: int| 0 <= i < 2 implies s.subrange(off + 1, off + 3)[i] == u16_le(
                    branch_end,
                )[i] by {
                    assert(s.subrange(off, off + base)[1 + i] == e[1 + i]);
                }
            }
            lemma_le_u16_sub(s, off + 1, branch_end);
        },
        TraceOpAggregateView::BranchEnd { parent_branch_end } => {
            assert(s.subrange(off + 1, off + 3) =~= u16_le(parent_branch_end)) by {
                assert forall|i: int| 0 <= i < 2 implies s.subrange(off + 1, off + 3)[i] == u16_le(
                    parent_branch_end,
                )[i] by {
                    assert(s.subrange(off, off + base)[1 + i] == e[1 + i]);
                }
            }
            lemma_le_u16_sub(s, off + 1, parent_branch_end);
        },
        TraceOpAggregateView::Label { label } => {
            let lw = label.len() as u32;
            let pw = pos as u32;
            assert(s.subrange(off + 1, off + 5) =~= u32_le(lw)) by {
                assert forall|i: int| 0 <= i < 4 implies s.subrange(off + 1, off + 5)[i] == u32_le(
                    lw,
                )[i] by {
                    assert(s.subrange(off, off + base)[1 + i] == e[1 + i]);
                }
            }
            lemma_le_u32_sub(s, off + 1, lw);
            assert(s.subrange(off + 5, off + 9) =~= u32_le(pw)) by {
                assert forall|i: int| 0 <= i < 4 implies s.subrange(off + 5, off + 9)[i] == u32_le(
                    pw,
                )[i] by {
                    assert(s.subrange(off, off + base)[5 + i] == e[5 + i]);
                }
            }
            lemma_le_u32_sub(s, off + 5, pw);
            assert(dec_bytes(s, off + 1) == Some(label));
        },
        TraceOpAggregateView::Tag => {},
        TraceOpAggregateView::Metric { name, index } => {
            let nw = name.len() as u32;
            let pw = pos as u32;
            assert(s.subrange(off + 1, off + 5) =~= u32_le(nw)) by {
                assert forall|i: int| 0 <= i < 4 implies s.subrange(off + 1, off + 5)[i] == u32_le(
                    nw,
                )[i] by {
                    assert(s.subrange(off, off + base)[1 + i] == e[1 + i]);
                }
            }
            lemma_le_u32_sub(s, off + 1, nw);
            assert(s.subrange(off + 5, off + 9) =~= u32_le(pw)) by {
                assert forall|i: int| 0 <= i < 4 implies s.subrange(off + 5, off + 9)[i] == u32_le(
                    pw,
                )[i] by {
                    assert(s.subrange(off, off + base)[5 + i] == e[5 + i]);
                }
            }
            lemma_le_u32_sub(s, off + 5, pw);
            assert(dec_bytes(s, off + 1) == Some(name));
            assert(s.subrange(off + 9, off + 11) =~= u16_le(index)) by {
                assert forall|i: int| 0 <= i < 2 implies s.subrange(off + 9, off + 11)[i]
                    == u16_le(index)[i] by {
                    assert(s.subrange(off, off + base)[9 + i] == e[9 + i]);
                }
            }
            lemma_le_u16_sub(s, off + 9, index);
        },
        TraceOpAggregateView::ChannelSend { channel } => {
            assert(s.subrange(off + 1, off + 9) =~= u64_le(channel.source)) by {
                assert forall|i: int| 0 <= i < 8 implies s.subrange(off + 1, off + 9)[i] == u64_le(
                    channel.source,
                )[i] by {
                    assert(s.subrange(off, off + base)[1 + i] == e[1 + i]);
                }
            }
            lemma_le_u64_sub(s, off + 1, channel.source);
        },
        TraceOpAggregateView::ChannelReceive { channel } => {
            assert(s.subrange(off + 1, off + 9) =~= u64_le(channel.source)) by {
                assert forall|i: int| 0 <= i < 8 implies s.subrange(off + 1, off + 9)[i] == u64_le(
                    channel.source,
                )[i] by {
                    assert(s.subrange(off, off + base)[1 + i] == e[1 + i]);
                }
            }
            lemma_le_u64_sub(s, off + 1, channel.source);
        },
        TraceOpAggregateView::ChannelTransfer { from, to } => {
            assert(s.subrange(off + 1, off + 9) =~= u64_le(from.source)) by {
                assert forall|i: int| 0 <= i < 8 implies s.subrange(off + 1, off + 9)[i] == u64_le(
                    from.source,
                )[i] by {
                    assert(s.subrange(off, off + base)[1 + i] == e[1 + i]);
                }
            }
            lemma_le_u64_sub(s, off + 1, from.source);
            assert(s.subrange(off + 9, off + 17) =~= u64_le(to.source)) by {
                assert forall|i: int| 0 <= i < 8 implies s.subrange(off + 9, off + 17)[i]
                    == u64_le(to.source)[i] by {
                    assert(s.subrange(off, off + base)[9 + i] == e[9 + i]);
                }
            }
            lemma_le_u64_sub(s, off + 9, to.source);
        },
        TraceOpAggregateView::GlobalChannelSend { channel } => {
            assert(s.subrange(off + 1, off + 17) =~= enc_global_source_id(channel)) by {
                assert forall|i: int| 0 <= i < 16 implies s.subrange(off + 1, off + 17)[i]
                    == enc_global_source_id(channel)[i] by {
                    assert(s.subrange(off, off + base)[1 + i] == e[1 + i]);
                }
            }
            lemma_dec_global_source_id_framed(s, off + 1, channel);
        },
        TraceOpAggregateView::GlobalChannelReceive { channel } => {
            assert(s.subrange(off + 1, off + 17) =~= enc_global_source_id(channel)) by {
                assert forall|i: int| 0 <= i < 16 implies s.subrange(off + 1, off + 17)[i]
                    == enc_global_source_id(channel)[i] by {
                    assert(s.subrange(off, off + base)[1 + i] == e[1 + i]);
                }
            }
            lemma_dec_global_source_id_framed(s, off + 1, channel);
        },
        TraceOpAggregateView::GlobalChannelTransfer { from, to } => {
            assert(s.subrange(off + 1, off + 17) =~= enc_global_source_id(from)) by {
                assert forall|i: int| 0 <= i < 16 implies s.subrange(off + 1, off + 17)[i]
                    == enc_global_source_id(from)[i] by {
                    assert(s.subrange(off, off + base)[1 + i] == e[1 + i]);
                }
            }
            lemma_dec_global_source_id_framed(s, off + 1, from);
            assert(s.subrange(off + 17, off + 33) =~= enc_global_source_id(to)) by {
                assert forall|i: int| 0 <= i < 16 implies s.subrange(off + 17, off + 33)[i]
                    == enc_global_source_id(to)[i] by {
                    assert(s.subrange(off, off + base)[17 + i] == e[17 + i]);
                }
            }
            lemma_dec_global_source_id_framed(s, off + 17, to);
        },
    }
}

/// Decoding a lone encoded aggregate op yields the op again.
pub proof fn lemma_round_trip_op_aggregate(op: TraceOpAggregateView)
    requires
        TRACE_OP_AGGREGATE_BASE_LEN + op_agg_scratch_len(op) <= u32::MAX,
    ensures
        dec_op_agg(enc_op_agg_value(op), 0) == Some(op),
{
    let s = enc_op_agg_value(op);
    let base = TRACE_OP_AGGREGATE_BASE_LEN as int;
    lemma_enc_op_agg_base_len(op, base);
    assert(s.subrange(0, base) =~= enc_op_agg_base(op, base));
    assert(s.subrange(base, base + op_agg_scratch_len(op)) =~= op_agg_scratch(op));
    lemma_dec_op_agg_framed(s, 0, op, base);
}


// ---------------------------------------------------------------------
// Positions of items inside the encoded list blocks.
// ---------------------------------------------------------------------

/// The node bases block splits at any prefix.
pub proof fn lemma_nodes_bases_split(nodes: Seq<TraceAggregateNodeView>, pos: int, k: int)
    requires
        0 <= k <= nodes.len(),
    ensures
        enc_nodes_bases(nodes, pos) == enc_nodes_bases(nodes.take(k), pos) + enc_nodes_bases(
            nodes.skip(k),
            pos + nodes_total_scratch(nodes.take(k)),
        ),
    decreases k,
{
    if k == 0 {
        assert(nodes.take(0) =~= Seq::empty());
        assert(nodes.skip(0) =~= nodes);
        assert(enc_nodes_bases(Seq::empty(), pos) + enc_nodes_bases(nodes, pos)
            =~= enc_nodes_bases(nodes, pos));
    } else {
        let rest = nodes.drop_first();
        lemma_nodes_bases_split(rest, pos + node_scratch_len(nodes[0]), k - 1);
        assert(nodes.take(k).drop_first() =~= rest.take(k - 1));
        assert(nodes.skip(k) =~= rest.skip(k - 1));
        assert(nodes.take(k)[0] == nodes[0]);
        assert(nodes_total_scratch(nodes.take(k)) == node_scratch_len(nodes[0])
            + nodes_total_scratch(rest.take(k - 1)));
        assert(enc_nodes_bases(nodes, pos) == enc_node_base(nodes[0], pos) + enc_nodes_bases(
            rest,
            pos + node_scratch_len(nodes[0]),
        ));
        assert(enc_nodes_bases(nodes.take(k), pos) == enc_node_base(nodes[0], pos)
            + enc_nodes_bases(rest.take(k - 1), pos + node_scratch_len(nodes[0])));
        assert(enc_node_base(nodes[0], pos) + (enc_nodes_bases(rest.take(k - 1), pos
            + node_scratch_len(nodes[0])) + enc_nodes_bases(rest.skip(k - 1), pos
            + node_scratch_len(nodes[0]) + nodes_total_scratch(rest.take(k - 1)))) =~= (
        enc_node_base(nodes[0], pos) + enc_nodes_bases(rest.take(k - 1), pos + node_scratch_len(
            nodes[0],
        ))) + enc_nodes_bases(rest.skip(k - 1), pos + node_scratch_len(nodes[0])
            + nodes_total_scratch(rest.take(k - 1))));
    }
}

/// The base of node `i` sits `i` strides into the bases block, with its
/// scratch placed after the scratch of the nodes before it.
pub proof fn lemma_nodes_bases_index(nodes: Seq<TraceAggregateNodeView>, pos: int, i: int)
    requires
        0 <= i < nodes.len(),
    ensures
        enc_nodes_bases(nodes, pos).subrange(
            TRACE_AGGREGATE_NODE_BASE_LEN * i,
            TRACE_AGGREGATE_NODE_BASE_LEN * i + TRACE_AGGREGATE_NODE_BASE_LEN,
        ) == enc_node_base(nodes[i], pos + nodes_total_scratch(nodes.take(i))),
{
    let stride = TRACE_AGGREGATE_NODE_BASE_LEN as int;
    lemma_nodes_bases_split(nodes, pos, i);
    let a = enc_nodes_bases(nodes.take(i), pos);
    let t = nodes_total_scratch(nodes.take(i));
    let b = enc_nodes_bases(nodes.skip(i), pos + t);
    lemma_enc_nodes_bases_len(nodes.take(i), pos);
    lemma_enc_nodes_bases_len(nodes.skip(i), pos + t);
    assert(a.len() == stride * i) by (nonlinear_arith)
        requires
            a.len() == stride * nodes.take(i).len(),
            nodes.take(i).len() == i,
            stride == TRACE_AGGREGATE_NODE_BASE_LEN,
    ;
    assert(nodes.skip(i)[0] == nodes[i]);
    assert(nodes.skip(i).len() > 0);
    assert(b == enc_node_base(nodes[i], pos + t) + enc_nodes_bases(
        nodes.skip(i).drop_first(),
        pos + t + node_scratch_len(nodes[i]),
    ));
    lemma_enc_node_base_len(nodes[i], pos + t);
    assert((a + b).subrange(stride * i, stride * i + stride) =~= enc_node_base(
        nodes[i],
        pos + t,
    ));
}

/// The node scratches block splits at any prefix.
pub proof fn lemma_nodes_scratches_split(nodes: Seq<TraceAggregateNodeView>, k: int)
    requires
        0 <= k <= nodes.len(),
    ensures
        enc_nodes_scratches(nodes) == enc_nodes_scratches(nodes.take(k)) + enc_nodes_scratches(
            nodes.skip(k),
        ),
    decreases k,
{
    if k == 0 {
        assert(nodes.take(0) =~= Seq::empty());
        assert(nodes.skip(0) =~= nodes);
        assert(enc_nodes_scratches(Seq::empty()) + enc_nodes_scratches(nodes)
            =~= enc_nodes_scratches(nodes));
    } else {
        let rest = nodes.drop_first();
        lemma_nodes_scratches_split(rest, k - 1);
        assert(nodes.take(k).drop_first() =~= rest.take(k - 1));
        assert(nodes.skip(k) =~= rest.skip(k - 1));
        assert(nodes.take(k)[0] == nodes[0]);
        assert(op_agg_scratch(nodes[0].op) + (enc_nodes_scratches(rest.take(k - 1))
            + enc_nodes_scratches(rest.skip(k - 1))) =~= (op_agg_scratch(nodes[0].op)
            + enc_nodes_scratches(rest.take(k - 1))) + enc_nodes_scratches(rest.skip(k - 1)));
    }
}

/// The scratch of node `i` sits after the scratch of the nodes before
/// it.
pub proof fn lemma_nodes_scratches_index(nodes: Seq<TraceAggregateNodeView>, i: int)
    requires
        0 <= i < nodes.len(),
    ensures
        enc_nodes_scratches(nodes).subrange(
            nodes_total_scratch(nodes.take(i)),
            nodes_total_scratch(nodes.take(i)) + node_scratch_len(nodes[i]),
        ) == op_agg_scratch(nodes[i].op),
{
    lemma_nodes_scratches_split(nodes, i);
    let a = enc_nodes_scratches(nodes.take(i));
    let b = enc_nodes_scratches(nodes.skip(i));
    lemma_enc_nodes_scratches_len(nodes.take(i));
    lemma_enc_nodes_scratches_len(nodes.skip(i));
    assert(nodes.skip(i)[0] == nodes[i]);
    assert(b == op_agg_scratch(nodes[i].op) + enc_nodes_scratches(nodes.skip(i).drop_first()));
    lemma_total_scratch_nonneg(nodes.take(i));
    assert((a + b).subrange(a.len() as int, a.len() + node_scratch_len(nodes[i]))
        =~= op_agg_scratch(nodes[i].op));
}

/// The `u32` items block splits at any prefix.
pub proof fn lemma_u32_items_split(items: Seq<u32>, k: int)
    requires
        0 <= k <= items.len(),
    ensures
        enc_u32_items(items) == enc_u32_items(items.take(k)) + enc_u32_items(items.skip(k)),
    decreases k,
{
    if k == 0 {
        assert(items.take(0) =~= Seq::empty());
        assert(items.skip(0) =~= items);
        assert(enc_u32_items(Seq::empty()) + enc_u32_items(items) =~= enc_u32_items(items));
    } else {
        let rest = items.drop_first();
        lemma_u32_items_split(rest, k - 1);
        assert(items.take(k).drop_first() =~= rest.take(k - 1));
        assert(items.skip(k) =~= rest.skip(k - 1));
        assert(items.take(k)[0] == items[0]);
        assert(u32_le(items[0]) + (enc_u32_items(rest.take(k - 1)) + enc_u32_items(rest.skip(k
            - 1))) =~= (u32_le(items[0]) + enc_u32_items(rest.take(k - 1))) + enc_u32_items(
            rest.skip(k - 1),
        ));
    }
}

/// Item `i` of a `u32` list sits four bytes times `i` into its block.
pub proof fn lemma_u32_items_index(items: Seq<u32>, i: int)
    requires
        0 <= i < items.len(),
    ensures
        enc_u32_items(items).subrange(4 * i, 4 * i + 4) == u32_le(items[i]),
{
    lemma_u32_items_split(items, i);
    let a = enc_u32_items(items.take(i));
    let b = enc_u32_items(items.skip(i));
    lemma_enc_u32_items_len(items.take(i));
    assert(items.skip(i)[0] == items[i]);
    assert(b == u32_le(items[i]) + enc_u32_items(items.skip(i).drop_first()));
    assert((a + b).subrange(4 * i, 4 * i + 4) =~= u32_le(items[i]));
}

/// The metric items block splits at any prefix.
pub proof fn lemma_metric_items_split(items: Seq<MetricAggregate>, k: int)
    requires
        0 <= k <= items.len(),
    ensures
        enc_metric_items(items) == enc_metric_items(items.take(k)) + enc_metric_items(
            items.skip(k),
        ),
    decreases k,
{
    if k == 0 {
        assert(items.take(0) =~= Seq::empty());
        assert(items.skip(0) =~= items);
        assert(enc_metric_items(Seq::empty()) + enc_metric_items(items) =~= enc_metric_items(
            items,
        ));
    } else {
        let rest = items.drop_first();
        lemma_metric_items_split(rest, k - 1);
        assert(items.take(k).drop_first() =~= rest.take(k - 1));
        assert(items.skip(k) =~= rest.skip(k - 1));
        assert(items.take(k)[0] == items[0]);
        assert(enc_metric_aggregate(items[0]) + (enc_metric_items(rest.take(k - 1))
            + enc_metric_items(rest.skip(k - 1))) =~= (enc_metric_aggregate(items[0])
            + enc_metric_items(rest.take(k - 1))) + enc_metric_items(rest.skip(k - 1)));
    }
}

/// Item `i` of a metric list sits one stride times `i` into its block.
pub proof fn lemma_metric_items_index(items: Seq<MetricAggregate>, i: int)
    requires
        0 <= i < items.len(),
    ensures
        enc_metric_items(items).subrange(
            METRIC_AGGREGATE_BASE_LEN * i,
            METRIC_AGGREGATE_BASE_LEN * i + METRIC_AGGREGATE_BASE_LEN,
        ) == enc_metric_aggregate(items[i]),
{
    let stride = METRIC_AGGREGATE_BASE_LEN as int;
    lemma_metric_items_split(items, i);
    let a = enc_metric_items(items.take(i));
    let b = enc_metric_items(items.skip(i));
    lemma_enc_metric_items_len(items.take(i));
    assert(a.len() == stride * i) by (nonlinear_arith)
        requires
            a.len() == stride * items.take(i).len(),
            items.take(i).len() == i,
            stride == METRIC_AGGREGATE_BASE_LEN,
    ;
    assert(items.skip(i)[0] == items[i]);
    assert(b == enc_metric_aggregate(items[i]) + enc_metric_items(items.skip(i).drop_first()));
    assert((a + b).subrange(stride * i, stride * i + stride) =~= enc_metric_aggregate(items[i]));
}

/// A graph node read back from where its base and scratch were written.
pub proof fn lemma_dec_node_framed(s: Seq<u8>, off: int, nv: TraceAggregateNodeView, pos: int)
    requires
        0 <= off,
        off + TRACE_AGGREGATE_NODE_BASE_LEN <= s.len(),
        s.subrange(off, off + TRACE_AGGREGATE_NODE_BASE_LEN) == enc_node_base(nv, pos),
        0 <= pos,
        pos <= u32::MAX,
        node_scratch_len(nv) <= u32::MAX,
        pos + node_scratch_len(nv) <= s.len(),
        s.subrange(pos, pos + node_scratch_len(nv)) == op_agg_scratch(nv.op),
    ensures
        dec_node(s, off) == Some(nv),
{
    let e = enc_node_base(nv, pos);
    lemma_enc_op_agg_base_len(nv.op, pos);
    assert(s.subrange(off, off + 33) =~= enc_op_agg_base(nv.op, pos)) by {
        assert forall|i: int| 0 <= i < 33 implies s.subrange(off, off + 33)[i] == enc_op_agg_base(
            nv.op,
            pos,
        )[i] by {
            assert(s.subrange(off, off + TRACE_AGGREGATE_NODE_BASE_LEN)[i] == e[i]);
        }
    }
    lemma_dec_op_agg_framed(s, off, nv.op, pos);
    assert(s.subrange(off + 33, off + 36) =~= enc_opt_u16(nv.branch_next)) by {
        assert forall|i: int| 0 <= i < 3 implies s.subrange(off + 33, off + 36)[i] == enc_opt_u16(
            nv.branch_next,
        )[i] by {
            assert(s.subrange(off, off + TRACE_AGGREGATE_NODE_BASE_LEN)[33 + i] == e[33 + i]);
        }
    }
    lemma_dec_opt_u16_framed(s, off + 33, nv.branch_next);
    assert(s.subrange(off + 36, off + 39) =~= enc_opt_u16(nv.next)) by {
        assert forall|i: int| 0 <= i < 3 implies s.subrange(off + 36, off + 39)[i] == enc_opt_u16(
            nv.next,
        )[i] by {
            assert(s.subrange(off, off + TRACE_AGGREGATE_NODE_BASE_LEN)[36 + i] == e[36 + i]);
        }
    }
    lemma_dec_opt_u16_framed(s, off + 36, nv.next);
}


/// The node list of an encoded `TraceAggregate` body decodes back.
#[verifier::rlimit(100)]
proof fn lemma_agg_nodes_part(v: TraceAggregateView)
    requires
        trace_aggregate_encoded_len(v) <= u32::MAX,
    ensures
        dec_nodes(
            enc_trace_aggregate(v),
            TRACE_AGGREGATE_BASE_LEN as int,
            v.nodes.len(),
        ) == Some(v.nodes),
{
    let s = enc_trace_aggregate(v);
    let stride = TRACE_AGGREGATE_NODE_BASE_LEN as int;
    let n = v.nodes.len() as int;
    let c = v.counters.len() as int;
    let m = v.metrics.len() as int;
    let ts = nodes_total_scratch(v.nodes);
    let scratch0 = TRACE_AGGREGATE_BASE_LEN + stride * n;
    let cpos = scratch0 + ts;
    let mpos = cpos + 4 * c;
    lemma_enc_trace_aggregate_len(v);
    lemma_total_scratch_nonneg(v.nodes);
    let p1 = u64_le(v.start_nanos);
    let d1 = desc(n, TRACE_AGGREGATE_BASE_LEN as int);
    let d2 = desc(c, cpos);
    let d3 = desc(m, mpos);
    let bases = enc_nodes_bases(v.nodes, scratch0);
    let scr = enc_nodes_scratches(v.nodes);
    let cit = enc_u32_items(v.counters);
    let mit = enc_metric_items(v.metrics);
    lemma_enc_nodes_bases_len(v.nodes, scratch0);
    lemma_enc_nodes_scratches_len(v.nodes);
    lemma_enc_u32_items_len(v.counters);
    lemma_enc_metric_items_len(v.metrics);
    assert(s == p1 + d1 + d2 + d3 + (bases + scr) + cit + mit);
    assert forall|i: int| 0 <= i < n implies #[trigger] dec_node(
        s,
        TRACE_AGGREGATE_BASE_LEN + stride * i,
    ) == Some(v.nodes[i]) by {
        let a = stride * i;
        assert(a + stride <= stride * n && 0 <= a) by (nonlinear_arith)
            requires
                0 <= i < n,
                stride == TRACE_AGGREGATE_NODE_BASE_LEN,
                a == stride * i,
        ;
        let t_i = nodes_total_scratch(v.nodes.take(i));
        let sl_i = node_scratch_len(v.nodes[i]);
        lemma_total_scratch_prefix_bound(v.nodes, i);
        lemma_total_scratch_snoc(v.nodes, i);
        lemma_total_scratch_prefix_bound(v.nodes, i + 1);
        assert(t_i + sl_i <= ts);
        lemma_nodes_bases_index(v.nodes, scratch0, i);
        lemma_nodes_scratches_index(v.nodes, i);
        let off = TRACE_AGGREGATE_BASE_LEN + a;
        assert(s.subrange(off, off + stride) =~= enc_node_base(v.nodes[i], scratch0 + t_i)) by {
            assert forall|j: int| 0 <= j < stride implies #[trigger] s.subrange(off, off
                + stride)[j] == enc_node_base(v.nodes[i], scratch0 + t_i)[j] by {
                assert(s[off + j] == (bases + scr)[a + j]);
                assert((bases + scr)[a + j] == bases[a + j]);
                assert(bases.subrange(a, a + stride)[j] == bases[a + j]);
            }
        }
        let pos_i = scratch0 + t_i;
        assert(s.subrange(pos_i, pos_i + sl_i) =~= op_agg_scratch(v.nodes[i].op)) by {
            assert forall|j: int| 0 <= j < sl_i implies #[trigger] s.subrange(pos_i, pos_i
                + sl_i)[j] == op_agg_scratch(v.nodes[i].op)[j] by {
                assert(s[pos_i + j] == (bases + scr)[stride * n + t_i + j]);
                assert((bases + scr)[stride * n + t_i + j] == scr[t_i + j]);
                assert(scr.subrange(t_i, t_i + sl_i)[j] == scr[t_i + j]);
            }
        }
        lemma_dec_node_framed(s, off, v.nodes[i], pos_i);
    }
    lemma_dec_nodes_build(s, TRACE_AGGREGATE_BASE_LEN as int, v.nodes.len(), v.nodes);
}

/// The counter list of an encoded `TraceAggregate` body decodes back.
#[verifier::rlimit(100)]
proof fn lemma_agg_counters_part(v: TraceAggregateView)
    requires
        trace_aggregate_encoded_len(v) <= u32::MAX,
    ensures
        dec_u32_items(
            enc_trace_aggregate(v),
            TRACE_AGGREGATE_BASE_LEN + TRACE_AGGREGATE_NODE_BASE_LEN * v.nodes.len()
                + nodes_total_scratch(v.nodes),
            v.counters.len(),
        ) == Some(v.counters),
{
    let s = enc_trace_aggregate(v);
    let stride = TRACE_AGGREGATE_NODE_BASE_LEN as int;
    let n = v.nodes.len() as int;
    let c = v.counters.len() as int;
    let m = v.metrics.len() as int;
    let ts = nodes_total_scratch(v.nodes);
    let scratch0 = TRACE_AGGREGATE_BASE_LEN + stride * n;
    let cpos = scratch0 + ts;
    let mpos = cpos + 4 * c;
    lemma_enc_trace_aggregate_len(v);
    lemma_total_scratch_nonneg(v.nodes);
    let p1 = u64_le(v.start_nanos);
    let d1 = desc(n, TRACE_AGGREGATE_BASE_LEN as int);
    let d2 = desc(c, cpos);
    let d3 = desc(m, mpos);
    let bases = enc_nodes_bases(v.nodes, scratch0);
    let scr = enc_nodes_scratches(v.nodes);
    let cit = enc_u32_items(v.counters);
    let mit = enc_metric_items(v.metrics);
    lemma_enc_nodes_bases_len(v.nodes, scratch0);
    lemma_enc_nodes_scratches_len(v.nodes);
    lemma_enc_u32_items_len(v.counters);
    lemma_enc_metric_items_len(v.metrics);
    assert(s == p1 + d1 + d2 + d3 + (bases + scr) + cit + mit);
    assert forall|i: int| 0 <= i < c implies #[trigger] dec_u32(s, cpos + 4 * i) == Some(
        v.counters[i],
    ) by {
        lemma_u32_items_index(v.counters, i);
        let q = cpos + 4 * i;
        assert(s.subrange(q, q + 4) =~= u32_le(v.counters[i])) by {
            assert forall|j: int| 0 <= j < 4 implies #[trigger] s.subrange(q, q + 4)[j] == u32_le(
                v.counters[i],
            )[j] by {
                assert(s[q + j] == cit[4 * i + j]);
                assert(cit.subrange(4 * i, 4 * i + 4)[j] == cit[4 * i + j]);
            }
        }
        lemma_le_u32_sub(s, q, v.counters[i]);
    }
    lemma_dec_u32_items_build(s, cpos, v.counters.len(), v.counters);
}

/// The metric list of an encoded `TraceAggregate` body decodes back.
#[verifier::rlimit(100)]
proof fn lemma_agg_metrics_part(v: TraceAggregateView)
    requires
        trace_aggregate_encoded_len(v) <= u32::MAX,
    ensures
        dec_metric_items(
            enc_trace_aggregate(v),
            TRACE_AGGREGATE_BASE_LEN + TRACE_AGGREGATE_NODE_BASE_LEN * v.nodes.len()
                + nodes_total_scratch(v.nodes) + 4 * v.counters.len(),
            v.metrics.len(),
        ) == Some(v.metrics),
{
    let s = enc_trace_aggregate(v);
    let stride = TRACE_AGGREGATE_NODE_BASE_LEN as int;
    let n = v.nodes.len() as int;
    let c = v.counters.len() as int;
    let m = v.metrics.len() as int;
    let ts = nodes_total_scratch(v.nodes);
    let scratch0 = TRACE_AGGREGATE_BASE_LEN + stride * n;
    let cpos = scratch0 + ts;
    let mpos = cpos + 4 * c;
    lemma_enc_trace_aggregate_len(v);
    lemma_total_scratch_nonneg(v.nodes);
    let p1 = u64_le(v.start_nanos);
    let d1 = desc(n, TRACE_AGGREGATE_BASE_LEN as int);
    let d2 = desc(c, cpos);
    let d3 = desc(m, mpos);
    let bases = enc_nodes_bases(v.nodes, scratch0);
    let scr = enc_nodes_scratches(v.nodes);
    let cit = enc_u32_items(v.counters);
    let mit = enc_metric_items(v.metrics);
    lemma_enc_nodes_bases_len(v.nodes, scratch0);
    lemma_enc_nodes_scratches_len(v.nodes);
    lemma_enc_u32_items_len(v.counters);
    lemma_enc_metric_items_len(v.metrics);
    assert(s == p1 + d1 + d2 + d3 + (bases + scr) + cit + mit);
    assert forall|i: int| 0 <= i < m implies #[trigger] dec_metric_aggregate(
        s,
        mpos + METRIC_AGGREGATE_BASE_LEN * i,
    ) == Some(v.metrics[i]) by {
        let mstride = METRIC_AGGREGATE_BASE_LEN as int;
        let a = mstride * i;
        assert(a + mstride <= mstride * m && 0 <= a) by (nonlinear_arith)
            requires
                0 <= i < m,
                mstride == METRIC_AGGREGATE_BASE_LEN,
                a == mstride * i,
        ;
        lemma_metric_items_index(v.metrics, i);
        let q = mpos + a;
        assert(s.subrange(q, q + mstride) =~= enc_metric_aggregate(v.metrics[i])) by {
            assert forall|j: int| 0 <= j < mstride implies #[trigger] s.subrange(q, q
                + mstride)[j] == enc_metric_aggregate(v.metrics[i])[j] by {
                assert(s[q + j] == mit[a + j]);
                assert(mit.subrange(a, a + mstride)[j] == mit[a + j]);
            }
        }
        lemma_dec_metric_framed(s, q, v.metrics[i]);
    }
    lemma_dec_metric_items_build(s, mpos, v.metrics.len(), v.metrics);
}

/// Decoding an encoded `TraceAggregate` body yields the value again.
#[verifier::rlimit(100)]
pub proof fn lemma_round_trip_trace_aggregate(v: TraceAggregateView)
    requires
        trace_aggregate_encoded_len(v) <= u32::MAX,
    ensures
        dec_trace_aggregate(enc_trace_aggregate(v)) == Some(v),
{
    let s = enc_trace_aggregate(v);
    let stride = TRACE_AGGREGATE_NODE_BASE_LEN as int;
    let n = v.nodes.len() as int;
    let c = v.counters.len() as int;
    let m = v.metrics.len() as int;
    let ts = nodes_total_scratch(v.nodes);
    let scratch0 = TRACE_AGGREGATE_BASE_LEN + stride * n;
    let cpos = scratch0 + ts;
    let mpos = cpos + 4 * c;
    lemma_enc_trace_aggregate_len(v);
    lemma_total_scratch_nonneg(v.nodes);
    let p1 = u64_le(v.start_nanos);
    let d1 = desc(n, TRACE_AGGREGATE_BASE_LEN as int);
    let d2 = desc(c, cpos);
    let d3 = desc(m, mpos);
    let bases = enc_nodes_bases(v.nodes, scratch0);
    let scr = enc_nodes_scratches(v.nodes);
    let cit = enc_u32_items(v.counters);
    let mit = enc_metric_items(v.metrics);
    lemma_enc_nodes_bases_len(v.nodes, scratch0);
    lemma_enc_nodes_scratches_len(v.nodes);
    lemma_enc_u32_items_len(v.counters);
    lemma_enc_metric_items_len(v.metrics);
    assert(s == p1 + d1 + d2 + d3 + (bases + scr) + cit + mit);
    assert(n <= stride * n && c <= 4 * c && m <= METRIC_AGGREGATE_BASE_LEN * m)
        by (nonlinear_arith)
        requires
            n >= 0,
            c >= 0,
            m >= 0,
            stride == TRACE_AGGREGATE_NODE_BASE_LEN,
    ;
    let nw = n as u32;
    let cw = c as u32;
    let mw = m as u32;
    let basew = TRACE_AGGREGATE_BASE_LEN as u32;
    let cposw = cpos as u32;
    let mposw = mpos as u32;
    assert(s.subrange(0, 8) =~= p1);
    lemma_le_u64_sub(s, 0, v.start_nanos);
    assert(s.subrange(8, 12) =~= u32_le(nw));
    lemma_le_u32_sub(s, 8, nw);
    assert(s.subrange(12, 16) =~= u32_le(basew));
    lemma_le_u32_sub(s, 12, basew);
    assert(s.subrange(16, 20) =~= u32_le(cw));
    lemma_le_u32_sub(s, 16, cw);
    assert(s.subrange(20, 24) =~= u32_le(cposw));
    lemma_le_u32_sub(s, 20, cposw);
    assert(s.subrange(24, 28) =~= u32_le(mw));
    lemma_le_u32_sub(s, 24, mw);
    assert(s.subrange(28, 32) =~= u32_le(mposw));
    lemma_le_u32_sub(s, 28, mposw);
    lemma_agg_nodes_part(v);
    lemma_agg_counters_part(v);
    lemma_agg_metrics_part(v);
}

/// Decoding an encoded `TraceAggregateDelta` body yields the value
/// again.
pub proof fn lemma_round_trip_trace_aggregate_delta(v: TraceAggregateDeltaView)
    requires
        TRACE_AGGREGATE_DELTA_BASE_LEN + 4 * v.counters.len() + METRIC_AGGREGATE_BASE_LEN
            * v.metrics.len() <= u32::MAX,
    ensures
        dec_trace_aggregate_delta(enc_trace_aggregate_delta(v)) == Some(v),
{
    let s = enc_trace_aggregate_delta(v);
    let c = v.counters.len() as int;
    let m = v.metrics.len() as int;
    let cpos = TRACE_AGGREGATE_DELTA_BASE_LEN + 4 * c;
    let p1 = u64_le(v.start_nanos);
    let p2 = u64_le(v.end_nanos);
    let d1 = desc(c, TRACE_AGGREGATE_DELTA_BASE_LEN as int);
    let d2 = desc(m, cpos);
    let cit = enc_u32_items(v.counters);
    let mit = enc_metric_items(v.metrics);
    lemma_enc_u32_items_len(v.counters);
    lemma_enc_metric_items_len(v.metrics);
    assert(s == p1 + p2 + d1 + d2 + cit + mit);
    assert(c <= 4 * c && m <= METRIC_AGGREGATE_BASE_LEN * m) by (nonlinear_arith)
        requires
            c >= 0,
            m >= 0,
    ;
    let cw = c as u32;
    let mw = m as u32;
    let basew = TRACE_AGGREGATE_DELTA_BASE_LEN as u32;
    let cposw = cpos as u32;
    assert(s.subrange(0, 8) =~= p1);
    lemma_le_u64_sub(s, 0, v.start_nanos);
    assert(s.subrange(8, 16) =~= p2);
    lemma_le_u64_sub(s, 8, v.end_nanos);
    assert(s.subrange(16, 20) =~= u32_le(cw));
    lemma_le_u32_sub(s, 16, cw);
    assert(s.subrange(20, 24) =~= u32_le(basew));
    lemma_le_u32_sub(s, 20, basew);
    assert(s.subrange(24, 28) =~= u32_le(mw));
    lemma_le_u32_sub(s, 24, mw);
    assert(s.subrange(28, 32) =~= u32_le(cposw));
    lemma_le_u32_sub(s, 28, cposw);
    assert forall|i: int| 0 <= i < c implies #[trigger] dec_u32(
        s,
        TRACE_AGGREGATE_DELTA_BASE_LEN + 4 * i,
    ) == Some(v.counters[i]) by {
        lemma_u32_items_index(v.counters, i);
        let q = TRACE_AGGREGATE_DELTA_BASE_LEN + 4 * i;
        assert(s.subrange(q, q + 4) =~= u32_le(v.counters[i])) by {
            assert forall|j: int| 0 <= j < 4 implies s.subrange(q, q + 4)[j] == u32_le(
                v.counters[i],
            )[j] by {
                assert(s[q + j] == cit[4 * i + j]);
                assert(cit.subrange(4 * i, 4 * i + 4)[j] == cit[4 * i + j]);
            }
        }
        lemma_le_u32_sub(s, q, v.counters[i]);
    }
    lemma_dec_u32_items_build(s, TRACE_AGGREGATE_DELTA_BASE_LEN as int, c as nat, v.counters);
    assert forall|i: int| 0 <= i < m implies #[trigger] dec_metric_aggregate(
        s,
        cpos + METRIC_AGGREGATE_BASE_LEN * i,
    ) == Some(v.metrics[i]) by {
        let mstride = METRIC_AGGREGATE_BASE_LEN as int;
        let a = mstride * i;
        assert(a + mstride <= mstride * m && 0 <= a) by (nonlinear_arith)
            requires
                0 <= i < m,
                mstride == METRIC_AGGREGATE_BASE_LEN,
                a == mstride * i,
        ;
        lemma_metric_items_index(v.metrics, i);
        let q = cpos + a;
        assert(s.subrange(q, q + mstride) =~= enc_metric_aggregate(v.metrics[i])) by {
            assert forall|j: int| 0 <= j < mstride implies #[trigger] s.subrange(q, q
                + mstride)[j] == enc_metric_aggregate(v.metrics[i])[j] by {
                assert(s[q + j] == mit[a + j]);
                assert(mit.subrange(a, a + mstride)[j] == mit[a + j]);
            }
        }
        lemma_dec_metric_framed(s, q, v.metrics[i]);
    }
    lemma_dec_metric_items_build(s, cpos, m as nat, v.metrics);
}


// ---------------------------------------------------------------------
// Encoded length, union padding, and rejection of unknown tags.
// ---------------------------------------------------------------------

/// Encoded length of each record with a scratch payload: the base
/// length plus the scratch bytes of its variable-length fields.
pub proof fn lemma_encoded_len_sink_handshake(v: SinkHandshakeView)
    ensures
        enc_sink_handshake(v).len() == SINK_HANDSHAKE_BASE_LEN + v.app_name.len(),
{
}

pub proof fn lemma_encoded_len_create_source(v: CreateSourceView)
    ensures
        enc_create_source(v).len() == CREATE_SOURCE_BASE_LEN + v.name.len(),
{
}

pub proof fn lemma_encoded_len_trace_body(v: TraceView)
    ensures
        enc_trace_body(v).len() == TRACE_BASE_LEN + v.trace.len(),
{
}

pub proof fn lemma_encoded_len_op_aggregate(op: TraceOpAggregateView)
    ensures
        enc_op_agg_value(op).len() == TRACE_OP_AGGREGATE_BASE_LEN + op_agg_scratch_len(op),
{
    lemma_enc_op_agg_base_len(op, TRACE_OP_AGGREGATE_BASE_LEN as int);
}

/// Encoded length of an aggregate body: the base, one node base stride
/// per node, the nodes' scratch, and the flat counter and metric items.
pub proof fn lemma_encoded_len_trace_aggregate(v: TraceAggregateView)
    ensures
        enc_trace_aggregate(v).len() == trace_aggregate_encoded_len(v),
{
    lemma_enc_trace_aggregate_len(v);
}

pub proof fn lemma_encoded_len_trace_aggregate_delta(v: TraceAggregateDeltaView)
    ensures
        enc_trace_aggregate_delta(v).len() == TRACE_AGGREGATE_DELTA_BASE_LEN + 4 * v.counters.len()
            + METRIC_AGGREGATE_BASE_LEN * v.metrics.len(),
{
    lemma_enc_u32_items_len(v.counters);
    lemma_enc_metric_items_len(v.metrics);
}

/// Inline payload bytes of each wire trace op variant.
pub open spec fn trace_op_payload_len(op: TraceOp) -> int {
    match op {
        TraceOp::CreateSource { .. } => 8,
        TraceOp::DeleteSource { .. } => 8,
        TraceOp::Call { .. } => 8,
        TraceOp::PushScope => 0,
        TraceOp::PopScope => 0,
        TraceOp::BranchStart => 0,
        TraceOp::BranchEnd => 0,
        TraceOp::Label => 0,
        TraceOp::Tag { .. } => 8,
        TraceOp::Metric { .. } => 8,
        TraceOp::ChannelSend { .. } => 8,
        TraceOp::ChannelReceive { .. } => 28,
        TraceOp::ChannelTransfer { .. } => 16,
        TraceOp::GlobalChannelSend { .. } => 16,
        TraceOp::GlobalChannelReceive { .. } => 16,
        TraceOp::GlobalChannelTransfer { .. } => 32,
    }
}

/// A wire trace op occupies one tag byte plus the widest variant, and
/// every byte past its own payload is zero.
pub proof fn lemma_trace_op_padding(op: TraceOp)
    ensures
        enc_trace_op(op).len() == TRACE_OP_BASE_LEN,
        trace_op_payload_len(op) <= TRACE_OP_BASE_LEN - 1,
        forall|i: int|
            1 + trace_op_payload_len(op) <= i < TRACE_OP_BASE_LEN ==> #[trigger] enc_trace_op(
                op,
            )[i] == 0,
{
    lemma_enc_trace_op_len(op);
}

/// The widest wire trace op variant fills the union exactly.
pub proof fn lemma_trace_op_base_len_tight(from: GlobalSourceId, to: GlobalSourceId)
    ensures
        trace_op_payload_len(TraceOp::GlobalChannelTransfer { from, to }) == TRACE_OP_BASE_LEN - 1,
{
}

/// Inline payload bytes of each aggregate op variant.
pub open spec fn op_agg_payload_len(op: TraceOpAggregateView) -> int {
    match op {
        TraceOpAggregateView::CreateSource => 0,
        TraceOpAggregateView::DeleteSource => 0,
        TraceOpAggregateView::Call { .. } => 8,
        TraceOpAggregateView::PushScope => 0,
        TraceOpAggregateView::PopScope => 0,
        TraceOpAggregateView::BranchStart { .. } => 2,
        TraceOpAggregateView::BranchEnd { .. } => 2,
        TraceOpAggregateView::Label { .. } => 8,
        TraceOpAggregateView::Tag => 0,
        TraceOpAggregateView::Metric { .. } => 10,
        TraceOpAggregateView::ChannelSend { .. } => 8,
        TraceOpAggregateView::ChannelReceive { .. } => 8,
        TraceOpAggregateView::ChannelTransfer { .. } => 16,
        TraceOpAggregateView::GlobalChannelSend { .. } => 16,
        TraceOpAggregateView::GlobalChannelReceive { .. } => 16,
        TraceOpAggregateView::GlobalChannelTransfer { .. } => 32,
    }
}

/// An aggregate op base occupies one tag byte plus the widest variant,
/// and every byte past its own payload is zero.
pub proof fn lemma_op_agg_padding(op: TraceOpAggregateView, pos: int)
    ensures
        enc_op_agg_base(op, pos).len() == TRACE_OP_AGGREGATE_BASE_LEN,
        op_agg_payload_len(op) <= TRACE_OP_AGGREGATE_BASE_LEN - 1,
        forall|i: int|
            1 + op_agg_payload_len(op) <= i < TRACE_OP_AGGREGATE_BASE_LEN
                ==> #[trigger] enc_op_agg_base(op, pos)[i] == 0,
{
    lemma_enc_op_agg_base_len(op, pos);
}

/// The widest aggregate op variant fills the union exactly.
pub proof fn lemma_op_agg_base_len_tight(from: GlobalSourceId, to: GlobalSourceId)
    ensures
        op_agg_payload_len(TraceOpAggregateView::GlobalChannelTransfer { from, to })
            == TRACE_OP_AGGREGATE_BASE_LEN - 1,
{
}

/// A wire trace op tag at or beyond the variant count fails to decode.
pub proof fn lemma_dec_trace_op_bad_tag(s: Seq<u8>, off: int)
    requires
        0 <= off < s.len(),
        s[off] >= 16,
    ensures
        dec_trace_op(s, off) is None,
{
}

/// An aggregate op tag at or beyond the variant count fails to decode.
pub proof fn lemma_dec_op_agg_bad_tag(s: Seq<u8>, off: int)
    requires
        0 <= off < s.len(),
        s[off] >= 16,
    ensures
        dec_op_agg(s, off) is None,
{
}

/// An event kind tag at or beyond the variant count fails to decode.
pub proof fn lemma_dec_event_kind_bad_tag(s: Seq<u8>, off: int)
    requires
        0 <= off < s.len(),
        s[off] >= 5,
    ensures
        dec_event_kind(s, off) is None,
{
}

} // verus!
