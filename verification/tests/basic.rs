use probius::codec::{
    decode_create_source, decode_sink_handshake, decode_trace_op, encode_create_source,
    encode_sink_handshake, encode_trace_op,
};
use probius::link_vec::LinkVec;
use probius::trace::{Trace, TraceAggregator, trace_branch_end, trace_branch_start, trace_metric};
use probius::wire::{CreateSource, SinkHandshake, SourceId, TraceOp};
use probius::wire::TraceOpAggregate as W;

#[test]
fn test_link_vec_iter() {
    let mut l = LinkVec::<u32>::leak();
    let n1 = l.push(1);
    let n2 = l.push(2);
    let n3 = l.push(3);

    assert_eq!(*l.get(n1), 1);
    assert_eq!(*l.get(n2), 2);
    assert_eq!(*l.get(n3), 3);
    let mut collected = Vec::new();
    let mut it = l.iter();
    while let Some(v) = it.next() {
        collected.push(*v);
    }
    assert_eq!(collected, vec![1, 2, 3]);
}

#[test]
fn test_trace_aggregation() {
    let mut aggregator = TraceAggregator::new();
    for i in 0..10u64 {
        let mut trace = Trace::start(false, 0);
        trace_metric(&mut trace, &mut aggregator, "start", 1);
        trace_branch_start(&mut trace, &mut aggregator);
        if i % 3 == 0 {
            trace_metric(&mut trace, &mut aggregator, "even", 1);
            trace_branch_start(&mut trace, &mut aggregator);
            if i % 4 == 0 {
                trace_metric(&mut trace, &mut aggregator, "% 4 = 0", 1);
            } else if i % 4 == 1 {
                trace_metric(&mut trace, &mut aggregator, "% 4 = 1", 1);
                trace_metric(&mut trace, &mut aggregator, "hehe", 1);
            } else if i % 4 == 2 {
                trace_metric(&mut trace, &mut aggregator, "% 4 = 2", 1);
                trace_metric(&mut trace, &mut aggregator, "haha", 1);
            } else {
                trace_metric(&mut trace, &mut aggregator, "% 4 = 3", 1);
            }
            trace_branch_end(&mut trace, &mut aggregator);
            trace_metric(&mut trace, &mut aggregator, "4", 1);
        } else {
            trace_metric(&mut trace, &mut aggregator, "odd", 1);
        }
        trace_branch_end(&mut trace, &mut aggregator);
        trace_metric(&mut trace, &mut aggregator, "oddeven", 1);
    }

    // Every invocation passes "start" and "oddeven"; the first metric
    // slot allocated is "start".
    assert!(aggregator.node_count() > 0);
    let m0 = aggregator.metric(0);
    assert_eq!(m0.count, 10);
    assert_eq!(m0.sum, 10);
    assert_eq!(m0.min, 1);
    assert_eq!(m0.max, 1);

    // A full flush emits the summaries and resets the slots, leaving
    // the topology alone.
    let nodes_before = aggregator.node_count();
    let flushed = aggregator.flush_full(7);
    assert_eq!(flushed.start_nanos, 7);
    assert_eq!(flushed.nodes.len(), nodes_before);
    assert!(flushed.counters.is_empty());
    assert_eq!(flushed.metrics[0].count, 10);
    assert_eq!(aggregator.node_count(), nodes_before);
    assert_eq!(aggregator.metric(0).count, 0);
    assert_eq!(aggregator.metric(0).sum, 0);
    assert_eq!(aggregator.metric(0).min, i64::MAX);
    assert_eq!(aggregator.metric(0).max, i64::MIN);
}

#[test]
fn test_aggregation_topology() {
    // One path: metric, branch with one metric, metric.  Ingested
    // twice, the graph keeps five nodes, the branch start immediately
    // preceding its paired end, and each slot folds both passes.
    let mut aggregator = TraceAggregator::new();
    for _ in 0..2 {
        let mut trace = Trace::start(false, 0);
        trace_metric(&mut trace, &mut aggregator, "start", 1);
        trace_branch_start(&mut trace, &mut aggregator);
        trace_metric(&mut trace, &mut aggregator, "odd", 1);
        trace_branch_end(&mut trace, &mut aggregator);
        trace_metric(&mut trace, &mut aggregator, "oddeven", 1);
    }
    assert_eq!(aggregator.node_count(), 5);
    let flushed = aggregator.flush_full(0);
    // Nodes in insertion order: start metric, branch start, its paired
    // end, the metric inside the branch, the trailing metric.
    assert!(matches!(flushed.nodes[0].op, W::Metric { .. }));
    assert!(matches!(flushed.nodes[1].op, W::BranchStart { branch_end: 2 }));
    assert!(matches!(flushed.nodes[2].op, W::BranchEnd { .. }));
    assert!(matches!(flushed.nodes[3].op, W::Metric { .. }));
    assert!(matches!(flushed.nodes[4].op, W::Metric { .. }));
    assert_eq!(flushed.nodes[0].next, Some(1));
    assert_eq!(flushed.nodes[1].next, Some(3));
    assert_eq!(flushed.nodes[3].next, Some(2));
    assert_eq!(flushed.nodes[2].next, Some(4));
    for slot in 0..3 {
        let m = flushed.metrics[slot];
        assert_eq!((m.count, m.sum, m.min, m.max), (2, 2, 1, 1));
    }
}

#[test]
fn test_branch_divergence() {
    // Two invocations diverge inside one branch: they share the branch
    // start and end nodes, and the alternatives chain as siblings.
    let mut aggregator = TraceAggregator::new();
    for name in ["a", "b"] {
        let mut trace = Trace::start(false, 0);
        trace_branch_start(&mut trace, &mut aggregator);
        trace_metric(&mut trace, &mut aggregator, name, 1);
        trace_branch_end(&mut trace, &mut aggregator);
    }
    assert_eq!(aggregator.node_count(), 4);
    let flushed = aggregator.flush_full(0);
    assert_eq!(flushed.nodes[2].branch_next, Some(3));
    assert_eq!(flushed.metrics[0].count, 1);
    assert_eq!(flushed.metrics[1].count, 1);
}

#[test]
fn test_empty_branch() {
    // An empty branch and a one-op branch converge on the same end
    // node: no node is allocated for the empty close.
    let mut aggregator = TraceAggregator::new();
    {
        let mut trace = Trace::start(false, 0);
        trace_branch_start(&mut trace, &mut aggregator);
        trace_branch_end(&mut trace, &mut aggregator);
    }
    assert_eq!(aggregator.node_count(), 2);
    {
        let mut trace = Trace::start(false, 0);
        trace_branch_start(&mut trace, &mut aggregator);
        trace_metric(&mut trace, &mut aggregator, "a", 1);
        trace_branch_end(&mut trace, &mut aggregator);
    }
    assert_eq!(aggregator.node_count(), 3);
}

#[test]
fn test_detail_overflow() {
    // A detailed invocation stops collecting detail once the scratch
    // would overflow, and is marked invalid; aggregation continues.
    let mut aggregator = TraceAggregator::new();
    let mut trace = Trace::start(true, 0);
    for _ in 0..400 {
        trace_metric(&mut trace, &mut aggregator, "m", 1);
    }
    assert!(!trace.valid);
    assert_eq!(trace.detail.len(), 510);
    // Within one pass each repetition is a fresh successor node, so
    // the aggregation carries all 400 observations across 400 slots.
    assert_eq!(aggregator.metric_count(), 400);
    for slot in 0..400 {
        assert_eq!(aggregator.metric(slot).count, 1);
        assert_eq!(aggregator.metric(slot).sum, 1);
    }
}

#[test]
fn test_create_source_round_trip() {
    let v = CreateSource {
        name: b"foobar".to_vec(),
        parent: Some(SourceId { source: 41 }),
        is_recurring: true,
    };
    let mut out = Vec::new();
    encode_create_source(&v, &mut out);
    assert_eq!(out.len(), 18 + 6);
    let back = decode_create_source(&out).unwrap();
    assert_eq!(back, v);
}

#[test]
fn test_sink_handshake_round_trip() {
    let v = SinkHandshake {
        app_name: b"app".to_vec(),
        session_id_hi: 0x0123456789abcdef,
        session_id_lo: 0xfedcba9876543210,
    };
    let mut out = Vec::new();
    encode_sink_handshake(&v, &mut out);
    assert_eq!(out.len(), 24 + 3);
    let back = decode_sink_handshake(&out).unwrap();
    assert_eq!(back, v);
}

#[test]
fn test_trace_op_round_trip_and_bad_tag() {
    let op = TraceOp::Tag { tag: 77 };
    let mut out = Vec::new();
    encode_trace_op(&op, &mut out);
    assert_eq!(out.len(), 33);
    assert_eq!(decode_trace_op(&out, 0).unwrap(), op);

    let mut bad = out.clone();
    bad[0] = 16;
    assert!(decode_trace_op(&bad, 0).is_err());
}
