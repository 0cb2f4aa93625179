//! Online aggregation of trace operations into a control-flow graph.
//!
//! A per-source aggregator folds every observed op sequence into one
//! graph.  Each node carries the op stripped of instance data; `next`
//! points at the successor seen on a repeat of the same op, and
//! `branch_sibling` chains the alternatives observed at the same
//! position.  Branch starts allocate their paired branch-end node
//! eagerly so that all alternatives of a branch rejoin on one node.

use vstd::prelude::*;

use crate::link_vec::{LinkVec, LinkVecPtr};
use crate::wire;
use crate::wire::{SourceId, GlobalSourceId, MetricAggregate};

verus! {

/// One trace operation with its per-instance data.
#[derive(Debug)]
pub enum TraceOp {
    CreateSource { source: SourceId },
    DeleteSource { source: SourceId },
    Call { source: SourceId },
    PushScope,
    PopScope,
    BranchStart,
    BranchEnd,
    Label { label: String },
    Tag,
    Metric { name: String, value: i64 },
    LocalChannelSend { channel: SourceId, version: u64 },
    LocalChannelReceive { channel: SourceId, version: u64 },
    LocalChannelTransferFrom { from: SourceId, from_version: u64, to: SourceId, to_version: u64 },
    GlobalChannelSend { channel: GlobalSourceId, version: u64 },
    GlobalChannelReceive { channel: GlobalSourceId, version: u64 },
    GlobalChannelTransferFrom {
        from: GlobalSourceId,
        from_version: u64,
        to: GlobalSourceId,
        to_version: u64,
    },
}

/// A trace op stripped of instance data: the key under which repeats
/// are folded.  Metric and label ops are keyed by name alone.
#[derive(Debug)]
pub enum TraceOpAggregate {
    CreateSource,
    DeleteSource,
    Call { source: SourceId },
    PushScope,
    PopScope,
    BranchStart,
    BranchEnd,
    Label { label: String },
    Tag,
    Metric { name: String },
    LocalChannelSend { channel: SourceId },
    LocalChannelReceive { channel: SourceId },
    LocalChannelTransferFrom { from: SourceId, to: SourceId },
    GlobalChannelSend { channel: GlobalSourceId },
    GlobalChannelReceive { channel: GlobalSourceId },
    GlobalChannelTransferFrom { from: GlobalSourceId, to: GlobalSourceId },
}

/// Mathematical form of an op key: names as character sequences.
pub enum TraceOpKey {
    CreateSource,
    DeleteSource,
    Call { source: SourceId },
    PushScope,
    PopScope,
    BranchStart,
    BranchEnd,
    Label { label: Seq<char> },
    Tag,
    Metric { name: Seq<char> },
    LocalChannelSend { channel: SourceId },
    LocalChannelReceive { channel: SourceId },
    LocalChannelTransferFrom { from: SourceId, to: SourceId },
    GlobalChannelSend { channel: GlobalSourceId },
    GlobalChannelReceive { channel: GlobalSourceId },
    GlobalChannelTransferFrom { from: GlobalSourceId, to: GlobalSourceId },
}

/// The key of a full trace op.
pub open spec fn op_key(op: TraceOp) -> TraceOpKey {
    match op {
        TraceOp::CreateSource { .. } => TraceOpKey::CreateSource,
        TraceOp::DeleteSource { .. } => TraceOpKey::DeleteSource,
        TraceOp::Call { source } => TraceOpKey::Call { source },
        TraceOp::PushScope => TraceOpKey::PushScope,
        TraceOp::PopScope => TraceOpKey::PopScope,
        TraceOp::BranchStart => TraceOpKey::BranchStart,
        TraceOp::BranchEnd => TraceOpKey::BranchEnd,
        TraceOp::Label { label } => TraceOpKey::Label { label: label@ },
        TraceOp::Tag => TraceOpKey::Tag,
        TraceOp::Metric { name, .. } => TraceOpKey::Metric { name: name@ },
        TraceOp::LocalChannelSend { channel, .. } => TraceOpKey::LocalChannelSend { channel },
        TraceOp::LocalChannelReceive { channel, .. } => TraceOpKey::LocalChannelReceive { channel },
        TraceOp::LocalChannelTransferFrom { from, to, .. } => TraceOpKey::LocalChannelTransferFrom {
            from,
            to,
        },
        TraceOp::GlobalChannelSend { channel, .. } => TraceOpKey::GlobalChannelSend { channel },
        TraceOp::GlobalChannelReceive { channel, .. } => TraceOpKey::GlobalChannelReceive {
            channel,
        },
        TraceOp::GlobalChannelTransferFrom { from, to, .. } => TraceOpKey::GlobalChannelTransferFrom {
            from,
            to,
        },
    }
}

/// The key of an op aggregate.
pub open spec fn agg_key(a: TraceOpAggregate) -> TraceOpKey {
    match a {
        TraceOpAggregate::CreateSource => TraceOpKey::CreateSource,
        TraceOpAggregate::DeleteSource => TraceOpKey::DeleteSource,
        TraceOpAggregate::Call { source } => TraceOpKey::Call { source },
        TraceOpAggregate::PushScope => TraceOpKey::PushScope,
        TraceOpAggregate::PopScope => TraceOpKey::PopScope,
        TraceOpAggregate::BranchStart => TraceOpKey::BranchStart,
        TraceOpAggregate::BranchEnd => TraceOpKey::BranchEnd,
        TraceOpAggregate::Label { label } => TraceOpKey::Label { label: label@ },
        TraceOpAggregate::Tag => TraceOpKey::Tag,
        TraceOpAggregate::Metric { name } => TraceOpKey::Metric { name: name@ },
        TraceOpAggregate::LocalChannelSend { channel } => TraceOpKey::LocalChannelSend { channel },
        TraceOpAggregate::LocalChannelReceive { channel } => TraceOpKey::LocalChannelReceive {
            channel,
        },
        TraceOpAggregate::LocalChannelTransferFrom { from, to } => TraceOpKey::LocalChannelTransferFrom {
            from,
            to,
        },
        TraceOpAggregate::GlobalChannelSend { channel } => TraceOpKey::GlobalChannelSend {
            channel,
        },
        TraceOpAggregate::GlobalChannelReceive { channel } => TraceOpKey::GlobalChannelReceive {
            channel,
        },
        TraceOpAggregate::GlobalChannelTransferFrom { from, to } => TraceOpKey::GlobalChannelTransferFrom {
            from,
            to,
        },
    }
}

impl TraceOp {
    /// Strip the per-instance data, keeping the fold key.
    pub fn as_op_aggregate(&self) -> (r: TraceOpAggregate)
        ensures
            agg_key(r) == op_key(*self),
    {
        match self {
            TraceOp::CreateSource { .. } => TraceOpAggregate::CreateSource,
            TraceOp::DeleteSource { .. } => TraceOpAggregate::DeleteSource,
            TraceOp::Call { source } => TraceOpAggregate::Call { source: *source },
            TraceOp::PushScope => TraceOpAggregate::PushScope,
            TraceOp::PopScope => TraceOpAggregate::PopScope,
            TraceOp::BranchStart => TraceOpAggregate::BranchStart,
            TraceOp::BranchEnd => TraceOpAggregate::BranchEnd,
            TraceOp::Label { label } => TraceOpAggregate::Label { label: label.clone() },
            TraceOp::Tag => TraceOpAggregate::Tag,
            TraceOp::Metric { name, .. } => TraceOpAggregate::Metric { name: name.clone() },
            TraceOp::LocalChannelSend { channel, .. } => TraceOpAggregate::LocalChannelSend {
                channel: *channel,
            },
            TraceOp::LocalChannelReceive { channel, .. } => TraceOpAggregate::LocalChannelReceive {
                channel: *channel,
            },
            TraceOp::LocalChannelTransferFrom { from, to, .. } => TraceOpAggregate::LocalChannelTransferFrom {
                from: *from,
                to: *to,
            },
            TraceOp::GlobalChannelSend { channel, .. } => TraceOpAggregate::GlobalChannelSend {
                channel: *channel,
            },
            TraceOp::GlobalChannelReceive { channel, .. } => TraceOpAggregate::GlobalChannelReceive {
                channel: *channel,
            },
            TraceOp::GlobalChannelTransferFrom { from, to, .. } => TraceOpAggregate::GlobalChannelTransferFrom {
                from: *from,
                to: *to,
            },
        }
    }
}

/// Handle to a node of the aggregator graph.
pub type TraceAggregateNodePtr = LinkVecPtr<TraceAggregateNode>;

/// Payload of a graph node: the op key plus per-node bookkeeping.
#[derive(Debug)]
pub enum TraceAggregateNodeData {
    CreateSource,
    DeleteSource,
    Call { source: SourceId },
    PushScope,
    PopScope,
    BranchStart { branch_end: TraceAggregateNodePtr },
    BranchEnd { parent_branch_end: Option<TraceAggregateNodePtr> },
    Label { label: String },
    Tag,
    Metric { name: String, index: u16 },
    LocalChannelSend { channel: SourceId },
    LocalChannelReceive { channel: SourceId },
    LocalChannelTransferFrom { from: SourceId, to: SourceId },
    GlobalChannelSend { channel: GlobalSourceId },
    GlobalChannelReceive { channel: GlobalSourceId },
    GlobalChannelTransferFrom { from: GlobalSourceId, to: GlobalSourceId },
}

/// The key of a node's payload.
pub open spec fn data_key(d: TraceAggregateNodeData) -> TraceOpKey {
    match d {
        TraceAggregateNodeData::CreateSource => TraceOpKey::CreateSource,
        TraceAggregateNodeData::DeleteSource => TraceOpKey::DeleteSource,
        TraceAggregateNodeData::Call { source } => TraceOpKey::Call { source },
        TraceAggregateNodeData::PushScope => TraceOpKey::PushScope,
        TraceAggregateNodeData::PopScope => TraceOpKey::PopScope,
        TraceAggregateNodeData::BranchStart { .. } => TraceOpKey::BranchStart,
        TraceAggregateNodeData::BranchEnd { .. } => TraceOpKey::BranchEnd,
        TraceAggregateNodeData::Label { label } => TraceOpKey::Label { label: label@ },
        TraceAggregateNodeData::Tag => TraceOpKey::Tag,
        TraceAggregateNodeData::Metric { name, .. } => TraceOpKey::Metric { name: name@ },
        TraceAggregateNodeData::LocalChannelSend { channel } => TraceOpKey::LocalChannelSend {
            channel,
        },
        TraceAggregateNodeData::LocalChannelReceive { channel } => TraceOpKey::LocalChannelReceive {
            channel,
        },
        TraceAggregateNodeData::LocalChannelTransferFrom { from, to } => TraceOpKey::LocalChannelTransferFrom {
            from,
            to,
        },
        TraceAggregateNodeData::GlobalChannelSend { channel } => TraceOpKey::GlobalChannelSend {
            channel,
        },
        TraceAggregateNodeData::GlobalChannelReceive { channel } => TraceOpKey::GlobalChannelReceive {
            channel,
        },
        TraceAggregateNodeData::GlobalChannelTransferFrom { from, to } => TraceOpKey::GlobalChannelTransferFrom {
            from,
            to,
        },
    }
}

impl TraceAggregateNodeData {
    /// Strip the per-node bookkeeping, keeping the fold key.
    pub fn as_op_aggregate(&self) -> (r: TraceOpAggregate)
        ensures
            agg_key(r) == data_key(*self),
    {
        match self {
            TraceAggregateNodeData::CreateSource => TraceOpAggregate::CreateSource,
            TraceAggregateNodeData::DeleteSource => TraceOpAggregate::DeleteSource,
            TraceAggregateNodeData::Call { source } => TraceOpAggregate::Call { source: *source },
            TraceAggregateNodeData::PushScope => TraceOpAggregate::PushScope,
            TraceAggregateNodeData::PopScope => TraceOpAggregate::PopScope,
            TraceAggregateNodeData::BranchStart { .. } => TraceOpAggregate::BranchStart,
            TraceAggregateNodeData::BranchEnd { .. } => TraceOpAggregate::BranchEnd,
            TraceAggregateNodeData::Label { label } => TraceOpAggregate::Label {
                label: label.clone(),
            },
            TraceAggregateNodeData::Tag => TraceOpAggregate::Tag,
            TraceAggregateNodeData::Metric { name, .. } => TraceOpAggregate::Metric {
                name: name.clone(),
            },
            TraceAggregateNodeData::LocalChannelSend { channel } => TraceOpAggregate::LocalChannelSend {
                channel: *channel,
            },
            TraceAggregateNodeData::LocalChannelReceive { channel } => TraceOpAggregate::LocalChannelReceive {
                channel: *channel,
            },
            TraceAggregateNodeData::LocalChannelTransferFrom { from, to } => TraceOpAggregate::LocalChannelTransferFrom {
                from: *from,
                to: *to,
            },
            TraceAggregateNodeData::GlobalChannelSend { channel } => TraceOpAggregate::GlobalChannelSend {
                channel: *channel,
            },
            TraceAggregateNodeData::GlobalChannelReceive { channel } => TraceOpAggregate::GlobalChannelReceive {
                channel: *channel,
            },
            TraceAggregateNodeData::GlobalChannelTransferFrom { from, to } => TraceOpAggregate::GlobalChannelTransferFrom {
                from: *from,
                to: *to,
            },
        }
    }
}

impl Clone for TraceAggregateNodeData {
    /// Clones are equal values: names clone to equal strings.
    fn clone(&self) -> (r: Self)
        ensures
            r == *self,
    {
        match self {
            TraceAggregateNodeData::CreateSource => TraceAggregateNodeData::CreateSource,
            TraceAggregateNodeData::DeleteSource => TraceAggregateNodeData::DeleteSource,
            TraceAggregateNodeData::Call { source } => TraceAggregateNodeData::Call {
                source: *source,
            },
            TraceAggregateNodeData::PushScope => TraceAggregateNodeData::PushScope,
            TraceAggregateNodeData::PopScope => TraceAggregateNodeData::PopScope,
            TraceAggregateNodeData::BranchStart { branch_end } => TraceAggregateNodeData::BranchStart {
                branch_end: *branch_end,
            },
            TraceAggregateNodeData::BranchEnd { parent_branch_end } => TraceAggregateNodeData::BranchEnd {
                parent_branch_end: *parent_branch_end,
            },
            TraceAggregateNodeData::Label { label } => TraceAggregateNodeData::Label {
                label: label.clone(),
            },
            TraceAggregateNodeData::Tag => TraceAggregateNodeData::Tag,
            TraceAggregateNodeData::Metric { name, index } => TraceAggregateNodeData::Metric {
                name: name.clone(),
                index: *index,
            },
            TraceAggregateNodeData::LocalChannelSend { channel } => TraceAggregateNodeData::LocalChannelSend {
                channel: *channel,
            },
            TraceAggregateNodeData::LocalChannelReceive { channel } => TraceAggregateNodeData::LocalChannelReceive {
                channel: *channel,
            },
            TraceAggregateNodeData::LocalChannelTransferFrom { from, to } => TraceAggregateNodeData::LocalChannelTransferFrom {
                from: *from,
                to: *to,
            },
            TraceAggregateNodeData::GlobalChannelSend { channel } => TraceAggregateNodeData::GlobalChannelSend {
                channel: *channel,
            },
            TraceAggregateNodeData::GlobalChannelReceive { channel } => TraceAggregateNodeData::GlobalChannelReceive {
                channel: *channel,
            },
            TraceAggregateNodeData::GlobalChannelTransferFrom { from, to } => TraceAggregateNodeData::GlobalChannelTransferFrom {
                from: *from,
                to: *to,
            },
        }
    }
}

/// Alternative observed at the same position: the head of the sibling
/// chain continuation.
#[derive(Debug)]
pub struct TraceAggregateBranch {
    pub next: TraceAggregateNodePtr,
}

impl Clone for TraceAggregateBranch {
    fn clone(&self) -> (r: Self)
        ensures
            r == *self,
    {
        TraceAggregateBranch { next: self.next }
    }
}

/// One node of the aggregator graph.  `branch_sibling` and `next` are
/// one-shot: set at most once, from absent to a handle.
#[derive(Debug)]
pub struct TraceAggregateNode {
    pub op: TraceAggregateNodeData,
    pub branch_sibling: Option<TraceAggregateBranch>,
    pub next: Option<TraceAggregateNodePtr>,
    pub index: u16,
}

impl Clone for TraceAggregateNode {
    /// Clones are equal values.
    fn clone(&self) -> (r: Self)
        ensures
            r == *self,
    {
        let r = TraceAggregateNode {
            op: self.op.clone(),
            branch_sibling: match &self.branch_sibling {
                Some(b) => Some(b.clone()),
                None => None,
            },
            next: self.next,
            index: self.index,
        };
        assert(r == *self);
        r
    }
}

/// Where the current trace invocation stands in the graph.
pub struct TraceAggregateCursor {
    pub node: Option<TraceAggregateNodePtr>,
    pub branch_end: Option<TraceAggregateNodePtr>,
}

impl TraceAggregateCursor {
    /// Cursor for a fresh trace invocation: before the first op, with
    /// no branch active.
    pub fn start_cursor() -> (r: Self)
        ensures
            r.node is None,
            r.branch_end is None,
    {
        TraceAggregateCursor { node: None, branch_end: None }
    }
}

/// Aggregator for the traces of a single source.
pub struct TraceAggregator {
    pub start_node: Option<TraceAggregateNodePtr>,
    pub metrics: Vec<MetricAggregate>,
    pub nodes: LinkVec<TraceAggregateNode>,
}

/// The identity metric summary: absorbing element of the fold.
pub open spec fn metric_identity() -> MetricAggregate {
    MetricAggregate { count: 0, sum: 0, min: i64::MAX, max: i64::MIN }
}

/// One observation folded into a metric summary.  The count and sum
/// wrap on overflow.
pub open spec fn metric_folded(m: MetricAggregate, value: i64) -> MetricAggregate {
    MetricAggregate {
        count: vstd::wrapping::u64_specs::wrapping_add(m.count, 1),
        sum: vstd::wrapping::i64_specs::wrapping_add(m.sum, value),
        min: if value < m.min {
            value
        } else {
            m.min
        },
        max: if value > m.max {
            value
        } else {
            m.max
        },
    }
}

/// Branch bookkeeping handles point at branch-end nodes: a branch
/// start's paired end, and a branch end's parent end.  Kept opaque so
/// that the pointer-chasing quantifiers are instantiated only where a
/// mutation has to re-establish them.
#[verifier::opaque]
pub open spec fn branch_targets_ok(ns: Seq<TraceAggregateNode>) -> bool {
    &&& forall|i: int|
        0 <= i < ns.len() ==> ((#[trigger] ns[i]).op matches TraceAggregateNodeData::BranchStart {
            branch_end,
        } ==> branch_end.index < ns.len() && ns[branch_end.index as int].op matches
            TraceAggregateNodeData::BranchEnd { .. })
    &&& forall|i: int|
        0 <= i < ns.len() ==> ((#[trigger] ns[i]).op matches TraceAggregateNodeData::BranchEnd {
            parent_branch_end,
        } ==> (parent_branch_end matches Some(p) ==> p.index < ns.len()
            && ns[p.index as int].op matches TraceAggregateNodeData::BranchEnd { .. }))
}

/// Appending a node that is neither a branch start nor a branch end
/// keeps the branch handles valid.
proof fn lemma_branch_targets_push_plain(ns: Seq<TraceAggregateNode>, ns2: Seq<TraceAggregateNode>)
    requires
        branch_targets_ok(ns),
        ns2.len() == ns.len() + 1,
        forall|i: int| 0 <= i < ns.len() ==> ns2[i] == ns[i],
        !(ns2[ns.len() as int].op matches TraceAggregateNodeData::BranchStart { .. }),
        !(ns2[ns.len() as int].op matches TraceAggregateNodeData::BranchEnd { .. }),
    ensures
        branch_targets_ok(ns2),
{
    reveal(branch_targets_ok);
    assert forall|i: int| 0 <= i < ns2.len() implies ((#[trigger] ns2[i]).op matches
        TraceAggregateNodeData::BranchStart { branch_end } ==> branch_end.index < ns2.len()
        && ns2[branch_end.index as int].op matches TraceAggregateNodeData::BranchEnd { .. }) by {
        if i < ns.len() {
            assert(ns[i].op == ns2[i].op);
        }
    }
    assert forall|i: int| 0 <= i < ns2.len() implies ((#[trigger] ns2[i]).op matches
        TraceAggregateNodeData::BranchEnd { parent_branch_end } ==> (parent_branch_end matches Some(
            p,
        ) ==> p.index < ns2.len() && ns2[p.index as int].op matches
        TraceAggregateNodeData::BranchEnd { .. })) by {
        if i < ns.len() {
            assert(ns[i].op == ns2[i].op);
        }
    }
}

/// Appending a branch start followed by its paired end keeps the
/// branch handles valid, provided the start points at the end and the
/// end's parent handle was itself valid.
proof fn lemma_branch_targets_push_pair(ns: Seq<TraceAggregateNode>, ns2: Seq<TraceAggregateNode>)
    requires
        branch_targets_ok(ns),
        ns2.len() == ns.len() + 2,
        forall|i: int| 0 <= i < ns.len() ==> ns2[i] == ns[i],
        ns2[ns.len() as int].op matches TraceAggregateNodeData::BranchStart { branch_end }
            && branch_end.index == ns.len() + 1,
        ns2[ns.len() as int + 1].op matches TraceAggregateNodeData::BranchEnd { parent_branch_end } && (
        parent_branch_end matches Some(p) ==> p.index < ns.len() && ns[p.index as int].op matches
            TraceAggregateNodeData::BranchEnd { .. }),
    ensures
        branch_targets_ok(ns2),
{
    reveal(branch_targets_ok);
    assert forall|i: int| 0 <= i < ns2.len() implies ((#[trigger] ns2[i]).op matches
        TraceAggregateNodeData::BranchStart { branch_end } ==> branch_end.index < ns2.len()
        && ns2[branch_end.index as int].op matches TraceAggregateNodeData::BranchEnd { .. }) by {
        if i < ns.len() {
            assert(ns[i].op == ns2[i].op);
        }
    }
    assert forall|i: int| 0 <= i < ns2.len() implies ((#[trigger] ns2[i]).op matches
        TraceAggregateNodeData::BranchEnd { parent_branch_end } ==> (parent_branch_end matches Some(
            p,
        ) ==> p.index < ns2.len() && ns2[p.index as int].op matches
        TraceAggregateNodeData::BranchEnd { .. })) by {
        if i < ns.len() {
            assert(ns[i].op == ns2[i].op);
        }
    }
}

/// An update that keeps every node's op keeps the branch handles
/// valid.
proof fn lemma_branch_targets_same_ops(ns: Seq<TraceAggregateNode>, ns2: Seq<TraceAggregateNode>)
    requires
        branch_targets_ok(ns),
        ns2.len() == ns.len(),
        forall|i: int| 0 <= i < ns.len() ==> (#[trigger] ns2[i]).op == ns[i].op,
    ensures
        branch_targets_ok(ns2),
{
    reveal(branch_targets_ok);
    assert forall|i: int| 0 <= i < ns2.len() implies ((#[trigger] ns2[i]).op matches
        TraceAggregateNodeData::BranchStart { branch_end } ==> branch_end.index < ns2.len()
        && ns2[branch_end.index as int].op matches TraceAggregateNodeData::BranchEnd { .. }) by {
        assert(ns[i].op == ns2[i].op);
    }
    assert forall|i: int| 0 <= i < ns2.len() implies ((#[trigger] ns2[i]).op matches
        TraceAggregateNodeData::BranchEnd { parent_branch_end } ==> (parent_branch_end matches Some(
            p,
        ) ==> p.index < ns2.len() && ns2[p.index as int].op matches
        TraceAggregateNodeData::BranchEnd { .. })) by {
        assert(ns[i].op == ns2[i].op);
    }
}

impl TraceAggregator {
    /// Handles stored in the graph stay inside it, node indices match
    /// their positions, branch starts point at branch ends, metric
    /// slots exist, and the node count fits the on-wire index width.
    pub open spec fn wf(&self) -> bool {
        let ns = self.nodes@;
        &&& ns.len() <= u16::MAX
        &&& self.metrics@.len() <= u16::MAX
        &&& (self.start_node matches Some(p) ==> p.index < ns.len())
        &&& forall|i: int|
            0 <= i < ns.len() ==> (#[trigger] ns[i]).index == i
        &&& forall|i: int|
            0 <= i < ns.len() ==> ((#[trigger] ns[i]).next matches Some(p) ==> p.index < ns.len())
        &&& forall|i: int|
            0 <= i < ns.len() ==> ((#[trigger] ns[i]).branch_sibling matches Some(b)
                ==> b.next.index < ns.len())
        &&& forall|i: int|
            0 <= i < ns.len() ==> ((#[trigger] ns[i]).op matches
                TraceAggregateNodeData::BranchStart { branch_end } ==> branch_end.index < ns.len())
        &&& forall|i: int|
            0 <= i < ns.len() ==> ((#[trigger] ns[i]).op matches
                TraceAggregateNodeData::BranchEnd { parent_branch_end } ==> (parent_branch_end
                matches Some(p) ==> p.index < ns.len()))
        &&& forall|i: int|
            0 <= i < ns.len() ==> ((#[trigger] ns[i]).op matches TraceAggregateNodeData::Metric {
                index,
                ..
            } ==> index < self.metrics@.len())
        &&& branch_targets_ok(ns)
    }

    /// A cursor whose handles point into this aggregator's graph; an
    /// active branch handle points at a branch-end node.
    pub open spec fn cursor_ok(&self, c: TraceAggregateCursor) -> bool {
        let ns = self.nodes@;
        &&& (c.node matches Some(p) ==> p.index < ns.len())
        &&& (c.branch_end matches Some(p) ==> p.index < ns.len() && ns[p.index as int].op matches
            TraceAggregateNodeData::BranchEnd { .. })
    }

    /// A fresh aggregator: no nodes, no metrics, no start node.
    pub fn new() -> (r: Self)
        ensures
            r.wf(),
            r.nodes@.len() == 0,
            r.metrics@.len() == 0,
            r.start_node is None,
    {
        proof {
            reveal(branch_targets_ok);
        }
        TraceAggregator { start_node: None, metrics: Vec::new(), nodes: LinkVec::leak() }
    }

    /// Number of graph nodes allocated so far.
    pub fn node_count(&self) -> (r: usize)
        ensures
            r == self.nodes@.len(),
    {
        self.nodes.len()
    }

    /// Position of the graph root, if any op was ever ingested.
    pub fn start_index(&self) -> (r: Option<u16>)
        requires
            self.wf(),
        ensures
            r is Some <==> self.start_node is Some,
            r matches Some(i) ==> self.start_node matches Some(p) && p.index == i,
    {
        match &self.start_node {
            Some(p) => Some(p.index as u16),
            None => None,
        }
    }

    /// The metric summary of one slot.
    pub fn metric(&self, index: usize) -> (r: MetricAggregate)
        requires
            index < self.metrics@.len(),
        ensures
            r == self.metrics@[index as int],
    {
        self.metrics[index]
    }

    /// Number of metric slots allocated so far.
    pub fn metric_count(&self) -> (r: usize)
        ensures
            r == self.metrics@.len(),
    {
        self.metrics.len()
    }
}


impl TraceAggregator {
    /// Allocate a fresh metric slot, initialised to the identity.
    fn new_metric(&mut self) -> (r: u16)
        requires
            old(self).metrics@.len() < u16::MAX,
        ensures
            final(self).metrics@ == old(self).metrics@.push(metric_identity()),
            r == old(self).metrics@.len(),
            final(self).nodes@ == old(self).nodes@,
            final(self).start_node == old(self).start_node,
    {
        let index = self.metrics.len() as u16;
        self.metrics.push(
            MetricAggregate { count: 0, sum: 0, min: i64::MAX, max: i64::MIN },
        );
        index
    }

    /// Allocate the node for an op that was not found in a chain.
    ///
    /// A branch start allocates both the start node and, immediately
    /// after it, its paired branch-end node; a branch end allocates
    /// nothing and reuses the end node the active branch was opened
    /// with; a metric allocates a fresh identity slot.
    fn new_node(&mut self, cursor: &mut TraceAggregateCursor, op: &TraceOp) -> (r:
        TraceAggregateNodePtr)
        requires
            old(self).wf(),
            old(self).cursor_ok(*old(cursor)),
            old(self).nodes@.len() + 2 <= u16::MAX,
            old(self).metrics@.len() < u16::MAX,
            op_key(*op) == TraceOpKey::BranchEnd ==> old(cursor).branch_end is Some,
        ensures
            final(self).wf(),
            final(self).cursor_ok(*final(cursor)),
            final(cursor).node == old(cursor).node,
            final(self).start_node == old(self).start_node,
            r.index < final(self).nodes@.len(),
            data_key(final(self).nodes@[r.index as int].op) == op_key(*op),
            old(self).nodes@.len() <= final(self).nodes@.len() <= old(self).nodes@.len() + 2,
            forall|i: int|
                0 <= i < old(self).nodes@.len() ==> final(self).nodes@[i] == old(self).nodes@[i],
            forall|i: int|
                old(self).nodes@.len() <= i < final(self).nodes@.len()
                    ==> (#[trigger] final(self).nodes@[i]).branch_sibling is None
                    && final(self).nodes@[i].next is None,
            op matches TraceOp::Metric { .. } ==> {
                &&& final(self).metrics@ == old(self).metrics@.push(metric_identity())
                &&& final(self).nodes@.len() == old(self).nodes@.len() + 1
                &&& r.index == old(self).nodes@.len()
                &&& final(self).nodes@[r.index as int].op matches TraceAggregateNodeData::Metric {
                    index,
                    ..
                } && index == old(self).metrics@.len()
            },
            !(op matches TraceOp::Metric { .. }) ==> final(self).metrics@ == old(self).metrics@,
            op_key(*op) == TraceOpKey::BranchStart ==> {
                &&& final(self).nodes@.len() == old(self).nodes@.len() + 2
                &&& r.index == old(self).nodes@.len()
                &&& final(self).nodes@[r.index as int].op matches
                    TraceAggregateNodeData::BranchStart { branch_end } && branch_end.index
                    == old(self).nodes@.len() + 1
                &&& final(self).nodes@[old(self).nodes@.len() as int + 1].op matches
                    TraceAggregateNodeData::BranchEnd { parent_branch_end } && parent_branch_end
                    == old(cursor).branch_end
                &&& final(cursor).branch_end is None
            },
            op_key(*op) == TraceOpKey::BranchEnd ==> {
                &&& final(self).nodes@ == old(self).nodes@
                &&& old(cursor).branch_end matches Some(p) && r.index == p.index
                &&& final(cursor).branch_end is None
            },
            (op_key(*op) != TraceOpKey::BranchStart && op_key(*op) != TraceOpKey::BranchEnd) ==> {
                &&& final(cursor).branch_end == old(cursor).branch_end
                &&& final(self).nodes@.len() == old(self).nodes@.len() + 1
                &&& r.index == old(self).nodes@.len()
            },
    {
        let ghost ns0 = self.nodes@;
        let node_data: TraceAggregateNodeData = match op {
            TraceOp::CreateSource { .. } => TraceAggregateNodeData::CreateSource,
            TraceOp::DeleteSource { .. } => TraceAggregateNodeData::DeleteSource,
            TraceOp::Call { source } => TraceAggregateNodeData::Call { source: *source },
            TraceOp::PushScope => TraceAggregateNodeData::PushScope,
            TraceOp::PopScope => TraceAggregateNodeData::PopScope,
            TraceOp::BranchStart => {
                let parent = cursor.branch_end;
                cursor.branch_end = None;
                let start_index = self.nodes.len() as u16;
                let end_ptr: TraceAggregateNodePtr = LinkVecPtr::at(self.nodes.len() + 1);
                let start_ptr = self.nodes.push(
                    TraceAggregateNode {
                        op: TraceAggregateNodeData::BranchStart { branch_end: end_ptr },
                        branch_sibling: None,
                        next: None,
                        index: start_index,
                    },
                );
                let end_index = self.nodes.len() as u16;
                self.nodes.push(
                    TraceAggregateNode {
                        op: TraceAggregateNodeData::BranchEnd { parent_branch_end: parent },
                        branch_sibling: None,
                        next: None,
                        index: end_index,
                    },
                );
                proof {
                    lemma_branch_targets_push_pair(ns0, self.nodes@);
                }
                return start_ptr;
            },
            TraceOp::BranchEnd => {
                let p = match cursor.branch_end {
                    Some(p) => p,
                    None => {
                        proof {
                            assert(false);
                        }
                        LinkVecPtr::at(0)
                    },
                };
                cursor.branch_end = None;
                return p;
            },
            TraceOp::Label { label } => TraceAggregateNodeData::Label { label: label.clone() },
            TraceOp::Tag => TraceAggregateNodeData::Tag,
            TraceOp::Metric { name, .. } => {
                let mi = self.new_metric();
                TraceAggregateNodeData::Metric { name: name.clone(), index: mi }
            },
            TraceOp::LocalChannelSend { channel, .. } => TraceAggregateNodeData::LocalChannelSend {
                channel: *channel,
            },
            TraceOp::LocalChannelReceive { channel, .. } => TraceAggregateNodeData::LocalChannelReceive {
                channel: *channel,
            },
            TraceOp::LocalChannelTransferFrom { from, to, .. } => TraceAggregateNodeData::LocalChannelTransferFrom {
                from: *from,
                to: *to,
            },
            TraceOp::GlobalChannelSend { channel, .. } => TraceAggregateNodeData::GlobalChannelSend {
                channel: *channel,
            },
            TraceOp::GlobalChannelReceive { channel, .. } => TraceAggregateNodeData::GlobalChannelReceive {
                channel: *channel,
            },
            TraceOp::GlobalChannelTransferFrom { from, to, .. } => TraceAggregateNodeData::GlobalChannelTransferFrom {
                from: *from,
                to: *to,
            },
        };
        let idx = self.nodes.len() as u16;
        let ptr = self.nodes.push(
            TraceAggregateNode { op: node_data, branch_sibling: None, next: None, index: idx },
        );
        proof {
            lemma_branch_targets_push_plain(ns0, self.nodes@);
        }
        ptr
    }
}

/// Whether a node's key is the fold key of an op.
fn data_matches_op(d: &TraceAggregateNodeData, op: &TraceOp) -> (r: bool)
    ensures
        r == (data_key(*d) == op_key(*op)),
{
    match (d, op) {
        (TraceAggregateNodeData::CreateSource, TraceOp::CreateSource { .. }) => true,
        (TraceAggregateNodeData::DeleteSource, TraceOp::DeleteSource { .. }) => true,
        (TraceAggregateNodeData::Call { source: a }, TraceOp::Call { source: b }) => a == b,
        (TraceAggregateNodeData::PushScope, TraceOp::PushScope) => true,
        (TraceAggregateNodeData::PopScope, TraceOp::PopScope) => true,
        (TraceAggregateNodeData::BranchStart { .. }, TraceOp::BranchStart) => true,
        (TraceAggregateNodeData::BranchEnd { .. }, TraceOp::BranchEnd) => true,
        (TraceAggregateNodeData::Label { label: a }, TraceOp::Label { label: b }) => a.eq(b),
        (TraceAggregateNodeData::Tag, TraceOp::Tag) => true,
        (TraceAggregateNodeData::Metric { name: a, .. }, TraceOp::Metric { name: b, .. }) => a.eq(
            b,
        ),
        (
            TraceAggregateNodeData::LocalChannelSend { channel: a },
            TraceOp::LocalChannelSend { channel: b, .. },
        ) => a == b,
        (
            TraceAggregateNodeData::LocalChannelReceive { channel: a },
            TraceOp::LocalChannelReceive { channel: b, .. },
        ) => a == b,
        (
            TraceAggregateNodeData::LocalChannelTransferFrom { from: a, to: c },
            TraceOp::LocalChannelTransferFrom { from: b, to: d, .. },
        ) => a == b && c == d,
        (
            TraceAggregateNodeData::GlobalChannelSend { channel: a },
            TraceOp::GlobalChannelSend { channel: b, .. },
        ) => a == b,
        (
            TraceAggregateNodeData::GlobalChannelReceive { channel: a },
            TraceOp::GlobalChannelReceive { channel: b, .. },
        ) => a == b,
        (
            TraceAggregateNodeData::GlobalChannelTransferFrom { from: a, to: c },
            TraceOp::GlobalChannelTransferFrom { from: b, to: d, .. },
        ) => a == b && c == d,
        _ => false,
    }
}



impl TraceAggregator {
    /// Set the one-shot `next` link of a node.
    #[verifier::spinoff_prover]
    fn set_next(&mut self, nptr: TraceAggregateNodePtr, p: TraceAggregateNodePtr)
        requires
            old(self).wf(),
            nptr.index < old(self).nodes@.len(),
            old(self).nodes@[nptr.index as int].next is None,
            p.index < old(self).nodes@.len(),
        ensures
            final(self).wf(),
            final(self).metrics@ == old(self).metrics@,
            final(self).start_node == old(self).start_node,
            final(self).nodes@.len() == old(self).nodes@.len(),
            forall|i: int|
                0 <= i < old(self).nodes@.len() && i != nptr.index ==> final(self).nodes@[i]
                    == old(self).nodes@[i],
            final(self).nodes@[nptr.index as int].op == old(self).nodes@[nptr.index as int].op,
            final(self).nodes@[nptr.index as int].index == old(self).nodes@[nptr.index as int].index,
            final(self).nodes@[nptr.index as int].branch_sibling == old(self).nodes@[nptr.index as int].branch_sibling,
            final(self).nodes@[nptr.index as int].next matches Some(q) && q.index == p.index,
    {
        let ghost ns1 = self.nodes@;
        let mut n = self.nodes.get(nptr).clone();
        n.next = Some(p);
        self.nodes.set(nptr, n);
        proof {
            lemma_branch_targets_same_ops(ns1, self.nodes@);
        }
    }

    /// Set the one-shot sibling link of a chain end.
    #[verifier::spinoff_prover]
    fn link_sibling(&mut self, chain_end: TraceAggregateNodePtr, p: TraceAggregateNodePtr)
        requires
            old(self).wf(),
            chain_end.index < old(self).nodes@.len(),
            old(self).nodes@[chain_end.index as int].branch_sibling is None,
            p.index < old(self).nodes@.len(),
        ensures
            final(self).wf(),
            final(self).metrics@ == old(self).metrics@,
            final(self).start_node == old(self).start_node,
            final(self).nodes@.len() == old(self).nodes@.len(),
            forall|i: int|
                0 <= i < old(self).nodes@.len() && i != chain_end.index ==> final(self).nodes@[i]
                    == old(self).nodes@[i],
            final(self).nodes@[chain_end.index as int].op == old(self).nodes@[chain_end.index as int].op,
            final(self).nodes@[chain_end.index as int].index == old(self).nodes@[chain_end.index as int].index,
            final(self).nodes@[chain_end.index as int].next == old(self).nodes@[chain_end.index as int].next,
            final(self).nodes@[chain_end.index as int].branch_sibling matches Some(b) ==> b.next
                == p,
    {
        let ghost ns1 = self.nodes@;
        let mut n = self.nodes.get(chain_end).clone();
        n.branch_sibling = Some(TraceAggregateBranch { next: p });
        self.nodes.set(chain_end, n);
        proof {
            lemma_branch_targets_same_ops(ns1, self.nodes@);
        }
    }

    /// Fold one metric observation into its slot.
    #[verifier::spinoff_prover]
    fn fold_metric(&mut self, mi: u16, value: i64)
        requires
            mi < old(self).metrics@.len(),
        ensures
            final(self).metrics@ == old(self).metrics@.update(
                mi as int,
                metric_folded(old(self).metrics@[mi as int], value),
            ),
            final(self).nodes@ == old(self).nodes@,
            final(self).start_node == old(self).start_node,
    {
        let m = self.metrics[mi as usize];
        self.metrics.set(
            mi as usize,
            MetricAggregate {
                count: m.count.wrapping_add(1),
                sum: m.sum.wrapping_add(value),
                min: if value < m.min {
                    value
                } else {
                    m.min
                },
                max: if value > m.max {
                    value
                } else {
                    m.max
                },
            },
        );
    }

    /// Fold one op of the running trace into the graph.
    ///
    /// Resolves the candidate successor of the cursor (initialising
    /// the start node or the `next` link when unset), walks the
    /// sibling chain for a node with the op's key (allocating one at
    /// the chain end when missing), folds metric values into their
    /// slot, maintains the active-branch handle, and moves the cursor
    /// to the matched node, returning its position.
    #[verifier::rlimit(100)]
    #[verifier::spinoff_prover]
    pub fn ingest(&mut self, cursor: &mut TraceAggregateCursor, op: &TraceOp) -> (r: u16)
        requires
            old(self).wf(),
            old(self).cursor_ok(*old(cursor)),
            old(self).nodes@.len() + 2 <= u16::MAX,
            old(self).metrics@.len() < u16::MAX,
            op_key(*op) == TraceOpKey::BranchEnd ==> old(cursor).branch_end is Some,
        ensures
            final(self).wf(),
            final(self).cursor_ok(*final(cursor)),
            r < final(self).nodes@.len(),
            final(cursor).node matches Some(p) && p.index == r,
            data_key(final(self).nodes@[r as int].op) == op_key(*op),
            old(self).nodes@.len() <= final(self).nodes@.len() <= old(self).nodes@.len() + 2,
            forall|i: int|
                0 <= i < old(self).nodes@.len() ==> {
                    &&& (#[trigger] final(self).nodes@[i]).op == old(self).nodes@[i].op
                    &&& final(self).nodes@[i].index == old(self).nodes@[i].index
                    &&& (old(self).nodes@[i].next is Some
                        ==> final(self).nodes@[i].next == old(self).nodes@[i].next)
                    &&& (old(self).nodes@[i].branch_sibling is Some
                        ==> final(self).nodes@[i].branch_sibling
                        == old(self).nodes@[i].branch_sibling)
                },
            old(self).start_node is Some ==> final(self).start_node == old(self).start_node,
            !(*op matches TraceOp::Metric { .. }) ==> final(self).metrics@ == old(self).metrics@,
            *op matches TraceOp::Metric { name, value } ==> (final(self).nodes@[r as int].op
                matches TraceAggregateNodeData::Metric { name: n2, index: mi } && n2@ == name@ && (
            (mi < old(self).metrics@.len() && final(self).metrics@ == old(self).metrics@.update(
                mi as int,
                metric_folded(old(self).metrics@[mi as int], value),
            )) || (mi == old(self).metrics@.len()
                && final(self).metrics@
                == old(self).metrics@.push(metric_folded(metric_identity(), value))))),
            final(self).nodes@[r as int].op matches TraceAggregateNodeData::BranchStart {
                branch_end,
            } ==> final(cursor).branch_end == Some(branch_end),
            final(self).nodes@[r as int].op matches TraceAggregateNodeData::BranchEnd {
                parent_branch_end,
            } ==> final(cursor).branch_end == parent_branch_end,
            (op_key(*op) != TraceOpKey::BranchStart && op_key(*op) != TraceOpKey::BranchEnd)
                ==> final(cursor).branch_end == old(cursor).branch_end,
            old(cursor).node matches Some(n) ==> op_key(*op) == TraceOpKey::BranchEnd ==> (old(self).nodes@[n.index as int].op matches TraceAggregateNodeData::BranchStart { branch_end }
                ==> (r == branch_end.index && final(self).nodes@ == old(self).nodes@)),
            old(cursor).node is None ==> (old(self).start_node matches Some(p) ==> (data_key(
                old(self).nodes@[p.index as int].op,
            ) == op_key(*op) ==> (final(self).nodes@.len() == old(self).nodes@.len() && r
                == p.index))),
            old(cursor).node matches Some(n) ==> (old(self).nodes@[n.index as int].next matches
                Some(c) ==> (data_key(old(self).nodes@[c.index as int].op) == op_key(*op) ==> ((
            op_key(*op) == TraceOpKey::BranchEnd ==> !(old(self).nodes@[n.index as int].op matches
                TraceAggregateNodeData::BranchStart { .. })) ==> (final(self).nodes@.len() == old(
                self,
            ).nodes@.len() && r == c.index)))),
    {
        let ghost oldnodes = self.nodes@;
        let ghost oldmetrics = self.metrics@;

        // Resolve the candidate node for this op.
        let candidate: TraceAggregateNodePtr;
        match cursor.node {
            Some(nptr) => {
                // An op closing an empty branch jumps straight to the
                // pre-allocated branch-end node.
                let mut empty_branch: Option<TraceAggregateNodePtr> = None;
                match (&self.nodes.get(nptr).op, op) {
                    (TraceAggregateNodeData::BranchStart { branch_end }, TraceOp::BranchEnd) => {
                        empty_branch = Some(*branch_end);
                    },
                    _ => {},
                }
                match empty_branch {
                    Some(be) => {
                        proof {
                            reveal(branch_targets_ok);
                        }
                        let parent: Option<TraceAggregateNodePtr> = match &self.nodes.get(be).op {
                            TraceAggregateNodeData::BranchEnd { parent_branch_end } => {
                                *parent_branch_end
                            },
                            _ => {
                                proof {
                                    assert(false);
                                }
                                None
                            },
                        };
                        cursor.branch_end = parent;
                        cursor.node = Some(be);
                        return be.index as u16;
                    },
                    None => {},
                }
                let nx = self.nodes.get(nptr).next;
                match nx {
                    Some(p) => {
                        candidate = p;
                    },
                    None => {
                        let p = self.new_node(cursor, op);
                        self.set_next(nptr, p);
                        assert(*op matches TraceOp::Metric { .. } ==> {
                            &&& self.metrics@ == oldmetrics.push(metric_identity())
                            &&& self.nodes@[p.index as int].op matches
                                TraceAggregateNodeData::Metric { index, .. } && index
                                == oldmetrics.len()
                        });
                        candidate = p;
                    },
                }
            },
            None => {
                match self.start_node {
                    Some(p) => {
                        candidate = p;
                    },
                    None => {
                        let p = self.new_node(cursor, op);
                        self.start_node = Some(p);
                        assert(*op matches TraceOp::Metric { .. } ==> {
                            &&& self.metrics@ == oldmetrics.push(metric_identity())
                            &&& self.nodes@[p.index as int].op matches
                                TraceAggregateNodeData::Metric { index, .. } && index
                                == oldmetrics.len()
                        });
                        candidate = p;
                    },
                }
            },
        }
        let ghost mid = *self;
        let ghost midcursor = *cursor;

        // Walk the sibling chain for a node with this op's key.  The
        // walk is bounded by the node count, which no duplicate-free
        // chain can exceed.
        let mut cur = candidate;
        let mut fuel: usize = self.nodes.len();
        let mut matched = data_matches_op(&self.nodes.get(cur).op, op);
        let mut open_end = false;
        assert(oldnodes.len() <= self.nodes@.len() <= oldnodes.len() + 2);
        assert(!matched ==> self.nodes@.len() + 2 <= u16::MAX && self.metrics@.len() < u16::MAX
            && self.metrics@ == oldmetrics && self.nodes@.len() == oldnodes.len() && (op_key(*op)
            == TraceOpKey::BranchEnd ==> cursor.branch_end is Some));
        while !matched && !open_end && fuel > 0
            invariant
                *self == mid,
                *cursor == midcursor,
                self.wf(),
                cur.index < self.nodes@.len(),
                matched == (data_key(self.nodes@[cur.index as int].op) == op_key(*op)),
                open_end ==> self.nodes@[cur.index as int].branch_sibling is None,
                oldnodes.len() <= self.nodes@.len() <= oldnodes.len() + 2,
                !matched ==> self.nodes@.len() + 2 <= u16::MAX && self.metrics@.len()
                    < u16::MAX && self.metrics@ == oldmetrics && self.nodes@.len()
                    == oldnodes.len() && (op_key(*op) == TraceOpKey::BranchEnd
                    ==> cursor.branch_end is Some),
                data_key(self.nodes@[candidate.index as int].op) == op_key(*op) ==> cur
                    == candidate,
                *op matches TraceOp::Metric { .. } ==> (self.metrics@ == oldmetrics || {
                    &&& self.metrics@ == oldmetrics.push(metric_identity())
                    &&& self.nodes@[cur.index as int].op matches TraceAggregateNodeData::Metric {
                        index,
                        ..
                    } && index == oldmetrics.len()
                }),
            decreases fuel,
        {
            let sib: Option<TraceAggregateNodePtr> = match &self.nodes.get(cur).branch_sibling {
                Some(b) => Some(b.next),
                None => None,
            };
            match sib {
                Some(nextp) => {
                    cur = nextp;
                    matched = data_matches_op(&self.nodes.get(cur).op, op);
                },
                None => {
                    open_end = true;
                },
            }
            fuel = fuel - 1;
        }

        // Allocate when the walk found no match, linking the new node
        // at the chain end.
        if !matched {
            let chain_end = cur;
            let ghost before = self.nodes@;
            let end_open = open_end;
            let p = self.new_node(cursor, op);
            assert(self.nodes@[chain_end.index as int] == before[chain_end.index as int]);
            assert(p.index != chain_end.index);
            if end_open {
                self.link_sibling(chain_end, p);
            }
            assert(*op matches TraceOp::Metric { .. } ==> {
                &&& self.metrics@ == oldmetrics.push(metric_identity())
                &&& self.nodes@[p.index as int].op matches TraceAggregateNodeData::Metric {
                    index,
                    ..
                } && index == oldmetrics.len()
            });
            cur = p;
        }

        assert(*op matches TraceOp::Metric { .. } ==> (self.metrics@ == oldmetrics || {
            &&& self.metrics@ == oldmetrics.push(metric_identity())
            &&& self.nodes@[cur.index as int].op matches TraceAggregateNodeData::Metric {
                index,
                ..
            } && index == oldmetrics.len()
        }));
        self.apply_effect(cursor, op, cur, Ghost(oldmetrics));
        cur.index as u16
    }

    /// Apply the matched node's effect: move the cursor onto it, track
    /// the active branch, and fold a metric observation into its slot.
    #[verifier::spinoff_prover]
    fn apply_effect(
        &mut self,
        cursor: &mut TraceAggregateCursor,
        op: &TraceOp,
        cur: TraceAggregateNodePtr,
        Ghost(oldmetrics): Ghost<Seq<MetricAggregate>>,
    )
        requires
            old(self).wf(),
            old(self).cursor_ok(*old(cursor)),
            cur.index < old(self).nodes@.len(),
            data_key(old(self).nodes@[cur.index as int].op) == op_key(*op),
            oldmetrics.len() <= old(self).metrics@.len(),
            *op matches TraceOp::Metric { .. } ==> (old(self).metrics@ == oldmetrics || {
                &&& old(self).metrics@ == oldmetrics.push(metric_identity())
                &&& old(self).nodes@[cur.index as int].op matches TraceAggregateNodeData::Metric {
                    index,
                    ..
                } && index == oldmetrics.len()
            }),
            !(*op matches TraceOp::Metric { .. }) ==> old(self).metrics@ == oldmetrics,
        ensures
            final(self).wf(),
            final(self).cursor_ok(*final(cursor)),
            final(self).nodes@ == old(self).nodes@,
            final(self).start_node == old(self).start_node,
            final(cursor).node matches Some(p) && p.index == cur.index,
            final(self).nodes@[cur.index as int].op matches TraceAggregateNodeData::BranchStart {
                branch_end,
            } ==> final(cursor).branch_end == Some(branch_end),
            final(self).nodes@[cur.index as int].op matches TraceAggregateNodeData::BranchEnd {
                parent_branch_end,
            } ==> final(cursor).branch_end == parent_branch_end,
            (op_key(*op) != TraceOpKey::BranchStart && op_key(*op) != TraceOpKey::BranchEnd)
                ==> final(cursor).branch_end == old(cursor).branch_end,
            !(*op matches TraceOp::Metric { .. }) ==> final(self).metrics@ == oldmetrics,
            *op matches TraceOp::Metric { name, value } ==> (final(self).nodes@[cur.index as int].op
                matches TraceAggregateNodeData::Metric { name: n2, index: mi } && n2@ == name@ && (
            (mi < oldmetrics.len() && final(self).metrics@ == oldmetrics.update(
                mi as int,
                metric_folded(oldmetrics[mi as int], value),
            )) || (mi == oldmetrics.len()
                && final(self).metrics@
                == oldmetrics.push(metric_folded(metric_identity(), value))))),
    {
        let effect: TraceAggregateNodeData = self.nodes.get(cur).op.clone();
        match effect {
            TraceAggregateNodeData::BranchStart { branch_end } => {
                proof {
                    reveal(branch_targets_ok);
                }
                cursor.branch_end = Some(branch_end);
            },
            TraceAggregateNodeData::BranchEnd { parent_branch_end } => {
                proof {
                    reveal(branch_targets_ok);
                }
                cursor.branch_end = parent_branch_end;
            },
            TraceAggregateNodeData::Metric { index, .. } => {
                match op {
                    TraceOp::Metric { value, .. } => {
                        let ghost before = self.metrics@;
                        self.fold_metric(index, *value);
                        proof {
                            if oldmetrics.len() < before.len() {
                                assert(before =~= oldmetrics.push(metric_identity()));
                                assert(index == oldmetrics.len());
                                assert(self.metrics@ =~= oldmetrics.push(
                                    metric_folded(metric_identity(), *value),
                                ));
                            }
                        }
                    },
                    _ => {},
                }
            },
            _ => {},
        }
        cursor.node = Some(cur);
    }
}


/// Byte capacity of one invocation's detail scratch.
pub const DETAIL_CAPACITY: usize = 512;

/// The instance payload an op contributes to the detail scratch: the
/// source for source ops, the observed value for metrics, nothing for
/// the purely structural ops.
pub open spec fn op_detail_payload(op: TraceOp) -> Seq<u8> {
    match op {
        TraceOp::CreateSource { source } => crate::bytes::u64_le(source.source),
        TraceOp::DeleteSource { source } => crate::bytes::u64_le(source.source),
        TraceOp::Metric { value, .. } => crate::bytes::i64_le(value),
        _ => Seq::empty(),
    }
}

/// Per-invocation trace context: where the invocation stands in the
/// graph, and the detail bytes collected so far.
pub struct Trace {
    pub is_detailed_trace: bool,
    pub start_nanos: u64,
    pub aggregate_cursor: TraceAggregateCursor,
    pub detail: Vec<u8>,
    pub valid: bool,
}

impl Trace {
    /// A fresh invocation context.
    pub fn start(is_detailed_trace: bool, start_nanos: u64) -> (r: Trace)
        ensures
            r.aggregate_cursor.node is None,
            r.aggregate_cursor.branch_end is None,
            r.detail@.len() == 0,
            r.valid,
            r.is_detailed_trace == is_detailed_trace,
            r.start_nanos == start_nanos,
    {
        Trace {
            is_detailed_trace,
            start_nanos,
            aggregate_cursor: TraceAggregateCursor::start_cursor(),
            detail: Vec::new(),
            valid: true,
        }
    }

    /// Fold one op into the aggregator, and, for detailed traces,
    /// append the matched node's position and the op's instance
    /// payload to the bounded detail scratch; an append that would
    /// overflow the scratch marks the invocation invalid instead, so
    /// that no detail event is emitted for it.
    pub fn push_op(&mut self, aggregator: &mut TraceAggregator, op: &TraceOp)
        requires
            old(aggregator).wf(),
            old(aggregator).cursor_ok(old(self).aggregate_cursor),
            old(aggregator).nodes@.len() + 2 <= u16::MAX,
            old(aggregator).metrics@.len() < u16::MAX,
            op_key(*op) == TraceOpKey::BranchEnd ==> old(self).aggregate_cursor.branch_end
                is Some,
        ensures
            final(aggregator).wf(),
            final(aggregator).cursor_ok(final(self).aggregate_cursor),
            final(self).aggregate_cursor.node matches Some(p) && p.index < final(aggregator).nodes@.len() && data_key(final(aggregator).nodes@[p.index as int].op) == op_key(
                *op,
            ),
            old(aggregator).nodes@.len() <= final(aggregator).nodes@.len() <= old(aggregator).nodes@.len() + 2,
            op_key(*op) == TraceOpKey::BranchStart ==> final(self).aggregate_cursor.branch_end
                is Some,
            (op_key(*op) != TraceOpKey::BranchStart && op_key(*op) != TraceOpKey::BranchEnd)
                ==> final(self).aggregate_cursor.branch_end == old(self).aggregate_cursor.branch_end,
            !(*op matches TraceOp::Metric { .. }) ==> final(aggregator).metrics@ == old(aggregator).metrics@,
            *op matches TraceOp::Metric { name, value } ==> (final(self).aggregate_cursor.node
                matches Some(p) && final(aggregator).nodes@[p.index as int].op matches
                TraceAggregateNodeData::Metric { name: n2, index: mi } && n2@ == name@ && ((mi
                < old(aggregator).metrics@.len() && final(aggregator).metrics@ == old(aggregator).metrics@.update(mi as int, metric_folded(old(aggregator).metrics@[mi as int], value)))
                || (mi == old(aggregator).metrics@.len() && final(aggregator).metrics@ == old(aggregator).metrics@.push(metric_folded(metric_identity(), value))))),
            final(self).is_detailed_trace == old(self).is_detailed_trace,
            final(self).start_nanos == old(self).start_nanos,
            !(old(self).is_detailed_trace && old(self).valid) ==> (final(self).detail == old(self).detail && final(self).valid == old(self).valid),
            (old(self).is_detailed_trace && old(self).valid) ==> (if old(self).detail@.len() + 2
                + op_detail_payload(*op).len() <= DETAIL_CAPACITY {
                final(self).valid && (final(self).aggregate_cursor.node matches Some(p) ==> final(self).detail@ == old(self).detail@ + crate::bytes::u16_le(p.index as u16)
                    + op_detail_payload(*op))
            } else {
                !final(self).valid && final(self).detail == old(self).detail
            }),
    {
        let op_node_index = aggregator.ingest(&mut self.aggregate_cursor, op);
        if self.is_detailed_trace && self.valid {
            let payload: usize = match op {
                TraceOp::CreateSource { .. } => 8,
                TraceOp::DeleteSource { .. } => 8,
                TraceOp::Metric { .. } => 8,
                _ => 0,
            };
            if self.detail.len() > DETAIL_CAPACITY || DETAIL_CAPACITY - self.detail.len() < 2
                + payload {
                self.valid = false;
            } else {
                crate::bytes::push_u16(&mut self.detail, op_node_index);
                match op {
                    TraceOp::CreateSource { source } => {
                        crate::bytes::push_u64(&mut self.detail, source.source);
                    },
                    TraceOp::DeleteSource { source } => {
                        crate::bytes::push_u64(&mut self.detail, source.source);
                    },
                    TraceOp::Metric { value, .. } => {
                        crate::bytes::push_i64(&mut self.detail, *value);
                    },
                    _ => {},
                }
                assert(self.detail@ =~= old(self).detail@ + crate::bytes::u16_le(op_node_index)
                    + op_detail_payload(*op));
            }
        }
    }
}

/// Record a metric observation on the running invocation: the cursor
/// lands on the metric's node and the observation is folded into its
/// slot.
pub fn trace_metric(trace: &mut Trace, aggregator: &mut TraceAggregator, name: &str, value: i64)
    requires
        old(aggregator).wf(),
        old(aggregator).cursor_ok(old(trace).aggregate_cursor),
        old(aggregator).nodes@.len() + 2 <= u16::MAX,
        old(aggregator).metrics@.len() < u16::MAX,
    ensures
        final(aggregator).wf(),
        final(aggregator).cursor_ok(final(trace).aggregate_cursor),
        final(trace).aggregate_cursor.node matches Some(p) && {
            &&& p.index < final(aggregator).nodes@.len()
            &&& final(aggregator).nodes@[p.index as int].op matches
                TraceAggregateNodeData::Metric { name: n2, index: mi } && n2@ == name@ && ((mi
                < old(aggregator).metrics@.len() && final(aggregator).metrics@ == old(
                aggregator,
            ).metrics@.update(mi as int, metric_folded(old(aggregator).metrics@[mi as int], value)))
                || (mi == old(aggregator).metrics@.len() && final(aggregator).metrics@ == old(
                aggregator,
            ).metrics@.push(metric_folded(metric_identity(), value))))
        },
        old(aggregator).nodes@.len() <= final(aggregator).nodes@.len() <= old(aggregator).nodes@.len() + 2,
        final(trace).aggregate_cursor.branch_end == old(trace).aggregate_cursor.branch_end,
{
    let op = TraceOp::Metric { name: <String as vstd::string::StringExecFns>::from_str(name), value };
    trace.push_op(aggregator, &op);
}

/// Record a label on the running invocation: the cursor lands on the
/// label's node.
pub fn trace_label(trace: &mut Trace, aggregator: &mut TraceAggregator, label: &str)
    requires
        old(aggregator).wf(),
        old(aggregator).cursor_ok(old(trace).aggregate_cursor),
        old(aggregator).nodes@.len() + 2 <= u16::MAX,
        old(aggregator).metrics@.len() < u16::MAX,
    ensures
        final(aggregator).wf(),
        final(aggregator).cursor_ok(final(trace).aggregate_cursor),
        final(trace).aggregate_cursor.node matches Some(p) && {
            &&& p.index < final(aggregator).nodes@.len()
            &&& final(aggregator).nodes@[p.index as int].op matches
                TraceAggregateNodeData::Label { label: l2 } && l2@ == label@
        },
        final(aggregator).metrics@ == old(aggregator).metrics@,
        old(aggregator).nodes@.len() <= final(aggregator).nodes@.len() <= old(aggregator).nodes@.len() + 2,
        final(trace).aggregate_cursor.branch_end == old(trace).aggregate_cursor.branch_end,
{
    let op = TraceOp::Label { label: <String as vstd::string::StringExecFns>::from_str(label) };
    trace.push_op(aggregator, &op);
}

/// Open a branch on the running invocation: the cursor lands on a
/// branch-start node and its paired end becomes the active branch.
pub fn trace_branch_start(trace: &mut Trace, aggregator: &mut TraceAggregator)
    requires
        old(aggregator).wf(),
        old(aggregator).cursor_ok(old(trace).aggregate_cursor),
        old(aggregator).nodes@.len() + 2 <= u16::MAX,
        old(aggregator).metrics@.len() < u16::MAX,
    ensures
        final(aggregator).wf(),
        final(aggregator).cursor_ok(final(trace).aggregate_cursor),
        final(trace).aggregate_cursor.node matches Some(p) && p.index < final(aggregator).nodes@.len() && final(aggregator).nodes@[p.index as int].op matches
            TraceAggregateNodeData::BranchStart { .. },
        final(trace).aggregate_cursor.branch_end is Some,
        final(aggregator).metrics@ == old(aggregator).metrics@,
        old(aggregator).nodes@.len() <= final(aggregator).nodes@.len() <= old(aggregator).nodes@.len() + 2,
{
    trace.push_op(aggregator, &TraceOp::BranchStart);
}

/// Close the innermost open branch of the running invocation: the
/// cursor lands on the branch's end node.
pub fn trace_branch_end(trace: &mut Trace, aggregator: &mut TraceAggregator)
    requires
        old(aggregator).wf(),
        old(aggregator).cursor_ok(old(trace).aggregate_cursor),
        old(aggregator).nodes@.len() + 2 <= u16::MAX,
        old(aggregator).metrics@.len() < u16::MAX,
        old(trace).aggregate_cursor.branch_end is Some,
    ensures
        final(aggregator).wf(),
        final(aggregator).cursor_ok(final(trace).aggregate_cursor),
        final(trace).aggregate_cursor.node matches Some(p) && p.index < final(aggregator).nodes@.len() && final(aggregator).nodes@[p.index as int].op matches
            TraceAggregateNodeData::BranchEnd { .. },
        final(aggregator).metrics@ == old(aggregator).metrics@,
        old(aggregator).nodes@.len() <= final(aggregator).nodes@.len() <= old(aggregator).nodes@.len() + 2,
{
    trace.push_op(aggregator, &TraceOp::BranchEnd);
}

/// Run a computation inside a branch of the running invocation: open
/// the branch, compute, close it again.
pub fn trace_branch<R, F: FnOnce() -> R>(
    trace: &mut Trace,
    aggregator: &mut TraceAggregator,
    f: F,
) -> (r: R)
    requires
        old(aggregator).wf(),
        old(aggregator).cursor_ok(old(trace).aggregate_cursor),
        old(aggregator).nodes@.len() + 4 <= u16::MAX,
        old(aggregator).metrics@.len() < u16::MAX,
        f.requires(()),
    ensures
        final(aggregator).wf(),
        final(aggregator).cursor_ok(final(trace).aggregate_cursor),
        final(trace).aggregate_cursor.node matches Some(p) && p.index < final(aggregator).nodes@.len() && final(aggregator).nodes@[p.index as int].op matches
            TraceAggregateNodeData::BranchEnd { .. },
        f.ensures((), r),
{
    trace_branch_start(trace, aggregator);
    let r = f();
    trace_branch_end(trace, aggregator);
    r
}

/// Run a computation with a component as the ambient parent for any
/// sources created inside.  The ambient bookkeeping itself lives with
/// the embedder; the library runs the computation and hands its result
/// back unchanged.
pub fn enter_component<R, F: FnOnce() -> R>(name: &str, f: F) -> (r: R)
    requires
        f.requires(()),
    ensures
        f.ensures((), r),
{
    f()
}

/// Component-scoped future: the wrapped future is handed back for the
/// embedder to poll, bracketing each poll with the ambient component.
pub fn enter_component_async<F>(name: &str, f: F) -> (r: F)
    ensures
        r == f,
{
    f
}

/// Like [`enter_component`], for a component that is not expected to
/// recur.
pub fn enter_component_ephemeral<R, F: FnOnce() -> R>(name: &str, f: F) -> (r: R)
    requires
        f.requires(()),
    ensures
        f.ensures((), r),
{
    f()
}

/// Like [`enter_component_async`], for a component that is not
/// expected to recur.
pub fn enter_component_ephemeral_async<F>(name: &str, f: F) -> (r: F)
    ensures
        r == f,
{
    f
}


/// The wire image of a node's op: handles become node positions, a
/// missing parent branch end becomes the largest index, and names
/// travel as their character encoding.
pub open spec fn wire_op_of(d: TraceAggregateNodeData) -> wire::TraceOpAggregateView {
    match d {
        TraceAggregateNodeData::CreateSource => wire::TraceOpAggregateView::CreateSource,
        TraceAggregateNodeData::DeleteSource => wire::TraceOpAggregateView::DeleteSource,
        TraceAggregateNodeData::Call { source } => wire::TraceOpAggregateView::Call { source },
        TraceAggregateNodeData::PushScope => wire::TraceOpAggregateView::PushScope,
        TraceAggregateNodeData::PopScope => wire::TraceOpAggregateView::PopScope,
        TraceAggregateNodeData::BranchStart { branch_end } => wire::TraceOpAggregateView::BranchStart {
            branch_end: branch_end.index as u16,
        },
        TraceAggregateNodeData::BranchEnd { parent_branch_end } => wire::TraceOpAggregateView::BranchEnd {
            parent_branch_end: match parent_branch_end {
                Some(p) => p.index as u16,
                None => u16::MAX,
            },
        },
        TraceAggregateNodeData::Label { label } => wire::TraceOpAggregateView::Label {
            label: vstd::utf8::encode_utf8(label@),
        },
        TraceAggregateNodeData::Tag => wire::TraceOpAggregateView::Tag,
        TraceAggregateNodeData::Metric { name, index } => wire::TraceOpAggregateView::Metric {
            name: vstd::utf8::encode_utf8(name@),
            index,
        },
        TraceAggregateNodeData::LocalChannelSend { channel } => wire::TraceOpAggregateView::ChannelSend {
            channel,
        },
        TraceAggregateNodeData::LocalChannelReceive { channel } => wire::TraceOpAggregateView::ChannelReceive {
            channel,
        },
        TraceAggregateNodeData::LocalChannelTransferFrom { from, to } => wire::TraceOpAggregateView::ChannelTransfer {
            from,
            to,
        },
        TraceAggregateNodeData::GlobalChannelSend { channel } => wire::TraceOpAggregateView::GlobalChannelSend {
            channel,
        },
        TraceAggregateNodeData::GlobalChannelReceive { channel } => wire::TraceOpAggregateView::GlobalChannelReceive {
            channel,
        },
        TraceAggregateNodeData::GlobalChannelTransferFrom { from, to } => wire::TraceOpAggregateView::GlobalChannelTransfer {
            from,
            to,
        },
    }
}

/// The wire image of a graph node: the op with the one-shot edges as
/// node positions.
pub open spec fn wire_node_of(n: TraceAggregateNode) -> wire::TraceAggregateNodeView {
    wire::TraceAggregateNodeView {
        op: wire_op_of(n.op),
        branch_next: match n.branch_sibling {
            Some(b) => Some(b.next.index as u16),
            None => None,
        },
        next: match n.next {
            Some(p) => Some(p.index as u16),
            None => None,
        },
    }
}

/// Whether some node among the first `k` is a metric on slot `j`.
pub open spec fn slot_used_upto(ns: Seq<TraceAggregateNode>, k: int, j: int) -> bool {
    exists|i: int|
        #![trigger ns[i]]
        {
            &&& 0 <= i < k
            &&& ns[i].op matches TraceAggregateNodeData::Metric { index, .. } && index == j
        }
}

/// Whether some node of the graph is a metric on slot `j`.
pub open spec fn metric_slot_used(ns: Seq<TraceAggregateNode>, j: int) -> bool {
    slot_used_upto(ns, ns.len() as int, j)
}

/// Bytes of a name as it travels on the wire.
fn string_wire_bytes(s: &String) -> (r: Vec<u8>)
    ensures
        r@ == vstd::utf8::encode_utf8(s@),
{
    vstd::slice::slice_to_vec(s.as_str().as_bytes())
}

impl TraceAggregator {
    /// Emit the full aggregate: the graph serialized in insertion
    /// order with empty counters and the current metric summaries,
    /// after which every metric slot a node references is reset to the
    /// identity.  The graph itself is untouched, so node positions
    /// stay stable across flush cycles.
    pub fn flush_full(&mut self, start_nanos: u64) -> (r: wire::TraceAggregate)
        requires
            old(self).wf(),
        ensures
            final(self).wf(),
            final(self).nodes@ == old(self).nodes@,
            final(self).start_node == old(self).start_node,
            final(self).metrics@.len() == old(self).metrics@.len(),
            forall|j: int|
                0 <= j < old(self).metrics@.len() ==> final(self).metrics@[j] == (
                if metric_slot_used(old(self).nodes@, j) {
                    metric_identity()
                } else {
                    old(self).metrics@[j]
                }),
            r.start_nanos == start_nanos,
            r.counters@.len() == 0,
            r.metrics@ == old(self).metrics@,
            r.nodes@.len() == old(self).nodes@.len(),
            forall|i: int|
                0 <= i < old(self).nodes@.len() ==> (#[trigger] r.nodes@[i])@ == wire_node_of(
                    old(self).nodes@[i],
                ),
    {
        let ghost ns = self.nodes@;
        let ghost oldm = self.metrics@;

        // Serialize the graph in insertion order.
        let mut wnodes: Vec<wire::TraceAggregateNode> = Vec::new();
        let mut i: usize = 0;
        while i < self.nodes.len()
            invariant
                *self == *old(self),
                self.wf(),
                ns == self.nodes@,
                i <= ns.len(),
                wnodes@.len() == i,
                forall|k: int| 0 <= k < i ==> (#[trigger] wnodes@[k])@ == wire_node_of(ns[k]),
            decreases ns.len() - i,
        {
            let n = self.nodes.get_at(i);
            let wop: wire::TraceOpAggregate = match &n.op {
                TraceAggregateNodeData::CreateSource => wire::TraceOpAggregate::CreateSource,
                TraceAggregateNodeData::DeleteSource => wire::TraceOpAggregate::DeleteSource,
                TraceAggregateNodeData::Call { source } => wire::TraceOpAggregate::Call {
                    source: *source,
                },
                TraceAggregateNodeData::PushScope => wire::TraceOpAggregate::PushScope,
                TraceAggregateNodeData::PopScope => wire::TraceOpAggregate::PopScope,
                TraceAggregateNodeData::BranchStart { branch_end } => wire::TraceOpAggregate::BranchStart {
                    branch_end: branch_end.index as u16,
                },
                TraceAggregateNodeData::BranchEnd { parent_branch_end } => wire::TraceOpAggregate::BranchEnd {
                    parent_branch_end: match parent_branch_end {
                        Some(p) => p.index as u16,
                        None => u16::MAX,
                    },
                },
                TraceAggregateNodeData::Label { label } => wire::TraceOpAggregate::Label {
                    label: string_wire_bytes(label),
                },
                TraceAggregateNodeData::Tag => wire::TraceOpAggregate::Tag,
                TraceAggregateNodeData::Metric { name, index } => wire::TraceOpAggregate::Metric {
                    name: string_wire_bytes(name),
                    index: *index,
                },
                TraceAggregateNodeData::LocalChannelSend { channel } => wire::TraceOpAggregate::ChannelSend {
                    channel: *channel,
                },
                TraceAggregateNodeData::LocalChannelReceive { channel } => wire::TraceOpAggregate::ChannelReceive {
                    channel: *channel,
                },
                TraceAggregateNodeData::LocalChannelTransferFrom { from, to } => wire::TraceOpAggregate::ChannelTransfer {
                    from: *from,
                    to: *to,
                },
                TraceAggregateNodeData::GlobalChannelSend { channel } => wire::TraceOpAggregate::GlobalChannelSend {
                    channel: *channel,
                },
                TraceAggregateNodeData::GlobalChannelReceive { channel } => wire::TraceOpAggregate::GlobalChannelReceive {
                    channel: *channel,
                },
                TraceAggregateNodeData::GlobalChannelTransferFrom { from, to } => wire::TraceOpAggregate::GlobalChannelTransfer {
                    from: *from,
                    to: *to,
                },
            };
            let w = wire::TraceAggregateNode {
                op: wop,
                branch_next: match &n.branch_sibling {
                    Some(b) => Some(b.next.index as u16),
                    None => None,
                },
                next: match &n.next {
                    Some(p) => Some(p.index as u16),
                    None => None,
                },
            };
            assert(w@ == wire_node_of(ns[i as int]));
            wnodes.push(w);
            i = i + 1;
        }

        // Copy out the summaries being emitted, then reset.
        let mut emitted_metrics: Vec<MetricAggregate> = Vec::new();
        let mut i: usize = 0;
        while i < self.metrics.len()
            invariant
                *self == *old(self),
                self.metrics@ == oldm,
                i <= oldm.len(),
                emitted_metrics@ == oldm.take(i as int),
            decreases oldm.len() - i,
        {
            emitted_metrics.push(self.metrics[i]);
            assert(emitted_metrics@ =~= oldm.take(i + 1));
            i = i + 1;
        }
        assert(emitted_metrics@ =~= oldm);

        // Reset every slot a metric node references to the identity.
        let mut i: usize = 0;
        while i < self.nodes.len()
            invariant
                self.wf(),
                self.nodes@ == ns,
                self.start_node == old(self).start_node,
                i <= ns.len(),
                self.metrics@.len() == oldm.len(),
                forall|j: int|
                    0 <= j < oldm.len() ==> self.metrics@[j] == (if slot_used_upto(
                        ns,
                        i as int,
                        j,
                    ) {
                        metric_identity()
                    } else {
                        oldm[j]
                    }),
            decreases ns.len() - i,
        {
            let slot: Option<u16> = match &self.nodes.get_at(i).op {
                TraceAggregateNodeData::Metric { index, .. } => Some(*index),
                _ => None,
            };
            match slot {
                Some(mi) => {
                    self.metrics.set(
                        mi as usize,
                        MetricAggregate { count: 0, sum: 0, min: i64::MAX, max: i64::MIN },
                    );
                    proof {
                        assert forall|j: int| 0 <= j < oldm.len() implies self.metrics@[j] == (
                        if slot_used_upto(ns, i + 1, j) {
                            metric_identity()
                        } else {
                            oldm[j]
                        }) by {
                            if j == mi {
                                assert(slot_used_upto(ns, i + 1, j));
                            } else {
                                if slot_used_upto(ns, i + 1, j) {
                                    let w = choose|i2: int|
                                        #![trigger ns[i2]]
                                        {
                                            &&& 0 <= i2 < i + 1
                                            &&& ns[i2].op matches TraceAggregateNodeData::Metric {
                                                index,
                                                ..
                                            } && index == j
                                        };
                                    assert(w < i);
                                    assert(slot_used_upto(ns, i as int, j));
                                }
                                if slot_used_upto(ns, i as int, j) {
                                    assert(slot_used_upto(ns, i + 1, j));
                                }
                            }
                        }
                    }
                },
                None => {
                    proof {
                        assert forall|j: int| 0 <= j < oldm.len() implies self.metrics@[j] == (
                        if slot_used_upto(ns, i + 1, j) {
                            metric_identity()
                        } else {
                            oldm[j]
                        }) by {
                            if slot_used_upto(ns, i + 1, j) {
                                let w = choose|i2: int|
                                    #![trigger ns[i2]]
                                    {
                                        &&& 0 <= i2 < i + 1
                                        &&& ns[i2].op matches TraceAggregateNodeData::Metric {
                                            index,
                                            ..
                                        } && index == j
                                    };
                                assert(w < i);
                                assert(slot_used_upto(ns, i as int, j));
                            }
                            if slot_used_upto(ns, i as int, j) {
                                assert(slot_used_upto(ns, i + 1, j));
                            }
                        }
                    }
                },
            }
            i = i + 1;
        }

        wire::TraceAggregate { start_nanos, nodes: wnodes, counters: Vec::new(), metrics: emitted_metrics }
    }
}

} // verus!
