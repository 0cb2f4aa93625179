//! In-process structured tracing with online control-flow aggregation.
//!
//! A trace source records a stream of typed operations (scopes, branches,
//! metrics, labels, channel events).  Per source, an aggregator folds the
//! observed control flow into a single graph with per-node metric
//! summaries.  Events are framed into fixed-size pages by a bounded
//! writer and carried in a compact binary wire format with a fixed base
//! layout per record and a trailing scratch region for variable-length
//! payloads.

pub mod bytes;
pub mod wire;
pub mod codec;
pub mod laws;
pub mod lazy;
pub mod link_vec;
pub mod trace;
pub mod encoding;
pub mod decode;

use vstd::prelude::*;

verus! {

} // verus!
