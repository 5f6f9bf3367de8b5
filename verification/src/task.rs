use vstd::prelude::*;
use crate::artifact::copy_bytes;

verus! {

/// One decoded block trace: the unit of base work. Decoding traces from
/// their wire form is a data-loading concern outside the core; the core
/// sees an identifier and the decoded payload.
#[derive(Debug)]
pub struct BlockTrace {
    pub id: u64,
    pub data: Vec<u8>,
}

/// The mathematical model of a [`BlockTrace`].
#[verifier::ext_equal]
pub struct TraceView {
    pub id: u64,
    pub data: Seq<u8>,
}

impl View for BlockTrace {
    type V = TraceView;

    open spec fn view(&self) -> TraceView {
        TraceView { id: self.id, data: self.data@ }
    }
}

impl BlockTrace {
    /// A fresh trace with the same model.
    pub fn duplicate(&self) -> (r: BlockTrace)
        ensures
            r@ == self@,
    {
        let r = BlockTrace { id: self.id, data: copy_bytes(&self.data) };
        proof {
            assert(r@ =~= self@);
        }
        r
    }
}

/// The models of a sequence of traces.
pub open spec fn spec_traces(ts: Seq<BlockTrace>) -> Seq<TraceView> {
    ts.map_values(|t: BlockTrace| t@)
}

/// An ordered, non-empty sequence of block traces proven jointly as one
/// chunk. Emptiness is not ruled out by construction; a proof request over
/// an empty task fails fast instead of reaching the proving backend.
#[derive(Debug)]
pub struct ChunkProvingTask {
    pub block_traces: Vec<BlockTrace>,
}

impl ChunkProvingTask {
    /// Gathers traces into a chunk proving task.
    pub fn new(block_traces: Vec<BlockTrace>) -> (r: Self)
        ensures
            r.block_traces@ == block_traces@,
    {
        ChunkProvingTask { block_traces }
    }

    /// Whether the task carries no work.
    pub open spec fn spec_is_empty(self) -> bool {
        self.block_traces@.len() == 0
    }
}

} // verus!
