use vstd::prelude::*;
use crate::layer::LayerId;

verus! {

/// Why the proving backend could not produce a proof: circuit synthesis,
/// witness assignment, or the backend's own proof construction failed.
#[derive(Clone, Copy, Debug, PartialEq, Eq, Structural)]
pub enum BackendFailure {
    Synthesis,
    Witness,
    Proving,
}

/// Why a proof-generation request failed before or at the backend call.
#[derive(Clone, Copy, Debug, PartialEq, Eq, Structural)]
pub enum ProofFailureCause {
    /// The request carried no traces; the backend was never invoked.
    EmptyTask,
    /// The backend rejected the work.
    Backend(BackendFailure),
}

/// The error taxonomy of the proving core. None of these is retried here:
/// a deterministic failure would only waste the same resources again.
#[derive(Clone, Copy, Debug, PartialEq, Eq, Structural)]
pub enum ProverError {
    /// Parameters missing, unreadable, or decoding to the wrong degree.
    ParamsIo,
    /// The circuit shape of a layer exceeds the chosen degree's capacity.
    Keygen(LayerId),
    /// Circuit synthesis or backend proving failed for a layer.
    ProofGeneration(LayerId, ProofFailureCause),
    /// Length or shape invariants violated when decoding a batch proof.
    MalformedBatchProof,
    /// The calldata cross-check found a mismatched encoding.
    EncodingConsistency,
    /// A file read, write or serialization failed outside the core.
    Io,
}

} // verus!
