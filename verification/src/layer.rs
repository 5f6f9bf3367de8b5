use vstd::prelude::*;

verus! {

/// A stage of the proving pipeline. Each layer has its own circuit shape,
/// degree and keys.
#[derive(Clone, Copy, Debug, PartialEq, Eq, Structural)]
pub enum LayerId {
    /// One proof per single unit of base work (one block).
    Inner,
    /// Recursive aggregation of inner proofs for one chunk of blocks.
    Chunk,
    /// A single non-recursive proof over all traces in one circuit.
    Super,
    /// Alternate path proving a chunk against a second proving target.
    Sp1,
    /// The evm circuit of the innermost layer.
    Evm,
    /// The state circuit of the innermost layer.
    State,
}

/// The smallest degree whose row capacity fits the circuit shape of a layer.
/// A parameter set of a lower degree cannot carry the layer's constraints.
pub open spec fn spec_min_degree(layer: LayerId) -> u32 {
    match layer {
        LayerId::Inner => 20,
        LayerId::Chunk => 25,
        LayerId::Super => 26,
        LayerId::Sp1 => 24,
        LayerId::Evm => 18,
        LayerId::State => 18,
    }
}

/// Executable twin of `spec_min_degree`.
pub fn min_degree(layer: LayerId) -> (r: u32)
    ensures
        r == spec_min_degree(layer),
{
    match layer {
        LayerId::Inner => 20,
        LayerId::Chunk => 25,
        LayerId::Super => 26,
        LayerId::Sp1 => 24,
        LayerId::Evm => 18,
        LayerId::State => 18,
    }
}

/// The byte a layer is written as in persisted key material.
pub open spec fn spec_layer_code(layer: LayerId) -> u8 {
    match layer {
        LayerId::Inner => 1,
        LayerId::Chunk => 2,
        LayerId::Super => 3,
        LayerId::Sp1 => 4,
        LayerId::Evm => 5,
        LayerId::State => 6,
    }
}

/// Executable twin of `spec_layer_code`.
pub fn layer_code(layer: LayerId) -> (r: u8)
    ensures
        r == spec_layer_code(layer),
{
    match layer {
        LayerId::Inner => 1,
        LayerId::Chunk => 2,
        LayerId::Super => 3,
        LayerId::Sp1 => 4,
        LayerId::Evm => 5,
        LayerId::State => 6,
    }
}

/// The layer a persisted byte stands for, if any.
pub open spec fn spec_layer_of_code(code: u8) -> Option<LayerId> {
    match code {
        1u8 => Some(LayerId::Inner),
        2u8 => Some(LayerId::Chunk),
        3u8 => Some(LayerId::Super),
        4u8 => Some(LayerId::Sp1),
        5u8 => Some(LayerId::Evm),
        6u8 => Some(LayerId::State),
        _ => None,
    }
}

/// Executable twin of `spec_layer_of_code`.
pub fn layer_of_code(code: u8) -> (r: Option<LayerId>)
    ensures
        r == spec_layer_of_code(code),
{
    match code {
        1u8 => Some(LayerId::Inner),
        2u8 => Some(LayerId::Chunk),
        3u8 => Some(LayerId::Super),
        4u8 => Some(LayerId::Sp1),
        5u8 => Some(LayerId::Evm),
        6u8 => Some(LayerId::State),
        _ => None,
    }
}

/// Every layer's code reads back as that layer.
pub proof fn lemma_layer_code_round_trip(layer: LayerId)
    ensures
        spec_layer_of_code(spec_layer_code(layer)) == Some(layer),
{
}

/// Per-layer degrees and the explicit configuration threaded into the
/// prover's constructors, in place of any ambient process state.
#[derive(Clone, Copy, Debug, PartialEq, Eq, Structural)]
pub struct ProverConfig {
    pub inner_degree: u32,
    pub chunk_degree: u32,
    pub super_degree: u32,
    pub sp1_degree: u32,
    pub evm_degree: u32,
    pub state_degree: u32,
}

impl ProverConfig {
    /// The degree configured for a layer.
    pub open spec fn spec_degree_of(self, layer: LayerId) -> u32 {
        match layer {
            LayerId::Inner => self.inner_degree,
            LayerId::Chunk => self.chunk_degree,
            LayerId::Super => self.super_degree,
            LayerId::Sp1 => self.sp1_degree,
            LayerId::Evm => self.evm_degree,
            LayerId::State => self.state_degree,
        }
    }

    /// Executable twin of `spec_degree_of`.
    pub fn degree_of(&self, layer: LayerId) -> (r: u32)
        ensures
            r == self.spec_degree_of(layer),
    {
        match layer {
            LayerId::Inner => self.inner_degree,
            LayerId::Chunk => self.chunk_degree,
            LayerId::Super => self.super_degree,
            LayerId::Sp1 => self.sp1_degree,
            LayerId::Evm => self.evm_degree,
            LayerId::State => self.state_degree,
        }
    }
}

} // verus!
