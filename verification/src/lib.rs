//! Layered zero-knowledge proof orchestration: parameter and key management
//! across proving layers, a proof-generation pipeline over an abstract proving
//! backend, and the reversible re-encoding that turns an aggregation proof
//! into the batch/calldata layout an on-chain verifier expects.

pub mod artifact;
pub mod backend;
pub mod batch;
pub mod errors;
pub mod keys;
pub mod layer;
pub mod params;
pub mod prover;
pub mod randomness;
pub mod task;
