//! Verified core of a Gemma-style decoder: the integer and byte-level logic
//! that surrounds the floating-point arithmetic of the model.
//!
//! - `bf16`: widening of little-endian bf16 bytes to f32 bit patterns.
//! - `mask`: the causal / sliding-window attention mask.
//! - `names`: the names under which a checkpoint stores each layer's weights.
//! - `config`: the integer settings of the model and the layer and head
//!   layout derived from them.
//! - `safetensors_io`: the calls into the `safetensors` crate.
//! - `tensors`: reading the model's weights out of a safetensors checkpoint.
//! - `model`: which tensor of the checkpoint fills which weight of the model.
//! - `ple`: locating a token's row of the per-layer embedding table.

pub mod bf16;
pub mod mask;
pub mod names;
pub mod config;
pub mod safetensors_io;
pub mod tensors;
pub mod ple;
pub mod model;
