//! The parameters of a language model's architecture.

use vstd::prelude::*;

verus! {

/// The read-only parameters of a language model.
///
/// `rms_norm_eps_bits` is the bit pattern of the double-precision epsilon
/// that the final normalisation was built with.
#[derive(Debug, Clone)]
pub struct DeepseekV2Config {
    pub vocab_size: usize,
    pub hidden_size: usize,
    pub num_hidden_layers: usize,
    pub rms_norm_eps_bits: u64,
    pub attn_implementation: Option<String>,
}

} // verus!
