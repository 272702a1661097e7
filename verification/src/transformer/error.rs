//! What can go wrong in a forward pass.

use vstd::prelude::*;
use crate::transformer::cache::CacheError;

verus! {

/// Why a forward pass failed.
///
/// The first three are faults of the call itself and are found before
/// anything is computed. The others turn up while computing; the last one
/// carries what the tensor backend reported.
#[derive(Debug)]
pub enum ModelError {
    /// Token ids and embeddings were both given, or neither.
    AmbiguousInput,
    /// Caching was asked for and no cache was given.
    CacheRequired,
    /// The token ids do not have the two axes batch and sequence; the
    /// number of axes they have is given.
    IdsRank(usize),
    /// The embeddings do not have the three axes batch, sequence and
    /// hidden; the number of axes they have is given.
    EmbeddingsRank(usize),
    /// The embedding table is not a matrix; the number of axes it has is
    /// given.
    TableRank(usize),
    /// A tensor would have more elements than a machine word can count.
    SizeOverflow,
    /// A position index would not fit a signed 64-bit integer.
    PositionOverflow,
    /// The layer with the given index returned hidden states of other
    /// dimension sizes than it was given.
    LayerShape(usize),
    /// A load-balancing loss does not hold floating point numbers.
    LossType,
    /// The hidden axis of the hidden states is empty.
    EmptyHidden,
    /// The position indices do not have the axes batch and sequence of the
    /// embeddings.
    PositionShape,
    /// The projection matrix does not map the hidden axis to the
    /// vocabulary.
    HeadShape,
    /// The cache refused to be read or extended.
    Cache(CacheError),
    /// The tensor backend refused an operation.
    Backend(candle_core::Error),
}

impl ModelError {
    /// The error is a fault of the call, found before anything was
    /// computed.
    pub open spec fn is_validation(self) -> bool {
        self is AmbiguousInput || self is CacheRequired || self is IdsRank
    }

    /// Whether the error is a fault of the call, found before anything was
    /// computed.
    pub fn validation(&self) -> (b: bool)
        ensures
            b == self.is_validation(),
    {
        match self {
            ModelError::AmbiguousInput => true,
            ModelError::CacheRequired => true,
            ModelError::IdsRank(_) => true,
            _ => false,
        }
    }
}

} // verus!
