//! The output projection: from the hidden states of the last layer to a
//! score for every entry of the vocabulary.

use vstd::prelude::*;
use candle_core::Tensor;
use candle_nn::RmsNorm;
use crate::backend::{contiguous, dims_of, matmul, reshape, rms_norm, tensor_dims, transpose};
use crate::shape::{checked_span, lemma_flatten, lemma_span2, shape_fits};
use crate::transformer::error::ModelError;

verus! {

/// The fault of projecting hidden states with dimension sizes `hidden`
/// through a matrix with dimension sizes `head` onto `vocab` scores, if
/// there is one: hidden states that do not have three axes or whose hidden
/// axis is empty, a matrix that is not `vocab` rows of hidden size, or a
/// shape that does not fit.
pub open spec fn projection_fault(hidden: Seq<usize>, head: Seq<usize>, vocab: usize) -> Option<
    ModelError,
> {
    if hidden.len() != 3 {
        Some(ModelError::EmbeddingsRank(hidden.len() as usize))
    } else if hidden[2] == 0 {
        Some(ModelError::EmptyHidden)
    } else if !shape_fits(hidden) {
        Some(ModelError::SizeOverflow)
    } else if head != seq![vocab, hidden[2]] {
        Some(ModelError::HeadShape)
    } else if !shape_fits(head) || !shape_fits(logits_dims(hidden, vocab)) {
        Some(ModelError::SizeOverflow)
    } else {
        None
    }
}

/// The dimension sizes of the scores for hidden states with dimension
/// sizes `hidden`: batch, sequence, vocabulary.
pub open spec fn logits_dims(hidden: Seq<usize>, vocab: usize) -> Seq<usize> {
    seq![hidden[0], hidden[1], vocab]
}

/// Checks the dimension sizes of a projection, and returns the sizes of
/// the batch, sequence and hidden axes.
pub fn check_projection(hidden: &Vec<usize>, head: &Vec<usize>, vocab: usize) -> (r: Result<
    (usize, usize, usize),
    ModelError,
>)
    ensures
        match r {
            Ok((batch, seq_len, width)) => projection_fault(hidden@, head@, vocab) is None
                && hidden@ == seq![batch, seq_len, width],
            Err(e) => projection_fault(hidden@, head@, vocab) == Some(e),
        },
{
    if hidden.len() != 3 {
        return Err(ModelError::EmbeddingsRank(hidden.len()));
    }
    let batch = hidden[0];
    let seq_len = hidden[1];
    let width = hidden[2];
    if width == 0 {
        return Err(ModelError::EmptyHidden);
    }
    assert(hidden@ =~= seq![batch, seq_len, width]);
    if checked_span(hidden).is_none() {
        return Err(ModelError::SizeOverflow);
    }
    if !(head.len() == 2 && head[0] == vocab && head[1] == width) {
        return Err(ModelError::HeadShape);
    }
    assert(head@ =~= seq![vocab, width]);
    let out = vec![batch, seq_len, vocab];
    assert(out@ =~= logits_dims(hidden@, vocab));
    if checked_span(head).is_none() || checked_span(&out).is_none() {
        return Err(ModelError::SizeOverflow);
    }
    Ok((batch, seq_len, width))
}

/// Lays `hidden` out in row-major order, normalises it with `norm` and
/// multiplies every position by the
/// transposed matrix `lm_head`, whose rows belong to the entries of the
/// vocabulary. Returns the normalised hidden states and the scores; the
/// scores have the axes batch, sequence and vocabulary.
pub fn project_logits(norm: &RmsNorm, lm_head: &Tensor, vocab: usize, hidden: &Tensor) -> (r:
    Result<(Tensor, Tensor), ModelError>)
    ensures
        projection_fault(tensor_dims(*hidden), tensor_dims(*lm_head), vocab) matches Some(fault)
            ==> r == Err::<(Tensor, Tensor), ModelError>(fault),
        projection_fault(tensor_dims(*hidden), tensor_dims(*lm_head), vocab) is None ==> match r {
            Ok((normed, logits)) => tensor_dims(normed) == tensor_dims(*hidden) && tensor_dims(
                logits,
            ) == logits_dims(tensor_dims(*hidden), vocab),
            Err(e) => e is Backend,
        },
{
    let hidden_dims = dims_of(hidden);
    let head_dims = dims_of(lm_head);
    let (batch, seq_len, width) = match check_projection(&hidden_dims, &head_dims, vocab) {
        Ok(sizes) => sizes,
        Err(e) => {
            return Err(e);
        },
    };
    proof {
        lemma_flatten(batch, seq_len, width);
        lemma_flatten(batch, seq_len, vocab);
        lemma_span2(vocab, width);
    }
    let rows = batch * seq_len;
    let laid_out = match contiguous(hidden) {
        Ok(t) => t,
        Err(e) => {
            return Err(ModelError::Backend(e));
        },
    };
    let normed = match rms_norm(norm, &laid_out) {
        Ok(t) => t,
        Err(e) => {
            return Err(ModelError::Backend(e));
        },
    };
    let flat_dims = vec![rows, width];
    assert(flat_dims@ =~= seq![rows, width]);
    let flat = match reshape(&normed, &flat_dims) {
        Ok(t) => t,
        Err(e) => {
            return Err(ModelError::Backend(e));
        },
    };
    let head_t = match transpose(lm_head, 0, 1) {
        Ok(t) => t,
        Err(e) => {
            return Err(ModelError::Backend(e));
        },
    };
    assert(tensor_dims(head_t) =~= seq![width, vocab]);
    let scores = match matmul(&flat, &head_t) {
        Ok(t) => t,
        Err(e) => {
            return Err(ModelError::Backend(e));
        },
    };
    let out_dims = vec![batch, seq_len, vocab];
    assert(out_dims@ =~= seq![batch, seq_len, vocab]);
    match reshape(&scores, &out_dims) {
        Ok(logits) => Ok((normed, logits)),
        Err(e) => Err(ModelError::Backend(e)),
    }
}

} // verus!
