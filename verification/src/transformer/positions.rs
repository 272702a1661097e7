//! Position indices for the tokens of a call.
//!
//! A call that brings no position indices of its own gets the positions
//! that continue the cache: the tokens of every batch row are numbered
//! from the length of the cache upwards.

use vstd::prelude::*;
use candle_core::{Device, Tensor};
use crate::backend::{
    arange,
    contiguous,
    expand,
    reshape,
    tensor_dims,
    tensor_dtype,
    tensor_ints,
};
use crate::runtime::ElementType;
use crate::shape::{checked_span, lemma_single_row, shape_fits};
use crate::transformer::error::ModelError;

verus! {

/// The position indices of `batch` rows of `seq_len` new tokens behind
/// `past_len` stored ones, row after row: every row counts from `past_len`
/// up to, not including, `past_len + seq_len`.
pub open spec fn position_ids(past_len: nat, batch: nat, seq_len: nat) -> Seq<i64> {
    Seq::new(batch * seq_len, |k: int| (past_len + k % (seq_len as int)) as i64)
}

/// The fault of synthesising positions, if there is one: a last position
/// beyond the signed 64-bit integers, or a shape of the positions that does
/// not fit.
pub open spec fn positions_fault(past_len: usize, batch: usize, seq_len: usize) -> Option<
    ModelError,
> {
    if past_len + seq_len > i64::MAX {
        Some(ModelError::PositionOverflow)
    } else if !shape_fits(seq![batch, seq_len]) {
        Some(ModelError::SizeOverflow)
    } else {
        None
    }
}

/// The position of token `column` in row `row` is `past_len + column`,
/// whatever the row.
pub proof fn lemma_position_at(past_len: nat, batch: nat, seq_len: nat, row: nat, column: nat)
    requires
        row < batch,
        column < seq_len,
        past_len + seq_len <= i64::MAX,
    ensures
        row * seq_len + column < position_ids(past_len, batch, seq_len).len(),
        position_ids(past_len, batch, seq_len)[(row * seq_len + column) as int] == past_len
            + column,
{
    let k = (row * seq_len + column) as int;
    let s = seq_len as int;
    assert(row * seq_len + column < batch * seq_len) by (nonlinear_arith)
        requires
            row < batch,
            column < seq_len,
    ;
    assert(0 <= k) by (nonlinear_arith)
        requires
            k == row * seq_len + column,
    ;
    assert(k % s == column) by (nonlinear_arith)
        requires
            k == row * s + column,
            0 <= column < s,
    ;
}

/// Checks that positions can be synthesised, and returns the first and the
/// one-past-last position.
pub fn check_positions(past_len: usize, batch: usize, seq_len: usize) -> (r: Result<
    (i64, i64),
    ModelError,
>)
    ensures
        match r {
            Ok((start, end)) => positions_fault(past_len, batch, seq_len) is None && start
                == past_len && end == past_len + seq_len,
            Err(e) => positions_fault(past_len, batch, seq_len) == Some(e),
        },
{
    let last: u128 = past_len as u128 + seq_len as u128;
    if last > i64::MAX as u128 {
        return Err(ModelError::PositionOverflow);
    }
    let dims = vec![batch, seq_len];
    assert(dims@ =~= seq![batch, seq_len]);
    if checked_span(&dims).is_none() {
        return Err(ModelError::SizeOverflow);
    }
    Ok((past_len as i64, last as i64))
}

/// Synthesises the position indices of a call: a tensor of 64-bit integers
/// with the axes batch and sequence, on `device`, every row of which counts
/// from `past_len` upwards.
pub fn synthesize_positions(past_len: usize, batch: usize, seq_len: usize, device: &Device) -> (r:
    Result<Tensor, ModelError>)
    ensures
        positions_fault(past_len, batch, seq_len) matches Some(fault) ==> r == Err::<
            Tensor,
            ModelError,
        >(fault),
        positions_fault(past_len, batch, seq_len) is None ==> match r {
            Ok(out) => tensor_dims(out) == seq![batch, seq_len] && tensor_dtype(out)
                == ElementType::I64 && tensor_ints(out) == position_ids(
                past_len as nat,
                batch as nat,
                seq_len as nat,
            ),
            Err(e) => e is Backend,
        },
{
    let (start, end) = match check_positions(past_len, batch, seq_len) {
        Ok(bounds) => bounds,
        Err(e) => {
            return Err(e);
        },
    };
    let range = match arange(start, end, device) {
        Ok(t) => t,
        Err(e) => {
            return Err(ModelError::Backend(e));
        },
    };
    let row_dims = vec![1usize, seq_len];
    let all_dims = vec![batch, seq_len];
    proof {
        lemma_single_row(batch, seq_len);
        assert(row_dims@ =~= seq![1usize, seq_len]);
        assert(all_dims@ =~= seq![batch, seq_len]);
        assert(tensor_dims(range) =~= seq![seq_len]);
    }
    let row = match reshape(&range, &row_dims) {
        Ok(t) => t,
        Err(e) => {
            return Err(ModelError::Backend(e));
        },
    };
    let rows = match expand(&row, &all_dims) {
        Ok(t) => t,
        Err(e) => {
            return Err(ModelError::Backend(e));
        },
    };
    match contiguous(&rows) {
        Ok(out) => {
            proof {
                let wanted = position_ids(past_len as nat, batch as nat, seq_len as nat);
                assert(tensor_ints(out).len() == wanted.len());
                assert forall|k: int| 0 <= k < wanted.len() implies tensor_ints(out)[k]
                    == wanted[k] by {
                    assert(seq_len > 0) by (nonlinear_arith)
                        requires
                            0 <= k < batch * seq_len,
                    ;
                    let j = k % (seq_len as int);
                    assert(0 <= j < seq_len);
                    assert(tensor_ints(row)[j] == (start + j) as i64);
                }
                assert(tensor_ints(out) =~= wanted);
            }
            Ok(out)
        },
        Err(e) => Err(ModelError::Backend(e)),
    }
}

/// `chosen` are the position indices of a call: those that the caller
/// gave, as they are, or else the positions that continue `past_len`
/// stored positions in every one of `batch` rows of `seq_len` tokens.
pub open spec fn positions_chosen(
    given: Option<&Tensor>,
    past_len: usize,
    batch: usize,
    seq_len: usize,
    chosen: Tensor,
) -> bool {
    match given {
        Some(p) => chosen == *p,
        None => tensor_dims(chosen) == seq![batch, seq_len] && tensor_dtype(chosen)
            == ElementType::I64 && tensor_ints(chosen) == position_ids(
            past_len as nat,
            batch as nat,
            seq_len as nat,
        ),
    }
}

/// The position indices of a call: those that the caller gave are used as
/// they are, whatever they hold; without them the positions are
/// synthesised from the length of the cache.
pub fn resolve_positions(
    given: Option<&Tensor>,
    past_len: usize,
    batch: usize,
    seq_len: usize,
    device: &Device,
) -> (r: Result<Tensor, ModelError>)
    ensures
        given matches Some(p) ==> r == Ok::<Tensor, ModelError>(*p),
        given is None ==> (positions_fault(past_len, batch, seq_len) matches Some(fault) ==> r
            == Err::<Tensor, ModelError>(fault)),
        given is None && positions_fault(past_len, batch, seq_len) is None ==> (r matches Err(e)
            ==> e is Backend),
        r matches Ok(chosen) ==> positions_chosen(given, past_len, batch, seq_len, chosen),
{
    match given {
        Some(p) => Ok(p.clone()),
        None => synthesize_positions(past_len, batch, seq_len, device),
    }
}

} // verus!
