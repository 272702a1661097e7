//! Looking up the embeddings of token ids.

use vstd::prelude::*;
use candle_core::Tensor;
use crate::backend::{
    dims_of,
    dtype_of,
    force_contiguous,
    ids_in_range,
    reshape,
    rows_selected,
    select_rows,
    tensor_bits,
    tensor_dims,
    tensor_dtype,
    tensor_ints,
    to_dtype,
};
use crate::runtime::ElementType;
use crate::shape::{checked_span, lemma_flatten, shape_fits};
use crate::transformer::error::ModelError;

verus! {

/// The fault of a lookup of ids with dimension sizes `ids` in a table with
/// dimension sizes `table`, if there is one: ids that are not arranged as
/// batch and sequence, a table that is not a matrix, or a tensor too large
/// to count.
pub open spec fn lookup_fault(table: Seq<usize>, ids: Seq<usize>) -> Option<ModelError> {
    if ids.len() != 2 {
        Some(ModelError::IdsRank(ids.len() as usize))
    } else if table.len() != 2 {
        Some(ModelError::TableRank(table.len() as usize))
    } else if !shape_fits(table) || !shape_fits(embedded_dims(table, ids)) {
        Some(ModelError::SizeOverflow)
    } else {
        None
    }
}

/// The dimension sizes of the embeddings of ids with dimension sizes `ids`
/// from a table with dimension sizes `table`: batch, sequence, hidden.
pub open spec fn embedded_dims(table: Seq<usize>, ids: Seq<usize>) -> Seq<usize> {
    seq![ids[0], ids[1], table[1]]
}

/// The values of the ids in `ids`, in row-major order, as the lookup reads
/// them: signed 64-bit integers as they are, unsigned 8-bit and 32-bit
/// integers by their value.
pub open spec fn index_values(ids: Tensor) -> Seq<i64> {
    if tensor_dtype(ids) == ElementType::I64 {
        tensor_ints(ids)
    } else {
        Seq::new(tensor_bits(ids).len(), |i: int| tensor_bits(ids)[i] as i64)
    }
}

/// The ids are integers of a type of which the lookup is known to keep the
/// values.
pub open spec fn values_kept(ids: Tensor) -> bool {
    tensor_dtype(ids) == ElementType::I64 || tensor_dtype(ids) == ElementType::U8 || tensor_dtype(
        ids,
    ) == ElementType::U32
}

/// `out` holds the embeddings of `ids` from `table`: it has the axes batch
/// and sequence of the ids and the hidden axis and element type of the
/// table, and, where every id names a row of the table, the cell of an id
/// holds the row that the id names, element for element.
pub open spec fn embedded(table: Tensor, ids: Tensor, out: Tensor) -> bool {
    let count = tensor_dims(ids)[0] * tensor_dims(ids)[1];
    &&& tensor_dims(out) == embedded_dims(tensor_dims(table), tensor_dims(ids))
    &&& tensor_dtype(out) == tensor_dtype(table)
    &&& values_kept(ids) && ids_in_range(index_values(ids), count, tensor_dims(table)[0] as int)
        ==> rows_selected(
        tensor_bits(table),
        tensor_dims(table)[1] as int,
        count,
        index_values(ids),
        tensor_bits(out),
    )
}

/// Checks the dimension sizes of a lookup, and returns the sizes of the
/// batch, sequence and hidden axes of its result.
pub fn check_lookup(table: &Vec<usize>, ids: &Vec<usize>) -> (r: Result<
    (usize, usize, usize),
    ModelError,
>)
    ensures
        match r {
            Ok((batch, seq_len, hidden)) => lookup_fault(table@, ids@) is None && batch == ids@[0]
                && seq_len == ids@[1] && hidden == table@[1],
            Err(e) => lookup_fault(table@, ids@) == Some(e),
        },
{
    if ids.len() != 2 {
        return Err(ModelError::IdsRank(ids.len()));
    }
    if table.len() != 2 {
        return Err(ModelError::TableRank(table.len()));
    }
    let batch = ids[0];
    let seq_len = ids[1];
    let hidden = table[1];
    if checked_span(table).is_none() {
        return Err(ModelError::SizeOverflow);
    }
    let out = vec![batch, seq_len, hidden];
    assert(out@ =~= embedded_dims(table@, ids@));
    if checked_span(&out).is_none() {
        return Err(ModelError::SizeOverflow);
    }
    Ok((batch, seq_len, hidden))
}

/// Gathers from the table `weight`, whose rows are the embeddings of the
/// vocabulary, the rows that `ids` name. `ids` has the axes batch and
/// sequence; the result has the axes batch, sequence and hidden.
pub fn gather_embeddings(weight: &Tensor, ids: &Tensor) -> (r: Result<Tensor, ModelError>)
    ensures
        lookup_fault(tensor_dims(*weight), tensor_dims(*ids)) matches Some(fault) ==> r == Err::<
            Tensor,
            ModelError,
        >(fault),
        lookup_fault(tensor_dims(*weight), tensor_dims(*ids)) is None ==> match r {
            Ok(out) => tensor_dims(out) == embedded_dims(tensor_dims(*weight), tensor_dims(*ids))
                && (tensor_dtype(*ids) == ElementType::I64 ==> embedded(*weight, *ids, out)),
            Err(e) => e is Backend,
        },
{
    let table_dims = dims_of(weight);
    let ids_dims = dims_of(ids);
    let (batch, seq_len, hidden) = match check_lookup(&table_dims, &ids_dims) {
        Ok(sizes) => sizes,
        Err(e) => {
            return Err(e);
        },
    };
    proof {
        lemma_flatten(batch, seq_len, hidden);
        assert(ids_dims@ =~= seq![batch, seq_len]);
    }
    let rows = batch * seq_len;
    let table = match force_contiguous(weight) {
        Ok(t) => t,
        Err(e) => {
            return Err(ModelError::Backend(e));
        },
    };
    let flat_dims = vec![rows];
    assert(flat_dims@ =~= seq![rows]);
    let flat = match reshape(ids, &flat_dims) {
        Ok(t) => t,
        Err(e) => {
            return Err(ModelError::Backend(e));
        },
    };
    let flat = match force_contiguous(&flat) {
        Ok(t) => t,
        Err(e) => {
            return Err(ModelError::Backend(e));
        },
    };
    let gathered = match select_rows(&table, &flat) {
        Ok(t) => t,
        Err(e) => {
            return Err(ModelError::Backend(e));
        },
    };
    let out_dims = vec![batch, seq_len, hidden];
    assert(out_dims@ =~= seq![batch, seq_len, hidden]);
    assert(table_dims@ =~= seq![table_dims@[0], hidden]);
    match reshape(&gathered, &out_dims) {
        Ok(t) => Ok(t),
        Err(e) => Err(ModelError::Backend(e)),
    }
}

/// The embeddings of the token ids `input_ids` from the table `weight`.
/// Ids of any integer type are taken: they are first cast to the type that
/// the lookup indexes with.
pub fn embed_ids(weight: &Tensor, input_ids: &Tensor) -> (r: Result<Tensor, ModelError>)
    ensures
        lookup_fault(tensor_dims(*weight), tensor_dims(*input_ids)) matches Some(fault) ==> r
            == Err::<Tensor, ModelError>(fault),
        lookup_fault(tensor_dims(*weight), tensor_dims(*input_ids)) is None ==> match r {
            Ok(out) => embedded(*weight, *input_ids, out),
            Err(e) => e is Backend,
        },
{
    let table_dims = dims_of(weight);
    let ids_dims = dims_of(input_ids);
    match check_lookup(&table_dims, &ids_dims) {
        Ok(_) => {},
        Err(e) => {
            return Err(e);
        },
    }
    proof {
        lemma_flatten(ids_dims@[0], ids_dims@[1], table_dims@[1]);
        assert(ids_dims@ =~= seq![ids_dims@[0], ids_dims@[1]]);
    }
    let ids = if dtype_of(input_ids) == ElementType::I64 {
        input_ids.clone()
    } else {
        match to_dtype(input_ids, ElementType::I64) {
            Ok(t) => t,
            Err(e) => {
                return Err(ModelError::Backend(e));
            },
        }
    };
    proof {
        if values_kept(*input_ids) {
            assert(tensor_ints(ids) =~= index_values(*input_ids));
        }
    }
    match gather_embeddings(weight, &ids) {
        Ok(out) => {
            assert(tensor_dtype(out) == tensor_dtype(*weight));
            Ok(out)
        },
        Err(e) => Err(e),
    }
}

} // verus!
