//! The boundary to the tensor backend.
//!
//! Everything in this module is taken on trust: the types are opaque, and the
//! contracts of the functions restate what the backend's source shows. The
//! rest of the crate is proved against these contracts.
//!
//! A tensor is known here by its dimension sizes and, where it holds 64-bit
//! integers, by its elements. Of floating-point elements nothing is said.
//! An operation that the backend refuses comes back as an error, and no
//! contract promises that an operation succeeds. Running out of memory is
//! outside the model.

use vstd::prelude::*;
use std::sync::Arc;
use candle_core::{Device, Tensor};
use candle_nn::RmsNorm;
use crate::runtime::{DeviceKind, ElementType};
use crate::shape::shape_fits;

verus! {

#[verifier::external_type_specification]
#[verifier::external_body]
pub struct ExTensor(Tensor);

#[verifier::external_type_specification]
#[verifier::external_body]
pub struct ExDevice(Device);

#[verifier::external_type_specification]
#[verifier::external_body]
pub struct ExBackendError(candle_core::Error);

/// Where a device lives: what `Device::is_cuda` and `Device::is_metal` tell
/// apart, with the host processor as the remaining case.
pub uninterp spec fn device_kind(d: Device) -> DeviceKind;

/// `Device::Cpu`: the host device.
#[verifier::external_body]
pub(crate) fn cpu_device() -> (d: Device)
    ensures
        device_kind(d) == DeviceKind::Cpu,
{
    Device::Cpu
}

/// `Device::new_cuda`: opens the CUDA device with the given ordinal. Whether
/// that succeeds depends on the machine; a device that comes back is a CUDA
/// device.
#[verifier::external_body]
pub(crate) fn new_cuda_device(ordinal: usize) -> (r: Result<Device, candle_core::Error>)
    ensures
        r matches Ok(d) ==> device_kind(d) == DeviceKind::Cuda,
{
    Device::new_cuda(ordinal)
}

/// `Device::new_metal`: opens the Metal device with the given ordinal. Whether
/// that succeeds depends on the machine; a device that comes back is a Metal
/// device.
#[verifier::external_body]
pub(crate) fn new_metal_device(ordinal: usize) -> (r: Result<Device, candle_core::Error>)
    ensures
        r matches Ok(d) ==> device_kind(d) == DeviceKind::Metal,
{
    Device::new_metal(ordinal)
}

/// `Device::is_cuda`.
#[verifier::external_body]
pub(crate) fn device_is_cuda(d: &Device) -> (r: bool)
    ensures
        r == (device_kind(*d) == DeviceKind::Cuda),
{
    d.is_cuda()
}

/// `Device::is_metal`.
#[verifier::external_body]
pub(crate) fn device_is_metal(d: &Device) -> (r: bool)
    ensures
        r == (device_kind(*d) == DeviceKind::Metal),
{
    d.is_metal()
}

#[verifier::external_type_specification]
#[verifier::external_body]
pub struct ExRmsNorm(RmsNorm);

pub assume_specification[ <Tensor as Clone>::clone ](t: &Tensor) -> (r: Tensor)
    ensures
        r == *t,
;

/// `Arc::clone`: a second handle on the same shared value.
#[verifier::external_body]
pub(crate) fn share<T>(a: &Arc<T>) -> (r: Arc<T>)
    ensures
        r == *a,
{
    Arc::clone(a)
}

/// The dimension sizes of a tensor, outermost axis first: what
/// `Tensor::dims` returns.
pub uninterp spec fn tensor_dims(t: Tensor) -> Seq<usize>;

/// The element type of a tensor: what `Tensor::dtype` returns.
pub uninterp spec fn tensor_dtype(t: Tensor) -> ElementType;

/// Whether a tensor is laid out in row-major order: what
/// `Tensor::is_contiguous` returns.
pub uninterp spec fn tensor_contiguous(t: Tensor) -> bool;

/// The elements of a tensor of 64-bit integers, in row-major order of its
/// index tuples: what `Tensor::flatten_all` followed by `Tensor::to_vec1`
/// returns for such a tensor. The contracts speak of it for tensors of
/// that element type only.
///
/// The backend can overwrite the storage of a tensor in place. Nothing in
/// this crate does, and the contracts hold of tensors that nobody
/// overwrites while the crate works on them.
pub uninterp spec fn tensor_ints(t: Tensor) -> Seq<i64>;

/// The elements of a tensor of any element type, in row-major order of its
/// index tuples, each as the bit pattern of its representation in memory,
/// zero-extended to 64 bits. As with `tensor_ints`, the tensor is taken not
/// to be overwritten in place.
pub uninterp spec fn tensor_bits(t: Tensor) -> Seq<u64>;

/// The place of column `j` of row `i` in a row-major matrix of `width`
/// columns.
pub open spec fn cell(i: int, j: int, width: int) -> int {
    i * width + j
}

/// `out` holds, row after row, the rows of the matrix `table` that `ids`
/// names: row `i` of `out` is row `ids[i]` of `table`. Both matrices have
/// `width` columns and are given by their elements in row-major order.
pub open spec fn rows_selected(
    table: Seq<u64>,
    width: int,
    count: int,
    ids: Seq<i64>,
    out: Seq<u64>,
) -> bool {
    &&& out.len() == count * width
    &&& forall|i: int, j: int|
        0 <= i < count && 0 <= j < width ==> out[#[trigger] cell(i, j, width)] == table[cell(
            ids[i] as int,
            j,
            width,
        )]
}

/// Every id names a row of a table of `rows` rows.
pub open spec fn ids_in_range(ids: Seq<i64>, count: int, rows: int) -> bool {
    forall|i: int| 0 <= i < count ==> 0 <= #[trigger] ids[i] < rows
}

/// The element type is one of the floating point types that the backend
/// computes in on every device.
pub open spec fn is_float(dtype: ElementType) -> bool {
    dtype == ElementType::BF16 || dtype == ElementType::F16 || dtype == ElementType::F32
        || dtype == ElementType::F64
}

/// `Tensor::dims`, copied into a vector.
#[verifier::external_body]
pub(crate) fn dims_of(t: &Tensor) -> (r: Vec<usize>)
    ensures
        r@ == tensor_dims(*t),
{
    t.dims().to_vec()
}

/// `Tensor::device`: the device that holds the tensor.
#[verifier::external_body]
pub(crate) fn device_of(t: &Tensor) -> Device {
    t.device().clone()
}

/// `Tensor::dtype`, in the library's names for the element types.
#[verifier::external_body]
pub(crate) fn dtype_of(t: &Tensor) -> (r: ElementType)
    ensures
        r == tensor_dtype(*t),
{
    match t.dtype() {
        candle_core::DType::U8 => ElementType::U8, candle_core::DType::U32 => ElementType::U32,
        candle_core::DType::I16 => ElementType::I16, candle_core::DType::I32 => ElementType::I32,
        candle_core::DType::I64 => ElementType::I64, candle_core::DType::BF16 => ElementType::BF16,
        candle_core::DType::F16 => ElementType::F16, candle_core::DType::F32 => ElementType::F32,
        candle_core::DType::F64 => ElementType::F64, candle_core::DType::F8E4M3 => ElementType::F8E4M3,
        candle_core::DType::F6E2M3 => ElementType::F6E2M3, candle_core::DType::F6E3M2 => ElementType::F6E3M2,
        candle_core::DType::F4 => ElementType::F4, candle_core::DType::F8E8M0 => ElementType::F8E8M0,
    }
}

/// `Tensor::to_dtype`: the tensor with its elements cast to another type. A
/// tensor that already has the type comes back as it is. The dimension sizes
/// stay, and a cast from unsigned 8-bit or 32-bit integers to signed 64-bit
/// integers keeps every value.
#[verifier::external_body]
pub(crate) fn to_dtype(t: &Tensor, dtype: ElementType) -> (r: Result<Tensor, candle_core::Error>)
    requires
        shape_fits(tensor_dims(*t)),
    ensures
        r matches Ok(out) ==> tensor_dims(out) == tensor_dims(*t) && tensor_dtype(out) == dtype,
        r matches Ok(out) ==> (tensor_dtype(*t) == dtype ==> out == *t),
        r matches Ok(out) ==> (dtype == ElementType::I64 && (tensor_dtype(*t) == ElementType::U8
            || tensor_dtype(*t) == ElementType::U32) ==> tensor_ints(out) == Seq::new(
            tensor_bits(*t).len(),
            |i: int| tensor_bits(*t)[i] as i64,
        )),
{
    t.to_dtype(match dtype {
        ElementType::U8 => candle_core::DType::U8, ElementType::U32 => candle_core::DType::U32,
        ElementType::I16 => candle_core::DType::I16, ElementType::I32 => candle_core::DType::I32,
        ElementType::I64 => candle_core::DType::I64, ElementType::BF16 => candle_core::DType::BF16,
        ElementType::F16 => candle_core::DType::F16, ElementType::F32 => candle_core::DType::F32,
        ElementType::F64 => candle_core::DType::F64, ElementType::F8E4M3 => candle_core::DType::F8E4M3,
        ElementType::F6E2M3 => candle_core::DType::F6E2M3, ElementType::F6E3M2 => candle_core::DType::F6E3M2,
        ElementType::F4 => candle_core::DType::F4, ElementType::F8E8M0 => candle_core::DType::F8E8M0,
    })
}

/// `Tensor::reshape` with every size given: the same elements in the same
/// row-major order under other dimension sizes.
#[verifier::external_body]
pub(crate) fn reshape(t: &Tensor, dims: &Vec<usize>) -> (r: Result<Tensor, candle_core::Error>)
    requires
        shape_fits(tensor_dims(*t)),
        shape_fits(dims@),
    ensures
        r matches Ok(out) ==> tensor_dims(out) == dims@ && tensor_dtype(out) == tensor_dtype(*t),
        r matches Ok(out) ==> (tensor_dtype(*t) == ElementType::I64 ==> tensor_ints(out)
            == tensor_ints(*t)),
        r matches Ok(out) ==> tensor_bits(out) == tensor_bits(*t),
{
    t.reshape(dims.clone())
}

/// `Tensor::contiguous`: the same tensor laid out in row-major order, copied
/// only if it was laid out otherwise.
#[verifier::external_body]
pub(crate) fn contiguous(t: &Tensor) -> (r: Result<Tensor, candle_core::Error>)
    requires
        shape_fits(tensor_dims(*t)),
    ensures
        r matches Ok(out) ==> tensor_dims(out) == tensor_dims(*t) && tensor_dtype(out)
            == tensor_dtype(*t) && tensor_contiguous(out),
        r matches Ok(out) ==> (tensor_dtype(*t) == ElementType::I64 ==> tensor_ints(out)
            == tensor_ints(*t)),
        r matches Ok(out) ==> tensor_bits(out) == tensor_bits(*t),
{
    t.contiguous()
}

/// `Tensor::force_contiguous`: a copy of the tensor laid out in row-major
/// order.
#[verifier::external_body]
pub(crate) fn force_contiguous(t: &Tensor) -> (r: Result<Tensor, candle_core::Error>)
    requires
        shape_fits(tensor_dims(*t)),
    ensures
        r matches Ok(out) ==> tensor_dims(out) == tensor_dims(*t) && tensor_dtype(out)
            == tensor_dtype(*t) && tensor_contiguous(out),
        r matches Ok(out) ==> (tensor_dtype(*t) == ElementType::I64 ==> tensor_ints(out)
            == tensor_ints(*t)),
        r matches Ok(out) ==> tensor_bits(out) == tensor_bits(*t),
{
    t.force_contiguous()
}

/// `Tensor::index_select` along the first axis of a matrix: row `i` of the
/// result is the row of `table` that element `i` of `ids` names.
#[verifier::external_body]
pub(crate) fn select_rows(table: &Tensor, ids: &Tensor) -> (r: Result<Tensor, candle_core::Error>)
    requires
        tensor_dims(*table).len() == 2,
        tensor_dims(*ids).len() == 1,
        shape_fits(tensor_dims(*table)),
        shape_fits(seq![tensor_dims(*ids)[0], tensor_dims(*table)[1]]),
    ensures
        r matches Ok(out) ==> tensor_dims(out) == seq![
            tensor_dims(*ids)[0],
            tensor_dims(*table)[1],
        ] && tensor_dtype(out) == tensor_dtype(*table),
        r matches Ok(out) ==> (tensor_dtype(*ids) == ElementType::I64 && ids_in_range(
            tensor_ints(*ids),
            tensor_dims(*ids)[0] as int,
            tensor_dims(*table)[0] as int,
        ) ==> rows_selected(
            tensor_bits(*table),
            tensor_dims(*table)[1] as int,
            tensor_dims(*ids)[0] as int,
            tensor_ints(*ids),
            tensor_bits(out),
        )),
{
    table.index_select(ids, 0)
}

/// `Tensor::arange` on 64-bit integers: the one-dimensional tensor of the
/// integers from `start` up to but not including `end`.
#[verifier::external_body]
pub(crate) fn arange(start: i64, end: i64, device: &Device) -> (r: Result<
    Tensor,
    candle_core::Error,
>)
    requires
        0 <= start <= end,
        end - start <= usize::MAX,
    ensures
        r matches Ok(out) ==> tensor_dims(out) == seq![(end - start) as usize] && tensor_dtype(
            out,
        ) == ElementType::I64 && tensor_ints(out) == Seq::new(
            (end - start) as nat,
            |i: int| (start + i) as i64,
        ),
{
    Tensor::arange(start, end, device)
}

/// `Tensor::expand`: the tensor repeated to larger dimension sizes. Where a
/// single row is repeated to `dims[0]` rows, each row of the result holds
/// the elements of that row.
#[verifier::external_body]
pub(crate) fn expand(t: &Tensor, dims: &Vec<usize>) -> (r: Result<Tensor, candle_core::Error>)
    ensures
        r matches Ok(out) ==> tensor_dims(out) == dims@ && tensor_dtype(out) == tensor_dtype(*t),
        r matches Ok(out) ==> (tensor_dtype(*t) == ElementType::I64 && dims@.len() == 2
            && tensor_dims(*t) == seq![1usize, dims@[1]] ==> tensor_ints(out) == Seq::new(
            (dims@[0] * dims@[1]) as nat,
            |k: int| tensor_ints(*t)[k % (dims@[1] as int)],
        )),
{
    t.expand(dims.clone())
}

/// `Tensor::transpose`: the tensor with two of its axes swapped.
#[verifier::external_body]
pub(crate) fn transpose(t: &Tensor, dim1: usize, dim2: usize) -> (r: Result<
    Tensor,
    candle_core::Error,
>)
    ensures
        r matches Ok(out) ==> dim1 < tensor_dims(*t).len() && dim2 < tensor_dims(*t).len()
            && tensor_dims(out) == tensor_dims(*t).update(
            dim1 as int,
            tensor_dims(*t)[dim2 as int],
        ).update(dim2 as int, tensor_dims(*t)[dim1 as int]),
{
    t.transpose(dim1, dim2)
}

/// `Tensor::matmul` on two matrices: a matrix with the rows of the first
/// and the columns of the second.
#[verifier::external_body]
pub(crate) fn matmul(a: &Tensor, b: &Tensor) -> (r: Result<Tensor, candle_core::Error>)
    requires
        tensor_dims(*a).len() == 2,
        tensor_dims(*b).len() == 2,
        shape_fits(tensor_dims(*a)),
        shape_fits(tensor_dims(*b)),
        shape_fits(seq![tensor_dims(*a)[0], tensor_dims(*b)[1]]),
    ensures
        r matches Ok(out) ==> tensor_dims(out) == seq![tensor_dims(*a)[0], tensor_dims(*b)[1]],
{
    a.matmul(b)
}

/// `Tensor::add` on tensors of a floating point element type: the
/// elementwise sum of two tensors of the same dimension sizes. Integer
/// elements are left out: their sum can overflow. Of the sums themselves
/// nothing is said: they are floating point numbers.
#[verifier::external_body]
pub(crate) fn sum_of(a: &Tensor, b: &Tensor) -> (r: Result<Tensor, candle_core::Error>)
    requires
        shape_fits(tensor_dims(*a)),
        is_float(tensor_dtype(*a)),
    ensures
        r matches Ok(out) ==> tensor_dims(out) == tensor_dims(*a) && tensor_dims(*b)
            == tensor_dims(*a) && tensor_dtype(out) == tensor_dtype(*a),
{
    a.add(b)
}

/// `RmsNorm::forward` on a tensor laid out in row-major order:
/// root-mean-square normalisation over the last axis, with the weight
/// vector and the epsilon that the layer was built with. For such a tensor
/// the layer calls `candle_nn::ops::rms_norm`, whose result has the
/// dimension sizes of its input.
#[verifier::external_body]
pub(crate) fn rms_norm(norm: &RmsNorm, xs: &Tensor) -> (r: Result<Tensor, candle_core::Error>)
    requires
        tensor_contiguous(*xs),
        shape_fits(tensor_dims(*xs)),
        tensor_dims(*xs).len() >= 1,
        tensor_dims(*xs).last() > 0,
    ensures
        r matches Ok(out) ==> tensor_dims(out) == tensor_dims(*xs),
{
    candle_nn::Module::forward(norm, xs)
}

} // verus!
