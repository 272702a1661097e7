//! Device and numeric precision selection.

use vstd::prelude::*;
use candle_core::Device;
use crate::backend::{cpu_device, device_is_cuda, device_is_metal, device_kind, new_cuda_device, new_metal_device};

verus! {

/// The kind of device a model runs on.
#[derive(Debug, Clone, Copy, PartialEq, Eq, Structural)]
pub enum DeviceKind {
    Cpu,
    Metal,
    Cuda,
}

/// The floating-point precisions a caller can ask for.
#[derive(Debug, Clone, Copy, PartialEq, Eq, Structural)]
pub enum Precision {
    F32,
    F16,
    Bf16,
}

/// Element types of tensors.
#[derive(Debug, Clone, Copy, PartialEq, Eq, Structural)]
pub enum ElementType {
    U8,
    U32,
    I16,
    I32,
    I64,
    BF16,
    F16,
    F32,
    F64,
    F8E4M3,
    F6E2M3,
    F6E3M2,
    F4,
    F8E8M0,
}

/// Why device preparation failed.
#[derive(Debug)]
pub enum RuntimeError {
    /// The memory fraction, given by its bit pattern, is outside `[0, 1]`.
    InvalidGpuMemoryUtilization(u32),
    /// The limit on concurrent sequences is zero.
    ZeroMaxNumSeqs,
    /// The accelerator of the given kind could not be opened.
    DeviceInit { kind: DeviceKind, source: candle_core::Error },
}

/// The bit pattern of the single-precision number one.
pub const ONE_BITS: u32 = 0x3F80_0000;

/// The bit pattern of the single-precision negative zero.
pub const NEGATIVE_ZERO_BITS: u32 = 0x8000_0000;

/// Whether `bits`, read as an IEEE-754 single-precision number, lies in the
/// closed interval from zero to one. The non-negative numbers up to one are
/// exactly the patterns up to that of one; negative zero compares equal to
/// zero; every other pattern is negative, larger than one, or not a number.
pub open spec fn is_unit_fraction(bits: u32) -> bool {
    bits <= ONE_BITS || bits == NEGATIVE_ZERO_BITS
}

/// The element type that stands for a precision.
pub open spec fn precision_element_type(p: Precision) -> ElementType {
    match p {
        Precision::F32 => ElementType::F32,
        Precision::F16 => ElementType::F16,
        Precision::Bf16 => ElementType::BF16,
    }
}

/// The first fault among the options, if any: the memory fraction is looked
/// at before the sequence limit.
pub open spec fn options_fault(
    gpu_memory_utilization: Option<u32>,
    max_num_seqs: Option<usize>,
) -> Option<RuntimeError> {
    match gpu_memory_utilization {
        Some(bits) if !is_unit_fraction(bits) => Some(
            RuntimeError::InvalidGpuMemoryUtilization(bits),
        ),
        _ => if max_num_seqs == Some(0usize) {
            Some(RuntimeError::ZeroMaxNumSeqs)
        } else {
            None
        },
    }
}

/// The element type to load weights in: the requested precision if there is
/// one, else half precision on an accelerator and no preference on the host.
pub open spec fn selected_element_type(device: DeviceKind, precision: Option<Precision>) -> Option<ElementType> {
    match precision {
        Some(p) => Some(precision_element_type(p)),
        None => match device {
            DeviceKind::Cpu => None,
            _ => Some(ElementType::F16),
        },
    }
}

pub fn dtype_from_precision(p: Precision) -> (d: ElementType)
    ensures
        d == precision_element_type(p),
{
    match p {
        Precision::F32 => ElementType::F32,
        Precision::F16 => ElementType::F16,
        Precision::Bf16 => ElementType::BF16,
    }
}

/// The element type a device computes in by default: half precision on an
/// accelerator, single precision on the host.
pub fn default_dtype_for_device(device: &Device) -> (d: ElementType)
    ensures
        d == (if device_kind(*device) == DeviceKind::Metal || device_kind(*device)
            == DeviceKind::Cuda {
            ElementType::F16
        } else {
            ElementType::F32
        }),
{
    if device_is_metal(device) || device_is_cuda(device) {
        ElementType::F16
    } else {
        ElementType::F32
    }
}

/// Opens the device of the given kind and selects the element type, with no
/// memory fraction and no sequence limit.
pub fn prepare_device_and_dtype(device: DeviceKind, precision: Option<Precision>) -> (r: Result<
    (Device, Option<ElementType>),
    RuntimeError,
>)
    ensures
        match r {
            Ok((dev, dtype)) => device_kind(dev) == device && dtype == selected_element_type(
                device,
                precision,
            ),
            Err(e) => device != DeviceKind::Cpu && (e matches RuntimeError::DeviceInit { kind, .. }
                && kind == device),
        },
{
    prepare_device_and_dtype_with_options(device, precision, None, None)
}

/// Checks the options, opens the device of the given kind and selects the
/// element type.
///
/// `gpu_memory_utilization` is the bit pattern of a single-precision number.
/// A faulty option is reported before any device is touched. The host device
/// always opens; an accelerator opens or not as the machine decides.
pub fn prepare_device_and_dtype_with_options(
    device: DeviceKind,
    precision: Option<Precision>,
    gpu_memory_utilization: Option<u32>,
    max_num_seqs: Option<usize>,
) -> (r: Result<(Device, Option<ElementType>), RuntimeError>)
    ensures
        options_fault(gpu_memory_utilization, max_num_seqs) matches Some(fault) ==> r == Err::<
            (Device, Option<ElementType>),
            RuntimeError,
        >(fault),
        options_fault(gpu_memory_utilization, max_num_seqs) is None ==> match r {
            Ok((dev, dtype)) => device_kind(dev) == device && dtype == selected_element_type(
                device,
                precision,
            ),
            Err(e) => device != DeviceKind::Cpu && (e matches RuntimeError::DeviceInit { kind, .. }
                && kind == device),
        },
{
    if let Some(bits) = gpu_memory_utilization {
        if !(bits <= ONE_BITS || bits == NEGATIVE_ZERO_BITS) {
            return Err(RuntimeError::InvalidGpuMemoryUtilization(bits));
        }
    }
    if let Some(max_seqs) = max_num_seqs {
        if max_seqs == 0 {
            return Err(RuntimeError::ZeroMaxNumSeqs);
        }
    }
    let (dev, default_precision) = match device {
        DeviceKind::Cpu => (cpu_device(), None),
        DeviceKind::Metal => match new_metal_device(0) {
            Ok(d) => (d, Some(Precision::F16)),
            Err(source) => {
                return Err(RuntimeError::DeviceInit { kind: DeviceKind::Metal, source });
            },
        },
        DeviceKind::Cuda => match new_cuda_device(0) {
            Ok(d) => (d, Some(Precision::F16)),
            Err(source) => {
                return Err(RuntimeError::DeviceInit { kind: DeviceKind::Cuda, source });
            },
        },
    };
    let chosen = match precision {
        Some(p) => Some(p),
        None => default_precision,
    };
    let dtype = match chosen {
        Some(p) => Some(dtype_from_precision(p)),
        None => None,
    };
    Ok((dev, dtype))
}

} // verus!
