use vstd::prelude::*;

verus! {

/// The floating-point representation a dequantized tensor is produced in.
///
/// Only three formats are supported by the device kernels: 32-bit float,
/// bfloat16 and IEEE half precision.
#[derive(Debug, Clone, Copy, PartialEq, Eq, Structural)]
pub enum BnbDType {
    F32,
    BF16,
    F16,
}

/// The block-quantization code-table convention a packed weight uses.
#[derive(Debug, Clone, Copy, PartialEq, Eq, Structural)]
pub enum BnbQuantType {
    Int8,
    Fp4,
    Nf4,
}

/// Element type of a tensor in the backend's tensor model.
///
/// This is the subset of storage types the quantized-layer code meets:
/// packed codes (`U8`), signed 8-bit weights (`I8`), and the floating
/// formats produced by dequantization. Floating-point payloads are carried
/// as raw little-endian bytes; the backend never computes with them.
#[derive(Debug, Clone, Copy, PartialEq, Eq, Structural)]
pub enum DType {
    U8,
    I8,
    U32,
    I64,
    BF16,
    F16,
    F32,
    F64,
}

impl DType {
    /// Width in bytes of one element of this type.
    pub open spec fn spec_size_in_bytes(self) -> nat {
        match self {
            DType::U8 => 1,
            DType::I8 => 1,
            DType::U32 => 4,
            DType::I64 => 8,
            DType::BF16 => 2,
            DType::F16 => 2,
            DType::F32 => 4,
            DType::F64 => 8,
        }
    }

    pub fn size_in_bytes(&self) -> (r: usize)
        ensures
            r == self.spec_size_in_bytes(),
            1 <= r <= 8,
    {
        match self {
            DType::U8 => 1,
            DType::I8 => 1,
            DType::U32 => 4,
            DType::I64 => 8,
            DType::BF16 => 2,
            DType::F16 => 2,
            DType::F32 => 4,
            DType::F64 => 8,
        }
    }
}

impl BnbDType {
    /// The storage type a tensor of this floating format has.
    pub open spec fn spec_dtype(self) -> DType {
        match self {
            BnbDType::F32 => DType::F32,
            BnbDType::BF16 => DType::BF16,
            BnbDType::F16 => DType::F16,
        }
    }
}

impl From<BnbDType> for DType {
    fn from(value: BnbDType) -> (r: DType)
        ensures
            r == value.spec_dtype(),
    {
        match value {
            BnbDType::F32 => DType::F32,
            BnbDType::BF16 => DType::BF16,
            BnbDType::F16 => DType::F16,
        }
    }
}

impl vstd::std_specs::convert::FromSpecImpl<BnbDType> for DType {
    open spec fn obeys_from_spec() -> bool {
        true
    }

    open spec fn from_spec(t: BnbDType) -> DType {
        t.spec_dtype()
    }
}

} // verus!
