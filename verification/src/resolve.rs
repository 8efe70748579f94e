use crate::dtype::DType;
use crate::kernels::{MetalKernelError, SdpaDType, SdpaVariation};
use vstd::prelude::*;

verus! {

/// The head dimensions the fused-attention kernels are specialized for.
pub open spec fn spec_sdpa_head_dims() -> Seq<usize> {
    seq![32usize, 64usize, 96usize, 128usize, 256usize]
}

pub open spec fn spec_sdpa_head_dim_supported(head_dim: usize) -> bool {
    head_dim == 32 || head_dim == 64 || head_dim == 96 || head_dim == 128 || head_dim == 256
}

/// The supported head dimensions, as reported inside mismatch errors.
pub fn sdpa_supported_head_dims() -> (r: Vec<usize>)
    ensures
        r@ == spec_sdpa_head_dims(),
{
    let mut v: Vec<usize> = Vec::new();
    v.push(32);
    v.push(64);
    v.push(96);
    v.push(128);
    v.push(256);
    proof {
        assert(v@ =~= spec_sdpa_head_dims());
    }
    v
}

/// The element types the dequantization kernels are specialized for, as
/// reported inside mismatch errors.
pub open spec fn spec_dequant_expected_dtypes() -> Seq<DType> {
    seq![DType::F32, DType::F16, DType::BF16]
}

pub open spec fn spec_dequant_dtype_supported(ty: DType) -> bool {
    ty == DType::F32 || ty == DType::BF16 || ty == DType::F16
}

fn dequant_expected_dtypes() -> (r: Vec<DType>)
    ensures
        r@ == spec_dequant_expected_dtypes(),
{
    let mut v: Vec<DType> = Vec::new();
    v.push(DType::F32);
    v.push(DType::F16);
    v.push(DType::BF16);
    proof {
        assert(v@ =~= spec_dequant_expected_dtypes());
    }
    v
}

/// The specialized kernel name of the nf4 dequantization family for a
/// supported element type.
pub open spec fn spec_dequant_nf4_name(ty: DType) -> Seq<char> {
    match ty {
        DType::F32 => "kernel_dequantize_nf4_float"@,
        DType::BF16 => "kernel_dequantize_nf4_bfloat16_t"@,
        DType::F16 => "kernel_dequantize_nf4_half"@,
        _ => Seq::<char>::empty(),
    }
}

/// Resolves the nf4 dequantization kernel for element type `ty`:
/// one kernel handles all block sizes, so the variant is keyed by the
/// element type alone.
pub fn resolve_dequant_nf4(ty: DType) -> (r: Result<&'static str, MetalKernelError>)
    ensures
        r is Ok <==> spec_dequant_dtype_supported(ty),
        match r {
            Ok(name) => name@ == spec_dequant_nf4_name(ty),
            Err(e) => (e matches MetalKernelError::DTypeMismatch { expected, got } && expected@
                == spec_dequant_expected_dtypes() && got == ty),
        },
{
    match ty {
        DType::F32 => Ok("kernel_dequantize_nf4_float"),
        DType::BF16 => Ok("kernel_dequantize_nf4_bfloat16_t"),
        DType::F16 => Ok("kernel_dequantize_nf4_half"),
        _ => Err(MetalKernelError::DTypeMismatch { expected: dequant_expected_dtypes(), got: ty }),
    }
}

/// The specialized kernel name of the fp4 dequantization family for a
/// supported element type.
pub open spec fn spec_dequant_fp4_name(ty: DType) -> Seq<char> {
    match ty {
        DType::F32 => "kernel_dequantize_fp4_float"@,
        DType::BF16 => "kernel_dequantize_fp4_bfloat16_t"@,
        DType::F16 => "kernel_dequantize_fp4_half"@,
        _ => Seq::<char>::empty(),
    }
}

/// Resolves the fp4 dequantization kernel for element type `ty`:
/// one kernel handles all block sizes, so the variant is keyed by the
/// element type alone.
pub fn resolve_dequant_fp4(ty: DType) -> (r: Result<&'static str, MetalKernelError>)
    ensures
        r is Ok <==> spec_dequant_dtype_supported(ty),
        match r {
            Ok(name) => name@ == spec_dequant_fp4_name(ty),
            Err(e) => (e matches MetalKernelError::DTypeMismatch { expected, got } && expected@
                == spec_dequant_expected_dtypes() && got == ty),
        },
{
    match ty {
        DType::F32 => Ok("kernel_dequantize_fp4_float"),
        DType::BF16 => Ok("kernel_dequantize_fp4_bfloat16_t"),
        DType::F16 => Ok("kernel_dequantize_fp4_half"),
        _ => Err(MetalKernelError::DTypeMismatch { expected: dequant_expected_dtypes(), got: ty }),
    }
}

/// The specialized kernel name of the int8 dequantization family for a
/// supported element type.
pub open spec fn spec_dequant_int8_name(ty: DType) -> Seq<char> {
    match ty {
        DType::F32 => "kernel_dequantize_int8_float"@,
        DType::BF16 => "kernel_dequantize_int8_bfloat16_t"@,
        DType::F16 => "kernel_dequantize_int8_half"@,
        _ => Seq::<char>::empty(),
    }
}

/// Resolves the int8 dequantization kernel for element type `ty`:
/// one kernel handles all block sizes, so the variant is keyed by the
/// element type alone.
pub fn resolve_dequant_int8(ty: DType) -> (r: Result<&'static str, MetalKernelError>)
    ensures
        r is Ok <==> spec_dequant_dtype_supported(ty),
        match r {
            Ok(name) => name@ == spec_dequant_int8_name(ty),
            Err(e) => (e matches MetalKernelError::DTypeMismatch { expected, got } && expected@
                == spec_dequant_expected_dtypes() && got == ty),
        },
{
    match ty {
        DType::F32 => Ok("kernel_dequantize_int8_float"),
        DType::BF16 => Ok("kernel_dequantize_int8_bfloat16_t"),
        DType::F16 => Ok("kernel_dequantize_int8_half"),
        _ => Err(MetalKernelError::DTypeMismatch { expected: dequant_expected_dtypes(), got: ty }),
    }
}

/// The specialized kernel name of the 8bit dequantization family for a
/// supported element type.
pub open spec fn spec_dequant_8bit_name(ty: DType) -> Seq<char> {
    match ty {
        DType::F32 => "kernel_dequantize_8bit_float"@,
        DType::BF16 => "kernel_dequantize_8bit_bfloat16_t"@,
        DType::F16 => "kernel_dequantize_8bit_half"@,
        _ => Seq::<char>::empty(),
    }
}

/// Resolves the 8bit dequantization kernel for element type `ty`:
/// one kernel handles all block sizes, so the variant is keyed by the
/// element type alone.
pub fn resolve_dequant_8bit(ty: DType) -> (r: Result<&'static str, MetalKernelError>)
    ensures
        r is Ok <==> spec_dequant_dtype_supported(ty),
        match r {
            Ok(name) => name@ == spec_dequant_8bit_name(ty),
            Err(e) => (e matches MetalKernelError::DTypeMismatch { expected, got } && expected@
                == spec_dequant_expected_dtypes() && got == ty),
        },
{
    match ty {
        DType::F32 => Ok("kernel_dequantize_8bit_float"),
        DType::BF16 => Ok("kernel_dequantize_8bit_bfloat16_t"),
        DType::F16 => Ok("kernel_dequantize_8bit_half"),
        _ => Err(MetalKernelError::DTypeMismatch { expected: dequant_expected_dtypes(), got: ty }),
    }
}

/// The specialized kernel name of single-pass vector attention for a supported head dimension.
pub open spec fn spec_sdpa_vector_name(head_dim: usize, itype: SdpaDType) -> Seq<char> {
    match (head_dim, itype) {
        (32usize, SdpaDType::F16) => "sdpa_vector_float16_t_32"@,
        (64usize, SdpaDType::F16) => "sdpa_vector_float16_t_64"@,
        (96usize, SdpaDType::F16) => "sdpa_vector_float16_t_96"@,
        (128usize, SdpaDType::F16) => "sdpa_vector_float16_t_128"@,
        (256usize, SdpaDType::F16) => "sdpa_vector_float16_t_256"@,
        (32usize, SdpaDType::BF16) => "sdpa_vector_bfloat16_t_32"@,
        (64usize, SdpaDType::BF16) => "sdpa_vector_bfloat16_t_64"@,
        (96usize, SdpaDType::BF16) => "sdpa_vector_bfloat16_t_96"@,
        (128usize, SdpaDType::BF16) => "sdpa_vector_bfloat16_t_128"@,
        (256usize, SdpaDType::BF16) => "sdpa_vector_bfloat16_t_256"@,
        (32usize, SdpaDType::F32) => "sdpa_vector_float_32"@,
        (64usize, SdpaDType::F32) => "sdpa_vector_float_64"@,
        (96usize, SdpaDType::F32) => "sdpa_vector_float_96"@,
        (128usize, SdpaDType::F32) => "sdpa_vector_float_128"@,
        (256usize, SdpaDType::F32) => "sdpa_vector_float_256"@,
        _ => Seq::<char>::empty(),
    }
}

/// Resolves the kernel of single-pass vector attention. A stable, specific name is returned for
/// every head dimension in the supported set and every element type;
/// any other head dimension fails with a head-size mismatch that lists
/// the supported set.
pub fn resolve_sdpa_vector(head_dim: usize, itype: SdpaDType) -> (r: Result<
    &'static str,
    MetalKernelError,
>)
    ensures
        r is Ok <==> spec_sdpa_head_dim_supported(head_dim),
        match r {
            Ok(name) => name@ == spec_sdpa_vector_name(head_dim, itype),
            Err(e) => (e matches MetalKernelError::SdpaHeadSizeMismatch { variation, got, expected }
                && variation == SdpaVariation::Vector && got == head_dim && expected@
                == spec_sdpa_head_dims()),
        },
{
    match (head_dim, itype) {
        (32, SdpaDType::F16) => Ok("sdpa_vector_float16_t_32"),
        (64, SdpaDType::F16) => Ok("sdpa_vector_float16_t_64"),
        (96, SdpaDType::F16) => Ok("sdpa_vector_float16_t_96"),
        (128, SdpaDType::F16) => Ok("sdpa_vector_float16_t_128"),
        (256, SdpaDType::F16) => Ok("sdpa_vector_float16_t_256"),
        (32, SdpaDType::BF16) => Ok("sdpa_vector_bfloat16_t_32"),
        (64, SdpaDType::BF16) => Ok("sdpa_vector_bfloat16_t_64"),
        (96, SdpaDType::BF16) => Ok("sdpa_vector_bfloat16_t_96"),
        (128, SdpaDType::BF16) => Ok("sdpa_vector_bfloat16_t_128"),
        (256, SdpaDType::BF16) => Ok("sdpa_vector_bfloat16_t_256"),
        (32, SdpaDType::F32) => Ok("sdpa_vector_float_32"),
        (64, SdpaDType::F32) => Ok("sdpa_vector_float_64"),
        (96, SdpaDType::F32) => Ok("sdpa_vector_float_96"),
        (128, SdpaDType::F32) => Ok("sdpa_vector_float_128"),
        (256, SdpaDType::F32) => Ok("sdpa_vector_float_256"),
        (_, _) => Err(MetalKernelError::SdpaHeadSizeMismatch {
            variation: SdpaVariation::Vector,
            got: head_dim,
            expected: sdpa_supported_head_dims(),
        }),
    }
}

/// The specialized kernel name of first pass of two-pass vector attention for a supported head dimension.
pub open spec fn spec_sdpa_vector_2pass_1_name(head_dim: usize, itype: SdpaDType) -> Seq<char> {
    match (head_dim, itype) {
        (32usize, SdpaDType::F16) => "sdpa_vector_2pass_1_float16_t_32"@,
        (64usize, SdpaDType::F16) => "sdpa_vector_2pass_1_float16_t_64"@,
        (96usize, SdpaDType::F16) => "sdpa_vector_2pass_1_float16_t_96"@,
        (128usize, SdpaDType::F16) => "sdpa_vector_2pass_1_float16_t_128"@,
        (256usize, SdpaDType::F16) => "sdpa_vector_2pass_1_float16_t_256"@,
        (32usize, SdpaDType::BF16) => "sdpa_vector_2pass_1_bfloat16_t_32"@,
        (64usize, SdpaDType::BF16) => "sdpa_vector_2pass_1_bfloat16_t_64"@,
        (96usize, SdpaDType::BF16) => "sdpa_vector_2pass_1_bfloat16_t_96"@,
        (128usize, SdpaDType::BF16) => "sdpa_vector_2pass_1_bfloat16_t_128"@,
        (256usize, SdpaDType::BF16) => "sdpa_vector_2pass_1_bfloat16_t_256"@,
        (32usize, SdpaDType::F32) => "sdpa_vector_2pass_1_float_32"@,
        (64usize, SdpaDType::F32) => "sdpa_vector_2pass_1_float_64"@,
        (96usize, SdpaDType::F32) => "sdpa_vector_2pass_1_float_96"@,
        (128usize, SdpaDType::F32) => "sdpa_vector_2pass_1_float_128"@,
        (256usize, SdpaDType::F32) => "sdpa_vector_2pass_1_float_256"@,
        _ => Seq::<char>::empty(),
    }
}

/// Resolves the kernel of first pass of two-pass vector attention. A stable, specific name is returned for
/// every head dimension in the supported set and every element type;
/// any other head dimension fails with a head-size mismatch that lists
/// the supported set.
pub fn resolve_sdpa_vector_2pass_1(head_dim: usize, itype: SdpaDType) -> (r: Result<
    &'static str,
    MetalKernelError,
>)
    ensures
        r is Ok <==> spec_sdpa_head_dim_supported(head_dim),
        match r {
            Ok(name) => name@ == spec_sdpa_vector_2pass_1_name(head_dim, itype),
            Err(e) => (e matches MetalKernelError::SdpaHeadSizeMismatch { variation, got, expected }
                && variation == SdpaVariation::Vector2Pass1 && got == head_dim && expected@
                == spec_sdpa_head_dims()),
        },
{
    match (head_dim, itype) {
        (32, SdpaDType::F16) => Ok("sdpa_vector_2pass_1_float16_t_32"),
        (64, SdpaDType::F16) => Ok("sdpa_vector_2pass_1_float16_t_64"),
        (96, SdpaDType::F16) => Ok("sdpa_vector_2pass_1_float16_t_96"),
        (128, SdpaDType::F16) => Ok("sdpa_vector_2pass_1_float16_t_128"),
        (256, SdpaDType::F16) => Ok("sdpa_vector_2pass_1_float16_t_256"),
        (32, SdpaDType::BF16) => Ok("sdpa_vector_2pass_1_bfloat16_t_32"),
        (64, SdpaDType::BF16) => Ok("sdpa_vector_2pass_1_bfloat16_t_64"),
        (96, SdpaDType::BF16) => Ok("sdpa_vector_2pass_1_bfloat16_t_96"),
        (128, SdpaDType::BF16) => Ok("sdpa_vector_2pass_1_bfloat16_t_128"),
        (256, SdpaDType::BF16) => Ok("sdpa_vector_2pass_1_bfloat16_t_256"),
        (32, SdpaDType::F32) => Ok("sdpa_vector_2pass_1_float_32"),
        (64, SdpaDType::F32) => Ok("sdpa_vector_2pass_1_float_64"),
        (96, SdpaDType::F32) => Ok("sdpa_vector_2pass_1_float_96"),
        (128, SdpaDType::F32) => Ok("sdpa_vector_2pass_1_float_128"),
        (256, SdpaDType::F32) => Ok("sdpa_vector_2pass_1_float_256"),
        (_, _) => Err(MetalKernelError::SdpaHeadSizeMismatch {
            variation: SdpaVariation::Vector2Pass1,
            got: head_dim,
            expected: sdpa_supported_head_dims(),
        }),
    }
}

/// The specialized kernel name of second (merge) pass of two-pass vector attention for a supported head dimension.
pub open spec fn spec_sdpa_vector_2pass_2_name(head_dim: usize, itype: SdpaDType) -> Seq<char> {
    match (head_dim, itype) {
        (32usize, SdpaDType::F16) => "sdpa_vector_2pass_2_float16_t_32"@,
        (64usize, SdpaDType::F16) => "sdpa_vector_2pass_2_float16_t_64"@,
        (96usize, SdpaDType::F16) => "sdpa_vector_2pass_2_float16_t_96"@,
        (128usize, SdpaDType::F16) => "sdpa_vector_2pass_2_float16_t_128"@,
        (256usize, SdpaDType::F16) => "sdpa_vector_2pass_2_float16_t_256"@,
        (32usize, SdpaDType::BF16) => "sdpa_vector_2pass_2_bfloat16_t_32"@,
        (64usize, SdpaDType::BF16) => "sdpa_vector_2pass_2_bfloat16_t_64"@,
        (96usize, SdpaDType::BF16) => "sdpa_vector_2pass_2_bfloat16_t_96"@,
        (128usize, SdpaDType::BF16) => "sdpa_vector_2pass_2_bfloat16_t_128"@,
        (256usize, SdpaDType::BF16) => "sdpa_vector_2pass_2_bfloat16_t_256"@,
        (32usize, SdpaDType::F32) => "sdpa_vector_2pass_2_float_32"@,
        (64usize, SdpaDType::F32) => "sdpa_vector_2pass_2_float_64"@,
        (96usize, SdpaDType::F32) => "sdpa_vector_2pass_2_float_96"@,
        (128usize, SdpaDType::F32) => "sdpa_vector_2pass_2_float_128"@,
        (256usize, SdpaDType::F32) => "sdpa_vector_2pass_2_float_256"@,
        _ => Seq::<char>::empty(),
    }
}

/// Resolves the kernel of second (merge) pass of two-pass vector attention. A stable, specific name is returned for
/// every head dimension in the supported set and every element type;
/// any other head dimension fails with a head-size mismatch that lists
/// the supported set.
pub fn resolve_sdpa_vector_2pass_2(head_dim: usize, itype: SdpaDType) -> (r: Result<
    &'static str,
    MetalKernelError,
>)
    ensures
        r is Ok <==> spec_sdpa_head_dim_supported(head_dim),
        match r {
            Ok(name) => name@ == spec_sdpa_vector_2pass_2_name(head_dim, itype),
            Err(e) => (e matches MetalKernelError::SdpaHeadSizeMismatch { variation, got, expected }
                && variation == SdpaVariation::Vector2Pass2 && got == head_dim && expected@
                == spec_sdpa_head_dims()),
        },
{
    match (head_dim, itype) {
        (32, SdpaDType::F16) => Ok("sdpa_vector_2pass_2_float16_t_32"),
        (64, SdpaDType::F16) => Ok("sdpa_vector_2pass_2_float16_t_64"),
        (96, SdpaDType::F16) => Ok("sdpa_vector_2pass_2_float16_t_96"),
        (128, SdpaDType::F16) => Ok("sdpa_vector_2pass_2_float16_t_128"),
        (256, SdpaDType::F16) => Ok("sdpa_vector_2pass_2_float16_t_256"),
        (32, SdpaDType::BF16) => Ok("sdpa_vector_2pass_2_bfloat16_t_32"),
        (64, SdpaDType::BF16) => Ok("sdpa_vector_2pass_2_bfloat16_t_64"),
        (96, SdpaDType::BF16) => Ok("sdpa_vector_2pass_2_bfloat16_t_96"),
        (128, SdpaDType::BF16) => Ok("sdpa_vector_2pass_2_bfloat16_t_128"),
        (256, SdpaDType::BF16) => Ok("sdpa_vector_2pass_2_bfloat16_t_256"),
        (32, SdpaDType::F32) => Ok("sdpa_vector_2pass_2_float_32"),
        (64, SdpaDType::F32) => Ok("sdpa_vector_2pass_2_float_64"),
        (96, SdpaDType::F32) => Ok("sdpa_vector_2pass_2_float_96"),
        (128, SdpaDType::F32) => Ok("sdpa_vector_2pass_2_float_128"),
        (256, SdpaDType::F32) => Ok("sdpa_vector_2pass_2_float_256"),
        (_, _) => Err(MetalKernelError::SdpaHeadSizeMismatch {
            variation: SdpaVariation::Vector2Pass2,
            got: head_dim,
            expected: sdpa_supported_head_dims(),
        }),
    }
}

/// The specialized kernel name of full (tiled) attention for a
/// supported head dimension.
pub open spec fn spec_sdpa_full_name(head_dim: usize, itype: SdpaDType) -> Seq<char> {
    match (head_dim, itype) {
        (32usize, SdpaDType::F16) => "steel_gemm_attention_bm_16_bn_16_bk_32_itype_half"@,
        (64usize, SdpaDType::F16) => "steel_gemm_attention_bm_16_bn_16_bk_64_itype_half"@,
        (96usize, SdpaDType::F16) => "steel_gemm_attention_bm_16_bn_16_bk_96_itype_half"@,
        (128usize, SdpaDType::F16) => "steel_gemm_attention_bm_16_bn_16_bk_128_itype_half"@,
        (256usize, SdpaDType::F16) => "steel_gemm_attention_bm_16_bn_16_bk_256_itype_half"@,
        (32usize, SdpaDType::BF16) => "steel_gemm_attention_bm_16_bn_16_bk_32_itype_bfloat16_t"@,
        (64usize, SdpaDType::BF16) => "steel_gemm_attention_bm_16_bn_16_bk_64_itype_bfloat16_t"@,
        (96usize, SdpaDType::BF16) => "steel_gemm_attention_bm_16_bn_16_bk_96_itype_bfloat16_t"@,
        (128usize, SdpaDType::BF16) => "steel_gemm_attention_bm_16_bn_16_bk_128_itype_bfloat16_t"@,
        (256usize, SdpaDType::BF16) => "steel_gemm_attention_bm_16_bn_16_bk_256_itype_bfloat16_t"@,
        (32usize, SdpaDType::F32) => "steel_gemm_attention_bm_16_bn_16_bk_32_itype_float"@,
        (64usize, SdpaDType::F32) => "steel_gemm_attention_bm_16_bn_16_bk_64_itype_float"@,
        (96usize, SdpaDType::F32) => "steel_gemm_attention_bm_16_bn_16_bk_96_itype_float"@,
        (128usize, SdpaDType::F32) => "steel_gemm_attention_bm_16_bn_16_bk_128_itype_float"@,
        (256usize, SdpaDType::F32) => "steel_gemm_attention_bm_16_bn_16_bk_256_itype_float"@,
        _ => Seq::<char>::empty(),
    }
}

/// Resolves the kernel of full attention. Head dimensions outside the
/// supported set fail with a head-size mismatch for half and float
/// inputs, and with an element-type mismatch for bfloat16 inputs.
pub fn resolve_sdpa_full(head_dim: usize, itype: SdpaDType) -> (r: Result<
    &'static str,
    MetalKernelError,
>)
    ensures
        r is Ok <==> spec_sdpa_head_dim_supported(head_dim),
        match r {
            Ok(name) => name@ == spec_sdpa_full_name(head_dim, itype),
            Err(e) => {
                &&& (itype != SdpaDType::BF16 ==> (e
                    matches MetalKernelError::SdpaHeadSizeMismatch { variation, got, expected }
                    && variation == SdpaVariation::Full && got == head_dim && expected@
                    == spec_sdpa_head_dims()))
                &&& (itype == SdpaDType::BF16 ==> e == (MetalKernelError::SdpaHeadDTypeMismatch {
                    variation: SdpaVariation::Full,
                    got: SdpaDType::BF16,
                }))
            },
        },
{
    match (head_dim, itype) {
        (32, SdpaDType::F16) => Ok("steel_gemm_attention_bm_16_bn_16_bk_32_itype_half"),
        (64, SdpaDType::F16) => Ok("steel_gemm_attention_bm_16_bn_16_bk_64_itype_half"),
        (96, SdpaDType::F16) => Ok("steel_gemm_attention_bm_16_bn_16_bk_96_itype_half"),
        (128, SdpaDType::F16) => Ok("steel_gemm_attention_bm_16_bn_16_bk_128_itype_half"),
        (256, SdpaDType::F16) => Ok("steel_gemm_attention_bm_16_bn_16_bk_256_itype_half"),
        (32, SdpaDType::BF16) => Ok("steel_gemm_attention_bm_16_bn_16_bk_32_itype_bfloat16_t"),
        (64, SdpaDType::BF16) => Ok("steel_gemm_attention_bm_16_bn_16_bk_64_itype_bfloat16_t"),
        (96, SdpaDType::BF16) => Ok("steel_gemm_attention_bm_16_bn_16_bk_96_itype_bfloat16_t"),
        (128, SdpaDType::BF16) => Ok("steel_gemm_attention_bm_16_bn_16_bk_128_itype_bfloat16_t"),
        (256, SdpaDType::BF16) => Ok("steel_gemm_attention_bm_16_bn_16_bk_256_itype_bfloat16_t"),
        (32, SdpaDType::F32) => Ok("steel_gemm_attention_bm_16_bn_16_bk_32_itype_float"),
        (64, SdpaDType::F32) => Ok("steel_gemm_attention_bm_16_bn_16_bk_64_itype_float"),
        (96, SdpaDType::F32) => Ok("steel_gemm_attention_bm_16_bn_16_bk_96_itype_float"),
        (128, SdpaDType::F32) => Ok("steel_gemm_attention_bm_16_bn_16_bk_128_itype_float"),
        (256, SdpaDType::F32) => Ok("steel_gemm_attention_bm_16_bn_16_bk_256_itype_float"),
        (other, SdpaDType::F16) | (other, SdpaDType::F32) => Err(
            MetalKernelError::SdpaHeadSizeMismatch {
                variation: SdpaVariation::Full,
                got: other,
                expected: sdpa_supported_head_dims(),
            },
        ),
        (_, SdpaDType::BF16) => Err(MetalKernelError::SdpaHeadDTypeMismatch {
            variation: SdpaVariation::Full,
            got: SdpaDType::BF16,
        }),
    }
}

} // verus!
