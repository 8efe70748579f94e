use crate::dtype::DType;
use crate::kernels::{MetalKernelError, SdpaDType, SdpaVariation, Source};
use crate::resolve::{
    resolve_dequant_8bit, resolve_dequant_fp4, resolve_dequant_int8, resolve_dequant_nf4,
    resolve_sdpa_full, resolve_sdpa_vector, resolve_sdpa_vector_2pass_1,
    resolve_sdpa_vector_2pass_2, spec_dequant_8bit_name, spec_dequant_expected_dtypes,
    spec_dequant_fp4_name, spec_dequant_int8_name, spec_dequant_nf4_name,
    spec_dequant_dtype_supported, spec_sdpa_full_name, spec_sdpa_head_dim_supported,
    spec_sdpa_head_dims, spec_sdpa_vector_2pass_1_name, spec_sdpa_vector_2pass_2_name,
    spec_sdpa_vector_name,
};
use vstd::prelude::*;

verus! {

/// The number of key-sequence blocks the two-pass vector attention
/// splits its reduction into.
pub const SDPA_2PASS_BLOCKS: usize = 32;

/// Bit pattern of the 32-bit float one, the sentinel that disables
/// soft-capping.
pub const F32_ONE_BITS: u32 = 0x3F80_0000;

/// Which buffer a dispatch parameter refers to. The caller binds each
/// role to a real device buffer when it encodes the plan.
#[derive(Debug, Clone, Copy, PartialEq, Eq, Structural)]
pub enum BufferRole {
    Query,
    Key,
    Value,
    Output,
    Code,
    Input,
    Absmax,
    Weight,
    Scb,
    Intermediate,
    Sums,
    Maxs,
}

/// A 32-bit float scalar argument, by bit pattern. `Quot(a, b)` stands
/// for the quotient a/b, to be evaluated in float arithmetic when the
/// plan is encoded; the planner itself never computes with floats.
#[derive(Debug, Clone, Copy, PartialEq, Eq, Structural)]
pub enum F32Scalar {
    Bits(u32),
    Quot(u32, u32),
}

/// The parameter block of the tiled full-attention kernel, in the exact
/// field order the kernel reads it.
#[derive(Debug, Clone, Copy, PartialEq, Eq, Structural)]
pub struct FullAttnParams {
    pub m: i32,
    pub n: i32,
    pub k: i32,
    pub ldq: i32,
    pub ldk: i32,
    pub ldv: i32,
    pub lds: i32,
    pub ldo: i32,
    pub tiles_n: i32,
    pub tiles_m: i32,
    pub batch_stride_q: i32,
    pub batch_stride_k: i32,
    pub batch_stride_v: i32,
    pub batch_stride_o: i32,
    pub swizzle_log: i32,
    pub gemm_n_iterations_aligned: i32,
    pub gemm_k_iterations_aligned: i32,
    pub gemm_sv_m_block_iterations: i32,
    pub batch_ndim: i32,
    pub alpha: F32Scalar,
    pub softcapping: u32,
}

/// One typed dispatch parameter, in the positional order the kernel
/// expects.
#[derive(Debug, Clone, Copy, PartialEq, Eq, Structural)]
pub enum ParamDesc {
    /// A device buffer at a byte offset.
    Buf(BufferRole, usize),
    I32(i32),
    Usize(usize),
    F32(F32Scalar),
    AttnParams(FullAttnParams),
    /// A one-element shape list argument.
    Shape1(usize),
    /// The four batch strides (query, key, value, output).
    Strides4(usize, usize, usize, usize),
}

/// Grid or threadgroup dimensions of one dispatch.
#[derive(Debug, Clone, Copy, PartialEq, Eq, Structural)]
pub struct GridDims {
    pub width: u64,
    pub height: u64,
    pub depth: u64,
}

/// One device dispatch, fully decided: which kernel of which group to
/// run, its parameters in order, and its launch geometry. The caller
/// loads the pipeline through the cache, binds the buffers, and issues
/// the dispatch exactly as planned.
#[derive(Debug)]
pub struct DispatchPlan {
    pub source: Source,
    pub kernel_name: String,
    pub params: Vec<ParamDesc>,
    pub grid: GridDims,
    pub group: GridDims,
    pub reads: Vec<BufferRole>,
    pub writes: Vec<BufferRole>,
}

/// The two ordered dispatches of two-pass vector attention. The second
/// pass consumes the first pass's partial results and must be encoded
/// after it on the same command stream.
#[derive(Debug)]
pub struct TwoPassPlan {
    pub pass1: DispatchPlan,
    pub pass2: DispatchPlan,
}

/// Ceiling division.
pub open spec fn spec_div_ceil(a: int, b: int) -> int {
    (a + b - 1) / b
}

/// Splits `n` linear work items over threadgroups: the group width is
/// the smaller of `max_threads` (the pipeline's thread limit) and `n`,
/// and the grid holds as many groups as cover `n`.
pub fn linear_split(max_threads: usize, n: usize) -> (r: (GridDims, GridDims))
    requires
        max_threads >= 1,
        n >= 1,
    ensures
        r.0 == (GridDims {
            width: spec_div_ceil(n as int, spec_min(max_threads as int, n as int)) as u64,
            height: 1,
            depth: 1,
        }),
        r.1 == (GridDims {
            width: spec_min(max_threads as int, n as int) as u64,
            height: 1,
            depth: 1,
        }),
{
    let width: usize = if max_threads < n {
        max_threads
    } else {
        n
    };
    let q = n / width;
    let rem = n % width;
    let count: usize = if rem != 0 {
        proof {
            assert(q < n) by (nonlinear_arith)
                requires
                    width >= 1,
                    n >= 1,
                    q == n as int / width as int,
                    n as int % width as int != 0,
            ;
        }
        q + 1
    } else {
        q
    };
    proof {
        assert(count == spec_div_ceil(n as int, width as int)) by (nonlinear_arith)
            requires
                width >= 1,
                n >= 1,
                count == n as int / width as int + (if n as int % width as int != 0 {
                    1int
                } else {
                    0int
                }),
        ;
    }
    (
        GridDims { width: count as u64, height: 1, depth: 1 },
        GridDims { width: width as u64, height: 1, depth: 1 },
    )
}

/// The smaller of two integers.
pub open spec fn spec_min(a: int, b: int) -> int {
    if a < b {
        a
    } else {
        b
    }
}

/// The parameter list of a 4-bit or blockwise-int8 dequantization
/// dispatch: code table, packed input, per-block scales, output, then
/// the block size and element count.
pub open spec fn spec_dequant_block_params(
    input_offset: int,
    absmax_offset: int,
    code_offset: int,
    blocksize: int,
    n: int,
) -> Seq<ParamDesc> {
    seq![
        ParamDesc::Buf(BufferRole::Code, code_offset as usize),
        ParamDesc::Buf(BufferRole::Input, input_offset as usize),
        ParamDesc::Buf(BufferRole::Absmax, absmax_offset as usize),
        ParamDesc::Buf(BufferRole::Output, 0usize),
        ParamDesc::I32(blocksize as i32),
        ParamDesc::I32(n as i32),
    ]
}

/// Plans a blockwise nf4 dequantization dispatch: resolves the
/// kernel by element type, lays out the parameters in kernel order and
/// splits the `n` output elements linearly over threadgroups of at
/// most `max_threads` threads (the loaded pipeline's limit).
pub fn call_dequant_bnb_nf4(
    ty: DType,
    input_offset: usize,
    absmax_offset: usize,
    code_offset: usize,
    blocksize: usize,
    n: usize,
    max_threads: usize,
) -> (r: Result<DispatchPlan, MetalKernelError>)
    requires
        blocksize <= i32::MAX,
        1 <= n <= i32::MAX,
        max_threads >= 1,
    ensures
        r is Ok <==> spec_dequant_dtype_supported(ty),
        match r {
            Ok(plan) => {
                &&& plan.source == Source::BnbDequant
                &&& plan.kernel_name@ == spec_dequant_nf4_name(ty)
                &&& plan.params@ == spec_dequant_block_params(
                    input_offset as int,
                    absmax_offset as int,
                    code_offset as int,
                    blocksize as int,
                    n as int,
                )
                &&& plan.grid == (GridDims {
                    width: spec_div_ceil(n as int, spec_min(max_threads as int, n as int)) as u64,
                    height: 1,
                    depth: 1,
                })
                &&& plan.group == (GridDims {
                    width: spec_min(max_threads as int, n as int) as u64,
                    height: 1,
                    depth: 1,
                })
                &&& plan.reads@ == Seq::<BufferRole>::empty()
                &&& plan.writes@ == Seq::<BufferRole>::empty()
            },
            Err(e) => (e matches MetalKernelError::DTypeMismatch { expected, got } && expected@
                == spec_dequant_expected_dtypes() && got == ty),
        },
{
    let name = match resolve_dequant_nf4(ty) {
        Ok(nm) => nm,
        Err(e) => {
            return Err(e);
        },
    };
    let (grid, group) = linear_split(max_threads, n);
    let mut params: Vec<ParamDesc> = Vec::new();
    params.push(ParamDesc::Buf(BufferRole::Code, code_offset));
    params.push(ParamDesc::Buf(BufferRole::Input, input_offset));
    params.push(ParamDesc::Buf(BufferRole::Absmax, absmax_offset));
    params.push(ParamDesc::Buf(BufferRole::Output, 0));
    params.push(ParamDesc::I32(blocksize as i32));
    params.push(ParamDesc::I32(n as i32));
    proof {
        assert(params@ =~= spec_dequant_block_params(
            input_offset as int,
            absmax_offset as int,
            code_offset as int,
            blocksize as int,
            n as int,
        ));
    }
    Ok(DispatchPlan {
        source: Source::BnbDequant,
        kernel_name: name.to_owned(),
        params,
        grid,
        group,
        reads: Vec::new(),
        writes: Vec::new(),
    })
}

/// Plans a blockwise fp4 dequantization dispatch: resolves the
/// kernel by element type, lays out the parameters in kernel order and
/// splits the `n` output elements linearly over threadgroups of at
/// most `max_threads` threads (the loaded pipeline's limit).
pub fn call_dequant_bnb_fp4(
    ty: DType,
    input_offset: usize,
    absmax_offset: usize,
    code_offset: usize,
    blocksize: usize,
    n: usize,
    max_threads: usize,
) -> (r: Result<DispatchPlan, MetalKernelError>)
    requires
        blocksize <= i32::MAX,
        1 <= n <= i32::MAX,
        max_threads >= 1,
    ensures
        r is Ok <==> spec_dequant_dtype_supported(ty),
        match r {
            Ok(plan) => {
                &&& plan.source == Source::BnbDequant
                &&& plan.kernel_name@ == spec_dequant_fp4_name(ty)
                &&& plan.params@ == spec_dequant_block_params(
                    input_offset as int,
                    absmax_offset as int,
                    code_offset as int,
                    blocksize as int,
                    n as int,
                )
                &&& plan.grid == (GridDims {
                    width: spec_div_ceil(n as int, spec_min(max_threads as int, n as int)) as u64,
                    height: 1,
                    depth: 1,
                })
                &&& plan.group == (GridDims {
                    width: spec_min(max_threads as int, n as int) as u64,
                    height: 1,
                    depth: 1,
                })
                &&& plan.reads@ == Seq::<BufferRole>::empty()
                &&& plan.writes@ == Seq::<BufferRole>::empty()
            },
            Err(e) => (e matches MetalKernelError::DTypeMismatch { expected, got } && expected@
                == spec_dequant_expected_dtypes() && got == ty),
        },
{
    let name = match resolve_dequant_fp4(ty) {
        Ok(nm) => nm,
        Err(e) => {
            return Err(e);
        },
    };
    let (grid, group) = linear_split(max_threads, n);
    let mut params: Vec<ParamDesc> = Vec::new();
    params.push(ParamDesc::Buf(BufferRole::Code, code_offset));
    params.push(ParamDesc::Buf(BufferRole::Input, input_offset));
    params.push(ParamDesc::Buf(BufferRole::Absmax, absmax_offset));
    params.push(ParamDesc::Buf(BufferRole::Output, 0));
    params.push(ParamDesc::I32(blocksize as i32));
    params.push(ParamDesc::I32(n as i32));
    proof {
        assert(params@ =~= spec_dequant_block_params(
            input_offset as int,
            absmax_offset as int,
            code_offset as int,
            blocksize as int,
            n as int,
        ));
    }
    Ok(DispatchPlan {
        source: Source::BnbDequant,
        kernel_name: name.to_owned(),
        params,
        grid,
        group,
        reads: Vec::new(),
        writes: Vec::new(),
    })
}

/// Plans a blockwise int8 dequantization dispatch: resolves the
/// kernel by element type, lays out the parameters in kernel order and
/// splits the `n` output elements linearly over threadgroups of at
/// most `max_threads` threads (the loaded pipeline's limit).
pub fn call_dequant_bnb_int8(
    ty: DType,
    input_offset: usize,
    absmax_offset: usize,
    code_offset: usize,
    blocksize: usize,
    n: usize,
    max_threads: usize,
) -> (r: Result<DispatchPlan, MetalKernelError>)
    requires
        blocksize <= i32::MAX,
        1 <= n <= i32::MAX,
        max_threads >= 1,
    ensures
        r is Ok <==> spec_dequant_dtype_supported(ty),
        match r {
            Ok(plan) => {
                &&& plan.source == Source::BnbDequant
                &&& plan.kernel_name@ == spec_dequant_int8_name(ty)
                &&& plan.params@ == spec_dequant_block_params(
                    input_offset as int,
                    absmax_offset as int,
                    code_offset as int,
                    blocksize as int,
                    n as int,
                )
                &&& plan.grid == (GridDims {
                    width: spec_div_ceil(n as int, spec_min(max_threads as int, n as int)) as u64,
                    height: 1,
                    depth: 1,
                })
                &&& plan.group == (GridDims {
                    width: spec_min(max_threads as int, n as int) as u64,
                    height: 1,
                    depth: 1,
                })
                &&& plan.reads@ == Seq::<BufferRole>::empty()
                &&& plan.writes@ == Seq::<BufferRole>::empty()
            },
            Err(e) => (e matches MetalKernelError::DTypeMismatch { expected, got } && expected@
                == spec_dequant_expected_dtypes() && got == ty),
        },
{
    let name = match resolve_dequant_int8(ty) {
        Ok(nm) => nm,
        Err(e) => {
            return Err(e);
        },
    };
    let (grid, group) = linear_split(max_threads, n);
    let mut params: Vec<ParamDesc> = Vec::new();
    params.push(ParamDesc::Buf(BufferRole::Code, code_offset));
    params.push(ParamDesc::Buf(BufferRole::Input, input_offset));
    params.push(ParamDesc::Buf(BufferRole::Absmax, absmax_offset));
    params.push(ParamDesc::Buf(BufferRole::Output, 0));
    params.push(ParamDesc::I32(blocksize as i32));
    params.push(ParamDesc::I32(n as i32));
    proof {
        assert(params@ =~= spec_dequant_block_params(
            input_offset as int,
            absmax_offset as int,
            code_offset as int,
            blocksize as int,
            n as int,
        ));
    }
    Ok(DispatchPlan {
        source: Source::BnbDequant,
        kernel_name: name.to_owned(),
        params,
        grid,
        group,
        reads: Vec::new(),
        writes: Vec::new(),
    })
}

/// The parameter list of a row-scaled 8-bit dequantization dispatch:
/// weight matrix, per-row scales, output, then the row count, column
/// count and element count.
pub open spec fn spec_dequant_row_params(
    weight_offset: int,
    scb_offset: int,
    row: int,
    col: int,
    n: int,
) -> Seq<ParamDesc> {
    seq![
        ParamDesc::Buf(BufferRole::Weight, weight_offset as usize),
        ParamDesc::Buf(BufferRole::Scb, scb_offset as usize),
        ParamDesc::Buf(BufferRole::Output, 0usize),
        ParamDesc::Usize(row as usize),
        ParamDesc::Usize(col as usize),
        ParamDesc::Usize(n as usize),
    ]
}

/// Plans a row-scaled 8-bit dequantization dispatch: resolves the
/// kernel by element type, lays out the parameters in kernel order and
/// splits the `n` output elements linearly over threadgroups of at
/// most `max_threads` threads (the loaded pipeline's limit).
pub fn call_dequant_bnb_8bit(
    ty: DType,
    weight_offset: usize,
    scb_offset: usize,
    row: usize,
    col: usize,
    n: usize,
    max_threads: usize,
) -> (r: Result<DispatchPlan, MetalKernelError>)
    requires
        n >= 1,
        max_threads >= 1,
    ensures
        r is Ok <==> spec_dequant_dtype_supported(ty),
        match r {
            Ok(plan) => {
                &&& plan.source == Source::BnbDequant
                &&& plan.kernel_name@ == spec_dequant_8bit_name(ty)
                &&& plan.params@ == spec_dequant_row_params(
                    weight_offset as int,
                    scb_offset as int,
                    row as int,
                    col as int,
                    n as int,
                )
                &&& plan.grid == (GridDims {
                    width: spec_div_ceil(n as int, spec_min(max_threads as int, n as int)) as u64,
                    height: 1,
                    depth: 1,
                })
                &&& plan.group == (GridDims {
                    width: spec_min(max_threads as int, n as int) as u64,
                    height: 1,
                    depth: 1,
                })
                &&& plan.reads@ == Seq::<BufferRole>::empty()
                &&& plan.writes@ == Seq::<BufferRole>::empty()
            },
            Err(e) => (e matches MetalKernelError::DTypeMismatch { expected, got } && expected@
                == spec_dequant_expected_dtypes() && got == ty),
        },
{
    let name = match resolve_dequant_8bit(ty) {
        Ok(nm) => nm,
        Err(e) => {
            return Err(e);
        },
    };
    let (grid, group) = linear_split(max_threads, n);
    let mut params: Vec<ParamDesc> = Vec::new();
    params.push(ParamDesc::Buf(BufferRole::Weight, weight_offset));
    params.push(ParamDesc::Buf(BufferRole::Scb, scb_offset));
    params.push(ParamDesc::Buf(BufferRole::Output, 0));
    params.push(ParamDesc::Usize(row));
    params.push(ParamDesc::Usize(col));
    params.push(ParamDesc::Usize(n));
    proof {
        assert(params@ =~= spec_dequant_row_params(
            weight_offset as int,
            scb_offset as int,
            row as int,
            col as int,
            n as int,
        ));
    }
    Ok(DispatchPlan {
        source: Source::BnbDequant,
        kernel_name: name.to_owned(),
        params,
        grid,
        group,
        reads: Vec::new(),
        writes: Vec::new(),
    })
}

/// Ceiling division on `usize` with an overflow-safe body.
fn div_ceil_usize(a: usize, b: usize) -> (r: usize)
    requires
        b >= 1,
        a < usize::MAX,
    ensures
        r == spec_div_ceil(a as int, b as int),
{
    let q: usize = a / b;
    let rem: usize = a % b;
    if rem != 0 {
        proof {
            assert(q + 1 == spec_div_ceil(a as int, b as int)) by (nonlinear_arith)
                requires
                    b >= 1,
                    q == a as int / b as int,
                    a as int % b as int != 0,
            ;
        }
        q + 1
    } else {
        proof {
            assert(q == spec_div_ceil(a as int, b as int)) by (nonlinear_arith)
                requires
                    b >= 1,
                    q == a as int / b as int,
                    a as int % b as int == 0,
            ;
        }
        q
    }
}

/// The scale the kernel receives: when soft-capping is enabled (its
/// value is not one), the scale is pre-divided by the cap so that
/// "scale, then cap" reduces to "scale, then a fixed cap kernel".
pub open spec fn spec_effective_alpha(alpha_bits: u32, softcapping_bits: u32) -> F32Scalar {
    if softcapping_bits != F32_ONE_BITS {
        F32Scalar::Quot(alpha_bits, softcapping_bits)
    } else {
        F32Scalar::Bits(alpha_bits)
    }
}

fn effective_alpha(alpha_bits: u32, softcapping_bits: u32) -> (r: F32Scalar)
    ensures
        r == spec_effective_alpha(alpha_bits, softcapping_bits),
{
    if softcapping_bits != F32_ONE_BITS {
        F32Scalar::Quot(alpha_bits, softcapping_bits)
    } else {
        F32Scalar::Bits(alpha_bits)
    }
}

/// The parameter list of a single-pass vector attention dispatch.
pub open spec fn spec_sdpa_vector_params(
    q_offset: int,
    k_offset: int,
    v_offset: int,
    gqa_factor: int,
    n: int,
    kstride: int,
    vstride: int,
    alpha_bits: u32,
    softcapping_bits: u32,
) -> Seq<ParamDesc> {
    seq![
        ParamDesc::Buf(BufferRole::Query, q_offset as usize),
        ParamDesc::Buf(BufferRole::Key, k_offset as usize),
        ParamDesc::Buf(BufferRole::Value, v_offset as usize),
        ParamDesc::Buf(BufferRole::Output, 0usize),
        ParamDesc::I32(gqa_factor as i32),
        ParamDesc::I32(n as i32),
        ParamDesc::Usize(kstride as usize),
        ParamDesc::Usize(vstride as usize),
        ParamDesc::F32(spec_effective_alpha(alpha_bits, softcapping_bits)),
        ParamDesc::F32(F32Scalar::Bits(softcapping_bits)),
    ]
}

/// Plans single-pass vector attention: one threadgroup row per
/// flattened batch-and-query-head, with the kernel doing an online
/// softmax reduction over the whole key length. Query shape is
/// (batch, query heads, sequence, head dim); key/value shapes are
/// (batch, kv heads, kv sequence, head dim). Soft-capping of one is
/// the disabled sentinel; zero is rejected as undefined.
pub fn call_sdpa_vector(
    q_offset: usize,
    q_shape: &Vec<usize>,
    k_offset: usize,
    k_shape: &Vec<usize>,
    k_stride: &Vec<usize>,
    v_offset: usize,
    v_stride: &Vec<usize>,
    alpha_bits: u32,
    softcapping_bits: u32,
    itype: SdpaDType,
) -> (r: Result<DispatchPlan, MetalKernelError>)
    requires
        q_shape@.len() == 4,
        k_shape@.len() == 4,
        k_stride@.len() >= 2,
        v_stride@.len() >= 2,
        k_shape@[1] >= 1,
        q_shape@[1] <= i32::MAX,
        k_shape@[2] <= i32::MAX,
        q_shape@[0] * q_shape@[1] <= i32::MAX,
        softcapping_bits != 0x0000_0000u32,
        softcapping_bits != 0x8000_0000u32,
    ensures
        r is Ok <==> spec_sdpa_head_dim_supported(q_shape@[3]),
        match r {
            Ok(plan) => {
                &&& plan.source == Source::Sdpa
                &&& plan.kernel_name@ == spec_sdpa_vector_name(q_shape@[3], itype)
                &&& plan.params@ == spec_sdpa_vector_params(
                    q_offset as int,
                    k_offset as int,
                    v_offset as int,
                    q_shape@[1] as int / k_shape@[1] as int,
                    k_shape@[2] as int,
                    k_stride@[1] as int,
                    v_stride@[1] as int,
                    alpha_bits,
                    softcapping_bits,
                )
                &&& plan.grid == (GridDims {
                    width: 1,
                    height: (q_shape@[0] * q_shape@[1]) as u64,
                    depth: 1,
                })
                &&& plan.group == (GridDims { width: 1024, height: 1, depth: 1 })
                &&& plan.reads@ == seq![BufferRole::Query, BufferRole::Key, BufferRole::Value]
                &&& plan.writes@ == seq![BufferRole::Output]
            },
            Err(e) => (e matches MetalKernelError::SdpaHeadSizeMismatch { variation, got, expected }
                && variation == SdpaVariation::Vector && got == q_shape@[3] && expected@
                == spec_sdpa_head_dims()),
        },
{
    let bk = q_shape[3];
    let name = match resolve_sdpa_vector(bk, itype) {
        Ok(nm) => nm,
        Err(e) => {
            return Err(e);
        },
    };
    let gqa_factor: usize = q_shape[1] / k_shape[1];
    let n: usize = k_shape[2];
    let b: usize = q_shape[0] * q_shape[1];
    let kstride: usize = k_stride[1];
    let vstride: usize = v_stride[1];
    let alpha = effective_alpha(alpha_bits, softcapping_bits);
    let mut params: Vec<ParamDesc> = Vec::new();
    params.push(ParamDesc::Buf(BufferRole::Query, q_offset));
    params.push(ParamDesc::Buf(BufferRole::Key, k_offset));
    params.push(ParamDesc::Buf(BufferRole::Value, v_offset));
    params.push(ParamDesc::Buf(BufferRole::Output, 0));
    params.push(ParamDesc::I32(gqa_factor as i32));
    params.push(ParamDesc::I32(n as i32));
    params.push(ParamDesc::Usize(kstride));
    params.push(ParamDesc::Usize(vstride));
    params.push(ParamDesc::F32(alpha));
    params.push(ParamDesc::F32(F32Scalar::Bits(softcapping_bits)));
    proof {
        assert(params@ =~= spec_sdpa_vector_params(
            q_offset as int,
            k_offset as int,
            v_offset as int,
            q_shape@[1] as int / k_shape@[1] as int,
            k_shape@[2] as int,
            k_stride@[1] as int,
            v_stride@[1] as int,
            alpha_bits,
            softcapping_bits,
        ));
    }
    let mut reads: Vec<BufferRole> = Vec::new();
    reads.push(BufferRole::Query);
    reads.push(BufferRole::Key);
    reads.push(BufferRole::Value);
    let mut writes: Vec<BufferRole> = Vec::new();
    writes.push(BufferRole::Output);
    proof {
        assert(reads@ =~= seq![BufferRole::Query, BufferRole::Key, BufferRole::Value]);
        assert(writes@ =~= seq![BufferRole::Output]);
    }
    Ok(DispatchPlan {
        source: Source::Sdpa,
        kernel_name: name.to_owned(),
        params,
        grid: GridDims { width: 1, height: b as u64, depth: 1 },
        group: GridDims { width: 1024, height: 1, depth: 1 },
        reads,
        writes,
    })
}

/// The parameter list of the first pass of two-pass vector attention:
/// as the single pass, but writing partial outputs, partial softmax
/// sums and partial running maxima instead of the final output.
pub open spec fn spec_sdpa_2pass1_params(
    q_offset: int,
    k_offset: int,
    v_offset: int,
    gqa_factor: int,
    n: int,
    kstride: int,
    vstride: int,
    alpha_bits: u32,
    softcapping_bits: u32,
) -> Seq<ParamDesc> {
    seq![
        ParamDesc::Buf(BufferRole::Query, q_offset as usize),
        ParamDesc::Buf(BufferRole::Key, k_offset as usize),
        ParamDesc::Buf(BufferRole::Value, v_offset as usize),
        ParamDesc::Buf(BufferRole::Intermediate, 0usize),
        ParamDesc::Buf(BufferRole::Sums, 0usize),
        ParamDesc::Buf(BufferRole::Maxs, 0usize),
        ParamDesc::I32(gqa_factor as i32),
        ParamDesc::I32(n as i32),
        ParamDesc::Usize(kstride as usize),
        ParamDesc::Usize(vstride as usize),
        ParamDesc::F32(spec_effective_alpha(alpha_bits, softcapping_bits)),
        ParamDesc::F32(F32Scalar::Bits(softcapping_bits)),
    ]
}

/// The parameter list of the second (merge) pass: the partials and the
/// final output.
pub open spec fn spec_sdpa_2pass2_params() -> Seq<ParamDesc> {
    seq![
        ParamDesc::Buf(BufferRole::Intermediate, 0usize),
        ParamDesc::Buf(BufferRole::Sums, 0usize),
        ParamDesc::Buf(BufferRole::Maxs, 0usize),
        ParamDesc::Buf(BufferRole::Output, 0usize),
    ]
}

/// Plans two-pass vector attention. The key sequence is split into
/// `SDPA_2PASS_BLOCKS` blocks: the first pass launches one threadgroup
/// per (batch-and-head, block) pair and produces a partial output,
/// softmax sum and running maximum per block; the second launches one
/// threadgroup per batch-and-head and merges the partials. The second
/// dispatch depends on the first and is ordered after it; no host
/// readback happens between them.
pub fn call_sdpa_vector_2pass(
    q_offset: usize,
    q_shape: &Vec<usize>,
    k_offset: usize,
    k_shape: &Vec<usize>,
    k_stride: &Vec<usize>,
    v_offset: usize,
    v_stride: &Vec<usize>,
    alpha_bits: u32,
    softcapping_bits: u32,
    itype: SdpaDType,
) -> (r: Result<TwoPassPlan, MetalKernelError>)
    requires
        q_shape@.len() == 4,
        k_shape@.len() == 4,
        k_stride@.len() >= 2,
        v_stride@.len() >= 2,
        k_shape@[1] >= 1,
        q_shape@[1] <= i32::MAX,
        k_shape@[2] <= i32::MAX,
        q_shape@[0] * q_shape@[1] <= i32::MAX,
        softcapping_bits != 0x0000_0000u32,
        softcapping_bits != 0x8000_0000u32,
    ensures
        r is Ok <==> spec_sdpa_head_dim_supported(q_shape@[3]),
        match r {
            Ok(plan) => {
                &&& plan.pass1.source == Source::Sdpa
                &&& plan.pass1.kernel_name@ == spec_sdpa_vector_2pass_1_name(q_shape@[3], itype)
                &&& plan.pass1.params@ == spec_sdpa_2pass1_params(
                    q_offset as int,
                    k_offset as int,
                    v_offset as int,
                    q_shape@[1] as int / k_shape@[1] as int,
                    k_shape@[2] as int,
                    k_stride@[1] as int,
                    v_stride@[1] as int,
                    alpha_bits,
                    softcapping_bits,
                )
                &&& plan.pass1.grid == (GridDims {
                    width: 1,
                    height: (q_shape@[0] * q_shape@[1]) as u64,
                    depth: SDPA_2PASS_BLOCKS as u64,
                })
                &&& plan.pass1.group == (GridDims { width: 256, height: 1, depth: 1 })
                &&& plan.pass1.reads@ == seq![BufferRole::Query, BufferRole::Key, BufferRole::Value]
                &&& plan.pass1.writes@ == seq![
                    BufferRole::Intermediate,
                    BufferRole::Sums,
                    BufferRole::Maxs,
                ]
                &&& plan.pass2.source == Source::Sdpa
                &&& plan.pass2.kernel_name@ == spec_sdpa_vector_2pass_2_name(q_shape@[3], itype)
                &&& plan.pass2.params@ == spec_sdpa_2pass2_params()
                &&& plan.pass2.grid == (GridDims {
                    width: 1,
                    height: (q_shape@[0] * q_shape@[1]) as u64,
                    depth: 1,
                })
                &&& plan.pass2.group == (GridDims { width: 1024, height: 1, depth: 1 })
                &&& plan.pass2.reads@ == Seq::<BufferRole>::empty()
                &&& plan.pass2.writes@ == seq![
                    BufferRole::Intermediate,
                    BufferRole::Sums,
                    BufferRole::Maxs,
                    BufferRole::Output,
                ]
            },
            Err(e) => (e matches MetalKernelError::SdpaHeadSizeMismatch { variation, got, expected }
                && variation == SdpaVariation::Vector2Pass1 && got == q_shape@[3] && expected@
                == spec_sdpa_head_dims()),
        },
{
    let bk = q_shape[3];
    let name1 = match resolve_sdpa_vector_2pass_1(bk, itype) {
        Ok(nm) => nm,
        Err(e) => {
            return Err(e);
        },
    };
    let name2 = match resolve_sdpa_vector_2pass_2(bk, itype) {
        Ok(nm) => nm,
        Err(e) => {
            return Err(e);
        },
    };
    let gqa_factor: usize = q_shape[1] / k_shape[1];
    let n: usize = k_shape[2];
    let b: usize = q_shape[0] * q_shape[1];
    let kstride: usize = k_stride[1];
    let vstride: usize = v_stride[1];
    let alpha = effective_alpha(alpha_bits, softcapping_bits);
    let mut params1: Vec<ParamDesc> = Vec::new();
    params1.push(ParamDesc::Buf(BufferRole::Query, q_offset));
    params1.push(ParamDesc::Buf(BufferRole::Key, k_offset));
    params1.push(ParamDesc::Buf(BufferRole::Value, v_offset));
    params1.push(ParamDesc::Buf(BufferRole::Intermediate, 0));
    params1.push(ParamDesc::Buf(BufferRole::Sums, 0));
    params1.push(ParamDesc::Buf(BufferRole::Maxs, 0));
    params1.push(ParamDesc::I32(gqa_factor as i32));
    params1.push(ParamDesc::I32(n as i32));
    params1.push(ParamDesc::Usize(kstride));
    params1.push(ParamDesc::Usize(vstride));
    params1.push(ParamDesc::F32(alpha));
    params1.push(ParamDesc::F32(F32Scalar::Bits(softcapping_bits)));
    proof {
        assert(params1@ =~= spec_sdpa_2pass1_params(
            q_offset as int,
            k_offset as int,
            v_offset as int,
            q_shape@[1] as int / k_shape@[1] as int,
            k_shape@[2] as int,
            k_stride@[1] as int,
            v_stride@[1] as int,
            alpha_bits,
            softcapping_bits,
        ));
    }
    let mut reads1: Vec<BufferRole> = Vec::new();
    reads1.push(BufferRole::Query);
    reads1.push(BufferRole::Key);
    reads1.push(BufferRole::Value);
    let mut writes1: Vec<BufferRole> = Vec::new();
    writes1.push(BufferRole::Intermediate);
    writes1.push(BufferRole::Sums);
    writes1.push(BufferRole::Maxs);
    let pass1 = DispatchPlan {
        source: Source::Sdpa,
        kernel_name: name1.to_owned(),
        params: params1,
        grid: GridDims { width: 1, height: b as u64, depth: SDPA_2PASS_BLOCKS as u64 },
        group: GridDims { width: 256, height: 1, depth: 1 },
        reads: reads1,
        writes: writes1,
    };
    let mut params2: Vec<ParamDesc> = Vec::new();
    params2.push(ParamDesc::Buf(BufferRole::Intermediate, 0));
    params2.push(ParamDesc::Buf(BufferRole::Sums, 0));
    params2.push(ParamDesc::Buf(BufferRole::Maxs, 0));
    params2.push(ParamDesc::Buf(BufferRole::Output, 0));
    let mut writes2: Vec<BufferRole> = Vec::new();
    writes2.push(BufferRole::Intermediate);
    writes2.push(BufferRole::Sums);
    writes2.push(BufferRole::Maxs);
    writes2.push(BufferRole::Output);
    let pass2 = DispatchPlan {
        source: Source::Sdpa,
        kernel_name: name2.to_owned(),
        params: params2,
        grid: GridDims { width: 1, height: b as u64, depth: 1 },
        group: GridDims { width: 1024, height: 1, depth: 1 },
        reads: Vec::new(),
        writes: writes2,
    };
    proof {
        assert(pass1.reads@ =~= seq![BufferRole::Query, BufferRole::Key, BufferRole::Value]);
        assert(pass1.writes@ =~= seq![
            BufferRole::Intermediate,
            BufferRole::Sums,
            BufferRole::Maxs,
        ]);
        assert(pass2.params@ =~= spec_sdpa_2pass2_params());
        assert(pass2.reads@ =~= Seq::<BufferRole>::empty());
        assert(pass2.writes@ =~= seq![
            BufferRole::Intermediate,
            BufferRole::Sums,
            BufferRole::Maxs,
            BufferRole::Output,
        ]);
    }
    Ok(TwoPassPlan { pass1, pass2 })
}

/// The parameter block of a full-attention dispatch, computed from the
/// query shape (batch, heads, sequence, head dim) with the fixed
/// 16-wide tile geometry: square score tiles over the sequence, unit
/// leading strides scaled by the head dimension, per-batch strides of
/// one whole (sequence, head dim) plane, swizzling disabled, and
/// iteration counts by ceiling division of the dimensions by the tile
/// sizes.
pub open spec fn spec_sdpa_full_attn_params(
    q_shape: Seq<usize>,
    alpha_bits: u32,
    softcapping_bits: u32,
) -> FullAttnParams {
    let m = q_shape[2] as int;
    let k = q_shape[3] as int;
    FullAttnParams {
        m: m as i32,
        n: m as i32,
        k: k as i32,
        ldq: k as i32,
        ldk: k as i32,
        ldv: k as i32,
        lds: 16,
        ldo: k as i32,
        tiles_n: 1,
        tiles_m: spec_div_ceil(m, 16) as i32,
        batch_stride_q: (k * m) as i32,
        batch_stride_k: (k * m) as i32,
        batch_stride_v: (k * m) as i32,
        batch_stride_o: (k * m) as i32,
        swizzle_log: 0,
        gemm_n_iterations_aligned: spec_div_ceil(m, 16) as i32,
        gemm_k_iterations_aligned: spec_div_ceil(k, k) as i32,
        gemm_sv_m_block_iterations: spec_div_ceil(m, 16) as i32,
        batch_ndim: 1,
        alpha: spec_effective_alpha(alpha_bits, softcapping_bits),
        softcapping: softcapping_bits,
    }
}

/// The parameter list of a full-attention dispatch: the four buffers,
/// the parameter block, the flattened batch shape and the four batch
/// strides.
pub open spec fn spec_sdpa_full_params(
    q_shape: Seq<usize>,
    q_offset: int,
    k_offset: int,
    v_offset: int,
    alpha_bits: u32,
    softcapping_bits: u32,
) -> Seq<ParamDesc> {
    let bstride = (q_shape[3] * q_shape[2]) as usize;
    seq![
        ParamDesc::Buf(BufferRole::Query, q_offset as usize),
        ParamDesc::Buf(BufferRole::Key, k_offset as usize),
        ParamDesc::Buf(BufferRole::Value, v_offset as usize),
        ParamDesc::Buf(BufferRole::Output, 0usize),
        ParamDesc::AttnParams(spec_sdpa_full_attn_params(q_shape, alpha_bits, softcapping_bits)),
        ParamDesc::Shape1((q_shape[0] * q_shape[1]) as usize),
        ParamDesc::Strides4(bstride, bstride, bstride, bstride),
    ]
}

/// Plans full (tiled) attention over a query of shape (batch, heads,
/// sequence, head dim), with key and value of the same shape: a 16 by
/// 16 score tile with a 2 by 2 warp arrangement, a grid of one column
/// of row tiles per flattened batch-and-head, and the parameter block
/// of `spec_sdpa_full_attn_params`. Soft-capping of one is the
/// disabled sentinel; zero is rejected as undefined.
pub fn call_sdpa_full(
    q_offset: usize,
    q_shape: &Vec<usize>,
    k_offset: usize,
    v_offset: usize,
    alpha_bits: u32,
    softcapping_bits: u32,
    itype: SdpaDType,
) -> (r: Result<DispatchPlan, MetalKernelError>)
    requires
        q_shape@.len() == 4,
        q_shape@[2] <= i32::MAX,
        q_shape@[3] * q_shape@[2] <= i32::MAX,
        q_shape@[0] * q_shape@[1] <= usize::MAX,
        softcapping_bits != 0x0000_0000u32,
        softcapping_bits != 0x8000_0000u32,
    ensures
        r is Ok <==> spec_sdpa_head_dim_supported(q_shape@[3]),
        match r {
            Ok(plan) => {
                &&& plan.source == Source::Sdpa
                &&& plan.kernel_name@ == spec_sdpa_full_name(q_shape@[3], itype)
                &&& plan.params@ == spec_sdpa_full_params(
                    q_shape@,
                    q_offset as int,
                    k_offset as int,
                    v_offset as int,
                    alpha_bits,
                    softcapping_bits,
                )
                &&& plan.grid == (GridDims {
                    width: 1,
                    height: spec_div_ceil(q_shape@[2] as int, 16) as u64,
                    depth: (q_shape@[0] * q_shape@[1]) as u64,
                })
                &&& plan.group == (GridDims { width: 32, height: 2, depth: 2 })
                &&& plan.reads@ == seq![BufferRole::Query, BufferRole::Key, BufferRole::Value]
                &&& plan.writes@ == seq![BufferRole::Output]
            },
            Err(e) => {
                &&& (itype != SdpaDType::BF16 ==> (e
                    matches MetalKernelError::SdpaHeadSizeMismatch { variation, got, expected }
                    && variation == SdpaVariation::Full && got == q_shape@[3] && expected@
                    == spec_sdpa_head_dims()))
                &&& (itype == SdpaDType::BF16 ==> e == (MetalKernelError::SdpaHeadDTypeMismatch {
                    variation: SdpaVariation::Full,
                    got: SdpaDType::BF16,
                }))
            },
        },
{
    let bk = q_shape[3];
    let name = match resolve_sdpa_full(bk, itype) {
        Ok(nm) => nm,
        Err(e) => {
            return Err(e);
        },
    };
    let m: usize = q_shape[2];
    let k: usize = q_shape[3];
    let bs_out: usize = q_shape[0] * q_shape[1];
    let tm: usize = div_ceil_usize(m, 16);
    let gemm_k_iters: usize = div_ceil_usize(k, bk);
    let b_stride: usize = k * m;
    let alpha = effective_alpha(alpha_bits, softcapping_bits);
    let attn_params = FullAttnParams {
        m: m as i32,
        n: m as i32,
        k: k as i32,
        ldq: k as i32,
        ldk: k as i32,
        ldv: k as i32,
        lds: 16,
        ldo: k as i32,
        tiles_n: 1,
        tiles_m: tm as i32,
        batch_stride_q: b_stride as i32,
        batch_stride_k: b_stride as i32,
        batch_stride_v: b_stride as i32,
        batch_stride_o: b_stride as i32,
        swizzle_log: 0,
        gemm_n_iterations_aligned: tm as i32,
        gemm_k_iterations_aligned: gemm_k_iters as i32,
        gemm_sv_m_block_iterations: tm as i32,
        batch_ndim: 1,
        alpha,
        softcapping: softcapping_bits,
    };
    let mut params: Vec<ParamDesc> = Vec::new();
    params.push(ParamDesc::Buf(BufferRole::Query, q_offset));
    params.push(ParamDesc::Buf(BufferRole::Key, k_offset));
    params.push(ParamDesc::Buf(BufferRole::Value, v_offset));
    params.push(ParamDesc::Buf(BufferRole::Output, 0));
    params.push(ParamDesc::AttnParams(attn_params));
    params.push(ParamDesc::Shape1(bs_out));
    params.push(ParamDesc::Strides4(b_stride, b_stride, b_stride, b_stride));
    proof {
        assert(params@ =~= spec_sdpa_full_params(
            q_shape@,
            q_offset as int,
            k_offset as int,
            v_offset as int,
            alpha_bits,
            softcapping_bits,
        ));
    }
    let mut reads: Vec<BufferRole> = Vec::new();
    reads.push(BufferRole::Query);
    reads.push(BufferRole::Key);
    reads.push(BufferRole::Value);
    let mut writes: Vec<BufferRole> = Vec::new();
    writes.push(BufferRole::Output);
    proof {
        assert(reads@ =~= seq![BufferRole::Query, BufferRole::Key, BufferRole::Value]);
        assert(writes@ =~= seq![BufferRole::Output]);
    }
    Ok(DispatchPlan {
        source: Source::Sdpa,
        kernel_name: name.to_owned(),
        params,
        grid: GridDims { width: 1, height: tm as u64, depth: bs_out as u64 },
        group: GridDims { width: 32, height: 2, depth: 2 },
        reads,
        writes,
    })
}

} // verus!
