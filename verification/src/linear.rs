use crate::dtype::{BnbDType, BnbQuantType, DType};
use crate::error::QuantError;
use crate::metadata::{parse_quant_metadata, spec_parse_quant_metadata, Decimal};
use crate::params::{spec_params_on_device, spec_params_view, BnbQuantParmas, BnbQuantParmasView};
use crate::tensor::{
    spec_numel, checked_numel, Device, TensorData, TensorDataView, TensorModel, TensorView,
};
use vstd::prelude::*;

verus! {

/// The block sizes the dequantization kernels support.
pub open spec fn spec_blocksize_supported(bs: usize) -> bool {
    bs == 64 || bs == 128 || bs == 256 || bs == 512 || bs == 1024 || bs == 2048 || bs == 4096
}

/// Whether `bs` is one of the supported block sizes.
pub fn blocksize_supported(bs: usize) -> (r: bool)
    ensures
        r == spec_blocksize_supported(bs),
{
    bs == 64 || bs == 128 || bs == 256 || bs == 512 || bs == 1024 || bs == 2048 || bs == 4096
}

/// One step of a dequantization plan, to be run in order on the
/// stored tensors by the device backend.
#[derive(Debug, Clone, Copy, PartialEq, Eq, Structural)]
pub enum DequantOp {
    /// Run the blockwise dequantization kernel of `quant_ty`: look
    /// each of the `n` output codes up in the code table and scale by
    /// its block's resolved scale value (block = index / blocksize).
    Kernel { quant_ty: BnbQuantType, n: usize, blocksize: usize, out_dtype: BnbDType },
    /// Add the nested offset elementwise to the just-dequantized scale
    /// table.
    AddOffset(Decimal),
    /// Run the row-scaled 8-bit dequantization kernel: scale each of
    /// `rows` by `cols` signed entries by its row's scale.
    RowScaled { rows: usize, cols: usize, out_dtype: DType },
    /// Convert the reconstructed tensor elementwise to `out_dtype`.
    Convert(DType),
}

/// The descriptor-level outcome of planning one recursive
/// dequantization: the ordered device steps and the output tensor.
pub open spec fn spec_dequantize_4bit(
    input: TensorView,
    params: BnbQuantParmasView,
    quant_ty: BnbQuantType,
) -> Result<(Seq<DequantOp>, TensorView), QuantError>
    decreases params,
{
    match params.nested {
        Some(n) => match spec_dequantize_4bit(params.absmax, *n, BnbQuantType::Int8) {
            Err(e) => Err(e),
            Ok((ops0, _scales)) => match params.offset {
                None => Err(QuantError::MissingOffset),
                Some(d) => spec_dequant_finish(
                    input,
                    params,
                    quant_ty,
                    ops0.push(DequantOp::AddOffset(d)),
                ),
            },
        },
        None => spec_dequant_finish(input, params, quant_ty, Seq::<DequantOp>::empty()),
    }
}

/// The final reconstruction step: validate the block size, resolve the
/// output shape, and emit the kernel step.
pub open spec fn spec_dequant_finish(
    input: TensorView,
    params: BnbQuantParmasView,
    quant_ty: BnbQuantType,
    ops: Seq<DequantOp>,
) -> Result<(Seq<DequantOp>, TensorView), QuantError> {
    if !spec_blocksize_supported(params.blocksize) {
        Err(QuantError::BlockSizeUnsupported { got: params.blocksize })
    } else {
        let out_shape = match params.shape {
            Some(sh) => sh,
            None => input.shape,
        };
        let n = spec_numel(out_shape);
        if n > usize::MAX {
            Err(QuantError::SizeOverflow)
        } else if n as int % params.blocksize as int != 0 {
            Err(QuantError::ShapeMismatch)
        } else if n * params.dtype.spec_dtype().spec_size_in_bytes() > usize::MAX {
            Err(QuantError::SizeOverflow)
        } else {
            Ok(
                (
                    ops.push(
                        DequantOp::Kernel {
                            quant_ty,
                            n: n as usize,
                            blocksize: params.blocksize,
                            out_dtype: params.dtype,
                        },
                    ),
                    TensorView {
                        dtype: params.dtype.spec_dtype(),
                        shape: out_shape,
                        device: input.device,
                        data: TensorDataView::Opaque,
                    },
                ),
            )
        }
    }
}

impl BnbLinear {
    /// Plans the dequantization of a packed tensor against its
    /// parameters. When the scale table is itself quantized, its own
    /// dequantization (always through the blockwise 8-bit kind) is planned
    /// first and the nested offset is added; the block size is then
    /// validated against the supported set and one kernel step is emitted.
    /// No device step is returned on any error.
    pub fn dequantize_4bit(
        input: &TensorModel,
        params: &BnbQuantParmas,
        quant_ty: BnbQuantType,
    ) -> (r: Result<(Vec<DequantOp>, TensorModel), QuantError>)
        ensures
            match r {
                Ok((ops, out)) => {
                    &&& spec_dequantize_4bit(input@, params@, quant_ty) == Ok::<_, QuantError>(
                        (ops@, out@),
                    )
                    &&& out.wf()
                    &&& out.numel == spec_numel(out@.shape)
                },
                Err(e) => spec_dequantize_4bit(input@, params@, quant_ty) == Err::<
                    (Seq<DequantOp>, TensorView),
                    QuantError,
                >(e),
            },
        decreases *params,
    {
        let mut ops: Vec<DequantOp> = Vec::new();
        match &params.nested {
            Some(nested) => {
                let (ops0, _scales) = match Self::dequantize_4bit(&params.absmax, nested, BnbQuantType::Int8) {
                    Ok(x) => x,
                    Err(e) => {
                        return Err(e);
                    },
                };
                ops = ops0;
                match params.offset {
                    None => {
                        return Err(QuantError::MissingOffset);
                    },
                    Some(d) => {
                        ops.push(DequantOp::AddOffset(d));
                    },
                }
            },
            None => {
                proof {
                    assert(ops@ =~= Seq::<DequantOp>::empty());
                }
            },
        }
        if !blocksize_supported(params.blocksize) {
            return Err(QuantError::BlockSizeUnsupported { got: params.blocksize });
        }
        let out_shape: Vec<usize> = match &params.shape {
            Some(sh) => {
                let c = sh.clone();
                proof {
                    assert forall|i: int| 0 <= i < sh@.len() implies c@[i] == sh@[i] by {
                        assert(cloned::<usize>(sh@[i], c@[i]));
                    }
                    assert(c@ =~= sh@);
                }
                c
            },
            None => {
                let c = input.shape.clone();
                proof {
                    assert forall|i: int| 0 <= i < input.shape@.len() implies c@[i]
                        == input.shape@[i] by {
                        assert(cloned::<usize>(input.shape@[i], c@[i]));
                    }
                    assert(c@ =~= input.shape@);
                }
                c
            },
        };
        let n = match checked_numel(&out_shape) {
            Some(n) => n,
            None => {
                return Err(QuantError::SizeOverflow);
            },
        };
        if n % params.blocksize != 0 {
            return Err(QuantError::ShapeMismatch);
        }
        let out_dtype: DType = DType::from(params.dtype);
        let out = match TensorModel::new(out_dtype, out_shape, input.device, TensorData::Opaque) {
            Ok(t) => t,
            Err(_) => {
                return Err(QuantError::SizeOverflow);
            },
        };
        ops.push(
            DequantOp::Kernel {
                quant_ty,
                n,
                blocksize: params.blocksize,
                out_dtype: params.dtype,
            },
        );
        Ok((ops, out))
    }
}

/// A plan that ends in an output tensor was planned under a supported
/// block size.
pub proof fn lemma_dequant_ok_blocksize(
    input: TensorView,
    params: BnbQuantParmasView,
    quant_ty: BnbQuantType,
    ops: Seq<DequantOp>,
    out: TensorView,
)
    requires
        spec_dequantize_4bit(input, params, quant_ty) == Ok::<_, QuantError>((ops, out)),
    ensures
        spec_blocksize_supported(params.blocksize),
{
}

/// The planned output tensor has the target shape when one is given
/// and the input's shape otherwise, the configured element type, and
/// an element count that is the product of that shape, divisible by
/// the block size.
pub proof fn lemma_dequant_output_shape(
    input: TensorView,
    params: BnbQuantParmasView,
    quant_ty: BnbQuantType,
    ops: Seq<DequantOp>,
    out: TensorView,
)
    requires
        spec_dequantize_4bit(input, params, quant_ty) == Ok::<_, QuantError>((ops, out)),
    ensures
        out.shape == (match params.shape {
            Some(sh) => sh,
            None => input.shape
        }),
        out.dtype == params.dtype.spec_dtype(),
        out.device == input.device,
        spec_numel(out.shape) <= usize::MAX,
        spec_numel(out.shape) as int % params.blocksize as int == 0,
{
}

/// An unsupported block size fails with exactly the
/// block-size-unsupported error naming it, so no device step is ever
/// produced for it. This holds for every parameter set whose nested
/// chain, when one is present, itself plans successfully with its
/// offset in place; a malformed chain's own error surfaces first,
/// since the scale table is reconstructed before the block size of the
/// outer reconstruction is validated.
pub proof fn lemma_unsupported_blocksize_rejected(
    input: TensorView,
    params: BnbQuantParmasView,
    quant_ty: BnbQuantType,
)
    requires
        match params.nested {
            Some(q) => params.offset is Some && spec_dequantize_4bit(
                params.absmax,
                *q,
                BnbQuantType::Int8,
            ) is Ok,
            None => true,
        },
        !spec_blocksize_supported(params.blocksize),
    ensures
        spec_dequantize_4bit(input, params, quant_ty) == Err::<
            (Seq<DequantOp>, TensorView),
            QuantError,
        >(QuantError::BlockSizeUnsupported { got: params.blocksize }),
{
}

/// Dequantizing through a one-level nested chain is transparent: it
/// plans the nested scale reconstruction and the offset addition in
/// front, and then produces exactly the steps and the output tensor
/// that directly supplying the already-dequantized scale table (the
/// same parameters with the chain and offset removed) would produce.
pub proof fn lemma_nested_transparent(
    input: TensorView,
    p: BnbQuantParmasView,
    q: BnbQuantParmasView,
    d: Decimal,
    p2: BnbQuantParmasView,
    quant_ty: BnbQuantType,
    ops0: Seq<DequantOp>,
    scales: TensorView,
)
    requires
        p.nested == Some(Box::new(q)),
        p.offset == Some(d),
        spec_dequantize_4bit(p.absmax, q, BnbQuantType::Int8) == Ok::<_, QuantError>(
            (ops0, scales),
        ),
        p2.nested is None,
        p2.offset is None,
        p2.blocksize == p.blocksize,
        p2.shape == p.shape,
        p2.dtype == p.dtype,
    ensures
        spec_dequantize_4bit(input, p, quant_ty) == match spec_dequantize_4bit(
            input,
            p2,
            quant_ty,
        ) {
            Ok((ops2, out2)) => Ok::<_, QuantError>(
                (ops0.push(DequantOp::AddOffset(d)) + ops2, out2),
            ),
            Err(e) => Err(e),
        },
{
    let pre = ops0.push(DequantOp::AddOffset(d));
    assert(spec_dequantize_4bit(input, p, quant_ty) == spec_dequant_finish(
        input,
        p,
        quant_ty,
        pre,
    ));
    assert(spec_dequantize_4bit(input, p2, quant_ty) == spec_dequant_finish(
        input,
        p2,
        quant_ty,
        Seq::<DequantOp>::empty(),
    ));
    if spec_blocksize_supported(p.blocksize) {
        let out_shape = match p.shape {
            Some(sh) => sh,
            None => input.shape,
        };
        let n = spec_numel(out_shape);
        if n <= usize::MAX && n as int % p.blocksize as int == 0 && n
            * p.dtype.spec_dtype().spec_size_in_bytes() <= usize::MAX {
            let kernel = DequantOp::Kernel {
                quant_ty,
                n: n as usize,
                blocksize: p.blocksize,
                out_dtype: p.dtype,
            };
            assert(pre + Seq::<DequantOp>::empty().push(kernel) =~= pre.push(kernel));
        }
    }
}

/// One named tensor of a checkpoint.
#[derive(Debug)]
pub struct CkptEntry {
    pub name: String,
    pub tensor: TensorModel,
}

/// The named tensors a checkpoint exposes, in file order. The layer
/// factory probes this to decide which storage variant applies.
#[derive(Debug)]
pub struct Checkpoint {
    pub entries: Vec<CkptEntry>,
}

/// The first entry named `name`, scanning from position `i`.
pub open spec fn spec_lookup_from(entries: Seq<CkptEntry>, i: int, name: Seq<char>) -> Option<
    TensorModel,
>
    decreases entries.len() - i,
{
    if !(0 <= i < entries.len()) {
        None
    } else if entries[i].name@ == name {
        Some(entries[i].tensor)
    } else {
        spec_lookup_from(entries, i + 1, name)
    }
}

impl Checkpoint {
    /// The tensor stored under `name`, if any.
    pub open spec fn spec_get(self, name: Seq<char>) -> Option<TensorModel> {
        spec_lookup_from(self.entries@, 0, name)
    }

    pub open spec fn spec_contains(self, name: Seq<char>) -> bool {
        self.spec_get(name) is Some
    }

    /// Every tensor the checkpoint holds is well formed.
    pub open spec fn wf(self) -> bool {
        forall|i: int|
            0 <= i < self.entries@.len() ==> (#[trigger] self.entries@[i]).tensor.wf()
    }

    fn get_from(&self, i: usize, name: &String) -> (r: Option<&TensorModel>)
        requires
            i <= self.entries@.len(),
        ensures
            match r {
                Some(t) => spec_lookup_from(self.entries@, i as int, name@) == Some(*t),
                None => spec_lookup_from(self.entries@, i as int, name@) is None,
            },
        decreases self.entries@.len() - i,
    {
        if i < self.entries.len() {
            if self.entries[i].name == *name {
                Some(&self.entries[i].tensor)
            } else {
                self.get_from(i + 1, name)
            }
        } else {
            None
        }
    }

    /// The tensor stored under `name`, if any.
    pub fn get(&self, name: &String) -> (r: Option<&TensorModel>)
        ensures
            match r {
                Some(t) => self.spec_get(name@) == Some(*t),
                None => self.spec_get(name@) is None,
            },
    {
        self.get_from(0, name)
    }

    /// Whether a tensor named `name` is present.
    pub fn contains_tensor(&self, name: &String) -> (r: bool)
        ensures
            r == self.spec_contains(name@),
    {
        match self.get(name) {
            Some(_) => true,
            None => false,
        }
    }
}

/// A quantized linear layer: either 4-bit block-quantized packed
/// weights with their quantization parameters and code-table tag, or
/// an 8-bit weight matrix with one scale per output row. Both carry an
/// optional bias. Instances are immutable after construction;
/// device transfer produces an independent copy.
#[derive(Debug)]
pub enum BnbLinear {
    Fp4Nf4 {
        weight: TensorModel,
        bias: Option<TensorModel>,
        params: BnbQuantParmas,
        quant_ty: BnbQuantType,
    },
    Int8 { weight: TensorModel, scb: TensorModel, bias: Option<TensorModel> },
}

/// A configuration under which a layer is built directly from already
/// loaded tensors rather than by probing a checkpoint.
#[derive(Debug)]
pub enum QuantMethodConfig {
    Bnb4bit {
        weight: TensorModel,
        bias: Option<TensorModel>,
        params: BnbQuantParmas,
        quant_ty: BnbQuantType,
    },
}

impl BnbLinear {
    /// Builds a layer from a direct configuration.
    pub fn new(method: QuantMethodConfig) -> (r: BnbLinear)
        ensures
            match method {
                QuantMethodConfig::Bnb4bit { weight, bias, params, quant_ty } => r == (
                BnbLinear::Fp4Nf4 { weight, bias, params, quant_ty }),
            },
    {
        match method {
            QuantMethodConfig::Bnb4bit { weight, bias, params, quant_ty } => BnbLinear::Fp4Nf4 {
                weight,
                bias,
                params,
                quant_ty,
            },
        }
    }

    /// This layer quantizes weights only, never activations.
    pub fn quantized_act_type(&self) -> (r: Option<BnbDType>)
        ensures
            r is None,
    {
        None
    }

    /// The device the layer's weight lives on.
    pub fn device(&self) -> (r: Device)
        ensures
            r == (match self {
                BnbLinear::Fp4Nf4 { weight, .. } => weight.device,
                BnbLinear::Int8 { weight, .. } => weight.device,
            }),
    {
        match self {
            BnbLinear::Fp4Nf4 { weight, .. } => weight.device,
            BnbLinear::Int8 { weight, .. } => weight.device,
        }
    }
}

/// Mathematical value of a quantized linear layer.
pub enum BnbLinearView {
    Fp4Nf4 {
        weight: TensorView,
        bias: Option<TensorView>,
        params: BnbQuantParmasView,
        quant_ty: BnbQuantType,
    },
    Int8 { weight: TensorView, scb: TensorView, bias: Option<TensorView> },
}

impl View for BnbLinear {
    type V = BnbLinearView;

    open spec fn view(&self) -> BnbLinearView {
        match self {
            BnbLinear::Fp4Nf4 { weight, bias, params, quant_ty } => BnbLinearView::Fp4Nf4 {
                weight: weight@,
                bias: match bias {
                    Some(b) => Some(b@),
                    None => None,
                },
                params: params@,
                quant_ty: *quant_ty,
            },
            BnbLinear::Int8 { weight, scb, bias } => BnbLinearView::Int8 {
                weight: weight@,
                scb: scb@,
                bias: match bias {
                    Some(b) => Some(b@),
                    None => None,
                },
            },
        }
    }
}

/// The row-scaled 8-bit construction: a signed 8-bit `weight`, a
/// 32-bit float `SCB` row-scale vector, and, when requested, a bias of
/// length `out_dim`.
pub open spec fn spec_linear_8bit(ckpt: Checkpoint, out_dim: usize, bias: bool) -> Result<
    BnbLinearView,
    QuantError,
> {
    match ckpt.spec_get("weight"@) {
        None => Err(QuantError::MissingTensor),
        Some(w) => {
            if w.dtype != DType::I8 {
                Err(QuantError::TensorDTypeMismatch { expected: DType::I8, got: w.dtype })
            } else {
                match ckpt.spec_get("SCB"@) {
                    None => Err(QuantError::MissingTensor),
                    Some(scb) => {
                        if scb.dtype != DType::F32 {
                            Err(
                                QuantError::TensorDTypeMismatch {
                                    expected: DType::F32,
                                    got: scb.dtype,
                                },
                            )
                        } else if bias {
                            match ckpt.spec_get("bias"@) {
                                None => Err(QuantError::MissingTensor),
                                Some(b) => {
                                    if b.shape@ != seq![out_dim] {
                                        Err(QuantError::ShapeMismatch)
                                    } else {
                                        Ok(
                                            BnbLinearView::Int8 {
                                                weight: w@,
                                                scb: scb@,
                                                bias: Some(b@),
                                            },
                                        )
                                    }
                                },
                            }
                        } else {
                            Ok(BnbLinearView::Int8 { weight: w@, scb: scb@, bias: None })
                        }
                    },
                }
            }
        },
    }
}

/// The 4-bit construction: a packed `weight`, a marker tensor whose
/// raw bytes are the metadata blob, the scale and code tables, and the
/// nested chain when a nested scale table is present. The scale table
/// is read as packed bytes exactly when it awaits nested
/// dequantization, and the bias is converted to the configured
/// floating format.
pub open spec fn spec_linear_4bit(ckpt: Checkpoint, out_dim: usize, bias: bool) -> Result<
    BnbLinearView,
    QuantError,
> {
    match ckpt.spec_get("weight"@) {
        None => Err(QuantError::MissingTensor),
        Some(w) => {
            if w.dtype != DType::U8 {
                Err(QuantError::TensorDTypeMismatch { expected: DType::U8, got: w.dtype })
            } else {
                let has_nf4 = ckpt.spec_contains("weight.quant_state.bitsandbytes__nf4"@);
                let has_fp4 = ckpt.spec_contains("weight.quant_state.bitsandbytes__fp4"@);
                if !has_nf4 && !has_fp4 {
                    Err(QuantError::UnrecognizedLayerFormat)
                } else {
                    let quant_ty = if has_nf4 {
                        BnbQuantType::Nf4
                    } else {
                        BnbQuantType::Fp4
                    };
                    let marker = if has_nf4 {
                        ckpt.spec_get("weight.quant_state.bitsandbytes__nf4"@)
                    } else {
                        ckpt.spec_get("weight.quant_state.bitsandbytes__fp4"@)
                    };
                    match marker {
                        None => Err(QuantError::MissingTensor),
                        Some(m) => match m.data {
                            TensorData::Opaque => Err(QuantError::MalformedMetadata),
                            TensorData::Raw(blob) => match spec_parse_quant_metadata(blob@) {
                                None => Err(QuantError::MalformedMetadata),
                                Some(st) => spec_linear_4bit_assemble(
                                    ckpt,
                                    out_dim,
                                    bias,
                                    w,
                                    quant_ty,
                                    st,
                                ),
                            },
                        },
                    }
                }
            }
        },
    }
}

/// Assembles the 4-bit layer from the decoded metadata.
pub open spec fn spec_linear_4bit_assemble(
    ckpt: Checkpoint,
    out_dim: usize,
    bias: bool,
    w: TensorModel,
    quant_ty: BnbQuantType,
    st: crate::metadata::QuantStateView,
) -> Result<BnbLinearView, QuantError> {
    let has_nested = ckpt.spec_contains("weight.nested_absmax"@);
    let nested_r: Result<Option<BnbQuantParmasView>, QuantError> = if has_nested {
        match ckpt.spec_get("weight.nested_absmax"@) {
            None => Err(QuantError::MissingTensor),
            Some(na) => {
                if na.dtype != DType::F32 {
                    Err(QuantError::TensorDTypeMismatch { expected: DType::F32, got: na.dtype })
                } else {
                    match ckpt.spec_get("weight.nested_quant_map"@) {
                        None => Err(QuantError::MissingTensor),
                        Some(nqm) => {
                            if nqm.dtype != DType::F32 {
                                Err(
                                    QuantError::TensorDTypeMismatch {
                                        expected: DType::F32,
                                        got: nqm.dtype,
                                    },
                                )
                            } else {
                                match (st.nested_blocksize, st.nested_dtype) {
                                    (Some(nbs), Some(ndt)) => Ok(
                                        Some(
                                            BnbQuantParmasView {
                                                absmax: na@,
                                                code: nqm@,
                                                blocksize: nbs,
                                                shape: None,
                                                nested: None,
                                                offset: None,
                                                dtype: ndt,
                                            },
                                        ),
                                    ),
                                    _ => Err(QuantError::MissingNestedField),
                                }
                            }
                        },
                    }
                }
            },
        }
    } else {
        Ok(None)
    };
    match nested_r {
        Err(e) => Err(e),
        Ok(nested) => {
            let absmax_dtype = if nested is Some {
                DType::U8
            } else {
                DType::F32
            };
            match ckpt.spec_get("weight.absmax"@) {
                None => Err(QuantError::MissingTensor),
                Some(am) => {
                    if am.dtype != absmax_dtype {
                        Err(
                            QuantError::TensorDTypeMismatch {
                                expected: absmax_dtype,
                                got: am.dtype,
                            },
                        )
                    } else {
                        match ckpt.spec_get("weight.quant_map"@) {
                            None => Err(QuantError::MissingTensor),
                            Some(cm) => {
                                if cm.dtype != DType::F32 {
                                    Err(
                                        QuantError::TensorDTypeMismatch {
                                            expected: DType::F32,
                                            got: cm.dtype,
                                        },
                                    )
                                } else {
                                    let offset_r: Result<Option<Decimal>, QuantError> = if nested
                                        is Some {
                                        match st.nested_offset {
                                            Some(d) => Ok(Some(d)),
                                            None => Err(QuantError::MissingOffset),
                                        }
                                    } else {
                                        Ok(None)
                                    };
                                    match offset_r {
                                        Err(e) => Err(e),
                                        Ok(offset) => {
                                            let params = BnbQuantParmasView {
                                                absmax: am@,
                                                code: cm@,
                                                blocksize: st.blocksize,
                                                shape: Some(st.shape),
                                                nested: match nested {
                                                    Some(n) => Some(Box::new(n)),
                                                    None => None,
                                                },
                                                offset,
                                                dtype: st.dtype,
                                            };
                                            spec_linear_4bit_bias(ckpt, out_dim, bias, w, quant_ty, params)
                                        },
                                    }
                                }
                            },
                        }
                    }
                },
            }
        },
    }
}

/// Loads and converts the optional bias, and builds the 4-bit layer.
pub open spec fn spec_linear_4bit_bias(
    ckpt: Checkpoint,
    out_dim: usize,
    bias: bool,
    w: TensorModel,
    quant_ty: BnbQuantType,
    params: BnbQuantParmasView,
) -> Result<BnbLinearView, QuantError> {
    if bias {
        match ckpt.spec_get("bias"@) {
            None => Err(QuantError::MissingTensor),
            Some(b) => {
                if b.shape@ != seq![out_dim] {
                    Err(QuantError::ShapeMismatch)
                } else if (spec_numel(b.shape@) as nat) * params.dtype.spec_dtype().spec_size_in_bytes()
                    > usize::MAX {
                    Err(QuantError::SizeOverflow)
                } else {
                    Ok(
                        BnbLinearView::Fp4Nf4 {
                            weight: w@,
                            bias: Some(
                                TensorView {
                                    dtype: params.dtype.spec_dtype(),
                                    shape: b.shape@,
                                    device: b.device,
                                    data: TensorDataView::Opaque,
                                },
                            ),
                            params,
                            quant_ty,
                        },
                    )
                }
            },
        }
    } else {
        Ok(BnbLinearView::Fp4Nf4 { weight: w@, bias: None, params, quant_ty })
    }
}

/// The factory: the presence pattern of the checkpoint's tensor names
/// alone decides the storage variant. A row-scale tensor selects the
/// 8-bit path; a 4-bit marker selects the 4-bit path; neither is a
/// recognized quantized layer.
pub open spec fn spec_linear_b(ckpt: Checkpoint, out_dim: usize, bias: bool) -> Result<
    BnbLinearView,
    QuantError,
> {
    if ckpt.spec_contains("SCB"@) {
        spec_linear_8bit(ckpt, out_dim, bias)
    } else if ckpt.spec_contains("weight.quant_state.bitsandbytes__nf4"@) || ckpt.spec_contains(
        "weight.quant_state.bitsandbytes__fp4"@,
    ) {
        spec_linear_4bit(ckpt, out_dim, bias)
    } else {
        Err(QuantError::UnrecognizedLayerFormat)
    }
}

/// A tensor found in a well-formed checkpoint is well formed.
pub proof fn lemma_lookup_wf(entries: Seq<CkptEntry>, i: int, name: Seq<char>, t: TensorModel)
    requires
        forall|j: int| 0 <= j < entries.len() ==> (#[trigger] entries[j]).tensor.wf(),
        spec_lookup_from(entries, i, name) == Some(t),
    ensures
        t.wf(),
    decreases entries.len() - i,
{
    if 0 <= i < entries.len() {
        if entries[i].name@ == name {
        } else {
            lemma_lookup_wf(entries, i + 1, name, t);
        }
    }
}

/// `b` holds the same content as `a`, placed on `dev`.
pub open spec fn spec_tensor_moved(a: TensorModel, b: TensorModel, dev: Device) -> bool {
    &&& b@ == (TensorView { dtype: a@.dtype, shape: a@.shape, device: dev, data: a@.data })
    &&& b.numel == a.numel
}

/// The optional bias of a layer view has length `out_features` when
/// present.
pub open spec fn spec_bias_ok(b: Option<TensorView>, out_features: usize) -> bool {
    match b {
        Some(bv) => bv.shape == seq![out_features],
        None => true,
    }
}

impl BnbLinear {
    /// Well-formedness of a layer: every owned tensor is well formed
    /// and the quantization parameters keep their invariant.
    pub open spec fn wf(self) -> bool {
        match self {
            BnbLinear::Fp4Nf4 { weight, bias, params, .. } => {
                &&& weight.wf()
                &&& params.wf()
                &&& match bias {
                    Some(b) => b.wf(),
                    None => true,
                }
            },
            BnbLinear::Int8 { weight, scb, bias } => {
                &&& weight.wf()
                &&& scb.wf()
                &&& match bias {
                    Some(b) => b.wf(),
                    None => true,
                }
            },
        }
    }

    /// Total byte size of the layer's owned tensors, the nested chain
    /// included.
    pub open spec fn spec_size_in_bytes(self) -> nat {
        match self {
            BnbLinear::Fp4Nf4 { weight, bias, params, .. } => weight.spec_size_in_bytes()
                + params.spec_size_in_bytes() + match bias {
                Some(b) => b.spec_size_in_bytes(),
                None => 0,
            },
            BnbLinear::Int8 { weight, scb, bias } => weight.spec_size_in_bytes()
                + scb.spec_size_in_bytes() + match bias {
                Some(b) => b.spec_size_in_bytes(),
                None => 0,
            },
        }
    }

    /// Byte size of the layer for memory accounting.
    pub fn size_in_bytes(&self) -> (r: Result<usize, QuantError>)
        requires
            self.wf(),
        ensures
            match r {
                Ok(n) => n == self.spec_size_in_bytes(),
                Err(e) => e == QuantError::SizeOverflow && self.spec_size_in_bytes() > usize::MAX,
            },
    {
        match self {
            BnbLinear::Fp4Nf4 { weight, bias, params, .. } => {
                let w = weight.size_in_bytes();
                let p = match params.size_in_bytes() {
                    Ok(p) => p,
                    Err(e) => {
                        return Err(e);
                    },
                };
                let b: usize = match bias {
                    Some(bt) => bt.size_in_bytes(),
                    None => 0,
                };
                let wp = match w.checked_add(p) {
                    Some(x) => x,
                    None => {
                        return Err(QuantError::SizeOverflow);
                    },
                };
                match wp.checked_add(b) {
                    Some(x) => Ok(x),
                    None => Err(QuantError::SizeOverflow),
                }
            },
            BnbLinear::Int8 { weight, scb, bias } => {
                let w = weight.size_in_bytes();
                let s = scb.size_in_bytes();
                let b: usize = match bias {
                    Some(bt) => bt.size_in_bytes(),
                    None => 0,
                };
                let ws = match w.checked_add(s) {
                    Some(x) => x,
                    None => {
                        return Err(QuantError::SizeOverflow);
                    },
                };
                match ws.checked_add(b) {
                    Some(x) => Ok(x),
                    None => Err(QuantError::SizeOverflow),
                }
            },
        }
    }

    /// A deep copy of the layer with every owned tensor on `dev`; the
    /// receiver is unaffected, so both copies can serve concurrently.
    pub fn to_device(&self, dev: Device) -> (r: BnbLinear)
        ensures
            spec_linear_on_device(*self, r, dev),
            self.wf() ==> r.wf(),
    {
        match self {
            BnbLinear::Fp4Nf4 { weight, bias, params, quant_ty } => {
                let weight2 = weight.to_device(dev);
                let bias2: Option<TensorModel> = match bias {
                    Some(b) => Some(b.to_device(dev)),
                    None => None,
                };
                let params2 = params.to_device(dev);
                BnbLinear::Fp4Nf4 {
                    weight: weight2,
                    bias: bias2,
                    params: params2,
                    quant_ty: *quant_ty,
                }
            },
            BnbLinear::Int8 { weight, scb, bias } => {
                let weight2 = weight.to_device(dev);
                let scb2 = scb.to_device(dev);
                let bias2: Option<TensorModel> = match bias {
                    Some(b) => Some(b.to_device(dev)),
                    None => None,
                };
                BnbLinear::Int8 { weight: weight2, scb: scb2, bias: bias2 }
            },
        }
    }
}

/// `b` is `a` with every owned tensor moved to `dev`, same variant and
/// same content.
pub open spec fn spec_linear_on_device(a: BnbLinear, b: BnbLinear, dev: Device) -> bool {
    match (a, b) {
        (
            BnbLinear::Fp4Nf4 { weight: w1, bias: b1, params: p1, quant_ty: q1 },
            BnbLinear::Fp4Nf4 { weight: w2, bias: b2, params: p2, quant_ty: q2 },
        ) => {
            &&& spec_tensor_moved(w1, w2, dev)
            &&& match (b1, b2) {
                (Some(x), Some(y)) => spec_tensor_moved(x, y, dev),
                (None, None) => true,
                _ => false,
            }
            &&& spec_params_on_device(p1, p2, dev)
            &&& q1 == q2
        },
        (
            BnbLinear::Int8 { weight: w1, scb: s1, bias: b1 },
            BnbLinear::Int8 { weight: w2, scb: s2, bias: b2 },
        ) => {
            &&& spec_tensor_moved(w1, w2, dev)
            &&& spec_tensor_moved(s1, s2, dev)
            &&& match (b1, b2) {
                (Some(x), Some(y)) => spec_tensor_moved(x, y, dev),
                (None, None) => true,
                _ => false,
            }
        },
        _ => false,
    }
}

/// The dequantization plan of the stored weight, produced in the
/// requested element type `out_ty`: the 4-bit variant dequantizes
/// against its parameters and converts when the configured floating
/// format differs from the request; the 8-bit variant runs the
/// row-scaled kernel straight into `out_ty`.
pub open spec fn spec_dequantize_w(l: BnbLinearView, out_ty: DType) -> Result<
    (Seq<DequantOp>, TensorView),
    QuantError,
> {
    match l {
        BnbLinearView::Fp4Nf4 { weight, params, quant_ty, .. } => match spec_dequantize_4bit(
            weight,
            params,
            quant_ty,
        ) {
            Err(e) => Err(e),
            Ok((ops, out)) => {
                if out.dtype == out_ty {
                    Ok((ops, out))
                } else if spec_numel(out.shape) * out_ty.spec_size_in_bytes() > usize::MAX {
                    Err(QuantError::SizeOverflow)
                } else {
                    Ok(
                        (
                            ops.push(DequantOp::Convert(out_ty)),
                            TensorView {
                                dtype: out_ty,
                                shape: out.shape,
                                device: out.device,
                                data: TensorDataView::Opaque,
                            },
                        ),
                    )
                }
            },
        },
        BnbLinearView::Int8 { weight, .. } => {
            if weight.shape.len() != 2 {
                Err(QuantError::ShapeMismatch)
            } else if spec_numel(weight.shape) * out_ty.spec_size_in_bytes() > usize::MAX {
                Err(QuantError::SizeOverflow)
            } else {
                Ok(
                    (
                        seq![
                            DequantOp::RowScaled {
                                rows: weight.shape[0],
                                cols: weight.shape[1],
                                out_dtype: out_ty,
                            },
                        ],
                        TensorView {
                            dtype: out_ty,
                            shape: weight.shape,
                            device: weight.device,
                            data: TensorDataView::Opaque,
                        },
                    ),
                )
            }
        },
    }
}

impl BnbLinear {
    /// Plans the dequantization of the stored weight to a full tensor.
    pub fn dequantize_w(&self, out_ty: DType) -> (r: Result<
        (Vec<DequantOp>, TensorModel),
        QuantError,
    >)
        requires
            self.wf(),
        ensures
            match r {
                Ok((ops, out)) => {
                    &&& spec_dequantize_w(self@, out_ty) == Ok::<_, QuantError>((ops@, out@))
                    &&& out.wf()
                    &&& out.numel == spec_numel(out@.shape)
                },
                Err(e) => spec_dequantize_w(self@, out_ty) == Err::<
                    (Seq<DequantOp>, TensorView),
                    QuantError,
                >(e),
            },
    {
        match self {
            BnbLinear::Fp4Nf4 { weight, params, quant_ty, .. } => {
                let (mut ops, out) = match Self::dequantize_4bit(weight, params, *quant_ty) {
                    Ok(x) => x,
                    Err(e) => {
                        return Err(e);
                    },
                };
                if out.dtype == out_ty {
                    Ok((ops, out))
                } else {
                    let out2 = match out.to_dtype(out_ty) {
                        Ok(t) => t,
                        Err(e) => {
                            return Err(e);
                        },
                    };
                    ops.push(DequantOp::Convert(out_ty));
                    Ok((ops, out2))
                }
            },
            BnbLinear::Int8 { weight, .. } => {
                if weight.shape.len() != 2 {
                    return Err(QuantError::ShapeMismatch);
                }
                let out = match weight.to_dtype(out_ty) {
                    Ok(t) => t,
                    Err(e) => {
                        return Err(e);
                    },
                };
                let mut ops: Vec<DequantOp> = Vec::new();
                ops.push(
                    DequantOp::RowScaled {
                        rows: weight.shape[0],
                        cols: weight.shape[1],
                        out_dtype: out_ty,
                    },
                );
                proof {
                    assert(ops@ =~= seq![
                        DequantOp::RowScaled {
                            rows: weight.shape@[0],
                            cols: weight.shape@[1],
                            out_dtype: out_ty,
                        },
                    ]);
                }
                Ok((ops, out))
            },
        }
    }
}

/// The forward pass at the descriptor level: dequantize the weight to
/// the activation's element type, transpose it, broadcast-multiply
/// against the activation and add the bias (converted to the result's
/// element type) when present. The result is the dequantization plan
/// and the output descriptor; the matrix arithmetic itself is the
/// tensor backend's.
pub open spec fn spec_forward(l: BnbLinearView, xs: TensorView) -> Result<
    (Seq<DequantOp>, TensorView),
    QuantError,
> {
    match spec_dequantize_w(l, xs.dtype) {
        Err(e) => Err(e),
        Ok((ops, w)) => {
            if w.shape.len() != 2 {
                Err(QuantError::ShapeMismatch)
            } else if xs.shape.len() < 2 {
                Err(QuantError::ShapeMismatch)
            } else if xs.shape.last() != w.shape[1] {
                Err(QuantError::ShapeMismatch)
            } else {
                let out_features = w.shape[0];
                let bias = match l {
                    BnbLinearView::Fp4Nf4 { bias, .. } => bias,
                    BnbLinearView::Int8 { bias, .. } => bias,
                };
                if !spec_bias_ok(bias, out_features) {
                    Err(QuantError::ShapeMismatch)
                } else {
                    let out_shape = xs.shape.update(xs.shape.len() - 1, out_features);
                    if spec_numel(out_shape) * xs.dtype.spec_size_in_bytes() > usize::MAX
                        || spec_numel(out_shape) > usize::MAX {
                        Err(QuantError::SizeOverflow)
                    } else {
                        Ok(
                            (
                                ops,
                                TensorView {
                                    dtype: xs.dtype,
                                    shape: out_shape,
                                    device: xs.device,
                                    data: TensorDataView::Opaque,
                                },
                            ),
                        )
                    }
                }
            }
        },
    }
}

impl BnbLinear {
    /// The single computational entry point: plans the forward pass of
    /// the activation `xs` through this layer.
    pub fn forward(&self, xs: &TensorModel) -> (r: Result<(Vec<DequantOp>, TensorModel), QuantError>)
        requires
            self.wf(),
        ensures
            match r {
                Ok((ops, out)) => {
                    &&& spec_forward(self@, xs@) == Ok::<_, QuantError>((ops@, out@))
                    &&& out.wf()
                },
                Err(e) => spec_forward(self@, xs@) == Err::<
                    (Seq<DequantOp>, TensorView),
                    QuantError,
                >(e),
            },
    {
        let (ops, w) = match self.dequantize_w(xs.dtype) {
            Ok(x) => x,
            Err(e) => {
                return Err(e);
            },
        };
        if w.shape.len() != 2 {
            return Err(QuantError::ShapeMismatch);
        }
        if xs.shape.len() < 2 {
            return Err(QuantError::ShapeMismatch);
        }
        if xs.shape[xs.shape.len() - 1] != w.shape[1] {
            return Err(QuantError::ShapeMismatch);
        }
        let out_features: usize = w.shape[0];
        let bias_ok: bool = match self {
            BnbLinear::Fp4Nf4 { bias, .. } => match bias {
                Some(b) => b.shape.len() == 1 && b.shape[0] == out_features,
                None => true,
            },
            BnbLinear::Int8 { bias, .. } => match bias {
                Some(b) => b.shape.len() == 1 && b.shape[0] == out_features,
                None => true,
            },
        };
        proof {
            let bv = match self@ {
                BnbLinearView::Fp4Nf4 { bias, .. } => bias,
                BnbLinearView::Int8 { bias, .. } => bias,
            };
            if bias_ok {
                match bv {
                    Some(b) => {
                        assert(b.shape =~= seq![out_features]);
                    },
                    None => {},
                }
            }
        }
        if !bias_ok {
            return Err(QuantError::ShapeMismatch);
        }
        let n = xs.shape.len();
        let mut out_shape: Vec<usize> = Vec::new();
        let mut i: usize = 0;
        while i < n - 1
            invariant
                n == xs.shape@.len(),
                n >= 2,
                0 <= i <= n - 1,
                out_shape@ == xs.shape@.take(i as int),
            decreases n - 1 - i,
        {
            out_shape.push(xs.shape[i]);
            proof {
                assert(out_shape@ =~= xs.shape@.take(i + 1));
            }
            i += 1;
        }
        out_shape.push(out_features);
        proof {
            assert(out_shape@ =~= xs.shape@.update(xs.shape@.len() - 1, out_features));
        }
        let out = match TensorModel::new(xs.dtype, out_shape, xs.device, TensorData::Opaque) {
            Ok(t) => t,
            Err(_) => {
                return Err(QuantError::SizeOverflow);
            },
        };
        Ok((ops, out))
    }
}

impl BnbLinear {
    /// Builds the row-scaled 8-bit variant from the checkpoint.
    fn linear_8bit(ckpt: &Checkpoint, out_dim: usize, bias: bool) -> (r: Result<
        BnbLinear,
        QuantError,
    >)
        requires
            ckpt.wf(),
        ensures
            match r {
                Ok(l) => spec_linear_8bit(*ckpt, out_dim, bias) == Ok::<_, QuantError>(l@)
                    && l.wf(),
                Err(e) => spec_linear_8bit(*ckpt, out_dim, bias) == Err::<BnbLinearView, QuantError>(
                    e,
                ),
            },
    {
        let weight = match ckpt.get(&"weight".to_owned()) {
            Some(t) => t,
            None => {
                return Err(QuantError::MissingTensor);
            },
        };
        if weight.dtype != DType::I8 {
            return Err(QuantError::TensorDTypeMismatch { expected: DType::I8, got: weight.dtype });
        }
        let scb = match ckpt.get(&"SCB".to_owned()) {
            Some(t) => t,
            None => {
                return Err(QuantError::MissingTensor);
            },
        };
        if scb.dtype != DType::F32 {
            return Err(QuantError::TensorDTypeMismatch { expected: DType::F32, got: scb.dtype });
        }
        let bias_t: Option<TensorModel> = if bias {
            let b = match ckpt.get(&"bias".to_owned()) {
                Some(t) => t,
                None => {
                    return Err(QuantError::MissingTensor);
                },
            };
            if !(b.shape.len() == 1 && b.shape[0] == out_dim) {
                proof {
                    assert(b.shape@ != seq![out_dim]);
                }
                return Err(QuantError::ShapeMismatch);
            }
            proof {
                assert(b.shape@ =~= seq![out_dim]);
                lemma_lookup_wf(ckpt.entries@, 0, "bias"@, *b);
            }
            Some(b.clone())
        } else {
            None
        };
        proof {
            lemma_lookup_wf(ckpt.entries@, 0, "weight"@, *weight);
            lemma_lookup_wf(ckpt.entries@, 0, "SCB"@, *scb);
        }
        Ok(BnbLinear::Int8 { weight: weight.clone(), scb: scb.clone(), bias: bias_t })
    }
}

impl BnbLinear {
    /// Builds the 4-bit block-quantized variant from the checkpoint:
    /// decodes the marker tensor's metadata blob, builds the nested
    /// chain first when a nested scale table is present, and reads the
    /// outer scale table as packed bytes exactly then.
    fn linear_4bit(ckpt: &Checkpoint, out_dim: usize, bias: bool) -> (r: Result<
        BnbLinear,
        QuantError,
    >)
        requires
            ckpt.wf(),
        ensures
            match r {
                Ok(l) => spec_linear_4bit(*ckpt, out_dim, bias) == Ok::<_, QuantError>(l@)
                    && l.wf(),
                Err(e) => spec_linear_4bit(*ckpt, out_dim, bias) == Err::<BnbLinearView, QuantError>(
                    e,
                ),
            },
    {
        let weight = match ckpt.get(&"weight".to_owned()) {
            Some(t) => t,
            None => {
                return Err(QuantError::MissingTensor);
            },
        };
        if weight.dtype != DType::U8 {
            return Err(QuantError::TensorDTypeMismatch { expected: DType::U8, got: weight.dtype });
        }
        proof {
            lemma_lookup_wf(ckpt.entries@, 0, "weight"@, *weight);
        }
        let nf4_name = "weight.quant_state.bitsandbytes__nf4".to_owned();
        let fp4_name = "weight.quant_state.bitsandbytes__fp4".to_owned();
        let has_nf4 = ckpt.contains_tensor(&nf4_name);
        let has_fp4 = ckpt.contains_tensor(&fp4_name);
        if !has_nf4 && !has_fp4 {
            return Err(QuantError::UnrecognizedLayerFormat);
        }
        let quant_ty = if has_nf4 {
            BnbQuantType::Nf4
        } else {
            BnbQuantType::Fp4
        };
        let marker = if has_nf4 {
            ckpt.get(&nf4_name)
        } else {
            ckpt.get(&fp4_name)
        };
        let m = match marker {
            Some(t) => t,
            None => {
                return Err(QuantError::MissingTensor);
            },
        };
        let st = match &m.data {
            TensorData::Opaque => {
                return Err(QuantError::MalformedMetadata);
            },
            TensorData::Raw(blob) => {
                match parse_quant_metadata(blob) {
                    Ok(st) => st,
                    Err(e) => {
                        return Err(e);
                    },
                }
            },
        };
        let has_nested = ckpt.contains_tensor(&"weight.nested_absmax".to_owned());
        let nested: Option<Box<BnbQuantParmas>> = if has_nested {
            let na = match ckpt.get(&"weight.nested_absmax".to_owned()) {
                Some(t) => t,
                None => {
                    return Err(QuantError::MissingTensor);
                },
            };
            if na.dtype != DType::F32 {
                return Err(QuantError::TensorDTypeMismatch { expected: DType::F32, got: na.dtype });
            }
            let nqm = match ckpt.get(&"weight.nested_quant_map".to_owned()) {
                Some(t) => t,
                None => {
                    return Err(QuantError::MissingTensor);
                },
            };
            if nqm.dtype != DType::F32 {
                return Err(
                    QuantError::TensorDTypeMismatch { expected: DType::F32, got: nqm.dtype },
                );
            }
            let nbs = match st.nested_blocksize {
                Some(x) => x,
                None => {
                    return Err(QuantError::MissingNestedField);
                },
            };
            let ndt = match st.nested_dtype {
                Some(x) => x,
                None => {
                    return Err(QuantError::MissingNestedField);
                },
            };
            proof {
                lemma_lookup_wf(ckpt.entries@, 0, "weight.nested_absmax"@, *na);
                lemma_lookup_wf(ckpt.entries@, 0, "weight.nested_quant_map"@, *nqm);
            }
            Some(
                Box::new(
                    BnbQuantParmas {
                        absmax: na.clone(),
                        code: nqm.clone(),
                        blocksize: nbs,
                        shape: None,
                        nested: None,
                        offset: None,
                        dtype: ndt,
                    },
                ),
            )
        } else {
            None
        };
        let absmax_dtype: DType = if nested.is_some() {
            DType::U8
        } else {
            DType::F32
        };
        let am = match ckpt.get(&"weight.absmax".to_owned()) {
            Some(t) => t,
            None => {
                return Err(QuantError::MissingTensor);
            },
        };
        if am.dtype != absmax_dtype {
            return Err(QuantError::TensorDTypeMismatch { expected: absmax_dtype, got: am.dtype });
        }
        let cm = match ckpt.get(&"weight.quant_map".to_owned()) {
            Some(t) => t,
            None => {
                return Err(QuantError::MissingTensor);
            },
        };
        if cm.dtype != DType::F32 {
            return Err(QuantError::TensorDTypeMismatch { expected: DType::F32, got: cm.dtype });
        }
        let offset: Option<Decimal> = if nested.is_some() {
            match st.nested_offset {
                Some(d) => Some(d),
                None => {
                    return Err(QuantError::MissingOffset);
                },
            }
        } else {
            None
        };
        proof {
            lemma_lookup_wf(ckpt.entries@, 0, "weight.absmax"@, *am);
            lemma_lookup_wf(ckpt.entries@, 0, "weight.quant_map"@, *cm);
        }
        let params = BnbQuantParmas {
            absmax: am.clone(),
            code: cm.clone(),
            blocksize: st.blocksize,
            shape: Some(st.shape),
            nested,
            offset,
            dtype: st.dtype,
        };
        let bias_t: Option<TensorModel> = if bias {
            let b = match ckpt.get(&"bias".to_owned()) {
                Some(t) => t,
                None => {
                    return Err(QuantError::MissingTensor);
                },
            };
            if !(b.shape.len() == 1 && b.shape[0] == out_dim) {
                proof {
                    assert(b.shape@ != seq![out_dim]);
                }
                return Err(QuantError::ShapeMismatch);
            }
            proof {
                assert(b.shape@ =~= seq![out_dim]);
                lemma_lookup_wf(ckpt.entries@, 0, "bias"@, *b);
            }
            let converted = match b.to_dtype(DType::from(params.dtype)) {
                Ok(t) => t,
                Err(e) => {
                    return Err(e);
                },
            };
            Some(converted)
        } else {
            None
        };
        proof {
            reveal_with_fuel(spec_params_view, 3);
            reveal_with_fuel(BnbQuantParmas::wf, 3);
        }
        Ok(BnbLinear::Fp4Nf4 { weight: weight.clone(), bias: bias_t, params, quant_ty })
    }

    /// The layer factory: probes the checkpoint's tensor names once to
    /// decide which storage variant applies, and never again. A
    /// checkpoint exposing neither a row-scale tensor nor a 4-bit
    /// marker fails with the unrecognized-layer-format error, and with
    /// exactly that error only then.
    pub fn linear_b(ckpt: &Checkpoint, _in_dim: usize, out_dim: usize, bias: bool) -> (r: Result<
        BnbLinear,
        QuantError,
    >)
        requires
            ckpt.wf(),
        ensures
            match r {
                Ok(l) => spec_linear_b(*ckpt, out_dim, bias) == Ok::<_, QuantError>(l@) && l.wf(),
                Err(e) => spec_linear_b(*ckpt, out_dim, bias) == Err::<BnbLinearView, QuantError>(
                    e,
                ),
            },
            r == Err::<BnbLinear, QuantError>(QuantError::UnrecognizedLayerFormat) <==> (
            !ckpt.spec_contains("SCB"@) && !ckpt.spec_contains(
                "weight.quant_state.bitsandbytes__nf4"@,
            ) && !ckpt.spec_contains("weight.quant_state.bitsandbytes__fp4"@)),
    {
        proof {
            lemma_unrecognized_layer_format(*ckpt, out_dim, bias);
        }
        if ckpt.contains_tensor(&"SCB".to_owned()) {
            Self::linear_8bit(ckpt, out_dim, bias)
        } else if ckpt.contains_tensor(&"weight.quant_state.bitsandbytes__nf4".to_owned())
            || ckpt.contains_tensor(&"weight.quant_state.bitsandbytes__fp4".to_owned()) {
            Self::linear_4bit(ckpt, out_dim, bias)
        } else {
            Err(QuantError::UnrecognizedLayerFormat)
        }
    }
}

/// Construction fails with the unrecognized-layer-format error exactly
/// when the checkpoint exposes neither the row-scale tensor nor one of
/// the 4-bit marker tensors.
pub proof fn lemma_unrecognized_layer_format(ckpt: Checkpoint, out_dim: usize, bias: bool)
    ensures
        (spec_linear_b(ckpt, out_dim, bias) == Err::<BnbLinearView, QuantError>(
            QuantError::UnrecognizedLayerFormat,
        )) <==> (!ckpt.spec_contains("SCB"@) && !ckpt.spec_contains(
            "weight.quant_state.bitsandbytes__nf4"@,
        ) && !ckpt.spec_contains("weight.quant_state.bitsandbytes__fp4"@)),
{
}

} // verus!
