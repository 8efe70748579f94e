use crate::dtype::DType;
use vstd::prelude::*;

verus! {

/// Errors of the quantized-layer side: construction from a checkpoint,
/// metadata decoding, and dequantization planning.
///
/// All of these are returned to the caller as values; nothing in this
/// library panics or aborts on them.
#[derive(Debug, Clone, PartialEq, Eq)]
pub enum QuantError {
    /// The checkpoint exposes neither a row-scale tensor nor a 4-bit
    /// marker tensor: it is not a recognized quantized layer.
    UnrecognizedLayerFormat,
    /// The configured block size is not in the supported set.
    BlockSizeUnsupported { got: usize },
    /// The quantization metadata blob does not decode under the
    /// documented schema.
    MalformedMetadata,
    /// The wire format claims double quantization but a required nested
    /// field is absent from the metadata.
    MissingNestedField,
    /// A nested scale table is present but the additive offset that must
    /// accompany it is not.
    MissingOffset,
    /// A tensor name the construction probes for is absent.
    MissingTensor,
    /// A checkpoint tensor does not have the storage type the layer
    /// format prescribes for it.
    TensorDTypeMismatch { expected: DType, got: DType },
    /// Operand shapes do not agree (bias length, matmul inner dimension,
    /// or a dequantization target shape that does not match the packed
    /// element count).
    ShapeMismatch,
    /// A byte-size or element-count computation does not fit in `usize`.
    SizeOverflow,
}

} // verus!
