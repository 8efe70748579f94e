//! Inference-time numerics core of a neural-network runtime: it
//! reconstructs full-precision weights from block-quantized, optionally
//! double-quantized, byte-packed representations, and decides the
//! dispatch of fused GPU kernels for attention and dequantization.
//!
//! Everything the backend decides is verified here: the quantization
//! parameter model and recursive dequantization planning, the layer
//! factory driven by checkpoint tensor names, the metadata wire-format
//! decoder, the pipeline cache, the kernel variant resolvers, and the
//! parameter layout and launch geometry of every dispatch. The device
//! kernels themselves are opaque programs: plans name them, order
//! their parameters, and size their grids, and the host bindings issue
//! them unchanged.

pub mod codec;
pub mod dispatch;
pub mod dtype;
pub mod error;
pub mod kernels;
pub mod linear;
pub mod metadata;
pub mod params;
pub mod resolve;
pub mod tensor;
