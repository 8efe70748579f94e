use quant_backend::dtype::{BnbDType, BnbQuantType, DType};
use quant_backend::error::QuantError;
use quant_backend::linear::{BnbLinear, Checkpoint, CkptEntry, DequantOp, QuantMethodConfig};
use quant_backend::params::BnbQuantParmas;
use quant_backend::tensor::{Device, TensorData, TensorModel};

fn tensor(dtype: DType, shape: Vec<usize>, bytes: Vec<u8>) -> TensorModel {
    TensorModel::new(dtype, shape, Device::Cpu, TensorData::Raw(bytes)).unwrap()
}

fn entry(name: &str, t: TensorModel) -> CkptEntry {
    CkptEntry { name: name.to_owned(), tensor: t }
}

fn f32_tensor(shape: Vec<usize>, values: &[f32]) -> TensorModel {
    let mut bytes = Vec::new();
    for v in values {
        bytes.extend_from_slice(&v.to_bits().to_le_bytes());
    }
    tensor(DType::F32, shape, bytes)
}

fn int8_checkpoint() -> Checkpoint {
    Checkpoint {
        entries: vec![
            entry("weight", tensor(DType::I8, vec![4, 8], vec![1u8; 32])),
            entry("SCB", f32_tensor(vec![4], &[1.0, 2.0, 3.0, 4.0])),
            entry("bias", f32_tensor(vec![4], &[0.0, 0.0, 0.0, 0.0])),
        ],
    }
}

fn nf4_checkpoint(blob: &str) -> Checkpoint {
    Checkpoint {
        entries: vec![
            entry("weight", tensor(DType::U8, vec![2048], vec![0x21u8; 2048])),
            entry(
                "weight.quant_state.bitsandbytes__nf4",
                tensor(DType::U8, vec![blob.len()], blob.as_bytes().to_vec()),
            ),
            entry("weight.absmax", f32_tensor(vec![64], &[1.0f32; 64])),
            entry("weight.quant_map", f32_tensor(vec![16], &[0.25f32; 16])),
            entry("bias", f32_tensor(vec![64], &[0.5f32; 64])),
        ],
    }
}

#[test]
fn unrecognized_layer_format() {
    // neither SCB nor an NF4/FP4 marker: construction must fail fast
    let ckpt = Checkpoint {
        entries: vec![entry("weight", tensor(DType::U8, vec![16], vec![0u8; 16]))],
    };
    let r = BnbLinear::linear_b(&ckpt, 8, 8, false);
    assert_eq!(r.unwrap_err(), QuantError::UnrecognizedLayerFormat);

    let empty = Checkpoint { entries: vec![] };
    assert_eq!(
        BnbLinear::linear_b(&empty, 8, 8, true).unwrap_err(),
        QuantError::UnrecognizedLayerFormat
    );
}

#[test]
fn int8_construction_and_forward() {
    let layer = BnbLinear::linear_b(&int8_checkpoint(), 8, 4, true).unwrap();
    match &layer {
        BnbLinear::Int8 { weight, scb, bias } => {
            assert_eq!(weight.shape, vec![4, 8]);
            assert_eq!(scb.shape, vec![4]);
            assert!(bias.is_some());
        },
        other => panic!("expected the 8-bit variant, got {other:?}"),
    }
    // forward: xs (2, 3, 8) x transposed weight (8, 4) -> (2, 3, 4)
    let xs = TensorModel::new(DType::F32, vec![2, 3, 8], Device::Cpu, TensorData::Opaque).unwrap();
    let (ops, out) = layer.forward(&xs).unwrap();
    assert_eq!(out.shape, vec![2, 3, 4]);
    assert_eq!(out.dtype, DType::F32);
    assert_eq!(ops, vec![DequantOp::RowScaled { rows: 4, cols: 8, out_dtype: DType::F32 }]);

    // a mismatched inner dimension is rejected
    let bad = TensorModel::new(DType::F32, vec![2, 7], Device::Cpu, TensorData::Opaque).unwrap();
    assert_eq!(layer.forward(&bad).unwrap_err(), QuantError::ShapeMismatch);
}

#[test]
fn nf4_construction_reads_metadata() {
    let blob = r#"{"blocksize": 64, "shape": [64, 64], "dtype": "float16"}"#;
    let layer = BnbLinear::linear_b(&nf4_checkpoint(blob), 64, 64, true).unwrap();
    match &layer {
        BnbLinear::Fp4Nf4 { weight, bias, params, quant_ty } => {
            assert!(matches!(quant_ty, BnbQuantType::Nf4));
            assert_eq!(weight.shape, vec![2048]);
            assert_eq!(params.blocksize, 64);
            assert_eq!(params.shape, Some(vec![64, 64]));
            assert!(matches!(params.dtype, BnbDType::F16));
            assert!(params.nested.is_none());
            assert!(params.offset.is_none());
            // the bias was converted to the configured floating format
            let b = bias.as_ref().unwrap();
            assert_eq!(b.dtype, DType::F16);
            assert_eq!(b.shape, vec![64]);
        },
        other => panic!("expected the 4-bit variant, got {other:?}"),
    }

    // dequantization plan: one kernel step over 4096 elements
    let (ops, out) = layer.dequantize_w(DType::F16).unwrap();
    assert_eq!(
        ops,
        vec![
            DequantOp::Kernel {
                quant_ty: BnbQuantType::Nf4,
                n: 4096,
                blocksize: 64,
                out_dtype: BnbDType::F16,
            },
        ]
    );
    assert_eq!(out.shape, vec![64, 64]);
    assert_eq!(out.numel, 4096);
    assert_eq!(out.dtype, DType::F16);
}

#[test]
fn nf4_malformed_metadata_rejected() {
    let blob = r#"{"blocksize": 64, "shape": [64, 64]}"#;  // dtype missing
    assert_eq!(
        BnbLinear::linear_b(&nf4_checkpoint(blob), 64, 64, false).unwrap_err(),
        QuantError::MalformedMetadata
    );
}

#[test]
fn nested_chain_requires_metadata_fields() {
    // a nested scale table without its block size in the metadata
    let blob = r#"{"blocksize": 64, "shape": [64, 64], "dtype": "float16", "nested_dtype": "float32", "nested_offset": 0.5}"#;
    let mut ckpt = nf4_checkpoint(blob);
    ckpt.entries.push(entry("weight.nested_absmax", f32_tensor(vec![1], &[2.0])));
    ckpt.entries.push(entry("weight.nested_quant_map", f32_tensor(vec![256], &[0.5f32; 256])));
    assert_eq!(
        BnbLinear::linear_b(&ckpt, 64, 64, false).unwrap_err(),
        QuantError::MissingNestedField
    );
}

#[test]
fn nested_chain_construction() {
    let blob = r#"{"blocksize": 64, "shape": [64, 64], "dtype": "float16", "nested_blocksize": 64, "nested_dtype": "float32", "nested_offset": 0.5}"#;
    let mut ckpt = nf4_checkpoint(blob);
    // the outer scale table is read as packed bytes while it awaits
    // nested dequantization
    ckpt.entries.retain(|e| e.name != "weight.absmax");
    ckpt.entries.push(entry("weight.absmax", tensor(DType::U8, vec![64], vec![3u8; 64])));
    ckpt.entries.push(entry("weight.nested_absmax", f32_tensor(vec![1], &[2.0])));
    ckpt.entries.push(entry("weight.nested_quant_map", f32_tensor(vec![256], &[0.5f32; 256])));
    let layer = BnbLinear::linear_b(&ckpt, 64, 64, false).unwrap();
    match &layer {
        BnbLinear::Fp4Nf4 { params, .. } => {
            let nested = params.nested.as_ref().unwrap();
            assert_eq!(nested.blocksize, 64);
            assert!(matches!(nested.dtype, BnbDType::F32));
            assert!(nested.nested.is_none());
            let off = params.offset.unwrap();
            assert!(!off.neg);
            assert_eq!(off.mantissa, 5);
            assert_eq!(off.exp10, -1);
        },
        other => panic!("expected the 4-bit variant, got {other:?}"),
    }
    // the plan dequantizes the scale table first, adds the offset, then
    // reconstructs the weight
    let (ops, out) = layer.dequantize_w(DType::F16).unwrap();
    assert_eq!(ops.len(), 3);
    assert!(matches!(
        ops[0],
        DequantOp::Kernel { quant_ty: BnbQuantType::Int8, n: 64, blocksize: 64, .. }
    ));
    assert!(matches!(ops[1], DequantOp::AddOffset(_)));
    assert!(matches!(
        ops[2],
        DequantOp::Kernel { quant_ty: BnbQuantType::Nf4, n: 4096, blocksize: 64, .. }
    ));
    assert_eq!(out.numel, 4096);
}

#[test]
fn unsupported_blocksize_fails_without_dispatch() {
    // e.g. a block size of 100 is not in {64,128,256,512,1024,2048,4096}
    let params = BnbQuantParmas {
        absmax: f32_tensor(vec![2], &[1.0, 1.0]),
        code: f32_tensor(vec![16], &[0.5f32; 16]),
        blocksize: 100,
        shape: Some(vec![100, 2]),
        nested: None,
        offset: None,
        dtype: BnbDType::F32,
    };
    let layer = BnbLinear::new(QuantMethodConfig::Bnb4bit {
        weight: tensor(DType::U8, vec![100], vec![0u8; 100]),
        bias: None,
        params,
        quant_ty: BnbQuantType::Nf4,
    });
    // the error names the offending size and no plan step is produced
    assert_eq!(
        layer.dequantize_w(DType::F32).unwrap_err(),
        QuantError::BlockSizeUnsupported { got: 100 }
    );
}

#[test]
fn all_supported_blocksizes_produce_matching_shapes() {
    for bs in [64usize, 128, 256, 512, 1024, 2048, 4096] {
        let params = BnbQuantParmas {
            absmax: f32_tensor(vec![2], &[1.0, 1.0]),
            code: f32_tensor(vec![16], &[0.5f32; 16]),
            blocksize: bs,
            shape: Some(vec![bs, 2]),
            nested: None,
            offset: None,
            dtype: BnbDType::F32,
        };
        let weight = tensor(DType::U8, vec![bs], vec![0u8; bs]);
        let layer = BnbLinear::new(QuantMethodConfig::Bnb4bit {
            weight,
            bias: None,
            params,
            quant_ty: BnbQuantType::Fp4,
        });
        let (ops, out) = layer.dequantize_w(DType::F32).unwrap();
        // the output holds exactly the logical element count, in the
        // requested logical shape
        assert_eq!(out.shape, vec![bs, 2]);
        assert_eq!(out.numel, bs * 2);
        assert_eq!(
            ops,
            vec![
                DequantOp::Kernel {
                    quant_ty: BnbQuantType::Fp4,
                    n: bs * 2,
                    blocksize: bs,
                    out_dtype: BnbDType::F32,
                },
            ]
        );
    }
}

#[test]
fn size_in_bytes_counts_every_owned_tensor() {
    let layer = BnbLinear::linear_b(&int8_checkpoint(), 8, 4, true).unwrap();
    // 32 weight bytes + 16 scale bytes + 16 bias bytes
    assert_eq!(layer.size_in_bytes().unwrap(), 64);

    let blob = r#"{"blocksize": 64, "shape": [64, 64], "dtype": "float16"}"#;
    let layer = BnbLinear::linear_b(&nf4_checkpoint(blob), 64, 64, true).unwrap();
    // 2048 weight + 256 absmax + 64 code table + 128 bias (converted to
    // 16-bit floats)
    assert_eq!(layer.size_in_bytes().unwrap(), 2048 + 256 + 64 + 128);
}

#[test]
fn to_device_is_a_deep_copy() {
    let layer = BnbLinear::linear_b(&int8_checkpoint(), 8, 4, true).unwrap();
    let moved = layer.to_device(Device::Metal(1));
    assert_eq!(moved.device(), Device::Metal(1));
    // the original is unaffected, so both copies can serve concurrently
    assert_eq!(layer.device(), Device::Cpu);
    match (&layer, &moved) {
        (BnbLinear::Int8 { weight: w1, .. }, BnbLinear::Int8 { weight: w2, .. }) => {
            assert_eq!(w1.data, w2.data);
            assert_eq!(w1.shape, w2.shape);
        },
        _ => panic!("variant changed across device transfer"),
    }
}

#[test]
fn quantized_act_type_is_none() {
    let layer = BnbLinear::linear_b(&int8_checkpoint(), 8, 4, false).unwrap();
    assert!(layer.quantized_act_type().is_none());
}

#[test]
fn missing_offset_with_nested_chain() {
    // a nested chain whose additive offset is absent is a data-format
    // error at dequantization time
    let nested = BnbQuantParmas {
        absmax: f32_tensor(vec![1], &[2.0]),
        code: f32_tensor(vec![256], &[0.5f32; 256]),
        blocksize: 64,
        shape: None,
        nested: None,
        offset: None,
        dtype: BnbDType::F32,
    };
    let params = BnbQuantParmas {
        absmax: tensor(DType::U8, vec![64], vec![0u8; 64]),
        code: f32_tensor(vec![16], &[0.5f32; 16]),
        blocksize: 64,
        shape: Some(vec![64, 64]),
        nested: Some(Box::new(nested)),
        offset: None,
        dtype: BnbDType::F16,
    };
    let layer = BnbLinear::new(QuantMethodConfig::Bnb4bit {
        weight: tensor(DType::U8, vec![2048], vec![0u8; 2048]),
        bias: None,
        params,
        quant_ty: BnbQuantType::Nf4,
    });
    assert_eq!(layer.dequantize_w(DType::F16).unwrap_err(), QuantError::MissingOffset);
}

#[test]
fn missing_and_mistyped_tensors() {
    // SCB selects the 8-bit path, but the weight itself is absent
    let ckpt = Checkpoint {
        entries: vec![entry("SCB", f32_tensor(vec![4], &[1.0; 4]))],
    };
    assert_eq!(
        BnbLinear::linear_b(&ckpt, 8, 4, false).unwrap_err(),
        QuantError::MissingTensor
    );

    // an 8-bit weight stored under the wrong element type
    let ckpt = Checkpoint {
        entries: vec![
            entry("weight", tensor(DType::U8, vec![4, 8], vec![0u8; 32])),
            entry("SCB", f32_tensor(vec![4], &[1.0; 4])),
        ],
    };
    assert_eq!(
        BnbLinear::linear_b(&ckpt, 8, 4, false).unwrap_err(),
        QuantError::TensorDTypeMismatch { expected: DType::I8, got: DType::U8 }
    );
}

#[test]
fn oversized_shapes_are_rejected() {
    let r = TensorModel::new(DType::F32, vec![usize::MAX, 2], Device::Cpu, TensorData::Opaque);
    assert_eq!(r.unwrap_err(), QuantError::SizeOverflow);
}

#[test]
fn dequantize_w_produces_the_requested_type() {
    // the stored format is float16; requesting float32 appends a
    // conversion step and the output arrives in float32
    let blob = r#"{"blocksize": 64, "shape": [64, 64], "dtype": "float16"}"#;
    let layer = BnbLinear::linear_b(&nf4_checkpoint(blob), 64, 64, true).unwrap();
    let (ops, out) = layer.dequantize_w(DType::F32).unwrap();
    assert_eq!(out.dtype, DType::F32);
    assert_eq!(out.shape, vec![64, 64]);
    assert_eq!(ops.len(), 2);
    assert_eq!(ops[1], DequantOp::Convert(DType::F32));

    // forward with a float32 activation over the float16 weights:
    // the weight is dequantized to the activation's element type
    let xs = TensorModel::new(DType::F32, vec![2, 64], Device::Cpu, TensorData::Opaque).unwrap();
    let (fops, fout) = layer.forward(&xs).unwrap();
    assert_eq!(fout.dtype, DType::F32);
    assert_eq!(fout.shape, vec![2, 64]);
    assert_eq!(fops.last(), Some(&DequantOp::Convert(DType::F32)));

    // requesting the stored format itself adds no conversion
    let (ops, out) = layer.dequantize_w(DType::F16).unwrap();
    assert_eq!(out.dtype, DType::F16);
    assert_eq!(ops.len(), 1);
}

#[test]
fn non_json_marker_blob_rejected() {
    // a marker tensor whose bytes are not valid UTF-8 JSON must fail
    // construction fast with the malformed-metadata error
    let mut blob = br#"{"a":"x","blocksize":64,"shape":[64,64],"dtype":"float16"}"#.to_vec();
    assert_eq!(blob[6], b'x');
    blob[6] = 0xFF;
    let ckpt = Checkpoint {
        entries: vec![
            entry("weight", tensor(DType::U8, vec![2048], vec![0u8; 2048])),
            entry(
                "weight.quant_state.bitsandbytes__nf4",
                tensor(DType::U8, vec![blob.len()], blob),
            ),
            entry("weight.absmax", f32_tensor(vec![64], &[1.0f32; 64])),
            entry("weight.quant_map", f32_tensor(vec![16], &[0.25f32; 16])),
        ],
    };
    assert_eq!(
        BnbLinear::linear_b(&ckpt, 64, 64, false).unwrap_err(),
        QuantError::MalformedMetadata
    );
}
