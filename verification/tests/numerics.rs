use quant_backend::dispatch::SDPA_2PASS_BLOCKS;
use quant_backend::dtype::{BnbDType, BnbQuantType, DType};
use quant_backend::linear::{BnbLinear, DequantOp};
use quant_backend::metadata::Decimal;
use quant_backend::params::BnbQuantParmas;
use quant_backend::tensor::{Device, TensorData, TensorModel};

const NF4_TABLE: [f32; 16] = [
    -1.0,
    -0.6961928009986877,
    -0.5250730514526367,
    -0.39491748809814453,
    -0.28444138169288635,
    -0.18477343022823334,
    -0.09105003625154495,
    0.0,
    0.07958029955625534,
    0.16093020141124725,
    0.24611230194568634,
    0.33791524171829224,
    0.44070982933044434,
    0.5626170039176941,
    0.7229568362236023,
    1.0,
];

fn f32_tensor(shape: Vec<usize>, values: &[f32]) -> TensorModel {
    let mut bytes = Vec::new();
    for v in values {
        bytes.extend_from_slice(&v.to_bits().to_le_bytes());
    }
    TensorModel::new(DType::F32, shape, Device::Cpu, TensorData::Raw(bytes)).unwrap()
}

fn u8_tensor(shape: Vec<usize>, bytes: Vec<u8>) -> TensorModel {
    TensorModel::new(DType::U8, shape, Device::Cpu, TensorData::Raw(bytes)).unwrap()
}

// ---- code-table round trip (lookup is exact) ----

#[test]
fn code_table_round_trip_is_exact() {
    let table = f32_tensor(vec![16], &NF4_TABLE);
    for c in 0u8..16 {
        let bits = table.code_value_bits(c).unwrap();
        // the lookup reproduces the table value bit for bit
        assert_eq!(f32::from_bits(bits), NF4_TABLE[c as usize]);
        // searching the table for that pattern returns the same code
        assert_eq!(table.find_code(bits), Some(c));
    }
    // a pattern that is not in the table finds nothing
    assert_eq!(table.find_code(2.0f32.to_bits()), None);
}

#[test]
fn quantization_error_is_bounded_by_table_resolution() {
    // the widest gap between adjacent table entries bounds the error of
    // nearest-entry encoding
    let mut max_gap = 0.0f32;
    for w in NF4_TABLE.windows(2) {
        max_gap = max_gap.max(w[1] - w[0]);
    }
    let table = f32_tensor(vec![16], &NF4_TABLE);
    let mut v = -1.0f32;
    while v <= 1.0 {
        // encode: nearest table entry
        let mut best = 0usize;
        for (i, t) in NF4_TABLE.iter().enumerate() {
            if (t - v).abs() < (NF4_TABLE[best] - v).abs() {
                best = i;
            }
        }
        // decode: exact lookup through the library
        let bits = table.code_value_bits(best as u8).unwrap();
        let decoded = f32::from_bits(bits);
        assert!((decoded - v).abs() <= max_gap / 2.0 + 1e-6);
        v += 0.0437;
    }
}

// ---- nested dequantization transparency ----

/// Interprets a dequantization plan on raw values: the only float
/// arithmetic the kernels would do, replayed on the host.
fn run_plan(
    ops: &[DequantOp],
    weight_codes: &TensorModel,
    params: &BnbQuantParmas,
    table: &[f32],
    nested_table: &[f32],
) -> Vec<f32> {
    let mut scales: Vec<f32> = Vec::new();
    let mut out: Vec<f32> = Vec::new();
    for op in ops {
        match op {
            DequantOp::Kernel { quant_ty: BnbQuantType::Int8, n, blocksize, .. } => {
                // dequantize the packed scale table: one code byte per value
                let nested = params.nested.as_ref().unwrap();
                let codes = match &params.absmax.data {
                    TensorData::Raw(b) => b.clone(),
                    _ => panic!("packed scale table has no bytes"),
                };
                let nested_scales = match &nested.absmax.data {
                    TensorData::Raw(b) => b
                        .chunks(4)
                        .map(|c| f32::from_bits(u32::from_le_bytes([c[0], c[1], c[2], c[3]])))
                        .collect::<Vec<f32>>(),
                    _ => panic!("nested scale table has no bytes"),
                };
                scales = (0..*n)
                    .map(|i| nested_table[codes[i] as usize] * nested_scales[i / blocksize])
                    .collect();
            },
            DequantOp::AddOffset(d) => {
                let off = decimal_to_f32(*d);
                for s in scales.iter_mut() {
                    *s += off;
                }
            },
            DequantOp::Kernel { n, blocksize, .. } => {
                out = (0..*n)
                    .map(|i| {
                        let code = weight_codes.code_at(i).unwrap();
                        table[code as usize] * scales[i / blocksize]
                    })
                    .collect();
            },
            DequantOp::RowScaled { .. } | DequantOp::Convert(_) => {
                panic!("not part of this 4-bit plan")
            },
        }
    }
    out
}

fn decimal_to_f32(d: Decimal) -> f32 {
    let m = d.mantissa as f64 * 10f64.powi(d.exp10);
    if d.neg { -(m as f32) } else { m as f32 }
}

#[test]
fn nested_dequantization_is_transparent() {
    let n = 4096usize;
    let bs = 64usize;
    // packed weight: alternating nibbles
    let weight = u8_tensor(vec![n / 2], (0..n / 2).map(|i| (i % 251) as u8).collect());
    let nested_table: Vec<f32> = (0..256).map(|i| (i as f32 - 128.0) / 128.0).collect();
    let scale_codes: Vec<u8> = (0..64).map(|i| (3 * i % 256) as u8).collect();
    let offset = Decimal { neg: false, mantissa: 5, exp10: -1 };  // 0.5

    let nested = BnbQuantParmas {
        absmax: f32_tensor(vec![1], &[2.0]),
        code: f32_tensor(vec![256], &nested_table),
        blocksize: 64,
        shape: None,
        nested: None,
        offset: None,
        dtype: BnbDType::F32,
    };
    let params = BnbQuantParmas {
        absmax: u8_tensor(vec![64], scale_codes.clone()),
        code: f32_tensor(vec![16], &NF4_TABLE),
        blocksize: bs,
        shape: Some(vec![64, 64]),
        nested: Some(Box::new(nested)),
        offset: Some(offset),
        dtype: BnbDType::F32,
    };
    let (ops, out_desc) = BnbLinear::dequantize_4bit(&weight, &params, BnbQuantType::Nf4).unwrap();
    let nested_result = run_plan(&ops, &weight, &params, &NF4_TABLE, &nested_table);

    // directly supplying the already-dequantized scale table must give
    // the same values and the same output descriptor
    let direct_scales: Vec<f32> = (0..64)
        .map(|i| nested_table[scale_codes[i] as usize] * 2.0 + 0.5)
        .collect();
    let params_direct = BnbQuantParmas {
        absmax: f32_tensor(vec![64], &direct_scales),
        code: f32_tensor(vec![16], &NF4_TABLE),
        blocksize: bs,
        shape: Some(vec![64, 64]),
        nested: None,
        offset: None,
        dtype: BnbDType::F32,
    };
    let (_, direct_desc) = BnbLinear::dequantize_4bit(&weight, &params_direct, BnbQuantType::Nf4).unwrap();
    assert_eq!(out_desc.shape, direct_desc.shape);
    assert_eq!(out_desc.dtype, direct_desc.dtype);
    assert_eq!(out_desc.numel, direct_desc.numel);

    let direct_result: Vec<f32> = (0..n)
        .map(|i| NF4_TABLE[weight.code_at(i).unwrap() as usize] * direct_scales[i / bs])
        .collect();
    assert_eq!(nested_result.len(), n);
    for i in 0..n {
        assert_eq!(nested_result[i], direct_result[i], "element {i}");
    }
}

// ---- two-pass vector attention equals single-pass ----

fn round_to(v: f32, mantissa_drop: u32) -> f32 {
    if mantissa_drop == 0 {
        v
    } else {
        let mask: u32 = !((1u32 << mantissa_drop) - 1);
        f32::from_bits(v.to_bits() & mask)
    }
}

fn attention_single_pass(q: &[f32], keys: &[Vec<f32>], values: &[Vec<f32>], alpha: f32) -> Vec<f32> {
    let dim = q.len();
    let scores: Vec<f32> = keys
        .iter()
        .map(|k| alpha * q.iter().zip(k).map(|(a, b)| a * b).sum::<f32>())
        .collect();
    let max = scores.iter().cloned().fold(f32::NEG_INFINITY, f32::max);
    let weights: Vec<f32> = scores.iter().map(|s| (s - max).exp()).collect();
    let denom: f32 = weights.iter().sum();
    let mut out = vec![0.0f32; dim];
    for (w, v) in weights.iter().zip(values) {
        for d in 0..dim {
            out[d] += w * v[d];
        }
    }
    out.iter().map(|x| x / denom).collect()
}

fn attention_two_pass(q: &[f32], keys: &[Vec<f32>], values: &[Vec<f32>], alpha: f32) -> Vec<f32> {
    let dim = q.len();
    let n = keys.len();
    let blocks = SDPA_2PASS_BLOCKS;
    let per = n.div_ceil(blocks);
    // pass 1: per-block partial output, softmax sum and running max
    let mut partials: Vec<(Vec<f32>, f32, f32)> = Vec::new();
    for b in 0..blocks {
        let lo = (b * per).min(n);
        let hi = ((b + 1) * per).min(n);
        if lo == hi {
            partials.push((vec![0.0; dim], 0.0, f32::NEG_INFINITY));
            continue;
        }
        let scores: Vec<f32> = (lo..hi)
            .map(|i| alpha * q.iter().zip(&keys[i]).map(|(a, c)| a * c).sum::<f32>())
            .collect();
        let local_max = scores.iter().cloned().fold(f32::NEG_INFINITY, f32::max);
        let weights: Vec<f32> = scores.iter().map(|s| (s - local_max).exp()).collect();
        let sum: f32 = weights.iter().sum();
        let mut out = vec![0.0f32; dim];
        for (j, w) in weights.iter().enumerate() {
            for d in 0..dim {
                out[d] += w * values[lo + j][d];
            }
        }
        partials.push((out, sum, local_max));
    }
    // pass 2: numerically-stable online-softmax merge of the partials
    let global_max = partials.iter().map(|p| p.2).fold(f32::NEG_INFINITY, f32::max);
    let mut numer = vec![0.0f32; dim];
    let mut denom = 0.0f32;
    for (out, sum, local_max) in &partials {
        if *sum == 0.0 {
            continue;
        }
        let scale = (local_max - global_max).exp();
        denom += sum * scale;
        for d in 0..dim {
            numer[d] += out[d] * scale;
        }
    }
    numer.iter().map(|x| x / denom).collect()
}

#[test]
fn two_pass_attention_matches_single_pass() {
    // one each of head dims 64 and 128, and each element type's
    // precision (full 32-bit, bfloat16-rounded, half-rounded inputs)
    for &dim in &[64usize, 128] {
        for &drop in &[0u32, 16, 13] {
            let n = 300usize;
            let mut seed = 0x12345678u64;
            let mut rnd = || {
                seed = seed.wrapping_mul(6364136223846793005).wrapping_add(1442695040888963407);
                round_to(((seed >> 33) as f32) / (u32::MAX >> 1) as f32 - 0.5, drop)
            };
            let q: Vec<f32> = (0..dim).map(|_| rnd()).collect();
            let keys: Vec<Vec<f32>> = (0..n).map(|_| (0..dim).map(|_| rnd()).collect()).collect();
            let values: Vec<Vec<f32>> = (0..n).map(|_| (0..dim).map(|_| rnd()).collect()).collect();
            let alpha = 1.0 / (dim as f32).sqrt();
            let single = attention_single_pass(&q, &keys, &values, alpha);
            let two = attention_two_pass(&q, &keys, &values, alpha);
            for d in 0..dim {
                assert!(
                    (single[d] - two[d]).abs() <= 1e-4 + single[d].abs() * 1e-3,
                    "dim {dim} drop {drop} lane {d}: {} vs {}",
                    single[d],
                    two[d]
                );
            }
        }
    }
}
