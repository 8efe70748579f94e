use quant_backend::dispatch::{
    call_dequant_bnb_8bit, call_dequant_bnb_nf4, call_sdpa_full, call_sdpa_vector,
    call_sdpa_vector_2pass, BufferRole, F32Scalar, ParamDesc, SDPA_2PASS_BLOCKS,
};
use quant_backend::dtype::DType;
use quant_backend::kernels::{
    DeviceModel, Kernels, MetalKernelError, SdpaDType, SdpaVariation, Source,
};
use quant_backend::resolve::{
    resolve_dequant_8bit, resolve_dequant_nf4, resolve_sdpa_full, resolve_sdpa_vector,
    resolve_sdpa_vector_2pass_1,
};

#[test]
fn pipeline_cache_second_load_returns_cached_handle() {
    let mut k = Kernels::new();
    let dev = DeviceModel::healthy(0);
    let name = "sdpa_vector_float_64".to_owned();
    let p1 = k.load_pipeline(&dev, Source::Sdpa, &name).unwrap();
    let libs = k.libraries.len();
    let pipes = k.pipelines.len();
    let p2 = k.load_pipeline(&dev, Source::Sdpa, &name).unwrap();
    // observably the same cached object: same build, nothing recompiled
    assert_eq!(p1.name, p2.name);
    assert_eq!(p1.build_id, p2.build_id);
    assert_eq!(k.libraries.len(), libs);
    assert_eq!(k.pipelines.len(), pipes);
}

#[test]
fn pipeline_cache_two_functions_share_one_library() {
    let mut k = Kernels::new();
    let dev = DeviceModel::healthy(0);
    let a = k
        .load_pipeline(&dev, Source::Sdpa, &"sdpa_vector_float_64".to_owned())
        .unwrap();
    let b = k
        .load_pipeline(&dev, Source::Sdpa, &"sdpa_vector_float_128".to_owned())
        .unwrap();
    assert_ne!(a.name, b.name);
    assert_eq!(k.libraries.len(), 1);
    assert_eq!(k.pipelines.len(), 2);
}

#[test]
fn pipeline_cache_error_kinds() {
    let name = "kernel_dequantize_nf4_float".to_owned();

    let mut k = Kernels::new();
    let mut dev = DeviceModel::healthy(0);
    dev.broken_sources.push(Source::BnbDequant);
    match k.load_pipeline(&dev, Source::BnbDequant, &name) {
        Err(MetalKernelError::LoadLibraryError(_)) => {},
        other => panic!("expected LoadLibraryError, got {other:?}"),
    }
    assert_eq!(k.pipelines.len(), 0);

    let mut k = Kernels::new();
    let mut dev = DeviceModel::healthy(0);
    dev.missing_functions.push(name.clone());
    match k.load_pipeline(&dev, Source::BnbDequant, &name) {
        Err(MetalKernelError::LoadFunctionError(_)) => {},
        other => panic!("expected LoadFunctionError, got {other:?}"),
    }
    // the library itself compiled and stays cached
    assert_eq!(k.libraries.len(), 1);
    assert_eq!(k.pipelines.len(), 0);

    let mut k = Kernels::new();
    let mut dev = DeviceModel::healthy(0);
    dev.broken_pipelines.push(name.clone());
    match k.load_pipeline(&dev, Source::BnbDequant, &name) {
        Err(MetalKernelError::FailedToCreatePipeline(_)) => {},
        other => panic!("expected FailedToCreatePipeline, got {other:?}"),
    }
    assert_eq!(k.pipelines.len(), 0);
}

#[test]
fn library_source_registry() {
    let k = Kernels::new();
    assert_eq!(k.get_library_source(Source::BnbDequant), "bnb_dequantize");
    assert_eq!(k.get_library_source(Source::Sdpa), "sdpa");
}

#[test]
fn resolver_vector_returns_stable_specific_name() {
    let a = resolve_sdpa_vector(64, SdpaDType::F16).unwrap();
    let b = resolve_sdpa_vector(64, SdpaDType::F16).unwrap();
    assert_eq!(a, "sdpa_vector_float16_t_64");
    assert_eq!(a, b);
    match resolve_sdpa_vector(17, SdpaDType::F16) {
        Err(MetalKernelError::SdpaHeadSizeMismatch { variation, got, expected }) => {
            assert_eq!(variation, SdpaVariation::Vector);
            assert_eq!(got, 17);
            assert_eq!(expected, vec![32, 64, 96, 128, 256]);
        },
        other => panic!("expected SdpaHeadSizeMismatch, got {other:?}"),
    }
}

#[test]
fn resolver_full_and_two_pass_names() {
    assert_eq!(
        resolve_sdpa_full(64, SdpaDType::F32).unwrap(),
        "steel_gemm_attention_bm_16_bn_16_bk_64_itype_float"
    );
    assert_eq!(
        resolve_sdpa_vector_2pass_1(128, SdpaDType::BF16).unwrap(),
        "sdpa_vector_2pass_1_bfloat16_t_128"
    );
    // unsupported head size on a bfloat16 full attention reports the type
    match resolve_sdpa_full(17, SdpaDType::BF16) {
        Err(MetalKernelError::SdpaHeadDTypeMismatch { variation, got }) => {
            assert_eq!(variation, SdpaVariation::Full);
            assert_eq!(got, SdpaDType::BF16);
        },
        other => panic!("expected SdpaHeadDTypeMismatch, got {other:?}"),
    }
}

#[test]
fn resolver_dequant_names_and_dtype_error() {
    assert_eq!(resolve_dequant_nf4(DType::F32).unwrap(), "kernel_dequantize_nf4_float");
    assert_eq!(resolve_dequant_nf4(DType::BF16).unwrap(), "kernel_dequantize_nf4_bfloat16_t");
    assert_eq!(resolve_dequant_8bit(DType::F16).unwrap(), "kernel_dequantize_8bit_half");
    match resolve_dequant_nf4(DType::U8) {
        Err(MetalKernelError::DTypeMismatch { expected, got }) => {
            assert_eq!(expected, vec![DType::F32, DType::F16, DType::BF16]);
            assert_eq!(got, DType::U8);
        },
        other => panic!("expected DTypeMismatch, got {other:?}"),
    }
}

#[test]
fn dequant_plan_parameter_order_and_split() {
    let plan = call_dequant_bnb_nf4(DType::F16, 8, 16, 0, 64, 128, 1024).unwrap();
    assert_eq!(plan.kernel_name, "kernel_dequantize_nf4_half");
    assert_eq!(plan.source, Source::BnbDequant);
    assert_eq!(
        plan.params,
        vec![
            ParamDesc::Buf(BufferRole::Code, 0),
            ParamDesc::Buf(BufferRole::Input, 8),
            ParamDesc::Buf(BufferRole::Absmax, 16),
            ParamDesc::Buf(BufferRole::Output, 0),
            ParamDesc::I32(64),
            ParamDesc::I32(128),
        ]
    );
    // 128 items over threadgroups of up to 1024 threads: one group of 128
    assert_eq!((plan.grid.width, plan.grid.height, plan.grid.depth), (1, 1, 1));
    assert_eq!((plan.group.width, plan.group.height, plan.group.depth), (128, 1, 1));

    // more items than the thread limit: ceiling division
    let plan = call_dequant_bnb_8bit(DType::F32, 0, 0, 4, 8, 2500, 1024).unwrap();
    assert_eq!(plan.kernel_name, "kernel_dequantize_8bit_float");
    assert_eq!((plan.grid.width, plan.group.width), (3, 1024));
    assert_eq!(plan.params[3..], [
        ParamDesc::Usize(4),
        ParamDesc::Usize(8),
        ParamDesc::Usize(2500),
    ]);
}

#[test]
fn sdpa_vector_plan_geometry_and_alpha() {
    let q_shape = vec![2usize, 8, 1, 64];
    let k_shape = vec![2usize, 2, 100, 64];
    let k_stride = vec![640000usize, 6400];
    let v_stride = vec![640000usize, 6400];
    let alpha = 0.125f32.to_bits();
    let one = 1.0f32.to_bits();
    let plan = call_sdpa_vector(0, &q_shape, 0, &k_shape, &k_stride, 0, &v_stride, alpha, one,
        SdpaDType::F32)
        .unwrap();
    assert_eq!(plan.kernel_name, "sdpa_vector_float_64");
    // one threadgroup row per flattened batch x query-head
    assert_eq!((plan.grid.width, plan.grid.height, plan.grid.depth), (1, 16, 1));
    assert_eq!(plan.group.width, 1024);
    // grouped-query broadcast factor 8 / 2 = 4, key length 100
    assert_eq!(plan.params[4], ParamDesc::I32(4));
    assert_eq!(plan.params[5], ParamDesc::I32(100));
    assert_eq!(plan.params[6], ParamDesc::Usize(6400));
    // soft-capping disabled: plain alpha
    assert_eq!(plan.params[8], ParamDesc::F32(F32Scalar::Bits(alpha)));

    // soft-capping enabled: the scale is pre-divided by the cap
    let two = 2.0f32.to_bits();
    let plan = call_sdpa_vector(0, &q_shape, 0, &k_shape, &k_stride, 0, &v_stride, alpha, two,
        SdpaDType::F32)
        .unwrap();
    assert_eq!(plan.params[8], ParamDesc::F32(F32Scalar::Quot(alpha, two)));
    assert_eq!(plan.params[9], ParamDesc::F32(F32Scalar::Bits(two)));
}

#[test]
fn sdpa_two_pass_plan_splits_into_fixed_blocks() {
    let q_shape = vec![1usize, 8, 1, 128];
    let k_shape = vec![1usize, 8, 4096, 128];
    let k_stride = vec![4194304usize, 524288];
    let v_stride = vec![4194304usize, 524288];
    let one = 1.0f32.to_bits();
    let plan = call_sdpa_vector_2pass(0, &q_shape, 0, &k_shape, &k_stride, 0, &v_stride,
        1.0f32.to_bits(), one, SdpaDType::F16)
        .unwrap();
    assert_eq!(plan.pass1.kernel_name, "sdpa_vector_2pass_1_float16_t_128");
    assert_eq!(plan.pass2.kernel_name, "sdpa_vector_2pass_2_float16_t_128");
    // pass 1: one threadgroup per (batch x head, block) pair
    assert_eq!(plan.pass1.grid.height, 8);
    assert_eq!(plan.pass1.grid.depth as usize, SDPA_2PASS_BLOCKS);
    assert_eq!(plan.pass1.group.width, 256);
    // pass 2: one threadgroup per batch x head, merging the partials
    assert_eq!((plan.pass2.grid.height, plan.pass2.grid.depth), (8, 1));
    assert_eq!(plan.pass2.group.width, 1024);
    assert_eq!(
        plan.pass2.params,
        vec![
            ParamDesc::Buf(BufferRole::Intermediate, 0),
            ParamDesc::Buf(BufferRole::Sums, 0),
            ParamDesc::Buf(BufferRole::Maxs, 0),
            ParamDesc::Buf(BufferRole::Output, 0),
        ]
    );
}

#[test]
fn sdpa_full_plan_parameter_block() {
    let q_shape = vec![1usize, 2, 32, 64];
    let alpha = 0.125f32.to_bits();
    let cap = 30.0f32.to_bits();
    let plan = call_sdpa_full(0, &q_shape, 0, 0, alpha, cap, SdpaDType::F16).unwrap();
    assert_eq!(plan.kernel_name, "steel_gemm_attention_bm_16_bn_16_bk_64_itype_half");
    match plan.params[4] {
        ParamDesc::AttnParams(p) => {
            assert_eq!((p.m, p.n, p.k), (32, 32, 64));
            assert_eq!((p.ldq, p.ldk, p.ldv, p.lds, p.ldo), (64, 64, 64, 16, 64));
            assert_eq!((p.tiles_n, p.tiles_m), (1, 2));
            assert_eq!(p.batch_stride_q, 2048);
            assert_eq!(p.swizzle_log, 0);
            assert_eq!(
                (p.gemm_n_iterations_aligned, p.gemm_k_iterations_aligned,
                    p.gemm_sv_m_block_iterations),
                (2, 1, 2)
            );
            assert_eq!(p.batch_ndim, 1);
            assert_eq!(p.alpha, F32Scalar::Quot(alpha, cap));
            assert_eq!(p.softcapping, cap);
        },
        ref other => panic!("expected the parameter block, got {other:?}"),
    }
    assert_eq!(plan.params[5], ParamDesc::Shape1(2));
    assert_eq!(plan.params[6], ParamDesc::Strides4(2048, 2048, 2048, 2048));
    assert_eq!((plan.grid.width, plan.grid.height, plan.grid.depth), (1, 2, 2));
    assert_eq!(
        (plan.group.width, plan.group.height, plan.group.depth),
        (32, 2, 2)
    );
}
