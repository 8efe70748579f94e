use quant_backend::dtype::BnbDType;
use quant_backend::error::QuantError;
use quant_backend::metadata::{parse_quant_metadata, BnbQuantState};

fn parse(s: &str) -> Result<BnbQuantState, QuantError> {
    parse_quant_metadata(&s.as_bytes().to_vec())
}

#[test]
fn metadata_basic_fields() {
    let st = parse(r#"{"blocksize": 64, "shape": [16, 32], "dtype": "float16"}"#).unwrap();
    assert_eq!(st.blocksize, 64);
    assert_eq!(st.shape, vec![16, 32]);
    assert!(matches!(st.dtype, BnbDType::F16));
    assert!(st.nested_blocksize.is_none());
    assert!(st.nested_offset.is_none());
    assert!(st.nested_dtype.is_none());
}

#[test]
fn metadata_nested_fields_and_offset_value() {
    let text = r#"{"blocksize":64,"dtype":"bfloat16","shape":[4096],"nested_blocksize":256,"nested_dtype":"float32","nested_offset":0.03125}"#;
    let st = parse(text).unwrap();
    assert!(matches!(st.dtype, BnbDType::BF16));
    assert_eq!(st.nested_blocksize, Some(256));
    assert!(matches!(st.nested_dtype, Some(BnbDType::F32)));
    let d = st.nested_offset.unwrap();
    assert!(!d.neg);
    assert_eq!(d.mantissa, 3125);
    assert_eq!(d.exp10, -5);
    // the decimal denotes the same number serde_json reads
    let v: serde_json::Value = serde_json::from_str(text).unwrap();
    let f = v["nested_offset"].as_f64().unwrap();
    let ours = (d.mantissa as f64) * 10f64.powi(d.exp10);
    assert!((f - ours).abs() <= f.abs() * 1e-12);
}

#[test]
fn metadata_negative_offset_with_exponent() {
    let st = parse(r#"{"blocksize":128,"shape":[8],"dtype":"float32","nested_offset":-2.5e-3}"#)
        .unwrap();
    let d = st.nested_offset.unwrap();
    assert!(d.neg);
    assert_eq!(d.mantissa, 25);
    assert_eq!(d.exp10, -4);
    let ours = -(d.mantissa as f64) * 10f64.powi(d.exp10);
    assert!((ours - (-0.0025)).abs() < 1e-15);
}

#[test]
fn metadata_unknown_keys_are_skipped() {
    let text = r#"{
        "absmax": [1.5, 2.25, -3.0e2],
        "quant_type": "nf4",
        "extras": {"a": [true, false, null], "b": "with spaces"},
        "blocksize": 4096,
        "shape": [64, 64],
        "dtype": "float32"
    }"#;
    let st = parse(text).unwrap();
    assert_eq!(st.blocksize, 4096);
    assert_eq!(st.shape, vec![64, 64]);
    assert!(matches!(st.dtype, BnbDType::F32));
}

#[test]
fn metadata_malformed_inputs_rejected() {
    let bad = [
        "",
        "{",
        "[1, 2]",
        r#"{"blocksize": 64, "shape": [16]}"#,                         // dtype missing
        r#"{"shape": [16], "dtype": "float16"}"#,                      // blocksize missing
        r#"{"blocksize": 64, "dtype": "float16"}"#,                    // shape missing
        r#"{"blocksize": 64, "shape": [16], "dtype": "float8"}"#,      // unknown dtype
        r#"{"blocksize": 64, "shape": [16], "dtype": "float16"} junk"#,
        r#"{"blocksize": 64, "blocksize": 64, "shape": [16], "dtype": "float16"}"#,
        r#"{"blocksize": -64, "shape": [16], "dtype": "float16"}"#,    // negative integer
        r#"{"blocksize": 64, "shape": [16,], "dtype": "float16"}"#,    // trailing comma
        r#"{"blocksize": 064, "shape": [16], "dtype": "float16"}"#,    // leading zero
        r#"{"blocksize": 64, "shape": [016], "dtype": "float16"}"#,    // leading zero
        r#"{"blocksize": 64, "shape": [16], "dtype": "float16", "nested_offset": 00.5}"#,
    ];
    for text in bad {
        assert_eq!(
            parse(text).unwrap_err(),
            QuantError::MalformedMetadata,
            "accepted: {text}"
        );
    }
}

#[test]
fn metadata_acceptance_agrees_with_serde_on_wire_blobs() {
    // everything this decoder accepts must be JSON that serde_json accepts too
    let blobs = [
        r#"{"blocksize": 64, "shape": [16, 32], "dtype": "float16"}"#,
        r#"{"blocksize":64,"dtype":"bfloat16","shape":[4096],"nested_blocksize":256,"nested_dtype":"float32","nested_offset":0.0386962890625}"#,
        r#"  {  "blocksize" : 2048 , "shape" : [ ] , "dtype" : "float32" }  "#,
    ];
    for text in blobs {
        let ours = parse(text);
        assert!(ours.is_ok(), "rejected: {text}");
        let theirs: Result<serde_json::Value, _> = serde_json::from_str(text);
        assert!(theirs.is_ok());
    }
}

#[test]
fn metadata_exponent_leading_zeros_accepted() {
    // JSON forbids redundant leading zeros on integers but allows them
    // in exponents
    let st = parse(r#"{"blocksize":64,"shape":[8],"dtype":"float32","nested_offset":5e007}"#)
        .unwrap();
    let d = st.nested_offset.unwrap();
    assert_eq!((d.neg, d.mantissa, d.exp10), (false, 5, 7));
    // a single zero is a valid integer token
    let st = parse(r#"{"blocksize":64,"shape":[0],"dtype":"float32","nested_offset":0.25}"#)
        .unwrap();
    assert_eq!(st.shape, vec![0]);
}

#[test]
fn metadata_non_utf8_and_control_bytes_rejected() {
    // a raw 0xFF byte inside a string value: not valid UTF-8, so not
    // valid JSON
    let mut blob = br#"{"a":"x","blocksize":64,"shape":[8],"dtype":"float16"}"#.to_vec();
    let pos = 6;  // the byte holding 'x'
    assert_eq!(blob[pos], b'x');
    blob[pos] = 0xFF;
    assert_eq!(
        parse_quant_metadata(&blob).unwrap_err(),
        QuantError::MalformedMetadata
    );
    // serde_json rejects the same bytes
    assert!(serde_json::from_slice::<serde_json::Value>(&blob).is_err());

    // a raw control byte inside a string: JSON forbids it
    blob[pos] = 0x01;
    assert_eq!(
        parse_quant_metadata(&blob).unwrap_err(),
        QuantError::MalformedMetadata
    );
    assert!(serde_json::from_slice::<serde_json::Value>(&blob).is_err());

    // a multi-byte UTF-8 string under an unknown key is also rejected
    // (deliberate ASCII-only strictness, disclosed on the decoder)
    let blob = "{\"a\":\"\u{00e9}\",\"blocksize\":64,\"shape\":[8],\"dtype\":\"float16\"}";
    assert_eq!(
        parse(blob).unwrap_err(),
        QuantError::MalformedMetadata
    );
}
