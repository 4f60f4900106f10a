use fbparams::{
    params_to_blr, Double, IntoParams, ParamBuffer, ParamInfo, ParamType, Params, ParamsError,
    Timestamp, ToParam, XSqlVar,
};

const PREAMBLE: [u8; 4] = [5, 2, 4, 0];
const TEXT: u8 = 14;
const SHORT: u8 = 7;
const INT64: u8 = 16;
const DOUBLE: u8 = 27;
const TIMESTAMP: u8 = 35;
const END: [u8; 2] = [255, 76];

fn encode(params: &[ParamInfo]) -> (Vec<u8>, Vec<u8>) {
    let out = params_to_blr(params).ok().expect("encoding should succeed");
    (out.blr.to_vec(), out.values.to_vec())
}

#[test]
fn integer_then_text_scenario() {
    let params = vec![5i64.to_info(), "AB".to_info()];
    let (blr, values) = encode(&params);
    assert_eq!(
        values,
        vec![0, 0, 0, 0, 0, 0, 0, 5, 0, 0, 0, 0, 0x41, 0x42, 0, 0, 0, 0, 0, 0]
    );
    let mut expected = PREAMBLE.to_vec();
    expected.extend_from_slice(&[4, 0]);
    expected.extend_from_slice(&[INT64, 0, SHORT, 0]);
    expected.extend_from_slice(&[TEXT, 2, 0, SHORT, 0]);
    expected.extend_from_slice(&END);
    assert_eq!(blr, expected);
}

#[test]
fn integer_round_trip() {
    for i in [i64::MIN, -1, 0, 1, 5, 1 << 40, i64::MAX] {
        let info = i.to_info();
        assert_eq!(info.sqltype, ParamType::Integer);
        assert!(!info.null);
        let bytes: [u8; 8] = info.buffer.as_slice().try_into().unwrap();
        assert_eq!(i64::from_be_bytes(bytes), i);
    }
}

#[test]
fn narrow_integers_widen() {
    assert_eq!((-2i8).to_info().buffer, (-2i64).to_info().buffer);
    assert_eq!(200u8.to_info().buffer, 200i64.to_info().buffer);
    assert_eq!((-300i16).to_info().buffer, (-300i64).to_info().buffer);
    assert_eq!(65535u16.to_info().buffer, 65535i64.to_info().buffer);
    assert_eq!(i32::MIN.to_info().buffer, (i32::MIN as i64).to_info().buffer);
    assert_eq!(u32::MAX.to_info().buffer, vec![0, 0, 0, 0, 255, 255, 255, 255]);
}

#[test]
fn floating_round_trip() {
    for f in [0.0f64, -0.0, 1.5, -2.25e300, f64::MIN_POSITIVE, f64::INFINITY] {
        let info = Double { bits: f.to_bits() }.to_info();
        assert_eq!(info.sqltype, ParamType::Floating);
        let bytes: [u8; 8] = info.buffer.as_slice().try_into().unwrap();
        assert_eq!(f64::from_be_bytes(bytes).to_bits(), f.to_bits());
        assert_eq!(f64::from_be_bytes(bytes), f);
    }
    let g = 3.5f32;
    let info = Double { bits: (g as f64).to_bits() }.to_info();
    let bytes: [u8; 8] = info.buffer.as_slice().try_into().unwrap();
    assert_eq!(f64::from_be_bytes(bytes), 3.5f64);
}

#[test]
fn text_length_and_padding() {
    let (blr, values) = encode(&["hello".to_string().to_info()]);
    assert_eq!(u16::from_le_bytes([blr[7], blr[8]]), 5);
    assert_eq!(blr[6], TEXT);
    assert_eq!(values, b"hello\0\0\0\0\0\0\0".to_vec());
    let (blr, values) = encode(&["abcd".to_info()]);
    assert_eq!(u16::from_le_bytes([blr[7], blr[8]]), 4);
    assert_eq!(values, b"abcd\0\0\0\0".to_vec());
}

#[test]
fn text_is_utf8_bytes() {
    let info = "é".to_info();
    assert_eq!(info.buffer, vec![0xc3, 0xa9]);
    let (blr, _) = encode(&[info]);
    assert_eq!(u16::from_le_bytes([blr[7], blr[8]]), 2);
}

#[test]
fn text_of_largest_length() {
    let s = "x".repeat(32767);
    let (blr, values) = encode(&[s.to_info()]);
    assert_eq!(u16::from_le_bytes([blr[7], blr[8]]), 32767);
    assert_eq!(values.len(), 32768 + 4);
    assert_eq!(values[32767], 0);
}

#[test]
fn null_parameter() {
    let info = None::<i64>.to_info();
    assert_eq!(info.sqltype, ParamType::Null);
    assert!(info.null);
    assert!(info.buffer.is_empty());
    let (blr, values) = encode(&[info]);
    assert_eq!(values, vec![255, 255, 255, 255]);
    let mut expected = PREAMBLE.to_vec();
    expected.extend_from_slice(&[2, 0, TEXT, 0, 0, SHORT, 0]);
    expected.extend_from_slice(&END);
    assert_eq!(blr, expected);
}

#[test]
fn present_option_converts_as_inner() {
    assert_eq!(Some(7i64).to_info().buffer, 7i64.to_info().buffer);
    assert_eq!(Some(7i64).to_info().sqltype, ParamType::Integer);
    assert!(!Some("a").to_info().null);
}

#[test]
fn borrowed_text_converts_as_owned() {
    let owned = String::from("quux");
    let a = (&owned).to_info();
    let b = owned.as_str().to_info();
    let c = owned.clone().to_info();
    assert_eq!(a.buffer, c.buffer);
    assert_eq!(b.buffer, c.buffer);
    assert_eq!(a.sqltype, c.sqltype);
}

#[test]
fn count_is_twice_the_parameters() {
    for n in 0..20usize {
        let params: Vec<ParamInfo> = (0..n).map(|i| (i as i64).to_info()).collect();
        let (blr, values) = encode(&params);
        assert_eq!(u16::from_le_bytes([blr[4], blr[5]]) as usize, 2 * n);
        assert_eq!(&blr[blr.len() - 2..], &END);
        assert_eq!(&blr[..4], &PREAMBLE);
        assert_eq!(values.len(), 12 * n);
    }
}

#[test]
fn empty_list() {
    let (blr, values) = encode(&[]);
    assert_eq!(blr, vec![5, 2, 4, 0, 0, 0, 255, 76]);
    assert!(values.is_empty());
}

#[test]
fn too_large_value_fails() {
    let s = "y".repeat(32768);
    let r = params_to_blr(&[1i64.to_info(), s.to_info()]);
    assert!(matches!(r, Err(ParamsError::ValueTooLarge)));
    let big = vec![0u8; 65536];
    let info = ParamInfo { sqltype: ParamType::Text, buffer: big, null: false };
    assert!(matches!(params_to_blr(&[info]), Err(ParamsError::ValueTooLarge)));
}

#[test]
fn other_kinds_descriptors() {
    let ts = Timestamp { date: 58000, time: 36_000_000 };
    let (blr, values) = encode(&[Double { bits: 1.0f64.to_bits() }.to_info(), ts.to_info()]);
    let mut expected = PREAMBLE.to_vec();
    expected.extend_from_slice(&[4, 0, DOUBLE, SHORT, 0, TIMESTAMP, SHORT, 0]);
    expected.extend_from_slice(&END);
    assert_eq!(blr, expected);
    let mut v = 1.0f64.to_be_bytes().to_vec();
    v.extend_from_slice(&[0, 0, 0, 0]);
    v.extend_from_slice(&58000i32.to_be_bytes());
    v.extend_from_slice(&36_000_000u32.to_be_bytes());
    v.extend_from_slice(&[0, 0, 0, 0]);
    assert_eq!(values, v);
}

#[test]
fn timestamp_bytes() {
    let info = Timestamp { date: -1, time: 1 }.to_info();
    assert_eq!(info.sqltype, ParamType::Timestamp);
    assert_eq!(info.buffer, vec![255, 255, 255, 255, 0, 0, 0, 1]);
}

#[test]
fn list_arities_keep_order() {
    assert!(().to_params().is_empty());
    let one = (1i64,).to_params();
    assert_eq!(one.len(), 1);
    assert_eq!(one[0].buffer, 1i64.to_info().buffer);
    let three = (1i64, "b", None::<i32>).to_params();
    assert_eq!(three.len(), 3);
    assert_eq!(three[0].sqltype, ParamType::Integer);
    assert_eq!(three[1].sqltype, ParamType::Text);
    assert_eq!(three[2].sqltype, ParamType::Null);
    let fifteen = (
        0i64, 1i64, 2i64, 3i64, 4i64, 5i64, 6i64, 7i64, 8i64, 9i64, 10i64, 11i64, 12i64, 13i64,
        14i64,
    )
        .to_params();
    assert_eq!(fifteen.len(), 15);
    for (k, p) in fifteen.iter().enumerate() {
        assert_eq!(p.buffer, (k as i64).to_info().buffer);
    }
    let seven = (1u8, 2i16, 3u16, 4i32, 5u32, 6i64, "7").to_params();
    assert_eq!(seven.len(), 7);
    assert_eq!(seven[6].buffer, b"7".to_vec());
}

#[test]
fn native_variable_from_parameter() {
    let mut var = XSqlVar::new();
    let b: ParamBuffer = ParamBuffer::from_parameter("abc".to_info(), &mut var);
    assert_eq!(var.sqltype, 453);
    assert_eq!(var.sqlscale, 0);
    assert_eq!(var.sqllen, 3);
    assert_eq!(b.buffer, b"abc".to_vec());
    assert_eq!(b.nullind, 0);

    let mut var = XSqlVar::new();
    let b = ParamBuffer::from_parameter(None::<String>.to_info(), &mut var);
    assert_eq!(var.sqltype, 32767);
    assert_eq!(var.sqllen, 0);
    assert_eq!(b.nullind, -1);

    let mut var = XSqlVar::new();
    ParamBuffer::from_parameter(9i64.to_info(), &mut var);
    assert_eq!((var.sqltype, var.sqllen), (581, 8));
    ParamBuffer::from_parameter(Double { bits: 0 }.to_info(), &mut var);
    assert_eq!(var.sqltype, 481);
    ParamBuffer::from_parameter(Timestamp { date: 0, time: 0 }.to_info(), &mut var);
    assert_eq!(var.sqltype, 511);
}

#[test]
fn native_params_immediate() {
    let p = Params::new_immediate(vec![]);
    assert!(p.xsqlda.is_none());
    assert!(p.buffers.is_empty());

    let p = Params::new_immediate((1i64, "xy").to_params());
    let da = p.xsqlda.as_ref().unwrap();
    assert_eq!((da.sqln, da.sqld), (2, 2));
    assert_eq!(da.vars.len(), 2);
    assert_eq!(da.vars[0].sqltype, 581);
    assert_eq!(da.vars[1].sqllen, 2);
    assert_eq!(p.buffers[1].buffer, b"xy".to_vec());
}

#[test]
fn native_params_checks_count() {
    let r = Params::new((1i64, 2i64).to_params(), 3);
    assert!(matches!(r, Err(ParamsError::WrongParamCount { passed: 2, needed: 3 })));
    let p = Params::new((1i64, 2i64).to_params(), 2).ok().unwrap();
    assert_eq!(p.xsqlda.unwrap().sqld, 2);
    let p = Params::new(vec![], 4).ok().unwrap();
    assert!(p.xsqlda.is_none());
}

#[test]
fn record_built_by_hand() {
    let info = ParamInfo { sqltype: ParamType::Integer, buffer: vec![0; 8], null: false };
    let (blr, values) = encode(&[info]);
    assert_eq!(blr.len(), 4 + 2 + 4 + 2);
    assert_eq!(values, vec![0; 12]);
}
