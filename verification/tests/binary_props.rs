use std::convert::TryInto;

use value_pipeline::binary::{action, into_binary};
use value_pipeline::pipeline::{no_cancel, PipelineData};
use value_pipeline::value::{Date, ShellError, Span, Value};

fn sp(start: usize, end: usize) -> Span {
    Span { start, end }
}

fn binary_bytes(v: Value) -> Vec<u8> {
    match action(v, sp(0, 0)) {
        Value::Binary { val, .. } => val,
        other => panic!("expected a binary value, got {:?}", other),
    }
}

#[test]
fn fixed_width_variants_encode_to_eight_bytes() {
    assert_eq!(binary_bytes(Value::Int { val: 123, span: sp(0, 0) }).len(), 8);
    assert_eq!(binary_bytes(Value::Filesize { val: 123, span: sp(0, 0) }).len(), 8);
    assert_eq!(binary_bytes(Value::Bool { val: false, span: sp(0, 0) }).len(), 8);
    assert_eq!(
        binary_bytes(Value::Float { bits: 1.234f64.to_bits(), span: sp(0, 0) }).len(),
        8
    );
}

#[test]
fn string_encodes_to_its_utf8_bytes() {
    let bytes = binary_bytes(Value::String { val: "hi".to_string(), span: sp(0, 0) });
    assert_eq!(bytes, vec![0x68u8, 0x69u8]);
    assert_eq!(bytes.len(), 2);
}

#[test]
fn date_encodes_to_its_formatted_text() {
    let epoch = 1634929212i64;
    let offset = 3600i32;
    let date = Value::Date { val: Date { epoch, offset }, span: sp(0, 0) };
    let expected = chrono::DateTime::from_timestamp(epoch, 0)
        .unwrap()
        .with_timezone(&chrono::FixedOffset::east_opt(offset).unwrap())
        .format("%c")
        .to_string()
        .into_bytes();
    assert!(!expected.is_empty());
    assert_eq!(binary_bytes(date), expected);
}

#[test]
fn action_is_idempotent_on_binary_input() {
    let once = action(Value::Binary { val: vec![9u8, 8u8, 7u8], span: sp(3, 5) }, sp(0, 0));
    assert_eq!(once, Value::Binary { val: vec![9u8, 8u8, 7u8], span: sp(3, 5) });
    let twice = action(once, sp(0, 0));
    assert_eq!(twice, Value::Binary { val: vec![9u8, 8u8, 7u8], span: sp(3, 5) });
}

#[test]
fn integer_round_trips_through_its_encoding() {
    for n in [0i64, 1, -1, i64::MIN, i64::MAX] {
        let bytes = binary_bytes(Value::Int { val: n, span: sp(0, 0) });
        let raw: [u8; 8] = bytes.as_slice().try_into().unwrap();
        assert_eq!(i64::from_le_bytes(raw), n);
    }
}

#[test]
fn booleans_encode_as_the_integers_one_and_zero() {
    assert_eq!(
        binary_bytes(Value::Bool { val: true, span: sp(0, 0) }),
        binary_bytes(Value::Int { val: 1, span: sp(0, 0) })
    );
    assert_eq!(
        binary_bytes(Value::Bool { val: false, span: sp(0, 0) }),
        binary_bytes(Value::Int { val: 0, span: sp(0, 0) })
    );
}

#[test]
fn float_encodes_as_its_ieee_bytes() {
    let bytes = binary_bytes(Value::Float { bits: 1.234f64.to_bits(), span: sp(0, 0) });
    assert_eq!(bytes, 1.234f64.to_le_bytes().to_vec());
}

#[test]
fn filesize_encodes_as_an_integer_byte_count() {
    assert_eq!(
        binary_bytes(Value::Filesize { val: 4096, span: sp(0, 0) }),
        binary_bytes(Value::Int { val: 4096, span: sp(0, 0) })
    );
}

#[test]
fn unsupported_variant_becomes_an_error_value() {
    let out = action(Value::List { vals: Vec::new(), span: sp(0, 0) }, sp(2, 4));
    assert_eq!(
        out,
        Value::Error {
            error: ShellError::UnsupportedInput(
                "'into binary' for unsupported type".to_string(),
                sp(2, 4),
            ),
        }
    );
}

#[test]
fn unsupported_element_does_not_abort_its_batch() {
    let input = PipelineData::Stream(vec![
        Value::Int { val: 1, span: sp(0, 0) },
        Value::List { vals: Vec::new(), span: sp(0, 0) },
        Value::Bool { val: true, span: sp(0, 0) },
    ]);
    let out = into_binary(sp(0, 0), input, no_cancel).unwrap();
    match out {
        PipelineData::Stream(vals) => {
            assert_eq!(vals.len(), 3);
            assert!(matches!(vals[0], Value::Binary { .. }));
            assert!(matches!(vals[1], Value::Error { .. }));
            assert!(matches!(vals[2], Value::Binary { .. }));
        }
        other => panic!("expected a stream, got {:?}", other),
    }
}
