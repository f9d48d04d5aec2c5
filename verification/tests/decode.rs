//! Tests of classification and decoding: which raw values are accepted,
//! which are rejected, and what the whole operation returns.

use chaos::data::{Data, DataResponse};
use chaos::decode::{classify, decode_request, handle_raw, DecodeError, RawValue};

#[test]
fn classify_small_integer() {
    assert_eq!(classify(RawValue::Uint(7)), Ok(Data::Int(7)));
}

#[test]
fn classify_largest_integer() {
    assert_eq!(
        classify(RawValue::Uint(u32::MAX as u64)),
        Ok(Data::Int(u32::MAX))
    );
}

#[test]
fn classify_rejects_integer_out_of_range() {
    assert_eq!(
        classify(RawValue::Uint(u32::MAX as u64 + 1)),
        Err(DecodeError)
    );
}

#[test]
fn classify_text() {
    assert_eq!(
        classify(RawValue::Text(String::from("ab"))),
        Ok(Data::Text(String::from("ab")))
    );
}

#[test]
fn classify_rejects_other_shapes() {
    // A boolean in the input list arrives as a value of neither shape.
    assert_eq!(classify(RawValue::Other), Err(DecodeError));
}

#[test]
fn decode_request_keeps_order() {
    let decoded = decode_request(vec![
        RawValue::Uint(1),
        RawValue::Text(String::from("ab")),
        RawValue::Uint(2),
    ])
    .unwrap();
    assert_eq!(
        decoded.data,
        vec![Data::Int(1), Data::Text(String::from("ab")), Data::Int(2)]
    );
}

#[test]
fn decode_request_rejects_unclassifiable_value() {
    let result = decode_request(vec![RawValue::Uint(1), RawValue::Other]);
    assert_eq!(result, Err(DecodeError));
}

#[test]
fn decode_request_of_empty_list() {
    let decoded = decode_request(vec![]).unwrap();
    assert_eq!(decoded.data, vec![]);
}

#[test]
fn handle_raw_mixed_list() {
    let result = handle_raw(vec![
        RawValue::Uint(1),
        RawValue::Text(String::from("ab")),
        RawValue::Uint(2),
        RawValue::Text(String::from("c")),
    ]);
    assert_eq!(result, Ok(DataResponse { string_len: 3, int_sum: 3 }));
}

#[test]
fn handle_raw_rejects_boolean_like_value() {
    let result = handle_raw(vec![RawValue::Other]);
    assert_eq!(result, Err(DecodeError));
}

#[test]
fn handle_raw_empty_list() {
    let result = handle_raw(vec![]);
    assert_eq!(result, Ok(DataResponse { string_len: 0, int_sum: 0 }));
}
