use std::collections::BTreeMap;

use wasmrs_guest::Value;
use wasmrs_wasmtime::inputs::InputField;
use wasmrs_wasmtime::request::{encode_str, Request};

fn request(fields: &[(&str, Value)]) -> Vec<u8> {
    let map: BTreeMap<String, Value> = fields.iter().map(|(k, v)| (k.to_string(), v.clone())).collect();
    wasmrs_codec::messagepack::serialize(&map).unwrap()
}

#[test]
fn field_reads_string() {
    let req = Request::decode(&request(&[("message", Value::from("hi"))])).unwrap();
    match req.field("message") {
        InputField::Text(s) => assert_eq!(s, "hi"),
        other => panic!("{:?}", other),
    }
}

#[test]
fn field_absent() {
    let req = Request::decode(&request(&[("other", Value::from("x"))])).unwrap();
    assert!(matches!(req.field("message"), InputField::Absent));
}

#[test]
fn field_not_a_string() {
    let req = Request::decode(&request(&[("input", Value::from(5))])).unwrap();
    match req.field("input") {
        InputField::Invalid(msg) => assert!(!msg.is_empty()),
        other => panic!("{:?}", other),
    }
}

#[test]
fn decode_refuses_non_map() {
    let bytes = wasmrs_codec::messagepack::serialize("just a string").unwrap();
    assert!(Request::decode(&bytes).is_err());
    assert!(Request::decode(&[0xc1]).is_err());
}

#[test]
fn encode_str_fixstr() {
    assert_eq!(encode_str("ab"), vec![0xa2, b'a', b'b']);
    assert_eq!(encode_str(""), vec![0xa0]);
}

#[test]
fn encode_str_longer_headers() {
    let s32 = "x".repeat(32);
    let e = encode_str(&s32);
    assert_eq!(&e[..2], &[0xd9, 32]);
    assert_eq!(e.len(), 34);
    let s300 = "y".repeat(300);
    let e = encode_str(&s300);
    assert_eq!(&e[..3], &[0xda, 0x01, 0x2c]);
    let s70000 = "z".repeat(70000);
    let e = encode_str(&s70000);
    assert_eq!(&e[..5], &[0xdb, 0x00, 0x01, 0x11, 0x70]);
}

#[test]
fn encode_str_counts_utf8_bytes() {
    assert_eq!(encode_str("é"), vec![0xa2, 0xc3, 0xa9]);
}

#[test]
fn encode_str_matches_serialize() {
    let s = "HELLO WORLD".to_owned();
    assert_eq!(encode_str(&s), wasmrs_codec::messagepack::serialize(&s).unwrap());
}
