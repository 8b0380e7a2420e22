use std::collections::BTreeMap;

use wasmrs_guest::Value;
use wasmrs_wasmtime::responses::{
    chars_responses, echo_response, reverse_first, reverse_item, test_response, wrap_first, wrap_item, ChannelReader,
    ChannelStep, RequestError,
};

fn request(fields: &[(&str, Value)]) -> Vec<u8> {
    let map: BTreeMap<String, Value> = fields.iter().map(|(k, v)| (k.to_string(), v.clone())).collect();
    wasmrs_codec::messagepack::serialize(&map).unwrap()
}

fn text(bytes: &[u8]) -> String {
    wasmrs_codec::messagepack::deserialize(bytes).unwrap()
}

#[test]
fn test_response_says_test() {
    assert_eq!(text(&test_response(&request(&[])).unwrap()), "test");
}

#[test]
fn test_response_needs_a_map() {
    assert!(matches!(test_response(&[0xc1]), Err(RequestError::Decode(_))));
}

#[test]
fn echo_response_hello_world() {
    let out = echo_response(&request(&[("message", Value::from("HELLO WORLD"))])).unwrap();
    assert_eq!(text(&out), "HELLO WORLD");
}

#[test]
fn echo_response_ignores_other_keys() {
    let a = echo_response(&request(&[("message", Value::from("m"))])).unwrap();
    let b = echo_response(&request(&[("message", Value::from("m")), ("zzz", Value::from(1))])).unwrap();
    assert_eq!(a, b);
}

#[test]
fn echo_response_missing_message() {
    match echo_response(&request(&[("other", Value::from("x"))])) {
        Err(RequestError::MissingInput(name)) => assert_eq!(name, "message"),
        other => panic!("{:?}", other),
    }
}

#[test]
fn echo_response_message_not_a_string() {
    assert!(matches!(echo_response(&request(&[("message", Value::from(3))])), Err(RequestError::Codec(_))));
}

#[test]
fn chars_responses_one_per_character() {
    let out = chars_responses(&request(&[("input", Value::from("héy"))])).unwrap();
    let got: Vec<String> = out.iter().map(|b| text(b)).collect();
    assert_eq!(got, vec!["h", "é", "y"]);
}

#[test]
fn chars_responses_missing_input() {
    assert!(matches!(chars_responses(&request(&[])), Err(RequestError::MissingInput(_))));
}

#[test]
fn reverse_channel_whole_stream() {
    let first = reverse_first(&request(&[("input", Value::from("abc"))])).unwrap();
    let mut outputs = Vec::new();
    if let Some(item) = first {
        outputs.push(reverse_item(item).unwrap());
    }
    let mut reader = ChannelReader::new();
    for s in ["de", "", "fgh"] {
        match reader.next(&request(&[("input", Value::from(s))])) {
            ChannelStep::Forward(item) => outputs.push(reverse_item(item).unwrap()),
            other => panic!("{:?}", other),
        }
    }
    let got: Vec<String> = outputs.iter().map(|b| text(b)).collect();
    assert_eq!(got, vec!["cba", "ed", "", "hgf"]);
}

#[test]
fn channel_reader_skips_and_stops() {
    let mut reader = ChannelReader::new();
    assert!(matches!(reader.next(&request(&[("other", Value::from("x"))])), ChannelStep::Skip));
    match reader.next(&request(&[("input", Value::from(7))])) {
        ChannelStep::Forward(Err(msg)) => assert!(!msg.is_empty()),
        other => panic!("{:?}", other),
    }
    assert!(matches!(reader.next(&[0xc1]), ChannelStep::Stop));
    assert!(matches!(reader.next(&request(&[("input", Value::from("late"))])), ChannelStep::Stop));
}

#[test]
fn reverse_first_without_input() {
    assert!(matches!(reverse_first(&request(&[])), Ok(None)));
    assert!(matches!(reverse_first(&[0xc1]), Err(RequestError::Decode(_))));
}

#[test]
fn wrap_channel_whole_stream() {
    let (l, r, item) = wrap_first(&request(&[
        ("left", Value::from("<")),
        ("right", Value::from(">")),
        ("input", Value::from("a")),
    ]))
    .unwrap();
    let mut outputs = vec![wrap_item(&l, &r, item.unwrap()).unwrap()];
    let mut reader = ChannelReader::new();
    let later = request(&[("input", Value::from("b")), ("left", Value::from("[")), ("right", Value::from("]"))]);
    match reader.next(&later) {
        ChannelStep::Forward(item) => outputs.push(wrap_item(&l, &r, item).unwrap()),
        other => panic!("{:?}", other),
    }
    let got: Vec<String> = outputs.iter().map(|b| text(b)).collect();
    assert_eq!(got, vec!["<a>", "<b>"]);
}

#[test]
fn wrap_first_reads_left_then_right() {
    match wrap_first(&request(&[])) {
        Err(RequestError::MissingInput(name)) => assert_eq!(name, "left"),
        other => panic!("{:?}", other),
    }
    match wrap_first(&request(&[("left", Value::from("<"))])) {
        Err(RequestError::MissingInput(name)) => assert_eq!(name, "right"),
        other => panic!("{:?}", other),
    }
}

#[test]
fn item_errors_pass_through() {
    assert_eq!(reverse_item(Err("bad".to_owned())), Err("bad".to_owned()));
    assert_eq!(wrap_item("<", ">", Err("bad".to_owned())), Err("bad".to_owned()));
}
