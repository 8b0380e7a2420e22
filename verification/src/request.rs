//! Decoding the MessagePack requests and responses of the test service.
use vstd::prelude::*;
use vstd::utf8::encode_utf8;

use wasmrs_guest::Value;

use crate::inputs::{FieldView, InputField};

verus! {

/// `serde_json::Value` (as `wasmrs_guest::Value`): one decoded field value.
#[verifier::external_type_specification]
#[verifier::external_body]
pub struct ExValue(wasmrs_guest::Value);

/// The entries of the map that `wasmrs_guest::deserialize_generic` decodes
/// from a request's bytes, in key order, or the decoder's message.
pub uninterp spec fn request_entries(data: Seq<u8>) -> Result<Seq<(Seq<char>, Value)>, Seq<char>>;

/// What `<String as serde::Deserialize>::deserialize` makes of a value: the
/// string it holds, or the deserializer's message.
pub uninterp spec fn value_text(value: Value) -> Result<Seq<char>, Seq<char>>;

/// The entries of a decoded map, keys taken by their characters.
pub open spec fn entries_view(entries: Seq<(String, Value)>) -> Seq<(Seq<char>, Value)> {
    entries.map_values(|e: (String, Value)| (e.0@, e.1))
}

/// `wasmrs_guest::deserialize_generic`: decodes MessagePack bytes into a map
/// from strings to values; handed on as its entries in key order. The error
/// is handed on as its `Display` text.
#[verifier::external_body]
fn decode_entries(data: &[u8]) -> (res: Result<Vec<(String, Value)>, String>)
    ensures
        match res {
            Ok(entries) => request_entries(data@) == Ok::<_, Seq<char>>(entries_view(entries@)),
            Err(msg) => request_entries(data@) == Err::<Seq<(Seq<char>, Value)>, _>(msg@),
        },
{
    match wasmrs_guest::deserialize_generic(data) {
        Ok(map) => Ok(map.into_iter().collect()),
        Err(e) => Err(e.to_string()),
    }
}

/// `<String as serde::Deserialize>::deserialize` on a value: the string it
/// holds, or the deserializer's message as its `Display` text.
#[verifier::external_body]
fn text_of(value: &Value) -> (res: Result<String, String>)
    ensures
        match res {
            Ok(s) => value_text(*value) == Ok::<_, Seq<char>>(s@),
            Err(msg) => value_text(*value) == Err::<Seq<char>, _>(msg@),
        },
{
    <String as serde::Deserialize>::deserialize(value).map_err(|e| e.to_string())
}

/// The field `name` of a decoded request: the first entry with that key.
pub open spec fn spec_field(entries: Seq<(Seq<char>, Value)>, name: Seq<char>) -> FieldView
    decreases entries.len(),
{
    if entries.len() == 0 {
        FieldView::Absent
    } else if entries[0].0 == name {
        match value_text(entries[0].1) {
            Ok(s) => FieldView::Text(s),
            Err(msg) => FieldView::Invalid(msg),
        }
    } else {
        spec_field(entries.drop_first(), name)
    }
}

/// A decoded request: its map entries.
pub struct Request {
    entries: Vec<(String, Value)>,
}

impl Request {
    /// The request's entries, keys taken by their characters.
    pub closed spec fn entries(&self) -> Seq<(Seq<char>, Value)> {
        entries_view(self.entries@)
    }

    /// Decodes a request's bytes.
    pub fn decode(data: &[u8]) -> (res: Result<Request, String>)
        ensures
            match res {
                Ok(r) => request_entries(data@) == Ok::<_, Seq<char>>(r.entries()),
                Err(msg) => request_entries(data@) == Err::<Seq<(Seq<char>, Value)>, _>(msg@),
            },
    {
        match decode_entries(data) {
            Ok(entries) => Ok(Request { entries }),
            Err(msg) => Err(msg),
        }
    }

    /// The field `name` of the request.
    pub fn field(&self, name: &str) -> (res: InputField)
        ensures
            res@ == spec_field(self.entries(), name@),
    {
        let key = name.to_owned();
        let mut i: usize = 0;
        assert(self.entries().skip(0) =~= self.entries());
        while i < self.entries.len()
            invariant
                i <= self.entries@.len(),
                key@ == name@,
                spec_field(self.entries(), name@) == spec_field(
                    self.entries().skip(i as int),
                    name@,
                ),
            decreases self.entries@.len() - i,
        {
            assert(self.entries().skip(i as int).drop_first() =~= self.entries().skip(i + 1));
            assert(self.entries().skip(i as int)[0] == (self.entries@[i as int].0@, self.entries@[i as int].1));
            if self.entries[i].0 == key {
                return match text_of(&self.entries[i].1) {
                    Ok(s) => InputField::Text(s),
                    Err(msg) => InputField::Invalid(msg),
                };
            }
            i = i + 1;
        }
        assert(self.entries().skip(i as int) =~= Seq::<(Seq<char>, Value)>::empty());
        InputField::Absent
    }
}

/// The MessagePack encoding of a string, as `rmp_serde` writes it: a `fixstr`,
/// `str8`, `str16` or `str32` header for the UTF-8 length (taken as a `u32`),
/// then the UTF-8 bytes.
pub open spec fn msgpack_str(s: Seq<char>) -> Seq<u8> {
    let bytes = encode_utf8(s);
    let n = bytes.len() as u32;
    let header = if n < 32 {
        seq![(0xa0 + n) as u8]
    } else if n < 0x100 {
        seq![0xd9u8, n as u8]
    } else if n < 0x1_0000 {
        seq![0xdau8, (n / 0x100) as u8, (n % 0x100) as u8]
    } else {
        seq![
            0xdbu8,
            (n / 0x100_0000) as u8,
            (n / 0x1_0000 % 0x100) as u8,
            (n / 0x100 % 0x100) as u8,
            (n % 0x100) as u8,
        ]
    };
    header + bytes
}

/// `wasmrs_guest::serialize` of a string: `rmp_serde` writes the string's
/// MessagePack header and UTF-8 bytes into a `Vec`, which cannot fail.
#[verifier::external_body]
fn serialize_str(s: &str) -> (res: Result<Vec<u8>, String>)
    ensures
        res is Ok,
        res->Ok_0@ == msgpack_str(s@),
{
    wasmrs_guest::serialize(s).map_err(|e| e.to_string())
}

/// The MessagePack encoding of a string.
pub fn encode_str(s: &str) -> (res: Vec<u8>)
    ensures
        res@ == msgpack_str(s@),
{
    match serialize_str(s) {
        Ok(bytes) => bytes,
        Err(_) => Vec::new(),
    }
}

} // verus!
