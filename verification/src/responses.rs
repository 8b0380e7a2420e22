//! The test service's responses, from request bytes to response bytes.
use vstd::prelude::*;

use wasmrs_guest::Value;

use crate::inputs::{FieldView, InputField};
use crate::request::{encode_str, msgpack_str, request_entries, spec_field, Request};
use crate::service::TestComponent;

verus! {

/// Why a request got no response.
#[derive(Debug)]
pub enum RequestError {
    /// The request bytes are no map of fields; the decoder's message.
    Decode(String),
    /// A required field is missing; its name.
    MissingInput(String),
    /// A field is no string; the deserializer's message.
    Codec(String),
}

/// A request error, its strings taken by their characters.
pub enum ErrorView {
    Decode(Seq<char>),
    MissingInput(Seq<char>),
    Codec(Seq<char>),
}

impl View for RequestError {
    type V = ErrorView;

    open spec fn view(&self) -> ErrorView {
        match self {
            RequestError::Decode(m) => ErrorView::Decode(m@),
            RequestError::MissingInput(n) => ErrorView::MissingInput(n@),
            RequestError::Codec(m) => ErrorView::Codec(m@),
        }
    }
}

/// A response, its bytes and error taken by their views.
pub open spec fn response_view(r: Result<Vec<u8>, RequestError>) -> Result<Seq<u8>, ErrorView> {
    match r {
        Ok(b) => Ok(b@),
        Err(e) => Err(e@),
    }
}

/// The required string field `name` of decoded entries.
pub open spec fn spec_text(entries: Seq<(Seq<char>, Value)>, name: Seq<char>) -> Result<
    Seq<char>,
    ErrorView,
> {
    match spec_field(entries, name) {
        FieldView::Absent => Err(ErrorView::MissingInput(name)),
        FieldView::Text(s) => Ok(s),
        FieldView::Invalid(m) => Err(ErrorView::Codec(m)),
    }
}

fn required(request: &Request, name: &str) -> (res: Result<String, RequestError>)
    ensures
        match res {
            Ok(s) => spec_text(request.entries(), name@) == Ok::<_, ErrorView>(s@),
            Err(e) => spec_text(request.entries(), name@) == Err::<Seq<char>, _>(e@),
        },
{
    match request.field(name) {
        InputField::Absent => Err(RequestError::MissingInput(name.to_owned())),
        InputField::Text(s) => Ok(s),
        InputField::Invalid(m) => Err(RequestError::Codec(m)),
    }
}

/// The response to a `test` request.
pub open spec fn spec_test_response(request: Seq<u8>) -> Result<Seq<u8>, ErrorView> {
    match request_entries(request) {
        Err(m) => Err(ErrorView::Decode(m)),
        Ok(_) => Ok(msgpack_str("test"@)),
    }
}

/// The response to an `echo` request.
pub open spec fn spec_echo_response(request: Seq<u8>) -> Result<Seq<u8>, ErrorView> {
    match request_entries(request) {
        Err(m) => Err(ErrorView::Decode(m)),
        Ok(entries) => match spec_text(entries, "message"@) {
            Ok(s) => Ok(msgpack_str(s)),
            Err(e) => Err(e),
        },
    }
}

/// The responses to a `chars` request: one per character of its `input`.
pub open spec fn spec_chars_responses(request: Seq<u8>) -> Result<Seq<Seq<u8>>, ErrorView> {
    match request_entries(request) {
        Err(m) => Err(ErrorView::Decode(m)),
        Ok(entries) => match spec_text(entries, "input"@) {
            Ok(s) => Ok(Seq::new(s.len(), |i: int| msgpack_str(seq![s[i]]))),
            Err(e) => Err(e),
        },
    }
}

/// Answers a `test` request: the string "test", once the request decodes.
pub fn test_response(request: &[u8]) -> (res: Result<Vec<u8>, RequestError>)
    ensures
        response_view(res) == spec_test_response(request@),
{
    match Request::decode(request) {
        Err(m) => Err(RequestError::Decode(m)),
        Ok(_) => {
            let s = TestComponent::test();
            Ok(encode_str(s.as_str()))
        },
    }
}

/// Answers an `echo` request: its `message` field.
pub fn echo_response(request: &[u8]) -> (res: Result<Vec<u8>, RequestError>)
    ensures
        response_view(res) == spec_echo_response(request@),
{
    let req = match Request::decode(request) {
        Err(m) => return Err(RequestError::Decode(m)),
        Ok(r) => r,
    };
    let message = required(&req, "message")?;
    let out = TestComponent::echo(message);
    Ok(encode_str(out.as_str()))
}

/// Answers a `chars` request: one response per character of its `input`.
pub fn chars_responses(request: &[u8]) -> (res: Result<Vec<Vec<u8>>, RequestError>)
    ensures
        match res {
            Ok(v) => spec_chars_responses(request@) == Ok::<_, ErrorView>(v@.map_values(|b: Vec<u8>| b@)),
            Err(e) => spec_chars_responses(request@) == Err::<Seq<Seq<u8>>, _>(e@),
        },
{
    let req = match Request::decode(request) {
        Err(m) => return Err(RequestError::Decode(m)),
        Ok(r) => r,
    };
    let input = required(&req, "input")?;
    let pieces = TestComponent::chars(input.as_str());
    let mut out: Vec<Vec<u8>> = Vec::new();
    let mut i: usize = 0;
    while i < pieces.len()
        invariant
            i <= pieces@.len(),
            pieces@.len() == input@.len(),
            forall|k: int| 0 <= k < input@.len() ==> (#[trigger] pieces@[k])@ == seq![input@[k]],
            out@.len() == i,
            forall|k: int| 0 <= k < i ==> (#[trigger] out@[k])@ == msgpack_str(seq![input@[k]]),
        decreases pieces@.len() - i,
    {
        out.push(encode_str(pieces[i].as_str()));
        i = i + 1;
    }
    assert(out@.map_values(|b: Vec<u8>| b@) =~= Seq::new(
        input@.len(),
        |k: int| msgpack_str(seq![input@[k]]),
    ));
    Ok(out)
}

/// An item of a channel's input stream: a string, or the message of an
/// `input` field that is no string.
pub type ItemView = Result<Seq<char>, Seq<char>>;

/// The item an `input` field contributes to a channel's input stream.
pub open spec fn field_items(field: FieldView) -> Seq<ItemView> {
    match field {
        FieldView::Absent => seq![],
        FieldView::Text(s) => seq![Ok(s)],
        FieldView::Invalid(m) => seq![Err(m)],
    }
}

/// An item, its strings taken by their characters.
pub open spec fn item_view(item: Result<String, String>) -> ItemView {
    match item {
        Ok(s) => Ok(s@),
        Err(m) => Err(m@),
    }
}

/// The items of an optional item.
pub open spec fn option_items(item: Option<Result<String, String>>) -> Seq<ItemView> {
    match item {
        None => seq![],
        Some(i) => seq![item_view(i)],
    }
}

/// Whether some payload of `payloads` does not decode, which ends a channel.
pub open spec fn channel_stopped(payloads: Seq<Seq<u8>>) -> bool {
    exists|i: int| 0 <= i < payloads.len() && (#[trigger] request_entries(payloads[i])) is Err
}

/// The item a payload after the first contributes to a channel's input.
pub open spec fn payload_items(payload: Seq<u8>) -> Seq<ItemView> {
    match request_entries(payload) {
        Err(_) => seq![],
        Ok(entries) => field_items(spec_field(entries, "input"@)),
    }
}

/// The input items of the payloads that follow a channel's first one: the
/// `input` fields of the payloads before the first that does not decode.
pub open spec fn later_items(payloads: Seq<Seq<u8>>) -> Seq<ItemView>
    decreases payloads.len(),
{
    if payloads.len() == 0 {
        seq![]
    } else if channel_stopped(payloads.drop_last()) {
        later_items(payloads.drop_last())
    } else {
        later_items(payloads.drop_last()) + payload_items(payloads.last())
    }
}

/// What becomes of a payload that follows the first one on a channel.
#[derive(Debug)]
pub enum ChannelStep {
    /// Stop reading the channel.
    Stop,
    /// Go on with the next payload.
    Skip,
    /// Pass this item on to the operation's input stream.
    Forward(Result<String, String>),
}

/// The items a step contributes.
pub open spec fn step_items(step: ChannelStep) -> Seq<ItemView> {
    match step {
        ChannelStep::Forward(i) => seq![item_view(i)],
        _ => seq![],
    }
}

/// Reads the payloads that follow the first one on a channel.
pub struct ChannelReader {
    stopped: bool,
    received: Ghost<Seq<Seq<u8>>>,
}

impl ChannelReader {
    #[verifier::type_invariant]
    spec fn inv(&self) -> bool {
        self.stopped == channel_stopped(self.received@)
    }

    /// The payloads read so far.
    pub closed spec fn received(&self) -> Seq<Seq<u8>> {
        self.received@
    }

    /// A reader that has read nothing.
    pub fn new() -> (res: ChannelReader)
        ensures
            res.received() == Seq::<Seq<u8>>::empty(),
    {
        ChannelReader { stopped: false, received: Ghost(Seq::empty()) }
    }

    /// Reads the next payload: an undecodable payload ends the channel's input,
    /// a payload without an `input` field is passed over, and an `input` field
    /// is passed on. The items passed on so far are always `later_items` of
    /// the payloads read.
    pub fn next(&mut self, payload: &[u8]) -> (res: ChannelStep)
        ensures
            final(self).received() == old(self).received().push(payload@),
            later_items(final(self).received()) == later_items(old(self).received()) + step_items(res),
            res is Stop <==> channel_stopped(final(self).received()),
    {
        proof {
            use_type_invariant(&*self);
        }
        let ghost before = self.received@;
        let ghost after = before.push(payload@);
        assert(after.drop_last() =~= before);
        if self.stopped {
            assert(channel_stopped(after)) by {
                let i = choose|i: int| 0 <= i < before.len() && (#[trigger] request_entries(before[i])) is Err;
                assert(after[i] == before[i]);
            }
            *self = ChannelReader { stopped: true, received: Ghost(after) };
            return ChannelStep::Stop;
        }
        match Request::decode(payload) {
            Err(_) => {
                assert(request_entries(after[before.len() as int]) is Err);
                *self = ChannelReader { stopped: true, received: Ghost(after) };
                ChannelStep::Stop
            },
            Ok(req) => {
                assert(!channel_stopped(after)) by {
                    if channel_stopped(after) {
                        let i = choose|i: int| 0 <= i < after.len() && (#[trigger] request_entries(after[i])) is Err;
                        if i < before.len() {
                            assert(before[i] == after[i]);
                        }
                    }
                }
                *self = ChannelReader { stopped: false, received: Ghost(after) };
                match req.field("input") {
                    InputField::Absent => ChannelStep::Skip,
                    InputField::Text(s) => ChannelStep::Forward(Ok(s)),
                    InputField::Invalid(m) => ChannelStep::Forward(Err(m)),
                }
            },
        }
    }
}

/// The response to an item of a `reverse` channel.
pub open spec fn reverse_output(item: ItemView) -> Result<Seq<u8>, Seq<char>> {
    match item {
        Ok(s) => Ok(msgpack_str(s.reverse())),
        Err(m) => Err(m),
    }
}

/// The response to an item of a `wrap` channel.
pub open spec fn wrap_output(left: Seq<char>, right: Seq<char>, item: ItemView) -> Result<Seq<u8>, Seq<char>> {
    match item {
        Ok(s) => Ok(msgpack_str(left + s + right)),
        Err(m) => Err(m),
    }
}

/// An output item, its bytes and message taken by their views.
pub open spec fn output_view(out: Result<Vec<u8>, String>) -> Result<Seq<u8>, Seq<char>> {
    match out {
        Ok(b) => Ok(b@),
        Err(m) => Err(m@),
    }
}

/// Answers an item of a `reverse` channel: the string reversed, or the item's
/// error passed on.
pub fn reverse_item(item: Result<String, String>) -> (res: Result<Vec<u8>, String>)
    ensures
        output_view(res) == reverse_output(item_view(item)),
{
    match item {
        Ok(s) => {
            let r = TestComponent::reverse(s.as_str());
            Ok(encode_str(r.as_str()))
        },
        Err(m) => Err(m),
    }
}

/// Answers an item of a `wrap` channel: the string wrapped with `left` and
/// `right`, or the item's error passed on.
pub fn wrap_item(left: &str, right: &str, item: Result<String, String>) -> (res: Result<Vec<u8>, String>)
    ensures
        output_view(res) == wrap_output(left@, right@, item_view(item)),
{
    match item {
        Ok(s) => {
            let w = TestComponent::wrap(left, right, s.as_str());
            Ok(encode_str(w.as_str()))
        },
        Err(m) => Err(m),
    }
}

/// The input item of a `reverse` channel's first payload.
pub open spec fn spec_reverse_first(request: Seq<u8>) -> Result<Seq<ItemView>, ErrorView> {
    match request_entries(request) {
        Err(m) => Err(ErrorView::Decode(m)),
        Ok(entries) => Ok(field_items(spec_field(entries, "input"@))),
    }
}

/// Reads the first payload of a `reverse` channel: its `input` field, if any.
pub fn reverse_first(request: &[u8]) -> (res: Result<Option<Result<String, String>>, RequestError>)
    ensures
        match res {
            Ok(item) => spec_reverse_first(request@) == Ok::<_, ErrorView>(option_items(item)),
            Err(e) => spec_reverse_first(request@) == Err::<Seq<ItemView>, _>(e@),
        },
{
    let req = match Request::decode(request) {
        Err(m) => return Err(RequestError::Decode(m)),
        Ok(r) => r,
    };
    match req.field("input") {
        InputField::Absent => Ok(None),
        InputField::Text(s) => Ok(Some(Ok(s))),
        InputField::Invalid(m) => Ok(Some(Err(m))),
    }
}

/// The `left` and `right` strings and the input item of a `wrap` channel's
/// first payload; `left` is read before `right`.
pub open spec fn spec_wrap_first(request: Seq<u8>) -> Result<(Seq<char>, Seq<char>, Seq<ItemView>), ErrorView> {
    match request_entries(request) {
        Err(m) => Err(ErrorView::Decode(m)),
        Ok(entries) => match spec_text(entries, "left"@) {
            Err(e) => Err(e),
            Ok(l) => match spec_text(entries, "right"@) {
                Err(e) => Err(e),
                Ok(r) => Ok((l, r, field_items(spec_field(entries, "input"@)))),
            },
        },
    }
}

/// Reads the first payload of a `wrap` channel.
pub fn wrap_first(request: &[u8]) -> (res: Result<(String, String, Option<Result<String, String>>), RequestError>)
    ensures
        match res {
            Ok((l, r, item)) => spec_wrap_first(request@) == Ok::<_, ErrorView>((l@, r@, option_items(item))),
            Err(e) => spec_wrap_first(request@) == Err::<(Seq<char>, Seq<char>, Seq<ItemView>), _>(e@),
        },
{
    let req = match Request::decode(request) {
        Err(m) => return Err(RequestError::Decode(m)),
        Ok(r) => r,
    };
    let left = required(&req, "left")?;
    let right = required(&req, "right")?;
    let item = match req.field("input") {
        InputField::Absent => None,
        InputField::Text(s) => Some(Ok(s)),
        InputField::Invalid(m) => Some(Err(m)),
    };
    Ok((left, right, item))
}

/// All responses of a `reverse` channel whose first payload is `first` and
/// whose later payloads are `later`.
pub open spec fn spec_reverse_channel(first: Seq<u8>, later: Seq<Seq<u8>>) -> Result<
    Seq<Result<Seq<u8>, Seq<char>>>,
    ErrorView,
> {
    match spec_reverse_first(first) {
        Err(e) => Err(e),
        Ok(items) => Ok((items + later_items(later)).map_values(|i: ItemView| reverse_output(i))),
    }
}

/// All responses of a `wrap` channel whose first payload is `first` and whose
/// later payloads are `later`.
pub open spec fn spec_wrap_channel(first: Seq<u8>, later: Seq<Seq<u8>>) -> Result<
    Seq<Result<Seq<u8>, Seq<char>>>,
    ErrorView,
> {
    match spec_wrap_first(first) {
        Err(e) => Err(e),
        Ok((l, r, items)) => Ok(
            (items + later_items(later)).map_values(|i: ItemView| wrap_output(l, r, i)),
        ),
    }
}


/// Whether `payload` decodes and its `input` field is the string `text`.
pub open spec fn carries_input(payload: Seq<u8>, text: Seq<char>) -> bool {
    &&& request_entries(payload) is Ok
    &&& spec_field(request_entries(payload)->Ok_0, "input"@) == FieldView::Text(text)
}

/// When every later payload decodes and carries an `input` string, the
/// channel's later items are those strings, in order.
pub proof fn law_later_items_all_text(later: Seq<Seq<u8>>, texts: Seq<Seq<char>>)
    requires
        later.len() == texts.len(),
        forall|i: int| 0 <= i < later.len() ==> carries_input(#[trigger] later[i], texts[i]),
    ensures
        later_items(later) == texts.map_values(|t: Seq<char>| Ok::<Seq<char>, Seq<char>>(t)),
        !channel_stopped(later),
    decreases later.len(),
{
    if later.len() > 0 {
        let prev = later.drop_last();
        let tprev = texts.drop_last();
        assert forall|i: int| 0 <= i < prev.len() implies carries_input(#[trigger] prev[i], tprev[i]) by {
            assert(prev[i] == later[i]);
        }
        law_later_items_all_text(prev, tprev);
        assert(carries_input(later[later.len() - 1], texts[texts.len() - 1]));
        assert(texts.map_values(|t: Seq<char>| Ok::<Seq<char>, Seq<char>>(t)) =~= tprev.map_values(
            |t: Seq<char>| Ok::<Seq<char>, Seq<char>>(t),
        ).push(Ok(texts.last())));
    }
    if channel_stopped(later) {
        let i = choose|i: int| 0 <= i < later.len() && (#[trigger] request_entries(later[i])) is Err;
        assert(carries_input(later[i], texts[i]));
    }
}

/// A `reverse` channel whose payloads each carry an `input` string answers
/// each string, in order, with the string reversed.
pub proof fn law_reverse_stream(first: Seq<u8>, later: Seq<Seq<u8>>, texts: Seq<Seq<char>>)
    requires
        texts.len() == later.len() + 1,
        carries_input(first, texts[0]),
        forall|i: int| 0 <= i < later.len() ==> carries_input(#[trigger] later[i], texts[i + 1]),
    ensures
        spec_reverse_channel(first, later) == Ok::<_, ErrorView>(
            texts.map_values(|t: Seq<char>| Ok::<Seq<u8>, Seq<char>>(msgpack_str(t.reverse()))),
        ),
{
    let rest = texts.drop_first();
    assert forall|i: int| 0 <= i < later.len() implies carries_input(#[trigger] later[i], rest[i]) by {
        assert(rest[i] == texts[i + 1]);
    }
    law_later_items_all_text(later, rest);
    let items = seq![Ok::<Seq<char>, Seq<char>>(texts[0])] + rest.map_values(
        |t: Seq<char>| Ok::<Seq<char>, Seq<char>>(t),
    );
    assert(items.map_values(|i: ItemView| reverse_output(i)) =~= texts.map_values(
        |t: Seq<char>| Ok::<Seq<u8>, Seq<char>>(msgpack_str(t.reverse())),
    ));
}

/// Sending a `reverse` channel's answers back through another `reverse`
/// channel gives the first channel's strings back.
pub proof fn law_reverse_stream_twice(first: Seq<u8>, later: Seq<Seq<u8>>, texts: Seq<Seq<char>>)
    requires
        texts.len() == later.len() + 1,
        carries_input(first, texts[0].reverse()),
        forall|i: int| 0 <= i < later.len() ==> carries_input(#[trigger] later[i], texts[i + 1].reverse()),
    ensures
        spec_reverse_channel(first, later) == Ok::<_, ErrorView>(
            texts.map_values(|t: Seq<char>| Ok::<Seq<u8>, Seq<char>>(msgpack_str(t))),
        ),
{
    let reversed = texts.map_values(|t: Seq<char>| t.reverse());
    assert forall|i: int| 0 <= i < later.len() implies carries_input(#[trigger] later[i], reversed[i + 1]) by {
        assert(reversed[i + 1] == texts[i + 1].reverse());
    }
    law_reverse_stream(first, later, reversed);
    assert forall|i: int| 0 <= i < texts.len() implies #[trigger] reversed[i].reverse() == texts[i] by {
        assert(texts[i].reverse().reverse() =~= texts[i]);
    }
    assert(reversed.map_values(|t: Seq<char>| Ok::<Seq<u8>, Seq<char>>(msgpack_str(t.reverse())))
        =~= texts.map_values(|t: Seq<char>| Ok::<Seq<u8>, Seq<char>>(msgpack_str(t))));
}

/// A `wrap` channel whose first payload carries `left`, `right` and an `input`
/// string, and whose later payloads each carry an `input` string, answers each
/// string, in order, wrapped with `left` and `right`.
pub proof fn law_wrap_stream(
    first: Seq<u8>,
    later: Seq<Seq<u8>>,
    left: Seq<char>,
    right: Seq<char>,
    texts: Seq<Seq<char>>,
)
    requires
        texts.len() == later.len() + 1,
        carries_input(first, texts[0]),
        spec_field(request_entries(first)->Ok_0, "left"@) == FieldView::Text(left),
        spec_field(request_entries(first)->Ok_0, "right"@) == FieldView::Text(right),
        forall|i: int| 0 <= i < later.len() ==> carries_input(#[trigger] later[i], texts[i + 1]),
    ensures
        spec_wrap_channel(first, later) == Ok::<_, ErrorView>(
            texts.map_values(|t: Seq<char>| Ok::<Seq<u8>, Seq<char>>(msgpack_str(left + t + right))),
        ),
{
    let rest = texts.drop_first();
    assert forall|i: int| 0 <= i < later.len() implies carries_input(#[trigger] later[i], rest[i]) by {
        assert(rest[i] == texts[i + 1]);
    }
    law_later_items_all_text(later, rest);
    let items = seq![Ok::<Seq<char>, Seq<char>>(texts[0])] + rest.map_values(
        |t: Seq<char>| Ok::<Seq<char>, Seq<char>>(t),
    );
    assert(items.map_values(|i: ItemView| wrap_output(left, right, i)) =~= texts.map_values(
        |t: Seq<char>| Ok::<Seq<u8>, Seq<char>>(msgpack_str(left + t + right)),
    ));
}

/// Of the payloads after the first, a channel reads only whether they decode
/// and their `input` field: other fields, such as later `left` and `right`
/// keys, change none of its answers.
pub proof fn law_later_reads_only_input(first: Seq<u8>, a: Seq<Seq<u8>>, b: Seq<Seq<u8>>)
    requires
        a.len() == b.len(),
        forall|i: int|
            0 <= i < a.len() ==> ((#[trigger] request_entries(a[i])) is Err <==> request_entries(b[i]) is Err),
        forall|i: int|
            0 <= i < a.len() && (#[trigger] request_entries(a[i])) is Ok ==> spec_field(
                request_entries(a[i])->Ok_0,
                "input"@,
            ) == spec_field(request_entries(b[i])->Ok_0, "input"@),
    ensures
        later_items(a) == later_items(b),
        spec_wrap_channel(first, a) == spec_wrap_channel(first, b),
        spec_reverse_channel(first, a) == spec_reverse_channel(first, b),
    decreases a.len(),
{
    if a.len() > 0 {
        let pa = a.drop_last();
        let pb = b.drop_last();
        assert forall|i: int| 0 <= i < pa.len() implies ((#[trigger] request_entries(pa[i])) is Err
            <==> request_entries(pb[i]) is Err) by {
            assert(pa[i] == a[i] && pb[i] == b[i]);
        }
        assert forall|i: int| 0 <= i < pa.len() && (#[trigger] request_entries(pa[i])) is Ok implies spec_field(
            request_entries(pa[i])->Ok_0,
            "input"@,
        ) == spec_field(request_entries(pb[i])->Ok_0, "input"@) by {
            assert(pa[i] == a[i] && pb[i] == b[i]);
        }
        law_later_reads_only_input(first, pa, pb);
        assert(channel_stopped(pa) == channel_stopped(pb)) by {
            if channel_stopped(pa) {
                let i = choose|i: int| 0 <= i < pa.len() && (#[trigger] request_entries(pa[i])) is Err;
                assert(pa[i] == a[i] && pb[i] == b[i]);
                assert(request_entries(pb[i]) is Err);
            }
            if channel_stopped(pb) {
                let i = choose|i: int| 0 <= i < pb.len() && (#[trigger] request_entries(pb[i])) is Err;
                assert(pa[i] == a[i] && pb[i] == b[i]);
                assert(request_entries(a[i]) is Err);
            }
        }
        let k = a.len() - 1;
        assert(request_entries(a[k]) is Err <==> request_entries(b[k]) is Err);
        assert(payload_items(a.last()) == payload_items(b.last()));
    }
}

/// An `echo` request is answered by its `message` field alone: requests that
/// decode and agree on that field get the same answer, whatever else they hold.
pub proof fn law_echo_reads_only_message(a: Seq<u8>, b: Seq<u8>)
    requires
        request_entries(a) is Ok,
        request_entries(b) is Ok,
        spec_field(request_entries(a)->Ok_0, "message"@) == spec_field(request_entries(b)->Ok_0, "message"@),
    ensures
        spec_echo_response(a) == spec_echo_response(b),
{
}


/// Any `test` request that decodes is answered with the string "test".
pub proof fn law_test_says_test(request: Seq<u8>)
    requires
        request_entries(request) is Ok,
    ensures
        spec_test_response(request) == Ok::<Seq<u8>, ErrorView>(msgpack_str("test"@)),
{
}

/// A request whose bytes do not decode is refused by every operation with the
/// decoder's message.
pub proof fn law_undecodable_request(request: Seq<u8>, msg: Seq<char>)
    requires
        request_entries(request) == Err::<Seq<(Seq<char>, Value)>, Seq<char>>(msg),
    ensures
        spec_test_response(request) == Err::<Seq<u8>, ErrorView>(ErrorView::Decode(msg)),
        spec_echo_response(request) == Err::<Seq<u8>, ErrorView>(ErrorView::Decode(msg)),
        spec_chars_responses(request) == Err::<Seq<Seq<u8>>, ErrorView>(ErrorView::Decode(msg)),
        spec_reverse_first(request) == Err::<Seq<ItemView>, ErrorView>(ErrorView::Decode(msg)),
        spec_wrap_first(request) == Err::<(Seq<char>, Seq<char>, Seq<ItemView>), ErrorView>(
            ErrorView::Decode(msg),
        ),
{
}

/// A required field that is missing is refused naming it: an `echo` request
/// without `message`, a `chars` request without `input`.
pub proof fn law_missing_field_named(request: Seq<u8>)
    requires
        request_entries(request) is Ok,
    ensures
        spec_field(request_entries(request)->Ok_0, "message"@) is Absent ==> spec_echo_response(request)
            == Err::<Seq<u8>, ErrorView>(ErrorView::MissingInput("message"@)),
        spec_field(request_entries(request)->Ok_0, "input"@) is Absent ==> spec_chars_responses(request)
            == Err::<Seq<Seq<u8>>, ErrorView>(ErrorView::MissingInput("input"@)),
{
}

/// The echo of a request that decodes and whose `message` is the string `m`
/// is `m` itself, whole, encoded as a MessagePack string.
pub proof fn law_echo_returns_message(request: Seq<u8>, m: Seq<char>)
    requires
        request_entries(request) is Ok,
        spec_field(request_entries(request)->Ok_0, "message"@) == FieldView::Text(m),
    ensures
        spec_echo_response(request) == Ok::<Seq<u8>, ErrorView>(msgpack_str(m)),
{
}

/// A `chars` request that decodes and whose `input` is the string `s` gets
/// exactly one response per character of `s`, in order, the `i`-th holding
/// just the `i`-th character.
pub proof fn law_chars_one_per_character(request: Seq<u8>, s: Seq<char>)
    requires
        request_entries(request) is Ok,
        spec_field(request_entries(request)->Ok_0, "input"@) == FieldView::Text(s),
    ensures
        spec_chars_responses(request) is Ok,
        spec_chars_responses(request)->Ok_0.len() == s.len(),
        forall|i: int|
            0 <= i < s.len() ==> #[trigger] spec_chars_responses(request)->Ok_0[i] == msgpack_str(
                seq![s[i]],
            ),
{
}

/// A `wrap` channel's first payload needs its `left` and `right` strings, but
/// not an `input` field: without one the channel opens with those strings and
/// no first item; with an `input` string that string is the first item.
pub proof fn law_wrap_first_input_optional(request: Seq<u8>, left: Seq<char>, right: Seq<char>)
    requires
        request_entries(request) is Ok,
        spec_field(request_entries(request)->Ok_0, "left"@) == FieldView::Text(left),
        spec_field(request_entries(request)->Ok_0, "right"@) == FieldView::Text(right),
    ensures
        spec_field(request_entries(request)->Ok_0, "input"@) is Absent ==> spec_wrap_first(request)
            == Ok::<_, ErrorView>((left, right, Seq::<ItemView>::empty())),
        spec_field(request_entries(request)->Ok_0, "input"@) matches FieldView::Text(s)
            ==> spec_wrap_first(request) == Ok::<_, ErrorView>((left, right, seq![Ok::<Seq<char>, Seq<char>>(s)])),
{
}

/// A `reverse` channel's first payload needs no `input` field: without one the
/// channel opens with no first item.
pub proof fn law_reverse_first_input_optional(request: Seq<u8>)
    requires
        request_entries(request) is Ok,
        spec_field(request_entries(request)->Ok_0, "input"@) is Absent,
    ensures
        spec_reverse_first(request) == Ok::<_, ErrorView>(Seq::<ItemView>::empty()),
{
}

} // verus!
