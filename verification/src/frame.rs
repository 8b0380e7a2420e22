//! Length-prefixed frame buffers written to a guest's receive buffer.
use vstd::prelude::*;

verus! {

/// The three big-endian bytes that hold the low 24 bits of `n`.
pub open spec fn u24_be(n: u32) -> Seq<u8> {
    seq![(n / 0x10000 % 0x100) as u8, (n / 0x100 % 0x100) as u8, (n % 0x100) as u8]
}

/// `wasmrs::util::to_u24_bytes`: puts bytes 1..4 of `num.to_be_bytes()` into a
/// fresh buffer, i.e. the low 24 bits of `num`, most significant byte first.
#[verifier::external_body]
fn to_u24_bytes(num: u32) -> (res: Vec<u8>)
    ensures
        res@ == u24_be(num),
{
    wasmrs::util::to_u24_bytes(num).to_vec()
}

/// The buffer that is written for an encoded frame: the frame's length as a
/// 24-bit big-endian prefix, then the frame itself.
pub open spec fn spec_frame_buffer(frame: Seq<u8>) -> Seq<u8> {
    u24_be(frame.len() as u32) + frame
}

/// Prefixes an encoded frame with its length in three big-endian bytes. The
/// length is taken as a `u32` and only its low 24 bits are written, so a frame
/// of 2^24 bytes or more carries a prefix that does not match its length.
pub fn frame_buffer(frame: &[u8]) -> (res: Vec<u8>)
    ensures
        res@ == spec_frame_buffer(frame@),
{
    let len: usize = frame.len();
    let mut buffer = to_u24_bytes(len as u32);
    let mut i: usize = 0;
    while i < frame.len()
        invariant
            i <= frame@.len(),
            buffer@ == u24_be(len as u32) + frame@.subrange(0, i as int),
            len == frame@.len(),
        decreases frame@.len() - i,
    {
        buffer.push(frame[i]);
        i = i + 1;
        assert(frame@.subrange(0, i as int) == frame@.subrange(0, i - 1).push(frame@[i - 1]));
    }
    assert(frame@.subrange(0, len as int) == frame@);
    buffer
}

/// The number held by three big-endian bytes.
pub open spec fn u24_value(b: Seq<u8>) -> int {
    b[0] * 0x10000 + b[1] * 0x100 + b[2]
}

proof fn lemma_u24_be_value(n: u32)
    requires
        n < 0x100_0000,
    ensures
        u24_value(u24_be(n)) == n,
{
    assert((n / 0x10000 % 0x100) * 0x10000 + (n / 0x100 % 0x100) * 0x100 + n % 0x100 == n)
        by (nonlinear_arith)
        requires
            n < 0x100_0000,
    ;
}

/// A frame buffer reads back as what was written: for a frame shorter than
/// 2^24 bytes, the first three bytes hold the frame's length and the rest is
/// the frame.
pub proof fn lemma_frame_buffer_reads_back(frame: Seq<u8>)
    requires
        frame.len() < 0x100_0000,
    ensures
        spec_frame_buffer(frame).len() == frame.len() + 3,
        u24_value(spec_frame_buffer(frame).take(3)) == frame.len(),
        spec_frame_buffer(frame).skip(3) == frame,
{
    let n = frame.len() as u32;
    lemma_u24_be_value(n);
    assert(spec_frame_buffer(frame).take(3) == u24_be(n));
    assert(spec_frame_buffer(frame).skip(3) == frame);
}

/// `wasmrs::Frame`, a decoded RSocket frame.
#[verifier::external_type_specification]
#[verifier::external_body]
pub struct ExFrame(wasmrs::Frame);

/// The wire bytes of a frame, as `wasmrs::Frame::encode` produces them.
pub uninterp spec fn frame_encoding(frame: wasmrs::Frame) -> Seq<u8>;

/// `wasmrs::Frame::encode`: the frame's wire bytes, which depend on the frame
/// alone. The layout of those bytes is not spelled out here.
#[verifier::external_body]
pub(crate) fn encode(frame: wasmrs::Frame) -> (res: Vec<u8>)
    ensures
        res@ == frame_encoding(frame),
{
    frame.encode().to_vec()
}

/// Encodes a frame and prefixes it with its length, giving the buffer that is
/// written into the guest's receive buffer.
pub fn encoded_frame_buffer(frame: wasmrs::Frame) -> (res: Vec<u8>)
    ensures
        res@ == spec_frame_buffer(frame_encoding(frame)),
{
    let bytes = encode(frame);
    frame_buffer(bytes.as_slice())
}

} // verus!
