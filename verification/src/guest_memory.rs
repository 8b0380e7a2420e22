//! Writing frame buffers into a guest's linear memory.
use vstd::prelude::*;

use crate::frame::{encode, frame_buffer, frame_encoding, spec_frame_buffer};

verus! {

/// Guest memory after `bytes` were copied to it at `start`.
pub open spec fn spec_written(memory: Seq<u8>, start: int, bytes: Seq<u8>) -> Seq<u8> {
    memory.take(start) + bytes + memory.skip(start + bytes.len())
}

/// How many bytes of a buffer of `buffer_len` bytes are written at `start`
/// into guest memory of `memory_len` bytes whose receive buffer holds
/// `max_length` bytes: as many as fit both the receive buffer and the memory.
pub open spec fn spec_write_len(memory_len: int, buffer_len: int, start: u32, max_length: u32) -> int {
    let room = if start <= memory_len {
        memory_len - start
    } else {
        0
    };
    let n = if buffer_len <= max_length {
        buffer_len
    } else {
        max_length as int
    };
    if n <= room {
        n
    } else {
        room
    }
}

/// Guest memory after writing the first `written` bytes of `buffer` at `start`.
pub open spec fn spec_memory_after(memory: Seq<u8>, buffer: Seq<u8>, start: u32, written: int) -> Seq<
    u8,
> {
    if start <= memory.len() {
        spec_written(memory, start as int, buffer.take(written))
    } else {
        memory
    }
}

/// The start and end of the `len` bytes at `start` in memory of `memory_len`
/// bytes, when they lie inside it.
pub fn region_bounds(memory_len: usize, start: u32, len: u32) -> (res: Option<(usize, usize)>)
    ensures
        match res {
            Some((b, e)) => b == start && e == start + len && e <= memory_len,
            None => start + len > memory_len,
        },
{
    let begin = start as usize;
    if begin > memory_len || len as usize > memory_len - begin {
        None
    } else {
        Some((begin, begin + len as usize))
    }
}

/// Copies `buffer` into guest memory at `start` and returns the number of
/// bytes written. Only as much of the buffer is copied as fits both the
/// receive buffer (`max_length` bytes) and the memory; the rest is dropped.
pub fn write_bytes_to_memory(memory: &mut [u8], buffer: &[u8], start: u32, max_length: u32) -> (res:
    u32)
    ensures
        res == spec_write_len(old(memory)@.len() as int, buffer@.len() as int, start, max_length),
        final(memory)@ == spec_memory_after(old(memory)@, buffer@, start, res as int),
{
    let mut len: usize = buffer.len();
    if len > max_length as usize {
        len = max_length as usize;
    }
    let begin: usize = start as usize;
    if begin > memory.len() {
        return 0;
    }
    if len > memory.len() - begin {
        len = memory.len() - begin;
    }
    let ghost before = memory@;
    let mut i: usize = 0;
    while i < len
        invariant
            len <= buffer@.len(),
            len <= max_length,
            begin == start,
            begin + len <= memory@.len(),
            memory@.len() <= usize::MAX,
            memory@.len() == before.len(),
            i <= len,
            forall|k: int| 0 <= k < begin ==> memory@[k] == before[k],
            forall|k: int| begin + len <= k < memory@.len() ==> memory@[k] == before[k],
            forall|k: int| 0 <= k < i ==> memory@[begin + k] == buffer@[k],
        decreases len - i,
    {
        memory[begin + i] = buffer[i];
        i = i + 1;
    }
    assert(memory@ =~= spec_written(before, start as int, buffer@.take(len as int)));
    len as u32
}

/// What was written reads back from guest memory, and every byte outside the
/// written region is as it was.
pub proof fn law_write_reads_back(memory: Seq<u8>, start: int, bytes: Seq<u8>)
    requires
        0 <= start,
        start + bytes.len() <= memory.len(),
    ensures
        spec_written(memory, start, bytes).len() == memory.len(),
        spec_written(memory, start, bytes).subrange(start, start + bytes.len()) == bytes,
        forall|k: int|
            0 <= k < memory.len() && !(start <= k < start + bytes.len()) ==> (#[trigger] spec_written(
                memory,
                start,
                bytes,
            )[k]) == memory[k],
{
    let w = spec_written(memory, start, bytes);
    assert(w.subrange(start, start + bytes.len()) =~= bytes);
}

/// The argument handed to the guest's send export for a write of `written` bytes.
pub open spec fn spec_send_argument(written: u32) -> i32 {
    written as i32
}

/// The outcome of writing the encoded frame `frame` into memory `memory` at
/// the guest's receive buffer: the send argument and the memory afterwards.
pub open spec fn spec_frame_write(memory: Seq<u8>, frame: Seq<u8>, guest_start: u32, guest_size: u32) -> (
    i32,
    Seq<u8>,
) {
    let buffer = spec_frame_buffer(frame);
    let written = spec_write_len(memory.len() as int, buffer.len() as int, guest_start, guest_size);
    (spec_send_argument(written as u32), spec_memory_after(memory, buffer, guest_start, written))
}

/// Writes an encoded frame, prefixed with its length, into the guest's receive
/// buffer (`guest_start`, `guest_size`) and returns the argument for the
/// guest's send export: the number of bytes written, as an `i32`.
pub fn write_frame_bytes(memory: &mut [u8], frame: &[u8], guest_start: u32, guest_size: u32) -> (res:
    i32)
    ensures
        (res, final(memory)@) == spec_frame_write(old(memory)@, frame@, guest_start, guest_size),
{
    let buffer = frame_buffer(frame);
    let written = write_bytes_to_memory(memory, buffer.as_slice(), guest_start, guest_size);
    written as i32
}

/// Encodes `frame` and writes it, prefixed with its length, into the guest's
/// receive buffer; returns the argument for the guest's send export.
pub fn write_frame(memory: &mut [u8], frame: wasmrs::Frame, guest_start: u32, guest_size: u32) -> (res:
    i32)
    ensures
        (res, final(memory)@) == spec_frame_write(
            old(memory)@,
            frame_encoding(frame),
            guest_start,
            guest_size,
        ),
{
    let bytes = encode(frame);
    write_frame_bytes(memory, bytes.as_slice(), guest_start, guest_size)
}

/// A frame shorter than 2^24 bytes whose prefixed buffer fits the receive
/// buffer and lies inside memory is written whole: the send argument is its
/// length plus three, and that region of memory holds the length prefix and
/// the frame.
pub proof fn law_fitting_frame_is_written(memory: Seq<u8>, frame: Seq<u8>, guest_start: u32, guest_size: u32)
    requires
        frame.len() < 0x100_0000,
        frame.len() + 3 <= guest_size,
        guest_start + frame.len() + 3 <= memory.len(),
    ensures
        ({
            let (arg, after) = spec_frame_write(memory, frame, guest_start, guest_size);
            &&& arg == frame.len() + 3
            &&& after.len() == memory.len()
            &&& after.subrange(guest_start as int, guest_start + frame.len() + 3)
                == spec_frame_buffer(frame)
            &&& forall|k: int|
                0 <= k < memory.len() && !(guest_start <= k < guest_start + frame.len() + 3)
                    ==> after[k] == memory[k]
        }),
{
    let buffer = spec_frame_buffer(frame);
    assert(buffer.take(buffer.len() as int) =~= buffer);
    law_write_reads_back(memory, guest_start as int, buffer);
}

} // verus!
