//! Length-prefixed framing of messages on a byte stream.
//!
//! A frame is a four-byte big-endian length followed by that many payload
//! bytes. No frame carries more than [`MAX_MESSAGE_SIZE`] bytes.

use vstd::prelude::*;
use vstd::slice::*;
use vstd::string::*;

use crate::error::Error;
use crate::protocol::constants::MAX_MESSAGE_SIZE;
use crate::text::{ascii_string, decimal_text, format_decimal, lemma_decimal_value};

verus! {

/// The four bytes that stand for `n`, most significant first.
pub open spec fn length_prefix(n: nat) -> Seq<u8> {
    seq![
        ((n / 0x1000000) % 0x100) as u8,
        ((n / 0x10000) % 0x100) as u8,
        ((n / 0x100) % 0x100) as u8,
        (n % 0x100) as u8,
    ]
}

/// The number that the first four bytes of `header` stand for.
pub open spec fn prefix_value(header: Seq<u8>) -> nat
    recommends
        header.len() >= 4,
{
    (header[0] as nat) * 0x1000000 + (header[1] as nat) * 0x10000 + (header[2] as nat) * 0x100
        + (header[3] as nat)
}

/// The frame that carries `payload`.
pub open spec fn frame(payload: Seq<u8>) -> Seq<u8> {
    length_prefix(payload.len()) + payload
}

/// What a reader finds at the start of a byte stream.
pub enum Unframed {
    /// A whole frame, with this payload.
    Payload(Seq<u8>),
    /// A length prefix that announces more than the limit allows.
    Oversize(nat),
    /// The stream ends before the prefix or the payload is complete.
    Truncated,
}

/// Reads one frame from the start of `stream`.
pub open spec fn unframe(stream: Seq<u8>) -> Unframed {
    if stream.len() < 4 {
        Unframed::Truncated
    } else {
        let n = prefix_value(stream);
        if n > MAX_MESSAGE_SIZE {
            Unframed::Oversize(n)
        } else if stream.len() < 4 + n {
            Unframed::Truncated
        } else {
            Unframed::Payload(stream.subrange(4, 4 + n as int))
        }
    }
}

/// A length prefix stands for the length it was made from.
pub proof fn lemma_prefix_value(n: nat)
    requires
        n < 0x100000000,
    ensures
        length_prefix(n).len() == 4,
        prefix_value(length_prefix(n)) == n,
{
}

/// Unframing undoes framing: a reader of a stream that starts with the frame
/// of a payload within the limit gets that payload back, whatever follows.
pub proof fn lemma_unframe_frame(payload: Seq<u8>, rest: Seq<u8>)
    requires
        payload.len() <= MAX_MESSAGE_SIZE,
    ensures
        unframe(frame(payload) + rest) == Unframed::Payload(payload),
{
    let stream = frame(payload) + rest;
    lemma_prefix_value(payload.len());
    assert(stream.subrange(4, 4 + payload.len() as int) =~= payload);
}

/// A payload over the limit has no frame that a reader accepts.
pub proof fn lemma_oversize_rejected(payload: Seq<u8>, rest: Seq<u8>)
    requires
        MAX_MESSAGE_SIZE < payload.len() < 0x100000000,
    ensures
        unframe(frame(payload) + rest) == Unframed::Oversize(payload.len()),
{
    lemma_prefix_value(payload.len());
}

/// The detail of the error for a length over the limit.
pub open spec fn too_large_text(len: nat) -> Seq<char> {
    "message too large: "@ + decimal_text(len) + " bytes (max "@ + decimal_text(
        MAX_MESSAGE_SIZE as nat,
    ) + ")"@
}

/// The detail of the error for a stream that ends inside a frame.
pub open spec fn truncated_text() -> Seq<char> {
    "unexpected end of stream"@
}

/// The error for a length over the limit.
fn too_large(len: u64) -> (e: Error)
    ensures
        e matches Error::InvalidMessage(detail) && detail@ == too_large_text(len as nat),
{
    proof {
        lemma_decimal_value(len as nat);
        lemma_decimal_value(MAX_MESSAGE_SIZE as nat);
    }
    let announced = ascii_string(format_decimal(len));
    let limit = ascii_string(format_decimal(MAX_MESSAGE_SIZE as u64));
    let mut detail = String::from_str("message too large: ");
    detail.append(announced.as_str());
    detail.append(" bytes (max ");
    detail.append(limit.as_str());
    detail.append(")");
    Error::InvalidMessage(detail)
}

/// The error for a stream that ends inside a frame.
fn truncated() -> (e: Error)
    ensures
        e matches Error::Network(detail) && detail@ == truncated_text(),
{
    Error::Network(String::from_str("unexpected end of stream"))
}

/// The length prefix for a payload of `len` bytes, refused when `len` is over
/// the limit.
pub fn frame_header(len: usize) -> (r: Result<[u8; 4], Error>)
    ensures
        match r {
            Ok(header) => len <= MAX_MESSAGE_SIZE && header@ == length_prefix(len as nat),
            Err(e) => e matches Error::InvalidMessage(detail) && detail@ == too_large_text(
                len as nat,
            ) && len > MAX_MESSAGE_SIZE,
        },
{
    if len > MAX_MESSAGE_SIZE {
        return Err(too_large(len as u64));
    }
    let n: u32 = len as u32;
    let header: [u8; 4] = [(n >> 24) as u8, (n >> 16) as u8, (n >> 8) as u8, n as u8];
    proof {
        assert((n >> 24) as u8 == ((n / 0x1000000) % 0x100) as u8) by (bit_vector);
        assert((n >> 16) as u8 == ((n / 0x10000) % 0x100) as u8) by (bit_vector);
        assert((n >> 8) as u8 == ((n / 0x100) % 0x100) as u8) by (bit_vector);
        assert(n as u8 == (n % 0x100) as u8) by (bit_vector);
    }
    Ok(header)
}

/// The payload length that a length prefix announces, refused when it is over
/// the limit, so that a reader can reject a frame before it makes room for it.
pub fn payload_length(header: &[u8; 4]) -> (r: Result<usize, Error>)
    ensures
        match r {
            Ok(n) => n == prefix_value(header@) && n <= MAX_MESSAGE_SIZE,
            Err(e) => e matches Error::InvalidMessage(detail) && detail@ == too_large_text(
                prefix_value(header@),
            ) && prefix_value(header@) > MAX_MESSAGE_SIZE,
        },
{
    let n: u64 = (header[0] as u64) * 0x1000000 + (header[1] as u64) * 0x10000 + (header[2] as u64)
        * 0x100 + (header[3] as u64);
    if n > MAX_MESSAGE_SIZE as u64 {
        Err(too_large(n))
    } else {
        Ok(n as usize)
    }
}

/// Appends the frame of `payload` to `writer`. A payload over the limit is
/// refused and nothing is written.
pub fn write_framed_message(writer: &mut Vec<u8>, payload: &[u8]) -> (r: Result<(), Error>)
    ensures
        match r {
            Ok(_) => payload@.len() <= MAX_MESSAGE_SIZE
                && final(writer)@ == old(writer)@ + frame(payload@),
            Err(e) => e matches Error::InvalidMessage(detail) && detail@ == too_large_text(
                payload@.len(),
            ) && payload@.len() > MAX_MESSAGE_SIZE && final(writer)@ == old(writer)@,
        },
{
    match frame_header(payload.len()) {
        Err(e) => Err(e),
        Ok(header) => {
            writer.extend_from_slice(header.as_slice());
            writer.extend_from_slice(payload);
            Ok(())
        },
    }
}

/// Reads the frame at the start of `reader` and returns its payload. The read
/// fails with a network error when the stream ends early, and with an invalid
/// message when the announced length is over the limit.
pub fn read_framed_message(reader: &[u8]) -> (r: Result<Vec<u8>, Error>)
    ensures
        match unframe(reader@) {
            Unframed::Payload(payload) => r matches Ok(v) && v@ == payload,
            Unframed::Oversize(n) => r matches Err(Error::InvalidMessage(detail)) && detail@
                == too_large_text(n),
            Unframed::Truncated => r matches Err(Error::Network(detail)) && detail@
                == truncated_text(),
        },
{
    if reader.len() < 4 {
        return Err(truncated());
    }
    let header: [u8; 4] = [reader[0], reader[1], reader[2], reader[3]];
    let len = payload_length(&header)?;
    if reader.len() - 4 < len {
        return Err(truncated());
    }
    let payload = slice_to_vec(slice_subrange(reader, 4, 4 + len));
    Ok(payload)
}

} // verus!
