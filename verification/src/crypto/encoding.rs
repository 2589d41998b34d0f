//! Base64 text for binary fields: keys, nonces, hashes and signatures travel
//! as standard base64 inside structured payloads.

use base64::engine::general_purpose::STANDARD;
use base64::Engine;
use vstd::prelude::*;
use vstd::string::*;
use vstd::utf8::*;

use crate::text::to_array;

verus! {

/// The standard, padded base64 text of `data`, as the `base64` crate writes it.
pub uninterp spec fn base64_text(data: Seq<u8>) -> Seq<char>;

/// The bytes that the `base64` crate reads from standard, padded base64 text,
/// if it accepts the text.
pub uninterp spec fn base64_data(text: Seq<char>) -> Option<Seq<u8>>;

/// The encoded length of `len` bytes fits in a `usize`.
pub open spec fn encodable(len: nat) -> bool {
    (len / 3) * 4 + 4 <= usize::MAX
}

/// The length of the padded base64 text of `len` bytes: four characters for
/// every three bytes or part of three.
pub open spec fn padded_len(len: nat) -> nat {
    ((len + 2) / 3) * 4
}

/// The most bytes that base64 text of `len` bytes can decode to: three for
/// every four bytes or part of four.
pub open spec fn decoded_bound(len: nat) -> nat {
    ((len + 3) / 4) * 3
}

/// A text is too short to decode to `len` bytes.
pub open spec fn too_short_for(text: Seq<char>, len: nat) -> bool {
    decoded_bound(encode_utf8(text).len()) < len
}

/// `Engine::encode` of the `base64` crate on its `STANDARD` engine. The
/// contract names the text, gives its length as the crate computes it (the
/// text is ASCII, one character for each byte written), and states that the
/// crate's decoder reads the same bytes back from it. The crate panics when
/// the encoded length does not fit in a `usize`, which the precondition
/// rules out.
#[verifier::external_body]
pub(crate) fn base64_encode(data: &[u8]) -> (text: String)
    requires
        encodable(data@.len()),
    ensures
        text@ == base64_text(data@),
        text@.len() == padded_len(data@.len()),
        base64_data(text@) == Some(data@),
{
    STANDARD.encode(data)
}

/// `Engine::decode` of the `base64` crate on its `STANDARD` engine. The
/// contract names the bytes read and bounds their number by the size of the
/// buffer that the crate decodes into; on refusal the crate's own description
/// of the fault is handed back.
#[verifier::external_body]
pub(crate) fn base64_decode(text: &str) -> (r: Result<Vec<u8>, String>)
    ensures
        match r {
            Ok(data) => base64_data(text@) == Some(data@) && data@.len() <= decoded_bound(
                encode_utf8(text@).len(),
            ),
            Err(_) => base64_data(text@) is None,
        },
{
    match STANDARD.decode(text) {
        Ok(data) => Ok(data),
        Err(e) => Err(e.to_string()),
    }
}

/// What decoding a byte string of a fixed length from base64 text can yield.
pub enum DecodedArray {
    /// The text decodes to exactly the wanted number of bytes.
    Bytes(Seq<u8>),
    /// The text decodes, to another number of bytes.
    WrongLength,
    /// The text is not base64.
    Malformed,
}

/// Decoding `text` to exactly `len` bytes.
pub open spec fn decoded_array(text: Seq<char>, len: nat) -> DecodedArray {
    match base64_data(text) {
        Some(data) => if data.len() == len {
            DecodedArray::Bytes(data)
        } else {
            DecodedArray::WrongLength
        },
        None => DecodedArray::Malformed,
    }
}

/// Writes bytes as base64 text.
pub fn encode_bytes(data: &[u8]) -> (text: String)
    requires
        encodable(data@.len()),
    ensures
        text@ == base64_text(data@),
        text@.len() == padded_len(data@.len()),
        base64_data(text@) == Some(data@),
{
    base64_encode(data)
}

/// Reads bytes from base64 text. The error holds the decoder's description of
/// what is wrong with the text.
pub fn decode_bytes(text: &str) -> (r: Result<Vec<u8>, String>)
    ensures
        match r {
            Ok(data) => base64_data(text@) == Some(data@) && data@.len() <= decoded_bound(
                encode_utf8(text@).len(),
            ),
            Err(_) => base64_data(text@) is None,
        },
{
    base64_decode(text)
}

/// Reads a 12-byte array, such as a nonce, from base64 text. A text too short
/// for twelve bytes is refused.
pub fn decode_array_12(text: &str) -> (r: Result<[u8; 12], String>)
    ensures
        too_short_for(text@, 12) ==> r is Err,
        match decoded_array(text@, 12) {
            DecodedArray::Bytes(data) => r matches Ok(a) && a@ == data,
            DecodedArray::WrongLength => r matches Err(m)
                && m@ == "invalid length: expected 12 bytes"@,
            DecodedArray::Malformed => r is Err,
        },
{
    let data = base64_decode(text)?;
    match to_array::<12>(data.as_slice()) {
        Some(array) => Ok(array),
        None => Err(String::from_str("invalid length: expected 12 bytes")),
    }
}

/// Reads a 32-byte array, such as a key or a hash, from base64 text. A text
/// too short for 32 bytes is refused.
pub fn decode_array_32(text: &str) -> (r: Result<[u8; 32], String>)
    ensures
        too_short_for(text@, 32) ==> r is Err,
        match decoded_array(text@, 32) {
            DecodedArray::Bytes(data) => r matches Ok(a) && a@ == data,
            DecodedArray::WrongLength => r matches Err(m)
                && m@ == "invalid length: expected 32 bytes"@,
            DecodedArray::Malformed => r is Err,
        },
{
    let data = base64_decode(text)?;
    match to_array::<32>(data.as_slice()) {
        Some(array) => Ok(array),
        None => Err(String::from_str("invalid length: expected 32 bytes")),
    }
}

} // verus!
