//! The pieces that a pairing URL is made of: separators, percent-encoded
//! text, identifiers as text, keys as URL-safe base64 and port numbers.
//!
//! Everything here works on bytes. Percent-encoding is done by the
//! `urlencoding` crate, identifiers are written and read by the `uuid` crate
//! and base64 by the `base64` crate.

use base64::engine::general_purpose::URL_SAFE_NO_PAD;
use base64::Engine;
use uuid::Uuid;
use vstd::prelude::*;

use crate::crypto::encoding::encodable;
use crate::ident::id_bytes;
use crate::text::{all_digits, decimal, digits_value, is_digit, lemma_decimal_value};

verus! {

/// The byte `&`, which separates the parameters of a query.
pub const AMPERSAND: u8 = 38;

/// The byte `=`, which separates a parameter's key from its value.
pub const EQUALS: u8 = 61;

/// The byte `%`, which opens an escape.
pub const PERCENT: u8 = 37;

/// The byte `-`.
pub const HYPHEN: u8 = 45;

/// The position of the first `sep` in `s`, or the length of `s` if there is
/// none.
pub open spec fn find(s: Seq<u8>, sep: u8) -> int
    decreases s.len(),
{
    if s.len() == 0 || s[0] == sep {
        0
    } else {
        1 + find(s.drop_first(), sep)
    }
}

/// No byte of `s` is `sep`.
pub open spec fn free_of(s: Seq<u8>, sep: u8) -> bool {
    forall|i: int| 0 <= i < s.len() ==> #[trigger] s[i] != sep
}

/// `find` stays within the sequence, and no separator stands before the
/// position it gives.
pub proof fn lemma_find_bounds(s: Seq<u8>, sep: u8)
    ensures
        0 <= find(s, sep) <= s.len(),
        find(s, sep) < s.len() ==> s[find(s, sep)] == sep,
        free_of(s.subrange(0, find(s, sep)), sep),
    decreases s.len(),
{
    if s.len() == 0 || s[0] == sep {
    } else {
        lemma_find_bounds(s.drop_first(), sep);
        let rest = s.drop_first();
        assert forall|i: int| 0 <= i < find(s, sep) implies #[trigger] s.subrange(
            0,
            find(s, sep),
        )[i] != sep by {
            if i > 0 {
                assert(rest.subrange(0, find(rest, sep))[i - 1] == s[i]);
            }
        }
    }
}

/// The first separator after a stretch that has none stands right behind the
/// stretch.
pub proof fn lemma_find_after(head: Seq<u8>, sep: u8, tail: Seq<u8>)
    requires
        free_of(head, sep),
    ensures
        find(head + seq![sep] + tail, sep) == head.len(),
    decreases head.len(),
{
    let s = head + seq![sep] + tail;
    if head.len() > 0 {
        assert(s.drop_first() =~= head.drop_first() + seq![sep] + tail);
        assert(free_of(head.drop_first(), sep)) by {
            let rest = head.drop_first();
            assert forall|i: int| 0 <= i < rest.len() implies #[trigger] rest[i] != sep by {}
        }
        lemma_find_after(head.drop_first(), sep, tail);
    }
}

/// In a stretch that has no separator, none is found.
pub proof fn lemma_find_none(s: Seq<u8>, sep: u8)
    requires
        free_of(s, sep),
    ensures
        find(s, sep) == s.len(),
    decreases s.len(),
{
    if s.len() > 0 {
        assert(free_of(s.drop_first(), sep)) by {
            let rest = s.drop_first();
            assert forall|i: int| 0 <= i < rest.len() implies #[trigger] rest[i] != sep by {}
        }
        lemma_find_none(s.drop_first(), sep);
    }
}

/// Finds the first `sep` at or after `from`.
pub(crate) fn find_byte(bytes: &[u8], from: usize, sep: u8) -> (at: usize)
    requires
        from <= bytes@.len(),
    ensures
        from <= at <= bytes@.len(),
        at - from == find(bytes@.subrange(from as int, bytes@.len() as int), sep),
{
    let len = bytes.len();
    let mut at = from;
    while at < len && bytes[at] != sep
        invariant
            len == bytes@.len(),
            from <= at <= len,
            find(bytes@.subrange(from as int, len as int), sep) == (at - from) + find(
                bytes@.subrange(at as int, len as int),
                sep,
            ),
        decreases len - at,
    {
        assert(bytes@.subrange(at as int, len as int).drop_first() =~= bytes@.subrange(
            at + 1,
            len as int,
        ));
        at += 1;
    }
    at
}

/// A byte that percent-encoding leaves as it is: a letter, a digit or one of
/// `-`, `.`, `_`, `~`.
pub open spec fn is_unreserved(b: u8) -> bool {
    (48 <= b <= 57) || (65 <= b <= 90) || (97 <= b <= 122) || b == 45 || b == 46 || b == 95 || b
        == 126
}

/// The upper-case hexadecimal digit for a value below sixteen.
pub open spec fn hex_upper(d: u8) -> u8
    recommends
        d < 16,
{
    if d < 10 {
        (48 + d) as u8
    } else {
        (55 + d) as u8
    }
}

/// The lower-case hexadecimal digit for a value below sixteen.
pub open spec fn hex_lower(d: u8) -> u8
    recommends
        d < 16,
{
    if d < 10 {
        (48 + d) as u8
    } else {
        (87 + d) as u8
    }
}

/// The value of a hexadecimal digit in either case, if the byte is one.
pub open spec fn hex_value(b: u8) -> Option<u8> {
    if 48 <= b <= 57 {
        Some((b - 48) as u8)
    } else if 65 <= b <= 70 {
        Some((b - 55) as u8)
    } else if 97 <= b <= 102 {
        Some((b - 87) as u8)
    } else {
        None
    }
}

/// One byte, percent-encoded.
pub open spec fn percent_encoded_byte(b: u8) -> Seq<u8> {
    if is_unreserved(b) {
        seq![b]
    } else {
        seq![PERCENT, hex_upper(b / 16), hex_upper(b % 16)]
    }
}

/// Percent-encoding: every byte that is not unreserved becomes `%` and two
/// upper-case hexadecimal digits.
pub open spec fn percent_encoded(data: Seq<u8>) -> Seq<u8>
    decreases data.len(),
{
    if data.len() == 0 {
        Seq::empty()
    } else {
        percent_encoded_byte(data[0]) + percent_encoded(data.drop_first())
    }
}

/// Percent-decoding: `%` and two hexadecimal digits become one byte; a `%`
/// that is not followed by two such digits stays as it is, like every other
/// byte.
pub open spec fn percent_decoded(text: Seq<u8>) -> Seq<u8>
    decreases text.len(),
{
    if text.len() == 0 {
        Seq::empty()
    } else if text[0] != PERCENT {
        seq![text[0]] + percent_decoded(text.drop_first())
    } else if text.len() < 3 {
        text
    } else {
        match hex_value(text[1]) {
            None => seq![PERCENT] + percent_decoded(text.drop_first()),
            Some(high) => match hex_value(text[2]) {
                None => seq![PERCENT, text[1]] + percent_decoded(text.skip(2)),
                Some(low) => seq![(high * 16 + low) as u8] + percent_decoded(text.skip(3)),
            },
        }
    }
}

/// A byte that can stand in percent-encoded text.
pub open spec fn is_percent_text(b: u8) -> bool {
    is_unreserved(b) || b == PERCENT
}

/// Percent-encoded text holds only unreserved bytes and `%`.
pub proof fn lemma_percent_encoded_bytes(data: Seq<u8>)
    ensures
        forall|i: int|
            0 <= i < percent_encoded(data).len() ==> is_percent_text(
                #[trigger] percent_encoded(data)[i],
            ),
    decreases data.len(),
{
    if data.len() > 0 {
        lemma_percent_encoded_bytes(data.drop_first());
        let head = percent_encoded_byte(data[0]);
        let tail = percent_encoded(data.drop_first());
        assert forall|i: int| 0 <= i < percent_encoded(data).len() implies is_percent_text(
            #[trigger] percent_encoded(data)[i],
        ) by {
            if i < head.len() {
                assert(percent_encoded(data)[i] == head[i]);
            } else {
                assert(percent_encoded(data)[i] == tail[i - head.len()]);
            }
        }
    }
}

/// Decoding undoes encoding.
pub proof fn lemma_percent_roundtrip(data: Seq<u8>)
    ensures
        percent_decoded(percent_encoded(data)) == data,
    decreases data.len(),
{
    if data.len() > 0 {
        let b = data[0];
        let rest = data.drop_first();
        let text = percent_encoded(data);
        lemma_percent_roundtrip(rest);
        if is_unreserved(b) {
            assert(text.drop_first() =~= percent_encoded(rest));
        } else {
            assert(text.skip(3) =~= percent_encoded(rest));
        }
    }
}

/// `encode_binary` of the `urlencoding` crate: every byte except letters,
/// digits and `-`, `.`, `_`, `~` is written as `%` and two upper-case
/// hexadecimal digits.
#[verifier::external_body]
pub(crate) fn percent_encode(data: &[u8]) -> (text: Vec<u8>)
    ensures
        text@ == percent_encoded(data@),
{
    urlencoding::encode_binary(data).into_owned().into_bytes()
}

/// `decode_binary` of the `urlencoding` crate: every `%` that two hexadecimal
/// digits follow is replaced, with them, by the byte they spell; all else is
/// kept.
#[verifier::external_body]
pub(crate) fn percent_decode(text: &[u8]) -> (data: Vec<u8>)
    ensures
        data@ == percent_decoded(text@),
{
    urlencoding::decode_binary(text).into_owned()
}

/// The bytes in lower-case hexadecimal, two digits each.
pub open spec fn hex_text(bytes: Seq<u8>) -> Seq<u8>
    decreases bytes.len(),
{
    if bytes.len() == 0 {
        Seq::empty()
    } else {
        seq![hex_lower(bytes[0] / 16), hex_lower(bytes[0] % 16)] + hex_text(bytes.drop_first())
    }
}

/// An identifier as text: its bytes in lower-case hexadecimal, in groups of
/// four, two, two, two and six bytes with hyphens between them.
pub open spec fn uuid_text(id: u128) -> Seq<u8> {
    let b = id_bytes(id);
    hex_text(b.subrange(0, 4)) + seq![HYPHEN] + hex_text(b.subrange(4, 6)) + seq![HYPHEN]
        + hex_text(b.subrange(6, 8)) + seq![HYPHEN] + hex_text(b.subrange(8, 10)) + seq![HYPHEN]
        + hex_text(b.subrange(10, 16))
}

/// The identifier that the `uuid` crate reads from a text, if it accepts the
/// text.
pub uninterp spec fn uuid_parsed(text: Seq<u8>) -> Option<u128>;

/// A byte that can stand in an identifier's text: a lower-case hexadecimal
/// digit or a hyphen.
pub open spec fn is_uuid_text(b: u8) -> bool {
    (48 <= b <= 57) || (97 <= b <= 102) || b == HYPHEN
}

/// Hexadecimal text holds only hexadecimal digits.
pub proof fn lemma_hex_text_bytes(bytes: Seq<u8>)
    ensures
        forall|i: int| 0 <= i < hex_text(bytes).len() ==> is_uuid_text(#[trigger] hex_text(bytes)[i]),
    decreases bytes.len(),
{
    if bytes.len() > 0 {
        lemma_hex_text_bytes(bytes.drop_first());
        let tail = hex_text(bytes.drop_first());
        assert forall|i: int| 0 <= i < hex_text(bytes).len() implies is_uuid_text(
            #[trigger] hex_text(bytes)[i],
        ) by {
            if i >= 2 {
                assert(hex_text(bytes)[i] == tail[i - 2]);
            }
        }
    }
}

/// Hexadecimal text has two digits for each byte.
pub proof fn lemma_hex_text_len(bytes: Seq<u8>)
    ensures
        hex_text(bytes).len() == 2 * bytes.len(),
    decreases bytes.len(),
{
    if bytes.len() > 0 {
        lemma_hex_text_len(bytes.drop_first());
    }
}

/// An identifier's text has 36 bytes.
pub proof fn lemma_uuid_text_len(id: u128)
    ensures
        uuid_text(id).len() == 36,
{
    let b = id_bytes(id);
    crate::text::lemma_be_bytes_len(id as nat, 16);
    lemma_hex_text_len(b.subrange(0, 4));
    lemma_hex_text_len(b.subrange(4, 6));
    lemma_hex_text_len(b.subrange(6, 8));
    lemma_hex_text_len(b.subrange(8, 10));
    lemma_hex_text_len(b.subrange(10, 16));
}

/// An identifier's text holds only hexadecimal digits and hyphens.
pub proof fn lemma_uuid_text_bytes(id: u128)
    ensures
        forall|i: int| 0 <= i < uuid_text(id).len() ==> is_uuid_text(#[trigger] uuid_text(id)[i]),
{
    let b = id_bytes(id);
    lemma_hex_text_bytes(b.subrange(0, 4));
    lemma_hex_text_bytes(b.subrange(4, 6));
    lemma_hex_text_bytes(b.subrange(6, 8));
    lemma_hex_text_bytes(b.subrange(8, 10));
    lemma_hex_text_bytes(b.subrange(10, 16));
}

/// The `Display` form of a `Uuid` of the `uuid` crate: the hyphenated
/// lower-case text. The contract states that text and that the crate's parser
/// reads the identifier back from it.
#[verifier::external_body]
pub(crate) fn uuid_format(id: u128) -> (text: Vec<u8>)
    ensures
        text@ == uuid_text(id),
        uuid_parsed(text@) == Some(id),
{
    Uuid::from_u128(id).to_string().into_bytes()
}

/// `Uuid::try_parse_ascii` of the `uuid` crate. The contract only names the
/// result.
#[verifier::external_body]
pub(crate) fn uuid_parse(text: &[u8]) -> (id: Option<u128>)
    ensures
        id == uuid_parsed(text@),
{
    match Uuid::try_parse_ascii(text) {
        Ok(id) => Some(id.as_u128()),
        Err(_) => None,
    }
}

/// The unpadded URL-safe base64 text of `data`, as the `base64` crate writes
/// it.
pub uninterp spec fn base64url_text(data: Seq<u8>) -> Seq<u8>;

/// The bytes that the `base64` crate reads from unpadded URL-safe base64
/// text, if it accepts the text.
pub uninterp spec fn base64url_data(text: Seq<u8>) -> Option<Seq<u8>>;

/// A byte of the URL-safe base64 alphabet: a letter, a digit, `-` or `_`.
pub open spec fn is_base64url(b: u8) -> bool {
    (48 <= b <= 57) || (65 <= b <= 90) || (97 <= b <= 122) || b == 45 || b == 95
}

/// `Engine::encode` of the `base64` crate on its `URL_SAFE_NO_PAD` engine. The
/// contract names the text, states that it stays within the URL-safe
/// alphabet and that the crate's decoder reads the same bytes back from it.
/// The crate panics when the encoded length does not fit in a `usize`, which
/// the precondition rules out.
#[verifier::external_body]
pub(crate) fn base64url_encode(data: &[u8]) -> (text: Vec<u8>)
    requires
        encodable(data@.len()),
    ensures
        text@ == base64url_text(data@),
        base64url_data(text@) == Some(data@),
        forall|i: int| 0 <= i < text@.len() ==> is_base64url(#[trigger] text@[i]),
{
    URL_SAFE_NO_PAD.encode(data).into_bytes()
}

/// `Engine::decode` of the `base64` crate on its `URL_SAFE_NO_PAD` engine. The
/// contract only names the result.
#[verifier::external_body]
pub(crate) fn base64url_decode(text: &[u8]) -> (data: Option<Vec<u8>>)
    ensures
        match data {
            Some(d) => base64url_data(text@) == Some(d@),
            None => base64url_data(text@) is None,
        },
{
    match URL_SAFE_NO_PAD.decode(text) {
        Ok(data) => Some(data),
        Err(_) => None,
    }
}

/// The byte `+`, which may open a port number.
pub const PLUS: u8 = 43;

/// The digits of a port number's text: the text without a leading `+`.
pub open spec fn port_digits(text: Seq<u8>) -> Seq<u8> {
    if text.len() > 0 && text[0] == PLUS {
        text.drop_first()
    } else {
        text
    }
}

/// The port that a text stands for: an optional `+`, then at least one
/// decimal digit, for a number that fits in sixteen bits.
pub open spec fn port_parsed(text: Seq<u8>) -> Option<u16> {
    let digits = port_digits(text);
    if digits.len() > 0 && all_digits(digits) && digits_value(digits) <= u16::MAX {
        Some(digits_value(digits) as u16)
    } else {
        None
    }
}

/// A longer run of digits stands for no smaller a number.
pub proof fn lemma_digits_value_grows(text: Seq<u8>, n: int)
    requires
        0 <= n <= text.len(),
        all_digits(text),
    ensures
        digits_value(text.subrange(0, n)) <= digits_value(text),
    decreases text.len() - n,
{
    if n == text.len() {
        assert(text.subrange(0, n) =~= text);
    } else {
        lemma_digits_value_grows(text.drop_last(), n);
        assert(text.drop_last().subrange(0, n) =~= text.subrange(0, n));
    }
}

/// The decimal numeral of a port is read back as that port.
pub proof fn lemma_port_roundtrip(port: u16)
    ensures
        port_parsed(decimal(port as nat)) == Some(port),
        all_digits(decimal(port as nat)),
{
    lemma_decimal_value(port as nat);
}

/// Reads a port number.
pub fn parse_port(text: &[u8]) -> (port: Option<u16>)
    ensures
        port == port_parsed(text@),
{
    let len = text.len();
    let start: usize = if len > 0 && text[0] == PLUS {
        1
    } else {
        0
    };
    if start == len {
        return None;
    }
    let ghost digits = port_digits(text@);
    let mut value: u32 = 0;
    let mut i: usize = start;
    while i < len
        invariant
            start <= i <= len,
            len == text@.len(),
            digits == port_digits(text@),
            digits == text@.subrange(start as int, len as int),
            all_digits(digits.subrange(0, i - start)),
            value == digits_value(digits.subrange(0, i - start)),
            value <= u16::MAX,
        decreases len - i,
    {
        let b = text[i];
        let ghost seen = digits.subrange(0, i - start + 1);
        assert(seen.drop_last() =~= digits.subrange(0, i - start));
        if b < 48 || b > 57 {
            assert(!is_digit(digits[i - start]));
            return None;
        }
        value = value * 10 + (b - 48) as u32;
        assert forall|j: int| 0 <= j < seen.len() implies is_digit(#[trigger] seen[j]) by {}
        if value > 65535 {
            proof {
                if all_digits(digits) {
                    lemma_digits_value_grows(digits, i - start + 1);
                }
            }
            return None;
        }
        i += 1;
    }
    assert(digits.subrange(0, len - start) =~= digits);
    Some(value as u16)
}

} // verus!
