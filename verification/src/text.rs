//! Small helpers on bytes and text: arrays of a fixed length, ASCII strings,
//! decimal numerals and substring search.

use vstd::prelude::*;
use vstd::utf8::*;

verus! {

/// Every byte is an ASCII character.
pub open spec fn is_ascii_bytes(bytes: Seq<u8>) -> bool {
    forall|i: int| 0 <= i < bytes.len() ==> #[trigger] bytes[i] < 0x80
}

/// Joining ASCII bytes gives ASCII bytes.
pub proof fn lemma_ascii_join(a: Seq<u8>, b: Seq<u8>)
    requires
        is_ascii_bytes(a),
        is_ascii_bytes(b),
    ensures
        is_ascii_bytes(a + b),
{
}

/// ASCII bytes are valid UTF-8.
pub proof fn lemma_ascii_is_utf8(bytes: Seq<u8>)
    requires
        is_ascii_bytes(bytes),
    ensures
        valid_utf8(bytes),
{
    assert forall|i: int| 0 <= i < bytes.len() implies #[trigger] is_leading_byte_width_1(
        bytes[i],
    ) by {}
    partial_valid_utf8_extend_ascii_block(bytes, 0, bytes.len() as int);
    assert(bytes.subrange(0, bytes.len() as int) =~= bytes);
}

/// Turns bytes into a string when they are valid UTF-8; `String::from_utf8`
/// of the standard library, which accepts exactly the valid encodings and
/// then holds the characters they encode.
#[verifier::external_body]
pub(crate) fn string_from_utf8(bytes: Vec<u8>) -> (text: Option<String>)
    ensures
        text is Some <==> valid_utf8(bytes@),
        text matches Some(s) ==> s@ == decode_utf8(bytes@),
{
    String::from_utf8(bytes).ok()
}

/// The string made of the given ASCII bytes.
pub(crate) fn ascii_string(bytes: Vec<u8>) -> (text: String)
    requires
        is_ascii_bytes(bytes@),
    ensures
        encode_utf8(text@) == bytes@,
        text@ == decode_utf8(bytes@),
{
    proof {
        lemma_ascii_is_utf8(bytes@);
        decode_utf8_encode_utf8(bytes@);
    }
    match string_from_utf8(bytes) {
        Some(s) => s,
        None => String::new(),
    }
}

/// The array that holds exactly the given bytes, if they are `N`.
pub fn to_array<const N: usize>(data: &[u8]) -> (array: Option<[u8; N]>)
    ensures
        match array {
            Some(a) => data@.len() == N && a@ == data@,
            None => data@.len() != N,
        },
{
    if data.len() != N {
        return None;
    }
    let mut array = [0u8; N];
    let mut i: usize = 0;
    while i < N
        invariant
            i <= N,
            data@.len() == N,
            forall|j: int| 0 <= j < i ==> array@[j] == data@[j],
        decreases N - i,
    {
        array[i] = data[i];
        i += 1;
    }
    Some(array)
}

/// The `len` low-order bytes of `value`, most significant first.
pub open spec fn be_bytes(value: nat, len: nat) -> Seq<u8>
    decreases len,
{
    if len == 0 {
        Seq::empty()
    } else {
        be_bytes(value / 256, (len - 1) as nat).push((value % 256) as u8)
    }
}

/// There are as many bytes as were asked for.
pub proof fn lemma_be_bytes_len(value: nat, len: nat)
    ensures
        be_bytes(value, len).len() == len,
    decreases len,
{
    if len > 0 {
        lemma_be_bytes_len(value / 256, (len - 1) as nat);
    }
}

/// A number has no more than `len` bytes.
pub open spec fn fits_bytes(value: nat, len: nat) -> bool
    decreases len,
{
    if len == 0 {
        value == 0
    } else {
        fits_bytes(value / 256, (len - 1) as nat)
    }
}

/// Numbers that have no more than `len` bytes and the same `len` bytes are
/// the same number.
pub proof fn lemma_be_bytes_injective(a: nat, b: nat, len: nat)
    requires
        fits_bytes(a, len),
        fits_bytes(b, len),
        be_bytes(a, len) == be_bytes(b, len),
    ensures
        a == b,
    decreases len,
{
    if len > 0 {
        let x = be_bytes(a / 256, (len - 1) as nat);
        let y = be_bytes(b / 256, (len - 1) as nat);
        assert(be_bytes(a, len).drop_last() =~= x);
        assert(be_bytes(b, len).drop_last() =~= y);
        assert(be_bytes(a, len).last() == (a % 256) as u8);
        assert(be_bytes(b, len).last() == (b % 256) as u8);
        lemma_be_bytes_injective(a / 256, b / 256, (len - 1) as nat);
    }
}

/// A number of 64 bits has no more than eight bytes.
pub proof fn lemma_u64_fits(value: u64)
    ensures
        fits_bytes(value as nat, 8),
{
    reveal_with_fuel(fits_bytes, 9);
}

/// The eight bytes of a length, most significant first.
pub fn length_to_bytes(len: u64) -> (bytes: [u8; 8])
    ensures
        bytes@ == be_bytes(len as nat, 8),
{
    let mut bytes = [0u8; 8];
    let mut rest: u64 = len;
    let mut i: usize = 8;
    while i > 0
        invariant
            i <= 8,
            be_bytes(len as nat, 8) =~= be_bytes(rest as nat, i as nat) + bytes@.subrange(
                i as int,
                8,
            ),
        decreases i,
    {
        i -= 1;
        bytes[i] = (rest % 256) as u8;
        rest = rest / 256;
    }
    bytes
}

/// Whether two runs of bytes are the same.
pub fn same_bytes(a: &[u8], b: &[u8]) -> (same: bool)
    ensures
        same == (a@ == b@),
{
    if a.len() != b.len() {
        return false;
    }
    let len = a.len();
    let mut i: usize = 0;
    while i < len
        invariant
            i <= len,
            len == a@.len(),
            len == b@.len(),
            forall|j: int| 0 <= j < i ==> a@[j] == b@[j],
        decreases len - i,
    {
        if a[i] != b[i] {
            return false;
        }
        i += 1;
    }
    assert(a@ =~= b@);
    true
}

/// A text begins with a given prefix.
pub open spec fn begins_with(text: Seq<char>, prefix: Seq<char>) -> bool {
    text.len() >= prefix.len() && text.subrange(0, prefix.len() as int) == prefix
}

/// The decimal numeral of `n` as characters.
pub open spec fn decimal_text(n: nat) -> Seq<char> {
    decode_utf8(decimal(n))
}

/// The ASCII digit for a value below ten.
pub open spec fn digit(d: nat) -> u8
    recommends
        d < 10,
{
    (48 + d) as u8
}

/// The decimal numeral of `n`, without sign or leading zeros.
pub open spec fn decimal(n: nat) -> Seq<u8>
    decreases n,
{
    if n < 10 {
        seq![digit(n)]
    } else {
        decimal(n / 10).push(digit(n % 10))
    }
}

/// A byte is one of the ten ASCII digits.
pub open spec fn is_digit(b: u8) -> bool {
    48 <= b <= 57
}

/// Every byte is an ASCII digit.
pub open spec fn all_digits(text: Seq<u8>) -> bool {
    forall|i: int| 0 <= i < text.len() ==> is_digit(#[trigger] text[i])
}

/// The number that a run of ASCII digits stands for.
pub open spec fn digits_value(text: Seq<u8>) -> nat
    decreases text.len(),
{
    if text.len() == 0 {
        0
    } else {
        digits_value(text.drop_last()) * 10 + (text.last() - 48) as nat
    }
}

/// A numeral is a non-empty run of digits that stands for its number.
pub proof fn lemma_decimal_value(n: nat)
    ensures
        decimal(n).len() >= 1,
        all_digits(decimal(n)),
        digits_value(decimal(n)) == n,
    decreases n,
{
    if n < 10 {
        assert(digits_value(decimal(n).drop_last()) == 0);
    } else {
        lemma_decimal_value(n / 10);
        assert(decimal(n).drop_last() =~= decimal(n / 10));
    }
}

/// Writes `n` as a decimal numeral.
pub fn format_decimal(n: u64) -> (text: Vec<u8>)
    ensures
        text@ == decimal(n as nat),
    decreases n,
{
    if n < 10 {
        let mut text: Vec<u8> = Vec::new();
        text.push(48 + n as u8);
        text
    } else {
        let mut text = format_decimal(n / 10);
        text.push(48 + (n % 10) as u8);
        text
    }
}

/// `needle` stands in `hay` at position `at`.
pub open spec fn occurs_at(hay: Seq<u8>, needle: Seq<u8>, at: int) -> bool {
    0 <= at && at + needle.len() <= hay.len() && hay.subrange(at, at + needle.len()) =~= needle
}

/// `needle` stands somewhere in `hay`.
pub open spec fn occurs_in(hay: Seq<u8>, needle: Seq<u8>) -> bool {
    exists|at: int| occurs_at(hay, needle, at)
}

/// Whether `needle` stands in `hay` at position `at`.
fn matches_at(hay: &[u8], needle: &[u8], at: usize) -> (yes: bool)
    requires
        at + needle@.len() <= hay@.len(),
    ensures
        yes == occurs_at(hay@, needle@, at as int),
{
    let len = needle.len();
    let hay_len = hay.len();
    let mut i: usize = 0;
    while i < len
        invariant
            i <= len,
            len == needle@.len(),
            hay_len == hay@.len(),
            at + len <= hay_len,
            forall|j: int| 0 <= j < i ==> hay@[at + j] == needle@[j],
        decreases len - i,
    {
        if hay[at + i] != needle[i] {
            return false;
        }
        i += 1;
    }
    true
}

/// Whether `needle` stands somewhere in `hay`.
pub fn contains_bytes(hay: &[u8], needle: &[u8]) -> (found: bool)
    ensures
        found == occurs_in(hay@, needle@),
{
    let hay_len = hay.len();
    let len = needle.len();
    if len > hay_len {
        assert forall|at: int| !occurs_at(hay@, needle@, at) by {}
        return false;
    }
    let mut at: usize = 0;
    while len <= hay_len - at
        invariant
            at <= hay_len,
            hay_len == hay@.len(),
            len == needle@.len(),
            forall|j: int| 0 <= j < at ==> !occurs_at(hay@, needle@, j),
        decreases hay_len - at,
    {
        if matches_at(hay, needle, at) {
            return true;
        }
        assert(len > 0);
        at += 1;
    }
    assert forall|j: int| !occurs_at(hay@, needle@, j) by {}
    false
}

} // verus!
