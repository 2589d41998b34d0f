//! The messages that devices exchange, and clipboard content with its hash.

use vstd::prelude::*;
use vstd::string::*;
use vstd::utf8::*;

use crate::crypto::digest::{sha256, sha256_digest};
use crate::crypto::{EncryptedPayload, PublicKey, VerifyingKey};
use crate::protocol::constants::{RICH_TAG, TEXT_TAG};
use crate::text::{
    be_bytes, lemma_be_bytes_injective, lemma_be_bytes_len, lemma_u64_fits, length_to_bytes,
    same_bytes,
};

verus! {

/// Every message of the protocol.
#[derive(Debug, Clone)]
pub enum Message {
    /// A device announces its presence on the network.
    Announce(AnnounceMessage),
    /// A device asks to pair.
    PairRequest(PairRequestMessage),
    /// The answer that accepts a pairing request.
    PairAccept(PairAcceptMessage),
    /// The answer that refuses a pairing request.
    PairReject { session_id: u128, reason: String },
    /// Clipboard content for a paired device.
    ClipboardSync(ClipboardSyncMessage),
    /// A message was received.
    Ack { message_id: u128 },
    /// Is the peer alive?
    Ping { timestamp: u64 },
    /// The answer to a ping.
    Pong { timestamp: u64 },
}

/// Announcement of a device.
#[derive(Debug, Clone)]
pub struct AnnounceMessage {
    pub device_id: u128,
    pub device_name: String,
    pub pubkey_fingerprint: String,
    pub protocol_version: u16,
}

/// First step of the pairing handshake: the request.
#[derive(Debug, Clone)]
pub struct PairRequestMessage {
    pub session_id: u128,
    pub device_id: u128,
    pub device_name: String,
    pub ephemeral_pubkey: PublicKey,
    pub identity_pubkey: VerifyingKey,
}

/// Second step of the pairing handshake: the acceptance.
#[derive(Debug, Clone)]
pub struct PairAcceptMessage {
    pub session_id: u128,
    pub device_id: u128,
    pub device_name: String,
    pub ephemeral_pubkey: PublicKey,
    pub identity_pubkey: VerifyingKey,
    /// Signature over the session id and both ephemeral public keys.
    pub signature: Vec<u8>,
}

/// Encrypted clipboard content on its way to a paired device.
#[derive(Debug, Clone)]
pub struct ClipboardSyncMessage {
    pub message_id: u128,
    pub sender_id: u128,
    pub content_hash: ContentHash,
    pub encrypted_content: EncryptedPayload,
    pub timestamp: u64,
}

/// What a clipboard holds.
#[derive(Debug, Clone)]
pub enum ClipboardContent {
    /// Plain text.
    Text(String),
    /// Rich text: the plain text and its HTML form.
    RichText { plain: String, html: String },
}

/// The bytes that are hashed for a content: a tag for its type, then its text
/// in UTF-8. Of rich text the plain text comes first, behind its length in
/// bytes, so that it is told apart from the HTML that follows it.
pub open spec fn hash_input(content: ClipboardContent) -> Seq<u8> {
    match content {
        ClipboardContent::Text(text) => TEXT_TAG@ + encode_utf8(text@),
        ClipboardContent::RichText { plain, html } => RICH_TAG@ + be_bytes(
            encode_utf8(plain@).len(),
            8,
        ) + encode_utf8(plain@) + encode_utf8(html@),
    }
}

/// A content whose texts a machine can hold: the length of its plain text
/// is a number of 64 bits.
pub open spec fn holdable(content: ClipboardContent) -> bool {
    match content {
        ClipboardContent::Text(text) => true,
        ClipboardContent::RichText { plain, html } => encode_utf8(plain@).len() <= u64::MAX,
    }
}

/// Two contents say the same: they are of the same type and their texts are
/// the same.
pub open spec fn same_content(a: ClipboardContent, b: ClipboardContent) -> bool {
    match (a, b) {
        (ClipboardContent::Text(x), ClipboardContent::Text(y)) => x@ == y@,
        (
            ClipboardContent::RichText { plain: p, html: h },
            ClipboardContent::RichText { plain: q, html: g },
        ) => p@ == q@ && h@ == g@,
        _ => false,
    }
}

/// The tags are the ASCII texts `text:` and `rich:`.
pub proof fn lemma_tags()
    ensures
        TEXT_TAG@ == encode_utf8("text:"@),
        RICH_TAG@ == encode_utf8("rich:"@),
{
    reveal_strlit("text:");
    reveal_strlit("rich:");
    let text = "text:"@;
    let rich = "rich:"@;
    is_ascii_chars_encode_utf8(text);
    is_ascii_chars_encode_utf8(rich);
}

/// The hash of a content: the SHA-256 digest of its hash input.
pub open spec fn content_digest(content: ClipboardContent) -> Seq<u8> {
    sha256_digest(hash_input(content))
}

/// The encoding of a text in two parts is the encoding of the first part,
/// then that of the second.
pub proof fn lemma_encode_concat(a: Seq<char>, b: Seq<char>)
    ensures
        encode_utf8(a + b) == encode_utf8(a) + encode_utf8(b),
    decreases a.len(),
{
    if a.len() > 0 {
        lemma_encode_concat(a.drop_first(), b);
        assert((a + b).drop_first() =~= a.drop_first() + b);
    }
}

/// A dot is encoded as the one byte 46.
proof fn lemma_dot_encoding()
    ensures
        encode_scalar('.' as u32) =~= seq![46u8],
{
    let c = '.' as u32;
    assert(leading_byte_width_1(c) == 46u8) by {
        assert((46u32 & 0x7f) as u8 == 46u8) by (bit_vector);
    }
}

/// Plain text and rich text are never hashed from the same bytes, whatever
/// their texts.
pub proof fn lemma_hash_input_tells_types_apart(text: String, plain: String, html: String)
    ensures
        hash_input(ClipboardContent::Text(text)) != hash_input(
            ClipboardContent::RichText { plain, html },
        ),
{
    let a = hash_input(ClipboardContent::Text(text));
    let b = hash_input(ClipboardContent::RichText { plain, html });
    assert(a[0] == 116u8);
    assert(b[0] == 114u8);
}

/// Two plain texts are hashed from the same bytes only if they are the same
/// text.
pub proof fn lemma_hash_input_tells_texts_apart(a: String, b: String)
    requires
        hash_input(ClipboardContent::Text(a)) == hash_input(ClipboardContent::Text(b)),
    ensures
        a@ == b@,
{
    let x = TEXT_TAG@ + encode_utf8(a@);
    let y = TEXT_TAG@ + encode_utf8(b@);
    assert(encode_utf8(a@) =~= x.subrange(5, x.len() as int));
    assert(encode_utf8(b@) =~= y.subrange(5, y.len() as int));
    encode_utf8_decode_utf8(a@);
    encode_utf8_decode_utf8(b@);
}

/// Two rich texts are hashed from the same bytes only if their plain texts
/// are the same and their HTML is the same.
pub proof fn lemma_hash_input_tells_rich_texts_apart(
    plain_a: String,
    html_a: String,
    plain_b: String,
    html_b: String,
)
    requires
        encode_utf8(plain_a@).len() <= u64::MAX,
        encode_utf8(plain_b@).len() <= u64::MAX,
        hash_input(ClipboardContent::RichText { plain: plain_a, html: html_a }) == hash_input(
            ClipboardContent::RichText { plain: plain_b, html: html_b },
        ),
    ensures
        plain_a@ == plain_b@,
        html_a@ == html_b@,
{
    let pa = encode_utf8(plain_a@);
    let pb = encode_utf8(plain_b@);
    let ha = encode_utf8(html_a@);
    let hb = encode_utf8(html_b@);
    let la = be_bytes(pa.len(), 8);
    let lb = be_bytes(pb.len(), 8);
    let x = RICH_TAG@ + la + pa + ha;
    let y = RICH_TAG@ + lb + pb + hb;
    lemma_be_bytes_len(pa.len(), 8);
    lemma_be_bytes_len(pb.len(), 8);
    assert(la =~= x.subrange(5, 13));
    assert(lb =~= y.subrange(5, 13));
    lemma_u64_fits(pa.len() as u64);
    lemma_u64_fits(pb.len() as u64);
    lemma_be_bytes_injective(pa.len(), pb.len(), 8);
    assert(pa =~= x.subrange(13, 13 + pa.len() as int));
    assert(pb =~= y.subrange(13, 13 + pb.len() as int));
    assert(ha =~= x.subrange(13 + pa.len() as int, x.len() as int));
    assert(hb =~= y.subrange(13 + pb.len() as int, y.len() as int));
    encode_utf8_decode_utf8(plain_a@);
    encode_utf8_decode_utf8(plain_b@);
    encode_utf8_decode_utf8(html_a@);
    encode_utf8_decode_utf8(html_b@);
}

/// The hash input determines the content: contents that are hashed from the
/// same bytes say the same. So contents that differ have hashes that differ,
/// unless SHA-256 gives two inputs one digest.
pub proof fn lemma_hash_input_determines_content(a: ClipboardContent, b: ClipboardContent)
    requires
        holdable(a),
        holdable(b),
        hash_input(a) == hash_input(b),
    ensures
        same_content(a, b),
{
    match (a, b) {
        (ClipboardContent::Text(x), ClipboardContent::Text(y)) => {
            lemma_hash_input_tells_texts_apart(x, y);
        },
        (
            ClipboardContent::RichText { plain: p, html: h },
            ClipboardContent::RichText { plain: q, html: g },
        ) => {
            lemma_hash_input_tells_rich_texts_apart(p, h, q, g);
        },
        (ClipboardContent::Text(x), ClipboardContent::RichText { plain, html }) => {
            lemma_hash_input_tells_types_apart(x, plain, html);
        },
        (ClipboardContent::RichText { plain, html }, ClipboardContent::Text(y)) => {
            lemma_hash_input_tells_types_apart(y, plain, html);
        },
    }
}

/// The longest preview of a text, in bytes.
pub const MAX_PREVIEW_LEN: usize = 50;

/// Where a text of more than [`MAX_PREVIEW_LEN`] bytes is cut for its
/// preview: at the last character boundary that is no further than that
/// many bytes into the text.
pub open spec fn preview_cut(bytes: Seq<u8>) -> int
    recommends
        bytes.len() > MAX_PREVIEW_LEN,
{
    if !is_continuation_byte(bytes[50]) {
        50
    } else if !is_continuation_byte(bytes[49]) {
        49
    } else if !is_continuation_byte(bytes[48]) {
        48
    } else {
        47
    }
}

/// The preview of a text: the text itself if it has no more than
/// [`MAX_PREVIEW_LEN`] bytes, else its beginning, cut at a character
/// boundary, and three dots.
pub open spec fn preview_bytes(bytes: Seq<u8>) -> Seq<u8> {
    if bytes.len() > MAX_PREVIEW_LEN {
        bytes.subrange(0, preview_cut(bytes)) + seq![46u8, 46u8, 46u8]
    } else {
        bytes
    }
}

/// In valid UTF-8, one of any four bytes in a row begins a character.
proof fn lemma_boundary_within_four(bytes: Seq<u8>, at: int)
    requires
        valid_utf8(bytes),
        3 <= at < bytes.len(),
    ensures
        !is_continuation_byte(bytes[at]) || !is_continuation_byte(bytes[at - 1])
            || !is_continuation_byte(bytes[at - 2]) || !is_continuation_byte(bytes[at - 3]),
    decreases bytes.len(),
{
    let first = length_of_first_scalar(bytes);
    let rest = pop_first_scalar(bytes);
    if at - 3 >= first {
        lemma_boundary_within_four(rest, at - first);
    } else if at >= first {
        is_char_boundary_start_end_of_seq(rest);
        is_char_boundary_iff_not_is_continuation_byte(rest, 0);
    }
}

impl ClipboardContent {
    /// The plain text of the content, which is what a plain-text clipboard
    /// takes.
    pub fn plain_text(&self) -> (text: &str)
        ensures
            text@ == match *self {
                ClipboardContent::Text(t) => t@,
                ClipboardContent::RichText { plain, html } => plain@,
            },
    {
        match self {
            ClipboardContent::Text(text) => text.as_str(),
            ClipboardContent::RichText { plain, .. } => plain.as_str(),
        }
    }

    /// The content that a text read from the clipboard stands for: none if
    /// the text is empty, plain text otherwise.
    pub fn from_text(text: String) -> (content: Option<Self>)
        ensures
            content == if text@.len() == 0 {
                None
            } else {
                Some(ClipboardContent::Text(text))
            },
    {
        if text.as_str().is_empty() {
            None
        } else {
            Some(ClipboardContent::Text(text))
        }
    }

    /// A short preview of the plain text, for display.
    pub fn preview(&self) -> (text: String)
        ensures
            encode_utf8(text@) == preview_bytes(
                encode_utf8(
                    match *self {
                        ClipboardContent::Text(t) => t@,
                        ClipboardContent::RichText { plain, html } => plain@,
                    },
                ),
            ),
    {
        let plain = self.plain_text();
        let bytes = plain.as_bytes();
        if bytes.len() <= MAX_PREVIEW_LEN {
            return String::from_str(plain);
        }
        proof {
            encode_utf8_valid_utf8(plain@);
            lemma_boundary_within_four(bytes@, 50);
        }
        let cut: usize = if bytes[50] < 0x80 || bytes[50] > 0xbf {
            50
        } else if bytes[49] < 0x80 || bytes[49] > 0xbf {
            49
        } else if bytes[48] < 0x80 || bytes[48] > 0xbf {
            48
        } else {
            47
        };
        proof {
            is_char_boundary_iff_not_is_continuation_byte(bytes@, cut as int);
            valid_utf8_split(bytes@, cut as int);
            decode_utf8_split(bytes@, cut as int);
        }
        let (head, _) = plain.split_at(cut);
        let mut text = String::from_str(head);
        text.append("...");
        proof {
            reveal_strlit("...");
            let dots = seq![46u8, 46u8, 46u8];
            assert(encode_utf8("..."@) =~= dots) by {
                reveal_with_fuel(encode_utf8, 4);
                lemma_dot_encoding();
            }
            lemma_encode_concat(head@, "..."@);
        }
        text
    }

    /// Hashes the content, for deduplication. Equal contents have equal
    /// hashes, and the bytes that are hashed determine the content.
    pub fn hash(&self) -> (hash: ContentHash)
        ensures
            hash.0@ == content_digest(*self),
            holdable(*self),
    {
        let mut input: Vec<u8> = Vec::new();
        match self {
            ClipboardContent::Text(text) => {
                input.extend_from_slice(TEXT_TAG.as_slice());
                input.extend_from_slice(text.as_str().as_bytes());
                assert(input@ =~= hash_input(*self));
            },
            ClipboardContent::RichText { plain, html } => {
                let plain_bytes = plain.as_str().as_bytes();
                input.extend_from_slice(RICH_TAG.as_slice());
                input.extend_from_slice(length_to_bytes(plain_bytes.len() as u64).as_slice());
                input.extend_from_slice(plain_bytes);
                input.extend_from_slice(html.as_str().as_bytes());
                assert(input@ =~= hash_input(*self));
            },
        }
        ContentHash(sha256(input.as_slice()))
    }
}

/// SHA-256 hash of a clipboard content.
#[derive(Debug, Clone, Copy, PartialEq, Eq, Hash)]
pub struct ContentHash(pub [u8; 32]);

impl ContentHash {
    /// The 32 bytes of the hash.
    pub fn as_bytes(&self) -> (bytes: &[u8; 32])
        ensures
            *bytes == self.0,
    {
        &self.0
    }

    /// Whether two hashes are the same.
    pub fn same(&self, other: &ContentHash) -> (same: bool)
        ensures
            same == (self.0@ == other.0@),
    {
        same_bytes(self.0.as_slice(), other.0.as_slice())
    }
}

} // verus!
