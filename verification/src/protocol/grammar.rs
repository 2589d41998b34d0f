//! The grammar of the pairing URL.
//!
//! A pairing URL reads
//! `omniclip://pair?s=<session id>&k=<key>&h=<address>&p=<port>&n=<name>`.
//! What such a URL says is defined here on its bytes, together with the proof
//! that the URL written for given fields is read back as those fields.

use vstd::prelude::*;
use vstd::string::*;
use vstd::utf8::*;

use crate::protocol::constants::PAIRING_URL_SCHEME;
use crate::protocol::url::{
    base64url_data, base64url_text, find, free_of, is_base64url, lemma_find_after,
    lemma_find_bounds, lemma_find_none, lemma_percent_encoded_bytes, lemma_percent_roundtrip,
    lemma_port_roundtrip, lemma_uuid_text_bytes, percent_decoded, percent_encoded, port_parsed,
    uuid_parsed, uuid_text, AMPERSAND, EQUALS,
};
use crate::text::{decimal, is_ascii_bytes, lemma_ascii_join};

verus! {

/// How every pairing URL begins: the ASCII text `omniclip://pair?`.
pub const URL_PREFIX: [u8; 16] = [
    111, 109, 110, 105, 99, 108, 105, 112, 58, 47, 47, 112, 97, 105, 114, 63,
];

/// The prefix of pairing URLs is the scheme and path of pairing URLs,
/// followed by a question mark.
pub proof fn lemma_url_prefix()
    ensures
        URL_PREFIX@ == encode_utf8(PAIRING_URL_SCHEME@ + "?"@),
{
    reveal_strlit("omniclip://pair");
    reveal_strlit("?");
    let text = PAIRING_URL_SCHEME@ + "?"@;
    is_ascii_chars_encode_utf8(text);
}

/// Key of the session id parameter: `s`.
pub const KEY_SESSION: u8 = 115;

/// Key of the public key parameter: `k`.
pub const KEY_PUBKEY: u8 = 107;

/// Key of the address parameter: `h`.
pub const KEY_HOST: u8 = 104;

/// Key of the port parameter: `p`.
pub const KEY_PORT: u8 = 112;

/// Key of the name parameter: `n`.
pub const KEY_NAME: u8 = 110;

/// What a pairing URL says, as mathematical values.
pub struct QrFields {
    pub session_id: u128,
    pub pubkey: Seq<u8>,
    pub ip: Seq<char>,
    pub port: u16,
    pub name: Seq<char>,
}

/// The parameters read so far from a query.
pub struct Partial {
    pub session_id: Option<u128>,
    pub pubkey: Option<Seq<u8>>,
    pub ip: Option<Seq<char>>,
    pub port: Option<u16>,
    pub name: Option<Seq<char>>,
}

/// Why a text is no pairing URL.
pub enum UrlFault {
    InvalidScheme,
    InvalidParam,
    InvalidSessionId,
    InvalidPubkey,
    InvalidPubkeyLength,
    InvalidIp,
    InvalidPort,
    InvalidName,
    MissingSessionId,
    MissingPubkey,
    MissingIp,
    MissingPort,
    MissingName,
}

impl UrlFault {
    /// The words that name the fault in an error.
    pub open spec fn text(self) -> Seq<char> {
        match self {
            UrlFault::InvalidScheme => "invalid scheme"@,
            UrlFault::InvalidParam => "invalid param"@,
            UrlFault::InvalidSessionId => "invalid session id"@,
            UrlFault::InvalidPubkey => "invalid pubkey"@,
            UrlFault::InvalidPubkeyLength => "invalid pubkey length"@,
            UrlFault::InvalidIp => "invalid ip"@,
            UrlFault::InvalidPort => "invalid port"@,
            UrlFault::InvalidName => "invalid name"@,
            UrlFault::MissingSessionId => "missing session_id"@,
            UrlFault::MissingPubkey => "missing pubkey"@,
            UrlFault::MissingIp => "missing ip"@,
            UrlFault::MissingPort => "missing port"@,
            UrlFault::MissingName => "missing name"@,
        }
    }
}

/// No parameter read yet.
pub open spec fn nothing_read() -> Partial {
    Partial { session_id: None, pubkey: None, ip: None, port: None, name: None }
}

/// Percent-encoded text, decoded and read as UTF-8.
pub open spec fn text_decoded(value: Seq<u8>) -> Option<Seq<char>> {
    let bytes = percent_decoded(value);
    if valid_utf8(bytes) {
        Some(decode_utf8(bytes))
    } else {
        None
    }
}

/// A key is the one byte `k`.
pub open spec fn is_key(key: Seq<u8>, k: u8) -> bool {
    key.len() == 1 && key[0] == k
}

/// Takes the value of the parameter with the given key into what was read
/// before. A later value for a key replaces an earlier one; an unknown key
/// is passed over.
pub open spec fn read_value(key: Seq<u8>, value: Seq<u8>, read: Partial) -> Result<
    Partial,
    UrlFault,
> {
    if is_key(key, KEY_SESSION) {
        match uuid_parsed(value) {
            Some(id) => Ok(Partial { session_id: Some(id), ..read }),
            None => Err(UrlFault::InvalidSessionId),
        }
    } else if is_key(key, KEY_PUBKEY) {
        match base64url_data(value) {
            Some(data) => if data.len() == 32 {
                Ok(Partial { pubkey: Some(data), ..read })
            } else {
                Err(UrlFault::InvalidPubkeyLength)
            },
            None => Err(UrlFault::InvalidPubkey),
        }
    } else if is_key(key, KEY_HOST) {
        match text_decoded(value) {
            Some(ip) => Ok(Partial { ip: Some(ip), ..read }),
            None => Err(UrlFault::InvalidIp),
        }
    } else if is_key(key, KEY_PORT) {
        match port_parsed(value) {
            Some(port) => Ok(Partial { port: Some(port), ..read }),
            None => Err(UrlFault::InvalidPort),
        }
    } else if is_key(key, KEY_NAME) {
        match text_decoded(value) {
            Some(name) => Ok(Partial { name: Some(name), ..read }),
            None => Err(UrlFault::InvalidName),
        }
    } else {
        Ok(read)
    }
}

/// Reads one parameter: the key stands before the first `=`, the value behind
/// it. A parameter without `=` is a fault.
pub open spec fn read_param(part: Seq<u8>, read: Partial) -> Result<Partial, UrlFault> {
    let eq = find(part, EQUALS);
    if eq >= part.len() {
        Err(UrlFault::InvalidParam)
    } else {
        read_value(part.subrange(0, eq), part.subrange(eq + 1, part.len() as int), read)
    }
}

/// Reads the parameters of a query, which `&` separates, from left to right
/// and stops at the first fault.
pub open spec fn read_query(query: Seq<u8>, read: Partial) -> Result<Partial, UrlFault>
    decreases query.len(),
{
    let end = find(query, AMPERSAND);
    match read_param(query.subrange(0, end), read) {
        Err(fault) => Err(fault),
        Ok(next) => if 0 <= end < query.len() {
            read_query(query.subrange(end + 1, query.len() as int), next)
        } else {
            Ok(next)
        },
    }
}

/// All five parameters must have been read.
pub open spec fn complete(read: Partial) -> Result<QrFields, UrlFault> {
    if read.session_id is None {
        Err(UrlFault::MissingSessionId)
    } else if read.pubkey is None {
        Err(UrlFault::MissingPubkey)
    } else if read.ip is None {
        Err(UrlFault::MissingIp)
    } else if read.port is None {
        Err(UrlFault::MissingPort)
    } else if read.name is None {
        Err(UrlFault::MissingName)
    } else {
        Ok(
            QrFields {
                session_id: read.session_id->0,
                pubkey: read.pubkey->0,
                ip: read.ip->0,
                port: read.port->0,
                name: read.name->0,
            },
        )
    }
}

/// A text begins with the prefix of pairing URLs.
pub open spec fn has_url_prefix(url: Seq<u8>) -> bool {
    url.len() >= 16 && url.subrange(0, 16) =~= URL_PREFIX@
}

/// What a pairing URL says, or why the text is none.
pub open spec fn parse_url(url: Seq<u8>) -> Result<QrFields, UrlFault> {
    if !has_url_prefix(url) {
        Err(UrlFault::InvalidScheme)
    } else {
        match read_query(url.skip(16), nothing_read()) {
            Err(fault) => Err(fault),
            Ok(read) => complete(read),
        }
    }
}

/// One parameter as it stands in a URL: its key, `=` and its value.
pub open spec fn param(key: u8, value: Seq<u8>) -> Seq<u8> {
    seq![key, EQUALS] + value
}

/// The URL that says `fields`.
pub open spec fn url_bytes(fields: QrFields) -> Seq<u8> {
    URL_PREFIX@ + param(KEY_SESSION, uuid_text(fields.session_id)) + seq![AMPERSAND] + param(
        KEY_PUBKEY,
        base64url_text(fields.pubkey),
    ) + seq![AMPERSAND] + param(KEY_HOST, percent_encoded(encode_utf8(fields.ip))) + seq![AMPERSAND]
        + param(KEY_PORT, decimal(fields.port as nat)) + seq![AMPERSAND] + param(
        KEY_NAME,
        percent_encoded(encode_utf8(fields.name)),
    )
}

/// One parameter has its key in front, then `=`, then its value.
proof fn lemma_param_shape(key: u8, value: Seq<u8>)
    requires
        key != EQUALS,
    ensures
        find(param(key, value), EQUALS) == 1,
        param(key, value).len() == value.len() + 2,
        param(key, value).subrange(0, 1) =~= seq![key],
        param(key, value).subrange(2, param(key, value).len() as int) =~= value,
{
    lemma_find_after(seq![key], EQUALS, value);
    assert(param(key, value) =~= seq![key] + seq![EQUALS] + value);
}

/// A parameter is free of `&` when its key and its value are.
proof fn lemma_param_free(key: u8, value: Seq<u8>)
    requires
        key != AMPERSAND,
        free_of(value, AMPERSAND),
    ensures
        free_of(param(key, value), AMPERSAND),
{
    assert forall|i: int| 0 <= i < param(key, value).len() implies #[trigger] param(key, value)[i]
        != AMPERSAND by {}
}

/// Reading a parameter that was made from a key and a value takes the value
/// for that key.
proof fn lemma_read_param_of(key: u8, value: Seq<u8>, read: Partial)
    requires
        key != EQUALS,
    ensures
        read_param(param(key, value), read) == read_value(seq![key], value, read),
{
    lemma_param_shape(key, value);
}

/// Reading a query whose first parameter is followed by `&` reads that
/// parameter and goes on behind the `&`.
proof fn lemma_read_query_step(part: Seq<u8>, rest: Seq<u8>, read: Partial)
    requires
        free_of(part, AMPERSAND),
    ensures
        read_query(part + seq![AMPERSAND] + rest, read) == (match read_param(part, read) {
            Err(fault) => Err(fault),
            Ok(next) => read_query(rest, next),
        }),
{
    let query = part + seq![AMPERSAND] + rest;
    lemma_find_after(part, AMPERSAND, rest);
    assert(query.subrange(0, part.len() as int) =~= part);
    assert(query.subrange(part.len() as int + 1, query.len() as int) =~= rest);
}

/// Reading a query that is one parameter reads that parameter.
proof fn lemma_read_query_last(part: Seq<u8>, read: Partial)
    requires
        free_of(part, AMPERSAND),
    ensures
        read_query(part, read) == read_param(part, read),
{
    lemma_find_none(part, AMPERSAND);
    assert(part.subrange(0, part.len() as int) =~= part);
}

/// Percent-encoded UTF-8 text is decoded to the text it was made from.
proof fn lemma_text_roundtrip(text: Seq<char>)
    ensures
        text_decoded(percent_encoded(encode_utf8(text))) == Some(text),
        free_of(percent_encoded(encode_utf8(text)), AMPERSAND),
        is_ascii_bytes(percent_encoded(encode_utf8(text))),
{
    lemma_percent_roundtrip(encode_utf8(text));
    encode_utf8_valid_utf8(text);
    encode_utf8_decode_utf8(text);
    lemma_percent_encoded_bytes(encode_utf8(text));
    let encoded = percent_encoded(encode_utf8(text));
    assert forall|i: int| 0 <= i < encoded.len() implies #[trigger] encoded[i] != AMPERSAND by {}
    assert forall|i: int| 0 <= i < encoded.len() implies #[trigger] encoded[i] < 0x80 by {}
}

/// The five parameters of a URL, with `&` between them.
pub open spec fn query_bytes(
    id_text: Seq<u8>,
    key_text: Seq<u8>,
    ip_text: Seq<u8>,
    port_text: Seq<u8>,
    name_text: Seq<u8>,
) -> Seq<u8> {
    param(KEY_SESSION, id_text) + seq![AMPERSAND] + (param(KEY_PUBKEY, key_text) + seq![AMPERSAND]
        + (param(KEY_HOST, ip_text) + seq![AMPERSAND] + (param(KEY_PORT, port_text)
        + seq![AMPERSAND] + param(KEY_NAME, name_text))))
}

/// A query made of five values that hold no `&` is read back as what the
/// five values are read as.
#[verifier::rlimit(40)]
proof fn lemma_query_reads_back(
    id_text: Seq<u8>,
    key_text: Seq<u8>,
    ip_text: Seq<u8>,
    port_text: Seq<u8>,
    name_text: Seq<u8>,
    fields: QrFields,
)
    requires
        free_of(id_text, AMPERSAND),
        free_of(key_text, AMPERSAND),
        free_of(ip_text, AMPERSAND),
        free_of(port_text, AMPERSAND),
        free_of(name_text, AMPERSAND),
        uuid_parsed(id_text) == Some(fields.session_id),
        base64url_data(key_text) == Some(fields.pubkey),
        fields.pubkey.len() == 32,
        text_decoded(ip_text) == Some(fields.ip),
        port_parsed(port_text) == Some(fields.port),
        text_decoded(name_text) == Some(fields.name),
    ensures
        read_query(query_bytes(id_text, key_text, ip_text, port_text, name_text), nothing_read())
            matches Ok(read) && complete(read) == Ok::<QrFields, UrlFault>(fields),
{
    let s = param(KEY_SESSION, id_text);
    let k = param(KEY_PUBKEY, key_text);
    let h = param(KEY_HOST, ip_text);
    let p = param(KEY_PORT, port_text);
    let n = param(KEY_NAME, name_text);
    let amp = seq![AMPERSAND];
    lemma_param_free(KEY_SESSION, id_text);
    lemma_param_free(KEY_PUBKEY, key_text);
    lemma_param_free(KEY_HOST, ip_text);
    lemma_param_free(KEY_PORT, port_text);
    lemma_param_free(KEY_NAME, name_text);
    let r0 = nothing_read();
    let r1 = Partial { session_id: Some(fields.session_id), ..r0 };
    let r2 = Partial { pubkey: Some(fields.pubkey), ..r1 };
    let r3 = Partial { ip: Some(fields.ip), ..r2 };
    let r4 = Partial { port: Some(fields.port), ..r3 };
    let r5 = Partial { name: Some(fields.name), ..r4 };
    assert(read_param(s, r0) == Ok::<Partial, UrlFault>(r1)) by {
        lemma_read_param_of(KEY_SESSION, id_text, r0);
    }
    assert(read_param(k, r1) == Ok::<Partial, UrlFault>(r2)) by {
        lemma_read_param_of(KEY_PUBKEY, key_text, r1);
    }
    assert(read_param(h, r2) == Ok::<Partial, UrlFault>(r3)) by {
        lemma_read_param_of(KEY_HOST, ip_text, r2);
    }
    assert(read_param(p, r3) == Ok::<Partial, UrlFault>(r4)) by {
        lemma_read_param_of(KEY_PORT, port_text, r3);
    }
    assert(read_param(n, r4) == Ok::<Partial, UrlFault>(r5)) by {
        lemma_read_param_of(KEY_NAME, name_text, r4);
    }
    let q4 = n;
    let q3 = p + amp + q4;
    let q2 = h + amp + q3;
    let q1 = k + amp + q2;
    let q0 = s + amp + q1;
    assert(read_query(q4, r4) == Ok::<Partial, UrlFault>(r5)) by {
        lemma_read_query_last(n, r4);
    }
    assert(read_query(q3, r3) == Ok::<Partial, UrlFault>(r5)) by {
        lemma_read_query_step(p, q4, r3);
    }
    assert(read_query(q2, r2) == Ok::<Partial, UrlFault>(r5)) by {
        lemma_read_query_step(h, q3, r2);
    }
    assert(read_query(q1, r1) == Ok::<Partial, UrlFault>(r5)) by {
        lemma_read_query_step(k, q2, r1);
    }
    assert(read_query(q0, r0) == Ok::<Partial, UrlFault>(r5)) by {
        lemma_read_query_step(s, q1, r0);
    }
}

/// A parameter with an ASCII key and an ASCII value is ASCII.
proof fn lemma_param_ascii(key: u8, value: Seq<u8>)
    requires
        key < 0x80,
        is_ascii_bytes(value),
    ensures
        is_ascii_bytes(param(key, value)),
{
    lemma_ascii_join(seq![key, EQUALS], value);
}

/// A query made of five ASCII values is ASCII.
proof fn lemma_query_is_ascii(
    id_text: Seq<u8>,
    key_text: Seq<u8>,
    ip_text: Seq<u8>,
    port_text: Seq<u8>,
    name_text: Seq<u8>,
)
    requires
        is_ascii_bytes(id_text),
        is_ascii_bytes(key_text),
        is_ascii_bytes(ip_text),
        is_ascii_bytes(port_text),
        is_ascii_bytes(name_text),
    ensures
        is_ascii_bytes(query_bytes(id_text, key_text, ip_text, port_text, name_text)),
{
    let s = param(KEY_SESSION, id_text);
    let k = param(KEY_PUBKEY, key_text);
    let h = param(KEY_HOST, ip_text);
    let p = param(KEY_PORT, port_text);
    let n = param(KEY_NAME, name_text);
    let amp = seq![AMPERSAND];
    lemma_param_ascii(KEY_SESSION, id_text);
    lemma_param_ascii(KEY_PUBKEY, key_text);
    lemma_param_ascii(KEY_HOST, ip_text);
    lemma_param_ascii(KEY_PORT, port_text);
    lemma_param_ascii(KEY_NAME, name_text);
    lemma_ascii_join(p, amp);
    lemma_ascii_join(p + amp, n);
    lemma_ascii_join(h, amp);
    lemma_ascii_join(h + amp, p + amp + n);
    lemma_ascii_join(k, amp);
    lemma_ascii_join(k + amp, h + amp + (p + amp + n));
    lemma_ascii_join(s, amp);
    lemma_ascii_join(s + amp, k + amp + (h + amp + (p + amp + n)));
}

/// The texts that the fields of a URL are written as hold no `&` and only
/// ASCII.
proof fn lemma_field_texts(fields: QrFields)
    requires
        forall|i: int|
            0 <= i < base64url_text(fields.pubkey).len() ==> is_base64url(
                #[trigger] base64url_text(fields.pubkey)[i],
            ),
    ensures
        free_of(uuid_text(fields.session_id), AMPERSAND),
        is_ascii_bytes(uuid_text(fields.session_id)),
        free_of(base64url_text(fields.pubkey), AMPERSAND),
        is_ascii_bytes(base64url_text(fields.pubkey)),
        free_of(decimal(fields.port as nat), AMPERSAND),
        is_ascii_bytes(decimal(fields.port as nat)),
{
    let id_text = uuid_text(fields.session_id);
    let key_text = base64url_text(fields.pubkey);
    let port_text = decimal(fields.port as nat);
    lemma_uuid_text_bytes(fields.session_id);
    lemma_port_roundtrip(fields.port);
    assert forall|i: int| 0 <= i < id_text.len() implies #[trigger] id_text[i] != AMPERSAND
        && id_text[i] < 0x80 by {}
    assert forall|i: int| 0 <= i < key_text.len() implies #[trigger] key_text[i] != AMPERSAND
        && key_text[i] < 0x80 by {}
    assert forall|i: int| 0 <= i < port_text.len() implies #[trigger] port_text[i] != AMPERSAND
        && port_text[i] < 0x80 by {}
}

/// The URL made for given fields is read back as those fields, provided the
/// identifier and the key are read back from their texts.
#[verifier::rlimit(40)]
pub(crate) proof fn lemma_url_reads_back(fields: QrFields)
    requires
        fields.pubkey.len() == 32,
        uuid_parsed(uuid_text(fields.session_id)) == Some(fields.session_id),
        base64url_data(base64url_text(fields.pubkey)) == Some(fields.pubkey),
        forall|i: int|
            0 <= i < base64url_text(fields.pubkey).len() ==> is_base64url(
                #[trigger] base64url_text(fields.pubkey)[i],
            ),
    ensures
        parse_url(url_bytes(fields)) == Ok::<QrFields, UrlFault>(fields),
        is_ascii_bytes(url_bytes(fields)),
{
    let id_text = uuid_text(fields.session_id);
    let key_text = base64url_text(fields.pubkey);
    let ip_text = percent_encoded(encode_utf8(fields.ip));
    let port_text = decimal(fields.port as nat);
    let name_text = percent_encoded(encode_utf8(fields.name));
    let url = url_bytes(fields);
    let query = query_bytes(id_text, key_text, ip_text, port_text, name_text);
    lemma_field_texts(fields);
    lemma_text_roundtrip(fields.ip);
    lemma_text_roundtrip(fields.name);
    lemma_port_roundtrip(fields.port);
    lemma_query_reads_back(id_text, key_text, ip_text, port_text, name_text, fields);
    lemma_query_is_ascii(id_text, key_text, ip_text, port_text, name_text);
    lemma_ascii_join(URL_PREFIX@, query);
    assert(url =~= URL_PREFIX@ + query);
    assert(url.skip(16) =~= query);
}

/// Whether a query holds a parameter with the given one-byte key.
pub open spec fn names_key(query: Seq<u8>, key: u8) -> bool
    decreases query.len(),
{
    let end = find(query, AMPERSAND);
    let part = query.subrange(0, end);
    (find(part, EQUALS) == 1 && part[0] == key) || (0 <= end < query.len() && names_key(
        query.subrange(end + 1, query.len() as int),
        key,
    ))
}

/// Reading a query fills in only the fields whose keys the query holds.
proof fn lemma_read_needs_keys(query: Seq<u8>, read: Partial)
    ensures
        read_query(query, read) matches Ok(out) ==> {
            &&& out.session_id is Some ==> read.session_id is Some || names_key(query, KEY_SESSION)
            &&& out.pubkey is Some ==> read.pubkey is Some || names_key(query, KEY_PUBKEY)
            &&& out.ip is Some ==> read.ip is Some || names_key(query, KEY_HOST)
            &&& out.port is Some ==> read.port is Some || names_key(query, KEY_PORT)
            &&& out.name is Some ==> read.name is Some || names_key(query, KEY_NAME)
        },
    decreases query.len(),
{
    let end = find(query, AMPERSAND);
    let part = query.subrange(0, end);
    lemma_find_bounds(query, AMPERSAND);
    lemma_find_bounds(part, EQUALS);
    match read_param(part, read) {
        Err(_) => {},
        Ok(next) => {
            if 0 <= end < query.len() {
                lemma_read_needs_keys(query.subrange(end + 1, query.len() as int), next);
            }
        },
    }
}

/// A URL that lacks one of the five parameters is refused: a text that is
/// read as a pairing URL holds a parameter for each of the five keys.
pub proof fn lemma_missing_parameter_refused(url: Seq<u8>)
    requires
        parse_url(url) is Ok,
    ensures
        names_key(url.skip(16), KEY_SESSION),
        names_key(url.skip(16), KEY_PUBKEY),
        names_key(url.skip(16), KEY_HOST),
        names_key(url.skip(16), KEY_PORT),
        names_key(url.skip(16), KEY_NAME),
{
    lemma_read_needs_keys(url.skip(16), nothing_read());
}

/// One more parameter as it stands behind a query: `&`, its key, `=` and
/// its value.
pub open spec fn one_more(key: Seq<u8>, value: Seq<u8>) -> Seq<u8> {
    seq![AMPERSAND] + (key + seq![EQUALS] + value)
}

/// A key that is none of the five keys of a pairing URL and holds neither
/// `&` nor `=`.
pub open spec fn is_unknown_key(key: Seq<u8>) -> bool {
    &&& free_of(key, AMPERSAND)
    &&& free_of(key, EQUALS)
    &&& !is_key(key, KEY_SESSION)
    &&& !is_key(key, KEY_PUBKEY)
    &&& !is_key(key, KEY_HOST)
    &&& !is_key(key, KEY_PORT)
    &&& !is_key(key, KEY_NAME)
}

/// A parameter with an unknown key is read as nothing.
proof fn lemma_unknown_parameter_read(key: Seq<u8>, value: Seq<u8>, read: Partial)
    requires
        is_unknown_key(key),
    ensures
        read_param(key + seq![EQUALS] + value, read) == Ok::<Partial, UrlFault>(read),
{
    let part = key + seq![EQUALS] + value;
    lemma_find_after(key, EQUALS, value);
    assert(part.subrange(0, key.len() as int) =~= key);
}

/// Unknown parameters are ignored: a query that is followed by `&` and one
/// more parameter with an unknown key is read as the query alone.
pub proof fn lemma_unknown_parameter_ignored(
    query: Seq<u8>,
    key: Seq<u8>,
    value: Seq<u8>,
    read: Partial,
)
    requires
        is_unknown_key(key),
        free_of(value, AMPERSAND),
    ensures
        read_query(query + one_more(key, value), read) == read_query(query, read),
    decreases query.len(),
{
    let extra = key + seq![EQUALS] + value;
    let whole = query + one_more(key, value);
    let end = find(query, AMPERSAND);
    let part = query.subrange(0, end);
    lemma_find_bounds(query, AMPERSAND);
    assert(free_of(extra, AMPERSAND)) by {
        assert forall|i: int| 0 <= i < extra.len() implies #[trigger] extra[i] != AMPERSAND by {
            if i < key.len() {
                assert(extra[i] == key[i]);
            } else if i > key.len() {
                assert(extra[i] == value[i - key.len() - 1]);
            }
        }
    }
    if end < query.len() {
        let rest = query.subrange(end + 1, query.len() as int);
        assert(query =~= part + seq![AMPERSAND] + rest);
        assert(whole =~= part + seq![AMPERSAND] + (rest + one_more(key, value)));
        lemma_read_query_step(part, rest, read);
        lemma_read_query_step(part, rest + one_more(key, value), read);
        match read_param(part, read) {
            Err(_) => {},
            Ok(next) => {
                lemma_unknown_parameter_ignored(rest, key, value, next);
            },
        }
    } else {
        assert(part =~= query);
        assert(whole =~= query + seq![AMPERSAND] + extra);
        lemma_read_query_last(query, read);
        lemma_read_query_step(query, extra, read);
        match read_param(query, read) {
            Err(_) => {},
            Ok(next) => {
                lemma_read_query_last(extra, next);
                lemma_unknown_parameter_read(key, value, next);
            },
        }
    }
}

/// Unknown parameters are ignored: a text that is followed by `&` and one
/// more parameter with an unknown key is read as the text alone.
pub proof fn lemma_unknown_parameter_changes_nothing(
    url: Seq<u8>,
    key: Seq<u8>,
    value: Seq<u8>,
)
    requires
        is_unknown_key(key),
        free_of(value, AMPERSAND),
    ensures
        parse_url(url + one_more(key, value)) == parse_url(url),
{
    let whole = url + one_more(key, value);
    if has_url_prefix(url) {
        assert(whole.subrange(0, 16) =~= url.subrange(0, 16));
        assert(whole.skip(16) =~= url.skip(16) + one_more(key, value));
        lemma_unknown_parameter_ignored(url.skip(16), key, value, nothing_read());
    } else if url.len() >= 16 {
        assert(whole.subrange(0, 16) =~= url.subrange(0, 16));
    } else if whole.len() >= 16 {
        let at = url.len() as int;
        assert(whole[at] == one_more(key, value)[0]);
        assert(whole.subrange(0, 16)[at] == AMPERSAND);
        assert(URL_PREFIX@[at] != AMPERSAND);
    }
}

/// Reading a query keeps every key that was read at 32 bytes.
proof fn lemma_read_keeps_key_length(query: Seq<u8>, read: Partial)
    requires
        read.pubkey matches Some(key) ==> key.len() == 32,
    ensures
        read_query(query, read) matches Ok(out) ==> (out.pubkey matches Some(key) ==> key.len()
            == 32),
    decreases query.len(),
{
    let end = find(query, AMPERSAND);
    lemma_find_bounds(query, AMPERSAND);
    match read_param(query.subrange(0, end), read) {
        Err(_) => {},
        Ok(next) => {
            if 0 <= end < query.len() {
                lemma_read_keeps_key_length(query.subrange(end + 1, query.len() as int), next);
            }
        },
    }
}

/// A key of another length than 32 bytes is refused: the key that a pairing
/// URL is read to say has 32 bytes.
pub proof fn lemma_key_length(url: Seq<u8>)
    requires
        parse_url(url) is Ok,
    ensures
        parse_url(url)->Ok_0.pubkey.len() == 32,
{
    lemma_read_keeps_key_length(url.skip(16), nothing_read());
}

} // verus!
