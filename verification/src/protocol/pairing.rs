//! Pairing sessions and the data that a pairing QR code carries.

use vstd::prelude::*;
use vstd::slice::*;
use vstd::string::*;
use vstd::utf8::*;

use crate::crypto::encryption::derived_key;
use crate::crypto::keys::{
    ed25519_accepts, ed25519_public_key, ed25519_signature, x25519_public_key,
    x25519_shared_secret,
};
use crate::crypto::{EphemeralSecret, PublicKey, SessionKey, SigningKey};
use crate::error::Error;
use crate::ident::{fresh_id, id_bytes, id_to_bytes};
use crate::protocol::grammar::{
    has_url_prefix, lemma_url_reads_back, nothing_read, param, parse_url, read_param, read_query,
    text_decoded, url_bytes, Partial, QrFields, UrlFault, KEY_HOST, KEY_NAME, KEY_PORT,
    KEY_PUBKEY, KEY_SESSION, URL_PREFIX,
};
use crate::protocol::qr::{qr_svg, render_qr_svg};
use crate::protocol::url::{
    base64url_data, base64url_decode, base64url_encode, find, find_byte, parse_port,
    percent_decode, percent_encode, uuid_format, uuid_parse, AMPERSAND, EQUALS,
};
use crate::text::{ascii_string, begins_with, format_decimal, string_from_utf8, to_array};

verus! {

/// What a pairing QR code carries.
#[derive(Debug, Clone)]
pub struct PairingQrData {
    pub session_id: u128,
    pub pubkey: [u8; 32],
    pub ip: String,
    pub port: u16,
    pub name: String,
}

impl View for PairingQrData {
    type V = QrFields;

    open spec fn view(&self) -> QrFields {
        QrFields {
            session_id: self.session_id,
            pubkey: self.pubkey@,
            ip: self.ip@,
            port: self.port,
            name: self.name@,
        }
    }
}

/// The parameters read so far, as they are held while a URL is read.
struct Reading {
    session_id: Option<u128>,
    pubkey: Option<[u8; 32]>,
    ip: Option<String>,
    port: Option<u16>,
    name: Option<String>,
}

impl View for Reading {
    type V = Partial;

    closed spec fn view(&self) -> Partial {
        Partial {
            session_id: self.session_id,
            pubkey: match self.pubkey {
                Some(key) => Some(key@),
                None => None,
            },
            ip: match self.ip {
                Some(ip) => Some(ip@),
                None => None,
            },
            port: self.port,
            name: match self.name {
                Some(name) => Some(name@),
                None => None,
            },
        }
    }
}

/// The error that reports a fault of a URL.
fn fault_error(fault: UrlFault) -> (e: Error)
    ensures
        e matches Error::InvalidMessage(detail) && detail@ == fault.text(),
{
    let detail = match fault {
        UrlFault::InvalidScheme => "invalid scheme",
        UrlFault::InvalidParam => "invalid param",
        UrlFault::InvalidSessionId => "invalid session id",
        UrlFault::InvalidPubkey => "invalid pubkey",
        UrlFault::InvalidPubkeyLength => "invalid pubkey length",
        UrlFault::InvalidIp => "invalid ip",
        UrlFault::InvalidPort => "invalid port",
        UrlFault::InvalidName => "invalid name",
        UrlFault::MissingSessionId => "missing session_id",
        UrlFault::MissingPubkey => "missing pubkey",
        UrlFault::MissingIp => "missing ip",
        UrlFault::MissingPort => "missing port",
        UrlFault::MissingName => "missing name",
    };
    Error::InvalidMessage(String::from_str(detail))
}

/// Whether the bytes begin with the prefix of pairing URLs.
fn starts_with_prefix(bytes: &[u8]) -> (yes: bool)
    ensures
        yes == has_url_prefix(bytes@),
{
    if bytes.len() < 16 {
        return false;
    }
    let mut i: usize = 0;
    while i < 16
        invariant
            i <= 16,
            bytes@.len() >= 16,
            forall|j: int| 0 <= j < i ==> bytes@[j] == URL_PREFIX@[j],
        decreases 16 - i,
    {
        if bytes[i] != URL_PREFIX[i] {
            return false;
        }
        i += 1;
    }
    true
}

/// Percent-decodes a value and reads it as UTF-8 text.
fn decode_text(value: &[u8]) -> (text: Option<String>)
    ensures
        match text {
            Some(t) => text_decoded(value@) == Some(t@),
            None => text_decoded(value@) is None,
        },
{
    string_from_utf8(percent_decode(value))
}

/// Reads a key of exactly 32 bytes from URL-safe base64 text.
fn decode_key(value: &[u8]) -> (r: Result<[u8; 32], UrlFault>)
    ensures
        match base64url_data(value@) {
            Some(data) => if data.len() == 32 {
                r matches Ok(key) && key@ == data
            } else {
                r matches Err(fault) && fault == UrlFault::InvalidPubkeyLength
            },
            None => r matches Err(fault) && fault == UrlFault::InvalidPubkey,
        },
{
    match base64url_decode(value) {
        None => Err(UrlFault::InvalidPubkey),
        Some(data) => match to_array::<32>(data.as_slice()) {
            Some(key) => Ok(key),
            None => Err(UrlFault::InvalidPubkeyLength),
        },
    }
}

/// Reads one parameter into what was read before.
fn read_one(part: &[u8], read: Reading) -> (r: Result<Reading, UrlFault>)
    ensures
        match read_param(part@, read@) {
            Ok(next) => r matches Ok(reading) && reading@ == next,
            Err(fault) => r matches Err(f) && f == fault,
        },
{
    let len = part.len();
    let eq = find_byte(part, 0, EQUALS);
    assert(part@.subrange(0, len as int) =~= part@);
    if eq >= len {
        return Err(UrlFault::InvalidParam);
    }
    let value = slice_subrange(part, eq + 1, len);
    if eq != 1 {
        return Ok(read);
    }
    let key = part[0];
    let mut read = read;
    if key == KEY_SESSION {
        match uuid_parse(value) {
            Some(id) => {
                read.session_id = Some(id);
                Ok(read)
            },
            None => Err(UrlFault::InvalidSessionId),
        }
    } else if key == KEY_PUBKEY {
        let data = decode_key(value)?;
        read.pubkey = Some(data);
        Ok(read)
    } else if key == KEY_HOST {
        match decode_text(value) {
            Some(ip) => {
                read.ip = Some(ip);
                Ok(read)
            },
            None => Err(UrlFault::InvalidIp),
        }
    } else if key == KEY_PORT {
        match parse_port(value) {
            Some(port) => {
                read.port = Some(port);
                Ok(read)
            },
            None => Err(UrlFault::InvalidPort),
        }
    } else if key == KEY_NAME {
        match decode_text(value) {
            Some(name) => {
                read.name = Some(name);
                Ok(read)
            },
            None => Err(UrlFault::InvalidName),
        }
    } else {
        Ok(read)
    }
}

/// Appends one parameter: its key, `=` and its value.
fn push_param(bytes: &mut Vec<u8>, key: u8, value: &[u8])
    ensures
        final(bytes)@ == old(bytes)@ + param(key, value@),
{
    bytes.push(key);
    bytes.push(EQUALS);
    bytes.extend_from_slice(value);
}

/// Appends the `&` that separates two parameters.
fn push_separator(bytes: &mut Vec<u8>)
    ensures
        final(bytes)@ == old(bytes)@ + seq![AMPERSAND],
{
    bytes.push(AMPERSAND);
}

/// The least width and height, in pixels, of the image of a pairing code.
pub const QR_MIN_PIXELS: u32 = 200;

/// The image of the pairing code of given fields, if their URL fits a QR
/// code.
pub open spec fn pairing_code_svg(fields: QrFields) -> Option<Seq<char>> {
    qr_svg(url_bytes(fields), QR_MIN_PIXELS, QR_MIN_PIXELS)
}

impl PairingQrData {
    /// Draws the QR code of the pairing URL as an SVG image of no less than
    /// [`QR_MIN_PIXELS`] pixels a side.
    pub fn to_qr_svg(&self) -> (r: Result<String, Error>)
        ensures
            match r {
                Ok(image) => pairing_code_svg(self@) == Some(image@),
                Err(e) => e matches Error::Crypto(detail) && begins_with(
                    detail@,
                    "QR generation failed: "@,
                ) && pairing_code_svg(self@) is None,
            },
    {
        let url = self.to_url();
        match render_qr_svg(url.as_str().as_bytes(), QR_MIN_PIXELS, QR_MIN_PIXELS) {
            Ok(image) => Ok(image),
            Err(reason) => {
                let mut detail = String::from_str("QR generation failed: ");
                detail.append(reason.as_str());
                assert(detail@.subrange(0, "QR generation failed: "@.len() as int)
                    =~= "QR generation failed: "@);
                Err(Error::Crypto(detail))
            },
        }
    }

    /// Writes the data as a pairing URL. The URL is read back as the same
    /// data, field for field.
    #[verifier::rlimit(40)]
    pub fn to_url(&self) -> (url: String)
        ensures
            encode_utf8(url@) == url_bytes(self@),
            parse_url(encode_utf8(url@)) == Ok::<QrFields, UrlFault>(self@),
    {
        let id_text = uuid_format(self.session_id);
        let key_text = base64url_encode(self.pubkey.as_slice());
        let ip_text = percent_encode(self.ip.as_str().as_bytes());
        let port_text = format_decimal(self.port as u64);
        let name_text = percent_encode(self.name.as_str().as_bytes());
        proof {
            lemma_url_reads_back(self@);
        }
        let mut bytes: Vec<u8> = Vec::new();
        bytes.extend_from_slice(URL_PREFIX.as_slice());
        assert(bytes@ =~= URL_PREFIX@);
        push_param(&mut bytes, KEY_SESSION, id_text.as_slice());
        push_separator(&mut bytes);
        push_param(&mut bytes, KEY_PUBKEY, key_text.as_slice());
        push_separator(&mut bytes);
        push_param(&mut bytes, KEY_HOST, ip_text.as_slice());
        push_separator(&mut bytes);
        push_param(&mut bytes, KEY_PORT, port_text.as_slice());
        push_separator(&mut bytes);
        push_param(&mut bytes, KEY_NAME, name_text.as_slice());
        ascii_string(bytes)
    }

    /// Reads a pairing URL. All five parameters must be there; parameters
    /// with other keys are passed over. The error names the first parameter
    /// that is malformed or, when all that are there are well-formed, the
    /// first that is missing.
    #[verifier::rlimit(40)]
    pub fn from_url(url: &str) -> (r: Result<Self, Error>)
        ensures
            match parse_url(encode_utf8(url@)) {
                Ok(fields) => r matches Ok(data) && data@ == fields,
                Err(fault) => r matches Err(Error::InvalidMessage(detail)) && detail@
                    == fault.text(),
            },
    {
        let bytes = url.as_bytes();
        let len = bytes.len();
        if !starts_with_prefix(bytes) {
            return Err(fault_error(UrlFault::InvalidScheme));
        }
        let ghost whole = read_query(bytes@.skip(16), nothing_read());
        let mut read = Reading { session_id: None, pubkey: None, ip: None, port: None, name: None };
        let mut start: usize = 16;
        let mut finished = false;
        while !finished
            invariant
                len == bytes@.len(),
                16 <= start <= len,
                bytes@ == encode_utf8(url@),
                has_url_prefix(bytes@),
                whole == read_query(bytes@.skip(16), nothing_read()),
                !finished ==> whole == read_query(bytes@.subrange(start as int, len as int), read@),
                finished ==> whole == Ok::<Partial, UrlFault>(read@),
            decreases
                    (if finished {
                        0int
                    } else {
                        1 + len - start
                    }),
        {
            let ghost query = bytes@.subrange(start as int, len as int);
            let end = find_byte(bytes, start, AMPERSAND);
            let part = slice_subrange(bytes, start, end);
            assert(part@ =~= query.subrange(0, find(query, AMPERSAND)));
            match read_one(part, read) {
                Err(fault) => {
                    return Err(fault_error(fault));
                },
                Ok(next) => {
                    read = next;
                },
            }
            if end < len {
                assert(query.subrange(end - start + 1, query.len() as int) =~= bytes@.subrange(
                    end + 1,
                    len as int,
                ));
                start = end + 1;
            } else {
                finished = true;
            }
        }
        let session_id = match read.session_id {
            Some(id) => id,
            None => {
                return Err(fault_error(UrlFault::MissingSessionId));
            },
        };
        let pubkey = match read.pubkey {
            Some(key) => key,
            None => {
                return Err(fault_error(UrlFault::MissingPubkey));
            },
        };
        let ip = match read.ip {
            Some(ip) => ip,
            None => {
                return Err(fault_error(UrlFault::MissingIp));
            },
        };
        let port = match read.port {
            Some(port) => port,
            None => {
                return Err(fault_error(UrlFault::MissingPort));
            },
        };
        let name = match read.name {
            Some(name) => name,
            None => {
                return Err(fault_error(UrlFault::MissingName));
            },
        };
        Ok(PairingQrData { session_id, pubkey, ip, port, name })
    }
}

/// The bytes that the acceptance of a pairing is signed over: the session
/// id, the accepting side's ephemeral public key, then the requesting side's.
pub open spec fn transcript(session_id: u128, own_public: Seq<u8>, peer_public: Seq<u8>) -> Seq<
    u8,
> {
    id_bytes(session_id) + own_public + peer_public
}

/// Writes the transcript of a pairing.
pub fn pairing_transcript(session_id: u128, own_public: &PublicKey, peer_public: &PublicKey) -> (data:
    Vec<u8>)
    ensures
        data@ == transcript(session_id, own_public@, peer_public@),
{
    let mut data: Vec<u8> = Vec::new();
    data.extend_from_slice(id_to_bytes(session_id).as_slice());
    data.extend_from_slice(own_public.to_bytes().as_slice());
    data.extend_from_slice(peer_public.to_bytes().as_slice());
    data
}

/// A pairing session that waits for the peer's answer.
pub struct PairingSession {
    pub session_id: u128,
    pub ephemeral_secret: EphemeralSecret,
    pub ephemeral_public: PublicKey,
}

impl PairingSession {
    /// The public key of the session belongs to its secret.
    pub open spec fn wf(&self) -> bool {
        self.ephemeral_public@ == x25519_public_key(self.ephemeral_secret@)
    }

    /// Starts a session with a fresh id and a fresh key pair.
    pub fn new() -> (session: Self)
        ensures
            session.wf(),
    {
        let ephemeral_secret = EphemeralSecret::generate();
        let ephemeral_public = ephemeral_secret.public_key();
        PairingSession { session_id: fresh_id(), ephemeral_secret, ephemeral_public }
    }

    /// What the QR code of this session carries.
    pub fn qr_data(&self, local_ip: &str, port: u16, device_name: &str) -> (data: PairingQrData)
        ensures
            data@ == (QrFields {
                session_id: self.session_id,
                pubkey: self.ephemeral_public@,
                ip: local_ip@,
                port,
                name: device_name@,
            }),
    {
        PairingQrData {
            session_id: self.session_id,
            pubkey: self.ephemeral_public.to_bytes(),
            ip: String::from_str(local_ip),
            port,
            name: String::from_str(device_name),
        }
    }

    /// Completes the key exchange with the peer's public key and derives the
    /// session key; the session is used up. The peer, who completes with this
    /// session's public key, derives the same key.
    pub fn complete(self, peer_pubkey: &PublicKey) -> (key: SessionKey)
        ensures
            key@ == derived_key(x25519_shared_secret(self.ephemeral_secret@, peer_pubkey@)),
            forall|theirs: Seq<u8>|
                theirs.len() == 32 && peer_pubkey@ == #[trigger] x25519_public_key(theirs)
                    ==> key@ == derived_key(
                    x25519_shared_secret(theirs, x25519_public_key(self.ephemeral_secret@)),
                ),
    {
        let shared = self.ephemeral_secret.diffie_hellman(peer_pubkey);
        SessionKey::from_shared_secret(&shared)
    }

    /// Signs the transcript of the pairing with the long-term identity key.
    pub fn sign_pairing(&self, signing_key: &SigningKey, peer_pubkey: &PublicKey) -> (signature:
        Vec<u8>)
        ensures
            signature@ == ed25519_signature(
                signing_key@,
                transcript(self.session_id, self.ephemeral_public@, peer_pubkey@),
            ),
            signature@.len() == 64,
            ed25519_accepts(
                ed25519_public_key(signing_key@),
                transcript(self.session_id, self.ephemeral_public@, peer_pubkey@),
                signature@,
            ),
    {
        let data = pairing_transcript(self.session_id, &self.ephemeral_public, peer_pubkey);
        signing_key.sign(data.as_slice())
    }
}

impl Default for PairingSession {
    fn default() -> (session: Self)
        ensures
            session.wf(),
    {
        Self::new()
    }
}

} // verus!
