use omniclip_core::crypto::{PublicKey, SigningKey};
use omniclip_core::ident::id_to_bytes;
use omniclip_core::protocol::pairing::{pairing_transcript, QR_MIN_PIXELS};
use omniclip_core::protocol::url::parse_port;
use omniclip_core::protocol::{PairingQrData, PairingSession};
use omniclip_core::Error;
use uuid::Uuid;

const ID: u128 = 0xa1a2a3a4_b1b2_c1c2_d1d2_d3d4d5d6d7d8;

fn sample() -> PairingQrData {
    let mut pubkey = [0u8; 32];
    for (i, b) in pubkey.iter_mut().enumerate() {
        *b = i as u8;
    }
    PairingQrData {
        session_id: ID,
        pubkey,
        ip: "192.168.1.100".to_string(),
        port: 17394,
        name: "My Device".to_string(),
    }
}

const SAMPLE_URL: &str = "omniclip://pair?s=a1a2a3a4-b1b2-c1c2-d1d2-d3d4d5d6d7d8&k=AAECAwQFBgcICQoLDA0ODxAREhMUFRYXGBkaGxwdHh8&h=192.168.1.100&p=17394&n=My%20Device";

fn invalid(detail: &str) -> Error {
    Error::InvalidMessage(detail.to_string())
}

fn fault_of(url: &str) -> Error {
    match PairingQrData::from_url(url) {
        Ok(data) => panic!("accepted: {:?}", data),
        Err(e) => e,
    }
}

#[test]
fn test_qr_url_roundtrip() {
    let session = PairingSession::new();
    let qr_data = session.qr_data("192.168.1.100", 17394, "My Device");

    let url = qr_data.to_url();
    let parsed = PairingQrData::from_url(&url).unwrap();

    assert_eq!(parsed.session_id, qr_data.session_id);
    assert_eq!(parsed.pubkey, qr_data.pubkey);
    assert_eq!(parsed.ip, qr_data.ip);
    assert_eq!(parsed.port, qr_data.port);
    assert_eq!(parsed.name, qr_data.name);
}

#[test]
fn test_pairing_key_derivation() {
    // Device A starts session
    let session_a = PairingSession::new();
    let pubkey_a = session_a.ephemeral_public.clone();

    // Device B starts session and gets A's public key from QR
    let session_b = PairingSession::new();
    let pubkey_b = session_b.ephemeral_public.clone();

    // Both derive session keys
    let key_a = session_a.complete(&pubkey_b);
    let key_b = session_b.complete(&pubkey_a);

    // Keys should work for encryption/decryption
    let plaintext = b"test message";
    let encrypted = key_a.encrypt(plaintext).unwrap();
    let decrypted = key_b.decrypt(&encrypted).unwrap();
    assert_eq!(decrypted, plaintext);
}

#[test]
fn url_of_known_data() {
    assert_eq!(sample().to_url(), SAMPLE_URL);
}

#[test]
fn data_of_known_url() {
    let parsed = PairingQrData::from_url(SAMPLE_URL).unwrap();
    let expected = sample();
    assert_eq!(parsed.session_id, expected.session_id);
    assert_eq!(parsed.pubkey, expected.pubkey);
    assert_eq!(parsed.ip, expected.ip);
    assert_eq!(parsed.port, expected.port);
    assert_eq!(parsed.name, expected.name);
}

#[test]
fn session_id_is_written_as_the_uuid_crate_writes_it() {
    let id = Uuid::new_v4();
    let mut data = sample();
    data.session_id = id.as_u128();
    let url = data.to_url();
    assert!(url.contains(&format!("s={}&", id)));
    assert_eq!(PairingQrData::from_url(&url).unwrap().session_id, id.as_u128());
}

#[test]
fn names_with_separators_and_other_scripts_survive() {
    for name in ["a&b=c", "100% me", "", "Zoë's phone", "日本語", "a+b", "%41", "x%2", "tab\there"] {
        let mut data = sample();
        data.name = name.to_string();
        data.ip = name.to_string();
        let parsed = PairingQrData::from_url(&data.to_url()).unwrap();
        assert_eq!(parsed.name, name);
        assert_eq!(parsed.ip, name);
    }
}

#[test]
fn name_is_percent_encoded() {
    let mut data = sample();
    data.name = "a&b=c/ü~".to_string();
    let url = data.to_url();
    assert!(url.ends_with("&n=a%26b%3Dc%2F%C3%BC~"));
}

#[test]
fn every_port_survives() {
    for port in [0u16, 1, 9, 10, 80, 17394, 65535] {
        let mut data = sample();
        data.port = port;
        let url = data.to_url();
        assert!(url.contains(&format!("&p={}&", port)));
        assert_eq!(PairingQrData::from_url(&url).unwrap().port, port);
    }
}

#[test]
fn every_key_survives() {
    for fill in [0u8, 1, 0x7f, 0xfb, 0xff] {
        let mut data = sample();
        data.pubkey = [fill; 32];
        assert_eq!(PairingQrData::from_url(&data.to_url()).unwrap().pubkey, [fill; 32]);
    }
}

#[test]
fn other_scheme_is_refused() {
    assert_eq!(fault_of(""), invalid("invalid scheme"));
    assert_eq!(fault_of("http://pair?s=1"), invalid("invalid scheme"));
    assert_eq!(fault_of("omniclip://pair"), invalid("invalid scheme"));
    assert_eq!(
        fault_of(&SAMPLE_URL.replace("omniclip://pair?", "omniclip://pair/?")),
        invalid("invalid scheme")
    );
    assert_eq!(
        fault_of(&SAMPLE_URL.replace("omniclip", "Omniclip")),
        invalid("invalid scheme")
    );
}

#[test]
fn parameter_without_equals_is_refused() {
    assert_eq!(fault_of("omniclip://pair?"), invalid("invalid param"));
    assert_eq!(fault_of("omniclip://pair?s"), invalid("invalid param"));
    assert_eq!(
        fault_of(&format!("{}&", SAMPLE_URL)),
        invalid("invalid param")
    );
    assert_eq!(
        fault_of(&SAMPLE_URL.replace("&h=", "&&h=")),
        invalid("invalid param")
    );
}

#[test]
fn malformed_session_id_is_refused() {
    assert_eq!(
        fault_of(&SAMPLE_URL.replace("s=a1a2", "s=zzzz")),
        invalid("invalid session id")
    );
    assert_eq!(fault_of("omniclip://pair?s="), invalid("invalid session id"));
}

#[test]
fn malformed_key_is_refused() {
    assert_eq!(
        fault_of(&SAMPLE_URL.replace("k=AAEC", "k=!!!!")),
        invalid("invalid pubkey")
    );
    // Standard base64 characters are not URL-safe ones.
    assert_eq!(
        fault_of(&SAMPLE_URL.replace("k=AAEC", "k=++//")),
        invalid("invalid pubkey")
    );
    // Padding is not accepted.
    assert_eq!(
        fault_of(&SAMPLE_URL.replace("Hh8&", "Hh8=&")),
        invalid("invalid pubkey")
    );
}

#[test]
fn key_of_another_length_is_refused() {
    assert_eq!(
        fault_of(&SAMPLE_URL.replace("k=AAECAwQFBgcICQoLDA0ODxAREhMUFRYXGBkaGxwdHh8", "k=AAEC")),
        invalid("invalid pubkey length")
    );
    assert_eq!(
        fault_of(&SAMPLE_URL.replace("k=AAECAwQFBgcICQoLDA0ODxAREhMUFRYXGBkaGxwdHh8", "k=")),
        invalid("invalid pubkey length")
    );
    assert_eq!(
        fault_of(&SAMPLE_URL.replace("Hh8&", "Hh8AAAA&")),
        invalid("invalid pubkey length")
    );
}

#[test]
fn address_that_is_no_text_is_refused() {
    assert_eq!(
        fault_of(&SAMPLE_URL.replace("h=192.168.1.100", "h=%FF")),
        invalid("invalid ip")
    );
}

#[test]
fn name_that_is_no_text_is_refused() {
    assert_eq!(
        fault_of(&SAMPLE_URL.replace("n=My%20Device", "n=%C3")),
        invalid("invalid name")
    );
}

#[test]
fn malformed_port_is_refused() {
    for port in ["", "+", "-1", "65536", "99999999999999999999", "80a", " 80", "8 0", "0x50", "١٢"] {
        assert_eq!(
            fault_of(&SAMPLE_URL.replace("p=17394", &format!("p={}", port))),
            invalid("invalid port")
        );
    }
}

#[test]
fn port_may_have_a_plus_and_leading_zeros() {
    for (text, port) in [("+80", 80u16), ("0080", 80), ("+0", 0), ("65535", 65535), ("00065535", 65535)] {
        let url = SAMPLE_URL.replace("p=17394", &format!("p={}", text));
        assert_eq!(PairingQrData::from_url(&url).unwrap().port, port);
    }
}

#[test]
fn port_reader_agrees_with_the_standard_library() {
    for text in ["", "+", "-", "0", "+0", "-0", "7", "65535", "65536", "065535", "+65535", "++1", "1+", "12a", "a12", "4294967296", "18446744073709551616", "00000000000000000000001"] {
        assert_eq!(parse_port(text.as_bytes()), text.parse::<u16>().ok(), "{:?}", text);
    }
    for n in (0..=65535u32).step_by(257) {
        let text = n.to_string();
        assert_eq!(parse_port(text.as_bytes()), Some(n as u16));
    }
}

#[test]
fn missing_parameters_are_named_in_order() {
    let s = "s=a1a2a3a4-b1b2-c1c2-d1d2-d3d4d5d6d7d8";
    let k = "k=AAECAwQFBgcICQoLDA0ODxAREhMUFRYXGBkaGxwdHh8";
    let h = "h=192.168.1.100";
    let p = "p=17394";
    let n = "n=My%20Device";
    let url = |parts: &[&str]| format!("omniclip://pair?{}", parts.join("&"));
    assert_eq!(fault_of(&url(&[k, h, p, n])), invalid("missing session_id"));
    assert_eq!(fault_of(&url(&[s, h, p, n])), invalid("missing pubkey"));
    assert_eq!(fault_of(&url(&[s, k, p, n])), invalid("missing ip"));
    assert_eq!(fault_of(&url(&[s, k, h, n])), invalid("missing port"));
    assert_eq!(fault_of(&url(&[s, k, h, p])), invalid("missing name"));
    assert_eq!(fault_of(&url(&[n])), invalid("missing session_id"));
    assert_eq!(fault_of(&url(&["x=1"])), invalid("missing session_id"));
    assert_eq!(fault_of(&url(&[s, n])), invalid("missing pubkey"));
}

#[test]
fn malformed_parameter_is_named_before_a_missing_one() {
    assert_eq!(
        fault_of("omniclip://pair?p=abc"),
        invalid("invalid port")
    );
    assert_eq!(
        fault_of("omniclip://pair?n=ok&p=abc&s=bad"),
        invalid("invalid port")
    );
}

#[test]
fn parameters_may_come_in_any_order() {
    let url = "omniclip://pair?n=My%20Device&p=17394&h=192.168.1.100&k=AAECAwQFBgcICQoLDA0ODxAREhMUFRYXGBkaGxwdHh8&s=a1a2a3a4-b1b2-c1c2-d1d2-d3d4d5d6d7d8";
    let parsed = PairingQrData::from_url(url).unwrap();
    assert_eq!(parsed.session_id, ID);
    assert_eq!(parsed.name, "My Device");
}

#[test]
fn unknown_parameters_are_passed_over() {
    let url = format!("{}&v=2&long=x&=y&s2=z", SAMPLE_URL);
    let parsed = PairingQrData::from_url(&url).unwrap();
    assert_eq!(parsed.session_id, ID);
    assert_eq!(parsed.port, 17394);
}

#[test]
fn later_value_replaces_earlier_one() {
    let url = format!("{}&p=80&n=Other", SAMPLE_URL);
    let parsed = PairingQrData::from_url(&url).unwrap();
    assert_eq!(parsed.port, 80);
    assert_eq!(parsed.name, "Other");
}

#[test]
fn value_may_hold_an_equals_sign() {
    let url = SAMPLE_URL.replace("n=My%20Device", "n=a=b");
    assert_eq!(PairingQrData::from_url(&url).unwrap().name, "a=b");
}

#[test]
fn session_id_may_come_in_other_forms_of_the_uuid_crate() {
    let url = SAMPLE_URL.replace(
        "s=a1a2a3a4-b1b2-c1c2-d1d2-d3d4d5d6d7d8",
        "s=A1A2A3A4B1B2C1C2D1D2D3D4D5D6D7D8",
    );
    assert_eq!(PairingQrData::from_url(&url).unwrap().session_id, ID);
}

#[test]
fn identifier_bytes_are_big_endian() {
    assert_eq!(
        id_to_bytes(ID),
        [0xa1, 0xa2, 0xa3, 0xa4, 0xb1, 0xb2, 0xc1, 0xc2, 0xd1, 0xd2, 0xd3, 0xd4, 0xd5, 0xd6, 0xd7, 0xd8]
    );
    assert_eq!(id_to_bytes(0), [0u8; 16]);
    assert_eq!(id_to_bytes(1)[15], 1);
    assert_eq!(id_to_bytes(u128::MAX), [0xffu8; 16]);
    let id = Uuid::new_v4();
    assert_eq!(&id_to_bytes(id.as_u128()), id.as_bytes());
}

#[test]
fn new_sessions_differ() {
    let a = PairingSession::new();
    let b = PairingSession::default();
    assert_ne!(a.session_id, b.session_id);
    assert_ne!(a.ephemeral_public.to_bytes(), b.ephemeral_public.to_bytes());
    assert_eq!(a.ephemeral_public.to_bytes(), a.ephemeral_secret.public_key().to_bytes());
}

#[test]
fn qr_data_carries_the_session() {
    let session = PairingSession::new();
    let data = session.qr_data("10.0.0.1", 1234, "Desk");
    assert_eq!(data.session_id, session.session_id);
    assert_eq!(data.pubkey, session.ephemeral_public.to_bytes());
    assert_eq!(data.ip, "10.0.0.1");
    assert_eq!(data.port, 1234);
    assert_eq!(data.name, "Desk");
}

#[test]
fn transcript_is_id_then_both_keys() {
    let own = PublicKey::from_bytes([1u8; 32]);
    let peer = PublicKey::from_bytes([2u8; 32]);
    let data = pairing_transcript(ID, &own, &peer);
    assert_eq!(data.len(), 80);
    assert_eq!(&data[..16], &id_to_bytes(ID));
    assert_eq!(&data[16..48], &[1u8; 32]);
    assert_eq!(&data[48..], &[2u8; 32]);
}

#[test]
fn pairing_signature_is_over_the_transcript() {
    let identity = SigningKey::generate();
    let session = PairingSession::new();
    let peer = PairingSession::new();
    let signature = session.sign_pairing(&identity, &peer.ephemeral_public);
    let data = pairing_transcript(session.session_id, &session.ephemeral_public, &peer.ephemeral_public);
    assert!(identity.verifying_key().verify(&data, &signature).is_ok());
    // The keys the other way round are another transcript.
    let swapped = pairing_transcript(session.session_id, &peer.ephemeral_public, &session.ephemeral_public);
    assert!(identity.verifying_key().verify(&swapped, &signature).is_err());
}

#[test]
fn qr_code_of_the_url_is_an_svg_image() {
    let svg = sample().to_qr_svg().unwrap();
    assert!(svg.contains("<svg"));
    assert!(svg.contains("</svg>"));
    assert_eq!(svg, sample().to_qr_svg().unwrap());
}

fn attribute(svg: &str, name: &str) -> u32 {
    let key = format!(" {}=\"", name);
    let start = svg.find(&key).unwrap() + key.len();
    let end = start + svg[start..].find('"').unwrap();
    svg[start..end].parse().unwrap()
}

#[test]
fn qr_code_image_is_no_smaller_than_the_least_size() {
    assert_eq!(QR_MIN_PIXELS, 200);
    let svg = sample().to_qr_svg().unwrap();
    let width = attribute(&svg, "width");
    let height = attribute(&svg, "height");
    assert!(width >= QR_MIN_PIXELS);
    assert!(height >= QR_MIN_PIXELS);
    assert_eq!(width, height);
}

#[test]
fn url_too_long_for_a_qr_code_is_refused() {
    let mut data = sample();
    data.name = "x".repeat(4000);
    assert_eq!(
        data.to_qr_svg(),
        Err(Error::Crypto("QR generation failed: data too long".to_string()))
    );
}

fn hex_value(b: u8) -> Option<u8> {
    match b {
        b'0'..=b'9' => Some(b - b'0'),
        b'A'..=b'F' => Some(b - b'A' + 10),
        b'a'..=b'f' => Some(b - b'a' + 10),
        _ => None,
    }
}

/// Percent-decoding as the URL grammar defines it.
fn percent_decoded(text: &[u8]) -> Vec<u8> {
    if text.is_empty() {
        return Vec::new();
    }
    if text[0] != b'%' {
        let mut out = vec![text[0]];
        out.extend(percent_decoded(&text[1..]));
        return out;
    }
    if text.len() < 3 {
        return text.to_vec();
    }
    match (hex_value(text[1]), hex_value(text[2])) {
        (None, _) => {
            let mut out = vec![b'%'];
            out.extend(percent_decoded(&text[1..]));
            out
        }
        (Some(_), None) => {
            let mut out = vec![b'%', text[1]];
            out.extend(percent_decoded(&text[2..]));
            out
        }
        (Some(high), Some(low)) => {
            let mut out = vec![high * 16 + low];
            out.extend(percent_decoded(&text[3..]));
            out
        }
    }
}

/// Percent-encoding as the URL grammar defines it.
fn percent_encoded(data: &[u8]) -> Vec<u8> {
    let hex = b"0123456789ABCDEF";
    let mut out = Vec::new();
    for &b in data {
        if b.is_ascii_alphanumeric() || b == b'-' || b == b'.' || b == b'_' || b == b'~' {
            out.push(b);
        } else {
            out.push(b'%');
            out.push(hex[(b / 16) as usize]);
            out.push(hex[(b % 16) as usize]);
        }
    }
    out
}

#[test]
fn escapes_are_read_as_the_grammar_says() {
    let values = [
        "", "plain", "%", "%4", "%41", "%4z", "%zz", "%z1", "%%41", "%%%", "a%", "a%4", "a%41b",
        "%c3%bc", "%C3%BC", "%e6%97%a5", "100%25", "%2", "%25%32%35", "%41%", "+", "%2B", "%20%20",
        "%7e~", "a%3Db%26c", "%00",
    ];
    for value in values {
        let url = SAMPLE_URL.replace("n=My%20Device", &format!("n={}", value));
        let expected = percent_decoded(value.as_bytes());
        match String::from_utf8(expected) {
            Ok(text) => assert_eq!(PairingQrData::from_url(&url).unwrap().name, text, "{:?}", value),
            Err(_) => assert_eq!(fault_of(&url), invalid("invalid name"), "{:?}", value),
        }
    }
}

#[test]
fn every_byte_is_escaped_as_the_grammar_says() {
    // Every character below U+0100, which covers every leading byte pattern
    // of one and two bytes, and a few beyond.
    let mut name = String::new();
    for c in 0u32..0x100 {
        name.push(char::from_u32(c).unwrap());
    }
    name.push_str("日本語👾");
    let mut data = sample();
    data.name = name.clone();
    data.ip = String::new();
    let url = data.to_url();
    let expected = String::from_utf8(percent_encoded(name.as_bytes())).unwrap();
    assert!(url.ends_with(&format!("&h=&p=17394&n={}", expected)));
    assert_eq!(PairingQrData::from_url(&url).unwrap().name, name);
}

#[test]
fn identifier_text_is_hyphenated_lower_case_hexadecimal() {
    for id in [0u128, 1, u128::MAX, ID, 0x0123456789abcdef_0123456789abcdef] {
        let mut data = sample();
        data.session_id = id;
        let hex = format!("{:032x}", id);
        let expected = format!(
            "{}-{}-{}-{}-{}",
            &hex[0..8],
            &hex[8..12],
            &hex[12..16],
            &hex[16..20],
            &hex[20..32]
        );
        assert!(data.to_url().starts_with(&format!("omniclip://pair?s={}&k=", expected)));
    }
}
