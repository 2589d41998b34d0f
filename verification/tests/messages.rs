use omniclip_core::protocol::constants::{
    CLIPBOARD_POLL_INTERVAL_MS, DEFAULT_PORT, MAX_MESSAGE_SIZE, PAIRING_URL_SCHEME,
    PROTOCOL_VERSION, SERVICE_TYPE, SESSION_KEY_INFO,
};
use omniclip_core::protocol::{ClipboardContent, ContentHash};
use omniclip_core::{Config, DeviceIdentity, Error};

#[test]
fn test_content_hash_consistency() {
    let content = ClipboardContent::Text("hello".to_string());
    let hash1 = content.hash();
    let hash2 = content.hash();
    assert_eq!(hash1, hash2);
}

#[test]
fn test_content_hash_different() {
    let content1 = ClipboardContent::Text("hello".to_string());
    let content2 = ClipboardContent::Text("world".to_string());
    assert_ne!(content1.hash(), content2.hash());
}

#[test]
fn hash_of_known_text() {
    let hash = ClipboardContent::Text("hello".to_string()).hash();
    assert_eq!(
        hash.as_bytes(),
        &[
            234, 223, 115, 42, 186, 150, 214, 67, 254, 170, 57, 144, 154, 48, 11, 200, 162, 91,
            21, 250, 189, 244, 27, 242, 8, 25, 184, 206, 143, 211, 116, 111
        ]
    );
}

#[test]
fn hash_of_known_rich_text() {
    // The digest of `rich:`, the length of the plain text in eight bytes,
    // the plain text and the HTML.
    let hash = ClipboardContent::RichText {
        plain: "x".to_string(),
        html: "<b>x</b>".to_string(),
    }
    .hash();
    let hex: String = hash.as_bytes().iter().map(|b| format!("{:02x}", b)).collect();
    assert_eq!(hex, "5c5821d4eac4cecdcef1548a4c6ca83df114b118c69d87cdbb15ce3b4063d893");
}

#[test]
fn rich_texts_that_join_to_the_same_text_hash_differently() {
    let c1 = ClipboardContent::RichText {
        plain: "a".to_string(),
        html: "bc".to_string(),
    };
    let c2 = ClipboardContent::RichText {
        plain: "ab".to_string(),
        html: "c".to_string(),
    };
    assert_ne!(c1.hash(), c2.hash());
    let c3 = ClipboardContent::RichText {
        plain: String::new(),
        html: "abc".to_string(),
    };
    let c4 = ClipboardContent::RichText {
        plain: "abc".to_string(),
        html: String::new(),
    };
    assert_ne!(c3.hash(), c4.hash());
    assert_ne!(c1.hash(), c3.hash());
    assert_ne!(c2.hash(), c4.hash());
}

#[test]
fn hash_tells_types_apart() {
    let text = ClipboardContent::Text("x".to_string());
    let rich = ClipboardContent::RichText {
        plain: "x".to_string(),
        html: String::new(),
    };
    assert_ne!(text.hash(), rich.hash());
}

#[test]
fn hashes_compare_by_their_bytes() {
    let a = ContentHash([1u8; 32]);
    let b = ContentHash([1u8; 32]);
    let mut c = ContentHash([1u8; 32]);
    c.0[31] = 2;
    assert!(a.same(&b));
    assert!(!a.same(&c));
    assert_eq!(a.as_bytes(), &[1u8; 32]);
}

#[test]
fn plain_text_of_content() {
    assert_eq!(ClipboardContent::Text("a".to_string()).plain_text(), "a");
    let rich = ClipboardContent::RichText {
        plain: "p".to_string(),
        html: "<i>p</i>".to_string(),
    };
    assert_eq!(rich.plain_text(), "p");
}

#[test]
fn empty_clipboard_text_is_no_content() {
    assert!(ClipboardContent::from_text(String::new()).is_none());
    assert!(matches!(
        ClipboardContent::from_text(" ".to_string()),
        Some(ClipboardContent::Text(ref t)) if t == " "
    ));
}

#[test]
fn short_text_is_its_own_preview() {
    let fifty = "x".repeat(50);
    assert_eq!(ClipboardContent::Text(String::new()).preview(), "");
    assert_eq!(ClipboardContent::Text("hello".to_string()).preview(), "hello");
    assert_eq!(ClipboardContent::Text(fifty.clone()).preview(), fifty);
}

#[test]
fn long_text_is_cut_for_its_preview() {
    let long = "x".repeat(51);
    assert_eq!(
        ClipboardContent::Text(long).preview(),
        format!("{}...", "x".repeat(50))
    );
    let rich = ClipboardContent::RichText {
        plain: "y".repeat(200),
        html: String::new(),
    };
    assert_eq!(rich.preview(), format!("{}...", "y".repeat(50)));
}

#[test]
fn preview_is_cut_between_characters() {
    // 49 bytes, then a two-byte character across the cut.
    let text = format!("{}é and more", "x".repeat(49));
    assert_eq!(
        ClipboardContent::Text(text).preview(),
        format!("{}...", "x".repeat(49))
    );
    // 48 bytes, then a three-byte character across the cut.
    let text = format!("{}日本語", "x".repeat(48));
    assert_eq!(
        ClipboardContent::Text(text).preview(),
        format!("{}...", "x".repeat(48))
    );
    // 47 bytes, then a four-byte character across the cut.
    let text = format!("{}👾!", "x".repeat(47));
    assert_eq!(
        ClipboardContent::Text(text).preview(),
        format!("{}...", "x".repeat(47))
    );
    // A character that ends at the cut stays.
    let text = format!("{}é and more", "x".repeat(48));
    assert_eq!(
        ClipboardContent::Text(text).preview(),
        format!("{}é...", "x".repeat(48))
    );
}

#[test]
fn errors_are_shown_with_their_label() {
    let m = |s: &str| s.to_string();
    assert_eq!(Error::Crypto(m("a")).message(), "Cryptographic operation failed: a");
    assert_eq!(Error::Serialization(m("b")).message(), "Failed to serialize/deserialize: b");
    assert_eq!(Error::Network(m("c")).message(), "Network error: c");
    assert_eq!(Error::Discovery(m("d")).message(), "Discovery error: d");
    assert_eq!(Error::Clipboard(m("e")).message(), "Clipboard error: e");
    assert_eq!(Error::InvalidMessage(m("f")).message(), "Invalid message: f");
    assert_eq!(Error::NotPaired(m("g")).message(), "Device not paired: g");
    assert_eq!(Error::Io(m("h")).message(), "IO error: h");
}

#[test]
fn constants_of_the_protocol() {
    assert_eq!(DEFAULT_PORT, 17394);
    assert_eq!(SERVICE_TYPE, "_omniclip._tcp.local.");
    assert_eq!(PAIRING_URL_SCHEME, "omniclip://pair");
    assert_eq!(&SESSION_KEY_INFO, b"omniclip-session-key");
    assert_eq!(MAX_MESSAGE_SIZE, 10 * 1024 * 1024);
    assert_eq!(PROTOCOL_VERSION, 1);
    assert_eq!(CLIPBOARD_POLL_INTERVAL_MS, 500);
}

#[test]
fn default_settings() {
    let config = Config::new("/home/me/.omniclip".to_string());
    assert_eq!(config.port, 17394);
    assert_eq!(config.service_name, "_omniclip._tcp.local.");
    assert_eq!(config.data_dir, "/home/me/.omniclip");
}

#[test]
fn identities_are_fresh() {
    let a = DeviceIdentity::new("A".to_string());
    let b = DeviceIdentity::new("B".to_string());
    assert_eq!(a.name, "A");
    assert_ne!(a.id, b.id);
    assert_ne!(a.fingerprint(), b.fingerprint());
    assert_eq!(a.fingerprint(), a.signing_key.public_key_fingerprint());
    let copy = a.clone();
    assert_eq!(copy.id, a.id);
    assert_eq!(copy.name, a.name);
    assert_eq!(copy.fingerprint(), a.fingerprint());
    // A fingerprint is eight bytes in base64.
    assert_eq!(a.fingerprint().len(), 12);
}
