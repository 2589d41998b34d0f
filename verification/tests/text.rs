use omniclip_core::text::{contains_bytes, format_decimal, to_array};

#[test]
fn numerals_are_decimal() {
    assert_eq!(format_decimal(0), b"0");
    assert_eq!(format_decimal(7), b"7");
    assert_eq!(format_decimal(10), b"10");
    assert_eq!(format_decimal(17394), b"17394");
    assert_eq!(format_decimal(10485760), b"10485760");
    assert_eq!(format_decimal(u64::MAX), b"18446744073709551615");
    for n in [1u64, 99, 100, 101, 65535, 65536, 1 << 40] {
        assert_eq!(format_decimal(n), n.to_string().into_bytes());
    }
}

#[test]
fn arrays_take_exactly_their_length() {
    assert_eq!(to_array::<4>(&[1, 2, 3, 4]), Some([1, 2, 3, 4]));
    assert_eq!(to_array::<4>(&[1, 2, 3]), None);
    assert_eq!(to_array::<4>(&[1, 2, 3, 4, 5]), None);
    assert_eq!(to_array::<0>(&[]), Some([]));
    assert_eq!(to_array::<0>(&[1]), None);
}

#[test]
fn substrings_are_found() {
    assert!(contains_bytes(b"hello world", b"hello"));
    assert!(contains_bytes(b"hello world", b"world"));
    assert!(contains_bytes(b"hello world", b"o w"));
    assert!(contains_bytes(b"hello world", b"hello world"));
    assert!(contains_bytes(b"hello world", b""));
    assert!(contains_bytes(b"", b""));
    assert!(contains_bytes(b"aab", b"ab"));
    assert!(!contains_bytes(b"hello world", b"worlds"));
    assert!(!contains_bytes(b"hello world", b"hello world!"));
    assert!(!contains_bytes(b"", b"a"));
    assert!(!contains_bytes(b"abab", b"bb"));
}

#[test]
fn substring_search_agrees_with_the_standard_library() {
    let hay = "Phone-67e55044._omniclip._tcp.local.";
    for needle in ["Phone", "67e5", ".", "._", "local.", "local..", "x", "Phone-67e55044._omniclip._tcp.local.", "PPhone"] {
        assert_eq!(contains_bytes(hay.as_bytes(), needle.as_bytes()), hay.contains(needle));
    }
}
