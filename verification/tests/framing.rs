use omniclip_core::protocol::constants::MAX_MESSAGE_SIZE;
use omniclip_core::sync::framing::{
    frame_header, payload_length, read_framed_message, write_framed_message,
};
use omniclip_core::Error;

#[test]
fn test_framing_roundtrip() {
    let original = b"Hello, World!";

    // Write to buffer
    let mut buffer = Vec::new();
    write_framed_message(&mut buffer, original).unwrap();

    // Read back
    let result = read_framed_message(&buffer).unwrap();

    assert_eq!(result, original);
}

#[test]
fn test_framing_empty_message() {
    let original = b"";

    let mut buffer = Vec::new();
    write_framed_message(&mut buffer, original).unwrap();

    let result = read_framed_message(&buffer).unwrap();

    assert_eq!(result, original);
}

#[test]
fn test_message_too_large() {
    let large_payload = vec![0u8; MAX_MESSAGE_SIZE + 1];
    let mut buffer = Vec::new();

    let result = write_framed_message(&mut buffer, &large_payload);
    assert!(result.is_err());
}

#[test]
fn frame_is_prefix_then_payload() {
    let mut buffer = Vec::new();
    write_framed_message(&mut buffer, b"abc").unwrap();
    assert_eq!(buffer, vec![0, 0, 0, 3, b'a', b'b', b'c']);
}

#[test]
fn empty_frame_is_four_zero_bytes() {
    let mut buffer = Vec::new();
    write_framed_message(&mut buffer, b"").unwrap();
    assert_eq!(buffer, vec![0, 0, 0, 0]);
}

#[test]
fn frames_follow_each_other_on_a_stream() {
    let mut buffer = Vec::new();
    write_framed_message(&mut buffer, b"first").unwrap();
    write_framed_message(&mut buffer, b"second").unwrap();

    let first = read_framed_message(&buffer).unwrap();
    assert_eq!(first, b"first");
    let second = read_framed_message(&buffer[4 + first.len()..]).unwrap();
    assert_eq!(second, b"second");
}

#[test]
fn header_is_big_endian() {
    assert_eq!(frame_header(0).unwrap(), [0, 0, 0, 0]);
    assert_eq!(frame_header(1).unwrap(), [0, 0, 0, 1]);
    assert_eq!(frame_header(0x0102).unwrap(), [0, 0, 1, 2]);
    assert_eq!(frame_header(0x010203).unwrap(), [0, 1, 2, 3]);
    assert_eq!(frame_header(MAX_MESSAGE_SIZE).unwrap(), [0, 0xa0, 0, 0]);
}

#[test]
fn header_over_the_limit_is_refused() {
    let result = frame_header(MAX_MESSAGE_SIZE + 1);
    assert_eq!(
        result,
        Err(Error::InvalidMessage(
            "message too large: 10485761 bytes (max 10485760)".to_string()
        ))
    );
}

#[test]
fn payload_at_the_limit_is_written() {
    let payload = vec![7u8; MAX_MESSAGE_SIZE];
    let mut buffer = Vec::new();
    write_framed_message(&mut buffer, &payload).unwrap();
    assert_eq!(buffer.len(), MAX_MESSAGE_SIZE + 4);
    assert_eq!(read_framed_message(&buffer).unwrap(), payload);
}

#[test]
fn refused_payload_writes_nothing() {
    let large_payload = vec![0u8; MAX_MESSAGE_SIZE + 1];
    let mut buffer = vec![9u8];
    let result = write_framed_message(&mut buffer, &large_payload);
    assert!(matches!(result, Err(Error::InvalidMessage(_))));
    assert_eq!(buffer, vec![9u8]);
}

#[test]
fn announced_length_is_read() {
    assert_eq!(payload_length(&[0, 0, 0, 0]).unwrap(), 0);
    assert_eq!(payload_length(&[0, 0, 1, 2]).unwrap(), 258);
    assert_eq!(payload_length(&[0, 0xa0, 0, 0]).unwrap(), MAX_MESSAGE_SIZE);
}

#[test]
fn announced_length_over_the_limit_is_refused() {
    assert!(matches!(
        payload_length(&[0, 0xa0, 0, 1]),
        Err(Error::InvalidMessage(_))
    ));
    assert!(matches!(
        payload_length(&[0xff, 0xff, 0xff, 0xff]),
        Err(Error::InvalidMessage(_))
    ));
}

#[test]
fn oversize_frame_is_refused_before_its_payload() {
    // The prefix announces more than the limit; no payload follows at all.
    let result = read_framed_message(&[0x7f, 0, 0, 0]);
    assert!(matches!(result, Err(Error::InvalidMessage(_))));
}

#[test]
fn truncated_prefix_is_a_network_error() {
    assert!(matches!(read_framed_message(&[]), Err(Error::Network(_))));
    assert!(matches!(
        read_framed_message(&[0, 0, 0]),
        Err(Error::Network(_))
    ));
}

#[test]
fn truncated_payload_is_a_network_error() {
    assert!(matches!(
        read_framed_message(&[0, 0, 0, 3, 1, 2]),
        Err(Error::Network(_))
    ));
}

#[test]
fn bytes_after_the_frame_are_left_alone() {
    let result = read_framed_message(&[0, 0, 0, 2, 10, 20, 30, 40]).unwrap();
    assert_eq!(result, vec![10, 20]);
}
