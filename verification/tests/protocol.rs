use stark_link_core::error::StarkLinkError;
use stark_link_core::protocol::{Message, Payload};

#[test]
fn round_trip_framed() {
    let body = vec![0x81u8, 0xa2, 0x69, 0x64, 0x01, 0x02, 0x03];
    let framed = Message::to_framed(&body);
    let (decoded, consumed) = Message::from_framed(&framed).unwrap();
    assert_eq!(consumed, framed.len());
    assert_eq!(decoded, body);
}

#[test]
fn frame_prefix_is_big_endian_length() {
    let body = vec![9u8; 300];
    let framed = Message::to_framed(&body);
    assert_eq!(&framed[..4], &[0, 0, 1, 44]);
    assert_eq!(framed.len(), 304);
}

#[test]
fn frame_followed_by_more_data() {
    let mut stream = Message::to_framed(&[1, 2, 3]);
    stream.extend_from_slice(&Message::to_framed(&[4, 5]));
    let (first, n) = Message::from_framed(&stream).unwrap();
    assert_eq!(first, vec![1, 2, 3]);
    assert_eq!(n, 7);
    let (second, m) = Message::from_framed(&stream[n..]).unwrap();
    assert_eq!(second, vec![4, 5]);
    assert_eq!(m, 6);
}

#[test]
fn empty_body_frame() {
    let framed = Message::to_framed(&[]);
    assert_eq!(framed, vec![0, 0, 0, 0]);
    assert_eq!(Message::from_framed(&framed).unwrap(), (vec![], 4));
}

#[test]
fn frame_too_short() {
    let err = Message::from_framed(&[0, 0, 1]).unwrap_err();
    assert_eq!(err, StarkLinkError::Protocol("frame too short for length prefix".to_string()));
}

#[test]
fn frame_incomplete() {
    let err = Message::from_framed(&[0, 0, 0, 10, 1, 2]).unwrap_err();
    assert_eq!(
        err,
        StarkLinkError::Protocol("incomplete frame: need 14 bytes, have 6".to_string())
    );
}

#[test]
fn message_new_keeps_sender_and_payload() {
    let m = Message::new(77, Payload::Ping);
    assert_eq!(m.sender, 77);
    assert!(matches!(m.payload, Payload::Ping));
    let n = Message::new(77, Payload::Pong);
    assert_ne!(m.id, n.id);
    // version-4 UUIDs
    assert_eq!((m.id >> 76) & 0xf, 4);
}
