use stark_link_core::config::Config;
use stark_link_core::crypto::fingerprint_of;
use stark_link_core::device::{DeviceType, OsType};
use stark_link_core::error::StarkLinkError;
use stark_link_core::StarkLink;

#[test]
fn node_takes_identity_from_config() {
    let cfg = Config::defaults_with(0x77, Some("desk".to_string()), Some("/home/x".to_string()));
    let node = StarkLink::new(cfg, "android");
    assert_eq!(node.device_id(), 0x77);
    assert_eq!(node.device.name, "desk");
    assert_eq!(node.device.os, OsType::Android);
    assert_eq!(node.device.device_type, DeviceType::Phone);
    assert_eq!(node.fingerprint(), fingerprint_of(&node.keypair.public_key_bytes()));
    assert!(node.connection.connected_peers().is_empty());
    assert!(node.discovery.devices().is_empty());
    assert_eq!(node.transfer.active_count(), 0);
    assert!(node.clipboard.history().is_empty());
    assert_eq!(
        node.discovery.instance_name(),
        "starklink-00000000-0000-0000-0000-000000000077"
    );
}

#[test]
fn error_messages() {
    let s = |v: &str| v.to_string();
    let cases = vec![
        (StarkLinkError::Crypto(s("a")), "crypto error: a"),
        (StarkLinkError::KeyExchange(s("a")), "key exchange error: a"),
        (StarkLinkError::Network(s("a")), "network error: a"),
        (StarkLinkError::WebSocket(s("a")), "websocket error: a"),
        (StarkLinkError::ConnectionTimeout, "connection timed out"),
        (StarkLinkError::ConnectionRefused(s("a")), "connection refused: a"),
        (StarkLinkError::Transfer(s("a")), "transfer error: a"),
        (
            StarkLinkError::ChecksumMismatch { expected: s("x"), actual: s("y") },
            "checksum mismatch: expected x, got y",
        ),
        (StarkLinkError::MaxTransfersReached(12), "max concurrent transfers reached (limit: 12)"),
        (StarkLinkError::TransferCancelled(s("a")), "transfer cancelled: a"),
        (StarkLinkError::Discovery(s("a")), "discovery error: a"),
        (StarkLinkError::Protocol(s("a")), "protocol error: a"),
        (StarkLinkError::UnexpectedMessage(s("a")), "unexpected message type: a"),
        (StarkLinkError::Clipboard(s("a")), "clipboard error: a"),
        (
            StarkLinkError::InvalidConnectionState { expected: s("Paired"), actual: s("Connecting") },
            "invalid connection state: expected Paired, got Connecting",
        ),
        (StarkLinkError::NotPaired(s("a")), "peer not paired: a"),
        (StarkLinkError::Config(s("a")), "config error: a"),
        (StarkLinkError::Io(s("a")), "io error: a"),
        (StarkLinkError::Json(s("a")), "json error: a"),
        (StarkLinkError::MsgPackEncode(s("a")), "msgpack encode error: a"),
        (StarkLinkError::MsgPackDecode(s("a")), "msgpack decode error: a"),
    ];
    for (e, text) in cases {
        assert_eq!(e.message(), text);
    }
    assert_eq!(StarkLinkError::MaxTransfersReached(0).message(), "max concurrent transfers reached (limit: 0)");
}
