use stark_link_core::config::Config;
use stark_link_core::connection::{
    ConnectionEvent, ConnectionManager, ConnectionState, ReaderInput, ReaderState,
};
use stark_link_core::device::{DeviceInfo, DeviceType, OsType};
use stark_link_core::error::StarkLinkError;
use stark_link_core::protocol::{Message, Payload};

fn local() -> DeviceInfo {
    DeviceInfo::new(0x11, "here".to_string(), OsType::Linux, DeviceType::Desktop, None)
}

fn manager() -> ConnectionManager {
    let cfg = Config::defaults_with(0x11, Some("here".to_string()), None);
    ConnectionManager::new(local(), cfg)
}

fn hello_from(id: u128) -> Message {
    let info = DeviceInfo::new(id, "peer".to_string(), OsType::MacOS, DeviceType::Laptop, Some(80));
    Message::new(id, Payload::Hello { device_info: info, public_key: vec![] })
}

#[test]
fn connect_tracks_connecting_peer_and_queues_hello() {
    let mut mgr = manager();
    let (tmp, hello) = mgr.connect(7, Some("10.0.0.2:42424".to_string()), 1000);
    assert_eq!(hello.sender, 0x11);
    match hello.payload {
        Payload::Hello { device_info, public_key } => {
            assert_eq!(device_info.id, 0x11);
            assert!(public_key.is_empty());
        }
        _ => panic!("expected hello"),
    }
    assert_eq!(mgr.peer_state(tmp), Some(ConnectionState::Connecting));
    assert_eq!(mgr.connected_peers(), vec![tmp]);
    let info = mgr.connected_peers_info();
    assert_eq!(info.len(), 1);
    assert_eq!(info[0].link, 7);
    assert_eq!(info[0].address.as_deref(), Some("10.0.0.2:42424"));
}

#[test]
fn hello_pairs_under_announced_id() {
    let mut mgr = manager();
    let (tmp, _) = mgr.handle_incoming(3, None, 0);
    assert_eq!(mgr.peer_state(tmp), Some(ConnectionState::Handshake));
    let mut st = ReaderState { current_id: tmp, last_heartbeat_ms: 0 };
    let out = mgr.reader_step(&mut st, ReaderInput::Frame(hello_from(0xabc)), 500);
    assert!(!out.stop);
    assert!(out.sends.is_empty());
    assert_eq!(st.current_id, 0xabc);
    assert_eq!(out.events.len(), 3);
    assert!(matches!(out.events[0], ConnectionEvent::PeerConnected { peer_id: 0xabc }));
    assert!(matches!(
        out.events[1],
        ConnectionEvent::StateChanged {
            peer_id: 0xabc,
            old: ConnectionState::Handshake,
            new: ConnectionState::Paired
        }
    ));
    assert!(matches!(out.events[2], ConnectionEvent::MessageReceived { peer_id: 0xabc, .. }));
    assert_eq!(mgr.peer_state(tmp), None);
    assert_eq!(mgr.peer_state(0xabc), Some(ConnectionState::Paired));
    let info = mgr.connected_peers_info();
    assert_eq!(info[0].peer_id, 0xabc);
    assert_eq!(info[0].link, 3);
    assert_eq!(info[0].last_seen_ms, 500);
    assert_eq!(mgr.broadcast_targets(), vec![(0xabc, 3)]);
}

#[test]
fn ping_is_answered_with_pong_on_the_link() {
    let mut mgr = manager();
    let (tmp, _) = mgr.connect(9, None, 0);
    let mut st = ReaderState { current_id: tmp, last_heartbeat_ms: 0 };
    let ping = Message::new(0x55, Payload::Ping);
    let out = mgr.reader_step(&mut st, ReaderInput::Frame(ping), 10);
    assert_eq!(out.sends.len(), 1);
    assert_eq!(out.sends[0].0, 9);
    assert_eq!(out.sends[0].1.sender, 0x11);
    assert!(matches!(out.sends[0].1.payload, Payload::Pong));
    assert_eq!(out.events.len(), 1);
    assert_eq!(mgr.connected_peers_info()[0].last_seen_ms, 10);
    // a connecting peer is not yet a broadcast target
    assert!(mgr.broadcast_targets().is_empty());
}

#[test]
fn heartbeat_after_interval_only() {
    let mut mgr = manager();
    let (tmp, _) = mgr.connect(4, None, 0);
    let mut st = ReaderState { current_id: tmp, last_heartbeat_ms: 1_000 };
    let early = mgr.reader_step(&mut st, ReaderInput::Timeout, 30_999);
    assert!(early.sends.is_empty());
    assert_eq!(st.last_heartbeat_ms, 1_000);
    let due = mgr.reader_step(&mut st, ReaderInput::Timeout, 31_000);
    assert_eq!(due.sends.len(), 1);
    assert_eq!(due.sends[0].0, 4);
    assert_eq!(due.sends[0].1.sender, 0x11);
    assert!(matches!(due.sends[0].1.payload, Payload::Ping));
    assert!(due.events.is_empty());
    assert_eq!(st.last_heartbeat_ms, 31_000);
}

#[test]
fn skipped_frames_change_nothing() {
    let mut mgr = manager();
    let (tmp, _) = mgr.connect(4, None, 0);
    let mut st = ReaderState { current_id: tmp, last_heartbeat_ms: 0 };
    for input in [ReaderInput::Undecodable, ReaderInput::Other] {
        let out = mgr.reader_step(&mut st, input, 99);
        assert!(!out.stop && out.sends.is_empty() && out.events.is_empty());
    }
    assert_eq!(mgr.connected_peers_info()[0].last_seen_ms, 0);
}

#[test]
fn end_of_connection_forgets_peer() {
    for input in [
        ReaderInput::Close,
        ReaderInput::ReadError,
        ReaderInput::StreamEnd,
        ReaderInput::SendFailed,
    ] {
        let mut mgr = manager();
        let (tmp, _) = mgr.connect(4, None, 0);
        let mut st = ReaderState { current_id: tmp, last_heartbeat_ms: 0 };
        let out = mgr.reader_step(&mut st, input, 5);
        assert!(out.stop);
        assert!(out.sends.is_empty());
        assert_eq!(out.events.len(), 1);
        assert!(matches!(out.events[0], ConnectionEvent::PeerDisconnected { peer_id } if peer_id == tmp));
        assert!(mgr.connected_peers().is_empty());
    }
}

#[test]
fn send_routes_to_link_or_refuses() {
    let mut mgr = manager();
    let (tmp, _) = mgr.connect(12, None, 0);
    let (link, msg) = mgr.send(tmp, Message::new(1, Payload::RemoteLock)).unwrap();
    assert_eq!(link, 12);
    assert!(matches!(msg.payload, Payload::RemoteLock));
    let err = mgr.send(0x1234, Message::new(1, Payload::Ping)).unwrap_err();
    assert_eq!(
        err,
        StarkLinkError::Network("peer 00000000-0000-0000-0000-000000001234 not connected".to_string())
    );
}

#[test]
fn disconnect_and_shutdown() {
    let mut mgr = manager();
    let (a, _) = mgr.connect(1, None, 0);
    let (b, _) = mgr.handle_incoming(2, None, 0);
    assert!(matches!(mgr.disconnect(a).unwrap(), ConnectionEvent::PeerDisconnected { peer_id } if peer_id == a));
    let err = mgr.disconnect(a).unwrap_err();
    assert_eq!(err.message(), format!("network error: peer {} not found", uuid::Uuid::from_u128(a)));
    let events = mgr.shutdown();
    assert_eq!(events.len(), 1);
    assert!(matches!(events[0], ConnectionEvent::PeerDisconnected { peer_id } if peer_id == b));
    assert!(mgr.connected_peers().is_empty());
}

#[test]
fn state_display_names() {
    assert_eq!(ConnectionState::Disconnected.display_name(), "Disconnected");
    assert_eq!(ConnectionState::Connecting.display_name(), "Connecting");
    assert_eq!(ConnectionState::Handshake.display_name(), "Handshake");
    assert_eq!(ConnectionState::Paired.display_name(), "Paired");
    assert_eq!(ConnectionState::Controlling.display_name(), "Controlling");
}

#[test]
fn outbound_pairing_reports_connecting_as_old_state() {
    let mut mgr = manager();
    let (tmp, _) = mgr.connect(5, None, 0);
    let mut st = ReaderState { current_id: tmp, last_heartbeat_ms: 0 };
    let out = mgr.reader_step(&mut st, ReaderInput::Frame(hello_from(0xdef)), 1);
    assert!(matches!(
        out.events[1],
        ConnectionEvent::StateChanged {
            peer_id: 0xdef,
            old: ConnectionState::Connecting,
            new: ConnectionState::Paired
        }
    ));
    // a Hello on a connection no longer tracked reports it as disconnected before
    let mut gone = ReaderState { current_id: 0x999, last_heartbeat_ms: 0 };
    let out = mgr.reader_step(&mut gone, ReaderInput::Frame(hello_from(0x777)), 2);
    assert!(matches!(
        out.events[1],
        ConnectionEvent::StateChanged { old: ConnectionState::Disconnected, .. }
    ));
}
