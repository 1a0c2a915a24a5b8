use stark_link_core::clipboard::ClipboardEntry;
use stark_link_core::connection::{ConnectionState, PeerConnection};
use stark_link_core::desktop::{
    keyboard_event_message, media_control_message, mouse_event_message, peer_message, read_ui_id,
    clipboard_entry_response, connected_peer_response, device_info_response,
    discovered_device_response, parse_key_action, parse_key_modifier, parse_key_modifiers,
    parse_media_action, parse_mouse_action, parse_mouse_button,
};
use stark_link_core::device::{DeviceInfo, DeviceType, OsType};
use stark_link_core::discovery::{DiscoveredDevice, IpAddress};
use stark_link_core::protocol::{
    Payload, ClipboardContentType, KeyAction, KeyModifier, MediaAction, MouseAction, MouseButton,
};

#[test]
fn mouse_names() {
    assert_eq!(parse_mouse_button("left"), MouseButton::Left);
    assert_eq!(parse_mouse_button("right"), MouseButton::Right);
    assert_eq!(parse_mouse_button("middle"), MouseButton::Middle);
    assert_eq!(parse_mouse_button("Left"), MouseButton::NoButton);
    assert_eq!(parse_mouse_action("doubleclick"), MouseAction::DoubleClick);
    assert_eq!(parse_mouse_action("scroll"), MouseAction::Scroll);
    assert_eq!(parse_mouse_action("click"), MouseAction::Click);
    assert_eq!(parse_mouse_action("up"), MouseAction::Up);
    assert_eq!(parse_mouse_action("wiggle"), MouseAction::Move);
}

#[test]
fn key_names() {
    assert_eq!(parse_key_action("up"), KeyAction::Up);
    assert_eq!(parse_key_action("down"), KeyAction::Down);
    assert_eq!(parse_key_action("press"), KeyAction::Down);
    assert_eq!(parse_key_modifier("meta"), Some(KeyModifier::Meta));
    assert_eq!(parse_key_modifier("hyper"), None);
    let names: Vec<String> = ["ctrl", "bogus", "shift", "alt", "meta"].iter().map(|s| s.to_string()).collect();
    assert_eq!(
        parse_key_modifiers(&names),
        vec![KeyModifier::Ctrl, KeyModifier::Shift, KeyModifier::Alt, KeyModifier::Meta]
    );
    assert!(parse_key_modifiers(&vec![]).is_empty());
}

#[test]
fn media_names() {
    assert_eq!(parse_media_action("play"), Ok(MediaAction::Play));
    assert_eq!(parse_media_action("pause"), Ok(MediaAction::Pause));
    assert_eq!(parse_media_action("next"), Ok(MediaAction::Next));
    assert_eq!(parse_media_action("previous"), Ok(MediaAction::Previous));
    assert_eq!(parse_media_action("volume_up"), Ok(MediaAction::VolumeUp));
    assert_eq!(parse_media_action("volume_down"), Ok(MediaAction::VolumeDown));
    assert_eq!(parse_media_action("mute"), Ok(MediaAction::Mute));
    assert_eq!(parse_media_action("rewind"), Err("Unknown media action".to_string()));
}

#[test]
fn device_records() {
    let d = DeviceInfo::new(0xff, "box".to_string(), OsType::MacOS, DeviceType::Laptop, Some(77));
    let r = device_info_response(&d, "aaaa-bbbb-cccc-dddd".to_string());
    assert_eq!(r.id, "00000000-0000-0000-0000-0000000000ff");
    assert_eq!(r.name, "box");
    assert_eq!(r.os, "macOS");
    assert_eq!(r.device_type, "Laptop");
    assert_eq!(r.battery_level, Some(77));
    assert_eq!(r.fingerprint, "aaaa-bbbb-cccc-dddd");
    let found = DiscoveredDevice {
        info: d,
        addresses: vec![IpAddress::V4(0x7f00_0001)],
        port: 5,
        online: false,
    };
    let r = discovered_device_response(&found, vec!["127.0.0.1".to_string()]);
    assert_eq!(r.addresses, vec!["127.0.0.1".to_string()]);
    assert_eq!(r.port, 5);
    assert!(!r.online);
    assert_eq!(r.os, "macOS");
}

#[test]
fn clipboard_records() {
    let e = ClipboardEntry::new(ClipboardContentType::Url, b"https://x".to_vec(), 3);
    let r = clipboard_entry_response(&e);
    assert_eq!(r.content_type, "Url");
    assert_eq!(r.text.as_deref(), Some("https://x"));
    assert_eq!(r.source_device, "00000000-0000-0000-0000-000000000003");
    assert_eq!(r.id, uuid::Uuid::from_u128(e.id).to_string());
    let expected = chrono::DateTime::<chrono::Utc>::from_timestamp(e.timestamp.secs, e.timestamp.nanos)
        .unwrap()
        .to_rfc3339();
    assert_eq!(r.timestamp, expected);
    let img = ClipboardEntry::new(ClipboardContentType::Image, vec![1, 2], 3);
    let r = clipboard_entry_response(&img);
    assert_eq!(r.content_type, "Image");
    assert_eq!(r.text, None);
    let path = ClipboardEntry::new(ClipboardContentType::FilePath, b"/tmp/a".to_vec(), 3);
    assert_eq!(clipboard_entry_response(&path).content_type, "FilePath");
}

#[test]
fn peer_records() {
    let p = PeerConnection {
        peer_id: 1,
        state: ConnectionState::Paired,
        last_seen_ms: 0,
        link: 2,
        address: Some("10.1.1.1:42424".to_string()),
    };
    let r = connected_peer_response(&p);
    assert_eq!(r.id, "00000000-0000-0000-0000-000000000001");
    assert_eq!(r.state, "Paired");
    assert_eq!(r.address, "10.1.1.1:42424");
    let q = PeerConnection { address: None, state: ConnectionState::Controlling, ..p };
    let r = connected_peer_response(&q);
    assert_eq!(r.address, "");
    assert_eq!(r.state, "Controlling");
}

const PEER_TEXT: &str = "01234567-89ab-cdef-0123-456789abcdef";
const PEER: u128 = 0x0123_4567_89ab_cdef_0123_4567_89ab_cdef;

fn uuid_error(text: &str) -> String {
    uuid::Uuid::parse_str(text).unwrap_err().to_string()
}

#[test]
fn ui_ids() {
    assert_eq!(read_ui_id(PEER_TEXT, "peer"), Ok(PEER));
    assert_eq!(
        read_ui_id("nope", "transfer"),
        Err(format!("Invalid transfer ID: {}", uuid_error("nope")))
    );
}

#[test]
fn mouse_and_keyboard_messages() {
    let (p, m) = mouse_event_message(7, PEER_TEXT, 9, 1.5f64.to_bits(), 2.0f64.to_bits(), "right", "click").unwrap();
    assert_eq!(p, PEER);
    assert_eq!(m.sender, 7);
    match m.payload {
        Payload::MouseEvent { session_id, event } => {
            assert_eq!(session_id, 9);
            assert_eq!(f64::from_bits(event.x_bits), 1.5);
            assert_eq!(event.button, MouseButton::Right);
            assert_eq!(event.action, MouseAction::Click);
        }
        _ => panic!("wrong payload"),
    }
    let err = mouse_event_message(7, "bad", 9, 0, 0, "left", "move").unwrap_err();
    assert_eq!(err, format!("Invalid peer ID: {}", uuid_error("bad")));
    let mods = vec!["shift".to_string(), "x".to_string()];
    let (_, k) = keyboard_event_message(7, PEER_TEXT, 3, "a".to_string(), "up", &mods).unwrap();
    match k.payload {
        Payload::KeyboardEvent { session_id, event } => {
            assert_eq!(session_id, 3);
            assert_eq!(event.key, "a");
            assert_eq!(event.action, KeyAction::Up);
            assert_eq!(event.modifiers, vec![KeyModifier::Shift]);
        }
        _ => panic!("wrong payload"),
    }
    assert!(keyboard_event_message(7, "", 3, "a".to_string(), "up", &mods).is_err());
}

#[test]
fn media_and_plain_messages() {
    let (_, m) = media_control_message(7, PEER_TEXT, "mute").unwrap();
    assert!(matches!(m.payload, Payload::MediaControl { action: MediaAction::Mute }));
    assert_eq!(media_control_message(7, PEER_TEXT, "boo").unwrap_err(), "Unknown media action");
    assert_eq!(
        media_control_message(7, "bad", "boo").unwrap_err(),
        format!("Invalid peer ID: {}", uuid_error("bad"))
    );
    let (p, m) = peer_message(4, PEER_TEXT, Payload::RemoteLock).unwrap();
    assert_eq!((p, m.sender), (PEER, 4));
    assert!(matches!(m.payload, Payload::RemoteLock));
}
