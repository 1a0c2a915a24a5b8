//! Logic of the desktop application's commands: reading the user's input
//! strings into protocol values, and the records the user interface shows.

use vstd::prelude::*;
use crate::clipboard::ClipboardEntry;
use crate::connection::{state_text, PeerConnection};
use crate::device::{device_type_text, os_text, DeviceInfo};
use crate::discovery::DiscoveredDevice;
use crate::ids::{uuid_parse, uuid_parsed, uuid_text, uuid_to_string, Timestamp};
use crate::protocol::{
    ClipboardContentType, KeyAction, KeyModifier, KeyboardEventData, MediaAction, Message, MouseAction,
    MouseButton, MouseEventData, Payload,
};
use crate::text::{concat3, lemma_chars_differ, lemma_lengths_differ, own, str_eq};

verus! {

/// The button a user-interface name stands for; unknown names mean no
/// button.
pub open spec fn mouse_button_named(s: Seq<char>) -> MouseButton {
    if s == "left"@ {
        MouseButton::Left
    } else if s == "right"@ {
        MouseButton::Right
    } else if s == "middle"@ {
        MouseButton::Middle
    } else {
        MouseButton::NoButton
    }
}

/// Read a mouse button name.
pub fn parse_mouse_button(s: &str) -> (r: MouseButton)
    ensures
        r == mouse_button_named(s@),
{
    if str_eq(s, "left") {
        MouseButton::Left
    } else if str_eq(s, "right") {
        MouseButton::Right
    } else if str_eq(s, "middle") {
        MouseButton::Middle
    } else {
        MouseButton::NoButton
    }
}

/// The mouse action a user-interface name stands for; unknown names mean a
/// move.
pub open spec fn mouse_action_named(s: Seq<char>) -> MouseAction {
    if s == "move"@ {
        MouseAction::Move
    } else if s == "down"@ {
        MouseAction::Down
    } else if s == "up"@ {
        MouseAction::Up
    } else if s == "click"@ {
        MouseAction::Click
    } else if s == "doubleclick"@ {
        MouseAction::DoubleClick
    } else if s == "scroll"@ {
        MouseAction::Scroll
    } else {
        MouseAction::Move
    }
}

/// Read a mouse action name.
pub fn parse_mouse_action(s: &str) -> (r: MouseAction)
    ensures
        r == mouse_action_named(s@),
{
    if str_eq(s, "move") {
        MouseAction::Move
    } else if str_eq(s, "down") {
        MouseAction::Down
    } else if str_eq(s, "up") {
        MouseAction::Up
    } else if str_eq(s, "click") {
        MouseAction::Click
    } else if str_eq(s, "doubleclick") {
        MouseAction::DoubleClick
    } else if str_eq(s, "scroll") {
        MouseAction::Scroll
    } else {
        MouseAction::Move
    }
}

/// The key action a user-interface name stands for; anything but `up`
/// means a key press.
pub open spec fn key_action_named(s: Seq<char>) -> KeyAction {
    if s == "down"@ {
        KeyAction::Down
    } else if s == "up"@ {
        KeyAction::Up
    } else {
        KeyAction::Down
    }
}

/// Read a key action name.
pub fn parse_key_action(s: &str) -> (r: KeyAction)
    ensures
        r == key_action_named(s@),
{
    if str_eq(s, "down") {
        KeyAction::Down
    } else if str_eq(s, "up") {
        KeyAction::Up
    } else {
        KeyAction::Down
    }
}

/// The modifier a user-interface name stands for, if any.
pub open spec fn modifier_named(s: Seq<char>) -> Option<KeyModifier> {
    if s == "ctrl"@ {
        Some(KeyModifier::Ctrl)
    } else if s == "alt"@ {
        Some(KeyModifier::Alt)
    } else if s == "shift"@ {
        Some(KeyModifier::Shift)
    } else if s == "meta"@ {
        Some(KeyModifier::Meta)
    } else {
        None
    }
}

/// The modifiers a list of names stands for, in order, unknown names
/// dropped.
pub open spec fn modifiers_named(names: Seq<String>) -> Seq<KeyModifier>
    decreases names.len(),
{
    if names.len() == 0 {
        Seq::empty()
    } else {
        let rest = modifiers_named(names.drop_last());
        match modifier_named(names.last()@) {
            Some(m) => rest.push(m),
            None => rest,
        }
    }
}

/// Read a modifier name.
pub fn parse_key_modifier(s: &str) -> (r: Option<KeyModifier>)
    ensures
        r == modifier_named(s@),
{
    if str_eq(s, "ctrl") {
        Some(KeyModifier::Ctrl)
    } else if str_eq(s, "alt") {
        Some(KeyModifier::Alt)
    } else if str_eq(s, "shift") {
        Some(KeyModifier::Shift)
    } else if str_eq(s, "meta") {
        Some(KeyModifier::Meta)
    } else {
        None
    }
}

/// Read a list of modifier names, dropping unknown ones.
pub fn parse_key_modifiers(names: &Vec<String>) -> (r: Vec<KeyModifier>)
    ensures
        r@ == modifiers_named(names@),
{
    let mut out: Vec<KeyModifier> = Vec::new();
    let mut i: usize = 0;
    while i < names.len()
        invariant
            i <= names@.len(),
            out@ == modifiers_named(names@.subrange(0, i as int)),
        decreases names@.len() - i,
    {
        proof {
            assert(names@.subrange(0, i + 1).drop_last() =~= names@.subrange(0, i as int));
        }
        match parse_key_modifier(names[i].as_str()) {
            Some(m) => out.push(m),
            None => {},
        }
        i = i + 1;
    }
    proof {
        assert(names@.subrange(0, names@.len() as int) =~= names@);
    }
    out
}

/// The media action a user-interface name stands for, if any.
pub open spec fn media_action_named(s: Seq<char>) -> Option<MediaAction> {
    if s == "play"@ {
        Some(MediaAction::Play)
    } else if s == "pause"@ {
        Some(MediaAction::Pause)
    } else if s == "next"@ {
        Some(MediaAction::Next)
    } else if s == "previous"@ {
        Some(MediaAction::Previous)
    } else if s == "volume_up"@ {
        Some(MediaAction::VolumeUp)
    } else if s == "volume_down"@ {
        Some(MediaAction::VolumeDown)
    } else if s == "mute"@ {
        Some(MediaAction::Mute)
    } else {
        None
    }
}

/// Read a media action name; an unknown name is refused with the message
/// `Unknown media action`.
pub fn parse_media_action(s: &str) -> (r: Result<MediaAction, String>)
    ensures
        match media_action_named(s@) {
            Some(a) => r == Ok::<MediaAction, String>(a),
            None => (r matches Err(m) && m@ == "Unknown media action"@),
        },
{
    if str_eq(s, "play") {
        Ok(MediaAction::Play)
    } else if str_eq(s, "pause") {
        Ok(MediaAction::Pause)
    } else if str_eq(s, "next") {
        Ok(MediaAction::Next)
    } else if str_eq(s, "previous") {
        Ok(MediaAction::Previous)
    } else if str_eq(s, "volume_up") {
        Ok(MediaAction::VolumeUp)
    } else if str_eq(s, "volume_down") {
        Ok(MediaAction::VolumeDown)
    } else if str_eq(s, "mute") {
        Ok(MediaAction::Mute)
    } else {
        Err(own("Unknown media action"))
    }
}

/// Mouse-name law: each of `move`, `down`, `up`, `click`, `doubleclick`
/// and `scroll` is read as the action of that name, and any other name as
/// a move; `left`, `right` and `middle` are read as those buttons, and any
/// other name as no button.
pub proof fn lemma_mouse_names(s: Seq<char>)
    ensures
        mouse_action_named("move"@) == MouseAction::Move,
        mouse_action_named("down"@) == MouseAction::Down,
        mouse_action_named("up"@) == MouseAction::Up,
        mouse_action_named("click"@) == MouseAction::Click,
        mouse_action_named("doubleclick"@) == MouseAction::DoubleClick,
        mouse_action_named("scroll"@) == MouseAction::Scroll,
        s != "move"@ && s != "down"@ && s != "up"@ && s != "click"@ && s != "doubleclick"@ && s
            != "scroll"@ ==> mouse_action_named(s) == MouseAction::Move,
        mouse_button_named("left"@) == MouseButton::Left,
        mouse_button_named("right"@) == MouseButton::Right,
        mouse_button_named("middle"@) == MouseButton::Middle,
        s != "left"@ && s != "right"@ && s != "middle"@ ==> mouse_button_named(s) == MouseButton::NoButton,
{
    reveal_strlit("click");
    reveal_strlit("doubleclick");
    reveal_strlit("down");
    reveal_strlit("left");
    reveal_strlit("middle");
    reveal_strlit("move");
    reveal_strlit("right");
    reveal_strlit("scroll");
    reveal_strlit("up");
    lemma_chars_differ("move"@, "down"@, 0);
    lemma_lengths_differ("move"@, "up"@);
    lemma_lengths_differ("move"@, "click"@);
    lemma_lengths_differ("move"@, "doubleclick"@);
    lemma_lengths_differ("move"@, "scroll"@);
    lemma_lengths_differ("down"@, "up"@);
    lemma_lengths_differ("down"@, "click"@);
    lemma_lengths_differ("down"@, "doubleclick"@);
    lemma_lengths_differ("down"@, "scroll"@);
    lemma_lengths_differ("up"@, "click"@);
    lemma_lengths_differ("up"@, "doubleclick"@);
    lemma_lengths_differ("up"@, "scroll"@);
    lemma_lengths_differ("click"@, "doubleclick"@);
    lemma_lengths_differ("click"@, "scroll"@);
    lemma_lengths_differ("doubleclick"@, "scroll"@);
    lemma_lengths_differ("left"@, "right"@);
    lemma_lengths_differ("left"@, "middle"@);
    lemma_lengths_differ("right"@, "middle"@);
}

/// Key-name law: `up` is read as a key release and every other name as a
/// press; `ctrl`, `alt`, `shift` and `meta` are read as those modifiers and
/// any other name as none; a list of modifier names keeps the known ones in
/// their order.
pub proof fn lemma_key_names(s: Seq<char>, names: Seq<String>, extra: String)
    ensures
        key_action_named("up"@) == KeyAction::Up,
        s != "up"@ ==> key_action_named(s) == KeyAction::Down,
        modifier_named("ctrl"@) == Some(KeyModifier::Ctrl),
        modifier_named("alt"@) == Some(KeyModifier::Alt),
        modifier_named("shift"@) == Some(KeyModifier::Shift),
        modifier_named("meta"@) == Some(KeyModifier::Meta),
        s != "ctrl"@ && s != "alt"@ && s != "shift"@ && s != "meta"@ ==> modifier_named(s) is None,
        modifiers_named(names.push(extra)) == (match modifier_named(extra@) {
            Some(m) => modifiers_named(names).push(m),
            None => modifiers_named(names),
        }),
        modifiers_named(Seq::<String>::empty()) == Seq::<KeyModifier>::empty(),
{
    reveal_strlit("alt");
    reveal_strlit("ctrl");
    reveal_strlit("down");
    reveal_strlit("meta");
    reveal_strlit("shift");
    reveal_strlit("up");
    lemma_lengths_differ("down"@, "up"@);
    lemma_lengths_differ("ctrl"@, "alt"@);
    lemma_lengths_differ("ctrl"@, "shift"@);
    lemma_chars_differ("ctrl"@, "meta"@, 0);
    lemma_lengths_differ("alt"@, "shift"@);
    lemma_lengths_differ("alt"@, "meta"@);
    lemma_lengths_differ("shift"@, "meta"@);
    assert(names.push(extra).drop_last() =~= names);
}

/// Media-name law: `play`, `pause`, `next`, `previous`, `volume_up`,
/// `volume_down` and `mute` are read as those commands; any other name is
/// refused.
pub proof fn lemma_media_names(s: Seq<char>)
    ensures
        media_action_named("play"@) == Some(MediaAction::Play),
        media_action_named("pause"@) == Some(MediaAction::Pause),
        media_action_named("next"@) == Some(MediaAction::Next),
        media_action_named("previous"@) == Some(MediaAction::Previous),
        media_action_named("volume_up"@) == Some(MediaAction::VolumeUp),
        media_action_named("volume_down"@) == Some(MediaAction::VolumeDown),
        media_action_named("mute"@) == Some(MediaAction::Mute),
        s != "play"@ && s != "pause"@ && s != "next"@ && s != "previous"@ && s != "volume_up"@ && s
            != "volume_down"@ && s != "mute"@ ==> media_action_named(s) is None,
{
    reveal_strlit("mute");
    reveal_strlit("next");
    reveal_strlit("pause");
    reveal_strlit("play");
    reveal_strlit("previous");
    reveal_strlit("volume_down");
    reveal_strlit("volume_up");
    lemma_lengths_differ("play"@, "pause"@);
    lemma_chars_differ("play"@, "next"@, 0);
    lemma_lengths_differ("play"@, "previous"@);
    lemma_lengths_differ("play"@, "volume_up"@);
    lemma_lengths_differ("play"@, "volume_down"@);
    lemma_chars_differ("play"@, "mute"@, 0);
    lemma_lengths_differ("pause"@, "next"@);
    lemma_lengths_differ("pause"@, "previous"@);
    lemma_lengths_differ("pause"@, "volume_up"@);
    lemma_lengths_differ("pause"@, "volume_down"@);
    lemma_lengths_differ("pause"@, "mute"@);
    lemma_lengths_differ("next"@, "previous"@);
    lemma_lengths_differ("next"@, "volume_up"@);
    lemma_lengths_differ("next"@, "volume_down"@);
    lemma_chars_differ("next"@, "mute"@, 0);
    lemma_lengths_differ("previous"@, "volume_up"@);
    lemma_lengths_differ("previous"@, "volume_down"@);
    lemma_lengths_differ("previous"@, "mute"@);
    lemma_lengths_differ("volume_up"@, "volume_down"@);
    lemma_lengths_differ("volume_up"@, "mute"@);
    lemma_lengths_differ("volume_down"@, "mute"@);
}

/// What the user interface shows of the local device.
#[derive(Debug, Clone)]
pub struct DeviceInfoResponse {
    pub id: String,
    pub name: String,
    pub os: String,
    pub device_type: String,
    pub battery_level: Option<u8>,
    pub fingerprint: String,
}

/// Describe the local device, with its key fingerprint.
pub fn device_info_response(device: &DeviceInfo, fingerprint: String) -> (r: DeviceInfoResponse)
    ensures
        r.id@ == uuid_text(device.id),
        r.name@ == device.name@,
        r.os@ == os_text(device.os),
        r.device_type@ == device_type_text(device.device_type),
        r.battery_level == device.battery_level,
        r.fingerprint == fingerprint,
{
    DeviceInfoResponse {
        id: uuid_to_string(device.id),
        name: device.name.clone(),
        os: device.os.display_name(),
        device_type: device.device_type.display_name(),
        battery_level: device.battery_level,
        fingerprint,
    }
}

/// What the user interface shows of a discovered device.
#[derive(Debug, Clone)]
pub struct DiscoveredDeviceResponse {
    pub id: String,
    pub name: String,
    pub os: String,
    pub device_type: String,
    pub battery_level: Option<u8>,
    pub addresses: Vec<String>,
    pub port: u16,
    pub online: bool,
}

/// Describe a discovered device, given the text of each of its addresses
/// (as `std::net::IpAddr` displays them).
pub fn discovered_device_response(d: &DiscoveredDevice, address_texts: Vec<String>) -> (r:
    DiscoveredDeviceResponse)
    ensures
        r.id@ == uuid_text(d.info.id),
        r.name@ == d.info.name@,
        r.os@ == os_text(d.info.os),
        r.device_type@ == device_type_text(d.info.device_type),
        r.battery_level == d.info.battery_level,
        r.addresses@ == address_texts@,
        r.port == d.port,
        r.online == d.online,
{
    DiscoveredDeviceResponse {
        id: uuid_to_string(d.info.id),
        name: d.info.name.clone(),
        os: d.info.os.display_name(),
        device_type: d.info.device_type.display_name(),
        battery_level: d.info.battery_level,
        addresses: address_texts,
        port: d.port,
        online: d.online,
    }
}

/// The debug name of a clipboard content type.
pub open spec fn content_type_text(t: ClipboardContentType) -> Seq<char> {
    match t {
        ClipboardContentType::Text => "Text"@,
        ClipboardContentType::Image => "Image"@,
        ClipboardContentType::Url => "Url"@,
        ClipboardContentType::FilePath => "FilePath"@,
    }
}

/// The RFC 3339 text chrono gives a UTC instant.
pub uninterp spec fn rfc3339_text(secs: i64, nanos: u32) -> Seq<char>;

/// Whether an instant lies well inside the range chrono represents (years
/// -262143 to 262142), with a sub-second part below one second.
pub open spec fn plain_instant(t: Timestamp) -> bool {
    t.nanos < 1_000_000_000 && -8_000_000_000_000 <= t.secs <= 8_000_000_000_000
}

/// `DateTime::<Utc>::from_timestamp(..).to_rfc3339()`: the RFC 3339 text of
/// an instant, or `None` where chrono cannot represent the instant.  The
/// source shows that every instant of years -262143 to 262142 with a
/// sub-second part below one second is represented, and that the text has
/// at least the 25 characters of `YYYY-MM-DDTHH:MM:SS+00:00`.
#[verifier::external_body]
fn rfc3339(t: Timestamp) -> (r: Option<String>)
    ensures
        r matches Some(s) ==> s@ == rfc3339_text(t.secs, t.nanos) && s@.len() >= 25,
        plain_instant(t) ==> r is Some,
{
    match chrono::DateTime::<chrono::Utc>::from_timestamp(t.secs, t.nanos) {
        Some(d) => Some(d.to_rfc3339()),
        None => None,
    }
}

/// What the user interface shows of a clipboard entry.
#[derive(Debug, Clone)]
pub struct ClipboardEntryResponse {
    pub id: String,
    pub content_type: String,
    pub text: Option<String>,
    pub timestamp: String,
    pub source_device: String,
}

/// Describe a clipboard entry: its text only for readable text entries,
/// its time in RFC 3339 (empty for an instant chrono cannot represent).
pub fn clipboard_entry_response(e: &ClipboardEntry) -> (r: ClipboardEntryResponse)
    ensures
        r.id@ == uuid_text(e.id),
        r.content_type@ == content_type_text(e.content_type),
        r.text is Some <==> crate::clipboard::is_textual(e.content_type)
            && vstd::utf8::valid_utf8(e.data@),
        r.text matches Some(t) ==> t@ == vstd::utf8::decode_utf8(e.data@),
        r.timestamp@.len() > 0 ==> r.timestamp@ == rfc3339_text(e.timestamp.secs, e.timestamp.nanos),
        plain_instant(e.timestamp) ==> r.timestamp@ == rfc3339_text(
            e.timestamp.secs,
            e.timestamp.nanos,
        ),
        r.source_device@ == uuid_text(e.source_device),
{
    let content_type = match e.content_type {
        ClipboardContentType::Text => own("Text"),
        ClipboardContentType::Image => own("Image"),
        ClipboardContentType::Url => own("Url"),
        ClipboardContentType::FilePath => own("FilePath"),
    };
    let text = match e.as_text() {
        Some(t) => Some(own(t)),
        None => None,
    };
    let timestamp = match rfc3339(e.timestamp) {
        Some(s) => s,
        None => String::new(),
    };
    ClipboardEntryResponse {
        id: uuid_to_string(e.id),
        content_type,
        text,
        timestamp,
        source_device: uuid_to_string(e.source_device),
    }
}

/// What the user interface shows of a peer connection.
#[derive(Debug, Clone)]
pub struct ConnectedPeerResponse {
    pub id: String,
    pub state: String,
    pub address: String,
}

/// Describe a peer connection; an unknown address shows as empty.
pub fn connected_peer_response(p: &PeerConnection) -> (r: ConnectedPeerResponse)
    ensures
        r.id@ == uuid_text(p.peer_id),
        r.state@ == state_text(p.state),
        r.address@ == (match p.address {
            Some(a) => a@,
            None => Seq::<char>::empty(),
        }),
{
    ConnectedPeerResponse {
        id: uuid_to_string(p.peer_id),
        state: p.state.display_name(),
        address: match &p.address {
            Some(a) => a.clone(),
            None => String::new(),
        },
    }
}

/// The text of the error `uuid::Uuid::parse_str` reports for a string.
pub uninterp spec fn uuid_error_text(s: Seq<char>) -> Seq<char>;

/// The text of the error `Uuid::parse_str` reports for `s` (empty where `s`
/// parses).
#[verifier::external_body]
pub(crate) fn uuid_parse_error(s: &str) -> (r: String)
    ensures
        r@ == uuid_error_text(s@),
{
    match uuid::Uuid::parse_str(s) {
        Ok(_) => String::new(),
        Err(e) => e.to_string(),
    }
}

/// Read an id typed into the user interface; `what` names it in the error
/// (`Invalid <what> ID: <uuid error>`).
pub fn read_ui_id(text: &str, what: &str) -> (r: Result<u128, String>)
    ensures
        r is Ok <==> uuid_parsed(text@) is Some,
        r matches Ok(id) ==> uuid_parsed(text@) == Some(id),
        r matches Err(e) ==> e@ == "Invalid "@ + what@ + " ID: "@ + uuid_error_text(text@),
{
    match uuid_parse(text) {
        Some(id) => Ok(id),
        None => {
            let detail = uuid_parse_error(text);
            let mut e = concat3("Invalid ", what, " ID: ");
            e.append(detail.as_str());
            Err(e)
        },
    }
}

/// A message from `sender` to the peer whose id was typed as `peer_id`,
/// with that peer's id; refused when the id does not parse.
pub fn peer_message(sender: u128, peer_id: &str, payload: Payload) -> (r: Result<(u128, Message), String>)
    ensures
        r is Ok <==> uuid_parsed(peer_id@) is Some,
        r matches Ok((p, m)) ==> uuid_parsed(peer_id@) == Some(p) && m.sender == sender && m.payload
            == payload,
        r matches Err(e) ==> e@ == "Invalid peer ID: "@ + uuid_error_text(peer_id@),
{
    proof {
        reveal_strlit("Invalid ");
        reveal_strlit("peer");
        reveal_strlit(" ID: ");
        reveal_strlit("Invalid peer ID: ");
        assert("Invalid "@ + "peer"@ + " ID: "@ =~= "Invalid peer ID: "@);
    }
    let peer = read_ui_id(peer_id, "peer")?;
    Ok((peer, Message::new(sender, payload)))
}

/// The mouse event a user sends to a peer: its button and action read from
/// their names.
pub fn mouse_event_message(
    sender: u128,
    peer_id: &str,
    session_id: u128,
    x_bits: u64,
    y_bits: u64,
    button: &str,
    action: &str,
) -> (r: Result<(u128, Message), String>)
    ensures
        r is Ok <==> uuid_parsed(peer_id@) is Some,
        r matches Ok((p, m)) ==> uuid_parsed(peer_id@) == Some(p) && m.sender == sender && m.payload
            == (Payload::MouseEvent {
            session_id,
            event: MouseEventData {
                x_bits,
                y_bits,
                button: mouse_button_named(button@),
                action: mouse_action_named(action@),
            },
        }),
        r matches Err(e) ==> e@ == "Invalid peer ID: "@ + uuid_error_text(peer_id@),
{
    let event = MouseEventData {
        x_bits,
        y_bits,
        button: parse_mouse_button(button),
        action: parse_mouse_action(action),
    };
    peer_message(sender, peer_id, Payload::MouseEvent { session_id, event })
}

/// The keyboard event a user sends to a peer: its action and modifiers
/// read from their names (unknown modifiers dropped).
pub fn keyboard_event_message(
    sender: u128,
    peer_id: &str,
    session_id: u128,
    key: String,
    action: &str,
    modifiers: &Vec<String>,
) -> (r: Result<(u128, Message), String>)
    ensures
        r is Ok <==> uuid_parsed(peer_id@) is Some,
        r matches Ok((p, m)) ==> {
            &&& uuid_parsed(peer_id@) == Some(p)
            &&& m.sender == sender
            &&& m.payload matches Payload::KeyboardEvent { session_id: s, event }
            &&& s == session_id
            &&& event.key == key
            &&& event.action == key_action_named(action@)
            &&& event.modifiers@ == modifiers_named(modifiers@)
        },
        r matches Err(e) ==> e@ == "Invalid peer ID: "@ + uuid_error_text(peer_id@),
{
    let event = KeyboardEventData {
        key,
        action: parse_key_action(action),
        modifiers: parse_key_modifiers(modifiers),
    };
    peer_message(sender, peer_id, Payload::KeyboardEvent { session_id, event })
}

/// The media command a user sends to a peer: refused first when the peer
/// id does not parse, then with `Unknown media action` for an unknown
/// action name.
pub fn media_control_message(sender: u128, peer_id: &str, action: &str) -> (r: Result<
    (u128, Message),
    String,
>)
    ensures
        r is Ok <==> uuid_parsed(peer_id@) is Some && media_action_named(action@) is Some,
        r matches Ok((p, m)) ==> uuid_parsed(peer_id@) == Some(p) && m.sender == sender && m.payload
            == (Payload::MediaControl { action: media_action_named(action@)->Some_0 }),
        r matches Err(e) ==> e@ == (if uuid_parsed(peer_id@) is None {
            "Invalid peer ID: "@ + uuid_error_text(peer_id@)
        } else {
            "Unknown media action"@
        }),
{
    proof {
        reveal_strlit("Invalid ");
        reveal_strlit("peer");
        reveal_strlit(" ID: ");
        reveal_strlit("Invalid peer ID: ");
        assert("Invalid "@ + "peer"@ + " ID: "@ =~= "Invalid peer ID: "@);
    }
    read_ui_id(peer_id, "peer")?;
    let a = parse_media_action(action)?;
    peer_message(sender, peer_id, Payload::MediaControl { action: a })
}

} // verus!
