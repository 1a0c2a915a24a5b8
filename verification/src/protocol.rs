//! Wire protocol.
//!
//! Every message exchanged between peers is a [`Message`]: a unique id, the
//! sender's id, a UTC timestamp and a typed [`Payload`].  On the wire a
//! message body (its MessagePack encoding) travels in a frame: a 4-byte
//! big-endian length prefix followed by the body.

use vstd::prelude::*;
use vstd::arithmetic::power2::pow2;
use crate::device::DeviceInfo;
use crate::error::StarkLinkError;
use crate::ids::{new_uuid, now_utc, Timestamp};
use crate::text::{decimal, decimal_of, own};

verus! {

/// Content types that can be carried on the clipboard.
#[derive(Debug, Clone, Copy, PartialEq, Eq, Structural)]
pub enum ClipboardContentType {
    Text,
    Image,
    Url,
    FilePath,
}

/// Mouse buttons.
#[derive(Debug, Clone, Copy, PartialEq, Eq, Structural)]
pub enum MouseButton {
    Left,
    Right,
    Middle,
    /// No button (a plain move or scroll).
    NoButton,
}

/// Mouse actions.
#[derive(Debug, Clone, Copy, PartialEq, Eq, Structural)]
pub enum MouseAction {
    Move,
    Down,
    Up,
    Click,
    DoubleClick,
    Scroll,
}

/// Data describing a mouse event.  The coordinates are carried as the
/// IEEE-754 bit patterns of their `f64` values.
#[derive(Debug, Clone, Copy, PartialEq, Eq, Structural)]
pub struct MouseEventData {
    pub x_bits: u64,
    pub y_bits: u64,
    pub button: MouseButton,
    pub action: MouseAction,
}

/// Key actions.
#[derive(Debug, Clone, Copy, PartialEq, Eq, Structural)]
pub enum KeyAction {
    Down,
    Up,
}

/// Keyboard modifiers.
#[derive(Debug, Clone, Copy, PartialEq, Eq, Structural)]
pub enum KeyModifier {
    Ctrl,
    Alt,
    Shift,
    Meta,
}

/// Data describing a keyboard event.
#[derive(Debug, Clone)]
pub struct KeyboardEventData {
    pub key: String,
    pub action: KeyAction,
    pub modifiers: Vec<KeyModifier>,
}

/// Media playback commands.
#[derive(Debug, Clone, Copy, PartialEq, Eq, Structural)]
pub enum MediaAction {
    Play,
    Pause,
    Next,
    Previous,
    VolumeUp,
    VolumeDown,
    Mute,
}

/// Snapshot of system information.  The CPU usage is carried as the
/// IEEE-754 bit pattern of its `f32` value.
#[derive(Debug, Clone, Copy, PartialEq, Eq, Structural)]
pub struct SystemInfoData {
    pub cpu_usage_bits: Option<u32>,
    pub memory_total: Option<u64>,
    pub memory_used: Option<u64>,
    pub disk_total: Option<u64>,
    pub disk_used: Option<u64>,
    pub battery_level: Option<u8>,
    pub uptime_secs: Option<u64>,
}

/// Every distinct message type the protocol supports.
#[derive(Debug, Clone)]
pub enum Payload {
    /// Initial handshake: the sender announces itself.
    Hello { device_info: DeviceInfo, public_key: Vec<u8> },
    /// Request to pair with the receiving device.
    PairRequest { device_info: DeviceInfo },
    /// The peer accepted the pairing.
    PairAccept { device_info: DeviceInfo },
    /// The peer rejected the pairing.
    PairReject { reason: String },
    /// Synchronize clipboard content.
    ClipboardSync { content_type: ClipboardContentType, data: Vec<u8> },
    /// Announce a new file transfer.
    FileTransferStart {
        transfer_id: u128,
        file_name: String,
        file_size: u64,
        total_chunks: u32,
        file_checksum: String,
    },
    /// A single chunk of file data.
    FileTransferChunk {
        transfer_id: u128,
        chunk_index: u32,
        data: Vec<u8>,
        checksum: String,
        compressed: bool,
    },
    /// The transfer completed successfully.
    FileTransferComplete { transfer_id: u128 },
    /// Cancel an in-progress transfer.
    FileTransferCancel { transfer_id: u128, reason: String },
    /// Pause an in-progress transfer.
    FileTransferPause { transfer_id: u128 },
    /// Resume a paused transfer.
    FileTransferResume { transfer_id: u128 },
    /// Begin a screen-sharing session.
    ScreenShareStart { session_id: u128 },
    /// End a screen-sharing session.
    ScreenShareStop { session_id: u128 },
    /// A mouse event from the controlling device.
    MouseEvent { session_id: u128, event: MouseEventData },
    /// A keyboard event from the controlling device.
    KeyboardEvent { session_id: u128, event: KeyboardEventData },
    /// Request remote-control permission.
    ControlRequest { session_id: u128 },
    /// Revoke previously granted remote-control permission.
    ControlRevoke { session_id: u128 },
    /// Control media playback on the remote device.
    MediaControl { action: MediaAction },
    /// Request or deliver system information.
    SystemInfo { info: SystemInfoData },
    /// Lock the remote device.
    RemoteLock,
    /// Launch an application on the remote device.
    AppLaunch { app_id: String, args: Vec<String> },
    /// Execute a shell command on the remote device.
    CommandExecute { command: String, timeout_secs: u32 },
    /// Response to a previously sent `CommandExecute`.
    CommandResponse { exit_code: i32, stdout: String, stderr: String },
    /// Mirror a notification to the peer.
    NotificationSync {
        notification_id: String,
        app_name: String,
        title: String,
        body: String,
        icon: Option<Vec<u8>>,
    },
    /// Act on a mirrored notification (dismiss, reply, etc.).
    NotificationAction { notification_id: String, action: String, reply: Option<String> },
    /// Heartbeat ping.
    Ping,
    /// Heartbeat pong.
    Pong,
    /// An error occurred on the peer.
    Error { code: u32, message: String },
}

/// A protocol message.
#[derive(Debug, Clone)]
pub struct Message {
    /// Unique message identifier.
    pub id: u128,
    /// UUID of the sending device.
    pub sender: u128,
    /// When the message was created (UTC).
    pub timestamp: Timestamp,
    /// The actual message content.
    pub payload: Payload,
}

/// The 4-byte big-endian encoding of a value below 2^32.
pub open spec fn be32(n: nat) -> Seq<u8> {
    seq![
        ((n / 16777216) % 256) as u8,
        ((n / 65536) % 256) as u8,
        ((n / 256) % 256) as u8,
        (n % 256) as u8,
    ]
}

/// The value of a 4-byte big-endian prefix.
pub open spec fn be32_value(d: Seq<u8>) -> nat {
    (d[0] as nat) * 16777216 + (d[1] as nat) * 65536 + (d[2] as nat) * 256 + (d[3] as nat)
}

/// The frame of a body: its length, taken modulo 2^32, as a 4-byte
/// big-endian prefix, then the body.
pub open spec fn frame_of(body: Seq<u8>) -> Seq<u8> {
    be32(body.len() % 4294967296) + body
}

/// What the front of a byte stream holds: the body of its first frame and
/// the number of bytes that frame takes, or nothing while the stream is
/// shorter than the prefix or than the length the prefix declares.
pub open spec fn first_frame(data: Seq<u8>) -> Option<(Seq<u8>, nat)> {
    if data.len() < 4 {
        None
    } else if data.len() < 4 + be32_value(data) {
        None
    } else {
        Some((data.subrange(4, 4 + be32_value(data) as int), (4 + be32_value(data)) as nat))
    }
}

impl Message {
    /// Build a new message with the given sender and payload; a fresh
    /// version-4 UUID and the current UTC time are generated.
    pub fn new(sender: u128, payload: Payload) -> (r: Self)
        ensures
            r.sender == sender,
            r.payload == payload,
            ((r.id as int) / (pow2(76) as int)) % 16 == 4,
            r.timestamp.nanos < 2_000_000_000,
    {
        Message { id: new_uuid(), sender, timestamp: now_utc(), payload }
    }

    /// Frame a message body: 4-byte big-endian length prefix followed by the
    /// body.  As with `as u32`, a body of 4 GiB or more has its length
    /// truncated to the low 32 bits.
    pub fn to_framed(body: &[u8]) -> (r: Vec<u8>)
        ensures
            r@ == frame_of(body@),
    {
        let n: u64 = (body.len() as u64) % 4294967296;
        let mut frame: Vec<u8> = Vec::new();
        frame.push(((n / 16777216) % 256) as u8);
        frame.push(((n / 65536) % 256) as u8);
        frame.push(((n / 256) % 256) as u8);
        frame.push((n % 256) as u8);
        frame.extend_from_slice(body);
        assert(frame@ =~= frame_of(body@));
        frame
    }

    /// Read the first frame of a byte stream: its body and the number of
    /// bytes it takes.  Fails with a `Protocol` error while the stream is too
    /// short for the prefix or for the declared length.
    pub fn from_framed(data: &[u8]) -> (r: Result<(Vec<u8>, usize), StarkLinkError>)
        ensures
            r matches Ok((body, n)) ==> first_frame(data@) == Some((body@, n as nat)),
            r is Err ==> first_frame(data@) is None,
            r matches Err(e) ==> e matches StarkLinkError::Protocol(m) && m@ == (if data@.len() < 4 {
                "frame too short for length prefix"@
            } else {
                "incomplete frame: need "@ + decimal_of(4 + be32_value(data@)) + " bytes, have "@
                    + decimal_of(data@.len())
            }),
    {
        if data.len() < 4 {
            return Err(StarkLinkError::Protocol(own("frame too short for length prefix")));
        }
        let len: u64 = (data[0] as u64) * 16777216 + (data[1] as u64) * 65536 + (data[2] as u64)
            * 256 + (data[3] as u64);
        let total: u64 = 4 + len;
        if (data.len() as u64) < total {
            let mut m = own("incomplete frame: need ");
            m.append(decimal(total).as_str());
            m.append(" bytes, have ");
            m.append(decimal(data.len() as u64).as_str());
            return Err(StarkLinkError::Protocol(m));
        }
        let t = total as usize;
        let mut body: Vec<u8> = Vec::new();
        body.extend_from_slice(&data[4..t]);
        Ok((body, t))
    }
}

/// The frame's prefix is the body's length in big-endian order: the first
/// byte is the most significant, for every body shorter than 4 GiB; the
/// body follows the prefix unchanged.
pub proof fn lemma_frame_prefix_is_big_endian(body: Seq<u8>)
    requires
        body.len() < 4294967296,
    ensures
        frame_of(body).len() == 4 + body.len(),
        (frame_of(body)[0] as int) * 16777216 + (frame_of(body)[1] as int) * 65536 + (
        frame_of(body)[2] as int) * 256 + (frame_of(body)[3] as int) == body.len(),
        frame_of(body).subrange(4, 4 + body.len() as int) == body,
{
    let f = frame_of(body);
    let n = body.len();
    assert((f[0] as int) * 16777216 + (f[1] as int) * 65536 + (f[2] as int) * 256 + (f[3] as int)
        == n) by (nonlinear_arith)
        requires
            f[0] as int == (n / 16777216) % 256,
            f[1] as int == (n / 65536) % 256,
            f[2] as int == (n / 256) % 256,
            f[3] as int == n % 256,
            n < 4294967296,
    ;
    assert(f.subrange(4, 4 + n as int) =~= body);
}

/// A stream's first frame is read with the length prefix in big-endian
/// order: nothing while the stream is shorter than the prefix or than the
/// declared length, else the declared number of bytes after the prefix.
pub proof fn lemma_first_frame_reads_big_endian(data: Seq<u8>)
    ensures
        data.len() < 4 ==> first_frame(data) is None,
        data.len() >= 4 ==> {
            let n = (data[0] as int) * 16777216 + (data[1] as int) * 65536 + (data[2] as int) * 256
                + (data[3] as int);
            &&& be32_value(data) == n
            &&& (first_frame(data) is Some <==> data.len() >= 4 + n)
            &&& data.len() >= 4 + n ==> first_frame(data) == Some(
                (data.subrange(4, 4 + n), (4 + n) as nat),
            )
        },
{
}

/// Framing law: a framed body, followed by anything, reads back as that body
/// and the frame's length, provided the body is shorter than 4 GiB.
pub proof fn lemma_frame_round_trip(body: Seq<u8>, rest: Seq<u8>)
    requires
        body.len() < 4294967296,
    ensures
        first_frame(frame_of(body) + rest) == Some((body, (4 + body.len()) as nat)),
{
    let d = frame_of(body) + rest;
    let n = body.len();
    assert(be32_value(d) == n) by (nonlinear_arith)
        requires
            d[0] as nat == (n / 16777216) % 256,
            d[1] as nat == (n / 65536) % 256,
            d[2] as nat == (n / 256) % 256,
            d[3] as nat == n % 256,
            n < 4294967296,
            be32_value(d) == (d[0] as nat) * 16777216 + (d[1] as nat) * 65536 + (d[2] as nat) * 256
                + (d[3] as nat),
    ;
    assert(d.subrange(4, 4 + n as int) =~= body);
}

} // verus!
