//! The single error type of the library.
//!
//! Errors that originate in I/O or in a serialisation format carry the text
//! of the underlying error.

use vstd::prelude::*;
use crate::text::{concat2, decimal, decimal_of, own};

verus! {

/// Every way an operation of the library can fail.
#[derive(Debug, Clone, PartialEq, Eq)]
pub enum StarkLinkError {
    /// Encryption or decryption failed.
    Crypto(String),
    /// Key exchange or derivation failed.
    KeyExchange(String),
    /// Generic network / I/O error.
    Network(String),
    /// WebSocket-level error.
    WebSocket(String),
    /// Connection timed out.
    ConnectionTimeout,
    /// Connection was refused by the remote peer.
    ConnectionRefused(String),
    /// File transfer error.
    Transfer(String),
    /// Checksum mismatch while verifying a chunk or file.
    ChecksumMismatch { expected: String, actual: String },
    /// The maximum number of concurrent transfers has been reached.
    MaxTransfersReached(usize),
    /// A transfer was cancelled.
    TransferCancelled(String),
    /// mDNS discovery error.
    Discovery(String),
    /// Failed to serialize or deserialize a protocol message.
    Protocol(String),
    /// Received an unknown or unexpected message type.
    UnexpectedMessage(String),
    /// Clipboard access error.
    Clipboard(String),
    /// The connection is not in the expected state for this operation.
    InvalidConnectionState { expected: String, actual: String },
    /// The peer is not paired.
    NotPaired(String),
    /// Configuration error (load / save / parse).
    Config(String),
    /// I/O error, with its text.
    Io(String),
    /// JSON error, with its text.
    Json(String),
    /// MessagePack encode error, with its text.
    MsgPackEncode(String),
    /// MessagePack decode error, with its text.
    MsgPackDecode(String),
}

/// The human-readable text of an error.
pub open spec fn error_text(e: StarkLinkError) -> Seq<char> {
    match e {
        StarkLinkError::Crypto(s) => "crypto error: "@ + s@,
        StarkLinkError::KeyExchange(s) => "key exchange error: "@ + s@,
        StarkLinkError::Network(s) => "network error: "@ + s@,
        StarkLinkError::WebSocket(s) => "websocket error: "@ + s@,
        StarkLinkError::ConnectionTimeout => "connection timed out"@,
        StarkLinkError::ConnectionRefused(s) => "connection refused: "@ + s@,
        StarkLinkError::Transfer(s) => "transfer error: "@ + s@,
        StarkLinkError::ChecksumMismatch { expected, actual } => "checksum mismatch: expected "@
            + expected@ + ", got "@ + actual@,
        StarkLinkError::MaxTransfersReached(n) => "max concurrent transfers reached (limit: "@
            + decimal_of(n as nat) + ")"@,
        StarkLinkError::TransferCancelled(s) => "transfer cancelled: "@ + s@,
        StarkLinkError::Discovery(s) => "discovery error: "@ + s@,
        StarkLinkError::Protocol(s) => "protocol error: "@ + s@,
        StarkLinkError::UnexpectedMessage(s) => "unexpected message type: "@ + s@,
        StarkLinkError::Clipboard(s) => "clipboard error: "@ + s@,
        StarkLinkError::InvalidConnectionState { expected, actual } =>
            "invalid connection state: expected "@ + expected@ + ", got "@ + actual@,
        StarkLinkError::NotPaired(s) => "peer not paired: "@ + s@,
        StarkLinkError::Config(s) => "config error: "@ + s@,
        StarkLinkError::Io(s) => "io error: "@ + s@,
        StarkLinkError::Json(s) => "json error: "@ + s@,
        StarkLinkError::MsgPackEncode(s) => "msgpack encode error: "@ + s@,
        StarkLinkError::MsgPackDecode(s) => "msgpack decode error: "@ + s@,
    }
}

fn two_part(head: &str, a: &String, mid: &str, b: &String) -> (r: String)
    ensures
        r@ == head@ + a@ + mid@ + b@,
{
    let mut r = own(head);
    r.append(a.as_str());
    r.append(mid);
    r.append(b.as_str());
    r
}

impl StarkLinkError {
    /// The human-readable text of this error.
    pub fn message(&self) -> (r: String)
        ensures
            r@ == error_text(*self),
    {
        match self {
            StarkLinkError::Crypto(s) => concat2("crypto error: ", s.as_str()),
            StarkLinkError::KeyExchange(s) => concat2("key exchange error: ", s.as_str()),
            StarkLinkError::Network(s) => concat2("network error: ", s.as_str()),
            StarkLinkError::WebSocket(s) => concat2("websocket error: ", s.as_str()),
            StarkLinkError::ConnectionTimeout => own("connection timed out"),
            StarkLinkError::ConnectionRefused(s) => concat2("connection refused: ", s.as_str()),
            StarkLinkError::Transfer(s) => concat2("transfer error: ", s.as_str()),
            StarkLinkError::ChecksumMismatch { expected, actual } => two_part(
                "checksum mismatch: expected ",
                expected,
                ", got ",
                actual,
            ),
            StarkLinkError::MaxTransfersReached(n) => {
                let d = decimal(*n as u64);
                let mut r = own("max concurrent transfers reached (limit: ");
                r.append(d.as_str());
                r.append(")");
                r
            },
            StarkLinkError::TransferCancelled(s) => concat2("transfer cancelled: ", s.as_str()),
            StarkLinkError::Discovery(s) => concat2("discovery error: ", s.as_str()),
            StarkLinkError::Protocol(s) => concat2("protocol error: ", s.as_str()),
            StarkLinkError::UnexpectedMessage(s) => concat2("unexpected message type: ", s.as_str()),
            StarkLinkError::Clipboard(s) => concat2("clipboard error: ", s.as_str()),
            StarkLinkError::InvalidConnectionState { expected, actual } => two_part(
                "invalid connection state: expected ",
                expected,
                ", got ",
                actual,
            ),
            StarkLinkError::NotPaired(s) => concat2("peer not paired: ", s.as_str()),
            StarkLinkError::Config(s) => concat2("config error: ", s.as_str()),
            StarkLinkError::Io(s) => concat2("io error: ", s.as_str()),
            StarkLinkError::Json(s) => concat2("json error: ", s.as_str()),
            StarkLinkError::MsgPackEncode(s) => concat2("msgpack encode error: ", s.as_str()),
            StarkLinkError::MsgPackDecode(s) => concat2("msgpack decode error: ", s.as_str()),
        }
    }
}

} // verus!
