//! Peer connections.
//!
//! Tracks every peer connection and its state machine (connecting,
//! handshake, paired, controlling), and decides what each connection's
//! reader does with what arrives: the `Hello` handshake that re-keys a
//! connection under the peer's real id, ping/pong keep-alive, heartbeats on
//! silence, and clean-up when the connection ends.  Sockets, channels and
//! timers belong to the caller: a connection's outgoing channel is named by
//! a `link` number, and times are milliseconds of a monotonic clock.

use vstd::prelude::*;
use vstd::arithmetic::power2::pow2;
use std::collections::HashMap;
use crate::config::Config;
use crate::device::DeviceInfo;
use crate::error::StarkLinkError;
use crate::ids::{new_uuid, uuid_text, uuid_to_string};
use crate::protocol::{Message, Payload};
use crate::text::{concat3, own};

verus! {

broadcast use vstd::std_specs::hash::group_hash_axioms;

use vstd::std_specs::hash::spec_hash_map_iter;
use vstd::std_specs::iter::IteratorSpec;

/// States a peer connection can be in.
#[derive(Debug, Clone, Copy, PartialEq, Eq, Structural)]
pub enum ConnectionState {
    /// No connection to this peer.
    Disconnected,
    /// TCP / WebSocket handshake in progress.
    Connecting,
    /// Protocol handshake (`Hello` exchange).
    Handshake,
    /// Paired and ready for data exchange.
    Paired,
    /// Remote-control session is active.
    Controlling,
}

/// The display name of a connection state.
pub open spec fn state_text(s: ConnectionState) -> Seq<char> {
    match s {
        ConnectionState::Disconnected => "Disconnected"@,
        ConnectionState::Connecting => "Connecting"@,
        ConnectionState::Handshake => "Handshake"@,
        ConnectionState::Paired => "Paired"@,
        ConnectionState::Controlling => "Controlling"@,
    }
}

impl ConnectionState {
    /// The display name of the state.
    pub fn display_name(&self) -> (r: String)
        ensures
            r@ == state_text(*self),
    {
        match self {
            ConnectionState::Disconnected => own("Disconnected"),
            ConnectionState::Connecting => own("Connecting"),
            ConnectionState::Handshake => own("Handshake"),
            ConnectionState::Paired => own("Paired"),
            ConnectionState::Controlling => own("Controlling"),
        }
    }
}

/// A single peer connection.
#[derive(Debug, Clone)]
pub struct PeerConnection {
    /// The peer's device UUID (a temporary one until its `Hello` arrives).
    pub peer_id: u128,
    /// Current state.
    pub state: ConnectionState,
    /// When anything was last received from the peer (milliseconds).
    pub last_seen_ms: u64,
    /// The outgoing channel of this connection.
    pub link: u64,
    /// The peer's socket address, if known.
    pub address: Option<String>,
}

impl PeerConnection {
    /// A field-by-field copy.
    pub fn duplicate(&self) -> (r: Self)
        ensures
            r == *self,
    {
        PeerConnection {
            peer_id: self.peer_id,
            state: self.state,
            last_seen_ms: self.last_seen_ms,
            link: self.link,
            address: match &self.address {
                Some(a) => Some(a.clone()),
                None => None,
            },
        }
    }
}

/// Events that the connection layer reports.
#[derive(Debug, Clone)]
pub enum ConnectionEvent {
    /// A peer completed the handshake.
    PeerConnected { peer_id: u128 },
    /// A peer disconnected.
    PeerDisconnected { peer_id: u128 },
    /// A protocol message arrived from a peer.
    MessageReceived { peer_id: u128, message: Message },
    /// The connection state changed.
    StateChanged { peer_id: u128, old: ConnectionState, new: ConnectionState },
}

/// What a connection's reader saw next.
#[derive(Debug, Clone)]
pub enum ReaderInput {
    /// A binary frame that decoded to a message.
    Frame(Message),
    /// A binary frame that did not decode; it is skipped.
    Undecodable,
    /// A frame of another kind (text, ping, pong); it is skipped.
    Other,
    /// The peer sent a close frame.
    Close,
    /// Reading failed.
    ReadError,
    /// The stream ended.
    StreamEnd,
    /// Nothing arrived for a heartbeat interval.
    Timeout,
    /// A heartbeat ping could not be queued.
    SendFailed,
}

/// Where a connection's reader stands.
#[derive(Debug, Clone, Copy, PartialEq, Eq, Structural)]
pub struct ReaderState {
    /// The id the connection is tracked under.
    pub current_id: u128,
    /// When the last heartbeat was sent (milliseconds).
    pub last_heartbeat_ms: u64,
}

/// What the caller does after a reader step.
#[derive(Debug, Clone)]
pub struct ReaderOutput {
    /// Messages to queue, each on a link.
    pub sends: Vec<(u64, Message)>,
    /// Events to report, in order.
    pub events: Vec<ConnectionEvent>,
    /// Whether the reader is done.
    pub stop: bool,
}

/// Whether a peer takes part in broadcasts.
pub open spec fn is_paired_state(s: ConnectionState) -> bool {
    s == ConnectionState::Paired || s == ConnectionState::Controlling
}

/// The table with a tracked peer's last-seen time set.
pub open spec fn touched(m: Map<u128, PeerConnection>, id: u128, now: u64) -> Map<u128, PeerConnection> {
    if m.contains_key(id) {
        m.insert(id, PeerConnection { last_seen_ms: now, ..m[id] })
    } else {
        m
    }
}

/// The table after a `Hello` announcing `announced` arrived on the connection
/// tracked as `cur`: the connection is paired, seen now, and filed under
/// `announced` (replacing whatever was filed there).
pub open spec fn after_hello(m: Map<u128, PeerConnection>, cur: u128, announced: u128, now: u64) -> Map<
    u128,
    PeerConnection,
> {
    if !m.contains_key(cur) {
        m
    } else if announced != cur {
        m.remove(cur).insert(
            announced,
            PeerConnection { peer_id: announced, state: ConnectionState::Paired, last_seen_ms: now, ..m[cur] },
        )
    } else {
        m.insert(cur, PeerConnection { state: ConnectionState::Paired, last_seen_ms: now, ..m[cur] })
    }
}

/// Whether the heartbeat interval has passed since the last heartbeat
/// (a clock that went back counts as no time passed).
pub open spec fn heartbeat_due(last: u64, now: u64, interval_secs: u64) -> bool {
    now >= last && (now - last) >= (interval_secs as int) * 1000
}

/// Whether a reader input ends the connection.
pub open spec fn ends_connection(input: ReaderInput) -> bool {
    match input {
        ReaderInput::Close | ReaderInput::ReadError | ReaderInput::StreamEnd
        | ReaderInput::SendFailed => true,
        _ => false,
    }
}

/// The id a connection is tracked under after a frame: the announced id for
/// a `Hello`, else the same.
pub open spec fn id_after(cur: u128, input: ReaderInput) -> u128 {
    match input {
        ReaderInput::Frame(msg) => match msg.payload {
            Payload::Hello { device_info, .. } => device_info.id,
            _ => cur,
        },
        _ => cur,
    }
}

/// The connection table after a reader input: a frame re-keys and pairs
/// on `Hello` and marks the connection seen; the end of the connection
/// removes it; anything else leaves the table.
pub open spec fn table_after(m: Map<u128, PeerConnection>, cur: u128, input: ReaderInput, now: u64) -> Map<
    u128,
    PeerConnection,
> {
    match input {
        ReaderInput::Frame(msg) => match msg.payload {
            Payload::Hello { device_info, .. } => touched(
                after_hello(m, cur, device_info.id, now),
                device_info.id,
                now,
            ),
            _ => touched(m, cur, now),
        },
        _ => if ends_connection(input) {
            m.remove(cur)
        } else {
            m
        },
    }
}

/// Whether every connection is filed under its own peer id.
pub open spec fn keyed_by_peer_id(m: Map<u128, PeerConnection>) -> bool {
    forall|k: u128| #[trigger] m.contains_key(k) ==> m[k].peer_id == k
}

/// The state a connection had, or `Disconnected` when it is not tracked.
pub open spec fn state_before(m: Map<u128, PeerConnection>, id: u128) -> ConnectionState {
    if m.contains_key(id) {
        m[id].state
    } else {
        ConnectionState::Disconnected
    }
}

/// All peer connections.
pub struct ConnectionManager {
    peers: HashMap<u128, PeerConnection>,
    local_device: DeviceInfo,
    config: Config,
}

impl ConnectionManager {
    #[verifier::type_invariant]
    spec fn keyed_by_peer(self) -> bool {
        keyed_by_peer_id(self.peers@)
    }

    /// The tracked connections, by peer id.
    pub closed spec fn table(self) -> Map<u128, PeerConnection> {
        self.peers@
    }

    /// The local device.
    pub closed spec fn local(self) -> DeviceInfo {
        self.local_device
    }

    /// The configuration.
    pub closed spec fn settings(self) -> Config {
        self.config
    }

    /// A manager with no connection.
    pub fn new(local_device: DeviceInfo, config: Config) -> (r: Self)
        ensures
            keyed_by_peer_id(r.table()),
            r.table() == Map::<u128, PeerConnection>::empty(),
            r.local() == local_device,
            r.settings() == config,
    {
        ConnectionManager { peers: HashMap::new(), local_device, config }
    }

    fn put(&mut self, p: PeerConnection)
        ensures
            keyed_by_peer_id(final(self).table()),
            final(self).table() == old(self).table().insert(p.peer_id, p),
            final(self).local() == old(self).local(),
            final(self).settings() == old(self).settings(),
    {
        proof {
            use_type_invariant(&*self);
        }
        let mut m = HashMap::new();
        std::mem::swap(&mut m, &mut self.peers);
        let id = p.peer_id;
        m.insert(id, p);
        self.peers = m;
    }

    fn take(&mut self, id: u128) -> (r: Option<PeerConnection>)
        ensures
            keyed_by_peer_id(final(self).table()),
            final(self).table() == old(self).table().remove(id),
            r == (if old(self).table().contains_key(id) {
                Some(old(self).table()[id])
            } else {
                None
            }),
            r matches Some(p) ==> p.peer_id == id,
            final(self).local() == old(self).local(),
            final(self).settings() == old(self).settings(),
    {
        proof {
            use_type_invariant(&*self);
        }
        let mut m = HashMap::new();
        std::mem::swap(&mut m, &mut self.peers);
        let r = m.remove(&id);
        self.peers = m;
        r
    }

    /// The ids of the tracked connections, each once.
    pub fn connected_peers(&self) -> (r: Vec<u128>)
        ensures
            keyed_by_peer_id(self.table()),
            r@.to_set() == self.table().dom(),
            r@.no_duplicates(),
    {
        proof {
            use_type_invariant(self);
        }
        let ghost m = self.peers@;
        let ghost s = spec_hash_map_iter(&self.peers).remaining();
        let mut out: Vec<u128> = Vec::new();
        for (k, v) in it: self.peers.iter()
            invariant
                m == self.peers@,
                s == spec_hash_map_iter(&self.peers).remaining(),
                it.seq() == s,
                s.no_duplicates(),
                out@.len() == it.index(),
                forall|j: int| 0 <= j < it.index() ==> #[trigger] out@[j] == *s[j].0,
        {
            out.push(*k);
        }
        proof {
            assert forall|id: u128| out@.to_set().contains(id) == m.dom().contains(id) by {
                if m.dom().contains(id) {
                    assert(s.contains((&id, &m[id])));
                    let i = choose|i: int| 0 <= i < s.len() && s[i] == (&id, &m[id]);
                    assert(out@[i] == id);
                }
                if out@.to_set().contains(id) {
                    let i = choose|i: int| 0 <= i < out@.len() && out@[i] == id;
                    assert(m.contains_key(*s[i].0));
                }
            }
            assert(out@.to_set() =~= m.dom());
            assert forall|i: int, j: int| 0 <= i < out@.len() && 0 <= j < out@.len() && i != j implies out@[i]
                != out@[j] by {
                assert(m.contains_key(*s[i].0) && m[*s[i].0] == *s[i].1);
                assert(m.contains_key(*s[j].0) && m[*s[j].0] == *s[j].1);
                if out@[i] == out@[j] {
                    assert(s[i] == s[j]);
                }
            }
        }
        out
    }

    /// A copy of every tracked connection.
    pub fn connected_peers_info(&self) -> (r: Vec<PeerConnection>)
        ensures
            keyed_by_peer_id(self.table()),
            r@.len() == self.table().dom().len(),
            forall|i: int|
                0 <= i < r@.len() ==> self.table().contains_key(#[trigger] r@[i].peer_id) && r@[i]
                    == self.table()[r@[i].peer_id],
            forall|id: u128|
                #[trigger] self.table().contains_key(id) ==> exists|i: int|
                    0 <= i < r@.len() && r@[i].peer_id == id,
    {
        proof {
            use_type_invariant(self);
        }
        let ghost m = self.peers@;
        let ghost s = spec_hash_map_iter(&self.peers).remaining();
        let mut out: Vec<PeerConnection> = Vec::new();
        for (k, v) in it: self.peers.iter()
            invariant
                m == self.peers@,
                forall|key: u128| #[trigger] m.contains_key(key) ==> m[key].peer_id == key,
                s == spec_hash_map_iter(&self.peers).remaining(),
                it.seq() == s,
                s.len() == m.dom().len(),
                out@.len() == it.index(),
                forall|j: int| 0 <= j < it.index() ==> #[trigger] out@[j] == *s[j].1,
        {
            proof {
                assert(m.contains_key(*k) && m[*k] == *v);
            }
            out.push(v.duplicate());
        }
        proof {
            assert forall|i: int| 0 <= i < out@.len() implies self.table().contains_key(
                #[trigger] out@[i].peer_id,
            ) && out@[i] == self.table()[out@[i].peer_id] by {
                assert(m.contains_key(*s[i].0) && m[*s[i].0] == *s[i].1);
            }
            assert forall|id: u128| #[trigger] self.table().contains_key(id) implies exists|i: int|
                0 <= i < out@.len() && out@[i].peer_id == id by {
                assert(s.contains((&id, &m[id])));
                let i = choose|i: int| 0 <= i < s.len() && s[i] == (&id, &m[id]);
                assert(out@[i].peer_id == id);
            }
        }
        out
    }

    /// The state of a connection, if it is tracked.
    pub fn peer_state(&self, peer_id: u128) -> (r: Option<ConnectionState>)
        ensures
            keyed_by_peer_id(self.table()),
            r == (if self.table().contains_key(peer_id) {
                Some(self.table()[peer_id].state)
            } else {
                None
            }),
    {
        proof {
            use_type_invariant(self);
        }
        match self.peers.get(&peer_id) {
            Some(p) => Some(p.state),
            None => None,
        }
    }

    /// Route a message to a peer: the link to queue it on, with the message.
    /// Refused with a `Network` error when the peer is not tracked.
    pub fn send(&self, peer_id: u128, msg: Message) -> (r: Result<(u64, Message), StarkLinkError>)
        ensures
            keyed_by_peer_id(self.table()),
            self.table().contains_key(peer_id) ==> r == Ok::<(u64, Message), StarkLinkError>(
                (self.table()[peer_id].link, msg),
            ),
            !self.table().contains_key(peer_id) ==> (r matches Err(StarkLinkError::Network(m)) && m@
                == "peer "@ + uuid_text(peer_id) + " not connected"@),
    {
        proof {
            use_type_invariant(self);
        }
        match self.peers.get(&peer_id) {
            Some(p) => Ok((p.link, msg)),
            None => {
                let id = uuid_to_string(peer_id);
                Err(StarkLinkError::Network(concat3("peer ", id.as_str(), " not connected")))
            },
        }
    }

    /// The connections a broadcast goes to: those paired or controlling,
    /// each as its peer id and link.
    pub fn broadcast_targets(&self) -> (r: Vec<(u128, u64)>)
        ensures
            keyed_by_peer_id(self.table()),
            forall|i: int|
                0 <= i < r@.len() ==> self.table().contains_key(#[trigger] r@[i].0)
                    && is_paired_state(self.table()[r@[i].0].state) && r@[i].1
                    == self.table()[r@[i].0].link,
            forall|i: int|
                0 <= i < r@.len() ==> (self.table()[#[trigger] r@[i].0].state == ConnectionState::Paired
                    || self.table()[r@[i].0].state == ConnectionState::Controlling),
            forall|id: u128|
                #[trigger] self.table().contains_key(id) && (self.table()[id].state
                    == ConnectionState::Paired || self.table()[id].state
                    == ConnectionState::Controlling) ==> exists|i: int|
                    0 <= i < r@.len() && r@[i].0 == id,
            forall|id: u128|
                #[trigger] self.table().contains_key(id) && is_paired_state(self.table()[id].state)
                    ==> exists|i: int| 0 <= i < r@.len() && r@[i].0 == id,
            forall|i: int, j: int| 0 <= i < j < r@.len() ==> r@[i].0 != r@[j].0,
    {
        proof {
            use_type_invariant(self);
        }
        let ghost m = self.peers@;
        let ghost s = spec_hash_map_iter(&self.peers).remaining();
        let mut out: Vec<(u128, u64)> = Vec::new();
        let ghost mut pos: Seq<int> = Seq::empty();
        for (k, v) in it: self.peers.iter()
            invariant
                m == self.peers@,
                s == spec_hash_map_iter(&self.peers).remaining(),
                it.seq() == s,
                s.no_duplicates(),
                forall|i: int|
                    0 <= i < out@.len() ==> m.contains_key(#[trigger] out@[i].0) && is_paired_state(
                        m[out@[i].0].state,
                    ) && out@[i].1 == m[out@[i].0].link,
                pos.len() == out@.len(),
                forall|i: int|
                    0 <= i < out@.len() ==> 0 <= #[trigger] pos[i] < it.index() && out@[i].0
                        == *s[pos[i]].0,
                forall|j: int|
                    0 <= j < it.index() && is_paired_state(#[trigger] s[j].1.state) ==> pos.contains(j),
                forall|i: int, j: int| 0 <= i < j < out@.len() ==> out@[i].0 != out@[j].0,
        {
            let ghost idx = it.index();
            proof {
                assert(m.contains_key(*k) && m[*k] == *v);
                assert(s[idx] == (k, v));
            }
            if v.state == ConnectionState::Paired || v.state == ConnectionState::Controlling {
                proof {
                    assert forall|i: int| 0 <= i < out@.len() implies out@[i].0 != *k by {
                        let j = pos[i];
                        assert(m[*s[j].0] == *s[j].1);
                        if out@[i].0 == *k {
                            assert(s[j] == s[idx]);
                        }
                    }
                }
                out.push((*k, v.link));
                proof {
                    let old_pos = pos;
                    pos = pos.push(idx);
                    assert(pos[pos.len() - 1] == idx);
                    assert forall|j: int| old_pos.contains(j) implies pos.contains(j) by {
                        let i = choose|i: int| 0 <= i < old_pos.len() && old_pos[i] == j;
                        assert(pos[i] == j);
                    }
                }
            }
        }
        proof {
            assert forall|id: u128|
                #[trigger] m.contains_key(id) && is_paired_state(m[id].state) implies exists|i: int|
                0 <= i < out@.len() && out@[i].0 == id by {
                assert(s.contains((&id, &m[id])));
                let j = choose|j: int| 0 <= j < s.len() && s[j] == (&id, &m[id]);
                assert(*s[j].0 == id);
                assert(is_paired_state(s[j].1.state));
                assert(pos.contains(j));
                let i = choose|i: int| 0 <= i < pos.len() && pos[i] == j;
                assert(out@[i].0 == id);
            }
        }
        out
    }

    /// The `Hello` this device announces itself with.
    fn hello(&self) -> (r: Message)
        ensures
            r.sender == self.local().id,
            r.payload matches Payload::Hello { device_info, public_key } && device_info
                == self.local() && public_key@.len() == 0,
    {
        Message::new(
            self.local_device.id,
            Payload::Hello { device_info: self.local_device.duplicate(), public_key: Vec::new() },
        )
    }

    fn open_link(&mut self, link: u64, address: Option<String>, now_ms: u64, state: ConnectionState) -> (r: (
        u128,
        Message,
    ))
        ensures
            ((r.0 as int) / (pow2(76) as int)) % 16 == 4,
            keyed_by_peer_id(final(self).table()),
            final(self).table() == old(self).table().insert(
                r.0,
                PeerConnection { peer_id: r.0, state, last_seen_ms: now_ms, link, address },
            ),
            final(self).local() == old(self).local(),
            final(self).settings() == old(self).settings(),
            r.1.sender == old(self).local().id,
            r.1.payload matches Payload::Hello { device_info, public_key } && device_info
                == old(self).local() && public_key@.len() == 0,
    {
        proof {
            use_type_invariant(&*self);
        }
        let hello = self.hello();
        let temp_id = new_uuid();
        self.put(PeerConnection { peer_id: temp_id, state, last_seen_ms: now_ms, link, address });
        (temp_id, hello)
    }

    /// Track a connection this device opened: under a fresh temporary id
    /// (until the peer's `Hello` names it), connecting, seen now.  Returns
    /// the temporary id and the `Hello` to queue first on the link.
    pub fn connect(&mut self, link: u64, address: Option<String>, now_ms: u64) -> (r: (u128, Message))
        ensures
            ((r.0 as int) / (pow2(76) as int)) % 16 == 4,
            keyed_by_peer_id(final(self).table()),
            final(self).table() == old(self).table().insert(
                r.0,
                PeerConnection {
                    peer_id: r.0,
                    state: ConnectionState::Connecting,
                    last_seen_ms: now_ms,
                    link,
                    address,
                },
            ),
            final(self).local() == old(self).local(),
            final(self).settings() == old(self).settings(),
            r.1.sender == old(self).local().id,
            r.1.payload matches Payload::Hello { device_info, public_key } && device_info
                == old(self).local() && public_key@.len() == 0,
    {
        proof {
            use_type_invariant(&*self);
        }
        self.open_link(link, address, now_ms, ConnectionState::Connecting)
    }

    /// Track a connection a peer opened: under a fresh temporary id, in
    /// handshake, seen now.  Returns the temporary id and the `Hello` to
    /// queue first on the link.
    pub fn handle_incoming(&mut self, link: u64, address: Option<String>, now_ms: u64) -> (r: (
        u128,
        Message,
    ))
        ensures
            ((r.0 as int) / (pow2(76) as int)) % 16 == 4,
            keyed_by_peer_id(final(self).table()),
            final(self).table() == old(self).table().insert(
                r.0,
                PeerConnection {
                    peer_id: r.0,
                    state: ConnectionState::Handshake,
                    last_seen_ms: now_ms,
                    link,
                    address,
                },
            ),
            final(self).local() == old(self).local(),
            final(self).settings() == old(self).settings(),
            r.1.sender == old(self).local().id,
            r.1.payload matches Payload::Hello { device_info, public_key } && device_info
                == old(self).local() && public_key@.len() == 0,
    {
        proof {
            use_type_invariant(&*self);
        }
        self.open_link(link, address, now_ms, ConnectionState::Handshake)
    }

    /// Stop tracking a connection.  Refused with a `Network` error when it
    /// is not tracked.
    pub fn disconnect(&mut self, peer_id: u128) -> (r: Result<ConnectionEvent, StarkLinkError>)
        ensures
            keyed_by_peer_id(final(self).table()),
            final(self).table() == old(self).table().remove(peer_id),
            final(self).local() == old(self).local(),
            final(self).settings() == old(self).settings(),
            old(self).table().contains_key(peer_id) ==> (r matches Ok(
                ConnectionEvent::PeerDisconnected { peer_id: p },
            ) && p == peer_id),
            !old(self).table().contains_key(peer_id) ==> (r matches Err(StarkLinkError::Network(m))
                && m@ == "peer "@ + uuid_text(peer_id) + " not found"@),
    {
        proof {
            use_type_invariant(&*self);
        }
        match self.take(peer_id) {
            Some(_) => Ok(ConnectionEvent::PeerDisconnected { peer_id }),
            None => {
                let id = uuid_to_string(peer_id);
                Err(StarkLinkError::Network(concat3("peer ", id.as_str(), " not found")))
            },
        }
    }

    /// Decide what a connection's reader does with its next input.
    ///
    /// * A message frame: a `Hello` re-files the connection under the
    ///   announced id as paired (reported as connected, then as changed from
    ///   the state it had, `Disconnected` if it was not tracked, to paired); a
    ///   `Ping` is answered with a `Pong` from this device on the connection's
    ///   link; the connection is marked seen; the
    ///   message is reported as received.
    /// * An undecodable or other frame is skipped.
    /// * On a close frame, a read error, the end of the stream or a failed
    ///   heartbeat the connection is forgotten and reported disconnected, and
    ///   the reader stops.
    /// * On silence, once the heartbeat interval has passed since the last
    ///   heartbeat, a `Ping` from this device is queued on the connection's link and the
    ///   heartbeat time is reset.
    pub fn reader_step(&mut self, st: &mut ReaderState, input: ReaderInput, now_ms: u64) -> (r:
        ReaderOutput)
        ensures
            keyed_by_peer_id(final(self).table()),
            final(self).local() == old(self).local(),
            final(self).settings() == old(self).settings(),
            final(self).table() == table_after(old(self).table(), old(st).current_id, input, now_ms),
            final(st).current_id == id_after(old(st).current_id, input),
            r.stop == ends_connection(input),
            ends_connection(input) ==> r.sends@.len() == 0 && r.events@ == seq![
                ConnectionEvent::PeerDisconnected { peer_id: old(st).current_id },
            ],
            !(input is Timeout) ==> final(st).last_heartbeat_ms == old(st).last_heartbeat_ms,
            (input is Undecodable || input is Other) ==> r.sends@.len() == 0 && r.events@.len() == 0,
            input matches ReaderInput::Frame(msg) ==> {
                let cur = final(st).current_id;
                let hello = msg.payload is Hello;
                let m1 = if hello {
                    after_hello(old(self).table(), old(st).current_id, cur, now_ms)
                } else {
                    old(self).table()
                };
                &&& (if msg.payload is Ping && m1.contains_key(cur) {
                    &&& r.sends@.len() == 1
                    &&& r.sends@[0].0 == m1[cur].link
                    &&& r.sends@[0].1.sender == old(self).local().id
                    &&& r.sends@[0].1.payload is Pong
                } else {
                    r.sends@.len() == 0
                })
                &&& (if hello {
                    r.events@ == seq![
                        ConnectionEvent::PeerConnected { peer_id: cur },
                        ConnectionEvent::StateChanged {
                            peer_id: cur,
                            old: state_before(old(self).table(), old(st).current_id),
                            new: ConnectionState::Paired,
                        },
                        ConnectionEvent::MessageReceived { peer_id: cur, message: msg },
                    ]
                } else {
                    r.events@ == seq![ConnectionEvent::MessageReceived { peer_id: cur, message: msg }]
                })
            },
            input is Timeout ==> r.events@.len() == 0 && if heartbeat_due(
                old(st).last_heartbeat_ms,
                now_ms,
                old(self).settings().heartbeat_interval_secs,
            ) {
                &&& final(st).last_heartbeat_ms == now_ms
                &&& if old(self).table().contains_key(old(st).current_id) {
                    &&& r.sends@.len() == 1
                    &&& r.sends@[0].0 == old(self).table()[old(st).current_id].link
                    &&& r.sends@[0].1.sender == old(self).local().id
                    &&& r.sends@[0].1.payload is Ping
                } else {
                    r.sends@.len() == 0
                }
            } else {
                final(st).last_heartbeat_ms == old(st).last_heartbeat_ms && r.sends@.len() == 0
            },
    {
        proof {
            use_type_invariant(&*self);
        }
        let mut sends: Vec<(u64, Message)> = Vec::new();
        let mut events: Vec<ConnectionEvent> = Vec::new();
        match input {
            ReaderInput::Frame(msg) => {
                let cur = st.current_id;
                let prior = match self.peers.get(&cur) {
                    Some(p) => p.state,
                    None => ConnectionState::Disconnected,
                };
                let is_hello = match &msg.payload {
                    Payload::Hello { device_info, .. } => {
                        let announced = device_info.id;
                        if announced != cur {
                            match self.take(cur) {
                                Some(mut p) => {
                                    p.peer_id = announced;
                                    p.state = ConnectionState::Paired;
                                    p.last_seen_ms = now_ms;
                                    self.put(p);
                                },
                                None => {},
                            }
                            st.current_id = announced;
                        } else {
                            match self.take(cur) {
                                Some(mut p) => {
                                    p.state = ConnectionState::Paired;
                                    p.last_seen_ms = now_ms;
                                    self.put(p);
                                },
                                None => {},
                            }
                        }
                        true
                    },
                    _ => false,
                };
                let cur = st.current_id;
                if is_hello {
                    events.push(ConnectionEvent::PeerConnected { peer_id: cur });
                    events.push(
                        ConnectionEvent::StateChanged {
                            peer_id: cur,
                            old: prior,
                            new: ConnectionState::Paired,
                        },
                    );
                }
                let is_ping = match &msg.payload {
                    Payload::Ping => true,
                    _ => false,
                };
                if is_ping {
                    match self.peers.get(&cur) {
                        Some(p) => {
                            let pong = Message::new(self.local_device.id, Payload::Pong);
                            sends.push((p.link, pong));
                        },
                        None => {},
                    }
                }
                match self.take(cur) {
                    Some(mut p) => {
                        p.last_seen_ms = now_ms;
                        self.put(p);
                    },
                    None => {},
                }
                events.push(ConnectionEvent::MessageReceived { peer_id: cur, message: msg });
                ReaderOutput { sends, events, stop: false }
            },
            ReaderInput::Undecodable | ReaderInput::Other => ReaderOutput { sends, events, stop: false },
            ReaderInput::Timeout => {
                let last = st.last_heartbeat_ms;
                let due = now_ms >= last && ((now_ms - last) as u128) >= (
                self.config.heartbeat_interval_secs as u128) * 1000;
                if due {
                    let cur = st.current_id;
                    match self.peers.get(&cur) {
                        Some(p) => {
                            let ping = Message::new(self.local_device.id, Payload::Ping);
                            sends.push((p.link, ping));
                        },
                        None => {},
                    }
                    st.last_heartbeat_ms = now_ms;
                }
                ReaderOutput { sends, events, stop: false }
            },
            _ => {
                let cur = st.current_id;
                self.take(cur);
                events.push(ConnectionEvent::PeerDisconnected { peer_id: cur });
                ReaderOutput { sends, events, stop: true }
            },
        }
    }

    /// Forget every connection; one `PeerDisconnected` event per connection
    /// that was tracked.
    pub fn shutdown(&mut self) -> (r: Vec<ConnectionEvent>)
        ensures
            keyed_by_peer_id(final(self).table()),
            final(self).table() == Map::<u128, PeerConnection>::empty(),
            final(self).local() == old(self).local(),
            final(self).settings() == old(self).settings(),
            r@.len() == old(self).table().dom().len(),
            forall|i: int|
                0 <= i < r@.len() ==> (#[trigger] r@[i] matches ConnectionEvent::PeerDisconnected {
                    peer_id,
                } && old(self).table().contains_key(peer_id)),
            forall|id: u128|
                #[trigger] old(self).table().contains_key(id) ==> exists|i: int|
                    0 <= i < r@.len() && r@[i] == (ConnectionEvent::PeerDisconnected { peer_id: id }),
    {
        proof {
            use_type_invariant(&*self);
        }
        let ids = self.connected_peers();
        let ghost m = self.peers@;
        proof {
            ids@.unique_seq_to_set();
        }
        let mut events: Vec<ConnectionEvent> = Vec::new();
        let mut i: usize = 0;
        while i < ids.len()
            invariant
                i <= ids@.len(),
                ids@.to_set() == m.dom(),
                events@.len() == i,
                forall|j: int|
                    0 <= j < i ==> #[trigger] events@[j] == (ConnectionEvent::PeerDisconnected {
                        peer_id: ids@[j],
                    }),
            decreases ids@.len() - i,
        {
            events.push(ConnectionEvent::PeerDisconnected { peer_id: ids[i] });
            i = i + 1;
        }
        proof {
            assert forall|j: int| 0 <= j < events@.len() implies (#[trigger] events@[j] matches ConnectionEvent::PeerDisconnected {
                peer_id,
            } && m.contains_key(peer_id)) by {
                assert(ids@.to_set().contains(ids@[j]));
            }
            assert forall|id: u128| #[trigger] m.contains_key(id) implies exists|j: int|
                0 <= j < events@.len() && events@[j] == (ConnectionEvent::PeerDisconnected {
                    peer_id: id,
                }) by {
                assert(ids@.to_set().contains(id));
                let j = choose|j: int| 0 <= j < ids@.len() && ids@[j] == id;
                assert(events@[j] == (ConnectionEvent::PeerDisconnected { peer_id: id }));
            }
        }
        self.peers = HashMap::new();
        events
    }
}

} // verus!

verus! {

/// Handshake law: once a tracked connection receives a `Hello`, it is
/// tracked as paired under the announced id, on the same link, and no
/// longer under its temporary id.
pub proof fn lemma_hello_pairs(m: Map<u128, PeerConnection>, cur: u128, msg: Message, now: u64)
    requires
        m.contains_key(cur),
        m[cur].peer_id == cur,
        msg.payload is Hello,
    ensures
        ({
            let announced = msg.payload->Hello_device_info.id;
            let t = table_after(m, cur, ReaderInput::Frame(msg), now);
            &&& t.contains_key(announced)
            &&& t[announced].state == ConnectionState::Paired
            &&& t[announced].peer_id == announced
            &&& t[announced].link == m[cur].link
            &&& t[announced].last_seen_ms == now
            &&& announced != cur ==> !t.contains_key(cur)
            &&& id_after(cur, ReaderInput::Frame(msg)) == announced
        }),
{
    let announced = msg.payload->Hello_device_info.id;
    let h = after_hello(m, cur, announced, now);
    assert(h.contains_key(announced));
    assert(h[announced].state == ConnectionState::Paired);
    assert(h[announced].peer_id == announced);
    let t = touched(h, announced, now);
    assert(t == table_after(m, cur, ReaderInput::Frame(msg), now));
    assert(t[announced].state == ConnectionState::Paired);
}

/// Broadcast law: a connection takes part in broadcasts exactly when it is
/// paired or under remote control; one that is still connecting, in the
/// handshake or disconnected never does.
pub proof fn lemma_broadcast_only_to_paired(s: ConnectionState)
    ensures
        is_paired_state(s) <==> (s == ConnectionState::Paired || s == ConnectionState::Controlling),
        !is_paired_state(ConnectionState::Handshake),
        !is_paired_state(ConnectionState::Connecting),
        !is_paired_state(ConnectionState::Disconnected),
{
}

/// Heartbeat law: a heartbeat is due once at least the interval (in
/// seconds, counted in milliseconds) has passed since the last one, and
/// not before; a clock that went back makes none due.
pub proof fn lemma_heartbeat_timing(last: u64, now: u64, interval_secs: u64)
    ensures
        now >= last ==> (heartbeat_due(last, now, interval_secs) <==> now - last >= interval_secs
            * 1000),
        now < last ==> !heartbeat_due(last, now, interval_secs),
{
}

/// Seen law: a message that is not a `Hello` only refreshes the tracked
/// connection's last-seen time; every other connection and field stays.
pub proof fn lemma_frame_touches_only_last_seen(
    m: Map<u128, PeerConnection>,
    cur: u128,
    msg: Message,
    now: u64,
)
    requires
        !(msg.payload is Hello),
    ensures
        ({
            let t = table_after(m, cur, ReaderInput::Frame(msg), now);
            &&& t.dom() == m.dom()
            &&& forall|k: u128| #[trigger] m.contains_key(k) && k != cur ==> t[k] == m[k]
            &&& m.contains_key(cur) ==> t[cur] == (PeerConnection { last_seen_ms: now, ..m[cur] })
        }),
{
    let t = table_after(m, cur, ReaderInput::Frame(msg), now);
    assert(t.dom() =~= m.dom());
}

/// A connection that ends is no longer tracked; connections under other
/// ids are untouched.
pub proof fn lemma_end_forgets(m: Map<u128, PeerConnection>, cur: u128, input: ReaderInput, now: u64)
    requires
        ends_connection(input),
    ensures
        !table_after(m, cur, input, now).contains_key(cur),
        forall|k: u128|
            k != cur ==> (#[trigger] table_after(m, cur, input, now).contains_key(k) == m.contains_key(k)),
{
}

} // verus!
