# stark_link_core

The core of a peer-to-peer link between a user's devices on a local network:
device identity, X25519 key agreement and AES-256-GCM encryption, a
MessagePack wire protocol with length-prefixed framing, peer connections and
their handshake and heartbeat, mDNS discovery, chunked file transfers with
SHA-256 checks and LZ4 compression, and a bounded clipboard history.

The library in `src/` is written in Verus: every function carries a contract
that Verus proves.  The state machines (connections, transfers, the outgoing
file stream, discovery) are functions from state and input to the next state
and the action to take; sockets, timers and the mDNS daemon are driven by the
runtime in `app/`, which also holds the serde forms of the wire types and the
configuration file.

Layout:

- `src/text.rs`, `src/ids.rs`: hex and decimal rendering, UUIDs, timestamps.
- `src/crypto.rs`: key pairs, shared keys, fingerprints, `encrypt`/`decrypt`.
- `src/protocol.rs`: messages, payloads and framing.
- `src/device.rs`, `src/config.rs`, `src/error.rs`: device metadata,
  configuration defaults and paths, the error type.
- `src/clipboard.rs`, `src/transfer.rs`, `src/connection.rs`,
  `src/discovery.rs`: the subsystems' state.
- `src/desktop.rs`: reading the desktop interface's inputs and the records it
  shows.
- `tests/`: tests of the library on concrete values.
- `app/`: the asynchronous runtime and the desktop commands.
