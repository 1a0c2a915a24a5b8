//! File transfer state.
//!
//! Tracks chunked file transfers in both directions: their progress, their
//! state machine (in progress, paused, completed, cancelled, failed), the
//! SHA-256 checksums that guard each chunk, and LZ4 compression of chunks.
//! Reading files, pacing the outgoing stream and delivering messages and
//! events are left to the caller, which drives these functions.

use vstd::prelude::*;
use vstd::arithmetic::power2::pow2;
use std::collections::HashMap;
use crate::config::{join_path, join_spec, Config};
use crate::crypto::{sha256, sha256_of};
use crate::error::StarkLinkError;
use crate::ids::new_uuid;
use crate::protocol::{Message, Payload};
use crate::text::{concat2, decimal, decimal_of, hex_encode, hex_of, is_hex_char, lemma_hex_of_digits, own, str_eq};

verus! {

broadcast use vstd::std_specs::hash::group_hash_axioms;

use vstd::std_specs::hash::spec_hash_map_iter;
use vstd::std_specs::iter::IteratorSpec;

/// Default chunk size (5 MiB).
pub const DEFAULT_CHUNK_SIZE: usize = crate::config::DEFAULT_CHUNK_SIZE;

/// State of a single file transfer.
#[derive(Debug, Clone, Copy, PartialEq, Eq, Structural)]
pub enum TransferState {
    /// Waiting to start.
    Pending,
    /// Actively sending / receiving chunks.
    InProgress,
    /// Paused by either side.
    Paused,
    /// Completed successfully.
    Completed,
    /// Cancelled.
    Cancelled,
    /// Failed with an error.
    Failed,
}

/// Direction of the transfer relative to this device.
#[derive(Debug, Clone, Copy, PartialEq, Eq, Structural)]
pub enum TransferDirection {
    /// We are sending the file.
    Outgoing,
    /// We are receiving the file.
    Incoming,
}

/// Progress of a single file transfer.
#[derive(Debug, Clone)]
pub struct TransferInfo {
    /// Unique transfer identifier.
    pub id: u128,
    /// Name of the file being transferred.
    pub file_name: String,
    /// Total file size in bytes.
    pub file_size: u64,
    /// Total number of chunks.
    pub total_chunks: u32,
    /// Number of chunks transferred so far.
    pub chunks_done: u32,
    /// SHA-256 checksum of the entire file (lowercase hex).
    pub file_checksum: String,
    /// Current state.
    pub state: TransferState,
    /// Direction.
    pub direction: TransferDirection,
    /// Bytes transferred so far.
    pub bytes_transferred: u64,
    /// Peer we are transferring with.
    pub peer_id: u128,
}

impl TransferInfo {
    /// A field-by-field copy.
    pub fn duplicate(&self) -> (r: Self)
        ensures
            r == *self,
    {
        TransferInfo {
            id: self.id,
            file_name: self.file_name.clone(),
            file_size: self.file_size,
            total_chunks: self.total_chunks,
            chunks_done: self.chunks_done,
            file_checksum: self.file_checksum.clone(),
            state: self.state,
            direction: self.direction,
            bytes_transferred: self.bytes_transferred,
            peer_id: self.peer_id,
        }
    }

    /// The completed fraction as `(transferred, total)`, between 0 and 1:
    /// `(1, 1)` for an empty file, else bytes transferred over the file
    /// size, capped at the file size.
    pub fn progress_ratio(&self) -> (r: (u64, u64))
        ensures
            r == (if self.file_size == 0 {
                (1u64, 1u64)
            } else if self.bytes_transferred > self.file_size {
                (self.file_size, self.file_size)
            } else {
                (self.bytes_transferred, self.file_size)
            }),
            r.0 <= r.1,
            r.1 > 0,
    {
        if self.file_size == 0 {
            (1, 1)
        } else if self.bytes_transferred > self.file_size {
            (self.file_size, self.file_size)
        } else {
            (self.bytes_transferred, self.file_size)
        }
    }
}

/// Events of the transfer subsystem.
#[derive(Debug, Clone)]
pub enum TransferEvent {
    /// A new transfer has been initiated.
    Started(TransferInfo),
    /// Transfer progress updated.
    Progress(TransferInfo),
    /// Transfer completed.
    Completed { transfer_id: u128 },
    /// Transfer failed.
    Failed { transfer_id: u128, error: String },
    /// Transfer cancelled.
    Cancelled { transfer_id: u128 },
    /// Transfer paused.
    Paused { transfer_id: u128 },
    /// Transfer resumed.
    Resumed { transfer_id: u128 },
}

/// What the outgoing stream does before its next chunk.
#[derive(Debug, Clone, Copy, PartialEq, Eq, Structural)]
pub enum ChunkGate {
    /// Send the chunk.
    Proceed,
    /// The transfer is paused: wait and ask again.
    Wait,
    /// The transfer was cancelled: stop streaming.
    Stop,
}

/// Where the outgoing stream of a transfer stands.
#[derive(Debug, Clone, Copy, PartialEq, Eq, Structural)]
pub struct OutgoingStream {
    /// The peer the file goes to.
    pub peer_id: u128,
    /// The transfer streamed.
    pub transfer_id: u128,
    /// The size of each chunk.
    pub chunk_size: usize,
    /// Whether chunks are LZ4-compressed.
    pub compression: bool,
    /// The index of the chunk to send next.
    pub next_index: usize,
}

/// What happened to the outgoing stream since its last step.
#[derive(Debug, Clone, Copy, PartialEq, Eq, Structural)]
pub enum StreamEvent {
    /// The stream may go on.
    Ready,
    /// The chunk last handed out was delivered to the connection layer.
    Delivered,
    /// The chunk last handed out could not be delivered.
    DeliveryFailed,
}

/// What the caller of a stream step does next.
#[derive(Debug, Clone)]
pub enum StreamAction {
    /// Deliver this chunk message, then report `Delivered` or
    /// `DeliveryFailed`.
    SendChunk(Message),
    /// Wait a while (the transfer is paused), then report `Ready`.
    Wait,
    /// Report the event, if any, then report `Ready`.
    Progressed(Option<TransferEvent>),
    /// Report the event, if any; the stream is over.
    Stop(Option<TransferEvent>),
    /// Deliver the completion notice and report the event; the stream is
    /// over.
    Finish(Message, TransferEvent),
}

/// The lowercase hex SHA-256 digest of a byte sequence.
pub open spec fn sha256_hex_of(data: Seq<u8>) -> Seq<char> {
    hex_of(sha256_of(data))
}

/// Compute the lowercase hex SHA-256 digest of `data`.
pub fn sha256_hex(data: &[u8]) -> (r: String)
    ensures
        r@ == sha256_hex_of(data@),
        r@.len() == 64,
        forall|i: int| 0 <= i < 64 ==> is_hex_char(#[trigger] r@[i]),
{
    let h = sha256(data);
    proof {
        lemma_hex_of_digits(h@);
    }
    hex_encode(&h)
}

/// The block that `lz4_flex::compress_prepend_size` makes of some bytes.
pub uninterp spec fn lz4_block_of(data: Seq<u8>) -> Seq<u8>;

/// What `lz4_flex::decompress_size_prepended` recovers from a block, or
/// `None` where it reports an error.
pub uninterp spec fn lz4_unblock_of(block: Seq<u8>) -> Option<Seq<u8>>;

/// `lz4_flex::compress_prepend_size`.  The crate documents that its output
/// is meant for `decompress_size_prepended`; the size is prepended as a
/// little-endian `u32`, so for inputs below 4 GiB the block decompresses to
/// the input.
#[verifier::external_body]
pub(crate) fn lz4_compress(data: &[u8]) -> (r: Vec<u8>)
    ensures
        r@ == lz4_block_of(data@),
        data@.len() <= u32::MAX ==> lz4_unblock_of(r@) == Some(data@),
{
    lz4_flex::compress_prepend_size(data)
}

/// `lz4_flex::decompress_size_prepended`, with the error turned into its
/// text.  A block shorter than the 4-byte size prefix is an error.
#[verifier::external_body]
pub(crate) fn lz4_decompress(block: &[u8]) -> (r: Result<Vec<u8>, String>)
    ensures
        r matches Ok(d) ==> lz4_unblock_of(block@) == Some(d@),
        r is Err ==> lz4_unblock_of(block@) is None,
        block@.len() < 4 ==> r is Err,
{
    match lz4_flex::decompress_size_prepended(block) {
        Ok(d) => Ok(d),
        Err(e) => Err(e.to_string()),
    }
}

/// The bytes a received chunk carries: decompressed when it is marked
/// compressed.
pub open spec fn chunk_content(data: Seq<u8>, compressed: bool) -> Option<Seq<u8>> {
    if compressed {
        lz4_unblock_of(data)
    } else {
        Some(data)
    }
}

/// The bytes a received chunk is accepted as: its content, if that content
/// matches the checksum.
pub open spec fn chunk_outcome(data: Seq<u8>, checksum: Seq<char>, compressed: bool) -> Option<
    Seq<u8>,
> {
    match chunk_content(data, compressed) {
        Some(d) => if sha256_hex_of(d) == checksum {
            Some(d)
        } else {
            None
        },
        None => None,
    }
}

/// Check a received chunk: decompress it if it is marked compressed, then
/// compare the SHA-256 of its content with the checksum it came with.
pub fn verify_chunk(data: Vec<u8>, checksum: String, compressed: bool) -> (r: Result<
    Vec<u8>,
    StarkLinkError,
>)
    ensures
        r matches Ok(d) ==> chunk_outcome(data@, checksum@, compressed) == Some(d@),
        r is Err ==> chunk_outcome(data@, checksum@, compressed) is None,
        r matches Err(e) ==> match chunk_content(data@, compressed) {
            None => (e matches StarkLinkError::Transfer(m) && m@.len() >= 22 && m@.subrange(0, 22)
                == "decompression failed: "@),
            Some(d) => (e matches StarkLinkError::ChecksumMismatch { expected, actual } && expected
                == checksum && actual@ == sha256_hex_of(d)),
        },
{
    let decompressed = if compressed {
        match lz4_decompress(data.as_slice()) {
            Ok(d) => d,
            Err(text) => {
                let m = concat2("decompression failed: ", text.as_str());
                proof {
                    reveal_strlit("decompression failed: ");
                }
                return Err(StarkLinkError::Transfer(m));
            },
        }
    } else {
        data
    };
    let actual = sha256_hex(decompressed.as_slice());
    if !str_eq(actual.as_str(), checksum.as_str()) {
        return Err(StarkLinkError::ChecksumMismatch { expected: checksum, actual });
    }
    Ok(decompressed)
}

/// The `index`-th chunk of `data` cut into pieces of `chunk_size` bytes.
pub fn chunk_at(data: &[u8], chunk_size: usize, index: usize) -> (r: &[u8])
    requires
        chunk_size > 0,
        index * chunk_size < data@.len(),
    ensures
        r@ == chunk_spec(data@, chunk_size as nat, index as nat),
{
    let n = data.len();
    assert(n == data@.len());
    let start = index * chunk_size;
    let end = if data.len() - start >= chunk_size {
        start + chunk_size
    } else {
        data.len()
    };
    &data[start..end]
}

/// Whether `msg`, sent by the device `sender`, carries the `index`-th chunk
/// `chunk` of an outgoing transfer: the chunk (LZ4-compressed when compression is on),
/// its SHA-256 checksum and its index (as `u32`); a chunk below 4 GiB is
/// accepted by the receiving side as exactly this chunk.
pub open spec fn carries_chunk(
    msg: Message,
    sender: u128,
    transfer_id: u128,
    index: int,
    chunk: Seq<u8>,
    compression: bool,
) -> bool {
    &&& msg.sender == sender
    &&& msg.payload matches Payload::FileTransferChunk {
        transfer_id: t,
        chunk_index,
        data,
        checksum,
        compressed,
    } && t == transfer_id && chunk_index == index % 4294967296 && compressed == compression
        && data@ == (if compression {
        lz4_block_of(chunk)
    } else {
        chunk
    }) && checksum@ == sha256_hex_of(chunk) && (chunk.len() <= u32::MAX ==> chunk_outcome(
        data@,
        checksum@,
        compressed,
    ) == Some(chunk))
}

/// The message that carries the `index`-th chunk of an outgoing transfer.
pub fn build_chunk(sender: u128, transfer_id: u128, index: usize, chunk: &[u8], compression: bool) -> (r:
    Message)
    ensures
        carries_chunk(r, sender, transfer_id, index as int, chunk@, compression),
{
    let checksum = sha256_hex(chunk);
    let data = if compression {
        lz4_compress(chunk)
    } else {
        let mut v: Vec<u8> = Vec::new();
        v.extend_from_slice(chunk);
        assert(v@ =~= chunk@);
        v
    };
    let chunk_index = ((index as u64) % 4294967296) as u32;
    Message::new(
        sender,
        Payload::FileTransferChunk { transfer_id, chunk_index, data, checksum, compressed: compression },
    )
}

/// The transfer table with one transfer's state replaced.
pub open spec fn with_state(m: Map<u128, TransferInfo>, id: u128, s: TransferState) -> Map<
    u128,
    TransferInfo,
> {
    m.insert(id, TransferInfo { state: s, ..m[id] })
}

/// Whether a control request failed with a `Transfer` error of that text.
pub open spec fn is_transfer_error(r: Result<TransferEvent, StarkLinkError>, msg: Seq<char>) -> bool {
    r matches Err(StarkLinkError::Transfer(t)) && t@ == msg
}

/// The table after a pause request, or the text of the error it is refused
/// with: only a transfer in progress can be paused.
pub open spec fn pause_outcome(m: Map<u128, TransferInfo>, id: u128) -> Result<
    Map<u128, TransferInfo>,
    Seq<char>,
> {
    if !m.contains_key(id) {
        Err("transfer not found"@)
    } else if m[id].state != TransferState::InProgress {
        Err("transfer not in progress"@)
    } else {
        Ok(with_state(m, id, TransferState::Paused))
    }
}

/// The table after a resume request, or the text of the error it is refused
/// with: only a paused transfer can be resumed.
pub open spec fn resume_outcome(m: Map<u128, TransferInfo>, id: u128) -> Result<
    Map<u128, TransferInfo>,
    Seq<char>,
> {
    if !m.contains_key(id) {
        Err("transfer not found"@)
    } else if m[id].state != TransferState::Paused {
        Err("transfer not paused"@)
    } else {
        Ok(with_state(m, id, TransferState::InProgress))
    }
}

/// The table after a cancel request, or the text of the error it is refused
/// with: any tracked transfer can be cancelled.
pub open spec fn cancel_outcome(m: Map<u128, TransferInfo>, id: u128) -> Result<
    Map<u128, TransferInfo>,
    Seq<char>,
> {
    if !m.contains_key(id) {
        Err("transfer not found"@)
    } else {
        Ok(with_state(m, id, TransferState::Cancelled))
    }
}

/// Identifiers of the transfers in progress.
pub open spec fn active_ids(m: Map<u128, TransferInfo>) -> Set<u128> {
    m.dom().filter(|k: u128| m[k].state == TransferState::InProgress)
}

/// The number of chunks a file of `len` bytes is cut into, as the
/// `u32` the protocol carries (taken modulo 2^32, as `as u32` does).
pub open spec fn chunk_count(len: nat, chunk_size: nat) -> nat {
    (((len + chunk_size - 1) as nat / chunk_size) % 4294967296) as nat
}

/// The text of the error a too large file is refused with.
pub open spec fn too_large_text(size: nat, max: nat) -> Seq<char> {
    "file too large: "@ + decimal_of(size) + " bytes (max "@ + decimal_of(max) + ")"@
}

/// Whether `info` describes a new outgoing transfer of the file `data`,
/// named `name`, to `peer_id`.
pub open spec fn is_new_outgoing(
    info: TransferInfo,
    id: u128,
    peer_id: u128,
    name: Seq<char>,
    data: Seq<u8>,
    chunk_size: nat,
) -> bool {
    &&& info.id == id
    &&& info.file_name@ == name
    &&& info.file_size == data.len()
    &&& info.total_chunks == chunk_count(data.len(), chunk_size)
    &&& info.chunks_done == 0
    &&& info.file_checksum@ == sha256_hex_of(data)
    &&& info.state == TransferState::InProgress
    &&& info.direction == TransferDirection::Outgoing
    &&& info.bytes_transferred == 0
    &&& info.peer_id == peer_id
}

/// What the outgoing stream does for a transfer: stop once it is cancelled,
/// wait while it is paused, and send otherwise (also when it is no longer
/// tracked).
pub open spec fn gate_for(m: Map<u128, TransferInfo>, id: u128) -> ChunkGate {
    if m.contains_key(id) && m[id].state == TransferState::Cancelled {
        ChunkGate::Stop
    } else if m.contains_key(id) && m[id].state == TransferState::Paused {
        ChunkGate::Wait
    } else {
        ChunkGate::Proceed
    }
}

/// The table after a chunk of `len` bytes was moved for a tracked transfer:
/// `done` chunks and `len` more bytes.
pub open spec fn with_progress(m: Map<u128, TransferInfo>, id: u128, done: u32, len: nat) -> Map<
    u128,
    TransferInfo,
> {
    m.insert(
        id,
        TransferInfo {
            chunks_done: done,
            bytes_transferred: (m[id].bytes_transferred + len) as u64,
            ..m[id]
        },
    )
}

/// The `index`-th chunk of a file cut into pieces of `chunk_size` bytes
/// (the last one possibly shorter), as `<[u8]>::chunks` yields it.
pub open spec fn chunk_spec(data: Seq<u8>, chunk_size: nat, index: nat) -> Seq<u8> {
    let start = (index * chunk_size) as int;
    let end = if start + chunk_size <= data.len() {
        start + chunk_size
    } else {
        data.len() as int
    };
    data.subrange(start, end)
}

/// The table with a transfer, if tracked, completed.
pub open spec fn completed(m: Map<u128, TransferInfo>, id: u128) -> Map<u128, TransferInfo> {
    if m.contains_key(id) {
        with_state(m, id, TransferState::Completed)
    } else {
        m
    }
}

/// What an outgoing stream does when it may go on.
#[derive(Debug, Clone, Copy, PartialEq, Eq, Structural)]
pub enum ReadyOutcome {
    /// Every chunk was sent: complete the transfer.
    Finish,
    /// The transfer was cancelled: stop.
    Stop,
    /// The transfer is paused: wait.
    Wait,
    /// Send the chunk at the stream's index.
    Send,
}

/// What a stream at `st` over a file of `len` bytes does when it may go on.
pub open spec fn ready_outcome(m: Map<u128, TransferInfo>, st: OutgoingStream, len: nat) -> ReadyOutcome {
    if st.next_index * st.chunk_size >= len {
        ReadyOutcome::Finish
    } else {
        match gate_for(m, st.transfer_id) {
            ChunkGate::Stop => ReadyOutcome::Stop,
            ChunkGate::Wait => ReadyOutcome::Wait,
            ChunkGate::Proceed => ReadyOutcome::Send,
        }
    }
}

/// The table after a stream at `st` was told it may go on.
pub open spec fn ready_table(m: Map<u128, TransferInfo>, st: OutgoingStream, len: nat) -> Map<
    u128,
    TransferInfo,
> {
    if ready_outcome(m, st, len) == ReadyOutcome::Finish {
        completed(m, st.transfer_id)
    } else {
        m
    }
}

/// The table after `n` such steps (the stream does not move on them).
pub open spec fn ready_steps(m: Map<u128, TransferInfo>, st: OutgoingStream, len: nat, n: nat) -> Map<
    u128,
    TransferInfo,
>
    decreases n,
{
    if n == 0 {
        m
    } else {
        ready_steps(ready_table(m, st, len), st, len, (n - 1) as nat)
    }
}

/// All tracked transfers, in both directions.
pub struct TransferManager {
    transfers: HashMap<u128, TransferInfo>,
    config: Config,
}

impl TransferManager {
    #[verifier::type_invariant]
    spec fn keyed_by_id(self) -> bool {
        forall|k: u128| #[trigger] self.transfers@.contains_key(k) ==> self.transfers@[k].id == k
    }

    /// The tracked transfers, by id.
    pub closed spec fn table(self) -> Map<u128, TransferInfo> {
        self.transfers@
    }

    /// The configuration the manager was made with.
    pub closed spec fn settings(self) -> Config {
        self.config
    }

    /// A manager that tracks no transfer.
    pub fn new(config: Config) -> (r: Self)
        ensures
            r.table() == Map::<u128, TransferInfo>::empty(),
            r.settings() == config,
    {
        TransferManager { transfers: HashMap::new(), config }
    }

    /// How many transfers are in progress.
    pub fn active_count(&self) -> (r: usize)
        ensures
            r == active_ids(self.table()).len(),
    {
        let ghost m = self.transfers@;
        let n = self.transfers.len();
        let mut count: usize = 0;
        let ghost mut seen: Set<u128> = Set::empty();
        let ghost s = spec_hash_map_iter(&self.transfers).remaining();
        for (k, v) in it: self.transfers.iter()
            invariant
                m == self.transfers@,
                n == m.dom().len(),
                s == spec_hash_map_iter(&self.transfers).remaining(),
                it.seq() == s,
                it.seq().no_duplicates(),
                seen.finite(),
                count == seen.len(),
                count <= it.index(),
                forall|key: u128|
                    #![trigger seen.contains(key)]
                    seen.contains(key) <==> (exists|i: int|
                        0 <= i < it.index() && *it.seq()[i].0 == key) && m.contains_key(key)
                        && m[key].state == TransferState::InProgress,
        {
            let ghost i = it.index();
            if v.state == TransferState::InProgress {
                proof {
                    assert(m.contains_key(*k) && m[*k] == *v);
                    if seen.contains(*k) {
                        let j = choose|j: int| 0 <= j < i && *it.seq()[j].0 == *k;
                        assert(m[*it.seq()[j].0] == *it.seq()[j].1);
                        assert(it.seq()[j] == it.seq()[i]);
                    }
                    seen = seen.insert(*k);
                }
                count = count + 1;
            }
        }
        proof {
            assert forall|key: u128| seen.contains(key) == active_ids(m).contains(key) by {
                if m.contains_key(key) && m[key].state == TransferState::InProgress {
                    assert(s.contains((&key, &m[key])));
                    let i = choose|i: int| 0 <= i < s.len() && s[i] == (&key, &m[key]);
                    assert(*s[i].0 == key);
                }
            }
            assert(seen =~= active_ids(m));
        }
        count
    }

    /// A copy of every tracked transfer, each once, in the table's order.
    pub fn list(&self) -> (r: Vec<TransferInfo>)
        ensures
            r@.len() == self.table().dom().len(),
            forall|i: int|
                0 <= i < r@.len() ==> self.table().contains_key(#[trigger] r@[i].id) && r@[i]
                    == self.table()[r@[i].id],
            forall|id: u128|
                #[trigger] self.table().contains_key(id) ==> exists|i: int|
                    0 <= i < r@.len() && r@[i].id == id,
            forall|i: int, j: int| 0 <= i < j < r@.len() ==> r@[i].id != r@[j].id,
    {
        proof {
            use_type_invariant(self);
        }
        let ghost m = self.transfers@;
        let ghost s = spec_hash_map_iter(&self.transfers).remaining();
        let mut out: Vec<TransferInfo> = Vec::new();
        for (k, v) in it: self.transfers.iter()
            invariant
                m == self.transfers@,
                forall|key: u128| #[trigger] m.contains_key(key) ==> m[key].id == key,
                s == spec_hash_map_iter(&self.transfers).remaining(),
                it.seq() == s,
                s.no_duplicates(),
                s.len() == m.dom().len(),
                out@.len() == it.index(),
                forall|j: int| 0 <= j < it.index() ==> #[trigger] out@[j] == *s[j].1,
        {
            proof {
                assert(m.contains_key(*k) && m[*k] == *v);
            }
            out.push(v.duplicate());
        }
        proof {
            assert forall|i: int| 0 <= i < out@.len() implies self.table().contains_key(
                #[trigger] out@[i].id,
            ) && out@[i] == self.table()[out@[i].id] by {
                assert(m.contains_key(*s[i].0) && m[*s[i].0] == *s[i].1);
            }
            assert forall|id: u128| #[trigger] self.table().contains_key(id) implies exists|i: int|
                0 <= i < out@.len() && out@[i].id == id by {
                assert(s.contains((&id, &m[id])));
                let i = choose|i: int| 0 <= i < s.len() && s[i] == (&id, &m[id]);
                assert(out@[i].id == id);
            }
            assert forall|i: int, j: int| 0 <= i < j < out@.len() implies out@[i].id
                != out@[j].id by {
                assert(m.contains_key(*s[i].0) && m[*s[i].0] == *s[i].1);
                assert(m.contains_key(*s[j].0) && m[*s[j].0] == *s[j].1);
                if out@[i].id == out@[j].id {
                    assert(s[i] == s[j]);
                }
            }
        }
        out
    }

    /// Refuse a new outgoing transfer while as many transfers as the
    /// configuration allows are in progress.
    pub fn check_capacity(&self) -> (r: Result<(), StarkLinkError>)
        ensures
            r is Ok <==> active_ids(self.table()).len() < self.settings().max_concurrent_transfers,
            r is Err ==> r == Err::<(), StarkLinkError>(
                StarkLinkError::MaxTransfersReached(self.settings().max_concurrent_transfers),
            ),
    {
        if self.active_count() >= self.config.max_concurrent_transfers {
            return Err(StarkLinkError::MaxTransfersReached(self.config.max_concurrent_transfers));
        }
        Ok(())
    }

    /// Begin an outgoing transfer of a file already read into memory.
    ///
    /// Refused with `MaxTransfersReached` while the configured number of
    /// transfers is in progress, then with a `Transfer` error when the file
    /// is larger than the configured maximum.  Otherwise a new transfer
    /// (named after the file, `unnamed` without a name) is tracked as in
    /// progress, and the announcement to send to the peer and the event to
    /// report are returned with its id.  After it, no more transfers than
    /// the configured maximum are in progress.
    pub fn start_outgoing(&mut self, peer_id: u128, file_name: Option<String>, file_data: &[u8]) -> (r:
        Result<(u128, Message, TransferEvent), StarkLinkError>)
        requires
            active_ids(old(self).table()).len() < old(self).settings().max_concurrent_transfers
                && file_data@.len() <= old(self).settings().max_file_size ==> old(
                self,
            ).settings().chunk_size > 0 && file_data@.len() + old(self).settings().chunk_size - 1
                <= usize::MAX,
        ensures
            final(self).settings() == old(self).settings(),
            r is Ok <==> active_ids(old(self).table()).len() < old(self).settings().max_concurrent_transfers
                && file_data@.len() <= old(self).settings().max_file_size,
            r matches Ok((id, msg, ev)) ==> {
                let info = final(self).table()[id];
                &&& ((id as int) / (pow2(76) as int)) % 16 == 4
                &&& final(self).table() == old(self).table().insert(id, info)
                &&& is_new_outgoing(
                    info,
                    id,
                    peer_id,
                    match file_name {
                        Some(n) => n@,
                        None => "unnamed"@,
                    },
                    file_data@,
                    old(self).settings().chunk_size as nat,
                )
                &&& msg.sender == old(self).settings().device_id
                &&& msg.payload == Payload::FileTransferStart {
                    transfer_id: id,
                    file_name: info.file_name,
                    file_size: info.file_size,
                    total_chunks: info.total_chunks,
                    file_checksum: info.file_checksum,
                }
                &&& ev == TransferEvent::Started(info)
                &&& active_ids(final(self).table()).len()
                    <= final(self).settings().max_concurrent_transfers
            },
            r is Err ==> final(self).table() == old(self).table(),
            r matches Err(e) ==> if active_ids(old(self).table()).len()
                >= old(self).settings().max_concurrent_transfers {
                e == StarkLinkError::MaxTransfersReached(old(self).settings().max_concurrent_transfers)
            } else {
                e matches StarkLinkError::Transfer(m) && m@ == too_large_text(
                    file_data@.len(),
                    old(self).settings().max_file_size as nat,
                )
            },
    {
        proof {
            use_type_invariant(&*self);
        }
        let ghost old_table = self.transfers@;
        let active = self.active_count();
        if active >= self.config.max_concurrent_transfers {
            return Err(StarkLinkError::MaxTransfersReached(self.config.max_concurrent_transfers));
        }
        let file_size = file_data.len() as u64;
        if file_size > self.config.max_file_size {
            let mut m = own("file too large: ");
            m.append(decimal(file_size).as_str());
            m.append(" bytes (max ");
            m.append(decimal(self.config.max_file_size).as_str());
            m.append(")");
            return Err(StarkLinkError::Transfer(m));
        }
        let name = match file_name {
            Some(n) => n,
            None => own("unnamed"),
        };
        let file_checksum = sha256_hex(file_data);
        let chunk_size = self.config.chunk_size;
        let count = (file_data.len() + (chunk_size - 1)) / chunk_size;
        let total_chunks = ((count as u64) % 4294967296) as u32;
        let transfer_id = new_uuid();
        let info = TransferInfo {
            id: transfer_id,
            file_name: name,
            file_size,
            total_chunks,
            chunks_done: 0,
            file_checksum,
            state: TransferState::InProgress,
            direction: TransferDirection::Outgoing,
            bytes_transferred: 0,
            peer_id,
        };
        let start_msg = Message::new(
            self.config.device_id,
            Payload::FileTransferStart {
                transfer_id,
                file_name: info.file_name.clone(),
                file_size,
                total_chunks,
                file_checksum: info.file_checksum.clone(),
            },
        );
        let event = TransferEvent::Started(info.duplicate());
        self.put(info);
        proof {
            let new_table = self.transfers@;
            let a_old = active_ids(old_table);
            let a_new = active_ids(new_table);
            assert(a_new.subset_of(a_old.insert(transfer_id)));
            vstd::set_lib::lemma_len_subset(a_new, a_old.insert(transfer_id));
        }
        Ok((transfer_id, start_msg, event))
    }

    /// What the outgoing stream of a transfer does before its next chunk.
    pub fn chunk_gate(&self, transfer_id: u128) -> (r: ChunkGate)
        ensures
            r == gate_for(self.table(), transfer_id),
    {
        match self.transfers.get(&transfer_id) {
            Some(t) => {
                if t.state == TransferState::Cancelled {
                    ChunkGate::Stop
                } else if t.state == TransferState::Paused {
                    ChunkGate::Wait
                } else {
                    ChunkGate::Proceed
                }
            },
            None => ChunkGate::Proceed,
        }
    }

    /// Record that the chunk at `index` (of `len` bytes) was handed over for
    /// an outgoing transfer: the chunks done become `index + 1` (as `u32`)
    /// and the bytes transferred grow by `len`.  Returns the progress event,
    /// or nothing when the transfer is no longer tracked.
    pub fn record_sent(&mut self, transfer_id: u128, index: usize, len: usize) -> (r: Option<
        TransferEvent,
    >)
        requires
            index < usize::MAX,
            old(self).table().contains_key(transfer_id) ==> old(self).table()[transfer_id].bytes_transferred
                + len <= u64::MAX,
        ensures
            final(self).settings() == old(self).settings(),
            old(self).table().contains_key(transfer_id) ==> {
                let t = with_progress(
                    old(self).table(),
                    transfer_id,
                    (((index + 1) as int) % 4294967296) as u32,
                    len as nat,
                );
                &&& final(self).table() == t
                &&& r == Some(TransferEvent::Progress(t[transfer_id]))
            },
            !old(self).table().contains_key(transfer_id) ==> final(self).table() == old(self).table()
                && r is None,
    {
        let done = (((index + 1) as u64) % 4294967296) as u32;
        self.add_progress(transfer_id, done, len)
    }

    fn add_progress(&mut self, transfer_id: u128, done: u32, len: usize) -> (r: Option<TransferEvent>)
        requires
            old(self).table().contains_key(transfer_id) ==> old(self).table()[transfer_id].bytes_transferred
                + len <= u64::MAX,
        ensures
            final(self).settings() == old(self).settings(),
            old(self).table().contains_key(transfer_id) ==> {
                let t = with_progress(old(self).table(), transfer_id, done, len as nat);
                &&& final(self).table() == t
                &&& r == Some(TransferEvent::Progress(t[transfer_id]))
            },
            !old(self).table().contains_key(transfer_id) ==> final(self).table() == old(self).table()
                && r is None,
    {
        match self.transfers.get(&transfer_id) {
            Some(t) => {
                let mut u = t.duplicate();
                u.chunks_done = done;
                u.bytes_transferred = u.bytes_transferred + len as u64;
                let ev = TransferEvent::Progress(u.duplicate());
                proof {
                    use_type_invariant(&*self);
                }
                self.put(u);
                Some(ev)
            },
            None => None,
        }
    }

    /// Record that the outgoing stream of a transfer broke off: the transfer,
    /// if still tracked, has failed.
    pub fn record_failed(&mut self, transfer_id: u128) -> (r: TransferEvent)
        ensures
            final(self).settings() == old(self).settings(),
            final(self).table() == (if old(self).table().contains_key(transfer_id) {
                with_state(old(self).table(), transfer_id, TransferState::Failed)
            } else {
                old(self).table()
            }),
            r matches TransferEvent::Failed { transfer_id: t, error } && t == transfer_id && error@
                == "send channel closed"@,
    {
        if self.transfers.contains_key(&transfer_id) {
            self.set_state(transfer_id, TransferState::Failed);
        }
        TransferEvent::Failed { transfer_id, error: own("send channel closed") }
    }

    /// Finish an outgoing transfer once every chunk was handed over: the
    /// transfer, if still tracked, is completed; the completion notice for
    /// the peer and the event to report are returned.
    pub fn finish_outgoing(&mut self, transfer_id: u128) -> (r: (Message, TransferEvent))
        ensures
            final(self).settings() == old(self).settings(),
            final(self).table() == completed(old(self).table(), transfer_id),
            r.0.sender == old(self).settings().device_id,
            r.0.payload == (Payload::FileTransferComplete { transfer_id }),
            r.1 == (TransferEvent::Completed { transfer_id }),
    {
        let msg = Message::new(self.config.device_id, Payload::FileTransferComplete { transfer_id });
        if self.transfers.contains_key(&transfer_id) {
            self.set_state(transfer_id, TransferState::Completed);
        }
        (msg, TransferEvent::Completed { transfer_id })
    }

    /// The stream of an outgoing transfer, from its first chunk, cut and
    /// compressed as configured.
    pub fn open_stream(&self, peer_id: u128, transfer_id: u128) -> (r: OutgoingStream)
        ensures
            r == (OutgoingStream {
                peer_id,
                transfer_id,
                chunk_size: self.settings().chunk_size,
                compression: self.settings().compression_enabled,
                next_index: 0,
            }),
    {
        OutgoingStream {
            peer_id,
            transfer_id,
            chunk_size: self.config.chunk_size,
            compression: self.config.compression_enabled,
            next_index: 0,
        }
    }

    /// Decide the next step of an outgoing stream of the file `data`.
    ///
    /// * `Ready`: once every chunk was sent, the transfer (if tracked) is
    ///   completed and the completion notice is handed out; otherwise a
    ///   cancelled transfer stops the stream, a paused one makes it wait, and
    ///   else the next chunk's message is handed out.
    /// * `Delivered`: the chunk handed out is counted (see
    ///   [`TransferManager::record_sent`]; a chunk whose bytes would take the
    ///   byte count past `u64::MAX` is not counted) and the stream moves to
    ///   the next chunk.  With no chunk outstanding nothing changes.
    /// * `DeliveryFailed`: the transfer (if tracked) has failed and the
    ///   stream stops.
    pub fn stream_step(&mut self, s: &mut OutgoingStream, data: &[u8], ev: StreamEvent) -> (r:
        StreamAction)
        requires
            old(s).chunk_size > 0,
        ensures
            final(self).settings() == old(self).settings(),
            ({
                let st = *old(s);
                let id = st.transfer_id;
                let m = old(self).table();
                let start = st.next_index * st.chunk_size;
                let chunk = chunk_spec(data@, st.chunk_size as nat, st.next_index as nat);
                match ev {
                    StreamEvent::Ready => {
                        &&& *final(s) == st
                        &&& final(self).table() == ready_table(m, st, data@.len())
                        &&& match ready_outcome(m, st, data@.len()) {
                            ReadyOutcome::Finish => r matches StreamAction::Finish(msg, e)
                                && msg.sender == old(self).settings().device_id && msg.payload == (
                            Payload::FileTransferComplete { transfer_id: id }) && e == (
                            TransferEvent::Completed { transfer_id: id }),
                            ReadyOutcome::Stop => r matches StreamAction::Stop(None),
                            ReadyOutcome::Wait => r is Wait,
                            ReadyOutcome::Send => r matches StreamAction::SendChunk(msg)
                                && carries_chunk(
                                msg,
                                old(self).settings().device_id,
                                id,
                                st.next_index as int,
                                chunk,
                                st.compression,
                            ),
                        }
                    },
                    StreamEvent::Delivered => if start < data@.len() {
                        &&& *final(s) == OutgoingStream { next_index: (st.next_index + 1) as usize, ..st }
                        &&& if m.contains_key(id) && m[id].bytes_transferred + chunk.len() <= u64::MAX {
                            let t = with_progress(
                                m,
                                id,
                                ((st.next_index + 1) % 4294967296) as u32,
                                chunk.len(),
                            );
                            &&& final(self).table() == t
                            &&& r matches StreamAction::Progressed(Some(e)) && e == TransferEvent::Progress(
                                t[id],
                            )
                        } else {
                            final(self).table() == m && r matches StreamAction::Progressed(None)
                        }
                    } else {
                        &&& *final(s) == st
                        &&& final(self).table() == m
                        &&& r matches StreamAction::Progressed(None)
                    },
                    StreamEvent::DeliveryFailed => {
                        &&& *final(s) == st
                        &&& final(self).table() == (if m.contains_key(id) {
                            with_state(m, id, TransferState::Failed)
                        } else {
                            m
                        })
                        &&& r matches StreamAction::Stop(Some(TransferEvent::Failed { transfer_id: t, error }))
                            && t == id && error@ == "send channel closed"@
                    },
                }
            }),
    {
        let id = s.transfer_id;
        let n = data.len();
        let current = match s.next_index.checked_mul(s.chunk_size) {
            Some(start) => start < n,
            None => false,
        };
        match ev {
            StreamEvent::Ready => {
                if !current {
                    let (msg, e) = self.finish_outgoing(id);
                    StreamAction::Finish(msg, e)
                } else {
                    match self.chunk_gate(id) {
                        ChunkGate::Stop => StreamAction::Stop(None),
                        ChunkGate::Wait => StreamAction::Wait,
                        ChunkGate::Proceed => {
                            let chunk = chunk_at(data, s.chunk_size, s.next_index);
                            StreamAction::SendChunk(
                                build_chunk(self.config.device_id, id, s.next_index, chunk, s.compression),
                            )
                        },
                    }
                }
            },
            StreamEvent::Delivered => {
                if !current {
                    return StreamAction::Progressed(None);
                }
                let index = s.next_index;
                assert(index <= index * s.chunk_size) by (nonlinear_arith)
                    requires
                        s.chunk_size >= 1,
                ;
                let len = chunk_at(data, s.chunk_size, index).len();
                let countable = match self.transfers.get(&id) {
                    Some(t) => (len as u64) <= u64::MAX - t.bytes_transferred,
                    None => false,
                };
                s.next_index = index + 1;
                if countable {
                    StreamAction::Progressed(self.record_sent(id, index, len))
                } else {
                    StreamAction::Progressed(None)
                }
            },
            StreamEvent::DeliveryFailed => StreamAction::Stop(Some(self.record_failed(id))),
        }
    }

    /// Record a verified incoming chunk: the chunks done become
    /// `chunk_index + 1` and the bytes transferred grow by `len`.
    pub fn record_received(&mut self, transfer_id: u128, chunk_index: u32, len: usize) -> (r: Option<
        TransferEvent,
    >)
        requires
            old(self).table().contains_key(transfer_id) ==> chunk_index < u32::MAX
                && old(self).table()[transfer_id].bytes_transferred + len <= u64::MAX,
        ensures
            final(self).settings() == old(self).settings(),
            old(self).table().contains_key(transfer_id) ==> {
                let t = with_progress(
                    old(self).table(),
                    transfer_id,
                    (chunk_index + 1) as u32,
                    len as nat,
                );
                &&& final(self).table() == t
                &&& r == Some(TransferEvent::Progress(t[transfer_id]))
            },
            !old(self).table().contains_key(transfer_id) ==> final(self).table() == old(self).table()
                && r is None,
    {
        if self.transfers.contains_key(&transfer_id) {
            self.add_progress(transfer_id, chunk_index + 1, len)
        } else {
            None
        }
    }

    /// Handle a `FileTransferChunk` message: check the chunk (see
    /// [`verify_chunk`]) and, when it is accepted, record it for its
    /// transfer.  Returns the chunk's content for the caller to write, with
    /// the progress event to report.  A chunk whose index is the largest
    /// `u32`, or whose bytes would take the byte count past `u64::MAX`, is
    /// returned but not counted.
    pub fn handle_chunk(
        &mut self,
        transfer_id: u128,
        chunk_index: u32,
        data: Vec<u8>,
        checksum: String,
        compressed: bool,
    ) -> (r: Result<(Vec<u8>, Option<TransferEvent>), StarkLinkError>)
        ensures
            final(self).settings() == old(self).settings(),
            r is Ok <==> chunk_outcome(data@, checksum@, compressed) is Some,
            r is Err ==> final(self).table() == old(self).table(),
            r matches Err(e) ==> match chunk_content(data@, compressed) {
                None => (e matches StarkLinkError::Transfer(m) && m@.len() >= 22 && m@.subrange(0, 22)
                    == "decompression failed: "@),
                Some(d) => (e matches StarkLinkError::ChecksumMismatch { expected, actual }
                    && expected == checksum && actual@ == sha256_hex_of(d)),
            },
            r matches Ok((d, ev)) ==> {
                &&& chunk_outcome(data@, checksum@, compressed) == Some(d@)
                &&& if old(self).table().contains_key(transfer_id) && chunk_index < u32::MAX
                    && old(self).table()[transfer_id].bytes_transferred + d@.len() <= u64::MAX {
                    let t = with_progress(
                        old(self).table(),
                        transfer_id,
                        (chunk_index + 1) as u32,
                        d@.len(),
                    );
                    &&& final(self).table() == t
                    &&& ev == Some(TransferEvent::Progress(t[transfer_id]))
                } else {
                    final(self).table() == old(self).table() && ev is None
                }
            },
    {
        let content = verify_chunk(data, checksum, compressed)?;
        let countable = match self.transfers.get(&transfer_id) {
            Some(t) => chunk_index < u32::MAX && (content.len() as u64) <= u64::MAX - t.bytes_transferred,
            None => false,
        };
        let ev = if countable {
            self.record_received(transfer_id, chunk_index, content.len())
        } else {
            None
        };
        Ok((content, ev))
    }

    /// Info for a specific transfer.
    pub fn get(&self, transfer_id: u128) -> (r: Option<TransferInfo>)
        ensures
            r == (if self.table().contains_key(transfer_id) {
                Some(self.table()[transfer_id])
            } else {
                None
            }),
    {
        match self.transfers.get(&transfer_id) {
            Some(t) => Some(t.duplicate()),
            None => None,
        }
    }

    /// Record a transfer under its id, replacing any earlier one.
    fn put(&mut self, info: TransferInfo)
        ensures
            final(self).table() == old(self).table().insert(info.id, info),
            final(self).settings() == old(self).settings(),
    {
        proof {
            use_type_invariant(&*self);
        }
        let id = info.id;
        let mut m = HashMap::new();
        std::mem::swap(&mut m, &mut self.transfers);
        m.insert(id, info);
        self.transfers = m;
    }

    /// Set the state of a tracked transfer.
    fn set_state(&mut self, transfer_id: u128, s: TransferState)
        requires
            old(self).table().contains_key(transfer_id),
        ensures
            final(self).table() == with_state(old(self).table(), transfer_id, s),
            final(self).settings() == old(self).settings(),
    {
        proof {
            use_type_invariant(&*self);
        }
        let t = self.transfers.get(&transfer_id).unwrap();
        let mut u = t.duplicate();
        u.state = s;
        self.put(u);
    }

    /// Pause a transfer that is in progress.
    pub fn pause(&mut self, transfer_id: u128) -> (r: Result<TransferEvent, StarkLinkError>)
        ensures
            final(self).settings() == old(self).settings(),
            match pause_outcome(old(self).table(), transfer_id) {
                Ok(m) => final(self).table() == m && r == Ok::<TransferEvent, StarkLinkError>(
                    TransferEvent::Paused { transfer_id },
                ),
                Err(msg) => final(self).table() == old(self).table() && is_transfer_error(r, msg),
            },
    {
        let state = match self.transfers.get(&transfer_id) {
            Some(t) => t.state,
            None => {
                return Err(StarkLinkError::Transfer(own("transfer not found")));
            },
        };
        if state != TransferState::InProgress {
            return Err(StarkLinkError::Transfer(own("transfer not in progress")));
        }
        self.set_state(transfer_id, TransferState::Paused);
        Ok(TransferEvent::Paused { transfer_id })
    }

    /// Resume a paused transfer.
    pub fn resume(&mut self, transfer_id: u128) -> (r: Result<TransferEvent, StarkLinkError>)
        ensures
            final(self).settings() == old(self).settings(),
            match resume_outcome(old(self).table(), transfer_id) {
                Ok(m) => final(self).table() == m && r == Ok::<TransferEvent, StarkLinkError>(
                    TransferEvent::Resumed { transfer_id },
                ),
                Err(msg) => final(self).table() == old(self).table() && is_transfer_error(r, msg),
            },
    {
        let state = match self.transfers.get(&transfer_id) {
            Some(t) => t.state,
            None => {
                return Err(StarkLinkError::Transfer(own("transfer not found")));
            },
        };
        if state != TransferState::Paused {
            return Err(StarkLinkError::Transfer(own("transfer not paused")));
        }
        self.set_state(transfer_id, TransferState::InProgress);
        Ok(TransferEvent::Resumed { transfer_id })
    }

    /// Cancel a transfer, whatever its state.
    pub fn cancel(&mut self, transfer_id: u128, reason: String) -> (r: Result<
        TransferEvent,
        StarkLinkError,
    >)
        ensures
            final(self).settings() == old(self).settings(),
            match cancel_outcome(old(self).table(), transfer_id) {
                Ok(m) => final(self).table() == m && r == Ok::<TransferEvent, StarkLinkError>(
                    TransferEvent::Cancelled { transfer_id },
                ),
                Err(msg) => final(self).table() == old(self).table() && is_transfer_error(r, msg),
            },
    {
        if !self.transfers.contains_key(&transfer_id) {
            return Err(StarkLinkError::Transfer(own("transfer not found")));
        }
        self.set_state(transfer_id, TransferState::Cancelled);
        Ok(TransferEvent::Cancelled { transfer_id })
    }

    /// Handle a `FileTransferComplete` message: mark the transfer completed,
    /// if it is tracked, and report it.
    pub fn handle_complete(&mut self, transfer_id: u128) -> (r: Result<
        Option<TransferEvent>,
        StarkLinkError,
    >)
        ensures
            final(self).settings() == old(self).settings(),
            old(self).table().contains_key(transfer_id) ==> r == Ok::<
                Option<TransferEvent>,
                StarkLinkError,
            >(Some(TransferEvent::Completed { transfer_id })) && final(self).table() == with_state(
                old(self).table(),
                transfer_id,
                TransferState::Completed,
            ),
            !old(self).table().contains_key(transfer_id) ==> r == Ok::<
                Option<TransferEvent>,
                StarkLinkError,
            >(None) && final(self).table() == old(self).table(),
    {
        if self.transfers.contains_key(&transfer_id) {
            self.set_state(transfer_id, TransferState::Completed);
            Ok(Some(TransferEvent::Completed { transfer_id }))
        } else {
            Ok(None)
        }
    }

    /// Handle a `FileTransferStart` message: start tracking an incoming
    /// transfer (replacing any transfer with the same id) and report it.
    pub fn handle_transfer_start(
        &mut self,
        peer_id: u128,
        transfer_id: u128,
        file_name: String,
        file_size: u64,
        total_chunks: u32,
        file_checksum: String,
    ) -> (r: Result<TransferEvent, StarkLinkError>)
        ensures
            final(self).settings() == old(self).settings(),
            ({
                let info = TransferInfo {
                    id: transfer_id,
                    file_name,
                    file_size,
                    total_chunks,
                    chunks_done: 0,
                    file_checksum,
                    state: TransferState::InProgress,
                    direction: TransferDirection::Incoming,
                    bytes_transferred: 0,
                    peer_id,
                };
                &&& final(self).table() == old(self).table().insert(transfer_id, info)
                &&& r == Ok::<TransferEvent, StarkLinkError>(TransferEvent::Started(info))
            }),
    {
        let info = TransferInfo {
            id: transfer_id,
            file_name,
            file_size,
            total_chunks,
            chunks_done: 0,
            file_checksum,
            state: TransferState::InProgress,
            direction: TransferDirection::Incoming,
            bytes_transferred: 0,
            peer_id,
        };
        let event = TransferEvent::Started(info.duplicate());
        self.put(info);
        Ok(event)
    }

    /// The path where a received file is saved: the file name joined onto
    /// the download directory.
    pub fn download_path(&self, file_name: &str) -> (r: String)
        ensures
            r@ == join_spec(self.settings().download_dir@, file_name@),
    {
        join_path(self.config.download_dir.as_str(), file_name)
    }
}

} // verus!

verus! {

/// Pausing a transfer in progress and then resuming it gives back the
/// table it started from; while paused its stream waits.
pub proof fn lemma_pause_then_resume(m: Map<u128, TransferInfo>, id: u128)
    requires
        m.contains_key(id),
        m[id].state == TransferState::InProgress,
    ensures
        pause_outcome(m, id) is Ok,
        gate_for(pause_outcome(m, id)->Ok_0, id) == ChunkGate::Wait,
        resume_outcome(pause_outcome(m, id)->Ok_0, id) == Ok::<Map<u128, TransferInfo>, Seq<char>>(
            m,
        ),
{
    let p = with_state(m, id, TransferState::Paused);
    let q = with_state(p, id, TransferState::InProgress);
    assert(q[id] == m[id]);
    assert(q =~= m);
}

/// A cancelled transfer can be neither paused nor resumed, and its
/// outgoing stream stops.
pub proof fn lemma_cancel_is_final(m: Map<u128, TransferInfo>, id: u128)
    requires
        m.contains_key(id),
    ensures
        cancel_outcome(m, id) is Ok,
        pause_outcome(cancel_outcome(m, id)->Ok_0, id) == Err::<Map<u128, TransferInfo>, Seq<char>>(
            "transfer not in progress"@,
        ),
        resume_outcome(cancel_outcome(m, id)->Ok_0, id) == Err::<Map<u128, TransferInfo>, Seq<char>>(
            "transfer not paused"@,
        ),
        gate_for(cancel_outcome(m, id)->Ok_0, id) == ChunkGate::Stop,
{
}

/// The first `n` chunks of a file, joined in order.
pub open spec fn chunks_joined(data: Seq<u8>, chunk_size: nat, n: nat) -> Seq<u8>
    decreases n,
{
    if n == 0 {
        Seq::empty()
    } else {
        chunks_joined(data, chunk_size, (n - 1) as nat) + chunk_spec(data, chunk_size, (n - 1) as nat)
    }
}

proof fn lemma_chunks_prefix(data: Seq<u8>, cs: nat, k: nat)
    requires
        cs > 0,
        k == 0 || (k - 1) * cs < data.len(),
    ensures
        chunks_joined(data, cs, k) == data.subrange(
            0,
            if k * cs <= data.len() {
                (k * cs) as int
            } else {
                data.len() as int
            },
        ),
    decreases k,
{
    if k == 0 {
        assert(data.subrange(0, 0) =~= Seq::<u8>::empty());
    } else {
        let j = (k - 1) as nat;
        assert(j * cs + cs == k * cs) by (nonlinear_arith)
            requires
                j == k - 1,
        ;
        if j > 0 {
            assert((j - 1) * cs < j * cs) by (nonlinear_arith)
                requires
                    j > 0,
                    cs > 0,
            ;
        }
        lemma_chunks_prefix(data, cs, j);
        let end = if k * cs <= data.len() {
            (k * cs) as int
        } else {
            data.len() as int
        };
        assert(chunk_spec(data, cs, j) == data.subrange((j * cs) as int, end));
        assert(data.subrange(0, (j * cs) as int) + data.subrange((j * cs) as int, end) =~= data.subrange(
            0,
            end,
        ));
    }
}

/// Chunking law: cut into pieces of `chunk_size` bytes, a file is as many
/// chunks as the transfer announces (the length divided by the chunk size,
/// rounded up; below 2^32 chunks), none of them empty, and the chunks joined
/// in index order give the file back.
pub proof fn lemma_chunks_reassemble(data: Seq<u8>, chunk_size: nat)
    requires
        chunk_size > 0,
    ensures
        ({
            let n = ((data.len() + chunk_size - 1) as nat / chunk_size) as nat;
            &&& n < 4294967296 ==> chunk_count(data.len(), chunk_size) == n
            &&& chunks_joined(data, chunk_size, n) == data
            &&& forall|i: nat| i < n ==> #[trigger] chunk_spec(data, chunk_size, i).len() > 0
        }),
{
    let len = data.len();
    let cs = chunk_size;
    let t = (len + cs - 1) as nat;
    let n = (t / cs) as nat;
    assert(n * cs <= t && t < n * cs + cs) by (nonlinear_arith)
        requires
            n == t / cs,
            cs > 0,
    ;
    assert(n == 0 || (n - 1) * cs < len) by (nonlinear_arith)
        requires
            n * cs <= t,
            t == len + cs - 1,
            cs > 0,
    ;
    lemma_chunks_prefix(data, cs, n);
    assert(n * cs >= len);
    assert(data.subrange(0, len as int) =~= data);
    assert forall|i: nat| i < n implies #[trigger] chunk_spec(data, cs, i).len() > 0 by {
        assert(i * cs <= (n - 1) * cs) by (nonlinear_arith)
            requires
                i < n,
                cs > 0,
        ;
    }
}

proof fn lemma_waiting_steps(m: Map<u128, TransferInfo>, st: OutgoingStream, len: nat, n: nat)
    requires
        ready_outcome(m, st, len) == ReadyOutcome::Wait || ready_outcome(m, st, len)
            == ReadyOutcome::Stop,
    ensures
        ready_steps(m, st, len, n) == m,
    decreases n,
{
    if n > 0 {
        lemma_waiting_steps(m, st, len, (n - 1) as nat);
    }
}

/// Pause law of the outgoing stream: once a transfer in progress is paused
/// before its stream sends chunk `k` (the stream's index, with chunks still
/// to send), the stream waits at every step, however many, without moving
/// or changing the table; once resumed, the table is what it was and the
/// stream sends chunk `k` next, so no chunk is skipped or sent twice.
pub proof fn lemma_paused_stream_resumes_at_same_chunk(
    m: Map<u128, TransferInfo>,
    st: OutgoingStream,
    len: nat,
    n: nat,
)
    requires
        m.contains_key(st.transfer_id),
        m[st.transfer_id].state == TransferState::InProgress,
        st.next_index * st.chunk_size < len,
    ensures
        ({
            let p = pause_outcome(m, st.transfer_id)->Ok_0;
            &&& pause_outcome(m, st.transfer_id) is Ok
            &&& ready_outcome(p, st, len) == ReadyOutcome::Wait
            &&& ready_steps(p, st, len, n) == p
            &&& resume_outcome(p, st.transfer_id) == Ok::<Map<u128, TransferInfo>, Seq<char>>(m)
            &&& ready_outcome(m, st, len) == ReadyOutcome::Send
        }),
{
    lemma_pause_then_resume(m, st.transfer_id);
    let p = pause_outcome(m, st.transfer_id)->Ok_0;
    lemma_waiting_steps(p, st, len, n);
}

/// Cancel law of the outgoing stream: once a transfer is cancelled while
/// its stream still has chunks to send, the stream stops at every step,
/// however many: no further chunk and no completion notice is handed out,
/// and the transfer stays cancelled.
pub proof fn lemma_cancelled_stream_stops(
    m: Map<u128, TransferInfo>,
    st: OutgoingStream,
    len: nat,
    n: nat,
)
    requires
        m.contains_key(st.transfer_id),
        st.next_index * st.chunk_size < len,
    ensures
        ({
            let c = cancel_outcome(m, st.transfer_id)->Ok_0;
            &&& cancel_outcome(m, st.transfer_id) is Ok
            &&& ready_outcome(c, st, len) == ReadyOutcome::Stop
            &&& ready_steps(c, st, len, n) == c
            &&& c[st.transfer_id].state == TransferState::Cancelled
        }),
{
    let c = cancel_outcome(m, st.transfer_id)->Ok_0;
    lemma_waiting_steps(c, st, len, n);
}

/// Active-transfer law: a transfer counts as active exactly when it is
/// tracked and in progress; a completed, paused, cancelled, failed or
/// pending transfer never counts.
pub proof fn lemma_active_means_in_progress(m: Map<u128, TransferInfo>)
    ensures
        forall|k: u128|
            #[trigger] active_ids(m).contains(k) <==> (m.contains_key(k) && m[k].state
                == TransferState::InProgress),
        forall|k: u128|
            m.contains_key(k) && m[k].state != TransferState::InProgress ==> !(
            #[trigger] active_ids(m).contains(k)),
{
}

/// Completing a transfer in progress frees exactly one of the concurrent
/// slots: one fewer transfer is active afterwards, so a new transfer is
/// accepted again once the count is below the limit.
pub proof fn lemma_completion_frees_a_slot(m: Map<u128, TransferInfo>, id: u128)
    requires
        m.dom().finite(),
        m.contains_key(id),
        m[id].state == TransferState::InProgress,
    ensures
        active_ids(completed(m, id)).len() + 1 == active_ids(m).len(),
        !active_ids(completed(m, id)).contains(id),
{
    let a = active_ids(m);
    let c = active_ids(completed(m, id));
    vstd::set_lib::lemma_len_subset(a, m.dom());
    assert(c =~= a.remove(id));
}

/// Control law: pausing succeeds exactly on a tracked transfer in
/// progress, resuming exactly on a paused one, cancelling on any tracked
/// one; on success only that transfer's state changes, to paused, in
/// progress or cancelled.
pub proof fn lemma_control_outcomes(m: Map<u128, TransferInfo>, id: u128)
    ensures
        pause_outcome(m, id) is Ok <==> (m.contains_key(id) && m[id].state == TransferState::InProgress),
        resume_outcome(m, id) is Ok <==> (m.contains_key(id) && m[id].state == TransferState::Paused),
        cancel_outcome(m, id) is Ok <==> m.contains_key(id),
        pause_outcome(m, id) matches Ok(t) ==> t.dom() == m.dom() && t[id].state
            == TransferState::Paused && t[id] == (TransferInfo { state: TransferState::Paused, ..m[id] })
            && (forall|k: u128| #[trigger] m.contains_key(k) && k != id ==> t[k] == m[k]),
        resume_outcome(m, id) matches Ok(t) ==> t.dom() == m.dom() && t[id] == (TransferInfo {
            state: TransferState::InProgress,
            ..m[id]
        }) && (forall|k: u128| #[trigger] m.contains_key(k) && k != id ==> t[k] == m[k]),
        cancel_outcome(m, id) matches Ok(t) ==> t.dom() == m.dom() && t[id] == (TransferInfo {
            state: TransferState::Cancelled,
            ..m[id]
        }) && (forall|k: u128| #[trigger] m.contains_key(k) && k != id ==> t[k] == m[k]),
{
    if m.contains_key(id) {
        assert(with_state(m, id, TransferState::Paused).dom() =~= m.dom());
        assert(with_state(m, id, TransferState::InProgress).dom() =~= m.dom());
        assert(with_state(m, id, TransferState::Cancelled).dom() =~= m.dom());
    }
}

/// Progress law: recording a moved chunk of `len` bytes sets the chunks
/// done and adds `len` to the bytes transferred of that transfer, and
/// changes nothing else.
pub proof fn lemma_progress_counts_bytes(m: Map<u128, TransferInfo>, id: u128, done: u32, len: nat)
    requires
        m.contains_key(id),
        m[id].bytes_transferred + len <= u64::MAX,
    ensures
        ({
            let t = with_progress(m, id, done, len);
            &&& t.dom() == m.dom()
            &&& t[id].bytes_transferred == m[id].bytes_transferred + len
            &&& t[id].chunks_done == done
            &&& t[id] == (TransferInfo {
                bytes_transferred: t[id].bytes_transferred,
                chunks_done: done,
                ..m[id]
            })
            &&& forall|k: u128| #[trigger] m.contains_key(k) && k != id ==> t[k] == m[k]
        }),
{
    assert(with_progress(m, id, done, len).dom() =~= m.dom());
}

/// Chunk-check law: an uncompressed chunk is accepted exactly when its
/// checksum is the SHA-256 hex digest of its bytes, and then as those
/// bytes; a compressed chunk is accepted exactly when it decompresses and
/// the checksum is the digest of what it decompresses to.
pub proof fn lemma_chunk_acceptance(data: Seq<u8>, checksum: Seq<char>)
    ensures
        chunk_outcome(data, checksum, false) == (if sha256_hex_of(data) == checksum {
            Some(data)
        } else {
            None
        }),
        chunk_outcome(data, checksum, true) is Some <==> (lz4_unblock_of(data) is Some && sha256_hex_of(
            lz4_unblock_of(data)->Some_0,
        ) == checksum),
        chunk_outcome(data, checksum, true) is Some ==> chunk_outcome(data, checksum, true)
            == lz4_unblock_of(data),
{
}

/// Control requests on an untracked transfer are refused and change
/// nothing.
pub proof fn lemma_unknown_transfer_refused(m: Map<u128, TransferInfo>, id: u128)
    requires
        !m.contains_key(id),
    ensures
        pause_outcome(m, id) == Err::<Map<u128, TransferInfo>, Seq<char>>("transfer not found"@),
        resume_outcome(m, id) == Err::<Map<u128, TransferInfo>, Seq<char>>("transfer not found"@),
        cancel_outcome(m, id) == Err::<Map<u128, TransferInfo>, Seq<char>>("transfer not found"@),
        gate_for(m, id) == ChunkGate::Proceed,
{
}

} // verus!
