//! Clipboard history.
//!
//! Keeps a bounded history of clipboard entries, newest first, fed both by
//! the local platform layer and by entries received from peers.

use vstd::prelude::*;
use vstd::arithmetic::power2::pow2;
use vstd::utf8::{decode_utf8, valid_utf8};
use crate::error::StarkLinkError;
use crate::ids::{new_uuid, now_utc, Timestamp};
use crate::protocol::ClipboardContentType;
use crate::text::own;

verus! {

/// A single clipboard entry.
#[derive(Debug, Clone)]
pub struct ClipboardEntry {
    /// Unique entry identifier.
    pub id: u128,
    /// Type of content.
    pub content_type: ClipboardContentType,
    /// Raw content bytes (UTF-8 text, PNG image data, etc.).
    pub data: Vec<u8>,
    /// When this entry was captured.
    pub timestamp: Timestamp,
    /// The device that originated this entry.
    pub source_device: u128,
}

/// `std::str::from_utf8`: the text of the bytes exactly when they are valid
/// UTF-8.
#[verifier::external_body]
fn utf8_text(bytes: &[u8]) -> (r: Option<&str>)
    ensures
        r is Some <==> valid_utf8(bytes@),
        r matches Some(s) ==> s@ == decode_utf8(bytes@),
{
    match std::str::from_utf8(bytes) {
        Ok(text) => Some(text),
        Err(_) => None,
    }
}

/// A copy of a byte vector.
pub fn copy_bytes(v: &Vec<u8>) -> (r: Vec<u8>)
    ensures
        r@ == v@,
{
    let r = v.clone();
    assert(r@ =~= v@);
    r
}

/// Whether an entry of this content type is readable as text.
pub open spec fn is_textual(t: ClipboardContentType) -> bool {
    t == ClipboardContentType::Text || t == ClipboardContentType::Url
}

impl ClipboardEntry {
    /// Create a new entry with a fresh version-4 UUID and the current time.
    pub fn new(content_type: ClipboardContentType, data: Vec<u8>, source_device: u128) -> (r: Self)
        ensures
            r.content_type == content_type,
            r.data@ == data@,
            r.source_device == source_device,
            ((r.id as int) / (pow2(76) as int)) % 16 == 4,
            r.timestamp.nanos < 2_000_000_000,
    {
        ClipboardEntry {
            id: new_uuid(),
            content_type,
            data,
            timestamp: now_utc(),
            source_device,
        }
    }

    /// A field-by-field copy.
    pub fn duplicate(&self) -> (r: Self)
        ensures
            r.id == self.id,
            r.content_type == self.content_type,
            r.data@ == self.data@,
            r.timestamp == self.timestamp,
            r.source_device == self.source_device,
    {
        ClipboardEntry {
            id: self.id,
            content_type: self.content_type,
            data: copy_bytes(&self.data),
            timestamp: self.timestamp,
            source_device: self.source_device,
        }
    }

    /// The content as text: only for text and URL entries whose bytes are
    /// valid UTF-8.
    pub fn as_text(&self) -> (r: Option<&str>)
        ensures
            r is Some <==> is_textual(self.content_type) && valid_utf8(self.data@),
            r matches Some(s) ==> s@ == decode_utf8(self.data@),
    {
        if self.content_type == ClipboardContentType::Text || self.content_type
            == ClipboardContentType::Url {
            utf8_text(self.data.as_slice())
        } else {
            None
        }
    }
}

/// Events of the clipboard subsystem.
#[derive(Debug, Clone)]
pub enum ClipboardEvent {
    /// The local clipboard changed (captured by the platform layer).
    LocalChanged(ClipboardEntry),
    /// A remote device pushed new clipboard content.
    RemoteReceived(ClipboardEntry),
}

/// The history after recording `e` on top of `h` with room for `max`
/// entries: `e` first, then the older entries, the oldest dropped.
pub open spec fn pushed_history(h: Seq<ClipboardEntry>, e: ClipboardEntry, max: nat) -> Seq<
    ClipboardEntry,
> {
    let all = seq![e] + h;
    if all.len() <= max {
        all
    } else {
        all.subrange(0, max as int)
    }
}

/// History law: recording an entry puts it first and keeps the newest
/// older entries in their order, dropping only the oldest beyond the
/// capacity; with no capacity nothing is kept.
pub proof fn lemma_history_keeps_newest(h: Seq<ClipboardEntry>, e: ClipboardEntry, max: nat)
    ensures
        max == 0 ==> pushed_history(h, e, max) == Seq::<ClipboardEntry>::empty(),
        max > 0 ==> pushed_history(h, e, max) == seq![e] + h.take(
            if h.len() < max - 1 {
                h.len() as int
            } else {
                (max - 1) as int
            },
        ),
        pushed_history(h, e, max).len() == (if h.len() + 1 < max {
            (h.len() + 1) as int
        } else {
            max as int
        }),
{
    let all = seq![e] + h;
    if max > 0 {
        let k = if h.len() < max - 1 {
            h.len() as int
        } else {
            (max - 1) as int
        };
        assert(pushed_history(h, e, max) =~= seq![e] + h.take(k));
    } else {
        assert(pushed_history(h, e, max) =~= Seq::<ClipboardEntry>::empty());
    }
}

/// Clipboard content and history.
pub struct ClipboardManager {
    history: std::collections::VecDeque<ClipboardEntry>,
    max_history: usize,
    local_device_id: u128,
}

impl ClipboardManager {
    #[verifier::type_invariant]
    spec fn bounded(self) -> bool {
        self.history@.len() <= self.max_history
    }

    /// The history, newest first.
    pub closed spec fn entries(self) -> Seq<ClipboardEntry> {
        self.history@
    }

    /// The number of entries kept at most.
    pub closed spec fn capacity(self) -> nat {
        self.max_history as nat
    }

    /// The id given as source to locally captured entries.
    pub closed spec fn local_id(self) -> u128 {
        self.local_device_id
    }

    /// A manager with an empty history.
    pub fn new(local_device_id: u128, max_history: usize) -> (r: Self)
        ensures
            r.entries() == Seq::<ClipboardEntry>::empty(),
            r.capacity() == max_history,
            r.local_id() == local_device_id,
    {
        ClipboardManager {
            history: std::collections::VecDeque::with_capacity(max_history),
            max_history,
            local_device_id,
        }
    }

    /// Record an entry as the newest, dropping the oldest beyond capacity.
    fn push_entry(&mut self, entry: ClipboardEntry)
        ensures
            final(self).entries() == pushed_history(old(self).entries(), entry, old(self).capacity()),
            final(self).capacity() == old(self).capacity(),
            final(self).local_id() == old(self).local_id(),
            final(self).entries().len() <= final(self).capacity(),
    {
        proof {
            use_type_invariant(&*self);
        }
        let ghost all = seq![entry] + self.history@;
        let mut h = std::collections::VecDeque::new();
        std::mem::swap(&mut h, &mut self.history);
        h.push_front(entry);
        while h.len() > self.max_history
            invariant
                h@.len() == all.len() || h@.len() >= self.max_history,
                self.max_history == old(self).max_history,
                h@.len() <= all.len(),
                h@ == all.subrange(0, h@.len() as int),
            decreases h@.len(),
        {
            h.pop_back();
        }
        assert(h@ =~= pushed_history(old(self).entries(), entry, old(self).capacity()));
        self.history = h;
    }

    /// Capture new content from the local clipboard: a new entry from the
    /// local device, recorded as the newest and returned.
    pub fn set_local(&mut self, content_type: ClipboardContentType, data: Vec<u8>) -> (r: Result<
        ClipboardEntry,
        StarkLinkError,
    >)
        ensures
            r matches Ok(e) && {
                &&& e.content_type == content_type
                &&& e.data@ == data@
                &&& e.source_device == old(self).local_id()
                &&& final(self).entries().len() == pushed_history(
                    old(self).entries(),
                    e,
                    old(self).capacity(),
                ).len()
                &&& forall|i: int|
                    0 <= i < final(self).entries().len() ==> {
                        let x = #[trigger] final(self).entries()[i];
                        let y = pushed_history(old(self).entries(), e, old(self).capacity())[i];
                        x.id == y.id && x.content_type == y.content_type && x.data@ == y.data@
                            && x.timestamp == y.timestamp && x.source_device == y.source_device
                    }
            },
            final(self).capacity() == old(self).capacity(),
            final(self).local_id() == old(self).local_id(),
            final(self).entries().len() <= final(self).capacity(),
    {
        let entry = ClipboardEntry::new(content_type, data, self.local_device_id);
        let kept = entry.duplicate();
        self.push_entry(kept);
        Ok(entry)
    }

    /// Record an entry received from a peer as the newest.
    pub fn set_remote(&mut self, entry: ClipboardEntry) -> (r: Result<(), StarkLinkError>)
        ensures
            r is Ok,
            final(self).entries() == pushed_history(old(self).entries(), entry, old(self).capacity()),
            final(self).capacity() == old(self).capacity(),
            final(self).local_id() == old(self).local_id(),
            final(self).entries().len() <= final(self).capacity(),
    {
        self.push_entry(entry);
        Ok(())
    }

    /// The newest entry, if any.
    pub fn latest(&self) -> (r: Option<ClipboardEntry>)
        ensures
            r is Some <==> self.entries().len() > 0,
            r matches Some(e) ==> e.id == self.entries()[0].id && e.content_type
                == self.entries()[0].content_type && e.data@ == self.entries()[0].data@
                && e.timestamp == self.entries()[0].timestamp && e.source_device
                == self.entries()[0].source_device,
    {
        if self.history.len() == 0 {
            None
        } else {
            Some(self.history[0].duplicate())
        }
    }

    /// The full history, newest first.
    pub fn history(&self) -> (r: Vec<ClipboardEntry>)
        ensures
            r@.len() == self.entries().len(),
            forall|i: int|
                0 <= i < r@.len() ==> {
                    let x = #[trigger] r@[i];
                    let y = self.entries()[i];
                    x.id == y.id && x.content_type == y.content_type && x.data@ == y.data@
                        && x.timestamp == y.timestamp && x.source_device == y.source_device
                },
    {
        let mut out: Vec<ClipboardEntry> = Vec::new();
        let mut i: usize = 0;
        while i < self.history.len()
            invariant
                i <= self.history@.len(),
                out@.len() == i,
                forall|j: int|
                    0 <= j < i ==> {
                        let x = #[trigger] out@[j];
                        let y = self.history@[j];
                        x.id == y.id && x.content_type == y.content_type && x.data@ == y.data@
                            && x.timestamp == y.timestamp && x.source_device == y.source_device
                    },
            decreases self.history@.len() - i,
        {
            out.push(self.history[i].duplicate());
            i = i + 1;
        }
        out
    }

    /// Forget every entry.
    pub fn clear_history(&mut self)
        ensures
            final(self).entries() == Seq::<ClipboardEntry>::empty(),
            final(self).capacity() == old(self).capacity(),
            final(self).local_id() == old(self).local_id(),
            final(self).entries().len() <= final(self).capacity(),
    {
        self.history = std::collections::VecDeque::new();
    }

    /// Read the system clipboard as text: not available on this platform.
    pub fn get_system_clipboard_text(&self) -> (r: Result<String, StarkLinkError>)
        ensures
            r matches Err(StarkLinkError::Clipboard(m)) && m@
                == "system clipboard access not implemented for this platform"@,
    {
        Err(StarkLinkError::Clipboard(own("system clipboard access not implemented for this platform")))
    }

    /// Write text to the system clipboard: not available on this platform.
    pub fn set_system_clipboard_text(&self, _text: &str) -> (r: Result<(), StarkLinkError>)
        ensures
            r matches Err(StarkLinkError::Clipboard(m)) && m@
                == "system clipboard access not implemented for this platform"@,
    {
        Err(StarkLinkError::Clipboard(own("system clipboard access not implemented for this platform")))
    }
}

} // verus!
