//! The stream registry: one distribution channel per stream identifier.

use bytes::Bytes;
use tokio::sync::broadcast::{Receiver, Sender};
use vstd::hash_map::StringHashMap;
use vstd::prelude::*;

use crate::channel::{
    attach_cursor, attached_count, capacity_of, clone_handle, cursor_on, handles_share,
    open_channel, shares_channel,
};
use crate::outcome::{publish_on, PublishOutcome};
use crate::snapshot::{saturated_total, summarise, Snapshot};

verus! {

/// The ring capacity of every channel the registry creates.
pub const DEFAULT_CAPACITY: usize = 128;

/// One registered stream: its identifier and the publishing handle of its
/// channel.
pub struct StreamEntry {
    id: String,
    sender: Sender<Bytes>,
}

/// The mapping from stream identifier to distribution channel. Entries are
/// kept in the order in which their identifiers were first referenced, and
/// are never removed; a hash map from identifier to position finds them.
pub struct StreamRegistry {
    entries: Vec<StreamEntry>,
    index: StringHashMap<usize>,
}

/// The identifiers after `id` has been referenced: unchanged if it was known,
/// else with `id` added at the end.
pub open spec fn resolved(ids: Seq<Seq<char>>, id: Seq<char>) -> Seq<Seq<char>> {
    if ids.contains(id) {
        ids
    } else {
        ids.push(id)
    }
}

impl View for StreamRegistry {
    type V = Seq<Seq<char>>;

    /// The known identifiers, oldest first.
    closed spec fn view(&self) -> Seq<Seq<char>> {
        Seq::new(self.entries@.len(), |i: int| self.entries@[i].id@)
    }
}

impl StreamRegistry {
    /// The publishing handle that the registry holds at position `i`.
    pub closed spec fn channel_at(&self, i: int) -> Sender<Bytes> {
        self.entries@[i].sender
    }

    /// Whether the hash map knows exactly the held identifiers, each with
    /// the position of its entry.
    pub closed spec fn indexed(&self) -> bool {
        &&& forall|k: Seq<char>| self.index@.contains_key(k) <==> self@.contains(k)
        &&& forall|k: Seq<char>| #[trigger]
            self.index@.contains_key(k) ==> 0 <= self.index@[k] < self@.len()
                && self@[self.index@[k] as int] == k
    }

    /// The registry's invariant: no identifier is held twice, the hash map
    /// agrees with the entries, and every channel held was made with the
    /// default capacity.
    pub open spec fn wf(&self) -> bool {
        &&& self@.no_duplicates()
        &&& self.indexed()
        &&& forall|i: int|
            0 <= i < self@.len() ==> capacity_of(#[trigger] self.channel_at(i)) == DEFAULT_CAPACITY
    }

    /// The position of a known identifier.
    pub open spec fn position(&self, id: Seq<char>) -> int {
        self@.index_of(id)
    }

    /// Whether `next` is `self` after `id` has been referenced: the
    /// identifiers are those of `resolved`, and every channel that was there
    /// is still the one held at its position.
    pub open spec fn referenced(&self, id: Seq<char>, next: &StreamRegistry) -> bool {
        &&& next.wf()
        &&& next@ == resolved(self@, id)
        &&& forall|i: int| 0 <= i < self@.len() ==> next.channel_at(i) == self.channel_at(i)
    }

    /// A registry that knows no stream.
    pub fn new() -> (registry: StreamRegistry)
        ensures
            registry.wf(),
            registry@ == Seq::<Seq<char>>::empty(),
    {
        let registry = StreamRegistry { entries: Vec::new(), index: StringHashMap::new() };
        assert(registry@ =~= Seq::<Seq<char>>::empty());
        registry
    }

    /// The number of known streams.
    pub fn len(&self) -> (n: usize)
        ensures
            n == self@.len(),
    {
        self.entries.len()
    }

    /// Whether no stream is known.
    pub fn is_empty(&self) -> (empty: bool)
        ensures
            empty == (self@.len() == 0),
    {
        self.entries.len() == 0
    }

    /// Finds the position of an identifier.
    pub fn find(&self, id: &str) -> (found: Option<usize>)
        requires
            self.wf(),
        ensures
            match found {
                Some(i) => i < self@.len() && self@[i as int] == id@ && i == self.position(id@),
                None => !self@.contains(id@),
            },
    {
        match self.index.get(id) {
            Some(slot) => {
                assert(self@.contains(id@));
                Some(*slot)
            },
            None => None,
        }
    }

    /// Finds the entry of `id`, creating it with a new channel of the default
    /// capacity if the identifier is new, and returns its position.
    fn entry_for(&mut self, id: &str) -> (slot: usize)
        requires
            old(self).wf(),
        ensures
            old(self).referenced(id@, final(self)),
            slot < final(self)@.len(),
            slot == final(self).position(id@),
    {
        match self.find(id) {
            Some(i) => i,
            None => {
                let sender = open_channel(DEFAULT_CAPACITY);
                let ghost before = *self;
                let slot = self.entries.len();
                self.entries.push(StreamEntry { id: id.to_owned(), sender });
                self.index.insert(id.to_owned(), slot);
                proof {
                    assert(self@ =~= before@.push(id@));
                    assert(self@.no_duplicates());
                    assert(self@[slot as int] == id@);
                    assert(self@.contains(id@));
                    assert forall|k: Seq<char>| self.index@.contains_key(k) <==> self@.contains(
                        k,
                    ) by {
                        if k != id@ {
                            if before@.contains(k) {
                                let j = before@.index_of(k);
                                assert(self@[j] == k);
                            }
                            if self@.contains(k) {
                                let j = self@.index_of(k);
                                assert(before@[j] == k);
                            }
                        }
                    }
                    assert forall|k: Seq<char>| #[trigger]
                        self.index@.contains_key(k) implies 0 <= self.index@[k] < self@.len()
                        && self@[self.index@[k] as int] == k by {
                        if k != id@ {
                            assert(before.index@.contains_key(k));
                        }
                    }
                    assert forall|i: int| 0 <= i < self@.len() implies capacity_of(
                        #[trigger] self.channel_at(i),
                    ) == DEFAULT_CAPACITY by {
                        if i < before@.len() {
                            assert(self.channel_at(i) == before.channel_at(i));
                        }
                    }
                }
                slot
            },
        }
    }

    /// Returns a handle on the channel of `id`, creating the channel with
    /// the default capacity if the identifier is new. A known identifier
    /// leaves the registry as it was.
    pub fn resolve_or_create(&mut self, id: &str) -> (handle: Sender<Bytes>)
        requires
            old(self).wf(),
        ensures
            old(self).referenced(id@, final(self)),
            shares_channel(handle, final(self).channel_at(final(self).position(id@))),
            capacity_of(handle) == DEFAULT_CAPACITY,
    {
        let slot = self.entry_for(id);
        clone_handle(&self.entries[slot].sender)
    }

    /// Returns a handle on the channel of `id` if the identifier is known,
    /// and creates nothing.
    pub fn resolve(&self, id: &str) -> (handle: Option<Sender<Bytes>>)
        requires
            self.wf(),
        ensures
            handle is Some <==> self@.contains(id@),
            handle matches Some(h) ==> shares_channel(h, self.channel_at(self.position(id@)))
                && capacity_of(h) == DEFAULT_CAPACITY,
    {
        match self.find(id) {
            Some(i) => {
                let h = clone_handle(&self.entries[i].sender);
                assert(capacity_of(self.channel_at(i as int)) == DEFAULT_CAPACITY);
                Some(h)
            },
            None => None,
        }
    }

    /// Attaches a new receiver cursor to the channel that the registry holds
    /// for `id`, creating the channel if the identifier is new. The cursor
    /// sees only what is published after this call.
    pub fn subscribe(&mut self, id: &str) -> (cursor: Receiver<Bytes>)
        requires
            old(self).wf(),
        ensures
            old(self).referenced(id@, final(self)),
            cursor_on(cursor, final(self).channel_at(final(self).position(id@))),
    {
        let slot = self.entry_for(id);
        attach_cursor(&self.entries[slot].sender)
    }

    /// Publishes one payload as a frame to the stream `id`, creating the
    /// channel if the identifier is new. The outcome is a delivery to at
    /// least one cursor or the report that none is attached, never a missing
    /// channel.
    pub fn publish(&mut self, id: &str, payload: Vec<u8>) -> (outcome: PublishOutcome)
        requires
            old(self).wf(),
        ensures
            old(self).referenced(id@, final(self)),
            !(outcome is NoChannel),
            outcome matches PublishOutcome::Delivered(n) ==> n >= 1,
    {
        let slot = self.entry_for(id);
        publish_on(&self.entries[slot].sender, payload)
    }

    /// Publishes one payload as a frame to the stream `id` only if its
    /// channel exists; an unknown identifier is reported as such and the
    /// payload is dropped.
    pub fn publish_existing(&self, id: &str, payload: Vec<u8>) -> (outcome: PublishOutcome)
        requires
            self.wf(),
        ensures
            outcome is NoChannel <==> !self@.contains(id@),
            outcome matches PublishOutcome::Delivered(n) ==> n >= 1,
    {
        match self.find(id) {
            Some(i) => publish_on(&self.entries[i].sender, payload),
            None => PublishOutcome::NoChannel,
        }
    }

    /// Whether `handle` leads to the channel that the registry holds for
    /// `id`. An unknown identifier has no channel, so the answer is no.
    pub fn holds_channel(&self, id: &str, handle: &Sender<Bytes>) -> (held: bool)
        requires
            self.wf(),
        ensures
            held == (self@.contains(id@) && shares_channel(
                self.channel_at(self.position(id@)),
                *handle,
            )),
    {
        match self.find(id) {
            Some(i) => handles_share(&self.entries[i].sender, handle),
            None => false,
        }
    }

    /// Reports the number of known streams and the number of cursors
    /// attached over all of them. Each channel is asked for its count in
    /// turn; the total is the sum of the answers, held at the top of the
    /// integer range if it would pass it.
    pub fn snapshot(&self) -> (snap: Snapshot)
        ensures
            snap.streams == self@.len(),
            exists|counts: Seq<usize>|
                counts.len() == self@.len() && snap.receivers == #[trigger] saturated_total(counts),
    {
        let mut counts: Vec<usize> = Vec::new();
        let mut i: usize = 0;
        while i < self.entries.len()
            invariant
                i <= self.entries@.len(),
                counts@.len() == i,
            decreases self.entries@.len() - i,
        {
            counts.push(attached_count(&self.entries[i].sender));
            i += 1;
        }
        summarise(&counts)
    }
}

/// Referencing an identifier keeps the identifiers free of duplicates and
/// makes the identifier known.
pub proof fn lemma_resolved_is_unique(ids: Seq<Seq<char>>, id: Seq<char>)
    requires
        ids.no_duplicates(),
    ensures
        resolved(ids, id).no_duplicates(),
        resolved(ids, id).contains(id),
{
    if !ids.contains(id) {
        let next = ids.push(id);
        assert(next[ids.len() as int] == id);
        assert forall|i: int, j: int| 0 <= i < next.len() && 0 <= j < next.len() && i != j implies next[i]
            != next[j] by {
            if i < ids.len() && j < ids.len() {
            } else if i < ids.len() {
                assert(ids.contains(ids[i]));
            } else if j < ids.len() {
                assert(ids.contains(ids[j]));
            }
        }
    }
}

/// Referencing an identifier a second time changes nothing: however many
/// first references arrive, one entry is created.
pub proof fn lemma_resolved_twice(ids: Seq<Seq<char>>, id: Seq<char>)
    ensures
        resolved(resolved(ids, id), id) == resolved(ids, id),
        resolved(ids, id).len() <= ids.len() + 1,
{
    if !ids.contains(id) {
        let next = ids.push(id);
        assert(next[ids.len() as int] == id);
    }
}

/// Referencing an identifier never moves or replaces what was there: every
/// identifier known before is known after, at the same position and with
/// the same channel, so a cursor or a handle on it stays on the registry's
/// channel for its identifier.
pub proof fn lemma_referenced_keeps_channels(
    before: &StreamRegistry,
    id: Seq<char>,
    after: &StreamRegistry,
    known: Seq<char>,
)
    requires
        before.wf(),
        before.referenced(id, after),
        before@.contains(known),
    ensures
        after@.contains(known),
        after.position(known) == before.position(known),
        after.channel_at(after.position(known)) == before.channel_at(before.position(known)),
{
    let p = before.position(known);
    assert(after@[p] == known);
}

/// A registry never holds two entries for one identifier: two positions
/// with the same identifier are the same position.
pub proof fn lemma_one_channel_per_identifier(registry: &StreamRegistry, i: int, j: int)
    requires
        registry.wf(),
        0 <= i < registry@.len(),
        0 <= j < registry@.len(),
        registry@[i] == registry@[j],
    ensures
        i == j,
        registry.channel_at(i) == registry.channel_at(j),
{
}

} // verus!
