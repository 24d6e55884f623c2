//! The mathematical model of the log.
//!
//! `LogModel` is the abstract value of a `Logger`: the configured quorum and
//! capacity, the key bytes, the buffered messages in write order, and the
//! registry of reader cursors. The spec functions here say, over that model,
//! exactly what `write` and `read` do; the executable code is proved against
//! them, and the laws at the end are proved from them alone.

use vstd::prelude::*;

use crate::mac::mac_of;
use crate::mac::MAX_MAC_INPUT;
use crate::mac::KEY_LEN;

verus! {

/// Abstract value of one buffered message: its payload bytes, its
/// authentication tag, and how many reads it has received so far.
#[verifier::ext_equal]
pub ghost struct MsgModel {
    pub bytes: Seq<u8>,
    pub tag: Seq<u8>,
    pub reads: usize,
}

/// Abstract value of the whole log.
#[verifier::ext_equal]
pub ghost struct LogModel {
    /// Number of distinct readers that must consume a message before it is
    /// evicted; fixed at construction.
    pub quorum: usize,
    /// Most messages the buffer may hold at once; fixed at construction.
    pub capacity: usize,
    /// The secret signing key's bytes; fixed at construction.
    pub key: Seq<u8>,
    /// The buffered messages, oldest first.
    pub messages: Seq<MsgModel>,
    /// Each registered reader's next index to read.
    pub cursors: Map<u64, usize>,
}

impl MsgModel {
    /// A buffered message is still short of its quorum — except that a freshly
    /// written one always counts as in order, so that a log configured with a
    /// quorum of zero can still hold what was written — and its payload is
    /// small enough to be signed again.
    pub open spec fn wf(self, quorum: usize) -> bool {
        &&& self.reads == 0 || self.reads < quorum
        &&& self.bytes.len() <= MAX_MAC_INPUT as nat
    }
}

impl LogModel {
    /// The invariant every operation preserves.
    pub open spec fn wf(self) -> bool {
        &&& self.messages.len() <= self.capacity
        &&& forall|i: int|
            0 <= i < self.messages.len() ==> (#[trigger] self.messages[i]).wf(self.quorum)
        &&& self.cursors.dom().finite()
        &&& self.key.len() == KEY_LEN
    }

    /// The next index `id` would read; a reader that was never seen starts at
    /// the head of the buffer.
    pub open spec fn cursor_of(self, id: u64) -> usize {
        if self.cursors.dom().contains(id) {
            self.cursors[id]
        } else {
            0
        }
    }

    /// Once more distinct identities are registered than the quorum permits,
    /// every read — from any identity — is turned away.
    pub open spec fn rejects_reads(self) -> bool {
        self.cursors.dom().len() > self.quorum
    }

    /// The reader has nothing new to consume: the buffer is empty, or its
    /// cursor has run past the last message.
    pub open spec fn caught_up(self, id: u64) -> bool {
        self.messages.len() == 0 || (self.cursor_of(id) > 0 && self.cursor_of(id)
            > self.messages.len() - 1)
    }

    /// The message a consuming read by `id` acts on.
    pub open spec fn target(self, id: u64) -> MsgModel {
        self.messages[self.cursor_of(id) as int]
    }

    /// Whether that message's stored tag still matches its stored bytes under
    /// the log's key — what `read` reports as `is_valid`.
    pub open spec fn target_valid(self, id: u64) -> bool {
        self.target(id).tag == mac_of(self.key, self.target(id).bytes)
    }

    /// Whether the read by `id` completes the quorum and evicts its message.
    pub open spec fn evicts(self, id: u64) -> bool {
        self.target(id).reads + 1 >= self.quorum
    }

    /// A write fails exactly here.
    pub open spec fn is_full(self) -> bool {
        self.messages.len() >= self.capacity
    }

    /// The log after a successful write of `data`: the signed message is
    /// appended at the tail and nothing else moves.
    pub open spec fn write_step(self, data: Seq<u8>) -> LogModel {
        LogModel {
            messages: self.messages.push(
                MsgModel { bytes: data, tag: mac_of(self.key, data), reads: 0 },
            ),
            ..self
        }
    }

    /// The log after a read by `id`. A rejected or empty-handed read changes
    /// nothing. A consuming read that completes the quorum removes its message
    /// and leaves the cursor where it was, since the next message now holds
    /// that index; one that does not advances the cursor past the message and
    /// raises its count by one.
    pub open spec fn read_step(self, id: u64) -> LogModel {
        if self.rejects_reads() || self.caught_up(id) {
            self
        } else {
            let c = self.cursor_of(id);
            if self.evicts(id) {
                LogModel {
                    messages: self.messages.remove(c as int),
                    cursors: self.cursors.insert(id, c),
                    ..self
                }
            } else {
                LogModel {
                    messages: self.messages.update(
                        c as int,
                        MsgModel { reads: (self.target(id).reads + 1) as usize, ..self.target(id) },
                    ),
                    cursors: self.cursors.insert(id, (c + 1) as usize),
                    ..self
                }
            }
        }
    }
}

/// A reader that is not caught up points at a real message: its cursor is a
/// sound index into the buffer.
pub proof fn lemma_target_in_buffer(l: LogModel, id: u64)
    requires
        !l.caught_up(id),
    ensures
        l.cursor_of(id) < l.messages.len(),
{
}

/// Integrity round trip: a payload written to a log with room, then read back
/// by a reader whose cursor points at the new entry before anything else has
/// touched it, comes back byte for byte and is reported valid.
pub proof fn lemma_integrity_round_trip(l: LogModel, data: Seq<u8>, id: u64)
    requires
        !l.is_full(),
        l.write_step(data).cursor_of(id) == l.messages.len(),
    ensures
        !l.write_step(data).caught_up(id),
        l.write_step(data).target(id).bytes == data,
        l.write_step(data).target_valid(id),
{
}

/// Tamper detection: where a stored entry's tag no longer matches its stored
/// bytes under the log's key, the read that hits the entry reports it invalid.
/// A corruption that replaces bytes and tag together so that they still match
/// under the key is beyond what the tag check can see, and is left out.
pub proof fn lemma_tamper_detected(l: LogModel, id: u64)
    requires
        !l.caught_up(id),
        l.target(id).tag != mac_of(l.key, l.target(id).bytes),
    ensures
        !l.target_valid(id),
{
}

/// Quorum eviction: a consuming read evicts its message exactly when the
/// message's read count reaches the quorum. Below the quorum the message stays
/// in place, its count one higher and its bytes and tag untouched, and no
/// other message moves; at the quorum it is removed and the messages after it
/// close the gap in order. With a quorum of at least one, eviction happens at
/// a count of exactly the quorum.
pub proof fn lemma_quorum_eviction(l: LogModel, id: u64)
    requires
        l.wf(),
        !l.rejects_reads(),
        !l.caught_up(id),
    ensures
        ({
            let c = l.cursor_of(id) as int;
            let post = l.read_step(id);
            &&& l.evicts(id) ==> post.messages == l.messages.remove(c)
            &&& l.evicts(id) && l.quorum >= 1 ==> l.target(id).reads + 1 == l.quorum
            &&& !l.evicts(id) ==> {
                &&& post.messages.len() == l.messages.len()
                &&& post.messages[c].reads == l.target(id).reads + 1
                &&& post.messages[c].bytes == l.target(id).bytes
                &&& post.messages[c].tag == l.target(id).tag
                &&& (forall|j: int|
                    0 <= j < l.messages.len() && j != c ==> post.messages[j] == l.messages[j])
            }
        }),
{
    lemma_target_in_buffer(l, id);
    assert(l.messages[l.cursor_of(id) as int].wf(l.quorum));
}

/// Oversubscription is terminal for reads: once the registry holds more
/// identities than the quorum permits, a read from any identity changes
/// nothing, and neither a read nor a successful write shrinks the registry —
/// so every later read is rejected as well.
pub proof fn lemma_oversubscribed_is_terminal(l: LogModel, data: Seq<u8>, id: u64)
    requires
        l.rejects_reads(),
    ensures
        l.read_step(id) == l,
        l.read_step(id).rejects_reads(),
        l.write_step(data).rejects_reads(),
{
}

} // verus!
