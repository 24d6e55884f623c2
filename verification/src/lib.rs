//! A bounded, in-memory, multi-reader message log with quorum eviction.
//!
//! Writers append authenticated messages to a fixed-capacity buffer; each
//! reader, named by a stable identity, keeps its own cursor and consumes at
//! its own pace. A message leaves the buffer only once as many reads have hit
//! it as the configured quorum demands. Every message carries an HMAC-SHA256
//! tag computed at write time under a per-log secret key, and every read
//! checks the tag again, so corruption of a stored entry is reported rather
//! than silently delivered.

use vstd::prelude::*;
use std::collections::HashMap;

pub mod mac;
pub mod model;

use crate::mac::mac_sign;
use crate::mac::mac_verify;
use crate::mac::fresh_key_bytes;
use crate::mac::MAX_MAC_INPUT;
use crate::model::LogModel;
use crate::model::MsgModel;

verus! {

broadcast use vstd::std_specs::hash::group_hash_axioms;

/// The ways an operation on the log can fail.
#[derive(Clone, Copy, PartialEq, Eq, Structural, Debug)]
pub enum LogError {
    /// A write was attempted while the buffer already held `capacity` messages.
    BufferFull,
    /// More distinct reader identities than the quorum permits have registered.
    TooManyReaders,
}

/// One authenticated unit of data, owned by the log's buffer.
pub struct Message {
    bytes: Vec<u8>,
    hash: Vec<u8>,
    readers: usize,
}

impl View for Message {
    type V = MsgModel;

    closed spec fn view(&self) -> MsgModel {
        MsgModel { bytes: self.bytes@, tag: self.hash@, reads: self.readers }
    }
}

impl Clone for Message {
    /// An independent copy: same bytes, same tag, and a snapshot of the read
    /// count. Mutating the copy never touches the buffer's own instance.
    fn clone(&self) -> (r: Self)
        ensures
            r@ == self@,
    {
        Message {
            bytes: vstd::slice::slice_to_vec(self.bytes.as_slice()),
            hash: vstd::slice::slice_to_vec(self.hash.as_slice()),
            readers: self.readers,
        }
    }
}

/// What a consuming read hands back: a copy of the payload and tag, and
/// whether the tag still matched the payload under the log's key.
pub struct Response {
    pub message: Vec<u8>,
    pub hash: Vec<u8>,
    pub is_valid: bool,
}

/// The quorum log itself.
pub struct Logger {
    num_readers: usize,
    readers: HashMap<u64, usize>,
    messages: Vec<Message>,
    size: usize,
    key: Vec<u8>,
}

impl View for Logger {
    type V = LogModel;

    closed spec fn view(&self) -> LogModel {
        LogModel {
            quorum: self.num_readers,
            capacity: self.size,
            key: self.key@,
            messages: Seq::new(self.messages@.len(), |i: int| self.messages@[i]@),
            cursors: self.readers@,
        }
    }
}

impl Logger {
    /// A fresh log: a secret key drawn from the system's secure source, an
    /// empty buffer of the stated capacity, and an empty cursor registry.
    pub fn new(num_readers: usize, size: usize) -> (r: Logger)
        ensures
            r@.wf(),
            r@.quorum == num_readers,
            r@.capacity == size,
            r@.messages == Seq::<MsgModel>::empty(),
            r@.cursors == Map::<u64, usize>::empty(),
    {
        let key = fresh_key_bytes();
        let l = Logger {
            num_readers,
            readers: HashMap::with_capacity(num_readers),
            messages: Vec::with_capacity(size),
            size,
            key,
        };
        proof {
            assert(l@.messages =~= Seq::<MsgModel>::empty());
        }
        l
    }

    /// Number of messages the buffer holds right now.
    pub fn buffer_len(&self) -> (n: usize)
        ensures
            n == self@.messages.len(),
    {
        self.messages.len()
    }

    /// Overwrite the stored bytes of the message at `index`, leaving its tag
    /// as it was. The log itself never calls this; it exists so a harness can
    /// corrupt an entry in place and watch `read` report it invalid.
    pub fn corrupt_payload(&mut self, index: usize, bytes: Vec<u8>)
        requires
            old(self)@.wf(),
            index < old(self)@.messages.len(),
            bytes@.len() <= MAX_MAC_INPUT as nat,
        ensures
            final(self)@.wf(),
            final(self)@ == (LogModel {
                messages: old(self)@.messages.update(
                    index as int,
                    MsgModel { bytes: bytes@, ..old(self)@.messages[index as int] },
                ),
                ..old(self)@
            }),
    {
        let stored = self.messages.remove(index);
        let tampered = Message { bytes, hash: stored.hash, readers: stored.readers };
        self.messages.insert(index, tampered);
        proof {
            assert(self@ =~= (LogModel {
                messages: old(self)@.messages.update(
                    index as int,
                    MsgModel { bytes: tampered.bytes@, ..old(self)@.messages[index as int] },
                ),
                ..old(self)@
            }));
        }
    }

    /// Overwrite the stored tag of the message at `index`, leaving its bytes
    /// as they were — the counterpart of `corrupt_payload` for the other half
    /// of an entry.
    pub fn corrupt_tag(&mut self, index: usize, tag: Vec<u8>)
        requires
            old(self)@.wf(),
            index < old(self)@.messages.len(),
        ensures
            final(self)@.wf(),
            final(self)@ == (LogModel {
                messages: old(self)@.messages.update(
                    index as int,
                    MsgModel { tag: tag@, ..old(self)@.messages[index as int] },
                ),
                ..old(self)@
            }),
    {
        let stored = self.messages.remove(index);
        let tampered = Message { bytes: stored.bytes, hash: tag, readers: stored.readers };
        self.messages.insert(index, tampered);
        proof {
            assert(self@ =~= (LogModel {
                messages: old(self)@.messages.update(
                    index as int,
                    MsgModel { tag: tampered.hash@, ..old(self)@.messages[index as int] },
                ),
                ..old(self)@
            }));
        }
    }
}

/// The log's two operations, with their whole behavior stated over the
/// abstract `LogModel`.
pub trait Log: View<V = LogModel> {
    /// Append `data`, signed, at the tail — unless the buffer is full, in
    /// which case nothing changes and the caller may retry later.
    fn write(&mut self, data: &[u8]) -> (r: Result<(), LogError>)
        requires
            old(self)@.wf(),
            data@.len() <= MAX_MAC_INPUT as nat,
        ensures
            final(self)@.wf(),
            old(self)@.is_full() ==> r == Err::<(), LogError>(LogError::BufferFull)
                && final(self)@ == old(self)@,
            !old(self)@.is_full() ==> r == Ok::<(), LogError>(())
                && final(self)@ == old(self)@.write_step(data@),
    ;

    /// One read on behalf of `reader_id`. Turned away once the registry is
    /// oversubscribed; empty-handed once the reader has caught up; otherwise
    /// it hands back a copy of the message under the reader's cursor, reports
    /// whether its tag still matches, counts the read, and either advances the
    /// cursor or — when the quorum is now satisfied — evicts the message.
    fn read(&mut self, reader_id: u64) -> (r: Result<Option<Response>, LogError>)
        requires
            old(self)@.wf(),
        ensures
            final(self)@.wf(),
            final(self)@ == old(self)@.read_step(reader_id),
            old(self)@.rejects_reads() ==> r == Err::<Option<Response>, LogError>(
                LogError::TooManyReaders,
            ),
            !old(self)@.rejects_reads() && old(self)@.caught_up(reader_id) ==> r == Ok::<
                Option<Response>,
                LogError,
            >(None),
            !old(self)@.rejects_reads() && !old(self)@.caught_up(reader_id) ==> (r matches Ok(o)
                && o matches Some(resp) && {
                &&& resp.message@ == old(self)@.target(reader_id).bytes
                &&& resp.hash@ == old(self)@.target(reader_id).tag
                &&& resp.is_valid == old(self)@.target_valid(reader_id)
            }),
    ;
}

impl Log for Logger {
    fn write(&mut self, data: &[u8]) -> (r: Result<(), LogError>) {
        if self.messages.len() >= self.size {
            return Err(LogError::BufferFull);
        }
        let hash = mac_sign(&self.key, data);
        let message = Message { readers: 0, bytes: vstd::slice::slice_to_vec(data), hash };
        self.messages.push(message);
        proof {
            assert(self@.messages =~= old(self)@.write_step(data@).messages);
            assert(self@ =~= old(self)@.write_step(data@));
        }
        Ok(())
    }

    fn read(&mut self, reader_id: u64) -> (r: Result<Option<Response>, LogError>) {
        if self.readers.len() > self.num_readers {
            return Err(LogError::TooManyReaders);
        }
        let thread_count: usize = match self.readers.get(&reader_id) {
            Some(i) => *i,
            None => 0,
        };
        // The reader has caught up to the tail: nothing to hand out.
        if self.messages.is_empty() || thread_count > 0 && thread_count > self.messages.len() - 1 {
            return Ok(None);
        }

        // Copy the message out before touching the buffer's own instance.
        let m = self.messages[thread_count].clone();
        let is_valid = mac_verify(&self.key, &m.bytes, &m.hash);

        let new_count = m.readers + 1;
        let mut new_thread_count = thread_count;
        if new_count >= self.num_readers {
            // The quorum is satisfied: evict, and leave the cursor where it
            // is — the next message now holds this index.
            let _evicted = self.messages.remove(thread_count);
        } else {
            let stored = self.messages.remove(thread_count);
            let counted = Message { bytes: stored.bytes, hash: stored.hash, readers: new_count };
            self.messages.insert(thread_count, counted);
            new_thread_count = thread_count + 1;
        }
        self.readers.insert(reader_id, new_thread_count);
        proof {
            assert(self@.messages =~= old(self)@.read_step(reader_id).messages);
            assert(self@ =~= old(self)@.read_step(reader_id));
        }
        Ok(Some(Response { message: m.bytes, hash: m.hash, is_valid }))
    }
}

} // verus!
