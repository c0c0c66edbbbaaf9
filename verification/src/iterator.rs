//! A lazy, forward-only cursor over the engine's keyspace.
//!
//! The cursor walks the keyspace in ascending bytewise key order through a
//! monotonic lifecycle: not yet started, positioned on the key it yielded
//! last, exhausted. It never moves backwards and, once exhausted, yields
//! nothing forever — exhaustion is a normal outcome, distinguished from
//! failure at the type level.
//!
//! The cursor itself is pure bookkeeping over plain values. It names, through
//! [`RocksDBIterator::seek_bound`], the inclusive lower bound the engine
//! should seek to next, and digests the engine's answer through
//! [`RocksDBIterator::advance`], refusing any answer that would move it
//! backwards. Because each step seeks afresh, the sequence it yields reads
//! from a non-isolated view: writes made during iteration may or may not
//! become visible, exactly as the engine itself leaves this open.

use vstd::prelude::*;

use crate::error::{Error, ErrorKind, Operation};
use crate::order::{clone_bytes, lemma_lex_lt_from_successor, lex_le, lex_less, lex_lt};

verus! {

/// Where a cursor stands in its monotonic lifecycle.
#[derive(Debug)]
pub enum CursorState {
    /// No entry has been yielded yet.
    NotStarted,
    /// An entry was yielded, most recently the one keyed `last_key`.
    Positioned { last_key: Vec<u8> },
    /// The keyspace is exhausted; nothing will be yielded again.
    Exhausted,
}

/// The engine's answer to one seek request: the first entry at or after the
/// requested inclusive lower bound.
#[derive(Debug)]
pub enum SeekReply {
    /// The entry the engine found.
    Found { key: Vec<u8>, value: Vec<u8> },
    /// No entry lies at or after the bound.
    End,
    /// The engine could not read; `message` is its diagnostic.
    Failed { message: String },
}

/// A forward-only cursor over the full keyspace in ascending bytewise key
/// order, yielding each entry as a (key, value) pair of raw bytes.
pub struct RocksDBIterator {
    state: CursorState,
}

impl RocksDBIterator {
    /// True once the keyspace is exhausted: nothing will be yielded again.
    pub closed spec fn is_exhausted(&self) -> bool {
        self.state is Exhausted
    }

    /// True once at least one entry has been yielded.
    pub closed spec fn is_started(&self) -> bool {
        self.state is Positioned
    }

    /// The key of the entry yielded most recently.
    pub closed spec fn last_key(&self) -> Seq<u8>
        recommends
            self.is_started(),
    {
        self.state->last_key@
    }

    /// Creates a cursor standing before the first entry of the keyspace.
    pub fn new() -> (r: RocksDBIterator)
        ensures
            !r.is_exhausted(),
            !r.is_started(),
    {
        RocksDBIterator { state: CursorState::NotStarted }
    }

    /// The inclusive lower bound the engine should be asked to seek to for
    /// the next entry, or `None` when the cursor is exhausted and no request
    /// is needed: the empty key before the first entry, and the successor of
    /// the last yielded key — that key followed by a zero byte — afterwards.
    pub fn seek_bound(&self) -> (r: Option<Vec<u8>>)
        ensures
            r is None <==> self.is_exhausted(),
            !self.is_exhausted() && !self.is_started() ==> (r matches Some(b) && b@
                == Seq::<u8>::empty()),
            self.is_started() ==> (r matches Some(b) && b@ == self.last_key().push(0u8)),
    {
        match &self.state {
            CursorState::NotStarted => Some(Vec::new()),
            CursorState::Positioned { last_key } => {
                let mut bound = clone_bytes(last_key);
                bound.push(0u8);
                Some(bound)
            },
            CursorState::Exhausted => None,
        }
    }

    /// An engine that honours the seek bound is never refused: any key at or
    /// after the bound of a started cursor lies strictly beyond the key
    /// yielded last, so [`Self::advance`] accepts it, and the keys a cursor
    /// yields ascend strictly across its whole life.
    pub proof fn lemma_bound_keeps_keys_ascending(&self, key: Seq<u8>)
        requires
            self.is_started(),
            lex_le(self.last_key().push(0u8), key),
        ensures
            lex_lt(self.last_key(), key),
    {
        lemma_lex_lt_from_successor(self.last_key(), key);
    }

    /// Advances on the engine's answer to a seek at [`Self::seek_bound`].
    ///
    /// A found entry is yielded and becomes the cursor's position, provided
    /// its key lies strictly beyond the last yielded key; an entry at or
    /// before it means the engine broke its ascending order, which this layer
    /// treats as an unreachable state and refuses without moving. The end of
    /// the keyspace exhausts the cursor permanently; asking again after that
    /// keeps yielding nothing, which is not an error. An engine failure is
    /// reported as `InternalError` and leaves the cursor where it stood.
    pub fn advance(&mut self, reply: SeekReply) -> (r: Result<Option<(Vec<u8>, Vec<u8>)>, Error>)
        ensures
            old(self).is_exhausted() ==> {
                &&& *final(self) == *old(self)
                &&& r matches Ok(y)
                &&& y is None
            },
            !old(self).is_exhausted() && reply is End ==> {
                &&& final(self).is_exhausted()
                &&& !final(self).is_started()
                &&& r matches Ok(y)
                &&& y is None
            },
            !old(self).is_exhausted() ==> (reply matches SeekReply::Failed { message } ==> {
                &&& *final(self) == *old(self)
                &&& r matches Err(e)
                &&& e.kind == ErrorKind::InternalError
                &&& e.op == Operation::Get
                &&& e.message == message
            }),
            !old(self).is_exhausted() ==> (reply matches SeekReply::Found { key, value } ==> {
                &&& !old(self).is_started() ==> {
                    &&& final(self).is_started()
                    &&& !final(self).is_exhausted()
                    &&& final(self).last_key() == key@
                    &&& r matches Ok(y)
                    &&& y matches Some(p)
                    &&& p.0 == key
                    &&& p.1 == value
                }
                &&& old(self).is_started() && lex_lt(old(self).last_key(), key@) ==> {
                    &&& final(self).is_started()
                    &&& !final(self).is_exhausted()
                    &&& final(self).last_key() == key@
                    &&& r matches Ok(y)
                    &&& y matches Some(p)
                    &&& p.0 == key
                    &&& p.1 == value
                }
                &&& old(self).is_started() && !lex_lt(old(self).last_key(), key@) ==> {
                    &&& *final(self) == *old(self)
                    &&& r matches Err(e)
                    &&& e.kind == ErrorKind::InternalError
                    &&& e.op == Operation::Get
                }
            }),
    {
        match reply {
            SeekReply::End => {
                match &self.state {
                    CursorState::Exhausted => Ok(None),
                    _ => {
                        self.state = CursorState::Exhausted;
                        Ok(None)
                    },
                }
            },
            SeekReply::Failed { message } => {
                match &self.state {
                    CursorState::Exhausted => Ok(None),
                    _ => Err(Error::internal(Operation::Get, message)),
                }
            },
            SeekReply::Found { key, value } => {
                match &self.state {
                    CursorState::Exhausted => Ok(None),
                    CursorState::NotStarted => {
                        self.state = CursorState::Positioned { last_key: clone_bytes(&key) };
                        Ok(Some((key, value)))
                    },
                    CursorState::Positioned { last_key } => {
                        if lex_less(last_key, &key) {
                            self.state = CursorState::Positioned { last_key: clone_bytes(&key) };
                            Ok(Some((key, value)))
                        } else {
                            Err(
                                Error::internal(
                                    Operation::Get,
                                    "engine iterator yielded keys out of ascending order".to_owned(),
                                ),
                            )
                        }
                    },
                }
            },
        }
    }
}

} // verus!
