//! An accumulator of pending write operations with a use-once lifecycle.
//!
//! A [`WriteBatch`] is *open* while it accepts `put`, `delete` and `clear`;
//! handing it over for an atomic commit *consumes* it, successfully or not,
//! and every later mutation attempt is refused with a `BatchInvalid` error
//! rather than touching the engine. The batch itself is pure bookkeeping:
//! atomicity is a property of the commit that takes it, not of the batch.
//!
//! The meaning of a committed batch is given by [`apply_pending`]: the engine
//! applies the pending operations in sequence order, so a later operation on
//! a key supersedes an earlier one in the same batch.

use vstd::prelude::*;

use crate::error::{Error, ErrorKind, Operation};
use crate::order::clone_bytes;

verus! {

/// One pending operation: a key paired with `Some(value)` is an insert or
/// overwrite, a key paired with `None` a removal.
pub type PendingOp = (Seq<u8>, Option<Seq<u8>>);

/// A pending operation of a batch, as accumulated by [`WriteBatch`].
#[derive(Debug)]
pub enum BatchOp {
    /// Insert or overwrite `key` with `value`.
    Put { key: Vec<u8>, value: Vec<u8> },
    /// Remove `key`; removing an absent key is a no-op.
    Delete { key: Vec<u8> },
}

impl View for BatchOp {
    type V = PendingOp;

    open spec fn view(&self) -> PendingOp {
        match self {
            BatchOp::Put { key, value } => (key@, Some(value@)),
            BatchOp::Delete { key } => (key@, None),
        }
    }
}

/// The effect of a pending-operation sequence on a keyspace, applied oldest
/// first: this is the meaning of committing a batch atomically.
pub open spec fn apply_pending(
    m: Map<Seq<u8>, Seq<u8>>,
    ops: Seq<PendingOp>,
) -> Map<Seq<u8>, Seq<u8>>
    decreases ops.len(),
{
    if ops.len() == 0 {
        m
    } else {
        let applied = apply_pending(m, ops.drop_last());
        match ops.last().1 {
            Some(v) => applied.insert(ops.last().0, v),
            None => applied.remove(ops.last().0),
        }
    }
}

/// Within one batch the last operation on a key wins: after a final put of
/// `key` to `value`, the committed keyspace holds `value` at `key`, whatever
/// came before.
pub proof fn lemma_apply_pending_put_wins(
    m: Map<Seq<u8>, Seq<u8>>,
    ops: Seq<PendingOp>,
    key: Seq<u8>,
    value: Seq<u8>,
)
    ensures
        apply_pending(m, ops.push((key, Some(value)))).dom().contains(key),
        apply_pending(m, ops.push((key, Some(value))))[key] == value,
{
    let whole = ops.push((key, Some(value)));
    assert(whole.drop_last() =~= ops);
}

/// Within one batch the last operation on a key wins: after a final delete of
/// `key`, the committed keyspace holds nothing at `key`, whatever came before.
pub proof fn lemma_apply_pending_delete_wins(
    m: Map<Seq<u8>, Seq<u8>>,
    ops: Seq<PendingOp>,
    key: Seq<u8>,
)
    ensures
        !apply_pending(m, ops.push((key, None))).dom().contains(key),
{
    let whole = ops.push((key, None));
    assert(whole.drop_last() =~= ops);
}

/// A batch leaves keys it never names untouched.
pub proof fn lemma_apply_pending_frame(
    m: Map<Seq<u8>, Seq<u8>>,
    ops: Seq<PendingOp>,
    key: Seq<u8>,
)
    requires
        forall|i: int| 0 <= i < ops.len() ==> (#[trigger] ops[i]).0 != key,
    ensures
        apply_pending(m, ops).dom().contains(key) == m.dom().contains(key),
        m.dom().contains(key) ==> apply_pending(m, ops)[key] == m[key],
    decreases ops.len(),
{
    if ops.len() > 0 {
        assert(ops.drop_last() =~= ops.subrange(0, ops.len() - 1));
        lemma_apply_pending_frame(m, ops.drop_last(), key);
    }
}

/// Batch writer: an ordered accumulation of pending put/delete operations,
/// committed atomically and in order by a handle.
///
/// The lifecycle is linear: the batch is open until it is consumed by a
/// commit, and consumed forever after — also when the commit itself fails,
/// since the engine has already taken the operation set. `clear` empties the
/// pending sequence but does not change the lifecycle state.
pub struct WriteBatch {
    inner: Option<Vec<BatchOp>>,
}

impl WriteBatch {
    /// True while the batch is still open, that is, not yet consumed.
    pub closed spec fn is_open(&self) -> bool {
        self.inner is Some
    }

    /// The pending operations, oldest first. Meaningful only while open.
    pub closed spec fn pending(&self) -> Seq<PendingOp> {
        self.inner.unwrap()@.map_values(|op: BatchOp| op@)
    }

    /// Creates an open batch with no pending operations.
    pub fn new() -> (r: WriteBatch)
        ensures
            r.is_open(),
            r.pending() == Seq::<PendingOp>::empty(),
    {
        let r = WriteBatch { inner: Some(Vec::new()) };
        proof {
            assert(r.pending() =~= Seq::<PendingOp>::empty());
        }
        r
    }

    /// Appends an insert-or-overwrite of `key` to `value`.
    ///
    /// Refused with a `BatchInvalid` error once the batch has been consumed.
    pub fn put(&mut self, key: &Vec<u8>, value: &Vec<u8>) -> (r: Result<(), Error>)
        ensures
            old(self).is_open() ==> {
                &&& r is Ok
                &&& final(self).is_open()
                &&& final(self).pending() == old(self).pending().push((key@, Some(value@)))
            },
            !old(self).is_open() ==> {
                &&& !final(self).is_open()
                &&& r matches Err(e) && e.kind == ErrorKind::BatchInvalid && e.op
                    == Operation::Put
            },
    {
        match self.inner.take() {
            Some(mut ops) => {
                ops.push(BatchOp::Put { key: clone_bytes(key), value: clone_bytes(value) });
                self.inner = Some(ops);
                proof {
                    assert(self.pending() =~= old(self).pending().push((key@, Some(value@))));
                }
                Ok(())
            },
            None => Err(Error::batch_invalid(Operation::Put)),
        }
    }

    /// Appends a removal of `key`.
    ///
    /// Refused with a `BatchInvalid` error once the batch has been consumed.
    pub fn delete(&mut self, key: &Vec<u8>) -> (r: Result<(), Error>)
        ensures
            old(self).is_open() ==> {
                &&& r is Ok
                &&& final(self).is_open()
                &&& final(self).pending() == old(self).pending().push((key@, None))
            },
            !old(self).is_open() ==> {
                &&& !final(self).is_open()
                &&& r matches Err(e) && e.kind == ErrorKind::BatchInvalid && e.op
                    == Operation::Delete
            },
    {
        match self.inner.take() {
            Some(mut ops) => {
                ops.push(BatchOp::Delete { key: clone_bytes(key) });
                self.inner = Some(ops);
                proof {
                    assert(self.pending() =~= old(self).pending().push((key@, None)));
                }
                Ok(())
            },
            None => Err(Error::batch_invalid(Operation::Delete)),
        }
    }

    /// Discards every pending operation while keeping the batch open.
    ///
    /// Refused with a `BatchInvalid` error once the batch has been consumed.
    pub fn clear(&mut self) -> (r: Result<(), Error>)
        ensures
            old(self).is_open() ==> {
                &&& r is Ok
                &&& final(self).is_open()
                &&& final(self).pending() == Seq::<PendingOp>::empty()
            },
            !old(self).is_open() ==> {
                &&& !final(self).is_open()
                &&& r matches Err(e) && e.kind == ErrorKind::BatchInvalid && e.op
                    == Operation::Write
            },
    {
        match self.inner.take() {
            Some(mut ops) => {
                ops.clear();
                self.inner = Some(ops);
                proof {
                    assert(self.pending() =~= Seq::<PendingOp>::empty());
                }
                Ok(())
            },
            None => Err(Error::batch_invalid(Operation::Write)),
        }
    }

    /// Hands the pending operations out for a commit, consuming the batch:
    /// every later use of it is refused with a `BatchInvalid` error.
    ///
    /// Refused with the same error if the batch was consumed already.
    pub fn consume(&mut self) -> (r: Result<Vec<BatchOp>, Error>)
        ensures
            !final(self).is_open(),
            old(self).is_open() ==> (r matches Ok(ops) && ops@.map_values(|op: BatchOp| op@)
                == old(self).pending()),
            !old(self).is_open() ==> (r matches Err(e) && e.kind == ErrorKind::BatchInvalid
                && e.op == Operation::Write),
    {
        match self.inner.take() {
            Some(ops) => Ok(ops),
            None => Err(Error::batch_invalid(Operation::Write)),
        }
    }
}

} // verus!
