//! A verified binding layer around an embedded persistent key-value engine.
//!
//! The engine itself — compaction, write-ahead log, on-disk format — is an
//! outside collaborator reached by the unverified rim of the program; this
//! crate is the boundary logic that stands between the two: a handle that
//! records how a store was opened, forward-only cursors over the keyspace,
//! use-once batches of pending mutations, and a single error taxonomy that
//! every engine failure is translated into at the point of the call.
//!
//! Each operation is split into the engine's own work, which crosses this
//! boundary as plain values — byte vectors, strings, `Result` replies — and
//! the decisions around it, which live here and are verified: what to ask
//! the engine, how to digest its answer, which error to report and when.
//! The rim performs one engine call and hands its outcome to the matching
//! function of this crate; everything it is handed back is proved.

use vstd::prelude::*;

pub mod error;
pub mod iterator;
pub mod order;
pub mod write_batch;

use vstd::utf8::{decode_utf8, encode_utf8, valid_utf8};
use vstd::string::StrSliceExecFns;

use crate::error::{Error, ErrorKind, Operation};
use crate::order::clone_bytes;

verus! {

/// Relies on `String::from_utf8`: it returns the string of exactly the given
/// bytes when they are valid UTF-8, and refuses them otherwise.
#[verifier::external_body]
fn bytes_to_string(bytes: &Vec<u8>) -> (r: Option<String>)
    ensures
        r is Some <==> valid_utf8(bytes@),
        r matches Some(s) ==> s@ == decode_utf8(bytes@),
{
    String::from_utf8(bytes.clone()).ok()
}

/// A handle to one open engine instance, recording the path it was opened
/// under as raw bytes.
///
/// The instance itself lives outside this layer and is shared: the handle and
/// every outstanding cursor hold counted references to it, and it closes only
/// when the last of them is released. What this layer owns and proves is the
/// bookkeeping around the instance: the recorded path, the shape of every
/// request, and the translation of every outcome.
#[derive(Debug)]
pub struct Handle {
    path: Vec<u8>,
}

impl Handle {
    /// The path recorded when the store was opened, as raw bytes.
    pub closed spec fn path_bytes(&self) -> Seq<u8> {
        self.path@
    }

    /// Read-only access to the recorded path, as raw bytes.
    pub fn path_raw(&self) -> (r: &Vec<u8>)
        ensures
            r@ == self.path_bytes(),
    {
        &self.path
    }

    /// The recorded path decoded as text.
    ///
    /// Fails with an `ArgumentError` — a decoding failure of this layer, not
    /// an engine failure — when the recorded bytes are not valid UTF-8.
    pub fn get_path(&self) -> (r: Result<String, Error>)
        ensures
            r is Ok <==> valid_utf8(self.path_bytes()),
            r matches Ok(s) ==> s@ == decode_utf8(self.path_bytes()),
            r matches Err(e) ==> {
                &&& e.kind == ErrorKind::ArgumentError
                &&& e.op == Operation::Path
                &&& e.subject matches Some(p)
                &&& p@ == self.path_bytes()
            },
    {
        match bytes_to_string(&self.path) {
            Some(s) => Ok(s),
            None => Err(
                Error::argument(
                    Operation::Path,
                    Some(clone_bytes(&self.path)),
                    "path is not valid utf-8 text".to_owned(),
                ),
            ),
        }
    }

    /// Digests the engine's reply to a point read of `key`: the value found,
    /// absence, or a failure reported as a `ReadError` naming the key.
    ///
    /// Absence is a normal outcome, distinguished from failure: it crosses as
    /// `Ok(None)`, never as an error.
    pub fn get(&self, key: &Vec<u8>, reply: Result<Option<Vec<u8>>, String>) -> (r: Result<
        Option<Vec<u8>>,
        Error,
    >)
        ensures
            reply matches Ok(v) ==> (r matches Ok(w) && w == v),
            reply matches Err(m) ==> {
                &&& r matches Err(e)
                &&& e.kind == ErrorKind::ReadError
                &&& e.op == Operation::Get
                &&& e.subject matches Some(s)
                &&& s@ == key@
                &&& e.message == m
            },
    {
        match reply {
            Ok(v) => Ok(v),
            Err(m) => Err(Error::engine(Operation::Get, Some(clone_bytes(key)), m, None)),
        }
    }

    /// Digests the engine's reply to an insert-or-overwrite of `key`: either
    /// the durable mutation happened, or its failure is reported as a
    /// `WriteError` naming the key.
    pub fn put(&self, key: &Vec<u8>, reply: Result<(), String>) -> (r: Result<(), Error>)
        ensures
            reply is Ok ==> r is Ok,
            reply matches Err(m) ==> {
                &&& r matches Err(e)
                &&& e.kind == ErrorKind::WriteError
                &&& e.op == Operation::Put
                &&& e.subject matches Some(s)
                &&& s@ == key@
                &&& e.message == m
            },
    {
        match reply {
            Ok(u) => Ok(u),
            Err(m) => Err(Error::engine(Operation::Put, Some(clone_bytes(key)), m, None)),
        }
    }

    /// Digests the engine's reply to a removal of `key`: removing an absent
    /// key is a normal no-op, so only an engine failure is reported, as a
    /// `WriteError` naming the key.
    pub fn delete(&self, key: &Vec<u8>, reply: Result<(), String>) -> (r: Result<(), Error>)
        ensures
            reply is Ok ==> r is Ok,
            reply matches Err(m) ==> {
                &&& r matches Err(e)
                &&& e.kind == ErrorKind::WriteError
                &&& e.op == Operation::Delete
                &&& e.subject matches Some(s)
                &&& s@ == key@
                &&& e.message == m
            },
    {
        match reply {
            Ok(u) => Ok(u),
            Err(m) => Err(Error::engine(Operation::Delete, Some(clone_bytes(key)), m, None)),
        }
    }

    /// Digests the engine's reply to an atomic commit of `attempted` pending
    /// operations, taken from a batch that [`write_batch::WriteBatch::consume`]
    /// has already consumed: a failure is reported as a `WriteError` carrying
    /// the number of operations attempted.
    pub fn complete_write(&self, attempted: usize, reply: Result<(), String>) -> (r: Result<
        (),
        Error,
    >)
        ensures
            reply is Ok ==> r is Ok,
            reply matches Err(m) ==> {
                &&& r matches Err(e)
                &&& e.kind == ErrorKind::WriteError
                &&& e.op == Operation::Write
                &&& e.subject is None
                &&& e.message == m
                &&& e.attempted == Some(attempted)
            },
    {
        match reply {
            Ok(u) => Ok(u),
            Err(m) => Err(Error::engine(Operation::Write, None, m, Some(attempted))),
        }
    }

    /// Returns a fresh cursor standing before the first entry of the
    /// keyspace. Creating it does not fail; engine trouble surfaces only when
    /// the cursor is driven.
    pub fn get_iter(&self) -> (r: iterator::RocksDBIterator)
        ensures
            !r.is_exhausted(),
            !r.is_started(),
    {
        iterator::RocksDBIterator::new()
    }

    /// Digests the engine's reply to a secondary instance catching up with
    /// its primary's log: meaningful on a handle opened as a secondary, a
    /// safe no-op on one already caught up, and a failure is reported as a
    /// `ReadError`.
    pub fn try_catch_up_with_primary(&self, reply: Result<(), String>) -> (r: Result<(), Error>)
        ensures
            reply is Ok ==> r is Ok,
            reply matches Err(m) ==> {
                &&& r matches Err(e)
                &&& e.kind == ErrorKind::ReadError
                &&& e.op == Operation::CatchUp
                &&& e.subject is None
                &&& e.message == m
            },
    {
        match reply {
            Ok(u) => Ok(u),
            Err(m) => Err(Error::engine(Operation::CatchUp, None, m, None)),
        }
    }
}

/// Builds the handle for a store the engine opened with default options under
/// `path`, or reports the engine's refusal as an `OpenError` naming the path.
pub fn open_default(path: &str, reply: Result<(), String>) -> (r: Result<Handle, Error>)
    ensures
        reply is Ok ==> (r matches Ok(h) && h.path_bytes() == encode_utf8(path@)),
        reply matches Err(m) ==> {
            &&& r matches Err(e)
            &&& e.kind == ErrorKind::OpenError
            &&& e.op == Operation::Open
            &&& e.subject matches Some(p)
            &&& p@ == encode_utf8(path@)
            &&& e.message == m
        },
{
    match reply {
        Ok(u) => Ok(Handle { path: path.as_bytes_vec() }),
        Err(m) => Err(Error::engine(Operation::Open, Some(path.as_bytes_vec()), m, None)),
    }
}

/// The expiry duration, in whole seconds, that the engine should be opened
/// with: a negative request is refused before it ever reaches the engine.
pub fn ttl_duration_secs(ttl_seconds: i64) -> (r: Option<u64>)
    ensures
        r is Some <==> ttl_seconds >= 0,
        r matches Some(s) ==> s == ttl_seconds,
{
    if ttl_seconds >= 0 {
        Some(ttl_seconds as u64)
    } else {
        None
    }
}

/// Builds the handle for a store the engine opened under `path` with entries
/// expiring `ttl_seconds` after they are written.
///
/// A negative `ttl_seconds` is refused with an `ArgumentError` before the
/// engine is involved — the rim must validate through [`ttl_duration_secs`]
/// first and only then open; the engine's own refusal is an `OpenError`.
pub fn open_with_ttl(path: &str, ttl_seconds: i64, reply: Result<(), String>) -> (r: Result<
    Handle,
    Error,
>)
    ensures
        ttl_seconds < 0 ==> {
            &&& r matches Err(e)
            &&& e.kind == ErrorKind::ArgumentError
            &&& e.op == Operation::Open
            &&& e.subject matches Some(p)
            &&& p@ == encode_utf8(path@)
        },
        ttl_seconds >= 0 && reply is Ok ==> (r matches Ok(h) && h.path_bytes() == encode_utf8(
            path@,
        )),
        ttl_seconds >= 0 ==> (reply matches Err(m) ==> {
            &&& r matches Err(e)
            &&& e.kind == ErrorKind::OpenError
            &&& e.op == Operation::Open
            &&& e.subject matches Some(p)
            &&& p@ == encode_utf8(path@)
            &&& e.message == m
        }),
{
    if ttl_seconds < 0 {
        Err(
            Error::argument(
                Operation::Open,
                Some(path.as_bytes_vec()),
                "ttl must be a non-negative number of seconds".to_owned(),
            ),
        )
    } else {
        match reply {
            Ok(u) => Ok(Handle { path: path.as_bytes_vec() }),
            Err(m) => Err(Error::engine(Operation::Open, Some(path.as_bytes_vec()), m, None)),
        }
    }
}

/// Builds the handle for a read-only secondary instance the engine opened
/// under `secondary_path`, tracking the log of the store at `primary_path`.
/// The handle records `secondary_path`; the engine's refusal is an
/// `OpenError` naming it.
pub fn open_as_secondary(
    primary_path: &str,
    secondary_path: &str,
    reply: Result<(), String>,
) -> (r: Result<Handle, Error>)
    ensures
        reply is Ok ==> (r matches Ok(h) && h.path_bytes() == encode_utf8(secondary_path@)),
        reply matches Err(m) ==> {
            &&& r matches Err(e)
            &&& e.kind == ErrorKind::OpenError
            &&& e.op == Operation::Open
            &&& e.subject matches Some(p)
            &&& p@ == encode_utf8(secondary_path@)
            &&& e.message == m
        },
{
    match reply {
        Ok(u) => Ok(Handle { path: secondary_path.as_bytes_vec() }),
        Err(m) => Err(
            Error::engine(Operation::Open, Some(secondary_path.as_bytes_vec()), m, None),
        ),
    }
}

/// Digests the engine's reply to a best-effort repair of the store at `path`:
/// recovery may lose data, and only a recovery that cannot proceed at all is
/// a failure, reported as an `OpenError` naming the path.
pub fn repair(path: &str, reply: Result<(), String>) -> (r: Result<(), Error>)
    ensures
        reply is Ok ==> r is Ok,
        reply matches Err(m) ==> {
            &&& r matches Err(e)
            &&& e.kind == ErrorKind::OpenError
            &&& e.op == Operation::Repair
            &&& e.subject matches Some(p)
            &&& p@ == encode_utf8(path@)
            &&& e.message == m
        },
{
    match reply {
        Ok(u) => Ok(u),
        Err(m) => Err(Error::engine(Operation::Repair, Some(path.as_bytes_vec()), m, None)),
    }
}

/// Digests the engine's reply to destroying all on-disk state at `path`: a
/// failure is reported as an `OpenError` naming the path.
pub fn destroy(path: &str, reply: Result<(), String>) -> (r: Result<(), Error>)
    ensures
        reply is Ok ==> r is Ok,
        reply matches Err(m) ==> {
            &&& r matches Err(e)
            &&& e.kind == ErrorKind::OpenError
            &&& e.op == Operation::Destroy
            &&& e.subject matches Some(p)
            &&& p@ == encode_utf8(path@)
            &&& e.message == m
        },
{
    match reply {
        Ok(u) => Ok(u),
        Err(m) => Err(Error::engine(Operation::Destroy, Some(path.as_bytes_vec()), m, None)),
    }
}

} // verus!
