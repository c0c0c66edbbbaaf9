//! The error taxonomy of the binding layer.
//!
//! Every engine-level failure is translated at the point of the call into an
//! [`Error`]: a tagged value carrying the operation that failed, the key or
//! path involved where applicable, and the underlying engine diagnostic.
//! Nothing is retried here, and no failure is reported through a panic: the
//! verified functions of this crate are proved panic-free.

use vstd::prelude::*;

verus! {

/// The boundary operation in progress when a failure arose.
#[derive(Clone, Copy, Debug, PartialEq, Eq, Structural)]
pub enum Operation {
    /// A point read of one key.
    Get,
    /// An insert or overwrite of one key.
    Put,
    /// A removal of one key.
    Delete,
    /// An atomic commit of a batch of pending operations.
    Write,
    /// A secondary instance applying new log records from its primary.
    CatchUp,
    /// Opening a store.
    Open,
    /// Best-effort recovery of an unopenable store.
    Repair,
    /// Irreversible removal of a store's on-disk state.
    Destroy,
    /// Decoding the recorded path of an open store as text.
    Path,
}

/// The externally visible kind of a failure.
#[derive(Clone, Copy, Debug, PartialEq, Eq, Structural)]
pub enum ErrorKind {
    /// An administrative operation on a store (open, repair, destroy) failed.
    OpenError,
    /// A read-side operation (get, catch-up) failed inside the engine.
    ReadError,
    /// A mutating operation (put, delete, batch commit) failed inside the engine.
    WriteError,
    /// A batch was used again after it had already been consumed by a commit.
    BatchInvalid,
    /// An argument was rejected before it ever reached the engine.
    ArgumentError,
    /// An engine state was reached that this layer treats as unreachable.
    InternalError,
}

/// The kind under which an engine-level failure of `op` is reported:
/// administrative operations on a whole store report `OpenError`, read-side
/// operations `ReadError`, and mutating operations `WriteError`.
pub open spec fn engine_kind_of(op: Operation) -> ErrorKind {
    match op {
        Operation::Get => ErrorKind::ReadError,
        Operation::CatchUp => ErrorKind::ReadError,
        Operation::Put => ErrorKind::WriteError,
        Operation::Delete => ErrorKind::WriteError,
        Operation::Write => ErrorKind::WriteError,
        Operation::Open => ErrorKind::OpenError,
        Operation::Repair => ErrorKind::OpenError,
        Operation::Destroy => ErrorKind::OpenError,
        Operation::Path => ErrorKind::ArgumentError,
    }
}

/// A failure translated at the binding boundary.
///
/// The engine's native failures never cross this layer raw: each is caught at
/// the point of the call and rewritten into this shape, so that a caller can
/// tell what failed, on which subject, and why, without re-running anything.
#[derive(Debug)]
pub struct Error {
    /// The externally visible kind of the failure.
    pub kind: ErrorKind,
    /// The operation that failed.
    pub op: Operation,
    /// The key or path involved, where one applies.
    pub subject: Option<Vec<u8>>,
    /// The underlying engine diagnostic, or this layer's own short description.
    pub message: String,
    /// For a failed atomic commit: the number of operations that were attempted.
    pub attempted: Option<usize>,
}

impl Error {
    /// Translates an engine-level failure of `op` into the boundary taxonomy.
    ///
    /// `subject` is the key or path the operation was applied to, `message` the
    /// engine's own diagnostic, and `attempted`, for a batch commit, the number
    /// of pending operations that were handed to the engine.
    pub fn engine(
        op: Operation,
        subject: Option<Vec<u8>>,
        message: String,
        attempted: Option<usize>,
    ) -> (r: Error)
        ensures
            r.kind == engine_kind_of(op),
            r.op == op,
            r.subject == subject,
            r.message == message,
            r.attempted == attempted,
    {
        let kind = match op {
            Operation::Get => ErrorKind::ReadError,
            Operation::CatchUp => ErrorKind::ReadError,
            Operation::Put => ErrorKind::WriteError,
            Operation::Delete => ErrorKind::WriteError,
            Operation::Write => ErrorKind::WriteError,
            Operation::Open => ErrorKind::OpenError,
            Operation::Repair => ErrorKind::OpenError,
            Operation::Destroy => ErrorKind::OpenError,
            Operation::Path => ErrorKind::ArgumentError,
        };
        Error { kind, op, subject, message, attempted }
    }

    /// The failure reported when a consumed batch is used again.
    pub fn batch_invalid(op: Operation) -> (r: Error)
        ensures
            r.kind == ErrorKind::BatchInvalid,
            r.op == op,
            r.subject is None,
            r.message@ == "batch writer is invalid. you need to create new one."@,
            r.attempted is None,
    {
        Error {
            kind: ErrorKind::BatchInvalid,
            op,
            subject: None,
            message: "batch writer is invalid. you need to create new one.".to_owned(),
            attempted: None,
        }
    }

    /// The failure reported when an argument is rejected before reaching the
    /// engine, such as a negative expiry duration or a path that is not text.
    pub fn argument(op: Operation, subject: Option<Vec<u8>>, message: String) -> (r: Error)
        ensures
            r.kind == ErrorKind::ArgumentError,
            r.op == op,
            r.subject == subject,
            r.message == message,
            r.attempted is None,
    {
        Error { kind: ErrorKind::ArgumentError, op, subject, message, attempted: None }
    }

    /// The failure reported when the engine reaches a state this layer treats
    /// as unreachable, such as an iterator failing on an already open store.
    pub fn internal(op: Operation, message: String) -> (r: Error)
        ensures
            r.kind == ErrorKind::InternalError,
            r.op == op,
            r.subject is None,
            r.message == message,
            r.attempted is None,
    {
        Error { kind: ErrorKind::InternalError, op, subject: None, message, attempted: None }
    }
}

} // verus!
