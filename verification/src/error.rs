//! The driver's error taxonomy.

use vstd::prelude::*;

verus! {

/// All the ways a driver operation can fail.
///
/// Every transport failure aborts the operation that saw it and is carried
/// to the caller wrapped in the variant matching the primitive that failed;
/// the driver never retries a failed transfer. `E` is the transport's own
/// error type.
#[derive(Debug, Clone, PartialEq, Eq)]
pub enum BmeError<E> {
    /// The transport failed during an addressed write.
    WriteError(E),
    /// The transport failed during an addressed write-then-read.
    WriteReadError(E),
    /// The chip-identity register reported the given byte instead of the
    /// recognized identity.
    UnexpectedChipId(u8),
    /// No poll within the bounded retry count reported fresh data.
    MeasuringTimeOut,
}

/// Whether a bus exchange is a write or a write-then-read; decides which
/// error variant wraps a transport failure.
#[derive(Debug, Clone, Copy, PartialEq, Eq, Structural)]
pub enum TransferKind {
    Write,
    WriteRead,
}

impl<E> BmeError<E> {
    /// Wraps a transport failure in the variant belonging to the kind of
    /// transfer that failed.
    pub fn from_transport(kind: TransferKind, cause: E) -> (r: BmeError<E>)
        ensures
            kind == TransferKind::Write ==> r == BmeError::WriteError(cause),
            kind == TransferKind::WriteRead ==> r == BmeError::WriteReadError(cause),
    {
        match kind {
            TransferKind::Write => BmeError::WriteError(cause),
            TransferKind::WriteRead => BmeError::WriteReadError(cause),
        }
    }
}

} // verus!
