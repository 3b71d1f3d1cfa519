//! Plain-value models of the native failure conditions a backend meets at its
//! I/O and FFI boundaries.
//!
//! A backend wraps a native watching facility, so the faults it surfaces
//! originate in I/O calls and in null-terminated-string conversions. The
//! types here carry exactly what the error taxonomy reads of such a fault:
//! its kind, its text, and where a conversion went wrong. The layer that
//! talks to the operating system converts its own error values into these.

use vstd::prelude::*;

verus! {

/// The kind of an I/O fault, as the error taxonomy distinguishes them.
///
/// Only `NotFound` receives special treatment during backend construction;
/// every other kind is surfaced verbatim.
#[derive(Clone, Copy, Debug, PartialEq, Eq, Hash, Structural)]
pub enum IoErrorKind {
    /// An entity (typically a watched path) was not found.
    NotFound,
    /// The operation lacked the necessary privileges.
    PermissionDenied,
    /// An entity unexpectedly already existed.
    AlreadyExists,
    /// The operation would need to block to complete.
    WouldBlock,
    /// A parameter was incorrect for the operation.
    InvalidInput,
    /// Data retrieved from the facility was malformed.
    InvalidData,
    /// The operation timed out.
    TimedOut,
    /// The operation was interrupted and can be retried.
    Interrupted,
    /// The facility reached an unexpected end of input.
    UnexpectedEof,
    /// Any other I/O fault.
    Other,
}

/// One I/O fault: its kind plus a human-readable description.
#[derive(Clone, Debug, PartialEq, Eq)]
pub struct IoError {
    /// The kind of the fault.
    pub kind: IoErrorKind,
    /// A human-readable description of the fault.
    pub message: String,
}

impl IoError {
    /// Builds an I/O fault value from its kind and description.
    pub fn new(kind: IoErrorKind, message: String) -> (r: IoError)
        ensures
            r.kind == kind,
            r.message == message,
    {
        IoError { kind, message }
    }
}

/// A nul byte was found inside bytes meant to become a null-terminated
/// string.
///
/// Carries the offending bytes and the position of the first interior nul.
#[derive(Clone, Debug, PartialEq, Eq)]
pub struct NulError {
    /// Index of the first nul byte within `bytes`.
    pub nul_position: usize,
    /// The bytes in which the nul byte was found.
    pub bytes: Vec<u8>,
}

impl NulError {
    /// `nul_position` points at the first nul byte of `bytes`.
    pub open spec fn well_formed(self) -> bool {
        &&& self.nul_position < self.bytes@.len()
        &&& self.bytes@[self.nul_position as int] == 0
        &&& forall|i: int| 0 <= i < self.nul_position ==> self.bytes@[i] != 0
    }

    /// Scans `bytes` for an interior nul byte; returns the failure value
    /// exactly when one is present.
    pub fn find(bytes: Vec<u8>) -> (r: Option<NulError>)
        ensures
            match r {
                Some(e) => e.bytes == bytes && e.well_formed(),
                None => forall|i: int| 0 <= i < bytes@.len() ==> bytes@[i] != 0,
            },
    {
        let mut i: usize = 0;
        while i < bytes.len()
            invariant
                0 <= i <= bytes@.len(),
                forall|k: int| 0 <= k < i ==> bytes@[k] != 0,
            decreases bytes@.len() - i,
        {
            if bytes[i] == 0 {
                return Some(NulError { nul_position: i, bytes });
            }
            i += 1;
        }
        None
    }
}

/// Bytes claimed to be text turned out not to be valid UTF-8 while being
/// converted back into an owned string.
///
/// Carries the offending bytes and how long their valid prefix is.
#[derive(Clone, Debug, PartialEq, Eq)]
pub struct IntoStringError {
    /// The bytes that failed the conversion.
    pub bytes: Vec<u8>,
    /// Length of the longest prefix of `bytes` that is valid UTF-8.
    pub valid_up_to: usize,
}

impl IntoStringError {
    /// The valid prefix does not extend past the bytes themselves.
    pub open spec fn well_formed(self) -> bool {
        self.valid_up_to <= self.bytes@.len()
    }

    /// Builds the failure value from the offending bytes and the length of
    /// their valid prefix.
    pub fn new(bytes: Vec<u8>, valid_up_to: usize) -> (r: IntoStringError)
        requires
            valid_up_to <= bytes@.len(),
        ensures
            r.bytes == bytes,
            r.valid_up_to == valid_up_to,
            r.well_formed(),
    {
        IntoStringError { bytes, valid_up_to }
    }
}

/// A byte buffer meant to hold exactly one null-terminated string was
/// malformed.
#[derive(Clone, Copy, Debug, PartialEq, Eq, Structural)]
pub enum FromBytesWithNulError {
    /// A nul byte stood before the end of the buffer, at this index.
    InteriorNul(usize),
    /// The buffer did not end with a nul byte.
    NotNulTerminated,
}

impl FromBytesWithNulError {
    /// Classifies why a buffer would fail to hold exactly one
    /// null-terminated string, judged from the buffer itself: the failure
    /// value exactly when the buffer is malformed, and `None` for a
    /// well-formed buffer, whose one nul byte is its last.
    pub fn classify(bytes: &Vec<u8>) -> (r: Option<FromBytesWithNulError>)
        ensures
            match r {
                None => bytes@.len() >= 1 && bytes@.last() == 0 && (forall|i: int|
                    0 <= i < bytes@.len() - 1 ==> bytes@[i] != 0),
                Some(FromBytesWithNulError::NotNulTerminated) => forall|i: int|
                    0 <= i < bytes@.len() ==> bytes@[i] != 0,
                Some(FromBytesWithNulError::InteriorNul(p)) => p + 1 < bytes@.len()
                    && bytes@[p as int] == 0 && (forall|i: int| 0 <= i < p ==> bytes@[i] != 0),
            },
    {
        let mut i: usize = 0;
        while i < bytes.len()
            invariant
                0 <= i <= bytes@.len(),
                forall|k: int| 0 <= k < i ==> bytes@[k] != 0,
            decreases bytes@.len() - i,
        {
            if bytes[i] == 0 {
                if i + 1 == bytes.len() {
                    return None;
                } else {
                    return Some(FromBytesWithNulError::InteriorNul(i));
                }
            }
            i += 1;
        }
        Some(FromBytesWithNulError::NotNulTerminated)
    }
}

} // verus!
