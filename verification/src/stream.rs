//! The unit of data a running backend yields repeatedly.

use vstd::prelude::*;
use crate::event::Event;
use crate::native::IoError;

verus! {

/// A failure met while a backend was already running and streaming events.
///
/// This is a deliberately narrower set than the construction-time taxonomy:
/// once a backend runs, what can still go wrong is the native facility
/// itself.
#[derive(Clone, Debug, PartialEq, Eq)]
pub enum Error {
    /// A runtime failure represented by an arbitrary string, such as a lost
    /// native handle.
    Generic(String),
    /// An I/O fault met while reading or decoding events.
    Io(IoError),
}

/// One unit yielded by a running backend: a decoded event, or a stream-level
/// failure. A failure item is not necessarily fatal; the backend may keep
/// yielding items for unrelated paths afterwards.
pub type Item = Result<Event, Error>;

/// The outcome of a streaming operation that produces no value.
pub type EmptyResult = Result<(), Error>;

} // verus!
