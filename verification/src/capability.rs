//! The `Capability` enum: discrete watching features a backend may support.

use vstd::prelude::*;

verus! {

/// One discrete watching feature a backend may or may not support.
///
/// Capabilities are compared by equality only; there is no ordering among
/// them. A backend reports the set of capabilities it supports as a
/// collection of unique `Capability` values, where only membership matters.
#[derive(Clone, Copy, Debug, PartialEq, Eq, Hash, Structural)]
pub enum Capability {
    /// Watching individual files.
    WatchFile,
    /// Watching directories.
    WatchFolder,
    /// Watching directory trees recursively.
    Recursive,
    /// Correlating the two halves of a rename pair.
    TrackRename,
    /// Following symbolic links while watching.
    FollowSymlinks,
    /// Detecting metadata-only changes.
    WatchMetadata,
    /// Emitting events for plain read accesses.
    EmitOnAccess,
}

/// Whether a backend that reported this capability set is currently operable.
///
/// An empty capability set means the backend is inoperable at the moment: a
/// frontend must not attempt construction against it and may select another
/// backend instead. A backend that knows up front it cannot run should fail
/// construction with `Unavailable` rather than advertise zero capabilities.
pub fn operable(capabilities: &Vec<Capability>) -> (r: bool)
    ensures
        r == (capabilities@.len() > 0),
{
    capabilities.len() > 0
}

} // verus!
