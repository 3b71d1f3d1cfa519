//! The canonical representation of one observed filesystem change.

use vstd::prelude::*;

verus! {

/// Refines how something was accessed: the mode of an open or close.
#[derive(Clone, Copy, Debug, PartialEq, Eq, Hash, Structural)]
pub enum AccessMode {
    /// The mode is unknown or does not matter.
    Any,
    /// Accessed for execution.
    Execute,
    /// Accessed for reading.
    Read,
    /// Accessed for writing.
    Write,
    /// Some other mode of access.
    Other,
}

/// Something was accessed without being changed.
#[derive(Clone, Copy, Debug, PartialEq, Eq, Hash, Structural)]
pub enum AccessKind {
    /// The kind of access is unknown.
    Any,
    /// The content was read.
    Read,
    /// The file was opened, in the given mode.
    Open(AccessMode),
    /// The file was closed, after the given mode of access.
    Close(AccessMode),
    /// Some other kind of access.
    Other,
}

/// Something was created.
#[derive(Clone, Copy, Debug, PartialEq, Eq, Hash, Structural)]
pub enum CreateKind {
    /// What was created is unknown.
    Any,
    /// A file was created.
    File,
    /// A folder was created.
    Folder,
    /// Something else was created.
    Other,
}

/// Refines a change to the data of a file.
#[derive(Clone, Copy, Debug, PartialEq, Eq, Hash, Structural)]
pub enum DataChange {
    /// The nature of the change is unknown.
    Any,
    /// The size changed.
    Size,
    /// The content changed.
    Content,
    /// Some other aspect of the data changed.
    Other,
}

/// Refines a change to the metadata of something.
#[derive(Clone, Copy, Debug, PartialEq, Eq, Hash, Structural)]
pub enum MetadataKind {
    /// The kind of metadata is unknown.
    Any,
    /// The access time changed.
    AccessTime,
    /// The write time changed.
    WriteTime,
    /// Permissions changed.
    Permissions,
    /// Ownership changed.
    Ownership,
    /// An extended attribute changed.
    Extended,
    /// Some other kind of metadata changed.
    Other,
}

/// Which side of a rename an event describes.
#[derive(Clone, Copy, Debug, PartialEq, Eq, Hash, Structural)]
pub enum RenameMode {
    /// The side is unknown.
    Any,
    /// The event names the new path of the renamed thing.
    To,
    /// The event names the old path of the renamed thing.
    From,
    /// The event names both paths, old before new.
    Both,
    /// Some other rename situation.
    Other,
}

/// Something was changed.
#[derive(Clone, Copy, Debug, PartialEq, Eq, Hash, Structural)]
pub enum ModifyKind {
    /// The kind of change is unknown.
    Any,
    /// The data of a file changed.
    Data(DataChange),
    /// Metadata changed.
    Metadata(MetadataKind),
    /// The name changed: a rename, refined by which side is described.
    Name(RenameMode),
    /// Some other kind of change.
    Other,
}

/// Something was removed.
#[derive(Clone, Copy, Debug, PartialEq, Eq, Hash, Structural)]
pub enum RemoveKind {
    /// What was removed is unknown.
    Any,
    /// A file was removed.
    File,
    /// A folder was removed.
    Folder,
    /// Something else was removed.
    Other,
}

/// The coarse kind of one filesystem change, each arm optionally refined by
/// a sub-kind.
#[derive(Clone, Copy, Debug, PartialEq, Eq, Hash, Structural)]
pub enum EventKind {
    /// The kind of the change is unknown.
    Any,
    /// Something was accessed.
    Access(AccessKind),
    /// Something was created.
    Create(CreateKind),
    /// Something was changed.
    Modify(ModifyKind),
    /// Something was removed.
    Remove(RemoveKind),
    /// A change this taxonomy does not cover.
    Other,
}

impl EventKind {
    /// Whether this kind describes a rename, the one case in which one event
    /// may name more than one path.
    pub open spec fn is_rename(self) -> bool {
        self matches EventKind::Modify(ModifyKind::Name(_))
    }
}

/// One observed filesystem change.
///
/// An event always carries its kind and at least one absolute path; it names
/// more than one path only for a correlated rename pair. Backend-specific
/// attributes (timestamps, a process id, a cookie correlating split rename
/// halves) ride along as an open, optionally-empty side map from attribute
/// name to value.
#[derive(Clone, Debug, PartialEq, Eq)]
pub struct Event {
    /// The kind of the change.
    pub kind: EventKind,
    /// The paths involved, in the order the backend reported them.
    pub paths: Vec<String>,
    /// Backend-specific attributes, as unique-keyed (name, value) pairs.
    pub attrs: Vec<(String, String)>,
}

impl Event {
    /// Whether an attribute of this name is present.
    pub open spec fn has_attr(self, key: Seq<char>) -> bool {
        exists|i: int| 0 <= i < self.attrs@.len() && self.attrs@[i].0@ == key
    }

    /// The paths sequence is non-empty, several paths occur only on a rename
    /// pair, and attribute keys are unique.
    pub open spec fn well_formed(self) -> bool {
        &&& self.paths@.len() >= 1
        &&& self.paths@.len() > 1 ==> self.kind.is_rename()
        &&& forall|i: int, j: int|
            0 <= i < j < self.attrs@.len() ==> self.attrs@[i].0@ != self.attrs@[j].0@
    }

    /// Builds an event over its kind and paths, with no attributes.
    pub fn new(kind: EventKind, paths: Vec<String>) -> (ev: Event)
        requires
            paths@.len() >= 1,
            paths@.len() > 1 ==> kind.is_rename(),
        ensures
            ev.kind == kind,
            ev.paths == paths,
            ev.attrs@ == Seq::<(String, String)>::empty(),
            ev.well_formed(),
    {
        Event { kind, paths, attrs: Vec::new() }
    }

    /// Attaches a backend-specific attribute not yet present on the event.
    pub fn add_attr(&mut self, key: String, value: String)
        requires
            !old(self).has_attr(key@),
        ensures
            final(self).kind == old(self).kind,
            final(self).paths == old(self).paths,
            final(self).attrs@ == old(self).attrs@.push((key, value)),
            old(self).well_formed() ==> final(self).well_formed(),
    {
        self.attrs.push((key, value));
    }

    /// Looks an attribute up by name.
    pub fn attr(&self, key: &String) -> (r: Option<&String>)
        ensures
            match r {
                Some(v) => exists|i: int|
                    0 <= i < self.attrs@.len() && self.attrs@[i].0@ == key@
                        && self.attrs@[i].1@ == v@,
                None => !self.has_attr(key@),
            },
    {
        let mut i: usize = 0;
        while i < self.attrs.len()
            invariant
                0 <= i <= self.attrs@.len(),
                forall|k: int| 0 <= k < i ==> self.attrs@[k].0@ != key@,
            decreases self.attrs@.len() - i,
        {
            if self.attrs[i].0.eq(key) {
                return Some(&self.attrs[i].1);
            }
            i += 1;
        }
        None
    }
}

} // verus!
