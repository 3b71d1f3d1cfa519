//! Helpers for the path collections that run through the backend boundary.
//!
//! Paths cross this boundary as plain strings; a frontend hands a backend an
//! ordered collection of them and error reporting attributes failures to
//! subsets of that collection.

use vstd::prelude::*;

verus! {

/// The sequence of character views of a sequence of path strings.
pub open spec fn path_views(paths: Seq<String>) -> Seq<Seq<char>> {
    paths.map_values(|p: String| p@)
}

/// No path occurs twice in the sequence.
pub open spec fn unique_paths(paths: Seq<Seq<char>>) -> bool {
    forall|i: int, j: int| 0 <= i < j < paths.len() ==> paths[i] != paths[j]
}

/// Whether `path` occurs in `paths`, compared by value.
pub fn contains_path(paths: &Vec<String>, path: &String) -> (r: bool)
    ensures
        r == path_views(paths@).contains(path@),
{
    let mut i: usize = 0;
    while i < paths.len()
        invariant
            0 <= i <= paths@.len(),
            forall|k: int| 0 <= k < i ==> path_views(paths@)[k] != path@,
        decreases paths@.len() - i,
    {
        if paths[i].eq(path) {
            assert(path_views(paths@)[i as int] == path@);
            return true;
        }
        i += 1;
    }
    false
}

} // verus!
