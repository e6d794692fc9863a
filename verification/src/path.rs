//! The directory above a path, as std finds it. Nothing in this file is proved:
//! it states what std is taken to do.

use std::path::Path;
use vstd::prelude::*;

verus! {

/// The path without its last component, as std reads paths: a matter of the
/// path's text alone, in which no file is looked at. `None` where the path
/// has nothing above it.
pub uninterp spec fn parent_of(path: Seq<char>) -> Option<Seq<char>>;

/// `Path::parent` of std, on the path that `path` spells.
#[verifier::external_body]
pub(crate) fn path_parent(path: &str) -> (dir: Option<String>)
    ensures
        dir.deep_view() == parent_of(path@),
{
    Path::new(path).parent().map(|dir| dir.to_string_lossy().into_owned())
}

} // verus!
