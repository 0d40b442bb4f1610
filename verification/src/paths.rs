//! Paths, taken as they are written.
//!
//! A path is a byte string whose components are separated by `/`. Nothing is
//! resolved: `.` and `..` are components like any other, and links are not
//! followed.

use crate::bytes::{is_prefix, starts_with};
use vstd::prelude::*;

verus! {

/// The byte `/`.
pub const SLASH: u8 = 0x2f;

/// The root directory's path.
pub open spec fn root_path() -> Seq<u8> {
    seq![SLASH]
}

/// `path` names `dir` itself or something below it.
pub open spec fn is_beneath(dir: Seq<u8>, path: Seq<u8>) -> bool {
    &&& dir.len() > 0
    &&& is_prefix(dir, path)
    &&& (path.len() == dir.len() || dir.last() == SLASH || path[dir.len() as int] == SLASH)
}

/// The name that a path beneath `dir` has once `dir` is the root.
pub open spec fn relocated(dir: Seq<u8>, path: Seq<u8>) -> Seq<u8> {
    let rest = path.subrange(dir.len() as int, path.len() as int);
    if dir.len() > 0 && dir.last() == SLASH {
        root_path() + rest
    } else if path.len() == dir.len() {
        root_path()
    } else {
        rest
    }
}

/// The root directory's path.
pub fn root_directory() -> (path: Vec<u8>)
    ensures
        path@ == root_path(),
{
    let mut path: Vec<u8> = Vec::new();
    path.push(SLASH);
    path
}

/// Whether `path` names `dir` itself or something below it.
pub fn is_path_beneath(dir: &Vec<u8>, path: &Vec<u8>) -> (beneath: bool)
    ensures
        beneath == is_beneath(dir@, path@),
{
    if dir.len() == 0 || !starts_with(path, dir) {
        return false;
    }
    path.len() == dir.len() || dir[dir.len() - 1] == SLASH || path[dir.len()] == SLASH
}

/// A path lies beneath itself.
pub proof fn lemma_beneath_itself(dir: Seq<u8>)
    requires
        dir.len() > 0,
    ensures
        is_beneath(dir, dir),
{
    assert(dir.subrange(0, dir.len() as int) =~= dir);
}

/// What lies beneath a path that lies beneath a directory lies beneath that
/// directory.
pub proof fn lemma_beneath_is_transitive(top: Seq<u8>, middle: Seq<u8>, path: Seq<u8>)
    requires
        is_beneath(top, middle),
        is_beneath(middle, path),
    ensures
        is_beneath(top, path),
{
    assert(path.subrange(0, top.len() as int) =~= middle.subrange(0, top.len() as int)) by {
        assert(path.subrange(0, middle.len() as int) == middle);
        assert forall|i: int| 0 <= i < top.len() implies path[i] == middle[i] by {
            assert(path.subrange(0, middle.len() as int)[i] == middle[i]);
        }
    }
    if middle.len() > top.len() && top.last() != SLASH {
        assert(path.subrange(0, middle.len() as int)[top.len() as int] == middle[top.len() as int]);
    }
}

/// A file in a directory lies beneath that directory: the directory's path,
/// `/`, and a name.
pub proof fn lemma_child_is_beneath(dir: Seq<u8>, name: Seq<u8>)
    requires
        dir.len() > 0,
    ensures
        is_beneath(dir, dir + root_path() + name),
{
    let child = dir + root_path() + name;
    assert(child.subrange(0, dir.len() as int) =~= dir);
    assert(child[dir.len() as int] == SLASH);
}

} // verus!
