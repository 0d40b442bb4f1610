//! What a rule set allows.
//!
//! A rule set that handles every access right denies everything, and each
//! exception gives back the rights it names on its path and on everything
//! beneath it. This module states that policy over paths as they are written.
//! It is what the kernel is asked to enforce; the kernel goes by the files
//! that the paths name when the rule set is made.

use crate::access::{Abi, AccessFs};
use crate::paths::{is_beneath, is_path_beneath, lemma_child_is_beneath, root_path};
use crate::restriction::{exceptions, ExceptionView, RulesetException};
use vstd::prelude::*;

verus! {

/// The exception gives `right` on `path`.
pub open spec fn grants(exception: ExceptionView, path: Seq<u8>, right: AccessFs) -> bool {
    is_beneath(exception.path, path) && exception.access.contains(right)
}

/// Some exception of the list gives `right` on `path`.
pub open spec fn allows(list: Seq<ExceptionView>, path: Seq<u8>, right: AccessFs) -> bool {
    exists|i: int| 0 <= i < list.len() && grants(#[trigger] list[i], path, right)
}

/// Whether the exception gives `right` on `path`.
pub fn exception_grants(exception: &RulesetException, path: &Vec<u8>, right: AccessFs) -> (granted:
    bool)
    ensures
        granted == grants(exception@, path@, right),
{
    exception.access.contains(right) && is_path_beneath(&exception.path, path)
}

/// Whether a rule set with the given exceptions allows `right` on `path`.
pub fn is_access_allowed(fs_exceptions: &Vec<RulesetException>, path: &Vec<u8>, right: AccessFs) -> (allowed:
    bool)
    ensures
        allowed == allows(exceptions(fs_exceptions@), path@, right),
{
    let mut i: usize = 0;
    while i < fs_exceptions.len()
        invariant
            i <= fs_exceptions.len(),
            forall|j: int| 0 <= j < i ==> !grants(#[trigger] exceptions(fs_exceptions@)[j], path@, right),
        decreases fs_exceptions.len() - i,
    {
        if exception_grants(&fs_exceptions[i], path, right) {
            assert(grants(exceptions(fs_exceptions@)[i as int], path@, right));
            return true;
        }
        i += 1;
    }
    false
}

/// Without exceptions nothing is allowed: no right, on no path.
pub proof fn lemma_no_exception_allows_nothing(path: Seq<u8>, right: AccessFs)
    ensures
        !allows(Seq::<ExceptionView>::empty(), path, right),
{
}

/// With a single exception, a right is allowed exactly where the exception
/// gives it: on what lies beneath its path, and only if it names the right.
pub proof fn lemma_single_exception(exception: ExceptionView, path: Seq<u8>, right: AccessFs)
    ensures
        allows(seq![exception], path, right) <==> is_beneath(exception.path, path)
            && exception.access.contains(right),
{
    let list = seq![exception];
    if grants(exception, path, right) {
        assert(grants(list[0], path, right));
    }
}

/// An exception for reading allows reading beneath its path, and nothing
/// else: no reading elsewhere, and no writing anywhere.
pub proof fn lemma_read_exception(dir: Seq<u8>, path: Seq<u8>)
    ensures
        is_beneath(dir, path) ==> allows(
            seq![ExceptionView { path: dir, access: AccessFs::read_rights(Abi::V1) }],
            path,
            AccessFs::ReadFile,
        ),
        !is_beneath(dir, path) ==> !allows(
            seq![ExceptionView { path: dir, access: AccessFs::read_rights(Abi::V1) }],
            path,
            AccessFs::ReadFile,
        ),
        !allows(
            seq![ExceptionView { path: dir, access: AccessFs::read_rights(Abi::V1) }],
            path,
            AccessFs::WriteFile,
        ),
{
    let exception = ExceptionView { path: dir, access: AccessFs::read_rights(Abi::V1) };
    lemma_single_exception(exception, path, AccessFs::ReadFile);
    lemma_single_exception(exception, path, AccessFs::WriteFile);
}

/// An exception for reading that leaves out the right to list directories
/// allows reading a file in its directory, and listing no directory.
pub proof fn lemma_read_without_listing(dir: Seq<u8>, name: Seq<u8>, path: Seq<u8>)
    requires
        dir.len() > 0,
    ensures
        allows(
            seq![
                ExceptionView {
                    path: dir,
                    access: AccessFs::read_rights(Abi::V1).remove(AccessFs::ReadDir),
                },
            ],
            dir + root_path() + name,
            AccessFs::ReadFile,
        ),
        !allows(
            seq![
                ExceptionView {
                    path: dir,
                    access: AccessFs::read_rights(Abi::V1).remove(AccessFs::ReadDir),
                },
            ],
            path,
            AccessFs::ReadDir,
        ),
{
    let exception = ExceptionView {
        path: dir,
        access: AccessFs::read_rights(Abi::V1).remove(AccessFs::ReadDir),
    };
    lemma_child_is_beneath(dir, name);
    lemma_single_exception(exception, dir + root_path() + name, AccessFs::ReadFile);
    lemma_single_exception(exception, path, AccessFs::ReadDir);
}

/// A further exception takes nothing away: what was allowed stays allowed.
pub proof fn lemma_more_exceptions_allow_more(
    list: Seq<ExceptionView>,
    exception: ExceptionView,
    path: Seq<u8>,
    right: AccessFs,
)
    requires
        allows(list, path, right),
    ensures
        allows(list.push(exception), path, right),
{
    let i = choose|i: int| 0 <= i < list.len() && grants(#[trigger] list[i], path, right);
    assert(list.push(exception)[i] == list[i]);
}

/// What is allowed on a path is allowed on everything beneath it.
pub proof fn lemma_allowed_beneath(
    list: Seq<ExceptionView>,
    path: Seq<u8>,
    below: Seq<u8>,
    right: AccessFs,
)
    requires
        allows(list, path, right),
        is_beneath(path, below),
    ensures
        allows(list, below, right),
{
    let i = choose|i: int| 0 <= i < list.len() && grants(#[trigger] list[i], path, right);
    crate::paths::lemma_beneath_is_transitive(list[i].path, path, below);
    assert(grants(list[i], below, right));
}

} // verus!
