//! Planning the local lab directory for a machine: what to do with the
//! path, given what the filesystem says of it.

use vstd::prelude::*;

verus! {

/// What to do with a machine's home path: keep the directory that is
/// already there, refuse a path whose parent is missing, refuse a path that
/// exists but is no directory, or create the directory.
#[derive(Copy, Clone, Debug, PartialEq, Eq, Structural)]
pub enum DirPlan {
    UseExisting,
    BadParent,
    NotADirectory,
    Create,
}

/// Decides what to do with the home path. `is_dir` and `path_exists` say
/// what the path itself is; `has_parent` whether the path names a parent at
/// all, and `parent_exists` whether that parent is there. A directory is
/// kept; otherwise a named but missing parent is refused, then an existing
/// non-directory is refused, and only then is the directory created.
pub fn plan_lab_dir(is_dir: bool, has_parent: bool, parent_exists: bool, path_exists: bool) -> (r:
    DirPlan)
    ensures
        is_dir ==> r == DirPlan::UseExisting,
        !is_dir && has_parent && !parent_exists ==> r == DirPlan::BadParent,
        !is_dir && (!has_parent || parent_exists) && path_exists ==> r == DirPlan::NotADirectory,
        !is_dir && (!has_parent || parent_exists) && !path_exists ==> r == DirPlan::Create,
{
    if is_dir {
        DirPlan::UseExisting
    } else if has_parent && !parent_exists {
        DirPlan::BadParent
    } else if path_exists {
        DirPlan::NotADirectory
    } else {
        DirPlan::Create
    }
}

} // verus!
