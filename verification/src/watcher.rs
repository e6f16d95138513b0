//! Deciding which file-system events in a repository's `.git` folder mean a
//! commit happened.

use vstd::prelude::*;
use crate::text::{contains, contains_in, same_text, to_chars};

verus! {

/// A changed path, as the commit test reads it.
pub struct ChangedPath {
    /// The path's last component, when that is a file or folder name.
    pub file_name: Option<String>,
    /// The whole path as text.
    pub display: String,
}

/// A path marks a commit when its last component is `HEAD` or it lies under
/// `refs/heads`.
pub open spec fn marks_commit(path: ChangedPath) -> bool {
    ||| path.file_name matches Some(name) && name@ == "HEAD"@
    ||| contains(path.display@, "refs/heads"@)
}

/// Whether a changed path marks a commit.
pub fn path_marks_commit(path: &ChangedPath) -> (marks: bool)
    ensures
        marks == marks_commit(*path),
{
    let named_head = match &path.file_name {
        Some(name) => same_text(name.as_str(), "HEAD"),
        None => false,
    };
    if named_head {
        return true;
    }
    let text = to_chars(path.display.as_str());
    let needle = to_chars("refs/heads");
    assert(text@.subrange(0, text@.len() as int) =~= text@);
    contains_in(&text, 0, text.len(), &needle)
}

/// Whether a batch of changed paths reports a commit: some path marks one.
pub fn is_commit_event(paths: &Vec<ChangedPath>) -> (commit: bool)
    ensures
        commit == exists|i: int| 0 <= i < paths@.len() && marks_commit(#[trigger] paths@[i]),
{
    let mut i: usize = 0;
    while i < paths.len()
        invariant
            i <= paths@.len(),
            forall|j: int| 0 <= j < i ==> !marks_commit(#[trigger] paths@[j]),
        decreases paths@.len() - i,
    {
        if path_marks_commit(&paths[i]) {
            return true;
        }
        i = i + 1;
    }
    false
}

} // verus!
