//! The branch snapshot: the checked-out branch and the local and remote
//! branch names, rebuilt wholesale after any mutating branch operation.

use vstd::prelude::*;
use vstd::string::StrSliceExecFns;
use vstd::string::StringExecFns;

use crate::text::str_eq;

verus! {

/// The branch lists as last reported by the repository collaborator: the
/// current branch's short name and the local and remote branch names, in the
/// collaborator's order. Never patched in place: after a checkout, create or
/// delete the whole value is built again from a fresh query.
pub struct Branch {
    pub current: String,
    pub local_branches: Vec<String>,
    pub remote_branches: Vec<String>,
}

/// The local branch name that tracks a remote branch: the name with a
/// leading `origin/` removed, or the name itself under any other remote
/// prefix.
pub open spec fn spec_local_tracking_name(s: Seq<char>) -> Seq<char> {
    if s.len() >= 7 && s.subrange(0, 7) == "origin/"@ {
        s.subrange(7, s.len() as int)
    } else {
        s
    }
}

impl Branch {
    /// A snapshot from one fresh query of the collaborator.
    pub fn new(current: String, local_branches: Vec<String>, remote_branches: Vec<String>) -> (r:
        Branch)
        ensures
            r.current == current,
            r.local_branches == local_branches,
            r.remote_branches == remote_branches,
    {
        Branch { current, local_branches, remote_branches }
    }

    /// Whether the named branch may be deleted: everything but the branch
    /// that is currently checked out. On refusal, the error text says so.
    pub fn delete_branch(&self, branch_name: &str) -> (r: Result<(), String>)
        ensures
            r is Ok <==> branch_name@ != self.current@,
            r matches Err(m) ==> m@ == "Cannot delete the current branch"@,
    {
        if str_eq(branch_name, self.current.as_str()) {
            Err(String::from_str("Cannot delete the current branch"))
        } else {
            Ok(())
        }
    }
}

/// The local tracking name for a remote branch (`origin/main` checks out as
/// `main`; any other remote's name is kept whole).
pub fn local_tracking_name(name: &str) -> (r: String)
    ensures
        r@ == spec_local_tracking_name(name@),
{
    let len = name.unicode_len();
    if len >= 7 && str_eq(name.substring_char(0, 7), "origin/") {
        String::from_str(name.substring_char(7, len))
    } else {
        String::from_str(name)
    }
}

} // verus!
