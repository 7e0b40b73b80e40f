//! Where a repository is looked for at startup: the working directory and a
//! bounded number of parent directories.

use vstd::prelude::*;
use vstd::string::StringExecFns;

verus! {

/// `k` steps up from the working directory, as a relative path.
pub open spec fn spec_updirs(k: int) -> Seq<char>
    decreases k,
{
    if k <= 0 {
        Seq::empty()
    } else {
        spec_updirs(k - 1) + "../"@
    }
}

/// The candidate paths a repository is opened at, in order: the working
/// directory itself, then one to five parent directories. The search is
/// bounded; past the last candidate the startup fails.
pub fn repo_search_paths() -> (r: Vec<String>)
    ensures
        r@.len() == 6,
        r@[0]@ == "."@,
        forall|k: int| 1 <= k < 6 ==> r@[k]@ == spec_updirs(k),
{
    let mut r: Vec<String> = Vec::new();
    r.push(String::from_str("."));
    let mut path = String::new();
    let mut k: usize = 1;
    while k <= 5
        invariant
            1 <= k <= 6,
            path@ == spec_updirs(k - 1),
            r@.len() == k,
            r@[0]@ == "."@,
            forall|j: int| 1 <= j < k ==> r@[j]@ == spec_updirs(j),
        decreases 6 - k,
    {
        path.append("../");
        r.push(path.clone());
        k += 1;
    }
    r
}

} // verus!
