//! Paths as character sequences joined with `/`, which every supported
//! platform accepts as a separator.

use vstd::prelude::*;

verus! {

/// `dir` followed by a separator and `leaf`.
pub open spec fn join_path(dir: Seq<char>, leaf: Seq<char>) -> Seq<char> {
    dir + seq!['/'] + leaf
}

/// Joins `leaf` below `dir`.
pub fn join(dir: &str, leaf: &str) -> (r: String)
    ensures
        r@ == join_path(dir@, leaf@),
{
    let mut r = dir.to_owned();
    r.append("/");
    proof {
        reveal_strlit("/");
    }
    r.append(leaf);
    r
}

} // verus!
