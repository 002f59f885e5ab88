//! Locating the backend entry point.
//!
//! The backend is deployed in one of several layouts (bundled executable,
//! bundled script, system-installed script), so the shell tries a fixed,
//! prioritized list of candidate entry points and launches the first one
//! whose file exists.  The existence checks themselves are filesystem reads
//! made by the application; this module receives their results and makes
//! the choice.

use vstd::prelude::*;

verus! {

/// One way of starting the backend: the file to launch and the directory
/// the backend must run in (so its relative file access resolves next to
/// its own code, wherever the shell executable lives).
pub struct LaunchCandidate {
    pub entry_point: String,
    pub working_dir: String,
}

/// The index of the first `true` in `s`, if any: the position of the first
/// candidate that passed its probe.
pub open spec fn first_true(s: Seq<bool>) -> Option<int>
    decreases s.len(),
{
    if s.len() == 0 {
        None
    } else if s[0] {
        Some(0)
    } else {
        match first_true(s.subrange(1, s.len() as int)) {
            Some(i) => Some(i + 1),
            None => None,
        }
    }
}

/// `first_true` finds exactly the position whose prefix is all `false`.
pub proof fn lemma_first_true_at(s: Seq<bool>, k: int)
    requires
        0 <= k < s.len(),
        s[k],
        forall|j: int| 0 <= j < k ==> !s[j],
    ensures
        first_true(s) == Some(k),
    decreases s.len(),
{
    if k > 0 {
        let t = s.subrange(1, s.len() as int);
        assert(forall|j: int| 0 <= j < k - 1 ==> !t[j]);
        lemma_first_true_at(t, k - 1);
    }
}

/// When no element is `true`, `first_true` finds nothing.
pub proof fn lemma_first_true_none(s: Seq<bool>)
    requires
        forall|j: int| 0 <= j < s.len() ==> !s[j],
    ensures
        first_true(s) is None,
    decreases s.len(),
{
    if s.len() > 0 {
        let t = s.subrange(1, s.len() as int);
        assert(forall|j: int| 0 <= j < t.len() ==> !t[j]);
        lemma_first_true_none(t);
    }
}

/// When exactly one candidate exists, it is the one located, wherever it
/// stands in the priority order.
pub proof fn lemma_locate_unique(present: Seq<bool>, k: int)
    requires
        0 <= k < present.len(),
        present[k],
        forall|j: int| 0 <= j < present.len() && j != k ==> !present[j],
    ensures
        first_true(present) == Some(k),
{
    lemma_first_true_at(present, k);
}

/// Picks the backend entry point: the first candidate whose entry-point
/// file exists.  `present[i]` reports whether `candidates[i].entry_point`
/// exists on disk; the result indexes into `candidates`.
pub fn locate_backend(candidates: &Vec<LaunchCandidate>, present: &Vec<bool>) -> (r: Option<
    usize,
>)
    requires
        candidates@.len() == present@.len(),
    ensures
        match r {
            Some(i) => {
                &&& first_true(present@) == Some(i as int)
                &&& i < present@.len()
                &&& present@[i as int]
                &&& forall|j: int| 0 <= j < i ==> !present@[j]
            },
            None => {
                &&& first_true(present@) is None
                &&& forall|j: int| 0 <= j < present@.len() ==> !present@[j]
            },
        },
{
    let n = present.len();
    let mut i: usize = 0;
    while i < n
        invariant
            i <= n,
            n == present@.len(),
            forall|j: int| 0 <= j < i ==> !present@[j],
        decreases n - i,
    {
        if present[i] {
            proof {
                lemma_first_true_at(present@, i as int);
            }
            return Some(i);
        }
        i += 1;
    }
    proof {
        lemma_first_true_none(present@);
    }
    None
}

} // verus!
