//! Selecting the interpreter that launches a script-deployed backend.
//!
//! Deployment variants that ship the backend as a script rather than a
//! self-contained executable must find a working interpreter first.  The
//! application probes an ordered list of interpreter names by running each
//! with a version-query argument; this module receives which probes
//! responded successfully and selects the first one that did.

use crate::locate::first_true;
use crate::locate::lemma_first_true_at;
use crate::locate::lemma_first_true_none;
use vstd::prelude::*;

verus! {

/// Picks the interpreter that will launch the backend script: the first
/// name in `names` whose version probe succeeded.  `responds[i]` reports
/// whether invoking `names[i]` with a version-query argument exited
/// successfully.  Returns `None` when no probe succeeded, which abandons
/// the launch.
pub fn resolve_interpreter(names: &Vec<String>, responds: &Vec<bool>) -> (r: Option<String>)
    requires
        names@.len() == responds@.len(),
    ensures
        match r {
            Some(name) => {
                &&& first_true(responds@) matches Some(k) && name@ == names@[k]@
                &&& exists|k: int|
                    {
                        &&& 0 <= k < responds@.len()
                        &&& responds@[k]
                        &&& name@ == names@[k]@
                        &&& forall|j: int| 0 <= j < k ==> !responds@[j]
                    }
            },
            None => {
                &&& first_true(responds@) is None
                &&& forall|j: int| 0 <= j < responds@.len() ==> !responds@[j]
            },
        },
{
    let n = responds.len();
    let mut i: usize = 0;
    while i < n
        invariant
            i <= n,
            n == responds@.len(),
            names@.len() == responds@.len(),
            forall|j: int| 0 <= j < i ==> !responds@[j],
        decreases n - i,
    {
        if responds[i] {
            proof {
                lemma_first_true_at(responds@, i as int);
            }
            return Some(names[i].clone());
        }
        i += 1;
    }
    proof {
        lemma_first_true_none(responds@);
    }
    None
}

} // verus!
