//! The pipe-compatibility check between two pipeline stages: every output
//! name the upstream stage produces must be consumed by — declared among the
//! inputs of — the downstream stage.  The check runs once per stage pair,
//! before any binding context exists and before any resource is touched.

use vstd::prelude::*;
use crate::errors::CompositionError;
use crate::nameset::{spec_subset, NameSet};

verus! {

/// Check that the upstream output set pipes into the downstream input set.
/// On failure the first unconsumed output, in declaration order, is named.
pub fn check_pipe(s_out: &NameSet, s_in: &NameSet) -> (r: Result<(), CompositionError>)
    ensures
        match r {
            Ok(()) => spec_subset(s_out@, s_in@),
            Err(e) => {
                &&& !spec_subset(s_out@, s_in@)
                &&& e matches CompositionError::UnconsumedOutput { output } && exists|i: int|
                    {
                        &&& 0 <= i < s_out@.len()
                        &&& #[trigger] s_out@[i] == output@
                        &&& !s_in@.contains(s_out@[i])
                        &&& forall|k: int| 0 <= k < i ==> s_in@.contains(#[trigger] s_out@[k])
                    }
            },
        },
{
    let mut i: usize = 0;
    let n = s_out.len();
    while i < n
        invariant
            i <= n,
            n == s_out@.len(),
            forall|k: int| 0 <= k < i ==> s_in@.contains(#[trigger] s_out@[k]),
        decreases n - i,
    {
        let name = s_out.get(i);
        if !s_in.contains(name.as_str()) {
            proof {
                assert(s_out@[i as int] == name@);
                assert(!s_in@.contains(s_out@[i as int]));
            }
            return Err(CompositionError::UnconsumedOutput { output: name.clone() });
        }
        i += 1;
    }
    Ok(())
}

} // verus!
