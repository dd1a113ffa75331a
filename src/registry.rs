//! The check that a registered subgraph is declared by the schema.

use vstd::prelude::*;

verus! {

/// `name` is one of the schema's declared subgraph names.
pub open spec fn declares(declared: Seq<String>, name: Seq<char>) -> bool {
    exists|i: int| 0 <= i < declared.len() && (#[trigger] declared[i])@ == name
}

/// Whether `name` may be registered against a schema that declares the
/// subgraphs `declared`. With `checked` false (a release build) the check is
/// skipped and every name is admitted.
pub fn subgraph_admitted(checked: bool, declared: &Vec<String>, name: &String) -> (r: bool)
    ensures
        r == (!checked || declares(declared@, name@)),
{
    if !checked {
        return true;
    }
    let mut i: usize = 0;
    while i < declared.len()
        invariant
            i <= declared@.len(),
            forall|j: int| 0 <= j < i ==> (#[trigger] declared@[j])@ != name@,
        decreases declared@.len() - i,
    {
        if declared[i] == *name {
            return true;
        }
        i = i + 1;
    }
    false
}

} // verus!
