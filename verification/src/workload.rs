//! A small branching workload for trying a capture out: which of its two
//! paths runs is what the counters of an instrumented build record.

use vstd::prelude::*;

verus! {

/// The first path: the line that it reports.
pub fn foo() -> (line: &'static str)
    ensures
        line@ == "a"@,
{
    "a"
}

/// The second path: the line that it reports.
pub fn bar() -> (line: &'static str)
    ensures
        line@ == "b"@,
{
    "b"
}

/// Takes the first path when `x` holds and the second when it does not, and
/// returns the line of the path taken.
pub fn do_stuff(x: bool) -> (line: &'static str)
    ensures
        line@ == if x {
            "a"@
        } else {
            "b"@
        },
{
    if x {
        foo()
    } else {
        bar()
    }
}

} // verus!
