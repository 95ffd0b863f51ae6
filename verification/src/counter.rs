//! A verified call counter: an explicit record of calls, one tick per call.

use vstd::prelude::*;

verus! {

/// Append one tick to the call record; its length counts the calls made.
pub fn do_call(calls: &mut Vec<i32>)
    ensures
        final(calls)@ == old(calls)@.push(1),
{
    calls.push(1);
}

} // verus!
