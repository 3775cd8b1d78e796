use vstd::prelude::*;

verus! {

/// Puts the party on the waitlist. A placeholder with no observable effect:
/// it is here to be reachable both through this module's full path and
/// through the crate-level re-export.
pub fn add_to_waitlist() {
}

} // verus!
