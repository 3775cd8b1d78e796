use vstd::prelude::*;

verus! {

/// The constant five, returned as the body's trailing expression.
pub fn five() -> (n: i32)
    ensures
        n == 5,
{
    5
}

/// Adds one to a number that has room for it.
pub fn plus_one(x: i32) -> (incremented: i32)
    requires
        x < i32::MAX,
    ensures
        incremented == x + 1,
{
    x + 1
}

} // verus!
