use vstd::prelude::*;

verus! {

pub enum Message {
    Quit,
    Move { x: i32, y: i32 },
    Write(String),
    ChangeColor(i32, i32, i32),
}

impl Message {
    /// Receiving a message. A placeholder: every variant is accepted and
    /// nothing happens.
    pub fn call(&self) {
    }
}

/// Adds one under an option: an absent number stays absent, a present one
/// is incremented.
pub fn plus_one(x: Option<i32>) -> (incremented: Option<i32>)
    requires
        x matches Some(i) ==> i < i32::MAX,
    ensures
        x is None ==> incremented is None,
        x matches Some(i) ==> incremented matches Some(j) && j == i + 1,
{
    match x {
        None => None,
        Some(i) => Some(i + 1),
    }
}

} // verus!
