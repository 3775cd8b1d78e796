use vstd::prelude::*;
use vstd::string::StrSliceExecFns;
use vstd::string::StringExecFns;

verus! {

/// The first word of a string: the longest prefix that holds no space.
/// Either the whole string comes back, or the character right after the
/// returned prefix is the first space.
pub fn first_word(s: &str) -> (word: &str)
    ensures
        word@.len() <= s@.len(),
        word@ == s@.subrange(0, word@.len() as int),
        forall|i: int| 0 <= i < word@.len() ==> s@[i] != ' ',
        word@.len() < s@.len() ==> s@[word@.len() as int] == ' ',
{
    let n = s.unicode_len();
    let mut i: usize = 0;
    while i < n
        invariant
            n == s@.len(),
            i <= n,
            forall|j: int| 0 <= j < i ==> s@[j] != ' ',
        decreases n - i,
    {
        if s.get_char(i) == ' ' {
            return s.substring_char(0, i);
        }
        i = i + 1;
    }
    proof {
        assert(s@.subrange(0, s@.len() as int) =~= s@);
    }
    s
}

/// The length of the string, counted in characters.
pub fn calculate_length(s: &String) -> (length: usize)
    ensures
        length == s@.len(),
{
    s.as_str().unicode_len()
}

/// Appends ", world" to the borrowed string in place.
pub fn change(some_string: &mut String)
    ensures
        final(some_string)@ == old(some_string)@ + ", world"@,
{
    some_string.append(", world");
}

/// Hands a freshly made string to the caller.
pub fn gives_ownership() -> (some_string: String)
    ensures
        some_string@ == "yours"@,
{
    String::from_str("yours")
}

/// Takes a string and returns the very same one.
pub fn takes_and_gives_back(a_string: String) -> (returned: String)
    ensures
        returned@ == a_string@,
{
    a_string
}

/// Builds a string locally and returns it whole, so nothing is left
/// dangling when the local scope ends.
pub fn dangle() -> (s: String)
    ensures
        s@ == "hello"@,
{
    let s = String::from_str("hello");
    s
}

} // verus!
