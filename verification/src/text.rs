//! Small exercises with strings: a fixed word, joining, measuring and
//! appending.

use vstd::prelude::*;
use vstd::string::StringExecFns;

verus! {

/// Returns the word "world".
pub fn world() -> (word: &'static str)
    ensures
        word@ == "world"@,
{
    "world"
}

/// Joins two strings with one space between them.
pub fn join_strings(x: &str, y: &str) -> (joined: String)
    ensures
        joined@ == x@ + seq![' '] + y@,
{
    let mut joined = String::from_str(x);
    proof {
        reveal_strlit(" ");
        assert(" "@ =~= seq![' ']);
    }
    joined.append(" ");
    joined.append(y);
    joined
}

/// Returns the length of a string in bytes, as its UTF-8 encoding has them.
pub fn calculate_length(s: &String) -> (length: usize)
    ensures
        length == vstd::utf8::encode_utf8(s@).len() as usize,
{
    s.as_str().len()
}

/// Appends ", mutable borrowing!" to a string.
pub fn modify(some_string: &mut String)
    ensures
        final(some_string)@ == old(some_string)@ + ", mutable borrowing!"@,
{
    some_string.append(", mutable borrowing!");
}

} // verus!
