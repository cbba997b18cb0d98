//! Contracts for the few library functions that the node's logic calls and
//! that vstd does not specify.
use vstd::prelude::*;

verus! {

/// Relies on `rand::random` (rand 0.8): a value drawn from the thread-local
/// generator. Nothing is promised about which value comes back.
pub assume_specification<T>[ rand::random::<T> ]() -> (r: T)
    where
        rand::distributions::Standard: rand::distributions::Distribution<T>,
;

/// Relies on `String::push`: the character is appended at the end.
pub assume_specification[ String::push ](s: &mut String, ch: char)
    ensures
        final(s)@ == old(s)@.push(ch),
;

} // verus!
