//! The checked-random strategy: numeric identifiers drawn at random and
//! recorded in a registry that only ever grows.
use std::collections::HashSet;
use vstd::prelude::*;

verus! {

broadcast use vstd::std_specs::hash::group_hash_axioms;

/// How many draws one `generate` makes before it gives up. A collision in a
/// 64-bit space is so rare that the limit is never reached in practice; it
/// only makes the retry loop a bounded one.
pub const DRAW_LIMIT: u64 = 0xffff_ffff_ffff_ffff;

/// The set of every identifier this node has issued under the
/// checked-random strategy. Values are added and never removed.
pub struct IdRegistry {
    issued: HashSet<u64>,
}

impl View for IdRegistry {
    type V = Set<u64>;

    closed spec fn view(&self) -> Set<u64> {
        self.issued@
    }
}

impl IdRegistry {
    /// An empty registry.
    pub fn new() -> (r: IdRegistry)
        ensures
            r@ == Set::<u64>::empty(),
    {
        IdRegistry { issued: HashSet::new() }
    }

    /// Whether `id` has been issued.
    pub fn contains(&self, id: u64) -> (r: bool)
        ensures
            r == self@.contains(id),
    {
        self.issued.contains(&id)
    }

    /// Check-and-insert in one step: accepts `candidate` exactly when it has
    /// not been issued before, and records it in either case.
    pub fn try_issue(&mut self, candidate: u64) -> (accepted: bool)
        ensures
            accepted == !old(self)@.contains(candidate),
            final(self)@ == old(self)@.insert(candidate),
    {
        self.issued.insert(candidate)
    }

    /// Draws random candidates until one has not been issued, records it and
    /// returns it. Returns `None`, with the registry unchanged, when all
    /// `DRAW_LIMIT` draws collided; on an empty registry the first draw is
    /// accepted, so it never does there.
    pub fn generate(&mut self) -> (r: Option<u64>)
        ensures
            match r {
                Some(id) => !old(self)@.contains(id) && final(self)@ == old(self)@.insert(id),
                None => final(self)@ == old(self)@,
            },
            old(self)@ == Set::<u64>::empty() ==> r is Some,
    {
        let mut attempts: u64 = 0;
        while attempts < DRAW_LIMIT
            invariant
                self@ == old(self)@,
                attempts > 0 ==> old(self)@ != Set::<u64>::empty(),
            decreases DRAW_LIMIT - attempts,
        {
            let candidate: u64 = rand::random::<u64>();
            if self.try_issue(candidate) {
                return Some(candidate);
            }
            assert(old(self)@.contains(candidate));
            assert(self@ =~= old(self)@);
            attempts = attempts + 1;
        }
        None
    }
}

} // verus!
