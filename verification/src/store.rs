//! The pending-result slot: a single-slot store for at most one captured
//! callback URL, with take-once delivery.
//!
//! The slot itself carries no lock; the caller that shares it across threads
//! wraps it in mutual exclusion and calls [`PendingResultStore::set`] and
//! [`PendingResultStore::take`] under that lock, each a single atomic step.
use vstd::prelude::*;

verus! {

/// A single optional slot holding the most recently captured callback URL.
pub struct PendingResultStore {
    slot: Option<String>,
}

/// The slot's contents after a `set(url)`: the new URL, whatever was there
/// before (last write wins, no queue).
pub open spec fn store_after_set(s: Option<Seq<char>>, url: Seq<char>) -> Option<Seq<char>> {
    Some(url)
}

/// The slot's contents after a `take`: empty.
pub open spec fn store_after_take(s: Option<Seq<char>>) -> Option<Seq<char>> {
    None
}

/// What a `take` on contents `s` hands out: exactly `s`.
pub open spec fn take_result(s: Option<Seq<char>>) -> Option<Seq<char>> {
    s
}

impl View for PendingResultStore {
    type V = Option<Seq<char>>;

    closed spec fn view(&self) -> Option<Seq<char>> {
        match self.slot {
            Some(ref s) => Some(s@),
            None => None,
        }
    }
}

impl PendingResultStore {
    /// An empty slot: what the process starts with.
    pub fn new() -> (r: Self)
        ensures
            r@ is None,
    {
        PendingResultStore { slot: None }
    }

    /// Overwrites the slot with `url` unconditionally.
    pub fn set(&mut self, url: String)
        ensures
            final(self)@ == store_after_set(old(self)@, url@),
    {
        self.slot = Some(url);
    }

    /// Reads and clears the slot in one step; empty-handed when nothing was
    /// stored.
    pub fn take(&mut self) -> (r: Option<String>)
        ensures
            final(self)@ == store_after_take(old(self)@),
            r matches Some(s) ==> take_result(old(self)@) == Some(s@),
            r is None ==> take_result(old(self)@) is None,
    {
        self.slot.take()
    }
}

/// Take-once delivery: after a `set(u)`, a `take` hands out exactly `u`, and
/// an immediately following `take` hands out nothing, whatever the slot held
/// before and for every `u`.
pub proof fn lemma_take_once(s0: Option<Seq<char>>, u: Seq<char>)
    ensures
        take_result(store_after_set(s0, u)) == Some(u),
        take_result(store_after_take(store_after_set(s0, u))) is None,
{
}

} // verus!
