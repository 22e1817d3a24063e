//! The key by which the record list is ordered.

use vstd::prelude::*;

verus! {

/// The column that orders the record list.
#[derive(Clone, Copy, Debug, PartialEq, Eq, Structural)]
pub enum SortBy {
    Pid,
    Name,
    Cpu,
    Memory,
}

impl SortBy {
    /// The key that follows `self` in the fixed cycle
    /// `Cpu`, `Memory`, `Pid`, `Name`, and back to `Cpu`.
    pub open spec fn successor(self) -> SortBy {
        match self {
            SortBy::Cpu => SortBy::Memory,
            SortBy::Memory => SortBy::Pid,
            SortBy::Pid => SortBy::Name,
            SortBy::Name => SortBy::Cpu,
        }
    }

    /// Steps to the next key of the cycle.
    pub fn toggled(self) -> (next: SortBy)
        ensures
            next == self.successor(),
    {
        match self {
            SortBy::Cpu => SortBy::Memory,
            SortBy::Memory => SortBy::Pid,
            SortBy::Pid => SortBy::Name,
            SortBy::Name => SortBy::Cpu,
        }
    }
}

/// Four steps through the cycle of sort keys lead back to the key they
/// started from, and fewer than four never do.
pub proof fn lemma_successor_cycle(key: SortBy)
    ensures
        key.successor().successor().successor().successor() == key,
        key.successor() != key,
        key.successor().successor() != key,
        key.successor().successor().successor() != key,
{
}

} // verus!
