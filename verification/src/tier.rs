//! Privilege tiers for tool actions, ordered by increasing risk.

use vstd::prelude::*;

verus! {

/// Capability tiers ordered by privilege level: Observe < Act < Commit.
#[derive(Debug, Clone, Copy, PartialEq, Eq, PartialOrd, Ord, Hash, Structural)]
pub enum Tier {
    Observe,
    Act,
    Commit,
}

impl Tier {
    /// Numeric privilege rank: Observe = 0, Act = 1, Commit = 2.
    /// Contracts compare tiers through this function.
    pub open spec fn rank(self) -> int {
        match self {
            Tier::Observe => 0,
            Tier::Act => 1,
            Tier::Commit => 2,
        }
    }

    /// Exec-level privilege comparison, consistent with `rank`.
    pub fn lt(self, other: Tier) -> (r: bool)
        ensures
            r == (self.rank() < other.rank()),
    {
        let a: u8 = match self {
            Tier::Observe => 0,
            Tier::Act => 1,
            Tier::Commit => 2,
        };
        let b: u8 = match other {
            Tier::Observe => 0,
            Tier::Act => 1,
            Tier::Commit => 2,
        };
        a < b
    }
}

/// Tiers are totally ordered by `rank`: it is injective over the three
/// variants, so no two distinct tiers are incomparable.
pub proof fn lemma_tier_order_total(a: Tier, b: Tier)
    ensures
        a.rank() < b.rank() || b.rank() < a.rank() || a == b,
{
}

} // verus!
