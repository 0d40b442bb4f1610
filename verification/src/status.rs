//! Enforcement status of the filesystem access restriction.

use vstd::prelude::*;

verus! {

/// `landlock::RulesetStatus`: the degree to which the kernel enforces a rule
/// set. The type is taken as the crate defines it, with its three variants.
#[verifier::external_type_specification]
pub struct ExRulesetStatus(landlock::RulesetStatus);

/// To what degree the filesystem restriction is enabled.
#[derive(Debug, Clone, Copy, PartialEq, Eq, Structural)]
pub enum LandlockStatus {
    /// Every requested restriction is enforced.
    FullyEnforced,
    /// Only some of the requested restrictions are enforced.
    PartiallyEnforced,
    /// Nothing is enforced.
    NotEnforced,
    /// The status could not be determined.
    Unavailable,
}

impl LandlockStatus {
    /// The status that corresponds to a rule set's enforcement status.
    pub fn from_ruleset_status(ruleset_status: landlock::RulesetStatus) -> (status: Self)
        ensures
            status == Self::of_ruleset_status(ruleset_status),
    {
        match ruleset_status {
            landlock::RulesetStatus::FullyEnforced => LandlockStatus::FullyEnforced,
            landlock::RulesetStatus::PartiallyEnforced => LandlockStatus::PartiallyEnforced,
            landlock::RulesetStatus::NotEnforced => LandlockStatus::NotEnforced,
        }
    }

    /// The variant of the same name.
    pub open spec fn of_ruleset_status(ruleset_status: landlock::RulesetStatus) -> Self {
        match ruleset_status {
            landlock::RulesetStatus::FullyEnforced => LandlockStatus::FullyEnforced,
            landlock::RulesetStatus::PartiallyEnforced => LandlockStatus::PartiallyEnforced,
            landlock::RulesetStatus::NotEnforced => LandlockStatus::NotEnforced,
        }
    }

    /// How much the status stands for: the more is enforced, the higher.
    pub open spec fn strength(self) -> nat {
        match self {
            LandlockStatus::FullyEnforced => 3,
            LandlockStatus::PartiallyEnforced => 2,
            LandlockStatus::NotEnforced => 1,
            LandlockStatus::Unavailable => 0,
        }
    }

    /// The one of the two that stands for less.
    pub open spec fn weaker_of(self, other: LandlockStatus) -> LandlockStatus {
        if self.strength() <= other.strength() {
            self
        } else {
            other
        }
    }

    /// The one of the two that stands for less. A status that is combined with
    /// another is never raised by it.
    pub fn weaker(self, other: LandlockStatus) -> (status: LandlockStatus)
        ensures
            status == self.weaker_of(other),
            status.strength() <= self.strength(),
            status.strength() <= other.strength(),
    {
        let mine: u8 = self.rank();
        let theirs: u8 = other.rank();
        if mine <= theirs {
            self
        } else {
            other
        }
    }

    /// [`LandlockStatus::strength`] as a number.
    pub fn rank(self) -> (rank: u8)
        ensures
            rank == self.strength(),
    {
        match self {
            LandlockStatus::FullyEnforced => 3,
            LandlockStatus::PartiallyEnforced => 2,
            LandlockStatus::NotEnforced => 1,
            LandlockStatus::Unavailable => 0,
        }
    }

    /// Whether the status is `FullyEnforced`: only then is a worker protected.
    pub fn is_fully_enforced(self) -> (full: bool)
        ensures
            full == (self == LandlockStatus::FullyEnforced),
    {
        match self {
            LandlockStatus::FullyEnforced => true,
            _ => false,
        }
    }
}

} // verus!
