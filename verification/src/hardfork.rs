//! Magnus-specific hardforks and their activation.
use crate::primitives::U256;
use vstd::prelude::*;

verus! {

/// Magnus-specific hardforks for network upgrades, in activation order.
#[derive(Clone, Copy, Debug, PartialEq, Eq, Structural)]
pub enum MagnusHardfork {
    /// Genesis hardfork.
    Genesis,
    /// T0 hardfork (the default).
    T0,
}

impl MagnusHardfork {
    /// Position of the hardfork in activation order.
    pub open spec fn rank(&self) -> nat {
        match self {
            MagnusHardfork::Genesis => 0,
            MagnusHardfork::T0 => 1,
        }
    }

    /// Returns true if this hardfork is T0 or later.
    pub fn is_t0(&self) -> (r: bool)
        ensures
            r == (self.rank() >= 1),
    {
        match self {
            MagnusHardfork::T0 => true,
            MagnusHardfork::Genesis => false,
        }
    }

    /// The hardfork's name.
    pub fn name(&self) -> (r: &'static str)
        ensures
            *self == MagnusHardfork::Genesis ==> r@ == "Genesis"@,
            *self == MagnusHardfork::T0 ==> r@ == "T0"@,
    {
        match self {
            MagnusHardfork::Genesis => "Genesis",
            MagnusHardfork::T0 => "T0",
        }
    }

    /// `self` activates no later than `other`.
    pub fn activates_no_later_than(&self, other: &MagnusHardfork) -> (r: bool)
        ensures
            r == (self.rank() <= other.rank()),
    {
        match (self, other) {
            (MagnusHardfork::T0, MagnusHardfork::Genesis) => false,
            _ => true,
        }
    }
}

impl Default for MagnusHardfork {
    fn default() -> (r: MagnusHardfork)
        ensures
            r == MagnusHardfork::T0,
    {
        MagnusHardfork::T0
    }
}

/// When a fork activates.
#[derive(Clone, Copy, Debug, PartialEq, Eq)]
pub enum ForkCondition {
    /// The fork is activated at a block number.
    Block(u64),
    /// The fork is activated after a total difficulty has been reached.
    TTD { activation_block_number: u64, fork_block: Option<u64>, total_difficulty: U256 },
    /// The fork is activated at a timestamp.
    Timestamp(u64),
    /// The fork is never activated.
    Never,
}

impl ForkCondition {
    /// Active at `timestamp`: a timestamp activation at or before it.
    pub open spec fn spec_active_at_timestamp(&self, timestamp: u64) -> bool {
        match self {
            ForkCondition::Timestamp(t) => timestamp >= *t,
            _ => false,
        }
    }

    /// Returns true if the fork is activated at the given timestamp.
    pub fn active_at_timestamp(&self, timestamp: u64) -> (r: bool)
        ensures
            r == self.spec_active_at_timestamp(timestamp),
    {
        match self {
            ForkCondition::Timestamp(t) => timestamp >= *t,
            _ => false,
        }
    }
}

/// The Magnus hardfork active at `timestamp`, given the activation condition of T0.
pub fn magnus_hardfork_at(t0_activation: &ForkCondition, timestamp: u64) -> (r: MagnusHardfork)
    ensures
        r == (if t0_activation.spec_active_at_timestamp(timestamp) {
            MagnusHardfork::T0
        } else {
            MagnusHardfork::Genesis
        }),
{
    if t0_activation.active_at_timestamp(timestamp) {
        MagnusHardfork::T0
    } else {
        MagnusHardfork::Genesis
    }
}

/// Magnus genesis info extracted from the genesis `extra_fields`.
#[derive(Clone, Copy, Debug, PartialEq, Eq)]
pub struct MagnusGenesisInfo {
    /// The epoch length used by consensus.
    pub epoch_length: Option<u64>,
    /// Activation timestamp for the T0 hardfork.
    pub t0_time: Option<u64>,
}

impl MagnusGenesisInfo {
    /// The epoch length used by consensus, if set.
    pub fn epoch_length(&self) -> (r: Option<u64>)
        ensures
            r == self.epoch_length,
    {
        self.epoch_length
    }

    /// Activation timestamp for T0, if set.
    pub fn t0_time(&self) -> (r: Option<u64>)
        ensures
            r == self.t0_time,
    {
        self.t0_time
    }

    /// The activation condition the chain spec records for `fork`: genesis at timestamp
    /// zero, T0 at `t0_time` when set, never otherwise.
    pub fn fork_activation(&self, fork: MagnusHardfork) -> (r: ForkCondition)
        ensures
            fork == MagnusHardfork::Genesis ==> r == ForkCondition::Timestamp(0),
            fork == MagnusHardfork::T0 ==> r == (match self.t0_time {
                Some(t) => ForkCondition::Timestamp(t),
                None => ForkCondition::Never,
            }),
    {
        match fork {
            MagnusHardfork::Genesis => ForkCondition::Timestamp(0),
            MagnusHardfork::T0 => match self.t0_time {
                Some(t) => ForkCondition::Timestamp(t),
                None => ForkCondition::Never,
            },
        }
    }
}

impl Default for MagnusGenesisInfo {
    fn default() -> (r: MagnusGenesisInfo)
        ensures
            r.epoch_length is None && r.t0_time is None,
    {
        MagnusGenesisInfo { epoch_length: None, t0_time: None }
    }
}

} // verus!
