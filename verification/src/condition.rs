//! Spending conditions: the alternative branches by which a wallet can be spent.

use crate::time::UtcInstant;
use vstd::prelude::*;

verus! {

/// How many of the wallet's signers have to sign.
#[derive(Copy, Clone, PartialEq, Eq, PartialOrd, Ord, Hash, Debug, Structural)]
pub enum SigsReq {
    /// Every signer.
    All,
    /// Any single signer.
    Any,
    /// At least the given number of signers. The number is not held against a
    /// signer set here: that is for whoever combines the template with one.
    AtLeast(u16),
}

impl SigsReq {
    /// The number of signatures asked for in a wallet of `total` signers.
    pub open spec fn threshold(self, total: int) -> int {
        match self {
            SigsReq::All => total,
            SigsReq::Any => 1,
            SigsReq::AtLeast(k) => k as int,
        }
    }

    /// A wallet of `total` signers can meet the requirement: it asks for at least one
    /// signature and for no more than there are signers.
    pub open spec fn can_be_met_by(self, total: int) -> bool {
        1 <= self.threshold(total) <= total
    }
}

/// From when on a branch can be used.
#[derive(Copy, Clone, PartialEq, Eq, PartialOrd, Ord, Hash, Debug, Structural)]
pub enum TimelockReq {
    /// At any time.
    Anytime,
    /// Only after the given absolute instant.
    AfterTime(UtcInstant),
}

impl TimelockReq {
    /// `self` opens strictly earlier than `other`: a branch without a timelock opens
    /// before any timelocked one, and two timelocks go by their instants.
    pub open spec fn opens_before(self, other: TimelockReq) -> bool {
        match (self, other) {
            (TimelockReq::Anytime, TimelockReq::AfterTime(_)) => true,
            (TimelockReq::AfterTime(a), TimelockReq::AfterTime(b)) => a.is_before(b),
            _ => false,
        }
    }
}

/// One way to spend: these signers, and not before this time.
#[derive(Copy, Clone, PartialEq, Eq, PartialOrd, Ord, Hash, Debug, Structural)]
pub struct SpendingCondition {
    pub sigs: SigsReq,
    pub timelock: TimelockReq,
}

impl SpendingCondition {
    /// The strictest branch: all signers, at any time.
    pub open spec fn strictest() -> SpendingCondition {
        SpendingCondition { sigs: SigsReq::All, timelock: TimelockReq::Anytime }
    }
}

impl Default for SpendingCondition {
    fn default() -> (r: SpendingCondition)
        ensures
            r == SpendingCondition::strictest(),
    {
        SpendingCondition { sigs: SigsReq::All, timelock: TimelockReq::Anytime }
    }
}

/// The tiers form a decay schedule for a wallet of `total` signers: from each tier
/// to every later one the number of signatures asked for does not rise, and the
/// later tier opens strictly later.
pub open spec fn is_decay_schedule(tiers: Seq<SpendingCondition>, total: int) -> bool {
    forall|i: int, j: int|
        0 <= i < j < tiers.len() ==> {
            &&& tiers[i].sigs.threshold(total) >= tiers[j].sigs.threshold(total)
            &&& tiers[i].timelock.opens_before(tiers[j].timelock)
        }
}

} // verus!
