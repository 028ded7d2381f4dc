//! Wallet templates and the constructors that compile an intent into one.

use crate::condition::{is_decay_schedule, SigsReq, SpendingCondition, TimelockReq};
use crate::format::{Bip43, PublicNetwork, WalletFormat};
use crate::time::{years_later_in_days, UtcInstant, MAX_YEAR};
use vstd::prelude::*;

verus! {

/// A three-state gate on a capability of the signers.
#[derive(Copy, Clone, Ord, PartialOrd, Eq, PartialEq, Hash, Debug, Structural)]
pub enum Requirement {
    /// Present or absent, either is fine.
    Allow,
    /// Must be present.
    Require,
    /// Must be absent.
    Deny,
}

impl Default for Requirement {
    fn default() -> (r: Requirement)
        ensures
            r == Requirement::Allow,
    {
        Requirement::Allow
    }
}

/// Why no template was made.
#[derive(Copy, Clone, PartialEq, Eq, Hash, Debug, Structural)]
pub enum TemplateError {
    /// A holding wallet was asked for with fewer than three signers.
    InvalidSignerCount,
    /// A multi-signature wallet was asked for with a threshold of zero or one.
    InvalidMultisigThreshold,
    /// The last timelock of the schedule would fall in a year beyond the last one
    /// that an instant can lie in.
    TimelockUnavailable,
}

/// A constrained outline of a wallet: which format, how many signers of which
/// kind, and the ordered tiers by which it can be spent.
#[derive(PartialEq, Eq, Hash, Debug)]
pub struct WalletTemplate {
    pub format: WalletFormat,
    pub min_signer_count: Option<u16>,
    pub max_signer_count: Option<u16>,
    pub hardware_req: Requirement,
    pub watch_only_req: Requirement,
    pub conditions: Vec<SpendingCondition>,
    pub network: PublicNetwork,
}

/// What a template holds, with the tiers as a sequence.
pub ghost struct TemplateView {
    pub format: WalletFormat,
    pub min_signer_count: Option<u16>,
    pub max_signer_count: Option<u16>,
    pub hardware_req: Requirement,
    pub watch_only_req: Requirement,
    pub conditions: Seq<SpendingCondition>,
    pub network: PublicNetwork,
}

impl View for WalletTemplate {
    type V = TemplateView;

    open spec fn view(&self) -> TemplateView {
        TemplateView {
            format: self.format,
            min_signer_count: self.min_signer_count,
            max_signer_count: self.max_signer_count,
            hardware_req: self.hardware_req,
            watch_only_req: self.watch_only_req,
            conditions: self.conditions@,
            network: self.network,
        }
    }
}

impl Clone for WalletTemplate {
    fn clone(&self) -> (r: WalletTemplate)
        ensures
            r@ == self@,
    {
        let mut conditions: Vec<SpendingCondition> = Vec::new();
        let mut i: usize = 0;
        while i < self.conditions.len()
            invariant
                i <= self.conditions@.len(),
                conditions@ == self.conditions@.take(i as int),
            decreases self.conditions@.len() - i,
        {
            conditions.push(self.conditions[i]);
            i += 1;
            assert(conditions@ =~= self.conditions@.take(i as int));
        }
        assert(conditions@ =~= self.conditions@);
        WalletTemplate {
            format: self.format,
            min_signer_count: self.min_signer_count,
            max_signer_count: self.max_signer_count,
            hardware_req: self.hardware_req,
            watch_only_req: self.watch_only_req,
            conditions,
            network: self.network,
        }
    }
}

impl TemplateView {
    /// The smallest signer set that the template admits, and never less than one.
    pub open spec fn least_signers(self) -> int {
        match self.min_signer_count {
            Some(lo) if lo >= 1 => lo as int,
            _ => 1,
        }
    }

    /// The bounds are in order and there is at least one tier; every admitted number
    /// of signers can meet each tier, and for it the tiers run from the most
    /// restrictive to the least.
    pub open spec fn is_well_formed(self) -> bool {
        &&& self.conditions.len() > 0
        &&& match (self.min_signer_count, self.max_signer_count) {
            (Some(lo), Some(hi)) => lo <= hi,
            _ => true,
        }
        &&& forall|i: int, total: int|
            0 <= i < self.conditions.len() && total >= self.least_signers()
                ==> #[trigger] self.conditions[i].sigs.can_be_met_by(total)
        &&& forall|total: int|
            total >= self.least_signers() ==> #[trigger] is_decay_schedule(self.conditions, total)
    }
}

/// The view of what a constructor returned.
pub open spec fn outcome_view(r: Result<WalletTemplate, TemplateError>) -> Result<
    TemplateView,
    TemplateError,
> {
    match r {
        Ok(t) => Ok(t@),
        Err(e) => Err(e),
    }
}

/// The least number of signers that is at least half of `n`.
pub open spec fn majority(n: int) -> int {
    (n + 1) / 2
}

/// The last tier of every schedule with a recovery path: any one signer, once
/// `opens` has passed.
pub open spec fn recovery_tier(opens: UtcInstant) -> SpendingCondition {
    SpendingCondition { sigs: SigsReq::Any, timelock: TimelockReq::AfterTime(opens) }
}

/// The tiers of a multi-signature wallet that `n >= 2` signers were asked for, set up
/// at `now`: the recovery tier opens five years later, and from four signers on a
/// majority tier opens after three. There are none where the year five years on is
/// out of range.
pub open spec fn multisig_tiers(n: u16, now: UtcInstant) -> Option<Seq<SpendingCondition>> {
    match now.years_later(5) {
        None => None,
        Some(late) => if n <= 2 {
            Some(seq![SpendingCondition::strictest(), recovery_tier(late)])
        } else if n == 3 {
            Some(
                seq![
                    SpendingCondition { sigs: SigsReq::AtLeast(2), timelock: TimelockReq::Anytime },
                    recovery_tier(late),
                ],
            )
        } else {
            match now.years_later(3) {
                None => None,
                Some(mid) => Some(
                    seq![
                        SpendingCondition {
                            sigs: SigsReq::AtLeast((n - 1) as u16),
                            timelock: TimelockReq::Anytime,
                        },
                        SpendingCondition {
                            sigs: SigsReq::AtLeast(majority(n as int) as u16),
                            timelock: TimelockReq::AfterTime(mid),
                        },
                        recovery_tier(late),
                    ],
                ),
            }
        },
    }
}

/// The template of a single-key wallet.
pub open spec fn singlesig_template(
    taproot: bool,
    network: PublicNetwork,
    require_hardware: bool,
) -> TemplateView {
    TemplateView {
        format: WalletFormat::Bip43(
            if taproot {
                Bip43::SingleSigTaproot
            } else {
                Bip43::SingleSigSegwit0
            },
        ),
        min_signer_count: Some(1u16),
        max_signer_count: Some(1u16),
        hardware_req: if require_hardware {
            Requirement::Require
        } else {
            Requirement::Deny
        },
        watch_only_req: if require_hardware {
            Requirement::Deny
        } else {
            Requirement::Require
        },
        conditions: seq![SpendingCondition::strictest()],
        network,
    }
}

/// A multi-signature template without an upper bound on the signers.
pub open spec fn open_ended_template(
    network: PublicNetwork,
    min_signers: u16,
    hardware_req: Requirement,
    watch_only_req: Requirement,
    conditions: Seq<SpendingCondition>,
) -> TemplateView {
    TemplateView {
        format: WalletFormat::Bip43(Bip43::MultisigDescriptor),
        min_signer_count: Some(min_signers),
        max_signer_count: None,
        hardware_req,
        watch_only_req,
        conditions,
        network,
    }
}

/// What `hodling` gives for each input.
pub open spec fn hodling_outcome(
    network: PublicNetwork,
    sigs_required: u16,
    hardware_req: Requirement,
    watch_only_req: Requirement,
    now: UtcInstant,
) -> Result<TemplateView, TemplateError> {
    if sigs_required < 3 {
        Err(TemplateError::InvalidSignerCount)
    } else {
        match now.years_later(5) {
            Some(late) => Ok(
                open_ended_template(
                    network,
                    sigs_required,
                    hardware_req,
                    watch_only_req,
                    seq![SpendingCondition::strictest(), recovery_tier(late)],
                ),
            ),
            None => Err(TemplateError::TimelockUnavailable),
        }
    }
}

/// What `multisig` gives for each input.
pub open spec fn multisig_outcome(
    network: PublicNetwork,
    sigs_required: Option<u16>,
    hardware_req: Requirement,
    watch_only_req: Requirement,
    now: UtcInstant,
) -> Result<TemplateView, TemplateError> {
    match sigs_required {
        None => Ok(
            open_ended_template(
                network,
                2,
                hardware_req,
                watch_only_req,
                seq![SpendingCondition::strictest()],
            ),
        ),
        Some(n) => if n < 2 {
            Err(TemplateError::InvalidMultisigThreshold)
        } else {
            match multisig_tiers(n, now) {
                Some(tiers) => Ok(
                    open_ended_template(network, n, hardware_req, watch_only_req, tiers),
                ),
                None => Err(TemplateError::TimelockUnavailable),
            }
        },
    }
}

impl WalletTemplate {
    /// A wallet of one key, which is either a hardware signer or watch-only.
    pub fn singlesig(taproot: bool, network: PublicNetwork, require_hardware: bool) -> (r:
        WalletTemplate)
        ensures
            r@ == singlesig_template(taproot, network, require_hardware),
            r@.conditions == seq![SpendingCondition::strictest()],
            r.hardware_req == Requirement::Require && r.watch_only_req == Requirement::Deny
                || r.hardware_req == Requirement::Deny && r.watch_only_req
                == Requirement::Require,
            r@.is_well_formed(),
    {
        let scheme = if taproot {
            Bip43::singlesig_taproot()
        } else {
            Bip43::singlesig_segwit0()
        };
        let (hardware_req, watch_only_req) = if require_hardware {
            (Requirement::Require, Requirement::Deny)
        } else {
            (Requirement::Deny, Requirement::Require)
        };
        let mut conditions: Vec<SpendingCondition> = Vec::new();
        conditions.push(SpendingCondition::default());
        let r = WalletTemplate {
            format: WalletFormat::from(scheme),
            min_signer_count: Some(1),
            max_signer_count: Some(1),
            hardware_req,
            watch_only_req,
            conditions,
            network,
        };
        proof {
            assert(r@.conditions =~= seq![SpendingCondition::strictest()]);
            singlesig_is_well_formed(taproot, network, require_hardware);
        }
        r
    }

    /// A wallet for long-term holding, set up at `now`: all signers at any time, or
    /// any one of them once five years have passed.
    ///
    /// Fewer than three signers are refused as `InvalidSignerCount`. The only other
    /// failure is `TimelockUnavailable`, for a `now` within five years of the last
    /// year that an instant can lie in.
    pub fn hodling(
        network: PublicNetwork,
        sigs_required: u16,
        hardware_req: Requirement,
        watch_only_req: Requirement,
        now: UtcInstant,
    ) -> (r: Result<WalletTemplate, TemplateError>)
        requires
            now.is_valid(),
        ensures
            outcome_view(r) == hodling_outcome(
                network,
                sigs_required,
                hardware_req,
                watch_only_req,
                now,
            ),
            r == Err::<WalletTemplate, TemplateError>(TemplateError::InvalidSignerCount)
                <==> sigs_required < 3,
            r == Err::<WalletTemplate, TemplateError>(TemplateError::TimelockUnavailable)
                <==> sigs_required >= 3 && now.year + 5 > MAX_YEAR,
            r is Ok <==> sigs_required >= 3 && now.year + 5 <= MAX_YEAR,
            r matches Ok(t) ==> {
                &&& t@.is_well_formed()
                &&& t.conditions@.len() == 2
                &&& t.conditions@[0] == SpendingCondition::strictest()
                &&& t.conditions@[1].sigs == SigsReq::Any
                &&& t.conditions@[1].timelock matches TimelockReq::AfterTime(late)
                &&& now.years_later(5) == Some(late)
                &&& now.is_before(late)
                &&& 1825 <= late.day_number() - now.day_number() <= 1827
                &&& t.format == WalletFormat::Bip43(Bip43::MultisigDescriptor)
                &&& t.min_signer_count == Some(sigs_required)
                &&& t.max_signer_count is None
                &&& t.hardware_req == hardware_req
                &&& t.watch_only_req == watch_only_req
                &&& t.network == network
            },
    {
        if sigs_required < 3 {
            return Err(TemplateError::InvalidSignerCount);
        }
        let late = match now.plus_years(5) {
            Some(late) => late,
            None => { return Err(TemplateError::TimelockUnavailable); },
        };
        let mut conditions: Vec<SpendingCondition> = Vec::new();
        conditions.push(SpendingCondition { sigs: SigsReq::All, timelock: TimelockReq::Anytime });
        conditions.push(
            SpendingCondition { sigs: SigsReq::Any, timelock: TimelockReq::AfterTime(late) },
        );
        let t = WalletTemplate {
            format: WalletFormat::from(Bip43::multisig_descriptor()),
            min_signer_count: Some(sigs_required),
            max_signer_count: None,
            hardware_req,
            watch_only_req,
            conditions,
            network,
        };
        proof {
            assert(t@.conditions =~= seq![SpendingCondition::strictest(), recovery_tier(late)]);
            hodling_is_well_formed(network, sigs_required, hardware_req, watch_only_req, now);
            years_later_in_days(now);
        }
        Ok(t)
    }

    /// A multi-signature wallet, set up at `now`. Without a number of signers there is
    /// one tier, of all signers; with one, a schedule that asks for fewer signers the
    /// more time has passed.
    ///
    /// A number below two is refused as `InvalidMultisigThreshold`. The only other
    /// failure is `TimelockUnavailable`, where a number is given and `now` lies within
    /// five years of the last year that an instant can lie in.
    pub fn multisig(
        network: PublicNetwork,
        sigs_required: Option<u16>,
        hardware_req: Requirement,
        watch_only_req: Requirement,
        now: UtcInstant,
    ) -> (r: Result<WalletTemplate, TemplateError>)
        requires
            now.is_valid(),
        ensures
            outcome_view(r) == multisig_outcome(
                network,
                sigs_required,
                hardware_req,
                watch_only_req,
                now,
            ),
            r == Err::<WalletTemplate, TemplateError>(TemplateError::InvalidMultisigThreshold)
                <==> (sigs_required matches Some(n) && n < 2),
            r == Err::<WalletTemplate, TemplateError>(TemplateError::TimelockUnavailable)
                <==> (sigs_required matches Some(n) && n >= 2 && now.year + 5 > MAX_YEAR),
            r is Ok <==> (sigs_required matches Some(n) ==> n >= 2 && now.year + 5 <= MAX_YEAR),
            r matches Ok(t) ==> {
                &&& t@.is_well_formed()
                &&& t.format == WalletFormat::Bip43(Bip43::MultisigDescriptor)
                &&& t.min_signer_count == Some(
                    match sigs_required {
                        Some(n) => n,
                        None => 2u16,
                    },
                )
                &&& t.max_signer_count is None
                &&& t.hardware_req == hardware_req
                &&& t.watch_only_req == watch_only_req
                &&& t.network == network
                &&& sigs_required is None ==> t.conditions@ == seq![SpendingCondition::strictest()]
                &&& sigs_required matches Some(n) ==> Some(t.conditions@) == multisig_tiers(
                    n,
                    now,
                )
            },
    {
        let mut conditions: Vec<SpendingCondition> = Vec::new();
        let min_signers: u16 = match sigs_required {
            None => {
                conditions.push(SpendingCondition::default());
                2
            },
            Some(count) => {
                if count < 2 {
                    return Err(TemplateError::InvalidMultisigThreshold);
                }
                let late = match now.plus_years(5) {
                    Some(late) => late,
                    None => { return Err(TemplateError::TimelockUnavailable); },
                };
                if count == 2 {
                    conditions.push(
                        SpendingCondition { sigs: SigsReq::All, timelock: TimelockReq::Anytime },
                    );
                } else if count == 3 {
                    conditions.push(
                        SpendingCondition {
                            sigs: SigsReq::AtLeast(2),
                            timelock: TimelockReq::Anytime,
                        },
                    );
                } else {
                    let mid = match now.plus_years(3) {
                        Some(mid) => mid,
                        None => { return Err(TemplateError::TimelockUnavailable); },
                    };
                    conditions.push(
                        SpendingCondition {
                            sigs: SigsReq::AtLeast(count - 1),
                            timelock: TimelockReq::Anytime,
                        },
                    );
                    conditions.push(
                        SpendingCondition {
                            sigs: SigsReq::AtLeast(count / 2 + count % 2),
                            timelock: TimelockReq::AfterTime(mid),
                        },
                    );
                }
                conditions.push(
                    SpendingCondition {
                        sigs: SigsReq::Any,
                        timelock: TimelockReq::AfterTime(late),
                    },
                );
                proof {
                    assert(conditions@ =~= multisig_tiers(count, now).unwrap());
                }
                count
            },
        };
        let t = WalletTemplate {
            format: WalletFormat::from(Bip43::multisig_descriptor()),
            min_signer_count: Some(min_signers),
            max_signer_count: None,
            hardware_req,
            watch_only_req,
            conditions,
            network,
        };
        proof {
            if sigs_required is None {
                assert(t@.conditions =~= seq![SpendingCondition::strictest()]);
            }
            multisig_is_well_formed(network, sigs_required, hardware_req, watch_only_req, now);
        }
        Ok(t)
    }
}

/// The template of a single-key wallet is well formed.
pub proof fn singlesig_is_well_formed(taproot: bool, network: PublicNetwork, require_hardware: bool)
    ensures
        singlesig_template(taproot, network, require_hardware).is_well_formed(),
{
}

/// Every template of a holding wallet is well formed.
pub proof fn hodling_is_well_formed(
    network: PublicNetwork,
    sigs_required: u16,
    hardware_req: Requirement,
    watch_only_req: Requirement,
    now: UtcInstant,
)
    requires
        now.is_valid(),
    ensures
        hodling_outcome(network, sigs_required, hardware_req, watch_only_req, now) matches Ok(t)
            ==> t.is_well_formed(),
{
}

/// Every template of a multi-signature wallet is well formed.
pub proof fn multisig_is_well_formed(
    network: PublicNetwork,
    sigs_required: Option<u16>,
    hardware_req: Requirement,
    watch_only_req: Requirement,
    now: UtcInstant,
)
    requires
        now.is_valid(),
    ensures
        multisig_outcome(network, sigs_required, hardware_req, watch_only_req, now) matches Ok(t)
            ==> t.is_well_formed(),
{
}

/// A holding wallet of three or more signers, set up at an instant with five years
/// of calendar ahead, has exactly two tiers: all signers at any time, then any one
/// signer from the instant five years on, which lies later than the setting up.
pub proof fn hodling_has_two_tiers(
    network: PublicNetwork,
    sigs_required: u16,
    hardware_req: Requirement,
    watch_only_req: Requirement,
    now: UtcInstant,
)
    requires
        now.is_valid(),
        sigs_required >= 3,
        now.year + 5 <= MAX_YEAR,
    ensures
        hodling_outcome(network, sigs_required, hardware_req, watch_only_req, now) matches Ok(t)
            && {
            &&& t.conditions.len() == 2
            &&& t.conditions[0] == SpendingCondition::strictest()
            &&& t.conditions[1].sigs == SigsReq::Any
            &&& t.conditions[1].timelock matches TimelockReq::AfterTime(late)
            &&& now.is_before(late)
            &&& 1825 <= late.day_number() - now.day_number() <= 1827
            &&& late.is_valid()
            &&& late.year == now.year + 5
            &&& late.month == now.month
            &&& late.day == now.day || (now.month == 2 && now.day == 29 && late.day == 28)
            &&& late.second_of_day == now.second_of_day
            &&& late.nanosecond == now.nanosecond
            &&& t.min_signer_count == Some(sigs_required)
            &&& t.max_signer_count is None
        },
{
    years_later_in_days(now);
}

/// A multi-signature wallet of two signers has the tiers of a holding wallet.
pub proof fn multisig_of_two_has_hodling_tiers(
    network: PublicNetwork,
    holders: u16,
    hardware_req: Requirement,
    watch_only_req: Requirement,
    now: UtcInstant,
)
    requires
        now.is_valid(),
        holders >= 3,
    ensures
        match (
            multisig_outcome(network, Some(2), hardware_req, watch_only_req, now),
            hodling_outcome(network, holders, hardware_req, watch_only_req, now),
        ) {
            (Ok(m), Ok(h)) => m.conditions == h.conditions,
            (Err(e), Err(f)) => e == f,
            _ => false,
        },
        now.year + 5 <= MAX_YEAR ==> multisig_outcome(
            network,
            Some(2),
            hardware_req,
            watch_only_req,
            now,
        ) is Ok,
{
}

/// A multi-signature wallet of more than three signers, set up at an instant with
/// five years of calendar ahead, has three tiers: from tier to tier the number of
/// signatures asked for does not rise, whatever the number of signers, and each tier
/// opens strictly later than the one before.
pub proof fn multisig_schedule_decays(
    network: PublicNetwork,
    sigs_required: u16,
    hardware_req: Requirement,
    watch_only_req: Requirement,
    now: UtcInstant,
    total: int,
)
    requires
        now.is_valid(),
        sigs_required > 3,
        now.year + 5 <= MAX_YEAR,
    ensures
        multisig_outcome(network, Some(sigs_required), hardware_req, watch_only_req, now)
            matches Ok(t) && {
            &&& t.conditions.len() == 3
            &&& is_decay_schedule(t.conditions, total)
            &&& t.conditions[0].sigs == SigsReq::AtLeast((sigs_required - 1) as u16)
            &&& t.conditions[0].timelock == TimelockReq::Anytime
            &&& t.conditions[1].timelock matches TimelockReq::AfterTime(mid)
            &&& t.conditions[2].timelock matches TimelockReq::AfterTime(late)
            &&& Some(mid) == now.years_later(3)
            &&& Some(late) == now.years_later(5)
            &&& now.is_before(mid)
            &&& mid.is_before(late)
            &&& t.conditions[2].sigs == SigsReq::Any
            &&& t.conditions[1].sigs matches SigsReq::AtLeast(half)
            &&& 2 * half >= sigs_required
            &&& 2 * (half - 1) < sigs_required
            &&& 1095 <= mid.day_number() - now.day_number() <= 1096
            &&& 1825 <= late.day_number() - now.day_number() <= 1827
        },
{
    years_later_in_days(now);
}

/// Two calls of `singlesig` with the same arguments give the same template.
pub proof fn singlesig_is_deterministic(
    a: WalletTemplate,
    b: WalletTemplate,
    taproot: bool,
    network: PublicNetwork,
    require_hardware: bool,
)
    requires
        a@ == singlesig_template(taproot, network, require_hardware),
        b@ == singlesig_template(taproot, network, require_hardware),
    ensures
        a@ == b@,
{
}

/// Two calls of `hodling` with the same arguments and the same instant give the
/// same template, or the same error.
pub proof fn hodling_is_deterministic(
    a: Result<WalletTemplate, TemplateError>,
    b: Result<WalletTemplate, TemplateError>,
    network: PublicNetwork,
    sigs_required: u16,
    hardware_req: Requirement,
    watch_only_req: Requirement,
    now: UtcInstant,
)
    requires
        outcome_view(a) == hodling_outcome(
            network,
            sigs_required,
            hardware_req,
            watch_only_req,
            now,
        ),
        outcome_view(b) == hodling_outcome(
            network,
            sigs_required,
            hardware_req,
            watch_only_req,
            now,
        ),
    ensures
        outcome_view(a) == outcome_view(b),
        a is Ok <==> b is Ok,
        a matches Ok(s) ==> (b matches Ok(t) ==> s@ == t@),
{
}

/// Two calls of `multisig` with the same arguments and the same instant give the
/// same template, or the same error.
pub proof fn multisig_is_deterministic(
    a: Result<WalletTemplate, TemplateError>,
    b: Result<WalletTemplate, TemplateError>,
    network: PublicNetwork,
    sigs_required: Option<u16>,
    hardware_req: Requirement,
    watch_only_req: Requirement,
    now: UtcInstant,
)
    requires
        outcome_view(a) == multisig_outcome(
            network,
            sigs_required,
            hardware_req,
            watch_only_req,
            now,
        ),
        outcome_view(b) == multisig_outcome(
            network,
            sigs_required,
            hardware_req,
            watch_only_req,
            now,
        ),
    ensures
        outcome_view(a) == outcome_view(b),
        a is Ok <==> b is Ok,
        a matches Ok(s) ==> (b matches Ok(t) ==> s@ == t@),
{
}

} // verus!
