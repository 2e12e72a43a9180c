//! The threshold policy: a pure judgment of whether a vote tally passes,
//! fails, or is still undecided, under one of three weighting schemes.
use vstd::arithmetic::div_mod::{
    lemma_div_is_ordered, lemma_div_multiples_vanish_fancy, lemma_div_pos_is_pos,
};
use vstd::arithmetic::mul::{lemma_mul_inequality, lemma_mul_upper_bound};
use vstd::prelude::*;

use crate::errors::ContractError;
use crate::votes::{spec_opinions, spec_total, VoteTally};

verus! {

/// Scale of a fixed-point fraction: a `Percentage` with `atomics == FRACTIONAL_SCALE`
/// is the fraction one.
pub const FRACTIONAL_SCALE: u64 = 1_000_000_000_000_000_000;

/// A fraction with eighteen decimal places, the host chain's convention
/// for percentages. Valid configuration values lie in (0, 1].
#[derive(Clone, Copy, Debug, PartialEq, Eq, Structural)]
pub struct Percentage {
    /// The fraction times `FRACTIONAL_SCALE`.
    pub atomics: u64,
}

impl Percentage {
    /// The fraction `percent / 100`.
    pub fn percent(percent: u64) -> (r: Percentage)
        requires
            percent <= 100,
        ensures
            r.atomics == percent * (FRACTIONAL_SCALE as int) / 100,
    {
        proof {
            lemma_mul_upper_bound(percent as int, 100, FRACTIONAL_SCALE as int,
                FRACTIONAL_SCALE as int);
            lemma_div_is_ordered(
                percent as int * (FRACTIONAL_SCALE as int),
                100 * (FRACTIONAL_SCALE as int),
                100,
            );
            assert(100 * (FRACTIONAL_SCALE as int) / 100 == FRACTIONAL_SCALE as int) by {
                lemma_div_multiples_vanish_fancy(FRACTIONAL_SCALE as int, 0, 100);
            }
        }
        Percentage { atomics: ((percent as u128 * (FRACTIONAL_SCALE as u128)
            / 100) as u64) }
    }
}

/// A percentage that a threshold configuration may carry: more than zero,
/// at most one.
pub open spec fn spec_percentage_in_range(p: Percentage) -> bool {
    0 < p.atomics <= FRACTIONAL_SCALE
}

/// The least whole weight that reaches the fraction `atomics / FRACTIONAL_SCALE`
/// of `weight`: the product rounded up to the nearest integer.
pub open spec fn spec_votes_needed(weight: int, atomics: int) -> int {
    (weight * atomics + (FRACTIONAL_SCALE - 1)) / (FRACTIONAL_SCALE as int)
}

/// Rounding up never exceeds the whole weight while the fraction is at most one.
pub proof fn lemma_votes_needed_le_weight(weight: int, atomics: int)
    requires
        0 <= weight,
        0 <= atomics <= FRACTIONAL_SCALE,
    ensures
        spec_votes_needed(weight, atomics) <= weight,
{
    let d = FRACTIONAL_SCALE as int;
    lemma_mul_inequality(atomics, d, weight);
    assert(weight * atomics == atomics * weight) by {
        vstd::arithmetic::mul::lemma_mul_is_commutative(weight, atomics);
    }
    assert(weight * atomics + (d - 1) <= d * weight + (d - 1));
    lemma_div_is_ordered(weight * atomics + (d - 1), d * weight + (d - 1), d);
    lemma_div_multiples_vanish_fancy(weight, d - 1, d);
}

/// Exact rounded-up product, computed without overflow in 128 bits.
pub fn votes_needed(weight: u64, p: Percentage) -> (r: u64)
    requires
        p.atomics <= FRACTIONAL_SCALE,
    ensures
        r == spec_votes_needed(weight as int, p.atomics as int),
        r <= weight,
{
    proof {
        lemma_mul_upper_bound(
            weight as int,
            u64::MAX as int,
            p.atomics as int,
            FRACTIONAL_SCALE as int,
        );
        lemma_votes_needed_le_weight(weight as int, p.atomics as int);
        if weight * p.atomics + (FRACTIONAL_SCALE - 1) > 0 {
            lemma_div_pos_is_pos(
                weight as int * p.atomics as int + (FRACTIONAL_SCALE - 1),
                FRACTIONAL_SCALE as int,
            );
        }
    }
    let num: u128 = (weight as u128) * (p.atomics as u128)
        + ((FRACTIONAL_SCALE - 1) as u128);
    (num / (FRACTIONAL_SCALE as u128)) as u64
}

/// The configured rule that decides when accumulated yes-weight suffices.
#[derive(Clone, Copy, Debug, PartialEq, Eq, Structural)]
pub enum Threshold {
    /// A fixed minimum yes-weight.
    AbsoluteCount { weight: u64 },
    /// A minimum fraction of the total weight that must vote yes.
    AbsolutePercentage { percentage: Percentage },
    /// A minimum participation fraction of the total weight (quorum), then a
    /// minimum yes-fraction of the opinions cast (abstain excluded).
    ThresholdQuorum { threshold: Percentage, quorum: Percentage },
}

/// A threshold that construction-time validation accepts against the given
/// total weight.
pub open spec fn spec_threshold_valid(th: Threshold, total_weight: u64) -> bool {
    match th {
        Threshold::AbsoluteCount { weight } => 0 < weight <= total_weight,
        Threshold::AbsolutePercentage { percentage } => spec_percentage_in_range(percentage),
        Threshold::ThresholdQuorum { threshold, quorum } => spec_percentage_in_range(threshold)
            && spec_percentage_in_range(quorum),
    }
}

impl Threshold {
    /// Reject a configuration whose required weight is zero, or one that no
    /// tally over the given total weight can ever satisfy.
    pub fn validate(&self, total_weight: u64) -> (r: Result<(), ContractError>)
        ensures
            r is Ok <==> spec_threshold_valid(*self, total_weight),
            r is Err ==> (r->Err_0 == ContractError::ZeroWeight || r->Err_0
                == ContractError::UnreachableWeight),
            r is Err ==> (r->Err_0 == ContractError::ZeroWeight <==> match *self {
                Threshold::AbsoluteCount { weight } => weight == 0,
                Threshold::AbsolutePercentage { percentage } => percentage.atomics == 0,
                Threshold::ThresholdQuorum { threshold, quorum } => threshold.atomics == 0
                    || quorum.atomics == 0,
            }),
    {
        match self {
            Threshold::AbsoluteCount { weight } => {
                if *weight == 0 {
                    Err(ContractError::ZeroWeight)
                } else if *weight > total_weight {
                    Err(ContractError::UnreachableWeight)
                } else {
                    Ok(())
                }
            },
            Threshold::AbsolutePercentage { percentage } => {
                if percentage.atomics == 0 {
                    Err(ContractError::ZeroWeight)
                } else if percentage.atomics > FRACTIONAL_SCALE {
                    Err(ContractError::UnreachableWeight)
                } else {
                    Ok(())
                }
            },
            Threshold::ThresholdQuorum { threshold, quorum } => {
                if threshold.atomics == 0 || quorum.atomics == 0 {
                    Err(ContractError::ZeroWeight)
                } else if threshold.atomics > FRACTIONAL_SCALE || quorum.atomics
                    > FRACTIONAL_SCALE {
                    Err(ContractError::UnreachableWeight)
                } else {
                    Ok(())
                }
            },
        }
    }
}

/// A threshold as reported to queriers, alongside the total weight it is
/// measured against. The rules and the group's weight may change after a
/// proposal snapshots them, so per-proposal responses carry the snapshot.
#[derive(Clone, Copy, Debug, PartialEq, Eq, Structural)]
pub enum ThresholdResponse {
    AbsoluteCount { weight: u64, total_weight: u64 },
    AbsolutePercentage { percentage: Percentage, total_weight: u64 },
    ThresholdQuorum { threshold: Percentage, quorum: Percentage, total_weight: u64 },
}

/// The response a threshold yields for a given total weight.
pub open spec fn spec_to_response(th: Threshold, total_weight: u64) -> ThresholdResponse {
    match th {
        Threshold::AbsoluteCount { weight } => ThresholdResponse::AbsoluteCount {
            weight,
            total_weight,
        },
        Threshold::AbsolutePercentage { percentage } => ThresholdResponse::AbsolutePercentage {
            percentage,
            total_weight,
        },
        Threshold::ThresholdQuorum { threshold, quorum } => ThresholdResponse::ThresholdQuorum {
            threshold,
            quorum,
            total_weight,
        },
    }
}

impl Threshold {
    /// Report this threshold against the given total weight.
    pub fn to_response(&self, total_weight: u64) -> (r: ThresholdResponse)
        ensures
            r == spec_to_response(*self, total_weight),
    {
        match self {
            Threshold::AbsoluteCount { weight } => ThresholdResponse::AbsoluteCount {
                weight: *weight,
                total_weight,
            },
            Threshold::AbsolutePercentage { percentage } => {
                ThresholdResponse::AbsolutePercentage { percentage: *percentage, total_weight }
            },
            Threshold::ThresholdQuorum { threshold, quorum } => {
                ThresholdResponse::ThresholdQuorum {
                    threshold: *threshold,
                    quorum: *quorum,
                    total_weight,
                }
            },
        }
    }
}

/// What the policy says about a tally: decided either way, or still open.
#[derive(Clone, Copy, Debug, PartialEq, Eq, Structural)]
pub enum PolicyOutcome {
    Passed,
    Rejected,
    Undecided,
}

/// The policy judgment over a tally, the total weight snapshotted at
/// proposal creation, and the threshold snapshotted with it.
///
/// - `AbsoluteCount`: passed once yes-weight reaches the bar; rejected once
///   even all remaining unvoted weight could no longer reach it.
/// - `AbsolutePercentage`: the same, with the bar the rounded-up fraction of
///   the total weight.
/// - `ThresholdQuorum`: until participation reaches the quorum the tally is
///   undecided (or rejected in the vacuous case that everything voted and
///   still missed it); once the quorum is met, passed when yes-weight
///   reaches the threshold fraction of the opinions cast (abstain excluded),
///   rejected when even all remaining weight voting yes could not reach that
///   fraction, undecided otherwise.
pub open spec fn spec_evaluate(t: VoteTally, total_weight: u64, th: Threshold) -> PolicyOutcome {
    let cast = spec_total(t);
    let remaining = total_weight - cast;
    match th {
        Threshold::AbsoluteCount { weight } => {
            if t.yes >= weight {
                PolicyOutcome::Passed
            } else if t.yes + remaining < weight {
                PolicyOutcome::Rejected
            } else {
                PolicyOutcome::Undecided
            }
        },
        Threshold::AbsolutePercentage { percentage } => {
            let needed = spec_votes_needed(total_weight as int, percentage.atomics as int);
            if t.yes >= needed {
                PolicyOutcome::Passed
            } else if t.yes + remaining < needed {
                PolicyOutcome::Rejected
            } else {
                PolicyOutcome::Undecided
            }
        },
        Threshold::ThresholdQuorum { threshold, quorum } => {
            if cast < spec_votes_needed(total_weight as int, quorum.atomics as int) {
                if cast == total_weight {
                    PolicyOutcome::Rejected
                } else {
                    PolicyOutcome::Undecided
                }
            } else {
                let opinions = spec_opinions(t);
                if t.yes >= spec_votes_needed(opinions, threshold.atomics as int) {
                    PolicyOutcome::Passed
                } else if t.yes + remaining < spec_votes_needed(
                    opinions + remaining,
                    threshold.atomics as int,
                ) {
                    PolicyOutcome::Rejected
                } else {
                    PolicyOutcome::Undecided
                }
            }
        },
    }
}

/// Evaluate the policy. Pure: no clock and no state, only the tally, the
/// snapshotted total weight and the snapshotted threshold.
pub fn evaluate(t: &VoteTally, total_weight: u64, th: &Threshold) -> (r: PolicyOutcome)
    requires
        spec_total(*t) <= total_weight,
        spec_threshold_valid(*th, total_weight),
    ensures
        r == spec_evaluate(*t, total_weight, *th),
{
    let cast = t.total();
    let remaining = total_weight - cast;
    match th {
        Threshold::AbsoluteCount { weight } => {
            if t.yes >= *weight {
                PolicyOutcome::Passed
            } else if t.yes + remaining < *weight {
                PolicyOutcome::Rejected
            } else {
                PolicyOutcome::Undecided
            }
        },
        Threshold::AbsolutePercentage { percentage } => {
            let needed = votes_needed(total_weight, *percentage);
            if t.yes >= needed {
                PolicyOutcome::Passed
            } else if t.yes + remaining < needed {
                PolicyOutcome::Rejected
            } else {
                PolicyOutcome::Undecided
            }
        },
        Threshold::ThresholdQuorum { threshold, quorum } => {
            if cast < votes_needed(total_weight, *quorum) {
                if cast == total_weight {
                    PolicyOutcome::Rejected
                } else {
                    PolicyOutcome::Undecided
                }
            } else {
                let opinions = t.yes + t.no + t.veto;
                if t.yes >= votes_needed(opinions, *threshold) {
                    PolicyOutcome::Passed
                } else if t.yes + remaining < votes_needed(opinions + remaining, *threshold) {
                    PolicyOutcome::Rejected
                } else {
                    PolicyOutcome::Undecided
                }
            }
        },
    }
}

/// Under an absolute-count threshold of bar `weight`, a tally passes exactly
/// when its cumulative yes-weight has reached the bar — however the ballots
/// arrived, since the judgment reads nothing but the tally.
pub proof fn lemma_absolute_count_passes_iff(t: VoteTally, total_weight: u64, weight: u64)
    requires
        spec_total(t) <= total_weight,
    ensures
        spec_evaluate(t, total_weight, Threshold::AbsoluteCount { weight })
            == PolicyOutcome::Passed <==> t.yes >= weight,
{
}

/// Under an absolute-percentage threshold, a tally passes exactly when its
/// yes-weight has reached the rounded-up fraction of the total weight: the
/// comparison is at-least, not strictly-greater.
pub proof fn lemma_absolute_percentage_passes_iff(
    t: VoteTally,
    total_weight: u64,
    percentage: Percentage,
)
    requires
        spec_total(t) <= total_weight,
    ensures
        spec_evaluate(t, total_weight, Threshold::AbsolutePercentage { percentage })
            == PolicyOutcome::Passed <==> t.yes >= spec_votes_needed(
            total_weight as int,
            percentage.atomics as int,
        ),
{
}

} // verus!
