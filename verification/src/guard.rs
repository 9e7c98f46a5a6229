//! The plan guard.
//!
//! Checks a simulation result against a guard configuration: the latched
//! hard-limit bit, monotone non-increase of the residual, and an optional
//! ceiling on the residual. The corridor is safe exactly when none of the
//! enabled checks fails.
//!
//! The residual comparison is strict: the reference tolerance of one part
//! in a billion lies below the fixed-point resolution of one micro-unit,
//! so a rebound is any strict increase between adjacent days.

use vstd::prelude::*;
use crate::sim::SimulationResult;

verus! {

/// Guard configuration: the residual ceiling and which checks are enabled.
#[derive(Clone, Copy, PartialEq, Eq, Structural, Debug)]
pub struct PlanGuardConfig {
    /// Upper bound on the residual, read only when `require_all_below_max`.
    pub v_max: u64,
    pub require_v_nonincrease: bool,
    pub require_all_below_max: bool,
}

/// The four verdict bits returned to callers.
#[derive(Clone, Copy, PartialEq, Eq, Structural, Debug)]
pub struct GuardVerdict {
    pub corridor_safe: bool,
    pub hard_limit_violated: bool,
    pub v_nonincreasing: bool,
    pub v_exceeded_max: bool,
}

/// Some adjacent pair of residuals strictly increases.
pub open spec fn spec_has_rebound(v: Seq<u64>) -> bool {
    exists|i: int| 0 <= i && i + 1 < v.len() && #[trigger] v[i + 1] > v[i]
}

/// Some residual exceeds the ceiling.
pub open spec fn spec_exceeds_max(v: Seq<u64>, v_max: u64) -> bool {
    exists|i: int| 0 <= i < v.len() && #[trigger] v[i] > v_max
}

/// Evaluate the guard over a simulation result.
///
/// The verdict reports the hard-limit bit unchanged; `v_nonincreasing` is
/// false exactly when the non-increase check is enabled and some adjacent
/// residual pair rebounds; `v_exceeded_max` is true exactly when the
/// ceiling check is enabled and some residual exceeds it; and
/// `corridor_safe` holds exactly when no hard limit was hit, the residual
/// never rebounds (if required) and never exceeds the ceiling (if
/// required).
#[verifier::loop_isolation(false)]
pub fn evaluate_plan_guard(sim: &SimulationResult, cfg: &PlanGuardConfig) -> (verdict:
    GuardVerdict)
    ensures
        verdict.hard_limit_violated == sim.violated_hard_limit,
        verdict.v_nonincreasing == !(cfg.require_v_nonincrease && spec_has_rebound(
            sim.state.residual_v@,
        )),
        verdict.v_exceeded_max == (cfg.require_all_below_max && spec_exceeds_max(
            sim.state.residual_v@,
            cfg.v_max,
        )),
        verdict.corridor_safe == (!verdict.hard_limit_violated && verdict.v_nonincreasing
            && !verdict.v_exceeded_max),
{
    let vt = &sim.state.residual_v;
    let hard_violation = sim.violated_hard_limit;
    let mut v_noninc = true;
    if cfg.require_v_nonincrease {
        let mut found = false;
        let mut i: usize = 1;
        while !found && i < vt.len()
            invariant
                1 <= i,
                i <= vt@.len() || i == 1,
                !found ==> forall|j: int| 1 <= j < i ==> !(#[trigger] vt@[j] > vt@[j - 1]),
                found ==> spec_has_rebound(vt@),
            decreases vt@.len() - i + (if found { 0int } else { 1int }),
        {
            if vt[i] > vt[i - 1] {
                found = true;
                proof {
                    assert(vt@[i - 1 + 1] > vt@[i - 1]);
                }
            } else {
                i = i + 1;
            }
        }
        v_noninc = !found;
        proof {
            if !found {
                assert forall|k: int| !(0 <= k && k + 1 < vt@.len() && #[trigger] vt@[k + 1]
                    > vt@[k]) by {
                    if 0 <= k && k + 1 < vt@.len() {
                        assert(k + 1 < i);
                        assert(!(vt@[k + 1] > vt@[k + 1 - 1]));
                    }
                }
            }
        }
    }
    let mut v_exceeded = false;
    if cfg.require_all_below_max {
        let mut i: usize = 0;
        while !v_exceeded && i < vt.len()
            invariant
                0 <= i <= vt@.len(),
                !v_exceeded ==> forall|j: int| 0 <= j < i ==> !(#[trigger] vt@[j] > cfg.v_max),
                v_exceeded ==> spec_exceeds_max(vt@, cfg.v_max),
            decreases vt@.len() - i + (if v_exceeded { 0int } else { 1int }),
        {
            if vt[i] > cfg.v_max {
                v_exceeded = true;
            } else {
                i = i + 1;
            }
        }
    }
    let corridor_safe = !hard_violation && v_noninc && !v_exceeded;
    GuardVerdict {
        corridor_safe,
        hard_limit_violated: hard_violation,
        v_nonincreasing: v_noninc,
        v_exceeded_max: v_exceeded,
    }
}

} // verus!
