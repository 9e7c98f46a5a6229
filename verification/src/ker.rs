//! The K/E/R scorer.
//!
//! For a method and the outcome logs recorded for it, the scorer aggregates
//! per-corridor risk coordinates, a knowledge score K, an eco-impact score E
//! and an aggregate risk-of-harm R, all unit-interval fixed-point scalars,
//! plus a hard-violation bit that disqualifies a method whose pet, human or
//! wildlife corridor saturates.

use vstd::prelude::*;
use crate::fixed::{SCALE, is_unit, spec_clamp01, clamp01, unit_rate, unit_frac};
use crate::model::{
    ControlFamily, ControlMethod, EffectivenessBand, KerScore, OutcomeLog, RiskCoordinates,
    WasteBurden,
};

verus! {

/// Waste-corridor baseline for methods with disposable electronics or
/// persistent plastics.
pub const WASTE_BASE_MATERIAL: u64 = 700_000;

/// Waste-corridor baseline for all other methods.
pub const WASTE_BASE_PLAIN: u64 = 200_000;

/// Waste-corridor surcharge per log reporting a high waste burden.
pub const WASTE_EXTRA_HIGH: u64 = 200_000;

/// Waste-corridor surcharge per log reporting a moderate waste burden.
pub const WASTE_EXTRA_MODERATE: u64 = 100_000;

/// K for a method with no logs at all: anecdotal knowledge only.
pub const K_ANECDOTAL: u64 = 100_000;

/// K base for fewer than five logs.
pub const K_BASE_FEW: u64 = 400_000;

/// K base for at least five logs.
pub const K_BASE_SOME: u64 = 700_000;

/// K base for at least twenty logs.
pub const K_BASE_MANY: u64 = 900_000;

/// E penalty for disposable electronics.
pub const E_PENALTY_ELECTRONICS: u64 = 150_000;

/// E penalty for persistent plastics.
pub const E_PENALTY_PLASTIC: u64 = 100_000;

/// R weight of the pets corridor.
pub const W_PETS: u64 = 300_000;

/// R weight of the human-injury corridor.
pub const W_HUMAN: u64 = 300_000;

/// R weight of the wildlife corridor.
pub const W_WILDLIFE: u64 = 200_000;

/// R weight of the waste corridor.
pub const W_WASTE: u64 = 100_000;

/// R weight of the air corridor.
pub const W_AIR: u64 = 100_000;

/// Number of logs with a pet incident.
pub open spec fn count_pet(logs: Seq<OutcomeLog>) -> int {
    logs.filter(|l: OutcomeLog| l.side_effects.pet_incident).len() as int
}

/// Number of logs with a wildlife incident.
pub open spec fn count_wildlife(logs: Seq<OutcomeLog>) -> int {
    logs.filter(|l: OutcomeLog| l.side_effects.wildlife_incident).len() as int
}

/// Number of logs with a human injury.
pub open spec fn count_human(logs: Seq<OutcomeLog>) -> int {
    logs.filter(|l: OutcomeLog| l.side_effects.human_injury).len() as int
}

/// Number of logs with an air-quality concern.
pub open spec fn count_air(logs: Seq<OutcomeLog>) -> int {
    logs.filter(|l: OutcomeLog| l.side_effects.air_quality_concern).len() as int
}

/// Number of logs in a given effectiveness band.
pub open spec fn count_band(logs: Seq<OutcomeLog>, band: EffectivenessBand) -> int {
    logs.filter(|l: OutcomeLog| l.effectiveness == band).len() as int
}

/// Number of logs whose effectiveness is High or Medium.
pub open spec fn count_success(logs: Seq<OutcomeLog>) -> int {
    logs.filter(
        |l: OutcomeLog|
            l.effectiveness == EffectivenessBand::High || l.effectiveness
                == EffectivenessBand::Medium,
    ).len() as int
}

/// Waste surcharge contributed by one log.
pub open spec fn spec_waste_points(l: OutcomeLog) -> int {
    match l.side_effects.waste_burden {
        WasteBurden::High => WASTE_EXTRA_HIGH as int,
        WasteBurden::Moderate => WASTE_EXTRA_MODERATE as int,
        WasteBurden::Negligible => 0,
    }
}

/// Total waste surcharge over a list of logs, summed in input order.
pub open spec fn spec_waste_extra(logs: Seq<OutcomeLog>) -> int
    decreases logs.len(),
{
    if logs.len() == 0 {
        0
    } else {
        spec_waste_extra(logs.drop_last()) + spec_waste_points(logs.last())
    }
}

/// Waste-corridor baseline of a method, from its material flags.
pub open spec fn spec_waste_base(method: ControlMethod) -> int {
    if method.uses_disposable_electronics || method.generates_persistent_plastic {
        WASTE_BASE_MATERIAL as int
    } else {
        WASTE_BASE_PLAIN as int
    }
}

/// Clamped event frequency `clamp01(count / n)` in fixed point.
pub open spec fn spec_event_rate(count: int, n: int) -> int {
    spec_clamp01(count * (SCALE as int) / n)
}

/// The five risk coordinates of a method over its logs. With no logs every
/// coordinate is zero; otherwise the pet, wildlife, human-injury and air
/// coordinates are clamped log frequencies and the waste coordinate is the
/// material baseline plus the average reported surcharge.
pub open spec fn spec_risk_coordinates(logs: Seq<OutcomeLog>, method: ControlMethod)
    -> RiskCoordinates {
    if logs.len() == 0 {
        RiskCoordinates { r_pets: 0, r_wildlife: 0, r_waste: 0, r_air: 0, r_human_injury: 0 }
    } else {
        let n = logs.len() as int;
        RiskCoordinates {
            r_pets: spec_event_rate(count_pet(logs), n) as u64,
            r_wildlife: spec_event_rate(count_wildlife(logs), n) as u64,
            r_waste: spec_clamp01(spec_waste_base(method) + spec_waste_extra(logs) / n) as u64,
            r_air: spec_event_rate(count_air(logs), n) as u64,
            r_human_injury: spec_event_rate(count_human(logs), n) as u64,
        }
    }
}

/// Knowledge score K. With no logs it is anecdotal. Otherwise a corpus-size
/// base (two step thresholds, at five and at twenty logs) is discounted by
/// half of the variability of the effectiveness bands,
/// `sum over bands of p * (1 - p)`.
pub open spec fn spec_k(logs: Seq<OutcomeLog>) -> int {
    if logs.len() == 0 {
        K_ANECDOTAL as int
    } else {
        let n = logs.len() as int;
        let sc = SCALE as int;
        let ph = count_band(logs, EffectivenessBand::High) * sc / n;
        let pm = count_band(logs, EffectivenessBand::Medium) * sc / n;
        let pl = count_band(logs, EffectivenessBand::Low) * sc / n;
        let variability = (ph * (sc - ph) + pm * (sc - pm) + pl * (sc - pl)) / sc;
        let base = if logs.len() >= 20 {
            K_BASE_MANY as int
        } else if logs.len() >= 5 {
            K_BASE_SOME as int
        } else {
            K_BASE_FEW as int
        };
        if variability >= 2 * sc {
            0
        } else {
            spec_clamp01(base * (2 * sc - variability) / (2 * sc))
        }
    }
}

/// Family base for the eco-impact score E.
pub open spec fn spec_family_base(family: ControlFamily) -> int {
    match family {
        ControlFamily::Exclusion => 950_000,
        ControlFamily::Sanitation => 930_000,
        ControlFamily::HabitatChange => 900_000,
        ControlFamily::PredatorSupport => 880_000,
        ControlFamily::MechanicalKill => 800_000,
        ControlFamily::LiveCapture => 780_000,
        ControlFamily::MonitoringOnly => 700_000,
    }
}

/// Material penalty subtracted from E.
pub open spec fn spec_e_penalty(method: ControlMethod) -> int {
    (if method.uses_disposable_electronics {
        E_PENALTY_ELECTRONICS as int
    } else {
        0
    }) + (if method.generates_persistent_plastic {
        E_PENALTY_PLASTIC as int
    } else {
        0
    })
}

/// Eco-impact score E: the family base, blended with the fraction of
/// successful (High or Medium) logs when there are any, minus the material
/// penalty, clamped into the unit interval.
pub open spec fn spec_e(logs: Seq<OutcomeLog>, method: ControlMethod) -> int {
    let base = spec_family_base(method.family);
    let penalty = spec_e_penalty(method);
    let sc = SCALE as int;
    if logs.len() > 0 {
        let n = logs.len() as int;
        let success_frac = count_success(logs) * sc / n;
        let eff_factor = 500_000 + success_frac / 2;
        let blended = base * eff_factor / sc;
        if blended >= penalty {
            spec_clamp01(blended - penalty)
        } else {
            0
        }
    } else {
        if base >= penalty {
            spec_clamp01(base - penalty)
        } else {
            0
        }
    }
}

/// Aggregate risk-of-harm R: the fixed corridor weighting
/// 0.3 pets + 0.3 human injury + 0.2 wildlife + 0.1 waste + 0.1 air.
pub open spec fn spec_r(coords: RiskCoordinates) -> int {
    let sc = SCALE as int;
    spec_clamp01(
        ((W_PETS as int) * coords.r_pets + (W_HUMAN as int) * coords.r_human_injury + (
        W_WILDLIFE as int) * coords.r_wildlife + (W_WASTE as int) * coords.r_waste + (
        W_AIR as int) * coords.r_air) / sc,
    )
}

/// A hard violation: the pet, human-injury or wildlife corridor saturates.
pub open spec fn spec_hard_violation(coords: RiskCoordinates) -> bool {
    coords.r_pets >= SCALE || coords.r_human_injury >= SCALE || coords.r_wildlife >= SCALE
}

/// The full score of a method over a list of logs.
pub open spec fn spec_score(method: ControlMethod, logs: Seq<OutcomeLog>) -> KerScore {
    let coords = spec_risk_coordinates(logs, method);
    KerScore {
        k: spec_k(logs) as u64,
        e: spec_e(logs, method) as u64,
        r: spec_r(coords) as u64,
        coords,
        hard_violation: spec_hard_violation(coords),
    }
}

/// One unfolding step of `filter` over a `take` prefix: extending the prefix
/// by one element appends it to the filtered sequence exactly when it
/// matches.
proof fn lemma_filter_take_step<A>(s: Seq<A>, i: int, pred: spec_fn(A) -> bool)
    requires
        0 <= i < s.len(),
    ensures
        pred(s[i]) ==> s.take(i + 1).filter(pred) == s.take(i).filter(pred).push(s[i]),
        !pred(s[i]) ==> s.take(i + 1).filter(pred) == s.take(i).filter(pred),
{
    reveal(Seq::filter);
    let t = s.take(i + 1);
    assert(t.drop_last() =~= s.take(i));
    assert(t.last() == s[i]);
}

/// Compute the five risk coordinates of `method` over `logs`.
#[verifier::loop_isolation(false)]
pub fn compute_risk_coordinates(logs: &Vec<OutcomeLog>, method: &ControlMethod) -> (coords:
    RiskCoordinates)
    ensures
        coords == spec_risk_coordinates(logs@, *method),
        coords.wf(),
{
    let ghost pet_pred = |l: OutcomeLog| l.side_effects.pet_incident;
    let ghost wild_pred = |l: OutcomeLog| l.side_effects.wildlife_incident;
    let ghost human_pred = |l: OutcomeLog| l.side_effects.human_injury;
    let ghost air_pred = |l: OutcomeLog| l.side_effects.air_quality_concern;
    if logs.len() == 0 {
        return RiskCoordinates { r_pets: 0, r_wildlife: 0, r_waste: 0, r_air: 0, r_human_injury: 0 };
    }
    let n: u64 = logs.len() as u64;
    let mut pets: u64 = 0;
    let mut wild: u64 = 0;
    let mut human: u64 = 0;
    let mut air: u64 = 0;
    let mut extra: u128 = 0;
    let mut i: usize = 0;
    proof {
        reveal(Seq::filter);
        assert(logs@.take(0).filter(pet_pred) =~= Seq::<OutcomeLog>::empty());
        assert(logs@.take(0).filter(wild_pred) =~= Seq::<OutcomeLog>::empty());
        assert(logs@.take(0).filter(human_pred) =~= Seq::<OutcomeLog>::empty());
        assert(logs@.take(0).filter(air_pred) =~= Seq::<OutcomeLog>::empty());
    }
    while i < logs.len()
        invariant
            0 <= i <= logs@.len(),
            n == logs@.len(),
            n >= 1,
            pets == logs@.take(i as int).filter(pet_pred).len(),
            wild == logs@.take(i as int).filter(wild_pred).len(),
            human == logs@.take(i as int).filter(human_pred).len(),
            air == logs@.take(i as int).filter(air_pred).len(),
            extra == spec_waste_extra(logs@.take(i as int)),
            pets <= i && wild <= i && human <= i && air <= i,
            extra <= (WASTE_EXTRA_HIGH as int) * i,
        decreases logs@.len() - i,
    {
        let log = &logs[i];
        proof {
            lemma_filter_take_step(logs@, i as int, pet_pred);
            lemma_filter_take_step(logs@, i as int, wild_pred);
            lemma_filter_take_step(logs@, i as int, human_pred);
            lemma_filter_take_step(logs@, i as int, air_pred);
            assert(logs@.take(i as int + 1).drop_last() =~= logs@.take(i as int));
        }
        if log.side_effects.pet_incident {
            pets = pets + 1;
        }
        if log.side_effects.wildlife_incident {
            wild = wild + 1;
        }
        if log.side_effects.human_injury {
            human = human + 1;
        }
        if log.side_effects.air_quality_concern {
            air = air + 1;
        }
        extra = extra + match log.side_effects.waste_burden {
            WasteBurden::High => WASTE_EXTRA_HIGH as u128,
            WasteBurden::Moderate => WASTE_EXTRA_MODERATE as u128,
            WasteBurden::Negligible => 0,
        };
        i = i + 1;
    }
    proof {
        assert(logs@.take(n as int) =~= logs@);
    }
    let base: u64 = if method.uses_disposable_electronics || method.generates_persistent_plastic {
        WASTE_BASE_MATERIAL
    } else {
        WASTE_BASE_PLAIN
    };
    proof {
        vstd::arithmetic::div_mod::lemma_div_is_ordered(
            extra as int,
            (WASTE_EXTRA_HIGH as int) * (n as int),
            n as int,
        );
        vstd::arithmetic::div_mod::lemma_div_by_multiple(WASTE_EXTRA_HIGH as int, n as int);
    }
    let avg_extra: u64 = (extra / (n as u128)) as u64;
    let r_waste: u64 = clamp01(base + avg_extra);
    RiskCoordinates {
        r_pets: unit_rate(pets, n),
        r_wildlife: unit_rate(wild, n),
        r_waste,
        r_air: unit_rate(air, n),
        r_human_injury: unit_rate(human, n),
    }
}

/// Compute the knowledge score K of a list of logs.
#[verifier::loop_isolation(false)]
pub fn compute_k(logs: &Vec<OutcomeLog>) -> (k: u64)
    ensures
        k == spec_k(logs@),
        is_unit(k),
{
    let ghost high_pred = |l: OutcomeLog| l.effectiveness == EffectivenessBand::High;
    let ghost med_pred = |l: OutcomeLog| l.effectiveness == EffectivenessBand::Medium;
    let ghost low_pred = |l: OutcomeLog| l.effectiveness == EffectivenessBand::Low;
    if logs.len() == 0 {
        return K_ANECDOTAL;
    }
    let n: u64 = logs.len() as u64;
    let mut high: u64 = 0;
    let mut med: u64 = 0;
    let mut low: u64 = 0;
    let mut i: usize = 0;
    proof {
        reveal(Seq::filter);
        assert(logs@.take(0).filter(high_pred) =~= Seq::<OutcomeLog>::empty());
        assert(logs@.take(0).filter(med_pred) =~= Seq::<OutcomeLog>::empty());
        assert(logs@.take(0).filter(low_pred) =~= Seq::<OutcomeLog>::empty());
    }
    while i < logs.len()
        invariant
            0 <= i <= logs@.len(),
            n == logs@.len(),
            n >= 1,
            high == logs@.take(i as int).filter(high_pred).len(),
            med == logs@.take(i as int).filter(med_pred).len(),
            low == logs@.take(i as int).filter(low_pred).len(),
            high <= i && med <= i && low <= i,
        decreases logs@.len() - i,
    {
        proof {
            lemma_filter_take_step(logs@, i as int, high_pred);
            lemma_filter_take_step(logs@, i as int, med_pred);
            lemma_filter_take_step(logs@, i as int, low_pred);
        }
        match logs[i].effectiveness {
            EffectivenessBand::High => {
                high = high + 1;
            },
            EffectivenessBand::Medium => {
                med = med + 1;
            },
            EffectivenessBand::Low => {
                low = low + 1;
            },
        }
        i = i + 1;
    }
    proof {
        assert(logs@.take(n as int) =~= logs@);
    }
    let ph: u64 = unit_frac(high, n);
    let pm: u64 = unit_frac(med, n);
    let pl: u64 = unit_frac(low, n);
    proof {
        vstd::arithmetic::mul::lemma_mul_upper_bound(
            ph as int,
            SCALE as int,
            (SCALE - ph) as int,
            SCALE as int,
        );
        vstd::arithmetic::mul::lemma_mul_upper_bound(
            pm as int,
            SCALE as int,
            (SCALE - pm) as int,
            SCALE as int,
        );
        vstd::arithmetic::mul::lemma_mul_upper_bound(
            pl as int,
            SCALE as int,
            (SCALE - pl) as int,
            SCALE as int,
        );
    }
    let variability: u64 = (ph * (SCALE - ph) + pm * (SCALE - pm) + pl * (SCALE - pl)) / SCALE;
    let base: u64 = if n >= 20 {
        K_BASE_MANY
    } else if n >= 5 {
        K_BASE_SOME
    } else {
        K_BASE_FEW
    };
    if variability >= 2 * SCALE {
        0
    } else {
        proof {
            vstd::arithmetic::mul::lemma_mul_upper_bound(
                base as int,
                K_BASE_MANY as int,
                (2 * SCALE - variability) as int,
                2 * (SCALE as int),
            );
        }
        clamp01(base * (2 * SCALE - variability) / (2 * SCALE))
    }
}

/// Compute the eco-impact score E of `method` over `logs`.
#[verifier::loop_isolation(false)]
pub fn compute_e(logs: &Vec<OutcomeLog>, method: &ControlMethod) -> (e: u64)
    ensures
        e == spec_e(logs@, *method),
        is_unit(e),
{
    let ghost succ_pred = |l: OutcomeLog|
        l.effectiveness == EffectivenessBand::High || l.effectiveness == EffectivenessBand::Medium;
    let base: u64 = match method.family {
        ControlFamily::Exclusion => 950_000,
        ControlFamily::Sanitation => 930_000,
        ControlFamily::HabitatChange => 900_000,
        ControlFamily::PredatorSupport => 880_000,
        ControlFamily::MechanicalKill => 800_000,
        ControlFamily::LiveCapture => 780_000,
        ControlFamily::MonitoringOnly => 700_000,
    };
    let mut penalty: u64 = 0;
    if method.uses_disposable_electronics {
        penalty = penalty + E_PENALTY_ELECTRONICS;
    }
    if method.generates_persistent_plastic {
        penalty = penalty + E_PENALTY_PLASTIC;
    }
    if logs.len() == 0 {
        if base >= penalty {
            return clamp01(base - penalty);
        } else {
            return 0;
        }
    }
    let n: u64 = logs.len() as u64;
    let mut succ: u64 = 0;
    let mut i: usize = 0;
    proof {
        reveal(Seq::filter);
        assert(logs@.take(0).filter(succ_pred) =~= Seq::<OutcomeLog>::empty());
    }
    while i < logs.len()
        invariant
            0 <= i <= logs@.len(),
            n == logs@.len(),
            n >= 1,
            succ == logs@.take(i as int).filter(succ_pred).len(),
            succ <= i,
        decreases logs@.len() - i,
    {
        proof {
            lemma_filter_take_step(logs@, i as int, succ_pred);
        }
        match logs[i].effectiveness {
            EffectivenessBand::High => {
                succ = succ + 1;
            },
            EffectivenessBand::Medium => {
                succ = succ + 1;
            },
            EffectivenessBand::Low => {},
        }
        i = i + 1;
    }
    proof {
        assert(logs@.take(n as int) =~= logs@);
    }
    let success_frac: u64 = unit_frac(succ, n);
    let eff_factor: u64 = 500_000 + success_frac / 2;
    let blended: u64 = base * eff_factor / SCALE;
    if blended >= penalty {
        clamp01(blended - penalty)
    } else {
        0
    }
}

/// Compute the aggregate risk-of-harm R from clamped coordinates.
pub fn compute_r(coords: &RiskCoordinates) -> (r: u64)
    requires
        coords.wf(),
    ensures
        r == spec_r(*coords),
        is_unit(r),
{
    let weighted: u64 = (W_PETS * coords.r_pets + W_HUMAN * coords.r_human_injury + W_WILDLIFE
        * coords.r_wildlife + W_WASTE * coords.r_waste + W_AIR * coords.r_air) / SCALE;
    clamp01(weighted)
}

/// Score `method` against `logs`: risk coordinates, K, E, R and the
/// hard-violation bit. Every scalar of the result lies in the unit interval.
pub fn score_method(method: &ControlMethod, logs: &Vec<OutcomeLog>) -> (score: KerScore)
    ensures
        score == spec_score(*method, logs@),
        score.wf(),
{
    let coords = compute_risk_coordinates(logs, method);
    let k: u64 = compute_k(logs);
    let e: u64 = compute_e(logs, method);
    let r: u64 = compute_r(&coords);
    let hard_violation = coords.r_pets >= SCALE || coords.r_human_injury >= SCALE
        || coords.r_wildlife >= SCALE;
    KerScore { k, e, r, coords, hard_violation }
}

} // verus!
