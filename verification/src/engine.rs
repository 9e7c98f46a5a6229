//! The case-weighted K/E/R scorer.
//!
//! An alternative scoring formulation that weights each outcome log by its
//! case count and reads banded scalars instead of enum bands. The registry
//! ranks with the family-based scorer in `ker`; this one stands alone for
//! callers that need case-weighted evidence.
//!
//! Knowledge saturates with the case count: the evidence factor is
//! `1 - exp(-cases / 10)`, realised in fixed point as the power
//! `1 - EXP_NEG_TENTH ^ cases`.

use vstd::prelude::*;
use crate::fixed::{SCALE, is_unit, spec_clamp01, clamp01, mul_unit, spec_mul_unit};

verus! {

/// Fixed-point value of `exp(-1/10)`.
pub const EXP_NEG_TENTH: u64 = 904_837;

/// K granted by generic engineering knowledge when no cases are logged.
pub const K_GENERIC: u64 = 600_000;

/// E penalty for a lethal method.
pub const E_LETHAL_PENALTY: u64 = 300_000;

/// E penalty for a chemical method.
pub const E_CHEMICAL_PENALTY: u64 = 600_000;

/// E bonus for exclusion, sanitation and habitat-modification classes.
pub const E_CLASS_BONUS_STRUCTURAL: u64 = 300_000;

/// E bonus for every other class.
pub const E_CLASS_BONUS_OTHER: u64 = 100_000;

/// R surcharge for a lethal method.
pub const R_LETHAL: u64 = 300_000;

/// R surcharge for a chemical method.
pub const R_CHEMICAL: u64 = 400_000;

/// A control method in the case-weighted model: a free-form class string
/// plus the two policy flags.
#[derive(Debug)]
pub struct ControlMethod {
    pub method_id: String,
    pub class: String,
    pub lethal: bool,
    pub chemical: bool,
}

/// One aggregated field report: banded unit-interval scalars weighted by a
/// case count.
#[derive(Debug)]
pub struct OutcomeLog {
    pub method_id: String,
    pub pest_class: String,
    pub context_hash: String,
    pub n_cases: u32,
    /// Unit-interval scalars in micro-units, clamped on use.
    pub effectiveness_band: u64,
    pub bycatch_band: u64,
    pub waste_band: u64,
}

/// The case-weighted score of a method.
#[derive(Debug)]
pub struct RiskScoreKER {
    pub method_id: String,
    pub k_knowledge: u64,
    pub e_eco_impact: u64,
    pub r_risk_harm: u64,
}

/// Weight of one log: its case count, at least one.
pub open spec fn spec_weight(l: OutcomeLog) -> int {
    if l.n_cases < 1 {
        1
    } else {
        l.n_cases as int
    }
}

/// The logs that feed a method's score: those that name it.
pub open spec fn spec_logs_of(logs: Seq<OutcomeLog>, id: Seq<char>) -> Seq<OutcomeLog> {
    logs.filter(|l: OutcomeLog| l.method_id@ == id)
}

/// Total case weight of a list of logs.
pub open spec fn spec_total_cases(logs: Seq<OutcomeLog>) -> int
    decreases logs.len(),
{
    if logs.len() == 0 {
        0
    } else {
        spec_total_cases(logs.drop_last()) + spec_weight(logs.last())
    }
}

/// Case-weighted sum of the clamped effectiveness bands.
pub open spec fn spec_eff_weighted(logs: Seq<OutcomeLog>) -> int
    decreases logs.len(),
{
    if logs.len() == 0 {
        0
    } else {
        spec_eff_weighted(logs.drop_last()) + spec_weight(logs.last()) * spec_clamp01(
            logs.last().effectiveness_band as int,
        )
    }
}

/// Case-weighted sum of the clamped bycatch bands.
pub open spec fn spec_bycatch_weighted(logs: Seq<OutcomeLog>) -> int
    decreases logs.len(),
{
    if logs.len() == 0 {
        0
    } else {
        spec_bycatch_weighted(logs.drop_last()) + spec_weight(logs.last()) * spec_clamp01(
            logs.last().bycatch_band as int,
        )
    }
}

/// Case-weighted sum of the clamped waste bands.
pub open spec fn spec_waste_weighted(logs: Seq<OutcomeLog>) -> int
    decreases logs.len(),
{
    if logs.len() == 0 {
        0
    } else {
        spec_waste_weighted(logs.drop_last()) + spec_weight(logs.last()) * spec_clamp01(
            logs.last().waste_band as int,
        )
    }
}

/// `EXP_NEG_TENTH` raised to the case count, in fixed point: the survival
/// of the evidence discount after that many cases.
pub open spec fn spec_exp_decay(t: nat) -> int
    decreases t,
{
    if t == 0 {
        SCALE as int
    } else {
        spec_mul_unit(spec_exp_decay((t - 1) as nat), EXP_NEG_TENTH as int)
    }
}

/// The decay stays in the unit interval.
pub proof fn lemma_exp_decay_range(t: nat)
    ensures
        0 <= spec_exp_decay(t) <= SCALE,
    decreases t,
{
    if t != 0 {
        lemma_exp_decay_range((t - 1) as nat);
        lemma_exp_decay_step_range(spec_exp_decay((t - 1) as nat));
    }
}

/// One decay step keeps the unit interval.
proof fn lemma_exp_decay_step_range(p: int)
    requires
        0 <= p <= SCALE,
    ensures
        0 <= spec_mul_unit(p, EXP_NEG_TENTH as int) <= p,
{
    vstd::arithmetic::mul::lemma_mul_nonnegative(p, EXP_NEG_TENTH as int);
    vstd::arithmetic::div_mod::lemma_div_pos_is_pos(p * (EXP_NEG_TENTH as int), SCALE as int);
    vstd::arithmetic::mul::lemma_mul_inequality(EXP_NEG_TENTH as int, SCALE as int, p);
    vstd::arithmetic::mul::lemma_mul_is_commutative(EXP_NEG_TENTH as int, p);
    vstd::arithmetic::mul::lemma_mul_is_commutative(SCALE as int, p);
    vstd::arithmetic::div_mod::lemma_div_is_ordered(
        p * (EXP_NEG_TENTH as int),
        p * (SCALE as int),
        SCALE as int,
    );
    vstd::arithmetic::div_mod::lemma_div_by_multiple(p, SCALE as int);
}

/// Once the decay bottoms out at zero it stays there.
proof fn lemma_exp_decay_zero_stays(i: nat, t: nat)
    requires
        i <= t,
        spec_exp_decay(i) == 0,
    ensures
        spec_exp_decay(t) == 0,
    decreases t - i,
{
    if i < t {
        lemma_exp_decay_zero_stays(i, (t - 1) as nat);
        vstd::arithmetic::mul::lemma_mul_by_zero_is_zero(EXP_NEG_TENTH as int);
        vstd::arithmetic::div_mod::lemma_div_basics(SCALE as int);
    }
}

/// Class bonus of the eco score: structural prevention classes earn more.
pub open spec fn spec_class_bonus(class: Seq<char>) -> int {
    if class == "exclusion"@ || class == "sanitation"@ || class == "habitat_mod"@ {
        E_CLASS_BONUS_STRUCTURAL as int
    } else {
        E_CLASS_BONUS_OTHER as int
    }
}

/// Case-weighted averages of the three bands, with the low-evidence
/// defaults when no cases are logged: zero effectiveness, one-half bycatch
/// and waste.
pub open spec fn spec_averages(logs: Seq<OutcomeLog>) -> (int, int, int) {
    let total = spec_total_cases(logs);
    if total > 0 {
        (
            spec_eff_weighted(logs) / total,
            spec_bycatch_weighted(logs) / total,
            spec_waste_weighted(logs) / total,
        )
    } else {
        (0, 500_000, 500_000)
    }
}

/// Knowledge: one-half plus one-half of the evidence factor scaled by the
/// average effectiveness; generic knowledge when no cases are logged.
pub open spec fn spec_engine_k(logs: Seq<OutcomeLog>) -> int {
    let total = spec_total_cases(logs);
    if total <= 0 {
        K_GENERIC as int
    } else {
        let evidence = (SCALE as int) - spec_exp_decay(total as nat);
        let (avg_eff, _, _) = spec_averages(logs);
        500_000 + spec_mul_unit(spec_mul_unit(500_000, evidence), avg_eff)
    }
}

/// Eco impact: one-half plus the class bonus and the bycatch and waste
/// complements, minus the lethal and chemical penalties, clamped.
pub open spec fn spec_engine_e(method: ControlMethod, logs: Seq<OutcomeLog>) -> int {
    let (_, avg_bycatch, avg_waste) = spec_averages(logs);
    let gains = 500_000 + spec_class_bonus(method.class@) + spec_mul_unit(
        200_000,
        (SCALE as int) - avg_bycatch,
    ) + spec_mul_unit(200_000, (SCALE as int) - avg_waste);
    let penalties = (if method.lethal {
        E_LETHAL_PENALTY as int
    } else {
        0
    }) + (if method.chemical {
        E_CHEMICAL_PENALTY as int
    } else {
        0
    });
    if gains >= penalties {
        spec_clamp01(gains - penalties)
    } else {
        0
    }
}

/// Risk of harm: bycatch and waste, plus the lethal and chemical
/// surcharges, clamped.
pub open spec fn spec_engine_r(method: ControlMethod, logs: Seq<OutcomeLog>) -> int {
    let (_, avg_bycatch, avg_waste) = spec_averages(logs);
    spec_clamp01(
        spec_mul_unit(200_000, avg_bycatch) + spec_mul_unit(200_000, avg_waste) + (if method.lethal {
            R_LETHAL as int
        } else {
            0
        }) + (if method.chemical {
            R_CHEMICAL as int
        } else {
            0
        }),
    )
}

/// One unfolding step of `filter` over a `take` prefix.
proof fn lemma_filter_take_step<A>(s: Seq<A>, i: int, pred: spec_fn(A) -> bool)
    requires
        0 <= i < s.len(),
    ensures
        pred(s[i]) ==> s.take(i + 1).filter(pred) == s.take(i).filter(pred).push(s[i]),
        !pred(s[i]) ==> s.take(i + 1).filter(pred) == s.take(i).filter(pred),
{
    reveal(Seq::filter);
    let t = s.take(i + 1);
    assert(t.drop_last() =~= s.take(i));
    assert(t.last() == s[i]);
}

/// Fixed-point decay after `total` cases, executable form. The loop stops
/// early once the value bottoms out at zero.
#[verifier::loop_isolation(false)]
fn exp_decay(total: u128) -> (p: u64)
    ensures
        p as int == spec_exp_decay(total as nat),
        p <= SCALE,
{
    let mut p: u64 = SCALE;
    let mut i: u128 = 0;
    while i < total && p > 0
        invariant
            0 <= i <= total,
            p as int == spec_exp_decay(i as nat),
            p <= SCALE,
        decreases total - i,
    {
        p = mul_unit(p, EXP_NEG_TENTH);
        i = i + 1;
        proof {
            lemma_exp_decay_range(i as nat);
        }
    }
    proof {
        if p == 0 {
            lemma_exp_decay_zero_stays(i as nat, total as nat);
        }
    }
    p
}

/// Aggregate the case-weighted K/E/R score of `method` from the logs that
/// name it. Every returned scalar lies in the unit interval.
#[verifier::loop_isolation(false)]
#[verifier::rlimit(30)]
pub fn score_method(method: &ControlMethod, logs: &Vec<OutcomeLog>) -> (score: RiskScoreKER)
    ensures
        score.method_id@ == method.method_id@,
        score.k_knowledge as int == spec_engine_k(spec_logs_of(logs@, method.method_id@)),
        score.e_eco_impact as int == spec_engine_e(*method, spec_logs_of(logs@, method.method_id@)),
        score.r_risk_harm as int == spec_engine_r(*method, spec_logs_of(logs@, method.method_id@)),
        is_unit(score.k_knowledge),
        is_unit(score.e_eco_impact),
        is_unit(score.r_risk_harm),
{
    let ghost pred = |l: OutcomeLog| l.method_id@ == method.method_id@;
    let mut total: u128 = 0;
    let mut eff_w: u128 = 0;
    let mut bycatch_w: u128 = 0;
    let mut waste_w: u128 = 0;
    let mut i: usize = 0;
    proof {
        reveal(Seq::filter);
        assert(logs@.take(0).filter(pred) =~= Seq::<OutcomeLog>::empty());
    }
    while i < logs.len()
        invariant
            0 <= i <= logs@.len(),
            total as int == spec_total_cases(logs@.take(i as int).filter(pred)),
            eff_w as int == spec_eff_weighted(logs@.take(i as int).filter(pred)),
            bycatch_w as int == spec_bycatch_weighted(logs@.take(i as int).filter(pred)),
            waste_w as int == spec_waste_weighted(logs@.take(i as int).filter(pred)),
            total <= (i as int) * 0x1_0000_0000,
            eff_w <= total * (SCALE as u128),
            bycatch_w <= total * (SCALE as u128),
            waste_w <= total * (SCALE as u128),
        decreases logs@.len() - i,
    {
        proof {
            lemma_filter_take_step(logs@, i as int, pred);
        }
        let l = &logs[i];
        if l.method_id == method.method_id {
            let w: u64 = if l.n_cases < 1 {
                1
            } else {
                l.n_cases as u64
            };
            proof {
                let prev_f = logs@.take(i as int).filter(pred);
                let new_f = logs@.take(i as int + 1).filter(pred);
                assert(new_f == prev_f.push(logs@[i as int]));
                assert(new_f.drop_last() =~= prev_f);
                assert(new_f.last() == logs@[i as int]);
                vstd::arithmetic::mul::lemma_mul_upper_bound(
                    w as int,
                    0x1_0000_0000,
                    spec_clamp01(l.effectiveness_band as int),
                    SCALE as int,
                );
                vstd::arithmetic::mul::lemma_mul_upper_bound(
                    w as int,
                    0x1_0000_0000,
                    spec_clamp01(l.bycatch_band as int),
                    SCALE as int,
                );
                vstd::arithmetic::mul::lemma_mul_upper_bound(
                    w as int,
                    0x1_0000_0000,
                    spec_clamp01(l.waste_band as int),
                    SCALE as int,
                );
                vstd::arithmetic::mul::lemma_mul_is_distributive_add_other_way(
                    SCALE as int,
                    total as int,
                    w as int,
                );
                vstd::arithmetic::mul::lemma_mul_inequality(
                    spec_clamp01(l.effectiveness_band as int),
                    SCALE as int,
                    w as int,
                );
                vstd::arithmetic::mul::lemma_mul_inequality(
                    spec_clamp01(l.bycatch_band as int),
                    SCALE as int,
                    w as int,
                );
                vstd::arithmetic::mul::lemma_mul_inequality(
                    spec_clamp01(l.waste_band as int),
                    SCALE as int,
                    w as int,
                );
                vstd::arithmetic::mul::lemma_mul_is_commutative(SCALE as int, w as int);
            }
            total = total + w as u128;
            eff_w = eff_w + (w as u128) * (clamp01(l.effectiveness_band) as u128);
            bycatch_w = bycatch_w + (w as u128) * (clamp01(l.bycatch_band) as u128);
            waste_w = waste_w + (w as u128) * (clamp01(l.waste_band) as u128);
        }
        i = i + 1;
    }
    proof {
        assert(logs@.take(logs@.len() as int) =~= logs@);
    }
    let (avg_eff, avg_bycatch, avg_waste): (u64, u64, u64) = if total > 0 {
        proof {
            vstd::arithmetic::div_mod::lemma_div_is_ordered(
                eff_w as int,
                (total as int) * (SCALE as int),
                total as int,
            );
            vstd::arithmetic::div_mod::lemma_div_is_ordered(
                bycatch_w as int,
                (total as int) * (SCALE as int),
                total as int,
            );
            vstd::arithmetic::div_mod::lemma_div_is_ordered(
                waste_w as int,
                (total as int) * (SCALE as int),
                total as int,
            );
            vstd::arithmetic::mul::lemma_mul_is_commutative(total as int, SCALE as int);
            vstd::arithmetic::div_mod::lemma_div_by_multiple(SCALE as int, total as int);
            vstd::arithmetic::div_mod::lemma_div_pos_is_pos(eff_w as int, total as int);
            vstd::arithmetic::div_mod::lemma_div_pos_is_pos(bycatch_w as int, total as int);
            vstd::arithmetic::div_mod::lemma_div_pos_is_pos(waste_w as int, total as int);
        }
        ((eff_w / total) as u64, (bycatch_w / total) as u64, (waste_w / total) as u64)
    } else {
        (0, 500_000, 500_000)
    };
    let k: u64 = if total == 0 {
        K_GENERIC
    } else {
        let decay = exp_decay(total);
        let evidence = SCALE - decay;
        500_000 + mul_unit(mul_unit(500_000, evidence), avg_eff)
    };
    let class_bonus: u64 = if method.class == "exclusion".to_owned() || method.class
        == "sanitation".to_owned() || method.class == "habitat_mod".to_owned() {
        E_CLASS_BONUS_STRUCTURAL
    } else {
        E_CLASS_BONUS_OTHER
    };
    let gains: u64 = 500_000 + class_bonus + mul_unit(200_000, SCALE - avg_bycatch) + mul_unit(
        200_000,
        SCALE - avg_waste,
    );
    let penalties: u64 = (if method.lethal {
        E_LETHAL_PENALTY
    } else {
        0
    }) + (if method.chemical {
        E_CHEMICAL_PENALTY
    } else {
        0
    });
    let e: u64 = if gains >= penalties {
        clamp01(gains - penalties)
    } else {
        0
    };
    let r: u64 = clamp01(
        mul_unit(200_000, avg_bycatch) + mul_unit(200_000, avg_waste) + (if method.lethal {
            R_LETHAL
        } else {
            0
        }) + (if method.chemical {
            R_CHEMICAL
        } else {
            0
        }),
    );
    RiskScoreKER { method_id: method.method_id.clone(), k_knowledge: k, e_eco_impact: e, r_risk_harm: r }
}

} // verus!
