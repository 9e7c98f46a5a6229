//! The pest-risk simulator.
//!
//! A discrete-time, day-indexed forward model: abundance grows logistically
//! under seasonal arrivals, damage and eco-disturbance accumulate, and each
//! day yields three normalized risk coordinates plus a weighted residual.
//! All quantities are fixed-point micro-units (see `fixed`).
//!
//! The capacity bounds `RATE_MAX`, `LIMIT_MAX` and `HORIZON_MAX` exist so
//! that the 64-bit fixed-point state and its 128-bit intermediates can be
//! proved free of overflow; they are far beyond any realistic input.

use vstd::prelude::*;
use crate::fixed::{SCALE, is_unit, spec_clamp01, clamp01, spec_mul_unit};

verus! {

/// Upper bound on the per-day rates and sensitivities: one hundred per day.
pub const RATE_MAX: u64 = 100_000_000;

/// Upper bound on the three hard limits: one hundred thousand.
pub const LIMIT_MAX: u64 = 100_000_000_000;

/// Upper bound on the simulated horizon: ten years of days.
pub const HORIZON_MAX: u32 = 3650;

/// Days per year for the seasonal cycle.
pub const DAYS_PER_YEAR: u64 = 365;

/// Site context: what the place offers the pest.
#[derive(Debug)]
pub struct PestContext {
    /// Free-form structure class, e.g. a dwelling or a food business.
    pub structure_type: String,
    /// Free-form climate class.
    pub climate_band: String,
    /// Unit-interval scalars, clamped on use.
    pub human_proximity: u64,
    pub animal_proximity: u64,
    pub food_availability: u64,
    pub water_availability: u64,
    pub harborage_quality: u64,
}

/// Species parameters, typically supplied by a plugin.
#[derive(Debug)]
pub struct PestSpeciesModel {
    pub species_id: String,
    /// Baseline arrivals per day, in micro-units.
    pub base_arrival_rate: u64,
    /// Baseline net reproduction per day, in micro-units.
    pub base_repro_rate: u64,
    /// Seasonal amplitude, a unit-interval scalar (clamped on use).
    pub seasonality_amp: u64,
    /// Seasonal phase as a fraction of a year, in micro-turns
    /// (wrapped modulo `SCALE` on use).
    pub seasonality_phase: u64,
    /// Maps abundance to damage accumulation.
    pub damage_sensitivity: u64,
    /// Maps intervention disturbance to eco accumulation.
    pub eco_sensitivity: u64,
    /// Abundance where the pest risk coordinate saturates; floored at one.
    pub abundance_hard_limit: u64,
    /// Damage where the damage risk coordinate saturates; floored at one.
    pub damage_hard_limit: u64,
    /// Eco metric where the eco risk coordinate saturates; floored at one.
    pub eco_hard_limit: u64,
}

/// One non-chemical control action of a plan.
#[derive(Debug)]
pub struct ControlAction {
    pub method_id: String,
    /// Unit-interval effort level, clamped on use.
    pub intensity: u64,
    /// Whether the action persists over the horizon. The model treats every
    /// action as continuously active, so the flag is carried but not read.
    pub continuous: bool,
    /// Unit-interval reduction fractions, clamped on use.
    pub arrival_reduction_frac: u64,
    pub repro_reduction_frac: u64,
    pub damage_reduction_frac: u64,
    /// Unit-interval non-target disturbance, clamped on use.
    pub eco_disturbance_score: u64,
}

/// A candidate plan: its actions and the horizon in days.
#[derive(Debug)]
pub struct InterventionPlan {
    pub actions: Vec<ControlAction>,
    /// Floored at one day on use.
    pub horizon_days: u32,
}

/// The simulated trajectory: parallel arrays indexed by day, each of length
/// horizon + 1.
#[derive(Debug)]
pub struct PestRiskState {
    pub times_days: Vec<u32>,
    pub abundance: Vec<u64>,
    pub damage_metric: Vec<u64>,
    pub eco_metric: Vec<u64>,
    pub r_pest: Vec<u64>,
    pub r_damage: Vec<u64>,
    pub r_eco: Vec<u64>,
    pub residual_v: Vec<u64>,
}

/// Residual weights and per-coordinate ceilings.
#[derive(Debug)]
pub struct SimulationConfig {
    pub w_pest: u64,
    pub w_damage: u64,
    pub w_eco: u64,
    pub r_pest_max: u64,
    pub r_damage_max: u64,
    pub r_eco_max: u64,
}

/// The trajectory plus the latched hard-limit bit.
#[derive(Debug)]
pub struct SimulationResult {
    pub state: PestRiskState,
    pub violated_hard_limit: bool,
}

/// Supplies species parameters for a site; implemented by species modules
/// outside the library.
pub trait PestSpeciesPlugin {
    fn species_model(&self, ctx: &PestContext) -> PestSpeciesModel;
}

/// The effective horizon of a plan: at least one day.
pub open spec fn spec_horizon(plan: InterventionPlan) -> int {
    if plan.horizon_days < 1 {
        1
    } else {
        plan.horizon_days as int
    }
}

/// A denominator anchor, floored at one.
pub open spec fn spec_floor1(x: u64) -> int {
    if x < SCALE {
        SCALE as int
    } else {
        x as int
    }
}

/// Quarter-wave cosine approximation on [0, SCALE], decreasing from SCALE
/// to 0: the parabola `1 - x * x`.
pub open spec fn spec_cos_quarter(x: int) -> int {
    SCALE - x * x / (SCALE as int)
}

/// Fixed-point cosine of a turn fraction `t` in [0, SCALE), by quarter-wave
/// symmetry, in [-SCALE, SCALE].
pub open spec fn spec_cos_turn(t: int) -> int {
    let x = 4 * t;
    let sc = SCALE as int;
    if x < sc {
        spec_cos_quarter(x)
    } else if x < 2 * sc {
        -spec_cos_quarter(2 * sc - x)
    } else if x < 3 * sc {
        -spec_cos_quarter(x - 2 * sc)
    } else {
        spec_cos_quarter(4 * sc - x)
    }
}

/// Position of a day in the seasonal cycle, as a turn fraction in
/// [0, SCALE).
pub open spec fn spec_turn_angle(day: int, phase: int) -> int {
    (day * (SCALE as int) / (DAYS_PER_YEAR as int) + phase % (SCALE as int)) % (SCALE as int)
}

/// Seasonal modulation of the arrival rate: `1 + amp * cos(turn)`, in
/// [0, 2 * SCALE]. A zero amplitude leaves the rate untouched.
pub open spec fn spec_season(day: int, amp: int, phase: int) -> int {
    let a = spec_clamp01(amp);
    let sc = SCALE as int;
    if a == 0 {
        sc
    } else {
        let c = spec_cos_turn(spec_turn_angle(day, phase));
        if c >= 0 {
            sc + a * c / sc
        } else {
            sc - a * (-c) / sc
        }
    }
}

/// Clamped effort level of an action.
pub open spec fn spec_intensity(a: ControlAction) -> int {
    spec_clamp01(a.intensity as int)
}

/// Per-action survival factor of the arrival rate, in [0, SCALE].
pub open spec fn spec_arrival_factor(a: ControlAction) -> int {
    SCALE - spec_mul_unit(spec_intensity(a), spec_clamp01(a.arrival_reduction_frac as int))
}

/// Per-action survival factor of the reproduction rate, in [0, SCALE].
pub open spec fn spec_repro_factor(a: ControlAction) -> int {
    SCALE - spec_mul_unit(spec_intensity(a), spec_clamp01(a.repro_reduction_frac as int))
}

/// Per-action survival factor of the damage rate, in [0, SCALE].
pub open spec fn spec_damage_factor(a: ControlAction) -> int {
    SCALE - spec_mul_unit(spec_intensity(a), spec_clamp01(a.damage_reduction_frac as int))
}

/// Per-action eco disturbance, in [0, SCALE].
pub open spec fn spec_eco_term(a: ControlAction) -> int {
    spec_mul_unit(spec_intensity(a), spec_clamp01(a.eco_disturbance_score as int))
}

/// Product of the arrival survival factors over a plan, in input order.
pub open spec fn spec_arrival_mult(actions: Seq<ControlAction>) -> int
    decreases actions.len(),
{
    if actions.len() == 0 {
        SCALE as int
    } else {
        spec_mul_unit(spec_arrival_mult(actions.drop_last()), spec_arrival_factor(actions.last()))
    }
}

/// Product of the reproduction survival factors over a plan.
pub open spec fn spec_repro_mult(actions: Seq<ControlAction>) -> int
    decreases actions.len(),
{
    if actions.len() == 0 {
        SCALE as int
    } else {
        spec_mul_unit(spec_repro_mult(actions.drop_last()), spec_repro_factor(actions.last()))
    }
}

/// Product of the damage survival factors over a plan.
pub open spec fn spec_damage_mult(actions: Seq<ControlAction>) -> int
    decreases actions.len(),
{
    if actions.len() == 0 {
        SCALE as int
    } else {
        spec_mul_unit(spec_damage_mult(actions.drop_last()), spec_damage_factor(actions.last()))
    }
}

/// Sum of the eco disturbance terms over a plan.
pub open spec fn spec_eco_base(actions: Seq<ControlAction>) -> int
    decreases actions.len(),
{
    if actions.len() == 0 {
        0
    } else {
        spec_eco_base(actions.drop_last()) + spec_eco_term(actions.last())
    }
}

/// The three multipliers stay in [0, SCALE] and the eco base stays within
/// one unit per action.
pub proof fn lemma_aggregate_ranges(actions: Seq<ControlAction>)
    ensures
        0 <= spec_arrival_mult(actions) <= SCALE,
        0 <= spec_repro_mult(actions) <= SCALE,
        0 <= spec_damage_mult(actions) <= SCALE,
        0 <= spec_eco_base(actions) <= (SCALE as int) * actions.len(),
    decreases actions.len(),
{
    let sc = SCALE as int;
    if actions.len() == 0 {
    } else {
        let prev = actions.drop_last();
        let a = actions.last();
        lemma_aggregate_ranges(prev);
        assert forall|m: int, f: int| 0 <= m <= sc && 0 <= f <= sc implies 0 <= #[trigger] (m * f)
            / sc <= sc by {
            assert(0 <= m * f <= sc * sc) by (nonlinear_arith)
                requires
                    0 <= m <= sc,
                    0 <= f <= sc,
            ;
            assert(m * f / sc <= sc * sc / sc) by {
                vstd::arithmetic::div_mod::lemma_div_is_ordered(m * f, sc * sc, sc);
            }
            vstd::arithmetic::div_mod::lemma_div_by_multiple(sc, sc);
        }
        assert(0 <= spec_intensity(a) <= sc);
        assert(0 <= spec_arrival_factor(a) <= sc);
        assert(0 <= spec_repro_factor(a) <= sc);
        assert(0 <= spec_damage_factor(a) <= sc);
        assert(0 <= spec_eco_term(a) <= sc);
        assert((sc as int) * (actions.len() as int) == sc * (prev.len() as int) + sc);
    }
}

/// Daily arrivals: baseline, thinned by the plan, modulated by the season
/// and by food and harborage.
pub open spec fn spec_lambda(
    ctx: PestContext,
    species: PestSpeciesModel,
    arrival_mult: int,
    day: int,
) -> int {
    let a1 = spec_mul_unit(species.base_arrival_rate as int, arrival_mult);
    let a2 = spec_mul_unit(
        a1,
        spec_season(day, species.seasonality_amp as int, species.seasonality_phase as int),
    );
    let a3 = spec_mul_unit(a2, spec_clamp01(ctx.food_availability as int));
    spec_mul_unit(a3, spec_clamp01(ctx.harborage_quality as int))
}

/// Effective reproduction rate: baseline, thinned by the plan, scaled by
/// water availability.
pub open spec fn spec_r_eff(ctx: PestContext, species: PestSpeciesModel, repro_mult: int) -> int {
    spec_mul_unit(
        spec_mul_unit(species.base_repro_rate as int, repro_mult),
        spec_clamp01(ctx.water_availability as int),
    )
}

/// Next abundance: the logistic increment plus arrivals, floored at zero.
/// `l` is the abundance anchor (at least SCALE). The branch keeps every
/// intermediate nonnegative, so fixed-point division is exact mirroring of
/// the executable arithmetic.
pub open spec fn spec_next_n(n: int, lam: int, r_eff: int, l: int) -> int {
    let sc = SCALE as int;
    let ratio = n * sc / l;
    if ratio <= sc {
        let growth = r_eff * n * (sc - ratio) / (sc * sc);
        n + growth + lam
    } else {
        let decay = r_eff * n * (ratio - sc) / (sc * sc);
        if n + lam >= decay {
            n + lam - decay
        } else {
            0
        }
    }
}

/// Abundance on a given day; day zero starts at one unit.
pub open spec fn spec_n_at(
    ctx: PestContext,
    species: PestSpeciesModel,
    arrival_mult: int,
    repro_mult: int,
    day: nat,
) -> int
    decreases day,
{
    if day == 0 {
        SCALE as int
    } else {
        spec_next_n(
            spec_n_at(ctx, species, arrival_mult, repro_mult, (day - 1) as nat),
            spec_lambda(ctx, species, arrival_mult, day - 1),
            spec_r_eff(ctx, species, repro_mult),
            spec_floor1(species.abundance_hard_limit),
        )
    }
}

/// Daily damage increment from an abundance of `n`.
pub open spec fn spec_damage_inc(
    ctx: PestContext,
    species: PestSpeciesModel,
    damage_mult: int,
    n: int,
) -> int {
    let i1 = n * (species.damage_sensitivity as int) / (SCALE as int);
    let i2 = spec_mul_unit(i1, spec_clamp01(ctx.human_proximity as int));
    spec_mul_unit(i2, damage_mult)
}

/// Accumulated damage on a given day; never decreasing.
pub open spec fn spec_d_at(
    ctx: PestContext,
    species: PestSpeciesModel,
    arrival_mult: int,
    repro_mult: int,
    damage_mult: int,
    day: nat,
) -> int
    decreases day,
{
    if day == 0 {
        0
    } else {
        spec_d_at(ctx, species, arrival_mult, repro_mult, damage_mult, (day - 1) as nat)
            + spec_damage_inc(
            ctx,
            species,
            damage_mult,
            spec_n_at(ctx, species, arrival_mult, repro_mult, (day - 1) as nat),
        )
    }
}

/// Daily eco increment: the plan's aggregate disturbance scaled by the
/// species sensitivity and by the mean of animal and human proximity.
pub open spec fn spec_eco_inc(ctx: PestContext, species: PestSpeciesModel, eco_base: int) -> int {
    let e1 = eco_base * (species.eco_sensitivity as int) / (SCALE as int);
    let avg = (spec_clamp01(ctx.animal_proximity as int) + spec_clamp01(
        ctx.human_proximity as int,
    )) / 2;
    spec_mul_unit(e1, avg)
}

/// Accumulated eco disturbance on a given day, capped at the eco anchor.
pub open spec fn spec_e_at(
    ctx: PestContext,
    species: PestSpeciesModel,
    eco_base: int,
    day: nat,
) -> int
    decreases day,
{
    if day == 0 {
        0
    } else {
        let prev = spec_e_at(ctx, species, eco_base, (day - 1) as nat);
        let next = prev + spec_eco_inc(ctx, species, eco_base);
        let l = spec_floor1(species.eco_hard_limit);
        if next >= l {
            l
        } else {
            next
        }
    }
}

/// Normalized risk coordinate of a metric against its anchor, clamped into
/// the unit interval.
pub open spec fn spec_risk_coord(x: int, l: int) -> int {
    spec_clamp01(x * (SCALE as int) / l)
}

/// The residual: the weighted sum of the three risk coordinates.
pub open spec fn spec_residual(cfg: SimulationConfig, rp: int, rd: int, re: int) -> int {
    ((cfg.w_pest as int) * rp + (cfg.w_damage as int) * rd + (cfg.w_eco as int) * re) / (
    SCALE as int)
}

/// `a * b / SCALE` stays between zero and the same expression over the
/// operands' bounds.
pub proof fn lemma_mul_unit_bounds(a: int, amax: int, b: int, bmax: int)
    requires
        0 <= a <= amax,
        0 <= b <= bmax,
    ensures
        0 <= spec_mul_unit(a, b) <= amax * bmax / (SCALE as int),
{
    vstd::arithmetic::mul::lemma_mul_upper_bound(a, amax, b, bmax);
    vstd::arithmetic::mul::lemma_mul_nonnegative(a, b);
    vstd::arithmetic::div_mod::lemma_div_pos_is_pos(a * b, SCALE as int);
    vstd::arithmetic::div_mod::lemma_div_is_ordered(a * b, amax * bmax, SCALE as int);
}

/// The quarter-wave cosine stays in [0, SCALE] on its domain.
proof fn lemma_cos_quarter_range(x: int)
    requires
        0 <= x <= SCALE,
    ensures
        0 <= spec_cos_quarter(x) <= SCALE,
{
    let sc = SCALE as int;
    vstd::arithmetic::mul::lemma_mul_upper_bound(x, sc, x, sc);
    vstd::arithmetic::mul::lemma_mul_nonnegative(x, x);
    vstd::arithmetic::div_mod::lemma_div_pos_is_pos(x * x, sc);
    vstd::arithmetic::div_mod::lemma_div_is_ordered(x * x, sc * sc, sc);
    vstd::arithmetic::div_mod::lemma_div_by_multiple(sc, sc);
}

/// The turn cosine stays in [-SCALE, SCALE] on its domain.
proof fn lemma_cos_turn_range(t: int)
    requires
        0 <= t < SCALE,
    ensures
        -(SCALE as int) <= spec_cos_turn(t) <= SCALE,
{
    let sc = SCALE as int;
    let x = 4 * t;
    if x < sc {
        lemma_cos_quarter_range(x);
    } else if x < 2 * sc {
        lemma_cos_quarter_range(2 * sc - x);
    } else if x < 3 * sc {
        lemma_cos_quarter_range(x - 2 * sc);
    } else {
        lemma_cos_quarter_range(4 * sc - x);
    }
}

/// The seasonal factor stays in [0, 2 * SCALE].
pub proof fn lemma_season_range(day: int, amp: int, phase: int)
    requires
        0 <= day,
        0 <= amp,
        0 <= phase,
    ensures
        0 <= spec_season(day, amp, phase) <= 2 * SCALE,
{
    let sc = SCALE as int;
    let a = spec_clamp01(amp);
    if a != 0 {
        let t = spec_turn_angle(day, phase);
        vstd::arithmetic::div_mod::lemma_mod_bound(phase, sc);
        vstd::arithmetic::div_mod::lemma_div_pos_is_pos(day * sc, DAYS_PER_YEAR as int);
        vstd::arithmetic::mul::lemma_mul_nonnegative(day, sc);
        vstd::arithmetic::div_mod::lemma_mod_bound(
            day * sc / (DAYS_PER_YEAR as int) + phase % sc,
            sc,
        );
        lemma_cos_turn_range(t);
        let c = spec_cos_turn(t);
        if c >= 0 {
            lemma_mul_unit_bounds(a, sc, c, sc);
            vstd::arithmetic::div_mod::lemma_div_by_multiple(sc, sc);
        } else {
            lemma_mul_unit_bounds(a, sc, -c, sc);
            vstd::arithmetic::div_mod::lemma_div_by_multiple(sc, sc);
        }
    }
}

/// Daily arrivals stay between zero and twice the base arrival rate.
pub proof fn lemma_lambda_range(
    ctx: PestContext,
    species: PestSpeciesModel,
    arrival_mult: int,
    day: int,
)
    requires
        0 <= arrival_mult <= SCALE,
        species.base_arrival_rate <= RATE_MAX,
        0 <= day,
    ensures
        0 <= spec_lambda(ctx, species, arrival_mult, day) <= 2 * RATE_MAX,
{
    let sc = SCALE as int;
    let season = spec_season(
        day,
        species.seasonality_amp as int,
        species.seasonality_phase as int,
    );
    lemma_season_range(day, species.seasonality_amp as int, species.seasonality_phase as int);
    let a1 = spec_mul_unit(species.base_arrival_rate as int, arrival_mult);
    lemma_mul_unit_bounds(species.base_arrival_rate as int, RATE_MAX as int, arrival_mult, sc);
    assert((RATE_MAX as int) * sc / sc == RATE_MAX as int) by {
        vstd::arithmetic::div_mod::lemma_div_by_multiple(RATE_MAX as int, sc);
    }
    let a2 = spec_mul_unit(a1, season);
    lemma_mul_unit_bounds(a1, RATE_MAX as int, season, 2 * sc);
    assert((RATE_MAX as int) * (2 * sc) / sc == 2 * (RATE_MAX as int)) by {
        vstd::arithmetic::mul::lemma_mul_is_commutative(RATE_MAX as int, 2 * sc);
        vstd::arithmetic::div_mod::lemma_div_by_multiple(2 * (RATE_MAX as int), sc);
        assert((RATE_MAX as int) * (2 * sc) == (2 * (RATE_MAX as int)) * sc)
            by (nonlinear_arith);
    }
    let a3 = spec_mul_unit(a2, spec_clamp01(ctx.food_availability as int));
    lemma_mul_unit_bounds(a2, 2 * (RATE_MAX as int), spec_clamp01(ctx.food_availability as int), sc);
    assert((2 * (RATE_MAX as int)) * sc / sc == 2 * (RATE_MAX as int)) by {
        vstd::arithmetic::div_mod::lemma_div_by_multiple(2 * (RATE_MAX as int), sc);
    }
    lemma_mul_unit_bounds(
        a3,
        2 * (RATE_MAX as int),
        spec_clamp01(ctx.harborage_quality as int),
        sc,
    );
}

/// The effective reproduction rate stays between zero and the base rate.
pub proof fn lemma_r_eff_range(ctx: PestContext, species: PestSpeciesModel, repro_mult: int)
    requires
        0 <= repro_mult <= SCALE,
        species.base_repro_rate <= RATE_MAX,
    ensures
        0 <= spec_r_eff(ctx, species, repro_mult) <= RATE_MAX,
{
    let sc = SCALE as int;
    lemma_mul_unit_bounds(species.base_repro_rate as int, RATE_MAX as int, repro_mult, sc);
    vstd::arithmetic::div_mod::lemma_div_by_multiple(RATE_MAX as int, sc);
    lemma_mul_unit_bounds(
        spec_mul_unit(species.base_repro_rate as int, repro_mult),
        RATE_MAX as int,
        spec_clamp01(ctx.water_availability as int),
        sc,
    );
}

/// Ceiling reached by a single abundance step whenever the logistic term can
/// grow at all: the abundance anchor plus the largest possible growth.
pub const N_STEP_CEIL: u64 = 10_100_000_000_000;

/// One abundance step stays nonnegative and adds at most the arrivals to
/// either the previous abundance or the step ceiling.
pub proof fn lemma_next_n_bounds(n: int, lam: int, r_eff: int, l: int)
    requires
        0 <= n,
        0 <= lam,
        0 <= r_eff <= RATE_MAX,
        SCALE <= l <= LIMIT_MAX,
    ensures
        0 <= spec_next_n(n, lam, r_eff, l),
        spec_next_n(n, lam, r_eff, l) <= (if n > N_STEP_CEIL {
            n
        } else {
            N_STEP_CEIL as int
        }) + lam,
{
    let sc = SCALE as int;
    let ratio = n * sc / l;
    vstd::arithmetic::mul::lemma_mul_nonnegative(n, sc);
    vstd::arithmetic::div_mod::lemma_div_pos_is_pos(n * sc, l);
    if ratio <= sc {
        let growth = r_eff * n * (sc - ratio) / (sc * sc);
        vstd::arithmetic::mul::lemma_mul_nonnegative(r_eff, n);
        vstd::arithmetic::mul::lemma_mul_nonnegative(r_eff * n, sc - ratio);
        vstd::arithmetic::div_mod::lemma_div_pos_is_pos(r_eff * n * (sc - ratio), sc * sc);
        if ratio == sc {
            // The logistic factor vanishes exactly at the anchor.
            vstd::arithmetic::mul::lemma_mul_by_zero_is_zero(r_eff * n);
            vstd::arithmetic::div_mod::lemma_div_basics(sc * sc);
            assert(growth == 0);
        } else {
            // The logistic term can only grow while below the anchor.
            if n >= l {
                vstd::arithmetic::mul::lemma_mul_inequality(l, n, sc);
                vstd::arithmetic::mul::lemma_mul_is_commutative(l, sc);
                vstd::arithmetic::mul::lemma_mul_is_commutative(n, sc);
                vstd::arithmetic::div_mod::lemma_div_is_ordered(l * sc, n * sc, l);
                vstd::arithmetic::div_mod::lemma_div_by_multiple(sc, l);
                vstd::arithmetic::mul::lemma_mul_is_commutative(sc, l);
                assert(ratio >= sc);
            }
            assert(n < l);
            // growth <= r_eff * n / SCALE <= RATE_MAX * LIMIT_MAX / SCALE.
            vstd::arithmetic::mul::lemma_mul_inequality(sc - ratio, sc, r_eff * n);
            vstd::arithmetic::mul::lemma_mul_is_commutative(sc - ratio, r_eff * n);
            vstd::arithmetic::mul::lemma_mul_is_commutative(sc, r_eff * n);
            vstd::arithmetic::div_mod::lemma_div_is_ordered(
                r_eff * n * (sc - ratio),
                r_eff * n * sc,
                sc * sc,
            );
            vstd::arithmetic::div_mod::lemma_div_denominator(r_eff * n * sc, sc, sc);
            assert(r_eff * n * sc / (sc * sc) == r_eff * n / sc) by {
                assert((r_eff * n * sc) / sc == r_eff * n) by {
                    vstd::arithmetic::div_mod::lemma_div_by_multiple(r_eff * n, sc);
                }
                vstd::arithmetic::div_mod::lemma_div_denominator(r_eff * n * sc, sc, sc);
            }
            vstd::arithmetic::mul::lemma_mul_upper_bound(
                r_eff,
                RATE_MAX as int,
                n,
                LIMIT_MAX as int,
            );
            vstd::arithmetic::div_mod::lemma_div_is_ordered(
                r_eff * n,
                (RATE_MAX as int) * (LIMIT_MAX as int),
                sc,
            );
            assert(growth <= 10_000_000_000_000);
        }
    } else {
        let decay = r_eff * n * (ratio - sc) / (sc * sc);
        vstd::arithmetic::mul::lemma_mul_nonnegative(r_eff, n);
        vstd::arithmetic::mul::lemma_mul_nonnegative(r_eff * n, ratio - sc);
        vstd::arithmetic::div_mod::lemma_div_pos_is_pos(r_eff * n * (ratio - sc), sc * sc);
    }
}

/// Denominator anchor, floored at one unit.
pub fn floor1(x: u64) -> (r: u64)
    ensures
        r as int == spec_floor1(x),
        SCALE <= r,
{
    if x < SCALE {
        SCALE
    } else {
        x
    }
}

/// Quarter-wave cosine, executable form.
fn cos_quarter(x: u64) -> (c: u64)
    requires
        x <= SCALE,
    ensures
        c as int == spec_cos_quarter(x as int),
        c <= SCALE,
{
    proof {
        lemma_cos_quarter_range(x as int);
        vstd::arithmetic::mul::lemma_mul_upper_bound(x as int, SCALE as int, x as int, SCALE as int);
    }
    SCALE - (x * x) / SCALE
}

/// Turn cosine, executable form: magnitude and sign.
fn cos_turn(t: u64) -> (c: i64)
    requires
        t < SCALE,
    ensures
        c as int == spec_cos_turn(t as int),
        -(SCALE as int) <= c as int <= SCALE as int,
{
    proof {
        lemma_cos_turn_range(t as int);
    }
    let x: u64 = 4 * t;
    if x < SCALE {
        cos_quarter(x) as i64
    } else if x < 2 * SCALE {
        -(cos_quarter(2 * SCALE - x) as i64)
    } else if x < 3 * SCALE {
        -(cos_quarter(x - 2 * SCALE) as i64)
    } else {
        cos_quarter(4 * SCALE - x) as i64
    }
}

/// Seasonal modulation of the arrival rate for a given day.
pub fn season_factor(day: u32, amp: u64, phase: u64) -> (s: u64)
    ensures
        s as int == spec_season(day as int, amp as int, phase as int),
        s <= 2 * SCALE,
{
    proof {
        lemma_season_range(day as int, amp as int, phase as int);
    }
    let a = clamp01(amp);
    if a == 0 {
        return SCALE;
    }
    let angle: u64 = ((day as u64) * SCALE / DAYS_PER_YEAR + phase % SCALE) % SCALE;
    proof {
        vstd::arithmetic::div_mod::lemma_mod_bound(phase as int, SCALE as int);
        vstd::arithmetic::div_mod::lemma_mod_bound(
            (day as int) * (SCALE as int) / (DAYS_PER_YEAR as int) + (phase as int) % (
            SCALE as int),
            SCALE as int,
        );
    }
    let c = cos_turn(angle);
    if c >= 0 {
        proof {
            lemma_mul_unit_bounds(a as int, SCALE as int, c as int, SCALE as int);
            vstd::arithmetic::div_mod::lemma_div_by_multiple(SCALE as int, SCALE as int);
        }
        SCALE + (a * (c as u64)) / SCALE
    } else {
        proof {
            lemma_mul_unit_bounds(a as int, SCALE as int, -(c as int), SCALE as int);
            vstd::arithmetic::div_mod::lemma_div_by_multiple(SCALE as int, SCALE as int);
        }
        SCALE - (a * ((-c) as u64)) / SCALE
    }
}

/// Normalized risk coordinate of a metric against its anchor.
pub fn risk_coord(x: u64, l: u64) -> (r: u64)
    requires
        SCALE <= l,
    ensures
        r as int == spec_risk_coord(x as int, l as int),
        is_unit(r),
{
    proof {
        vstd::arithmetic::mul::lemma_mul_inequality(x as int, u64::MAX as int, SCALE as int);
    }
    let wide: u128 = (x as u128) * (SCALE as u128);
    let q: u128 = wide / (l as u128);
    if q >= SCALE as u128 {
        SCALE
    } else {
        q as u64
    }
}

/// Largest abundance any simulated day can reach: the step ceiling plus the
/// largest arrivals over the longest horizon.
pub const N_TRAJECTORY_CAP: u64 = 10_830_000_000_000;

/// One abundance step, executable form.
fn step_abundance(n: u64, lam: u64, r_eff: u64, l: u64) -> (r: u64)
    requires
        n <= N_TRAJECTORY_CAP,
        lam <= 2 * RATE_MAX,
        r_eff <= RATE_MAX,
        SCALE <= l <= LIMIT_MAX,
    ensures
        r as int == spec_next_n(n as int, lam as int, r_eff as int, l as int),
{
    proof {
        lemma_next_n_bounds(n as int, lam as int, r_eff as int, l as int);
        vstd::arithmetic::mul::lemma_mul_upper_bound(
            r_eff as int,
            RATE_MAX as int,
            n as int,
            N_TRAJECTORY_CAP as int,
        );
        vstd::arithmetic::mul::lemma_mul_nonnegative(r_eff as int, n as int);
    }
    let sc: u128 = SCALE as u128;
    let nw: u128 = n as u128;
    let ratio: u128 = nw * sc / (l as u128);
    proof {
        vstd::arithmetic::mul::lemma_mul_is_commutative(n as int, SCALE as int);
        vstd::arithmetic::div_mod::lemma_div_is_ordered_by_denominator(
            (n as int) * (SCALE as int),
            SCALE as int,
            l as int,
        );
        vstd::arithmetic::div_mod::lemma_div_by_multiple(n as int, SCALE as int);
        assert(ratio <= n);
    }
    if ratio <= sc {
        proof {
            vstd::arithmetic::mul::lemma_mul_inequality(
                (SCALE as int) - ratio as int,
                SCALE as int,
                (r_eff as int) * (n as int),
            );
            vstd::arithmetic::mul::lemma_mul_is_commutative(
                (SCALE as int) - ratio as int,
                (r_eff as int) * (n as int),
            );
            vstd::arithmetic::mul::lemma_mul_is_commutative(
                SCALE as int,
                (r_eff as int) * (n as int),
            );
            vstd::arithmetic::mul::lemma_mul_nonnegative(
                (r_eff as int) * (n as int),
                (SCALE as int) - ratio as int,
            );
        }
        let growth: u128 = (r_eff as u128) * nw * (sc - ratio) / (sc * sc);
        proof {
            vstd::arithmetic::div_mod::lemma_div_pos_is_pos(
                (r_eff as int) * (n as int) * ((SCALE as int) - ratio as int),
                (SCALE as int) * (SCALE as int),
            );
            vstd::arithmetic::div_mod::lemma_div_is_ordered(
                (r_eff as int) * (n as int) * ((SCALE as int) - ratio as int),
                (r_eff as int) * (n as int) * (SCALE as int),
                (SCALE as int) * (SCALE as int),
            );
            vstd::arithmetic::div_mod::lemma_div_denominator(
                (r_eff as int) * (n as int) * (SCALE as int),
                SCALE as int,
                SCALE as int,
            );
            assert(((r_eff as int) * (n as int) * (SCALE as int)) / (SCALE as int) == (
            r_eff as int) * (n as int)) by {
                vstd::arithmetic::div_mod::lemma_div_by_multiple(
                    (r_eff as int) * (n as int),
                    SCALE as int,
                );
            }
            vstd::arithmetic::div_mod::lemma_div_is_ordered(
                (r_eff as int) * (n as int),
                (RATE_MAX as int) * (N_TRAJECTORY_CAP as int),
                SCALE as int,
            );
        }
        (nw + growth + lam as u128) as u64
    } else {
        proof {
            vstd::arithmetic::mul::lemma_mul_inequality(
                ratio as int - (SCALE as int),
                N_TRAJECTORY_CAP as int,
                (r_eff as int) * (n as int),
            );
            vstd::arithmetic::mul::lemma_mul_is_commutative(
                ratio as int - (SCALE as int),
                (r_eff as int) * (n as int),
            );
            vstd::arithmetic::mul::lemma_mul_is_commutative(
                N_TRAJECTORY_CAP as int,
                (r_eff as int) * (n as int),
            );
            vstd::arithmetic::mul::lemma_mul_nonnegative(
                (r_eff as int) * (n as int),
                ratio as int - (SCALE as int),
            );
        }
        let decay: u128 = (r_eff as u128) * nw * (ratio - sc) / (sc * sc);
        let kept: u128 = nw + lam as u128;
        if kept >= decay {
            (kept - decay) as u64
        } else {
            0
        }
    }
}

/// One damage increment, executable form; bounded by the abundance cap
/// scaled by the largest sensitivity.
fn damage_increment(ctx: &PestContext, species: &PestSpeciesModel, damage_mult: u64, n: u64) -> (r:
    u64)
    requires
        species.damage_sensitivity <= RATE_MAX,
        damage_mult <= SCALE,
        n <= N_TRAJECTORY_CAP,
    ensures
        r as int == spec_damage_inc(*ctx, *species, damage_mult as int, n as int),
        r <= 2_000_000_000_000_000,
{
    proof {
        vstd::arithmetic::mul::lemma_mul_upper_bound(
            n as int,
            N_TRAJECTORY_CAP as int,
            species.damage_sensitivity as int,
            RATE_MAX as int,
        );
        vstd::arithmetic::mul::lemma_mul_nonnegative(
            n as int,
            species.damage_sensitivity as int,
        );
        vstd::arithmetic::div_mod::lemma_div_pos_is_pos(
            (n as int) * (species.damage_sensitivity as int),
            SCALE as int,
        );
        vstd::arithmetic::div_mod::lemma_div_is_ordered(
            (n as int) * (species.damage_sensitivity as int),
            (N_TRAJECTORY_CAP as int) * (RATE_MAX as int),
            SCALE as int,
        );
    }
    let i1: u128 = (n as u128) * (species.damage_sensitivity as u128) / (SCALE as u128);
    let prox = clamp01(ctx.human_proximity);
    proof {
        lemma_mul_unit_bounds(i1 as int, 2_000_000_000_000_000, prox as int, SCALE as int);
        vstd::arithmetic::div_mod::lemma_div_by_multiple(2_000_000_000_000_000, SCALE as int);
    }
    let i2: u128 = i1 * (prox as u128) / (SCALE as u128);
    proof {
        lemma_mul_unit_bounds(i2 as int, 2_000_000_000_000_000, damage_mult as int, SCALE as int);
        vstd::arithmetic::div_mod::lemma_div_by_multiple(2_000_000_000_000_000, SCALE as int);
    }
    let i3: u128 = i2 * (damage_mult as u128) / (SCALE as u128);
    i3 as u64
}

/// One eco increment, executable form. The result may be huge for a huge
/// plan; the caller caps the running metric at the eco anchor.
fn eco_increment(ctx: &PestContext, species: &PestSpeciesModel, eco_base: u128) -> (r: u128)
    requires
        species.eco_sensitivity <= RATE_MAX,
        eco_base <= (u64::MAX as u128) * (SCALE as u128),
    ensures
        r as int == spec_eco_inc(*ctx, *species, eco_base as int),
        r as int <= 1_844_674_407_370_955_161_500_000_000,
{
    proof {
        vstd::arithmetic::mul::lemma_mul_upper_bound(
            eco_base as int,
            (u64::MAX as int) * (SCALE as int),
            species.eco_sensitivity as int,
            RATE_MAX as int,
        );
        vstd::arithmetic::mul::lemma_mul_nonnegative(eco_base as int, species.eco_sensitivity as int);
        vstd::arithmetic::div_mod::lemma_div_pos_is_pos(
            (eco_base as int) * (species.eco_sensitivity as int),
            SCALE as int,
        );
        vstd::arithmetic::div_mod::lemma_div_is_ordered(
            (eco_base as int) * (species.eco_sensitivity as int),
            (u64::MAX as int) * (SCALE as int) * (RATE_MAX as int),
            SCALE as int,
        );
    }
    let e1: u128 = eco_base * (species.eco_sensitivity as u128) / (SCALE as u128);
    proof {
        assert((u64::MAX as int) * (SCALE as int) * (RATE_MAX as int) == ((u64::MAX as int) * (
        RATE_MAX as int)) * (SCALE as int)) by (nonlinear_arith);
        vstd::arithmetic::div_mod::lemma_div_by_multiple(
            (u64::MAX as int) * (RATE_MAX as int),
            SCALE as int,
        );
        assert(e1 as int <= (u64::MAX as int) * (RATE_MAX as int));
    }
    let avg: u64 = (clamp01(ctx.animal_proximity) + clamp01(ctx.human_proximity)) / 2;
    proof {
        vstd::arithmetic::mul::lemma_mul_upper_bound(
            e1 as int,
            (u64::MAX as int) * (RATE_MAX as int),
            avg as int,
            SCALE as int,
        );
        vstd::arithmetic::mul::lemma_mul_nonnegative(e1 as int, avg as int);
    }
    proof {
        lemma_mul_unit_bounds(e1 as int, (u64::MAX as int) * (RATE_MAX as int), avg as int, SCALE as int);
        vstd::arithmetic::div_mod::lemma_div_by_multiple(
            (u64::MAX as int) * (RATE_MAX as int),
            SCALE as int,
        );
        assert((u64::MAX as int) * (RATE_MAX as int) == 1_844_674_407_370_955_161_500_000_000)
            by (nonlinear_arith);
    }
    e1 * (avg as u128) / (SCALE as u128)
}

/// Aggregate control effects of a plan: the three survival multipliers and
/// the summed eco disturbance, all over clamped per-action scalars.
#[verifier::loop_isolation(false)]
fn aggregate_controls(plan: &InterventionPlan) -> (agg: (u64, u64, u64, u128))
    ensures
        agg.0 as int == spec_arrival_mult(plan.actions@),
        agg.1 as int == spec_repro_mult(plan.actions@),
        agg.2 as int == spec_damage_mult(plan.actions@),
        agg.3 as int == spec_eco_base(plan.actions@),
        agg.0 <= SCALE && agg.1 <= SCALE && agg.2 <= SCALE,
        agg.3 as int <= (u64::MAX as int) * (SCALE as int),
{
    let mut arrival_mult: u64 = SCALE;
    let mut repro_mult: u64 = SCALE;
    let mut damage_mult: u64 = SCALE;
    let mut eco_base: u128 = 0;
    let mut i: usize = 0;
    proof {
        assert(plan.actions@.take(0) =~= Seq::<ControlAction>::empty());
    }
    while i < plan.actions.len()
        invariant
            0 <= i <= plan.actions@.len(),
            arrival_mult as int == spec_arrival_mult(plan.actions@.take(i as int)),
            repro_mult as int == spec_repro_mult(plan.actions@.take(i as int)),
            damage_mult as int == spec_damage_mult(plan.actions@.take(i as int)),
            eco_base as int == spec_eco_base(plan.actions@.take(i as int)),
            arrival_mult <= SCALE && repro_mult <= SCALE && damage_mult <= SCALE,
            eco_base <= (i as int) * (SCALE as int),
        decreases plan.actions@.len() - i,
    {
        proof {
            assert(plan.actions@.take(i as int + 1).drop_last() =~= plan.actions@.take(i as int));
        }
        let a = &plan.actions[i];
        let f = clamp01(a.intensity);
        let arr_red = crate::fixed::mul_unit(f, clamp01(a.arrival_reduction_frac));
        let rep_red = crate::fixed::mul_unit(f, clamp01(a.repro_reduction_frac));
        let dam_red = crate::fixed::mul_unit(f, clamp01(a.damage_reduction_frac));
        let eco_term = crate::fixed::mul_unit(f, clamp01(a.eco_disturbance_score));
        arrival_mult = crate::fixed::mul_unit(arrival_mult, SCALE - arr_red);
        repro_mult = crate::fixed::mul_unit(repro_mult, SCALE - rep_red);
        damage_mult = crate::fixed::mul_unit(damage_mult, SCALE - dam_red);
        eco_base = eco_base + eco_term as u128;
        i = i + 1;
    }
    proof {
        assert(plan.actions@.take(plan.actions@.len() as int) =~= plan.actions@);
        assert(usize::MAX <= u64::MAX);
        vstd::arithmetic::mul::lemma_mul_inequality(i as int, u64::MAX as int, SCALE as int);
    }
    (arrival_mult, repro_mult, damage_mult, eco_base)
}

/// A simulation result matches the model: all eight arrays cover days 0
/// through the horizon, abundance, damage and eco follow the recurrences,
/// the coordinates and the residual are derived from them pointwise, and
/// the hard-limit bit is set exactly when some day exceeds some ceiling.
pub open spec fn spec_simulation_matches(
    ctx: PestContext,
    species: PestSpeciesModel,
    plan: InterventionPlan,
    cfg: SimulationConfig,
    res: SimulationResult,
) -> bool {
    let h = spec_horizon(plan);
    let am = spec_arrival_mult(plan.actions@);
    let rm = spec_repro_mult(plan.actions@);
    let dm = spec_damage_mult(plan.actions@);
    let eb = spec_eco_base(plan.actions@);
    let l_ab = spec_floor1(species.abundance_hard_limit);
    let l_dm = spec_floor1(species.damage_hard_limit);
    let l_ec = spec_floor1(species.eco_hard_limit);
    &&& res.state.times_days@.len() == h + 1
    &&& res.state.abundance@.len() == h + 1
    &&& res.state.damage_metric@.len() == h + 1
    &&& res.state.eco_metric@.len() == h + 1
    &&& res.state.r_pest@.len() == h + 1
    &&& res.state.r_damage@.len() == h + 1
    &&& res.state.r_eco@.len() == h + 1
    &&& res.state.residual_v@.len() == h + 1
    &&& forall|d: int|
        0 <= d <= h ==> #[trigger] res.state.times_days@[d] == d
    &&& forall|d: int|
        0 <= d <= h ==> #[trigger] res.state.abundance@[d] as int == spec_n_at(
            ctx,
            species,
            am,
            rm,
            d as nat,
        )
    &&& forall|d: int|
        0 <= d <= h ==> #[trigger] res.state.damage_metric@[d] as int == spec_d_at(
            ctx,
            species,
            am,
            rm,
            dm,
            d as nat,
        )
    &&& forall|d: int|
        0 <= d <= h ==> #[trigger] res.state.eco_metric@[d] as int == spec_e_at(
            ctx,
            species,
            eb,
            d as nat,
        )
    &&& forall|d: int|
        0 <= d <= h ==> #[trigger] res.state.r_pest@[d] as int == spec_risk_coord(
            spec_n_at(ctx, species, am, rm, d as nat),
            l_ab,
        )
    &&& forall|d: int|
        0 <= d <= h ==> #[trigger] res.state.r_damage@[d] as int == spec_risk_coord(
            spec_d_at(ctx, species, am, rm, dm, d as nat),
            l_dm,
        )
    &&& forall|d: int|
        0 <= d <= h ==> #[trigger] res.state.r_eco@[d] as int == spec_risk_coord(
            spec_e_at(ctx, species, eb, d as nat),
            l_ec,
        )
    &&& forall|d: int|
        0 <= d <= h ==> #[trigger] res.state.residual_v@[d] as int == spec_residual(
            cfg,
            spec_risk_coord(spec_n_at(ctx, species, am, rm, d as nat), l_ab),
            spec_risk_coord(spec_d_at(ctx, species, am, rm, dm, d as nat), l_dm),
            spec_risk_coord(spec_e_at(ctx, species, eb, d as nat), l_ec),
        )
    &&& res.violated_hard_limit == exists|d: int|
        0 <= d <= h && #[trigger] spec_day_exceeds(ctx, species, cfg, am, rm, dm, eb, d as nat)
}

/// Daily arrivals, executable form.
fn daily_lambda(ctx: &PestContext, species: &PestSpeciesModel, arrival_mult: u64, day: u32) -> (r:
    u64)
    requires
        species.base_arrival_rate <= RATE_MAX,
        arrival_mult <= SCALE,
    ensures
        r as int == spec_lambda(*ctx, *species, arrival_mult as int, day as int),
        r <= 2 * RATE_MAX,
{
    proof {
        lemma_lambda_range(*ctx, *species, arrival_mult as int, day as int);
    }
    let a1 = crate::fixed::mul_unit(species.base_arrival_rate, arrival_mult);
    let season = season_factor(day, species.seasonality_amp, species.seasonality_phase);
    proof {
        vstd::arithmetic::mul::lemma_mul_upper_bound(
            a1 as int,
            RATE_MAX as int,
            season as int,
            2 * (SCALE as int),
        );
        vstd::arithmetic::mul::lemma_mul_nonnegative(a1 as int, season as int);
        vstd::arithmetic::div_mod::lemma_div_is_ordered(
            (a1 as int) * (season as int),
            (RATE_MAX as int) * (2 * (SCALE as int)),
            SCALE as int,
        );
    }
    let a2: u64 = (((a1 as u128) * (season as u128)) / (SCALE as u128)) as u64;
    let a3 = crate::fixed::mul_unit(a2, clamp01(ctx.food_availability));
    crate::fixed::mul_unit(a3, clamp01(ctx.harborage_quality))
}

/// Simulate the pest-risk trajectory of a plan at a site.
///
/// Day 0 starts at one unit of abundance with no accumulated damage or
/// disturbance. Each day emits the normalized coordinates and the weighted
/// residual for the current state, latches the hard-limit bit when a
/// coordinate exceeds its ceiling, and, except on the final day, advances
/// the state by the recurrences of `spec_n_at`, `spec_d_at` and
/// `spec_e_at`. The bounds in `requires` keep all fixed-point arithmetic
/// within 64-bit state and 128-bit intermediates.
#[verifier::loop_isolation(false)]
#[verifier::rlimit(100)]
pub fn simulate_pest_risk(
    ctx: &PestContext,
    species: &PestSpeciesModel,
    plan: &InterventionPlan,
    cfg: &SimulationConfig,
) -> (res: SimulationResult)
    requires
        species.base_arrival_rate <= RATE_MAX,
        species.base_repro_rate <= RATE_MAX,
        species.damage_sensitivity <= RATE_MAX,
        species.eco_sensitivity <= RATE_MAX,
        species.abundance_hard_limit <= LIMIT_MAX,
        species.damage_hard_limit <= LIMIT_MAX,
        species.eco_hard_limit <= LIMIT_MAX,
        plan.horizon_days <= HORIZON_MAX,
        is_unit(cfg.w_pest),
        is_unit(cfg.w_damage),
        is_unit(cfg.w_eco),
    ensures
        spec_simulation_matches(*ctx, *species, *plan, *cfg, res),
{
    let ghost am = spec_arrival_mult(plan.actions@);
    let ghost rm = spec_repro_mult(plan.actions@);
    let ghost dm = spec_damage_mult(plan.actions@);
    let ghost eb = spec_eco_base(plan.actions@);
    let horizon: u32 = if plan.horizon_days < 1 {
        1
    } else {
        plan.horizon_days
    };
    let (arrival_mult, repro_mult, damage_mult, eco_base) = aggregate_controls(plan);
    let r_eff = crate::fixed::mul_unit(
        crate::fixed::mul_unit(species.base_repro_rate, repro_mult),
        clamp01(ctx.water_availability),
    );
    let l_ab = floor1(species.abundance_hard_limit);
    let l_dm = floor1(species.damage_hard_limit);
    let l_ec = floor1(species.eco_hard_limit);
    let eco_inc = eco_increment(ctx, species, eco_base);
    let mut times: Vec<u32> = Vec::new();
    let mut n_vec: Vec<u64> = Vec::new();
    let mut d_vec: Vec<u64> = Vec::new();
    let mut e_vec: Vec<u64> = Vec::new();
    let mut rp_vec: Vec<u64> = Vec::new();
    let mut rd_vec: Vec<u64> = Vec::new();
    let mut re_vec: Vec<u64> = Vec::new();
    let mut v_vec: Vec<u64> = Vec::new();
    let mut n_t: u64 = SCALE;
    let mut d_t: u64 = 0;
    let mut e_t: u64 = 0;
    let mut violated: bool = false;
    let mut day: u32 = 0;
    while day <= horizon
        invariant
            day <= horizon + 1,
            times@.len() == day as int,
            n_vec@.len() == day as int,
            d_vec@.len() == day as int,
            e_vec@.len() == day as int,
            rp_vec@.len() == day as int,
            rd_vec@.len() == day as int,
            re_vec@.len() == day as int,
            v_vec@.len() == day as int,
            forall|j: int| 0 <= j < day ==> #[trigger] times@[j] == j,
            forall|j: int|
                0 <= j < day ==> #[trigger] n_vec@[j] as int == spec_n_at(
                    *ctx,
                    *species,
                    am,
                    rm,
                    j as nat,
                ),
            forall|j: int|
                0 <= j < day ==> #[trigger] d_vec@[j] as int == spec_d_at(
                    *ctx,
                    *species,
                    am,
                    rm,
                    dm,
                    j as nat,
                ),
            forall|j: int|
                0 <= j < day ==> #[trigger] e_vec@[j] as int == spec_e_at(
                    *ctx,
                    *species,
                    eb,
                    j as nat,
                ),
            forall|j: int|
                0 <= j < day ==> #[trigger] rp_vec@[j] as int == spec_risk_coord(
                    spec_n_at(*ctx, *species, am, rm, j as nat),
                    l_ab as int,
                ),
            forall|j: int|
                0 <= j < day ==> #[trigger] rd_vec@[j] as int == spec_risk_coord(
                    spec_d_at(*ctx, *species, am, rm, dm, j as nat),
                    l_dm as int,
                ),
            forall|j: int|
                0 <= j < day ==> #[trigger] re_vec@[j] as int == spec_risk_coord(
                    spec_e_at(*ctx, *species, eb, j as nat),
                    l_ec as int,
                ),
            forall|j: int|
                0 <= j < day ==> #[trigger] v_vec@[j] as int == spec_residual(
                    *cfg,
                    spec_risk_coord(spec_n_at(*ctx, *species, am, rm, j as nat), l_ab as int),
                    spec_risk_coord(spec_d_at(*ctx, *species, am, rm, dm, j as nat), l_dm as int),
                    spec_risk_coord(spec_e_at(*ctx, *species, eb, j as nat), l_ec as int),
                ),
            day <= horizon ==> n_t as int == spec_n_at(*ctx, *species, am, rm, day as nat),
            day <= horizon ==> n_t as int <= (N_STEP_CEIL as int) + (day as int) * (2 * (
            RATE_MAX as int)),
            day <= horizon ==> d_t as int == spec_d_at(*ctx, *species, am, rm, dm, day as nat),
            day <= horizon ==> d_t as int <= (day as int) * 2_000_000_000_000_000,
            day <= horizon ==> e_t as int == spec_e_at(*ctx, *species, eb, day as nat),
            day <= horizon ==> e_t <= l_ec,
            violated == exists|j: int|
                0 <= j < day && #[trigger] spec_day_exceeds(
                    *ctx,
                    *species,
                    *cfg,
                    am,
                    rm,
                    dm,
                    eb,
                    j as nat,
                ),
        decreases horizon + 1 - day,
    {
        let rp = risk_coord(n_t, l_ab);
        let rd = risk_coord(d_t, l_dm);
        let re = risk_coord(e_t, l_ec);
        proof {
            vstd::arithmetic::mul::lemma_mul_upper_bound(
                cfg.w_pest as int,
                SCALE as int,
                rp as int,
                SCALE as int,
            );
            vstd::arithmetic::mul::lemma_mul_upper_bound(
                cfg.w_damage as int,
                SCALE as int,
                rd as int,
                SCALE as int,
            );
            vstd::arithmetic::mul::lemma_mul_upper_bound(
                cfg.w_eco as int,
                SCALE as int,
                re as int,
                SCALE as int,
            );
        }
        let v = (cfg.w_pest * rp + cfg.w_damage * rd + cfg.w_eco * re) / SCALE;
        times.push(day);
        n_vec.push(n_t);
        d_vec.push(d_t);
        e_vec.push(e_t);
        rp_vec.push(rp);
        rd_vec.push(rd);
        re_vec.push(re);
        v_vec.push(v);
        if rp > cfg.r_pest_max || rd > cfg.r_damage_max || re > cfg.r_eco_max {
            violated = true;
            proof {
                assert(spec_day_exceeds(*ctx, *species, *cfg, am, rm, dm, eb, day as nat));
            }
        } else {
            proof {
                assert(!spec_day_exceeds(*ctx, *species, *cfg, am, rm, dm, eb, day as nat));
            }
        }
        if day < horizon {
            let stepped = advance_state(
                ctx,
                species,
                arrival_mult,
                damage_mult,
                r_eff,
                l_ab,
                l_ec,
                eco_inc,
                day,
                n_t,
                d_t,
                e_t,
                Ghost(am),
                Ghost(rm),
                Ghost(dm),
                Ghost(eb),
            );
            n_t = stepped.0;
            d_t = stepped.1;
            e_t = stepped.2;
        }
        day = day + 1;
    }
    let state = PestRiskState {
        times_days: times,
        abundance: n_vec,
        damage_metric: d_vec,
        eco_metric: e_vec,
        r_pest: rp_vec,
        r_damage: rd_vec,
        r_eco: re_vec,
        residual_v: v_vec,
    };
    SimulationResult { state, violated_hard_limit: violated }
}

/// Advance the simulator state from `day` to `day + 1`: logistic abundance
/// step, damage accumulation and capped eco accumulation.
fn advance_state(
    ctx: &PestContext,
    species: &PestSpeciesModel,
    arrival_mult: u64,
    damage_mult: u64,
    r_eff: u64,
    l_ab: u64,
    l_ec: u64,
    eco_inc: u128,
    day: u32,
    n_t: u64,
    d_t: u64,
    e_t: u64,
    Ghost(am): Ghost<int>,
    Ghost(rm): Ghost<int>,
    Ghost(dm): Ghost<int>,
    Ghost(eb): Ghost<int>,
) -> (r: (u64, u64, u64))
    requires
        species.base_arrival_rate <= RATE_MAX,
        species.base_repro_rate <= RATE_MAX,
        species.damage_sensitivity <= RATE_MAX,
        arrival_mult as int == am,
        damage_mult as int == dm,
        0 <= am <= SCALE,
        0 <= dm <= SCALE,
        r_eff as int == spec_r_eff(*ctx, *species, rm),
        r_eff <= RATE_MAX,
        l_ab as int == spec_floor1(species.abundance_hard_limit),
        SCALE <= l_ab <= LIMIT_MAX,
        l_ec as int == spec_floor1(species.eco_hard_limit),
        eco_inc as int == spec_eco_inc(*ctx, *species, eb),
        eco_inc as int <= 1_844_674_407_370_955_161_500_000_000,
        day < HORIZON_MAX,
        n_t as int == spec_n_at(*ctx, *species, am, rm, day as nat),
        n_t as int <= (N_STEP_CEIL as int) + (day as int) * (2 * (RATE_MAX as int)),
        d_t as int == spec_d_at(*ctx, *species, am, rm, dm, day as nat),
        d_t as int <= (day as int) * 2_000_000_000_000_000,
        e_t as int == spec_e_at(*ctx, *species, eb, day as nat),
        e_t <= l_ec,
    ensures
        r.0 as int == spec_n_at(*ctx, *species, am, rm, (day + 1) as nat),
        r.0 as int <= (N_STEP_CEIL as int) + ((day + 1) as int) * (2 * (RATE_MAX as int)),
        r.1 as int == spec_d_at(*ctx, *species, am, rm, dm, (day + 1) as nat),
        r.1 as int <= ((day + 1) as int) * 2_000_000_000_000_000,
        r.2 as int == spec_e_at(*ctx, *species, eb, (day + 1) as nat),
        r.2 <= l_ec,
{
    proof {
        vstd::arithmetic::mul::lemma_mul_inequality(
            day as int,
            (HORIZON_MAX - 1) as int,
            2 * (RATE_MAX as int),
        );
        assert(((HORIZON_MAX - 1) as int) * (2 * (RATE_MAX as int)) == 729_800_000_000)
            by (nonlinear_arith);
        assert(n_t <= N_TRAJECTORY_CAP);
    }
    let lam = daily_lambda(ctx, species, arrival_mult, day);
    proof {
        lemma_next_n_bounds(n_t as int, lam as int, r_eff as int, l_ab as int);
    }
    let n_next = step_abundance(n_t, lam, r_eff, l_ab);
    let d_inc = damage_increment(ctx, species, damage_mult, n_t);
    proof {
        assert(((day + 1) as int) * (2 * (RATE_MAX as int)) == (day as int) * (2 * (
        RATE_MAX as int)) + 2 * (RATE_MAX as int)) by (nonlinear_arith);
        assert(((day + 1) as int) * 2_000_000_000_000_000 == (day as int) * 2_000_000_000_000_000
            + 2_000_000_000_000_000) by (nonlinear_arith);
        assert((day as int) * 2_000_000_000_000_000 <= 3649 * 2_000_000_000_000_000) by {
            vstd::arithmetic::mul::lemma_mul_inequality(day as int, 3649, 2_000_000_000_000_000);
        }
    }
    let d_next = d_t + d_inc;
    let ew: u128 = e_t as u128 + eco_inc;
    let e_next: u64 = if ew >= l_ec as u128 {
        l_ec
    } else {
        ew as u64
    };
    (n_next, d_next, e_next)
}

/// Whether a day's coordinates exceed any configured ceiling.
pub open spec fn spec_day_exceeds(
    ctx: PestContext,
    species: PestSpeciesModel,
    cfg: SimulationConfig,
    am: int,
    rm: int,
    dm: int,
    eb: int,
    day: nat,
) -> bool {
    ||| spec_risk_coord(
        spec_n_at(ctx, species, am, rm, day),
        spec_floor1(species.abundance_hard_limit),
    ) > cfg.r_pest_max
    ||| spec_risk_coord(
        spec_d_at(ctx, species, am, rm, dm, day),
        spec_floor1(species.damage_hard_limit),
    ) > cfg.r_damage_max
    ||| spec_risk_coord(
        spec_e_at(ctx, species, eb, day),
        spec_floor1(species.eco_hard_limit),
    ) > cfg.r_eco_max
}

/// Every normalized risk coordinate lies in the unit interval, for any
/// metric value and anchor.
pub proof fn lemma_risk_coord_unit(x: int, l: int)
    ensures
        0 <= spec_risk_coord(x, l) <= SCALE,
{
}

/// Abundance never goes negative: every day of every trajectory driven by
/// a plan's aggregates is at least zero.
pub proof fn lemma_abundance_nonnegative(
    ctx: PestContext,
    species: PestSpeciesModel,
    actions: Seq<ControlAction>,
    day: nat,
)
    requires
        species.base_arrival_rate <= RATE_MAX,
        species.base_repro_rate <= RATE_MAX,
        species.abundance_hard_limit <= LIMIT_MAX,
    ensures
        spec_n_at(ctx, species, spec_arrival_mult(actions), spec_repro_mult(actions), day) >= 0,
    decreases day,
{
    lemma_aggregate_ranges(actions);
    if day != 0 {
        let am = spec_arrival_mult(actions);
        let rm = spec_repro_mult(actions);
        lemma_abundance_nonnegative(ctx, species, actions, (day - 1) as nat);
        lemma_lambda_range(ctx, species, am, day - 1);
        lemma_r_eff_range(ctx, species, rm);
        lemma_next_n_bounds(
            spec_n_at(ctx, species, am, rm, (day - 1) as nat),
            spec_lambda(ctx, species, am, day - 1),
            spec_r_eff(ctx, species, rm),
            spec_floor1(species.abundance_hard_limit),
        );
    }
}

/// The damage increment is never negative, so accumulated damage never
/// decreases from one day to the next.
pub proof fn lemma_damage_nondecreasing(
    ctx: PestContext,
    species: PestSpeciesModel,
    actions: Seq<ControlAction>,
    day: nat,
)
    requires
        species.base_arrival_rate <= RATE_MAX,
        species.base_repro_rate <= RATE_MAX,
        species.abundance_hard_limit <= LIMIT_MAX,
    ensures
        spec_d_at(
            ctx,
            species,
            spec_arrival_mult(actions),
            spec_repro_mult(actions),
            spec_damage_mult(actions),
            day + 1,
        ) >= spec_d_at(
            ctx,
            species,
            spec_arrival_mult(actions),
            spec_repro_mult(actions),
            spec_damage_mult(actions),
            day,
        ),
{
    let am = spec_arrival_mult(actions);
    let rm = spec_repro_mult(actions);
    let dm = spec_damage_mult(actions);
    let n = spec_n_at(ctx, species, am, rm, day);
    lemma_aggregate_ranges(actions);
    lemma_abundance_nonnegative(ctx, species, actions, day);
    let sc = SCALE as int;
    let i1 = n * (species.damage_sensitivity as int) / sc;
    vstd::arithmetic::mul::lemma_mul_nonnegative(n, species.damage_sensitivity as int);
    vstd::arithmetic::div_mod::lemma_div_pos_is_pos(n * (species.damage_sensitivity as int), sc);
    vstd::arithmetic::mul::lemma_mul_nonnegative(i1, spec_clamp01(ctx.human_proximity as int));
    vstd::arithmetic::div_mod::lemma_div_pos_is_pos(
        i1 * spec_clamp01(ctx.human_proximity as int),
        sc,
    );
    vstd::arithmetic::mul::lemma_mul_nonnegative(
        spec_mul_unit(i1, spec_clamp01(ctx.human_proximity as int)),
        dm,
    );
    vstd::arithmetic::div_mod::lemma_div_pos_is_pos(
        spec_mul_unit(i1, spec_clamp01(ctx.human_proximity as int)) * dm,
        sc,
    );
}

/// A plan whose actions all have zero reduction fractions and zero eco
/// disturbance aggregates exactly like the empty plan.
pub proof fn lemma_zero_actions_aggregate(actions: Seq<ControlAction>)
    requires
        forall|k: int|
            0 <= k < actions.len() ==> (#[trigger] actions[k]).arrival_reduction_frac == 0
                && actions[k].repro_reduction_frac == 0 && actions[k].damage_reduction_frac == 0
                && actions[k].eco_disturbance_score == 0,
    ensures
        spec_arrival_mult(actions) == SCALE,
        spec_repro_mult(actions) == SCALE,
        spec_damage_mult(actions) == SCALE,
        spec_eco_base(actions) == 0,
    decreases actions.len(),
{
    let sc = SCALE as int;
    if actions.len() != 0 {
        let prev = actions.drop_last();
        let a = actions.last();
        assert(forall|k: int|
            0 <= k < prev.len() ==> (#[trigger] prev[k]).arrival_reduction_frac == 0
                && prev[k].repro_reduction_frac == 0 && prev[k].damage_reduction_frac == 0
                && prev[k].eco_disturbance_score == 0) by {
            assert(forall|k: int| 0 <= k < prev.len() ==> prev[k] == actions[k]);
        }
        lemma_zero_actions_aggregate(prev);
        let f = spec_intensity(a);
        vstd::arithmetic::mul::lemma_mul_by_zero_is_zero(f);
        vstd::arithmetic::div_mod::lemma_div_basics(sc);
        assert(spec_mul_unit(f, 0) == 0);
        assert(spec_arrival_factor(a) == sc);
        assert(spec_repro_factor(a) == sc);
        assert(spec_damage_factor(a) == sc);
        assert(spec_eco_term(a) == 0);
        vstd::arithmetic::div_mod::lemma_div_by_multiple(sc, sc);
        assert(spec_mul_unit(sc, sc) == sc);
    }
}

/// A plan with zero reduction fractions and zero eco disturbance yields the
/// same simulator output as the empty plan over the same horizon: identical
/// trajectories, coordinates, residuals and hard-limit bit.
pub proof fn lemma_zero_action_plan_is_baseline(
    ctx: PestContext,
    species: PestSpeciesModel,
    plan: InterventionPlan,
    baseline: InterventionPlan,
    cfg: SimulationConfig,
    res: SimulationResult,
    res0: SimulationResult,
)
    requires
        forall|k: int|
            0 <= k < plan.actions@.len() ==> (#[trigger] plan.actions@[k]).arrival_reduction_frac
                == 0 && plan.actions@[k].repro_reduction_frac == 0
                && plan.actions@[k].damage_reduction_frac == 0
                && plan.actions@[k].eco_disturbance_score == 0,
        baseline.actions@.len() == 0,
        spec_horizon(baseline) == spec_horizon(plan),
        spec_simulation_matches(ctx, species, plan, cfg, res),
        spec_simulation_matches(ctx, species, baseline, cfg, res0),
    ensures
        res.state.times_days@ == res0.state.times_days@,
        res.state.abundance@ == res0.state.abundance@,
        res.state.damage_metric@ == res0.state.damage_metric@,
        res.state.eco_metric@ == res0.state.eco_metric@,
        res.state.r_pest@ == res0.state.r_pest@,
        res.state.r_damage@ == res0.state.r_damage@,
        res.state.r_eco@ == res0.state.r_eco@,
        res.state.residual_v@ == res0.state.residual_v@,
        res.violated_hard_limit == res0.violated_hard_limit,
{
    lemma_zero_actions_aggregate(plan.actions@);
    let h = spec_horizon(plan);
    assert(spec_arrival_mult(baseline.actions@) == SCALE);
    assert(spec_repro_mult(baseline.actions@) == SCALE);
    assert(spec_damage_mult(baseline.actions@) == SCALE);
    assert(spec_eco_base(baseline.actions@) == 0);
    assert(res.state.times_days@ =~= res0.state.times_days@);
    assert(res.state.abundance@ =~= res0.state.abundance@);
    assert(res.state.damage_metric@ =~= res0.state.damage_metric@);
    assert(res.state.eco_metric@ =~= res0.state.eco_metric@);
    assert(res.state.r_pest@ =~= res0.state.r_pest@);
    assert(res.state.r_damage@ =~= res0.state.r_damage@);
    assert(res.state.r_eco@ =~= res0.state.r_eco@);
    assert(res.state.residual_v@ =~= res0.state.residual_v@);
}

} // verus!
