use deadbugs_core::fixed::SCALE;
use deadbugs_core::sim::{
    simulate_pest_risk, ControlAction, InterventionPlan, PestContext, PestRiskState,
    PestSpeciesModel, SimulationConfig, SimulationResult,
};
use deadbugs_core::guard::{evaluate_plan_guard, GuardVerdict, PlanGuardConfig};

fn context() -> PestContext {
    PestContext {
        structure_type: "home".to_string(),
        climate_band: "temperate".to_string(),
        human_proximity: 800_000,
        animal_proximity: 400_000,
        food_availability: SCALE,
        water_availability: SCALE,
        harborage_quality: SCALE,
    }
}

fn species() -> PestSpeciesModel {
    PestSpeciesModel {
        species_id: "rodent.rattus".to_string(),
        base_arrival_rate: SCALE,      // one arrival per day
        base_repro_rate: 0,
        seasonality_amp: 0,
        seasonality_phase: 0,
        damage_sensitivity: 100_000,   // 0.1
        eco_sensitivity: SCALE,
        abundance_hard_limit: 10 * SCALE,
        damage_hard_limit: 10 * SCALE,
        eco_hard_limit: 10 * SCALE,
    }
}

fn config() -> SimulationConfig {
    SimulationConfig {
        w_pest: 500_000,
        w_damage: 300_000,
        w_eco: 200_000,
        r_pest_max: SCALE,
        r_damage_max: SCALE,
        r_eco_max: SCALE,
    }
}

fn empty_plan(horizon_days: u32) -> InterventionPlan {
    InterventionPlan { actions: Vec::new(), horizon_days }
}

fn zero_action(id: &str, intensity: u64) -> ControlAction {
    ControlAction {
        method_id: id.to_string(),
        intensity,
        continuous: true,
        arrival_reduction_frac: 0,
        repro_reduction_frac: 0,
        damage_reduction_frac: 0,
        eco_disturbance_score: 0,
    }
}

#[test]
fn arrays_cover_every_day_of_the_horizon() {
    let res = simulate_pest_risk(&context(), &species(), &empty_plan(30), &config());
    let s: &PestRiskState = &res.state;
    assert_eq!(s.times_days.len(), 31);
    assert_eq!(s.abundance.len(), 31);
    assert_eq!(s.damage_metric.len(), 31);
    assert_eq!(s.eco_metric.len(), 31);
    assert_eq!(s.r_pest.len(), 31);
    assert_eq!(s.r_damage.len(), 31);
    assert_eq!(s.r_eco.len(), 31);
    assert_eq!(s.residual_v.len(), 31);
    for (d, t) in s.times_days.iter().enumerate() {
        assert_eq!(*t as usize, d);
    }
}

#[test]
fn zero_horizon_is_floored_to_one_day() {
    let res = simulate_pest_risk(&context(), &species(), &empty_plan(0), &config());
    // The horizon is floored to one day, so day 0 and day 1 are emitted.
    assert_eq!(res.state.times_days.len(), 2);
    assert_eq!(res.state.abundance[0], SCALE);
}

#[test]
fn known_trajectory_without_reproduction() {
    // One arrival per day, no reproduction: N grows by exactly 1 each day.
    let res = simulate_pest_risk(&context(), &species(), &empty_plan(3), &config());
    assert_eq!(res.state.abundance[0], SCALE);
    assert_eq!(res.state.abundance[1], 2 * SCALE);
    assert_eq!(res.state.abundance[2], 3 * SCALE);
    assert_eq!(res.state.abundance[3], 4 * SCALE);
    // r_pest = N / 10 clamped.
    assert_eq!(res.state.r_pest[0], 100_000);
    assert_eq!(res.state.r_pest[3], 400_000);
    // Damage increment on day d is N_d * 0.1 * 0.8.
    assert_eq!(res.state.damage_metric[0], 0);
    assert_eq!(res.state.damage_metric[1], 80_000);
    assert_eq!(res.state.damage_metric[2], 240_000);
    // Residual combines the weighted coordinates.
    // Day 0: 0.5 * 0.1 = 0.05.
    assert_eq!(res.state.residual_v[0], 50_000);
    assert!(!res.violated_hard_limit);
}

#[test]
fn risk_coordinates_stay_in_unit_interval() {
    let mut sp = species();
    sp.base_arrival_rate = 100 * SCALE;
    sp.abundance_hard_limit = SCALE;
    let res = simulate_pest_risk(&context(), &sp, &empty_plan(50), &config());
    for d in 0..res.state.r_pest.len() {
        assert!(res.state.r_pest[d] <= SCALE);
        assert!(res.state.r_damage[d] <= SCALE);
        assert!(res.state.r_eco[d] <= SCALE);
    }
}

#[test]
fn abundance_never_negative_and_damage_monotone() {
    let res = simulate_pest_risk(&context(), &species(), &empty_plan(30), &config());
    for d in 0..30 {
        // Strictly growing damage: positive abundance, sensitivity and
        // proximity.
        assert!(res.state.damage_metric[d + 1] > res.state.damage_metric[d]);
    }
}

#[test]
fn hard_limit_bit_latches_when_a_ceiling_is_exceeded() {
    let mut cfg = config();
    cfg.r_pest_max = 150_000;
    // N reaches 2.0 on day 1, r_pest = 0.2 > 0.15.
    let res = simulate_pest_risk(&context(), &species(), &empty_plan(2), &cfg);
    assert!(res.violated_hard_limit);
    let quiet = simulate_pest_risk(&context(), &species(), &empty_plan(2), &config());
    assert!(!quiet.violated_hard_limit);
}

#[test]
fn zero_effect_actions_match_the_empty_plan() {
    let mut plan = empty_plan(20);
    plan.actions.push(zero_action("exclusion.seal_cracks", 900_000));
    plan.actions.push(zero_action("sanitation.deep_clean", 500_000));
    let with_actions = simulate_pest_risk(&context(), &species(), &plan, &config());
    let baseline = simulate_pest_risk(&context(), &species(), &empty_plan(20), &config());
    assert_eq!(with_actions.state.abundance, baseline.state.abundance);
    assert_eq!(with_actions.state.damage_metric, baseline.state.damage_metric);
    assert_eq!(with_actions.state.eco_metric, baseline.state.eco_metric);
    assert_eq!(with_actions.state.residual_v, baseline.state.residual_v);
    assert_eq!(with_actions.violated_hard_limit, baseline.violated_hard_limit);
}

#[test]
fn arrival_reduction_slows_growth() {
    let mut plan = empty_plan(10);
    let mut a = zero_action("exclusion.seal_cracks", SCALE);
    a.arrival_reduction_frac = SCALE;
    plan.actions.push(a);
    let res = simulate_pest_risk(&context(), &species(), &plan, &config());
    // Arrivals fully suppressed and no reproduction: N stays at 1.
    for d in 0..=10 {
        assert_eq!(res.state.abundance[d], SCALE);
    }
}

#[test]
fn eco_metric_accumulates_and_caps_at_the_anchor() {
    let mut plan = empty_plan(5);
    let mut a = zero_action("trap.snap", SCALE);
    a.eco_disturbance_score = SCALE;
    plan.actions.push(a);
    let mut sp = species();
    sp.eco_hard_limit = 2 * SCALE;
    let res = simulate_pest_risk(&context(), &sp, &plan, &config());
    // eco increment = 1.0 * 1.0 * (0.4 + 0.8) / 2 = 0.6 per day, capped at 2.
    assert_eq!(res.state.eco_metric[0], 0);
    assert_eq!(res.state.eco_metric[1], 600_000);
    assert_eq!(res.state.eco_metric[2], 1_200_000);
    assert_eq!(res.state.eco_metric[3], 1_800_000);
    assert_eq!(res.state.eco_metric[4], 2_000_000);
    assert_eq!(res.state.eco_metric[5], 2_000_000);
}

#[test]
fn guard_enforces_residual_ceiling() {
    let state = PestRiskState {
        times_days: vec![0, 1],
        abundance: vec![0; 2],
        damage_metric: vec![0; 2],
        eco_metric: vec![0; 2],
        r_pest: vec![0; 2],
        r_damage: vec![0; 2],
        r_eco: vec![0; 2],
        residual_v: vec![500_000, 400_000],
    };
    let sim = SimulationResult { state, violated_hard_limit: false };
    let strict = PlanGuardConfig {
        v_max: 450_000,
        require_v_nonincrease: false,
        require_all_below_max: true,
    };
    let verdict = evaluate_plan_guard(&sim, &strict);
    assert!(verdict.v_exceeded_max);
    assert!(!verdict.corridor_safe);
    let loose = PlanGuardConfig {
        v_max: 600_000,
        require_v_nonincrease: true,
        require_all_below_max: true,
    };
    let ok = evaluate_plan_guard(&sim, &loose);
    assert!(!ok.v_exceeded_max);
    assert!(ok.v_nonincreasing);
    assert!(ok.corridor_safe);
}

#[test]
fn seasonality_modulates_arrivals() {
    let mut sp = species();
    sp.seasonality_amp = 500_000;
    sp.seasonality_phase = 0;
    sp.damage_sensitivity = 0;
    sp.abundance_hard_limit = 100 * SCALE;
    // At phase zero the cosine starts at its crest: season = 1.5, decaying
    // slowly over the first days of the year.
    let res = simulate_pest_risk(&context(), &sp, &empty_plan(3), &config());
    assert_eq!(res.state.abundance[0], 1_000_000);
    assert_eq!(res.state.abundance[1], 2_500_000);
    assert_eq!(res.state.abundance[2], 3_999_940);
    assert_eq!(res.state.abundance[3], 5_499_700);
}

#[test]
fn guard_detects_residual_rebound() {
    let state = PestRiskState {
        times_days: vec![0, 1, 2, 3, 4],
        abundance: vec![0; 5],
        damage_metric: vec![0; 5],
        eco_metric: vec![0; 5],
        r_pest: vec![0; 5],
        r_damage: vec![0; 5],
        r_eco: vec![0; 5],
        residual_v: vec![400_000, 300_000, 200_000, 250_000, 100_000],
    };
    let sim = SimulationResult { state, violated_hard_limit: false };
    let cfg = PlanGuardConfig {
        v_max: SCALE,
        require_v_nonincrease: true,
        require_all_below_max: false,
    };
    let verdict: GuardVerdict = evaluate_plan_guard(&sim, &cfg);
    assert!(!verdict.v_nonincreasing);
    assert!(!verdict.corridor_safe);
    assert!(!verdict.hard_limit_violated);
    assert!(!verdict.v_exceeded_max);
}
