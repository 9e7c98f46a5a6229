use deadbugs_core::fixed::SCALE;
use deadbugs_core::ker::score_method;
use deadbugs_core::model::{
    ControlFamily, ControlMethod, EffectivenessBand, LocationType, LogContext, OutcomeLog,
    PestSpecies, SideEffects, WasteBurden,
};

fn method(id: &str, family: ControlFamily) -> ControlMethod {
    ControlMethod {
        id: id.to_string(),
        family,
        uses_disposable_electronics: false,
        generates_persistent_plastic: false,
        lethal: false,
        chemical: false,
    }
}

fn quiet_effects() -> SideEffects {
    SideEffects {
        pet_incident: false,
        wildlife_incident: false,
        human_injury: false,
        air_quality_concern: false,
        waste_burden: WasteBurden::Negligible,
    }
}

fn log(method_id: &str, effectiveness: EffectivenessBand, side_effects: SideEffects) -> OutcomeLog {
    OutcomeLog {
        method_id: method_id.to_string(),
        context: LogContext { pest: PestSpecies::Rodent, location: LocationType::Home },
        n_cases: 1,
        effectiveness,
        side_effects,
    }
}

#[test]
fn empty_log_sanitation_scores_anecdotal() {
    let m = method("s1", ControlFamily::Sanitation);
    let score = score_method(&m, &Vec::new());
    assert_eq!(score.k, 100_000);
    assert_eq!(score.e, 930_000);
    assert_eq!(score.r, 0);
    assert_eq!(score.coords.r_pets, 0);
    assert_eq!(score.coords.r_wildlife, 0);
    assert_eq!(score.coords.r_waste, 0);
    assert_eq!(score.coords.r_air, 0);
    assert_eq!(score.coords.r_human_injury, 0);
    assert!(!score.hard_violation);
}

#[test]
fn all_injury_logs_trigger_hard_violation() {
    let m = method("t1", ControlFamily::MechanicalKill);
    let mut logs = Vec::new();
    for _ in 0..10 {
        let mut fx = quiet_effects();
        fx.human_injury = true;
        logs.push(log("t1", EffectivenessBand::Low, fx));
    }
    let score = score_method(&m, &logs);
    assert_eq!(score.coords.r_human_injury, SCALE);
    assert!(score.hard_violation);
}

#[test]
fn knowledge_penalizes_mixed_bands() {
    // Ten logs, five High and five Low: variability 0.5, base 0.7,
    // K = 0.7 * (1 - 0.25) = 0.525.
    let m = method("m", ControlFamily::Exclusion);
    let mut logs = Vec::new();
    for i in 0..10 {
        let band = if i < 5 { EffectivenessBand::High } else { EffectivenessBand::Low };
        logs.push(log("m", band, quiet_effects()));
    }
    let score = score_method(&m, &logs);
    assert_eq!(score.k, 525_000);
}

#[test]
fn knowledge_base_rises_with_corpus_size() {
    let m = method("m", ControlFamily::Exclusion);
    let mut logs = Vec::new();
    for _ in 0..20 {
        logs.push(log("m", EffectivenessBand::High, quiet_effects()));
    }
    // Twenty unanimous logs: variability 0, base 0.9.
    let score = score_method(&m, &logs);
    assert_eq!(score.k, 900_000);
}

#[test]
fn waste_coordinate_blends_base_and_reports() {
    // Plain method, three logs, one with a high waste burden:
    // r_waste = 0.2 + 0.2 / 3.
    let m = method("m", ControlFamily::Exclusion);
    let mut fx = quiet_effects();
    fx.waste_burden = WasteBurden::High;
    let logs = vec![
        log("m", EffectivenessBand::High, fx),
        log("m", EffectivenessBand::High, quiet_effects()),
        log("m", EffectivenessBand::High, quiet_effects()),
    ];
    let score = score_method(&m, &logs);
    assert_eq!(score.coords.r_waste, 266_666);
}

#[test]
fn material_flags_raise_waste_and_lower_eco() {
    let mut m = method("m", ControlFamily::HabitatChange);
    m.uses_disposable_electronics = true;
    let score = score_method(&m, &Vec::new());
    // No logs: E = 0.9 - 0.15.
    assert_eq!(score.e, 750_000);
    assert_eq!(score.coords.r_waste, 0); // no logs: all coordinates zero
    let logs = vec![log("m", EffectivenessBand::High, quiet_effects())];
    let scored = score_method(&m, &logs);
    // One log: waste base 0.7; E = 0.9 * 1.0 - 0.15.
    assert_eq!(scored.coords.r_waste, 700_000);
    assert_eq!(scored.e, 750_000);
}

#[test]
fn low_effectiveness_halves_eco_gain() {
    let m = method("m", ControlFamily::Exclusion);
    let logs = vec![log("m", EffectivenessBand::Low, quiet_effects())];
    let score = score_method(&m, &logs);
    // success fraction 0: eff factor 0.5, E = 0.95 * 0.5.
    assert_eq!(score.e, 475_000);
}

#[test]
fn aggregate_r_uses_fixed_weights() {
    // Four logs, one pet incident and two air concerns:
    // r_pets = 0.25, r_air = 0.5, r_waste = 0.2,
    // R = 0.3 * 0.25 + 0.1 * 0.2 + 0.1 * 0.5.
    let m = method("m", ControlFamily::Exclusion);
    let mut pet = quiet_effects();
    pet.pet_incident = true;
    let mut air = quiet_effects();
    air.air_quality_concern = true;
    let logs = vec![
        log("m", EffectivenessBand::High, pet),
        log("m", EffectivenessBand::High, air),
        log("m", EffectivenessBand::High, air),
        log("m", EffectivenessBand::High, quiet_effects()),
    ];
    let score = score_method(&m, &logs);
    assert_eq!(score.coords.r_pets, 250_000);
    assert_eq!(score.coords.r_air, 500_000);
    assert_eq!(score.coords.r_waste, 200_000);
    assert_eq!(score.r, 145_000);
    assert!(!score.hard_violation);
}

#[test]
fn scores_stay_in_unit_interval() {
    let mut m = method("m", ControlFamily::MonitoringOnly);
    m.uses_disposable_electronics = true;
    m.generates_persistent_plastic = true;
    let mut fx = quiet_effects();
    fx.pet_incident = true;
    fx.wildlife_incident = true;
    fx.human_injury = true;
    fx.air_quality_concern = true;
    fx.waste_burden = WasteBurden::High;
    let mut logs = Vec::new();
    for _ in 0..30 {
        logs.push(log("m", EffectivenessBand::Low, fx));
    }
    let score = score_method(&m, &logs);
    assert!(score.k <= SCALE);
    assert!(score.e <= SCALE);
    assert!(score.r <= SCALE);
    assert!(score.coords.r_pets <= SCALE);
    assert!(score.coords.r_wildlife <= SCALE);
    assert!(score.coords.r_waste <= SCALE);
    assert!(score.coords.r_air <= SCALE);
    assert!(score.coords.r_human_injury <= SCALE);
    assert!(score.hard_violation);
}
