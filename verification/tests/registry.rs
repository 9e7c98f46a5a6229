use deadbugs_core::model::{
    ControlFamily, ControlMethod, EffectivenessBand, LocationType, LogContext, OutcomeLog,
    PestSpecies, SideEffects, WasteBurden,
};
use deadbugs_core::registry::MethodRegistry;

fn method(id: &str, family: ControlFamily) -> ControlMethod {
    ControlMethod {
        id: id.to_string(),
        family,
        uses_disposable_electronics: false,
        generates_persistent_plastic: false,
        lethal: false,
        chemical: false,
    }
}

fn quiet_effects() -> SideEffects {
    SideEffects {
        pet_incident: false,
        wildlife_incident: false,
        human_injury: false,
        air_quality_concern: false,
        waste_burden: WasteBurden::Negligible,
    }
}

fn log_for(method_id: &str, pest: PestSpecies, effectiveness: EffectivenessBand) -> OutcomeLog {
    OutcomeLog {
        method_id: method_id.to_string(),
        context: LogContext { pest, location: LocationType::Home },
        n_cases: 1,
        effectiveness,
        side_effects: quiet_effects(),
    }
}

#[test]
fn empty_log_sanitation_gets_uplift_in_home_query() {
    let mut reg = MethodRegistry::new();
    reg.add_method(method("s1", ControlFamily::Sanitation));
    let out = reg.query_safest_methods(PestSpecies::Rodent, LocationType::Home, 500_000);
    assert_eq!(out.len(), 1);
    assert_eq!(out[0].0.id, "s1");
    assert_eq!(out[0].1.k, 100_000);
    // E uplifted from 0.93 to 0.98 for the tier-0 family.
    assert_eq!(out[0].1.e, 980_000);
    assert_eq!(out[0].1.r, 0);
}

#[test]
fn hard_violating_method_is_absent_from_both_queries() {
    let mut reg = MethodRegistry::new();
    reg.add_method(method("t1", ControlFamily::MechanicalKill));
    reg.add_method(method("s1", ControlFamily::Sanitation));
    for _ in 0..10 {
        let mut l = log_for("t1", PestSpecies::Rodent, EffectivenessBand::Low);
        l.side_effects.human_injury = true;
        reg.add_log(l);
    }
    let safest = reg.query_safest_methods(PestSpecies::Rodent, LocationType::Farm, 1_000_000);
    assert!(safest.iter().all(|(m, _)| m.id != "t1"));
    let tier0 = reg.tier0_exclusion_hygiene(PestSpecies::Rodent, LocationType::Farm);
    assert!(tier0.iter().all(|(m, _)| m.id != "t1"));
}

#[test]
fn sensitive_location_rejects_disposable_electronics() {
    let mut reg = MethodRegistry::new();
    let mut d1 = method("d1", ControlFamily::HabitatChange);
    d1.uses_disposable_electronics = true;
    reg.add_method(d1);
    let hospital = reg.query_safest_methods(PestSpecies::Rodent, LocationType::Hospital, 1_000_000);
    assert!(hospital.is_empty());
    // The same method passes in a non-sensitive location.
    let farm = reg.query_safest_methods(PestSpecies::Rodent, LocationType::Farm, 1_000_000);
    assert_eq!(farm.len(), 1);
    assert_eq!(farm[0].0.id, "d1");
}

#[test]
fn monitoring_only_is_excluded_from_safest_query() {
    let mut reg = MethodRegistry::new();
    reg.add_method(method("w1", ControlFamily::MonitoringOnly));
    let out = reg.query_safest_methods(PestSpecies::Rodent, LocationType::Farm, 1_000_000);
    assert!(out.is_empty());
}

#[test]
fn query_respects_risk_ceiling() {
    let mut reg = MethodRegistry::new();
    reg.add_method(method("m1", ControlFamily::LiveCapture));
    let mut l = log_for("m1", PestSpecies::Rodent, EffectivenessBand::High);
    l.side_effects.pet_incident = true;
    reg.add_log(l);
    reg.add_log(log_for("m1", PestSpecies::Rodent, EffectivenessBand::High));
    // r_pets = 0.5, r_waste = 0.2: R = 0.3 * 0.5 + 0.1 * 0.2 = 0.17.
    let strict = reg.query_safest_methods(PestSpecies::Rodent, LocationType::Farm, 100_000);
    assert!(strict.is_empty());
    let loose = reg.query_safest_methods(PestSpecies::Rodent, LocationType::Farm, 200_000);
    assert_eq!(loose.len(), 1);
    assert_eq!(loose[0].1.r, 170_000);
}

#[test]
fn logs_of_other_pests_do_not_count() {
    let mut reg = MethodRegistry::new();
    reg.add_method(method("m1", ControlFamily::Exclusion));
    for _ in 0..20 {
        reg.add_log(log_for("m1", PestSpecies::Ant, EffectivenessBand::High));
    }
    // Querying for a different pest sees no logs: anecdotal K.
    let out = reg.query_safest_methods(PestSpecies::Rodent, LocationType::Farm, 1_000_000);
    assert_eq!(out.len(), 1);
    assert_eq!(out[0].1.k, 100_000);
    // Querying for the logged pest sees the full corpus.
    let out_ant = reg.query_safest_methods(PestSpecies::Ant, LocationType::Farm, 1_000_000);
    assert_eq!(out_ant[0].1.k, 900_000);
}

#[test]
fn results_sort_by_knowledge_descending() {
    let mut reg = MethodRegistry::new();
    reg.add_method(method("weak", ControlFamily::LiveCapture));
    reg.add_method(method("strong", ControlFamily::MechanicalKill));
    for _ in 0..20 {
        reg.add_log(log_for("strong", PestSpecies::Rodent, EffectivenessBand::High));
    }
    let out = reg.query_safest_methods(PestSpecies::Rodent, LocationType::Farm, 1_000_000);
    assert_eq!(out.len(), 2);
    assert_eq!(out[0].0.id, "strong");
    assert_eq!(out[1].0.id, "weak");
    assert!(out[0].1.k > out[1].1.k);
}

#[test]
fn tier0_tie_break_prefers_higher_eco_score() {
    let mut reg = MethodRegistry::new();
    // Registered lower-E first so the sort has to reorder.
    let mut lower = method("plastic_seal", ControlFamily::Exclusion);
    lower.generates_persistent_plastic = true;
    reg.add_method(lower);
    reg.add_method(method("clean_seal", ControlFamily::Exclusion));
    reg.add_log(log_for("plastic_seal", PestSpecies::Rodent, EffectivenessBand::High));
    reg.add_log(log_for("clean_seal", PestSpecies::Rodent, EffectivenessBand::High));
    let out = reg.tier0_exclusion_hygiene(PestSpecies::Rodent, LocationType::Home);
    assert_eq!(out.len(), 2);
    // One High log each: K = 0.4 for both; E = 0.95 vs 0.85.
    assert_eq!(out[0].1.k, out[1].1.k);
    assert_eq!(out[0].0.id, "clean_seal");
    assert_eq!(out[0].1.e, 950_000);
    assert_eq!(out[1].0.id, "plastic_seal");
    assert_eq!(out[1].1.e, 850_000);
}

#[test]
fn tier0_excludes_high_risk_and_other_families() {
    let mut reg = MethodRegistry::new();
    reg.add_method(method("trap", ControlFamily::MechanicalKill));
    reg.add_method(method("risky_seal", ControlFamily::Exclusion));
    let mut l = log_for("risky_seal", PestSpecies::Rodent, EffectivenessBand::High);
    l.side_effects.pet_incident = true;
    reg.add_log(l);
    // One log, all with a pet incident: r_pets = 1.0, a hard violation.
    let out = reg.tier0_exclusion_hygiene(PestSpecies::Rodent, LocationType::Home);
    assert!(out.is_empty());
}

#[test]
fn tier0_applies_no_uplift() {
    let mut reg = MethodRegistry::new();
    reg.add_method(method("s1", ControlFamily::Sanitation));
    let out = reg.tier0_exclusion_hygiene(PestSpecies::Rodent, LocationType::Home);
    assert_eq!(out.len(), 1);
    assert_eq!(out[0].1.e, 930_000);
}
