use deadbugs_core::engine::{score_method, ControlMethod, OutcomeLog};
use deadbugs_core::fixed::SCALE;

fn method(id: &str, class: &str, lethal: bool, chemical: bool) -> ControlMethod {
    ControlMethod { method_id: id.to_string(), class: class.to_string(), lethal, chemical }
}

fn log(method_id: &str, n_cases: u32, eff: u64, bycatch: u64, waste: u64) -> OutcomeLog {
    OutcomeLog {
        method_id: method_id.to_string(),
        pest_class: "rodent".to_string(),
        context_hash: "0000".to_string(),
        n_cases,
        effectiveness_band: eff,
        bycatch_band: bycatch,
        waste_band: waste,
    }
}

#[test]
fn no_cases_fall_back_to_generic_knowledge() {
    let m = method("trap.snap", "trap", false, false);
    let score = score_method(&m, &Vec::new());
    assert_eq!(score.method_id, "trap.snap");
    assert_eq!(score.k_knowledge, 600_000);
    // Defaults: half bycatch, half waste: E = 0.5 + 0.1 + 0.1 + 0.1.
    assert_eq!(score.e_eco_impact, 800_000);
    // R = 0.2 * 0.5 + 0.2 * 0.5.
    assert_eq!(score.r_risk_harm, 200_000);
}

#[test]
fn one_effective_case_lifts_knowledge() {
    let m = method("exclusion.seal", "exclusion", false, false);
    let logs = vec![log("exclusion.seal", 1, SCALE, 0, 0)];
    let score = score_method(&m, &logs);
    // Evidence factor 1 - exp(-0.1), scaled by full effectiveness.
    assert_eq!(score.k_knowledge, 547_581);
    // Clean logs: E = 0.5 + 0.3 + 0.2 + 0.2, clamped to 1.
    assert_eq!(score.e_eco_impact, SCALE);
    assert_eq!(score.r_risk_harm, 0);
}

#[test]
fn case_weights_blend_effectiveness() {
    let m = method("trap.snap", "trap", false, false);
    let logs = vec![
        log("trap.snap", 10, SCALE, 0, 0),
        log("trap.snap", 10, 0, 0, 0),
    ];
    let score = score_method(&m, &logs);
    // Twenty cases, average effectiveness one half.
    assert_eq!(score.k_knowledge, 716_167);
}

#[test]
fn lethal_chemical_methods_score_worst() {
    let m = method("bait.poison", "bait", true, true);
    let score = score_method(&m, &Vec::new());
    // Gains 0.8 against penalties 0.9.
    assert_eq!(score.e_eco_impact, 0);
    // R = 0.2 + 0.3 + 0.4.
    assert_eq!(score.r_risk_harm, 900_000);
}

#[test]
fn logs_of_other_methods_are_ignored() {
    let m = method("exclusion.seal", "exclusion", false, false);
    let logs = vec![log("trap.snap", 50, SCALE, SCALE, SCALE)];
    let score = score_method(&m, &logs);
    assert_eq!(score.k_knowledge, 600_000);
}

#[test]
fn heavy_bycatch_raises_risk() {
    let m = method("trap.glue", "trap", false, false);
    let logs = vec![log("trap.glue", 4, 500_000, SCALE, 500_000)];
    let score = score_method(&m, &logs);
    // R = 0.2 * 1.0 + 0.2 * 0.5.
    assert_eq!(score.r_risk_harm, 300_000);
    // E = 0.5 + 0.1 + 0.2 * 0 + 0.2 * 0.5.
    assert_eq!(score.e_eco_impact, 700_000);
}
