//! Data model shared by the scorer and the registry.
//!
//! Scalars follow the crate-wide fixed-point convention: micro-units, where
//! `fixed::SCALE` stands for the real number 1.0.

use vstd::prelude::*;
use crate::fixed::is_unit;

verus! {

/// The seven families of non-chemical control methods.
#[derive(Clone, Copy, PartialEq, Eq, Structural, Debug)]
pub enum ControlFamily {
    Exclusion,
    Sanitation,
    HabitatChange,
    PredatorSupport,
    MechanicalKill,
    LiveCapture,
    MonitoringOnly,
}

/// Broad location classes; Home and Hospital are the sensitive ones.
#[derive(Clone, Copy, PartialEq, Eq, Structural, Debug)]
pub enum LocationType {
    Home,
    Hospital,
    Restaurant,
    Farm,
    Warehouse,
    Outdoor,
}

/// Broad pest classes used to match outcome logs to a query.
#[derive(Clone, Copy, PartialEq, Eq, Structural, Debug)]
pub enum PestSpecies {
    Rodent,
    Cockroach,
    Bedbug,
    Ant,
    Termite,
    Fly,
    Bird,
    Other,
}

/// Field-logged effectiveness of a method in one deployment.
#[derive(Clone, Copy, PartialEq, Eq, Structural, Debug)]
pub enum EffectivenessBand {
    Low,
    Medium,
    High,
}

/// Reported waste burden of one deployment.
#[derive(Clone, Copy, PartialEq, Eq, Structural, Debug)]
pub enum WasteBurden {
    Negligible,
    Moderate,
    High,
}

/// Side effects observed during one deployment.
#[derive(Clone, Copy, PartialEq, Eq, Structural, Debug)]
pub struct SideEffects {
    pub pet_incident: bool,
    pub wildlife_incident: bool,
    pub human_injury: bool,
    pub air_quality_concern: bool,
    pub waste_burden: WasteBurden,
}

/// A registered control method. The library covers only the non-chemical
/// subset, so `chemical` must be false.
#[derive(Debug)]
pub struct ControlMethod {
    pub id: String,
    pub family: ControlFamily,
    pub uses_disposable_electronics: bool,
    pub generates_persistent_plastic: bool,
    pub lethal: bool,
    pub chemical: bool,
}

impl ControlMethod {
    /// Upstream curation keeps chemical methods out of the library.
    pub open spec fn wf(self) -> bool {
        !self.chemical
    }
}

impl Clone for ControlMethod {
    /// A clone carries exactly the fields of the original.
    fn clone(&self) -> (r: Self)
        ensures
            r == *self,
    {
        ControlMethod {
            id: self.id.clone(),
            family: self.family,
            uses_disposable_electronics: self.uses_disposable_electronics,
            generates_persistent_plastic: self.generates_persistent_plastic,
            lethal: self.lethal,
            chemical: self.chemical,
        }
    }
}

/// The site and pest a log refers to.
#[derive(Clone, Copy, PartialEq, Eq, Structural, Debug)]
pub struct LogContext {
    pub pest: PestSpecies,
    pub location: LocationType,
}

/// One field report about a deployment of a method.
#[derive(Debug)]
pub struct OutcomeLog {
    pub method_id: String,
    pub context: LogContext,
    /// Number of cases the report covers; at least one.
    pub n_cases: u32,
    pub effectiveness: EffectivenessBand,
    pub side_effects: SideEffects,
}

impl OutcomeLog {
    /// A report covers at least one case.
    pub open spec fn wf(self) -> bool {
        self.n_cases >= 1
    }
}

impl Clone for OutcomeLog {
    /// A clone carries exactly the fields of the original.
    fn clone(&self) -> (r: Self)
        ensures
            r == *self,
    {
        OutcomeLog {
            method_id: self.method_id.clone(),
            context: self.context,
            n_cases: self.n_cases,
            effectiveness: self.effectiveness,
            side_effects: self.side_effects,
        }
    }
}

/// Per-corridor risk coordinates, each a unit-interval scalar.
#[derive(Clone, Copy, PartialEq, Eq, Structural, Debug)]
pub struct RiskCoordinates {
    pub r_pets: u64,
    pub r_wildlife: u64,
    pub r_waste: u64,
    pub r_air: u64,
    pub r_human_injury: u64,
}

impl RiskCoordinates {
    /// All five coordinates lie in the unit interval.
    pub open spec fn wf(self) -> bool {
        &&& is_unit(self.r_pets)
        &&& is_unit(self.r_wildlife)
        &&& is_unit(self.r_waste)
        &&& is_unit(self.r_air)
        &&& is_unit(self.r_human_injury)
    }
}

/// Aggregated K/E/R score of a method over a set of logs.
#[derive(Clone, Copy, PartialEq, Eq, Structural, Debug)]
pub struct KerScore {
    pub k: u64,
    pub e: u64,
    pub r: u64,
    pub coords: RiskCoordinates,
    pub hard_violation: bool,
}

impl KerScore {
    /// K, E, R and every coordinate lie in the unit interval.
    pub open spec fn wf(self) -> bool {
        &&& is_unit(self.k)
        &&& is_unit(self.e)
        &&& is_unit(self.r)
        &&& self.coords.wf()
    }
}

} // verus!
