//! Evaluation and simulation of non-chemical pest-control interventions.
//!
//! The library ranks control methods along three axes — knowledge (K),
//! eco-impact (E) and risk-of-harm (R) — and simulates the day-by-day risk
//! trajectory of an intervention plan, whose residuals a plan guard then
//! checks against hard limits.
//!
//! All scalars are fixed-point numbers: a value `x` stands for the real
//! number `x / 1_000_000`. Unit-interval quantities therefore range over
//! `0 ..= 1_000_000`. This keeps every formula in exact integer arithmetic,
//! so the whole computation is verified end to end.

pub mod fixed;
pub mod model;
pub mod ker;
pub mod engine;
pub mod registry;
pub mod sim;
pub mod guard;
