//! Verified core of a stat and artifact calculator: the stat vocabulary,
//! artifact pieces and their roll budgets, the constraint-aware artifact
//! builder, name lookup over game data tables, and the stat selection of the
//! damage formula.

pub mod artifact;
pub mod artifact_builder;
pub mod data;
pub mod dmg_function;
pub mod error;
pub mod factory;
pub mod rolls;
pub mod standardize;
pub mod stat;
pub mod stat_names;
