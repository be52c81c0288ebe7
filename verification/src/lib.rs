//! Randomized construction of checkable properties for a database simulator.
//!
//! A [`property::Property`] is plain data naming an invariant of the engine
//! under test. It is generated at random under a workload budget, and compiled
//! into an ordered script of [`plan::Interaction`]s that a driver executes.

pub mod text;
pub mod value;
pub mod render;
pub mod table;
pub mod predicate;
pub mod query;
pub mod env;
pub mod plan;
pub mod property;
pub mod budget;
pub mod entropy;
pub mod dispatch;
pub mod providers;
pub mod generate;
pub mod laws;
