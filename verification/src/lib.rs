//! Domovoi: a discrete-time simulation engine for a population of autonomous
//! agents whose proposed actions are mediated by an optional policy engine,
//! producing a classified, append-only event log.
//!
//! All scalar quantities that denote values in the unit interval (coherence,
//! intensive potential, coherence loss, instability risk, severity) are held
//! in fixed-point form: an integer `n` stands for the quantity `n / 1000`.

pub mod variety;
pub mod agents;
pub mod events;
pub mod simulator;

pub use simulator::VarietyNavigationSimulator;
pub use variety::{VarietyPattern, VarietySpace, IntensiveVariety};
pub use agents::VirtualAgent;
