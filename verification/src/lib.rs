//! A verified model of road traffic at a single four-way intersection.
//!
//! Discrete vehicle agents spawn on one of four approaches, travel toward
//! and through the intersection, optionally turn, and avoid colliding with
//! other vehicles while obeying an adaptive signal controller. The modules
//! hold, in dependency order: the static road geometry, the signal
//! controller, the per-vehicle decision core, and the per-tick orchestrator.

pub mod geometry;
mod rng;
pub mod sim;
pub mod traffic_light;
pub mod vehicle;
