//! Mission controller for a tile-grid agent: a verified state machine that
//! locates a resource, travels to it, collects it, builds a street pattern
//! from the proceeds, and signals completion. The world itself (scanner,
//! planner, collector, constructor) belongs to the host; the controller
//! consumes their verdicts one decision-tick at a time and orders primitive
//! commands back.

pub mod state;
pub mod model;
pub mod controller;
pub mod laws;
