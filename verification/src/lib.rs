//! Core of a single-axis reciprocating linear actuator: shared motion state,
//! pattern generators, a motion orchestrator, and a periodic jerk-limited
//! motion-control loop that feeds absolute step targets to a motor adapter.
//!
//! All physical quantities are carried as integers in fine fixed-point units:
//! micrometres for positions, micrometres per second for velocities.  This
//! keeps every computation exact and decidable; the conversion factors to the
//! motor's step units and to user-facing percentages are part of the
//! configuration module.

pub mod command;
pub mod config;
pub mod crc;
pub mod json;
pub mod laws;
pub mod m5;
pub mod modbus;
pub mod motion_control;
pub mod motion_state;
pub mod motor;
pub mod orchestrator;
pub mod pattern;
pub mod planner;
pub mod units;
