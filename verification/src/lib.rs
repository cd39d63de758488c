//! Gameplay-mode controller for an interactive traffic-simulation sandbox.
//!
//! The crate selects, initializes and drives one of several mutually exclusive
//! play modes layered over a shared simulation world: free exploration,
//! scripted scenario playback, bus-route optimization, gridlock creation and
//! trip-speed challenges.  It covers the mode-dispatch state machine, the
//! deterministic scenario-instantiation pipeline, the baseline-comparison
//! helpers and the menu toggle-synchronization algorithm.

pub mod analytics;
pub mod compare;
pub mod menu;
pub mod duration;
pub mod numfmt;
pub mod runner;
pub mod scenario;
pub mod sync;
pub mod text;
pub mod ui;
