//! The mutable simulation/UI environment handle the controller works on:
//! the loaded map's identity, the configured simulation flags, the world
//! itself, and the agent color scheme shared across modes.

use vstd::prelude::*;
use crate::scenario::SimWorld;

verus! {

/// How agents are colored on screen; one scheme is active at a time.
#[derive(Clone, Copy, PartialEq, Eq, Structural, Debug)]
pub enum AgentColorScheme {
    VehicleTypes,
    Delay,
    TripTimeSoFar,
    DistanceCrossedSoFar,
}

/// The flags the simulation itself was started with.
pub struct SimFlags {
    pub rng_seed: u64,
}

/// The configured sandbox flags: the optional procedural agent count and the
/// simulation flags the random source is derived from.
pub struct Flags {
    pub num_agents: Option<usize>,
    pub sim_flags: SimFlags,
}

/// The environment handle threaded through the controller.
pub struct Ui {
    pub map_name: String,
    pub current_flags: Flags,
    pub sim: SimWorld,
    pub agent_cs: AgentColorScheme,
}

} // verus!
