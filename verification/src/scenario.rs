//! Scenarios: named agent populations, their deterministic instantiation into
//! a simulation world from a seeded random source, and their resolution from
//! a name (synthesized, "just buses", or stored).

use vstd::prelude::*;
use vstd::string::*;
use crate::duration::{Duration, MICROS_PER_HOUR};
use crate::numfmt::{dec_seq, fmt_usize};
use crate::text::str_eq;

verus! {

/// How many agents a procedural scenario gets when no count is configured.
pub const DEFAULT_NUM_AGENTS: usize = 100;

/// How an agent makes its trip.
#[derive(Clone, Copy, PartialEq, Eq, Structural, Debug)]
pub enum TripMode {
    Walk,
    Bike,
    Transit,
    Drive,
}

/// One simulated agent: its trip mode and its departure time.
#[derive(Clone, Copy, PartialEq, Eq, Structural, Debug)]
pub struct Agent {
    pub mode: TripMode,
    pub depart: Duration,
}

/// The simulation world this crate populates and advances.
pub struct SimWorld {
    pub time: Duration,
    pub agents: Vec<Agent>,
    pub buses_seeded: bool,
}

impl SimWorld {
    /// A world at time zero with no population.
    pub fn new() -> (w: SimWorld)
        ensures
            w.time.micros == 0,
            w.agents@.len() == 0,
            !w.buses_seeded,
    {
        SimWorld { time: Duration { micros: 0 }, agents: Vec::new(), buses_seeded: false }
    }

    /// Advances the world clock by `dt`; the population is untouched.
    pub fn step(&mut self, dt: Duration)
        requires
            old(self).time.micros + dt.micros <= u64::MAX,
        ensures
            final(self).time.micros == old(self).time.micros + dt.micros,
            final(self).agents == old(self).agents,
            final(self).buses_seeded == old(self).buses_seeded,
    {
        self.time = Duration { micros: self.time.micros + dt.micros };
    }
}

/// One xorshift step of the deterministic random source.
pub open spec fn rng_next_spec(s: u64) -> u64 {
    let a = s ^ (s << 13);
    let b = a ^ (a >> 7);
    b ^ (b << 17)
}

/// A reproducible random source: the same seed always yields the same draws.
pub struct Rng {
    pub state: u64,
}

impl Rng {
    /// The internal state derived from a configured seed.
    pub open spec fn seeded_state(seed: u64) -> u64 {
        seed ^ 0x9E37_79B9_7F4A_7C15
    }

    /// A source derived deterministically from the configured seed.
    pub fn seeded(seed: u64) -> (r: Rng)
        ensures
            r.state == Rng::seeded_state(seed),
    {
        Rng { state: seed ^ 0x9E37_79B9_7F4A_7C15 }
    }

    /// Draws the next value.
    pub fn next(&mut self) -> (r: u64)
        ensures
            r == rng_next_spec(old(self).state),
            final(self).state == r,
    {
        let mut x = self.state;
        x = x ^ (x << 13);
        x = x ^ (x >> 7);
        x = x ^ (x << 17);
        self.state = x;
        x
    }
}

/// The departure time encoded by one draw: somewhere in the first hour.
pub open spec fn departure(drawn: u64) -> Duration {
    Duration { micros: drawn % MICROS_PER_HOUR }
}

/// The agents spawned for the demand slots from `i` on, with the random
/// source in the given state.
pub open spec fn population_from(demand: Seq<TripMode>, i: int, state: u64) -> Seq<Agent>
    decreases demand.len() - i,
{
    if i < 0 || i >= demand.len() {
        Seq::empty()
    } else {
        let drawn = rng_next_spec(state);
        seq![Agent { mode: demand[i], depart: departure(drawn) }] + population_from(
            demand,
            i + 1,
            drawn,
        )
    }
}

/// The random-source state left after spawning the demand slots from `i` on.
pub open spec fn rng_state_from(demand: Seq<TripMode>, i: int, state: u64) -> u64
    decreases demand.len() - i,
{
    if i < 0 || i >= demand.len() {
        state
    } else {
        rng_state_from(demand, i + 1, rng_next_spec(state))
    }
}

/// The whole population spawned from a demand under a source state.
pub open spec fn population_spec(demand: Seq<TripMode>, state: u64) -> Seq<Agent> {
    population_from(demand, 0, state)
}

/// A named population descriptor: agent demand plus the bus seeding flag,
/// consumed once to populate a simulation world.
pub struct Scenario {
    pub scenario_name: String,
    pub demand: Vec<TripMode>,
    pub seed_buses: bool,
}

/// The mathematical value of a scenario.
pub struct ScenarioV {
    pub name: Seq<char>,
    pub demand: Seq<TripMode>,
    pub seed_buses: bool,
}

impl View for Scenario {
    type V = ScenarioV;

    open spec fn view(&self) -> ScenarioV {
        ScenarioV { name: self.scenario_name@, demand: self.demand@, seed_buses: self.seed_buses }
    }
}

/// The procedural scenario scaled to exactly `n` demand slots.
pub open spec fn scaled_run_v(n: usize) -> ScenarioV {
    ScenarioV {
        name: "scaled_run"@,
        demand: Seq::new(n as nat, |i: int| TripMode::Drive),
        seed_buses: false,
    }
}

/// The default-sized procedural scenario.
pub open spec fn small_run_v() -> ScenarioV {
    scaled_run_v(DEFAULT_NUM_AGENTS)
}

/// The "just buses" scenario: no agent demand, bus seeding on.
pub open spec fn just_buses_v() -> ScenarioV {
    ScenarioV { name: "just buses"@, demand: Seq::empty(), seed_buses: true }
}

impl Scenario {
    /// A scenario with no demand and no bus seeding.
    pub fn empty() -> (s: Scenario)
        ensures
            s@.name == "empty"@,
            s@.demand.len() == 0,
            !s@.seed_buses,
    {
        Scenario { scenario_name: String::from_str("empty"), demand: Vec::new(), seed_buses: false }
    }

    /// The procedural scenario with exactly `num_agents` demand slots.
    pub fn scaled_run(num_agents: usize) -> (s: Scenario)
        ensures
            s@ == scaled_run_v(num_agents),
    {
        let mut demand: Vec<TripMode> = Vec::new();
        let mut i: usize = 0;
        while i < num_agents
            invariant
                i <= num_agents,
                demand@ == Seq::new(i as nat, |j: int| TripMode::Drive),
            decreases num_agents - i,
        {
            demand.push(TripMode::Drive);
            proof {
                assert(Seq::new((i + 1) as nat, |j: int| TripMode::Drive) =~= Seq::new(
                    i as nat,
                    |j: int| TripMode::Drive,
                ).push(TripMode::Drive));
            }
            i += 1;
        }
        let s = Scenario {
            scenario_name: String::from_str("scaled_run"),
            demand,
            seed_buses: false,
        };
        s
    }

    /// The default-sized procedural scenario.
    pub fn small_run() -> (s: Scenario)
        ensures
            s@ == small_run_v(),
    {
        Scenario::scaled_run(DEFAULT_NUM_AGENTS)
    }

    /// Populates the world from this scenario's demand, drawing departures
    /// from the given random source; the world clock is untouched.
    pub fn instantiate(&self, world: &mut SimWorld, rng: &mut Rng)
        ensures
            final(world).agents@ == population_spec(self.demand@, old(rng).state),
            final(world).buses_seeded == self.seed_buses,
            final(world).time == old(world).time,
            final(rng).state == rng_state_from(self.demand@, 0, old(rng).state),
    {
        let ghost s0: u64 = rng.state;
        let mut agents: Vec<Agent> = Vec::new();
        let n = self.demand.len();
        let mut i: usize = 0;
        while i < n
            invariant
                n == self.demand@.len(),
                i <= n,
                agents@.len() == i,
                agents@ + population_from(self.demand@, i as int, rng.state) == population_spec(
                    self.demand@,
                    s0,
                ),
                rng_state_from(self.demand@, i as int, rng.state) == rng_state_from(
                    self.demand@,
                    0,
                    s0,
                ),
            decreases n - i,
        {
            let ghost si: u64 = rng.state;
            let drawn = rng.next();
            let depart = Duration { micros: drawn % MICROS_PER_HOUR };
            let a = Agent { mode: self.demand[i], depart };
            agents.push(a);
            proof {
                assert(population_from(self.demand@, i as int, si) == seq![a]
                    + population_from(self.demand@, i + 1, drawn));
                assert(agents@ + population_from(self.demand@, i + 1, drawn)
                    =~= agents@.drop_last() + population_from(self.demand@, i as int, si));
            }
            i += 1;
        }
        proof {
            assert(population_from(self.demand@, n as int, rng.state)
                =~= Seq::<Agent>::empty());
            assert(agents@ + population_from(self.demand@, n as int, rng.state) =~= agents@);
        }
        world.agents = agents;
        world.buses_seeded = self.seed_buses;
    }
}

/// A set of persisted scenarios, looked up by name.
pub struct ScenarioStore {
    pub scenarios: Vec<Scenario>,
}

/// The first stored scenario carrying the given name, if any.
pub open spec fn find_scenario(ss: Seq<ScenarioV>, name: Seq<char>) -> Option<ScenarioV>
    decreases ss.len(),
{
    if ss.len() == 0 {
        None
    } else if ss[0].name == name {
        Some(ss[0])
    } else {
        find_scenario(ss.drop_first(), name)
    }
}

impl View for ScenarioStore {
    type V = Seq<ScenarioV>;

    open spec fn view(&self) -> Seq<ScenarioV> {
        self.scenarios@.map_values(|s: Scenario| s@)
    }
}

impl ScenarioStore {
    /// Looks a scenario up by name.
    pub fn lookup<'a>(&'a self, name: &str) -> (r: Option<&'a Scenario>)
        ensures
            match r {
                Some(s) => find_scenario(self@, name@) == Some(s@),
                None => find_scenario(self@, name@) is None,
            },
    {
        let n = self.scenarios.len();
        let mut i: usize = 0;
        proof {
            assert(self@.skip(0) =~= self@);
        }
        while i < n
            invariant
                n == self.scenarios@.len(),
                self@.len() == n,
                i <= n,
                find_scenario(self@, name@) == find_scenario(self@.skip(i as int), name@),
            decreases n - i,
        {
            if str_eq(self.scenarios[i].scenario_name.as_str(), name) {
                proof {
                    assert(self@.skip(i as int)[0] == self@[i as int]);
                }
                return Some(&self.scenarios[i]);
            }
            proof {
                assert(self@.skip(i as int)[0] == self@[i as int]);
                assert(self@.skip(i as int).drop_first() =~= self@.skip(i + 1));
            }
            i += 1;
        }
        proof {
            assert(self@.skip(n as int) =~= Seq::<ScenarioV>::empty());
        }
        None
    }
}

/// The synthesized label for the procedural scenario, as it appears in menus:
/// with the configured agent count spelled out, or the unscaled wording when
/// none is configured.
pub open spec fn builtin_label_spec(num_agents: Option<usize>) -> Seq<char> {
    match num_agents {
        Some(n) => "random scenario with "@ + dec_seq(n as nat) + " agents"@,
        None => "random scenario with some agents"@,
    }
}

/// Writes the synthesized procedural-scenario label.
pub fn builtin_label(num_agents: Option<usize>) -> (r: String)
    ensures
        r@ == builtin_label_spec(num_agents),
{
    match num_agents {
        Some(n) => {
            let mut s = String::from_str("random scenario with ");
            let d = fmt_usize(n);
            s.append(d.as_str());
            s.append(" agents");
            proof {
                assert(s@ =~= builtin_label_spec(num_agents));
            }
            s
        },
        None => String::from_str("random scenario with some agents"),
    }
}

/// The resolution policy for a scenario name: the synthesized label yields a
/// procedural scenario (scaled when a count is configured), "just buses"
/// yields the bus-only scenario, and anything else is a stored scenario.
pub open spec fn resolve_spec(
    name: Seq<char>,
    num_agents: Option<usize>,
    store: Seq<ScenarioV>,
) -> Option<ScenarioV> {
    if name == builtin_label_spec(num_agents) {
        match num_agents {
            Some(n) => Some(scaled_run_v(n)),
            None => Some(small_run_v()),
        }
    } else if name == "just buses"@ {
        Some(just_buses_v())
    } else {
        find_scenario(store, name)
    }
}

/// Instantiation is deterministic: the same demand and the same source state
/// yield populations with identical counts and identical per-agent modes and
/// departure schedules.
pub proof fn lemma_instantiate_deterministic(
    demand: Seq<TripMode>,
    state: u64,
    a: Seq<Agent>,
    b: Seq<Agent>,
)
    requires
        a == population_spec(demand, state),
        b == population_spec(demand, state),
    ensures
        a.len() == b.len(),
        forall|i: int| 0 <= i < a.len() ==> a[i].depart == b[i].depart && a[i].mode == b[i].mode,
{
}

/// The name "just buses" never collides with the synthesized procedural
/// label, so it always resolves to the bus-only scenario: empty demand, bus
/// seeding on, whatever agent count is configured.
pub proof fn lemma_just_buses_resolution(num_agents: Option<usize>, store: Seq<ScenarioV>)
    ensures
        resolve_spec("just buses"@, num_agents, store) == Some(just_buses_v()),
        just_buses_v().demand.len() == 0,
        just_buses_v().seed_buses,
{
    reveal_strlit("just buses");
    reveal_strlit("random scenario with ");
    reveal_strlit("random scenario with some agents");
    match num_agents {
        Some(n) => {
            let b = builtin_label_spec(Some(n));
            assert(("random scenario with "@ + dec_seq(n as nat))[0] == 'r');
            assert(b[0] == 'r');
            if b == "just buses"@ {
                assert(b[0] == 'j');
                assert(false);
            }
        },
        None => {
            assert("random scenario with some agents"@.len() == 32);
            assert("just buses"@.len() == 10);
        },
    }
}

/// The synthesized label resolves to the procedural scenario: scaled to
/// exactly `n` demand slots when a count `n` is configured, and to the
/// default size when none is.
pub proof fn lemma_builtin_resolution(n: usize, store: Seq<ScenarioV>)
    ensures
        resolve_spec(builtin_label_spec(Some(n)), Some(n), store) == Some(scaled_run_v(n)),
        scaled_run_v(n).demand.len() == n,
        resolve_spec(builtin_label_spec(None), None, store) == Some(small_run_v()),
        small_run_v().demand.len() == DEFAULT_NUM_AGENTS,
{
}

} // verus!
