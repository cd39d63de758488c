//! The mode controller: owns exactly one active gameplay mode, its menu and
//! the baseline snapshot; initializes the world for the chosen mode and
//! routes per-frame events to the active mode's own handler.

use vstd::prelude::*;
use vstd::string::*;
use crate::analytics::{
    count_departed, count_departed_of_mode, departed_of_mode_spec, departed_spec,
    finished_before_spec, finished_of_mode_before_spec, Analytics,
};
use crate::compare::{cmp_count_fewer, cmp_count_more, count_fewer_spec, count_more_spec};
use crate::duration::Duration;
use crate::menu::{Canvas, ModalMenu};
use crate::scenario::{
    builtin_label, builtin_label_spec, population_spec, resolve_spec, Rng, Scenario,
    ScenarioStore, TripMode,
};
use crate::sync::{
    manage_acs, manage_overlays, pair_shown, sync_activates, sync_chosen_after, sync_clears,
    sync_report, sync_shows_hide, Overlays,
};
use crate::text::{str_eq, TextSpan};
use crate::ui::{AgentColorScheme, Ui};

verus! {

/// The settling step applied right after instantiation: a tenth of a
/// simulated second, flushing zero-duration initialization artifacts.
pub const SETTLE_STEP_MICROS: u64 = 100_000;

/// The play style requested for a fresh controller; immutable once chosen.
pub enum GameplayMode {
    Freeform,
    PlayScenario(String),
    OptimizeBus(String),
    CreateGridlock,
    FasterTrips(TripMode),
}

/// An outward request to the enclosing session: keep going, pop this mode,
/// or pop it and replace it with a controller for another mode.
pub enum Transition {
    Pop,
    PopThenReplace(GameplayMode),
}

/// Free exploration; fully functional even without a baseline.
pub struct Freeform {}

/// Scripted playback of a named scenario.
pub struct PlayScenario {
    pub scenario_name: String,
}

/// The bus-route optimization challenge.
pub struct OptimizeBus {
    pub route_name: String,
    pub time: Duration,
}

/// The gridlock-creation challenge.
pub struct CreateGridlock {
    pub time: Duration,
    pub status: TextSpan,
}

/// The trip-speed challenge for one trip mode.
pub struct FasterTrips {
    pub trip_mode: TripMode,
    pub time: Duration,
    pub status: TextSpan,
}

/// The per-mode state, exactly one live instance at a time.
pub enum State {
    Freeform(Freeform),
    PlayScenario(PlayScenario),
    OptimizeBus(OptimizeBus),
    CreateGridlock(CreateGridlock),
    FasterTrips(FasterTrips),
}

impl Freeform {
    /// The freeform menu and state.
    pub fn new() -> (r: (ModalMenu, State))
        ensures
            r.0.labels() == seq!["start a scenario"@, "load another map"@],
            r.0.chosen_label() is None,
            r.0.standalone_layout,
            r.1 is Freeform,
    {
        let menu = ModalMenu::new(
            vec![String::from_str("start a scenario"), String::from_str("load another map")],
        );
        proof {
            assert(menu.labels() =~= seq!["start a scenario"@, "load another map"@]);
        }
        (menu, State::Freeform(Freeform {}))
    }

    /// Per-frame handler: free exploration has no challenge logic of its
    /// own, so the frame always continues in this mode.
    pub fn event(&self, menu: &mut ModalMenu) -> (t: Option<Transition>)
        ensures
            t is None,
            *final(menu) == *old(menu),
    {
        None
    }
}

impl PlayScenario {
    /// The playback menu and state for the named scenario.
    pub fn new(name: &str) -> (r: (ModalMenu, State))
        ensures
            r.0.labels() == seq!["show delay colors"@, "start a scenario"@],
            r.0.chosen_label() is None,
            r.0.standalone_layout,
            r.1 matches State::PlayScenario(p) && p.scenario_name@ == name@,
            pair_shown(r.0, "show delay colors"@, "hide delay colors"@),
    {
        let menu = ModalMenu::new(
            vec![String::from_str("show delay colors"), String::from_str("start a scenario")],
        );
        proof {
            reveal_strlit("show delay colors");
            reveal_strlit("hide delay colors");
            reveal_strlit("start a scenario");
            assert(menu.labels() =~= seq!["show delay colors"@, "start a scenario"@]);
            assert("show delay colors"@[0] == 's');
            assert("hide delay colors"@[0] == 'h');
            assert("start a scenario"@.len() == 16);
            assert("hide delay colors"@.len() == 17);
            assert(menu.labels()[0] == "show delay colors"@);
            assert(menu.has_action("show delay colors"@));
            assert(!menu.has_action("hide delay colors"@));
        }
        (menu, State::PlayScenario(PlayScenario { scenario_name: String::from_str(name) }))
    }

    /// Per-frame handler: keeps the delay color-scheme toggle in sync with
    /// the shared agent color scheme, which other UI paths may also change.
    pub fn event(&self, ui: &mut Ui, menu: &mut ModalMenu) -> (t: Option<Transition>)
        requires
            pair_shown(*old(menu), "show delay colors"@, "hide delay colors"@),
        ensures
            t is None,
            ({
                let active = old(ui).agent_cs == AgentColorScheme::Delay;
                let chosen = old(menu).chosen_label();
                &&& final(menu).chosen_label() == sync_chosen_after(
                    active,
                    chosen,
                    "show delay colors"@,
                    "hide delay colors"@,
                )
                &&& final(menu).has_action("hide delay colors"@) == sync_shows_hide(
                    active,
                    chosen,
                    "show delay colors"@,
                    "hide delay colors"@,
                )
                &&& pair_shown(*final(menu), "show delay colors"@, "hide delay colors"@)
                &&& final(menu).labels().len() == old(menu).labels().len()
                &&& final(menu).standalone_layout == old(menu).standalone_layout
                &&& final(ui).agent_cs == (if sync_activates(
                    active,
                    chosen,
                    "show delay colors"@,
                ) {
                    AgentColorScheme::Delay
                } else if sync_clears(active, chosen, "hide delay colors"@) {
                    AgentColorScheme::VehicleTypes
                } else {
                    old(ui).agent_cs
                })
                &&& final(ui).sim == old(ui).sim
                &&& final(ui).map_name == old(ui).map_name
                &&& final(ui).current_flags == old(ui).current_flags
            }),
    {
        proof {
            reveal_strlit("show delay colors");
            reveal_strlit("hide delay colors");
            assert("show delay colors"@[0] == 's');
            assert("hide delay colors"@[0] == 'h');
        }
        manage_acs(
            menu,
            ui,
            "show delay colors",
            "hide delay colors",
            AgentColorScheme::Delay,
        );
        None
    }
}

impl OptimizeBus {
    /// The bus-optimization menu and state for the named route.
    pub fn new(route_name: &str) -> (r: (ModalMenu, State))
        ensures
            r.0.labels() == seq!["show the bus route"@],
            r.0.chosen_label() is None,
            r.0.standalone_layout,
            r.1 matches State::OptimizeBus(o) && o.route_name@ == route_name@ && o.time.micros
                == 0,
            pair_shown(r.0, "show the bus route"@, "hide the bus route"@),
    {
        let menu = ModalMenu::new(vec![String::from_str("show the bus route")]);
        proof {
            reveal_strlit("show the bus route");
            reveal_strlit("hide the bus route");
            assert(menu.labels() =~= seq!["show the bus route"@]);
            assert("show the bus route"@[0] == 's');
            assert("hide the bus route"@[0] == 'h');
            assert(menu.labels()[0] == "show the bus route"@);
            assert(menu.has_action("show the bus route"@));
            assert(!menu.has_action("hide the bus route"@));
        }
        (
            menu,
            State::OptimizeBus(
                OptimizeBus {
                    route_name: String::from_str(route_name),
                    time: Duration { micros: 0 },
                },
            ),
        )
    }

    /// Per-frame handler: keeps the bus-route overlay toggle in sync with
    /// the overlay state and requests a redraw of an already-active overlay
    /// when the displayed time moved on.
    pub fn event(
        &mut self,
        ui: &Ui,
        overlays: &mut Overlays,
        menu: &mut ModalMenu,
    ) -> (t: Option<Transition>)
        requires
            pair_shown(*old(menu), "show the bus route"@, "hide the bus route"@),
        ensures
            t is None,
            final(self).route_name == old(self).route_name,
            final(self).time == ui.sim.time,
            ({
                let active = *old(overlays) is BusRoute;
                let chosen = old(menu).chosen_label();
                let tc = old(self).time != ui.sim.time;
                &&& final(menu).chosen_label() == sync_chosen_after(
                    active,
                    chosen,
                    "show the bus route"@,
                    "hide the bus route"@,
                )
                &&& final(menu).has_action("hide the bus route"@) == sync_shows_hide(
                    active,
                    chosen,
                    "show the bus route"@,
                    "hide the bus route"@,
                )
                &&& pair_shown(*final(menu), "show the bus route"@, "hide the bus route"@)
                &&& final(menu).labels().len() == old(menu).labels().len()
                &&& final(menu).standalone_layout == old(menu).standalone_layout
                &&& *final(overlays) == (if sync_report(
                    active,
                    chosen,
                    "show the bus route"@,
                    "hide the bus route"@,
                    tc,
                ) {
                    Overlays::BusRoute(old(self).route_name)
                } else if sync_clears(active, chosen, "hide the bus route"@) {
                    Overlays::Inactive
                } else {
                    *old(overlays)
                })
            }),
    {
        let time_changed = self.time.micros != ui.sim.time.micros;
        self.time = ui.sim.time;
        let active = match overlays {
            Overlays::BusRoute(_) => true,
            _ => false,
        };
        proof {
            reveal_strlit("show the bus route");
            reveal_strlit("hide the bus route");
            assert("show the bus route"@[0] == 's');
            assert("hide the bus route"@[0] == 'h');
        }
        let show_route = manage_overlays(
            menu,
            "show the bus route",
            "hide the bus route",
            overlays,
            active,
            time_changed,
        );
        if show_route {
            *overlays = Overlays::BusRoute(self.route_name.clone());
        }
        None
    }
}

impl CreateGridlock {
    /// The gridlock-challenge menu and state.
    pub fn new() -> (r: (ModalMenu, State))
        ensures
            r.0.labels().len() == 0,
            r.0.chosen_label() is None,
            r.0.standalone_layout,
            r.1 matches State::CreateGridlock(g) && g.time.micros == 0,
    {
        let menu = ModalMenu::new(Vec::new());
        (
            menu,
            State::CreateGridlock(
                CreateGridlock { time: Duration { micros: 0 }, status: TextSpan::plain("") },
            ),
        )
    }

    /// Per-frame handler: when the displayed time moved on, recomputes the
    /// finished-trip comparison against the baseline, fewer finished trips
    /// being better for this challenge.
    pub fn event(&mut self, ui: &Ui, prebaked: &Analytics) -> (t: Option<Transition>)
        ensures
            t is None,
            final(self).time == ui.sim.time,
            ({
                let tc = old(self).time != ui.sim.time;
                if tc {
                    final(self).status@ == count_fewer_spec(
                        departed_spec(ui.sim.agents@, ui.sim.time),
                        finished_before_spec(prebaked.finished_trips@, ui.sim.time),
                    )
                } else {
                    final(self).status == old(self).status
                }
            }),
    {
        let time_changed = self.time.micros != ui.sim.time.micros;
        self.time = ui.sim.time;
        if time_changed {
            let live = count_departed(&ui.sim.agents, ui.sim.time);
            let base = prebaked.finished_before(ui.sim.time);
            self.status = cmp_count_fewer(live, base);
        }
        None
    }
}

impl FasterTrips {
    /// The trip-speed menu and state for the filtered trip mode.
    pub fn new(trip_mode: TripMode) -> (r: (ModalMenu, State))
        ensures
            r.0.labels().len() == 0,
            r.0.chosen_label() is None,
            r.0.standalone_layout,
            r.1 matches State::FasterTrips(f) && f.trip_mode == trip_mode && f.time.micros == 0,
    {
        let menu = ModalMenu::new(Vec::new());
        (
            menu,
            State::FasterTrips(
                FasterTrips {
                    trip_mode,
                    time: Duration { micros: 0 },
                    status: TextSpan::plain(""),
                },
            ),
        )
    }

    /// Per-frame handler: when the displayed time moved on, recomputes how
    /// many trips of the filtered mode are under way against the baseline's
    /// finished trips of that mode, more being better.
    pub fn event(&mut self, ui: &Ui, prebaked: &Analytics) -> (t: Option<Transition>)
        ensures
            t is None,
            final(self).time == ui.sim.time,
            final(self).trip_mode == old(self).trip_mode,
            ({
                let tc = old(self).time != ui.sim.time;
                if tc {
                    final(self).status@ == count_more_spec(
                        departed_of_mode_spec(ui.sim.agents@, old(self).trip_mode, ui.sim.time),
                        finished_of_mode_before_spec(
                            prebaked.finished_trips@,
                            old(self).trip_mode,
                            ui.sim.time,
                        ),
                    )
                } else {
                    final(self).status == old(self).status
                }
            }),
    {
        let time_changed = self.time.micros != ui.sim.time.micros;
        self.time = ui.sim.time;
        if time_changed {
            let live = count_departed_of_mode(&ui.sim.agents, self.trip_mode, ui.sim.time);
            let base = prebaked.finished_of_mode_before(self.trip_mode, ui.sim.time);
            self.status = cmp_count_more(live, base);
        }
        None
    }
}

/// The scenario name a mode implies for instantiation, if any: playback
/// carries its own name, every challenge plays the prebaked weekday
/// scenario, and freeform instantiates nothing.
pub open spec fn implied_scenario_name(mode: GameplayMode) -> Option<Seq<char>> {
    match mode {
        GameplayMode::Freeform => None,
        GameplayMode::PlayScenario(name) => Some(name@),
        GameplayMode::OptimizeBus(_) => Some("weekday_typical_traffic_from_psrc"@),
        GameplayMode::CreateGridlock => Some("weekday_typical_traffic_from_psrc"@),
        GameplayMode::FasterTrips(_) => Some("weekday_typical_traffic_from_psrc"@),
    }
}

/// The action labels the fresh menu of each mode carries.
pub open spec fn menu_labels_for(mode: GameplayMode) -> Seq<Seq<char>> {
    match mode {
        GameplayMode::Freeform => seq!["start a scenario"@, "load another map"@],
        GameplayMode::PlayScenario(_) => seq!["show delay colors"@, "start a scenario"@],
        GameplayMode::OptimizeBus(_) => seq!["show the bus route"@],
        GameplayMode::CreateGridlock => Seq::empty(),
        GameplayMode::FasterTrips(_) => Seq::empty(),
    }
}

/// Whether the live state is the variant the mode asks for, carrying the
/// mode's own parameters and a zeroed clock.
pub open spec fn state_matches(mode: GameplayMode, state: State) -> bool {
    match mode {
        GameplayMode::Freeform => state is Freeform,
        GameplayMode::PlayScenario(name) => state matches State::PlayScenario(p)
            && p.scenario_name@ == name@,
        GameplayMode::OptimizeBus(route) => state matches State::OptimizeBus(o) && o.route_name@
            == route@ && o.time.micros == 0,
        GameplayMode::CreateGridlock => state matches State::CreateGridlock(g) && g.time.micros
            == 0,
        GameplayMode::FasterTrips(m) => state matches State::FasterTrips(f) && f.trip_mode == m
            && f.time.micros == 0,
    }
}

/// The controller: the chosen mode, its menu, its state and the baseline.
pub struct GameplayRunner {
    pub mode: GameplayMode,
    pub menu: ModalMenu,
    pub state: State,
    pub prebaked: Analytics,
}

impl GameplayRunner {
    /// The controller's invariant: the menu of a mode that synchronizes a
    /// toggle pair displays exactly one label of that pair.
    pub open spec fn wf(self) -> bool {
        match self.state {
            State::PlayScenario(_) => pair_shown(
                self.menu,
                "show delay colors"@,
                "hide delay colors"@,
            ),
            State::OptimizeBus(_) => pair_shown(
                self.menu,
                "show the bus route"@,
                "hide the bus route"@,
            ),
            _ => true,
        }
    }

    /// Builds the controller for the requested mode.  A missing baseline is
    /// replaced by the empty snapshot, so freeform play works without one.
    /// Every mode but freeform implies a scenario name; it is resolved by
    /// the standard policy and instantiated into the world with the random
    /// source derived from the configured flags, and the world is then
    /// settled by a tenth of a second.  The caller has validated that an
    /// implied stored scenario exists, having enumerated the store.
    pub fn initialize(
        mode: GameplayMode,
        ui: &mut Ui,
        prebaked: Option<Analytics>,
        store: &ScenarioStore,
    ) -> (runner: GameplayRunner)
        requires
            implied_scenario_name(mode) matches Some(name) ==> resolve_spec(
                name,
                old(ui).current_flags.num_agents,
                store@,
            ) is Some && old(ui).sim.time.micros + SETTLE_STEP_MICROS <= u64::MAX,
        ensures
            runner.mode == mode,
            runner.wf(),
            state_matches(mode, runner.state),
            runner.menu.labels() == menu_labels_for(mode),
            runner.menu.chosen_label() is None,
            !runner.menu.standalone_layout,
            (match prebaked {
                Some(a) => runner.prebaked == a,
                None => runner.prebaked.finished_trips@.len() == 0,
            }),
            implied_scenario_name(mode) is None ==> *final(ui) == *old(ui),
            implied_scenario_name(mode) matches Some(name) ==> resolve_spec(
                name,
                old(ui).current_flags.num_agents,
                store@,
            ) matches Some(resolved) && {
                &&& final(ui).sim.agents@ == population_spec(
                    resolved.demand,
                    Rng::seeded_state(old(ui).current_flags.sim_flags.rng_seed),
                )
                &&& final(ui).sim.buses_seeded == resolved.seed_buses
                &&& final(ui).sim.time.micros == old(ui).sim.time.micros + SETTLE_STEP_MICROS
                &&& final(ui).map_name == old(ui).map_name
                &&& final(ui).current_flags == old(ui).current_flags
                &&& final(ui).agent_cs == old(ui).agent_cs
            },
    {
        let prebaked_loaded = match prebaked {
            Some(a) => a,
            None => Analytics::new(),
        };
        let (menu, state, maybe_scenario): (ModalMenu, State, Option<String>) = match &mode {
            GameplayMode::Freeform => {
                let (m, s) = Freeform::new();
                (m, s, None)
            },
            GameplayMode::PlayScenario(name) => {
                let (m, s) = PlayScenario::new(name.as_str());
                (m, s, Some(name.clone()))
            },
            GameplayMode::OptimizeBus(route) => {
                let (m, s) = OptimizeBus::new(route.as_str());
                (m, s, Some(String::from_str("weekday_typical_traffic_from_psrc")))
            },
            GameplayMode::CreateGridlock => {
                let (m, s) = CreateGridlock::new();
                (m, s, Some(String::from_str("weekday_typical_traffic_from_psrc")))
            },
            GameplayMode::FasterTrips(tm) => {
                let (m, s) = FasterTrips::new(*tm);
                (m, s, Some(String::from_str("weekday_typical_traffic_from_psrc")))
            },
        };
        let menu = menu.disable_standalone_layout();
        if let Some(scenario_name) = maybe_scenario {
            let num_agents = ui.current_flags.num_agents;
            let builtin = builtin_label(num_agents);
            let mut rng = Rng::seeded(ui.current_flags.sim_flags.rng_seed);
            if str_eq(scenario_name.as_str(), builtin.as_str()) {
                match num_agents {
                    Some(n) => {
                        let s = Scenario::scaled_run(n);
                        s.instantiate(&mut ui.sim, &mut rng);
                    },
                    None => {
                        let s = Scenario::small_run();
                        s.instantiate(&mut ui.sim, &mut rng);
                    },
                }
            } else if str_eq(scenario_name.as_str(), "just buses") {
                let mut s = Scenario::empty();
                s.scenario_name = String::from_str("just buses");
                s.seed_buses = true;
                proof {
                    assert(s@.demand =~= crate::scenario::just_buses_v().demand);
                }
                s.instantiate(&mut ui.sim, &mut rng);
            } else {
                let found = store.lookup(scenario_name.as_str());
                match found {
                    Some(s) => {
                        s.instantiate(&mut ui.sim, &mut rng);
                    },
                    None => {
                        proof {
                            assert(false);
                        }
                    },
                }
            }
            ui.sim.step(Duration { micros: SETTLE_STEP_MICROS });
        }
        GameplayRunner { mode, menu, state, prebaked: prebaked_loaded }
    }

    /// Routes this frame's input, already consumed into the menu's pending
    /// interaction, to the single active mode's handler, forwarding the
    /// menu, and for the modes that need them, the overlay state and the
    /// baseline.  None means: continue in the current mode.
    pub fn event(&mut self, ui: &mut Ui, overlays: &mut Overlays) -> (t: Option<Transition>)
        requires
            old(self).wf(),
        ensures
            t is None,
            final(self).wf(),
            final(self).mode == old(self).mode,
            final(self).prebaked == old(self).prebaked,
            old(self).state is Freeform ==> final(self).state == old(self).state
                && final(self).menu == old(self).menu && *final(ui) == *old(ui)
                && *final(overlays) == *old(overlays),
            old(self).state is PlayScenario ==> final(self).state == old(self).state
                && *final(overlays) == *old(overlays) && ({
                let active = old(ui).agent_cs == AgentColorScheme::Delay;
                let chosen = old(self).menu.chosen_label();
                &&& final(self).menu.chosen_label() == sync_chosen_after(
                    active,
                    chosen,
                    "show delay colors"@,
                    "hide delay colors"@,
                )
                &&& final(self).menu.has_action("hide delay colors"@) == sync_shows_hide(
                    active,
                    chosen,
                    "show delay colors"@,
                    "hide delay colors"@,
                )
                &&& final(ui).agent_cs == (if sync_activates(
                    active,
                    chosen,
                    "show delay colors"@,
                ) {
                    AgentColorScheme::Delay
                } else if sync_clears(active, chosen, "hide delay colors"@) {
                    AgentColorScheme::VehicleTypes
                } else {
                    old(ui).agent_cs
                })
                &&& final(ui).sim == old(ui).sim
                &&& final(ui).map_name == old(ui).map_name
                &&& final(ui).current_flags == old(ui).current_flags
            }),
            old(self).state matches State::OptimizeBus(o) ==> *final(ui) == *old(ui)
                && (final(self).state matches State::OptimizeBus(o2) && o2.route_name
                == o.route_name && o2.time == old(ui).sim.time && {
                let active = *old(overlays) is BusRoute;
                let chosen = old(self).menu.chosen_label();
                let tc = o.time != old(ui).sim.time;
                &&& final(self).menu.chosen_label() == sync_chosen_after(
                    active,
                    chosen,
                    "show the bus route"@,
                    "hide the bus route"@,
                )
                &&& *final(overlays) == (if sync_report(
                    active,
                    chosen,
                    "show the bus route"@,
                    "hide the bus route"@,
                    tc,
                ) {
                    Overlays::BusRoute(o.route_name)
                } else if sync_clears(active, chosen, "hide the bus route"@) {
                    Overlays::Inactive
                } else {
                    *old(overlays)
                })
            }),
            old(self).state matches State::CreateGridlock(g) ==> *final(ui) == *old(ui)
                && *final(overlays) == *old(overlays) && final(self).menu == old(self).menu
                && (final(self).state matches State::CreateGridlock(g2) && g2.time
                == old(ui).sim.time && (if g.time != old(ui).sim.time {
                g2.status@ == count_fewer_spec(
                    departed_spec(old(ui).sim.agents@, old(ui).sim.time),
                    finished_before_spec(old(self).prebaked.finished_trips@, old(ui).sim.time),
                )
            } else {
                g2.status == g.status
            })),
            old(self).state matches State::FasterTrips(f) ==> *final(ui) == *old(ui)
                && *final(overlays) == *old(overlays) && final(self).menu == old(self).menu
                && (final(self).state matches State::FasterTrips(f2) && f2.trip_mode
                == f.trip_mode && f2.time == old(ui).sim.time && (if f.time != old(ui).sim.time {
                f2.status@ == count_more_spec(
                    departed_of_mode_spec(old(ui).sim.agents@, f.trip_mode, old(ui).sim.time),
                    finished_of_mode_before_spec(
                        old(self).prebaked.finished_trips@,
                        f.trip_mode,
                        old(ui).sim.time,
                    ),
                )
            } else {
                f2.status == f.status
            })),
    {
        match &mut self.state {
            State::Freeform(f) => f.event(&mut self.menu),
            State::PlayScenario(p) => p.event(ui, &mut self.menu),
            State::OptimizeBus(o) => o.event(ui, overlays, &mut self.menu),
            State::CreateGridlock(g) => g.event(ui, &self.prebaked),
            State::FasterTrips(f) => f.event(ui, &self.prebaked),
        }
    }

    /// Renders only the owned menu; everything else is drawn elsewhere.
    pub fn draw(&self, canvas: &mut Canvas)
        ensures
            final(canvas).drawn@ == old(canvas).drawn@ + self.menu.actions@,
    {
        self.menu.draw(canvas);
    }
}

/// The names of a list of strings.
pub open spec fn names_of(v: Seq<String>) -> Seq<Seq<char>> {
    v.map_values(|s: String| s@)
}

/// The given names with every occurrence of `cur` left out, order kept.
pub open spec fn others_than(names: Seq<Seq<char>>, cur: Seq<char>) -> Seq<Seq<char>>
    decreases names.len(),
{
    if names.len() == 0 {
        Seq::empty()
    } else {
        let rest = others_than(names.drop_last(), cur);
        if names.last() == cur {
            rest
        } else {
            rest.push(names.last())
        }
    }
}

/// The scenario choices offered by the picker: every stored name, then the
/// synthesized procedural label, then "just buses".
pub fn scenario_choices(stored: Vec<String>, num_agents: Option<usize>) -> (r: Vec<String>)
    ensures
        r@.len() == stored@.len() + 2,
        forall|i: int| 0 <= i < stored@.len() ==> r@[i] == stored@[i],
        r@[stored@.len() as int]@ == builtin_label_spec(num_agents),
        r@[stored@.len() as int + 1]@ == "just buses"@,
{
    let mut r = stored;
    r.push(builtin_label(num_agents));
    r.push(String::from_str("just buses"));
    r
}

/// Concludes the scenario picker: a chosen name asks the session to replace
/// this mode with a playback controller for it; while the wizard is still
/// open there is nothing to do yet.
pub fn change_scenario(choice: Option<String>) -> (t: Option<Transition>)
    ensures
        (match choice {
            Some(name) => t == Some(
                Transition::PopThenReplace(GameplayMode::PlayScenario(name)),
            ),
            None => t is None,
        }),
{
    match choice {
        Some(name) => Some(Transition::PopThenReplace(GameplayMode::PlayScenario(name))),
        None => None,
    }
}

/// The map choices offered by the picker: every map but the current one.
pub fn map_choices(all: Vec<String>, current: &str) -> (r: Vec<String>)
    ensures
        names_of(r@) == others_than(names_of(all@), current@),
{
    let mut r: Vec<String> = Vec::new();
    let n = all.len();
    let mut i: usize = 0;
    while i < n
        invariant
            n == all@.len(),
            i <= n,
            names_of(r@) == others_than(names_of(all@.take(i as int)), current@),
        decreases n - i,
    {
        proof {
            assert(names_of(all@.take(i + 1)).drop_last() =~= names_of(all@.take(i as int)));
            assert(names_of(all@.take(i + 1)).last() == all@[i as int]@);
        }
        if !str_eq(all[i].as_str(), current) {
            let ghost before = names_of(r@);
            r.push(all[i].clone());
            proof {
                assert(names_of(r@) =~= before.push(all@[i as int]@));
            }
        }
        i += 1;
    }
    proof {
        assert(all@.take(n as int) =~= all@);
    }
    r
}

/// Concludes the map picker: a chosen map asks the session to replace this
/// mode with a freeform controller on it, an aborted wizard pops back, and
/// an open wizard has nothing to do yet.
pub fn load_map(choice: Option<String>, aborted: bool) -> (t: Option<Transition>)
    ensures
        choice is Some ==> t == Some(Transition::PopThenReplace(GameplayMode::Freeform)),
        choice is None && aborted ==> t == Some(Transition::Pop),
        choice is None && !aborted ==> t is None,
{
    match choice {
        Some(_) => Some(Transition::PopThenReplace(GameplayMode::Freeform)),
        None => {
            if aborted {
                Some(Transition::Pop)
            } else {
                None
            }
        },
    }
}

} // verus!
