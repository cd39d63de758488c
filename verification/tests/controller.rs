//! End-to-end controller behavior: initialization per mode, per-frame event
//! dispatch, and the picker helpers.

use gameplay::analytics::Analytics;
use gameplay::duration::Duration;
use gameplay::menu::Canvas;
use gameplay::runner::{
    change_scenario, load_map, map_choices, scenario_choices, GameplayMode, GameplayRunner,
    State, Transition,
};
use gameplay::scenario::{Scenario, ScenarioStore, SimWorld, TripMode};
use gameplay::sync::Overlays;
use gameplay::text::TextColor;
use gameplay::ui::{AgentColorScheme, Flags, SimFlags, Ui};

fn test_ui(num_agents: Option<usize>) -> Ui {
    Ui {
        map_name: String::from("montlake"),
        current_flags: Flags { num_agents, sim_flags: SimFlags { rng_seed: 42 } },
        sim: SimWorld::new(),
        agent_cs: AgentColorScheme::VehicleTypes,
    }
}

fn weekday_store(demand: usize) -> ScenarioStore {
    let mut s = Scenario::scaled_run(demand);
    s.scenario_name = String::from("weekday_typical_traffic_from_psrc");
    ScenarioStore { scenarios: vec![s] }
}

#[test]
fn freeform_skips_resolution_and_tolerates_missing_baseline() {
    let mut ui = test_ui(Some(500));
    let store = ScenarioStore { scenarios: vec![] };
    let runner = GameplayRunner::initialize(GameplayMode::Freeform, &mut ui, None, &store);
    assert!(matches!(runner.mode, GameplayMode::Freeform));
    assert!(matches!(runner.state, State::Freeform(_)));
    assert_eq!(ui.sim.agents.len(), 0);
    assert_eq!(ui.sim.time.micros, 0);
    assert!(!ui.sim.buses_seeded);
    assert_eq!(runner.prebaked.finished_trips.len(), 0);
    assert!(!runner.menu.standalone_layout);
}

#[test]
fn just_buses_is_empty_with_buses_regardless_of_count() {
    let mut ui = test_ui(Some(500));
    let store = ScenarioStore { scenarios: vec![] };
    let runner = GameplayRunner::initialize(
        GameplayMode::PlayScenario(String::from("just buses")),
        &mut ui,
        None,
        &store,
    );
    assert!(matches!(runner.state, State::PlayScenario(_)));
    assert_eq!(ui.sim.agents.len(), 0);
    assert!(ui.sim.buses_seeded);
    assert_eq!(ui.sim.time.micros, 100_000);

    let mut ui2 = test_ui(None);
    let runner2 = GameplayRunner::initialize(
        GameplayMode::PlayScenario(String::from("just buses")),
        &mut ui2,
        None,
        &store,
    );
    assert_eq!(ui2.sim.agents.len(), 0);
    assert!(ui2.sim.buses_seeded);
    assert!(matches!(runner2.mode, GameplayMode::PlayScenario(_)));
}

#[test]
fn builtin_label_with_count_spawns_exactly_that_many() {
    let mut ui = test_ui(Some(500));
    let store = ScenarioStore { scenarios: vec![] };
    GameplayRunner::initialize(
        GameplayMode::PlayScenario(String::from("random scenario with 500 agents")),
        &mut ui,
        None,
        &store,
    );
    assert_eq!(ui.sim.agents.len(), 500);
    assert_eq!(ui.sim.time.micros, 100_000);
    assert!(!ui.sim.buses_seeded);
}

#[test]
fn builtin_label_without_count_spawns_the_default() {
    let mut ui = test_ui(None);
    let store = ScenarioStore { scenarios: vec![] };
    GameplayRunner::initialize(
        GameplayMode::PlayScenario(String::from("random scenario with some agents")),
        &mut ui,
        None,
        &store,
    );
    assert_eq!(ui.sim.agents.len(), 100);
}

#[test]
fn the_configured_count_gates_the_label() {
    // With a configured count, the unscaled wording is not the synthesized
    // label, so it goes to the store instead.
    let mut ui = test_ui(Some(500));
    let mut stored = Scenario::scaled_run(3);
    stored.scenario_name = String::from("random scenario with some agents");
    let store = ScenarioStore { scenarios: vec![stored] };
    GameplayRunner::initialize(
        GameplayMode::PlayScenario(String::from("random scenario with some agents")),
        &mut ui,
        None,
        &store,
    );
    assert_eq!(ui.sim.agents.len(), 3);
}

#[test]
fn challenge_modes_play_the_stored_weekday_scenario() {
    let mut ui = test_ui(None);
    let store = weekday_store(7);
    let runner = GameplayRunner::initialize(GameplayMode::CreateGridlock, &mut ui, None, &store);
    assert!(matches!(runner.state, State::CreateGridlock(_)));
    assert_eq!(ui.sim.agents.len(), 7);
    assert_eq!(ui.sim.time.micros, 100_000);
}

#[test]
fn baseline_is_kept_when_present() {
    let mut ui = test_ui(None);
    let store = ScenarioStore { scenarios: vec![] };
    let prebaked = Analytics {
        finished_trips: vec![(Duration { micros: 50_000 }, TripMode::Drive)],
    };
    let runner =
        GameplayRunner::initialize(GameplayMode::Freeform, &mut ui, Some(prebaked), &store);
    assert_eq!(runner.prebaked.finished_trips.len(), 1);
}

#[test]
fn optimize_bus_toggle_drives_the_overlay() {
    let mut ui = test_ui(None);
    let store = weekday_store(0);
    let mut runner = GameplayRunner::initialize(
        GameplayMode::OptimizeBus(String::from("route 48")),
        &mut ui,
        None,
        &store,
    );
    let mut overlays = Overlays::Inactive;

    runner.menu.event(Some(String::from("show the bus route")));
    let t = runner.event(&mut ui, &mut overlays);
    assert!(t.is_none());
    match &overlays {
        Overlays::BusRoute(route) => assert_eq!(route.as_str(), "route 48"),
        _ => panic!("expected the bus route overlay"),
    }
    assert!(runner.menu.actions.iter().any(|a| a == "hide the bus route"));

    // A second frame with no interaction and no time change leaves it alone.
    runner.menu.event(None);
    runner.event(&mut ui, &mut overlays);
    assert!(matches!(overlays, Overlays::BusRoute(_)));

    // Hiding resets the overlay to the inactive sentinel.
    runner.menu.event(Some(String::from("hide the bus route")));
    runner.event(&mut ui, &mut overlays);
    assert!(matches!(overlays, Overlays::Inactive));
    assert!(runner.menu.actions.iter().any(|a| a == "show the bus route"));
}

#[test]
fn gridlock_status_compares_fewer_finished_trips() {
    let mut ui = test_ui(None);
    let store = weekday_store(0);
    let prebaked = Analytics {
        finished_trips: vec![
            (Duration { micros: 40_000 }, TripMode::Drive),
            (Duration { micros: 90_000 }, TripMode::Walk),
            (Duration { micros: 900_000 }, TripMode::Drive),
        ],
    };
    let mut runner =
        GameplayRunner::initialize(GameplayMode::CreateGridlock, &mut ui, Some(prebaked), &store);
    let mut overlays = Overlays::Inactive;
    runner.menu.event(None);
    let t = runner.event(&mut ui, &mut overlays);
    assert!(t.is_none());
    match &runner.state {
        State::CreateGridlock(g) => {
            assert_eq!(g.time.micros, 100_000);
            // No live agent departed, two baseline trips finished by 0.1s.
            assert_eq!(g.status.text.as_str(), "2 fewer");
            assert_eq!(g.status.color, TextColor::Good);
        },
        _ => panic!("expected the gridlock state"),
    }
}

#[test]
fn faster_trips_status_filters_by_mode() {
    let mut ui = test_ui(None);
    let store = weekday_store(0);
    let prebaked = Analytics {
        finished_trips: vec![
            (Duration { micros: 40_000 }, TripMode::Drive),
            (Duration { micros: 50_000 }, TripMode::Walk),
        ],
    };
    let mut runner = GameplayRunner::initialize(
        GameplayMode::FasterTrips(TripMode::Drive),
        &mut ui,
        Some(prebaked),
        &store,
    );
    let mut overlays = Overlays::Inactive;
    runner.menu.event(None);
    runner.event(&mut ui, &mut overlays);
    match &runner.state {
        State::FasterTrips(f) => {
            assert_eq!(f.trip_mode, TripMode::Drive);
            // Only the baseline Drive trip counts, so the live run is behind.
            assert_eq!(f.status.text.as_str(), "1 fewer");
            assert_eq!(f.status.color, TextColor::Bad);
        },
        _ => panic!("expected the faster-trips state"),
    }
}

#[test]
fn freeform_event_changes_nothing() {
    let mut ui = test_ui(None);
    let store = ScenarioStore { scenarios: vec![] };
    let mut runner = GameplayRunner::initialize(GameplayMode::Freeform, &mut ui, None, &store);
    let mut overlays = Overlays::Inactive;
    runner.menu.event(None);
    let t = runner.event(&mut ui, &mut overlays);
    assert!(t.is_none());
    assert!(matches!(overlays, Overlays::Inactive));
    assert_eq!(ui.sim.agents.len(), 0);
}

#[test]
fn play_scenario_event_syncs_the_color_scheme() {
    let mut ui = test_ui(None);
    let store = ScenarioStore { scenarios: vec![] };
    let mut runner = GameplayRunner::initialize(
        GameplayMode::PlayScenario(String::from("just buses")),
        &mut ui,
        None,
        &store,
    );
    let mut overlays = Overlays::Inactive;
    runner.menu.event(Some(String::from("show delay colors")));
    let t = runner.event(&mut ui, &mut overlays);
    assert!(t.is_none());
    assert_eq!(ui.agent_cs, AgentColorScheme::Delay);
    assert!(runner.menu.actions.iter().any(|a| a == "hide delay colors"));
}

#[test]
fn draw_renders_only_the_menu() {
    let mut ui = test_ui(None);
    let store = ScenarioStore { scenarios: vec![] };
    let runner = GameplayRunner::initialize(GameplayMode::Freeform, &mut ui, None, &store);
    let mut canvas = Canvas { drawn: vec![] };
    runner.draw(&mut canvas);
    assert_eq!(canvas.drawn.len(), 2);
    assert_eq!(canvas.drawn[0].as_str(), "start a scenario");
    assert_eq!(canvas.drawn[1].as_str(), "load another map");
}

#[test]
fn scenario_picker_offers_stored_then_synthesized_names() {
    let stored = vec![String::from("weekday_typical_traffic_from_psrc")];
    let choices = scenario_choices(stored, Some(500));
    assert_eq!(choices.len(), 3);
    assert_eq!(choices[0].as_str(), "weekday_typical_traffic_from_psrc");
    assert_eq!(choices[1].as_str(), "random scenario with 500 agents");
    assert_eq!(choices[2].as_str(), "just buses");
}

#[test]
fn scenario_picker_outcome_replaces_the_mode() {
    let t = change_scenario(Some(String::from("just buses")));
    match t {
        Some(Transition::PopThenReplace(GameplayMode::PlayScenario(name))) => {
            assert_eq!(name.as_str(), "just buses");
        },
        _ => panic!("expected a pop-then-replace into playback"),
    }
    assert!(change_scenario(None).is_none());
}

#[test]
fn map_picker_filters_the_current_map() {
    let all = vec![
        String::from("montlake"),
        String::from("downtown"),
        String::from("ballard"),
    ];
    let choices = map_choices(all, "downtown");
    assert_eq!(choices.len(), 2);
    assert_eq!(choices[0].as_str(), "montlake");
    assert_eq!(choices[1].as_str(), "ballard");
}

#[test]
fn map_picker_outcome() {
    assert!(matches!(
        load_map(Some(String::from("ballard")), false),
        Some(Transition::PopThenReplace(GameplayMode::Freeform))
    ));
    assert!(matches!(load_map(None, true), Some(Transition::Pop)));
    assert!(load_map(None, false).is_none());
}
