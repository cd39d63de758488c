//! Scenario resolution and deterministic instantiation.

use gameplay::scenario::{
    builtin_label, Rng, Scenario, ScenarioStore, SimWorld, TripMode,
};

#[test]
fn builtin_label_spells_the_count() {
    assert_eq!(builtin_label(Some(500)).as_str(), "random scenario with 500 agents");
    assert_eq!(builtin_label(None).as_str(), "random scenario with some agents");
}

#[test]
fn scaled_run_has_exactly_the_requested_demand() {
    let s = Scenario::scaled_run(500);
    assert_eq!(s.demand.len(), 500);
    assert!(!s.seed_buses);
    let none = Scenario::scaled_run(0);
    assert_eq!(none.demand.len(), 0);
}

#[test]
fn small_run_has_the_default_demand() {
    let s = Scenario::small_run();
    assert_eq!(s.demand.len(), 100);
}

#[test]
fn instantiation_is_deterministic() {
    let s = Scenario::scaled_run(25);
    let mut w1 = SimWorld::new();
    let mut w2 = SimWorld::new();
    let mut rng1 = Rng::seeded(42);
    let mut rng2 = Rng::seeded(42);
    s.instantiate(&mut w1, &mut rng1);
    s.instantiate(&mut w2, &mut rng2);
    assert_eq!(w1.agents.len(), 25);
    assert_eq!(w1.agents.len(), w2.agents.len());
    for (a, b) in w1.agents.iter().zip(w2.agents.iter()) {
        assert_eq!(a.depart, b.depart);
        assert_eq!(a.mode, b.mode);
    }
    assert_eq!(rng1.state, rng2.state);
}

#[test]
fn different_seeds_make_different_schedules() {
    let s = Scenario::scaled_run(25);
    let mut w1 = SimWorld::new();
    let mut w2 = SimWorld::new();
    let mut rng1 = Rng::seeded(42);
    let mut rng2 = Rng::seeded(43);
    s.instantiate(&mut w1, &mut rng1);
    s.instantiate(&mut w2, &mut rng2);
    assert_eq!(w1.agents.len(), w2.agents.len());
    assert!(w1.agents.iter().zip(w2.agents.iter()).any(|(a, b)| a.depart != b.depart));
}

#[test]
fn instantiation_seeds_buses_only_when_asked() {
    let mut s = Scenario::empty();
    s.seed_buses = true;
    let mut w = SimWorld::new();
    let mut rng = Rng::seeded(7);
    s.instantiate(&mut w, &mut rng);
    assert!(w.buses_seeded);
    assert_eq!(w.agents.len(), 0);

    let plain = Scenario::scaled_run(3);
    let mut w2 = SimWorld::new();
    let mut rng2 = Rng::seeded(7);
    plain.instantiate(&mut w2, &mut rng2);
    assert!(!w2.buses_seeded);
}

#[test]
fn store_lookup_finds_by_name() {
    let mut a = Scenario::empty();
    a.scenario_name = String::from("weekday_typical_traffic_from_psrc");
    let b = Scenario::scaled_run(4);
    let store = ScenarioStore { scenarios: vec![a, b] };
    let hit = store.lookup("weekday_typical_traffic_from_psrc");
    assert!(hit.is_some());
    assert_eq!(hit.unwrap().scenario_name.as_str(), "weekday_typical_traffic_from_psrc");
    assert!(store.lookup("nonexistent").is_none());
    assert!(store.lookup("scaled_run").is_some());
}

#[test]
fn world_step_advances_only_the_clock() {
    let mut w = SimWorld::new();
    let s = Scenario::scaled_run(2);
    let mut rng = Rng::seeded(1);
    s.instantiate(&mut w, &mut rng);
    let before = w.agents.clone();
    w.step(gameplay::duration::Duration { micros: 100_000 });
    assert_eq!(w.time.micros, 100_000);
    assert_eq!(w.agents, before);
}

#[test]
fn drive_is_the_procedural_mode() {
    let s = Scenario::scaled_run(5);
    assert!(s.demand.iter().all(|m| *m == TripMode::Drive));
}
