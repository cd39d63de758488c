//! The toggle synchronizer: activation, deactivation, drift repair and
//! same-frame idempotence, for both the overlay and color-scheme variants.

use gameplay::menu::ModalMenu;
use gameplay::scenario::SimWorld;
use gameplay::sync::{manage_acs, manage_overlays, Overlays};
use gameplay::ui::{AgentColorScheme, Flags, SimFlags, Ui};

fn pair_menu(label: &str) -> ModalMenu {
    ModalMenu::new(vec![String::from(label), String::from("unrelated action")])
}

fn test_ui() -> Ui {
    Ui {
        map_name: String::from("montlake"),
        current_flags: Flags { num_agents: None, sim_flags: SimFlags { rng_seed: 42 } },
        sim: SimWorld::new(),
        agent_cs: AgentColorScheme::VehicleTypes,
    }
}

#[test]
fn activation_is_reported_once_and_is_not_a_deactivation() {
    let mut menu = pair_menu("show layer");
    let mut overlay = Overlays::Inactive;
    menu.event(Some(String::from("show layer")));
    let r = manage_overlays(&mut menu, "show layer", "hide layer", &mut overlay, false, false);
    assert!(r);
    assert!(matches!(overlay, Overlays::Inactive));
    assert!(menu.actions.iter().any(|a| a == "hide layer"));
    assert!(menu.chosen.is_none());
}

#[test]
fn second_call_in_same_frame_changes_nothing() {
    let mut menu = pair_menu("show layer");
    let mut overlay = Overlays::Inactive;
    menu.event(Some(String::from("show layer")));
    let first = manage_overlays(&mut menu, "show layer", "hide layer", &mut overlay, false, false);
    assert!(first);
    let second = manage_overlays(&mut menu, "show layer", "hide layer", &mut overlay, false, false);
    assert!(!second);
    assert!(matches!(overlay, Overlays::Inactive));
    let third = manage_overlays(&mut menu, "show layer", "hide layer", &mut overlay, false, false);
    assert_eq!(second, third);
}

#[test]
fn deactivation_resets_the_overlay() {
    let mut menu = pair_menu("hide layer");
    let mut overlay = Overlays::BusRoute(String::from("route 48"));
    menu.event(Some(String::from("hide layer")));
    let r = manage_overlays(&mut menu, "show layer", "hide layer", &mut overlay, true, true);
    assert!(!r);
    assert!(matches!(overlay, Overlays::Inactive));
    assert!(menu.actions.iter().any(|a| a == "show layer"));
}

#[test]
fn drift_is_repaired_without_a_toggle() {
    // The flag was turned on by another UI path while the menu still shows
    // the show label: the pass realigns the label and only reports the
    // refresh signal.
    let mut menu = pair_menu("show layer");
    let mut overlay = Overlays::FinishedTripsHistogram;
    let r = manage_overlays(&mut menu, "show layer", "hide layer", &mut overlay, true, false);
    assert!(!r);
    assert!(menu.actions.iter().any(|a| a == "hide layer"));
    assert!(!menu.actions.iter().any(|a| a == "show layer"));
    assert!(matches!(overlay, Overlays::FinishedTripsHistogram));
}

#[test]
fn active_overlay_refreshes_when_time_changed() {
    let mut menu = pair_menu("hide layer");
    let mut overlay = Overlays::FinishedTripsHistogram;
    let r = manage_overlays(&mut menu, "show layer", "hide layer", &mut overlay, true, true);
    assert!(r);
    assert!(matches!(overlay, Overlays::FinishedTripsHistogram));
}

#[test]
fn color_scheme_activation_assigns_the_scheme() {
    let mut menu = pair_menu("show delays");
    let mut ui = test_ui();
    menu.event(Some(String::from("show delays")));
    manage_acs(&mut menu, &mut ui, "show delays", "hide delays", AgentColorScheme::Delay);
    assert_eq!(ui.agent_cs, AgentColorScheme::Delay);
    assert!(menu.actions.iter().any(|a| a == "hide delays"));
}

#[test]
fn color_scheme_deactivation_restores_the_default() {
    let mut menu = pair_menu("hide delays");
    let mut ui = test_ui();
    ui.agent_cs = AgentColorScheme::Delay;
    menu.event(Some(String::from("hide delays")));
    manage_acs(&mut menu, &mut ui, "show delays", "hide delays", AgentColorScheme::Delay);
    assert_eq!(ui.agent_cs, AgentColorScheme::VehicleTypes);
    assert!(menu.actions.iter().any(|a| a == "show delays"));
}

#[test]
fn color_scheme_second_call_is_idempotent() {
    let mut menu = pair_menu("show delays");
    let mut ui = test_ui();
    menu.event(Some(String::from("show delays")));
    manage_acs(&mut menu, &mut ui, "show delays", "hide delays", AgentColorScheme::Delay);
    assert_eq!(ui.agent_cs, AgentColorScheme::Delay);
    manage_acs(&mut menu, &mut ui, "show delays", "hide delays", AgentColorScheme::Delay);
    assert_eq!(ui.agent_cs, AgentColorScheme::Delay);
    assert!(menu.actions.iter().any(|a| a == "hide delays"));
}

#[test]
fn unrelated_interaction_is_left_pending() {
    let mut menu = pair_menu("show layer");
    let mut overlay = Overlays::Inactive;
    menu.event(Some(String::from("unrelated action")));
    let r = manage_overlays(&mut menu, "show layer", "hide layer", &mut overlay, false, true);
    assert!(!r);
    assert_eq!(menu.chosen.as_deref(), Some("unrelated action"));
    assert!(menu.actions.iter().any(|a| a == "unrelated action"));
}
