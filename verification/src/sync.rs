//! The toggle synchronizer: keeps a menu's show/hide label pair consistent
//! with a piece of external boolean state that other UI paths may also
//! change, and reports whether the user requested activation this frame.

use vstd::prelude::*;
use crate::menu::{lemma_rename_has, ModalMenu};
use crate::ui::{AgentColorScheme, Ui};

verus! {

/// An optional data layer drawn over the map, toggled independently of the
/// active mode.
pub enum Overlays {
    Inactive,
    BusRoute(String),
    BusDelays(String),
    FinishedTripsHistogram,
}

/// Whether the menu displays exactly one label of the show/hide pair.
pub open spec fn pair_shown(m: ModalMenu, show: Seq<char>, hide: Seq<char>) -> bool {
    m.has_action(show) <==> !m.has_action(hide)
}

/// The user requested activation: the state was inactive and this frame's
/// interaction is the show label.
pub open spec fn sync_activates(active: bool, chosen: Option<Seq<char>>, show: Seq<char>) -> bool {
    !active && chosen == Some(show)
}

/// The user requested deactivation: the state was active and this frame's
/// interaction is the hide label.
pub open spec fn sync_clears(active: bool, chosen: Option<Seq<char>>, hide: Seq<char>) -> bool {
    active && chosen == Some(hide)
}

/// What one synchronizer pass reports: activation, never on a deactivation,
/// and otherwise the continuous-refresh signal.
pub open spec fn sync_report(
    active: bool,
    chosen: Option<Seq<char>>,
    show: Seq<char>,
    hide: Seq<char>,
    time_changed: bool,
) -> bool {
    if sync_activates(active, chosen, show) {
        true
    } else if sync_clears(active, chosen, hide) {
        false
    } else {
        active && time_changed
    }
}

/// The pending interaction left after one pass: a consumed toggle, or the
/// original interaction untouched.
pub open spec fn sync_chosen_after(
    active: bool,
    chosen: Option<Seq<char>>,
    show: Seq<char>,
    hide: Seq<char>,
) -> Option<Seq<char>> {
    if sync_activates(active, chosen, show) || sync_clears(active, chosen, hide) {
        None
    } else {
        chosen
    }
}

/// Whether the menu displays the hide label after one pass; this always
/// matches the external state the caller ends the frame with.
pub open spec fn sync_shows_hide(
    active: bool,
    chosen: Option<Seq<char>>,
    show: Seq<char>,
    hide: Seq<char>,
) -> bool {
    if sync_activates(active, chosen, show) {
        true
    } else if sync_clears(active, chosen, hide) {
        false
    } else {
        active
    }
}

enum ToggleOutcome {
    Activated,
    Cleared,
    Untouched,
}

/// One synchronizer pass over the menu alone: realigns the pair with the
/// external state, then consumes this frame's toggle if there is one.
fn sync_pair(menu: &mut ModalMenu, show: &str, hide: &str, active: bool) -> (o: ToggleOutcome)
    requires
        show@ != hide@,
        pair_shown(*old(menu), show@, hide@),
    ensures
        (o is Activated) == sync_activates(active, old(menu).chosen_label(), show@),
        (o is Cleared) == sync_clears(active, old(menu).chosen_label(), hide@),
        final(menu).chosen_label() == sync_chosen_after(
            active,
            old(menu).chosen_label(),
            show@,
            hide@,
        ),
        final(menu).has_action(hide@) == sync_shows_hide(
            active,
            old(menu).chosen_label(),
            show@,
            hide@,
        ),
        pair_shown(*final(menu), show@, hide@),
        final(menu).labels().len() == old(menu).labels().len(),
        forall|j: int|
            0 <= j < old(menu).labels().len() && old(menu).labels()[j] != show@ && old(
                menu,
            ).labels()[j] != hide@ ==> final(menu).labels()[j] == old(menu).labels()[j],
        final(menu).standalone_layout == old(menu).standalone_layout,
{
    if active {
        menu.maybe_change_action(show, hide);
    } else {
        menu.maybe_change_action(hide, show);
    }
    let ghost m1 = *menu;
    proof {
        if active {
            lemma_rename_has(old(menu).labels(), m1.labels(), show@, hide@);
        } else {
            lemma_rename_has(old(menu).labels(), m1.labels(), hide@, show@);
        }
    }
    if !active {
        if menu.swap_action(show, hide) {
            proof {
                lemma_rename_has(m1.labels(), menu.labels(), show@, hide@);
                assert forall|j: int|
                    0 <= j < old(menu).labels().len() && old(menu).labels()[j] != show@ && old(
                        menu,
                    ).labels()[j] != hide@ implies menu.labels()[j] == old(menu).labels()[j] by {
                    assert(m1.labels()[j] == old(menu).labels()[j]);
                }
            }
            return ToggleOutcome::Activated;
        }
    } else {
        if menu.swap_action(hide, show) {
            proof {
                lemma_rename_has(m1.labels(), menu.labels(), hide@, show@);
                assert forall|j: int|
                    0 <= j < old(menu).labels().len() && old(menu).labels()[j] != show@ && old(
                        menu,
                    ).labels()[j] != hide@ implies menu.labels()[j] == old(menu).labels()[j] by {
                    assert(m1.labels()[j] == old(menu).labels()[j]);
                }
            }
            return ToggleOutcome::Cleared;
        }
    }
    proof {
        assert forall|j: int|
            0 <= j < old(menu).labels().len() && old(menu).labels()[j] != show@ && old(
                menu,
            ).labels()[j] != hide@ implies menu.labels()[j] == old(menu).labels()[j] by {
            assert(m1.labels()[j] == old(menu).labels()[j]);
        }
    }
    ToggleOutcome::Untouched
}

/// Reconciles the show/hide pair with an overlay that other UI paths may
/// also change.  Reports true when the caller should switch the overlay to
/// this mode's custom layer: on an explicit activation, or when the layer is
/// already active and the displayed time moved on.  A deactivation resets
/// the overlay to the inactive sentinel here.  Call only after the menu's
/// own per-frame input processing has run.
pub fn manage_overlays(
    menu: &mut ModalMenu,
    show: &str,
    hide: &str,
    overlay: &mut Overlays,
    active_originally: bool,
    time_changed: bool,
) -> (r: bool)
    requires
        show@ != hide@,
        pair_shown(*old(menu), show@, hide@),
    ensures
        r == sync_report(active_originally, old(menu).chosen_label(), show@, hide@, time_changed),
        final(menu).chosen_label() == sync_chosen_after(
            active_originally,
            old(menu).chosen_label(),
            show@,
            hide@,
        ),
        final(menu).has_action(hide@) == sync_shows_hide(
            active_originally,
            old(menu).chosen_label(),
            show@,
            hide@,
        ),
        pair_shown(*final(menu), show@, hide@),
        final(menu).labels().len() == old(menu).labels().len(),
        forall|j: int|
            0 <= j < old(menu).labels().len() && old(menu).labels()[j] != show@ && old(
                menu,
            ).labels()[j] != hide@ ==> final(menu).labels()[j] == old(menu).labels()[j],
        final(menu).standalone_layout == old(menu).standalone_layout,
        *final(overlay) == (if sync_clears(active_originally, old(menu).chosen_label(), hide@) {
            Overlays::Inactive
        } else {
            *old(overlay)
        }),
{
    let o = sync_pair(menu, show, hide, active_originally);
    match o {
        ToggleOutcome::Activated => true,
        ToggleOutcome::Cleared => {
            *overlay = Overlays::Inactive;
            false
        },
        ToggleOutcome::Untouched => active_originally && time_changed,
    }
}

/// Reconciles the show/hide pair with the shared agent color scheme, which
/// other UI paths may also change.  Unlike the overlay variant, the
/// synchronizer performs the mutation itself: an activation assigns this
/// mode's scheme, a deactivation resets to the default vehicle-type scheme.
/// Call only after the menu's own per-frame input processing has run.
pub fn manage_acs(
    menu: &mut ModalMenu,
    ui: &mut Ui,
    show: &str,
    hide: &str,
    acs: AgentColorScheme,
)
    requires
        show@ != hide@,
        pair_shown(*old(menu), show@, hide@),
    ensures
        final(menu).chosen_label() == sync_chosen_after(
            old(ui).agent_cs == acs,
            old(menu).chosen_label(),
            show@,
            hide@,
        ),
        final(menu).has_action(hide@) == sync_shows_hide(
            old(ui).agent_cs == acs,
            old(menu).chosen_label(),
            show@,
            hide@,
        ),
        pair_shown(*final(menu), show@, hide@),
        final(menu).labels().len() == old(menu).labels().len(),
        forall|j: int|
            0 <= j < old(menu).labels().len() && old(menu).labels()[j] != show@ && old(
                menu,
            ).labels()[j] != hide@ ==> final(menu).labels()[j] == old(menu).labels()[j],
        final(menu).standalone_layout == old(menu).standalone_layout,
        final(ui).agent_cs == (if sync_activates(
            old(ui).agent_cs == acs,
            old(menu).chosen_label(),
            show@,
        ) {
            acs
        } else if sync_clears(old(ui).agent_cs == acs, old(menu).chosen_label(), hide@) {
            AgentColorScheme::VehicleTypes
        } else {
            old(ui).agent_cs
        }),
        final(ui).map_name == old(ui).map_name,
        final(ui).current_flags == old(ui).current_flags,
        final(ui).sim == old(ui).sim,
{
    let active = ui.agent_cs == acs;
    let o = sync_pair(menu, show, hide, active);
    match o {
        ToggleOutcome::Activated => {
            ui.agent_cs = acs;
        },
        ToggleOutcome::Cleared => {
            ui.agent_cs = AgentColorScheme::VehicleTypes;
        },
        ToggleOutcome::Untouched => {},
    }
}

/// Running the synchronizer a second time in the same frame, with no new
/// menu interaction in between, requests no activation, clears nothing, and
/// reports only the continuous-refresh signal: the external flag and the
/// pending interaction are left exactly as the first pass left them.
pub proof fn lemma_sync_idempotent(
    active: bool,
    chosen: Option<Seq<char>>,
    show: Seq<char>,
    hide: Seq<char>,
    time_changed: bool,
)
    requires
        show != hide,
    ensures
        ({
            let chosen2 = sync_chosen_after(active, chosen, show, hide);
            let active2 = active && !sync_clears(active, chosen, hide);
            &&& !sync_activates(active2, chosen2, show)
            &&& !sync_clears(active2, chosen2, hide)
            &&& sync_report(active2, chosen2, show, hide, time_changed) == (active2
                && time_changed)
            &&& sync_chosen_after(active2, chosen2, show, hide) == chosen2
        }),
{
}

/// A same-frame show-to-hide swap from the inactive state reports activation
/// exactly once: the pass reports true, performs no deactivation, and
/// consumes the interaction so no later pass can report it again.
pub proof fn lemma_sync_activate_once(
    chosen: Option<Seq<char>>,
    show: Seq<char>,
    hide: Seq<char>,
    time_changed: bool,
)
    requires
        show != hide,
        chosen == Some(show),
    ensures
        sync_report(false, chosen, show, hide, time_changed),
        !sync_clears(false, chosen, hide),
        sync_chosen_after(false, chosen, show, hide) is None,
{
}

} // verus!
