//! A model of the per-mode modal menu: a list of action labels plus the one
//! action the user triggered this frame, not yet consumed.  Renaming and
//! consuming are the two operations the toggle synchronizer sequences.

use vstd::prelude::*;
use vstd::string::*;
use crate::text::str_eq;

verus! {

/// What a label click handed to `event` looks like at the spec level.
pub open spec fn opt_label(o: Option<String>) -> Option<Seq<char>> {
    match o {
        Some(c) => Some(c@),
        None => None,
    }
}

/// A modal menu owned by the active gameplay mode.
pub struct ModalMenu {
    pub actions: Vec<String>,
    pub chosen: Option<String>,
    pub standalone_layout: bool,
}

/// A surface that accumulates what has been drawn onto it.
pub struct Canvas {
    pub drawn: Vec<String>,
}

impl ModalMenu {
    /// The menu's action labels, as character sequences.
    pub open spec fn labels(self) -> Seq<Seq<char>> {
        self.actions@.map_values(|s: String| s@)
    }

    /// Whether some action carries the given label.
    pub open spec fn has_action(self, l: Seq<char>) -> bool {
        self.labels().contains(l)
    }

    /// This frame's not-yet-consumed interaction, if any.
    pub open spec fn chosen_label(self) -> Option<Seq<char>> {
        opt_label(self.chosen)
    }

    /// A fresh menu over the given actions, laid out standalone and with no
    /// pending interaction.
    pub fn new(actions: Vec<String>) -> (m: ModalMenu)
        ensures
            m.actions == actions,
            m.chosen_label() is None,
            m.standalone_layout,
    {
        ModalMenu { actions, chosen: None, standalone_layout: true }
    }

    /// The same menu, to be rendered by an enclosing UI rather than on its
    /// own.
    pub fn disable_standalone_layout(self) -> (m: ModalMenu)
        ensures
            m.actions == self.actions,
            m.chosen == self.chosen,
            !m.standalone_layout,
    {
        ModalMenu { standalone_layout: false, ..self }
    }

    /// Records this frame's input: which action, if any, the user triggered.
    pub fn event(&mut self, clicked: Option<String>)
        ensures
            final(self).actions == old(self).actions,
            final(self).standalone_layout == old(self).standalone_layout,
            final(self).chosen_label() == opt_label(clicked),
    {
        self.chosen = clicked;
    }

    /// Consumes this frame's interaction when it names the given action.
    pub fn action(&mut self, name: &str) -> (r: bool)
        ensures
            r == (old(self).chosen_label() == Some(name@)),
            final(self).actions == old(self).actions,
            final(self).standalone_layout == old(self).standalone_layout,
            final(self).chosen == (if r {
                None::<String>
            } else {
                old(self).chosen
            }),
    {
        let hit = match &self.chosen {
            Some(c) => str_eq(c.as_str(), name),
            None => false,
        };
        if hit {
            self.chosen = None;
        }
        hit
    }

    /// Renames the action labelled `from` to `to`, wherever it occurs; every
    /// other label keeps its place.  The caller keeps `to` out of the menu
    /// while `from` is in it, so no label is ever duplicated by the rename.
    pub fn maybe_change_action(&mut self, from: &str, to: &str)
        requires
            from@ == to@ || !(old(self).has_action(from@) && old(self).has_action(to@)),
        ensures
            final(self).labels().len() == old(self).labels().len(),
            forall|j: int|
                0 <= j < old(self).labels().len() ==> final(self).labels()[j] == (if old(
                    self,
                ).labels()[j] == from@ {
                    to@
                } else {
                    old(self).labels()[j]
                }),
            final(self).chosen == old(self).chosen,
            final(self).standalone_layout == old(self).standalone_layout,
    {
        let n = self.actions.len();
        let mut i: usize = 0;
        while i < n
            invariant
                n == self.actions@.len(),
                old(self).actions@.len() == n,
                i <= n,
                self.chosen == old(self).chosen,
                self.standalone_layout == old(self).standalone_layout,
                forall|j: int|
                    0 <= j < i ==> self.actions@[j]@ == (if old(self).actions@[j]@ == from@ {
                        to@
                    } else {
                        old(self).actions@[j]@
                    }),
                forall|j: int| i <= j < n ==> self.actions@[j] == old(self).actions@[j],
            decreases n - i,
        {
            if str_eq(self.actions[i].as_str(), from) {
                self.actions.set(i, String::from_str(to));
            }
            i += 1;
        }
    }

    /// When this frame's interaction is the action labelled `from`, consumes
    /// it, renames the action to `to` and reports true; otherwise leaves the
    /// menu as it is.
    pub fn swap_action(&mut self, from: &str, to: &str) -> (r: bool)
        requires
            from@ == to@ || !(old(self).has_action(from@) && old(self).has_action(to@)),
        ensures
            r == (old(self).chosen_label() == Some(from@)),
            final(self).standalone_layout == old(self).standalone_layout,
            final(self).labels().len() == old(self).labels().len(),
            if r {
                final(self).chosen_label() is None && forall|j: int|
                    0 <= j < old(self).labels().len() ==> final(self).labels()[j] == (if old(
                        self,
                    ).labels()[j] == from@ {
                        to@
                    } else {
                        old(self).labels()[j]
                    })
            } else {
                *final(self) == *old(self)
            },
    {
        if self.action(from) {
            self.maybe_change_action(from, to);
            true
        } else {
            false
        }
    }

    /// Renders the menu by handing each action label to the canvas.
    pub fn draw(&self, canvas: &mut Canvas)
        ensures
            final(canvas).drawn@ == old(canvas).drawn@ + self.actions@,
    {
        let n = self.actions.len();
        let mut i: usize = 0;
        while i < n
            invariant
                n == self.actions@.len(),
                i <= n,
                canvas.drawn@ == old(canvas).drawn@ + self.actions@.take(i as int),
            decreases n - i,
        {
            let label = self.actions[i].clone();
            canvas.drawn.push(label);
            proof {
                assert(old(canvas).drawn@ + self.actions@.take(i + 1) =~= (old(canvas).drawn@
                    + self.actions@.take(i as int)).push(self.actions@[i as int]));
            }
            i += 1;
        }
        proof {
            assert(self.actions@.take(n as int) =~= self.actions@);
        }
    }
}

/// How label presence changes under a rename of `from` to `to`: `to` is
/// present afterwards exactly when either label was present before, `from` is
/// gone, and every unrelated label is untouched.
pub proof fn lemma_rename_has(
    old_labels: Seq<Seq<char>>,
    new_labels: Seq<Seq<char>>,
    from: Seq<char>,
    to: Seq<char>,
)
    requires
        from != to,
        new_labels.len() == old_labels.len(),
        forall|j: int|
            0 <= j < old_labels.len() ==> new_labels[j] == (if old_labels[j] == from {
                to
            } else {
                old_labels[j]
            }),
    ensures
        new_labels.contains(to) == (old_labels.contains(from) || old_labels.contains(to)),
        !new_labels.contains(from),
        forall|l: Seq<char>|
            l != from && l != to ==> new_labels.contains(l) == old_labels.contains(l),
{
    if old_labels.contains(from) {
        let i = choose|i: int| 0 <= i < old_labels.len() && old_labels[i] == from;
        assert(new_labels[i] == to);
        assert(new_labels.contains(to));
    }
    if old_labels.contains(to) {
        let i = choose|i: int| 0 <= i < old_labels.len() && old_labels[i] == to;
        assert(new_labels[i] == to);
        assert(new_labels.contains(to));
    }
    if new_labels.contains(to) {
        let i = choose|i: int| 0 <= i < new_labels.len() && new_labels[i] == to;
        assert(old_labels[i] == from || old_labels[i] == to);
        assert(old_labels.contains(from) || old_labels.contains(to));
    }
    assert forall|j: int| 0 <= j < new_labels.len() implies new_labels[j] != from by {
        if old_labels[j] == from {
            assert(new_labels[j] == to);
        }
    }
    assert forall|l: Seq<char>|
        l != from && l != to implies new_labels.contains(l) == old_labels.contains(l) by {
        if old_labels.contains(l) {
            let i = choose|i: int| 0 <= i < old_labels.len() && old_labels[i] == l;
            assert(new_labels[i] == l);
        }
        if new_labels.contains(l) {
            let i = choose|i: int| 0 <= i < new_labels.len() && new_labels[i] == l;
            assert(old_labels[i] == l);
        }
    }
}

} // verus!
