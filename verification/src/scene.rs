//! The observable scene state the core drives.
//!
//! The UI scene itself is an external collaborator; the core consumes a
//! small capability contract from it: mutable named fields for the status
//! text and the menu selection, and a pending-damage flag.  Every change
//! the core makes to a field raises damage, which only a completed redraw
//! consumes.

use vstd::prelude::*;

verus! {

/// The status text shown once startup has finished.
pub open spec fn init_success_text() -> Seq<char> {
    "Init Success"@
}

/// The scene fields the core writes and the damage flag the frame
/// scheduler polls.
pub struct SceneState {
    /// The displayed status text.
    pub status_text: String,
    /// The selection shown by the menu widget.
    pub selected_menu_item: usize,
    /// Whether the scene changed since the last completed redraw.
    pub damage_pending: bool,
}

impl SceneState {
    /// A fresh scene: the given initial text and selection, with damage
    /// pending so the first frame is drawn.
    pub fn new(initial_text: &str, selected: usize) -> (r: SceneState)
        ensures
            r.status_text@ == initial_text@,
            r.selected_menu_item == selected,
            r.damage_pending,
    {
        SceneState {
            status_text: initial_text.to_owned(),
            selected_menu_item: selected,
            damage_pending: true,
        }
    }

    /// The one-shot startup timer fired: the status text becomes the
    /// init-success message.  No other scene change ever touches the
    /// status text, so once set it never reverts.
    pub fn set_init_done(&mut self)
        ensures
            final(self).status_text@ == init_success_text(),
            final(self).selected_menu_item == old(self).selected_menu_item,
            final(self).damage_pending,
    {
        self.status_text = "Init Success".to_owned();
        self.damage_pending = true;
    }

    /// The menu selection changed: show it and raise damage.
    pub fn set_selected(&mut self, selected: usize)
        ensures
            final(self).status_text@ == old(self).status_text@,
            final(self).selected_menu_item == selected,
            final(self).damage_pending,
    {
        self.selected_menu_item = selected;
        self.damage_pending = true;
    }
}

} // verus!
