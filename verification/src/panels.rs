use vstd::prelude::*;

use crate::models::{PanelId, PanelsSettings, PanelsSettingsView};

verus! {

/// What a panel toggle does to its window.
#[derive(Debug, Clone, Copy, PartialEq, Eq, Structural)]
pub enum WindowAction {
    /// Hide the window.
    Hide,
    /// Show the window and give it focus.
    ShowAndFocus,
}

/// Toggling a panel hides a visible window and shows (and focuses) a hidden one.
pub fn toggle_action(visible: bool) -> (action: WindowAction)
    ensures
        action == (if visible {
            WindowAction::Hide
        } else {
            WindowAction::ShowAndFocus
        }),
{
    if visible {
        WindowAction::Hide
    } else {
        WindowAction::ShowAndFocus
    }
}

/// All panels, in the order in which they are set up at launch.
pub open spec fn all_panels() -> Seq<PanelId> {
    seq![PanelId::Performance, PanelId::Mixer, PanelId::Notifications]
}

/// A panel is shown at launch when it is enabled and asks to be shown.
pub open spec fn shown_on_launch(panels: PanelsSettingsView, id: PanelId) -> bool {
    panels.panel(id).enabled && panels.panel(id).show_on_launch
}

/// The panels whose windows open at launch, in set-up order.
pub fn panels_to_show(panels: &PanelsSettings) -> (shown: Vec<PanelId>)
    ensures
        shown@ == all_panels().filter(|id: PanelId| shown_on_launch(panels@, id)),
{
    proof {
        reveal_with_fuel(Seq::filter, 4);
    }
    let mut shown: Vec<PanelId> = Vec::new();
    if panels.performance.enabled && panels.performance.show_on_launch {
        shown.push(PanelId::Performance);
    }
    if panels.mixer.enabled && panels.mixer.show_on_launch {
        shown.push(PanelId::Mixer);
    }
    if panels.notifications.enabled && panels.notifications.show_on_launch {
        shown.push(PanelId::Notifications);
    }
    proof {
        let all = all_panels();
        assert(all.drop_last() =~= seq![PanelId::Performance, PanelId::Mixer]);
        assert(all.drop_last().drop_last() =~= seq![PanelId::Performance]);
        assert(all.drop_last().drop_last().drop_last() =~= Seq::<PanelId>::empty());
    }
    shown
}

} // verus!
