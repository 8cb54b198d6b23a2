//! Which activity-bar entry shows as selected: a panel when it is the one
//! showing on its side, the bottom-panel entries when their panel is open,
//! recording also while anything records, and the lock while the screen is
//! locked.

use vstd::prelude::*;

use crate::activity_bar::PanelSide;
use crate::text::str_eq;

verus! {

/// What the panel under the terminal shows.
#[derive(Clone, Copy, Debug, PartialEq, Eq, Structural)]
pub enum BottomPanelMode {
    Hidden,
    QuickCommands,
    CommandSend,
}

/// How the panels of one side show, as the shell reports it: floating
/// (one panel over the content), several open at once, or one at a time.
pub struct PanelSideView {
    pub floating: bool,
    pub floating_panel: Option<String>,
    pub multi_open: bool,
    pub open_ids: Vec<String>,
    pub overlay_panel: Option<String>,
    pub active_panel: Option<String>,
    pub current_panel: Option<String>,
}

/// The rest of the state that decides which entries show as selected.
pub struct ActivitySelectionView {
    pub settings_window_open: bool,
    pub page_mode: bool,
    pub bottom_panel_mode: BottomPanelMode,
    pub active_recordings: usize,
    pub screen_locked: bool,
}

/// An optional name as text.
pub open spec fn opt_name(o: Option<String>) -> Option<Seq<char>> {
    match o {
        Some(s) => Some(s@),
        None => None,
    }
}

/// Whether `ids` holds `id`.
pub open spec fn spec_holds(ids: Seq<String>, id: Seq<char>) -> bool {
    exists|i: int| 0 <= i < ids.len() && #[trigger] ids[i]@ == id
}

/// Whether the panel `id`, placed on a side that shows as `side`, is
/// selected: the floating one, or among those open (or the overlay or
/// active one) when several can be, or the current one.
pub open spec fn spec_panel_entry_selected(id: Seq<char>, side: Option<PanelSideView>) -> bool {
    match side {
        None => false,
        Some(v) => if v.floating {
            opt_name(v.floating_panel) == Some(id)
        } else if v.multi_open {
            spec_holds(v.open_ids@, id) || opt_name(v.overlay_panel) == Some(id) || opt_name(
                v.active_panel,
            ) == Some(id)
        } else {
            opt_name(v.current_panel) == Some(id)
        },
    }
}

/// Whether `o` names `id`.
fn names(o: &Option<String>, id: &String) -> (r: bool)
    ensures
        r == (opt_name(*o) == Some(id@)),
{
    match o {
        Some(s) => str_eq(s.as_str(), id.as_str()),
        None => false,
    }
}

/// Whether `ids` holds `id`.
fn holds(ids: &Vec<String>, id: &String) -> (r: bool)
    ensures
        r == spec_holds(ids@, id@),
{
    let mut i: usize = 0;
    while i < ids.len()
        invariant
            i <= ids@.len(),
            forall|j: int| 0 <= j < i ==> ids@[j]@ != id@,
        decreases ids@.len() - i,
    {
        if str_eq(ids[i].as_str(), id.as_str()) {
            assert(ids@[i as int]@ == id@);
            return true;
        }
        i += 1;
    }
    false
}

/// Whether the panel `id` is selected (see `spec_panel_entry_selected`);
/// `side` is how the side it is placed on shows, `None` when it is not
/// placed.
pub fn panel_entry_selected(id: &String, side: Option<&PanelSideView>) -> (r: bool)
    ensures
        r == spec_panel_entry_selected(
            id@,
            match side {
                Some(v) => Some(*v),
                None => None,
            },
        ),
{
    match side {
        None => false,
        Some(v) => {
            if v.floating {
                names(&v.floating_panel, id)
            } else if v.multi_open {
                holds(&v.open_ids, id) || names(&v.overlay_panel, id) || names(&v.active_panel, id)
            } else {
                names(&v.current_panel, id)
            }
        },
    }
}

/// Whether the activity-bar entry `id` shows as selected: settings while
/// its window is open or a page shows; the bottom-panel entries while their
/// panel shows; recording while its panel is selected or anything records;
/// the lock while the screen is locked; any other entry while its panel is
/// selected.
pub open spec fn spec_activity_entry_selected(
    id: Seq<char>,
    state: ActivitySelectionView,
    side: Option<PanelSideView>,
) -> bool {
    if id == "settings"@ {
        state.settings_window_open || state.page_mode
    } else if id == "quickCmdBar"@ {
        state.bottom_panel_mode == BottomPanelMode::QuickCommands
    } else if id == "serialSend"@ {
        state.bottom_panel_mode == BottomPanelMode::CommandSend
    } else if id == "recording"@ {
        spec_panel_entry_selected(id, side) || state.active_recordings > 0
    } else if id == "lock"@ {
        state.screen_locked
    } else {
        spec_panel_entry_selected(id, side)
    }
}

/// Whether the activity-bar entry `id` shows as selected (see
/// `spec_activity_entry_selected`).
pub fn activity_entry_selected(
    id: &String,
    state: &ActivitySelectionView,
    side: Option<&PanelSideView>,
) -> (r: bool)
    ensures
        r == spec_activity_entry_selected(
            id@,
            *state,
            match side {
                Some(v) => Some(*v),
                None => None,
            },
        ),
{
    let key = id.as_str();
    if str_eq(key, "settings") {
        state.settings_window_open || state.page_mode
    } else if str_eq(key, "quickCmdBar") {
        state.bottom_panel_mode == BottomPanelMode::QuickCommands
    } else if str_eq(key, "serialSend") {
        state.bottom_panel_mode == BottomPanelMode::CommandSend
    } else if str_eq(key, "recording") {
        panel_entry_selected(id, side) || state.active_recordings > 0
    } else if str_eq(key, "lock") {
        state.screen_locked
    } else {
        panel_entry_selected(id, side)
    }
}

/// What clicking an activity-bar entry does.
#[derive(Clone, Copy, Debug, PartialEq, Eq, Structural)]
pub enum ActivityEntryAction {
    /// Open the settings page.
    OpenSettingsPage,
    /// Float the entry's panel over `side`, or put it away if it floats
    /// there already.
    ToggleFloating(PanelSide),
    /// Open the entry's panel docked; on a narrow window also slide out the
    /// drawer of its side.
    OpenPanel { mobile_left: bool, mobile_right: bool },
    /// Show the bottom panel in this mode.
    SetBottomPanel(BottomPanelMode),
    /// Open the quick commands.
    OpenQuickCommands,
    /// Lock the application.
    Lock,
    /// Nothing: the entry's panel floats but has no side.
    Nothing,
}

/// What clicking the entry `id` does. `side` is where its panel is placed,
/// `floating` whether panels float, `bottom_mode` what the bottom panel
/// shows, and `narrow_left` / `narrow_right` whether the window is too
/// narrow to dock a panel on that side.
pub open spec fn spec_activity_entry_action(
    id: Seq<char>,
    side: Option<PanelSide>,
    floating: bool,
    bottom_mode: BottomPanelMode,
    narrow_left: bool,
    narrow_right: bool,
) -> ActivityEntryAction {
    if id == "settings"@ {
        ActivityEntryAction::OpenSettingsPage
    } else if id == "quickCmdBar"@ {
        if bottom_mode == BottomPanelMode::QuickCommands {
            ActivityEntryAction::SetBottomPanel(BottomPanelMode::Hidden)
        } else {
            ActivityEntryAction::OpenQuickCommands
        }
    } else if id == "serialSend"@ {
        if bottom_mode == BottomPanelMode::CommandSend {
            ActivityEntryAction::SetBottomPanel(BottomPanelMode::Hidden)
        } else {
            ActivityEntryAction::SetBottomPanel(BottomPanelMode::CommandSend)
        }
    } else if id == "lock"@ {
        ActivityEntryAction::Lock
    } else if id == "recording"@ {
        match side {
            None => ActivityEntryAction::Nothing,
            Some(s) => if floating {
                ActivityEntryAction::ToggleFloating(s)
            } else {
                ActivityEntryAction::OpenPanel { mobile_left: false, mobile_right: false }
            },
        }
    } else if floating {
        match side {
            None => ActivityEntryAction::Nothing,
            Some(s) => ActivityEntryAction::ToggleFloating(s),
        }
    } else {
        ActivityEntryAction::OpenPanel {
            mobile_left: side == Some(PanelSide::Left) && narrow_left,
            mobile_right: side == Some(PanelSide::Right) && narrow_right,
        }
    }
}

/// What clicking the entry `id` does (see `spec_activity_entry_action`).
pub fn activity_entry_action(
    id: &String,
    side: Option<PanelSide>,
    floating: bool,
    bottom_mode: BottomPanelMode,
    narrow_left: bool,
    narrow_right: bool,
) -> (r: ActivityEntryAction)
    ensures
        r == spec_activity_entry_action(id@, side, floating, bottom_mode, narrow_left, narrow_right),
{
    let key = id.as_str();
    if str_eq(key, "settings") {
        ActivityEntryAction::OpenSettingsPage
    } else if str_eq(key, "quickCmdBar") {
        if bottom_mode == BottomPanelMode::QuickCommands {
            ActivityEntryAction::SetBottomPanel(BottomPanelMode::Hidden)
        } else {
            ActivityEntryAction::OpenQuickCommands
        }
    } else if str_eq(key, "serialSend") {
        if bottom_mode == BottomPanelMode::CommandSend {
            ActivityEntryAction::SetBottomPanel(BottomPanelMode::Hidden)
        } else {
            ActivityEntryAction::SetBottomPanel(BottomPanelMode::CommandSend)
        }
    } else if str_eq(key, "lock") {
        ActivityEntryAction::Lock
    } else if str_eq(key, "recording") {
        match side {
            None => ActivityEntryAction::Nothing,
            Some(s) => if floating {
                ActivityEntryAction::ToggleFloating(s)
            } else {
                ActivityEntryAction::OpenPanel { mobile_left: false, mobile_right: false }
            },
        }
    } else if floating {
        match side {
            None => ActivityEntryAction::Nothing,
            Some(s) => ActivityEntryAction::ToggleFloating(s),
        }
    } else {
        let left = match side {
            Some(PanelSide::Left) => narrow_left,
            _ => false,
        };
        let right = match side {
            Some(PanelSide::Right) => narrow_right,
            _ => false,
        };
        ActivityEntryAction::OpenPanel { mobile_left: left, mobile_right: right }
    }
}

} // verus!
