use nyaterm::activity_bar::PanelSide;
use nyaterm::activity_selection::{
    activity_entry_action, activity_entry_selected, panel_entry_selected, ActivityEntryAction,
    ActivitySelectionView, BottomPanelMode, PanelSideView,
};

fn side() -> PanelSideView {
    PanelSideView {
        floating: false,
        floating_panel: None,
        multi_open: false,
        open_ids: Vec::new(),
        overlay_panel: None,
        active_panel: None,
        current_panel: None,
    }
}

fn state() -> ActivitySelectionView {
    ActivitySelectionView {
        settings_window_open: false,
        page_mode: false,
        bottom_panel_mode: BottomPanelMode::Hidden,
        active_recordings: 0,
        screen_locked: false,
    }
}

fn s(v: &str) -> String {
    v.to_string()
}

#[test]
fn selection_follows_how_the_side_shows_panels() {
    let notes = s("notes");
    assert!(!panel_entry_selected(&notes, None));
    let mut single = side();
    single.current_panel = Some(s("notes"));
    single.active_panel = Some(s("network"));
    assert!(panel_entry_selected(&notes, Some(&single)));
    assert!(!panel_entry_selected(&s("network"), Some(&single)));
    let mut multi = side();
    multi.multi_open = true;
    multi.open_ids = vec![s("fileExplorer"), s("notes")];
    multi.overlay_panel = Some(s("network"));
    assert!(panel_entry_selected(&notes, Some(&multi)));
    assert!(panel_entry_selected(&s("network"), Some(&multi)));
    assert!(!panel_entry_selected(&s("securityAuth"), Some(&multi)));
    let mut floating = multi;
    floating.floating = true;
    floating.floating_panel = Some(s("securityAuth"));
    assert!(!panel_entry_selected(&notes, Some(&floating)));
    assert!(panel_entry_selected(&s("securityAuth"), Some(&floating)));
}

#[test]
fn selection_of_entries_that_are_not_panels() {
    let mut st = state();
    assert!(!activity_entry_selected(&s("settings"), &st, None));
    st.page_mode = true;
    assert!(activity_entry_selected(&s("settings"), &st, None));
    st.bottom_panel_mode = BottomPanelMode::CommandSend;
    assert!(activity_entry_selected(&s("serialSend"), &st, None));
    assert!(!activity_entry_selected(&s("quickCmdBar"), &st, None));
    assert!(!activity_entry_selected(&s("recording"), &st, None));
    st.active_recordings = 2;
    assert!(activity_entry_selected(&s("recording"), &st, None));
    assert!(!activity_entry_selected(&s("lock"), &st, None));
    st.screen_locked = true;
    assert!(activity_entry_selected(&s("lock"), &st, None));
    let mut single = side();
    single.current_panel = Some(s("aiAssistant"));
    assert!(activity_entry_selected(&s("aiAssistant"), &st, Some(&single)));
    assert!(!activity_entry_selected(&s("notes"), &st, Some(&single)));
}

#[test]
fn clicking_entries_picks_the_matching_action() {
    let id = |s: &str| s.to_string();
    assert_eq!(
        activity_entry_action(&id("settings"), None, false, BottomPanelMode::Hidden, false, false),
        ActivityEntryAction::OpenSettingsPage
    );
    assert_eq!(
        activity_entry_action(&id("quickCmdBar"), None, false, BottomPanelMode::QuickCommands, false, false),
        ActivityEntryAction::SetBottomPanel(BottomPanelMode::Hidden)
    );
    assert_eq!(
        activity_entry_action(&id("quickCmdBar"), None, false, BottomPanelMode::CommandSend, false, false),
        ActivityEntryAction::OpenQuickCommands
    );
    assert_eq!(
        activity_entry_action(&id("serialSend"), None, false, BottomPanelMode::Hidden, false, false),
        ActivityEntryAction::SetBottomPanel(BottomPanelMode::CommandSend)
    );
    assert_eq!(
        activity_entry_action(&id("serialSend"), None, false, BottomPanelMode::CommandSend, false, false),
        ActivityEntryAction::SetBottomPanel(BottomPanelMode::Hidden)
    );
    assert_eq!(
        activity_entry_action(&id("lock"), None, true, BottomPanelMode::Hidden, true, true),
        ActivityEntryAction::Lock
    );
    assert_eq!(
        activity_entry_action(&id("network"), Some(PanelSide::Left), true, BottomPanelMode::Hidden, true, true),
        ActivityEntryAction::ToggleFloating(PanelSide::Left)
    );
    assert_eq!(
        activity_entry_action(&id("network"), None, true, BottomPanelMode::Hidden, true, true),
        ActivityEntryAction::Nothing
    );
    assert_eq!(
        activity_entry_action(&id("network"), Some(PanelSide::Left), false, BottomPanelMode::Hidden, true, true),
        ActivityEntryAction::OpenPanel { mobile_left: true, mobile_right: false }
    );
    assert_eq!(
        activity_entry_action(&id("savedConnections"), Some(PanelSide::Right), false, BottomPanelMode::Hidden, true, false),
        ActivityEntryAction::OpenPanel { mobile_left: false, mobile_right: false }
    );
    assert_eq!(
        activity_entry_action(&id("recording"), Some(PanelSide::Right), false, BottomPanelMode::Hidden, true, true),
        ActivityEntryAction::OpenPanel { mobile_left: false, mobile_right: false }
    );
    assert_eq!(
        activity_entry_action(&id("recording"), None, false, BottomPanelMode::Hidden, true, true),
        ActivityEntryAction::Nothing
    );
}
