use nyaterm::activity_bar::{
    activity_zone_side, normalize_activity_bar_layout, ActivityBarLayout, ActivityBarZone,
    PanelAvailability, PanelSide,
};
use nyaterm::panels::PanelsState;

fn strings(v: &[&str]) -> Vec<String> {
    v.iter().map(|s| s.to_string()).collect()
}

fn all_on() -> PanelAvailability {
    PanelAvailability {
        notes: true,
        remote_stats: true,
        gpu_monitor: true,
        ascend_npu_monitor: true,
        process_manager: true,
        docker_manager: true,
    }
}

fn panels() -> PanelsState {
    PanelsState {
        left_open: Vec::new(),
        right_open: Vec::new(),
        active_left: None,
        active_right: None,
        floating_left: None,
        floating_right: None,
        left_collapsed: false,
        right_collapsed: false,
    }
}

#[test]
fn normalization_migrates_aliases_and_inserts_notes_at_its_anchor() {
    let mut layout = ActivityBarLayout::default();
    layout.left_top = strings(&["fileExplorer", "fileTransfer", "keyManagement", "network"]);
    layout.hidden_items = strings(&["keyManagement", "securityAuth", "fileTransfer"]);
    normalize_activity_bar_layout(&mut layout);

    let left = &layout.left_top;
    let files = left.iter().position(|id| id == "fileExplorer").unwrap();
    assert_eq!(left.get(files + 1).map(String::as_str), Some("notes"));
    assert!(!left.iter().any(|id| id == "fileTransfer"));
    assert!(!left.iter().any(|id| id == "keyManagement"));
    assert_eq!(layout.hidden_items, vec!["securityAuth".to_string()]);
    assert!(layout
        .activity_entries_for_zone(ActivityBarZone::LeftTop, all_on())
        .iter()
        .any(|id| id == "notes"));
}

#[test]
fn normalization_keeps_a_clean_default_layout() {
    let mut layout = ActivityBarLayout::default();
    normalize_activity_bar_layout(&mut layout);
    assert_eq!(
        layout.left_top,
        strings(&["fileExplorer", "notes", "network", "securityAuth"])
    );
    assert_eq!(layout.left_bottom, strings(&["syncBackupHistory", "settings"]));
    assert_eq!(layout.right_bottom.len(), 4);
    assert!(layout.hidden_items.is_empty());
}

#[test]
fn normalization_drops_repeats_across_zones_and_restores_missing_defaults() {
    let mut layout = ActivityBarLayout::default();
    layout.left_top = strings(&["network", "aiAssistant", "network"]);
    layout.left_bottom = strings(&["aiAssistant", "settings"]);
    layout.right_top = strings(&["savedConnections"]);
    layout.hidden_items = strings(&["settings", "settings", "unknownPanel"]);
    normalize_activity_bar_layout(&mut layout);
    // A moved default stays where the user put it.
    assert_eq!(
        layout.left_top,
        strings(&["fileExplorer", "notes", "network", "securityAuth", "aiAssistant"])
    );
    assert_eq!(layout.left_bottom, strings(&["syncBackupHistory", "settings"]));
    assert_eq!(
        layout.right_top,
        strings(&[
            "savedConnections",
            "activeSessions",
            "commandHistory",
            "resourceMonitor",
            "processManager",
            "dockerManager",
        ])
    );
    assert_eq!(layout.hidden_items, strings(&["settings"]));
}

#[test]
fn normalization_run_twice_changes_nothing_more() {
    let mut layout = ActivityBarLayout::default();
    layout.right_bottom = strings(&["lock", "keyManagement", "recording"]);
    layout.hidden_items = strings(&["keyManagement"]);
    normalize_activity_bar_layout(&mut layout);
    let once = (
        layout.left_top.clone(),
        layout.left_bottom.clone(),
        layout.right_top.clone(),
        layout.right_bottom.clone(),
        layout.hidden_items.clone(),
    );
    normalize_activity_bar_layout(&mut layout);
    assert_eq!(
        once,
        (
            layout.left_top.clone(),
            layout.left_bottom.clone(),
            layout.right_top.clone(),
            layout.right_bottom.clone(),
            layout.hidden_items.clone(),
        )
    );
}

#[test]
fn zones_sit_on_their_sides() {
    assert_eq!(activity_zone_side(ActivityBarZone::LeftTop), PanelSide::Left);
    assert_eq!(activity_zone_side(ActivityBarZone::LeftBottom), PanelSide::Left);
    assert_eq!(activity_zone_side(ActivityBarZone::RightTop), PanelSide::Right);
    assert_eq!(activity_zone_side(ActivityBarZone::RightBottom), PanelSide::Right);
    assert_eq!(ActivityBarZone::all().len(), 4);
}

#[test]
fn hidden_unknown_and_switched_off_entries_are_not_shown() {
    let mut layout = ActivityBarLayout::default();
    layout.left_top = strings(&["fileExplorer", "notes", "mystery", "network"]);
    layout.hidden_items = strings(&["network"]);
    let mut a = all_on();
    a.notes = false;
    assert_eq!(
        layout.activity_entries_for_zone(ActivityBarZone::LeftTop, a),
        strings(&["fileExplorer"])
    );
    assert!(layout.activity_side_has_items(PanelSide::Left, a));
    layout.left_top = strings(&["network"]);
    layout.left_bottom = Vec::new();
    assert!(!layout.activity_side_has_items(PanelSide::Left, a));
    assert!(layout.is_hidden(&"network".to_string()));
    assert_eq!(
        layout.side_for_entry(&"dockerManager".to_string()),
        Some(PanelSide::Right)
    );
    assert_eq!(layout.side_for_entry(&"mystery".to_string()), None);
}

#[test]
fn clearing_an_entry_closes_it_and_collapses_an_empty_side() {
    let mut p = panels();
    p.left_open = strings(&["fileExplorer", "network", "fileExplorer"]);
    p.active_left = Some("fileExplorer".to_string());
    p.floating_left = Some("fileExplorer".to_string());
    p.right_open = strings(&["fileExplorer"]);
    p.clear_activity_entry_from_side("fileExplorer", PanelSide::Left);
    assert_eq!(p.left_open, strings(&["network"]));
    assert_eq!(p.active_left, None);
    assert_eq!(p.floating_left, None);
    assert!(!p.left_collapsed);
    assert_eq!(p.right_open, strings(&["fileExplorer"]));

    p.clear_activity_entry_from_side("network", PanelSide::Left);
    assert!(p.left_open.is_empty());
    assert!(p.left_collapsed);
}

#[test]
fn switched_off_panels_leave_their_side() {
    let layout = ActivityBarLayout::default();
    let mut p = panels();
    p.right_open = strings(&["dockerManager", "savedConnections"]);
    p.active_right = Some("dockerManager".to_string());
    p.floating_left = Some("notes".to_string());
    let mut a = all_on();
    a.docker_manager = false;
    a.notes = false;
    p.reconcile_activity_panel_availability(&layout, a);
    assert_eq!(p.right_open, strings(&["savedConnections"]));
    assert_eq!(p.active_right, None);
    assert!(!p.right_collapsed);
    assert_eq!(p.floating_left, None);
    assert!(p.left_collapsed);
}
