use nyaterm::activity_bar::{ActivityBarLayout, ActivityBarZone, PanelAvailability, PanelSide};
use nyaterm::activity_moves::{
    hide_activity_entry, move_activity_entry, reset_activity_bar_layout, show_activity_entry,
    toggle_activity_bar_labels, ActivityMoveOutcome,
};
use nyaterm::panels::PanelsState;

fn strings(v: &[&str]) -> Vec<String> {
    v.iter().map(|s| s.to_string()).collect()
}

fn all_on() -> PanelAvailability {
    PanelAvailability {
        notes: true,
        remote_stats: true,
        gpu_monitor: true,
        ascend_npu_monitor: true,
        process_manager: true,
        docker_manager: true,
    }
}

fn panels() -> PanelsState {
    PanelsState {
        left_open: Vec::new(),
        right_open: Vec::new(),
        active_left: None,
        active_right: None,
        floating_left: None,
        floating_right: None,
        left_collapsed: false,
        right_collapsed: false,
    }
}

#[test]
fn hiding_an_active_panel_clears_its_side_and_removes_it_from_the_rail() {
    let mut layout = ActivityBarLayout::default();
    let mut p = panels();
    // The file explorer is open on the left.
    p.left_open = strings(&["fileExplorer"]);
    p.active_left = Some("fileExplorer".to_string());

    assert!(hide_activity_entry(&mut layout, &mut p, &"fileExplorer".to_string()));

    assert!(layout.is_hidden(&"fileExplorer".to_string()));
    assert_eq!(p.active_left, None);
    assert!(p.left_open.is_empty());
    assert!(p.left_collapsed);
    assert!(!layout
        .activity_entries_for_zone(ActivityBarZone::LeftTop, all_on())
        .iter()
        .any(|id| id == "fileExplorer"));

    assert!(show_activity_entry(&mut layout, &"fileExplorer".to_string()));
    assert!(!layout.is_hidden(&"fileExplorer".to_string()));
}

#[test]
fn drop_indices_map_to_visible_insertion_slots_across_both_sides() {
    let mut layout = ActivityBarLayout::default();
    let mut p = panels();
    layout.left_top = strings(&["fileExplorer", "network", "securityAuth"]);
    layout.right_top = strings(&["savedConnections", "activeSessions"]);
    layout.hidden_items.clear();
    let network = "network".to_string();

    let r = move_activity_entry(&mut layout, &mut p, all_on(), &network, ActivityBarZone::LeftTop, Some(0));
    assert_eq!(r, ActivityMoveOutcome::Moved);
    assert_eq!(layout.left_top, ["network", "fileExplorer", "securityAuth"]);

    move_activity_entry(&mut layout, &mut p, all_on(), &network, ActivityBarZone::LeftTop, Some(3));
    assert_eq!(layout.left_top, ["fileExplorer", "securityAuth", "network"]);

    move_activity_entry(&mut layout, &mut p, all_on(), &network, ActivityBarZone::RightTop, Some(1));
    assert_eq!(layout.left_top, ["fileExplorer", "securityAuth"]);
    assert_eq!(layout.right_top, ["savedConnections", "network", "activeSessions"]);
}

#[test]
fn reset_activity_bar_layout_restores_defaults_and_collapses_sides() {
    let mut layout = ActivityBarLayout::default();
    let mut p = panels();
    hide_activity_entry(&mut layout, &mut p, &"aiAssistant".to_string());
    p.left_open = strings(&["fileExplorer"]);
    p.active_left = Some("fileExplorer".to_string());
    assert!(layout.has_hidden_entries());

    reset_activity_bar_layout(&mut layout, &mut p);

    assert!(!layout.has_hidden_entries());
    assert_eq!(p.active_left, None);
    assert_eq!(p.active_right, None);
    assert!(p.left_collapsed && p.right_collapsed);
    assert_eq!(
        layout.left_top,
        strings(&["fileExplorer", "notes", "network", "securityAuth"])
    );
}

#[test]
fn moving_an_unknown_entry_changes_nothing() {
    let mut layout = ActivityBarLayout::default();
    let mut p = panels();
    let before = layout.left_top.clone();
    let r = move_activity_entry(
        &mut layout,
        &mut p,
        all_on(),
        &"noSuchEntry".to_string(),
        ActivityBarZone::LeftTop,
        Some(0),
    );
    assert_eq!(r, ActivityMoveOutcome::NotFound);
    assert_eq!(layout.left_top, before);
}

#[test]
fn reordering_a_hidden_entry_within_its_zone_is_refused() {
    let mut layout = ActivityBarLayout::default();
    let mut p = panels();
    layout.left_top = strings(&["fileExplorer", "network", "securityAuth"]);
    layout.hidden_items = strings(&["network"]);
    let r = move_activity_entry(
        &mut layout,
        &mut p,
        all_on(),
        &"network".to_string(),
        ActivityBarZone::LeftTop,
        Some(0),
    );
    assert_eq!(r, ActivityMoveOutcome::NotShown);
    assert_eq!(layout.left_top, ["fileExplorer", "network", "securityAuth"]);
}

#[test]
fn reordering_keeps_hidden_entries_in_their_slots() {
    let mut layout = ActivityBarLayout::default();
    let mut p = panels();
    layout.left_top = strings(&["fileExplorer", "network", "securityAuth"]);
    layout.hidden_items = strings(&["network"]);
    // Shown: fileExplorer, securityAuth; drag securityAuth to the front.
    move_activity_entry(
        &mut layout,
        &mut p,
        all_on(),
        &"securityAuth".to_string(),
        ActivityBarZone::LeftTop,
        Some(0),
    );
    assert_eq!(layout.left_top, ["securityAuth", "network", "fileExplorer"]);
}

#[test]
fn a_floating_panel_follows_its_entry_to_the_other_side() {
    let mut layout = ActivityBarLayout::default();
    let mut p = panels();
    layout.left_top = strings(&["fileExplorer", "network", "securityAuth"]);
    layout.right_top = strings(&["savedConnections", "activeSessions"]);
    layout.hidden_items.clear();
    p.floating_left = Some("network".to_string());
    p.left_open = strings(&["network", "fileExplorer"]);
    move_activity_entry(
        &mut layout,
        &mut p,
        all_on(),
        &"network".to_string(),
        ActivityBarZone::RightTop,
        None,
    );
    assert_eq!(layout.right_top, ["savedConnections", "activeSessions", "network"]);
    assert_eq!(p.floating_left, None);
    assert_eq!(p.floating_right, Some("network".to_string()));
    assert_eq!(p.left_open, strings(&["fileExplorer"]));
    let side = nyaterm::activity_bar::activity_zone_side(ActivityBarZone::RightTop);
    assert_eq!(side, PanelSide::Right);
}

#[test]
fn labels_toggle_on_and_off() {
    let mut layout = ActivityBarLayout::default();
    let before = layout.show_labels;
    assert_eq!(toggle_activity_bar_labels(&mut layout), !before);
    assert_eq!(layout.show_labels, !before);
    assert_eq!(toggle_activity_bar_labels(&mut layout), before);
}

fn all_entries(layout: &ActivityBarLayout) -> Vec<String> {
    let mut all: Vec<String> = layout
        .left_top
        .iter()
        .chain(layout.left_bottom.iter())
        .chain(layout.right_top.iter())
        .chain(layout.right_bottom.iter())
        .cloned()
        .collect();
    all.sort();
    all
}

#[test]
fn moves_keep_every_entry_exactly_once() {
    let mut layout = ActivityBarLayout::default();
    let mut p = panels();
    layout.hidden_items = strings(&["network"]);
    let before = all_entries(&layout);
    let hidden_before = layout.hidden_items.clone();
    let moves: [(&str, ActivityBarZone, Option<usize>); 4] = [
        ("fileExplorer", ActivityBarZone::RightBottom, Some(0)),
        ("network", ActivityBarZone::LeftBottom, None),
        ("securityAuth", ActivityBarZone::LeftTop, Some(0)),
        ("fileExplorer", ActivityBarZone::RightBottom, Some(7)),
    ];
    for (id, zone, slot) in moves {
        move_activity_entry(&mut layout, &mut p, all_on(), &id.to_string(), zone, slot);
        assert_eq!(all_entries(&layout), before);
        assert_eq!(layout.hidden_items, hidden_before);
    }
}

#[test]
fn showing_a_just_hidden_entry_restores_the_hidden_list() {
    let mut layout = ActivityBarLayout::default();
    let mut p = panels();
    layout.hidden_items = strings(&["network"]);
    let before = layout.hidden_items.clone();
    hide_activity_entry(&mut layout, &mut p, &"notes".to_string());
    assert_eq!(layout.hidden_items, strings(&["network", "notes"]));
    show_activity_entry(&mut layout, &"notes".to_string());
    assert_eq!(layout.hidden_items, before);
}
