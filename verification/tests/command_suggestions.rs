use nyaterm::command_suggestions::{
    command_suggestion_clamp_selection, command_suggestion_input_can_defer_refresh,
    command_suggestion_input_candidate_chars, command_suggestion_input_obvious_pager_prefix,
    command_suggestion_item_for_selection, command_suggestion_refresh_input_delay,
    command_suggestion_state_changed, command_suggestion_step_selection, CommandSuggestionItem,
    CommandSuggestionState, TerminalInputState,
};

fn item() -> CommandSuggestionItem {
    CommandSuggestionItem {
        command: "git status".to_string(),
        display: "git status".to_string(),
        source: "history".to_string(),
        score: 42,
        indices: vec![0, 1, 2],
    }
}

fn suggestion_state(selected_index: Option<usize>) -> CommandSuggestionState {
    CommandSuggestionState {
        session_id: "session".to_string(),
        draft: "git".to_string(),
        items: vec![item()],
        selected_index,
        cursor_row: 3,
        cursor_col: 4,
    }
}

fn input(value: &str, cursor: usize) -> TerminalInputState {
    TerminalInputState {
        value: value.to_string(),
        cursor,
        desynced: false,
        multiline: false,
    }
}

#[test]
fn command_suggestion_step_selection_enters_and_exits_with_down() {
    assert_eq!(command_suggestion_step_selection(None, 3, 1), Some(0));
    assert_eq!(command_suggestion_step_selection(Some(0), 3, 1), Some(1));
    assert_eq!(command_suggestion_step_selection(Some(2), 3, 1), None);
    assert_eq!(command_suggestion_step_selection(None, 0, 1), None);
}

#[test]
fn command_suggestion_step_selection_enters_and_exits_with_up() {
    assert_eq!(command_suggestion_step_selection(None, 3, -1), Some(2));
    assert_eq!(command_suggestion_step_selection(Some(2), 3, -1), Some(1));
    assert_eq!(command_suggestion_step_selection(Some(0), 3, -1), None);
    assert_eq!(command_suggestion_step_selection(None, 0, -1), None);
}

#[test]
fn step_selection_up_from_past_the_end_lands_inside() {
    assert_eq!(command_suggestion_step_selection(Some(9), 3, -1), Some(1));
    assert_eq!(command_suggestion_step_selection(Some(9), 1, -1), Some(0));
    assert_eq!(command_suggestion_step_selection(Some(9), 3, 0), Some(2));
    assert_eq!(command_suggestion_step_selection(None, 3, 0), None);
}

#[test]
fn command_suggestion_clamp_selection_preserves_none_and_clamps_overflow() {
    assert_eq!(command_suggestion_clamp_selection(None, 3), None);
    assert_eq!(command_suggestion_clamp_selection(Some(1), 3), Some(1));
    assert_eq!(command_suggestion_clamp_selection(Some(7), 3), Some(2));
    assert_eq!(command_suggestion_clamp_selection(Some(0), 0), None);
}

#[test]
fn command_suggestion_accept_requires_selected_item() {
    let items = vec![item()];
    assert!(command_suggestion_item_for_selection(&items, None).is_none());
    assert!(command_suggestion_item_for_selection(&items, Some(1)).is_none());
    assert_eq!(
        command_suggestion_item_for_selection(&items, Some(0)).map(|item| item.command.as_str()),
        Some("git status")
    );
}

#[test]
fn command_suggestion_state_change_skips_identical_overlay() {
    let state = suggestion_state(None);
    let selected = suggestion_state(Some(0));
    assert!(!command_suggestion_state_changed(Some(&state), &state));
    assert!(command_suggestion_state_changed(None, &state));
    assert!(command_suggestion_state_changed(Some(&state), &selected));
}

#[test]
fn state_change_sees_a_different_suggestion() {
    let state = suggestion_state(None);
    let mut other = suggestion_state(None);
    other.items[0].indices = vec![0, 1];
    assert!(command_suggestion_state_changed(Some(&state), &other));
    other.items.clear();
    assert!(command_suggestion_state_changed(Some(&state), &other));
}

#[test]
fn command_suggestion_input_defer_refresh_requires_cursor_at_end() {
    let mut state = input("git status", 3);
    assert!(!command_suggestion_input_can_defer_refresh(&state));
    state.cursor = state.value.len();
    assert!(command_suggestion_input_can_defer_refresh(&state));
    state.desynced = true;
    assert!(!command_suggestion_input_can_defer_refresh(&state));
}

#[test]
fn defer_refresh_counts_the_cursor_in_bytes() {
    let mut state = input("échο", 4);
    assert!(!command_suggestion_input_can_defer_refresh(&state));
    state.cursor = 6;
    assert!(command_suggestion_input_can_defer_refresh(&state));
    state.multiline = true;
    assert!(!command_suggestion_input_can_defer_refresh(&state));
}

#[test]
fn command_suggestion_input_detects_obvious_pager_prefix_without_sanitizing() {
    let state = input("  /search", 9);
    assert!(command_suggestion_input_obvious_pager_prefix(&state));
    let state = input("git status", 10);
    assert!(!command_suggestion_input_obvious_pager_prefix(&state));
    assert_eq!(command_suggestion_input_candidate_chars(&state), 10);
    assert!(command_suggestion_input_obvious_pager_prefix(&input(":q", 2)));
    assert!(command_suggestion_input_obvious_pager_prefix(&input("\t?help", 6)));
    assert!(!command_suggestion_input_obvious_pager_prefix(&input("   ", 3)));
    assert_eq!(command_suggestion_input_candidate_chars(&input("  ls é", 7)), 4);
}

#[test]
fn command_suggestion_refresh_input_delay_waits_for_terminal_idle_window() {
    let window = 16_000_000u64;
    let now = 5_000_000_000u64;
    assert_eq!(command_suggestion_refresh_input_delay(Some(now), now, window), Some(window));
    assert_eq!(
        command_suggestion_refresh_input_delay(Some(now - window - 1_000_000), now, window),
        None
    );
    assert_eq!(command_suggestion_refresh_input_delay(None, now, window), None);
    assert_eq!(
        command_suggestion_refresh_input_delay(Some(now - 6_000_000), now, window),
        Some(10_000_000)
    );
    assert_eq!(command_suggestion_refresh_input_delay(Some(now + 5), now, window), Some(window));
}
