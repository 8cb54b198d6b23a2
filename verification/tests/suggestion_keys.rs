use nyaterm::command_suggestions::{CommandSuggestionItem, CommandSuggestionState};
use nyaterm::suggestion_keys::{
    apply_selected_command_suggestion, dismiss_command_suggestions, handle_command_suggestion_key,
    history_command_to_delete, remove_deleted_history_suggestion, CommandSuggestionInputTiming,
    CommandSuggestionRefreshTiming, SuggestionKeyOutcome,
};

fn item(command: &str, source: &str) -> CommandSuggestionItem {
    CommandSuggestionItem {
        command: command.to_string(),
        display: command.to_string(),
        source: source.to_string(),
        score: 1,
        indices: vec![0],
    }
}

fn popup(items: Vec<CommandSuggestionItem>, selected_index: Option<usize>) -> Option<CommandSuggestionState> {
    Some(CommandSuggestionState {
        session_id: "session-1".to_string(),
        draft: "git".to_string(),
        items,
        selected_index,
        cursor_row: 2,
        cursor_col: 5,
    })
}

fn three() -> Vec<CommandSuggestionItem> {
    vec![
        item("git status", "history"),
        item("git log", "quick"),
        item("git push", "history"),
    ]
}

#[test]
fn escape_dismisses_the_popup_and_starts_a_new_search_generation() {
    let mut generation = 7u64;
    let mut s = popup(three(), Some(1));
    let r = handle_command_suggestion_key(&mut generation, &mut s, true, false, false, false, "escape");
    assert!(matches!(r, SuggestionKeyOutcome::Dismissed));
    assert!(s.is_none());
    assert_eq!(generation, 8);
}

#[test]
fn dismissing_saturates_the_generation_and_reports_whether_it_was_open() {
    let mut generation = u64::MAX;
    let mut s = popup(three(), None);
    assert!(dismiss_command_suggestions(&mut generation, &mut s));
    assert_eq!(generation, u64::MAX);
    assert!(!dismiss_command_suggestions(&mut generation, &mut s));
}

#[test]
fn arrow_keys_move_the_selection() {
    let mut generation = 0u64;
    let mut s = popup(three(), None);
    let r = handle_command_suggestion_key(&mut generation, &mut s, true, false, false, false, "down");
    assert!(matches!(r, SuggestionKeyOutcome::Moved));
    assert_eq!(s.as_ref().unwrap().selected_index, Some(0));
    handle_command_suggestion_key(&mut generation, &mut s, true, false, false, false, "up");
    assert_eq!(s.as_ref().unwrap().selected_index, None);
    handle_command_suggestion_key(&mut generation, &mut s, true, false, false, false, "up");
    assert_eq!(s.as_ref().unwrap().selected_index, Some(2));
    assert_eq!(generation, 0);
}

#[test]
fn modified_and_unknown_keys_pass_through() {
    let mut generation = 0u64;
    let mut s = popup(three(), Some(0));
    let r = handle_command_suggestion_key(&mut generation, &mut s, true, false, false, true, "down");
    assert!(matches!(r, SuggestionKeyOutcome::Ignored));
    assert_eq!(s.as_ref().unwrap().selected_index, Some(0));
    let r = handle_command_suggestion_key(&mut generation, &mut s, true, false, false, false, "a");
    assert!(matches!(r, SuggestionKeyOutcome::Ignored));
    assert!(s.is_some());
}

#[test]
fn a_popup_of_a_hidden_session_closes_without_taking_the_key() {
    let mut generation = 3u64;
    let mut s = popup(three(), Some(0));
    let r = handle_command_suggestion_key(&mut generation, &mut s, false, false, false, false, "down");
    assert!(matches!(r, SuggestionKeyOutcome::Closed));
    assert!(s.is_none());
    assert_eq!(generation, 3);
}

#[test]
fn enter_runs_and_tab_fills_the_selected_suggestion() {
    let mut generation = 0u64;
    let mut s = popup(three(), Some(1));
    match handle_command_suggestion_key(&mut generation, &mut s, true, false, false, false, "enter") {
        SuggestionKeyOutcome::Applied(a) => {
            assert_eq!(a.payload, "\u{05}\u{15}git log\r");
            assert_eq!(a.command, "git log");
            assert_eq!(a.source, "quick");
            assert!(a.execute);
        }
        _ => panic!("enter should apply the selection"),
    }
    assert!(s.is_none());

    let mut s = popup(three(), Some(0));
    match handle_command_suggestion_key(&mut generation, &mut s, true, false, false, false, "tab") {
        SuggestionKeyOutcome::Applied(a) => {
            assert_eq!(a.payload, "\u{05}\u{15}git status");
            assert!(!a.execute);
        }
        _ => panic!("tab should apply the selection"),
    }
}

#[test]
fn applying_without_a_selection_keeps_the_popup() {
    let mut s = popup(three(), None);
    assert!(apply_selected_command_suggestion(&mut s, true).is_none());
    assert!(s.is_some());
    let mut generation = 0u64;
    let r = handle_command_suggestion_key(&mut generation, &mut s, true, false, false, false, "enter");
    assert!(matches!(r, SuggestionKeyOutcome::Ignored));
    assert!(s.is_some());
}

#[test]
fn deleting_history_trims_the_command_and_refuses_blank_ones() {
    assert_eq!(history_command_to_delete("  git push \t"), Some("git push".to_string()));
    assert_eq!(history_command_to_delete(" \t "), None);
}

#[test]
fn a_deleted_history_entry_leaves_the_popup() {
    let mut s = popup(three(), Some(2));
    let refresh = remove_deleted_history_suggestion(&mut s, &"git push".to_string());
    assert!(!refresh);
    let state = s.as_ref().unwrap();
    let commands: Vec<&str> = state.items.iter().map(|i| i.command.as_str()).collect();
    assert_eq!(commands, ["git status", "git log"]);
    assert_eq!(state.selected_index, Some(1));

    // A quick command of the same text stays.
    let mut s = popup(vec![item("git log", "quick")], Some(0));
    remove_deleted_history_suggestion(&mut s, &"git log".to_string());
    assert_eq!(s.as_ref().unwrap().items.len(), 1);

    // The popup closes when nothing is left, and asks for no refresh.
    let mut s = popup(vec![item("ls", "history")], Some(0));
    assert!(!remove_deleted_history_suggestion(&mut s, &"ls".to_string()));
    assert!(s.is_none());

    // With no popup open, a fresh search is asked for.
    let mut none: Option<CommandSuggestionState> = None;
    assert!(remove_deleted_history_suggestion(&mut none, &"ls".to_string()));
}

#[test]
fn the_slowest_stage_is_reported() {
    let t = CommandSuggestionInputTiming {
        utf8: 5,
        submission: 1,
        resync: 0,
        apply_tracker: 90,
        min_chars: 3,
        pattern: 4,
        pager: 2,
        eligibility: 7,
        hide_popup: 0,
        schedule: 11,
    };
    assert_eq!(t.max_stage(), 90);
    let r = CommandSuggestionRefreshTiming {
        pattern: 0,
        search: 0,
        cursor: 0,
        update_state: 0,
        hide_popup: 0,
    };
    assert_eq!(r.max_stage(), 0);
    let r = CommandSuggestionRefreshTiming {
        pattern: 3,
        search: 40,
        cursor: 2,
        update_state: 41,
        hide_popup: 1,
    };
    assert_eq!(r.max_stage(), 41);
}
