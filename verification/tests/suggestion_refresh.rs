use nyaterm::command_suggestions::{CommandSuggestionItem, CommandSuggestionState, TerminalInputState};
use nyaterm::suggestion_refresh::{
    begin_command_suggestion_refresh, command_history_input_gate, command_suggestion_input_gate,
    command_suggestion_input_refresh, command_suggestion_refresh_step, manual_suggestion_source,
    manual_suggestions_session, prepare_command_suggestion_search,
    publish_command_suggestion_search, show_manual_command_suggestions, HistoryInputGate,
    InputGate, InputRefresh, ManualSuggestionSource, PublishOutcome, RefreshStep,
    SuggestionSearchRequest, COMMAND_SUGGESTION_REFRESH_DEBOUNCE,
    COMMAND_SUGGESTION_REFRESH_PRESSURE_RETRY,
};

const MS: u64 = 1_000_000;

fn item(command: &str) -> CommandSuggestionItem {
    CommandSuggestionItem {
        command: command.to_string(),
        display: command.to_string(),
        source: "history".to_string(),
        score: 3,
        indices: vec![0, 1],
    }
}

fn tracker(value: &str, cursor: usize) -> TerminalInputState {
    TerminalInputState {
        value: value.to_string(),
        cursor,
        desynced: false,
        multiline: false,
    }
}

fn request(id: u64, pattern: &str) -> SuggestionSearchRequest {
    SuggestionSearchRequest {
        request_id: id,
        session_id: "s1".to_string(),
        pattern: pattern.to_string(),
        pattern_chars: pattern.chars().count(),
        min_chars: 1,
        max_chars: 200,
    }
}

#[test]
fn a_refresh_takes_the_next_generation_as_its_id() {
    let mut generation = 41u64;
    assert_eq!(begin_command_suggestion_refresh(&mut generation), 42);
    assert_eq!(generation, 42);
    let mut top = u64::MAX;
    assert_eq!(begin_command_suggestion_refresh(&mut top), u64::MAX);
    assert_eq!(COMMAND_SUGGESTION_REFRESH_DEBOUNCE, 80 * MS);
}

#[test]
fn a_fired_refresh_checks_staleness_latency_typing_and_pressure_in_turn() {
    let window = 30 * MS;
    assert_eq!(
        command_suggestion_refresh_step(5, 4, false, None, 100 * MS, window, false),
        RefreshStep::Stale
    );
    assert_eq!(
        command_suggestion_refresh_step(5, 5, true, None, 100 * MS, window, false),
        RefreshStep::Hide
    );
    assert_eq!(
        command_suggestion_refresh_step(5, 5, false, Some(90 * MS), 100 * MS, window, true),
        RefreshStep::Wait(20 * MS)
    );
    assert_eq!(
        command_suggestion_refresh_step(5, 5, false, Some(10 * MS), 100 * MS, window, true),
        RefreshStep::HideAndRetry(COMMAND_SUGGESTION_REFRESH_PRESSURE_RETRY)
    );
    assert_eq!(COMMAND_SUGGESTION_REFRESH_PRESSURE_RETRY, 120 * MS);
    assert_eq!(
        command_suggestion_refresh_step(5, 5, false, None, 100 * MS, window, false),
        RefreshStep::Prepare
    );
}

#[test]
fn a_search_is_prepared_only_for_an_eligible_long_enough_command() {
    let session = "s1".to_string();
    let mut popup: Option<CommandSuggestionState> = None;
    let q = prepare_command_suggestion_search(
        &mut popup, 9, Some(&session), false, true, 0, 0, "git".to_string(), true,
    )
    .unwrap();
    assert_eq!(q.request_id, 9);
    assert_eq!(q.session_id, "s1");
    assert_eq!(q.pattern_chars, 3);
    assert_eq!(q.min_chars, 1);
    assert_eq!(q.max_chars, 1);

    let q = prepare_command_suggestion_search(
        &mut popup, 9, Some(&session), false, true, 2, 50, "gé".to_string(), true,
    )
    .unwrap();
    assert_eq!((q.pattern_chars, q.min_chars, q.max_chars), (2, 2, 50));

    let mut popup = Some(CommandSuggestionState {
        session_id: "s1".to_string(),
        draft: "g".to_string(),
        items: vec![item("git")],
        selected_index: None,
        cursor_row: 0,
        cursor_col: 1,
    });
    assert!(prepare_command_suggestion_search(
        &mut popup, 9, Some(&session), false, true, 3, 50, "gi".to_string(), true,
    )
    .is_none());
    assert!(popup.is_none());
    let mut popup = None;
    assert!(prepare_command_suggestion_search(
        &mut popup, 9, Some(&session), false, true, 1, 50, "/usr".to_string(), true,
    )
    .is_none());
    assert!(prepare_command_suggestion_search(
        &mut popup, 9, Some(&session), true, true, 1, 50, "git".to_string(), true,
    )
    .is_none());
    assert!(prepare_command_suggestion_search(
        &mut popup, 9, None, false, true, 1, 50, "git".to_string(), true,
    )
    .is_none());
    assert!(prepare_command_suggestion_search(
        &mut popup, 9, Some(&session), false, true, 1, 50, "git".to_string(), false,
    )
    .is_none());
}

#[test]
fn results_are_shown_only_while_they_are_current() {
    let session = "s1".to_string();
    let typed = "git".to_string();
    let mut popup: Option<CommandSuggestionState> = None;

    let r = publish_command_suggestion_search(
        &mut popup, request(3, "git"), 4, Some(&session), false, true, &typed,
        vec![item("git status")], 1, 4,
    );
    assert_eq!(r, PublishOutcome::Stale);
    assert!(popup.is_none());

    let other = "gi".to_string();
    let r = publish_command_suggestion_search(
        &mut popup, request(3, "git"), 3, Some(&session), false, true, &other,
        vec![item("git status")], 1, 4,
    );
    assert_eq!(r, PublishOutcome::Stale);

    let r = publish_command_suggestion_search(
        &mut popup, request(3, "git"), 3, Some(&session), false, true, &typed,
        vec![item("git status")], 1, 4,
    );
    assert_eq!(r, PublishOutcome::Shown);
    let state = popup.as_ref().unwrap();
    assert_eq!(state.draft, "git");
    assert_eq!(state.selected_index, None);
    assert_eq!((state.cursor_row, state.cursor_col), (1, 4));

    let r = publish_command_suggestion_search(
        &mut popup, request(3, "git"), 3, Some(&session), false, true, &typed,
        vec![item("git status")], 1, 4,
    );
    assert_eq!(r, PublishOutcome::Unchanged);

    let r = publish_command_suggestion_search(
        &mut popup, request(3, "git"), 3, Some(&session), false, true, &typed, Vec::new(), 1, 4,
    );
    assert_eq!(r, PublishOutcome::Hidden);
    assert!(popup.is_none());
}

#[test]
fn typed_bytes_pass_the_gate_in_order() {
    assert!(matches!(
        command_suggestion_input_gate(true, true, false, false, false, b"a"),
        InputGate::Skip
    ));
    assert!(matches!(
        command_suggestion_input_gate(false, true, true, true, false, b"a"),
        InputGate::ClearDraft
    ));
    assert!(matches!(
        command_suggestion_input_gate(false, false, true, true, false, &[0xff, 0xfe]),
        InputGate::ClearDraft
    ));
    assert!(matches!(
        command_suggestion_input_gate(false, false, true, true, false, b""),
        InputGate::Ignore
    ));
    assert!(matches!(
        command_suggestion_input_gate(false, false, true, true, true, b"q"),
        InputGate::ResetSuppression
    ));
    assert!(matches!(
        command_suggestion_input_gate(false, false, true, true, true, b"\x03"),
        InputGate::ResetSuppression
    ));
    match command_suggestion_input_gate(false, false, true, true, true, "é".as_bytes()) {
        InputGate::Track(t) => assert_eq!(t, "é"),
        _ => panic!("text should be tracked"),
    }
}

#[test]
fn tracked_input_decides_whether_to_refresh() {
    let t = tracker("git", 3);
    assert_eq!(command_suggestion_input_refresh(true, false, &t), InputRefresh::HideSuppressed);
    assert_eq!(command_suggestion_input_refresh(false, true, &t), InputRefresh::HideBelowMinChars);
    assert_eq!(
        command_suggestion_input_refresh(false, false, &tracker("  /find", 7)),
        InputRefresh::HidePager
    );
    assert_eq!(
        command_suggestion_input_refresh(false, false, &tracker("git", 1)),
        InputRefresh::HideNotEligible
    );
    assert_eq!(command_suggestion_input_refresh(false, false, &t), InputRefresh::Schedule);
}

#[test]
fn history_input_gate_skips_while_held_back() {
    assert!(matches!(command_history_input_gate(true, false, b"ls\r"), HistoryInputGate::Skip));
    assert!(matches!(
        command_history_input_gate(false, false, &[0xc0]),
        HistoryInputGate::ResetTracker
    ));
    assert!(matches!(command_history_input_gate(false, false, b""), HistoryInputGate::Skip));
    assert!(matches!(command_history_input_gate(false, true, b"ls"), HistoryInputGate::Skip));
    assert!(matches!(
        command_history_input_gate(false, true, b"q"),
        HistoryInputGate::ResetSuppression
    ));
    match command_history_input_gate(false, false, b"ls\r") {
        HistoryInputGate::Track(t) => assert_eq!(t, "ls\r"),
        _ => panic!("text should be tracked"),
    }
}

#[test]
fn suggestions_by_hand_need_an_open_eligible_session() {
    let session = "s1".to_string();
    let empty = String::new();
    let t = tracker("git", 3);
    assert_eq!(
        manual_suggestions_session(false, false, true, Some(&session), &t),
        Some("s1".to_string())
    );
    assert_eq!(manual_suggestions_session(true, false, true, Some(&session), &t), None);
    assert_eq!(manual_suggestions_session(false, false, true, Some(&empty), &t), None);
    assert_eq!(
        manual_suggestions_session(false, false, true, Some(&session), &tracker("git", 0)),
        None
    );

    assert_eq!(manual_suggestion_source(&"  ".to_string(), false), ManualSuggestionSource::Usual);
    assert_eq!(manual_suggestion_source(&"git".to_string(), true), ManualSuggestionSource::Search);
    assert_eq!(manual_suggestion_source(&"git".to_string(), false), ManualSuggestionSource::Nothing);

    let mut popup = None;
    assert!(show_manual_command_suggestions(
        &mut popup, "s1".to_string(), String::new(), vec![item("ls")], 0, 0,
    ));
    assert_eq!(popup.as_ref().unwrap().items.len(), 1);
    assert!(!show_manual_command_suggestions(&mut popup, "s1".to_string(), String::new(), Vec::new(), 0, 0));
    assert!(popup.is_none());
}
