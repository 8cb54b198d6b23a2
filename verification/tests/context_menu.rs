use nyaterm::context_menu::{
    terminal_ai_menu_actions, terminal_context_menu_entries, terminal_recording_menu_entries,
    terminal_search_menu_engines, translation_label_key, AiCustomAction, RecordingMenuEntry,
    TerminalMenuEntry,
};
use nyaterm::settings::links::SearchEngineConfig;

use RecordingMenuEntry as R;
use TerminalMenuEntry as T;

#[test]
fn menu_for_a_selection_offers_what_can_be_done_with_it() {
    assert_eq!(
        terminal_context_menu_entries(true, false, true),
        vec![
            T::Copy,
            T::Find,
            T::SaveAsQuickCommand,
            T::SearchOnline,
            T::Translate,
            T::Separator,
            T::Paste,
            T::PasteSelectedText,
            T::Separator,
            T::ClearScreen,
            T::ClearAll,
            T::Separator,
            T::RecordingLogs,
            T::Separator,
            T::SelectAll,
        ]
    );
    let with_ai = terminal_context_menu_entries(true, true, false);
    assert_eq!(with_ai[4], T::Ai);
    assert!(!with_ai.contains(&T::Translate));
}

#[test]
fn menu_without_a_selection_starts_with_paste_and_find() {
    assert_eq!(
        terminal_context_menu_entries(false, true, true),
        vec![
            T::Paste,
            T::Find,
            T::Separator,
            T::ClearScreen,
            T::ClearAll,
            T::Separator,
            T::RecordingLogs,
            T::Separator,
            T::SelectAll,
        ]
    );
}

#[test]
fn recording_submenu_follows_the_session_status() {
    assert_eq!(
        terminal_recording_menu_entries(true),
        vec![
            R::Stop,
            R::OpenLog,
            R::ShowInFolder,
            R::Separator,
            R::SaveTranscript,
            R::RecordingSettings,
        ]
    );
    assert_eq!(
        terminal_recording_menu_entries(false),
        vec![
            R::StartTranscriptLog,
            R::StartRawLog,
            R::Separator,
            R::SaveTranscript,
            R::RecordingSettings,
        ]
    );
}

fn action(name: &str, enabled: bool) -> AiCustomAction {
    AiCustomAction {
        id: name.to_string(),
        name: name.to_string(),
        prompt: format!("{name} this"),
        enabled,
    }
}

#[test]
fn ai_submenu_shows_enabled_named_actions_only() {
    let actions = vec![
        action("Explain", true),
        action("Hidden", false),
        action("  ", true),
        action("Fix", true),
    ];
    assert_eq!(terminal_ai_menu_actions(true, &actions), vec![0, 3]);
    assert_eq!(terminal_ai_menu_actions(false, &actions), Vec::<usize>::new());
}

#[test]
fn search_submenu_shows_engines_marked_for_the_menu() {
    let engine = |name: &str, show: bool| SearchEngineConfig {
        name: name.to_string(),
        url_template: String::new(),
        icon: None,
        show_in_menu: show,
    };
    let engines = vec![engine("Visible", true), engine("Hidden", false), engine("Also", true)];
    assert_eq!(terminal_search_menu_engines(&engines), vec![0, 2]);
}

#[test]
fn translators_are_named_by_their_text_keys() {
    assert_eq!(translation_label_key("google"), "translation.google");
    assert_eq!(translation_label_key("ali"), "translation.ali");
    assert_eq!(translation_label_key("youdao"), "translation.youdao");
    assert_eq!(translation_label_key("other"), "translation.provider");
}
