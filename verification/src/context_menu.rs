//! What the terminal's context menu holds, in which order: the entries for
//! a selection or none, the recording submenu for a session that records
//! or not, and which AI actions, search engines and translators appear.
//! The view turns each entry into a labelled, clickable menu item.

use vstd::prelude::*;

use crate::settings::links::SearchEngineConfig;
use crate::text::{spec_trim, str_eq, trim};

verus! {

/// An entry of the terminal's context menu.
#[derive(Clone, Copy, Debug, PartialEq, Eq, Structural)]
pub enum TerminalMenuEntry {
    Copy,
    Find,
    SaveAsQuickCommand,
    SearchOnline,
    Ai,
    Translate,
    Separator,
    Paste,
    PasteSelectedText,
    ClearScreen,
    ClearAll,
    RecordingLogs,
    SelectAll,
}

/// The terminal's context menu: with a selection, what can be done with
/// it (the AI and translation submenus only when they have items), then
/// pasting; without one, pasting and searching; then, always, clearing,
/// the recording submenu and select-all, in groups.
pub open spec fn spec_terminal_menu(has_selection: bool, has_ai: bool, has_translation: bool) -> Seq<
    TerminalMenuEntry,
> {
    let head = if has_selection {
        seq![
            TerminalMenuEntry::Copy,
            TerminalMenuEntry::Find,
            TerminalMenuEntry::SaveAsQuickCommand,
            TerminalMenuEntry::SearchOnline,
        ] + (if has_ai {
            seq![TerminalMenuEntry::Ai]
        } else {
            seq![]
        }) + (if has_translation {
            seq![TerminalMenuEntry::Translate]
        } else {
            seq![]
        }) + seq![
            TerminalMenuEntry::Separator,
            TerminalMenuEntry::Paste,
            TerminalMenuEntry::PasteSelectedText,
        ]
    } else {
        seq![TerminalMenuEntry::Paste, TerminalMenuEntry::Find]
    };
    head + seq![
        TerminalMenuEntry::Separator,
        TerminalMenuEntry::ClearScreen,
        TerminalMenuEntry::ClearAll,
        TerminalMenuEntry::Separator,
        TerminalMenuEntry::RecordingLogs,
        TerminalMenuEntry::Separator,
        TerminalMenuEntry::SelectAll,
    ]
}

/// The terminal's context menu (see `spec_terminal_menu`).
pub fn terminal_context_menu_entries(has_selection: bool, has_ai: bool, has_translation: bool) -> (r:
    Vec<TerminalMenuEntry>)
    ensures
        r@ == spec_terminal_menu(has_selection, has_ai, has_translation),
{
    let mut items: Vec<TerminalMenuEntry> = Vec::new();
    if has_selection {
        items.push(TerminalMenuEntry::Copy);
        items.push(TerminalMenuEntry::Find);
        items.push(TerminalMenuEntry::SaveAsQuickCommand);
        items.push(TerminalMenuEntry::SearchOnline);
        if has_ai {
            items.push(TerminalMenuEntry::Ai);
        }
        if has_translation {
            items.push(TerminalMenuEntry::Translate);
        }
        items.push(TerminalMenuEntry::Separator);
        items.push(TerminalMenuEntry::Paste);
        items.push(TerminalMenuEntry::PasteSelectedText);
    } else {
        items.push(TerminalMenuEntry::Paste);
        items.push(TerminalMenuEntry::Find);
    }
    items.push(TerminalMenuEntry::Separator);
    items.push(TerminalMenuEntry::ClearScreen);
    items.push(TerminalMenuEntry::ClearAll);
    items.push(TerminalMenuEntry::Separator);
    items.push(TerminalMenuEntry::RecordingLogs);
    items.push(TerminalMenuEntry::Separator);
    items.push(TerminalMenuEntry::SelectAll);
    proof {
        assert(items@ =~= spec_terminal_menu(has_selection, has_ai, has_translation));
    }
    items
}

/// An entry of the recording submenu.
#[derive(Clone, Copy, Debug, PartialEq, Eq, Structural)]
pub enum RecordingMenuEntry {
    Stop,
    OpenLog,
    ShowInFolder,
    StartTranscriptLog,
    StartRawLog,
    Separator,
    SaveTranscript,
    RecordingSettings,
}

/// The recording submenu: a session that records (or is starting to) can
/// stop and open or reveal its log, even before the log has a path; one
/// that does not can start a transcript or a raw log; both can save the
/// text and open the settings.
pub open spec fn spec_recording_menu(recording: bool) -> Seq<RecordingMenuEntry> {
    (if recording {
        seq![
            RecordingMenuEntry::Stop,
            RecordingMenuEntry::OpenLog,
            RecordingMenuEntry::ShowInFolder,
        ]
    } else {
        seq![RecordingMenuEntry::StartTranscriptLog, RecordingMenuEntry::StartRawLog]
    }) + seq![
        RecordingMenuEntry::Separator,
        RecordingMenuEntry::SaveTranscript,
        RecordingMenuEntry::RecordingSettings,
    ]
}

/// The recording submenu for a session with (`recording`) or without a
/// recording status (see `spec_recording_menu`).
pub fn terminal_recording_menu_entries(recording: bool) -> (r: Vec<RecordingMenuEntry>)
    ensures
        r@ == spec_recording_menu(recording),
{
    let mut items: Vec<RecordingMenuEntry> = Vec::new();
    if recording {
        items.push(RecordingMenuEntry::Stop);
        items.push(RecordingMenuEntry::OpenLog);
        items.push(RecordingMenuEntry::ShowInFolder);
    } else {
        items.push(RecordingMenuEntry::StartTranscriptLog);
        items.push(RecordingMenuEntry::StartRawLog);
    }
    items.push(RecordingMenuEntry::Separator);
    items.push(RecordingMenuEntry::SaveTranscript);
    items.push(RecordingMenuEntry::RecordingSettings);
    proof {
        assert(items@ =~= spec_recording_menu(recording));
    }
    items
}

/// A user-defined AI action for selected terminal text.
pub struct AiCustomAction {
    pub id: String,
    pub name: String,
    pub prompt: String,
    pub enabled: bool,
}

/// Whether an AI action shows in the menu: switched on, with a name that
/// is not blank.
pub open spec fn spec_ai_action_shown(enabled: bool, name: Seq<char>) -> bool {
    enabled && spec_trim(name).len() > 0
}

/// The indices below `n` that satisfy `p`, in order.
pub open spec fn spec_positions(n: int, p: spec_fn(int) -> bool) -> Seq<int>
    decreases n,
{
    if n <= 0 {
        seq![]
    } else {
        spec_positions(n - 1, p) + if p(n - 1) {
            seq![n - 1]
        } else {
            seq![]
        }
    }
}

/// Positions as mathematical integers.
pub open spec fn positions_view(v: Seq<usize>) -> Seq<int> {
    v.map_values(|i: usize| i as int)
}

/// Whether `name` is empty or all white space.
fn is_blank(name: &str) -> (r: bool)
    ensures
        r == (spec_trim(name@).len() == 0),
{
    let trimmed = trim(name);
    trimmed.as_str().is_empty()
}

/// The positions of the AI actions that the menu shows: none while AI is
/// switched off.
pub fn terminal_ai_menu_actions(ai_enabled: bool, actions: &Vec<AiCustomAction>) -> (r: Vec<usize>)
    ensures
        positions_view(r@) == (if ai_enabled {
            spec_positions(
                actions@.len() as int,
                |i: int| spec_ai_action_shown(actions@[i].enabled, actions@[i].name@),
            )
        } else {
            seq![]
        }),
{
    let mut shown: Vec<usize> = Vec::new();
    if !ai_enabled {
        proof {
            assert(positions_view(shown@) =~= Seq::<int>::empty());
        }
        return shown;
    }
    let ghost p = |i: int| spec_ai_action_shown(actions@[i].enabled, actions@[i].name@);
    let mut i: usize = 0;
    proof {
        assert(positions_view(shown@) =~= spec_positions(0, p));
    }
    while i < actions.len()
        invariant
            i <= actions@.len(),
            p == (|i: int| spec_ai_action_shown(actions@[i].enabled, actions@[i].name@)),
            positions_view(shown@) == spec_positions(i as int, p),
        decreases actions@.len() - i,
    {
        let ghost before = shown@;
        let action = &actions[i];
        if action.enabled && !is_blank(action.name.as_str()) {
            shown.push(i);
        }
        proof {
            assert(positions_view(shown@) =~= spec_positions(i + 1, p));
        }
        i += 1;
    }
    shown
}

/// The positions of the search engines that the menu shows.
pub fn terminal_search_menu_engines(engines: &Vec<SearchEngineConfig>) -> (r: Vec<usize>)
    ensures
        positions_view(r@) == spec_positions(
            engines@.len() as int,
            |i: int| engines@[i].show_in_menu,
        ),
{
    let mut shown: Vec<usize> = Vec::new();
    let ghost p = |i: int| engines@[i].show_in_menu;
    let mut i: usize = 0;
    proof {
        assert(positions_view(shown@) =~= spec_positions(0, p));
    }
    while i < engines.len()
        invariant
            i <= engines@.len(),
            p == (|i: int| engines@[i].show_in_menu),
            positions_view(shown@) == spec_positions(i as int, p),
        decreases engines@.len() - i,
    {
        if engines[i].show_in_menu {
            shown.push(i);
        }
        proof {
            assert(positions_view(shown@) =~= spec_positions(i + 1, p));
        }
        i += 1;
    }
    shown
}

/// The text key that names a translator in the menu.
pub open spec fn spec_translation_label_key(id: Seq<char>) -> Seq<char> {
    if id == "google"@ {
        "translation.google"@
    } else if id == "microsoft"@ {
        "translation.microsoft"@
    } else if id == "deepl"@ {
        "translation.deepl"@
    } else if id == "baidu"@ {
        "translation.baidu"@
    } else if id == "ali"@ {
        "translation.ali"@
    } else if id == "youdao"@ {
        "translation.youdao"@
    } else {
        "translation.provider"@
    }
}

/// The text key that names a translator in the menu.
pub fn translation_label_key(id: &str) -> (r: &'static str)
    ensures
        r@ == spec_translation_label_key(id@),
{
    if str_eq(id, "google") {
        "translation.google"
    } else if str_eq(id, "microsoft") {
        "translation.microsoft"
    } else if str_eq(id, "deepl") {
        "translation.deepl"
    } else if str_eq(id, "baidu") {
        "translation.baidu"
    } else if str_eq(id, "ali") {
        "translation.ali"
    } else if str_eq(id, "youdao") {
        "translation.youdao"
    } else {
        "translation.provider"
    }
}

} // verus!
