//! The interaction settings read back: each value that the save writes is found at
//! its place in the settings document afterwards.

use vstd::prelude::*;

use crate::settings::json::{spec_json_path, spec_keys, JsonModel, JsonNumber};

use crate::settings::normalize::{spec_interaction_encoding, spec_tab_mouse_action};

use crate::settings::save::{spec_max_chars, spec_min_chars, spec_saved_interaction, spec_saved_interaction_part1, spec_saved_interaction_part2};
use crate::settings::summary::{spec_clamp, AppSettingsSummary};
use crate::settings::write::{lemma_set_path_frame, lemma_set_path_then_read, spec_set_path};

verus! {

#[verifier::spinoff_prover]
proof fn lemma_saved_interaction_keeps_interaction_copy_on_select(d: JsonModel, s: AppSettingsSummary)
    ensures
        spec_json_path(spec_saved_interaction(d, s), spec_keys(seq!["interaction", "copy_on_select"])) == Some(JsonModel::Bool(s.interaction_copy_on_select)),
{
    reveal_strlit("allow_osc52_clipboard_write");
    reveal_strlit("alt_as_meta");
    reveal_strlit("command_suggestion_max_chars");
    reveal_strlit("command_suggestion_min_chars");
    reveal_strlit("command_suggestions_enabled");
    reveal_strlit("copy_on_select");
    reveal_strlit("default_encoding");
    reveal_strlit("duplicate_session_command_delay_ms");
    reveal_strlit("interaction");
    reveal_strlit("mac_ime_compatibility");
    reveal_strlit("right_click_paste");
    reveal_strlit("tab_double_click_action");
    reveal_strlit("tab_middle_click_action");
    reveal_strlit("tab_right_click_action");
    reveal_strlit("terminal_zoom_enabled");
    reveal_strlit("word_separators");
    let d1 = spec_set_path(d, spec_keys(seq!["interaction", "copy_on_select"]), JsonModel::Bool(s.interaction_copy_on_select));
    let d2 = spec_set_path(d1, spec_keys(seq!["interaction", "allow_osc52_clipboard_write"]), JsonModel::Bool(s.interaction_allow_osc52_clipboard_write));
    let d3 = spec_set_path(d2, spec_keys(seq!["interaction", "right_click_paste"]), JsonModel::Bool(s.interaction_right_click_paste));
    let d4 = spec_set_path(d3, spec_keys(seq!["interaction", "terminal_zoom_enabled"]), JsonModel::Bool(s.interaction_terminal_zoom_enabled));
    let d5 = spec_set_path(d4, spec_keys(seq!["interaction", "command_suggestions_enabled"]), JsonModel::Bool(s.interaction_command_suggestions_enabled));
    let d6 = spec_set_path(d5, spec_keys(seq!["interaction", "command_suggestion_min_chars"]), JsonModel::Number(JsonNumber::PosInt(spec_min_chars(s) as u64)));
    let d7 = spec_set_path(d6, spec_keys(seq!["interaction", "command_suggestion_max_chars"]), JsonModel::Number(JsonNumber::PosInt(spec_max_chars(s) as u64)));
    let d8 = spec_set_path(d7, spec_keys(seq!["interaction", "word_separators"]), JsonModel::Str(s.interaction_word_separators@, None));
    let d9 = spec_set_path(d8, spec_keys(seq!["interaction", "duplicate_session_command_delay_ms"]), JsonModel::Number(JsonNumber::PosInt(spec_clamp(s.interaction_duplicate_session_command_delay_ms as int, 0, 60000) as u64)));
    let d10 = spec_set_path(d9, spec_keys(seq!["interaction", "alt_as_meta"]), JsonModel::Bool(s.interaction_alt_as_meta));
    let d11 = spec_set_path(d10, spec_keys(seq!["interaction", "mac_ime_compatibility"]), JsonModel::Bool(s.interaction_mac_ime_compatibility));
    let d12 = spec_set_path(d11, spec_keys(seq!["interaction", "tab_double_click_action"]), JsonModel::Str(spec_tab_mouse_action(s.interaction_tab_double_click_action@), None));
    let d13 = spec_set_path(d12, spec_keys(seq!["interaction", "tab_middle_click_action"]), JsonModel::Str(spec_tab_mouse_action(s.interaction_tab_middle_click_action@), None));
    let d14 = spec_set_path(d13, spec_keys(seq!["interaction", "tab_right_click_action"]), JsonModel::Str(spec_tab_mouse_action(s.interaction_tab_right_click_action@), None));
    let d15 = spec_set_path(d14, spec_keys(seq!["interaction", "default_encoding"]), JsonModel::Str(spec_interaction_encoding(s.interaction_default_encoding@), None));
    assert(spec_saved_interaction_part1(d, s) == d8);
    assert(spec_saved_interaction_part2(d8, s) == d15);
    assert(spec_saved_interaction(d, s) == d15);
    lemma_set_path_then_read(d, spec_keys(seq!["interaction", "copy_on_select"]), JsonModel::Bool(s.interaction_copy_on_select));
    assert("allow_osc52_clipboard_write"@.len() != "copy_on_select"@.len());
    assert(spec_keys(seq!["interaction", "allow_osc52_clipboard_write"])[1] != spec_keys(seq!["interaction", "copy_on_select"])[1]);
    lemma_set_path_frame(d1, spec_keys(seq!["interaction", "allow_osc52_clipboard_write"]), JsonModel::Bool(s.interaction_allow_osc52_clipboard_write), spec_keys(seq!["interaction", "copy_on_select"]));
    assert("right_click_paste"@.len() != "copy_on_select"@.len());
    assert(spec_keys(seq!["interaction", "right_click_paste"])[1] != spec_keys(seq!["interaction", "copy_on_select"])[1]);
    lemma_set_path_frame(d2, spec_keys(seq!["interaction", "right_click_paste"]), JsonModel::Bool(s.interaction_right_click_paste), spec_keys(seq!["interaction", "copy_on_select"]));
    assert("terminal_zoom_enabled"@.len() != "copy_on_select"@.len());
    assert(spec_keys(seq!["interaction", "terminal_zoom_enabled"])[1] != spec_keys(seq!["interaction", "copy_on_select"])[1]);
    lemma_set_path_frame(d3, spec_keys(seq!["interaction", "terminal_zoom_enabled"]), JsonModel::Bool(s.interaction_terminal_zoom_enabled), spec_keys(seq!["interaction", "copy_on_select"]));
    assert("command_suggestions_enabled"@.len() != "copy_on_select"@.len());
    assert(spec_keys(seq!["interaction", "command_suggestions_enabled"])[1] != spec_keys(seq!["interaction", "copy_on_select"])[1]);
    lemma_set_path_frame(d4, spec_keys(seq!["interaction", "command_suggestions_enabled"]), JsonModel::Bool(s.interaction_command_suggestions_enabled), spec_keys(seq!["interaction", "copy_on_select"]));
    assert("command_suggestion_min_chars"@.len() != "copy_on_select"@.len());
    assert(spec_keys(seq!["interaction", "command_suggestion_min_chars"])[1] != spec_keys(seq!["interaction", "copy_on_select"])[1]);
    lemma_set_path_frame(d5, spec_keys(seq!["interaction", "command_suggestion_min_chars"]), JsonModel::Number(JsonNumber::PosInt(spec_min_chars(s) as u64)), spec_keys(seq!["interaction", "copy_on_select"]));
    assert("command_suggestion_max_chars"@.len() != "copy_on_select"@.len());
    assert(spec_keys(seq!["interaction", "command_suggestion_max_chars"])[1] != spec_keys(seq!["interaction", "copy_on_select"])[1]);
    lemma_set_path_frame(d6, spec_keys(seq!["interaction", "command_suggestion_max_chars"]), JsonModel::Number(JsonNumber::PosInt(spec_max_chars(s) as u64)), spec_keys(seq!["interaction", "copy_on_select"]));
    assert("word_separators"@.len() != "copy_on_select"@.len());
    assert(spec_keys(seq!["interaction", "word_separators"])[1] != spec_keys(seq!["interaction", "copy_on_select"])[1]);
    lemma_set_path_frame(d7, spec_keys(seq!["interaction", "word_separators"]), JsonModel::Str(s.interaction_word_separators@, None), spec_keys(seq!["interaction", "copy_on_select"]));
    assert("duplicate_session_command_delay_ms"@.len() != "copy_on_select"@.len());
    assert(spec_keys(seq!["interaction", "duplicate_session_command_delay_ms"])[1] != spec_keys(seq!["interaction", "copy_on_select"])[1]);
    lemma_set_path_frame(d8, spec_keys(seq!["interaction", "duplicate_session_command_delay_ms"]), JsonModel::Number(JsonNumber::PosInt(spec_clamp(s.interaction_duplicate_session_command_delay_ms as int, 0, 60000) as u64)), spec_keys(seq!["interaction", "copy_on_select"]));
    assert("alt_as_meta"@.len() != "copy_on_select"@.len());
    assert(spec_keys(seq!["interaction", "alt_as_meta"])[1] != spec_keys(seq!["interaction", "copy_on_select"])[1]);
    lemma_set_path_frame(d9, spec_keys(seq!["interaction", "alt_as_meta"]), JsonModel::Bool(s.interaction_alt_as_meta), spec_keys(seq!["interaction", "copy_on_select"]));
    assert("mac_ime_compatibility"@.len() != "copy_on_select"@.len());
    assert(spec_keys(seq!["interaction", "mac_ime_compatibility"])[1] != spec_keys(seq!["interaction", "copy_on_select"])[1]);
    lemma_set_path_frame(d10, spec_keys(seq!["interaction", "mac_ime_compatibility"]), JsonModel::Bool(s.interaction_mac_ime_compatibility), spec_keys(seq!["interaction", "copy_on_select"]));
    assert("tab_double_click_action"@.len() != "copy_on_select"@.len());
    assert(spec_keys(seq!["interaction", "tab_double_click_action"])[1] != spec_keys(seq!["interaction", "copy_on_select"])[1]);
    lemma_set_path_frame(d11, spec_keys(seq!["interaction", "tab_double_click_action"]), JsonModel::Str(spec_tab_mouse_action(s.interaction_tab_double_click_action@), None), spec_keys(seq!["interaction", "copy_on_select"]));
    assert("tab_middle_click_action"@.len() != "copy_on_select"@.len());
    assert(spec_keys(seq!["interaction", "tab_middle_click_action"])[1] != spec_keys(seq!["interaction", "copy_on_select"])[1]);
    lemma_set_path_frame(d12, spec_keys(seq!["interaction", "tab_middle_click_action"]), JsonModel::Str(spec_tab_mouse_action(s.interaction_tab_middle_click_action@), None), spec_keys(seq!["interaction", "copy_on_select"]));
    assert("tab_right_click_action"@.len() != "copy_on_select"@.len());
    assert(spec_keys(seq!["interaction", "tab_right_click_action"])[1] != spec_keys(seq!["interaction", "copy_on_select"])[1]);
    lemma_set_path_frame(d13, spec_keys(seq!["interaction", "tab_right_click_action"]), JsonModel::Str(spec_tab_mouse_action(s.interaction_tab_right_click_action@), None), spec_keys(seq!["interaction", "copy_on_select"]));
    assert("default_encoding"@.len() != "copy_on_select"@.len());
    assert(spec_keys(seq!["interaction", "default_encoding"])[1] != spec_keys(seq!["interaction", "copy_on_select"])[1]);
    lemma_set_path_frame(d14, spec_keys(seq!["interaction", "default_encoding"]), JsonModel::Str(spec_interaction_encoding(s.interaction_default_encoding@), None), spec_keys(seq!["interaction", "copy_on_select"]));
}

#[verifier::spinoff_prover]
proof fn lemma_saved_interaction_keeps_interaction_allow_osc52_clipboard_write(d: JsonModel, s: AppSettingsSummary)
    ensures
        spec_json_path(spec_saved_interaction(d, s), spec_keys(seq!["interaction", "allow_osc52_clipboard_write"])) == Some(JsonModel::Bool(s.interaction_allow_osc52_clipboard_write)),
{
    reveal_strlit("allow_osc52_clipboard_write");
    reveal_strlit("alt_as_meta");
    reveal_strlit("command_suggestion_max_chars");
    reveal_strlit("command_suggestion_min_chars");
    reveal_strlit("command_suggestions_enabled");
    reveal_strlit("default_encoding");
    reveal_strlit("duplicate_session_command_delay_ms");
    reveal_strlit("interaction");
    reveal_strlit("mac_ime_compatibility");
    reveal_strlit("right_click_paste");
    reveal_strlit("tab_double_click_action");
    reveal_strlit("tab_middle_click_action");
    reveal_strlit("tab_right_click_action");
    reveal_strlit("terminal_zoom_enabled");
    reveal_strlit("word_separators");
    let d1 = spec_set_path(d, spec_keys(seq!["interaction", "copy_on_select"]), JsonModel::Bool(s.interaction_copy_on_select));
    let d2 = spec_set_path(d1, spec_keys(seq!["interaction", "allow_osc52_clipboard_write"]), JsonModel::Bool(s.interaction_allow_osc52_clipboard_write));
    let d3 = spec_set_path(d2, spec_keys(seq!["interaction", "right_click_paste"]), JsonModel::Bool(s.interaction_right_click_paste));
    let d4 = spec_set_path(d3, spec_keys(seq!["interaction", "terminal_zoom_enabled"]), JsonModel::Bool(s.interaction_terminal_zoom_enabled));
    let d5 = spec_set_path(d4, spec_keys(seq!["interaction", "command_suggestions_enabled"]), JsonModel::Bool(s.interaction_command_suggestions_enabled));
    let d6 = spec_set_path(d5, spec_keys(seq!["interaction", "command_suggestion_min_chars"]), JsonModel::Number(JsonNumber::PosInt(spec_min_chars(s) as u64)));
    let d7 = spec_set_path(d6, spec_keys(seq!["interaction", "command_suggestion_max_chars"]), JsonModel::Number(JsonNumber::PosInt(spec_max_chars(s) as u64)));
    let d8 = spec_set_path(d7, spec_keys(seq!["interaction", "word_separators"]), JsonModel::Str(s.interaction_word_separators@, None));
    let d9 = spec_set_path(d8, spec_keys(seq!["interaction", "duplicate_session_command_delay_ms"]), JsonModel::Number(JsonNumber::PosInt(spec_clamp(s.interaction_duplicate_session_command_delay_ms as int, 0, 60000) as u64)));
    let d10 = spec_set_path(d9, spec_keys(seq!["interaction", "alt_as_meta"]), JsonModel::Bool(s.interaction_alt_as_meta));
    let d11 = spec_set_path(d10, spec_keys(seq!["interaction", "mac_ime_compatibility"]), JsonModel::Bool(s.interaction_mac_ime_compatibility));
    let d12 = spec_set_path(d11, spec_keys(seq!["interaction", "tab_double_click_action"]), JsonModel::Str(spec_tab_mouse_action(s.interaction_tab_double_click_action@), None));
    let d13 = spec_set_path(d12, spec_keys(seq!["interaction", "tab_middle_click_action"]), JsonModel::Str(spec_tab_mouse_action(s.interaction_tab_middle_click_action@), None));
    let d14 = spec_set_path(d13, spec_keys(seq!["interaction", "tab_right_click_action"]), JsonModel::Str(spec_tab_mouse_action(s.interaction_tab_right_click_action@), None));
    let d15 = spec_set_path(d14, spec_keys(seq!["interaction", "default_encoding"]), JsonModel::Str(spec_interaction_encoding(s.interaction_default_encoding@), None));
    assert(spec_saved_interaction_part1(d, s) == d8);
    assert(spec_saved_interaction_part2(d8, s) == d15);
    assert(spec_saved_interaction(d, s) == d15);
    lemma_set_path_then_read(d1, spec_keys(seq!["interaction", "allow_osc52_clipboard_write"]), JsonModel::Bool(s.interaction_allow_osc52_clipboard_write));
    assert("right_click_paste"@.len() != "allow_osc52_clipboard_write"@.len());
    assert(spec_keys(seq!["interaction", "right_click_paste"])[1] != spec_keys(seq!["interaction", "allow_osc52_clipboard_write"])[1]);
    lemma_set_path_frame(d2, spec_keys(seq!["interaction", "right_click_paste"]), JsonModel::Bool(s.interaction_right_click_paste), spec_keys(seq!["interaction", "allow_osc52_clipboard_write"]));
    assert("terminal_zoom_enabled"@.len() != "allow_osc52_clipboard_write"@.len());
    assert(spec_keys(seq!["interaction", "terminal_zoom_enabled"])[1] != spec_keys(seq!["interaction", "allow_osc52_clipboard_write"])[1]);
    lemma_set_path_frame(d3, spec_keys(seq!["interaction", "terminal_zoom_enabled"]), JsonModel::Bool(s.interaction_terminal_zoom_enabled), spec_keys(seq!["interaction", "allow_osc52_clipboard_write"]));
    assert("command_suggestions_enabled"@[0] != "allow_osc52_clipboard_write"@[0]);
    assert(spec_keys(seq!["interaction", "command_suggestions_enabled"])[1] != spec_keys(seq!["interaction", "allow_osc52_clipboard_write"])[1]);
    lemma_set_path_frame(d4, spec_keys(seq!["interaction", "command_suggestions_enabled"]), JsonModel::Bool(s.interaction_command_suggestions_enabled), spec_keys(seq!["interaction", "allow_osc52_clipboard_write"]));
    assert("command_suggestion_min_chars"@.len() != "allow_osc52_clipboard_write"@.len());
    assert(spec_keys(seq!["interaction", "command_suggestion_min_chars"])[1] != spec_keys(seq!["interaction", "allow_osc52_clipboard_write"])[1]);
    lemma_set_path_frame(d5, spec_keys(seq!["interaction", "command_suggestion_min_chars"]), JsonModel::Number(JsonNumber::PosInt(spec_min_chars(s) as u64)), spec_keys(seq!["interaction", "allow_osc52_clipboard_write"]));
    assert("command_suggestion_max_chars"@.len() != "allow_osc52_clipboard_write"@.len());
    assert(spec_keys(seq!["interaction", "command_suggestion_max_chars"])[1] != spec_keys(seq!["interaction", "allow_osc52_clipboard_write"])[1]);
    lemma_set_path_frame(d6, spec_keys(seq!["interaction", "command_suggestion_max_chars"]), JsonModel::Number(JsonNumber::PosInt(spec_max_chars(s) as u64)), spec_keys(seq!["interaction", "allow_osc52_clipboard_write"]));
    assert("word_separators"@.len() != "allow_osc52_clipboard_write"@.len());
    assert(spec_keys(seq!["interaction", "word_separators"])[1] != spec_keys(seq!["interaction", "allow_osc52_clipboard_write"])[1]);
    lemma_set_path_frame(d7, spec_keys(seq!["interaction", "word_separators"]), JsonModel::Str(s.interaction_word_separators@, None), spec_keys(seq!["interaction", "allow_osc52_clipboard_write"]));
    assert("duplicate_session_command_delay_ms"@.len() != "allow_osc52_clipboard_write"@.len());
    assert(spec_keys(seq!["interaction", "duplicate_session_command_delay_ms"])[1] != spec_keys(seq!["interaction", "allow_osc52_clipboard_write"])[1]);
    lemma_set_path_frame(d8, spec_keys(seq!["interaction", "duplicate_session_command_delay_ms"]), JsonModel::Number(JsonNumber::PosInt(spec_clamp(s.interaction_duplicate_session_command_delay_ms as int, 0, 60000) as u64)), spec_keys(seq!["interaction", "allow_osc52_clipboard_write"]));
    assert("alt_as_meta"@.len() != "allow_osc52_clipboard_write"@.len());
    assert(spec_keys(seq!["interaction", "alt_as_meta"])[1] != spec_keys(seq!["interaction", "allow_osc52_clipboard_write"])[1]);
    lemma_set_path_frame(d9, spec_keys(seq!["interaction", "alt_as_meta"]), JsonModel::Bool(s.interaction_alt_as_meta), spec_keys(seq!["interaction", "allow_osc52_clipboard_write"]));
    assert("mac_ime_compatibility"@.len() != "allow_osc52_clipboard_write"@.len());
    assert(spec_keys(seq!["interaction", "mac_ime_compatibility"])[1] != spec_keys(seq!["interaction", "allow_osc52_clipboard_write"])[1]);
    lemma_set_path_frame(d10, spec_keys(seq!["interaction", "mac_ime_compatibility"]), JsonModel::Bool(s.interaction_mac_ime_compatibility), spec_keys(seq!["interaction", "allow_osc52_clipboard_write"]));
    assert("tab_double_click_action"@.len() != "allow_osc52_clipboard_write"@.len());
    assert(spec_keys(seq!["interaction", "tab_double_click_action"])[1] != spec_keys(seq!["interaction", "allow_osc52_clipboard_write"])[1]);
    lemma_set_path_frame(d11, spec_keys(seq!["interaction", "tab_double_click_action"]), JsonModel::Str(spec_tab_mouse_action(s.interaction_tab_double_click_action@), None), spec_keys(seq!["interaction", "allow_osc52_clipboard_write"]));
    assert("tab_middle_click_action"@.len() != "allow_osc52_clipboard_write"@.len());
    assert(spec_keys(seq!["interaction", "tab_middle_click_action"])[1] != spec_keys(seq!["interaction", "allow_osc52_clipboard_write"])[1]);
    lemma_set_path_frame(d12, spec_keys(seq!["interaction", "tab_middle_click_action"]), JsonModel::Str(spec_tab_mouse_action(s.interaction_tab_middle_click_action@), None), spec_keys(seq!["interaction", "allow_osc52_clipboard_write"]));
    assert("tab_right_click_action"@.len() != "allow_osc52_clipboard_write"@.len());
    assert(spec_keys(seq!["interaction", "tab_right_click_action"])[1] != spec_keys(seq!["interaction", "allow_osc52_clipboard_write"])[1]);
    lemma_set_path_frame(d13, spec_keys(seq!["interaction", "tab_right_click_action"]), JsonModel::Str(spec_tab_mouse_action(s.interaction_tab_right_click_action@), None), spec_keys(seq!["interaction", "allow_osc52_clipboard_write"]));
    assert("default_encoding"@.len() != "allow_osc52_clipboard_write"@.len());
    assert(spec_keys(seq!["interaction", "default_encoding"])[1] != spec_keys(seq!["interaction", "allow_osc52_clipboard_write"])[1]);
    lemma_set_path_frame(d14, spec_keys(seq!["interaction", "default_encoding"]), JsonModel::Str(spec_interaction_encoding(s.interaction_default_encoding@), None), spec_keys(seq!["interaction", "allow_osc52_clipboard_write"]));
}

#[verifier::spinoff_prover]
proof fn lemma_saved_interaction_keeps_interaction_right_click_paste(d: JsonModel, s: AppSettingsSummary)
    ensures
        spec_json_path(spec_saved_interaction(d, s), spec_keys(seq!["interaction", "right_click_paste"])) == Some(JsonModel::Bool(s.interaction_right_click_paste)),
{
    reveal_strlit("alt_as_meta");
    reveal_strlit("command_suggestion_max_chars");
    reveal_strlit("command_suggestion_min_chars");
    reveal_strlit("command_suggestions_enabled");
    reveal_strlit("default_encoding");
    reveal_strlit("duplicate_session_command_delay_ms");
    reveal_strlit("interaction");
    reveal_strlit("mac_ime_compatibility");
    reveal_strlit("right_click_paste");
    reveal_strlit("tab_double_click_action");
    reveal_strlit("tab_middle_click_action");
    reveal_strlit("tab_right_click_action");
    reveal_strlit("terminal_zoom_enabled");
    reveal_strlit("word_separators");
    let d1 = spec_set_path(d, spec_keys(seq!["interaction", "copy_on_select"]), JsonModel::Bool(s.interaction_copy_on_select));
    let d2 = spec_set_path(d1, spec_keys(seq!["interaction", "allow_osc52_clipboard_write"]), JsonModel::Bool(s.interaction_allow_osc52_clipboard_write));
    let d3 = spec_set_path(d2, spec_keys(seq!["interaction", "right_click_paste"]), JsonModel::Bool(s.interaction_right_click_paste));
    let d4 = spec_set_path(d3, spec_keys(seq!["interaction", "terminal_zoom_enabled"]), JsonModel::Bool(s.interaction_terminal_zoom_enabled));
    let d5 = spec_set_path(d4, spec_keys(seq!["interaction", "command_suggestions_enabled"]), JsonModel::Bool(s.interaction_command_suggestions_enabled));
    let d6 = spec_set_path(d5, spec_keys(seq!["interaction", "command_suggestion_min_chars"]), JsonModel::Number(JsonNumber::PosInt(spec_min_chars(s) as u64)));
    let d7 = spec_set_path(d6, spec_keys(seq!["interaction", "command_suggestion_max_chars"]), JsonModel::Number(JsonNumber::PosInt(spec_max_chars(s) as u64)));
    let d8 = spec_set_path(d7, spec_keys(seq!["interaction", "word_separators"]), JsonModel::Str(s.interaction_word_separators@, None));
    let d9 = spec_set_path(d8, spec_keys(seq!["interaction", "duplicate_session_command_delay_ms"]), JsonModel::Number(JsonNumber::PosInt(spec_clamp(s.interaction_duplicate_session_command_delay_ms as int, 0, 60000) as u64)));
    let d10 = spec_set_path(d9, spec_keys(seq!["interaction", "alt_as_meta"]), JsonModel::Bool(s.interaction_alt_as_meta));
    let d11 = spec_set_path(d10, spec_keys(seq!["interaction", "mac_ime_compatibility"]), JsonModel::Bool(s.interaction_mac_ime_compatibility));
    let d12 = spec_set_path(d11, spec_keys(seq!["interaction", "tab_double_click_action"]), JsonModel::Str(spec_tab_mouse_action(s.interaction_tab_double_click_action@), None));
    let d13 = spec_set_path(d12, spec_keys(seq!["interaction", "tab_middle_click_action"]), JsonModel::Str(spec_tab_mouse_action(s.interaction_tab_middle_click_action@), None));
    let d14 = spec_set_path(d13, spec_keys(seq!["interaction", "tab_right_click_action"]), JsonModel::Str(spec_tab_mouse_action(s.interaction_tab_right_click_action@), None));
    let d15 = spec_set_path(d14, spec_keys(seq!["interaction", "default_encoding"]), JsonModel::Str(spec_interaction_encoding(s.interaction_default_encoding@), None));
    assert(spec_saved_interaction_part1(d, s) == d8);
    assert(spec_saved_interaction_part2(d8, s) == d15);
    assert(spec_saved_interaction(d, s) == d15);
    lemma_set_path_then_read(d2, spec_keys(seq!["interaction", "right_click_paste"]), JsonModel::Bool(s.interaction_right_click_paste));
    assert("terminal_zoom_enabled"@.len() != "right_click_paste"@.len());
    assert(spec_keys(seq!["interaction", "terminal_zoom_enabled"])[1] != spec_keys(seq!["interaction", "right_click_paste"])[1]);
    lemma_set_path_frame(d3, spec_keys(seq!["interaction", "terminal_zoom_enabled"]), JsonModel::Bool(s.interaction_terminal_zoom_enabled), spec_keys(seq!["interaction", "right_click_paste"]));
    assert("command_suggestions_enabled"@.len() != "right_click_paste"@.len());
    assert(spec_keys(seq!["interaction", "command_suggestions_enabled"])[1] != spec_keys(seq!["interaction", "right_click_paste"])[1]);
    lemma_set_path_frame(d4, spec_keys(seq!["interaction", "command_suggestions_enabled"]), JsonModel::Bool(s.interaction_command_suggestions_enabled), spec_keys(seq!["interaction", "right_click_paste"]));
    assert("command_suggestion_min_chars"@.len() != "right_click_paste"@.len());
    assert(spec_keys(seq!["interaction", "command_suggestion_min_chars"])[1] != spec_keys(seq!["interaction", "right_click_paste"])[1]);
    lemma_set_path_frame(d5, spec_keys(seq!["interaction", "command_suggestion_min_chars"]), JsonModel::Number(JsonNumber::PosInt(spec_min_chars(s) as u64)), spec_keys(seq!["interaction", "right_click_paste"]));
    assert("command_suggestion_max_chars"@.len() != "right_click_paste"@.len());
    assert(spec_keys(seq!["interaction", "command_suggestion_max_chars"])[1] != spec_keys(seq!["interaction", "right_click_paste"])[1]);
    lemma_set_path_frame(d6, spec_keys(seq!["interaction", "command_suggestion_max_chars"]), JsonModel::Number(JsonNumber::PosInt(spec_max_chars(s) as u64)), spec_keys(seq!["interaction", "right_click_paste"]));
    assert("word_separators"@.len() != "right_click_paste"@.len());
    assert(spec_keys(seq!["interaction", "word_separators"])[1] != spec_keys(seq!["interaction", "right_click_paste"])[1]);
    lemma_set_path_frame(d7, spec_keys(seq!["interaction", "word_separators"]), JsonModel::Str(s.interaction_word_separators@, None), spec_keys(seq!["interaction", "right_click_paste"]));
    assert("duplicate_session_command_delay_ms"@.len() != "right_click_paste"@.len());
    assert(spec_keys(seq!["interaction", "duplicate_session_command_delay_ms"])[1] != spec_keys(seq!["interaction", "right_click_paste"])[1]);
    lemma_set_path_frame(d8, spec_keys(seq!["interaction", "duplicate_session_command_delay_ms"]), JsonModel::Number(JsonNumber::PosInt(spec_clamp(s.interaction_duplicate_session_command_delay_ms as int, 0, 60000) as u64)), spec_keys(seq!["interaction", "right_click_paste"]));
    assert("alt_as_meta"@.len() != "right_click_paste"@.len());
    assert(spec_keys(seq!["interaction", "alt_as_meta"])[1] != spec_keys(seq!["interaction", "right_click_paste"])[1]);
    lemma_set_path_frame(d9, spec_keys(seq!["interaction", "alt_as_meta"]), JsonModel::Bool(s.interaction_alt_as_meta), spec_keys(seq!["interaction", "right_click_paste"]));
    assert("mac_ime_compatibility"@.len() != "right_click_paste"@.len());
    assert(spec_keys(seq!["interaction", "mac_ime_compatibility"])[1] != spec_keys(seq!["interaction", "right_click_paste"])[1]);
    lemma_set_path_frame(d10, spec_keys(seq!["interaction", "mac_ime_compatibility"]), JsonModel::Bool(s.interaction_mac_ime_compatibility), spec_keys(seq!["interaction", "right_click_paste"]));
    assert("tab_double_click_action"@.len() != "right_click_paste"@.len());
    assert(spec_keys(seq!["interaction", "tab_double_click_action"])[1] != spec_keys(seq!["interaction", "right_click_paste"])[1]);
    lemma_set_path_frame(d11, spec_keys(seq!["interaction", "tab_double_click_action"]), JsonModel::Str(spec_tab_mouse_action(s.interaction_tab_double_click_action@), None), spec_keys(seq!["interaction", "right_click_paste"]));
    assert("tab_middle_click_action"@.len() != "right_click_paste"@.len());
    assert(spec_keys(seq!["interaction", "tab_middle_click_action"])[1] != spec_keys(seq!["interaction", "right_click_paste"])[1]);
    lemma_set_path_frame(d12, spec_keys(seq!["interaction", "tab_middle_click_action"]), JsonModel::Str(spec_tab_mouse_action(s.interaction_tab_middle_click_action@), None), spec_keys(seq!["interaction", "right_click_paste"]));
    assert("tab_right_click_action"@.len() != "right_click_paste"@.len());
    assert(spec_keys(seq!["interaction", "tab_right_click_action"])[1] != spec_keys(seq!["interaction", "right_click_paste"])[1]);
    lemma_set_path_frame(d13, spec_keys(seq!["interaction", "tab_right_click_action"]), JsonModel::Str(spec_tab_mouse_action(s.interaction_tab_right_click_action@), None), spec_keys(seq!["interaction", "right_click_paste"]));
    assert("default_encoding"@.len() != "right_click_paste"@.len());
    assert(spec_keys(seq!["interaction", "default_encoding"])[1] != spec_keys(seq!["interaction", "right_click_paste"])[1]);
    lemma_set_path_frame(d14, spec_keys(seq!["interaction", "default_encoding"]), JsonModel::Str(spec_interaction_encoding(s.interaction_default_encoding@), None), spec_keys(seq!["interaction", "right_click_paste"]));
}

#[verifier::spinoff_prover]
proof fn lemma_saved_interaction_keeps_interaction_terminal_zoom_enabled(d: JsonModel, s: AppSettingsSummary)
    ensures
        spec_json_path(spec_saved_interaction(d, s), spec_keys(seq!["interaction", "terminal_zoom_enabled"])) == Some(JsonModel::Bool(s.interaction_terminal_zoom_enabled)),
{
    reveal_strlit("alt_as_meta");
    reveal_strlit("command_suggestion_max_chars");
    reveal_strlit("command_suggestion_min_chars");
    reveal_strlit("command_suggestions_enabled");
    reveal_strlit("default_encoding");
    reveal_strlit("duplicate_session_command_delay_ms");
    reveal_strlit("interaction");
    reveal_strlit("mac_ime_compatibility");
    reveal_strlit("tab_double_click_action");
    reveal_strlit("tab_middle_click_action");
    reveal_strlit("tab_right_click_action");
    reveal_strlit("terminal_zoom_enabled");
    reveal_strlit("word_separators");
    let d1 = spec_set_path(d, spec_keys(seq!["interaction", "copy_on_select"]), JsonModel::Bool(s.interaction_copy_on_select));
    let d2 = spec_set_path(d1, spec_keys(seq!["interaction", "allow_osc52_clipboard_write"]), JsonModel::Bool(s.interaction_allow_osc52_clipboard_write));
    let d3 = spec_set_path(d2, spec_keys(seq!["interaction", "right_click_paste"]), JsonModel::Bool(s.interaction_right_click_paste));
    let d4 = spec_set_path(d3, spec_keys(seq!["interaction", "terminal_zoom_enabled"]), JsonModel::Bool(s.interaction_terminal_zoom_enabled));
    let d5 = spec_set_path(d4, spec_keys(seq!["interaction", "command_suggestions_enabled"]), JsonModel::Bool(s.interaction_command_suggestions_enabled));
    let d6 = spec_set_path(d5, spec_keys(seq!["interaction", "command_suggestion_min_chars"]), JsonModel::Number(JsonNumber::PosInt(spec_min_chars(s) as u64)));
    let d7 = spec_set_path(d6, spec_keys(seq!["interaction", "command_suggestion_max_chars"]), JsonModel::Number(JsonNumber::PosInt(spec_max_chars(s) as u64)));
    let d8 = spec_set_path(d7, spec_keys(seq!["interaction", "word_separators"]), JsonModel::Str(s.interaction_word_separators@, None));
    let d9 = spec_set_path(d8, spec_keys(seq!["interaction", "duplicate_session_command_delay_ms"]), JsonModel::Number(JsonNumber::PosInt(spec_clamp(s.interaction_duplicate_session_command_delay_ms as int, 0, 60000) as u64)));
    let d10 = spec_set_path(d9, spec_keys(seq!["interaction", "alt_as_meta"]), JsonModel::Bool(s.interaction_alt_as_meta));
    let d11 = spec_set_path(d10, spec_keys(seq!["interaction", "mac_ime_compatibility"]), JsonModel::Bool(s.interaction_mac_ime_compatibility));
    let d12 = spec_set_path(d11, spec_keys(seq!["interaction", "tab_double_click_action"]), JsonModel::Str(spec_tab_mouse_action(s.interaction_tab_double_click_action@), None));
    let d13 = spec_set_path(d12, spec_keys(seq!["interaction", "tab_middle_click_action"]), JsonModel::Str(spec_tab_mouse_action(s.interaction_tab_middle_click_action@), None));
    let d14 = spec_set_path(d13, spec_keys(seq!["interaction", "tab_right_click_action"]), JsonModel::Str(spec_tab_mouse_action(s.interaction_tab_right_click_action@), None));
    let d15 = spec_set_path(d14, spec_keys(seq!["interaction", "default_encoding"]), JsonModel::Str(spec_interaction_encoding(s.interaction_default_encoding@), None));
    assert(spec_saved_interaction_part1(d, s) == d8);
    assert(spec_saved_interaction_part2(d8, s) == d15);
    assert(spec_saved_interaction(d, s) == d15);
    lemma_set_path_then_read(d3, spec_keys(seq!["interaction", "terminal_zoom_enabled"]), JsonModel::Bool(s.interaction_terminal_zoom_enabled));
    assert("command_suggestions_enabled"@.len() != "terminal_zoom_enabled"@.len());
    assert(spec_keys(seq!["interaction", "command_suggestions_enabled"])[1] != spec_keys(seq!["interaction", "terminal_zoom_enabled"])[1]);
    lemma_set_path_frame(d4, spec_keys(seq!["interaction", "command_suggestions_enabled"]), JsonModel::Bool(s.interaction_command_suggestions_enabled), spec_keys(seq!["interaction", "terminal_zoom_enabled"]));
    assert("command_suggestion_min_chars"@.len() != "terminal_zoom_enabled"@.len());
    assert(spec_keys(seq!["interaction", "command_suggestion_min_chars"])[1] != spec_keys(seq!["interaction", "terminal_zoom_enabled"])[1]);
    lemma_set_path_frame(d5, spec_keys(seq!["interaction", "command_suggestion_min_chars"]), JsonModel::Number(JsonNumber::PosInt(spec_min_chars(s) as u64)), spec_keys(seq!["interaction", "terminal_zoom_enabled"]));
    assert("command_suggestion_max_chars"@.len() != "terminal_zoom_enabled"@.len());
    assert(spec_keys(seq!["interaction", "command_suggestion_max_chars"])[1] != spec_keys(seq!["interaction", "terminal_zoom_enabled"])[1]);
    lemma_set_path_frame(d6, spec_keys(seq!["interaction", "command_suggestion_max_chars"]), JsonModel::Number(JsonNumber::PosInt(spec_max_chars(s) as u64)), spec_keys(seq!["interaction", "terminal_zoom_enabled"]));
    assert("word_separators"@.len() != "terminal_zoom_enabled"@.len());
    assert(spec_keys(seq!["interaction", "word_separators"])[1] != spec_keys(seq!["interaction", "terminal_zoom_enabled"])[1]);
    lemma_set_path_frame(d7, spec_keys(seq!["interaction", "word_separators"]), JsonModel::Str(s.interaction_word_separators@, None), spec_keys(seq!["interaction", "terminal_zoom_enabled"]));
    assert("duplicate_session_command_delay_ms"@.len() != "terminal_zoom_enabled"@.len());
    assert(spec_keys(seq!["interaction", "duplicate_session_command_delay_ms"])[1] != spec_keys(seq!["interaction", "terminal_zoom_enabled"])[1]);
    lemma_set_path_frame(d8, spec_keys(seq!["interaction", "duplicate_session_command_delay_ms"]), JsonModel::Number(JsonNumber::PosInt(spec_clamp(s.interaction_duplicate_session_command_delay_ms as int, 0, 60000) as u64)), spec_keys(seq!["interaction", "terminal_zoom_enabled"]));
    assert("alt_as_meta"@.len() != "terminal_zoom_enabled"@.len());
    assert(spec_keys(seq!["interaction", "alt_as_meta"])[1] != spec_keys(seq!["interaction", "terminal_zoom_enabled"])[1]);
    lemma_set_path_frame(d9, spec_keys(seq!["interaction", "alt_as_meta"]), JsonModel::Bool(s.interaction_alt_as_meta), spec_keys(seq!["interaction", "terminal_zoom_enabled"]));
    assert("mac_ime_compatibility"@[0] != "terminal_zoom_enabled"@[0]);
    assert(spec_keys(seq!["interaction", "mac_ime_compatibility"])[1] != spec_keys(seq!["interaction", "terminal_zoom_enabled"])[1]);
    lemma_set_path_frame(d10, spec_keys(seq!["interaction", "mac_ime_compatibility"]), JsonModel::Bool(s.interaction_mac_ime_compatibility), spec_keys(seq!["interaction", "terminal_zoom_enabled"]));
    assert("tab_double_click_action"@.len() != "terminal_zoom_enabled"@.len());
    assert(spec_keys(seq!["interaction", "tab_double_click_action"])[1] != spec_keys(seq!["interaction", "terminal_zoom_enabled"])[1]);
    lemma_set_path_frame(d11, spec_keys(seq!["interaction", "tab_double_click_action"]), JsonModel::Str(spec_tab_mouse_action(s.interaction_tab_double_click_action@), None), spec_keys(seq!["interaction", "terminal_zoom_enabled"]));
    assert("tab_middle_click_action"@.len() != "terminal_zoom_enabled"@.len());
    assert(spec_keys(seq!["interaction", "tab_middle_click_action"])[1] != spec_keys(seq!["interaction", "terminal_zoom_enabled"])[1]);
    lemma_set_path_frame(d12, spec_keys(seq!["interaction", "tab_middle_click_action"]), JsonModel::Str(spec_tab_mouse_action(s.interaction_tab_middle_click_action@), None), spec_keys(seq!["interaction", "terminal_zoom_enabled"]));
    assert("tab_right_click_action"@.len() != "terminal_zoom_enabled"@.len());
    assert(spec_keys(seq!["interaction", "tab_right_click_action"])[1] != spec_keys(seq!["interaction", "terminal_zoom_enabled"])[1]);
    lemma_set_path_frame(d13, spec_keys(seq!["interaction", "tab_right_click_action"]), JsonModel::Str(spec_tab_mouse_action(s.interaction_tab_right_click_action@), None), spec_keys(seq!["interaction", "terminal_zoom_enabled"]));
    assert("default_encoding"@.len() != "terminal_zoom_enabled"@.len());
    assert(spec_keys(seq!["interaction", "default_encoding"])[1] != spec_keys(seq!["interaction", "terminal_zoom_enabled"])[1]);
    lemma_set_path_frame(d14, spec_keys(seq!["interaction", "default_encoding"]), JsonModel::Str(spec_interaction_encoding(s.interaction_default_encoding@), None), spec_keys(seq!["interaction", "terminal_zoom_enabled"]));
}

#[verifier::spinoff_prover]
proof fn lemma_saved_interaction_keeps_interaction_command_suggestions_enabled(d: JsonModel, s: AppSettingsSummary)
    ensures
        spec_json_path(spec_saved_interaction(d, s), spec_keys(seq!["interaction", "command_suggestions_enabled"])) == Some(JsonModel::Bool(s.interaction_command_suggestions_enabled)),
{
    reveal_strlit("alt_as_meta");
    reveal_strlit("command_suggestion_max_chars");
    reveal_strlit("command_suggestion_min_chars");
    reveal_strlit("command_suggestions_enabled");
    reveal_strlit("default_encoding");
    reveal_strlit("duplicate_session_command_delay_ms");
    reveal_strlit("interaction");
    reveal_strlit("mac_ime_compatibility");
    reveal_strlit("tab_double_click_action");
    reveal_strlit("tab_middle_click_action");
    reveal_strlit("tab_right_click_action");
    reveal_strlit("word_separators");
    let d1 = spec_set_path(d, spec_keys(seq!["interaction", "copy_on_select"]), JsonModel::Bool(s.interaction_copy_on_select));
    let d2 = spec_set_path(d1, spec_keys(seq!["interaction", "allow_osc52_clipboard_write"]), JsonModel::Bool(s.interaction_allow_osc52_clipboard_write));
    let d3 = spec_set_path(d2, spec_keys(seq!["interaction", "right_click_paste"]), JsonModel::Bool(s.interaction_right_click_paste));
    let d4 = spec_set_path(d3, spec_keys(seq!["interaction", "terminal_zoom_enabled"]), JsonModel::Bool(s.interaction_terminal_zoom_enabled));
    let d5 = spec_set_path(d4, spec_keys(seq!["interaction", "command_suggestions_enabled"]), JsonModel::Bool(s.interaction_command_suggestions_enabled));
    let d6 = spec_set_path(d5, spec_keys(seq!["interaction", "command_suggestion_min_chars"]), JsonModel::Number(JsonNumber::PosInt(spec_min_chars(s) as u64)));
    let d7 = spec_set_path(d6, spec_keys(seq!["interaction", "command_suggestion_max_chars"]), JsonModel::Number(JsonNumber::PosInt(spec_max_chars(s) as u64)));
    let d8 = spec_set_path(d7, spec_keys(seq!["interaction", "word_separators"]), JsonModel::Str(s.interaction_word_separators@, None));
    let d9 = spec_set_path(d8, spec_keys(seq!["interaction", "duplicate_session_command_delay_ms"]), JsonModel::Number(JsonNumber::PosInt(spec_clamp(s.interaction_duplicate_session_command_delay_ms as int, 0, 60000) as u64)));
    let d10 = spec_set_path(d9, spec_keys(seq!["interaction", "alt_as_meta"]), JsonModel::Bool(s.interaction_alt_as_meta));
    let d11 = spec_set_path(d10, spec_keys(seq!["interaction", "mac_ime_compatibility"]), JsonModel::Bool(s.interaction_mac_ime_compatibility));
    let d12 = spec_set_path(d11, spec_keys(seq!["interaction", "tab_double_click_action"]), JsonModel::Str(spec_tab_mouse_action(s.interaction_tab_double_click_action@), None));
    let d13 = spec_set_path(d12, spec_keys(seq!["interaction", "tab_middle_click_action"]), JsonModel::Str(spec_tab_mouse_action(s.interaction_tab_middle_click_action@), None));
    let d14 = spec_set_path(d13, spec_keys(seq!["interaction", "tab_right_click_action"]), JsonModel::Str(spec_tab_mouse_action(s.interaction_tab_right_click_action@), None));
    let d15 = spec_set_path(d14, spec_keys(seq!["interaction", "default_encoding"]), JsonModel::Str(spec_interaction_encoding(s.interaction_default_encoding@), None));
    assert(spec_saved_interaction_part1(d, s) == d8);
    assert(spec_saved_interaction_part2(d8, s) == d15);
    assert(spec_saved_interaction(d, s) == d15);
    lemma_set_path_then_read(d4, spec_keys(seq!["interaction", "command_suggestions_enabled"]), JsonModel::Bool(s.interaction_command_suggestions_enabled));
    assert("command_suggestion_min_chars"@.len() != "command_suggestions_enabled"@.len());
    assert(spec_keys(seq!["interaction", "command_suggestion_min_chars"])[1] != spec_keys(seq!["interaction", "command_suggestions_enabled"])[1]);
    lemma_set_path_frame(d5, spec_keys(seq!["interaction", "command_suggestion_min_chars"]), JsonModel::Number(JsonNumber::PosInt(spec_min_chars(s) as u64)), spec_keys(seq!["interaction", "command_suggestions_enabled"]));
    assert("command_suggestion_max_chars"@.len() != "command_suggestions_enabled"@.len());
    assert(spec_keys(seq!["interaction", "command_suggestion_max_chars"])[1] != spec_keys(seq!["interaction", "command_suggestions_enabled"])[1]);
    lemma_set_path_frame(d6, spec_keys(seq!["interaction", "command_suggestion_max_chars"]), JsonModel::Number(JsonNumber::PosInt(spec_max_chars(s) as u64)), spec_keys(seq!["interaction", "command_suggestions_enabled"]));
    assert("word_separators"@.len() != "command_suggestions_enabled"@.len());
    assert(spec_keys(seq!["interaction", "word_separators"])[1] != spec_keys(seq!["interaction", "command_suggestions_enabled"])[1]);
    lemma_set_path_frame(d7, spec_keys(seq!["interaction", "word_separators"]), JsonModel::Str(s.interaction_word_separators@, None), spec_keys(seq!["interaction", "command_suggestions_enabled"]));
    assert("duplicate_session_command_delay_ms"@.len() != "command_suggestions_enabled"@.len());
    assert(spec_keys(seq!["interaction", "duplicate_session_command_delay_ms"])[1] != spec_keys(seq!["interaction", "command_suggestions_enabled"])[1]);
    lemma_set_path_frame(d8, spec_keys(seq!["interaction", "duplicate_session_command_delay_ms"]), JsonModel::Number(JsonNumber::PosInt(spec_clamp(s.interaction_duplicate_session_command_delay_ms as int, 0, 60000) as u64)), spec_keys(seq!["interaction", "command_suggestions_enabled"]));
    assert("alt_as_meta"@.len() != "command_suggestions_enabled"@.len());
    assert(spec_keys(seq!["interaction", "alt_as_meta"])[1] != spec_keys(seq!["interaction", "command_suggestions_enabled"])[1]);
    lemma_set_path_frame(d9, spec_keys(seq!["interaction", "alt_as_meta"]), JsonModel::Bool(s.interaction_alt_as_meta), spec_keys(seq!["interaction", "command_suggestions_enabled"]));
    assert("mac_ime_compatibility"@.len() != "command_suggestions_enabled"@.len());
    assert(spec_keys(seq!["interaction", "mac_ime_compatibility"])[1] != spec_keys(seq!["interaction", "command_suggestions_enabled"])[1]);
    lemma_set_path_frame(d10, spec_keys(seq!["interaction", "mac_ime_compatibility"]), JsonModel::Bool(s.interaction_mac_ime_compatibility), spec_keys(seq!["interaction", "command_suggestions_enabled"]));
    assert("tab_double_click_action"@.len() != "command_suggestions_enabled"@.len());
    assert(spec_keys(seq!["interaction", "tab_double_click_action"])[1] != spec_keys(seq!["interaction", "command_suggestions_enabled"])[1]);
    lemma_set_path_frame(d11, spec_keys(seq!["interaction", "tab_double_click_action"]), JsonModel::Str(spec_tab_mouse_action(s.interaction_tab_double_click_action@), None), spec_keys(seq!["interaction", "command_suggestions_enabled"]));
    assert("tab_middle_click_action"@.len() != "command_suggestions_enabled"@.len());
    assert(spec_keys(seq!["interaction", "tab_middle_click_action"])[1] != spec_keys(seq!["interaction", "command_suggestions_enabled"])[1]);
    lemma_set_path_frame(d12, spec_keys(seq!["interaction", "tab_middle_click_action"]), JsonModel::Str(spec_tab_mouse_action(s.interaction_tab_middle_click_action@), None), spec_keys(seq!["interaction", "command_suggestions_enabled"]));
    assert("tab_right_click_action"@.len() != "command_suggestions_enabled"@.len());
    assert(spec_keys(seq!["interaction", "tab_right_click_action"])[1] != spec_keys(seq!["interaction", "command_suggestions_enabled"])[1]);
    lemma_set_path_frame(d13, spec_keys(seq!["interaction", "tab_right_click_action"]), JsonModel::Str(spec_tab_mouse_action(s.interaction_tab_right_click_action@), None), spec_keys(seq!["interaction", "command_suggestions_enabled"]));
    assert("default_encoding"@.len() != "command_suggestions_enabled"@.len());
    assert(spec_keys(seq!["interaction", "default_encoding"])[1] != spec_keys(seq!["interaction", "command_suggestions_enabled"])[1]);
    lemma_set_path_frame(d14, spec_keys(seq!["interaction", "default_encoding"]), JsonModel::Str(spec_interaction_encoding(s.interaction_default_encoding@), None), spec_keys(seq!["interaction", "command_suggestions_enabled"]));
}

#[verifier::spinoff_prover]
proof fn lemma_saved_interaction_keeps_interaction_command_suggestion_min_chars(d: JsonModel, s: AppSettingsSummary)
    ensures
        spec_json_path(spec_saved_interaction(d, s), spec_keys(seq!["interaction", "command_suggestion_min_chars"])) == Some(JsonModel::Number(JsonNumber::PosInt(spec_min_chars(s) as u64))),
{
    reveal_strlit("alt_as_meta");
    reveal_strlit("command_suggestion_max_chars");
    reveal_strlit("command_suggestion_min_chars");
    reveal_strlit("default_encoding");
    reveal_strlit("duplicate_session_command_delay_ms");
    reveal_strlit("interaction");
    reveal_strlit("mac_ime_compatibility");
    reveal_strlit("tab_double_click_action");
    reveal_strlit("tab_middle_click_action");
    reveal_strlit("tab_right_click_action");
    reveal_strlit("word_separators");
    let d1 = spec_set_path(d, spec_keys(seq!["interaction", "copy_on_select"]), JsonModel::Bool(s.interaction_copy_on_select));
    let d2 = spec_set_path(d1, spec_keys(seq!["interaction", "allow_osc52_clipboard_write"]), JsonModel::Bool(s.interaction_allow_osc52_clipboard_write));
    let d3 = spec_set_path(d2, spec_keys(seq!["interaction", "right_click_paste"]), JsonModel::Bool(s.interaction_right_click_paste));
    let d4 = spec_set_path(d3, spec_keys(seq!["interaction", "terminal_zoom_enabled"]), JsonModel::Bool(s.interaction_terminal_zoom_enabled));
    let d5 = spec_set_path(d4, spec_keys(seq!["interaction", "command_suggestions_enabled"]), JsonModel::Bool(s.interaction_command_suggestions_enabled));
    let d6 = spec_set_path(d5, spec_keys(seq!["interaction", "command_suggestion_min_chars"]), JsonModel::Number(JsonNumber::PosInt(spec_min_chars(s) as u64)));
    let d7 = spec_set_path(d6, spec_keys(seq!["interaction", "command_suggestion_max_chars"]), JsonModel::Number(JsonNumber::PosInt(spec_max_chars(s) as u64)));
    let d8 = spec_set_path(d7, spec_keys(seq!["interaction", "word_separators"]), JsonModel::Str(s.interaction_word_separators@, None));
    let d9 = spec_set_path(d8, spec_keys(seq!["interaction", "duplicate_session_command_delay_ms"]), JsonModel::Number(JsonNumber::PosInt(spec_clamp(s.interaction_duplicate_session_command_delay_ms as int, 0, 60000) as u64)));
    let d10 = spec_set_path(d9, spec_keys(seq!["interaction", "alt_as_meta"]), JsonModel::Bool(s.interaction_alt_as_meta));
    let d11 = spec_set_path(d10, spec_keys(seq!["interaction", "mac_ime_compatibility"]), JsonModel::Bool(s.interaction_mac_ime_compatibility));
    let d12 = spec_set_path(d11, spec_keys(seq!["interaction", "tab_double_click_action"]), JsonModel::Str(spec_tab_mouse_action(s.interaction_tab_double_click_action@), None));
    let d13 = spec_set_path(d12, spec_keys(seq!["interaction", "tab_middle_click_action"]), JsonModel::Str(spec_tab_mouse_action(s.interaction_tab_middle_click_action@), None));
    let d14 = spec_set_path(d13, spec_keys(seq!["interaction", "tab_right_click_action"]), JsonModel::Str(spec_tab_mouse_action(s.interaction_tab_right_click_action@), None));
    let d15 = spec_set_path(d14, spec_keys(seq!["interaction", "default_encoding"]), JsonModel::Str(spec_interaction_encoding(s.interaction_default_encoding@), None));
    assert(spec_saved_interaction_part1(d, s) == d8);
    assert(spec_saved_interaction_part2(d8, s) == d15);
    assert(spec_saved_interaction(d, s) == d15);
    lemma_set_path_then_read(d5, spec_keys(seq!["interaction", "command_suggestion_min_chars"]), JsonModel::Number(JsonNumber::PosInt(spec_min_chars(s) as u64)));
    assert("command_suggestion_max_chars"@[20] != "command_suggestion_min_chars"@[20]);
    assert(spec_keys(seq!["interaction", "command_suggestion_max_chars"])[1] != spec_keys(seq!["interaction", "command_suggestion_min_chars"])[1]);
    lemma_set_path_frame(d6, spec_keys(seq!["interaction", "command_suggestion_max_chars"]), JsonModel::Number(JsonNumber::PosInt(spec_max_chars(s) as u64)), spec_keys(seq!["interaction", "command_suggestion_min_chars"]));
    assert("word_separators"@.len() != "command_suggestion_min_chars"@.len());
    assert(spec_keys(seq!["interaction", "word_separators"])[1] != spec_keys(seq!["interaction", "command_suggestion_min_chars"])[1]);
    lemma_set_path_frame(d7, spec_keys(seq!["interaction", "word_separators"]), JsonModel::Str(s.interaction_word_separators@, None), spec_keys(seq!["interaction", "command_suggestion_min_chars"]));
    assert("duplicate_session_command_delay_ms"@.len() != "command_suggestion_min_chars"@.len());
    assert(spec_keys(seq!["interaction", "duplicate_session_command_delay_ms"])[1] != spec_keys(seq!["interaction", "command_suggestion_min_chars"])[1]);
    lemma_set_path_frame(d8, spec_keys(seq!["interaction", "duplicate_session_command_delay_ms"]), JsonModel::Number(JsonNumber::PosInt(spec_clamp(s.interaction_duplicate_session_command_delay_ms as int, 0, 60000) as u64)), spec_keys(seq!["interaction", "command_suggestion_min_chars"]));
    assert("alt_as_meta"@.len() != "command_suggestion_min_chars"@.len());
    assert(spec_keys(seq!["interaction", "alt_as_meta"])[1] != spec_keys(seq!["interaction", "command_suggestion_min_chars"])[1]);
    lemma_set_path_frame(d9, spec_keys(seq!["interaction", "alt_as_meta"]), JsonModel::Bool(s.interaction_alt_as_meta), spec_keys(seq!["interaction", "command_suggestion_min_chars"]));
    assert("mac_ime_compatibility"@.len() != "command_suggestion_min_chars"@.len());
    assert(spec_keys(seq!["interaction", "mac_ime_compatibility"])[1] != spec_keys(seq!["interaction", "command_suggestion_min_chars"])[1]);
    lemma_set_path_frame(d10, spec_keys(seq!["interaction", "mac_ime_compatibility"]), JsonModel::Bool(s.interaction_mac_ime_compatibility), spec_keys(seq!["interaction", "command_suggestion_min_chars"]));
    assert("tab_double_click_action"@.len() != "command_suggestion_min_chars"@.len());
    assert(spec_keys(seq!["interaction", "tab_double_click_action"])[1] != spec_keys(seq!["interaction", "command_suggestion_min_chars"])[1]);
    lemma_set_path_frame(d11, spec_keys(seq!["interaction", "tab_double_click_action"]), JsonModel::Str(spec_tab_mouse_action(s.interaction_tab_double_click_action@), None), spec_keys(seq!["interaction", "command_suggestion_min_chars"]));
    assert("tab_middle_click_action"@.len() != "command_suggestion_min_chars"@.len());
    assert(spec_keys(seq!["interaction", "tab_middle_click_action"])[1] != spec_keys(seq!["interaction", "command_suggestion_min_chars"])[1]);
    lemma_set_path_frame(d12, spec_keys(seq!["interaction", "tab_middle_click_action"]), JsonModel::Str(spec_tab_mouse_action(s.interaction_tab_middle_click_action@), None), spec_keys(seq!["interaction", "command_suggestion_min_chars"]));
    assert("tab_right_click_action"@.len() != "command_suggestion_min_chars"@.len());
    assert(spec_keys(seq!["interaction", "tab_right_click_action"])[1] != spec_keys(seq!["interaction", "command_suggestion_min_chars"])[1]);
    lemma_set_path_frame(d13, spec_keys(seq!["interaction", "tab_right_click_action"]), JsonModel::Str(spec_tab_mouse_action(s.interaction_tab_right_click_action@), None), spec_keys(seq!["interaction", "command_suggestion_min_chars"]));
    assert("default_encoding"@.len() != "command_suggestion_min_chars"@.len());
    assert(spec_keys(seq!["interaction", "default_encoding"])[1] != spec_keys(seq!["interaction", "command_suggestion_min_chars"])[1]);
    lemma_set_path_frame(d14, spec_keys(seq!["interaction", "default_encoding"]), JsonModel::Str(spec_interaction_encoding(s.interaction_default_encoding@), None), spec_keys(seq!["interaction", "command_suggestion_min_chars"]));
}

#[verifier::spinoff_prover]
proof fn lemma_saved_interaction_keeps_interaction_command_suggestion_max_chars(d: JsonModel, s: AppSettingsSummary)
    ensures
        spec_json_path(spec_saved_interaction(d, s), spec_keys(seq!["interaction", "command_suggestion_max_chars"])) == Some(JsonModel::Number(JsonNumber::PosInt(spec_max_chars(s) as u64))),
{
    reveal_strlit("alt_as_meta");
    reveal_strlit("command_suggestion_max_chars");
    reveal_strlit("default_encoding");
    reveal_strlit("duplicate_session_command_delay_ms");
    reveal_strlit("interaction");
    reveal_strlit("mac_ime_compatibility");
    reveal_strlit("tab_double_click_action");
    reveal_strlit("tab_middle_click_action");
    reveal_strlit("tab_right_click_action");
    reveal_strlit("word_separators");
    let d1 = spec_set_path(d, spec_keys(seq!["interaction", "copy_on_select"]), JsonModel::Bool(s.interaction_copy_on_select));
    let d2 = spec_set_path(d1, spec_keys(seq!["interaction", "allow_osc52_clipboard_write"]), JsonModel::Bool(s.interaction_allow_osc52_clipboard_write));
    let d3 = spec_set_path(d2, spec_keys(seq!["interaction", "right_click_paste"]), JsonModel::Bool(s.interaction_right_click_paste));
    let d4 = spec_set_path(d3, spec_keys(seq!["interaction", "terminal_zoom_enabled"]), JsonModel::Bool(s.interaction_terminal_zoom_enabled));
    let d5 = spec_set_path(d4, spec_keys(seq!["interaction", "command_suggestions_enabled"]), JsonModel::Bool(s.interaction_command_suggestions_enabled));
    let d6 = spec_set_path(d5, spec_keys(seq!["interaction", "command_suggestion_min_chars"]), JsonModel::Number(JsonNumber::PosInt(spec_min_chars(s) as u64)));
    let d7 = spec_set_path(d6, spec_keys(seq!["interaction", "command_suggestion_max_chars"]), JsonModel::Number(JsonNumber::PosInt(spec_max_chars(s) as u64)));
    let d8 = spec_set_path(d7, spec_keys(seq!["interaction", "word_separators"]), JsonModel::Str(s.interaction_word_separators@, None));
    let d9 = spec_set_path(d8, spec_keys(seq!["interaction", "duplicate_session_command_delay_ms"]), JsonModel::Number(JsonNumber::PosInt(spec_clamp(s.interaction_duplicate_session_command_delay_ms as int, 0, 60000) as u64)));
    let d10 = spec_set_path(d9, spec_keys(seq!["interaction", "alt_as_meta"]), JsonModel::Bool(s.interaction_alt_as_meta));
    let d11 = spec_set_path(d10, spec_keys(seq!["interaction", "mac_ime_compatibility"]), JsonModel::Bool(s.interaction_mac_ime_compatibility));
    let d12 = spec_set_path(d11, spec_keys(seq!["interaction", "tab_double_click_action"]), JsonModel::Str(spec_tab_mouse_action(s.interaction_tab_double_click_action@), None));
    let d13 = spec_set_path(d12, spec_keys(seq!["interaction", "tab_middle_click_action"]), JsonModel::Str(spec_tab_mouse_action(s.interaction_tab_middle_click_action@), None));
    let d14 = spec_set_path(d13, spec_keys(seq!["interaction", "tab_right_click_action"]), JsonModel::Str(spec_tab_mouse_action(s.interaction_tab_right_click_action@), None));
    let d15 = spec_set_path(d14, spec_keys(seq!["interaction", "default_encoding"]), JsonModel::Str(spec_interaction_encoding(s.interaction_default_encoding@), None));
    assert(spec_saved_interaction_part1(d, s) == d8);
    assert(spec_saved_interaction_part2(d8, s) == d15);
    assert(spec_saved_interaction(d, s) == d15);
    lemma_set_path_then_read(d6, spec_keys(seq!["interaction", "command_suggestion_max_chars"]), JsonModel::Number(JsonNumber::PosInt(spec_max_chars(s) as u64)));
    assert("word_separators"@.len() != "command_suggestion_max_chars"@.len());
    assert(spec_keys(seq!["interaction", "word_separators"])[1] != spec_keys(seq!["interaction", "command_suggestion_max_chars"])[1]);
    lemma_set_path_frame(d7, spec_keys(seq!["interaction", "word_separators"]), JsonModel::Str(s.interaction_word_separators@, None), spec_keys(seq!["interaction", "command_suggestion_max_chars"]));
    assert("duplicate_session_command_delay_ms"@.len() != "command_suggestion_max_chars"@.len());
    assert(spec_keys(seq!["interaction", "duplicate_session_command_delay_ms"])[1] != spec_keys(seq!["interaction", "command_suggestion_max_chars"])[1]);
    lemma_set_path_frame(d8, spec_keys(seq!["interaction", "duplicate_session_command_delay_ms"]), JsonModel::Number(JsonNumber::PosInt(spec_clamp(s.interaction_duplicate_session_command_delay_ms as int, 0, 60000) as u64)), spec_keys(seq!["interaction", "command_suggestion_max_chars"]));
    assert("alt_as_meta"@.len() != "command_suggestion_max_chars"@.len());
    assert(spec_keys(seq!["interaction", "alt_as_meta"])[1] != spec_keys(seq!["interaction", "command_suggestion_max_chars"])[1]);
    lemma_set_path_frame(d9, spec_keys(seq!["interaction", "alt_as_meta"]), JsonModel::Bool(s.interaction_alt_as_meta), spec_keys(seq!["interaction", "command_suggestion_max_chars"]));
    assert("mac_ime_compatibility"@.len() != "command_suggestion_max_chars"@.len());
    assert(spec_keys(seq!["interaction", "mac_ime_compatibility"])[1] != spec_keys(seq!["interaction", "command_suggestion_max_chars"])[1]);
    lemma_set_path_frame(d10, spec_keys(seq!["interaction", "mac_ime_compatibility"]), JsonModel::Bool(s.interaction_mac_ime_compatibility), spec_keys(seq!["interaction", "command_suggestion_max_chars"]));
    assert("tab_double_click_action"@.len() != "command_suggestion_max_chars"@.len());
    assert(spec_keys(seq!["interaction", "tab_double_click_action"])[1] != spec_keys(seq!["interaction", "command_suggestion_max_chars"])[1]);
    lemma_set_path_frame(d11, spec_keys(seq!["interaction", "tab_double_click_action"]), JsonModel::Str(spec_tab_mouse_action(s.interaction_tab_double_click_action@), None), spec_keys(seq!["interaction", "command_suggestion_max_chars"]));
    assert("tab_middle_click_action"@.len() != "command_suggestion_max_chars"@.len());
    assert(spec_keys(seq!["interaction", "tab_middle_click_action"])[1] != spec_keys(seq!["interaction", "command_suggestion_max_chars"])[1]);
    lemma_set_path_frame(d12, spec_keys(seq!["interaction", "tab_middle_click_action"]), JsonModel::Str(spec_tab_mouse_action(s.interaction_tab_middle_click_action@), None), spec_keys(seq!["interaction", "command_suggestion_max_chars"]));
    assert("tab_right_click_action"@.len() != "command_suggestion_max_chars"@.len());
    assert(spec_keys(seq!["interaction", "tab_right_click_action"])[1] != spec_keys(seq!["interaction", "command_suggestion_max_chars"])[1]);
    lemma_set_path_frame(d13, spec_keys(seq!["interaction", "tab_right_click_action"]), JsonModel::Str(spec_tab_mouse_action(s.interaction_tab_right_click_action@), None), spec_keys(seq!["interaction", "command_suggestion_max_chars"]));
    assert("default_encoding"@.len() != "command_suggestion_max_chars"@.len());
    assert(spec_keys(seq!["interaction", "default_encoding"])[1] != spec_keys(seq!["interaction", "command_suggestion_max_chars"])[1]);
    lemma_set_path_frame(d14, spec_keys(seq!["interaction", "default_encoding"]), JsonModel::Str(spec_interaction_encoding(s.interaction_default_encoding@), None), spec_keys(seq!["interaction", "command_suggestion_max_chars"]));
}

#[verifier::spinoff_prover]
proof fn lemma_saved_interaction_keeps_interaction_word_separators(d: JsonModel, s: AppSettingsSummary)
    ensures
        spec_json_path(spec_saved_interaction(d, s), spec_keys(seq!["interaction", "word_separators"])) == Some(JsonModel::Str(s.interaction_word_separators@, None)),
{
    reveal_strlit("alt_as_meta");
    reveal_strlit("default_encoding");
    reveal_strlit("duplicate_session_command_delay_ms");
    reveal_strlit("interaction");
    reveal_strlit("mac_ime_compatibility");
    reveal_strlit("tab_double_click_action");
    reveal_strlit("tab_middle_click_action");
    reveal_strlit("tab_right_click_action");
    reveal_strlit("word_separators");
    let d1 = spec_set_path(d, spec_keys(seq!["interaction", "copy_on_select"]), JsonModel::Bool(s.interaction_copy_on_select));
    let d2 = spec_set_path(d1, spec_keys(seq!["interaction", "allow_osc52_clipboard_write"]), JsonModel::Bool(s.interaction_allow_osc52_clipboard_write));
    let d3 = spec_set_path(d2, spec_keys(seq!["interaction", "right_click_paste"]), JsonModel::Bool(s.interaction_right_click_paste));
    let d4 = spec_set_path(d3, spec_keys(seq!["interaction", "terminal_zoom_enabled"]), JsonModel::Bool(s.interaction_terminal_zoom_enabled));
    let d5 = spec_set_path(d4, spec_keys(seq!["interaction", "command_suggestions_enabled"]), JsonModel::Bool(s.interaction_command_suggestions_enabled));
    let d6 = spec_set_path(d5, spec_keys(seq!["interaction", "command_suggestion_min_chars"]), JsonModel::Number(JsonNumber::PosInt(spec_min_chars(s) as u64)));
    let d7 = spec_set_path(d6, spec_keys(seq!["interaction", "command_suggestion_max_chars"]), JsonModel::Number(JsonNumber::PosInt(spec_max_chars(s) as u64)));
    let d8 = spec_set_path(d7, spec_keys(seq!["interaction", "word_separators"]), JsonModel::Str(s.interaction_word_separators@, None));
    let d9 = spec_set_path(d8, spec_keys(seq!["interaction", "duplicate_session_command_delay_ms"]), JsonModel::Number(JsonNumber::PosInt(spec_clamp(s.interaction_duplicate_session_command_delay_ms as int, 0, 60000) as u64)));
    let d10 = spec_set_path(d9, spec_keys(seq!["interaction", "alt_as_meta"]), JsonModel::Bool(s.interaction_alt_as_meta));
    let d11 = spec_set_path(d10, spec_keys(seq!["interaction", "mac_ime_compatibility"]), JsonModel::Bool(s.interaction_mac_ime_compatibility));
    let d12 = spec_set_path(d11, spec_keys(seq!["interaction", "tab_double_click_action"]), JsonModel::Str(spec_tab_mouse_action(s.interaction_tab_double_click_action@), None));
    let d13 = spec_set_path(d12, spec_keys(seq!["interaction", "tab_middle_click_action"]), JsonModel::Str(spec_tab_mouse_action(s.interaction_tab_middle_click_action@), None));
    let d14 = spec_set_path(d13, spec_keys(seq!["interaction", "tab_right_click_action"]), JsonModel::Str(spec_tab_mouse_action(s.interaction_tab_right_click_action@), None));
    let d15 = spec_set_path(d14, spec_keys(seq!["interaction", "default_encoding"]), JsonModel::Str(spec_interaction_encoding(s.interaction_default_encoding@), None));
    assert(spec_saved_interaction_part1(d, s) == d8);
    assert(spec_saved_interaction_part2(d8, s) == d15);
    assert(spec_saved_interaction(d, s) == d15);
    lemma_set_path_then_read(d7, spec_keys(seq!["interaction", "word_separators"]), JsonModel::Str(s.interaction_word_separators@, None));
    assert("duplicate_session_command_delay_ms"@.len() != "word_separators"@.len());
    assert(spec_keys(seq!["interaction", "duplicate_session_command_delay_ms"])[1] != spec_keys(seq!["interaction", "word_separators"])[1]);
    lemma_set_path_frame(d8, spec_keys(seq!["interaction", "duplicate_session_command_delay_ms"]), JsonModel::Number(JsonNumber::PosInt(spec_clamp(s.interaction_duplicate_session_command_delay_ms as int, 0, 60000) as u64)), spec_keys(seq!["interaction", "word_separators"]));
    assert("alt_as_meta"@.len() != "word_separators"@.len());
    assert(spec_keys(seq!["interaction", "alt_as_meta"])[1] != spec_keys(seq!["interaction", "word_separators"])[1]);
    lemma_set_path_frame(d9, spec_keys(seq!["interaction", "alt_as_meta"]), JsonModel::Bool(s.interaction_alt_as_meta), spec_keys(seq!["interaction", "word_separators"]));
    assert("mac_ime_compatibility"@.len() != "word_separators"@.len());
    assert(spec_keys(seq!["interaction", "mac_ime_compatibility"])[1] != spec_keys(seq!["interaction", "word_separators"])[1]);
    lemma_set_path_frame(d10, spec_keys(seq!["interaction", "mac_ime_compatibility"]), JsonModel::Bool(s.interaction_mac_ime_compatibility), spec_keys(seq!["interaction", "word_separators"]));
    assert("tab_double_click_action"@.len() != "word_separators"@.len());
    assert(spec_keys(seq!["interaction", "tab_double_click_action"])[1] != spec_keys(seq!["interaction", "word_separators"])[1]);
    lemma_set_path_frame(d11, spec_keys(seq!["interaction", "tab_double_click_action"]), JsonModel::Str(spec_tab_mouse_action(s.interaction_tab_double_click_action@), None), spec_keys(seq!["interaction", "word_separators"]));
    assert("tab_middle_click_action"@.len() != "word_separators"@.len());
    assert(spec_keys(seq!["interaction", "tab_middle_click_action"])[1] != spec_keys(seq!["interaction", "word_separators"])[1]);
    lemma_set_path_frame(d12, spec_keys(seq!["interaction", "tab_middle_click_action"]), JsonModel::Str(spec_tab_mouse_action(s.interaction_tab_middle_click_action@), None), spec_keys(seq!["interaction", "word_separators"]));
    assert("tab_right_click_action"@.len() != "word_separators"@.len());
    assert(spec_keys(seq!["interaction", "tab_right_click_action"])[1] != spec_keys(seq!["interaction", "word_separators"])[1]);
    lemma_set_path_frame(d13, spec_keys(seq!["interaction", "tab_right_click_action"]), JsonModel::Str(spec_tab_mouse_action(s.interaction_tab_right_click_action@), None), spec_keys(seq!["interaction", "word_separators"]));
    assert("default_encoding"@.len() != "word_separators"@.len());
    assert(spec_keys(seq!["interaction", "default_encoding"])[1] != spec_keys(seq!["interaction", "word_separators"])[1]);
    lemma_set_path_frame(d14, spec_keys(seq!["interaction", "default_encoding"]), JsonModel::Str(spec_interaction_encoding(s.interaction_default_encoding@), None), spec_keys(seq!["interaction", "word_separators"]));
}

#[verifier::spinoff_prover]
proof fn lemma_saved_interaction_keeps_interaction_duplicate_session_command_delay_ms(d: JsonModel, s: AppSettingsSummary)
    ensures
        spec_json_path(spec_saved_interaction(d, s), spec_keys(seq!["interaction", "duplicate_session_command_delay_ms"])) == Some(JsonModel::Number(JsonNumber::PosInt(spec_clamp(s.interaction_duplicate_session_command_delay_ms as int, 0, 60000) as u64))),
{
    reveal_strlit("alt_as_meta");
    reveal_strlit("default_encoding");
    reveal_strlit("duplicate_session_command_delay_ms");
    reveal_strlit("interaction");
    reveal_strlit("mac_ime_compatibility");
    reveal_strlit("tab_double_click_action");
    reveal_strlit("tab_middle_click_action");
    reveal_strlit("tab_right_click_action");
    let d1 = spec_set_path(d, spec_keys(seq!["interaction", "copy_on_select"]), JsonModel::Bool(s.interaction_copy_on_select));
    let d2 = spec_set_path(d1, spec_keys(seq!["interaction", "allow_osc52_clipboard_write"]), JsonModel::Bool(s.interaction_allow_osc52_clipboard_write));
    let d3 = spec_set_path(d2, spec_keys(seq!["interaction", "right_click_paste"]), JsonModel::Bool(s.interaction_right_click_paste));
    let d4 = spec_set_path(d3, spec_keys(seq!["interaction", "terminal_zoom_enabled"]), JsonModel::Bool(s.interaction_terminal_zoom_enabled));
    let d5 = spec_set_path(d4, spec_keys(seq!["interaction", "command_suggestions_enabled"]), JsonModel::Bool(s.interaction_command_suggestions_enabled));
    let d6 = spec_set_path(d5, spec_keys(seq!["interaction", "command_suggestion_min_chars"]), JsonModel::Number(JsonNumber::PosInt(spec_min_chars(s) as u64)));
    let d7 = spec_set_path(d6, spec_keys(seq!["interaction", "command_suggestion_max_chars"]), JsonModel::Number(JsonNumber::PosInt(spec_max_chars(s) as u64)));
    let d8 = spec_set_path(d7, spec_keys(seq!["interaction", "word_separators"]), JsonModel::Str(s.interaction_word_separators@, None));
    let d9 = spec_set_path(d8, spec_keys(seq!["interaction", "duplicate_session_command_delay_ms"]), JsonModel::Number(JsonNumber::PosInt(spec_clamp(s.interaction_duplicate_session_command_delay_ms as int, 0, 60000) as u64)));
    let d10 = spec_set_path(d9, spec_keys(seq!["interaction", "alt_as_meta"]), JsonModel::Bool(s.interaction_alt_as_meta));
    let d11 = spec_set_path(d10, spec_keys(seq!["interaction", "mac_ime_compatibility"]), JsonModel::Bool(s.interaction_mac_ime_compatibility));
    let d12 = spec_set_path(d11, spec_keys(seq!["interaction", "tab_double_click_action"]), JsonModel::Str(spec_tab_mouse_action(s.interaction_tab_double_click_action@), None));
    let d13 = spec_set_path(d12, spec_keys(seq!["interaction", "tab_middle_click_action"]), JsonModel::Str(spec_tab_mouse_action(s.interaction_tab_middle_click_action@), None));
    let d14 = spec_set_path(d13, spec_keys(seq!["interaction", "tab_right_click_action"]), JsonModel::Str(spec_tab_mouse_action(s.interaction_tab_right_click_action@), None));
    let d15 = spec_set_path(d14, spec_keys(seq!["interaction", "default_encoding"]), JsonModel::Str(spec_interaction_encoding(s.interaction_default_encoding@), None));
    assert(spec_saved_interaction_part1(d, s) == d8);
    assert(spec_saved_interaction_part2(d8, s) == d15);
    assert(spec_saved_interaction(d, s) == d15);
    lemma_set_path_then_read(d8, spec_keys(seq!["interaction", "duplicate_session_command_delay_ms"]), JsonModel::Number(JsonNumber::PosInt(spec_clamp(s.interaction_duplicate_session_command_delay_ms as int, 0, 60000) as u64)));
    assert("alt_as_meta"@.len() != "duplicate_session_command_delay_ms"@.len());
    assert(spec_keys(seq!["interaction", "alt_as_meta"])[1] != spec_keys(seq!["interaction", "duplicate_session_command_delay_ms"])[1]);
    lemma_set_path_frame(d9, spec_keys(seq!["interaction", "alt_as_meta"]), JsonModel::Bool(s.interaction_alt_as_meta), spec_keys(seq!["interaction", "duplicate_session_command_delay_ms"]));
    assert("mac_ime_compatibility"@.len() != "duplicate_session_command_delay_ms"@.len());
    assert(spec_keys(seq!["interaction", "mac_ime_compatibility"])[1] != spec_keys(seq!["interaction", "duplicate_session_command_delay_ms"])[1]);
    lemma_set_path_frame(d10, spec_keys(seq!["interaction", "mac_ime_compatibility"]), JsonModel::Bool(s.interaction_mac_ime_compatibility), spec_keys(seq!["interaction", "duplicate_session_command_delay_ms"]));
    assert("tab_double_click_action"@.len() != "duplicate_session_command_delay_ms"@.len());
    assert(spec_keys(seq!["interaction", "tab_double_click_action"])[1] != spec_keys(seq!["interaction", "duplicate_session_command_delay_ms"])[1]);
    lemma_set_path_frame(d11, spec_keys(seq!["interaction", "tab_double_click_action"]), JsonModel::Str(spec_tab_mouse_action(s.interaction_tab_double_click_action@), None), spec_keys(seq!["interaction", "duplicate_session_command_delay_ms"]));
    assert("tab_middle_click_action"@.len() != "duplicate_session_command_delay_ms"@.len());
    assert(spec_keys(seq!["interaction", "tab_middle_click_action"])[1] != spec_keys(seq!["interaction", "duplicate_session_command_delay_ms"])[1]);
    lemma_set_path_frame(d12, spec_keys(seq!["interaction", "tab_middle_click_action"]), JsonModel::Str(spec_tab_mouse_action(s.interaction_tab_middle_click_action@), None), spec_keys(seq!["interaction", "duplicate_session_command_delay_ms"]));
    assert("tab_right_click_action"@.len() != "duplicate_session_command_delay_ms"@.len());
    assert(spec_keys(seq!["interaction", "tab_right_click_action"])[1] != spec_keys(seq!["interaction", "duplicate_session_command_delay_ms"])[1]);
    lemma_set_path_frame(d13, spec_keys(seq!["interaction", "tab_right_click_action"]), JsonModel::Str(spec_tab_mouse_action(s.interaction_tab_right_click_action@), None), spec_keys(seq!["interaction", "duplicate_session_command_delay_ms"]));
    assert("default_encoding"@.len() != "duplicate_session_command_delay_ms"@.len());
    assert(spec_keys(seq!["interaction", "default_encoding"])[1] != spec_keys(seq!["interaction", "duplicate_session_command_delay_ms"])[1]);
    lemma_set_path_frame(d14, spec_keys(seq!["interaction", "default_encoding"]), JsonModel::Str(spec_interaction_encoding(s.interaction_default_encoding@), None), spec_keys(seq!["interaction", "duplicate_session_command_delay_ms"]));
}

#[verifier::spinoff_prover]
proof fn lemma_saved_interaction_keeps_interaction_alt_as_meta(d: JsonModel, s: AppSettingsSummary)
    ensures
        spec_json_path(spec_saved_interaction(d, s), spec_keys(seq!["interaction", "alt_as_meta"])) == Some(JsonModel::Bool(s.interaction_alt_as_meta)),
{
    reveal_strlit("alt_as_meta");
    reveal_strlit("default_encoding");
    reveal_strlit("interaction");
    reveal_strlit("mac_ime_compatibility");
    reveal_strlit("tab_double_click_action");
    reveal_strlit("tab_middle_click_action");
    reveal_strlit("tab_right_click_action");
    let d1 = spec_set_path(d, spec_keys(seq!["interaction", "copy_on_select"]), JsonModel::Bool(s.interaction_copy_on_select));
    let d2 = spec_set_path(d1, spec_keys(seq!["interaction", "allow_osc52_clipboard_write"]), JsonModel::Bool(s.interaction_allow_osc52_clipboard_write));
    let d3 = spec_set_path(d2, spec_keys(seq!["interaction", "right_click_paste"]), JsonModel::Bool(s.interaction_right_click_paste));
    let d4 = spec_set_path(d3, spec_keys(seq!["interaction", "terminal_zoom_enabled"]), JsonModel::Bool(s.interaction_terminal_zoom_enabled));
    let d5 = spec_set_path(d4, spec_keys(seq!["interaction", "command_suggestions_enabled"]), JsonModel::Bool(s.interaction_command_suggestions_enabled));
    let d6 = spec_set_path(d5, spec_keys(seq!["interaction", "command_suggestion_min_chars"]), JsonModel::Number(JsonNumber::PosInt(spec_min_chars(s) as u64)));
    let d7 = spec_set_path(d6, spec_keys(seq!["interaction", "command_suggestion_max_chars"]), JsonModel::Number(JsonNumber::PosInt(spec_max_chars(s) as u64)));
    let d8 = spec_set_path(d7, spec_keys(seq!["interaction", "word_separators"]), JsonModel::Str(s.interaction_word_separators@, None));
    let d9 = spec_set_path(d8, spec_keys(seq!["interaction", "duplicate_session_command_delay_ms"]), JsonModel::Number(JsonNumber::PosInt(spec_clamp(s.interaction_duplicate_session_command_delay_ms as int, 0, 60000) as u64)));
    let d10 = spec_set_path(d9, spec_keys(seq!["interaction", "alt_as_meta"]), JsonModel::Bool(s.interaction_alt_as_meta));
    let d11 = spec_set_path(d10, spec_keys(seq!["interaction", "mac_ime_compatibility"]), JsonModel::Bool(s.interaction_mac_ime_compatibility));
    let d12 = spec_set_path(d11, spec_keys(seq!["interaction", "tab_double_click_action"]), JsonModel::Str(spec_tab_mouse_action(s.interaction_tab_double_click_action@), None));
    let d13 = spec_set_path(d12, spec_keys(seq!["interaction", "tab_middle_click_action"]), JsonModel::Str(spec_tab_mouse_action(s.interaction_tab_middle_click_action@), None));
    let d14 = spec_set_path(d13, spec_keys(seq!["interaction", "tab_right_click_action"]), JsonModel::Str(spec_tab_mouse_action(s.interaction_tab_right_click_action@), None));
    let d15 = spec_set_path(d14, spec_keys(seq!["interaction", "default_encoding"]), JsonModel::Str(spec_interaction_encoding(s.interaction_default_encoding@), None));
    assert(spec_saved_interaction_part1(d, s) == d8);
    assert(spec_saved_interaction_part2(d8, s) == d15);
    assert(spec_saved_interaction(d, s) == d15);
    lemma_set_path_then_read(d9, spec_keys(seq!["interaction", "alt_as_meta"]), JsonModel::Bool(s.interaction_alt_as_meta));
    assert("mac_ime_compatibility"@.len() != "alt_as_meta"@.len());
    assert(spec_keys(seq!["interaction", "mac_ime_compatibility"])[1] != spec_keys(seq!["interaction", "alt_as_meta"])[1]);
    lemma_set_path_frame(d10, spec_keys(seq!["interaction", "mac_ime_compatibility"]), JsonModel::Bool(s.interaction_mac_ime_compatibility), spec_keys(seq!["interaction", "alt_as_meta"]));
    assert("tab_double_click_action"@.len() != "alt_as_meta"@.len());
    assert(spec_keys(seq!["interaction", "tab_double_click_action"])[1] != spec_keys(seq!["interaction", "alt_as_meta"])[1]);
    lemma_set_path_frame(d11, spec_keys(seq!["interaction", "tab_double_click_action"]), JsonModel::Str(spec_tab_mouse_action(s.interaction_tab_double_click_action@), None), spec_keys(seq!["interaction", "alt_as_meta"]));
    assert("tab_middle_click_action"@.len() != "alt_as_meta"@.len());
    assert(spec_keys(seq!["interaction", "tab_middle_click_action"])[1] != spec_keys(seq!["interaction", "alt_as_meta"])[1]);
    lemma_set_path_frame(d12, spec_keys(seq!["interaction", "tab_middle_click_action"]), JsonModel::Str(spec_tab_mouse_action(s.interaction_tab_middle_click_action@), None), spec_keys(seq!["interaction", "alt_as_meta"]));
    assert("tab_right_click_action"@.len() != "alt_as_meta"@.len());
    assert(spec_keys(seq!["interaction", "tab_right_click_action"])[1] != spec_keys(seq!["interaction", "alt_as_meta"])[1]);
    lemma_set_path_frame(d13, spec_keys(seq!["interaction", "tab_right_click_action"]), JsonModel::Str(spec_tab_mouse_action(s.interaction_tab_right_click_action@), None), spec_keys(seq!["interaction", "alt_as_meta"]));
    assert("default_encoding"@.len() != "alt_as_meta"@.len());
    assert(spec_keys(seq!["interaction", "default_encoding"])[1] != spec_keys(seq!["interaction", "alt_as_meta"])[1]);
    lemma_set_path_frame(d14, spec_keys(seq!["interaction", "default_encoding"]), JsonModel::Str(spec_interaction_encoding(s.interaction_default_encoding@), None), spec_keys(seq!["interaction", "alt_as_meta"]));
}

#[verifier::spinoff_prover]
proof fn lemma_saved_interaction_keeps_interaction_mac_ime_compatibility(d: JsonModel, s: AppSettingsSummary)
    ensures
        spec_json_path(spec_saved_interaction(d, s), spec_keys(seq!["interaction", "mac_ime_compatibility"])) == Some(JsonModel::Bool(s.interaction_mac_ime_compatibility)),
{
    reveal_strlit("default_encoding");
    reveal_strlit("interaction");
    reveal_strlit("mac_ime_compatibility");
    reveal_strlit("tab_double_click_action");
    reveal_strlit("tab_middle_click_action");
    reveal_strlit("tab_right_click_action");
    let d1 = spec_set_path(d, spec_keys(seq!["interaction", "copy_on_select"]), JsonModel::Bool(s.interaction_copy_on_select));
    let d2 = spec_set_path(d1, spec_keys(seq!["interaction", "allow_osc52_clipboard_write"]), JsonModel::Bool(s.interaction_allow_osc52_clipboard_write));
    let d3 = spec_set_path(d2, spec_keys(seq!["interaction", "right_click_paste"]), JsonModel::Bool(s.interaction_right_click_paste));
    let d4 = spec_set_path(d3, spec_keys(seq!["interaction", "terminal_zoom_enabled"]), JsonModel::Bool(s.interaction_terminal_zoom_enabled));
    let d5 = spec_set_path(d4, spec_keys(seq!["interaction", "command_suggestions_enabled"]), JsonModel::Bool(s.interaction_command_suggestions_enabled));
    let d6 = spec_set_path(d5, spec_keys(seq!["interaction", "command_suggestion_min_chars"]), JsonModel::Number(JsonNumber::PosInt(spec_min_chars(s) as u64)));
    let d7 = spec_set_path(d6, spec_keys(seq!["interaction", "command_suggestion_max_chars"]), JsonModel::Number(JsonNumber::PosInt(spec_max_chars(s) as u64)));
    let d8 = spec_set_path(d7, spec_keys(seq!["interaction", "word_separators"]), JsonModel::Str(s.interaction_word_separators@, None));
    let d9 = spec_set_path(d8, spec_keys(seq!["interaction", "duplicate_session_command_delay_ms"]), JsonModel::Number(JsonNumber::PosInt(spec_clamp(s.interaction_duplicate_session_command_delay_ms as int, 0, 60000) as u64)));
    let d10 = spec_set_path(d9, spec_keys(seq!["interaction", "alt_as_meta"]), JsonModel::Bool(s.interaction_alt_as_meta));
    let d11 = spec_set_path(d10, spec_keys(seq!["interaction", "mac_ime_compatibility"]), JsonModel::Bool(s.interaction_mac_ime_compatibility));
    let d12 = spec_set_path(d11, spec_keys(seq!["interaction", "tab_double_click_action"]), JsonModel::Str(spec_tab_mouse_action(s.interaction_tab_double_click_action@), None));
    let d13 = spec_set_path(d12, spec_keys(seq!["interaction", "tab_middle_click_action"]), JsonModel::Str(spec_tab_mouse_action(s.interaction_tab_middle_click_action@), None));
    let d14 = spec_set_path(d13, spec_keys(seq!["interaction", "tab_right_click_action"]), JsonModel::Str(spec_tab_mouse_action(s.interaction_tab_right_click_action@), None));
    let d15 = spec_set_path(d14, spec_keys(seq!["interaction", "default_encoding"]), JsonModel::Str(spec_interaction_encoding(s.interaction_default_encoding@), None));
    assert(spec_saved_interaction_part1(d, s) == d8);
    assert(spec_saved_interaction_part2(d8, s) == d15);
    assert(spec_saved_interaction(d, s) == d15);
    lemma_set_path_then_read(d10, spec_keys(seq!["interaction", "mac_ime_compatibility"]), JsonModel::Bool(s.interaction_mac_ime_compatibility));
    assert("tab_double_click_action"@.len() != "mac_ime_compatibility"@.len());
    assert(spec_keys(seq!["interaction", "tab_double_click_action"])[1] != spec_keys(seq!["interaction", "mac_ime_compatibility"])[1]);
    lemma_set_path_frame(d11, spec_keys(seq!["interaction", "tab_double_click_action"]), JsonModel::Str(spec_tab_mouse_action(s.interaction_tab_double_click_action@), None), spec_keys(seq!["interaction", "mac_ime_compatibility"]));
    assert("tab_middle_click_action"@.len() != "mac_ime_compatibility"@.len());
    assert(spec_keys(seq!["interaction", "tab_middle_click_action"])[1] != spec_keys(seq!["interaction", "mac_ime_compatibility"])[1]);
    lemma_set_path_frame(d12, spec_keys(seq!["interaction", "tab_middle_click_action"]), JsonModel::Str(spec_tab_mouse_action(s.interaction_tab_middle_click_action@), None), spec_keys(seq!["interaction", "mac_ime_compatibility"]));
    assert("tab_right_click_action"@.len() != "mac_ime_compatibility"@.len());
    assert(spec_keys(seq!["interaction", "tab_right_click_action"])[1] != spec_keys(seq!["interaction", "mac_ime_compatibility"])[1]);
    lemma_set_path_frame(d13, spec_keys(seq!["interaction", "tab_right_click_action"]), JsonModel::Str(spec_tab_mouse_action(s.interaction_tab_right_click_action@), None), spec_keys(seq!["interaction", "mac_ime_compatibility"]));
    assert("default_encoding"@.len() != "mac_ime_compatibility"@.len());
    assert(spec_keys(seq!["interaction", "default_encoding"])[1] != spec_keys(seq!["interaction", "mac_ime_compatibility"])[1]);
    lemma_set_path_frame(d14, spec_keys(seq!["interaction", "default_encoding"]), JsonModel::Str(spec_interaction_encoding(s.interaction_default_encoding@), None), spec_keys(seq!["interaction", "mac_ime_compatibility"]));
}

#[verifier::spinoff_prover]
proof fn lemma_saved_interaction_keeps_interaction_tab_double_click_action(d: JsonModel, s: AppSettingsSummary)
    ensures
        spec_json_path(spec_saved_interaction(d, s), spec_keys(seq!["interaction", "tab_double_click_action"])) == Some(JsonModel::Str(spec_tab_mouse_action(s.interaction_tab_double_click_action@), None)),
{
    reveal_strlit("default_encoding");
    reveal_strlit("interaction");
    reveal_strlit("tab_double_click_action");
    reveal_strlit("tab_middle_click_action");
    reveal_strlit("tab_right_click_action");
    let d1 = spec_set_path(d, spec_keys(seq!["interaction", "copy_on_select"]), JsonModel::Bool(s.interaction_copy_on_select));
    let d2 = spec_set_path(d1, spec_keys(seq!["interaction", "allow_osc52_clipboard_write"]), JsonModel::Bool(s.interaction_allow_osc52_clipboard_write));
    let d3 = spec_set_path(d2, spec_keys(seq!["interaction", "right_click_paste"]), JsonModel::Bool(s.interaction_right_click_paste));
    let d4 = spec_set_path(d3, spec_keys(seq!["interaction", "terminal_zoom_enabled"]), JsonModel::Bool(s.interaction_terminal_zoom_enabled));
    let d5 = spec_set_path(d4, spec_keys(seq!["interaction", "command_suggestions_enabled"]), JsonModel::Bool(s.interaction_command_suggestions_enabled));
    let d6 = spec_set_path(d5, spec_keys(seq!["interaction", "command_suggestion_min_chars"]), JsonModel::Number(JsonNumber::PosInt(spec_min_chars(s) as u64)));
    let d7 = spec_set_path(d6, spec_keys(seq!["interaction", "command_suggestion_max_chars"]), JsonModel::Number(JsonNumber::PosInt(spec_max_chars(s) as u64)));
    let d8 = spec_set_path(d7, spec_keys(seq!["interaction", "word_separators"]), JsonModel::Str(s.interaction_word_separators@, None));
    let d9 = spec_set_path(d8, spec_keys(seq!["interaction", "duplicate_session_command_delay_ms"]), JsonModel::Number(JsonNumber::PosInt(spec_clamp(s.interaction_duplicate_session_command_delay_ms as int, 0, 60000) as u64)));
    let d10 = spec_set_path(d9, spec_keys(seq!["interaction", "alt_as_meta"]), JsonModel::Bool(s.interaction_alt_as_meta));
    let d11 = spec_set_path(d10, spec_keys(seq!["interaction", "mac_ime_compatibility"]), JsonModel::Bool(s.interaction_mac_ime_compatibility));
    let d12 = spec_set_path(d11, spec_keys(seq!["interaction", "tab_double_click_action"]), JsonModel::Str(spec_tab_mouse_action(s.interaction_tab_double_click_action@), None));
    let d13 = spec_set_path(d12, spec_keys(seq!["interaction", "tab_middle_click_action"]), JsonModel::Str(spec_tab_mouse_action(s.interaction_tab_middle_click_action@), None));
    let d14 = spec_set_path(d13, spec_keys(seq!["interaction", "tab_right_click_action"]), JsonModel::Str(spec_tab_mouse_action(s.interaction_tab_right_click_action@), None));
    let d15 = spec_set_path(d14, spec_keys(seq!["interaction", "default_encoding"]), JsonModel::Str(spec_interaction_encoding(s.interaction_default_encoding@), None));
    assert(spec_saved_interaction_part1(d, s) == d8);
    assert(spec_saved_interaction_part2(d8, s) == d15);
    assert(spec_saved_interaction(d, s) == d15);
    lemma_set_path_then_read(d11, spec_keys(seq!["interaction", "tab_double_click_action"]), JsonModel::Str(spec_tab_mouse_action(s.interaction_tab_double_click_action@), None));
    assert("tab_middle_click_action"@[4] != "tab_double_click_action"@[4]);
    assert(spec_keys(seq!["interaction", "tab_middle_click_action"])[1] != spec_keys(seq!["interaction", "tab_double_click_action"])[1]);
    lemma_set_path_frame(d12, spec_keys(seq!["interaction", "tab_middle_click_action"]), JsonModel::Str(spec_tab_mouse_action(s.interaction_tab_middle_click_action@), None), spec_keys(seq!["interaction", "tab_double_click_action"]));
    assert("tab_right_click_action"@.len() != "tab_double_click_action"@.len());
    assert(spec_keys(seq!["interaction", "tab_right_click_action"])[1] != spec_keys(seq!["interaction", "tab_double_click_action"])[1]);
    lemma_set_path_frame(d13, spec_keys(seq!["interaction", "tab_right_click_action"]), JsonModel::Str(spec_tab_mouse_action(s.interaction_tab_right_click_action@), None), spec_keys(seq!["interaction", "tab_double_click_action"]));
    assert("default_encoding"@.len() != "tab_double_click_action"@.len());
    assert(spec_keys(seq!["interaction", "default_encoding"])[1] != spec_keys(seq!["interaction", "tab_double_click_action"])[1]);
    lemma_set_path_frame(d14, spec_keys(seq!["interaction", "default_encoding"]), JsonModel::Str(spec_interaction_encoding(s.interaction_default_encoding@), None), spec_keys(seq!["interaction", "tab_double_click_action"]));
}

#[verifier::spinoff_prover]
proof fn lemma_saved_interaction_keeps_interaction_tab_middle_click_action(d: JsonModel, s: AppSettingsSummary)
    ensures
        spec_json_path(spec_saved_interaction(d, s), spec_keys(seq!["interaction", "tab_middle_click_action"])) == Some(JsonModel::Str(spec_tab_mouse_action(s.interaction_tab_middle_click_action@), None)),
{
    reveal_strlit("default_encoding");
    reveal_strlit("interaction");
    reveal_strlit("tab_middle_click_action");
    reveal_strlit("tab_right_click_action");
    let d1 = spec_set_path(d, spec_keys(seq!["interaction", "copy_on_select"]), JsonModel::Bool(s.interaction_copy_on_select));
    let d2 = spec_set_path(d1, spec_keys(seq!["interaction", "allow_osc52_clipboard_write"]), JsonModel::Bool(s.interaction_allow_osc52_clipboard_write));
    let d3 = spec_set_path(d2, spec_keys(seq!["interaction", "right_click_paste"]), JsonModel::Bool(s.interaction_right_click_paste));
    let d4 = spec_set_path(d3, spec_keys(seq!["interaction", "terminal_zoom_enabled"]), JsonModel::Bool(s.interaction_terminal_zoom_enabled));
    let d5 = spec_set_path(d4, spec_keys(seq!["interaction", "command_suggestions_enabled"]), JsonModel::Bool(s.interaction_command_suggestions_enabled));
    let d6 = spec_set_path(d5, spec_keys(seq!["interaction", "command_suggestion_min_chars"]), JsonModel::Number(JsonNumber::PosInt(spec_min_chars(s) as u64)));
    let d7 = spec_set_path(d6, spec_keys(seq!["interaction", "command_suggestion_max_chars"]), JsonModel::Number(JsonNumber::PosInt(spec_max_chars(s) as u64)));
    let d8 = spec_set_path(d7, spec_keys(seq!["interaction", "word_separators"]), JsonModel::Str(s.interaction_word_separators@, None));
    let d9 = spec_set_path(d8, spec_keys(seq!["interaction", "duplicate_session_command_delay_ms"]), JsonModel::Number(JsonNumber::PosInt(spec_clamp(s.interaction_duplicate_session_command_delay_ms as int, 0, 60000) as u64)));
    let d10 = spec_set_path(d9, spec_keys(seq!["interaction", "alt_as_meta"]), JsonModel::Bool(s.interaction_alt_as_meta));
    let d11 = spec_set_path(d10, spec_keys(seq!["interaction", "mac_ime_compatibility"]), JsonModel::Bool(s.interaction_mac_ime_compatibility));
    let d12 = spec_set_path(d11, spec_keys(seq!["interaction", "tab_double_click_action"]), JsonModel::Str(spec_tab_mouse_action(s.interaction_tab_double_click_action@), None));
    let d13 = spec_set_path(d12, spec_keys(seq!["interaction", "tab_middle_click_action"]), JsonModel::Str(spec_tab_mouse_action(s.interaction_tab_middle_click_action@), None));
    let d14 = spec_set_path(d13, spec_keys(seq!["interaction", "tab_right_click_action"]), JsonModel::Str(spec_tab_mouse_action(s.interaction_tab_right_click_action@), None));
    let d15 = spec_set_path(d14, spec_keys(seq!["interaction", "default_encoding"]), JsonModel::Str(spec_interaction_encoding(s.interaction_default_encoding@), None));
    assert(spec_saved_interaction_part1(d, s) == d8);
    assert(spec_saved_interaction_part2(d8, s) == d15);
    assert(spec_saved_interaction(d, s) == d15);
    lemma_set_path_then_read(d12, spec_keys(seq!["interaction", "tab_middle_click_action"]), JsonModel::Str(spec_tab_mouse_action(s.interaction_tab_middle_click_action@), None));
    assert("tab_right_click_action"@.len() != "tab_middle_click_action"@.len());
    assert(spec_keys(seq!["interaction", "tab_right_click_action"])[1] != spec_keys(seq!["interaction", "tab_middle_click_action"])[1]);
    lemma_set_path_frame(d13, spec_keys(seq!["interaction", "tab_right_click_action"]), JsonModel::Str(spec_tab_mouse_action(s.interaction_tab_right_click_action@), None), spec_keys(seq!["interaction", "tab_middle_click_action"]));
    assert("default_encoding"@.len() != "tab_middle_click_action"@.len());
    assert(spec_keys(seq!["interaction", "default_encoding"])[1] != spec_keys(seq!["interaction", "tab_middle_click_action"])[1]);
    lemma_set_path_frame(d14, spec_keys(seq!["interaction", "default_encoding"]), JsonModel::Str(spec_interaction_encoding(s.interaction_default_encoding@), None), spec_keys(seq!["interaction", "tab_middle_click_action"]));
}

#[verifier::spinoff_prover]
proof fn lemma_saved_interaction_keeps_interaction_tab_right_click_action(d: JsonModel, s: AppSettingsSummary)
    ensures
        spec_json_path(spec_saved_interaction(d, s), spec_keys(seq!["interaction", "tab_right_click_action"])) == Some(JsonModel::Str(spec_tab_mouse_action(s.interaction_tab_right_click_action@), None)),
{
    reveal_strlit("default_encoding");
    reveal_strlit("interaction");
    reveal_strlit("tab_right_click_action");
    let d1 = spec_set_path(d, spec_keys(seq!["interaction", "copy_on_select"]), JsonModel::Bool(s.interaction_copy_on_select));
    let d2 = spec_set_path(d1, spec_keys(seq!["interaction", "allow_osc52_clipboard_write"]), JsonModel::Bool(s.interaction_allow_osc52_clipboard_write));
    let d3 = spec_set_path(d2, spec_keys(seq!["interaction", "right_click_paste"]), JsonModel::Bool(s.interaction_right_click_paste));
    let d4 = spec_set_path(d3, spec_keys(seq!["interaction", "terminal_zoom_enabled"]), JsonModel::Bool(s.interaction_terminal_zoom_enabled));
    let d5 = spec_set_path(d4, spec_keys(seq!["interaction", "command_suggestions_enabled"]), JsonModel::Bool(s.interaction_command_suggestions_enabled));
    let d6 = spec_set_path(d5, spec_keys(seq!["interaction", "command_suggestion_min_chars"]), JsonModel::Number(JsonNumber::PosInt(spec_min_chars(s) as u64)));
    let d7 = spec_set_path(d6, spec_keys(seq!["interaction", "command_suggestion_max_chars"]), JsonModel::Number(JsonNumber::PosInt(spec_max_chars(s) as u64)));
    let d8 = spec_set_path(d7, spec_keys(seq!["interaction", "word_separators"]), JsonModel::Str(s.interaction_word_separators@, None));
    let d9 = spec_set_path(d8, spec_keys(seq!["interaction", "duplicate_session_command_delay_ms"]), JsonModel::Number(JsonNumber::PosInt(spec_clamp(s.interaction_duplicate_session_command_delay_ms as int, 0, 60000) as u64)));
    let d10 = spec_set_path(d9, spec_keys(seq!["interaction", "alt_as_meta"]), JsonModel::Bool(s.interaction_alt_as_meta));
    let d11 = spec_set_path(d10, spec_keys(seq!["interaction", "mac_ime_compatibility"]), JsonModel::Bool(s.interaction_mac_ime_compatibility));
    let d12 = spec_set_path(d11, spec_keys(seq!["interaction", "tab_double_click_action"]), JsonModel::Str(spec_tab_mouse_action(s.interaction_tab_double_click_action@), None));
    let d13 = spec_set_path(d12, spec_keys(seq!["interaction", "tab_middle_click_action"]), JsonModel::Str(spec_tab_mouse_action(s.interaction_tab_middle_click_action@), None));
    let d14 = spec_set_path(d13, spec_keys(seq!["interaction", "tab_right_click_action"]), JsonModel::Str(spec_tab_mouse_action(s.interaction_tab_right_click_action@), None));
    let d15 = spec_set_path(d14, spec_keys(seq!["interaction", "default_encoding"]), JsonModel::Str(spec_interaction_encoding(s.interaction_default_encoding@), None));
    assert(spec_saved_interaction_part1(d, s) == d8);
    assert(spec_saved_interaction_part2(d8, s) == d15);
    assert(spec_saved_interaction(d, s) == d15);
    lemma_set_path_then_read(d13, spec_keys(seq!["interaction", "tab_right_click_action"]), JsonModel::Str(spec_tab_mouse_action(s.interaction_tab_right_click_action@), None));
    assert("default_encoding"@.len() != "tab_right_click_action"@.len());
    assert(spec_keys(seq!["interaction", "default_encoding"])[1] != spec_keys(seq!["interaction", "tab_right_click_action"])[1]);
    lemma_set_path_frame(d14, spec_keys(seq!["interaction", "default_encoding"]), JsonModel::Str(spec_interaction_encoding(s.interaction_default_encoding@), None), spec_keys(seq!["interaction", "tab_right_click_action"]));
}

#[verifier::spinoff_prover]
proof fn lemma_saved_interaction_keeps_interaction_default_encoding(d: JsonModel, s: AppSettingsSummary)
    ensures
        spec_json_path(spec_saved_interaction(d, s), spec_keys(seq!["interaction", "default_encoding"])) == Some(JsonModel::Str(spec_interaction_encoding(s.interaction_default_encoding@), None)),
{
    reveal_strlit("default_encoding");
    reveal_strlit("interaction");
    let d1 = spec_set_path(d, spec_keys(seq!["interaction", "copy_on_select"]), JsonModel::Bool(s.interaction_copy_on_select));
    let d2 = spec_set_path(d1, spec_keys(seq!["interaction", "allow_osc52_clipboard_write"]), JsonModel::Bool(s.interaction_allow_osc52_clipboard_write));
    let d3 = spec_set_path(d2, spec_keys(seq!["interaction", "right_click_paste"]), JsonModel::Bool(s.interaction_right_click_paste));
    let d4 = spec_set_path(d3, spec_keys(seq!["interaction", "terminal_zoom_enabled"]), JsonModel::Bool(s.interaction_terminal_zoom_enabled));
    let d5 = spec_set_path(d4, spec_keys(seq!["interaction", "command_suggestions_enabled"]), JsonModel::Bool(s.interaction_command_suggestions_enabled));
    let d6 = spec_set_path(d5, spec_keys(seq!["interaction", "command_suggestion_min_chars"]), JsonModel::Number(JsonNumber::PosInt(spec_min_chars(s) as u64)));
    let d7 = spec_set_path(d6, spec_keys(seq!["interaction", "command_suggestion_max_chars"]), JsonModel::Number(JsonNumber::PosInt(spec_max_chars(s) as u64)));
    let d8 = spec_set_path(d7, spec_keys(seq!["interaction", "word_separators"]), JsonModel::Str(s.interaction_word_separators@, None));
    let d9 = spec_set_path(d8, spec_keys(seq!["interaction", "duplicate_session_command_delay_ms"]), JsonModel::Number(JsonNumber::PosInt(spec_clamp(s.interaction_duplicate_session_command_delay_ms as int, 0, 60000) as u64)));
    let d10 = spec_set_path(d9, spec_keys(seq!["interaction", "alt_as_meta"]), JsonModel::Bool(s.interaction_alt_as_meta));
    let d11 = spec_set_path(d10, spec_keys(seq!["interaction", "mac_ime_compatibility"]), JsonModel::Bool(s.interaction_mac_ime_compatibility));
    let d12 = spec_set_path(d11, spec_keys(seq!["interaction", "tab_double_click_action"]), JsonModel::Str(spec_tab_mouse_action(s.interaction_tab_double_click_action@), None));
    let d13 = spec_set_path(d12, spec_keys(seq!["interaction", "tab_middle_click_action"]), JsonModel::Str(spec_tab_mouse_action(s.interaction_tab_middle_click_action@), None));
    let d14 = spec_set_path(d13, spec_keys(seq!["interaction", "tab_right_click_action"]), JsonModel::Str(spec_tab_mouse_action(s.interaction_tab_right_click_action@), None));
    let d15 = spec_set_path(d14, spec_keys(seq!["interaction", "default_encoding"]), JsonModel::Str(spec_interaction_encoding(s.interaction_default_encoding@), None));
    assert(spec_saved_interaction_part1(d, s) == d8);
    assert(spec_saved_interaction_part2(d8, s) == d15);
    assert(spec_saved_interaction(d, s) == d15);
    lemma_set_path_then_read(d14, spec_keys(seq!["interaction", "default_encoding"]), JsonModel::Str(spec_interaction_encoding(s.interaction_default_encoding@), None));
}

/// After how the terminal reacts to mouse and keyboard are stored, each of them reads back from the settings
/// document as it was written.
pub proof fn lemma_saved_interaction_reads_back(d: JsonModel, s: AppSettingsSummary)
    ensures
        spec_json_path(spec_saved_interaction(d, s), spec_keys(seq!["interaction", "copy_on_select"])) == Some(JsonModel::Bool(s.interaction_copy_on_select)),
        spec_json_path(spec_saved_interaction(d, s), spec_keys(seq!["interaction", "allow_osc52_clipboard_write"])) == Some(JsonModel::Bool(s.interaction_allow_osc52_clipboard_write)),
        spec_json_path(spec_saved_interaction(d, s), spec_keys(seq!["interaction", "right_click_paste"])) == Some(JsonModel::Bool(s.interaction_right_click_paste)),
        spec_json_path(spec_saved_interaction(d, s), spec_keys(seq!["interaction", "terminal_zoom_enabled"])) == Some(JsonModel::Bool(s.interaction_terminal_zoom_enabled)),
        spec_json_path(spec_saved_interaction(d, s), spec_keys(seq!["interaction", "command_suggestions_enabled"])) == Some(JsonModel::Bool(s.interaction_command_suggestions_enabled)),
        spec_json_path(spec_saved_interaction(d, s), spec_keys(seq!["interaction", "command_suggestion_min_chars"])) == Some(JsonModel::Number(JsonNumber::PosInt(spec_min_chars(s) as u64))),
        spec_json_path(spec_saved_interaction(d, s), spec_keys(seq!["interaction", "command_suggestion_max_chars"])) == Some(JsonModel::Number(JsonNumber::PosInt(spec_max_chars(s) as u64))),
        spec_json_path(spec_saved_interaction(d, s), spec_keys(seq!["interaction", "word_separators"])) == Some(JsonModel::Str(s.interaction_word_separators@, None)),
        spec_json_path(spec_saved_interaction(d, s), spec_keys(seq!["interaction", "duplicate_session_command_delay_ms"])) == Some(JsonModel::Number(JsonNumber::PosInt(spec_clamp(s.interaction_duplicate_session_command_delay_ms as int, 0, 60000) as u64))),
        spec_json_path(spec_saved_interaction(d, s), spec_keys(seq!["interaction", "alt_as_meta"])) == Some(JsonModel::Bool(s.interaction_alt_as_meta)),
        spec_json_path(spec_saved_interaction(d, s), spec_keys(seq!["interaction", "mac_ime_compatibility"])) == Some(JsonModel::Bool(s.interaction_mac_ime_compatibility)),
        spec_json_path(spec_saved_interaction(d, s), spec_keys(seq!["interaction", "tab_double_click_action"])) == Some(JsonModel::Str(spec_tab_mouse_action(s.interaction_tab_double_click_action@), None)),
        spec_json_path(spec_saved_interaction(d, s), spec_keys(seq!["interaction", "tab_middle_click_action"])) == Some(JsonModel::Str(spec_tab_mouse_action(s.interaction_tab_middle_click_action@), None)),
        spec_json_path(spec_saved_interaction(d, s), spec_keys(seq!["interaction", "tab_right_click_action"])) == Some(JsonModel::Str(spec_tab_mouse_action(s.interaction_tab_right_click_action@), None)),
        spec_json_path(spec_saved_interaction(d, s), spec_keys(seq!["interaction", "default_encoding"])) == Some(JsonModel::Str(spec_interaction_encoding(s.interaction_default_encoding@), None)),
{
    lemma_saved_interaction_keeps_interaction_copy_on_select(d, s);
    lemma_saved_interaction_keeps_interaction_allow_osc52_clipboard_write(d, s);
    lemma_saved_interaction_keeps_interaction_right_click_paste(d, s);
    lemma_saved_interaction_keeps_interaction_terminal_zoom_enabled(d, s);
    lemma_saved_interaction_keeps_interaction_command_suggestions_enabled(d, s);
    lemma_saved_interaction_keeps_interaction_command_suggestion_min_chars(d, s);
    lemma_saved_interaction_keeps_interaction_command_suggestion_max_chars(d, s);
    lemma_saved_interaction_keeps_interaction_word_separators(d, s);
    lemma_saved_interaction_keeps_interaction_duplicate_session_command_delay_ms(d, s);
    lemma_saved_interaction_keeps_interaction_alt_as_meta(d, s);
    lemma_saved_interaction_keeps_interaction_mac_ime_compatibility(d, s);
    lemma_saved_interaction_keeps_interaction_tab_double_click_action(d, s);
    lemma_saved_interaction_keeps_interaction_tab_middle_click_action(d, s);
    lemma_saved_interaction_keeps_interaction_tab_right_click_action(d, s);
    lemma_saved_interaction_keeps_interaction_default_encoding(d, s);
}

} // verus!
