//! Storing a group of settings from an edited summary: each value checked
//! and normalised as the summary reads it, then written at its place in the
//! settings document.

use vstd::prelude::*;

use crate::settings::encode::{
    list_map_view, matchers_value, number_value, recording_rotation_value,
    search_engines_to_json, spec_count_map_members, spec_engines_value, spec_list_map_members,
    spec_matchers_value, spec_rotation_value, spec_text_array, string_map_json_value,
    spec_string_map_members, string_vec_json_value, string_vec_map_json_value, text_value,
    u32_map_json_value,
};
use crate::settings::json::{
    counts_view, json_view, pairs_view, spec_clean_list, spec_keys, strings_view, JsonModel,
    JsonNumber, JsonValue,
};
use crate::settings::links::engines_view;
use crate::settings::normalize::{
    normalize_asset_sort_direction, normalize_header_status_mode, normalize_interaction_encoding,
    normalize_keep_alive_mode, normalize_saved_connections_sort_mode,
    normalize_start_workspace_mode, normalize_tab_mouse_action, normalize_timestamp_format,
    normalize_transfer_duplicate_strategy, normalize_transfer_editor_type,
    normalize_transfer_file_permissions, opt_view, pick, spec_asset_sort_direction,
    spec_header_status_setting, spec_interaction_encoding, spec_keep_alive_mode, spec_pick,
    spec_saved_connections_sort_mode, spec_start_workspace_mode, spec_tab_mouse_action,
    spec_timestamp_format, spec_transfer_duplicate_strategy, spec_transfer_editor_type,
    spec_transfer_file_permissions,
};
use crate::settings::recording::{
    existing_file_behavior_value, normalize_recording_path_template, recording_mode_value,
    spec_existing_file_behavior_value, spec_recording_mode_value, spec_recording_path_template,
};
use crate::settings::store::{ConnectionStore, StorageError};
use crate::settings::summary::{
    clamp_u16, clamp_u32, is_summary_of, normalize_panel_open_mode, spec_clamp,
    spec_panel_open_mode, AppSettingsSummary,
};
use crate::settings::write::{set_nested_json_value, spec_set_path};
use crate::text::{spec_trim, str_eq, trim};

verus! {

/// An open panel as stored: its id when it is not blank, else `null`.
pub open spec fn spec_optional_panel_value(o: Option<String>) -> JsonModel {
    match o {
        Some(p) => if spec_trim(p@).len() > 0 {
            JsonModel::Str(p@, None)
        } else {
            JsonModel::Null
        },
        None => JsonModel::Null,
    }
}

/// An open panel as stored.
pub fn optional_panel_value(o: &Option<String>) -> (r: JsonValue)
    ensures
        json_view(r) == spec_optional_panel_value(*o),
{
    match o {
        Some(p) => if !trim(p.as_str()).as_str().is_empty() {
            text_value(p.clone())
        } else {
            JsonValue::Null
        },
        None => JsonValue::Null,
    }
}

/// A sort key as stored: trimmed when it is not blank, else `null`.
pub open spec fn spec_optional_trimmed_value(o: Option<String>) -> JsonModel {
    match o {
        Some(k) => if spec_trim(k@).len() > 0 {
            JsonModel::Str(spec_trim(k@), None)
        } else {
            JsonModel::Null
        },
        None => JsonModel::Null,
    }
}

/// A sort key as stored.
pub fn optional_trimmed_value(o: &Option<String>) -> (r: JsonValue)
    ensures
        json_view(r) == spec_optional_trimmed_value(*o),
{
    match o {
        Some(k) => {
            let t = trim(k.as_str());
            if !t.as_str().is_empty() {
                text_value(t)
            } else {
                JsonValue::Null
            }
        },
        None => JsonValue::Null,
    }
}

/// A text, or `null` for none.
pub open spec fn spec_optional_text_or_null(o: Option<Seq<char>>) -> JsonModel {
    match o {
        Some(t) => JsonModel::Str(t, None),
        None => JsonModel::Null,
    }
}

/// A text, or `null` for none.
pub fn optional_text_or_null(o: Option<String>) -> (r: JsonValue)
    ensures
        json_view(r) == spec_optional_text_or_null(opt_view(o)),
{
    match o {
        Some(t) => text_value(t),
        None => JsonValue::Null,
    }
}

/// The interface language as stored: `zh-CN` for `zh-CN` or `zh`, `zh-TW`,
/// `ja`, else `en`.
pub open spec fn spec_language_setting(language: Seq<char>) -> Seq<char> {
    if language == "zh-CN"@ || language == "zh"@ {
        "zh-CN"@
    } else if language == "zh-TW"@ {
        "zh-TW"@
    } else if language == "ja"@ {
        "ja"@
    } else {
        "en"@
    }
}

/// The interface language as stored.
pub fn language_setting(language: &str) -> (r: String)
    ensures
        r@ == spec_language_setting(language@),
{
    if str_eq(language, "zh-CN") || str_eq(language, "zh") {
        String::from_str("zh-CN")
    } else if str_eq(language, "zh-TW") {
        String::from_str("zh-TW")
    } else if str_eq(language, "ja") {
        String::from_str("ja")
    } else {
        String::from_str("en")
    }
}

/// Log retention in days as stored: 3, 7, 14 or 30, else 7.
pub open spec fn spec_retention_days_u32(d: u32) -> u32 {
    if d == 3 || d == 7 || d == 14 || d == 30 {
        d
    } else {
        7
    }
}

/// Log retention in days as stored.
pub fn retention_days_u32(d: u32) -> (r: u32)
    ensures
        r == spec_retention_days_u32(d),
{
    if d == 3 || d == 7 || d == 14 || d == 30 {
        d
    } else {
        7
    }
}

/// The fewest typed characters before suggestions show, 1 to 500.
pub open spec fn spec_min_chars(s: AppSettingsSummary) -> u32 {
    spec_clamp(s.interaction_command_suggestion_min_chars as int, 1, 500) as u32
}

/// The most typed characters for which suggestions show, from the fewest to
/// 500.
pub open spec fn spec_max_chars(s: AppSettingsSummary) -> u32 {
    spec_clamp(s.interaction_command_suggestion_max_chars as int, spec_min_chars(s) as int, 500) as u32
}

/// The settings document after the key bindings are stored: every binding
/// kept verbatim, unknown ones too.
pub open spec fn spec_saved_keybindings(d: JsonModel, keybindings: Seq<(Seq<char>, Seq<char>)>) -> JsonModel {
    spec_set_path(
        d,
        spec_keys(seq!["keybindings"]),
        JsonModel::Object(spec_string_map_members(keybindings)),
    )
}

impl ConnectionStore {
    /// Stores the key bindings, every one verbatim, and returns the settings
    /// as they now read.
    pub fn save_keybindings(&mut self, keybindings: &Vec<(String, String)>) -> (r: Result<
        AppSettingsSummary,
        StorageError,
    >)
        ensures
            json_view(final(self).settings) == spec_saved_keybindings(
                json_view(old(self).settings),
                pairs_view(keybindings@),
            ),
            final(self).master_password == old(self).master_password,
            r is Ok,
            r matches Ok(v) ==> is_summary_of(v, json_view(final(self).settings)),
    {
        let path: [&str; 1] = ["keybindings"];
        assert(path@ =~= seq!["keybindings"]);
        set_nested_json_value(&mut self.settings, &path, string_map_json_value(keybindings));
        self.load_app_settings_summary()
    }
}

/// Part 1 of storing the terminal settings, the action-link kinds, the search engines and the monitor panels.
pub open spec fn spec_saved_terminal_part1(d: JsonModel, s: AppSettingsSummary) -> JsonModel {
    let d = spec_set_path(d, spec_keys(seq!["terminal", "x11_display"]), JsonModel::Str(s.x11_display@, None));
    let d = spec_set_path(d, spec_keys(seq!["terminal", "scrollback_lines"]), JsonModel::Number(JsonNumber::PosInt(spec_clamp(s.terminal_scrollback_lines as int, 100, 100000) as u64)));
    let d = spec_set_path(d, spec_keys(seq!["terminal", "keep_alive_mode"]), JsonModel::Str(spec_keep_alive_mode(s.terminal_keep_alive_mode@), None));
    let d = spec_set_path(d, spec_keys(seq!["terminal", "keep_alive_interval"]), JsonModel::Number(JsonNumber::PosInt(spec_clamp(s.terminal_keep_alive_interval as int, 0, 600) as u64)));
    let d = spec_set_path(d, spec_keys(seq!["terminal", "timestamp_format"]), JsonModel::Str(spec_timestamp_format(s.terminal_timestamp_format@), None));
    let d = spec_set_path(d, spec_keys(seq!["terminal", "hardware_acceleration"]), JsonModel::Bool(s.terminal_hardware_acceleration));
    let d = spec_set_path(d, spec_keys(seq!["terminal", "show_workspace_padding"]), JsonModel::Bool(s.terminal_show_workspace_padding));
    let d = spec_set_path(d, spec_keys(seq!["terminal", "show_line_numbers"]), JsonModel::Bool(s.terminal_show_line_numbers));
    d
}

fn write_terminal_part1(doc: &mut JsonValue, settings: &AppSettingsSummary)
    ensures
        json_view(*final(doc)) == spec_saved_terminal_part1(json_view(*old(doc)), *settings),
{
    set_nested_json_value(doc, &["terminal", "x11_display"], text_value(settings.x11_display.clone()));
    set_nested_json_value(doc, &["terminal", "scrollback_lines"], number_value(clamp_u32(settings.terminal_scrollback_lines, 100, 100000) as u64));
    set_nested_json_value(doc, &["terminal", "keep_alive_mode"], text_value(normalize_keep_alive_mode(settings.terminal_keep_alive_mode.as_str())));
    set_nested_json_value(doc, &["terminal", "keep_alive_interval"], number_value(clamp_u32(settings.terminal_keep_alive_interval, 0, 600) as u64));
    set_nested_json_value(doc, &["terminal", "timestamp_format"], text_value(normalize_timestamp_format(settings.terminal_timestamp_format.as_str())));
    set_nested_json_value(doc, &["terminal", "hardware_acceleration"], JsonValue::Bool(settings.terminal_hardware_acceleration));
    set_nested_json_value(doc, &["terminal", "show_workspace_padding"], JsonValue::Bool(settings.terminal_show_workspace_padding));
    set_nested_json_value(doc, &["terminal", "show_line_numbers"], JsonValue::Bool(settings.terminal_show_line_numbers));
}

/// Part 2 of storing the terminal settings, the action-link kinds, the search engines and the monitor panels.
pub open spec fn spec_saved_terminal_part2(d: JsonModel, s: AppSettingsSummary) -> JsonModel {
    let d = spec_set_path(d, spec_keys(seq!["terminal", "show_timestamps"]), JsonModel::Bool(s.terminal_show_timestamps));
    let d = spec_set_path(d, spec_keys(seq!["terminal", "show_multi_line_paste_dialog"]), JsonModel::Bool(s.terminal_show_multi_line_paste_dialog));
    let d = spec_set_path(d, spec_keys(seq!["terminal", "paste_image_as_path"]), JsonModel::Bool(s.terminal_paste_image_as_path));
    let d = spec_set_path(d, spec_keys(seq!["terminal", "reconnect_restore_cwd"]), JsonModel::Bool(s.terminal_reconnect_restore_cwd));
    let d = spec_set_path(d, spec_keys(seq!["terminal", "low_latency_mode"]), JsonModel::Bool(s.terminal_low_latency_mode));
    let d = spec_set_path(d, spec_keys(seq!["terminal", "zebra_stripes_enabled"]), JsonModel::Bool(s.terminal_zebra_stripes_enabled));
    let d = spec_set_path(d, spec_keys(seq!["terminal", "action_links_enabled"]), JsonModel::Bool(s.terminal_action_links_enabled));
    let d = spec_set_path(d, spec_keys(seq!["terminal", "action_links_matchers"]), spec_matchers_value(s.terminal_action_links_matchers));
    d
}

fn write_terminal_part2(doc: &mut JsonValue, settings: &AppSettingsSummary)
    ensures
        json_view(*final(doc)) == spec_saved_terminal_part2(json_view(*old(doc)), *settings),
{
    set_nested_json_value(doc, &["terminal", "show_timestamps"], JsonValue::Bool(settings.terminal_show_timestamps));
    set_nested_json_value(doc, &["terminal", "show_multi_line_paste_dialog"], JsonValue::Bool(settings.terminal_show_multi_line_paste_dialog));
    set_nested_json_value(doc, &["terminal", "paste_image_as_path"], JsonValue::Bool(settings.terminal_paste_image_as_path));
    set_nested_json_value(doc, &["terminal", "reconnect_restore_cwd"], JsonValue::Bool(settings.terminal_reconnect_restore_cwd));
    set_nested_json_value(doc, &["terminal", "low_latency_mode"], JsonValue::Bool(settings.terminal_low_latency_mode));
    set_nested_json_value(doc, &["terminal", "zebra_stripes_enabled"], JsonValue::Bool(settings.terminal_zebra_stripes_enabled));
    set_nested_json_value(doc, &["terminal", "action_links_enabled"], JsonValue::Bool(settings.terminal_action_links_enabled));
    set_nested_json_value(doc, &["terminal", "action_links_matchers"], matchers_value(&settings.terminal_action_links_matchers));
}

/// Part 3 of storing the terminal settings, the action-link kinds, the search engines and the monitor panels.
pub open spec fn spec_saved_terminal_part3(d: JsonModel, s: AppSettingsSummary) -> JsonModel {
    let d = spec_set_path(d, spec_keys(seq!["search", "custom_engines"]), spec_engines_value(engines_view(s.search_custom_engines@)));
    let d = spec_set_path(d, spec_keys(seq!["ui", "show_notes_panel"]), JsonModel::Bool(s.ui_show_notes_panel));
    let d = spec_set_path(d, spec_keys(seq!["ui", "show_remote_stats"]), JsonModel::Bool(s.ui_show_remote_stats));
    let d = spec_set_path(d, spec_keys(seq!["ui", "remote_stats_interval"]), JsonModel::Number(JsonNumber::PosInt(spec_clamp(s.ui_remote_stats_interval as int, 1, 60) as u64)));
    let d = spec_set_path(d, spec_keys(seq!["ui", "show_gpu_monitor"]), JsonModel::Bool(s.ui_show_gpu_monitor));
    let d = spec_set_path(d, spec_keys(seq!["ui", "gpu_monitor_interval"]), JsonModel::Number(JsonNumber::PosInt(spec_clamp(s.ui_gpu_monitor_interval as int, 3, 120) as u64)));
    let d = spec_set_path(d, spec_keys(seq!["ui", "show_ascend_npu_monitor"]), JsonModel::Bool(s.ui_show_ascend_npu_monitor));
    let d = spec_set_path(d, spec_keys(seq!["ui", "ascend_npu_monitor_interval"]), JsonModel::Number(JsonNumber::PosInt(spec_clamp(s.ui_ascend_npu_monitor_interval as int, 3, 120) as u64)));
    d
}

fn write_terminal_part3(doc: &mut JsonValue, settings: &AppSettingsSummary)
    ensures
        json_view(*final(doc)) == spec_saved_terminal_part3(json_view(*old(doc)), *settings),
{
    set_nested_json_value(doc, &["search", "custom_engines"], search_engines_to_json(&settings.search_custom_engines));
    set_nested_json_value(doc, &["ui", "show_notes_panel"], JsonValue::Bool(settings.ui_show_notes_panel));
    set_nested_json_value(doc, &["ui", "show_remote_stats"], JsonValue::Bool(settings.ui_show_remote_stats));
    set_nested_json_value(doc, &["ui", "remote_stats_interval"], number_value(clamp_u32(settings.ui_remote_stats_interval, 1, 60) as u64));
    set_nested_json_value(doc, &["ui", "show_gpu_monitor"], JsonValue::Bool(settings.ui_show_gpu_monitor));
    set_nested_json_value(doc, &["ui", "gpu_monitor_interval"], number_value(clamp_u32(settings.ui_gpu_monitor_interval, 3, 120) as u64));
    set_nested_json_value(doc, &["ui", "show_ascend_npu_monitor"], JsonValue::Bool(settings.ui_show_ascend_npu_monitor));
    set_nested_json_value(doc, &["ui", "ascend_npu_monitor_interval"], number_value(clamp_u32(settings.ui_ascend_npu_monitor_interval, 3, 120) as u64));
}

/// Part 4 of storing the terminal settings, the action-link kinds, the search engines and the monitor panels.
pub open spec fn spec_saved_terminal_part4(d: JsonModel, s: AppSettingsSummary) -> JsonModel {
    let d = spec_set_path(d, spec_keys(seq!["ui", "show_process_manager"]), JsonModel::Bool(s.ui_show_process_manager));
    let d = spec_set_path(d, spec_keys(seq!["ui", "process_manager_interval"]), JsonModel::Number(JsonNumber::PosInt(spec_clamp(s.ui_process_manager_interval as int, 3, 120) as u64)));
    let d = spec_set_path(d, spec_keys(seq!["ui", "show_docker_manager"]), JsonModel::Bool(s.ui_show_docker_manager));
    let d = spec_set_path(d, spec_keys(seq!["ui", "docker_manager_interval"]), JsonModel::Number(JsonNumber::PosInt(spec_clamp(s.ui_docker_manager_interval as int, 3, 120) as u64)));
    d
}

fn write_terminal_part4(doc: &mut JsonValue, settings: &AppSettingsSummary)
    ensures
        json_view(*final(doc)) == spec_saved_terminal_part4(json_view(*old(doc)), *settings),
{
    set_nested_json_value(doc, &["ui", "show_process_manager"], JsonValue::Bool(settings.ui_show_process_manager));
    set_nested_json_value(doc, &["ui", "process_manager_interval"], number_value(clamp_u32(settings.ui_process_manager_interval, 3, 120) as u64));
    set_nested_json_value(doc, &["ui", "show_docker_manager"], JsonValue::Bool(settings.ui_show_docker_manager));
    set_nested_json_value(doc, &["ui", "docker_manager_interval"], number_value(clamp_u32(settings.ui_docker_manager_interval, 3, 120) as u64));
}

/// The settings document after the terminal settings, the action-link kinds, the search engines and the monitor panels are stored from `s`.
pub open spec fn spec_saved_terminal(d: JsonModel, s: AppSettingsSummary) -> JsonModel {
    spec_saved_terminal_part4(spec_saved_terminal_part3(spec_saved_terminal_part2(spec_saved_terminal_part1(d, s), s), s), s)
}

impl ConnectionStore {
    /// Stores the terminal settings, the action-link kinds, the search engines and the monitor panels, and returns the settings as they now read.
    pub fn save_terminal_settings(&mut self, settings: &AppSettingsSummary) -> (r: Result<
        AppSettingsSummary,
        StorageError,
    >)
        ensures
            json_view(final(self).settings) == spec_saved_terminal(json_view(old(self).settings), *settings),
            final(self).master_password == old(self).master_password,
            r is Ok,
            r matches Ok(v) ==> is_summary_of(v, json_view(final(self).settings)),
    {
        write_terminal_part1(&mut self.settings, settings);
        write_terminal_part2(&mut self.settings, settings);
        write_terminal_part3(&mut self.settings, settings);
        write_terminal_part4(&mut self.settings, settings);
        self.load_app_settings_summary()
    }
}

/// Part 1 of storing the window layout: panel sizes and visibility, the activity bars, open panels, sort modes and the title bar reading.
pub open spec fn spec_saved_ui_layout_part1(d: JsonModel, s: AppSettingsSummary) -> JsonModel {
    let d = spec_set_path(d, spec_keys(seq!["ui", "left_width"]), JsonModel::Number(JsonNumber::PosInt(spec_clamp(s.ui_left_panel_width as int, 160, 720) as u64)));
    let d = spec_set_path(d, spec_keys(seq!["ui", "right_width"]), JsonModel::Number(JsonNumber::PosInt(spec_clamp(s.ui_right_panel_width as int, 200, 720) as u64)));
    let d = spec_set_path(d, spec_keys(seq!["ui", "transfer_height"]), JsonModel::Number(JsonNumber::PosInt(spec_clamp(s.ui_transfer_height as int, 60, 600) as u64)));
    let d = spec_set_path(d, spec_keys(seq!["ui", "quick_cmd_height"]), JsonModel::Number(JsonNumber::PosInt(spec_clamp(s.ui_quick_cmd_height as int, 36, 520) as u64)));
    let d = spec_set_path(d, spec_keys(seq!["ui", "show_quick_cmd_bar"]), JsonModel::Bool(s.ui_quick_cmd_visible));
    let d = spec_set_path(d, spec_keys(seq!["ui", "serial_send_height"]), JsonModel::Number(JsonNumber::PosInt(spec_clamp(s.ui_serial_send_height as int, 60, 520) as u64)));
    let d = spec_set_path(d, spec_keys(seq!["ui", "show_serial_send_panel"]), JsonModel::Bool(s.ui_serial_send_visible));
    let d = spec_set_path(d, spec_keys(seq!["ui", "active_left_panel"]), spec_optional_panel_value(s.ui_active_left_panel));
    d
}

fn write_ui_layout_part1(doc: &mut JsonValue, settings: &AppSettingsSummary)
    ensures
        json_view(*final(doc)) == spec_saved_ui_layout_part1(json_view(*old(doc)), *settings),
{
    set_nested_json_value(doc, &["ui", "left_width"], number_value(clamp_u32(settings.ui_left_panel_width, 160, 720) as u64));
    set_nested_json_value(doc, &["ui", "right_width"], number_value(clamp_u32(settings.ui_right_panel_width, 200, 720) as u64));
    set_nested_json_value(doc, &["ui", "transfer_height"], number_value(clamp_u32(settings.ui_transfer_height, 60, 600) as u64));
    set_nested_json_value(doc, &["ui", "quick_cmd_height"], number_value(clamp_u32(settings.ui_quick_cmd_height, 36, 520) as u64));
    set_nested_json_value(doc, &["ui", "show_quick_cmd_bar"], JsonValue::Bool(settings.ui_quick_cmd_visible));
    set_nested_json_value(doc, &["ui", "serial_send_height"], number_value(clamp_u32(settings.ui_serial_send_height, 60, 520) as u64));
    set_nested_json_value(doc, &["ui", "show_serial_send_panel"], JsonValue::Bool(settings.ui_serial_send_visible));
    set_nested_json_value(doc, &["ui", "active_left_panel"], optional_panel_value(&settings.ui_active_left_panel));
}

/// Part 2 of storing the window layout: panel sizes and visibility, the activity bars, open panels, sort modes and the title bar reading.
pub open spec fn spec_saved_ui_layout_part2(d: JsonModel, s: AppSettingsSummary) -> JsonModel {
    let d = spec_set_path(d, spec_keys(seq!["ui", "active_right_panel"]), spec_optional_panel_value(s.ui_active_right_panel));
    let d = spec_set_path(d, spec_keys(seq!["ui", "left_panel_collapsed"]), JsonModel::Bool(s.ui_left_panel_collapsed));
    let d = spec_set_path(d, spec_keys(seq!["ui", "right_panel_collapsed"]), JsonModel::Bool(s.ui_right_panel_collapsed));
    let d = spec_set_path(d, spec_keys(seq!["ui", "activity_bar_layout", "left_top"]), spec_text_array(spec_clean_list(strings_view(s.ui_activity_bar_left_top@), 32)));
    let d = spec_set_path(d, spec_keys(seq!["ui", "activity_bar_layout", "left_bottom"]), spec_text_array(spec_clean_list(strings_view(s.ui_activity_bar_left_bottom@), 32)));
    let d = spec_set_path(d, spec_keys(seq!["ui", "activity_bar_layout", "right_top"]), spec_text_array(spec_clean_list(strings_view(s.ui_activity_bar_right_top@), 32)));
    let d = spec_set_path(d, spec_keys(seq!["ui", "activity_bar_layout", "right_bottom"]), spec_text_array(spec_clean_list(strings_view(s.ui_activity_bar_right_bottom@), 32)));
    let d = spec_set_path(d, spec_keys(seq!["ui", "activity_bar_layout", "show_labels"]), JsonModel::Bool(s.ui_activity_bar_show_labels));
    d
}

fn write_ui_layout_part2(doc: &mut JsonValue, settings: &AppSettingsSummary)
    ensures
        json_view(*final(doc)) == spec_saved_ui_layout_part2(json_view(*old(doc)), *settings),
{
    set_nested_json_value(doc, &["ui", "active_right_panel"], optional_panel_value(&settings.ui_active_right_panel));
    set_nested_json_value(doc, &["ui", "left_panel_collapsed"], JsonValue::Bool(settings.ui_left_panel_collapsed));
    set_nested_json_value(doc, &["ui", "right_panel_collapsed"], JsonValue::Bool(settings.ui_right_panel_collapsed));
    set_nested_json_value(doc, &["ui", "activity_bar_layout", "left_top"], string_vec_json_value(&settings.ui_activity_bar_left_top, 32));
    set_nested_json_value(doc, &["ui", "activity_bar_layout", "left_bottom"], string_vec_json_value(&settings.ui_activity_bar_left_bottom, 32));
    set_nested_json_value(doc, &["ui", "activity_bar_layout", "right_top"], string_vec_json_value(&settings.ui_activity_bar_right_top, 32));
    set_nested_json_value(doc, &["ui", "activity_bar_layout", "right_bottom"], string_vec_json_value(&settings.ui_activity_bar_right_bottom, 32));
    set_nested_json_value(doc, &["ui", "activity_bar_layout", "show_labels"], JsonValue::Bool(settings.ui_activity_bar_show_labels));
}

/// Part 3 of storing the window layout: panel sizes and visibility, the activity bars, open panels, sort modes and the title bar reading.
pub open spec fn spec_saved_ui_layout_part3(d: JsonModel, s: AppSettingsSummary) -> JsonModel {
    let d = spec_set_path(d, spec_keys(seq!["ui", "activity_bar_layout", "hidden_items"]), spec_text_array(spec_clean_list(strings_view(s.ui_activity_bar_hidden_items@), 64)));
    let d = spec_set_path(d, spec_keys(seq!["ui", "panel_open_mode"]), JsonModel::Str(spec_panel_open_mode(s.ui_panel_open_mode@), None));
    let d = spec_set_path(d, spec_keys(seq!["ui", "panel_multi_open"]), JsonModel::Bool(s.ui_panel_multi_open));
    let d = spec_set_path(d, spec_keys(seq!["appearance", "panel_multi_open"]), JsonModel::Bool(s.ui_panel_multi_open));
    let d = spec_set_path(d, spec_keys(seq!["ui", "left_open_panels"]), spec_text_array(spec_clean_list(strings_view(s.ui_left_open_panels@), 32)));
    let d = spec_set_path(d, spec_keys(seq!["ui", "right_open_panels"]), spec_text_array(spec_clean_list(strings_view(s.ui_right_open_panels@), 32)));
    let d = spec_set_path(d, spec_keys(seq!["ui", "panel_stack_sizes"]), JsonModel::Object(spec_count_map_members(counts_view(s.ui_panel_stack_sizes@))));
    let d = spec_set_path(d, spec_keys(seq!["ui", "saved_connections_sort_mode"]), JsonModel::Str(spec_saved_connections_sort_mode(s.ui_saved_connections_sort_mode@), None));
    d
}

fn write_ui_layout_part3(doc: &mut JsonValue, settings: &AppSettingsSummary)
    ensures
        json_view(*final(doc)) == spec_saved_ui_layout_part3(json_view(*old(doc)), *settings),
{
    set_nested_json_value(doc, &["ui", "activity_bar_layout", "hidden_items"], string_vec_json_value(&settings.ui_activity_bar_hidden_items, 64));
    set_nested_json_value(doc, &["ui", "panel_open_mode"], text_value(normalize_panel_open_mode(settings.ui_panel_open_mode.as_str())));
    set_nested_json_value(doc, &["ui", "panel_multi_open"], JsonValue::Bool(settings.ui_panel_multi_open));
    set_nested_json_value(doc, &["appearance", "panel_multi_open"], JsonValue::Bool(settings.ui_panel_multi_open));
    set_nested_json_value(doc, &["ui", "left_open_panels"], string_vec_json_value(&settings.ui_left_open_panels, 32));
    set_nested_json_value(doc, &["ui", "right_open_panels"], string_vec_json_value(&settings.ui_right_open_panels, 32));
    set_nested_json_value(doc, &["ui", "panel_stack_sizes"], u32_map_json_value(&settings.ui_panel_stack_sizes));
    set_nested_json_value(doc, &["ui", "saved_connections_sort_mode"], text_value(normalize_saved_connections_sort_mode(settings.ui_saved_connections_sort_mode.as_str())));
}

/// Part 4 of storing the window layout: panel sizes and visibility, the activity bars, open panels, sort modes and the title bar reading.
pub open spec fn spec_saved_ui_layout_part4(d: JsonModel, s: AppSettingsSummary) -> JsonModel {
    let d = spec_set_path(d, spec_keys(seq!["ui", "saved_connections_expanded_group_ids"]), spec_text_array(spec_clean_list(strings_view(s.ui_saved_connections_expanded_group_ids@), 512)));
    let d = spec_set_path(d, spec_keys(seq!["ui", "start_workspace_mode"]), JsonModel::Str(spec_start_workspace_mode(s.ui_start_workspace_mode@), None));
    let d = spec_set_path(d, spec_keys(seq!["ui", "asset_sort_key"]), spec_optional_trimmed_value(s.ui_asset_sort_key));
    let d = spec_set_path(d, spec_keys(seq!["ui", "asset_sort_direction"]), spec_optional_text_or_null(spec_asset_sort_direction(opt_view(s.ui_asset_sort_direction))));
    let d = spec_set_path(d, spec_keys(seq!["ui", "header_status_mode"]), JsonModel::Str(spec_header_status_setting(s.ui_header_status_mode@), None));
    let d = spec_set_path(d, spec_keys(seq!["ui", "header_status_visible"]), JsonModel::Bool(s.ui_header_status_visible));
    d
}

fn write_ui_layout_part4(doc: &mut JsonValue, settings: &AppSettingsSummary)
    ensures
        json_view(*final(doc)) == spec_saved_ui_layout_part4(json_view(*old(doc)), *settings),
{
    set_nested_json_value(doc, &["ui", "saved_connections_expanded_group_ids"], string_vec_json_value(&settings.ui_saved_connections_expanded_group_ids, 512));
    set_nested_json_value(doc, &["ui", "start_workspace_mode"], text_value(normalize_start_workspace_mode(settings.ui_start_workspace_mode.as_str())));
    set_nested_json_value(doc, &["ui", "asset_sort_key"], optional_trimmed_value(&settings.ui_asset_sort_key));
    set_nested_json_value(doc, &["ui", "asset_sort_direction"], optional_text_or_null(normalize_asset_sort_direction(&settings.ui_asset_sort_direction)));
    set_nested_json_value(doc, &["ui", "header_status_mode"], text_value(normalize_header_status_mode(settings.ui_header_status_mode.as_str())));
    set_nested_json_value(doc, &["ui", "header_status_visible"], JsonValue::Bool(settings.ui_header_status_visible));
}

/// The settings document after the window layout: panel sizes and visibility, the activity bars, open panels, sort modes and the title bar reading are stored from `s`.
pub open spec fn spec_saved_ui_layout(d: JsonModel, s: AppSettingsSummary) -> JsonModel {
    spec_saved_ui_layout_part4(spec_saved_ui_layout_part3(spec_saved_ui_layout_part2(spec_saved_ui_layout_part1(d, s), s), s), s)
}

impl ConnectionStore {
    /// Stores the window layout: panel sizes and visibility, the activity bars, open panels, sort modes and the title bar reading, and returns the settings as they now read.
    pub fn save_ui_layout_settings(&mut self, settings: &AppSettingsSummary) -> (r: Result<
        AppSettingsSummary,
        StorageError,
    >)
        ensures
            json_view(final(self).settings) == spec_saved_ui_layout(json_view(old(self).settings), *settings),
            final(self).master_password == old(self).master_password,
            r is Ok,
            r matches Ok(v) ==> is_summary_of(v, json_view(final(self).settings)),
    {
        write_ui_layout_part1(&mut self.settings, settings);
        write_ui_layout_part2(&mut self.settings, settings);
        write_ui_layout_part3(&mut self.settings, settings);
        write_ui_layout_part4(&mut self.settings, settings);
        self.load_app_settings_summary()
    }
}

/// Part 1 of storing how the terminal reacts to mouse and keyboard.
pub open spec fn spec_saved_interaction_part1(d: JsonModel, s: AppSettingsSummary) -> JsonModel {
    let d = spec_set_path(d, spec_keys(seq!["interaction", "copy_on_select"]), JsonModel::Bool(s.interaction_copy_on_select));
    let d = spec_set_path(d, spec_keys(seq!["interaction", "allow_osc52_clipboard_write"]), JsonModel::Bool(s.interaction_allow_osc52_clipboard_write));
    let d = spec_set_path(d, spec_keys(seq!["interaction", "right_click_paste"]), JsonModel::Bool(s.interaction_right_click_paste));
    let d = spec_set_path(d, spec_keys(seq!["interaction", "terminal_zoom_enabled"]), JsonModel::Bool(s.interaction_terminal_zoom_enabled));
    let d = spec_set_path(d, spec_keys(seq!["interaction", "command_suggestions_enabled"]), JsonModel::Bool(s.interaction_command_suggestions_enabled));
    let d = spec_set_path(d, spec_keys(seq!["interaction", "command_suggestion_min_chars"]), JsonModel::Number(JsonNumber::PosInt(spec_min_chars(s) as u64)));
    let d = spec_set_path(d, spec_keys(seq!["interaction", "command_suggestion_max_chars"]), JsonModel::Number(JsonNumber::PosInt(spec_max_chars(s) as u64)));
    let d = spec_set_path(d, spec_keys(seq!["interaction", "word_separators"]), JsonModel::Str(s.interaction_word_separators@, None));
    d
}

fn write_interaction_part1(doc: &mut JsonValue, settings: &AppSettingsSummary)
    ensures
        json_view(*final(doc)) == spec_saved_interaction_part1(json_view(*old(doc)), *settings),
{
    let min_chars = clamp_u32(settings.interaction_command_suggestion_min_chars, 1, 500);
    let max_chars = clamp_u32(settings.interaction_command_suggestion_max_chars, min_chars, 500);
    set_nested_json_value(doc, &["interaction", "copy_on_select"], JsonValue::Bool(settings.interaction_copy_on_select));
    set_nested_json_value(doc, &["interaction", "allow_osc52_clipboard_write"], JsonValue::Bool(settings.interaction_allow_osc52_clipboard_write));
    set_nested_json_value(doc, &["interaction", "right_click_paste"], JsonValue::Bool(settings.interaction_right_click_paste));
    set_nested_json_value(doc, &["interaction", "terminal_zoom_enabled"], JsonValue::Bool(settings.interaction_terminal_zoom_enabled));
    set_nested_json_value(doc, &["interaction", "command_suggestions_enabled"], JsonValue::Bool(settings.interaction_command_suggestions_enabled));
    set_nested_json_value(doc, &["interaction", "command_suggestion_min_chars"], number_value(min_chars as u64));
    set_nested_json_value(doc, &["interaction", "command_suggestion_max_chars"], number_value(max_chars as u64));
    set_nested_json_value(doc, &["interaction", "word_separators"], text_value(settings.interaction_word_separators.clone()));
}

/// Part 2 of storing how the terminal reacts to mouse and keyboard.
pub open spec fn spec_saved_interaction_part2(d: JsonModel, s: AppSettingsSummary) -> JsonModel {
    let d = spec_set_path(d, spec_keys(seq!["interaction", "duplicate_session_command_delay_ms"]), JsonModel::Number(JsonNumber::PosInt(spec_clamp(s.interaction_duplicate_session_command_delay_ms as int, 0, 60000) as u64)));
    let d = spec_set_path(d, spec_keys(seq!["interaction", "alt_as_meta"]), JsonModel::Bool(s.interaction_alt_as_meta));
    let d = spec_set_path(d, spec_keys(seq!["interaction", "mac_ime_compatibility"]), JsonModel::Bool(s.interaction_mac_ime_compatibility));
    let d = spec_set_path(d, spec_keys(seq!["interaction", "tab_double_click_action"]), JsonModel::Str(spec_tab_mouse_action(s.interaction_tab_double_click_action@), None));
    let d = spec_set_path(d, spec_keys(seq!["interaction", "tab_middle_click_action"]), JsonModel::Str(spec_tab_mouse_action(s.interaction_tab_middle_click_action@), None));
    let d = spec_set_path(d, spec_keys(seq!["interaction", "tab_right_click_action"]), JsonModel::Str(spec_tab_mouse_action(s.interaction_tab_right_click_action@), None));
    let d = spec_set_path(d, spec_keys(seq!["interaction", "default_encoding"]), JsonModel::Str(spec_interaction_encoding(s.interaction_default_encoding@), None));
    d
}

fn write_interaction_part2(doc: &mut JsonValue, settings: &AppSettingsSummary)
    ensures
        json_view(*final(doc)) == spec_saved_interaction_part2(json_view(*old(doc)), *settings),
{
    set_nested_json_value(doc, &["interaction", "duplicate_session_command_delay_ms"], number_value(clamp_u32(settings.interaction_duplicate_session_command_delay_ms, 0, 60000) as u64));
    set_nested_json_value(doc, &["interaction", "alt_as_meta"], JsonValue::Bool(settings.interaction_alt_as_meta));
    set_nested_json_value(doc, &["interaction", "mac_ime_compatibility"], JsonValue::Bool(settings.interaction_mac_ime_compatibility));
    set_nested_json_value(doc, &["interaction", "tab_double_click_action"], text_value(normalize_tab_mouse_action(settings.interaction_tab_double_click_action.as_str())));
    set_nested_json_value(doc, &["interaction", "tab_middle_click_action"], text_value(normalize_tab_mouse_action(settings.interaction_tab_middle_click_action.as_str())));
    set_nested_json_value(doc, &["interaction", "tab_right_click_action"], text_value(normalize_tab_mouse_action(settings.interaction_tab_right_click_action.as_str())));
    set_nested_json_value(doc, &["interaction", "default_encoding"], text_value(normalize_interaction_encoding(settings.interaction_default_encoding.as_str())));
}

/// The settings document after how the terminal reacts to mouse and keyboard; the most characters a suggestion may take is at least the fewest are stored from `s`.
pub open spec fn spec_saved_interaction(d: JsonModel, s: AppSettingsSummary) -> JsonModel {
    spec_saved_interaction_part2(spec_saved_interaction_part1(d, s), s)
}

impl ConnectionStore {
    /// Stores how the terminal reacts to mouse and keyboard; the most characters a suggestion may take is at least the fewest, and returns the settings as they now read.
    pub fn save_interaction_settings(&mut self, settings: &AppSettingsSummary) -> (r: Result<
        AppSettingsSummary,
        StorageError,
    >)
        ensures
            json_view(final(self).settings) == spec_saved_interaction(json_view(old(self).settings), *settings),
            final(self).master_password == old(self).master_password,
            r is Ok,
            r matches Ok(v) ==> is_summary_of(v, json_view(final(self).settings)),
    {
        write_interaction_part1(&mut self.settings, settings);
        write_interaction_part2(&mut self.settings, settings);
        self.load_app_settings_summary()
    }
}

/// Part 1 of storing the file transfer settings.
pub open spec fn spec_saved_transfer_part1(d: JsonModel, s: AppSettingsSummary) -> JsonModel {
    let d = spec_set_path(d, spec_keys(seq!["transfer", "download_path"]), JsonModel::Str(s.transfer_download_path@, None));
    let d = spec_set_path(d, spec_keys(seq!["transfer", "ask_save_location"]), JsonModel::Bool(s.transfer_ask_save_location));
    let d = spec_set_path(d, spec_keys(seq!["transfer", "duplicate_strategy"]), JsonModel::Str(spec_transfer_duplicate_strategy(s.transfer_duplicate_strategy@), None));
    let d = spec_set_path(d, spec_keys(seq!["transfer", "editor_type"]), JsonModel::Str(spec_transfer_editor_type(s.transfer_editor_type@), None));
    let d = spec_set_path(d, spec_keys(seq!["transfer", "internal_editor_font_size"]), JsonModel::Number(JsonNumber::PosInt(spec_clamp(s.transfer_internal_editor_font_size as int, 8, 72) as u64)));
    let d = spec_set_path(d, spec_keys(seq!["transfer", "default_editor"]), JsonModel::Str(s.transfer_default_editor@, None));
    let d = spec_set_path(d, spec_keys(seq!["transfer", "download_threads"]), JsonModel::Number(JsonNumber::PosInt(spec_clamp(s.transfer_download_threads as int, 1, 10) as u64)));
    let d = spec_set_path(d, spec_keys(seq!["transfer", "upload_threads"]), JsonModel::Number(JsonNumber::PosInt(spec_clamp(s.transfer_upload_threads as int, 1, 10) as u64)));
    d
}

fn write_transfer_part1(doc: &mut JsonValue, settings: &AppSettingsSummary)
    ensures
        json_view(*final(doc)) == spec_saved_transfer_part1(json_view(*old(doc)), *settings),
{
    set_nested_json_value(doc, &["transfer", "download_path"], text_value(settings.transfer_download_path.clone()));
    set_nested_json_value(doc, &["transfer", "ask_save_location"], JsonValue::Bool(settings.transfer_ask_save_location));
    set_nested_json_value(doc, &["transfer", "duplicate_strategy"], text_value(normalize_transfer_duplicate_strategy(settings.transfer_duplicate_strategy.as_str())));
    set_nested_json_value(doc, &["transfer", "editor_type"], text_value(normalize_transfer_editor_type(settings.transfer_editor_type.as_str())));
    set_nested_json_value(doc, &["transfer", "internal_editor_font_size"], number_value(clamp_u16(settings.transfer_internal_editor_font_size, 8, 72) as u64));
    set_nested_json_value(doc, &["transfer", "default_editor"], text_value(settings.transfer_default_editor.clone()));
    set_nested_json_value(doc, &["transfer", "download_threads"], number_value(clamp_u32(settings.transfer_download_threads, 1, 10) as u64));
    set_nested_json_value(doc, &["transfer", "upload_threads"], number_value(clamp_u32(settings.transfer_upload_threads, 1, 10) as u64));
}

/// Part 2 of storing the file transfer settings.
pub open spec fn spec_saved_transfer_part2(d: JsonModel, s: AppSettingsSummary) -> JsonModel {
    let d = spec_set_path(d, spec_keys(seq!["transfer", "max_transfer_retries"]), JsonModel::Number(JsonNumber::PosInt(spec_clamp(s.transfer_max_retries as int, 0, 10) as u64)));
    let d = spec_set_path(d, spec_keys(seq!["transfer", "transfer_buffer_size"]), JsonModel::Number(JsonNumber::PosInt(spec_clamp(s.transfer_buffer_size as int, 8, 256) as u64)));
    let d = spec_set_path(d, spec_keys(seq!["transfer", "default_file_permissions"]), JsonModel::Str(spec_transfer_file_permissions(s.transfer_default_file_permissions@), None));
    let d = spec_set_path(d, spec_keys(seq!["transfer", "preserve_timestamps"]), JsonModel::Bool(s.transfer_preserve_timestamps));
    let d = spec_set_path(d, spec_keys(seq!["transfer", "resume_broken_transfer"]), JsonModel::Bool(s.transfer_resume_broken_transfer));
    d
}

fn write_transfer_part2(doc: &mut JsonValue, settings: &AppSettingsSummary)
    ensures
        json_view(*final(doc)) == spec_saved_transfer_part2(json_view(*old(doc)), *settings),
{
    set_nested_json_value(doc, &["transfer", "max_transfer_retries"], number_value(clamp_u32(settings.transfer_max_retries, 0, 10) as u64));
    set_nested_json_value(doc, &["transfer", "transfer_buffer_size"], number_value(clamp_u32(settings.transfer_buffer_size, 8, 256) as u64));
    set_nested_json_value(doc, &["transfer", "default_file_permissions"], text_value(normalize_transfer_file_permissions(settings.transfer_default_file_permissions.as_str())));
    set_nested_json_value(doc, &["transfer", "preserve_timestamps"], JsonValue::Bool(settings.transfer_preserve_timestamps));
    set_nested_json_value(doc, &["transfer", "resume_broken_transfer"], JsonValue::Bool(settings.transfer_resume_broken_transfer));
}

/// The settings document after the file transfer settings are stored from `s`.
pub open spec fn spec_saved_transfer(d: JsonModel, s: AppSettingsSummary) -> JsonModel {
    spec_saved_transfer_part2(spec_saved_transfer_part1(d, s), s)
}

impl ConnectionStore {
    /// Stores the file transfer settings, and returns the settings as they now read.
    pub fn save_transfer_settings(&mut self, settings: &AppSettingsSummary) -> (r: Result<
        AppSettingsSummary,
        StorageError,
    >)
        ensures
            json_view(final(self).settings) == spec_saved_transfer(json_view(old(self).settings), *settings),
            final(self).master_password == old(self).master_password,
            r is Ok,
            r matches Ok(v) ==> is_summary_of(v, json_view(final(self).settings)),
    {
        write_transfer_part1(&mut self.settings, settings);
        write_transfer_part2(&mut self.settings, settings);
        self.load_app_settings_summary()
    }
}

/// Part 1 of storing the session-recording settings.
pub open spec fn spec_saved_recording_part1(d: JsonModel, s: AppSettingsSummary) -> JsonModel {
    let d = spec_set_path(d, spec_keys(seq!["recording", "base_path"]), JsonModel::Str(s.recording_path@, None));
    let d = spec_set_path(d, spec_keys(seq!["recording", "auto_start"]), JsonModel::Bool(s.recording_auto_start));
    let d = spec_set_path(d, spec_keys(seq!["recording", "default_mode"]), JsonModel::Str(spec_recording_mode_value(s.recording_default_mode), None));
    let d = spec_set_path(d, spec_keys(seq!["recording", "path_template"]), JsonModel::Str(spec_recording_path_template(s.recording_path_template@), None));
    let d = spec_set_path(d, spec_keys(seq!["recording", "include_io_labels"]), JsonModel::Bool(s.recording_include_io_labels));
    let d = spec_set_path(d, spec_keys(seq!["recording", "include_timestamps"]), JsonModel::Bool(s.recording_include_timestamps));
    let d = spec_set_path(d, spec_keys(seq!["recording", "include_session_metadata"]), JsonModel::Bool(s.recording_include_session_metadata));
    let d = spec_set_path(d, spec_keys(seq!["recording", "rotation"]), spec_rotation_value(s.recording_rotation));
    d
}

fn write_recording_part1(doc: &mut JsonValue, settings: &AppSettingsSummary)
    ensures
        json_view(*final(doc)) == spec_saved_recording_part1(json_view(*old(doc)), *settings),
{
    set_nested_json_value(doc, &["recording", "base_path"], text_value(settings.recording_path.clone()));
    set_nested_json_value(doc, &["recording", "auto_start"], JsonValue::Bool(settings.recording_auto_start));
    set_nested_json_value(doc, &["recording", "default_mode"], text_value(String::from_str(recording_mode_value(settings.recording_default_mode))));
    set_nested_json_value(doc, &["recording", "path_template"], text_value(normalize_recording_path_template(settings.recording_path_template.as_str())));
    set_nested_json_value(doc, &["recording", "include_io_labels"], JsonValue::Bool(settings.recording_include_io_labels));
    set_nested_json_value(doc, &["recording", "include_timestamps"], JsonValue::Bool(settings.recording_include_timestamps));
    set_nested_json_value(doc, &["recording", "include_session_metadata"], JsonValue::Bool(settings.recording_include_session_metadata));
    set_nested_json_value(doc, &["recording", "rotation"], recording_rotation_value(&settings.recording_rotation));
}

/// Part 2 of storing the session-recording settings.
pub open spec fn spec_saved_recording_part2(d: JsonModel, s: AppSettingsSummary) -> JsonModel {
    let d = spec_set_path(d, spec_keys(seq!["recording", "existing_file_behavior"]), JsonModel::Str(spec_existing_file_behavior_value(s.recording_existing_file_behavior), None));
    let d = spec_set_path(d, spec_keys(seq!["recording", "include_binary_transfer_payloads"]), JsonModel::Bool(s.recording_include_binary_transfer_payloads));
    let d = spec_set_path(d, spec_keys(seq!["recording", "memory_limit_bytes"]), JsonModel::Number(JsonNumber::PosInt(s.recording_memory_limit_bytes)));
    d
}

fn write_recording_part2(doc: &mut JsonValue, settings: &AppSettingsSummary)
    ensures
        json_view(*final(doc)) == spec_saved_recording_part2(json_view(*old(doc)), *settings),
{
    set_nested_json_value(doc, &["recording", "existing_file_behavior"], text_value(String::from_str(existing_file_behavior_value(settings.recording_existing_file_behavior))));
    set_nested_json_value(doc, &["recording", "include_binary_transfer_payloads"], JsonValue::Bool(settings.recording_include_binary_transfer_payloads));
    set_nested_json_value(doc, &["recording", "memory_limit_bytes"], number_value(settings.recording_memory_limit_bytes));
}

/// The settings document after the session-recording settings are stored from `s`.
pub open spec fn spec_saved_recording(d: JsonModel, s: AppSettingsSummary) -> JsonModel {
    spec_saved_recording_part2(spec_saved_recording_part1(d, s), s)
}

impl ConnectionStore {
    /// Stores the session-recording settings, and returns the settings as they now read.
    pub fn save_recording_settings(&mut self, settings: &AppSettingsSummary) -> (r: Result<
        AppSettingsSummary,
        StorageError,
    >)
        ensures
            json_view(final(self).settings) == spec_saved_recording(json_view(old(self).settings), *settings),
            final(self).master_password == old(self).master_password,
            r is Ok,
            r matches Ok(v) ==> is_summary_of(v, json_view(final(self).settings)),
    {
        write_recording_part1(&mut self.settings, settings);
        write_recording_part2(&mut self.settings, settings);
        self.load_app_settings_summary()
    }
}

/// The settings document after the file explorer's hidden-file switch, the connections whose folder follows the shell, and the favourite folders per connection are stored from `s`.
pub open spec fn spec_saved_file_explorer_favorite_dirs(d: JsonModel, s: AppSettingsSummary) -> JsonModel {
    let d = spec_set_path(d, spec_keys(seq!["ui", "file_explorer_show_hidden_files"]), JsonModel::Bool(s.ui_file_explorer_show_hidden_files));
    let d = spec_set_path(d, spec_keys(seq!["ui", "file_explorer_auto_sync_cwd_connection_ids"]), spec_text_array(spec_clean_list(strings_view(s.ui_file_explorer_auto_sync_cwd_connection_ids@), 256)));
    let d = spec_set_path(d, spec_keys(seq!["ui", "file_explorer_favorite_dirs_by_connection_id"]), JsonModel::Object(spec_list_map_members(list_map_view(s.ui_file_explorer_favorite_dirs_by_connection_id@), 12)));
    d
}

impl ConnectionStore {
    /// Stores the file explorer's hidden-file switch, the connections whose folder follows the shell, and the favourite folders per connection, and returns the settings as they now read.
    pub fn save_file_explorer_favorite_dirs(&mut self, settings: &AppSettingsSummary) -> (r: Result<
        AppSettingsSummary,
        StorageError,
    >)
        ensures
            json_view(final(self).settings) == spec_saved_file_explorer_favorite_dirs(json_view(old(self).settings), *settings),
            final(self).master_password == old(self).master_password,
            r is Ok,
            r matches Ok(v) ==> is_summary_of(v, json_view(final(self).settings)),
    {
        set_nested_json_value(&mut self.settings, &["ui", "file_explorer_show_hidden_files"], JsonValue::Bool(settings.ui_file_explorer_show_hidden_files));
        set_nested_json_value(&mut self.settings, &["ui", "file_explorer_auto_sync_cwd_connection_ids"], string_vec_json_value(&settings.ui_file_explorer_auto_sync_cwd_connection_ids, 256));
        set_nested_json_value(&mut self.settings, &["ui", "file_explorer_favorite_dirs_by_connection_id"], string_vec_map_json_value(&settings.ui_file_explorer_favorite_dirs_by_connection_id, 12));
        self.load_app_settings_summary()
    }
}

/// The settings document after start-up and window behaviour and the interface language are stored from `s`.
pub open spec fn spec_saved_general(d: JsonModel, s: AppSettingsSummary) -> JsonModel {
    let d = spec_set_path(d, spec_keys(seq!["general", "startup_restore"]), JsonModel::Bool(s.startup_restore));
    let d = spec_set_path(d, spec_keys(seq!["general", "startup_restore_window_layout"]), JsonModel::Bool(s.startup_restore_window_layout));
    let d = spec_set_path(d, spec_keys(seq!["general", "minimize_to_tray"]), JsonModel::Bool(s.minimize_to_tray));
    let d = spec_set_path(d, spec_keys(seq!["general", "confirm_on_close"]), JsonModel::Bool(s.confirm_on_close));
    let d = spec_set_path(d, spec_keys(seq!["ui", "language"]), JsonModel::Str(spec_language_setting(s.language@), None));
    d
}

impl ConnectionStore {
    /// Stores start-up and window behaviour and the interface language, and returns the settings as they now read.
    pub fn save_general_settings(&mut self, settings: &AppSettingsSummary) -> (r: Result<
        AppSettingsSummary,
        StorageError,
    >)
        ensures
            json_view(final(self).settings) == spec_saved_general(json_view(old(self).settings), *settings),
            final(self).master_password == old(self).master_password,
            r is Ok,
            r matches Ok(v) ==> is_summary_of(v, json_view(final(self).settings)),
    {
        set_nested_json_value(&mut self.settings, &["general", "startup_restore"], JsonValue::Bool(settings.startup_restore));
        set_nested_json_value(&mut self.settings, &["general", "startup_restore_window_layout"], JsonValue::Bool(settings.startup_restore_window_layout));
        set_nested_json_value(&mut self.settings, &["general", "minimize_to_tray"], JsonValue::Bool(settings.minimize_to_tray));
        set_nested_json_value(&mut self.settings, &["general", "confirm_on_close"], JsonValue::Bool(settings.confirm_on_close));
        set_nested_json_value(&mut self.settings, &["ui", "language"], text_value(language_setting(settings.language.as_str())));
        self.load_app_settings_summary()
    }
}

/// The settings document after the log level and how long logs are kept are stored from `s`.
pub open spec fn spec_saved_diagnostics(d: JsonModel, s: AppSettingsSummary) -> JsonModel {
    let d = spec_set_path(d, spec_keys(seq!["diagnostics", "level"]), JsonModel::Str(spec_pick(s.diagnostics_level@, spec_keys(seq!["warn", "debug"]), "info"@), None));
    let d = spec_set_path(d, spec_keys(seq!["diagnostics", "retention_days"]), JsonModel::Number(JsonNumber::PosInt(spec_retention_days_u32(s.diagnostics_retention_days) as u64)));
    d
}

impl ConnectionStore {
    /// Stores the log level and how long logs are kept, and returns the settings as they now read.
    pub fn save_diagnostics_settings(&mut self, settings: &AppSettingsSummary) -> (r: Result<
        AppSettingsSummary,
        StorageError,
    >)
        ensures
            json_view(final(self).settings) == spec_saved_diagnostics(json_view(old(self).settings), *settings),
            final(self).master_password == old(self).master_password,
            r is Ok,
            r matches Ok(v) ==> is_summary_of(v, json_view(final(self).settings)),
    {
        set_nested_json_value(&mut self.settings, &["diagnostics", "level"], text_value(pick(settings.diagnostics_level.clone(), &["warn", "debug"], "info")));
        set_nested_json_value(&mut self.settings, &["diagnostics", "retention_days"], number_value(retention_days_u32(settings.diagnostics_retention_days) as u64));
        self.load_app_settings_summary()
    }
}

/// The settings document after the screen lock are stored from `s`.
pub open spec fn spec_saved_screen_lock(d: JsonModel, s: AppSettingsSummary) -> JsonModel {
    let d = spec_set_path(d, spec_keys(seq!["security", "enable_screen_lock"]), JsonModel::Bool(s.enable_screen_lock));
    let d = spec_set_path(d, spec_keys(seq!["security", "idle_lock_minutes"]), JsonModel::Number(JsonNumber::PosInt(s.idle_lock_minutes as u64)));
    d
}

impl ConnectionStore {
    /// Stores the screen lock, and returns the settings as they now read.
    pub fn save_screen_lock_settings(&mut self, settings: &AppSettingsSummary) -> (r: Result<
        AppSettingsSummary,
        StorageError,
    >)
        ensures
            json_view(final(self).settings) == spec_saved_screen_lock(json_view(old(self).settings), *settings),
            final(self).master_password == old(self).master_password,
            r is Ok,
            r matches Ok(v) ==> is_summary_of(v, json_view(final(self).settings)),
    {
        set_nested_json_value(&mut self.settings, &["security", "enable_screen_lock"], JsonValue::Bool(settings.enable_screen_lock));
        set_nested_json_value(&mut self.settings, &["security", "idle_lock_minutes"], number_value(settings.idle_lock_minutes as u64));
        self.load_app_settings_summary()
    }
}
} // verus!
