//! The terminal settings read back: each value that the save writes is found at
//! its place in the settings document afterwards.

use vstd::prelude::*;

use crate::settings::encode::{spec_engines_value, spec_matchers_value};
use crate::settings::json::{spec_json_path, spec_keys, JsonModel, JsonNumber};
use crate::settings::links::engines_view;
use crate::settings::normalize::{spec_keep_alive_mode, spec_timestamp_format};

use crate::settings::save::{spec_saved_terminal, spec_saved_terminal_part1, spec_saved_terminal_part2, spec_saved_terminal_part3, spec_saved_terminal_part4};
use crate::settings::summary::{spec_clamp, AppSettingsSummary};
use crate::settings::write::{lemma_set_path_frame, lemma_set_path_then_read, spec_set_path};

verus! {

#[verifier::spinoff_prover]
proof fn lemma_saved_terminal_keeps_terminal_x11_display(d: JsonModel, s: AppSettingsSummary)
    ensures
        spec_json_path(spec_saved_terminal(d, s), spec_keys(seq!["terminal", "x11_display"])) == Some(JsonModel::Str(s.x11_display@, None)),
{
    reveal_strlit("action_links_enabled");
    reveal_strlit("action_links_matchers");
    reveal_strlit("hardware_acceleration");
    reveal_strlit("keep_alive_interval");
    reveal_strlit("keep_alive_mode");
    reveal_strlit("low_latency_mode");
    reveal_strlit("paste_image_as_path");
    reveal_strlit("reconnect_restore_cwd");
    reveal_strlit("scrollback_lines");
    reveal_strlit("search");
    reveal_strlit("show_line_numbers");
    reveal_strlit("show_multi_line_paste_dialog");
    reveal_strlit("show_timestamps");
    reveal_strlit("show_workspace_padding");
    reveal_strlit("terminal");
    reveal_strlit("timestamp_format");
    reveal_strlit("ui");
    reveal_strlit("x11_display");
    reveal_strlit("zebra_stripes_enabled");
    let d1 = spec_set_path(d, spec_keys(seq!["terminal", "x11_display"]), JsonModel::Str(s.x11_display@, None));
    let d2 = spec_set_path(d1, spec_keys(seq!["terminal", "scrollback_lines"]), JsonModel::Number(JsonNumber::PosInt(spec_clamp(s.terminal_scrollback_lines as int, 100, 100000) as u64)));
    let d3 = spec_set_path(d2, spec_keys(seq!["terminal", "keep_alive_mode"]), JsonModel::Str(spec_keep_alive_mode(s.terminal_keep_alive_mode@), None));
    let d4 = spec_set_path(d3, spec_keys(seq!["terminal", "keep_alive_interval"]), JsonModel::Number(JsonNumber::PosInt(spec_clamp(s.terminal_keep_alive_interval as int, 0, 600) as u64)));
    let d5 = spec_set_path(d4, spec_keys(seq!["terminal", "timestamp_format"]), JsonModel::Str(spec_timestamp_format(s.terminal_timestamp_format@), None));
    let d6 = spec_set_path(d5, spec_keys(seq!["terminal", "hardware_acceleration"]), JsonModel::Bool(s.terminal_hardware_acceleration));
    let d7 = spec_set_path(d6, spec_keys(seq!["terminal", "show_workspace_padding"]), JsonModel::Bool(s.terminal_show_workspace_padding));
    let d8 = spec_set_path(d7, spec_keys(seq!["terminal", "show_line_numbers"]), JsonModel::Bool(s.terminal_show_line_numbers));
    let d9 = spec_set_path(d8, spec_keys(seq!["terminal", "show_timestamps"]), JsonModel::Bool(s.terminal_show_timestamps));
    let d10 = spec_set_path(d9, spec_keys(seq!["terminal", "show_multi_line_paste_dialog"]), JsonModel::Bool(s.terminal_show_multi_line_paste_dialog));
    let d11 = spec_set_path(d10, spec_keys(seq!["terminal", "paste_image_as_path"]), JsonModel::Bool(s.terminal_paste_image_as_path));
    let d12 = spec_set_path(d11, spec_keys(seq!["terminal", "reconnect_restore_cwd"]), JsonModel::Bool(s.terminal_reconnect_restore_cwd));
    let d13 = spec_set_path(d12, spec_keys(seq!["terminal", "low_latency_mode"]), JsonModel::Bool(s.terminal_low_latency_mode));
    let d14 = spec_set_path(d13, spec_keys(seq!["terminal", "zebra_stripes_enabled"]), JsonModel::Bool(s.terminal_zebra_stripes_enabled));
    let d15 = spec_set_path(d14, spec_keys(seq!["terminal", "action_links_enabled"]), JsonModel::Bool(s.terminal_action_links_enabled));
    let d16 = spec_set_path(d15, spec_keys(seq!["terminal", "action_links_matchers"]), spec_matchers_value(s.terminal_action_links_matchers));
    let d17 = spec_set_path(d16, spec_keys(seq!["search", "custom_engines"]), spec_engines_value(engines_view(s.search_custom_engines@)));
    let d18 = spec_set_path(d17, spec_keys(seq!["ui", "show_notes_panel"]), JsonModel::Bool(s.ui_show_notes_panel));
    let d19 = spec_set_path(d18, spec_keys(seq!["ui", "show_remote_stats"]), JsonModel::Bool(s.ui_show_remote_stats));
    let d20 = spec_set_path(d19, spec_keys(seq!["ui", "remote_stats_interval"]), JsonModel::Number(JsonNumber::PosInt(spec_clamp(s.ui_remote_stats_interval as int, 1, 60) as u64)));
    let d21 = spec_set_path(d20, spec_keys(seq!["ui", "show_gpu_monitor"]), JsonModel::Bool(s.ui_show_gpu_monitor));
    let d22 = spec_set_path(d21, spec_keys(seq!["ui", "gpu_monitor_interval"]), JsonModel::Number(JsonNumber::PosInt(spec_clamp(s.ui_gpu_monitor_interval as int, 3, 120) as u64)));
    let d23 = spec_set_path(d22, spec_keys(seq!["ui", "show_ascend_npu_monitor"]), JsonModel::Bool(s.ui_show_ascend_npu_monitor));
    let d24 = spec_set_path(d23, spec_keys(seq!["ui", "ascend_npu_monitor_interval"]), JsonModel::Number(JsonNumber::PosInt(spec_clamp(s.ui_ascend_npu_monitor_interval as int, 3, 120) as u64)));
    let d25 = spec_set_path(d24, spec_keys(seq!["ui", "show_process_manager"]), JsonModel::Bool(s.ui_show_process_manager));
    let d26 = spec_set_path(d25, spec_keys(seq!["ui", "process_manager_interval"]), JsonModel::Number(JsonNumber::PosInt(spec_clamp(s.ui_process_manager_interval as int, 3, 120) as u64)));
    let d27 = spec_set_path(d26, spec_keys(seq!["ui", "show_docker_manager"]), JsonModel::Bool(s.ui_show_docker_manager));
    let d28 = spec_set_path(d27, spec_keys(seq!["ui", "docker_manager_interval"]), JsonModel::Number(JsonNumber::PosInt(spec_clamp(s.ui_docker_manager_interval as int, 3, 120) as u64)));
    assert(spec_saved_terminal_part1(d, s) == d8);
    assert(spec_saved_terminal_part2(d8, s) == d16);
    assert(spec_saved_terminal_part3(d16, s) == d24);
    assert(spec_saved_terminal_part4(d24, s) == d28);
    assert(spec_saved_terminal(d, s) == d28);
    lemma_set_path_then_read(d, spec_keys(seq!["terminal", "x11_display"]), JsonModel::Str(s.x11_display@, None));
    assert("scrollback_lines"@.len() != "x11_display"@.len());
    assert(spec_keys(seq!["terminal", "scrollback_lines"])[1] != spec_keys(seq!["terminal", "x11_display"])[1]);
    lemma_set_path_frame(d1, spec_keys(seq!["terminal", "scrollback_lines"]), JsonModel::Number(JsonNumber::PosInt(spec_clamp(s.terminal_scrollback_lines as int, 100, 100000) as u64)), spec_keys(seq!["terminal", "x11_display"]));
    assert("keep_alive_mode"@.len() != "x11_display"@.len());
    assert(spec_keys(seq!["terminal", "keep_alive_mode"])[1] != spec_keys(seq!["terminal", "x11_display"])[1]);
    lemma_set_path_frame(d2, spec_keys(seq!["terminal", "keep_alive_mode"]), JsonModel::Str(spec_keep_alive_mode(s.terminal_keep_alive_mode@), None), spec_keys(seq!["terminal", "x11_display"]));
    assert("keep_alive_interval"@.len() != "x11_display"@.len());
    assert(spec_keys(seq!["terminal", "keep_alive_interval"])[1] != spec_keys(seq!["terminal", "x11_display"])[1]);
    lemma_set_path_frame(d3, spec_keys(seq!["terminal", "keep_alive_interval"]), JsonModel::Number(JsonNumber::PosInt(spec_clamp(s.terminal_keep_alive_interval as int, 0, 600) as u64)), spec_keys(seq!["terminal", "x11_display"]));
    assert("timestamp_format"@.len() != "x11_display"@.len());
    assert(spec_keys(seq!["terminal", "timestamp_format"])[1] != spec_keys(seq!["terminal", "x11_display"])[1]);
    lemma_set_path_frame(d4, spec_keys(seq!["terminal", "timestamp_format"]), JsonModel::Str(spec_timestamp_format(s.terminal_timestamp_format@), None), spec_keys(seq!["terminal", "x11_display"]));
    assert("hardware_acceleration"@.len() != "x11_display"@.len());
    assert(spec_keys(seq!["terminal", "hardware_acceleration"])[1] != spec_keys(seq!["terminal", "x11_display"])[1]);
    lemma_set_path_frame(d5, spec_keys(seq!["terminal", "hardware_acceleration"]), JsonModel::Bool(s.terminal_hardware_acceleration), spec_keys(seq!["terminal", "x11_display"]));
    assert("show_workspace_padding"@.len() != "x11_display"@.len());
    assert(spec_keys(seq!["terminal", "show_workspace_padding"])[1] != spec_keys(seq!["terminal", "x11_display"])[1]);
    lemma_set_path_frame(d6, spec_keys(seq!["terminal", "show_workspace_padding"]), JsonModel::Bool(s.terminal_show_workspace_padding), spec_keys(seq!["terminal", "x11_display"]));
    assert("show_line_numbers"@.len() != "x11_display"@.len());
    assert(spec_keys(seq!["terminal", "show_line_numbers"])[1] != spec_keys(seq!["terminal", "x11_display"])[1]);
    lemma_set_path_frame(d7, spec_keys(seq!["terminal", "show_line_numbers"]), JsonModel::Bool(s.terminal_show_line_numbers), spec_keys(seq!["terminal", "x11_display"]));
    assert("show_timestamps"@.len() != "x11_display"@.len());
    assert(spec_keys(seq!["terminal", "show_timestamps"])[1] != spec_keys(seq!["terminal", "x11_display"])[1]);
    lemma_set_path_frame(d8, spec_keys(seq!["terminal", "show_timestamps"]), JsonModel::Bool(s.terminal_show_timestamps), spec_keys(seq!["terminal", "x11_display"]));
    assert("show_multi_line_paste_dialog"@.len() != "x11_display"@.len());
    assert(spec_keys(seq!["terminal", "show_multi_line_paste_dialog"])[1] != spec_keys(seq!["terminal", "x11_display"])[1]);
    lemma_set_path_frame(d9, spec_keys(seq!["terminal", "show_multi_line_paste_dialog"]), JsonModel::Bool(s.terminal_show_multi_line_paste_dialog), spec_keys(seq!["terminal", "x11_display"]));
    assert("paste_image_as_path"@.len() != "x11_display"@.len());
    assert(spec_keys(seq!["terminal", "paste_image_as_path"])[1] != spec_keys(seq!["terminal", "x11_display"])[1]);
    lemma_set_path_frame(d10, spec_keys(seq!["terminal", "paste_image_as_path"]), JsonModel::Bool(s.terminal_paste_image_as_path), spec_keys(seq!["terminal", "x11_display"]));
    assert("reconnect_restore_cwd"@.len() != "x11_display"@.len());
    assert(spec_keys(seq!["terminal", "reconnect_restore_cwd"])[1] != spec_keys(seq!["terminal", "x11_display"])[1]);
    lemma_set_path_frame(d11, spec_keys(seq!["terminal", "reconnect_restore_cwd"]), JsonModel::Bool(s.terminal_reconnect_restore_cwd), spec_keys(seq!["terminal", "x11_display"]));
    assert("low_latency_mode"@.len() != "x11_display"@.len());
    assert(spec_keys(seq!["terminal", "low_latency_mode"])[1] != spec_keys(seq!["terminal", "x11_display"])[1]);
    lemma_set_path_frame(d12, spec_keys(seq!["terminal", "low_latency_mode"]), JsonModel::Bool(s.terminal_low_latency_mode), spec_keys(seq!["terminal", "x11_display"]));
    assert("zebra_stripes_enabled"@.len() != "x11_display"@.len());
    assert(spec_keys(seq!["terminal", "zebra_stripes_enabled"])[1] != spec_keys(seq!["terminal", "x11_display"])[1]);
    lemma_set_path_frame(d13, spec_keys(seq!["terminal", "zebra_stripes_enabled"]), JsonModel::Bool(s.terminal_zebra_stripes_enabled), spec_keys(seq!["terminal", "x11_display"]));
    assert("action_links_enabled"@.len() != "x11_display"@.len());
    assert(spec_keys(seq!["terminal", "action_links_enabled"])[1] != spec_keys(seq!["terminal", "x11_display"])[1]);
    lemma_set_path_frame(d14, spec_keys(seq!["terminal", "action_links_enabled"]), JsonModel::Bool(s.terminal_action_links_enabled), spec_keys(seq!["terminal", "x11_display"]));
    assert("action_links_matchers"@.len() != "x11_display"@.len());
    assert(spec_keys(seq!["terminal", "action_links_matchers"])[1] != spec_keys(seq!["terminal", "x11_display"])[1]);
    lemma_set_path_frame(d15, spec_keys(seq!["terminal", "action_links_matchers"]), spec_matchers_value(s.terminal_action_links_matchers), spec_keys(seq!["terminal", "x11_display"]));
    assert("search"@.len() != "terminal"@.len());
    assert(spec_keys(seq!["search", "custom_engines"])[0] != spec_keys(seq!["terminal", "x11_display"])[0]);
    lemma_set_path_frame(d16, spec_keys(seq!["search", "custom_engines"]), spec_engines_value(engines_view(s.search_custom_engines@)), spec_keys(seq!["terminal", "x11_display"]));
    assert("ui"@.len() != "terminal"@.len());
    assert(spec_keys(seq!["ui", "show_notes_panel"])[0] != spec_keys(seq!["terminal", "x11_display"])[0]);
    lemma_set_path_frame(d17, spec_keys(seq!["ui", "show_notes_panel"]), JsonModel::Bool(s.ui_show_notes_panel), spec_keys(seq!["terminal", "x11_display"]));
    assert("ui"@.len() != "terminal"@.len());
    assert(spec_keys(seq!["ui", "show_remote_stats"])[0] != spec_keys(seq!["terminal", "x11_display"])[0]);
    lemma_set_path_frame(d18, spec_keys(seq!["ui", "show_remote_stats"]), JsonModel::Bool(s.ui_show_remote_stats), spec_keys(seq!["terminal", "x11_display"]));
    assert("ui"@.len() != "terminal"@.len());
    assert(spec_keys(seq!["ui", "remote_stats_interval"])[0] != spec_keys(seq!["terminal", "x11_display"])[0]);
    lemma_set_path_frame(d19, spec_keys(seq!["ui", "remote_stats_interval"]), JsonModel::Number(JsonNumber::PosInt(spec_clamp(s.ui_remote_stats_interval as int, 1, 60) as u64)), spec_keys(seq!["terminal", "x11_display"]));
    assert("ui"@.len() != "terminal"@.len());
    assert(spec_keys(seq!["ui", "show_gpu_monitor"])[0] != spec_keys(seq!["terminal", "x11_display"])[0]);
    lemma_set_path_frame(d20, spec_keys(seq!["ui", "show_gpu_monitor"]), JsonModel::Bool(s.ui_show_gpu_monitor), spec_keys(seq!["terminal", "x11_display"]));
    assert("ui"@.len() != "terminal"@.len());
    assert(spec_keys(seq!["ui", "gpu_monitor_interval"])[0] != spec_keys(seq!["terminal", "x11_display"])[0]);
    lemma_set_path_frame(d21, spec_keys(seq!["ui", "gpu_monitor_interval"]), JsonModel::Number(JsonNumber::PosInt(spec_clamp(s.ui_gpu_monitor_interval as int, 3, 120) as u64)), spec_keys(seq!["terminal", "x11_display"]));
    assert("ui"@.len() != "terminal"@.len());
    assert(spec_keys(seq!["ui", "show_ascend_npu_monitor"])[0] != spec_keys(seq!["terminal", "x11_display"])[0]);
    lemma_set_path_frame(d22, spec_keys(seq!["ui", "show_ascend_npu_monitor"]), JsonModel::Bool(s.ui_show_ascend_npu_monitor), spec_keys(seq!["terminal", "x11_display"]));
    assert("ui"@.len() != "terminal"@.len());
    assert(spec_keys(seq!["ui", "ascend_npu_monitor_interval"])[0] != spec_keys(seq!["terminal", "x11_display"])[0]);
    lemma_set_path_frame(d23, spec_keys(seq!["ui", "ascend_npu_monitor_interval"]), JsonModel::Number(JsonNumber::PosInt(spec_clamp(s.ui_ascend_npu_monitor_interval as int, 3, 120) as u64)), spec_keys(seq!["terminal", "x11_display"]));
    assert("ui"@.len() != "terminal"@.len());
    assert(spec_keys(seq!["ui", "show_process_manager"])[0] != spec_keys(seq!["terminal", "x11_display"])[0]);
    lemma_set_path_frame(d24, spec_keys(seq!["ui", "show_process_manager"]), JsonModel::Bool(s.ui_show_process_manager), spec_keys(seq!["terminal", "x11_display"]));
    assert("ui"@.len() != "terminal"@.len());
    assert(spec_keys(seq!["ui", "process_manager_interval"])[0] != spec_keys(seq!["terminal", "x11_display"])[0]);
    lemma_set_path_frame(d25, spec_keys(seq!["ui", "process_manager_interval"]), JsonModel::Number(JsonNumber::PosInt(spec_clamp(s.ui_process_manager_interval as int, 3, 120) as u64)), spec_keys(seq!["terminal", "x11_display"]));
    assert("ui"@.len() != "terminal"@.len());
    assert(spec_keys(seq!["ui", "show_docker_manager"])[0] != spec_keys(seq!["terminal", "x11_display"])[0]);
    lemma_set_path_frame(d26, spec_keys(seq!["ui", "show_docker_manager"]), JsonModel::Bool(s.ui_show_docker_manager), spec_keys(seq!["terminal", "x11_display"]));
    assert("ui"@.len() != "terminal"@.len());
    assert(spec_keys(seq!["ui", "docker_manager_interval"])[0] != spec_keys(seq!["terminal", "x11_display"])[0]);
    lemma_set_path_frame(d27, spec_keys(seq!["ui", "docker_manager_interval"]), JsonModel::Number(JsonNumber::PosInt(spec_clamp(s.ui_docker_manager_interval as int, 3, 120) as u64)), spec_keys(seq!["terminal", "x11_display"]));
}

#[verifier::spinoff_prover]
proof fn lemma_saved_terminal_keeps_terminal_scrollback_lines(d: JsonModel, s: AppSettingsSummary)
    ensures
        spec_json_path(spec_saved_terminal(d, s), spec_keys(seq!["terminal", "scrollback_lines"])) == Some(JsonModel::Number(JsonNumber::PosInt(spec_clamp(s.terminal_scrollback_lines as int, 100, 100000) as u64))),
{
    reveal_strlit("action_links_enabled");
    reveal_strlit("action_links_matchers");
    reveal_strlit("hardware_acceleration");
    reveal_strlit("keep_alive_interval");
    reveal_strlit("keep_alive_mode");
    reveal_strlit("low_latency_mode");
    reveal_strlit("paste_image_as_path");
    reveal_strlit("reconnect_restore_cwd");
    reveal_strlit("scrollback_lines");
    reveal_strlit("search");
    reveal_strlit("show_line_numbers");
    reveal_strlit("show_multi_line_paste_dialog");
    reveal_strlit("show_timestamps");
    reveal_strlit("show_workspace_padding");
    reveal_strlit("terminal");
    reveal_strlit("timestamp_format");
    reveal_strlit("ui");
    reveal_strlit("zebra_stripes_enabled");
    let d1 = spec_set_path(d, spec_keys(seq!["terminal", "x11_display"]), JsonModel::Str(s.x11_display@, None));
    let d2 = spec_set_path(d1, spec_keys(seq!["terminal", "scrollback_lines"]), JsonModel::Number(JsonNumber::PosInt(spec_clamp(s.terminal_scrollback_lines as int, 100, 100000) as u64)));
    let d3 = spec_set_path(d2, spec_keys(seq!["terminal", "keep_alive_mode"]), JsonModel::Str(spec_keep_alive_mode(s.terminal_keep_alive_mode@), None));
    let d4 = spec_set_path(d3, spec_keys(seq!["terminal", "keep_alive_interval"]), JsonModel::Number(JsonNumber::PosInt(spec_clamp(s.terminal_keep_alive_interval as int, 0, 600) as u64)));
    let d5 = spec_set_path(d4, spec_keys(seq!["terminal", "timestamp_format"]), JsonModel::Str(spec_timestamp_format(s.terminal_timestamp_format@), None));
    let d6 = spec_set_path(d5, spec_keys(seq!["terminal", "hardware_acceleration"]), JsonModel::Bool(s.terminal_hardware_acceleration));
    let d7 = spec_set_path(d6, spec_keys(seq!["terminal", "show_workspace_padding"]), JsonModel::Bool(s.terminal_show_workspace_padding));
    let d8 = spec_set_path(d7, spec_keys(seq!["terminal", "show_line_numbers"]), JsonModel::Bool(s.terminal_show_line_numbers));
    let d9 = spec_set_path(d8, spec_keys(seq!["terminal", "show_timestamps"]), JsonModel::Bool(s.terminal_show_timestamps));
    let d10 = spec_set_path(d9, spec_keys(seq!["terminal", "show_multi_line_paste_dialog"]), JsonModel::Bool(s.terminal_show_multi_line_paste_dialog));
    let d11 = spec_set_path(d10, spec_keys(seq!["terminal", "paste_image_as_path"]), JsonModel::Bool(s.terminal_paste_image_as_path));
    let d12 = spec_set_path(d11, spec_keys(seq!["terminal", "reconnect_restore_cwd"]), JsonModel::Bool(s.terminal_reconnect_restore_cwd));
    let d13 = spec_set_path(d12, spec_keys(seq!["terminal", "low_latency_mode"]), JsonModel::Bool(s.terminal_low_latency_mode));
    let d14 = spec_set_path(d13, spec_keys(seq!["terminal", "zebra_stripes_enabled"]), JsonModel::Bool(s.terminal_zebra_stripes_enabled));
    let d15 = spec_set_path(d14, spec_keys(seq!["terminal", "action_links_enabled"]), JsonModel::Bool(s.terminal_action_links_enabled));
    let d16 = spec_set_path(d15, spec_keys(seq!["terminal", "action_links_matchers"]), spec_matchers_value(s.terminal_action_links_matchers));
    let d17 = spec_set_path(d16, spec_keys(seq!["search", "custom_engines"]), spec_engines_value(engines_view(s.search_custom_engines@)));
    let d18 = spec_set_path(d17, spec_keys(seq!["ui", "show_notes_panel"]), JsonModel::Bool(s.ui_show_notes_panel));
    let d19 = spec_set_path(d18, spec_keys(seq!["ui", "show_remote_stats"]), JsonModel::Bool(s.ui_show_remote_stats));
    let d20 = spec_set_path(d19, spec_keys(seq!["ui", "remote_stats_interval"]), JsonModel::Number(JsonNumber::PosInt(spec_clamp(s.ui_remote_stats_interval as int, 1, 60) as u64)));
    let d21 = spec_set_path(d20, spec_keys(seq!["ui", "show_gpu_monitor"]), JsonModel::Bool(s.ui_show_gpu_monitor));
    let d22 = spec_set_path(d21, spec_keys(seq!["ui", "gpu_monitor_interval"]), JsonModel::Number(JsonNumber::PosInt(spec_clamp(s.ui_gpu_monitor_interval as int, 3, 120) as u64)));
    let d23 = spec_set_path(d22, spec_keys(seq!["ui", "show_ascend_npu_monitor"]), JsonModel::Bool(s.ui_show_ascend_npu_monitor));
    let d24 = spec_set_path(d23, spec_keys(seq!["ui", "ascend_npu_monitor_interval"]), JsonModel::Number(JsonNumber::PosInt(spec_clamp(s.ui_ascend_npu_monitor_interval as int, 3, 120) as u64)));
    let d25 = spec_set_path(d24, spec_keys(seq!["ui", "show_process_manager"]), JsonModel::Bool(s.ui_show_process_manager));
    let d26 = spec_set_path(d25, spec_keys(seq!["ui", "process_manager_interval"]), JsonModel::Number(JsonNumber::PosInt(spec_clamp(s.ui_process_manager_interval as int, 3, 120) as u64)));
    let d27 = spec_set_path(d26, spec_keys(seq!["ui", "show_docker_manager"]), JsonModel::Bool(s.ui_show_docker_manager));
    let d28 = spec_set_path(d27, spec_keys(seq!["ui", "docker_manager_interval"]), JsonModel::Number(JsonNumber::PosInt(spec_clamp(s.ui_docker_manager_interval as int, 3, 120) as u64)));
    assert(spec_saved_terminal_part1(d, s) == d8);
    assert(spec_saved_terminal_part2(d8, s) == d16);
    assert(spec_saved_terminal_part3(d16, s) == d24);
    assert(spec_saved_terminal_part4(d24, s) == d28);
    assert(spec_saved_terminal(d, s) == d28);
    lemma_set_path_then_read(d1, spec_keys(seq!["terminal", "scrollback_lines"]), JsonModel::Number(JsonNumber::PosInt(spec_clamp(s.terminal_scrollback_lines as int, 100, 100000) as u64)));
    assert("keep_alive_mode"@.len() != "scrollback_lines"@.len());
    assert(spec_keys(seq!["terminal", "keep_alive_mode"])[1] != spec_keys(seq!["terminal", "scrollback_lines"])[1]);
    lemma_set_path_frame(d2, spec_keys(seq!["terminal", "keep_alive_mode"]), JsonModel::Str(spec_keep_alive_mode(s.terminal_keep_alive_mode@), None), spec_keys(seq!["terminal", "scrollback_lines"]));
    assert("keep_alive_interval"@.len() != "scrollback_lines"@.len());
    assert(spec_keys(seq!["terminal", "keep_alive_interval"])[1] != spec_keys(seq!["terminal", "scrollback_lines"])[1]);
    lemma_set_path_frame(d3, spec_keys(seq!["terminal", "keep_alive_interval"]), JsonModel::Number(JsonNumber::PosInt(spec_clamp(s.terminal_keep_alive_interval as int, 0, 600) as u64)), spec_keys(seq!["terminal", "scrollback_lines"]));
    assert("timestamp_format"@[0] != "scrollback_lines"@[0]);
    assert(spec_keys(seq!["terminal", "timestamp_format"])[1] != spec_keys(seq!["terminal", "scrollback_lines"])[1]);
    lemma_set_path_frame(d4, spec_keys(seq!["terminal", "timestamp_format"]), JsonModel::Str(spec_timestamp_format(s.terminal_timestamp_format@), None), spec_keys(seq!["terminal", "scrollback_lines"]));
    assert("hardware_acceleration"@.len() != "scrollback_lines"@.len());
    assert(spec_keys(seq!["terminal", "hardware_acceleration"])[1] != spec_keys(seq!["terminal", "scrollback_lines"])[1]);
    lemma_set_path_frame(d5, spec_keys(seq!["terminal", "hardware_acceleration"]), JsonModel::Bool(s.terminal_hardware_acceleration), spec_keys(seq!["terminal", "scrollback_lines"]));
    assert("show_workspace_padding"@.len() != "scrollback_lines"@.len());
    assert(spec_keys(seq!["terminal", "show_workspace_padding"])[1] != spec_keys(seq!["terminal", "scrollback_lines"])[1]);
    lemma_set_path_frame(d6, spec_keys(seq!["terminal", "show_workspace_padding"]), JsonModel::Bool(s.terminal_show_workspace_padding), spec_keys(seq!["terminal", "scrollback_lines"]));
    assert("show_line_numbers"@.len() != "scrollback_lines"@.len());
    assert(spec_keys(seq!["terminal", "show_line_numbers"])[1] != spec_keys(seq!["terminal", "scrollback_lines"])[1]);
    lemma_set_path_frame(d7, spec_keys(seq!["terminal", "show_line_numbers"]), JsonModel::Bool(s.terminal_show_line_numbers), spec_keys(seq!["terminal", "scrollback_lines"]));
    assert("show_timestamps"@.len() != "scrollback_lines"@.len());
    assert(spec_keys(seq!["terminal", "show_timestamps"])[1] != spec_keys(seq!["terminal", "scrollback_lines"])[1]);
    lemma_set_path_frame(d8, spec_keys(seq!["terminal", "show_timestamps"]), JsonModel::Bool(s.terminal_show_timestamps), spec_keys(seq!["terminal", "scrollback_lines"]));
    assert("show_multi_line_paste_dialog"@.len() != "scrollback_lines"@.len());
    assert(spec_keys(seq!["terminal", "show_multi_line_paste_dialog"])[1] != spec_keys(seq!["terminal", "scrollback_lines"])[1]);
    lemma_set_path_frame(d9, spec_keys(seq!["terminal", "show_multi_line_paste_dialog"]), JsonModel::Bool(s.terminal_show_multi_line_paste_dialog), spec_keys(seq!["terminal", "scrollback_lines"]));
    assert("paste_image_as_path"@.len() != "scrollback_lines"@.len());
    assert(spec_keys(seq!["terminal", "paste_image_as_path"])[1] != spec_keys(seq!["terminal", "scrollback_lines"])[1]);
    lemma_set_path_frame(d10, spec_keys(seq!["terminal", "paste_image_as_path"]), JsonModel::Bool(s.terminal_paste_image_as_path), spec_keys(seq!["terminal", "scrollback_lines"]));
    assert("reconnect_restore_cwd"@.len() != "scrollback_lines"@.len());
    assert(spec_keys(seq!["terminal", "reconnect_restore_cwd"])[1] != spec_keys(seq!["terminal", "scrollback_lines"])[1]);
    lemma_set_path_frame(d11, spec_keys(seq!["terminal", "reconnect_restore_cwd"]), JsonModel::Bool(s.terminal_reconnect_restore_cwd), spec_keys(seq!["terminal", "scrollback_lines"]));
    assert("low_latency_mode"@[0] != "scrollback_lines"@[0]);
    assert(spec_keys(seq!["terminal", "low_latency_mode"])[1] != spec_keys(seq!["terminal", "scrollback_lines"])[1]);
    lemma_set_path_frame(d12, spec_keys(seq!["terminal", "low_latency_mode"]), JsonModel::Bool(s.terminal_low_latency_mode), spec_keys(seq!["terminal", "scrollback_lines"]));
    assert("zebra_stripes_enabled"@.len() != "scrollback_lines"@.len());
    assert(spec_keys(seq!["terminal", "zebra_stripes_enabled"])[1] != spec_keys(seq!["terminal", "scrollback_lines"])[1]);
    lemma_set_path_frame(d13, spec_keys(seq!["terminal", "zebra_stripes_enabled"]), JsonModel::Bool(s.terminal_zebra_stripes_enabled), spec_keys(seq!["terminal", "scrollback_lines"]));
    assert("action_links_enabled"@.len() != "scrollback_lines"@.len());
    assert(spec_keys(seq!["terminal", "action_links_enabled"])[1] != spec_keys(seq!["terminal", "scrollback_lines"])[1]);
    lemma_set_path_frame(d14, spec_keys(seq!["terminal", "action_links_enabled"]), JsonModel::Bool(s.terminal_action_links_enabled), spec_keys(seq!["terminal", "scrollback_lines"]));
    assert("action_links_matchers"@.len() != "scrollback_lines"@.len());
    assert(spec_keys(seq!["terminal", "action_links_matchers"])[1] != spec_keys(seq!["terminal", "scrollback_lines"])[1]);
    lemma_set_path_frame(d15, spec_keys(seq!["terminal", "action_links_matchers"]), spec_matchers_value(s.terminal_action_links_matchers), spec_keys(seq!["terminal", "scrollback_lines"]));
    assert("search"@.len() != "terminal"@.len());
    assert(spec_keys(seq!["search", "custom_engines"])[0] != spec_keys(seq!["terminal", "scrollback_lines"])[0]);
    lemma_set_path_frame(d16, spec_keys(seq!["search", "custom_engines"]), spec_engines_value(engines_view(s.search_custom_engines@)), spec_keys(seq!["terminal", "scrollback_lines"]));
    assert("ui"@.len() != "terminal"@.len());
    assert(spec_keys(seq!["ui", "show_notes_panel"])[0] != spec_keys(seq!["terminal", "scrollback_lines"])[0]);
    lemma_set_path_frame(d17, spec_keys(seq!["ui", "show_notes_panel"]), JsonModel::Bool(s.ui_show_notes_panel), spec_keys(seq!["terminal", "scrollback_lines"]));
    assert("ui"@.len() != "terminal"@.len());
    assert(spec_keys(seq!["ui", "show_remote_stats"])[0] != spec_keys(seq!["terminal", "scrollback_lines"])[0]);
    lemma_set_path_frame(d18, spec_keys(seq!["ui", "show_remote_stats"]), JsonModel::Bool(s.ui_show_remote_stats), spec_keys(seq!["terminal", "scrollback_lines"]));
    assert("ui"@.len() != "terminal"@.len());
    assert(spec_keys(seq!["ui", "remote_stats_interval"])[0] != spec_keys(seq!["terminal", "scrollback_lines"])[0]);
    lemma_set_path_frame(d19, spec_keys(seq!["ui", "remote_stats_interval"]), JsonModel::Number(JsonNumber::PosInt(spec_clamp(s.ui_remote_stats_interval as int, 1, 60) as u64)), spec_keys(seq!["terminal", "scrollback_lines"]));
    assert("ui"@.len() != "terminal"@.len());
    assert(spec_keys(seq!["ui", "show_gpu_monitor"])[0] != spec_keys(seq!["terminal", "scrollback_lines"])[0]);
    lemma_set_path_frame(d20, spec_keys(seq!["ui", "show_gpu_monitor"]), JsonModel::Bool(s.ui_show_gpu_monitor), spec_keys(seq!["terminal", "scrollback_lines"]));
    assert("ui"@.len() != "terminal"@.len());
    assert(spec_keys(seq!["ui", "gpu_monitor_interval"])[0] != spec_keys(seq!["terminal", "scrollback_lines"])[0]);
    lemma_set_path_frame(d21, spec_keys(seq!["ui", "gpu_monitor_interval"]), JsonModel::Number(JsonNumber::PosInt(spec_clamp(s.ui_gpu_monitor_interval as int, 3, 120) as u64)), spec_keys(seq!["terminal", "scrollback_lines"]));
    assert("ui"@.len() != "terminal"@.len());
    assert(spec_keys(seq!["ui", "show_ascend_npu_monitor"])[0] != spec_keys(seq!["terminal", "scrollback_lines"])[0]);
    lemma_set_path_frame(d22, spec_keys(seq!["ui", "show_ascend_npu_monitor"]), JsonModel::Bool(s.ui_show_ascend_npu_monitor), spec_keys(seq!["terminal", "scrollback_lines"]));
    assert("ui"@.len() != "terminal"@.len());
    assert(spec_keys(seq!["ui", "ascend_npu_monitor_interval"])[0] != spec_keys(seq!["terminal", "scrollback_lines"])[0]);
    lemma_set_path_frame(d23, spec_keys(seq!["ui", "ascend_npu_monitor_interval"]), JsonModel::Number(JsonNumber::PosInt(spec_clamp(s.ui_ascend_npu_monitor_interval as int, 3, 120) as u64)), spec_keys(seq!["terminal", "scrollback_lines"]));
    assert("ui"@.len() != "terminal"@.len());
    assert(spec_keys(seq!["ui", "show_process_manager"])[0] != spec_keys(seq!["terminal", "scrollback_lines"])[0]);
    lemma_set_path_frame(d24, spec_keys(seq!["ui", "show_process_manager"]), JsonModel::Bool(s.ui_show_process_manager), spec_keys(seq!["terminal", "scrollback_lines"]));
    assert("ui"@.len() != "terminal"@.len());
    assert(spec_keys(seq!["ui", "process_manager_interval"])[0] != spec_keys(seq!["terminal", "scrollback_lines"])[0]);
    lemma_set_path_frame(d25, spec_keys(seq!["ui", "process_manager_interval"]), JsonModel::Number(JsonNumber::PosInt(spec_clamp(s.ui_process_manager_interval as int, 3, 120) as u64)), spec_keys(seq!["terminal", "scrollback_lines"]));
    assert("ui"@.len() != "terminal"@.len());
    assert(spec_keys(seq!["ui", "show_docker_manager"])[0] != spec_keys(seq!["terminal", "scrollback_lines"])[0]);
    lemma_set_path_frame(d26, spec_keys(seq!["ui", "show_docker_manager"]), JsonModel::Bool(s.ui_show_docker_manager), spec_keys(seq!["terminal", "scrollback_lines"]));
    assert("ui"@.len() != "terminal"@.len());
    assert(spec_keys(seq!["ui", "docker_manager_interval"])[0] != spec_keys(seq!["terminal", "scrollback_lines"])[0]);
    lemma_set_path_frame(d27, spec_keys(seq!["ui", "docker_manager_interval"]), JsonModel::Number(JsonNumber::PosInt(spec_clamp(s.ui_docker_manager_interval as int, 3, 120) as u64)), spec_keys(seq!["terminal", "scrollback_lines"]));
}

#[verifier::spinoff_prover]
proof fn lemma_saved_terminal_keeps_terminal_keep_alive_mode(d: JsonModel, s: AppSettingsSummary)
    ensures
        spec_json_path(spec_saved_terminal(d, s), spec_keys(seq!["terminal", "keep_alive_mode"])) == Some(JsonModel::Str(spec_keep_alive_mode(s.terminal_keep_alive_mode@), None)),
{
    reveal_strlit("action_links_enabled");
    reveal_strlit("action_links_matchers");
    reveal_strlit("hardware_acceleration");
    reveal_strlit("keep_alive_interval");
    reveal_strlit("keep_alive_mode");
    reveal_strlit("low_latency_mode");
    reveal_strlit("paste_image_as_path");
    reveal_strlit("reconnect_restore_cwd");
    reveal_strlit("search");
    reveal_strlit("show_line_numbers");
    reveal_strlit("show_multi_line_paste_dialog");
    reveal_strlit("show_timestamps");
    reveal_strlit("show_workspace_padding");
    reveal_strlit("terminal");
    reveal_strlit("timestamp_format");
    reveal_strlit("ui");
    reveal_strlit("zebra_stripes_enabled");
    let d1 = spec_set_path(d, spec_keys(seq!["terminal", "x11_display"]), JsonModel::Str(s.x11_display@, None));
    let d2 = spec_set_path(d1, spec_keys(seq!["terminal", "scrollback_lines"]), JsonModel::Number(JsonNumber::PosInt(spec_clamp(s.terminal_scrollback_lines as int, 100, 100000) as u64)));
    let d3 = spec_set_path(d2, spec_keys(seq!["terminal", "keep_alive_mode"]), JsonModel::Str(spec_keep_alive_mode(s.terminal_keep_alive_mode@), None));
    let d4 = spec_set_path(d3, spec_keys(seq!["terminal", "keep_alive_interval"]), JsonModel::Number(JsonNumber::PosInt(spec_clamp(s.terminal_keep_alive_interval as int, 0, 600) as u64)));
    let d5 = spec_set_path(d4, spec_keys(seq!["terminal", "timestamp_format"]), JsonModel::Str(spec_timestamp_format(s.terminal_timestamp_format@), None));
    let d6 = spec_set_path(d5, spec_keys(seq!["terminal", "hardware_acceleration"]), JsonModel::Bool(s.terminal_hardware_acceleration));
    let d7 = spec_set_path(d6, spec_keys(seq!["terminal", "show_workspace_padding"]), JsonModel::Bool(s.terminal_show_workspace_padding));
    let d8 = spec_set_path(d7, spec_keys(seq!["terminal", "show_line_numbers"]), JsonModel::Bool(s.terminal_show_line_numbers));
    let d9 = spec_set_path(d8, spec_keys(seq!["terminal", "show_timestamps"]), JsonModel::Bool(s.terminal_show_timestamps));
    let d10 = spec_set_path(d9, spec_keys(seq!["terminal", "show_multi_line_paste_dialog"]), JsonModel::Bool(s.terminal_show_multi_line_paste_dialog));
    let d11 = spec_set_path(d10, spec_keys(seq!["terminal", "paste_image_as_path"]), JsonModel::Bool(s.terminal_paste_image_as_path));
    let d12 = spec_set_path(d11, spec_keys(seq!["terminal", "reconnect_restore_cwd"]), JsonModel::Bool(s.terminal_reconnect_restore_cwd));
    let d13 = spec_set_path(d12, spec_keys(seq!["terminal", "low_latency_mode"]), JsonModel::Bool(s.terminal_low_latency_mode));
    let d14 = spec_set_path(d13, spec_keys(seq!["terminal", "zebra_stripes_enabled"]), JsonModel::Bool(s.terminal_zebra_stripes_enabled));
    let d15 = spec_set_path(d14, spec_keys(seq!["terminal", "action_links_enabled"]), JsonModel::Bool(s.terminal_action_links_enabled));
    let d16 = spec_set_path(d15, spec_keys(seq!["terminal", "action_links_matchers"]), spec_matchers_value(s.terminal_action_links_matchers));
    let d17 = spec_set_path(d16, spec_keys(seq!["search", "custom_engines"]), spec_engines_value(engines_view(s.search_custom_engines@)));
    let d18 = spec_set_path(d17, spec_keys(seq!["ui", "show_notes_panel"]), JsonModel::Bool(s.ui_show_notes_panel));
    let d19 = spec_set_path(d18, spec_keys(seq!["ui", "show_remote_stats"]), JsonModel::Bool(s.ui_show_remote_stats));
    let d20 = spec_set_path(d19, spec_keys(seq!["ui", "remote_stats_interval"]), JsonModel::Number(JsonNumber::PosInt(spec_clamp(s.ui_remote_stats_interval as int, 1, 60) as u64)));
    let d21 = spec_set_path(d20, spec_keys(seq!["ui", "show_gpu_monitor"]), JsonModel::Bool(s.ui_show_gpu_monitor));
    let d22 = spec_set_path(d21, spec_keys(seq!["ui", "gpu_monitor_interval"]), JsonModel::Number(JsonNumber::PosInt(spec_clamp(s.ui_gpu_monitor_interval as int, 3, 120) as u64)));
    let d23 = spec_set_path(d22, spec_keys(seq!["ui", "show_ascend_npu_monitor"]), JsonModel::Bool(s.ui_show_ascend_npu_monitor));
    let d24 = spec_set_path(d23, spec_keys(seq!["ui", "ascend_npu_monitor_interval"]), JsonModel::Number(JsonNumber::PosInt(spec_clamp(s.ui_ascend_npu_monitor_interval as int, 3, 120) as u64)));
    let d25 = spec_set_path(d24, spec_keys(seq!["ui", "show_process_manager"]), JsonModel::Bool(s.ui_show_process_manager));
    let d26 = spec_set_path(d25, spec_keys(seq!["ui", "process_manager_interval"]), JsonModel::Number(JsonNumber::PosInt(spec_clamp(s.ui_process_manager_interval as int, 3, 120) as u64)));
    let d27 = spec_set_path(d26, spec_keys(seq!["ui", "show_docker_manager"]), JsonModel::Bool(s.ui_show_docker_manager));
    let d28 = spec_set_path(d27, spec_keys(seq!["ui", "docker_manager_interval"]), JsonModel::Number(JsonNumber::PosInt(spec_clamp(s.ui_docker_manager_interval as int, 3, 120) as u64)));
    assert(spec_saved_terminal_part1(d, s) == d8);
    assert(spec_saved_terminal_part2(d8, s) == d16);
    assert(spec_saved_terminal_part3(d16, s) == d24);
    assert(spec_saved_terminal_part4(d24, s) == d28);
    assert(spec_saved_terminal(d, s) == d28);
    lemma_set_path_then_read(d2, spec_keys(seq!["terminal", "keep_alive_mode"]), JsonModel::Str(spec_keep_alive_mode(s.terminal_keep_alive_mode@), None));
    assert("keep_alive_interval"@.len() != "keep_alive_mode"@.len());
    assert(spec_keys(seq!["terminal", "keep_alive_interval"])[1] != spec_keys(seq!["terminal", "keep_alive_mode"])[1]);
    lemma_set_path_frame(d3, spec_keys(seq!["terminal", "keep_alive_interval"]), JsonModel::Number(JsonNumber::PosInt(spec_clamp(s.terminal_keep_alive_interval as int, 0, 600) as u64)), spec_keys(seq!["terminal", "keep_alive_mode"]));
    assert("timestamp_format"@.len() != "keep_alive_mode"@.len());
    assert(spec_keys(seq!["terminal", "timestamp_format"])[1] != spec_keys(seq!["terminal", "keep_alive_mode"])[1]);
    lemma_set_path_frame(d4, spec_keys(seq!["terminal", "timestamp_format"]), JsonModel::Str(spec_timestamp_format(s.terminal_timestamp_format@), None), spec_keys(seq!["terminal", "keep_alive_mode"]));
    assert("hardware_acceleration"@.len() != "keep_alive_mode"@.len());
    assert(spec_keys(seq!["terminal", "hardware_acceleration"])[1] != spec_keys(seq!["terminal", "keep_alive_mode"])[1]);
    lemma_set_path_frame(d5, spec_keys(seq!["terminal", "hardware_acceleration"]), JsonModel::Bool(s.terminal_hardware_acceleration), spec_keys(seq!["terminal", "keep_alive_mode"]));
    assert("show_workspace_padding"@.len() != "keep_alive_mode"@.len());
    assert(spec_keys(seq!["terminal", "show_workspace_padding"])[1] != spec_keys(seq!["terminal", "keep_alive_mode"])[1]);
    lemma_set_path_frame(d6, spec_keys(seq!["terminal", "show_workspace_padding"]), JsonModel::Bool(s.terminal_show_workspace_padding), spec_keys(seq!["terminal", "keep_alive_mode"]));
    assert("show_line_numbers"@.len() != "keep_alive_mode"@.len());
    assert(spec_keys(seq!["terminal", "show_line_numbers"])[1] != spec_keys(seq!["terminal", "keep_alive_mode"])[1]);
    lemma_set_path_frame(d7, spec_keys(seq!["terminal", "show_line_numbers"]), JsonModel::Bool(s.terminal_show_line_numbers), spec_keys(seq!["terminal", "keep_alive_mode"]));
    assert("show_timestamps"@[0] != "keep_alive_mode"@[0]);
    assert(spec_keys(seq!["terminal", "show_timestamps"])[1] != spec_keys(seq!["terminal", "keep_alive_mode"])[1]);
    lemma_set_path_frame(d8, spec_keys(seq!["terminal", "show_timestamps"]), JsonModel::Bool(s.terminal_show_timestamps), spec_keys(seq!["terminal", "keep_alive_mode"]));
    assert("show_multi_line_paste_dialog"@.len() != "keep_alive_mode"@.len());
    assert(spec_keys(seq!["terminal", "show_multi_line_paste_dialog"])[1] != spec_keys(seq!["terminal", "keep_alive_mode"])[1]);
    lemma_set_path_frame(d9, spec_keys(seq!["terminal", "show_multi_line_paste_dialog"]), JsonModel::Bool(s.terminal_show_multi_line_paste_dialog), spec_keys(seq!["terminal", "keep_alive_mode"]));
    assert("paste_image_as_path"@.len() != "keep_alive_mode"@.len());
    assert(spec_keys(seq!["terminal", "paste_image_as_path"])[1] != spec_keys(seq!["terminal", "keep_alive_mode"])[1]);
    lemma_set_path_frame(d10, spec_keys(seq!["terminal", "paste_image_as_path"]), JsonModel::Bool(s.terminal_paste_image_as_path), spec_keys(seq!["terminal", "keep_alive_mode"]));
    assert("reconnect_restore_cwd"@.len() != "keep_alive_mode"@.len());
    assert(spec_keys(seq!["terminal", "reconnect_restore_cwd"])[1] != spec_keys(seq!["terminal", "keep_alive_mode"])[1]);
    lemma_set_path_frame(d11, spec_keys(seq!["terminal", "reconnect_restore_cwd"]), JsonModel::Bool(s.terminal_reconnect_restore_cwd), spec_keys(seq!["terminal", "keep_alive_mode"]));
    assert("low_latency_mode"@.len() != "keep_alive_mode"@.len());
    assert(spec_keys(seq!["terminal", "low_latency_mode"])[1] != spec_keys(seq!["terminal", "keep_alive_mode"])[1]);
    lemma_set_path_frame(d12, spec_keys(seq!["terminal", "low_latency_mode"]), JsonModel::Bool(s.terminal_low_latency_mode), spec_keys(seq!["terminal", "keep_alive_mode"]));
    assert("zebra_stripes_enabled"@.len() != "keep_alive_mode"@.len());
    assert(spec_keys(seq!["terminal", "zebra_stripes_enabled"])[1] != spec_keys(seq!["terminal", "keep_alive_mode"])[1]);
    lemma_set_path_frame(d13, spec_keys(seq!["terminal", "zebra_stripes_enabled"]), JsonModel::Bool(s.terminal_zebra_stripes_enabled), spec_keys(seq!["terminal", "keep_alive_mode"]));
    assert("action_links_enabled"@.len() != "keep_alive_mode"@.len());
    assert(spec_keys(seq!["terminal", "action_links_enabled"])[1] != spec_keys(seq!["terminal", "keep_alive_mode"])[1]);
    lemma_set_path_frame(d14, spec_keys(seq!["terminal", "action_links_enabled"]), JsonModel::Bool(s.terminal_action_links_enabled), spec_keys(seq!["terminal", "keep_alive_mode"]));
    assert("action_links_matchers"@.len() != "keep_alive_mode"@.len());
    assert(spec_keys(seq!["terminal", "action_links_matchers"])[1] != spec_keys(seq!["terminal", "keep_alive_mode"])[1]);
    lemma_set_path_frame(d15, spec_keys(seq!["terminal", "action_links_matchers"]), spec_matchers_value(s.terminal_action_links_matchers), spec_keys(seq!["terminal", "keep_alive_mode"]));
    assert("search"@.len() != "terminal"@.len());
    assert(spec_keys(seq!["search", "custom_engines"])[0] != spec_keys(seq!["terminal", "keep_alive_mode"])[0]);
    lemma_set_path_frame(d16, spec_keys(seq!["search", "custom_engines"]), spec_engines_value(engines_view(s.search_custom_engines@)), spec_keys(seq!["terminal", "keep_alive_mode"]));
    assert("ui"@.len() != "terminal"@.len());
    assert(spec_keys(seq!["ui", "show_notes_panel"])[0] != spec_keys(seq!["terminal", "keep_alive_mode"])[0]);
    lemma_set_path_frame(d17, spec_keys(seq!["ui", "show_notes_panel"]), JsonModel::Bool(s.ui_show_notes_panel), spec_keys(seq!["terminal", "keep_alive_mode"]));
    assert("ui"@.len() != "terminal"@.len());
    assert(spec_keys(seq!["ui", "show_remote_stats"])[0] != spec_keys(seq!["terminal", "keep_alive_mode"])[0]);
    lemma_set_path_frame(d18, spec_keys(seq!["ui", "show_remote_stats"]), JsonModel::Bool(s.ui_show_remote_stats), spec_keys(seq!["terminal", "keep_alive_mode"]));
    assert("ui"@.len() != "terminal"@.len());
    assert(spec_keys(seq!["ui", "remote_stats_interval"])[0] != spec_keys(seq!["terminal", "keep_alive_mode"])[0]);
    lemma_set_path_frame(d19, spec_keys(seq!["ui", "remote_stats_interval"]), JsonModel::Number(JsonNumber::PosInt(spec_clamp(s.ui_remote_stats_interval as int, 1, 60) as u64)), spec_keys(seq!["terminal", "keep_alive_mode"]));
    assert("ui"@.len() != "terminal"@.len());
    assert(spec_keys(seq!["ui", "show_gpu_monitor"])[0] != spec_keys(seq!["terminal", "keep_alive_mode"])[0]);
    lemma_set_path_frame(d20, spec_keys(seq!["ui", "show_gpu_monitor"]), JsonModel::Bool(s.ui_show_gpu_monitor), spec_keys(seq!["terminal", "keep_alive_mode"]));
    assert("ui"@.len() != "terminal"@.len());
    assert(spec_keys(seq!["ui", "gpu_monitor_interval"])[0] != spec_keys(seq!["terminal", "keep_alive_mode"])[0]);
    lemma_set_path_frame(d21, spec_keys(seq!["ui", "gpu_monitor_interval"]), JsonModel::Number(JsonNumber::PosInt(spec_clamp(s.ui_gpu_monitor_interval as int, 3, 120) as u64)), spec_keys(seq!["terminal", "keep_alive_mode"]));
    assert("ui"@.len() != "terminal"@.len());
    assert(spec_keys(seq!["ui", "show_ascend_npu_monitor"])[0] != spec_keys(seq!["terminal", "keep_alive_mode"])[0]);
    lemma_set_path_frame(d22, spec_keys(seq!["ui", "show_ascend_npu_monitor"]), JsonModel::Bool(s.ui_show_ascend_npu_monitor), spec_keys(seq!["terminal", "keep_alive_mode"]));
    assert("ui"@.len() != "terminal"@.len());
    assert(spec_keys(seq!["ui", "ascend_npu_monitor_interval"])[0] != spec_keys(seq!["terminal", "keep_alive_mode"])[0]);
    lemma_set_path_frame(d23, spec_keys(seq!["ui", "ascend_npu_monitor_interval"]), JsonModel::Number(JsonNumber::PosInt(spec_clamp(s.ui_ascend_npu_monitor_interval as int, 3, 120) as u64)), spec_keys(seq!["terminal", "keep_alive_mode"]));
    assert("ui"@.len() != "terminal"@.len());
    assert(spec_keys(seq!["ui", "show_process_manager"])[0] != spec_keys(seq!["terminal", "keep_alive_mode"])[0]);
    lemma_set_path_frame(d24, spec_keys(seq!["ui", "show_process_manager"]), JsonModel::Bool(s.ui_show_process_manager), spec_keys(seq!["terminal", "keep_alive_mode"]));
    assert("ui"@.len() != "terminal"@.len());
    assert(spec_keys(seq!["ui", "process_manager_interval"])[0] != spec_keys(seq!["terminal", "keep_alive_mode"])[0]);
    lemma_set_path_frame(d25, spec_keys(seq!["ui", "process_manager_interval"]), JsonModel::Number(JsonNumber::PosInt(spec_clamp(s.ui_process_manager_interval as int, 3, 120) as u64)), spec_keys(seq!["terminal", "keep_alive_mode"]));
    assert("ui"@.len() != "terminal"@.len());
    assert(spec_keys(seq!["ui", "show_docker_manager"])[0] != spec_keys(seq!["terminal", "keep_alive_mode"])[0]);
    lemma_set_path_frame(d26, spec_keys(seq!["ui", "show_docker_manager"]), JsonModel::Bool(s.ui_show_docker_manager), spec_keys(seq!["terminal", "keep_alive_mode"]));
    assert("ui"@.len() != "terminal"@.len());
    assert(spec_keys(seq!["ui", "docker_manager_interval"])[0] != spec_keys(seq!["terminal", "keep_alive_mode"])[0]);
    lemma_set_path_frame(d27, spec_keys(seq!["ui", "docker_manager_interval"]), JsonModel::Number(JsonNumber::PosInt(spec_clamp(s.ui_docker_manager_interval as int, 3, 120) as u64)), spec_keys(seq!["terminal", "keep_alive_mode"]));
}

#[verifier::spinoff_prover]
proof fn lemma_saved_terminal_keeps_terminal_keep_alive_interval(d: JsonModel, s: AppSettingsSummary)
    ensures
        spec_json_path(spec_saved_terminal(d, s), spec_keys(seq!["terminal", "keep_alive_interval"])) == Some(JsonModel::Number(JsonNumber::PosInt(spec_clamp(s.terminal_keep_alive_interval as int, 0, 600) as u64))),
{
    reveal_strlit("action_links_enabled");
    reveal_strlit("action_links_matchers");
    reveal_strlit("hardware_acceleration");
    reveal_strlit("keep_alive_interval");
    reveal_strlit("low_latency_mode");
    reveal_strlit("paste_image_as_path");
    reveal_strlit("reconnect_restore_cwd");
    reveal_strlit("search");
    reveal_strlit("show_line_numbers");
    reveal_strlit("show_multi_line_paste_dialog");
    reveal_strlit("show_timestamps");
    reveal_strlit("show_workspace_padding");
    reveal_strlit("terminal");
    reveal_strlit("timestamp_format");
    reveal_strlit("ui");
    reveal_strlit("zebra_stripes_enabled");
    let d1 = spec_set_path(d, spec_keys(seq!["terminal", "x11_display"]), JsonModel::Str(s.x11_display@, None));
    let d2 = spec_set_path(d1, spec_keys(seq!["terminal", "scrollback_lines"]), JsonModel::Number(JsonNumber::PosInt(spec_clamp(s.terminal_scrollback_lines as int, 100, 100000) as u64)));
    let d3 = spec_set_path(d2, spec_keys(seq!["terminal", "keep_alive_mode"]), JsonModel::Str(spec_keep_alive_mode(s.terminal_keep_alive_mode@), None));
    let d4 = spec_set_path(d3, spec_keys(seq!["terminal", "keep_alive_interval"]), JsonModel::Number(JsonNumber::PosInt(spec_clamp(s.terminal_keep_alive_interval as int, 0, 600) as u64)));
    let d5 = spec_set_path(d4, spec_keys(seq!["terminal", "timestamp_format"]), JsonModel::Str(spec_timestamp_format(s.terminal_timestamp_format@), None));
    let d6 = spec_set_path(d5, spec_keys(seq!["terminal", "hardware_acceleration"]), JsonModel::Bool(s.terminal_hardware_acceleration));
    let d7 = spec_set_path(d6, spec_keys(seq!["terminal", "show_workspace_padding"]), JsonModel::Bool(s.terminal_show_workspace_padding));
    let d8 = spec_set_path(d7, spec_keys(seq!["terminal", "show_line_numbers"]), JsonModel::Bool(s.terminal_show_line_numbers));
    let d9 = spec_set_path(d8, spec_keys(seq!["terminal", "show_timestamps"]), JsonModel::Bool(s.terminal_show_timestamps));
    let d10 = spec_set_path(d9, spec_keys(seq!["terminal", "show_multi_line_paste_dialog"]), JsonModel::Bool(s.terminal_show_multi_line_paste_dialog));
    let d11 = spec_set_path(d10, spec_keys(seq!["terminal", "paste_image_as_path"]), JsonModel::Bool(s.terminal_paste_image_as_path));
    let d12 = spec_set_path(d11, spec_keys(seq!["terminal", "reconnect_restore_cwd"]), JsonModel::Bool(s.terminal_reconnect_restore_cwd));
    let d13 = spec_set_path(d12, spec_keys(seq!["terminal", "low_latency_mode"]), JsonModel::Bool(s.terminal_low_latency_mode));
    let d14 = spec_set_path(d13, spec_keys(seq!["terminal", "zebra_stripes_enabled"]), JsonModel::Bool(s.terminal_zebra_stripes_enabled));
    let d15 = spec_set_path(d14, spec_keys(seq!["terminal", "action_links_enabled"]), JsonModel::Bool(s.terminal_action_links_enabled));
    let d16 = spec_set_path(d15, spec_keys(seq!["terminal", "action_links_matchers"]), spec_matchers_value(s.terminal_action_links_matchers));
    let d17 = spec_set_path(d16, spec_keys(seq!["search", "custom_engines"]), spec_engines_value(engines_view(s.search_custom_engines@)));
    let d18 = spec_set_path(d17, spec_keys(seq!["ui", "show_notes_panel"]), JsonModel::Bool(s.ui_show_notes_panel));
    let d19 = spec_set_path(d18, spec_keys(seq!["ui", "show_remote_stats"]), JsonModel::Bool(s.ui_show_remote_stats));
    let d20 = spec_set_path(d19, spec_keys(seq!["ui", "remote_stats_interval"]), JsonModel::Number(JsonNumber::PosInt(spec_clamp(s.ui_remote_stats_interval as int, 1, 60) as u64)));
    let d21 = spec_set_path(d20, spec_keys(seq!["ui", "show_gpu_monitor"]), JsonModel::Bool(s.ui_show_gpu_monitor));
    let d22 = spec_set_path(d21, spec_keys(seq!["ui", "gpu_monitor_interval"]), JsonModel::Number(JsonNumber::PosInt(spec_clamp(s.ui_gpu_monitor_interval as int, 3, 120) as u64)));
    let d23 = spec_set_path(d22, spec_keys(seq!["ui", "show_ascend_npu_monitor"]), JsonModel::Bool(s.ui_show_ascend_npu_monitor));
    let d24 = spec_set_path(d23, spec_keys(seq!["ui", "ascend_npu_monitor_interval"]), JsonModel::Number(JsonNumber::PosInt(spec_clamp(s.ui_ascend_npu_monitor_interval as int, 3, 120) as u64)));
    let d25 = spec_set_path(d24, spec_keys(seq!["ui", "show_process_manager"]), JsonModel::Bool(s.ui_show_process_manager));
    let d26 = spec_set_path(d25, spec_keys(seq!["ui", "process_manager_interval"]), JsonModel::Number(JsonNumber::PosInt(spec_clamp(s.ui_process_manager_interval as int, 3, 120) as u64)));
    let d27 = spec_set_path(d26, spec_keys(seq!["ui", "show_docker_manager"]), JsonModel::Bool(s.ui_show_docker_manager));
    let d28 = spec_set_path(d27, spec_keys(seq!["ui", "docker_manager_interval"]), JsonModel::Number(JsonNumber::PosInt(spec_clamp(s.ui_docker_manager_interval as int, 3, 120) as u64)));
    assert(spec_saved_terminal_part1(d, s) == d8);
    assert(spec_saved_terminal_part2(d8, s) == d16);
    assert(spec_saved_terminal_part3(d16, s) == d24);
    assert(spec_saved_terminal_part4(d24, s) == d28);
    assert(spec_saved_terminal(d, s) == d28);
    lemma_set_path_then_read(d3, spec_keys(seq!["terminal", "keep_alive_interval"]), JsonModel::Number(JsonNumber::PosInt(spec_clamp(s.terminal_keep_alive_interval as int, 0, 600) as u64)));
    assert("timestamp_format"@.len() != "keep_alive_interval"@.len());
    assert(spec_keys(seq!["terminal", "timestamp_format"])[1] != spec_keys(seq!["terminal", "keep_alive_interval"])[1]);
    lemma_set_path_frame(d4, spec_keys(seq!["terminal", "timestamp_format"]), JsonModel::Str(spec_timestamp_format(s.terminal_timestamp_format@), None), spec_keys(seq!["terminal", "keep_alive_interval"]));
    assert("hardware_acceleration"@.len() != "keep_alive_interval"@.len());
    assert(spec_keys(seq!["terminal", "hardware_acceleration"])[1] != spec_keys(seq!["terminal", "keep_alive_interval"])[1]);
    lemma_set_path_frame(d5, spec_keys(seq!["terminal", "hardware_acceleration"]), JsonModel::Bool(s.terminal_hardware_acceleration), spec_keys(seq!["terminal", "keep_alive_interval"]));
    assert("show_workspace_padding"@.len() != "keep_alive_interval"@.len());
    assert(spec_keys(seq!["terminal", "show_workspace_padding"])[1] != spec_keys(seq!["terminal", "keep_alive_interval"])[1]);
    lemma_set_path_frame(d6, spec_keys(seq!["terminal", "show_workspace_padding"]), JsonModel::Bool(s.terminal_show_workspace_padding), spec_keys(seq!["terminal", "keep_alive_interval"]));
    assert("show_line_numbers"@.len() != "keep_alive_interval"@.len());
    assert(spec_keys(seq!["terminal", "show_line_numbers"])[1] != spec_keys(seq!["terminal", "keep_alive_interval"])[1]);
    lemma_set_path_frame(d7, spec_keys(seq!["terminal", "show_line_numbers"]), JsonModel::Bool(s.terminal_show_line_numbers), spec_keys(seq!["terminal", "keep_alive_interval"]));
    assert("show_timestamps"@.len() != "keep_alive_interval"@.len());
    assert(spec_keys(seq!["terminal", "show_timestamps"])[1] != spec_keys(seq!["terminal", "keep_alive_interval"])[1]);
    lemma_set_path_frame(d8, spec_keys(seq!["terminal", "show_timestamps"]), JsonModel::Bool(s.terminal_show_timestamps), spec_keys(seq!["terminal", "keep_alive_interval"]));
    assert("show_multi_line_paste_dialog"@.len() != "keep_alive_interval"@.len());
    assert(spec_keys(seq!["terminal", "show_multi_line_paste_dialog"])[1] != spec_keys(seq!["terminal", "keep_alive_interval"])[1]);
    lemma_set_path_frame(d9, spec_keys(seq!["terminal", "show_multi_line_paste_dialog"]), JsonModel::Bool(s.terminal_show_multi_line_paste_dialog), spec_keys(seq!["terminal", "keep_alive_interval"]));
    assert("paste_image_as_path"@[0] != "keep_alive_interval"@[0]);
    assert(spec_keys(seq!["terminal", "paste_image_as_path"])[1] != spec_keys(seq!["terminal", "keep_alive_interval"])[1]);
    lemma_set_path_frame(d10, spec_keys(seq!["terminal", "paste_image_as_path"]), JsonModel::Bool(s.terminal_paste_image_as_path), spec_keys(seq!["terminal", "keep_alive_interval"]));
    assert("reconnect_restore_cwd"@.len() != "keep_alive_interval"@.len());
    assert(spec_keys(seq!["terminal", "reconnect_restore_cwd"])[1] != spec_keys(seq!["terminal", "keep_alive_interval"])[1]);
    lemma_set_path_frame(d11, spec_keys(seq!["terminal", "reconnect_restore_cwd"]), JsonModel::Bool(s.terminal_reconnect_restore_cwd), spec_keys(seq!["terminal", "keep_alive_interval"]));
    assert("low_latency_mode"@.len() != "keep_alive_interval"@.len());
    assert(spec_keys(seq!["terminal", "low_latency_mode"])[1] != spec_keys(seq!["terminal", "keep_alive_interval"])[1]);
    lemma_set_path_frame(d12, spec_keys(seq!["terminal", "low_latency_mode"]), JsonModel::Bool(s.terminal_low_latency_mode), spec_keys(seq!["terminal", "keep_alive_interval"]));
    assert("zebra_stripes_enabled"@.len() != "keep_alive_interval"@.len());
    assert(spec_keys(seq!["terminal", "zebra_stripes_enabled"])[1] != spec_keys(seq!["terminal", "keep_alive_interval"])[1]);
    lemma_set_path_frame(d13, spec_keys(seq!["terminal", "zebra_stripes_enabled"]), JsonModel::Bool(s.terminal_zebra_stripes_enabled), spec_keys(seq!["terminal", "keep_alive_interval"]));
    assert("action_links_enabled"@.len() != "keep_alive_interval"@.len());
    assert(spec_keys(seq!["terminal", "action_links_enabled"])[1] != spec_keys(seq!["terminal", "keep_alive_interval"])[1]);
    lemma_set_path_frame(d14, spec_keys(seq!["terminal", "action_links_enabled"]), JsonModel::Bool(s.terminal_action_links_enabled), spec_keys(seq!["terminal", "keep_alive_interval"]));
    assert("action_links_matchers"@.len() != "keep_alive_interval"@.len());
    assert(spec_keys(seq!["terminal", "action_links_matchers"])[1] != spec_keys(seq!["terminal", "keep_alive_interval"])[1]);
    lemma_set_path_frame(d15, spec_keys(seq!["terminal", "action_links_matchers"]), spec_matchers_value(s.terminal_action_links_matchers), spec_keys(seq!["terminal", "keep_alive_interval"]));
    assert("search"@.len() != "terminal"@.len());
    assert(spec_keys(seq!["search", "custom_engines"])[0] != spec_keys(seq!["terminal", "keep_alive_interval"])[0]);
    lemma_set_path_frame(d16, spec_keys(seq!["search", "custom_engines"]), spec_engines_value(engines_view(s.search_custom_engines@)), spec_keys(seq!["terminal", "keep_alive_interval"]));
    assert("ui"@.len() != "terminal"@.len());
    assert(spec_keys(seq!["ui", "show_notes_panel"])[0] != spec_keys(seq!["terminal", "keep_alive_interval"])[0]);
    lemma_set_path_frame(d17, spec_keys(seq!["ui", "show_notes_panel"]), JsonModel::Bool(s.ui_show_notes_panel), spec_keys(seq!["terminal", "keep_alive_interval"]));
    assert("ui"@.len() != "terminal"@.len());
    assert(spec_keys(seq!["ui", "show_remote_stats"])[0] != spec_keys(seq!["terminal", "keep_alive_interval"])[0]);
    lemma_set_path_frame(d18, spec_keys(seq!["ui", "show_remote_stats"]), JsonModel::Bool(s.ui_show_remote_stats), spec_keys(seq!["terminal", "keep_alive_interval"]));
    assert("ui"@.len() != "terminal"@.len());
    assert(spec_keys(seq!["ui", "remote_stats_interval"])[0] != spec_keys(seq!["terminal", "keep_alive_interval"])[0]);
    lemma_set_path_frame(d19, spec_keys(seq!["ui", "remote_stats_interval"]), JsonModel::Number(JsonNumber::PosInt(spec_clamp(s.ui_remote_stats_interval as int, 1, 60) as u64)), spec_keys(seq!["terminal", "keep_alive_interval"]));
    assert("ui"@.len() != "terminal"@.len());
    assert(spec_keys(seq!["ui", "show_gpu_monitor"])[0] != spec_keys(seq!["terminal", "keep_alive_interval"])[0]);
    lemma_set_path_frame(d20, spec_keys(seq!["ui", "show_gpu_monitor"]), JsonModel::Bool(s.ui_show_gpu_monitor), spec_keys(seq!["terminal", "keep_alive_interval"]));
    assert("ui"@.len() != "terminal"@.len());
    assert(spec_keys(seq!["ui", "gpu_monitor_interval"])[0] != spec_keys(seq!["terminal", "keep_alive_interval"])[0]);
    lemma_set_path_frame(d21, spec_keys(seq!["ui", "gpu_monitor_interval"]), JsonModel::Number(JsonNumber::PosInt(spec_clamp(s.ui_gpu_monitor_interval as int, 3, 120) as u64)), spec_keys(seq!["terminal", "keep_alive_interval"]));
    assert("ui"@.len() != "terminal"@.len());
    assert(spec_keys(seq!["ui", "show_ascend_npu_monitor"])[0] != spec_keys(seq!["terminal", "keep_alive_interval"])[0]);
    lemma_set_path_frame(d22, spec_keys(seq!["ui", "show_ascend_npu_monitor"]), JsonModel::Bool(s.ui_show_ascend_npu_monitor), spec_keys(seq!["terminal", "keep_alive_interval"]));
    assert("ui"@.len() != "terminal"@.len());
    assert(spec_keys(seq!["ui", "ascend_npu_monitor_interval"])[0] != spec_keys(seq!["terminal", "keep_alive_interval"])[0]);
    lemma_set_path_frame(d23, spec_keys(seq!["ui", "ascend_npu_monitor_interval"]), JsonModel::Number(JsonNumber::PosInt(spec_clamp(s.ui_ascend_npu_monitor_interval as int, 3, 120) as u64)), spec_keys(seq!["terminal", "keep_alive_interval"]));
    assert("ui"@.len() != "terminal"@.len());
    assert(spec_keys(seq!["ui", "show_process_manager"])[0] != spec_keys(seq!["terminal", "keep_alive_interval"])[0]);
    lemma_set_path_frame(d24, spec_keys(seq!["ui", "show_process_manager"]), JsonModel::Bool(s.ui_show_process_manager), spec_keys(seq!["terminal", "keep_alive_interval"]));
    assert("ui"@.len() != "terminal"@.len());
    assert(spec_keys(seq!["ui", "process_manager_interval"])[0] != spec_keys(seq!["terminal", "keep_alive_interval"])[0]);
    lemma_set_path_frame(d25, spec_keys(seq!["ui", "process_manager_interval"]), JsonModel::Number(JsonNumber::PosInt(spec_clamp(s.ui_process_manager_interval as int, 3, 120) as u64)), spec_keys(seq!["terminal", "keep_alive_interval"]));
    assert("ui"@.len() != "terminal"@.len());
    assert(spec_keys(seq!["ui", "show_docker_manager"])[0] != spec_keys(seq!["terminal", "keep_alive_interval"])[0]);
    lemma_set_path_frame(d26, spec_keys(seq!["ui", "show_docker_manager"]), JsonModel::Bool(s.ui_show_docker_manager), spec_keys(seq!["terminal", "keep_alive_interval"]));
    assert("ui"@.len() != "terminal"@.len());
    assert(spec_keys(seq!["ui", "docker_manager_interval"])[0] != spec_keys(seq!["terminal", "keep_alive_interval"])[0]);
    lemma_set_path_frame(d27, spec_keys(seq!["ui", "docker_manager_interval"]), JsonModel::Number(JsonNumber::PosInt(spec_clamp(s.ui_docker_manager_interval as int, 3, 120) as u64)), spec_keys(seq!["terminal", "keep_alive_interval"]));
}

#[verifier::spinoff_prover]
proof fn lemma_saved_terminal_keeps_terminal_timestamp_format(d: JsonModel, s: AppSettingsSummary)
    ensures
        spec_json_path(spec_saved_terminal(d, s), spec_keys(seq!["terminal", "timestamp_format"])) == Some(JsonModel::Str(spec_timestamp_format(s.terminal_timestamp_format@), None)),
{
    reveal_strlit("action_links_enabled");
    reveal_strlit("action_links_matchers");
    reveal_strlit("hardware_acceleration");
    reveal_strlit("low_latency_mode");
    reveal_strlit("paste_image_as_path");
    reveal_strlit("reconnect_restore_cwd");
    reveal_strlit("search");
    reveal_strlit("show_line_numbers");
    reveal_strlit("show_multi_line_paste_dialog");
    reveal_strlit("show_timestamps");
    reveal_strlit("show_workspace_padding");
    reveal_strlit("terminal");
    reveal_strlit("timestamp_format");
    reveal_strlit("ui");
    reveal_strlit("zebra_stripes_enabled");
    let d1 = spec_set_path(d, spec_keys(seq!["terminal", "x11_display"]), JsonModel::Str(s.x11_display@, None));
    let d2 = spec_set_path(d1, spec_keys(seq!["terminal", "scrollback_lines"]), JsonModel::Number(JsonNumber::PosInt(spec_clamp(s.terminal_scrollback_lines as int, 100, 100000) as u64)));
    let d3 = spec_set_path(d2, spec_keys(seq!["terminal", "keep_alive_mode"]), JsonModel::Str(spec_keep_alive_mode(s.terminal_keep_alive_mode@), None));
    let d4 = spec_set_path(d3, spec_keys(seq!["terminal", "keep_alive_interval"]), JsonModel::Number(JsonNumber::PosInt(spec_clamp(s.terminal_keep_alive_interval as int, 0, 600) as u64)));
    let d5 = spec_set_path(d4, spec_keys(seq!["terminal", "timestamp_format"]), JsonModel::Str(spec_timestamp_format(s.terminal_timestamp_format@), None));
    let d6 = spec_set_path(d5, spec_keys(seq!["terminal", "hardware_acceleration"]), JsonModel::Bool(s.terminal_hardware_acceleration));
    let d7 = spec_set_path(d6, spec_keys(seq!["terminal", "show_workspace_padding"]), JsonModel::Bool(s.terminal_show_workspace_padding));
    let d8 = spec_set_path(d7, spec_keys(seq!["terminal", "show_line_numbers"]), JsonModel::Bool(s.terminal_show_line_numbers));
    let d9 = spec_set_path(d8, spec_keys(seq!["terminal", "show_timestamps"]), JsonModel::Bool(s.terminal_show_timestamps));
    let d10 = spec_set_path(d9, spec_keys(seq!["terminal", "show_multi_line_paste_dialog"]), JsonModel::Bool(s.terminal_show_multi_line_paste_dialog));
    let d11 = spec_set_path(d10, spec_keys(seq!["terminal", "paste_image_as_path"]), JsonModel::Bool(s.terminal_paste_image_as_path));
    let d12 = spec_set_path(d11, spec_keys(seq!["terminal", "reconnect_restore_cwd"]), JsonModel::Bool(s.terminal_reconnect_restore_cwd));
    let d13 = spec_set_path(d12, spec_keys(seq!["terminal", "low_latency_mode"]), JsonModel::Bool(s.terminal_low_latency_mode));
    let d14 = spec_set_path(d13, spec_keys(seq!["terminal", "zebra_stripes_enabled"]), JsonModel::Bool(s.terminal_zebra_stripes_enabled));
    let d15 = spec_set_path(d14, spec_keys(seq!["terminal", "action_links_enabled"]), JsonModel::Bool(s.terminal_action_links_enabled));
    let d16 = spec_set_path(d15, spec_keys(seq!["terminal", "action_links_matchers"]), spec_matchers_value(s.terminal_action_links_matchers));
    let d17 = spec_set_path(d16, spec_keys(seq!["search", "custom_engines"]), spec_engines_value(engines_view(s.search_custom_engines@)));
    let d18 = spec_set_path(d17, spec_keys(seq!["ui", "show_notes_panel"]), JsonModel::Bool(s.ui_show_notes_panel));
    let d19 = spec_set_path(d18, spec_keys(seq!["ui", "show_remote_stats"]), JsonModel::Bool(s.ui_show_remote_stats));
    let d20 = spec_set_path(d19, spec_keys(seq!["ui", "remote_stats_interval"]), JsonModel::Number(JsonNumber::PosInt(spec_clamp(s.ui_remote_stats_interval as int, 1, 60) as u64)));
    let d21 = spec_set_path(d20, spec_keys(seq!["ui", "show_gpu_monitor"]), JsonModel::Bool(s.ui_show_gpu_monitor));
    let d22 = spec_set_path(d21, spec_keys(seq!["ui", "gpu_monitor_interval"]), JsonModel::Number(JsonNumber::PosInt(spec_clamp(s.ui_gpu_monitor_interval as int, 3, 120) as u64)));
    let d23 = spec_set_path(d22, spec_keys(seq!["ui", "show_ascend_npu_monitor"]), JsonModel::Bool(s.ui_show_ascend_npu_monitor));
    let d24 = spec_set_path(d23, spec_keys(seq!["ui", "ascend_npu_monitor_interval"]), JsonModel::Number(JsonNumber::PosInt(spec_clamp(s.ui_ascend_npu_monitor_interval as int, 3, 120) as u64)));
    let d25 = spec_set_path(d24, spec_keys(seq!["ui", "show_process_manager"]), JsonModel::Bool(s.ui_show_process_manager));
    let d26 = spec_set_path(d25, spec_keys(seq!["ui", "process_manager_interval"]), JsonModel::Number(JsonNumber::PosInt(spec_clamp(s.ui_process_manager_interval as int, 3, 120) as u64)));
    let d27 = spec_set_path(d26, spec_keys(seq!["ui", "show_docker_manager"]), JsonModel::Bool(s.ui_show_docker_manager));
    let d28 = spec_set_path(d27, spec_keys(seq!["ui", "docker_manager_interval"]), JsonModel::Number(JsonNumber::PosInt(spec_clamp(s.ui_docker_manager_interval as int, 3, 120) as u64)));
    assert(spec_saved_terminal_part1(d, s) == d8);
    assert(spec_saved_terminal_part2(d8, s) == d16);
    assert(spec_saved_terminal_part3(d16, s) == d24);
    assert(spec_saved_terminal_part4(d24, s) == d28);
    assert(spec_saved_terminal(d, s) == d28);
    lemma_set_path_then_read(d4, spec_keys(seq!["terminal", "timestamp_format"]), JsonModel::Str(spec_timestamp_format(s.terminal_timestamp_format@), None));
    assert("hardware_acceleration"@.len() != "timestamp_format"@.len());
    assert(spec_keys(seq!["terminal", "hardware_acceleration"])[1] != spec_keys(seq!["terminal", "timestamp_format"])[1]);
    lemma_set_path_frame(d5, spec_keys(seq!["terminal", "hardware_acceleration"]), JsonModel::Bool(s.terminal_hardware_acceleration), spec_keys(seq!["terminal", "timestamp_format"]));
    assert("show_workspace_padding"@.len() != "timestamp_format"@.len());
    assert(spec_keys(seq!["terminal", "show_workspace_padding"])[1] != spec_keys(seq!["terminal", "timestamp_format"])[1]);
    lemma_set_path_frame(d6, spec_keys(seq!["terminal", "show_workspace_padding"]), JsonModel::Bool(s.terminal_show_workspace_padding), spec_keys(seq!["terminal", "timestamp_format"]));
    assert("show_line_numbers"@.len() != "timestamp_format"@.len());
    assert(spec_keys(seq!["terminal", "show_line_numbers"])[1] != spec_keys(seq!["terminal", "timestamp_format"])[1]);
    lemma_set_path_frame(d7, spec_keys(seq!["terminal", "show_line_numbers"]), JsonModel::Bool(s.terminal_show_line_numbers), spec_keys(seq!["terminal", "timestamp_format"]));
    assert("show_timestamps"@.len() != "timestamp_format"@.len());
    assert(spec_keys(seq!["terminal", "show_timestamps"])[1] != spec_keys(seq!["terminal", "timestamp_format"])[1]);
    lemma_set_path_frame(d8, spec_keys(seq!["terminal", "show_timestamps"]), JsonModel::Bool(s.terminal_show_timestamps), spec_keys(seq!["terminal", "timestamp_format"]));
    assert("show_multi_line_paste_dialog"@.len() != "timestamp_format"@.len());
    assert(spec_keys(seq!["terminal", "show_multi_line_paste_dialog"])[1] != spec_keys(seq!["terminal", "timestamp_format"])[1]);
    lemma_set_path_frame(d9, spec_keys(seq!["terminal", "show_multi_line_paste_dialog"]), JsonModel::Bool(s.terminal_show_multi_line_paste_dialog), spec_keys(seq!["terminal", "timestamp_format"]));
    assert("paste_image_as_path"@.len() != "timestamp_format"@.len());
    assert(spec_keys(seq!["terminal", "paste_image_as_path"])[1] != spec_keys(seq!["terminal", "timestamp_format"])[1]);
    lemma_set_path_frame(d10, spec_keys(seq!["terminal", "paste_image_as_path"]), JsonModel::Bool(s.terminal_paste_image_as_path), spec_keys(seq!["terminal", "timestamp_format"]));
    assert("reconnect_restore_cwd"@.len() != "timestamp_format"@.len());
    assert(spec_keys(seq!["terminal", "reconnect_restore_cwd"])[1] != spec_keys(seq!["terminal", "timestamp_format"])[1]);
    lemma_set_path_frame(d11, spec_keys(seq!["terminal", "reconnect_restore_cwd"]), JsonModel::Bool(s.terminal_reconnect_restore_cwd), spec_keys(seq!["terminal", "timestamp_format"]));
    assert("low_latency_mode"@[0] != "timestamp_format"@[0]);
    assert(spec_keys(seq!["terminal", "low_latency_mode"])[1] != spec_keys(seq!["terminal", "timestamp_format"])[1]);
    lemma_set_path_frame(d12, spec_keys(seq!["terminal", "low_latency_mode"]), JsonModel::Bool(s.terminal_low_latency_mode), spec_keys(seq!["terminal", "timestamp_format"]));
    assert("zebra_stripes_enabled"@.len() != "timestamp_format"@.len());
    assert(spec_keys(seq!["terminal", "zebra_stripes_enabled"])[1] != spec_keys(seq!["terminal", "timestamp_format"])[1]);
    lemma_set_path_frame(d13, spec_keys(seq!["terminal", "zebra_stripes_enabled"]), JsonModel::Bool(s.terminal_zebra_stripes_enabled), spec_keys(seq!["terminal", "timestamp_format"]));
    assert("action_links_enabled"@.len() != "timestamp_format"@.len());
    assert(spec_keys(seq!["terminal", "action_links_enabled"])[1] != spec_keys(seq!["terminal", "timestamp_format"])[1]);
    lemma_set_path_frame(d14, spec_keys(seq!["terminal", "action_links_enabled"]), JsonModel::Bool(s.terminal_action_links_enabled), spec_keys(seq!["terminal", "timestamp_format"]));
    assert("action_links_matchers"@.len() != "timestamp_format"@.len());
    assert(spec_keys(seq!["terminal", "action_links_matchers"])[1] != spec_keys(seq!["terminal", "timestamp_format"])[1]);
    lemma_set_path_frame(d15, spec_keys(seq!["terminal", "action_links_matchers"]), spec_matchers_value(s.terminal_action_links_matchers), spec_keys(seq!["terminal", "timestamp_format"]));
    assert("search"@.len() != "terminal"@.len());
    assert(spec_keys(seq!["search", "custom_engines"])[0] != spec_keys(seq!["terminal", "timestamp_format"])[0]);
    lemma_set_path_frame(d16, spec_keys(seq!["search", "custom_engines"]), spec_engines_value(engines_view(s.search_custom_engines@)), spec_keys(seq!["terminal", "timestamp_format"]));
    assert("ui"@.len() != "terminal"@.len());
    assert(spec_keys(seq!["ui", "show_notes_panel"])[0] != spec_keys(seq!["terminal", "timestamp_format"])[0]);
    lemma_set_path_frame(d17, spec_keys(seq!["ui", "show_notes_panel"]), JsonModel::Bool(s.ui_show_notes_panel), spec_keys(seq!["terminal", "timestamp_format"]));
    assert("ui"@.len() != "terminal"@.len());
    assert(spec_keys(seq!["ui", "show_remote_stats"])[0] != spec_keys(seq!["terminal", "timestamp_format"])[0]);
    lemma_set_path_frame(d18, spec_keys(seq!["ui", "show_remote_stats"]), JsonModel::Bool(s.ui_show_remote_stats), spec_keys(seq!["terminal", "timestamp_format"]));
    assert("ui"@.len() != "terminal"@.len());
    assert(spec_keys(seq!["ui", "remote_stats_interval"])[0] != spec_keys(seq!["terminal", "timestamp_format"])[0]);
    lemma_set_path_frame(d19, spec_keys(seq!["ui", "remote_stats_interval"]), JsonModel::Number(JsonNumber::PosInt(spec_clamp(s.ui_remote_stats_interval as int, 1, 60) as u64)), spec_keys(seq!["terminal", "timestamp_format"]));
    assert("ui"@.len() != "terminal"@.len());
    assert(spec_keys(seq!["ui", "show_gpu_monitor"])[0] != spec_keys(seq!["terminal", "timestamp_format"])[0]);
    lemma_set_path_frame(d20, spec_keys(seq!["ui", "show_gpu_monitor"]), JsonModel::Bool(s.ui_show_gpu_monitor), spec_keys(seq!["terminal", "timestamp_format"]));
    assert("ui"@.len() != "terminal"@.len());
    assert(spec_keys(seq!["ui", "gpu_monitor_interval"])[0] != spec_keys(seq!["terminal", "timestamp_format"])[0]);
    lemma_set_path_frame(d21, spec_keys(seq!["ui", "gpu_monitor_interval"]), JsonModel::Number(JsonNumber::PosInt(spec_clamp(s.ui_gpu_monitor_interval as int, 3, 120) as u64)), spec_keys(seq!["terminal", "timestamp_format"]));
    assert("ui"@.len() != "terminal"@.len());
    assert(spec_keys(seq!["ui", "show_ascend_npu_monitor"])[0] != spec_keys(seq!["terminal", "timestamp_format"])[0]);
    lemma_set_path_frame(d22, spec_keys(seq!["ui", "show_ascend_npu_monitor"]), JsonModel::Bool(s.ui_show_ascend_npu_monitor), spec_keys(seq!["terminal", "timestamp_format"]));
    assert("ui"@.len() != "terminal"@.len());
    assert(spec_keys(seq!["ui", "ascend_npu_monitor_interval"])[0] != spec_keys(seq!["terminal", "timestamp_format"])[0]);
    lemma_set_path_frame(d23, spec_keys(seq!["ui", "ascend_npu_monitor_interval"]), JsonModel::Number(JsonNumber::PosInt(spec_clamp(s.ui_ascend_npu_monitor_interval as int, 3, 120) as u64)), spec_keys(seq!["terminal", "timestamp_format"]));
    assert("ui"@.len() != "terminal"@.len());
    assert(spec_keys(seq!["ui", "show_process_manager"])[0] != spec_keys(seq!["terminal", "timestamp_format"])[0]);
    lemma_set_path_frame(d24, spec_keys(seq!["ui", "show_process_manager"]), JsonModel::Bool(s.ui_show_process_manager), spec_keys(seq!["terminal", "timestamp_format"]));
    assert("ui"@.len() != "terminal"@.len());
    assert(spec_keys(seq!["ui", "process_manager_interval"])[0] != spec_keys(seq!["terminal", "timestamp_format"])[0]);
    lemma_set_path_frame(d25, spec_keys(seq!["ui", "process_manager_interval"]), JsonModel::Number(JsonNumber::PosInt(spec_clamp(s.ui_process_manager_interval as int, 3, 120) as u64)), spec_keys(seq!["terminal", "timestamp_format"]));
    assert("ui"@.len() != "terminal"@.len());
    assert(spec_keys(seq!["ui", "show_docker_manager"])[0] != spec_keys(seq!["terminal", "timestamp_format"])[0]);
    lemma_set_path_frame(d26, spec_keys(seq!["ui", "show_docker_manager"]), JsonModel::Bool(s.ui_show_docker_manager), spec_keys(seq!["terminal", "timestamp_format"]));
    assert("ui"@.len() != "terminal"@.len());
    assert(spec_keys(seq!["ui", "docker_manager_interval"])[0] != spec_keys(seq!["terminal", "timestamp_format"])[0]);
    lemma_set_path_frame(d27, spec_keys(seq!["ui", "docker_manager_interval"]), JsonModel::Number(JsonNumber::PosInt(spec_clamp(s.ui_docker_manager_interval as int, 3, 120) as u64)), spec_keys(seq!["terminal", "timestamp_format"]));
}

#[verifier::spinoff_prover]
proof fn lemma_saved_terminal_keeps_terminal_hardware_acceleration(d: JsonModel, s: AppSettingsSummary)
    ensures
        spec_json_path(spec_saved_terminal(d, s), spec_keys(seq!["terminal", "hardware_acceleration"])) == Some(JsonModel::Bool(s.terminal_hardware_acceleration)),
{
    reveal_strlit("action_links_enabled");
    reveal_strlit("action_links_matchers");
    reveal_strlit("hardware_acceleration");
    reveal_strlit("low_latency_mode");
    reveal_strlit("paste_image_as_path");
    reveal_strlit("reconnect_restore_cwd");
    reveal_strlit("search");
    reveal_strlit("show_line_numbers");
    reveal_strlit("show_multi_line_paste_dialog");
    reveal_strlit("show_timestamps");
    reveal_strlit("show_workspace_padding");
    reveal_strlit("terminal");
    reveal_strlit("ui");
    reveal_strlit("zebra_stripes_enabled");
    let d1 = spec_set_path(d, spec_keys(seq!["terminal", "x11_display"]), JsonModel::Str(s.x11_display@, None));
    let d2 = spec_set_path(d1, spec_keys(seq!["terminal", "scrollback_lines"]), JsonModel::Number(JsonNumber::PosInt(spec_clamp(s.terminal_scrollback_lines as int, 100, 100000) as u64)));
    let d3 = spec_set_path(d2, spec_keys(seq!["terminal", "keep_alive_mode"]), JsonModel::Str(spec_keep_alive_mode(s.terminal_keep_alive_mode@), None));
    let d4 = spec_set_path(d3, spec_keys(seq!["terminal", "keep_alive_interval"]), JsonModel::Number(JsonNumber::PosInt(spec_clamp(s.terminal_keep_alive_interval as int, 0, 600) as u64)));
    let d5 = spec_set_path(d4, spec_keys(seq!["terminal", "timestamp_format"]), JsonModel::Str(spec_timestamp_format(s.terminal_timestamp_format@), None));
    let d6 = spec_set_path(d5, spec_keys(seq!["terminal", "hardware_acceleration"]), JsonModel::Bool(s.terminal_hardware_acceleration));
    let d7 = spec_set_path(d6, spec_keys(seq!["terminal", "show_workspace_padding"]), JsonModel::Bool(s.terminal_show_workspace_padding));
    let d8 = spec_set_path(d7, spec_keys(seq!["terminal", "show_line_numbers"]), JsonModel::Bool(s.terminal_show_line_numbers));
    let d9 = spec_set_path(d8, spec_keys(seq!["terminal", "show_timestamps"]), JsonModel::Bool(s.terminal_show_timestamps));
    let d10 = spec_set_path(d9, spec_keys(seq!["terminal", "show_multi_line_paste_dialog"]), JsonModel::Bool(s.terminal_show_multi_line_paste_dialog));
    let d11 = spec_set_path(d10, spec_keys(seq!["terminal", "paste_image_as_path"]), JsonModel::Bool(s.terminal_paste_image_as_path));
    let d12 = spec_set_path(d11, spec_keys(seq!["terminal", "reconnect_restore_cwd"]), JsonModel::Bool(s.terminal_reconnect_restore_cwd));
    let d13 = spec_set_path(d12, spec_keys(seq!["terminal", "low_latency_mode"]), JsonModel::Bool(s.terminal_low_latency_mode));
    let d14 = spec_set_path(d13, spec_keys(seq!["terminal", "zebra_stripes_enabled"]), JsonModel::Bool(s.terminal_zebra_stripes_enabled));
    let d15 = spec_set_path(d14, spec_keys(seq!["terminal", "action_links_enabled"]), JsonModel::Bool(s.terminal_action_links_enabled));
    let d16 = spec_set_path(d15, spec_keys(seq!["terminal", "action_links_matchers"]), spec_matchers_value(s.terminal_action_links_matchers));
    let d17 = spec_set_path(d16, spec_keys(seq!["search", "custom_engines"]), spec_engines_value(engines_view(s.search_custom_engines@)));
    let d18 = spec_set_path(d17, spec_keys(seq!["ui", "show_notes_panel"]), JsonModel::Bool(s.ui_show_notes_panel));
    let d19 = spec_set_path(d18, spec_keys(seq!["ui", "show_remote_stats"]), JsonModel::Bool(s.ui_show_remote_stats));
    let d20 = spec_set_path(d19, spec_keys(seq!["ui", "remote_stats_interval"]), JsonModel::Number(JsonNumber::PosInt(spec_clamp(s.ui_remote_stats_interval as int, 1, 60) as u64)));
    let d21 = spec_set_path(d20, spec_keys(seq!["ui", "show_gpu_monitor"]), JsonModel::Bool(s.ui_show_gpu_monitor));
    let d22 = spec_set_path(d21, spec_keys(seq!["ui", "gpu_monitor_interval"]), JsonModel::Number(JsonNumber::PosInt(spec_clamp(s.ui_gpu_monitor_interval as int, 3, 120) as u64)));
    let d23 = spec_set_path(d22, spec_keys(seq!["ui", "show_ascend_npu_monitor"]), JsonModel::Bool(s.ui_show_ascend_npu_monitor));
    let d24 = spec_set_path(d23, spec_keys(seq!["ui", "ascend_npu_monitor_interval"]), JsonModel::Number(JsonNumber::PosInt(spec_clamp(s.ui_ascend_npu_monitor_interval as int, 3, 120) as u64)));
    let d25 = spec_set_path(d24, spec_keys(seq!["ui", "show_process_manager"]), JsonModel::Bool(s.ui_show_process_manager));
    let d26 = spec_set_path(d25, spec_keys(seq!["ui", "process_manager_interval"]), JsonModel::Number(JsonNumber::PosInt(spec_clamp(s.ui_process_manager_interval as int, 3, 120) as u64)));
    let d27 = spec_set_path(d26, spec_keys(seq!["ui", "show_docker_manager"]), JsonModel::Bool(s.ui_show_docker_manager));
    let d28 = spec_set_path(d27, spec_keys(seq!["ui", "docker_manager_interval"]), JsonModel::Number(JsonNumber::PosInt(spec_clamp(s.ui_docker_manager_interval as int, 3, 120) as u64)));
    assert(spec_saved_terminal_part1(d, s) == d8);
    assert(spec_saved_terminal_part2(d8, s) == d16);
    assert(spec_saved_terminal_part3(d16, s) == d24);
    assert(spec_saved_terminal_part4(d24, s) == d28);
    assert(spec_saved_terminal(d, s) == d28);
    lemma_set_path_then_read(d5, spec_keys(seq!["terminal", "hardware_acceleration"]), JsonModel::Bool(s.terminal_hardware_acceleration));
    assert("show_workspace_padding"@.len() != "hardware_acceleration"@.len());
    assert(spec_keys(seq!["terminal", "show_workspace_padding"])[1] != spec_keys(seq!["terminal", "hardware_acceleration"])[1]);
    lemma_set_path_frame(d6, spec_keys(seq!["terminal", "show_workspace_padding"]), JsonModel::Bool(s.terminal_show_workspace_padding), spec_keys(seq!["terminal", "hardware_acceleration"]));
    assert("show_line_numbers"@.len() != "hardware_acceleration"@.len());
    assert(spec_keys(seq!["terminal", "show_line_numbers"])[1] != spec_keys(seq!["terminal", "hardware_acceleration"])[1]);
    lemma_set_path_frame(d7, spec_keys(seq!["terminal", "show_line_numbers"]), JsonModel::Bool(s.terminal_show_line_numbers), spec_keys(seq!["terminal", "hardware_acceleration"]));
    assert("show_timestamps"@.len() != "hardware_acceleration"@.len());
    assert(spec_keys(seq!["terminal", "show_timestamps"])[1] != spec_keys(seq!["terminal", "hardware_acceleration"])[1]);
    lemma_set_path_frame(d8, spec_keys(seq!["terminal", "show_timestamps"]), JsonModel::Bool(s.terminal_show_timestamps), spec_keys(seq!["terminal", "hardware_acceleration"]));
    assert("show_multi_line_paste_dialog"@.len() != "hardware_acceleration"@.len());
    assert(spec_keys(seq!["terminal", "show_multi_line_paste_dialog"])[1] != spec_keys(seq!["terminal", "hardware_acceleration"])[1]);
    lemma_set_path_frame(d9, spec_keys(seq!["terminal", "show_multi_line_paste_dialog"]), JsonModel::Bool(s.terminal_show_multi_line_paste_dialog), spec_keys(seq!["terminal", "hardware_acceleration"]));
    assert("paste_image_as_path"@.len() != "hardware_acceleration"@.len());
    assert(spec_keys(seq!["terminal", "paste_image_as_path"])[1] != spec_keys(seq!["terminal", "hardware_acceleration"])[1]);
    lemma_set_path_frame(d10, spec_keys(seq!["terminal", "paste_image_as_path"]), JsonModel::Bool(s.terminal_paste_image_as_path), spec_keys(seq!["terminal", "hardware_acceleration"]));
    assert("reconnect_restore_cwd"@[0] != "hardware_acceleration"@[0]);
    assert(spec_keys(seq!["terminal", "reconnect_restore_cwd"])[1] != spec_keys(seq!["terminal", "hardware_acceleration"])[1]);
    lemma_set_path_frame(d11, spec_keys(seq!["terminal", "reconnect_restore_cwd"]), JsonModel::Bool(s.terminal_reconnect_restore_cwd), spec_keys(seq!["terminal", "hardware_acceleration"]));
    assert("low_latency_mode"@.len() != "hardware_acceleration"@.len());
    assert(spec_keys(seq!["terminal", "low_latency_mode"])[1] != spec_keys(seq!["terminal", "hardware_acceleration"])[1]);
    lemma_set_path_frame(d12, spec_keys(seq!["terminal", "low_latency_mode"]), JsonModel::Bool(s.terminal_low_latency_mode), spec_keys(seq!["terminal", "hardware_acceleration"]));
    assert("zebra_stripes_enabled"@[0] != "hardware_acceleration"@[0]);
    assert(spec_keys(seq!["terminal", "zebra_stripes_enabled"])[1] != spec_keys(seq!["terminal", "hardware_acceleration"])[1]);
    lemma_set_path_frame(d13, spec_keys(seq!["terminal", "zebra_stripes_enabled"]), JsonModel::Bool(s.terminal_zebra_stripes_enabled), spec_keys(seq!["terminal", "hardware_acceleration"]));
    assert("action_links_enabled"@.len() != "hardware_acceleration"@.len());
    assert(spec_keys(seq!["terminal", "action_links_enabled"])[1] != spec_keys(seq!["terminal", "hardware_acceleration"])[1]);
    lemma_set_path_frame(d14, spec_keys(seq!["terminal", "action_links_enabled"]), JsonModel::Bool(s.terminal_action_links_enabled), spec_keys(seq!["terminal", "hardware_acceleration"]));
    assert("action_links_matchers"@[0] != "hardware_acceleration"@[0]);
    assert(spec_keys(seq!["terminal", "action_links_matchers"])[1] != spec_keys(seq!["terminal", "hardware_acceleration"])[1]);
    lemma_set_path_frame(d15, spec_keys(seq!["terminal", "action_links_matchers"]), spec_matchers_value(s.terminal_action_links_matchers), spec_keys(seq!["terminal", "hardware_acceleration"]));
    assert("search"@.len() != "terminal"@.len());
    assert(spec_keys(seq!["search", "custom_engines"])[0] != spec_keys(seq!["terminal", "hardware_acceleration"])[0]);
    lemma_set_path_frame(d16, spec_keys(seq!["search", "custom_engines"]), spec_engines_value(engines_view(s.search_custom_engines@)), spec_keys(seq!["terminal", "hardware_acceleration"]));
    assert("ui"@.len() != "terminal"@.len());
    assert(spec_keys(seq!["ui", "show_notes_panel"])[0] != spec_keys(seq!["terminal", "hardware_acceleration"])[0]);
    lemma_set_path_frame(d17, spec_keys(seq!["ui", "show_notes_panel"]), JsonModel::Bool(s.ui_show_notes_panel), spec_keys(seq!["terminal", "hardware_acceleration"]));
    assert("ui"@.len() != "terminal"@.len());
    assert(spec_keys(seq!["ui", "show_remote_stats"])[0] != spec_keys(seq!["terminal", "hardware_acceleration"])[0]);
    lemma_set_path_frame(d18, spec_keys(seq!["ui", "show_remote_stats"]), JsonModel::Bool(s.ui_show_remote_stats), spec_keys(seq!["terminal", "hardware_acceleration"]));
    assert("ui"@.len() != "terminal"@.len());
    assert(spec_keys(seq!["ui", "remote_stats_interval"])[0] != spec_keys(seq!["terminal", "hardware_acceleration"])[0]);
    lemma_set_path_frame(d19, spec_keys(seq!["ui", "remote_stats_interval"]), JsonModel::Number(JsonNumber::PosInt(spec_clamp(s.ui_remote_stats_interval as int, 1, 60) as u64)), spec_keys(seq!["terminal", "hardware_acceleration"]));
    assert("ui"@.len() != "terminal"@.len());
    assert(spec_keys(seq!["ui", "show_gpu_monitor"])[0] != spec_keys(seq!["terminal", "hardware_acceleration"])[0]);
    lemma_set_path_frame(d20, spec_keys(seq!["ui", "show_gpu_monitor"]), JsonModel::Bool(s.ui_show_gpu_monitor), spec_keys(seq!["terminal", "hardware_acceleration"]));
    assert("ui"@.len() != "terminal"@.len());
    assert(spec_keys(seq!["ui", "gpu_monitor_interval"])[0] != spec_keys(seq!["terminal", "hardware_acceleration"])[0]);
    lemma_set_path_frame(d21, spec_keys(seq!["ui", "gpu_monitor_interval"]), JsonModel::Number(JsonNumber::PosInt(spec_clamp(s.ui_gpu_monitor_interval as int, 3, 120) as u64)), spec_keys(seq!["terminal", "hardware_acceleration"]));
    assert("ui"@.len() != "terminal"@.len());
    assert(spec_keys(seq!["ui", "show_ascend_npu_monitor"])[0] != spec_keys(seq!["terminal", "hardware_acceleration"])[0]);
    lemma_set_path_frame(d22, spec_keys(seq!["ui", "show_ascend_npu_monitor"]), JsonModel::Bool(s.ui_show_ascend_npu_monitor), spec_keys(seq!["terminal", "hardware_acceleration"]));
    assert("ui"@.len() != "terminal"@.len());
    assert(spec_keys(seq!["ui", "ascend_npu_monitor_interval"])[0] != spec_keys(seq!["terminal", "hardware_acceleration"])[0]);
    lemma_set_path_frame(d23, spec_keys(seq!["ui", "ascend_npu_monitor_interval"]), JsonModel::Number(JsonNumber::PosInt(spec_clamp(s.ui_ascend_npu_monitor_interval as int, 3, 120) as u64)), spec_keys(seq!["terminal", "hardware_acceleration"]));
    assert("ui"@.len() != "terminal"@.len());
    assert(spec_keys(seq!["ui", "show_process_manager"])[0] != spec_keys(seq!["terminal", "hardware_acceleration"])[0]);
    lemma_set_path_frame(d24, spec_keys(seq!["ui", "show_process_manager"]), JsonModel::Bool(s.ui_show_process_manager), spec_keys(seq!["terminal", "hardware_acceleration"]));
    assert("ui"@.len() != "terminal"@.len());
    assert(spec_keys(seq!["ui", "process_manager_interval"])[0] != spec_keys(seq!["terminal", "hardware_acceleration"])[0]);
    lemma_set_path_frame(d25, spec_keys(seq!["ui", "process_manager_interval"]), JsonModel::Number(JsonNumber::PosInt(spec_clamp(s.ui_process_manager_interval as int, 3, 120) as u64)), spec_keys(seq!["terminal", "hardware_acceleration"]));
    assert("ui"@.len() != "terminal"@.len());
    assert(spec_keys(seq!["ui", "show_docker_manager"])[0] != spec_keys(seq!["terminal", "hardware_acceleration"])[0]);
    lemma_set_path_frame(d26, spec_keys(seq!["ui", "show_docker_manager"]), JsonModel::Bool(s.ui_show_docker_manager), spec_keys(seq!["terminal", "hardware_acceleration"]));
    assert("ui"@.len() != "terminal"@.len());
    assert(spec_keys(seq!["ui", "docker_manager_interval"])[0] != spec_keys(seq!["terminal", "hardware_acceleration"])[0]);
    lemma_set_path_frame(d27, spec_keys(seq!["ui", "docker_manager_interval"]), JsonModel::Number(JsonNumber::PosInt(spec_clamp(s.ui_docker_manager_interval as int, 3, 120) as u64)), spec_keys(seq!["terminal", "hardware_acceleration"]));
}

#[verifier::spinoff_prover]
proof fn lemma_saved_terminal_keeps_terminal_show_workspace_padding(d: JsonModel, s: AppSettingsSummary)
    ensures
        spec_json_path(spec_saved_terminal(d, s), spec_keys(seq!["terminal", "show_workspace_padding"])) == Some(JsonModel::Bool(s.terminal_show_workspace_padding)),
{
    reveal_strlit("action_links_enabled");
    reveal_strlit("action_links_matchers");
    reveal_strlit("low_latency_mode");
    reveal_strlit("paste_image_as_path");
    reveal_strlit("reconnect_restore_cwd");
    reveal_strlit("search");
    reveal_strlit("show_line_numbers");
    reveal_strlit("show_multi_line_paste_dialog");
    reveal_strlit("show_timestamps");
    reveal_strlit("show_workspace_padding");
    reveal_strlit("terminal");
    reveal_strlit("ui");
    reveal_strlit("zebra_stripes_enabled");
    let d1 = spec_set_path(d, spec_keys(seq!["terminal", "x11_display"]), JsonModel::Str(s.x11_display@, None));
    let d2 = spec_set_path(d1, spec_keys(seq!["terminal", "scrollback_lines"]), JsonModel::Number(JsonNumber::PosInt(spec_clamp(s.terminal_scrollback_lines as int, 100, 100000) as u64)));
    let d3 = spec_set_path(d2, spec_keys(seq!["terminal", "keep_alive_mode"]), JsonModel::Str(spec_keep_alive_mode(s.terminal_keep_alive_mode@), None));
    let d4 = spec_set_path(d3, spec_keys(seq!["terminal", "keep_alive_interval"]), JsonModel::Number(JsonNumber::PosInt(spec_clamp(s.terminal_keep_alive_interval as int, 0, 600) as u64)));
    let d5 = spec_set_path(d4, spec_keys(seq!["terminal", "timestamp_format"]), JsonModel::Str(spec_timestamp_format(s.terminal_timestamp_format@), None));
    let d6 = spec_set_path(d5, spec_keys(seq!["terminal", "hardware_acceleration"]), JsonModel::Bool(s.terminal_hardware_acceleration));
    let d7 = spec_set_path(d6, spec_keys(seq!["terminal", "show_workspace_padding"]), JsonModel::Bool(s.terminal_show_workspace_padding));
    let d8 = spec_set_path(d7, spec_keys(seq!["terminal", "show_line_numbers"]), JsonModel::Bool(s.terminal_show_line_numbers));
    let d9 = spec_set_path(d8, spec_keys(seq!["terminal", "show_timestamps"]), JsonModel::Bool(s.terminal_show_timestamps));
    let d10 = spec_set_path(d9, spec_keys(seq!["terminal", "show_multi_line_paste_dialog"]), JsonModel::Bool(s.terminal_show_multi_line_paste_dialog));
    let d11 = spec_set_path(d10, spec_keys(seq!["terminal", "paste_image_as_path"]), JsonModel::Bool(s.terminal_paste_image_as_path));
    let d12 = spec_set_path(d11, spec_keys(seq!["terminal", "reconnect_restore_cwd"]), JsonModel::Bool(s.terminal_reconnect_restore_cwd));
    let d13 = spec_set_path(d12, spec_keys(seq!["terminal", "low_latency_mode"]), JsonModel::Bool(s.terminal_low_latency_mode));
    let d14 = spec_set_path(d13, spec_keys(seq!["terminal", "zebra_stripes_enabled"]), JsonModel::Bool(s.terminal_zebra_stripes_enabled));
    let d15 = spec_set_path(d14, spec_keys(seq!["terminal", "action_links_enabled"]), JsonModel::Bool(s.terminal_action_links_enabled));
    let d16 = spec_set_path(d15, spec_keys(seq!["terminal", "action_links_matchers"]), spec_matchers_value(s.terminal_action_links_matchers));
    let d17 = spec_set_path(d16, spec_keys(seq!["search", "custom_engines"]), spec_engines_value(engines_view(s.search_custom_engines@)));
    let d18 = spec_set_path(d17, spec_keys(seq!["ui", "show_notes_panel"]), JsonModel::Bool(s.ui_show_notes_panel));
    let d19 = spec_set_path(d18, spec_keys(seq!["ui", "show_remote_stats"]), JsonModel::Bool(s.ui_show_remote_stats));
    let d20 = spec_set_path(d19, spec_keys(seq!["ui", "remote_stats_interval"]), JsonModel::Number(JsonNumber::PosInt(spec_clamp(s.ui_remote_stats_interval as int, 1, 60) as u64)));
    let d21 = spec_set_path(d20, spec_keys(seq!["ui", "show_gpu_monitor"]), JsonModel::Bool(s.ui_show_gpu_monitor));
    let d22 = spec_set_path(d21, spec_keys(seq!["ui", "gpu_monitor_interval"]), JsonModel::Number(JsonNumber::PosInt(spec_clamp(s.ui_gpu_monitor_interval as int, 3, 120) as u64)));
    let d23 = spec_set_path(d22, spec_keys(seq!["ui", "show_ascend_npu_monitor"]), JsonModel::Bool(s.ui_show_ascend_npu_monitor));
    let d24 = spec_set_path(d23, spec_keys(seq!["ui", "ascend_npu_monitor_interval"]), JsonModel::Number(JsonNumber::PosInt(spec_clamp(s.ui_ascend_npu_monitor_interval as int, 3, 120) as u64)));
    let d25 = spec_set_path(d24, spec_keys(seq!["ui", "show_process_manager"]), JsonModel::Bool(s.ui_show_process_manager));
    let d26 = spec_set_path(d25, spec_keys(seq!["ui", "process_manager_interval"]), JsonModel::Number(JsonNumber::PosInt(spec_clamp(s.ui_process_manager_interval as int, 3, 120) as u64)));
    let d27 = spec_set_path(d26, spec_keys(seq!["ui", "show_docker_manager"]), JsonModel::Bool(s.ui_show_docker_manager));
    let d28 = spec_set_path(d27, spec_keys(seq!["ui", "docker_manager_interval"]), JsonModel::Number(JsonNumber::PosInt(spec_clamp(s.ui_docker_manager_interval as int, 3, 120) as u64)));
    assert(spec_saved_terminal_part1(d, s) == d8);
    assert(spec_saved_terminal_part2(d8, s) == d16);
    assert(spec_saved_terminal_part3(d16, s) == d24);
    assert(spec_saved_terminal_part4(d24, s) == d28);
    assert(spec_saved_terminal(d, s) == d28);
    lemma_set_path_then_read(d6, spec_keys(seq!["terminal", "show_workspace_padding"]), JsonModel::Bool(s.terminal_show_workspace_padding));
    assert("show_line_numbers"@.len() != "show_workspace_padding"@.len());
    assert(spec_keys(seq!["terminal", "show_line_numbers"])[1] != spec_keys(seq!["terminal", "show_workspace_padding"])[1]);
    lemma_set_path_frame(d7, spec_keys(seq!["terminal", "show_line_numbers"]), JsonModel::Bool(s.terminal_show_line_numbers), spec_keys(seq!["terminal", "show_workspace_padding"]));
    assert("show_timestamps"@.len() != "show_workspace_padding"@.len());
    assert(spec_keys(seq!["terminal", "show_timestamps"])[1] != spec_keys(seq!["terminal", "show_workspace_padding"])[1]);
    lemma_set_path_frame(d8, spec_keys(seq!["terminal", "show_timestamps"]), JsonModel::Bool(s.terminal_show_timestamps), spec_keys(seq!["terminal", "show_workspace_padding"]));
    assert("show_multi_line_paste_dialog"@.len() != "show_workspace_padding"@.len());
    assert(spec_keys(seq!["terminal", "show_multi_line_paste_dialog"])[1] != spec_keys(seq!["terminal", "show_workspace_padding"])[1]);
    lemma_set_path_frame(d9, spec_keys(seq!["terminal", "show_multi_line_paste_dialog"]), JsonModel::Bool(s.terminal_show_multi_line_paste_dialog), spec_keys(seq!["terminal", "show_workspace_padding"]));
    assert("paste_image_as_path"@.len() != "show_workspace_padding"@.len());
    assert(spec_keys(seq!["terminal", "paste_image_as_path"])[1] != spec_keys(seq!["terminal", "show_workspace_padding"])[1]);
    lemma_set_path_frame(d10, spec_keys(seq!["terminal", "paste_image_as_path"]), JsonModel::Bool(s.terminal_paste_image_as_path), spec_keys(seq!["terminal", "show_workspace_padding"]));
    assert("reconnect_restore_cwd"@.len() != "show_workspace_padding"@.len());
    assert(spec_keys(seq!["terminal", "reconnect_restore_cwd"])[1] != spec_keys(seq!["terminal", "show_workspace_padding"])[1]);
    lemma_set_path_frame(d11, spec_keys(seq!["terminal", "reconnect_restore_cwd"]), JsonModel::Bool(s.terminal_reconnect_restore_cwd), spec_keys(seq!["terminal", "show_workspace_padding"]));
    assert("low_latency_mode"@.len() != "show_workspace_padding"@.len());
    assert(spec_keys(seq!["terminal", "low_latency_mode"])[1] != spec_keys(seq!["terminal", "show_workspace_padding"])[1]);
    lemma_set_path_frame(d12, spec_keys(seq!["terminal", "low_latency_mode"]), JsonModel::Bool(s.terminal_low_latency_mode), spec_keys(seq!["terminal", "show_workspace_padding"]));
    assert("zebra_stripes_enabled"@.len() != "show_workspace_padding"@.len());
    assert(spec_keys(seq!["terminal", "zebra_stripes_enabled"])[1] != spec_keys(seq!["terminal", "show_workspace_padding"])[1]);
    lemma_set_path_frame(d13, spec_keys(seq!["terminal", "zebra_stripes_enabled"]), JsonModel::Bool(s.terminal_zebra_stripes_enabled), spec_keys(seq!["terminal", "show_workspace_padding"]));
    assert("action_links_enabled"@.len() != "show_workspace_padding"@.len());
    assert(spec_keys(seq!["terminal", "action_links_enabled"])[1] != spec_keys(seq!["terminal", "show_workspace_padding"])[1]);
    lemma_set_path_frame(d14, spec_keys(seq!["terminal", "action_links_enabled"]), JsonModel::Bool(s.terminal_action_links_enabled), spec_keys(seq!["terminal", "show_workspace_padding"]));
    assert("action_links_matchers"@.len() != "show_workspace_padding"@.len());
    assert(spec_keys(seq!["terminal", "action_links_matchers"])[1] != spec_keys(seq!["terminal", "show_workspace_padding"])[1]);
    lemma_set_path_frame(d15, spec_keys(seq!["terminal", "action_links_matchers"]), spec_matchers_value(s.terminal_action_links_matchers), spec_keys(seq!["terminal", "show_workspace_padding"]));
    assert("search"@.len() != "terminal"@.len());
    assert(spec_keys(seq!["search", "custom_engines"])[0] != spec_keys(seq!["terminal", "show_workspace_padding"])[0]);
    lemma_set_path_frame(d16, spec_keys(seq!["search", "custom_engines"]), spec_engines_value(engines_view(s.search_custom_engines@)), spec_keys(seq!["terminal", "show_workspace_padding"]));
    assert("ui"@.len() != "terminal"@.len());
    assert(spec_keys(seq!["ui", "show_notes_panel"])[0] != spec_keys(seq!["terminal", "show_workspace_padding"])[0]);
    lemma_set_path_frame(d17, spec_keys(seq!["ui", "show_notes_panel"]), JsonModel::Bool(s.ui_show_notes_panel), spec_keys(seq!["terminal", "show_workspace_padding"]));
    assert("ui"@.len() != "terminal"@.len());
    assert(spec_keys(seq!["ui", "show_remote_stats"])[0] != spec_keys(seq!["terminal", "show_workspace_padding"])[0]);
    lemma_set_path_frame(d18, spec_keys(seq!["ui", "show_remote_stats"]), JsonModel::Bool(s.ui_show_remote_stats), spec_keys(seq!["terminal", "show_workspace_padding"]));
    assert("ui"@.len() != "terminal"@.len());
    assert(spec_keys(seq!["ui", "remote_stats_interval"])[0] != spec_keys(seq!["terminal", "show_workspace_padding"])[0]);
    lemma_set_path_frame(d19, spec_keys(seq!["ui", "remote_stats_interval"]), JsonModel::Number(JsonNumber::PosInt(spec_clamp(s.ui_remote_stats_interval as int, 1, 60) as u64)), spec_keys(seq!["terminal", "show_workspace_padding"]));
    assert("ui"@.len() != "terminal"@.len());
    assert(spec_keys(seq!["ui", "show_gpu_monitor"])[0] != spec_keys(seq!["terminal", "show_workspace_padding"])[0]);
    lemma_set_path_frame(d20, spec_keys(seq!["ui", "show_gpu_monitor"]), JsonModel::Bool(s.ui_show_gpu_monitor), spec_keys(seq!["terminal", "show_workspace_padding"]));
    assert("ui"@.len() != "terminal"@.len());
    assert(spec_keys(seq!["ui", "gpu_monitor_interval"])[0] != spec_keys(seq!["terminal", "show_workspace_padding"])[0]);
    lemma_set_path_frame(d21, spec_keys(seq!["ui", "gpu_monitor_interval"]), JsonModel::Number(JsonNumber::PosInt(spec_clamp(s.ui_gpu_monitor_interval as int, 3, 120) as u64)), spec_keys(seq!["terminal", "show_workspace_padding"]));
    assert("ui"@.len() != "terminal"@.len());
    assert(spec_keys(seq!["ui", "show_ascend_npu_monitor"])[0] != spec_keys(seq!["terminal", "show_workspace_padding"])[0]);
    lemma_set_path_frame(d22, spec_keys(seq!["ui", "show_ascend_npu_monitor"]), JsonModel::Bool(s.ui_show_ascend_npu_monitor), spec_keys(seq!["terminal", "show_workspace_padding"]));
    assert("ui"@.len() != "terminal"@.len());
    assert(spec_keys(seq!["ui", "ascend_npu_monitor_interval"])[0] != spec_keys(seq!["terminal", "show_workspace_padding"])[0]);
    lemma_set_path_frame(d23, spec_keys(seq!["ui", "ascend_npu_monitor_interval"]), JsonModel::Number(JsonNumber::PosInt(spec_clamp(s.ui_ascend_npu_monitor_interval as int, 3, 120) as u64)), spec_keys(seq!["terminal", "show_workspace_padding"]));
    assert("ui"@.len() != "terminal"@.len());
    assert(spec_keys(seq!["ui", "show_process_manager"])[0] != spec_keys(seq!["terminal", "show_workspace_padding"])[0]);
    lemma_set_path_frame(d24, spec_keys(seq!["ui", "show_process_manager"]), JsonModel::Bool(s.ui_show_process_manager), spec_keys(seq!["terminal", "show_workspace_padding"]));
    assert("ui"@.len() != "terminal"@.len());
    assert(spec_keys(seq!["ui", "process_manager_interval"])[0] != spec_keys(seq!["terminal", "show_workspace_padding"])[0]);
    lemma_set_path_frame(d25, spec_keys(seq!["ui", "process_manager_interval"]), JsonModel::Number(JsonNumber::PosInt(spec_clamp(s.ui_process_manager_interval as int, 3, 120) as u64)), spec_keys(seq!["terminal", "show_workspace_padding"]));
    assert("ui"@.len() != "terminal"@.len());
    assert(spec_keys(seq!["ui", "show_docker_manager"])[0] != spec_keys(seq!["terminal", "show_workspace_padding"])[0]);
    lemma_set_path_frame(d26, spec_keys(seq!["ui", "show_docker_manager"]), JsonModel::Bool(s.ui_show_docker_manager), spec_keys(seq!["terminal", "show_workspace_padding"]));
    assert("ui"@.len() != "terminal"@.len());
    assert(spec_keys(seq!["ui", "docker_manager_interval"])[0] != spec_keys(seq!["terminal", "show_workspace_padding"])[0]);
    lemma_set_path_frame(d27, spec_keys(seq!["ui", "docker_manager_interval"]), JsonModel::Number(JsonNumber::PosInt(spec_clamp(s.ui_docker_manager_interval as int, 3, 120) as u64)), spec_keys(seq!["terminal", "show_workspace_padding"]));
}

#[verifier::spinoff_prover]
proof fn lemma_saved_terminal_keeps_terminal_show_line_numbers(d: JsonModel, s: AppSettingsSummary)
    ensures
        spec_json_path(spec_saved_terminal(d, s), spec_keys(seq!["terminal", "show_line_numbers"])) == Some(JsonModel::Bool(s.terminal_show_line_numbers)),
{
    reveal_strlit("action_links_enabled");
    reveal_strlit("action_links_matchers");
    reveal_strlit("low_latency_mode");
    reveal_strlit("paste_image_as_path");
    reveal_strlit("reconnect_restore_cwd");
    reveal_strlit("search");
    reveal_strlit("show_line_numbers");
    reveal_strlit("show_multi_line_paste_dialog");
    reveal_strlit("show_timestamps");
    reveal_strlit("terminal");
    reveal_strlit("ui");
    reveal_strlit("zebra_stripes_enabled");
    let d1 = spec_set_path(d, spec_keys(seq!["terminal", "x11_display"]), JsonModel::Str(s.x11_display@, None));
    let d2 = spec_set_path(d1, spec_keys(seq!["terminal", "scrollback_lines"]), JsonModel::Number(JsonNumber::PosInt(spec_clamp(s.terminal_scrollback_lines as int, 100, 100000) as u64)));
    let d3 = spec_set_path(d2, spec_keys(seq!["terminal", "keep_alive_mode"]), JsonModel::Str(spec_keep_alive_mode(s.terminal_keep_alive_mode@), None));
    let d4 = spec_set_path(d3, spec_keys(seq!["terminal", "keep_alive_interval"]), JsonModel::Number(JsonNumber::PosInt(spec_clamp(s.terminal_keep_alive_interval as int, 0, 600) as u64)));
    let d5 = spec_set_path(d4, spec_keys(seq!["terminal", "timestamp_format"]), JsonModel::Str(spec_timestamp_format(s.terminal_timestamp_format@), None));
    let d6 = spec_set_path(d5, spec_keys(seq!["terminal", "hardware_acceleration"]), JsonModel::Bool(s.terminal_hardware_acceleration));
    let d7 = spec_set_path(d6, spec_keys(seq!["terminal", "show_workspace_padding"]), JsonModel::Bool(s.terminal_show_workspace_padding));
    let d8 = spec_set_path(d7, spec_keys(seq!["terminal", "show_line_numbers"]), JsonModel::Bool(s.terminal_show_line_numbers));
    let d9 = spec_set_path(d8, spec_keys(seq!["terminal", "show_timestamps"]), JsonModel::Bool(s.terminal_show_timestamps));
    let d10 = spec_set_path(d9, spec_keys(seq!["terminal", "show_multi_line_paste_dialog"]), JsonModel::Bool(s.terminal_show_multi_line_paste_dialog));
    let d11 = spec_set_path(d10, spec_keys(seq!["terminal", "paste_image_as_path"]), JsonModel::Bool(s.terminal_paste_image_as_path));
    let d12 = spec_set_path(d11, spec_keys(seq!["terminal", "reconnect_restore_cwd"]), JsonModel::Bool(s.terminal_reconnect_restore_cwd));
    let d13 = spec_set_path(d12, spec_keys(seq!["terminal", "low_latency_mode"]), JsonModel::Bool(s.terminal_low_latency_mode));
    let d14 = spec_set_path(d13, spec_keys(seq!["terminal", "zebra_stripes_enabled"]), JsonModel::Bool(s.terminal_zebra_stripes_enabled));
    let d15 = spec_set_path(d14, spec_keys(seq!["terminal", "action_links_enabled"]), JsonModel::Bool(s.terminal_action_links_enabled));
    let d16 = spec_set_path(d15, spec_keys(seq!["terminal", "action_links_matchers"]), spec_matchers_value(s.terminal_action_links_matchers));
    let d17 = spec_set_path(d16, spec_keys(seq!["search", "custom_engines"]), spec_engines_value(engines_view(s.search_custom_engines@)));
    let d18 = spec_set_path(d17, spec_keys(seq!["ui", "show_notes_panel"]), JsonModel::Bool(s.ui_show_notes_panel));
    let d19 = spec_set_path(d18, spec_keys(seq!["ui", "show_remote_stats"]), JsonModel::Bool(s.ui_show_remote_stats));
    let d20 = spec_set_path(d19, spec_keys(seq!["ui", "remote_stats_interval"]), JsonModel::Number(JsonNumber::PosInt(spec_clamp(s.ui_remote_stats_interval as int, 1, 60) as u64)));
    let d21 = spec_set_path(d20, spec_keys(seq!["ui", "show_gpu_monitor"]), JsonModel::Bool(s.ui_show_gpu_monitor));
    let d22 = spec_set_path(d21, spec_keys(seq!["ui", "gpu_monitor_interval"]), JsonModel::Number(JsonNumber::PosInt(spec_clamp(s.ui_gpu_monitor_interval as int, 3, 120) as u64)));
    let d23 = spec_set_path(d22, spec_keys(seq!["ui", "show_ascend_npu_monitor"]), JsonModel::Bool(s.ui_show_ascend_npu_monitor));
    let d24 = spec_set_path(d23, spec_keys(seq!["ui", "ascend_npu_monitor_interval"]), JsonModel::Number(JsonNumber::PosInt(spec_clamp(s.ui_ascend_npu_monitor_interval as int, 3, 120) as u64)));
    let d25 = spec_set_path(d24, spec_keys(seq!["ui", "show_process_manager"]), JsonModel::Bool(s.ui_show_process_manager));
    let d26 = spec_set_path(d25, spec_keys(seq!["ui", "process_manager_interval"]), JsonModel::Number(JsonNumber::PosInt(spec_clamp(s.ui_process_manager_interval as int, 3, 120) as u64)));
    let d27 = spec_set_path(d26, spec_keys(seq!["ui", "show_docker_manager"]), JsonModel::Bool(s.ui_show_docker_manager));
    let d28 = spec_set_path(d27, spec_keys(seq!["ui", "docker_manager_interval"]), JsonModel::Number(JsonNumber::PosInt(spec_clamp(s.ui_docker_manager_interval as int, 3, 120) as u64)));
    assert(spec_saved_terminal_part1(d, s) == d8);
    assert(spec_saved_terminal_part2(d8, s) == d16);
    assert(spec_saved_terminal_part3(d16, s) == d24);
    assert(spec_saved_terminal_part4(d24, s) == d28);
    assert(spec_saved_terminal(d, s) == d28);
    lemma_set_path_then_read(d7, spec_keys(seq!["terminal", "show_line_numbers"]), JsonModel::Bool(s.terminal_show_line_numbers));
    assert("show_timestamps"@.len() != "show_line_numbers"@.len());
    assert(spec_keys(seq!["terminal", "show_timestamps"])[1] != spec_keys(seq!["terminal", "show_line_numbers"])[1]);
    lemma_set_path_frame(d8, spec_keys(seq!["terminal", "show_timestamps"]), JsonModel::Bool(s.terminal_show_timestamps), spec_keys(seq!["terminal", "show_line_numbers"]));
    assert("show_multi_line_paste_dialog"@.len() != "show_line_numbers"@.len());
    assert(spec_keys(seq!["terminal", "show_multi_line_paste_dialog"])[1] != spec_keys(seq!["terminal", "show_line_numbers"])[1]);
    lemma_set_path_frame(d9, spec_keys(seq!["terminal", "show_multi_line_paste_dialog"]), JsonModel::Bool(s.terminal_show_multi_line_paste_dialog), spec_keys(seq!["terminal", "show_line_numbers"]));
    assert("paste_image_as_path"@.len() != "show_line_numbers"@.len());
    assert(spec_keys(seq!["terminal", "paste_image_as_path"])[1] != spec_keys(seq!["terminal", "show_line_numbers"])[1]);
    lemma_set_path_frame(d10, spec_keys(seq!["terminal", "paste_image_as_path"]), JsonModel::Bool(s.terminal_paste_image_as_path), spec_keys(seq!["terminal", "show_line_numbers"]));
    assert("reconnect_restore_cwd"@.len() != "show_line_numbers"@.len());
    assert(spec_keys(seq!["terminal", "reconnect_restore_cwd"])[1] != spec_keys(seq!["terminal", "show_line_numbers"])[1]);
    lemma_set_path_frame(d11, spec_keys(seq!["terminal", "reconnect_restore_cwd"]), JsonModel::Bool(s.terminal_reconnect_restore_cwd), spec_keys(seq!["terminal", "show_line_numbers"]));
    assert("low_latency_mode"@.len() != "show_line_numbers"@.len());
    assert(spec_keys(seq!["terminal", "low_latency_mode"])[1] != spec_keys(seq!["terminal", "show_line_numbers"])[1]);
    lemma_set_path_frame(d12, spec_keys(seq!["terminal", "low_latency_mode"]), JsonModel::Bool(s.terminal_low_latency_mode), spec_keys(seq!["terminal", "show_line_numbers"]));
    assert("zebra_stripes_enabled"@.len() != "show_line_numbers"@.len());
    assert(spec_keys(seq!["terminal", "zebra_stripes_enabled"])[1] != spec_keys(seq!["terminal", "show_line_numbers"])[1]);
    lemma_set_path_frame(d13, spec_keys(seq!["terminal", "zebra_stripes_enabled"]), JsonModel::Bool(s.terminal_zebra_stripes_enabled), spec_keys(seq!["terminal", "show_line_numbers"]));
    assert("action_links_enabled"@.len() != "show_line_numbers"@.len());
    assert(spec_keys(seq!["terminal", "action_links_enabled"])[1] != spec_keys(seq!["terminal", "show_line_numbers"])[1]);
    lemma_set_path_frame(d14, spec_keys(seq!["terminal", "action_links_enabled"]), JsonModel::Bool(s.terminal_action_links_enabled), spec_keys(seq!["terminal", "show_line_numbers"]));
    assert("action_links_matchers"@.len() != "show_line_numbers"@.len());
    assert(spec_keys(seq!["terminal", "action_links_matchers"])[1] != spec_keys(seq!["terminal", "show_line_numbers"])[1]);
    lemma_set_path_frame(d15, spec_keys(seq!["terminal", "action_links_matchers"]), spec_matchers_value(s.terminal_action_links_matchers), spec_keys(seq!["terminal", "show_line_numbers"]));
    assert("search"@.len() != "terminal"@.len());
    assert(spec_keys(seq!["search", "custom_engines"])[0] != spec_keys(seq!["terminal", "show_line_numbers"])[0]);
    lemma_set_path_frame(d16, spec_keys(seq!["search", "custom_engines"]), spec_engines_value(engines_view(s.search_custom_engines@)), spec_keys(seq!["terminal", "show_line_numbers"]));
    assert("ui"@.len() != "terminal"@.len());
    assert(spec_keys(seq!["ui", "show_notes_panel"])[0] != spec_keys(seq!["terminal", "show_line_numbers"])[0]);
    lemma_set_path_frame(d17, spec_keys(seq!["ui", "show_notes_panel"]), JsonModel::Bool(s.ui_show_notes_panel), spec_keys(seq!["terminal", "show_line_numbers"]));
    assert("ui"@.len() != "terminal"@.len());
    assert(spec_keys(seq!["ui", "show_remote_stats"])[0] != spec_keys(seq!["terminal", "show_line_numbers"])[0]);
    lemma_set_path_frame(d18, spec_keys(seq!["ui", "show_remote_stats"]), JsonModel::Bool(s.ui_show_remote_stats), spec_keys(seq!["terminal", "show_line_numbers"]));
    assert("ui"@.len() != "terminal"@.len());
    assert(spec_keys(seq!["ui", "remote_stats_interval"])[0] != spec_keys(seq!["terminal", "show_line_numbers"])[0]);
    lemma_set_path_frame(d19, spec_keys(seq!["ui", "remote_stats_interval"]), JsonModel::Number(JsonNumber::PosInt(spec_clamp(s.ui_remote_stats_interval as int, 1, 60) as u64)), spec_keys(seq!["terminal", "show_line_numbers"]));
    assert("ui"@.len() != "terminal"@.len());
    assert(spec_keys(seq!["ui", "show_gpu_monitor"])[0] != spec_keys(seq!["terminal", "show_line_numbers"])[0]);
    lemma_set_path_frame(d20, spec_keys(seq!["ui", "show_gpu_monitor"]), JsonModel::Bool(s.ui_show_gpu_monitor), spec_keys(seq!["terminal", "show_line_numbers"]));
    assert("ui"@.len() != "terminal"@.len());
    assert(spec_keys(seq!["ui", "gpu_monitor_interval"])[0] != spec_keys(seq!["terminal", "show_line_numbers"])[0]);
    lemma_set_path_frame(d21, spec_keys(seq!["ui", "gpu_monitor_interval"]), JsonModel::Number(JsonNumber::PosInt(spec_clamp(s.ui_gpu_monitor_interval as int, 3, 120) as u64)), spec_keys(seq!["terminal", "show_line_numbers"]));
    assert("ui"@.len() != "terminal"@.len());
    assert(spec_keys(seq!["ui", "show_ascend_npu_monitor"])[0] != spec_keys(seq!["terminal", "show_line_numbers"])[0]);
    lemma_set_path_frame(d22, spec_keys(seq!["ui", "show_ascend_npu_monitor"]), JsonModel::Bool(s.ui_show_ascend_npu_monitor), spec_keys(seq!["terminal", "show_line_numbers"]));
    assert("ui"@.len() != "terminal"@.len());
    assert(spec_keys(seq!["ui", "ascend_npu_monitor_interval"])[0] != spec_keys(seq!["terminal", "show_line_numbers"])[0]);
    lemma_set_path_frame(d23, spec_keys(seq!["ui", "ascend_npu_monitor_interval"]), JsonModel::Number(JsonNumber::PosInt(spec_clamp(s.ui_ascend_npu_monitor_interval as int, 3, 120) as u64)), spec_keys(seq!["terminal", "show_line_numbers"]));
    assert("ui"@.len() != "terminal"@.len());
    assert(spec_keys(seq!["ui", "show_process_manager"])[0] != spec_keys(seq!["terminal", "show_line_numbers"])[0]);
    lemma_set_path_frame(d24, spec_keys(seq!["ui", "show_process_manager"]), JsonModel::Bool(s.ui_show_process_manager), spec_keys(seq!["terminal", "show_line_numbers"]));
    assert("ui"@.len() != "terminal"@.len());
    assert(spec_keys(seq!["ui", "process_manager_interval"])[0] != spec_keys(seq!["terminal", "show_line_numbers"])[0]);
    lemma_set_path_frame(d25, spec_keys(seq!["ui", "process_manager_interval"]), JsonModel::Number(JsonNumber::PosInt(spec_clamp(s.ui_process_manager_interval as int, 3, 120) as u64)), spec_keys(seq!["terminal", "show_line_numbers"]));
    assert("ui"@.len() != "terminal"@.len());
    assert(spec_keys(seq!["ui", "show_docker_manager"])[0] != spec_keys(seq!["terminal", "show_line_numbers"])[0]);
    lemma_set_path_frame(d26, spec_keys(seq!["ui", "show_docker_manager"]), JsonModel::Bool(s.ui_show_docker_manager), spec_keys(seq!["terminal", "show_line_numbers"]));
    assert("ui"@.len() != "terminal"@.len());
    assert(spec_keys(seq!["ui", "docker_manager_interval"])[0] != spec_keys(seq!["terminal", "show_line_numbers"])[0]);
    lemma_set_path_frame(d27, spec_keys(seq!["ui", "docker_manager_interval"]), JsonModel::Number(JsonNumber::PosInt(spec_clamp(s.ui_docker_manager_interval as int, 3, 120) as u64)), spec_keys(seq!["terminal", "show_line_numbers"]));
}

#[verifier::spinoff_prover]
proof fn lemma_saved_terminal_keeps_terminal_show_timestamps(d: JsonModel, s: AppSettingsSummary)
    ensures
        spec_json_path(spec_saved_terminal(d, s), spec_keys(seq!["terminal", "show_timestamps"])) == Some(JsonModel::Bool(s.terminal_show_timestamps)),
{
    reveal_strlit("action_links_enabled");
    reveal_strlit("action_links_matchers");
    reveal_strlit("low_latency_mode");
    reveal_strlit("paste_image_as_path");
    reveal_strlit("reconnect_restore_cwd");
    reveal_strlit("search");
    reveal_strlit("show_multi_line_paste_dialog");
    reveal_strlit("show_timestamps");
    reveal_strlit("terminal");
    reveal_strlit("ui");
    reveal_strlit("zebra_stripes_enabled");
    let d1 = spec_set_path(d, spec_keys(seq!["terminal", "x11_display"]), JsonModel::Str(s.x11_display@, None));
    let d2 = spec_set_path(d1, spec_keys(seq!["terminal", "scrollback_lines"]), JsonModel::Number(JsonNumber::PosInt(spec_clamp(s.terminal_scrollback_lines as int, 100, 100000) as u64)));
    let d3 = spec_set_path(d2, spec_keys(seq!["terminal", "keep_alive_mode"]), JsonModel::Str(spec_keep_alive_mode(s.terminal_keep_alive_mode@), None));
    let d4 = spec_set_path(d3, spec_keys(seq!["terminal", "keep_alive_interval"]), JsonModel::Number(JsonNumber::PosInt(spec_clamp(s.terminal_keep_alive_interval as int, 0, 600) as u64)));
    let d5 = spec_set_path(d4, spec_keys(seq!["terminal", "timestamp_format"]), JsonModel::Str(spec_timestamp_format(s.terminal_timestamp_format@), None));
    let d6 = spec_set_path(d5, spec_keys(seq!["terminal", "hardware_acceleration"]), JsonModel::Bool(s.terminal_hardware_acceleration));
    let d7 = spec_set_path(d6, spec_keys(seq!["terminal", "show_workspace_padding"]), JsonModel::Bool(s.terminal_show_workspace_padding));
    let d8 = spec_set_path(d7, spec_keys(seq!["terminal", "show_line_numbers"]), JsonModel::Bool(s.terminal_show_line_numbers));
    let d9 = spec_set_path(d8, spec_keys(seq!["terminal", "show_timestamps"]), JsonModel::Bool(s.terminal_show_timestamps));
    let d10 = spec_set_path(d9, spec_keys(seq!["terminal", "show_multi_line_paste_dialog"]), JsonModel::Bool(s.terminal_show_multi_line_paste_dialog));
    let d11 = spec_set_path(d10, spec_keys(seq!["terminal", "paste_image_as_path"]), JsonModel::Bool(s.terminal_paste_image_as_path));
    let d12 = spec_set_path(d11, spec_keys(seq!["terminal", "reconnect_restore_cwd"]), JsonModel::Bool(s.terminal_reconnect_restore_cwd));
    let d13 = spec_set_path(d12, spec_keys(seq!["terminal", "low_latency_mode"]), JsonModel::Bool(s.terminal_low_latency_mode));
    let d14 = spec_set_path(d13, spec_keys(seq!["terminal", "zebra_stripes_enabled"]), JsonModel::Bool(s.terminal_zebra_stripes_enabled));
    let d15 = spec_set_path(d14, spec_keys(seq!["terminal", "action_links_enabled"]), JsonModel::Bool(s.terminal_action_links_enabled));
    let d16 = spec_set_path(d15, spec_keys(seq!["terminal", "action_links_matchers"]), spec_matchers_value(s.terminal_action_links_matchers));
    let d17 = spec_set_path(d16, spec_keys(seq!["search", "custom_engines"]), spec_engines_value(engines_view(s.search_custom_engines@)));
    let d18 = spec_set_path(d17, spec_keys(seq!["ui", "show_notes_panel"]), JsonModel::Bool(s.ui_show_notes_panel));
    let d19 = spec_set_path(d18, spec_keys(seq!["ui", "show_remote_stats"]), JsonModel::Bool(s.ui_show_remote_stats));
    let d20 = spec_set_path(d19, spec_keys(seq!["ui", "remote_stats_interval"]), JsonModel::Number(JsonNumber::PosInt(spec_clamp(s.ui_remote_stats_interval as int, 1, 60) as u64)));
    let d21 = spec_set_path(d20, spec_keys(seq!["ui", "show_gpu_monitor"]), JsonModel::Bool(s.ui_show_gpu_monitor));
    let d22 = spec_set_path(d21, spec_keys(seq!["ui", "gpu_monitor_interval"]), JsonModel::Number(JsonNumber::PosInt(spec_clamp(s.ui_gpu_monitor_interval as int, 3, 120) as u64)));
    let d23 = spec_set_path(d22, spec_keys(seq!["ui", "show_ascend_npu_monitor"]), JsonModel::Bool(s.ui_show_ascend_npu_monitor));
    let d24 = spec_set_path(d23, spec_keys(seq!["ui", "ascend_npu_monitor_interval"]), JsonModel::Number(JsonNumber::PosInt(spec_clamp(s.ui_ascend_npu_monitor_interval as int, 3, 120) as u64)));
    let d25 = spec_set_path(d24, spec_keys(seq!["ui", "show_process_manager"]), JsonModel::Bool(s.ui_show_process_manager));
    let d26 = spec_set_path(d25, spec_keys(seq!["ui", "process_manager_interval"]), JsonModel::Number(JsonNumber::PosInt(spec_clamp(s.ui_process_manager_interval as int, 3, 120) as u64)));
    let d27 = spec_set_path(d26, spec_keys(seq!["ui", "show_docker_manager"]), JsonModel::Bool(s.ui_show_docker_manager));
    let d28 = spec_set_path(d27, spec_keys(seq!["ui", "docker_manager_interval"]), JsonModel::Number(JsonNumber::PosInt(spec_clamp(s.ui_docker_manager_interval as int, 3, 120) as u64)));
    assert(spec_saved_terminal_part1(d, s) == d8);
    assert(spec_saved_terminal_part2(d8, s) == d16);
    assert(spec_saved_terminal_part3(d16, s) == d24);
    assert(spec_saved_terminal_part4(d24, s) == d28);
    assert(spec_saved_terminal(d, s) == d28);
    lemma_set_path_then_read(d8, spec_keys(seq!["terminal", "show_timestamps"]), JsonModel::Bool(s.terminal_show_timestamps));
    assert("show_multi_line_paste_dialog"@.len() != "show_timestamps"@.len());
    assert(spec_keys(seq!["terminal", "show_multi_line_paste_dialog"])[1] != spec_keys(seq!["terminal", "show_timestamps"])[1]);
    lemma_set_path_frame(d9, spec_keys(seq!["terminal", "show_multi_line_paste_dialog"]), JsonModel::Bool(s.terminal_show_multi_line_paste_dialog), spec_keys(seq!["terminal", "show_timestamps"]));
    assert("paste_image_as_path"@.len() != "show_timestamps"@.len());
    assert(spec_keys(seq!["terminal", "paste_image_as_path"])[1] != spec_keys(seq!["terminal", "show_timestamps"])[1]);
    lemma_set_path_frame(d10, spec_keys(seq!["terminal", "paste_image_as_path"]), JsonModel::Bool(s.terminal_paste_image_as_path), spec_keys(seq!["terminal", "show_timestamps"]));
    assert("reconnect_restore_cwd"@.len() != "show_timestamps"@.len());
    assert(spec_keys(seq!["terminal", "reconnect_restore_cwd"])[1] != spec_keys(seq!["terminal", "show_timestamps"])[1]);
    lemma_set_path_frame(d11, spec_keys(seq!["terminal", "reconnect_restore_cwd"]), JsonModel::Bool(s.terminal_reconnect_restore_cwd), spec_keys(seq!["terminal", "show_timestamps"]));
    assert("low_latency_mode"@.len() != "show_timestamps"@.len());
    assert(spec_keys(seq!["terminal", "low_latency_mode"])[1] != spec_keys(seq!["terminal", "show_timestamps"])[1]);
    lemma_set_path_frame(d12, spec_keys(seq!["terminal", "low_latency_mode"]), JsonModel::Bool(s.terminal_low_latency_mode), spec_keys(seq!["terminal", "show_timestamps"]));
    assert("zebra_stripes_enabled"@.len() != "show_timestamps"@.len());
    assert(spec_keys(seq!["terminal", "zebra_stripes_enabled"])[1] != spec_keys(seq!["terminal", "show_timestamps"])[1]);
    lemma_set_path_frame(d13, spec_keys(seq!["terminal", "zebra_stripes_enabled"]), JsonModel::Bool(s.terminal_zebra_stripes_enabled), spec_keys(seq!["terminal", "show_timestamps"]));
    assert("action_links_enabled"@.len() != "show_timestamps"@.len());
    assert(spec_keys(seq!["terminal", "action_links_enabled"])[1] != spec_keys(seq!["terminal", "show_timestamps"])[1]);
    lemma_set_path_frame(d14, spec_keys(seq!["terminal", "action_links_enabled"]), JsonModel::Bool(s.terminal_action_links_enabled), spec_keys(seq!["terminal", "show_timestamps"]));
    assert("action_links_matchers"@.len() != "show_timestamps"@.len());
    assert(spec_keys(seq!["terminal", "action_links_matchers"])[1] != spec_keys(seq!["terminal", "show_timestamps"])[1]);
    lemma_set_path_frame(d15, spec_keys(seq!["terminal", "action_links_matchers"]), spec_matchers_value(s.terminal_action_links_matchers), spec_keys(seq!["terminal", "show_timestamps"]));
    assert("search"@.len() != "terminal"@.len());
    assert(spec_keys(seq!["search", "custom_engines"])[0] != spec_keys(seq!["terminal", "show_timestamps"])[0]);
    lemma_set_path_frame(d16, spec_keys(seq!["search", "custom_engines"]), spec_engines_value(engines_view(s.search_custom_engines@)), spec_keys(seq!["terminal", "show_timestamps"]));
    assert("ui"@.len() != "terminal"@.len());
    assert(spec_keys(seq!["ui", "show_notes_panel"])[0] != spec_keys(seq!["terminal", "show_timestamps"])[0]);
    lemma_set_path_frame(d17, spec_keys(seq!["ui", "show_notes_panel"]), JsonModel::Bool(s.ui_show_notes_panel), spec_keys(seq!["terminal", "show_timestamps"]));
    assert("ui"@.len() != "terminal"@.len());
    assert(spec_keys(seq!["ui", "show_remote_stats"])[0] != spec_keys(seq!["terminal", "show_timestamps"])[0]);
    lemma_set_path_frame(d18, spec_keys(seq!["ui", "show_remote_stats"]), JsonModel::Bool(s.ui_show_remote_stats), spec_keys(seq!["terminal", "show_timestamps"]));
    assert("ui"@.len() != "terminal"@.len());
    assert(spec_keys(seq!["ui", "remote_stats_interval"])[0] != spec_keys(seq!["terminal", "show_timestamps"])[0]);
    lemma_set_path_frame(d19, spec_keys(seq!["ui", "remote_stats_interval"]), JsonModel::Number(JsonNumber::PosInt(spec_clamp(s.ui_remote_stats_interval as int, 1, 60) as u64)), spec_keys(seq!["terminal", "show_timestamps"]));
    assert("ui"@.len() != "terminal"@.len());
    assert(spec_keys(seq!["ui", "show_gpu_monitor"])[0] != spec_keys(seq!["terminal", "show_timestamps"])[0]);
    lemma_set_path_frame(d20, spec_keys(seq!["ui", "show_gpu_monitor"]), JsonModel::Bool(s.ui_show_gpu_monitor), spec_keys(seq!["terminal", "show_timestamps"]));
    assert("ui"@.len() != "terminal"@.len());
    assert(spec_keys(seq!["ui", "gpu_monitor_interval"])[0] != spec_keys(seq!["terminal", "show_timestamps"])[0]);
    lemma_set_path_frame(d21, spec_keys(seq!["ui", "gpu_monitor_interval"]), JsonModel::Number(JsonNumber::PosInt(spec_clamp(s.ui_gpu_monitor_interval as int, 3, 120) as u64)), spec_keys(seq!["terminal", "show_timestamps"]));
    assert("ui"@.len() != "terminal"@.len());
    assert(spec_keys(seq!["ui", "show_ascend_npu_monitor"])[0] != spec_keys(seq!["terminal", "show_timestamps"])[0]);
    lemma_set_path_frame(d22, spec_keys(seq!["ui", "show_ascend_npu_monitor"]), JsonModel::Bool(s.ui_show_ascend_npu_monitor), spec_keys(seq!["terminal", "show_timestamps"]));
    assert("ui"@.len() != "terminal"@.len());
    assert(spec_keys(seq!["ui", "ascend_npu_monitor_interval"])[0] != spec_keys(seq!["terminal", "show_timestamps"])[0]);
    lemma_set_path_frame(d23, spec_keys(seq!["ui", "ascend_npu_monitor_interval"]), JsonModel::Number(JsonNumber::PosInt(spec_clamp(s.ui_ascend_npu_monitor_interval as int, 3, 120) as u64)), spec_keys(seq!["terminal", "show_timestamps"]));
    assert("ui"@.len() != "terminal"@.len());
    assert(spec_keys(seq!["ui", "show_process_manager"])[0] != spec_keys(seq!["terminal", "show_timestamps"])[0]);
    lemma_set_path_frame(d24, spec_keys(seq!["ui", "show_process_manager"]), JsonModel::Bool(s.ui_show_process_manager), spec_keys(seq!["terminal", "show_timestamps"]));
    assert("ui"@.len() != "terminal"@.len());
    assert(spec_keys(seq!["ui", "process_manager_interval"])[0] != spec_keys(seq!["terminal", "show_timestamps"])[0]);
    lemma_set_path_frame(d25, spec_keys(seq!["ui", "process_manager_interval"]), JsonModel::Number(JsonNumber::PosInt(spec_clamp(s.ui_process_manager_interval as int, 3, 120) as u64)), spec_keys(seq!["terminal", "show_timestamps"]));
    assert("ui"@.len() != "terminal"@.len());
    assert(spec_keys(seq!["ui", "show_docker_manager"])[0] != spec_keys(seq!["terminal", "show_timestamps"])[0]);
    lemma_set_path_frame(d26, spec_keys(seq!["ui", "show_docker_manager"]), JsonModel::Bool(s.ui_show_docker_manager), spec_keys(seq!["terminal", "show_timestamps"]));
    assert("ui"@.len() != "terminal"@.len());
    assert(spec_keys(seq!["ui", "docker_manager_interval"])[0] != spec_keys(seq!["terminal", "show_timestamps"])[0]);
    lemma_set_path_frame(d27, spec_keys(seq!["ui", "docker_manager_interval"]), JsonModel::Number(JsonNumber::PosInt(spec_clamp(s.ui_docker_manager_interval as int, 3, 120) as u64)), spec_keys(seq!["terminal", "show_timestamps"]));
}

#[verifier::spinoff_prover]
proof fn lemma_saved_terminal_keeps_terminal_show_multi_line_paste_dialog(d: JsonModel, s: AppSettingsSummary)
    ensures
        spec_json_path(spec_saved_terminal(d, s), spec_keys(seq!["terminal", "show_multi_line_paste_dialog"])) == Some(JsonModel::Bool(s.terminal_show_multi_line_paste_dialog)),
{
    reveal_strlit("action_links_enabled");
    reveal_strlit("action_links_matchers");
    reveal_strlit("low_latency_mode");
    reveal_strlit("paste_image_as_path");
    reveal_strlit("reconnect_restore_cwd");
    reveal_strlit("search");
    reveal_strlit("show_multi_line_paste_dialog");
    reveal_strlit("terminal");
    reveal_strlit("ui");
    reveal_strlit("zebra_stripes_enabled");
    let d1 = spec_set_path(d, spec_keys(seq!["terminal", "x11_display"]), JsonModel::Str(s.x11_display@, None));
    let d2 = spec_set_path(d1, spec_keys(seq!["terminal", "scrollback_lines"]), JsonModel::Number(JsonNumber::PosInt(spec_clamp(s.terminal_scrollback_lines as int, 100, 100000) as u64)));
    let d3 = spec_set_path(d2, spec_keys(seq!["terminal", "keep_alive_mode"]), JsonModel::Str(spec_keep_alive_mode(s.terminal_keep_alive_mode@), None));
    let d4 = spec_set_path(d3, spec_keys(seq!["terminal", "keep_alive_interval"]), JsonModel::Number(JsonNumber::PosInt(spec_clamp(s.terminal_keep_alive_interval as int, 0, 600) as u64)));
    let d5 = spec_set_path(d4, spec_keys(seq!["terminal", "timestamp_format"]), JsonModel::Str(spec_timestamp_format(s.terminal_timestamp_format@), None));
    let d6 = spec_set_path(d5, spec_keys(seq!["terminal", "hardware_acceleration"]), JsonModel::Bool(s.terminal_hardware_acceleration));
    let d7 = spec_set_path(d6, spec_keys(seq!["terminal", "show_workspace_padding"]), JsonModel::Bool(s.terminal_show_workspace_padding));
    let d8 = spec_set_path(d7, spec_keys(seq!["terminal", "show_line_numbers"]), JsonModel::Bool(s.terminal_show_line_numbers));
    let d9 = spec_set_path(d8, spec_keys(seq!["terminal", "show_timestamps"]), JsonModel::Bool(s.terminal_show_timestamps));
    let d10 = spec_set_path(d9, spec_keys(seq!["terminal", "show_multi_line_paste_dialog"]), JsonModel::Bool(s.terminal_show_multi_line_paste_dialog));
    let d11 = spec_set_path(d10, spec_keys(seq!["terminal", "paste_image_as_path"]), JsonModel::Bool(s.terminal_paste_image_as_path));
    let d12 = spec_set_path(d11, spec_keys(seq!["terminal", "reconnect_restore_cwd"]), JsonModel::Bool(s.terminal_reconnect_restore_cwd));
    let d13 = spec_set_path(d12, spec_keys(seq!["terminal", "low_latency_mode"]), JsonModel::Bool(s.terminal_low_latency_mode));
    let d14 = spec_set_path(d13, spec_keys(seq!["terminal", "zebra_stripes_enabled"]), JsonModel::Bool(s.terminal_zebra_stripes_enabled));
    let d15 = spec_set_path(d14, spec_keys(seq!["terminal", "action_links_enabled"]), JsonModel::Bool(s.terminal_action_links_enabled));
    let d16 = spec_set_path(d15, spec_keys(seq!["terminal", "action_links_matchers"]), spec_matchers_value(s.terminal_action_links_matchers));
    let d17 = spec_set_path(d16, spec_keys(seq!["search", "custom_engines"]), spec_engines_value(engines_view(s.search_custom_engines@)));
    let d18 = spec_set_path(d17, spec_keys(seq!["ui", "show_notes_panel"]), JsonModel::Bool(s.ui_show_notes_panel));
    let d19 = spec_set_path(d18, spec_keys(seq!["ui", "show_remote_stats"]), JsonModel::Bool(s.ui_show_remote_stats));
    let d20 = spec_set_path(d19, spec_keys(seq!["ui", "remote_stats_interval"]), JsonModel::Number(JsonNumber::PosInt(spec_clamp(s.ui_remote_stats_interval as int, 1, 60) as u64)));
    let d21 = spec_set_path(d20, spec_keys(seq!["ui", "show_gpu_monitor"]), JsonModel::Bool(s.ui_show_gpu_monitor));
    let d22 = spec_set_path(d21, spec_keys(seq!["ui", "gpu_monitor_interval"]), JsonModel::Number(JsonNumber::PosInt(spec_clamp(s.ui_gpu_monitor_interval as int, 3, 120) as u64)));
    let d23 = spec_set_path(d22, spec_keys(seq!["ui", "show_ascend_npu_monitor"]), JsonModel::Bool(s.ui_show_ascend_npu_monitor));
    let d24 = spec_set_path(d23, spec_keys(seq!["ui", "ascend_npu_monitor_interval"]), JsonModel::Number(JsonNumber::PosInt(spec_clamp(s.ui_ascend_npu_monitor_interval as int, 3, 120) as u64)));
    let d25 = spec_set_path(d24, spec_keys(seq!["ui", "show_process_manager"]), JsonModel::Bool(s.ui_show_process_manager));
    let d26 = spec_set_path(d25, spec_keys(seq!["ui", "process_manager_interval"]), JsonModel::Number(JsonNumber::PosInt(spec_clamp(s.ui_process_manager_interval as int, 3, 120) as u64)));
    let d27 = spec_set_path(d26, spec_keys(seq!["ui", "show_docker_manager"]), JsonModel::Bool(s.ui_show_docker_manager));
    let d28 = spec_set_path(d27, spec_keys(seq!["ui", "docker_manager_interval"]), JsonModel::Number(JsonNumber::PosInt(spec_clamp(s.ui_docker_manager_interval as int, 3, 120) as u64)));
    assert(spec_saved_terminal_part1(d, s) == d8);
    assert(spec_saved_terminal_part2(d8, s) == d16);
    assert(spec_saved_terminal_part3(d16, s) == d24);
    assert(spec_saved_terminal_part4(d24, s) == d28);
    assert(spec_saved_terminal(d, s) == d28);
    lemma_set_path_then_read(d9, spec_keys(seq!["terminal", "show_multi_line_paste_dialog"]), JsonModel::Bool(s.terminal_show_multi_line_paste_dialog));
    assert("paste_image_as_path"@.len() != "show_multi_line_paste_dialog"@.len());
    assert(spec_keys(seq!["terminal", "paste_image_as_path"])[1] != spec_keys(seq!["terminal", "show_multi_line_paste_dialog"])[1]);
    lemma_set_path_frame(d10, spec_keys(seq!["terminal", "paste_image_as_path"]), JsonModel::Bool(s.terminal_paste_image_as_path), spec_keys(seq!["terminal", "show_multi_line_paste_dialog"]));
    assert("reconnect_restore_cwd"@.len() != "show_multi_line_paste_dialog"@.len());
    assert(spec_keys(seq!["terminal", "reconnect_restore_cwd"])[1] != spec_keys(seq!["terminal", "show_multi_line_paste_dialog"])[1]);
    lemma_set_path_frame(d11, spec_keys(seq!["terminal", "reconnect_restore_cwd"]), JsonModel::Bool(s.terminal_reconnect_restore_cwd), spec_keys(seq!["terminal", "show_multi_line_paste_dialog"]));
    assert("low_latency_mode"@.len() != "show_multi_line_paste_dialog"@.len());
    assert(spec_keys(seq!["terminal", "low_latency_mode"])[1] != spec_keys(seq!["terminal", "show_multi_line_paste_dialog"])[1]);
    lemma_set_path_frame(d12, spec_keys(seq!["terminal", "low_latency_mode"]), JsonModel::Bool(s.terminal_low_latency_mode), spec_keys(seq!["terminal", "show_multi_line_paste_dialog"]));
    assert("zebra_stripes_enabled"@.len() != "show_multi_line_paste_dialog"@.len());
    assert(spec_keys(seq!["terminal", "zebra_stripes_enabled"])[1] != spec_keys(seq!["terminal", "show_multi_line_paste_dialog"])[1]);
    lemma_set_path_frame(d13, spec_keys(seq!["terminal", "zebra_stripes_enabled"]), JsonModel::Bool(s.terminal_zebra_stripes_enabled), spec_keys(seq!["terminal", "show_multi_line_paste_dialog"]));
    assert("action_links_enabled"@.len() != "show_multi_line_paste_dialog"@.len());
    assert(spec_keys(seq!["terminal", "action_links_enabled"])[1] != spec_keys(seq!["terminal", "show_multi_line_paste_dialog"])[1]);
    lemma_set_path_frame(d14, spec_keys(seq!["terminal", "action_links_enabled"]), JsonModel::Bool(s.terminal_action_links_enabled), spec_keys(seq!["terminal", "show_multi_line_paste_dialog"]));
    assert("action_links_matchers"@.len() != "show_multi_line_paste_dialog"@.len());
    assert(spec_keys(seq!["terminal", "action_links_matchers"])[1] != spec_keys(seq!["terminal", "show_multi_line_paste_dialog"])[1]);
    lemma_set_path_frame(d15, spec_keys(seq!["terminal", "action_links_matchers"]), spec_matchers_value(s.terminal_action_links_matchers), spec_keys(seq!["terminal", "show_multi_line_paste_dialog"]));
    assert("search"@.len() != "terminal"@.len());
    assert(spec_keys(seq!["search", "custom_engines"])[0] != spec_keys(seq!["terminal", "show_multi_line_paste_dialog"])[0]);
    lemma_set_path_frame(d16, spec_keys(seq!["search", "custom_engines"]), spec_engines_value(engines_view(s.search_custom_engines@)), spec_keys(seq!["terminal", "show_multi_line_paste_dialog"]));
    assert("ui"@.len() != "terminal"@.len());
    assert(spec_keys(seq!["ui", "show_notes_panel"])[0] != spec_keys(seq!["terminal", "show_multi_line_paste_dialog"])[0]);
    lemma_set_path_frame(d17, spec_keys(seq!["ui", "show_notes_panel"]), JsonModel::Bool(s.ui_show_notes_panel), spec_keys(seq!["terminal", "show_multi_line_paste_dialog"]));
    assert("ui"@.len() != "terminal"@.len());
    assert(spec_keys(seq!["ui", "show_remote_stats"])[0] != spec_keys(seq!["terminal", "show_multi_line_paste_dialog"])[0]);
    lemma_set_path_frame(d18, spec_keys(seq!["ui", "show_remote_stats"]), JsonModel::Bool(s.ui_show_remote_stats), spec_keys(seq!["terminal", "show_multi_line_paste_dialog"]));
    assert("ui"@.len() != "terminal"@.len());
    assert(spec_keys(seq!["ui", "remote_stats_interval"])[0] != spec_keys(seq!["terminal", "show_multi_line_paste_dialog"])[0]);
    lemma_set_path_frame(d19, spec_keys(seq!["ui", "remote_stats_interval"]), JsonModel::Number(JsonNumber::PosInt(spec_clamp(s.ui_remote_stats_interval as int, 1, 60) as u64)), spec_keys(seq!["terminal", "show_multi_line_paste_dialog"]));
    assert("ui"@.len() != "terminal"@.len());
    assert(spec_keys(seq!["ui", "show_gpu_monitor"])[0] != spec_keys(seq!["terminal", "show_multi_line_paste_dialog"])[0]);
    lemma_set_path_frame(d20, spec_keys(seq!["ui", "show_gpu_monitor"]), JsonModel::Bool(s.ui_show_gpu_monitor), spec_keys(seq!["terminal", "show_multi_line_paste_dialog"]));
    assert("ui"@.len() != "terminal"@.len());
    assert(spec_keys(seq!["ui", "gpu_monitor_interval"])[0] != spec_keys(seq!["terminal", "show_multi_line_paste_dialog"])[0]);
    lemma_set_path_frame(d21, spec_keys(seq!["ui", "gpu_monitor_interval"]), JsonModel::Number(JsonNumber::PosInt(spec_clamp(s.ui_gpu_monitor_interval as int, 3, 120) as u64)), spec_keys(seq!["terminal", "show_multi_line_paste_dialog"]));
    assert("ui"@.len() != "terminal"@.len());
    assert(spec_keys(seq!["ui", "show_ascend_npu_monitor"])[0] != spec_keys(seq!["terminal", "show_multi_line_paste_dialog"])[0]);
    lemma_set_path_frame(d22, spec_keys(seq!["ui", "show_ascend_npu_monitor"]), JsonModel::Bool(s.ui_show_ascend_npu_monitor), spec_keys(seq!["terminal", "show_multi_line_paste_dialog"]));
    assert("ui"@.len() != "terminal"@.len());
    assert(spec_keys(seq!["ui", "ascend_npu_monitor_interval"])[0] != spec_keys(seq!["terminal", "show_multi_line_paste_dialog"])[0]);
    lemma_set_path_frame(d23, spec_keys(seq!["ui", "ascend_npu_monitor_interval"]), JsonModel::Number(JsonNumber::PosInt(spec_clamp(s.ui_ascend_npu_monitor_interval as int, 3, 120) as u64)), spec_keys(seq!["terminal", "show_multi_line_paste_dialog"]));
    assert("ui"@.len() != "terminal"@.len());
    assert(spec_keys(seq!["ui", "show_process_manager"])[0] != spec_keys(seq!["terminal", "show_multi_line_paste_dialog"])[0]);
    lemma_set_path_frame(d24, spec_keys(seq!["ui", "show_process_manager"]), JsonModel::Bool(s.ui_show_process_manager), spec_keys(seq!["terminal", "show_multi_line_paste_dialog"]));
    assert("ui"@.len() != "terminal"@.len());
    assert(spec_keys(seq!["ui", "process_manager_interval"])[0] != spec_keys(seq!["terminal", "show_multi_line_paste_dialog"])[0]);
    lemma_set_path_frame(d25, spec_keys(seq!["ui", "process_manager_interval"]), JsonModel::Number(JsonNumber::PosInt(spec_clamp(s.ui_process_manager_interval as int, 3, 120) as u64)), spec_keys(seq!["terminal", "show_multi_line_paste_dialog"]));
    assert("ui"@.len() != "terminal"@.len());
    assert(spec_keys(seq!["ui", "show_docker_manager"])[0] != spec_keys(seq!["terminal", "show_multi_line_paste_dialog"])[0]);
    lemma_set_path_frame(d26, spec_keys(seq!["ui", "show_docker_manager"]), JsonModel::Bool(s.ui_show_docker_manager), spec_keys(seq!["terminal", "show_multi_line_paste_dialog"]));
    assert("ui"@.len() != "terminal"@.len());
    assert(spec_keys(seq!["ui", "docker_manager_interval"])[0] != spec_keys(seq!["terminal", "show_multi_line_paste_dialog"])[0]);
    lemma_set_path_frame(d27, spec_keys(seq!["ui", "docker_manager_interval"]), JsonModel::Number(JsonNumber::PosInt(spec_clamp(s.ui_docker_manager_interval as int, 3, 120) as u64)), spec_keys(seq!["terminal", "show_multi_line_paste_dialog"]));
}

#[verifier::spinoff_prover]
proof fn lemma_saved_terminal_keeps_terminal_paste_image_as_path(d: JsonModel, s: AppSettingsSummary)
    ensures
        spec_json_path(spec_saved_terminal(d, s), spec_keys(seq!["terminal", "paste_image_as_path"])) == Some(JsonModel::Bool(s.terminal_paste_image_as_path)),
{
    reveal_strlit("action_links_enabled");
    reveal_strlit("action_links_matchers");
    reveal_strlit("low_latency_mode");
    reveal_strlit("paste_image_as_path");
    reveal_strlit("reconnect_restore_cwd");
    reveal_strlit("search");
    reveal_strlit("terminal");
    reveal_strlit("ui");
    reveal_strlit("zebra_stripes_enabled");
    let d1 = spec_set_path(d, spec_keys(seq!["terminal", "x11_display"]), JsonModel::Str(s.x11_display@, None));
    let d2 = spec_set_path(d1, spec_keys(seq!["terminal", "scrollback_lines"]), JsonModel::Number(JsonNumber::PosInt(spec_clamp(s.terminal_scrollback_lines as int, 100, 100000) as u64)));
    let d3 = spec_set_path(d2, spec_keys(seq!["terminal", "keep_alive_mode"]), JsonModel::Str(spec_keep_alive_mode(s.terminal_keep_alive_mode@), None));
    let d4 = spec_set_path(d3, spec_keys(seq!["terminal", "keep_alive_interval"]), JsonModel::Number(JsonNumber::PosInt(spec_clamp(s.terminal_keep_alive_interval as int, 0, 600) as u64)));
    let d5 = spec_set_path(d4, spec_keys(seq!["terminal", "timestamp_format"]), JsonModel::Str(spec_timestamp_format(s.terminal_timestamp_format@), None));
    let d6 = spec_set_path(d5, spec_keys(seq!["terminal", "hardware_acceleration"]), JsonModel::Bool(s.terminal_hardware_acceleration));
    let d7 = spec_set_path(d6, spec_keys(seq!["terminal", "show_workspace_padding"]), JsonModel::Bool(s.terminal_show_workspace_padding));
    let d8 = spec_set_path(d7, spec_keys(seq!["terminal", "show_line_numbers"]), JsonModel::Bool(s.terminal_show_line_numbers));
    let d9 = spec_set_path(d8, spec_keys(seq!["terminal", "show_timestamps"]), JsonModel::Bool(s.terminal_show_timestamps));
    let d10 = spec_set_path(d9, spec_keys(seq!["terminal", "show_multi_line_paste_dialog"]), JsonModel::Bool(s.terminal_show_multi_line_paste_dialog));
    let d11 = spec_set_path(d10, spec_keys(seq!["terminal", "paste_image_as_path"]), JsonModel::Bool(s.terminal_paste_image_as_path));
    let d12 = spec_set_path(d11, spec_keys(seq!["terminal", "reconnect_restore_cwd"]), JsonModel::Bool(s.terminal_reconnect_restore_cwd));
    let d13 = spec_set_path(d12, spec_keys(seq!["terminal", "low_latency_mode"]), JsonModel::Bool(s.terminal_low_latency_mode));
    let d14 = spec_set_path(d13, spec_keys(seq!["terminal", "zebra_stripes_enabled"]), JsonModel::Bool(s.terminal_zebra_stripes_enabled));
    let d15 = spec_set_path(d14, spec_keys(seq!["terminal", "action_links_enabled"]), JsonModel::Bool(s.terminal_action_links_enabled));
    let d16 = spec_set_path(d15, spec_keys(seq!["terminal", "action_links_matchers"]), spec_matchers_value(s.terminal_action_links_matchers));
    let d17 = spec_set_path(d16, spec_keys(seq!["search", "custom_engines"]), spec_engines_value(engines_view(s.search_custom_engines@)));
    let d18 = spec_set_path(d17, spec_keys(seq!["ui", "show_notes_panel"]), JsonModel::Bool(s.ui_show_notes_panel));
    let d19 = spec_set_path(d18, spec_keys(seq!["ui", "show_remote_stats"]), JsonModel::Bool(s.ui_show_remote_stats));
    let d20 = spec_set_path(d19, spec_keys(seq!["ui", "remote_stats_interval"]), JsonModel::Number(JsonNumber::PosInt(spec_clamp(s.ui_remote_stats_interval as int, 1, 60) as u64)));
    let d21 = spec_set_path(d20, spec_keys(seq!["ui", "show_gpu_monitor"]), JsonModel::Bool(s.ui_show_gpu_monitor));
    let d22 = spec_set_path(d21, spec_keys(seq!["ui", "gpu_monitor_interval"]), JsonModel::Number(JsonNumber::PosInt(spec_clamp(s.ui_gpu_monitor_interval as int, 3, 120) as u64)));
    let d23 = spec_set_path(d22, spec_keys(seq!["ui", "show_ascend_npu_monitor"]), JsonModel::Bool(s.ui_show_ascend_npu_monitor));
    let d24 = spec_set_path(d23, spec_keys(seq!["ui", "ascend_npu_monitor_interval"]), JsonModel::Number(JsonNumber::PosInt(spec_clamp(s.ui_ascend_npu_monitor_interval as int, 3, 120) as u64)));
    let d25 = spec_set_path(d24, spec_keys(seq!["ui", "show_process_manager"]), JsonModel::Bool(s.ui_show_process_manager));
    let d26 = spec_set_path(d25, spec_keys(seq!["ui", "process_manager_interval"]), JsonModel::Number(JsonNumber::PosInt(spec_clamp(s.ui_process_manager_interval as int, 3, 120) as u64)));
    let d27 = spec_set_path(d26, spec_keys(seq!["ui", "show_docker_manager"]), JsonModel::Bool(s.ui_show_docker_manager));
    let d28 = spec_set_path(d27, spec_keys(seq!["ui", "docker_manager_interval"]), JsonModel::Number(JsonNumber::PosInt(spec_clamp(s.ui_docker_manager_interval as int, 3, 120) as u64)));
    assert(spec_saved_terminal_part1(d, s) == d8);
    assert(spec_saved_terminal_part2(d8, s) == d16);
    assert(spec_saved_terminal_part3(d16, s) == d24);
    assert(spec_saved_terminal_part4(d24, s) == d28);
    assert(spec_saved_terminal(d, s) == d28);
    lemma_set_path_then_read(d10, spec_keys(seq!["terminal", "paste_image_as_path"]), JsonModel::Bool(s.terminal_paste_image_as_path));
    assert("reconnect_restore_cwd"@.len() != "paste_image_as_path"@.len());
    assert(spec_keys(seq!["terminal", "reconnect_restore_cwd"])[1] != spec_keys(seq!["terminal", "paste_image_as_path"])[1]);
    lemma_set_path_frame(d11, spec_keys(seq!["terminal", "reconnect_restore_cwd"]), JsonModel::Bool(s.terminal_reconnect_restore_cwd), spec_keys(seq!["terminal", "paste_image_as_path"]));
    assert("low_latency_mode"@.len() != "paste_image_as_path"@.len());
    assert(spec_keys(seq!["terminal", "low_latency_mode"])[1] != spec_keys(seq!["terminal", "paste_image_as_path"])[1]);
    lemma_set_path_frame(d12, spec_keys(seq!["terminal", "low_latency_mode"]), JsonModel::Bool(s.terminal_low_latency_mode), spec_keys(seq!["terminal", "paste_image_as_path"]));
    assert("zebra_stripes_enabled"@.len() != "paste_image_as_path"@.len());
    assert(spec_keys(seq!["terminal", "zebra_stripes_enabled"])[1] != spec_keys(seq!["terminal", "paste_image_as_path"])[1]);
    lemma_set_path_frame(d13, spec_keys(seq!["terminal", "zebra_stripes_enabled"]), JsonModel::Bool(s.terminal_zebra_stripes_enabled), spec_keys(seq!["terminal", "paste_image_as_path"]));
    assert("action_links_enabled"@.len() != "paste_image_as_path"@.len());
    assert(spec_keys(seq!["terminal", "action_links_enabled"])[1] != spec_keys(seq!["terminal", "paste_image_as_path"])[1]);
    lemma_set_path_frame(d14, spec_keys(seq!["terminal", "action_links_enabled"]), JsonModel::Bool(s.terminal_action_links_enabled), spec_keys(seq!["terminal", "paste_image_as_path"]));
    assert("action_links_matchers"@.len() != "paste_image_as_path"@.len());
    assert(spec_keys(seq!["terminal", "action_links_matchers"])[1] != spec_keys(seq!["terminal", "paste_image_as_path"])[1]);
    lemma_set_path_frame(d15, spec_keys(seq!["terminal", "action_links_matchers"]), spec_matchers_value(s.terminal_action_links_matchers), spec_keys(seq!["terminal", "paste_image_as_path"]));
    assert("search"@.len() != "terminal"@.len());
    assert(spec_keys(seq!["search", "custom_engines"])[0] != spec_keys(seq!["terminal", "paste_image_as_path"])[0]);
    lemma_set_path_frame(d16, spec_keys(seq!["search", "custom_engines"]), spec_engines_value(engines_view(s.search_custom_engines@)), spec_keys(seq!["terminal", "paste_image_as_path"]));
    assert("ui"@.len() != "terminal"@.len());
    assert(spec_keys(seq!["ui", "show_notes_panel"])[0] != spec_keys(seq!["terminal", "paste_image_as_path"])[0]);
    lemma_set_path_frame(d17, spec_keys(seq!["ui", "show_notes_panel"]), JsonModel::Bool(s.ui_show_notes_panel), spec_keys(seq!["terminal", "paste_image_as_path"]));
    assert("ui"@.len() != "terminal"@.len());
    assert(spec_keys(seq!["ui", "show_remote_stats"])[0] != spec_keys(seq!["terminal", "paste_image_as_path"])[0]);
    lemma_set_path_frame(d18, spec_keys(seq!["ui", "show_remote_stats"]), JsonModel::Bool(s.ui_show_remote_stats), spec_keys(seq!["terminal", "paste_image_as_path"]));
    assert("ui"@.len() != "terminal"@.len());
    assert(spec_keys(seq!["ui", "remote_stats_interval"])[0] != spec_keys(seq!["terminal", "paste_image_as_path"])[0]);
    lemma_set_path_frame(d19, spec_keys(seq!["ui", "remote_stats_interval"]), JsonModel::Number(JsonNumber::PosInt(spec_clamp(s.ui_remote_stats_interval as int, 1, 60) as u64)), spec_keys(seq!["terminal", "paste_image_as_path"]));
    assert("ui"@.len() != "terminal"@.len());
    assert(spec_keys(seq!["ui", "show_gpu_monitor"])[0] != spec_keys(seq!["terminal", "paste_image_as_path"])[0]);
    lemma_set_path_frame(d20, spec_keys(seq!["ui", "show_gpu_monitor"]), JsonModel::Bool(s.ui_show_gpu_monitor), spec_keys(seq!["terminal", "paste_image_as_path"]));
    assert("ui"@.len() != "terminal"@.len());
    assert(spec_keys(seq!["ui", "gpu_monitor_interval"])[0] != spec_keys(seq!["terminal", "paste_image_as_path"])[0]);
    lemma_set_path_frame(d21, spec_keys(seq!["ui", "gpu_monitor_interval"]), JsonModel::Number(JsonNumber::PosInt(spec_clamp(s.ui_gpu_monitor_interval as int, 3, 120) as u64)), spec_keys(seq!["terminal", "paste_image_as_path"]));
    assert("ui"@.len() != "terminal"@.len());
    assert(spec_keys(seq!["ui", "show_ascend_npu_monitor"])[0] != spec_keys(seq!["terminal", "paste_image_as_path"])[0]);
    lemma_set_path_frame(d22, spec_keys(seq!["ui", "show_ascend_npu_monitor"]), JsonModel::Bool(s.ui_show_ascend_npu_monitor), spec_keys(seq!["terminal", "paste_image_as_path"]));
    assert("ui"@.len() != "terminal"@.len());
    assert(spec_keys(seq!["ui", "ascend_npu_monitor_interval"])[0] != spec_keys(seq!["terminal", "paste_image_as_path"])[0]);
    lemma_set_path_frame(d23, spec_keys(seq!["ui", "ascend_npu_monitor_interval"]), JsonModel::Number(JsonNumber::PosInt(spec_clamp(s.ui_ascend_npu_monitor_interval as int, 3, 120) as u64)), spec_keys(seq!["terminal", "paste_image_as_path"]));
    assert("ui"@.len() != "terminal"@.len());
    assert(spec_keys(seq!["ui", "show_process_manager"])[0] != spec_keys(seq!["terminal", "paste_image_as_path"])[0]);
    lemma_set_path_frame(d24, spec_keys(seq!["ui", "show_process_manager"]), JsonModel::Bool(s.ui_show_process_manager), spec_keys(seq!["terminal", "paste_image_as_path"]));
    assert("ui"@.len() != "terminal"@.len());
    assert(spec_keys(seq!["ui", "process_manager_interval"])[0] != spec_keys(seq!["terminal", "paste_image_as_path"])[0]);
    lemma_set_path_frame(d25, spec_keys(seq!["ui", "process_manager_interval"]), JsonModel::Number(JsonNumber::PosInt(spec_clamp(s.ui_process_manager_interval as int, 3, 120) as u64)), spec_keys(seq!["terminal", "paste_image_as_path"]));
    assert("ui"@.len() != "terminal"@.len());
    assert(spec_keys(seq!["ui", "show_docker_manager"])[0] != spec_keys(seq!["terminal", "paste_image_as_path"])[0]);
    lemma_set_path_frame(d26, spec_keys(seq!["ui", "show_docker_manager"]), JsonModel::Bool(s.ui_show_docker_manager), spec_keys(seq!["terminal", "paste_image_as_path"]));
    assert("ui"@.len() != "terminal"@.len());
    assert(spec_keys(seq!["ui", "docker_manager_interval"])[0] != spec_keys(seq!["terminal", "paste_image_as_path"])[0]);
    lemma_set_path_frame(d27, spec_keys(seq!["ui", "docker_manager_interval"]), JsonModel::Number(JsonNumber::PosInt(spec_clamp(s.ui_docker_manager_interval as int, 3, 120) as u64)), spec_keys(seq!["terminal", "paste_image_as_path"]));
}

#[verifier::spinoff_prover]
proof fn lemma_saved_terminal_keeps_terminal_reconnect_restore_cwd(d: JsonModel, s: AppSettingsSummary)
    ensures
        spec_json_path(spec_saved_terminal(d, s), spec_keys(seq!["terminal", "reconnect_restore_cwd"])) == Some(JsonModel::Bool(s.terminal_reconnect_restore_cwd)),
{
    reveal_strlit("action_links_enabled");
    reveal_strlit("action_links_matchers");
    reveal_strlit("low_latency_mode");
    reveal_strlit("reconnect_restore_cwd");
    reveal_strlit("search");
    reveal_strlit("terminal");
    reveal_strlit("ui");
    reveal_strlit("zebra_stripes_enabled");
    let d1 = spec_set_path(d, spec_keys(seq!["terminal", "x11_display"]), JsonModel::Str(s.x11_display@, None));
    let d2 = spec_set_path(d1, spec_keys(seq!["terminal", "scrollback_lines"]), JsonModel::Number(JsonNumber::PosInt(spec_clamp(s.terminal_scrollback_lines as int, 100, 100000) as u64)));
    let d3 = spec_set_path(d2, spec_keys(seq!["terminal", "keep_alive_mode"]), JsonModel::Str(spec_keep_alive_mode(s.terminal_keep_alive_mode@), None));
    let d4 = spec_set_path(d3, spec_keys(seq!["terminal", "keep_alive_interval"]), JsonModel::Number(JsonNumber::PosInt(spec_clamp(s.terminal_keep_alive_interval as int, 0, 600) as u64)));
    let d5 = spec_set_path(d4, spec_keys(seq!["terminal", "timestamp_format"]), JsonModel::Str(spec_timestamp_format(s.terminal_timestamp_format@), None));
    let d6 = spec_set_path(d5, spec_keys(seq!["terminal", "hardware_acceleration"]), JsonModel::Bool(s.terminal_hardware_acceleration));
    let d7 = spec_set_path(d6, spec_keys(seq!["terminal", "show_workspace_padding"]), JsonModel::Bool(s.terminal_show_workspace_padding));
    let d8 = spec_set_path(d7, spec_keys(seq!["terminal", "show_line_numbers"]), JsonModel::Bool(s.terminal_show_line_numbers));
    let d9 = spec_set_path(d8, spec_keys(seq!["terminal", "show_timestamps"]), JsonModel::Bool(s.terminal_show_timestamps));
    let d10 = spec_set_path(d9, spec_keys(seq!["terminal", "show_multi_line_paste_dialog"]), JsonModel::Bool(s.terminal_show_multi_line_paste_dialog));
    let d11 = spec_set_path(d10, spec_keys(seq!["terminal", "paste_image_as_path"]), JsonModel::Bool(s.terminal_paste_image_as_path));
    let d12 = spec_set_path(d11, spec_keys(seq!["terminal", "reconnect_restore_cwd"]), JsonModel::Bool(s.terminal_reconnect_restore_cwd));
    let d13 = spec_set_path(d12, spec_keys(seq!["terminal", "low_latency_mode"]), JsonModel::Bool(s.terminal_low_latency_mode));
    let d14 = spec_set_path(d13, spec_keys(seq!["terminal", "zebra_stripes_enabled"]), JsonModel::Bool(s.terminal_zebra_stripes_enabled));
    let d15 = spec_set_path(d14, spec_keys(seq!["terminal", "action_links_enabled"]), JsonModel::Bool(s.terminal_action_links_enabled));
    let d16 = spec_set_path(d15, spec_keys(seq!["terminal", "action_links_matchers"]), spec_matchers_value(s.terminal_action_links_matchers));
    let d17 = spec_set_path(d16, spec_keys(seq!["search", "custom_engines"]), spec_engines_value(engines_view(s.search_custom_engines@)));
    let d18 = spec_set_path(d17, spec_keys(seq!["ui", "show_notes_panel"]), JsonModel::Bool(s.ui_show_notes_panel));
    let d19 = spec_set_path(d18, spec_keys(seq!["ui", "show_remote_stats"]), JsonModel::Bool(s.ui_show_remote_stats));
    let d20 = spec_set_path(d19, spec_keys(seq!["ui", "remote_stats_interval"]), JsonModel::Number(JsonNumber::PosInt(spec_clamp(s.ui_remote_stats_interval as int, 1, 60) as u64)));
    let d21 = spec_set_path(d20, spec_keys(seq!["ui", "show_gpu_monitor"]), JsonModel::Bool(s.ui_show_gpu_monitor));
    let d22 = spec_set_path(d21, spec_keys(seq!["ui", "gpu_monitor_interval"]), JsonModel::Number(JsonNumber::PosInt(spec_clamp(s.ui_gpu_monitor_interval as int, 3, 120) as u64)));
    let d23 = spec_set_path(d22, spec_keys(seq!["ui", "show_ascend_npu_monitor"]), JsonModel::Bool(s.ui_show_ascend_npu_monitor));
    let d24 = spec_set_path(d23, spec_keys(seq!["ui", "ascend_npu_monitor_interval"]), JsonModel::Number(JsonNumber::PosInt(spec_clamp(s.ui_ascend_npu_monitor_interval as int, 3, 120) as u64)));
    let d25 = spec_set_path(d24, spec_keys(seq!["ui", "show_process_manager"]), JsonModel::Bool(s.ui_show_process_manager));
    let d26 = spec_set_path(d25, spec_keys(seq!["ui", "process_manager_interval"]), JsonModel::Number(JsonNumber::PosInt(spec_clamp(s.ui_process_manager_interval as int, 3, 120) as u64)));
    let d27 = spec_set_path(d26, spec_keys(seq!["ui", "show_docker_manager"]), JsonModel::Bool(s.ui_show_docker_manager));
    let d28 = spec_set_path(d27, spec_keys(seq!["ui", "docker_manager_interval"]), JsonModel::Number(JsonNumber::PosInt(spec_clamp(s.ui_docker_manager_interval as int, 3, 120) as u64)));
    assert(spec_saved_terminal_part1(d, s) == d8);
    assert(spec_saved_terminal_part2(d8, s) == d16);
    assert(spec_saved_terminal_part3(d16, s) == d24);
    assert(spec_saved_terminal_part4(d24, s) == d28);
    assert(spec_saved_terminal(d, s) == d28);
    lemma_set_path_then_read(d11, spec_keys(seq!["terminal", "reconnect_restore_cwd"]), JsonModel::Bool(s.terminal_reconnect_restore_cwd));
    assert("low_latency_mode"@.len() != "reconnect_restore_cwd"@.len());
    assert(spec_keys(seq!["terminal", "low_latency_mode"])[1] != spec_keys(seq!["terminal", "reconnect_restore_cwd"])[1]);
    lemma_set_path_frame(d12, spec_keys(seq!["terminal", "low_latency_mode"]), JsonModel::Bool(s.terminal_low_latency_mode), spec_keys(seq!["terminal", "reconnect_restore_cwd"]));
    assert("zebra_stripes_enabled"@[0] != "reconnect_restore_cwd"@[0]);
    assert(spec_keys(seq!["terminal", "zebra_stripes_enabled"])[1] != spec_keys(seq!["terminal", "reconnect_restore_cwd"])[1]);
    lemma_set_path_frame(d13, spec_keys(seq!["terminal", "zebra_stripes_enabled"]), JsonModel::Bool(s.terminal_zebra_stripes_enabled), spec_keys(seq!["terminal", "reconnect_restore_cwd"]));
    assert("action_links_enabled"@.len() != "reconnect_restore_cwd"@.len());
    assert(spec_keys(seq!["terminal", "action_links_enabled"])[1] != spec_keys(seq!["terminal", "reconnect_restore_cwd"])[1]);
    lemma_set_path_frame(d14, spec_keys(seq!["terminal", "action_links_enabled"]), JsonModel::Bool(s.terminal_action_links_enabled), spec_keys(seq!["terminal", "reconnect_restore_cwd"]));
    assert("action_links_matchers"@[0] != "reconnect_restore_cwd"@[0]);
    assert(spec_keys(seq!["terminal", "action_links_matchers"])[1] != spec_keys(seq!["terminal", "reconnect_restore_cwd"])[1]);
    lemma_set_path_frame(d15, spec_keys(seq!["terminal", "action_links_matchers"]), spec_matchers_value(s.terminal_action_links_matchers), spec_keys(seq!["terminal", "reconnect_restore_cwd"]));
    assert("search"@.len() != "terminal"@.len());
    assert(spec_keys(seq!["search", "custom_engines"])[0] != spec_keys(seq!["terminal", "reconnect_restore_cwd"])[0]);
    lemma_set_path_frame(d16, spec_keys(seq!["search", "custom_engines"]), spec_engines_value(engines_view(s.search_custom_engines@)), spec_keys(seq!["terminal", "reconnect_restore_cwd"]));
    assert("ui"@.len() != "terminal"@.len());
    assert(spec_keys(seq!["ui", "show_notes_panel"])[0] != spec_keys(seq!["terminal", "reconnect_restore_cwd"])[0]);
    lemma_set_path_frame(d17, spec_keys(seq!["ui", "show_notes_panel"]), JsonModel::Bool(s.ui_show_notes_panel), spec_keys(seq!["terminal", "reconnect_restore_cwd"]));
    assert("ui"@.len() != "terminal"@.len());
    assert(spec_keys(seq!["ui", "show_remote_stats"])[0] != spec_keys(seq!["terminal", "reconnect_restore_cwd"])[0]);
    lemma_set_path_frame(d18, spec_keys(seq!["ui", "show_remote_stats"]), JsonModel::Bool(s.ui_show_remote_stats), spec_keys(seq!["terminal", "reconnect_restore_cwd"]));
    assert("ui"@.len() != "terminal"@.len());
    assert(spec_keys(seq!["ui", "remote_stats_interval"])[0] != spec_keys(seq!["terminal", "reconnect_restore_cwd"])[0]);
    lemma_set_path_frame(d19, spec_keys(seq!["ui", "remote_stats_interval"]), JsonModel::Number(JsonNumber::PosInt(spec_clamp(s.ui_remote_stats_interval as int, 1, 60) as u64)), spec_keys(seq!["terminal", "reconnect_restore_cwd"]));
    assert("ui"@.len() != "terminal"@.len());
    assert(spec_keys(seq!["ui", "show_gpu_monitor"])[0] != spec_keys(seq!["terminal", "reconnect_restore_cwd"])[0]);
    lemma_set_path_frame(d20, spec_keys(seq!["ui", "show_gpu_monitor"]), JsonModel::Bool(s.ui_show_gpu_monitor), spec_keys(seq!["terminal", "reconnect_restore_cwd"]));
    assert("ui"@.len() != "terminal"@.len());
    assert(spec_keys(seq!["ui", "gpu_monitor_interval"])[0] != spec_keys(seq!["terminal", "reconnect_restore_cwd"])[0]);
    lemma_set_path_frame(d21, spec_keys(seq!["ui", "gpu_monitor_interval"]), JsonModel::Number(JsonNumber::PosInt(spec_clamp(s.ui_gpu_monitor_interval as int, 3, 120) as u64)), spec_keys(seq!["terminal", "reconnect_restore_cwd"]));
    assert("ui"@.len() != "terminal"@.len());
    assert(spec_keys(seq!["ui", "show_ascend_npu_monitor"])[0] != spec_keys(seq!["terminal", "reconnect_restore_cwd"])[0]);
    lemma_set_path_frame(d22, spec_keys(seq!["ui", "show_ascend_npu_monitor"]), JsonModel::Bool(s.ui_show_ascend_npu_monitor), spec_keys(seq!["terminal", "reconnect_restore_cwd"]));
    assert("ui"@.len() != "terminal"@.len());
    assert(spec_keys(seq!["ui", "ascend_npu_monitor_interval"])[0] != spec_keys(seq!["terminal", "reconnect_restore_cwd"])[0]);
    lemma_set_path_frame(d23, spec_keys(seq!["ui", "ascend_npu_monitor_interval"]), JsonModel::Number(JsonNumber::PosInt(spec_clamp(s.ui_ascend_npu_monitor_interval as int, 3, 120) as u64)), spec_keys(seq!["terminal", "reconnect_restore_cwd"]));
    assert("ui"@.len() != "terminal"@.len());
    assert(spec_keys(seq!["ui", "show_process_manager"])[0] != spec_keys(seq!["terminal", "reconnect_restore_cwd"])[0]);
    lemma_set_path_frame(d24, spec_keys(seq!["ui", "show_process_manager"]), JsonModel::Bool(s.ui_show_process_manager), spec_keys(seq!["terminal", "reconnect_restore_cwd"]));
    assert("ui"@.len() != "terminal"@.len());
    assert(spec_keys(seq!["ui", "process_manager_interval"])[0] != spec_keys(seq!["terminal", "reconnect_restore_cwd"])[0]);
    lemma_set_path_frame(d25, spec_keys(seq!["ui", "process_manager_interval"]), JsonModel::Number(JsonNumber::PosInt(spec_clamp(s.ui_process_manager_interval as int, 3, 120) as u64)), spec_keys(seq!["terminal", "reconnect_restore_cwd"]));
    assert("ui"@.len() != "terminal"@.len());
    assert(spec_keys(seq!["ui", "show_docker_manager"])[0] != spec_keys(seq!["terminal", "reconnect_restore_cwd"])[0]);
    lemma_set_path_frame(d26, spec_keys(seq!["ui", "show_docker_manager"]), JsonModel::Bool(s.ui_show_docker_manager), spec_keys(seq!["terminal", "reconnect_restore_cwd"]));
    assert("ui"@.len() != "terminal"@.len());
    assert(spec_keys(seq!["ui", "docker_manager_interval"])[0] != spec_keys(seq!["terminal", "reconnect_restore_cwd"])[0]);
    lemma_set_path_frame(d27, spec_keys(seq!["ui", "docker_manager_interval"]), JsonModel::Number(JsonNumber::PosInt(spec_clamp(s.ui_docker_manager_interval as int, 3, 120) as u64)), spec_keys(seq!["terminal", "reconnect_restore_cwd"]));
}

#[verifier::spinoff_prover]
proof fn lemma_saved_terminal_keeps_terminal_low_latency_mode(d: JsonModel, s: AppSettingsSummary)
    ensures
        spec_json_path(spec_saved_terminal(d, s), spec_keys(seq!["terminal", "low_latency_mode"])) == Some(JsonModel::Bool(s.terminal_low_latency_mode)),
{
    reveal_strlit("action_links_enabled");
    reveal_strlit("action_links_matchers");
    reveal_strlit("low_latency_mode");
    reveal_strlit("search");
    reveal_strlit("terminal");
    reveal_strlit("ui");
    reveal_strlit("zebra_stripes_enabled");
    let d1 = spec_set_path(d, spec_keys(seq!["terminal", "x11_display"]), JsonModel::Str(s.x11_display@, None));
    let d2 = spec_set_path(d1, spec_keys(seq!["terminal", "scrollback_lines"]), JsonModel::Number(JsonNumber::PosInt(spec_clamp(s.terminal_scrollback_lines as int, 100, 100000) as u64)));
    let d3 = spec_set_path(d2, spec_keys(seq!["terminal", "keep_alive_mode"]), JsonModel::Str(spec_keep_alive_mode(s.terminal_keep_alive_mode@), None));
    let d4 = spec_set_path(d3, spec_keys(seq!["terminal", "keep_alive_interval"]), JsonModel::Number(JsonNumber::PosInt(spec_clamp(s.terminal_keep_alive_interval as int, 0, 600) as u64)));
    let d5 = spec_set_path(d4, spec_keys(seq!["terminal", "timestamp_format"]), JsonModel::Str(spec_timestamp_format(s.terminal_timestamp_format@), None));
    let d6 = spec_set_path(d5, spec_keys(seq!["terminal", "hardware_acceleration"]), JsonModel::Bool(s.terminal_hardware_acceleration));
    let d7 = spec_set_path(d6, spec_keys(seq!["terminal", "show_workspace_padding"]), JsonModel::Bool(s.terminal_show_workspace_padding));
    let d8 = spec_set_path(d7, spec_keys(seq!["terminal", "show_line_numbers"]), JsonModel::Bool(s.terminal_show_line_numbers));
    let d9 = spec_set_path(d8, spec_keys(seq!["terminal", "show_timestamps"]), JsonModel::Bool(s.terminal_show_timestamps));
    let d10 = spec_set_path(d9, spec_keys(seq!["terminal", "show_multi_line_paste_dialog"]), JsonModel::Bool(s.terminal_show_multi_line_paste_dialog));
    let d11 = spec_set_path(d10, spec_keys(seq!["terminal", "paste_image_as_path"]), JsonModel::Bool(s.terminal_paste_image_as_path));
    let d12 = spec_set_path(d11, spec_keys(seq!["terminal", "reconnect_restore_cwd"]), JsonModel::Bool(s.terminal_reconnect_restore_cwd));
    let d13 = spec_set_path(d12, spec_keys(seq!["terminal", "low_latency_mode"]), JsonModel::Bool(s.terminal_low_latency_mode));
    let d14 = spec_set_path(d13, spec_keys(seq!["terminal", "zebra_stripes_enabled"]), JsonModel::Bool(s.terminal_zebra_stripes_enabled));
    let d15 = spec_set_path(d14, spec_keys(seq!["terminal", "action_links_enabled"]), JsonModel::Bool(s.terminal_action_links_enabled));
    let d16 = spec_set_path(d15, spec_keys(seq!["terminal", "action_links_matchers"]), spec_matchers_value(s.terminal_action_links_matchers));
    let d17 = spec_set_path(d16, spec_keys(seq!["search", "custom_engines"]), spec_engines_value(engines_view(s.search_custom_engines@)));
    let d18 = spec_set_path(d17, spec_keys(seq!["ui", "show_notes_panel"]), JsonModel::Bool(s.ui_show_notes_panel));
    let d19 = spec_set_path(d18, spec_keys(seq!["ui", "show_remote_stats"]), JsonModel::Bool(s.ui_show_remote_stats));
    let d20 = spec_set_path(d19, spec_keys(seq!["ui", "remote_stats_interval"]), JsonModel::Number(JsonNumber::PosInt(spec_clamp(s.ui_remote_stats_interval as int, 1, 60) as u64)));
    let d21 = spec_set_path(d20, spec_keys(seq!["ui", "show_gpu_monitor"]), JsonModel::Bool(s.ui_show_gpu_monitor));
    let d22 = spec_set_path(d21, spec_keys(seq!["ui", "gpu_monitor_interval"]), JsonModel::Number(JsonNumber::PosInt(spec_clamp(s.ui_gpu_monitor_interval as int, 3, 120) as u64)));
    let d23 = spec_set_path(d22, spec_keys(seq!["ui", "show_ascend_npu_monitor"]), JsonModel::Bool(s.ui_show_ascend_npu_monitor));
    let d24 = spec_set_path(d23, spec_keys(seq!["ui", "ascend_npu_monitor_interval"]), JsonModel::Number(JsonNumber::PosInt(spec_clamp(s.ui_ascend_npu_monitor_interval as int, 3, 120) as u64)));
    let d25 = spec_set_path(d24, spec_keys(seq!["ui", "show_process_manager"]), JsonModel::Bool(s.ui_show_process_manager));
    let d26 = spec_set_path(d25, spec_keys(seq!["ui", "process_manager_interval"]), JsonModel::Number(JsonNumber::PosInt(spec_clamp(s.ui_process_manager_interval as int, 3, 120) as u64)));
    let d27 = spec_set_path(d26, spec_keys(seq!["ui", "show_docker_manager"]), JsonModel::Bool(s.ui_show_docker_manager));
    let d28 = spec_set_path(d27, spec_keys(seq!["ui", "docker_manager_interval"]), JsonModel::Number(JsonNumber::PosInt(spec_clamp(s.ui_docker_manager_interval as int, 3, 120) as u64)));
    assert(spec_saved_terminal_part1(d, s) == d8);
    assert(spec_saved_terminal_part2(d8, s) == d16);
    assert(spec_saved_terminal_part3(d16, s) == d24);
    assert(spec_saved_terminal_part4(d24, s) == d28);
    assert(spec_saved_terminal(d, s) == d28);
    lemma_set_path_then_read(d12, spec_keys(seq!["terminal", "low_latency_mode"]), JsonModel::Bool(s.terminal_low_latency_mode));
    assert("zebra_stripes_enabled"@.len() != "low_latency_mode"@.len());
    assert(spec_keys(seq!["terminal", "zebra_stripes_enabled"])[1] != spec_keys(seq!["terminal", "low_latency_mode"])[1]);
    lemma_set_path_frame(d13, spec_keys(seq!["terminal", "zebra_stripes_enabled"]), JsonModel::Bool(s.terminal_zebra_stripes_enabled), spec_keys(seq!["terminal", "low_latency_mode"]));
    assert("action_links_enabled"@.len() != "low_latency_mode"@.len());
    assert(spec_keys(seq!["terminal", "action_links_enabled"])[1] != spec_keys(seq!["terminal", "low_latency_mode"])[1]);
    lemma_set_path_frame(d14, spec_keys(seq!["terminal", "action_links_enabled"]), JsonModel::Bool(s.terminal_action_links_enabled), spec_keys(seq!["terminal", "low_latency_mode"]));
    assert("action_links_matchers"@.len() != "low_latency_mode"@.len());
    assert(spec_keys(seq!["terminal", "action_links_matchers"])[1] != spec_keys(seq!["terminal", "low_latency_mode"])[1]);
    lemma_set_path_frame(d15, spec_keys(seq!["terminal", "action_links_matchers"]), spec_matchers_value(s.terminal_action_links_matchers), spec_keys(seq!["terminal", "low_latency_mode"]));
    assert("search"@.len() != "terminal"@.len());
    assert(spec_keys(seq!["search", "custom_engines"])[0] != spec_keys(seq!["terminal", "low_latency_mode"])[0]);
    lemma_set_path_frame(d16, spec_keys(seq!["search", "custom_engines"]), spec_engines_value(engines_view(s.search_custom_engines@)), spec_keys(seq!["terminal", "low_latency_mode"]));
    assert("ui"@.len() != "terminal"@.len());
    assert(spec_keys(seq!["ui", "show_notes_panel"])[0] != spec_keys(seq!["terminal", "low_latency_mode"])[0]);
    lemma_set_path_frame(d17, spec_keys(seq!["ui", "show_notes_panel"]), JsonModel::Bool(s.ui_show_notes_panel), spec_keys(seq!["terminal", "low_latency_mode"]));
    assert("ui"@.len() != "terminal"@.len());
    assert(spec_keys(seq!["ui", "show_remote_stats"])[0] != spec_keys(seq!["terminal", "low_latency_mode"])[0]);
    lemma_set_path_frame(d18, spec_keys(seq!["ui", "show_remote_stats"]), JsonModel::Bool(s.ui_show_remote_stats), spec_keys(seq!["terminal", "low_latency_mode"]));
    assert("ui"@.len() != "terminal"@.len());
    assert(spec_keys(seq!["ui", "remote_stats_interval"])[0] != spec_keys(seq!["terminal", "low_latency_mode"])[0]);
    lemma_set_path_frame(d19, spec_keys(seq!["ui", "remote_stats_interval"]), JsonModel::Number(JsonNumber::PosInt(spec_clamp(s.ui_remote_stats_interval as int, 1, 60) as u64)), spec_keys(seq!["terminal", "low_latency_mode"]));
    assert("ui"@.len() != "terminal"@.len());
    assert(spec_keys(seq!["ui", "show_gpu_monitor"])[0] != spec_keys(seq!["terminal", "low_latency_mode"])[0]);
    lemma_set_path_frame(d20, spec_keys(seq!["ui", "show_gpu_monitor"]), JsonModel::Bool(s.ui_show_gpu_monitor), spec_keys(seq!["terminal", "low_latency_mode"]));
    assert("ui"@.len() != "terminal"@.len());
    assert(spec_keys(seq!["ui", "gpu_monitor_interval"])[0] != spec_keys(seq!["terminal", "low_latency_mode"])[0]);
    lemma_set_path_frame(d21, spec_keys(seq!["ui", "gpu_monitor_interval"]), JsonModel::Number(JsonNumber::PosInt(spec_clamp(s.ui_gpu_monitor_interval as int, 3, 120) as u64)), spec_keys(seq!["terminal", "low_latency_mode"]));
    assert("ui"@.len() != "terminal"@.len());
    assert(spec_keys(seq!["ui", "show_ascend_npu_monitor"])[0] != spec_keys(seq!["terminal", "low_latency_mode"])[0]);
    lemma_set_path_frame(d22, spec_keys(seq!["ui", "show_ascend_npu_monitor"]), JsonModel::Bool(s.ui_show_ascend_npu_monitor), spec_keys(seq!["terminal", "low_latency_mode"]));
    assert("ui"@.len() != "terminal"@.len());
    assert(spec_keys(seq!["ui", "ascend_npu_monitor_interval"])[0] != spec_keys(seq!["terminal", "low_latency_mode"])[0]);
    lemma_set_path_frame(d23, spec_keys(seq!["ui", "ascend_npu_monitor_interval"]), JsonModel::Number(JsonNumber::PosInt(spec_clamp(s.ui_ascend_npu_monitor_interval as int, 3, 120) as u64)), spec_keys(seq!["terminal", "low_latency_mode"]));
    assert("ui"@.len() != "terminal"@.len());
    assert(spec_keys(seq!["ui", "show_process_manager"])[0] != spec_keys(seq!["terminal", "low_latency_mode"])[0]);
    lemma_set_path_frame(d24, spec_keys(seq!["ui", "show_process_manager"]), JsonModel::Bool(s.ui_show_process_manager), spec_keys(seq!["terminal", "low_latency_mode"]));
    assert("ui"@.len() != "terminal"@.len());
    assert(spec_keys(seq!["ui", "process_manager_interval"])[0] != spec_keys(seq!["terminal", "low_latency_mode"])[0]);
    lemma_set_path_frame(d25, spec_keys(seq!["ui", "process_manager_interval"]), JsonModel::Number(JsonNumber::PosInt(spec_clamp(s.ui_process_manager_interval as int, 3, 120) as u64)), spec_keys(seq!["terminal", "low_latency_mode"]));
    assert("ui"@.len() != "terminal"@.len());
    assert(spec_keys(seq!["ui", "show_docker_manager"])[0] != spec_keys(seq!["terminal", "low_latency_mode"])[0]);
    lemma_set_path_frame(d26, spec_keys(seq!["ui", "show_docker_manager"]), JsonModel::Bool(s.ui_show_docker_manager), spec_keys(seq!["terminal", "low_latency_mode"]));
    assert("ui"@.len() != "terminal"@.len());
    assert(spec_keys(seq!["ui", "docker_manager_interval"])[0] != spec_keys(seq!["terminal", "low_latency_mode"])[0]);
    lemma_set_path_frame(d27, spec_keys(seq!["ui", "docker_manager_interval"]), JsonModel::Number(JsonNumber::PosInt(spec_clamp(s.ui_docker_manager_interval as int, 3, 120) as u64)), spec_keys(seq!["terminal", "low_latency_mode"]));
}

#[verifier::spinoff_prover]
proof fn lemma_saved_terminal_keeps_terminal_zebra_stripes_enabled(d: JsonModel, s: AppSettingsSummary)
    ensures
        spec_json_path(spec_saved_terminal(d, s), spec_keys(seq!["terminal", "zebra_stripes_enabled"])) == Some(JsonModel::Bool(s.terminal_zebra_stripes_enabled)),
{
    reveal_strlit("action_links_enabled");
    reveal_strlit("action_links_matchers");
    reveal_strlit("search");
    reveal_strlit("terminal");
    reveal_strlit("ui");
    reveal_strlit("zebra_stripes_enabled");
    let d1 = spec_set_path(d, spec_keys(seq!["terminal", "x11_display"]), JsonModel::Str(s.x11_display@, None));
    let d2 = spec_set_path(d1, spec_keys(seq!["terminal", "scrollback_lines"]), JsonModel::Number(JsonNumber::PosInt(spec_clamp(s.terminal_scrollback_lines as int, 100, 100000) as u64)));
    let d3 = spec_set_path(d2, spec_keys(seq!["terminal", "keep_alive_mode"]), JsonModel::Str(spec_keep_alive_mode(s.terminal_keep_alive_mode@), None));
    let d4 = spec_set_path(d3, spec_keys(seq!["terminal", "keep_alive_interval"]), JsonModel::Number(JsonNumber::PosInt(spec_clamp(s.terminal_keep_alive_interval as int, 0, 600) as u64)));
    let d5 = spec_set_path(d4, spec_keys(seq!["terminal", "timestamp_format"]), JsonModel::Str(spec_timestamp_format(s.terminal_timestamp_format@), None));
    let d6 = spec_set_path(d5, spec_keys(seq!["terminal", "hardware_acceleration"]), JsonModel::Bool(s.terminal_hardware_acceleration));
    let d7 = spec_set_path(d6, spec_keys(seq!["terminal", "show_workspace_padding"]), JsonModel::Bool(s.terminal_show_workspace_padding));
    let d8 = spec_set_path(d7, spec_keys(seq!["terminal", "show_line_numbers"]), JsonModel::Bool(s.terminal_show_line_numbers));
    let d9 = spec_set_path(d8, spec_keys(seq!["terminal", "show_timestamps"]), JsonModel::Bool(s.terminal_show_timestamps));
    let d10 = spec_set_path(d9, spec_keys(seq!["terminal", "show_multi_line_paste_dialog"]), JsonModel::Bool(s.terminal_show_multi_line_paste_dialog));
    let d11 = spec_set_path(d10, spec_keys(seq!["terminal", "paste_image_as_path"]), JsonModel::Bool(s.terminal_paste_image_as_path));
    let d12 = spec_set_path(d11, spec_keys(seq!["terminal", "reconnect_restore_cwd"]), JsonModel::Bool(s.terminal_reconnect_restore_cwd));
    let d13 = spec_set_path(d12, spec_keys(seq!["terminal", "low_latency_mode"]), JsonModel::Bool(s.terminal_low_latency_mode));
    let d14 = spec_set_path(d13, spec_keys(seq!["terminal", "zebra_stripes_enabled"]), JsonModel::Bool(s.terminal_zebra_stripes_enabled));
    let d15 = spec_set_path(d14, spec_keys(seq!["terminal", "action_links_enabled"]), JsonModel::Bool(s.terminal_action_links_enabled));
    let d16 = spec_set_path(d15, spec_keys(seq!["terminal", "action_links_matchers"]), spec_matchers_value(s.terminal_action_links_matchers));
    let d17 = spec_set_path(d16, spec_keys(seq!["search", "custom_engines"]), spec_engines_value(engines_view(s.search_custom_engines@)));
    let d18 = spec_set_path(d17, spec_keys(seq!["ui", "show_notes_panel"]), JsonModel::Bool(s.ui_show_notes_panel));
    let d19 = spec_set_path(d18, spec_keys(seq!["ui", "show_remote_stats"]), JsonModel::Bool(s.ui_show_remote_stats));
    let d20 = spec_set_path(d19, spec_keys(seq!["ui", "remote_stats_interval"]), JsonModel::Number(JsonNumber::PosInt(spec_clamp(s.ui_remote_stats_interval as int, 1, 60) as u64)));
    let d21 = spec_set_path(d20, spec_keys(seq!["ui", "show_gpu_monitor"]), JsonModel::Bool(s.ui_show_gpu_monitor));
    let d22 = spec_set_path(d21, spec_keys(seq!["ui", "gpu_monitor_interval"]), JsonModel::Number(JsonNumber::PosInt(spec_clamp(s.ui_gpu_monitor_interval as int, 3, 120) as u64)));
    let d23 = spec_set_path(d22, spec_keys(seq!["ui", "show_ascend_npu_monitor"]), JsonModel::Bool(s.ui_show_ascend_npu_monitor));
    let d24 = spec_set_path(d23, spec_keys(seq!["ui", "ascend_npu_monitor_interval"]), JsonModel::Number(JsonNumber::PosInt(spec_clamp(s.ui_ascend_npu_monitor_interval as int, 3, 120) as u64)));
    let d25 = spec_set_path(d24, spec_keys(seq!["ui", "show_process_manager"]), JsonModel::Bool(s.ui_show_process_manager));
    let d26 = spec_set_path(d25, spec_keys(seq!["ui", "process_manager_interval"]), JsonModel::Number(JsonNumber::PosInt(spec_clamp(s.ui_process_manager_interval as int, 3, 120) as u64)));
    let d27 = spec_set_path(d26, spec_keys(seq!["ui", "show_docker_manager"]), JsonModel::Bool(s.ui_show_docker_manager));
    let d28 = spec_set_path(d27, spec_keys(seq!["ui", "docker_manager_interval"]), JsonModel::Number(JsonNumber::PosInt(spec_clamp(s.ui_docker_manager_interval as int, 3, 120) as u64)));
    assert(spec_saved_terminal_part1(d, s) == d8);
    assert(spec_saved_terminal_part2(d8, s) == d16);
    assert(spec_saved_terminal_part3(d16, s) == d24);
    assert(spec_saved_terminal_part4(d24, s) == d28);
    assert(spec_saved_terminal(d, s) == d28);
    lemma_set_path_then_read(d13, spec_keys(seq!["terminal", "zebra_stripes_enabled"]), JsonModel::Bool(s.terminal_zebra_stripes_enabled));
    assert("action_links_enabled"@.len() != "zebra_stripes_enabled"@.len());
    assert(spec_keys(seq!["terminal", "action_links_enabled"])[1] != spec_keys(seq!["terminal", "zebra_stripes_enabled"])[1]);
    lemma_set_path_frame(d14, spec_keys(seq!["terminal", "action_links_enabled"]), JsonModel::Bool(s.terminal_action_links_enabled), spec_keys(seq!["terminal", "zebra_stripes_enabled"]));
    assert("action_links_matchers"@[0] != "zebra_stripes_enabled"@[0]);
    assert(spec_keys(seq!["terminal", "action_links_matchers"])[1] != spec_keys(seq!["terminal", "zebra_stripes_enabled"])[1]);
    lemma_set_path_frame(d15, spec_keys(seq!["terminal", "action_links_matchers"]), spec_matchers_value(s.terminal_action_links_matchers), spec_keys(seq!["terminal", "zebra_stripes_enabled"]));
    assert("search"@.len() != "terminal"@.len());
    assert(spec_keys(seq!["search", "custom_engines"])[0] != spec_keys(seq!["terminal", "zebra_stripes_enabled"])[0]);
    lemma_set_path_frame(d16, spec_keys(seq!["search", "custom_engines"]), spec_engines_value(engines_view(s.search_custom_engines@)), spec_keys(seq!["terminal", "zebra_stripes_enabled"]));
    assert("ui"@.len() != "terminal"@.len());
    assert(spec_keys(seq!["ui", "show_notes_panel"])[0] != spec_keys(seq!["terminal", "zebra_stripes_enabled"])[0]);
    lemma_set_path_frame(d17, spec_keys(seq!["ui", "show_notes_panel"]), JsonModel::Bool(s.ui_show_notes_panel), spec_keys(seq!["terminal", "zebra_stripes_enabled"]));
    assert("ui"@.len() != "terminal"@.len());
    assert(spec_keys(seq!["ui", "show_remote_stats"])[0] != spec_keys(seq!["terminal", "zebra_stripes_enabled"])[0]);
    lemma_set_path_frame(d18, spec_keys(seq!["ui", "show_remote_stats"]), JsonModel::Bool(s.ui_show_remote_stats), spec_keys(seq!["terminal", "zebra_stripes_enabled"]));
    assert("ui"@.len() != "terminal"@.len());
    assert(spec_keys(seq!["ui", "remote_stats_interval"])[0] != spec_keys(seq!["terminal", "zebra_stripes_enabled"])[0]);
    lemma_set_path_frame(d19, spec_keys(seq!["ui", "remote_stats_interval"]), JsonModel::Number(JsonNumber::PosInt(spec_clamp(s.ui_remote_stats_interval as int, 1, 60) as u64)), spec_keys(seq!["terminal", "zebra_stripes_enabled"]));
    assert("ui"@.len() != "terminal"@.len());
    assert(spec_keys(seq!["ui", "show_gpu_monitor"])[0] != spec_keys(seq!["terminal", "zebra_stripes_enabled"])[0]);
    lemma_set_path_frame(d20, spec_keys(seq!["ui", "show_gpu_monitor"]), JsonModel::Bool(s.ui_show_gpu_monitor), spec_keys(seq!["terminal", "zebra_stripes_enabled"]));
    assert("ui"@.len() != "terminal"@.len());
    assert(spec_keys(seq!["ui", "gpu_monitor_interval"])[0] != spec_keys(seq!["terminal", "zebra_stripes_enabled"])[0]);
    lemma_set_path_frame(d21, spec_keys(seq!["ui", "gpu_monitor_interval"]), JsonModel::Number(JsonNumber::PosInt(spec_clamp(s.ui_gpu_monitor_interval as int, 3, 120) as u64)), spec_keys(seq!["terminal", "zebra_stripes_enabled"]));
    assert("ui"@.len() != "terminal"@.len());
    assert(spec_keys(seq!["ui", "show_ascend_npu_monitor"])[0] != spec_keys(seq!["terminal", "zebra_stripes_enabled"])[0]);
    lemma_set_path_frame(d22, spec_keys(seq!["ui", "show_ascend_npu_monitor"]), JsonModel::Bool(s.ui_show_ascend_npu_monitor), spec_keys(seq!["terminal", "zebra_stripes_enabled"]));
    assert("ui"@.len() != "terminal"@.len());
    assert(spec_keys(seq!["ui", "ascend_npu_monitor_interval"])[0] != spec_keys(seq!["terminal", "zebra_stripes_enabled"])[0]);
    lemma_set_path_frame(d23, spec_keys(seq!["ui", "ascend_npu_monitor_interval"]), JsonModel::Number(JsonNumber::PosInt(spec_clamp(s.ui_ascend_npu_monitor_interval as int, 3, 120) as u64)), spec_keys(seq!["terminal", "zebra_stripes_enabled"]));
    assert("ui"@.len() != "terminal"@.len());
    assert(spec_keys(seq!["ui", "show_process_manager"])[0] != spec_keys(seq!["terminal", "zebra_stripes_enabled"])[0]);
    lemma_set_path_frame(d24, spec_keys(seq!["ui", "show_process_manager"]), JsonModel::Bool(s.ui_show_process_manager), spec_keys(seq!["terminal", "zebra_stripes_enabled"]));
    assert("ui"@.len() != "terminal"@.len());
    assert(spec_keys(seq!["ui", "process_manager_interval"])[0] != spec_keys(seq!["terminal", "zebra_stripes_enabled"])[0]);
    lemma_set_path_frame(d25, spec_keys(seq!["ui", "process_manager_interval"]), JsonModel::Number(JsonNumber::PosInt(spec_clamp(s.ui_process_manager_interval as int, 3, 120) as u64)), spec_keys(seq!["terminal", "zebra_stripes_enabled"]));
    assert("ui"@.len() != "terminal"@.len());
    assert(spec_keys(seq!["ui", "show_docker_manager"])[0] != spec_keys(seq!["terminal", "zebra_stripes_enabled"])[0]);
    lemma_set_path_frame(d26, spec_keys(seq!["ui", "show_docker_manager"]), JsonModel::Bool(s.ui_show_docker_manager), spec_keys(seq!["terminal", "zebra_stripes_enabled"]));
    assert("ui"@.len() != "terminal"@.len());
    assert(spec_keys(seq!["ui", "docker_manager_interval"])[0] != spec_keys(seq!["terminal", "zebra_stripes_enabled"])[0]);
    lemma_set_path_frame(d27, spec_keys(seq!["ui", "docker_manager_interval"]), JsonModel::Number(JsonNumber::PosInt(spec_clamp(s.ui_docker_manager_interval as int, 3, 120) as u64)), spec_keys(seq!["terminal", "zebra_stripes_enabled"]));
}

#[verifier::spinoff_prover]
proof fn lemma_saved_terminal_keeps_terminal_action_links_enabled(d: JsonModel, s: AppSettingsSummary)
    ensures
        spec_json_path(spec_saved_terminal(d, s), spec_keys(seq!["terminal", "action_links_enabled"])) == Some(JsonModel::Bool(s.terminal_action_links_enabled)),
{
    reveal_strlit("action_links_enabled");
    reveal_strlit("action_links_matchers");
    reveal_strlit("search");
    reveal_strlit("terminal");
    reveal_strlit("ui");
    let d1 = spec_set_path(d, spec_keys(seq!["terminal", "x11_display"]), JsonModel::Str(s.x11_display@, None));
    let d2 = spec_set_path(d1, spec_keys(seq!["terminal", "scrollback_lines"]), JsonModel::Number(JsonNumber::PosInt(spec_clamp(s.terminal_scrollback_lines as int, 100, 100000) as u64)));
    let d3 = spec_set_path(d2, spec_keys(seq!["terminal", "keep_alive_mode"]), JsonModel::Str(spec_keep_alive_mode(s.terminal_keep_alive_mode@), None));
    let d4 = spec_set_path(d3, spec_keys(seq!["terminal", "keep_alive_interval"]), JsonModel::Number(JsonNumber::PosInt(spec_clamp(s.terminal_keep_alive_interval as int, 0, 600) as u64)));
    let d5 = spec_set_path(d4, spec_keys(seq!["terminal", "timestamp_format"]), JsonModel::Str(spec_timestamp_format(s.terminal_timestamp_format@), None));
    let d6 = spec_set_path(d5, spec_keys(seq!["terminal", "hardware_acceleration"]), JsonModel::Bool(s.terminal_hardware_acceleration));
    let d7 = spec_set_path(d6, spec_keys(seq!["terminal", "show_workspace_padding"]), JsonModel::Bool(s.terminal_show_workspace_padding));
    let d8 = spec_set_path(d7, spec_keys(seq!["terminal", "show_line_numbers"]), JsonModel::Bool(s.terminal_show_line_numbers));
    let d9 = spec_set_path(d8, spec_keys(seq!["terminal", "show_timestamps"]), JsonModel::Bool(s.terminal_show_timestamps));
    let d10 = spec_set_path(d9, spec_keys(seq!["terminal", "show_multi_line_paste_dialog"]), JsonModel::Bool(s.terminal_show_multi_line_paste_dialog));
    let d11 = spec_set_path(d10, spec_keys(seq!["terminal", "paste_image_as_path"]), JsonModel::Bool(s.terminal_paste_image_as_path));
    let d12 = spec_set_path(d11, spec_keys(seq!["terminal", "reconnect_restore_cwd"]), JsonModel::Bool(s.terminal_reconnect_restore_cwd));
    let d13 = spec_set_path(d12, spec_keys(seq!["terminal", "low_latency_mode"]), JsonModel::Bool(s.terminal_low_latency_mode));
    let d14 = spec_set_path(d13, spec_keys(seq!["terminal", "zebra_stripes_enabled"]), JsonModel::Bool(s.terminal_zebra_stripes_enabled));
    let d15 = spec_set_path(d14, spec_keys(seq!["terminal", "action_links_enabled"]), JsonModel::Bool(s.terminal_action_links_enabled));
    let d16 = spec_set_path(d15, spec_keys(seq!["terminal", "action_links_matchers"]), spec_matchers_value(s.terminal_action_links_matchers));
    let d17 = spec_set_path(d16, spec_keys(seq!["search", "custom_engines"]), spec_engines_value(engines_view(s.search_custom_engines@)));
    let d18 = spec_set_path(d17, spec_keys(seq!["ui", "show_notes_panel"]), JsonModel::Bool(s.ui_show_notes_panel));
    let d19 = spec_set_path(d18, spec_keys(seq!["ui", "show_remote_stats"]), JsonModel::Bool(s.ui_show_remote_stats));
    let d20 = spec_set_path(d19, spec_keys(seq!["ui", "remote_stats_interval"]), JsonModel::Number(JsonNumber::PosInt(spec_clamp(s.ui_remote_stats_interval as int, 1, 60) as u64)));
    let d21 = spec_set_path(d20, spec_keys(seq!["ui", "show_gpu_monitor"]), JsonModel::Bool(s.ui_show_gpu_monitor));
    let d22 = spec_set_path(d21, spec_keys(seq!["ui", "gpu_monitor_interval"]), JsonModel::Number(JsonNumber::PosInt(spec_clamp(s.ui_gpu_monitor_interval as int, 3, 120) as u64)));
    let d23 = spec_set_path(d22, spec_keys(seq!["ui", "show_ascend_npu_monitor"]), JsonModel::Bool(s.ui_show_ascend_npu_monitor));
    let d24 = spec_set_path(d23, spec_keys(seq!["ui", "ascend_npu_monitor_interval"]), JsonModel::Number(JsonNumber::PosInt(spec_clamp(s.ui_ascend_npu_monitor_interval as int, 3, 120) as u64)));
    let d25 = spec_set_path(d24, spec_keys(seq!["ui", "show_process_manager"]), JsonModel::Bool(s.ui_show_process_manager));
    let d26 = spec_set_path(d25, spec_keys(seq!["ui", "process_manager_interval"]), JsonModel::Number(JsonNumber::PosInt(spec_clamp(s.ui_process_manager_interval as int, 3, 120) as u64)));
    let d27 = spec_set_path(d26, spec_keys(seq!["ui", "show_docker_manager"]), JsonModel::Bool(s.ui_show_docker_manager));
    let d28 = spec_set_path(d27, spec_keys(seq!["ui", "docker_manager_interval"]), JsonModel::Number(JsonNumber::PosInt(spec_clamp(s.ui_docker_manager_interval as int, 3, 120) as u64)));
    assert(spec_saved_terminal_part1(d, s) == d8);
    assert(spec_saved_terminal_part2(d8, s) == d16);
    assert(spec_saved_terminal_part3(d16, s) == d24);
    assert(spec_saved_terminal_part4(d24, s) == d28);
    assert(spec_saved_terminal(d, s) == d28);
    lemma_set_path_then_read(d14, spec_keys(seq!["terminal", "action_links_enabled"]), JsonModel::Bool(s.terminal_action_links_enabled));
    assert("action_links_matchers"@.len() != "action_links_enabled"@.len());
    assert(spec_keys(seq!["terminal", "action_links_matchers"])[1] != spec_keys(seq!["terminal", "action_links_enabled"])[1]);
    lemma_set_path_frame(d15, spec_keys(seq!["terminal", "action_links_matchers"]), spec_matchers_value(s.terminal_action_links_matchers), spec_keys(seq!["terminal", "action_links_enabled"]));
    assert("search"@.len() != "terminal"@.len());
    assert(spec_keys(seq!["search", "custom_engines"])[0] != spec_keys(seq!["terminal", "action_links_enabled"])[0]);
    lemma_set_path_frame(d16, spec_keys(seq!["search", "custom_engines"]), spec_engines_value(engines_view(s.search_custom_engines@)), spec_keys(seq!["terminal", "action_links_enabled"]));
    assert("ui"@.len() != "terminal"@.len());
    assert(spec_keys(seq!["ui", "show_notes_panel"])[0] != spec_keys(seq!["terminal", "action_links_enabled"])[0]);
    lemma_set_path_frame(d17, spec_keys(seq!["ui", "show_notes_panel"]), JsonModel::Bool(s.ui_show_notes_panel), spec_keys(seq!["terminal", "action_links_enabled"]));
    assert("ui"@.len() != "terminal"@.len());
    assert(spec_keys(seq!["ui", "show_remote_stats"])[0] != spec_keys(seq!["terminal", "action_links_enabled"])[0]);
    lemma_set_path_frame(d18, spec_keys(seq!["ui", "show_remote_stats"]), JsonModel::Bool(s.ui_show_remote_stats), spec_keys(seq!["terminal", "action_links_enabled"]));
    assert("ui"@.len() != "terminal"@.len());
    assert(spec_keys(seq!["ui", "remote_stats_interval"])[0] != spec_keys(seq!["terminal", "action_links_enabled"])[0]);
    lemma_set_path_frame(d19, spec_keys(seq!["ui", "remote_stats_interval"]), JsonModel::Number(JsonNumber::PosInt(spec_clamp(s.ui_remote_stats_interval as int, 1, 60) as u64)), spec_keys(seq!["terminal", "action_links_enabled"]));
    assert("ui"@.len() != "terminal"@.len());
    assert(spec_keys(seq!["ui", "show_gpu_monitor"])[0] != spec_keys(seq!["terminal", "action_links_enabled"])[0]);
    lemma_set_path_frame(d20, spec_keys(seq!["ui", "show_gpu_monitor"]), JsonModel::Bool(s.ui_show_gpu_monitor), spec_keys(seq!["terminal", "action_links_enabled"]));
    assert("ui"@.len() != "terminal"@.len());
    assert(spec_keys(seq!["ui", "gpu_monitor_interval"])[0] != spec_keys(seq!["terminal", "action_links_enabled"])[0]);
    lemma_set_path_frame(d21, spec_keys(seq!["ui", "gpu_monitor_interval"]), JsonModel::Number(JsonNumber::PosInt(spec_clamp(s.ui_gpu_monitor_interval as int, 3, 120) as u64)), spec_keys(seq!["terminal", "action_links_enabled"]));
    assert("ui"@.len() != "terminal"@.len());
    assert(spec_keys(seq!["ui", "show_ascend_npu_monitor"])[0] != spec_keys(seq!["terminal", "action_links_enabled"])[0]);
    lemma_set_path_frame(d22, spec_keys(seq!["ui", "show_ascend_npu_monitor"]), JsonModel::Bool(s.ui_show_ascend_npu_monitor), spec_keys(seq!["terminal", "action_links_enabled"]));
    assert("ui"@.len() != "terminal"@.len());
    assert(spec_keys(seq!["ui", "ascend_npu_monitor_interval"])[0] != spec_keys(seq!["terminal", "action_links_enabled"])[0]);
    lemma_set_path_frame(d23, spec_keys(seq!["ui", "ascend_npu_monitor_interval"]), JsonModel::Number(JsonNumber::PosInt(spec_clamp(s.ui_ascend_npu_monitor_interval as int, 3, 120) as u64)), spec_keys(seq!["terminal", "action_links_enabled"]));
    assert("ui"@.len() != "terminal"@.len());
    assert(spec_keys(seq!["ui", "show_process_manager"])[0] != spec_keys(seq!["terminal", "action_links_enabled"])[0]);
    lemma_set_path_frame(d24, spec_keys(seq!["ui", "show_process_manager"]), JsonModel::Bool(s.ui_show_process_manager), spec_keys(seq!["terminal", "action_links_enabled"]));
    assert("ui"@.len() != "terminal"@.len());
    assert(spec_keys(seq!["ui", "process_manager_interval"])[0] != spec_keys(seq!["terminal", "action_links_enabled"])[0]);
    lemma_set_path_frame(d25, spec_keys(seq!["ui", "process_manager_interval"]), JsonModel::Number(JsonNumber::PosInt(spec_clamp(s.ui_process_manager_interval as int, 3, 120) as u64)), spec_keys(seq!["terminal", "action_links_enabled"]));
    assert("ui"@.len() != "terminal"@.len());
    assert(spec_keys(seq!["ui", "show_docker_manager"])[0] != spec_keys(seq!["terminal", "action_links_enabled"])[0]);
    lemma_set_path_frame(d26, spec_keys(seq!["ui", "show_docker_manager"]), JsonModel::Bool(s.ui_show_docker_manager), spec_keys(seq!["terminal", "action_links_enabled"]));
    assert("ui"@.len() != "terminal"@.len());
    assert(spec_keys(seq!["ui", "docker_manager_interval"])[0] != spec_keys(seq!["terminal", "action_links_enabled"])[0]);
    lemma_set_path_frame(d27, spec_keys(seq!["ui", "docker_manager_interval"]), JsonModel::Number(JsonNumber::PosInt(spec_clamp(s.ui_docker_manager_interval as int, 3, 120) as u64)), spec_keys(seq!["terminal", "action_links_enabled"]));
}

#[verifier::spinoff_prover]
proof fn lemma_saved_terminal_keeps_terminal_action_links_matchers(d: JsonModel, s: AppSettingsSummary)
    ensures
        spec_json_path(spec_saved_terminal(d, s), spec_keys(seq!["terminal", "action_links_matchers"])) == Some(spec_matchers_value(s.terminal_action_links_matchers)),
{
    reveal_strlit("action_links_matchers");
    reveal_strlit("search");
    reveal_strlit("terminal");
    reveal_strlit("ui");
    let d1 = spec_set_path(d, spec_keys(seq!["terminal", "x11_display"]), JsonModel::Str(s.x11_display@, None));
    let d2 = spec_set_path(d1, spec_keys(seq!["terminal", "scrollback_lines"]), JsonModel::Number(JsonNumber::PosInt(spec_clamp(s.terminal_scrollback_lines as int, 100, 100000) as u64)));
    let d3 = spec_set_path(d2, spec_keys(seq!["terminal", "keep_alive_mode"]), JsonModel::Str(spec_keep_alive_mode(s.terminal_keep_alive_mode@), None));
    let d4 = spec_set_path(d3, spec_keys(seq!["terminal", "keep_alive_interval"]), JsonModel::Number(JsonNumber::PosInt(spec_clamp(s.terminal_keep_alive_interval as int, 0, 600) as u64)));
    let d5 = spec_set_path(d4, spec_keys(seq!["terminal", "timestamp_format"]), JsonModel::Str(spec_timestamp_format(s.terminal_timestamp_format@), None));
    let d6 = spec_set_path(d5, spec_keys(seq!["terminal", "hardware_acceleration"]), JsonModel::Bool(s.terminal_hardware_acceleration));
    let d7 = spec_set_path(d6, spec_keys(seq!["terminal", "show_workspace_padding"]), JsonModel::Bool(s.terminal_show_workspace_padding));
    let d8 = spec_set_path(d7, spec_keys(seq!["terminal", "show_line_numbers"]), JsonModel::Bool(s.terminal_show_line_numbers));
    let d9 = spec_set_path(d8, spec_keys(seq!["terminal", "show_timestamps"]), JsonModel::Bool(s.terminal_show_timestamps));
    let d10 = spec_set_path(d9, spec_keys(seq!["terminal", "show_multi_line_paste_dialog"]), JsonModel::Bool(s.terminal_show_multi_line_paste_dialog));
    let d11 = spec_set_path(d10, spec_keys(seq!["terminal", "paste_image_as_path"]), JsonModel::Bool(s.terminal_paste_image_as_path));
    let d12 = spec_set_path(d11, spec_keys(seq!["terminal", "reconnect_restore_cwd"]), JsonModel::Bool(s.terminal_reconnect_restore_cwd));
    let d13 = spec_set_path(d12, spec_keys(seq!["terminal", "low_latency_mode"]), JsonModel::Bool(s.terminal_low_latency_mode));
    let d14 = spec_set_path(d13, spec_keys(seq!["terminal", "zebra_stripes_enabled"]), JsonModel::Bool(s.terminal_zebra_stripes_enabled));
    let d15 = spec_set_path(d14, spec_keys(seq!["terminal", "action_links_enabled"]), JsonModel::Bool(s.terminal_action_links_enabled));
    let d16 = spec_set_path(d15, spec_keys(seq!["terminal", "action_links_matchers"]), spec_matchers_value(s.terminal_action_links_matchers));
    let d17 = spec_set_path(d16, spec_keys(seq!["search", "custom_engines"]), spec_engines_value(engines_view(s.search_custom_engines@)));
    let d18 = spec_set_path(d17, spec_keys(seq!["ui", "show_notes_panel"]), JsonModel::Bool(s.ui_show_notes_panel));
    let d19 = spec_set_path(d18, spec_keys(seq!["ui", "show_remote_stats"]), JsonModel::Bool(s.ui_show_remote_stats));
    let d20 = spec_set_path(d19, spec_keys(seq!["ui", "remote_stats_interval"]), JsonModel::Number(JsonNumber::PosInt(spec_clamp(s.ui_remote_stats_interval as int, 1, 60) as u64)));
    let d21 = spec_set_path(d20, spec_keys(seq!["ui", "show_gpu_monitor"]), JsonModel::Bool(s.ui_show_gpu_monitor));
    let d22 = spec_set_path(d21, spec_keys(seq!["ui", "gpu_monitor_interval"]), JsonModel::Number(JsonNumber::PosInt(spec_clamp(s.ui_gpu_monitor_interval as int, 3, 120) as u64)));
    let d23 = spec_set_path(d22, spec_keys(seq!["ui", "show_ascend_npu_monitor"]), JsonModel::Bool(s.ui_show_ascend_npu_monitor));
    let d24 = spec_set_path(d23, spec_keys(seq!["ui", "ascend_npu_monitor_interval"]), JsonModel::Number(JsonNumber::PosInt(spec_clamp(s.ui_ascend_npu_monitor_interval as int, 3, 120) as u64)));
    let d25 = spec_set_path(d24, spec_keys(seq!["ui", "show_process_manager"]), JsonModel::Bool(s.ui_show_process_manager));
    let d26 = spec_set_path(d25, spec_keys(seq!["ui", "process_manager_interval"]), JsonModel::Number(JsonNumber::PosInt(spec_clamp(s.ui_process_manager_interval as int, 3, 120) as u64)));
    let d27 = spec_set_path(d26, spec_keys(seq!["ui", "show_docker_manager"]), JsonModel::Bool(s.ui_show_docker_manager));
    let d28 = spec_set_path(d27, spec_keys(seq!["ui", "docker_manager_interval"]), JsonModel::Number(JsonNumber::PosInt(spec_clamp(s.ui_docker_manager_interval as int, 3, 120) as u64)));
    assert(spec_saved_terminal_part1(d, s) == d8);
    assert(spec_saved_terminal_part2(d8, s) == d16);
    assert(spec_saved_terminal_part3(d16, s) == d24);
    assert(spec_saved_terminal_part4(d24, s) == d28);
    assert(spec_saved_terminal(d, s) == d28);
    lemma_set_path_then_read(d15, spec_keys(seq!["terminal", "action_links_matchers"]), spec_matchers_value(s.terminal_action_links_matchers));
    assert("search"@.len() != "terminal"@.len());
    assert(spec_keys(seq!["search", "custom_engines"])[0] != spec_keys(seq!["terminal", "action_links_matchers"])[0]);
    lemma_set_path_frame(d16, spec_keys(seq!["search", "custom_engines"]), spec_engines_value(engines_view(s.search_custom_engines@)), spec_keys(seq!["terminal", "action_links_matchers"]));
    assert("ui"@.len() != "terminal"@.len());
    assert(spec_keys(seq!["ui", "show_notes_panel"])[0] != spec_keys(seq!["terminal", "action_links_matchers"])[0]);
    lemma_set_path_frame(d17, spec_keys(seq!["ui", "show_notes_panel"]), JsonModel::Bool(s.ui_show_notes_panel), spec_keys(seq!["terminal", "action_links_matchers"]));
    assert("ui"@.len() != "terminal"@.len());
    assert(spec_keys(seq!["ui", "show_remote_stats"])[0] != spec_keys(seq!["terminal", "action_links_matchers"])[0]);
    lemma_set_path_frame(d18, spec_keys(seq!["ui", "show_remote_stats"]), JsonModel::Bool(s.ui_show_remote_stats), spec_keys(seq!["terminal", "action_links_matchers"]));
    assert("ui"@.len() != "terminal"@.len());
    assert(spec_keys(seq!["ui", "remote_stats_interval"])[0] != spec_keys(seq!["terminal", "action_links_matchers"])[0]);
    lemma_set_path_frame(d19, spec_keys(seq!["ui", "remote_stats_interval"]), JsonModel::Number(JsonNumber::PosInt(spec_clamp(s.ui_remote_stats_interval as int, 1, 60) as u64)), spec_keys(seq!["terminal", "action_links_matchers"]));
    assert("ui"@.len() != "terminal"@.len());
    assert(spec_keys(seq!["ui", "show_gpu_monitor"])[0] != spec_keys(seq!["terminal", "action_links_matchers"])[0]);
    lemma_set_path_frame(d20, spec_keys(seq!["ui", "show_gpu_monitor"]), JsonModel::Bool(s.ui_show_gpu_monitor), spec_keys(seq!["terminal", "action_links_matchers"]));
    assert("ui"@.len() != "terminal"@.len());
    assert(spec_keys(seq!["ui", "gpu_monitor_interval"])[0] != spec_keys(seq!["terminal", "action_links_matchers"])[0]);
    lemma_set_path_frame(d21, spec_keys(seq!["ui", "gpu_monitor_interval"]), JsonModel::Number(JsonNumber::PosInt(spec_clamp(s.ui_gpu_monitor_interval as int, 3, 120) as u64)), spec_keys(seq!["terminal", "action_links_matchers"]));
    assert("ui"@.len() != "terminal"@.len());
    assert(spec_keys(seq!["ui", "show_ascend_npu_monitor"])[0] != spec_keys(seq!["terminal", "action_links_matchers"])[0]);
    lemma_set_path_frame(d22, spec_keys(seq!["ui", "show_ascend_npu_monitor"]), JsonModel::Bool(s.ui_show_ascend_npu_monitor), spec_keys(seq!["terminal", "action_links_matchers"]));
    assert("ui"@.len() != "terminal"@.len());
    assert(spec_keys(seq!["ui", "ascend_npu_monitor_interval"])[0] != spec_keys(seq!["terminal", "action_links_matchers"])[0]);
    lemma_set_path_frame(d23, spec_keys(seq!["ui", "ascend_npu_monitor_interval"]), JsonModel::Number(JsonNumber::PosInt(spec_clamp(s.ui_ascend_npu_monitor_interval as int, 3, 120) as u64)), spec_keys(seq!["terminal", "action_links_matchers"]));
    assert("ui"@.len() != "terminal"@.len());
    assert(spec_keys(seq!["ui", "show_process_manager"])[0] != spec_keys(seq!["terminal", "action_links_matchers"])[0]);
    lemma_set_path_frame(d24, spec_keys(seq!["ui", "show_process_manager"]), JsonModel::Bool(s.ui_show_process_manager), spec_keys(seq!["terminal", "action_links_matchers"]));
    assert("ui"@.len() != "terminal"@.len());
    assert(spec_keys(seq!["ui", "process_manager_interval"])[0] != spec_keys(seq!["terminal", "action_links_matchers"])[0]);
    lemma_set_path_frame(d25, spec_keys(seq!["ui", "process_manager_interval"]), JsonModel::Number(JsonNumber::PosInt(spec_clamp(s.ui_process_manager_interval as int, 3, 120) as u64)), spec_keys(seq!["terminal", "action_links_matchers"]));
    assert("ui"@.len() != "terminal"@.len());
    assert(spec_keys(seq!["ui", "show_docker_manager"])[0] != spec_keys(seq!["terminal", "action_links_matchers"])[0]);
    lemma_set_path_frame(d26, spec_keys(seq!["ui", "show_docker_manager"]), JsonModel::Bool(s.ui_show_docker_manager), spec_keys(seq!["terminal", "action_links_matchers"]));
    assert("ui"@.len() != "terminal"@.len());
    assert(spec_keys(seq!["ui", "docker_manager_interval"])[0] != spec_keys(seq!["terminal", "action_links_matchers"])[0]);
    lemma_set_path_frame(d27, spec_keys(seq!["ui", "docker_manager_interval"]), JsonModel::Number(JsonNumber::PosInt(spec_clamp(s.ui_docker_manager_interval as int, 3, 120) as u64)), spec_keys(seq!["terminal", "action_links_matchers"]));
}

#[verifier::spinoff_prover]
proof fn lemma_saved_terminal_keeps_search_custom_engines(d: JsonModel, s: AppSettingsSummary)
    ensures
        spec_json_path(spec_saved_terminal(d, s), spec_keys(seq!["search", "custom_engines"])) == Some(spec_engines_value(engines_view(s.search_custom_engines@))),
{
    reveal_strlit("custom_engines");
    reveal_strlit("search");
    reveal_strlit("ui");
    let d1 = spec_set_path(d, spec_keys(seq!["terminal", "x11_display"]), JsonModel::Str(s.x11_display@, None));
    let d2 = spec_set_path(d1, spec_keys(seq!["terminal", "scrollback_lines"]), JsonModel::Number(JsonNumber::PosInt(spec_clamp(s.terminal_scrollback_lines as int, 100, 100000) as u64)));
    let d3 = spec_set_path(d2, spec_keys(seq!["terminal", "keep_alive_mode"]), JsonModel::Str(spec_keep_alive_mode(s.terminal_keep_alive_mode@), None));
    let d4 = spec_set_path(d3, spec_keys(seq!["terminal", "keep_alive_interval"]), JsonModel::Number(JsonNumber::PosInt(spec_clamp(s.terminal_keep_alive_interval as int, 0, 600) as u64)));
    let d5 = spec_set_path(d4, spec_keys(seq!["terminal", "timestamp_format"]), JsonModel::Str(spec_timestamp_format(s.terminal_timestamp_format@), None));
    let d6 = spec_set_path(d5, spec_keys(seq!["terminal", "hardware_acceleration"]), JsonModel::Bool(s.terminal_hardware_acceleration));
    let d7 = spec_set_path(d6, spec_keys(seq!["terminal", "show_workspace_padding"]), JsonModel::Bool(s.terminal_show_workspace_padding));
    let d8 = spec_set_path(d7, spec_keys(seq!["terminal", "show_line_numbers"]), JsonModel::Bool(s.terminal_show_line_numbers));
    let d9 = spec_set_path(d8, spec_keys(seq!["terminal", "show_timestamps"]), JsonModel::Bool(s.terminal_show_timestamps));
    let d10 = spec_set_path(d9, spec_keys(seq!["terminal", "show_multi_line_paste_dialog"]), JsonModel::Bool(s.terminal_show_multi_line_paste_dialog));
    let d11 = spec_set_path(d10, spec_keys(seq!["terminal", "paste_image_as_path"]), JsonModel::Bool(s.terminal_paste_image_as_path));
    let d12 = spec_set_path(d11, spec_keys(seq!["terminal", "reconnect_restore_cwd"]), JsonModel::Bool(s.terminal_reconnect_restore_cwd));
    let d13 = spec_set_path(d12, spec_keys(seq!["terminal", "low_latency_mode"]), JsonModel::Bool(s.terminal_low_latency_mode));
    let d14 = spec_set_path(d13, spec_keys(seq!["terminal", "zebra_stripes_enabled"]), JsonModel::Bool(s.terminal_zebra_stripes_enabled));
    let d15 = spec_set_path(d14, spec_keys(seq!["terminal", "action_links_enabled"]), JsonModel::Bool(s.terminal_action_links_enabled));
    let d16 = spec_set_path(d15, spec_keys(seq!["terminal", "action_links_matchers"]), spec_matchers_value(s.terminal_action_links_matchers));
    let d17 = spec_set_path(d16, spec_keys(seq!["search", "custom_engines"]), spec_engines_value(engines_view(s.search_custom_engines@)));
    let d18 = spec_set_path(d17, spec_keys(seq!["ui", "show_notes_panel"]), JsonModel::Bool(s.ui_show_notes_panel));
    let d19 = spec_set_path(d18, spec_keys(seq!["ui", "show_remote_stats"]), JsonModel::Bool(s.ui_show_remote_stats));
    let d20 = spec_set_path(d19, spec_keys(seq!["ui", "remote_stats_interval"]), JsonModel::Number(JsonNumber::PosInt(spec_clamp(s.ui_remote_stats_interval as int, 1, 60) as u64)));
    let d21 = spec_set_path(d20, spec_keys(seq!["ui", "show_gpu_monitor"]), JsonModel::Bool(s.ui_show_gpu_monitor));
    let d22 = spec_set_path(d21, spec_keys(seq!["ui", "gpu_monitor_interval"]), JsonModel::Number(JsonNumber::PosInt(spec_clamp(s.ui_gpu_monitor_interval as int, 3, 120) as u64)));
    let d23 = spec_set_path(d22, spec_keys(seq!["ui", "show_ascend_npu_monitor"]), JsonModel::Bool(s.ui_show_ascend_npu_monitor));
    let d24 = spec_set_path(d23, spec_keys(seq!["ui", "ascend_npu_monitor_interval"]), JsonModel::Number(JsonNumber::PosInt(spec_clamp(s.ui_ascend_npu_monitor_interval as int, 3, 120) as u64)));
    let d25 = spec_set_path(d24, spec_keys(seq!["ui", "show_process_manager"]), JsonModel::Bool(s.ui_show_process_manager));
    let d26 = spec_set_path(d25, spec_keys(seq!["ui", "process_manager_interval"]), JsonModel::Number(JsonNumber::PosInt(spec_clamp(s.ui_process_manager_interval as int, 3, 120) as u64)));
    let d27 = spec_set_path(d26, spec_keys(seq!["ui", "show_docker_manager"]), JsonModel::Bool(s.ui_show_docker_manager));
    let d28 = spec_set_path(d27, spec_keys(seq!["ui", "docker_manager_interval"]), JsonModel::Number(JsonNumber::PosInt(spec_clamp(s.ui_docker_manager_interval as int, 3, 120) as u64)));
    assert(spec_saved_terminal_part1(d, s) == d8);
    assert(spec_saved_terminal_part2(d8, s) == d16);
    assert(spec_saved_terminal_part3(d16, s) == d24);
    assert(spec_saved_terminal_part4(d24, s) == d28);
    assert(spec_saved_terminal(d, s) == d28);
    lemma_set_path_then_read(d16, spec_keys(seq!["search", "custom_engines"]), spec_engines_value(engines_view(s.search_custom_engines@)));
    assert("ui"@.len() != "search"@.len());
    assert(spec_keys(seq!["ui", "show_notes_panel"])[0] != spec_keys(seq!["search", "custom_engines"])[0]);
    lemma_set_path_frame(d17, spec_keys(seq!["ui", "show_notes_panel"]), JsonModel::Bool(s.ui_show_notes_panel), spec_keys(seq!["search", "custom_engines"]));
    assert("ui"@.len() != "search"@.len());
    assert(spec_keys(seq!["ui", "show_remote_stats"])[0] != spec_keys(seq!["search", "custom_engines"])[0]);
    lemma_set_path_frame(d18, spec_keys(seq!["ui", "show_remote_stats"]), JsonModel::Bool(s.ui_show_remote_stats), spec_keys(seq!["search", "custom_engines"]));
    assert("ui"@.len() != "search"@.len());
    assert(spec_keys(seq!["ui", "remote_stats_interval"])[0] != spec_keys(seq!["search", "custom_engines"])[0]);
    lemma_set_path_frame(d19, spec_keys(seq!["ui", "remote_stats_interval"]), JsonModel::Number(JsonNumber::PosInt(spec_clamp(s.ui_remote_stats_interval as int, 1, 60) as u64)), spec_keys(seq!["search", "custom_engines"]));
    assert("ui"@.len() != "search"@.len());
    assert(spec_keys(seq!["ui", "show_gpu_monitor"])[0] != spec_keys(seq!["search", "custom_engines"])[0]);
    lemma_set_path_frame(d20, spec_keys(seq!["ui", "show_gpu_monitor"]), JsonModel::Bool(s.ui_show_gpu_monitor), spec_keys(seq!["search", "custom_engines"]));
    assert("ui"@.len() != "search"@.len());
    assert(spec_keys(seq!["ui", "gpu_monitor_interval"])[0] != spec_keys(seq!["search", "custom_engines"])[0]);
    lemma_set_path_frame(d21, spec_keys(seq!["ui", "gpu_monitor_interval"]), JsonModel::Number(JsonNumber::PosInt(spec_clamp(s.ui_gpu_monitor_interval as int, 3, 120) as u64)), spec_keys(seq!["search", "custom_engines"]));
    assert("ui"@.len() != "search"@.len());
    assert(spec_keys(seq!["ui", "show_ascend_npu_monitor"])[0] != spec_keys(seq!["search", "custom_engines"])[0]);
    lemma_set_path_frame(d22, spec_keys(seq!["ui", "show_ascend_npu_monitor"]), JsonModel::Bool(s.ui_show_ascend_npu_monitor), spec_keys(seq!["search", "custom_engines"]));
    assert("ui"@.len() != "search"@.len());
    assert(spec_keys(seq!["ui", "ascend_npu_monitor_interval"])[0] != spec_keys(seq!["search", "custom_engines"])[0]);
    lemma_set_path_frame(d23, spec_keys(seq!["ui", "ascend_npu_monitor_interval"]), JsonModel::Number(JsonNumber::PosInt(spec_clamp(s.ui_ascend_npu_monitor_interval as int, 3, 120) as u64)), spec_keys(seq!["search", "custom_engines"]));
    assert("ui"@.len() != "search"@.len());
    assert(spec_keys(seq!["ui", "show_process_manager"])[0] != spec_keys(seq!["search", "custom_engines"])[0]);
    lemma_set_path_frame(d24, spec_keys(seq!["ui", "show_process_manager"]), JsonModel::Bool(s.ui_show_process_manager), spec_keys(seq!["search", "custom_engines"]));
    assert("ui"@.len() != "search"@.len());
    assert(spec_keys(seq!["ui", "process_manager_interval"])[0] != spec_keys(seq!["search", "custom_engines"])[0]);
    lemma_set_path_frame(d25, spec_keys(seq!["ui", "process_manager_interval"]), JsonModel::Number(JsonNumber::PosInt(spec_clamp(s.ui_process_manager_interval as int, 3, 120) as u64)), spec_keys(seq!["search", "custom_engines"]));
    assert("ui"@.len() != "search"@.len());
    assert(spec_keys(seq!["ui", "show_docker_manager"])[0] != spec_keys(seq!["search", "custom_engines"])[0]);
    lemma_set_path_frame(d26, spec_keys(seq!["ui", "show_docker_manager"]), JsonModel::Bool(s.ui_show_docker_manager), spec_keys(seq!["search", "custom_engines"]));
    assert("ui"@.len() != "search"@.len());
    assert(spec_keys(seq!["ui", "docker_manager_interval"])[0] != spec_keys(seq!["search", "custom_engines"])[0]);
    lemma_set_path_frame(d27, spec_keys(seq!["ui", "docker_manager_interval"]), JsonModel::Number(JsonNumber::PosInt(spec_clamp(s.ui_docker_manager_interval as int, 3, 120) as u64)), spec_keys(seq!["search", "custom_engines"]));
}

#[verifier::spinoff_prover]
proof fn lemma_saved_terminal_keeps_ui_show_notes_panel(d: JsonModel, s: AppSettingsSummary)
    ensures
        spec_json_path(spec_saved_terminal(d, s), spec_keys(seq!["ui", "show_notes_panel"])) == Some(JsonModel::Bool(s.ui_show_notes_panel)),
{
    reveal_strlit("ascend_npu_monitor_interval");
    reveal_strlit("docker_manager_interval");
    reveal_strlit("gpu_monitor_interval");
    reveal_strlit("process_manager_interval");
    reveal_strlit("remote_stats_interval");
    reveal_strlit("show_ascend_npu_monitor");
    reveal_strlit("show_docker_manager");
    reveal_strlit("show_gpu_monitor");
    reveal_strlit("show_notes_panel");
    reveal_strlit("show_process_manager");
    reveal_strlit("show_remote_stats");
    reveal_strlit("ui");
    let d1 = spec_set_path(d, spec_keys(seq!["terminal", "x11_display"]), JsonModel::Str(s.x11_display@, None));
    let d2 = spec_set_path(d1, spec_keys(seq!["terminal", "scrollback_lines"]), JsonModel::Number(JsonNumber::PosInt(spec_clamp(s.terminal_scrollback_lines as int, 100, 100000) as u64)));
    let d3 = spec_set_path(d2, spec_keys(seq!["terminal", "keep_alive_mode"]), JsonModel::Str(spec_keep_alive_mode(s.terminal_keep_alive_mode@), None));
    let d4 = spec_set_path(d3, spec_keys(seq!["terminal", "keep_alive_interval"]), JsonModel::Number(JsonNumber::PosInt(spec_clamp(s.terminal_keep_alive_interval as int, 0, 600) as u64)));
    let d5 = spec_set_path(d4, spec_keys(seq!["terminal", "timestamp_format"]), JsonModel::Str(spec_timestamp_format(s.terminal_timestamp_format@), None));
    let d6 = spec_set_path(d5, spec_keys(seq!["terminal", "hardware_acceleration"]), JsonModel::Bool(s.terminal_hardware_acceleration));
    let d7 = spec_set_path(d6, spec_keys(seq!["terminal", "show_workspace_padding"]), JsonModel::Bool(s.terminal_show_workspace_padding));
    let d8 = spec_set_path(d7, spec_keys(seq!["terminal", "show_line_numbers"]), JsonModel::Bool(s.terminal_show_line_numbers));
    let d9 = spec_set_path(d8, spec_keys(seq!["terminal", "show_timestamps"]), JsonModel::Bool(s.terminal_show_timestamps));
    let d10 = spec_set_path(d9, spec_keys(seq!["terminal", "show_multi_line_paste_dialog"]), JsonModel::Bool(s.terminal_show_multi_line_paste_dialog));
    let d11 = spec_set_path(d10, spec_keys(seq!["terminal", "paste_image_as_path"]), JsonModel::Bool(s.terminal_paste_image_as_path));
    let d12 = spec_set_path(d11, spec_keys(seq!["terminal", "reconnect_restore_cwd"]), JsonModel::Bool(s.terminal_reconnect_restore_cwd));
    let d13 = spec_set_path(d12, spec_keys(seq!["terminal", "low_latency_mode"]), JsonModel::Bool(s.terminal_low_latency_mode));
    let d14 = spec_set_path(d13, spec_keys(seq!["terminal", "zebra_stripes_enabled"]), JsonModel::Bool(s.terminal_zebra_stripes_enabled));
    let d15 = spec_set_path(d14, spec_keys(seq!["terminal", "action_links_enabled"]), JsonModel::Bool(s.terminal_action_links_enabled));
    let d16 = spec_set_path(d15, spec_keys(seq!["terminal", "action_links_matchers"]), spec_matchers_value(s.terminal_action_links_matchers));
    let d17 = spec_set_path(d16, spec_keys(seq!["search", "custom_engines"]), spec_engines_value(engines_view(s.search_custom_engines@)));
    let d18 = spec_set_path(d17, spec_keys(seq!["ui", "show_notes_panel"]), JsonModel::Bool(s.ui_show_notes_panel));
    let d19 = spec_set_path(d18, spec_keys(seq!["ui", "show_remote_stats"]), JsonModel::Bool(s.ui_show_remote_stats));
    let d20 = spec_set_path(d19, spec_keys(seq!["ui", "remote_stats_interval"]), JsonModel::Number(JsonNumber::PosInt(spec_clamp(s.ui_remote_stats_interval as int, 1, 60) as u64)));
    let d21 = spec_set_path(d20, spec_keys(seq!["ui", "show_gpu_monitor"]), JsonModel::Bool(s.ui_show_gpu_monitor));
    let d22 = spec_set_path(d21, spec_keys(seq!["ui", "gpu_monitor_interval"]), JsonModel::Number(JsonNumber::PosInt(spec_clamp(s.ui_gpu_monitor_interval as int, 3, 120) as u64)));
    let d23 = spec_set_path(d22, spec_keys(seq!["ui", "show_ascend_npu_monitor"]), JsonModel::Bool(s.ui_show_ascend_npu_monitor));
    let d24 = spec_set_path(d23, spec_keys(seq!["ui", "ascend_npu_monitor_interval"]), JsonModel::Number(JsonNumber::PosInt(spec_clamp(s.ui_ascend_npu_monitor_interval as int, 3, 120) as u64)));
    let d25 = spec_set_path(d24, spec_keys(seq!["ui", "show_process_manager"]), JsonModel::Bool(s.ui_show_process_manager));
    let d26 = spec_set_path(d25, spec_keys(seq!["ui", "process_manager_interval"]), JsonModel::Number(JsonNumber::PosInt(spec_clamp(s.ui_process_manager_interval as int, 3, 120) as u64)));
    let d27 = spec_set_path(d26, spec_keys(seq!["ui", "show_docker_manager"]), JsonModel::Bool(s.ui_show_docker_manager));
    let d28 = spec_set_path(d27, spec_keys(seq!["ui", "docker_manager_interval"]), JsonModel::Number(JsonNumber::PosInt(spec_clamp(s.ui_docker_manager_interval as int, 3, 120) as u64)));
    assert(spec_saved_terminal_part1(d, s) == d8);
    assert(spec_saved_terminal_part2(d8, s) == d16);
    assert(spec_saved_terminal_part3(d16, s) == d24);
    assert(spec_saved_terminal_part4(d24, s) == d28);
    assert(spec_saved_terminal(d, s) == d28);
    lemma_set_path_then_read(d17, spec_keys(seq!["ui", "show_notes_panel"]), JsonModel::Bool(s.ui_show_notes_panel));
    assert("show_remote_stats"@.len() != "show_notes_panel"@.len());
    assert(spec_keys(seq!["ui", "show_remote_stats"])[1] != spec_keys(seq!["ui", "show_notes_panel"])[1]);
    lemma_set_path_frame(d18, spec_keys(seq!["ui", "show_remote_stats"]), JsonModel::Bool(s.ui_show_remote_stats), spec_keys(seq!["ui", "show_notes_panel"]));
    assert("remote_stats_interval"@.len() != "show_notes_panel"@.len());
    assert(spec_keys(seq!["ui", "remote_stats_interval"])[1] != spec_keys(seq!["ui", "show_notes_panel"])[1]);
    lemma_set_path_frame(d19, spec_keys(seq!["ui", "remote_stats_interval"]), JsonModel::Number(JsonNumber::PosInt(spec_clamp(s.ui_remote_stats_interval as int, 1, 60) as u64)), spec_keys(seq!["ui", "show_notes_panel"]));
    assert("show_gpu_monitor"@[5] != "show_notes_panel"@[5]);
    assert(spec_keys(seq!["ui", "show_gpu_monitor"])[1] != spec_keys(seq!["ui", "show_notes_panel"])[1]);
    lemma_set_path_frame(d20, spec_keys(seq!["ui", "show_gpu_monitor"]), JsonModel::Bool(s.ui_show_gpu_monitor), spec_keys(seq!["ui", "show_notes_panel"]));
    assert("gpu_monitor_interval"@.len() != "show_notes_panel"@.len());
    assert(spec_keys(seq!["ui", "gpu_monitor_interval"])[1] != spec_keys(seq!["ui", "show_notes_panel"])[1]);
    lemma_set_path_frame(d21, spec_keys(seq!["ui", "gpu_monitor_interval"]), JsonModel::Number(JsonNumber::PosInt(spec_clamp(s.ui_gpu_monitor_interval as int, 3, 120) as u64)), spec_keys(seq!["ui", "show_notes_panel"]));
    assert("show_ascend_npu_monitor"@.len() != "show_notes_panel"@.len());
    assert(spec_keys(seq!["ui", "show_ascend_npu_monitor"])[1] != spec_keys(seq!["ui", "show_notes_panel"])[1]);
    lemma_set_path_frame(d22, spec_keys(seq!["ui", "show_ascend_npu_monitor"]), JsonModel::Bool(s.ui_show_ascend_npu_monitor), spec_keys(seq!["ui", "show_notes_panel"]));
    assert("ascend_npu_monitor_interval"@.len() != "show_notes_panel"@.len());
    assert(spec_keys(seq!["ui", "ascend_npu_monitor_interval"])[1] != spec_keys(seq!["ui", "show_notes_panel"])[1]);
    lemma_set_path_frame(d23, spec_keys(seq!["ui", "ascend_npu_monitor_interval"]), JsonModel::Number(JsonNumber::PosInt(spec_clamp(s.ui_ascend_npu_monitor_interval as int, 3, 120) as u64)), spec_keys(seq!["ui", "show_notes_panel"]));
    assert("show_process_manager"@.len() != "show_notes_panel"@.len());
    assert(spec_keys(seq!["ui", "show_process_manager"])[1] != spec_keys(seq!["ui", "show_notes_panel"])[1]);
    lemma_set_path_frame(d24, spec_keys(seq!["ui", "show_process_manager"]), JsonModel::Bool(s.ui_show_process_manager), spec_keys(seq!["ui", "show_notes_panel"]));
    assert("process_manager_interval"@.len() != "show_notes_panel"@.len());
    assert(spec_keys(seq!["ui", "process_manager_interval"])[1] != spec_keys(seq!["ui", "show_notes_panel"])[1]);
    lemma_set_path_frame(d25, spec_keys(seq!["ui", "process_manager_interval"]), JsonModel::Number(JsonNumber::PosInt(spec_clamp(s.ui_process_manager_interval as int, 3, 120) as u64)), spec_keys(seq!["ui", "show_notes_panel"]));
    assert("show_docker_manager"@.len() != "show_notes_panel"@.len());
    assert(spec_keys(seq!["ui", "show_docker_manager"])[1] != spec_keys(seq!["ui", "show_notes_panel"])[1]);
    lemma_set_path_frame(d26, spec_keys(seq!["ui", "show_docker_manager"]), JsonModel::Bool(s.ui_show_docker_manager), spec_keys(seq!["ui", "show_notes_panel"]));
    assert("docker_manager_interval"@.len() != "show_notes_panel"@.len());
    assert(spec_keys(seq!["ui", "docker_manager_interval"])[1] != spec_keys(seq!["ui", "show_notes_panel"])[1]);
    lemma_set_path_frame(d27, spec_keys(seq!["ui", "docker_manager_interval"]), JsonModel::Number(JsonNumber::PosInt(spec_clamp(s.ui_docker_manager_interval as int, 3, 120) as u64)), spec_keys(seq!["ui", "show_notes_panel"]));
}

#[verifier::spinoff_prover]
proof fn lemma_saved_terminal_keeps_ui_show_remote_stats(d: JsonModel, s: AppSettingsSummary)
    ensures
        spec_json_path(spec_saved_terminal(d, s), spec_keys(seq!["ui", "show_remote_stats"])) == Some(JsonModel::Bool(s.ui_show_remote_stats)),
{
    reveal_strlit("ascend_npu_monitor_interval");
    reveal_strlit("docker_manager_interval");
    reveal_strlit("gpu_monitor_interval");
    reveal_strlit("process_manager_interval");
    reveal_strlit("remote_stats_interval");
    reveal_strlit("show_ascend_npu_monitor");
    reveal_strlit("show_docker_manager");
    reveal_strlit("show_gpu_monitor");
    reveal_strlit("show_process_manager");
    reveal_strlit("show_remote_stats");
    reveal_strlit("ui");
    let d1 = spec_set_path(d, spec_keys(seq!["terminal", "x11_display"]), JsonModel::Str(s.x11_display@, None));
    let d2 = spec_set_path(d1, spec_keys(seq!["terminal", "scrollback_lines"]), JsonModel::Number(JsonNumber::PosInt(spec_clamp(s.terminal_scrollback_lines as int, 100, 100000) as u64)));
    let d3 = spec_set_path(d2, spec_keys(seq!["terminal", "keep_alive_mode"]), JsonModel::Str(spec_keep_alive_mode(s.terminal_keep_alive_mode@), None));
    let d4 = spec_set_path(d3, spec_keys(seq!["terminal", "keep_alive_interval"]), JsonModel::Number(JsonNumber::PosInt(spec_clamp(s.terminal_keep_alive_interval as int, 0, 600) as u64)));
    let d5 = spec_set_path(d4, spec_keys(seq!["terminal", "timestamp_format"]), JsonModel::Str(spec_timestamp_format(s.terminal_timestamp_format@), None));
    let d6 = spec_set_path(d5, spec_keys(seq!["terminal", "hardware_acceleration"]), JsonModel::Bool(s.terminal_hardware_acceleration));
    let d7 = spec_set_path(d6, spec_keys(seq!["terminal", "show_workspace_padding"]), JsonModel::Bool(s.terminal_show_workspace_padding));
    let d8 = spec_set_path(d7, spec_keys(seq!["terminal", "show_line_numbers"]), JsonModel::Bool(s.terminal_show_line_numbers));
    let d9 = spec_set_path(d8, spec_keys(seq!["terminal", "show_timestamps"]), JsonModel::Bool(s.terminal_show_timestamps));
    let d10 = spec_set_path(d9, spec_keys(seq!["terminal", "show_multi_line_paste_dialog"]), JsonModel::Bool(s.terminal_show_multi_line_paste_dialog));
    let d11 = spec_set_path(d10, spec_keys(seq!["terminal", "paste_image_as_path"]), JsonModel::Bool(s.terminal_paste_image_as_path));
    let d12 = spec_set_path(d11, spec_keys(seq!["terminal", "reconnect_restore_cwd"]), JsonModel::Bool(s.terminal_reconnect_restore_cwd));
    let d13 = spec_set_path(d12, spec_keys(seq!["terminal", "low_latency_mode"]), JsonModel::Bool(s.terminal_low_latency_mode));
    let d14 = spec_set_path(d13, spec_keys(seq!["terminal", "zebra_stripes_enabled"]), JsonModel::Bool(s.terminal_zebra_stripes_enabled));
    let d15 = spec_set_path(d14, spec_keys(seq!["terminal", "action_links_enabled"]), JsonModel::Bool(s.terminal_action_links_enabled));
    let d16 = spec_set_path(d15, spec_keys(seq!["terminal", "action_links_matchers"]), spec_matchers_value(s.terminal_action_links_matchers));
    let d17 = spec_set_path(d16, spec_keys(seq!["search", "custom_engines"]), spec_engines_value(engines_view(s.search_custom_engines@)));
    let d18 = spec_set_path(d17, spec_keys(seq!["ui", "show_notes_panel"]), JsonModel::Bool(s.ui_show_notes_panel));
    let d19 = spec_set_path(d18, spec_keys(seq!["ui", "show_remote_stats"]), JsonModel::Bool(s.ui_show_remote_stats));
    let d20 = spec_set_path(d19, spec_keys(seq!["ui", "remote_stats_interval"]), JsonModel::Number(JsonNumber::PosInt(spec_clamp(s.ui_remote_stats_interval as int, 1, 60) as u64)));
    let d21 = spec_set_path(d20, spec_keys(seq!["ui", "show_gpu_monitor"]), JsonModel::Bool(s.ui_show_gpu_monitor));
    let d22 = spec_set_path(d21, spec_keys(seq!["ui", "gpu_monitor_interval"]), JsonModel::Number(JsonNumber::PosInt(spec_clamp(s.ui_gpu_monitor_interval as int, 3, 120) as u64)));
    let d23 = spec_set_path(d22, spec_keys(seq!["ui", "show_ascend_npu_monitor"]), JsonModel::Bool(s.ui_show_ascend_npu_monitor));
    let d24 = spec_set_path(d23, spec_keys(seq!["ui", "ascend_npu_monitor_interval"]), JsonModel::Number(JsonNumber::PosInt(spec_clamp(s.ui_ascend_npu_monitor_interval as int, 3, 120) as u64)));
    let d25 = spec_set_path(d24, spec_keys(seq!["ui", "show_process_manager"]), JsonModel::Bool(s.ui_show_process_manager));
    let d26 = spec_set_path(d25, spec_keys(seq!["ui", "process_manager_interval"]), JsonModel::Number(JsonNumber::PosInt(spec_clamp(s.ui_process_manager_interval as int, 3, 120) as u64)));
    let d27 = spec_set_path(d26, spec_keys(seq!["ui", "show_docker_manager"]), JsonModel::Bool(s.ui_show_docker_manager));
    let d28 = spec_set_path(d27, spec_keys(seq!["ui", "docker_manager_interval"]), JsonModel::Number(JsonNumber::PosInt(spec_clamp(s.ui_docker_manager_interval as int, 3, 120) as u64)));
    assert(spec_saved_terminal_part1(d, s) == d8);
    assert(spec_saved_terminal_part2(d8, s) == d16);
    assert(spec_saved_terminal_part3(d16, s) == d24);
    assert(spec_saved_terminal_part4(d24, s) == d28);
    assert(spec_saved_terminal(d, s) == d28);
    lemma_set_path_then_read(d18, spec_keys(seq!["ui", "show_remote_stats"]), JsonModel::Bool(s.ui_show_remote_stats));
    assert("remote_stats_interval"@.len() != "show_remote_stats"@.len());
    assert(spec_keys(seq!["ui", "remote_stats_interval"])[1] != spec_keys(seq!["ui", "show_remote_stats"])[1]);
    lemma_set_path_frame(d19, spec_keys(seq!["ui", "remote_stats_interval"]), JsonModel::Number(JsonNumber::PosInt(spec_clamp(s.ui_remote_stats_interval as int, 1, 60) as u64)), spec_keys(seq!["ui", "show_remote_stats"]));
    assert("show_gpu_monitor"@.len() != "show_remote_stats"@.len());
    assert(spec_keys(seq!["ui", "show_gpu_monitor"])[1] != spec_keys(seq!["ui", "show_remote_stats"])[1]);
    lemma_set_path_frame(d20, spec_keys(seq!["ui", "show_gpu_monitor"]), JsonModel::Bool(s.ui_show_gpu_monitor), spec_keys(seq!["ui", "show_remote_stats"]));
    assert("gpu_monitor_interval"@.len() != "show_remote_stats"@.len());
    assert(spec_keys(seq!["ui", "gpu_monitor_interval"])[1] != spec_keys(seq!["ui", "show_remote_stats"])[1]);
    lemma_set_path_frame(d21, spec_keys(seq!["ui", "gpu_monitor_interval"]), JsonModel::Number(JsonNumber::PosInt(spec_clamp(s.ui_gpu_monitor_interval as int, 3, 120) as u64)), spec_keys(seq!["ui", "show_remote_stats"]));
    assert("show_ascend_npu_monitor"@.len() != "show_remote_stats"@.len());
    assert(spec_keys(seq!["ui", "show_ascend_npu_monitor"])[1] != spec_keys(seq!["ui", "show_remote_stats"])[1]);
    lemma_set_path_frame(d22, spec_keys(seq!["ui", "show_ascend_npu_monitor"]), JsonModel::Bool(s.ui_show_ascend_npu_monitor), spec_keys(seq!["ui", "show_remote_stats"]));
    assert("ascend_npu_monitor_interval"@.len() != "show_remote_stats"@.len());
    assert(spec_keys(seq!["ui", "ascend_npu_monitor_interval"])[1] != spec_keys(seq!["ui", "show_remote_stats"])[1]);
    lemma_set_path_frame(d23, spec_keys(seq!["ui", "ascend_npu_monitor_interval"]), JsonModel::Number(JsonNumber::PosInt(spec_clamp(s.ui_ascend_npu_monitor_interval as int, 3, 120) as u64)), spec_keys(seq!["ui", "show_remote_stats"]));
    assert("show_process_manager"@.len() != "show_remote_stats"@.len());
    assert(spec_keys(seq!["ui", "show_process_manager"])[1] != spec_keys(seq!["ui", "show_remote_stats"])[1]);
    lemma_set_path_frame(d24, spec_keys(seq!["ui", "show_process_manager"]), JsonModel::Bool(s.ui_show_process_manager), spec_keys(seq!["ui", "show_remote_stats"]));
    assert("process_manager_interval"@.len() != "show_remote_stats"@.len());
    assert(spec_keys(seq!["ui", "process_manager_interval"])[1] != spec_keys(seq!["ui", "show_remote_stats"])[1]);
    lemma_set_path_frame(d25, spec_keys(seq!["ui", "process_manager_interval"]), JsonModel::Number(JsonNumber::PosInt(spec_clamp(s.ui_process_manager_interval as int, 3, 120) as u64)), spec_keys(seq!["ui", "show_remote_stats"]));
    assert("show_docker_manager"@.len() != "show_remote_stats"@.len());
    assert(spec_keys(seq!["ui", "show_docker_manager"])[1] != spec_keys(seq!["ui", "show_remote_stats"])[1]);
    lemma_set_path_frame(d26, spec_keys(seq!["ui", "show_docker_manager"]), JsonModel::Bool(s.ui_show_docker_manager), spec_keys(seq!["ui", "show_remote_stats"]));
    assert("docker_manager_interval"@.len() != "show_remote_stats"@.len());
    assert(spec_keys(seq!["ui", "docker_manager_interval"])[1] != spec_keys(seq!["ui", "show_remote_stats"])[1]);
    lemma_set_path_frame(d27, spec_keys(seq!["ui", "docker_manager_interval"]), JsonModel::Number(JsonNumber::PosInt(spec_clamp(s.ui_docker_manager_interval as int, 3, 120) as u64)), spec_keys(seq!["ui", "show_remote_stats"]));
}

#[verifier::spinoff_prover]
proof fn lemma_saved_terminal_keeps_ui_remote_stats_interval(d: JsonModel, s: AppSettingsSummary)
    ensures
        spec_json_path(spec_saved_terminal(d, s), spec_keys(seq!["ui", "remote_stats_interval"])) == Some(JsonModel::Number(JsonNumber::PosInt(spec_clamp(s.ui_remote_stats_interval as int, 1, 60) as u64))),
{
    reveal_strlit("ascend_npu_monitor_interval");
    reveal_strlit("docker_manager_interval");
    reveal_strlit("gpu_monitor_interval");
    reveal_strlit("process_manager_interval");
    reveal_strlit("remote_stats_interval");
    reveal_strlit("show_ascend_npu_monitor");
    reveal_strlit("show_docker_manager");
    reveal_strlit("show_gpu_monitor");
    reveal_strlit("show_process_manager");
    reveal_strlit("ui");
    let d1 = spec_set_path(d, spec_keys(seq!["terminal", "x11_display"]), JsonModel::Str(s.x11_display@, None));
    let d2 = spec_set_path(d1, spec_keys(seq!["terminal", "scrollback_lines"]), JsonModel::Number(JsonNumber::PosInt(spec_clamp(s.terminal_scrollback_lines as int, 100, 100000) as u64)));
    let d3 = spec_set_path(d2, spec_keys(seq!["terminal", "keep_alive_mode"]), JsonModel::Str(spec_keep_alive_mode(s.terminal_keep_alive_mode@), None));
    let d4 = spec_set_path(d3, spec_keys(seq!["terminal", "keep_alive_interval"]), JsonModel::Number(JsonNumber::PosInt(spec_clamp(s.terminal_keep_alive_interval as int, 0, 600) as u64)));
    let d5 = spec_set_path(d4, spec_keys(seq!["terminal", "timestamp_format"]), JsonModel::Str(spec_timestamp_format(s.terminal_timestamp_format@), None));
    let d6 = spec_set_path(d5, spec_keys(seq!["terminal", "hardware_acceleration"]), JsonModel::Bool(s.terminal_hardware_acceleration));
    let d7 = spec_set_path(d6, spec_keys(seq!["terminal", "show_workspace_padding"]), JsonModel::Bool(s.terminal_show_workspace_padding));
    let d8 = spec_set_path(d7, spec_keys(seq!["terminal", "show_line_numbers"]), JsonModel::Bool(s.terminal_show_line_numbers));
    let d9 = spec_set_path(d8, spec_keys(seq!["terminal", "show_timestamps"]), JsonModel::Bool(s.terminal_show_timestamps));
    let d10 = spec_set_path(d9, spec_keys(seq!["terminal", "show_multi_line_paste_dialog"]), JsonModel::Bool(s.terminal_show_multi_line_paste_dialog));
    let d11 = spec_set_path(d10, spec_keys(seq!["terminal", "paste_image_as_path"]), JsonModel::Bool(s.terminal_paste_image_as_path));
    let d12 = spec_set_path(d11, spec_keys(seq!["terminal", "reconnect_restore_cwd"]), JsonModel::Bool(s.terminal_reconnect_restore_cwd));
    let d13 = spec_set_path(d12, spec_keys(seq!["terminal", "low_latency_mode"]), JsonModel::Bool(s.terminal_low_latency_mode));
    let d14 = spec_set_path(d13, spec_keys(seq!["terminal", "zebra_stripes_enabled"]), JsonModel::Bool(s.terminal_zebra_stripes_enabled));
    let d15 = spec_set_path(d14, spec_keys(seq!["terminal", "action_links_enabled"]), JsonModel::Bool(s.terminal_action_links_enabled));
    let d16 = spec_set_path(d15, spec_keys(seq!["terminal", "action_links_matchers"]), spec_matchers_value(s.terminal_action_links_matchers));
    let d17 = spec_set_path(d16, spec_keys(seq!["search", "custom_engines"]), spec_engines_value(engines_view(s.search_custom_engines@)));
    let d18 = spec_set_path(d17, spec_keys(seq!["ui", "show_notes_panel"]), JsonModel::Bool(s.ui_show_notes_panel));
    let d19 = spec_set_path(d18, spec_keys(seq!["ui", "show_remote_stats"]), JsonModel::Bool(s.ui_show_remote_stats));
    let d20 = spec_set_path(d19, spec_keys(seq!["ui", "remote_stats_interval"]), JsonModel::Number(JsonNumber::PosInt(spec_clamp(s.ui_remote_stats_interval as int, 1, 60) as u64)));
    let d21 = spec_set_path(d20, spec_keys(seq!["ui", "show_gpu_monitor"]), JsonModel::Bool(s.ui_show_gpu_monitor));
    let d22 = spec_set_path(d21, spec_keys(seq!["ui", "gpu_monitor_interval"]), JsonModel::Number(JsonNumber::PosInt(spec_clamp(s.ui_gpu_monitor_interval as int, 3, 120) as u64)));
    let d23 = spec_set_path(d22, spec_keys(seq!["ui", "show_ascend_npu_monitor"]), JsonModel::Bool(s.ui_show_ascend_npu_monitor));
    let d24 = spec_set_path(d23, spec_keys(seq!["ui", "ascend_npu_monitor_interval"]), JsonModel::Number(JsonNumber::PosInt(spec_clamp(s.ui_ascend_npu_monitor_interval as int, 3, 120) as u64)));
    let d25 = spec_set_path(d24, spec_keys(seq!["ui", "show_process_manager"]), JsonModel::Bool(s.ui_show_process_manager));
    let d26 = spec_set_path(d25, spec_keys(seq!["ui", "process_manager_interval"]), JsonModel::Number(JsonNumber::PosInt(spec_clamp(s.ui_process_manager_interval as int, 3, 120) as u64)));
    let d27 = spec_set_path(d26, spec_keys(seq!["ui", "show_docker_manager"]), JsonModel::Bool(s.ui_show_docker_manager));
    let d28 = spec_set_path(d27, spec_keys(seq!["ui", "docker_manager_interval"]), JsonModel::Number(JsonNumber::PosInt(spec_clamp(s.ui_docker_manager_interval as int, 3, 120) as u64)));
    assert(spec_saved_terminal_part1(d, s) == d8);
    assert(spec_saved_terminal_part2(d8, s) == d16);
    assert(spec_saved_terminal_part3(d16, s) == d24);
    assert(spec_saved_terminal_part4(d24, s) == d28);
    assert(spec_saved_terminal(d, s) == d28);
    lemma_set_path_then_read(d19, spec_keys(seq!["ui", "remote_stats_interval"]), JsonModel::Number(JsonNumber::PosInt(spec_clamp(s.ui_remote_stats_interval as int, 1, 60) as u64)));
    assert("show_gpu_monitor"@.len() != "remote_stats_interval"@.len());
    assert(spec_keys(seq!["ui", "show_gpu_monitor"])[1] != spec_keys(seq!["ui", "remote_stats_interval"])[1]);
    lemma_set_path_frame(d20, spec_keys(seq!["ui", "show_gpu_monitor"]), JsonModel::Bool(s.ui_show_gpu_monitor), spec_keys(seq!["ui", "remote_stats_interval"]));
    assert("gpu_monitor_interval"@.len() != "remote_stats_interval"@.len());
    assert(spec_keys(seq!["ui", "gpu_monitor_interval"])[1] != spec_keys(seq!["ui", "remote_stats_interval"])[1]);
    lemma_set_path_frame(d21, spec_keys(seq!["ui", "gpu_monitor_interval"]), JsonModel::Number(JsonNumber::PosInt(spec_clamp(s.ui_gpu_monitor_interval as int, 3, 120) as u64)), spec_keys(seq!["ui", "remote_stats_interval"]));
    assert("show_ascend_npu_monitor"@.len() != "remote_stats_interval"@.len());
    assert(spec_keys(seq!["ui", "show_ascend_npu_monitor"])[1] != spec_keys(seq!["ui", "remote_stats_interval"])[1]);
    lemma_set_path_frame(d22, spec_keys(seq!["ui", "show_ascend_npu_monitor"]), JsonModel::Bool(s.ui_show_ascend_npu_monitor), spec_keys(seq!["ui", "remote_stats_interval"]));
    assert("ascend_npu_monitor_interval"@.len() != "remote_stats_interval"@.len());
    assert(spec_keys(seq!["ui", "ascend_npu_monitor_interval"])[1] != spec_keys(seq!["ui", "remote_stats_interval"])[1]);
    lemma_set_path_frame(d23, spec_keys(seq!["ui", "ascend_npu_monitor_interval"]), JsonModel::Number(JsonNumber::PosInt(spec_clamp(s.ui_ascend_npu_monitor_interval as int, 3, 120) as u64)), spec_keys(seq!["ui", "remote_stats_interval"]));
    assert("show_process_manager"@.len() != "remote_stats_interval"@.len());
    assert(spec_keys(seq!["ui", "show_process_manager"])[1] != spec_keys(seq!["ui", "remote_stats_interval"])[1]);
    lemma_set_path_frame(d24, spec_keys(seq!["ui", "show_process_manager"]), JsonModel::Bool(s.ui_show_process_manager), spec_keys(seq!["ui", "remote_stats_interval"]));
    assert("process_manager_interval"@.len() != "remote_stats_interval"@.len());
    assert(spec_keys(seq!["ui", "process_manager_interval"])[1] != spec_keys(seq!["ui", "remote_stats_interval"])[1]);
    lemma_set_path_frame(d25, spec_keys(seq!["ui", "process_manager_interval"]), JsonModel::Number(JsonNumber::PosInt(spec_clamp(s.ui_process_manager_interval as int, 3, 120) as u64)), spec_keys(seq!["ui", "remote_stats_interval"]));
    assert("show_docker_manager"@.len() != "remote_stats_interval"@.len());
    assert(spec_keys(seq!["ui", "show_docker_manager"])[1] != spec_keys(seq!["ui", "remote_stats_interval"])[1]);
    lemma_set_path_frame(d26, spec_keys(seq!["ui", "show_docker_manager"]), JsonModel::Bool(s.ui_show_docker_manager), spec_keys(seq!["ui", "remote_stats_interval"]));
    assert("docker_manager_interval"@.len() != "remote_stats_interval"@.len());
    assert(spec_keys(seq!["ui", "docker_manager_interval"])[1] != spec_keys(seq!["ui", "remote_stats_interval"])[1]);
    lemma_set_path_frame(d27, spec_keys(seq!["ui", "docker_manager_interval"]), JsonModel::Number(JsonNumber::PosInt(spec_clamp(s.ui_docker_manager_interval as int, 3, 120) as u64)), spec_keys(seq!["ui", "remote_stats_interval"]));
}

#[verifier::spinoff_prover]
proof fn lemma_saved_terminal_keeps_ui_show_gpu_monitor(d: JsonModel, s: AppSettingsSummary)
    ensures
        spec_json_path(spec_saved_terminal(d, s), spec_keys(seq!["ui", "show_gpu_monitor"])) == Some(JsonModel::Bool(s.ui_show_gpu_monitor)),
{
    reveal_strlit("ascend_npu_monitor_interval");
    reveal_strlit("docker_manager_interval");
    reveal_strlit("gpu_monitor_interval");
    reveal_strlit("process_manager_interval");
    reveal_strlit("show_ascend_npu_monitor");
    reveal_strlit("show_docker_manager");
    reveal_strlit("show_gpu_monitor");
    reveal_strlit("show_process_manager");
    reveal_strlit("ui");
    let d1 = spec_set_path(d, spec_keys(seq!["terminal", "x11_display"]), JsonModel::Str(s.x11_display@, None));
    let d2 = spec_set_path(d1, spec_keys(seq!["terminal", "scrollback_lines"]), JsonModel::Number(JsonNumber::PosInt(spec_clamp(s.terminal_scrollback_lines as int, 100, 100000) as u64)));
    let d3 = spec_set_path(d2, spec_keys(seq!["terminal", "keep_alive_mode"]), JsonModel::Str(spec_keep_alive_mode(s.terminal_keep_alive_mode@), None));
    let d4 = spec_set_path(d3, spec_keys(seq!["terminal", "keep_alive_interval"]), JsonModel::Number(JsonNumber::PosInt(spec_clamp(s.terminal_keep_alive_interval as int, 0, 600) as u64)));
    let d5 = spec_set_path(d4, spec_keys(seq!["terminal", "timestamp_format"]), JsonModel::Str(spec_timestamp_format(s.terminal_timestamp_format@), None));
    let d6 = spec_set_path(d5, spec_keys(seq!["terminal", "hardware_acceleration"]), JsonModel::Bool(s.terminal_hardware_acceleration));
    let d7 = spec_set_path(d6, spec_keys(seq!["terminal", "show_workspace_padding"]), JsonModel::Bool(s.terminal_show_workspace_padding));
    let d8 = spec_set_path(d7, spec_keys(seq!["terminal", "show_line_numbers"]), JsonModel::Bool(s.terminal_show_line_numbers));
    let d9 = spec_set_path(d8, spec_keys(seq!["terminal", "show_timestamps"]), JsonModel::Bool(s.terminal_show_timestamps));
    let d10 = spec_set_path(d9, spec_keys(seq!["terminal", "show_multi_line_paste_dialog"]), JsonModel::Bool(s.terminal_show_multi_line_paste_dialog));
    let d11 = spec_set_path(d10, spec_keys(seq!["terminal", "paste_image_as_path"]), JsonModel::Bool(s.terminal_paste_image_as_path));
    let d12 = spec_set_path(d11, spec_keys(seq!["terminal", "reconnect_restore_cwd"]), JsonModel::Bool(s.terminal_reconnect_restore_cwd));
    let d13 = spec_set_path(d12, spec_keys(seq!["terminal", "low_latency_mode"]), JsonModel::Bool(s.terminal_low_latency_mode));
    let d14 = spec_set_path(d13, spec_keys(seq!["terminal", "zebra_stripes_enabled"]), JsonModel::Bool(s.terminal_zebra_stripes_enabled));
    let d15 = spec_set_path(d14, spec_keys(seq!["terminal", "action_links_enabled"]), JsonModel::Bool(s.terminal_action_links_enabled));
    let d16 = spec_set_path(d15, spec_keys(seq!["terminal", "action_links_matchers"]), spec_matchers_value(s.terminal_action_links_matchers));
    let d17 = spec_set_path(d16, spec_keys(seq!["search", "custom_engines"]), spec_engines_value(engines_view(s.search_custom_engines@)));
    let d18 = spec_set_path(d17, spec_keys(seq!["ui", "show_notes_panel"]), JsonModel::Bool(s.ui_show_notes_panel));
    let d19 = spec_set_path(d18, spec_keys(seq!["ui", "show_remote_stats"]), JsonModel::Bool(s.ui_show_remote_stats));
    let d20 = spec_set_path(d19, spec_keys(seq!["ui", "remote_stats_interval"]), JsonModel::Number(JsonNumber::PosInt(spec_clamp(s.ui_remote_stats_interval as int, 1, 60) as u64)));
    let d21 = spec_set_path(d20, spec_keys(seq!["ui", "show_gpu_monitor"]), JsonModel::Bool(s.ui_show_gpu_monitor));
    let d22 = spec_set_path(d21, spec_keys(seq!["ui", "gpu_monitor_interval"]), JsonModel::Number(JsonNumber::PosInt(spec_clamp(s.ui_gpu_monitor_interval as int, 3, 120) as u64)));
    let d23 = spec_set_path(d22, spec_keys(seq!["ui", "show_ascend_npu_monitor"]), JsonModel::Bool(s.ui_show_ascend_npu_monitor));
    let d24 = spec_set_path(d23, spec_keys(seq!["ui", "ascend_npu_monitor_interval"]), JsonModel::Number(JsonNumber::PosInt(spec_clamp(s.ui_ascend_npu_monitor_interval as int, 3, 120) as u64)));
    let d25 = spec_set_path(d24, spec_keys(seq!["ui", "show_process_manager"]), JsonModel::Bool(s.ui_show_process_manager));
    let d26 = spec_set_path(d25, spec_keys(seq!["ui", "process_manager_interval"]), JsonModel::Number(JsonNumber::PosInt(spec_clamp(s.ui_process_manager_interval as int, 3, 120) as u64)));
    let d27 = spec_set_path(d26, spec_keys(seq!["ui", "show_docker_manager"]), JsonModel::Bool(s.ui_show_docker_manager));
    let d28 = spec_set_path(d27, spec_keys(seq!["ui", "docker_manager_interval"]), JsonModel::Number(JsonNumber::PosInt(spec_clamp(s.ui_docker_manager_interval as int, 3, 120) as u64)));
    assert(spec_saved_terminal_part1(d, s) == d8);
    assert(spec_saved_terminal_part2(d8, s) == d16);
    assert(spec_saved_terminal_part3(d16, s) == d24);
    assert(spec_saved_terminal_part4(d24, s) == d28);
    assert(spec_saved_terminal(d, s) == d28);
    lemma_set_path_then_read(d20, spec_keys(seq!["ui", "show_gpu_monitor"]), JsonModel::Bool(s.ui_show_gpu_monitor));
    assert("gpu_monitor_interval"@.len() != "show_gpu_monitor"@.len());
    assert(spec_keys(seq!["ui", "gpu_monitor_interval"])[1] != spec_keys(seq!["ui", "show_gpu_monitor"])[1]);
    lemma_set_path_frame(d21, spec_keys(seq!["ui", "gpu_monitor_interval"]), JsonModel::Number(JsonNumber::PosInt(spec_clamp(s.ui_gpu_monitor_interval as int, 3, 120) as u64)), spec_keys(seq!["ui", "show_gpu_monitor"]));
    assert("show_ascend_npu_monitor"@.len() != "show_gpu_monitor"@.len());
    assert(spec_keys(seq!["ui", "show_ascend_npu_monitor"])[1] != spec_keys(seq!["ui", "show_gpu_monitor"])[1]);
    lemma_set_path_frame(d22, spec_keys(seq!["ui", "show_ascend_npu_monitor"]), JsonModel::Bool(s.ui_show_ascend_npu_monitor), spec_keys(seq!["ui", "show_gpu_monitor"]));
    assert("ascend_npu_monitor_interval"@.len() != "show_gpu_monitor"@.len());
    assert(spec_keys(seq!["ui", "ascend_npu_monitor_interval"])[1] != spec_keys(seq!["ui", "show_gpu_monitor"])[1]);
    lemma_set_path_frame(d23, spec_keys(seq!["ui", "ascend_npu_monitor_interval"]), JsonModel::Number(JsonNumber::PosInt(spec_clamp(s.ui_ascend_npu_monitor_interval as int, 3, 120) as u64)), spec_keys(seq!["ui", "show_gpu_monitor"]));
    assert("show_process_manager"@.len() != "show_gpu_monitor"@.len());
    assert(spec_keys(seq!["ui", "show_process_manager"])[1] != spec_keys(seq!["ui", "show_gpu_monitor"])[1]);
    lemma_set_path_frame(d24, spec_keys(seq!["ui", "show_process_manager"]), JsonModel::Bool(s.ui_show_process_manager), spec_keys(seq!["ui", "show_gpu_monitor"]));
    assert("process_manager_interval"@.len() != "show_gpu_monitor"@.len());
    assert(spec_keys(seq!["ui", "process_manager_interval"])[1] != spec_keys(seq!["ui", "show_gpu_monitor"])[1]);
    lemma_set_path_frame(d25, spec_keys(seq!["ui", "process_manager_interval"]), JsonModel::Number(JsonNumber::PosInt(spec_clamp(s.ui_process_manager_interval as int, 3, 120) as u64)), spec_keys(seq!["ui", "show_gpu_monitor"]));
    assert("show_docker_manager"@.len() != "show_gpu_monitor"@.len());
    assert(spec_keys(seq!["ui", "show_docker_manager"])[1] != spec_keys(seq!["ui", "show_gpu_monitor"])[1]);
    lemma_set_path_frame(d26, spec_keys(seq!["ui", "show_docker_manager"]), JsonModel::Bool(s.ui_show_docker_manager), spec_keys(seq!["ui", "show_gpu_monitor"]));
    assert("docker_manager_interval"@.len() != "show_gpu_monitor"@.len());
    assert(spec_keys(seq!["ui", "docker_manager_interval"])[1] != spec_keys(seq!["ui", "show_gpu_monitor"])[1]);
    lemma_set_path_frame(d27, spec_keys(seq!["ui", "docker_manager_interval"]), JsonModel::Number(JsonNumber::PosInt(spec_clamp(s.ui_docker_manager_interval as int, 3, 120) as u64)), spec_keys(seq!["ui", "show_gpu_monitor"]));
}

#[verifier::spinoff_prover]
proof fn lemma_saved_terminal_keeps_ui_gpu_monitor_interval(d: JsonModel, s: AppSettingsSummary)
    ensures
        spec_json_path(spec_saved_terminal(d, s), spec_keys(seq!["ui", "gpu_monitor_interval"])) == Some(JsonModel::Number(JsonNumber::PosInt(spec_clamp(s.ui_gpu_monitor_interval as int, 3, 120) as u64))),
{
    reveal_strlit("ascend_npu_monitor_interval");
    reveal_strlit("docker_manager_interval");
    reveal_strlit("gpu_monitor_interval");
    reveal_strlit("process_manager_interval");
    reveal_strlit("show_ascend_npu_monitor");
    reveal_strlit("show_docker_manager");
    reveal_strlit("show_process_manager");
    reveal_strlit("ui");
    let d1 = spec_set_path(d, spec_keys(seq!["terminal", "x11_display"]), JsonModel::Str(s.x11_display@, None));
    let d2 = spec_set_path(d1, spec_keys(seq!["terminal", "scrollback_lines"]), JsonModel::Number(JsonNumber::PosInt(spec_clamp(s.terminal_scrollback_lines as int, 100, 100000) as u64)));
    let d3 = spec_set_path(d2, spec_keys(seq!["terminal", "keep_alive_mode"]), JsonModel::Str(spec_keep_alive_mode(s.terminal_keep_alive_mode@), None));
    let d4 = spec_set_path(d3, spec_keys(seq!["terminal", "keep_alive_interval"]), JsonModel::Number(JsonNumber::PosInt(spec_clamp(s.terminal_keep_alive_interval as int, 0, 600) as u64)));
    let d5 = spec_set_path(d4, spec_keys(seq!["terminal", "timestamp_format"]), JsonModel::Str(spec_timestamp_format(s.terminal_timestamp_format@), None));
    let d6 = spec_set_path(d5, spec_keys(seq!["terminal", "hardware_acceleration"]), JsonModel::Bool(s.terminal_hardware_acceleration));
    let d7 = spec_set_path(d6, spec_keys(seq!["terminal", "show_workspace_padding"]), JsonModel::Bool(s.terminal_show_workspace_padding));
    let d8 = spec_set_path(d7, spec_keys(seq!["terminal", "show_line_numbers"]), JsonModel::Bool(s.terminal_show_line_numbers));
    let d9 = spec_set_path(d8, spec_keys(seq!["terminal", "show_timestamps"]), JsonModel::Bool(s.terminal_show_timestamps));
    let d10 = spec_set_path(d9, spec_keys(seq!["terminal", "show_multi_line_paste_dialog"]), JsonModel::Bool(s.terminal_show_multi_line_paste_dialog));
    let d11 = spec_set_path(d10, spec_keys(seq!["terminal", "paste_image_as_path"]), JsonModel::Bool(s.terminal_paste_image_as_path));
    let d12 = spec_set_path(d11, spec_keys(seq!["terminal", "reconnect_restore_cwd"]), JsonModel::Bool(s.terminal_reconnect_restore_cwd));
    let d13 = spec_set_path(d12, spec_keys(seq!["terminal", "low_latency_mode"]), JsonModel::Bool(s.terminal_low_latency_mode));
    let d14 = spec_set_path(d13, spec_keys(seq!["terminal", "zebra_stripes_enabled"]), JsonModel::Bool(s.terminal_zebra_stripes_enabled));
    let d15 = spec_set_path(d14, spec_keys(seq!["terminal", "action_links_enabled"]), JsonModel::Bool(s.terminal_action_links_enabled));
    let d16 = spec_set_path(d15, spec_keys(seq!["terminal", "action_links_matchers"]), spec_matchers_value(s.terminal_action_links_matchers));
    let d17 = spec_set_path(d16, spec_keys(seq!["search", "custom_engines"]), spec_engines_value(engines_view(s.search_custom_engines@)));
    let d18 = spec_set_path(d17, spec_keys(seq!["ui", "show_notes_panel"]), JsonModel::Bool(s.ui_show_notes_panel));
    let d19 = spec_set_path(d18, spec_keys(seq!["ui", "show_remote_stats"]), JsonModel::Bool(s.ui_show_remote_stats));
    let d20 = spec_set_path(d19, spec_keys(seq!["ui", "remote_stats_interval"]), JsonModel::Number(JsonNumber::PosInt(spec_clamp(s.ui_remote_stats_interval as int, 1, 60) as u64)));
    let d21 = spec_set_path(d20, spec_keys(seq!["ui", "show_gpu_monitor"]), JsonModel::Bool(s.ui_show_gpu_monitor));
    let d22 = spec_set_path(d21, spec_keys(seq!["ui", "gpu_monitor_interval"]), JsonModel::Number(JsonNumber::PosInt(spec_clamp(s.ui_gpu_monitor_interval as int, 3, 120) as u64)));
    let d23 = spec_set_path(d22, spec_keys(seq!["ui", "show_ascend_npu_monitor"]), JsonModel::Bool(s.ui_show_ascend_npu_monitor));
    let d24 = spec_set_path(d23, spec_keys(seq!["ui", "ascend_npu_monitor_interval"]), JsonModel::Number(JsonNumber::PosInt(spec_clamp(s.ui_ascend_npu_monitor_interval as int, 3, 120) as u64)));
    let d25 = spec_set_path(d24, spec_keys(seq!["ui", "show_process_manager"]), JsonModel::Bool(s.ui_show_process_manager));
    let d26 = spec_set_path(d25, spec_keys(seq!["ui", "process_manager_interval"]), JsonModel::Number(JsonNumber::PosInt(spec_clamp(s.ui_process_manager_interval as int, 3, 120) as u64)));
    let d27 = spec_set_path(d26, spec_keys(seq!["ui", "show_docker_manager"]), JsonModel::Bool(s.ui_show_docker_manager));
    let d28 = spec_set_path(d27, spec_keys(seq!["ui", "docker_manager_interval"]), JsonModel::Number(JsonNumber::PosInt(spec_clamp(s.ui_docker_manager_interval as int, 3, 120) as u64)));
    assert(spec_saved_terminal_part1(d, s) == d8);
    assert(spec_saved_terminal_part2(d8, s) == d16);
    assert(spec_saved_terminal_part3(d16, s) == d24);
    assert(spec_saved_terminal_part4(d24, s) == d28);
    assert(spec_saved_terminal(d, s) == d28);
    lemma_set_path_then_read(d21, spec_keys(seq!["ui", "gpu_monitor_interval"]), JsonModel::Number(JsonNumber::PosInt(spec_clamp(s.ui_gpu_monitor_interval as int, 3, 120) as u64)));
    assert("show_ascend_npu_monitor"@.len() != "gpu_monitor_interval"@.len());
    assert(spec_keys(seq!["ui", "show_ascend_npu_monitor"])[1] != spec_keys(seq!["ui", "gpu_monitor_interval"])[1]);
    lemma_set_path_frame(d22, spec_keys(seq!["ui", "show_ascend_npu_monitor"]), JsonModel::Bool(s.ui_show_ascend_npu_monitor), spec_keys(seq!["ui", "gpu_monitor_interval"]));
    assert("ascend_npu_monitor_interval"@.len() != "gpu_monitor_interval"@.len());
    assert(spec_keys(seq!["ui", "ascend_npu_monitor_interval"])[1] != spec_keys(seq!["ui", "gpu_monitor_interval"])[1]);
    lemma_set_path_frame(d23, spec_keys(seq!["ui", "ascend_npu_monitor_interval"]), JsonModel::Number(JsonNumber::PosInt(spec_clamp(s.ui_ascend_npu_monitor_interval as int, 3, 120) as u64)), spec_keys(seq!["ui", "gpu_monitor_interval"]));
    assert("show_process_manager"@[0] != "gpu_monitor_interval"@[0]);
    assert(spec_keys(seq!["ui", "show_process_manager"])[1] != spec_keys(seq!["ui", "gpu_monitor_interval"])[1]);
    lemma_set_path_frame(d24, spec_keys(seq!["ui", "show_process_manager"]), JsonModel::Bool(s.ui_show_process_manager), spec_keys(seq!["ui", "gpu_monitor_interval"]));
    assert("process_manager_interval"@.len() != "gpu_monitor_interval"@.len());
    assert(spec_keys(seq!["ui", "process_manager_interval"])[1] != spec_keys(seq!["ui", "gpu_monitor_interval"])[1]);
    lemma_set_path_frame(d25, spec_keys(seq!["ui", "process_manager_interval"]), JsonModel::Number(JsonNumber::PosInt(spec_clamp(s.ui_process_manager_interval as int, 3, 120) as u64)), spec_keys(seq!["ui", "gpu_monitor_interval"]));
    assert("show_docker_manager"@.len() != "gpu_monitor_interval"@.len());
    assert(spec_keys(seq!["ui", "show_docker_manager"])[1] != spec_keys(seq!["ui", "gpu_monitor_interval"])[1]);
    lemma_set_path_frame(d26, spec_keys(seq!["ui", "show_docker_manager"]), JsonModel::Bool(s.ui_show_docker_manager), spec_keys(seq!["ui", "gpu_monitor_interval"]));
    assert("docker_manager_interval"@.len() != "gpu_monitor_interval"@.len());
    assert(spec_keys(seq!["ui", "docker_manager_interval"])[1] != spec_keys(seq!["ui", "gpu_monitor_interval"])[1]);
    lemma_set_path_frame(d27, spec_keys(seq!["ui", "docker_manager_interval"]), JsonModel::Number(JsonNumber::PosInt(spec_clamp(s.ui_docker_manager_interval as int, 3, 120) as u64)), spec_keys(seq!["ui", "gpu_monitor_interval"]));
}

#[verifier::spinoff_prover]
proof fn lemma_saved_terminal_keeps_ui_show_ascend_npu_monitor(d: JsonModel, s: AppSettingsSummary)
    ensures
        spec_json_path(spec_saved_terminal(d, s), spec_keys(seq!["ui", "show_ascend_npu_monitor"])) == Some(JsonModel::Bool(s.ui_show_ascend_npu_monitor)),
{
    reveal_strlit("ascend_npu_monitor_interval");
    reveal_strlit("docker_manager_interval");
    reveal_strlit("process_manager_interval");
    reveal_strlit("show_ascend_npu_monitor");
    reveal_strlit("show_docker_manager");
    reveal_strlit("show_process_manager");
    reveal_strlit("ui");
    let d1 = spec_set_path(d, spec_keys(seq!["terminal", "x11_display"]), JsonModel::Str(s.x11_display@, None));
    let d2 = spec_set_path(d1, spec_keys(seq!["terminal", "scrollback_lines"]), JsonModel::Number(JsonNumber::PosInt(spec_clamp(s.terminal_scrollback_lines as int, 100, 100000) as u64)));
    let d3 = spec_set_path(d2, spec_keys(seq!["terminal", "keep_alive_mode"]), JsonModel::Str(spec_keep_alive_mode(s.terminal_keep_alive_mode@), None));
    let d4 = spec_set_path(d3, spec_keys(seq!["terminal", "keep_alive_interval"]), JsonModel::Number(JsonNumber::PosInt(spec_clamp(s.terminal_keep_alive_interval as int, 0, 600) as u64)));
    let d5 = spec_set_path(d4, spec_keys(seq!["terminal", "timestamp_format"]), JsonModel::Str(spec_timestamp_format(s.terminal_timestamp_format@), None));
    let d6 = spec_set_path(d5, spec_keys(seq!["terminal", "hardware_acceleration"]), JsonModel::Bool(s.terminal_hardware_acceleration));
    let d7 = spec_set_path(d6, spec_keys(seq!["terminal", "show_workspace_padding"]), JsonModel::Bool(s.terminal_show_workspace_padding));
    let d8 = spec_set_path(d7, spec_keys(seq!["terminal", "show_line_numbers"]), JsonModel::Bool(s.terminal_show_line_numbers));
    let d9 = spec_set_path(d8, spec_keys(seq!["terminal", "show_timestamps"]), JsonModel::Bool(s.terminal_show_timestamps));
    let d10 = spec_set_path(d9, spec_keys(seq!["terminal", "show_multi_line_paste_dialog"]), JsonModel::Bool(s.terminal_show_multi_line_paste_dialog));
    let d11 = spec_set_path(d10, spec_keys(seq!["terminal", "paste_image_as_path"]), JsonModel::Bool(s.terminal_paste_image_as_path));
    let d12 = spec_set_path(d11, spec_keys(seq!["terminal", "reconnect_restore_cwd"]), JsonModel::Bool(s.terminal_reconnect_restore_cwd));
    let d13 = spec_set_path(d12, spec_keys(seq!["terminal", "low_latency_mode"]), JsonModel::Bool(s.terminal_low_latency_mode));
    let d14 = spec_set_path(d13, spec_keys(seq!["terminal", "zebra_stripes_enabled"]), JsonModel::Bool(s.terminal_zebra_stripes_enabled));
    let d15 = spec_set_path(d14, spec_keys(seq!["terminal", "action_links_enabled"]), JsonModel::Bool(s.terminal_action_links_enabled));
    let d16 = spec_set_path(d15, spec_keys(seq!["terminal", "action_links_matchers"]), spec_matchers_value(s.terminal_action_links_matchers));
    let d17 = spec_set_path(d16, spec_keys(seq!["search", "custom_engines"]), spec_engines_value(engines_view(s.search_custom_engines@)));
    let d18 = spec_set_path(d17, spec_keys(seq!["ui", "show_notes_panel"]), JsonModel::Bool(s.ui_show_notes_panel));
    let d19 = spec_set_path(d18, spec_keys(seq!["ui", "show_remote_stats"]), JsonModel::Bool(s.ui_show_remote_stats));
    let d20 = spec_set_path(d19, spec_keys(seq!["ui", "remote_stats_interval"]), JsonModel::Number(JsonNumber::PosInt(spec_clamp(s.ui_remote_stats_interval as int, 1, 60) as u64)));
    let d21 = spec_set_path(d20, spec_keys(seq!["ui", "show_gpu_monitor"]), JsonModel::Bool(s.ui_show_gpu_monitor));
    let d22 = spec_set_path(d21, spec_keys(seq!["ui", "gpu_monitor_interval"]), JsonModel::Number(JsonNumber::PosInt(spec_clamp(s.ui_gpu_monitor_interval as int, 3, 120) as u64)));
    let d23 = spec_set_path(d22, spec_keys(seq!["ui", "show_ascend_npu_monitor"]), JsonModel::Bool(s.ui_show_ascend_npu_monitor));
    let d24 = spec_set_path(d23, spec_keys(seq!["ui", "ascend_npu_monitor_interval"]), JsonModel::Number(JsonNumber::PosInt(spec_clamp(s.ui_ascend_npu_monitor_interval as int, 3, 120) as u64)));
    let d25 = spec_set_path(d24, spec_keys(seq!["ui", "show_process_manager"]), JsonModel::Bool(s.ui_show_process_manager));
    let d26 = spec_set_path(d25, spec_keys(seq!["ui", "process_manager_interval"]), JsonModel::Number(JsonNumber::PosInt(spec_clamp(s.ui_process_manager_interval as int, 3, 120) as u64)));
    let d27 = spec_set_path(d26, spec_keys(seq!["ui", "show_docker_manager"]), JsonModel::Bool(s.ui_show_docker_manager));
    let d28 = spec_set_path(d27, spec_keys(seq!["ui", "docker_manager_interval"]), JsonModel::Number(JsonNumber::PosInt(spec_clamp(s.ui_docker_manager_interval as int, 3, 120) as u64)));
    assert(spec_saved_terminal_part1(d, s) == d8);
    assert(spec_saved_terminal_part2(d8, s) == d16);
    assert(spec_saved_terminal_part3(d16, s) == d24);
    assert(spec_saved_terminal_part4(d24, s) == d28);
    assert(spec_saved_terminal(d, s) == d28);
    lemma_set_path_then_read(d22, spec_keys(seq!["ui", "show_ascend_npu_monitor"]), JsonModel::Bool(s.ui_show_ascend_npu_monitor));
    assert("ascend_npu_monitor_interval"@.len() != "show_ascend_npu_monitor"@.len());
    assert(spec_keys(seq!["ui", "ascend_npu_monitor_interval"])[1] != spec_keys(seq!["ui", "show_ascend_npu_monitor"])[1]);
    lemma_set_path_frame(d23, spec_keys(seq!["ui", "ascend_npu_monitor_interval"]), JsonModel::Number(JsonNumber::PosInt(spec_clamp(s.ui_ascend_npu_monitor_interval as int, 3, 120) as u64)), spec_keys(seq!["ui", "show_ascend_npu_monitor"]));
    assert("show_process_manager"@.len() != "show_ascend_npu_monitor"@.len());
    assert(spec_keys(seq!["ui", "show_process_manager"])[1] != spec_keys(seq!["ui", "show_ascend_npu_monitor"])[1]);
    lemma_set_path_frame(d24, spec_keys(seq!["ui", "show_process_manager"]), JsonModel::Bool(s.ui_show_process_manager), spec_keys(seq!["ui", "show_ascend_npu_monitor"]));
    assert("process_manager_interval"@.len() != "show_ascend_npu_monitor"@.len());
    assert(spec_keys(seq!["ui", "process_manager_interval"])[1] != spec_keys(seq!["ui", "show_ascend_npu_monitor"])[1]);
    lemma_set_path_frame(d25, spec_keys(seq!["ui", "process_manager_interval"]), JsonModel::Number(JsonNumber::PosInt(spec_clamp(s.ui_process_manager_interval as int, 3, 120) as u64)), spec_keys(seq!["ui", "show_ascend_npu_monitor"]));
    assert("show_docker_manager"@.len() != "show_ascend_npu_monitor"@.len());
    assert(spec_keys(seq!["ui", "show_docker_manager"])[1] != spec_keys(seq!["ui", "show_ascend_npu_monitor"])[1]);
    lemma_set_path_frame(d26, spec_keys(seq!["ui", "show_docker_manager"]), JsonModel::Bool(s.ui_show_docker_manager), spec_keys(seq!["ui", "show_ascend_npu_monitor"]));
    assert("docker_manager_interval"@[0] != "show_ascend_npu_monitor"@[0]);
    assert(spec_keys(seq!["ui", "docker_manager_interval"])[1] != spec_keys(seq!["ui", "show_ascend_npu_monitor"])[1]);
    lemma_set_path_frame(d27, spec_keys(seq!["ui", "docker_manager_interval"]), JsonModel::Number(JsonNumber::PosInt(spec_clamp(s.ui_docker_manager_interval as int, 3, 120) as u64)), spec_keys(seq!["ui", "show_ascend_npu_monitor"]));
}

#[verifier::spinoff_prover]
proof fn lemma_saved_terminal_keeps_ui_ascend_npu_monitor_interval(d: JsonModel, s: AppSettingsSummary)
    ensures
        spec_json_path(spec_saved_terminal(d, s), spec_keys(seq!["ui", "ascend_npu_monitor_interval"])) == Some(JsonModel::Number(JsonNumber::PosInt(spec_clamp(s.ui_ascend_npu_monitor_interval as int, 3, 120) as u64))),
{
    reveal_strlit("ascend_npu_monitor_interval");
    reveal_strlit("docker_manager_interval");
    reveal_strlit("process_manager_interval");
    reveal_strlit("show_docker_manager");
    reveal_strlit("show_process_manager");
    reveal_strlit("ui");
    let d1 = spec_set_path(d, spec_keys(seq!["terminal", "x11_display"]), JsonModel::Str(s.x11_display@, None));
    let d2 = spec_set_path(d1, spec_keys(seq!["terminal", "scrollback_lines"]), JsonModel::Number(JsonNumber::PosInt(spec_clamp(s.terminal_scrollback_lines as int, 100, 100000) as u64)));
    let d3 = spec_set_path(d2, spec_keys(seq!["terminal", "keep_alive_mode"]), JsonModel::Str(spec_keep_alive_mode(s.terminal_keep_alive_mode@), None));
    let d4 = spec_set_path(d3, spec_keys(seq!["terminal", "keep_alive_interval"]), JsonModel::Number(JsonNumber::PosInt(spec_clamp(s.terminal_keep_alive_interval as int, 0, 600) as u64)));
    let d5 = spec_set_path(d4, spec_keys(seq!["terminal", "timestamp_format"]), JsonModel::Str(spec_timestamp_format(s.terminal_timestamp_format@), None));
    let d6 = spec_set_path(d5, spec_keys(seq!["terminal", "hardware_acceleration"]), JsonModel::Bool(s.terminal_hardware_acceleration));
    let d7 = spec_set_path(d6, spec_keys(seq!["terminal", "show_workspace_padding"]), JsonModel::Bool(s.terminal_show_workspace_padding));
    let d8 = spec_set_path(d7, spec_keys(seq!["terminal", "show_line_numbers"]), JsonModel::Bool(s.terminal_show_line_numbers));
    let d9 = spec_set_path(d8, spec_keys(seq!["terminal", "show_timestamps"]), JsonModel::Bool(s.terminal_show_timestamps));
    let d10 = spec_set_path(d9, spec_keys(seq!["terminal", "show_multi_line_paste_dialog"]), JsonModel::Bool(s.terminal_show_multi_line_paste_dialog));
    let d11 = spec_set_path(d10, spec_keys(seq!["terminal", "paste_image_as_path"]), JsonModel::Bool(s.terminal_paste_image_as_path));
    let d12 = spec_set_path(d11, spec_keys(seq!["terminal", "reconnect_restore_cwd"]), JsonModel::Bool(s.terminal_reconnect_restore_cwd));
    let d13 = spec_set_path(d12, spec_keys(seq!["terminal", "low_latency_mode"]), JsonModel::Bool(s.terminal_low_latency_mode));
    let d14 = spec_set_path(d13, spec_keys(seq!["terminal", "zebra_stripes_enabled"]), JsonModel::Bool(s.terminal_zebra_stripes_enabled));
    let d15 = spec_set_path(d14, spec_keys(seq!["terminal", "action_links_enabled"]), JsonModel::Bool(s.terminal_action_links_enabled));
    let d16 = spec_set_path(d15, spec_keys(seq!["terminal", "action_links_matchers"]), spec_matchers_value(s.terminal_action_links_matchers));
    let d17 = spec_set_path(d16, spec_keys(seq!["search", "custom_engines"]), spec_engines_value(engines_view(s.search_custom_engines@)));
    let d18 = spec_set_path(d17, spec_keys(seq!["ui", "show_notes_panel"]), JsonModel::Bool(s.ui_show_notes_panel));
    let d19 = spec_set_path(d18, spec_keys(seq!["ui", "show_remote_stats"]), JsonModel::Bool(s.ui_show_remote_stats));
    let d20 = spec_set_path(d19, spec_keys(seq!["ui", "remote_stats_interval"]), JsonModel::Number(JsonNumber::PosInt(spec_clamp(s.ui_remote_stats_interval as int, 1, 60) as u64)));
    let d21 = spec_set_path(d20, spec_keys(seq!["ui", "show_gpu_monitor"]), JsonModel::Bool(s.ui_show_gpu_monitor));
    let d22 = spec_set_path(d21, spec_keys(seq!["ui", "gpu_monitor_interval"]), JsonModel::Number(JsonNumber::PosInt(spec_clamp(s.ui_gpu_monitor_interval as int, 3, 120) as u64)));
    let d23 = spec_set_path(d22, spec_keys(seq!["ui", "show_ascend_npu_monitor"]), JsonModel::Bool(s.ui_show_ascend_npu_monitor));
    let d24 = spec_set_path(d23, spec_keys(seq!["ui", "ascend_npu_monitor_interval"]), JsonModel::Number(JsonNumber::PosInt(spec_clamp(s.ui_ascend_npu_monitor_interval as int, 3, 120) as u64)));
    let d25 = spec_set_path(d24, spec_keys(seq!["ui", "show_process_manager"]), JsonModel::Bool(s.ui_show_process_manager));
    let d26 = spec_set_path(d25, spec_keys(seq!["ui", "process_manager_interval"]), JsonModel::Number(JsonNumber::PosInt(spec_clamp(s.ui_process_manager_interval as int, 3, 120) as u64)));
    let d27 = spec_set_path(d26, spec_keys(seq!["ui", "show_docker_manager"]), JsonModel::Bool(s.ui_show_docker_manager));
    let d28 = spec_set_path(d27, spec_keys(seq!["ui", "docker_manager_interval"]), JsonModel::Number(JsonNumber::PosInt(spec_clamp(s.ui_docker_manager_interval as int, 3, 120) as u64)));
    assert(spec_saved_terminal_part1(d, s) == d8);
    assert(spec_saved_terminal_part2(d8, s) == d16);
    assert(spec_saved_terminal_part3(d16, s) == d24);
    assert(spec_saved_terminal_part4(d24, s) == d28);
    assert(spec_saved_terminal(d, s) == d28);
    lemma_set_path_then_read(d23, spec_keys(seq!["ui", "ascend_npu_monitor_interval"]), JsonModel::Number(JsonNumber::PosInt(spec_clamp(s.ui_ascend_npu_monitor_interval as int, 3, 120) as u64)));
    assert("show_process_manager"@.len() != "ascend_npu_monitor_interval"@.len());
    assert(spec_keys(seq!["ui", "show_process_manager"])[1] != spec_keys(seq!["ui", "ascend_npu_monitor_interval"])[1]);
    lemma_set_path_frame(d24, spec_keys(seq!["ui", "show_process_manager"]), JsonModel::Bool(s.ui_show_process_manager), spec_keys(seq!["ui", "ascend_npu_monitor_interval"]));
    assert("process_manager_interval"@.len() != "ascend_npu_monitor_interval"@.len());
    assert(spec_keys(seq!["ui", "process_manager_interval"])[1] != spec_keys(seq!["ui", "ascend_npu_monitor_interval"])[1]);
    lemma_set_path_frame(d25, spec_keys(seq!["ui", "process_manager_interval"]), JsonModel::Number(JsonNumber::PosInt(spec_clamp(s.ui_process_manager_interval as int, 3, 120) as u64)), spec_keys(seq!["ui", "ascend_npu_monitor_interval"]));
    assert("show_docker_manager"@.len() != "ascend_npu_monitor_interval"@.len());
    assert(spec_keys(seq!["ui", "show_docker_manager"])[1] != spec_keys(seq!["ui", "ascend_npu_monitor_interval"])[1]);
    lemma_set_path_frame(d26, spec_keys(seq!["ui", "show_docker_manager"]), JsonModel::Bool(s.ui_show_docker_manager), spec_keys(seq!["ui", "ascend_npu_monitor_interval"]));
    assert("docker_manager_interval"@.len() != "ascend_npu_monitor_interval"@.len());
    assert(spec_keys(seq!["ui", "docker_manager_interval"])[1] != spec_keys(seq!["ui", "ascend_npu_monitor_interval"])[1]);
    lemma_set_path_frame(d27, spec_keys(seq!["ui", "docker_manager_interval"]), JsonModel::Number(JsonNumber::PosInt(spec_clamp(s.ui_docker_manager_interval as int, 3, 120) as u64)), spec_keys(seq!["ui", "ascend_npu_monitor_interval"]));
}

#[verifier::spinoff_prover]
proof fn lemma_saved_terminal_keeps_ui_show_process_manager(d: JsonModel, s: AppSettingsSummary)
    ensures
        spec_json_path(spec_saved_terminal(d, s), spec_keys(seq!["ui", "show_process_manager"])) == Some(JsonModel::Bool(s.ui_show_process_manager)),
{
    reveal_strlit("docker_manager_interval");
    reveal_strlit("process_manager_interval");
    reveal_strlit("show_docker_manager");
    reveal_strlit("show_process_manager");
    reveal_strlit("ui");
    let d1 = spec_set_path(d, spec_keys(seq!["terminal", "x11_display"]), JsonModel::Str(s.x11_display@, None));
    let d2 = spec_set_path(d1, spec_keys(seq!["terminal", "scrollback_lines"]), JsonModel::Number(JsonNumber::PosInt(spec_clamp(s.terminal_scrollback_lines as int, 100, 100000) as u64)));
    let d3 = spec_set_path(d2, spec_keys(seq!["terminal", "keep_alive_mode"]), JsonModel::Str(spec_keep_alive_mode(s.terminal_keep_alive_mode@), None));
    let d4 = spec_set_path(d3, spec_keys(seq!["terminal", "keep_alive_interval"]), JsonModel::Number(JsonNumber::PosInt(spec_clamp(s.terminal_keep_alive_interval as int, 0, 600) as u64)));
    let d5 = spec_set_path(d4, spec_keys(seq!["terminal", "timestamp_format"]), JsonModel::Str(spec_timestamp_format(s.terminal_timestamp_format@), None));
    let d6 = spec_set_path(d5, spec_keys(seq!["terminal", "hardware_acceleration"]), JsonModel::Bool(s.terminal_hardware_acceleration));
    let d7 = spec_set_path(d6, spec_keys(seq!["terminal", "show_workspace_padding"]), JsonModel::Bool(s.terminal_show_workspace_padding));
    let d8 = spec_set_path(d7, spec_keys(seq!["terminal", "show_line_numbers"]), JsonModel::Bool(s.terminal_show_line_numbers));
    let d9 = spec_set_path(d8, spec_keys(seq!["terminal", "show_timestamps"]), JsonModel::Bool(s.terminal_show_timestamps));
    let d10 = spec_set_path(d9, spec_keys(seq!["terminal", "show_multi_line_paste_dialog"]), JsonModel::Bool(s.terminal_show_multi_line_paste_dialog));
    let d11 = spec_set_path(d10, spec_keys(seq!["terminal", "paste_image_as_path"]), JsonModel::Bool(s.terminal_paste_image_as_path));
    let d12 = spec_set_path(d11, spec_keys(seq!["terminal", "reconnect_restore_cwd"]), JsonModel::Bool(s.terminal_reconnect_restore_cwd));
    let d13 = spec_set_path(d12, spec_keys(seq!["terminal", "low_latency_mode"]), JsonModel::Bool(s.terminal_low_latency_mode));
    let d14 = spec_set_path(d13, spec_keys(seq!["terminal", "zebra_stripes_enabled"]), JsonModel::Bool(s.terminal_zebra_stripes_enabled));
    let d15 = spec_set_path(d14, spec_keys(seq!["terminal", "action_links_enabled"]), JsonModel::Bool(s.terminal_action_links_enabled));
    let d16 = spec_set_path(d15, spec_keys(seq!["terminal", "action_links_matchers"]), spec_matchers_value(s.terminal_action_links_matchers));
    let d17 = spec_set_path(d16, spec_keys(seq!["search", "custom_engines"]), spec_engines_value(engines_view(s.search_custom_engines@)));
    let d18 = spec_set_path(d17, spec_keys(seq!["ui", "show_notes_panel"]), JsonModel::Bool(s.ui_show_notes_panel));
    let d19 = spec_set_path(d18, spec_keys(seq!["ui", "show_remote_stats"]), JsonModel::Bool(s.ui_show_remote_stats));
    let d20 = spec_set_path(d19, spec_keys(seq!["ui", "remote_stats_interval"]), JsonModel::Number(JsonNumber::PosInt(spec_clamp(s.ui_remote_stats_interval as int, 1, 60) as u64)));
    let d21 = spec_set_path(d20, spec_keys(seq!["ui", "show_gpu_monitor"]), JsonModel::Bool(s.ui_show_gpu_monitor));
    let d22 = spec_set_path(d21, spec_keys(seq!["ui", "gpu_monitor_interval"]), JsonModel::Number(JsonNumber::PosInt(spec_clamp(s.ui_gpu_monitor_interval as int, 3, 120) as u64)));
    let d23 = spec_set_path(d22, spec_keys(seq!["ui", "show_ascend_npu_monitor"]), JsonModel::Bool(s.ui_show_ascend_npu_monitor));
    let d24 = spec_set_path(d23, spec_keys(seq!["ui", "ascend_npu_monitor_interval"]), JsonModel::Number(JsonNumber::PosInt(spec_clamp(s.ui_ascend_npu_monitor_interval as int, 3, 120) as u64)));
    let d25 = spec_set_path(d24, spec_keys(seq!["ui", "show_process_manager"]), JsonModel::Bool(s.ui_show_process_manager));
    let d26 = spec_set_path(d25, spec_keys(seq!["ui", "process_manager_interval"]), JsonModel::Number(JsonNumber::PosInt(spec_clamp(s.ui_process_manager_interval as int, 3, 120) as u64)));
    let d27 = spec_set_path(d26, spec_keys(seq!["ui", "show_docker_manager"]), JsonModel::Bool(s.ui_show_docker_manager));
    let d28 = spec_set_path(d27, spec_keys(seq!["ui", "docker_manager_interval"]), JsonModel::Number(JsonNumber::PosInt(spec_clamp(s.ui_docker_manager_interval as int, 3, 120) as u64)));
    assert(spec_saved_terminal_part1(d, s) == d8);
    assert(spec_saved_terminal_part2(d8, s) == d16);
    assert(spec_saved_terminal_part3(d16, s) == d24);
    assert(spec_saved_terminal_part4(d24, s) == d28);
    assert(spec_saved_terminal(d, s) == d28);
    lemma_set_path_then_read(d24, spec_keys(seq!["ui", "show_process_manager"]), JsonModel::Bool(s.ui_show_process_manager));
    assert("process_manager_interval"@.len() != "show_process_manager"@.len());
    assert(spec_keys(seq!["ui", "process_manager_interval"])[1] != spec_keys(seq!["ui", "show_process_manager"])[1]);
    lemma_set_path_frame(d25, spec_keys(seq!["ui", "process_manager_interval"]), JsonModel::Number(JsonNumber::PosInt(spec_clamp(s.ui_process_manager_interval as int, 3, 120) as u64)), spec_keys(seq!["ui", "show_process_manager"]));
    assert("show_docker_manager"@.len() != "show_process_manager"@.len());
    assert(spec_keys(seq!["ui", "show_docker_manager"])[1] != spec_keys(seq!["ui", "show_process_manager"])[1]);
    lemma_set_path_frame(d26, spec_keys(seq!["ui", "show_docker_manager"]), JsonModel::Bool(s.ui_show_docker_manager), spec_keys(seq!["ui", "show_process_manager"]));
    assert("docker_manager_interval"@.len() != "show_process_manager"@.len());
    assert(spec_keys(seq!["ui", "docker_manager_interval"])[1] != spec_keys(seq!["ui", "show_process_manager"])[1]);
    lemma_set_path_frame(d27, spec_keys(seq!["ui", "docker_manager_interval"]), JsonModel::Number(JsonNumber::PosInt(spec_clamp(s.ui_docker_manager_interval as int, 3, 120) as u64)), spec_keys(seq!["ui", "show_process_manager"]));
}

#[verifier::spinoff_prover]
proof fn lemma_saved_terminal_keeps_ui_process_manager_interval(d: JsonModel, s: AppSettingsSummary)
    ensures
        spec_json_path(spec_saved_terminal(d, s), spec_keys(seq!["ui", "process_manager_interval"])) == Some(JsonModel::Number(JsonNumber::PosInt(spec_clamp(s.ui_process_manager_interval as int, 3, 120) as u64))),
{
    reveal_strlit("docker_manager_interval");
    reveal_strlit("process_manager_interval");
    reveal_strlit("show_docker_manager");
    reveal_strlit("ui");
    let d1 = spec_set_path(d, spec_keys(seq!["terminal", "x11_display"]), JsonModel::Str(s.x11_display@, None));
    let d2 = spec_set_path(d1, spec_keys(seq!["terminal", "scrollback_lines"]), JsonModel::Number(JsonNumber::PosInt(spec_clamp(s.terminal_scrollback_lines as int, 100, 100000) as u64)));
    let d3 = spec_set_path(d2, spec_keys(seq!["terminal", "keep_alive_mode"]), JsonModel::Str(spec_keep_alive_mode(s.terminal_keep_alive_mode@), None));
    let d4 = spec_set_path(d3, spec_keys(seq!["terminal", "keep_alive_interval"]), JsonModel::Number(JsonNumber::PosInt(spec_clamp(s.terminal_keep_alive_interval as int, 0, 600) as u64)));
    let d5 = spec_set_path(d4, spec_keys(seq!["terminal", "timestamp_format"]), JsonModel::Str(spec_timestamp_format(s.terminal_timestamp_format@), None));
    let d6 = spec_set_path(d5, spec_keys(seq!["terminal", "hardware_acceleration"]), JsonModel::Bool(s.terminal_hardware_acceleration));
    let d7 = spec_set_path(d6, spec_keys(seq!["terminal", "show_workspace_padding"]), JsonModel::Bool(s.terminal_show_workspace_padding));
    let d8 = spec_set_path(d7, spec_keys(seq!["terminal", "show_line_numbers"]), JsonModel::Bool(s.terminal_show_line_numbers));
    let d9 = spec_set_path(d8, spec_keys(seq!["terminal", "show_timestamps"]), JsonModel::Bool(s.terminal_show_timestamps));
    let d10 = spec_set_path(d9, spec_keys(seq!["terminal", "show_multi_line_paste_dialog"]), JsonModel::Bool(s.terminal_show_multi_line_paste_dialog));
    let d11 = spec_set_path(d10, spec_keys(seq!["terminal", "paste_image_as_path"]), JsonModel::Bool(s.terminal_paste_image_as_path));
    let d12 = spec_set_path(d11, spec_keys(seq!["terminal", "reconnect_restore_cwd"]), JsonModel::Bool(s.terminal_reconnect_restore_cwd));
    let d13 = spec_set_path(d12, spec_keys(seq!["terminal", "low_latency_mode"]), JsonModel::Bool(s.terminal_low_latency_mode));
    let d14 = spec_set_path(d13, spec_keys(seq!["terminal", "zebra_stripes_enabled"]), JsonModel::Bool(s.terminal_zebra_stripes_enabled));
    let d15 = spec_set_path(d14, spec_keys(seq!["terminal", "action_links_enabled"]), JsonModel::Bool(s.terminal_action_links_enabled));
    let d16 = spec_set_path(d15, spec_keys(seq!["terminal", "action_links_matchers"]), spec_matchers_value(s.terminal_action_links_matchers));
    let d17 = spec_set_path(d16, spec_keys(seq!["search", "custom_engines"]), spec_engines_value(engines_view(s.search_custom_engines@)));
    let d18 = spec_set_path(d17, spec_keys(seq!["ui", "show_notes_panel"]), JsonModel::Bool(s.ui_show_notes_panel));
    let d19 = spec_set_path(d18, spec_keys(seq!["ui", "show_remote_stats"]), JsonModel::Bool(s.ui_show_remote_stats));
    let d20 = spec_set_path(d19, spec_keys(seq!["ui", "remote_stats_interval"]), JsonModel::Number(JsonNumber::PosInt(spec_clamp(s.ui_remote_stats_interval as int, 1, 60) as u64)));
    let d21 = spec_set_path(d20, spec_keys(seq!["ui", "show_gpu_monitor"]), JsonModel::Bool(s.ui_show_gpu_monitor));
    let d22 = spec_set_path(d21, spec_keys(seq!["ui", "gpu_monitor_interval"]), JsonModel::Number(JsonNumber::PosInt(spec_clamp(s.ui_gpu_monitor_interval as int, 3, 120) as u64)));
    let d23 = spec_set_path(d22, spec_keys(seq!["ui", "show_ascend_npu_monitor"]), JsonModel::Bool(s.ui_show_ascend_npu_monitor));
    let d24 = spec_set_path(d23, spec_keys(seq!["ui", "ascend_npu_monitor_interval"]), JsonModel::Number(JsonNumber::PosInt(spec_clamp(s.ui_ascend_npu_monitor_interval as int, 3, 120) as u64)));
    let d25 = spec_set_path(d24, spec_keys(seq!["ui", "show_process_manager"]), JsonModel::Bool(s.ui_show_process_manager));
    let d26 = spec_set_path(d25, spec_keys(seq!["ui", "process_manager_interval"]), JsonModel::Number(JsonNumber::PosInt(spec_clamp(s.ui_process_manager_interval as int, 3, 120) as u64)));
    let d27 = spec_set_path(d26, spec_keys(seq!["ui", "show_docker_manager"]), JsonModel::Bool(s.ui_show_docker_manager));
    let d28 = spec_set_path(d27, spec_keys(seq!["ui", "docker_manager_interval"]), JsonModel::Number(JsonNumber::PosInt(spec_clamp(s.ui_docker_manager_interval as int, 3, 120) as u64)));
    assert(spec_saved_terminal_part1(d, s) == d8);
    assert(spec_saved_terminal_part2(d8, s) == d16);
    assert(spec_saved_terminal_part3(d16, s) == d24);
    assert(spec_saved_terminal_part4(d24, s) == d28);
    assert(spec_saved_terminal(d, s) == d28);
    lemma_set_path_then_read(d25, spec_keys(seq!["ui", "process_manager_interval"]), JsonModel::Number(JsonNumber::PosInt(spec_clamp(s.ui_process_manager_interval as int, 3, 120) as u64)));
    assert("show_docker_manager"@.len() != "process_manager_interval"@.len());
    assert(spec_keys(seq!["ui", "show_docker_manager"])[1] != spec_keys(seq!["ui", "process_manager_interval"])[1]);
    lemma_set_path_frame(d26, spec_keys(seq!["ui", "show_docker_manager"]), JsonModel::Bool(s.ui_show_docker_manager), spec_keys(seq!["ui", "process_manager_interval"]));
    assert("docker_manager_interval"@.len() != "process_manager_interval"@.len());
    assert(spec_keys(seq!["ui", "docker_manager_interval"])[1] != spec_keys(seq!["ui", "process_manager_interval"])[1]);
    lemma_set_path_frame(d27, spec_keys(seq!["ui", "docker_manager_interval"]), JsonModel::Number(JsonNumber::PosInt(spec_clamp(s.ui_docker_manager_interval as int, 3, 120) as u64)), spec_keys(seq!["ui", "process_manager_interval"]));
}

#[verifier::spinoff_prover]
proof fn lemma_saved_terminal_keeps_ui_show_docker_manager(d: JsonModel, s: AppSettingsSummary)
    ensures
        spec_json_path(spec_saved_terminal(d, s), spec_keys(seq!["ui", "show_docker_manager"])) == Some(JsonModel::Bool(s.ui_show_docker_manager)),
{
    reveal_strlit("docker_manager_interval");
    reveal_strlit("show_docker_manager");
    reveal_strlit("ui");
    let d1 = spec_set_path(d, spec_keys(seq!["terminal", "x11_display"]), JsonModel::Str(s.x11_display@, None));
    let d2 = spec_set_path(d1, spec_keys(seq!["terminal", "scrollback_lines"]), JsonModel::Number(JsonNumber::PosInt(spec_clamp(s.terminal_scrollback_lines as int, 100, 100000) as u64)));
    let d3 = spec_set_path(d2, spec_keys(seq!["terminal", "keep_alive_mode"]), JsonModel::Str(spec_keep_alive_mode(s.terminal_keep_alive_mode@), None));
    let d4 = spec_set_path(d3, spec_keys(seq!["terminal", "keep_alive_interval"]), JsonModel::Number(JsonNumber::PosInt(spec_clamp(s.terminal_keep_alive_interval as int, 0, 600) as u64)));
    let d5 = spec_set_path(d4, spec_keys(seq!["terminal", "timestamp_format"]), JsonModel::Str(spec_timestamp_format(s.terminal_timestamp_format@), None));
    let d6 = spec_set_path(d5, spec_keys(seq!["terminal", "hardware_acceleration"]), JsonModel::Bool(s.terminal_hardware_acceleration));
    let d7 = spec_set_path(d6, spec_keys(seq!["terminal", "show_workspace_padding"]), JsonModel::Bool(s.terminal_show_workspace_padding));
    let d8 = spec_set_path(d7, spec_keys(seq!["terminal", "show_line_numbers"]), JsonModel::Bool(s.terminal_show_line_numbers));
    let d9 = spec_set_path(d8, spec_keys(seq!["terminal", "show_timestamps"]), JsonModel::Bool(s.terminal_show_timestamps));
    let d10 = spec_set_path(d9, spec_keys(seq!["terminal", "show_multi_line_paste_dialog"]), JsonModel::Bool(s.terminal_show_multi_line_paste_dialog));
    let d11 = spec_set_path(d10, spec_keys(seq!["terminal", "paste_image_as_path"]), JsonModel::Bool(s.terminal_paste_image_as_path));
    let d12 = spec_set_path(d11, spec_keys(seq!["terminal", "reconnect_restore_cwd"]), JsonModel::Bool(s.terminal_reconnect_restore_cwd));
    let d13 = spec_set_path(d12, spec_keys(seq!["terminal", "low_latency_mode"]), JsonModel::Bool(s.terminal_low_latency_mode));
    let d14 = spec_set_path(d13, spec_keys(seq!["terminal", "zebra_stripes_enabled"]), JsonModel::Bool(s.terminal_zebra_stripes_enabled));
    let d15 = spec_set_path(d14, spec_keys(seq!["terminal", "action_links_enabled"]), JsonModel::Bool(s.terminal_action_links_enabled));
    let d16 = spec_set_path(d15, spec_keys(seq!["terminal", "action_links_matchers"]), spec_matchers_value(s.terminal_action_links_matchers));
    let d17 = spec_set_path(d16, spec_keys(seq!["search", "custom_engines"]), spec_engines_value(engines_view(s.search_custom_engines@)));
    let d18 = spec_set_path(d17, spec_keys(seq!["ui", "show_notes_panel"]), JsonModel::Bool(s.ui_show_notes_panel));
    let d19 = spec_set_path(d18, spec_keys(seq!["ui", "show_remote_stats"]), JsonModel::Bool(s.ui_show_remote_stats));
    let d20 = spec_set_path(d19, spec_keys(seq!["ui", "remote_stats_interval"]), JsonModel::Number(JsonNumber::PosInt(spec_clamp(s.ui_remote_stats_interval as int, 1, 60) as u64)));
    let d21 = spec_set_path(d20, spec_keys(seq!["ui", "show_gpu_monitor"]), JsonModel::Bool(s.ui_show_gpu_monitor));
    let d22 = spec_set_path(d21, spec_keys(seq!["ui", "gpu_monitor_interval"]), JsonModel::Number(JsonNumber::PosInt(spec_clamp(s.ui_gpu_monitor_interval as int, 3, 120) as u64)));
    let d23 = spec_set_path(d22, spec_keys(seq!["ui", "show_ascend_npu_monitor"]), JsonModel::Bool(s.ui_show_ascend_npu_monitor));
    let d24 = spec_set_path(d23, spec_keys(seq!["ui", "ascend_npu_monitor_interval"]), JsonModel::Number(JsonNumber::PosInt(spec_clamp(s.ui_ascend_npu_monitor_interval as int, 3, 120) as u64)));
    let d25 = spec_set_path(d24, spec_keys(seq!["ui", "show_process_manager"]), JsonModel::Bool(s.ui_show_process_manager));
    let d26 = spec_set_path(d25, spec_keys(seq!["ui", "process_manager_interval"]), JsonModel::Number(JsonNumber::PosInt(spec_clamp(s.ui_process_manager_interval as int, 3, 120) as u64)));
    let d27 = spec_set_path(d26, spec_keys(seq!["ui", "show_docker_manager"]), JsonModel::Bool(s.ui_show_docker_manager));
    let d28 = spec_set_path(d27, spec_keys(seq!["ui", "docker_manager_interval"]), JsonModel::Number(JsonNumber::PosInt(spec_clamp(s.ui_docker_manager_interval as int, 3, 120) as u64)));
    assert(spec_saved_terminal_part1(d, s) == d8);
    assert(spec_saved_terminal_part2(d8, s) == d16);
    assert(spec_saved_terminal_part3(d16, s) == d24);
    assert(spec_saved_terminal_part4(d24, s) == d28);
    assert(spec_saved_terminal(d, s) == d28);
    lemma_set_path_then_read(d26, spec_keys(seq!["ui", "show_docker_manager"]), JsonModel::Bool(s.ui_show_docker_manager));
    assert("docker_manager_interval"@.len() != "show_docker_manager"@.len());
    assert(spec_keys(seq!["ui", "docker_manager_interval"])[1] != spec_keys(seq!["ui", "show_docker_manager"])[1]);
    lemma_set_path_frame(d27, spec_keys(seq!["ui", "docker_manager_interval"]), JsonModel::Number(JsonNumber::PosInt(spec_clamp(s.ui_docker_manager_interval as int, 3, 120) as u64)), spec_keys(seq!["ui", "show_docker_manager"]));
}

#[verifier::spinoff_prover]
proof fn lemma_saved_terminal_keeps_ui_docker_manager_interval(d: JsonModel, s: AppSettingsSummary)
    ensures
        spec_json_path(spec_saved_terminal(d, s), spec_keys(seq!["ui", "docker_manager_interval"])) == Some(JsonModel::Number(JsonNumber::PosInt(spec_clamp(s.ui_docker_manager_interval as int, 3, 120) as u64))),
{
    reveal_strlit("docker_manager_interval");
    reveal_strlit("ui");
    let d1 = spec_set_path(d, spec_keys(seq!["terminal", "x11_display"]), JsonModel::Str(s.x11_display@, None));
    let d2 = spec_set_path(d1, spec_keys(seq!["terminal", "scrollback_lines"]), JsonModel::Number(JsonNumber::PosInt(spec_clamp(s.terminal_scrollback_lines as int, 100, 100000) as u64)));
    let d3 = spec_set_path(d2, spec_keys(seq!["terminal", "keep_alive_mode"]), JsonModel::Str(spec_keep_alive_mode(s.terminal_keep_alive_mode@), None));
    let d4 = spec_set_path(d3, spec_keys(seq!["terminal", "keep_alive_interval"]), JsonModel::Number(JsonNumber::PosInt(spec_clamp(s.terminal_keep_alive_interval as int, 0, 600) as u64)));
    let d5 = spec_set_path(d4, spec_keys(seq!["terminal", "timestamp_format"]), JsonModel::Str(spec_timestamp_format(s.terminal_timestamp_format@), None));
    let d6 = spec_set_path(d5, spec_keys(seq!["terminal", "hardware_acceleration"]), JsonModel::Bool(s.terminal_hardware_acceleration));
    let d7 = spec_set_path(d6, spec_keys(seq!["terminal", "show_workspace_padding"]), JsonModel::Bool(s.terminal_show_workspace_padding));
    let d8 = spec_set_path(d7, spec_keys(seq!["terminal", "show_line_numbers"]), JsonModel::Bool(s.terminal_show_line_numbers));
    let d9 = spec_set_path(d8, spec_keys(seq!["terminal", "show_timestamps"]), JsonModel::Bool(s.terminal_show_timestamps));
    let d10 = spec_set_path(d9, spec_keys(seq!["terminal", "show_multi_line_paste_dialog"]), JsonModel::Bool(s.terminal_show_multi_line_paste_dialog));
    let d11 = spec_set_path(d10, spec_keys(seq!["terminal", "paste_image_as_path"]), JsonModel::Bool(s.terminal_paste_image_as_path));
    let d12 = spec_set_path(d11, spec_keys(seq!["terminal", "reconnect_restore_cwd"]), JsonModel::Bool(s.terminal_reconnect_restore_cwd));
    let d13 = spec_set_path(d12, spec_keys(seq!["terminal", "low_latency_mode"]), JsonModel::Bool(s.terminal_low_latency_mode));
    let d14 = spec_set_path(d13, spec_keys(seq!["terminal", "zebra_stripes_enabled"]), JsonModel::Bool(s.terminal_zebra_stripes_enabled));
    let d15 = spec_set_path(d14, spec_keys(seq!["terminal", "action_links_enabled"]), JsonModel::Bool(s.terminal_action_links_enabled));
    let d16 = spec_set_path(d15, spec_keys(seq!["terminal", "action_links_matchers"]), spec_matchers_value(s.terminal_action_links_matchers));
    let d17 = spec_set_path(d16, spec_keys(seq!["search", "custom_engines"]), spec_engines_value(engines_view(s.search_custom_engines@)));
    let d18 = spec_set_path(d17, spec_keys(seq!["ui", "show_notes_panel"]), JsonModel::Bool(s.ui_show_notes_panel));
    let d19 = spec_set_path(d18, spec_keys(seq!["ui", "show_remote_stats"]), JsonModel::Bool(s.ui_show_remote_stats));
    let d20 = spec_set_path(d19, spec_keys(seq!["ui", "remote_stats_interval"]), JsonModel::Number(JsonNumber::PosInt(spec_clamp(s.ui_remote_stats_interval as int, 1, 60) as u64)));
    let d21 = spec_set_path(d20, spec_keys(seq!["ui", "show_gpu_monitor"]), JsonModel::Bool(s.ui_show_gpu_monitor));
    let d22 = spec_set_path(d21, spec_keys(seq!["ui", "gpu_monitor_interval"]), JsonModel::Number(JsonNumber::PosInt(spec_clamp(s.ui_gpu_monitor_interval as int, 3, 120) as u64)));
    let d23 = spec_set_path(d22, spec_keys(seq!["ui", "show_ascend_npu_monitor"]), JsonModel::Bool(s.ui_show_ascend_npu_monitor));
    let d24 = spec_set_path(d23, spec_keys(seq!["ui", "ascend_npu_monitor_interval"]), JsonModel::Number(JsonNumber::PosInt(spec_clamp(s.ui_ascend_npu_monitor_interval as int, 3, 120) as u64)));
    let d25 = spec_set_path(d24, spec_keys(seq!["ui", "show_process_manager"]), JsonModel::Bool(s.ui_show_process_manager));
    let d26 = spec_set_path(d25, spec_keys(seq!["ui", "process_manager_interval"]), JsonModel::Number(JsonNumber::PosInt(spec_clamp(s.ui_process_manager_interval as int, 3, 120) as u64)));
    let d27 = spec_set_path(d26, spec_keys(seq!["ui", "show_docker_manager"]), JsonModel::Bool(s.ui_show_docker_manager));
    let d28 = spec_set_path(d27, spec_keys(seq!["ui", "docker_manager_interval"]), JsonModel::Number(JsonNumber::PosInt(spec_clamp(s.ui_docker_manager_interval as int, 3, 120) as u64)));
    assert(spec_saved_terminal_part1(d, s) == d8);
    assert(spec_saved_terminal_part2(d8, s) == d16);
    assert(spec_saved_terminal_part3(d16, s) == d24);
    assert(spec_saved_terminal_part4(d24, s) == d28);
    assert(spec_saved_terminal(d, s) == d28);
    lemma_set_path_then_read(d27, spec_keys(seq!["ui", "docker_manager_interval"]), JsonModel::Number(JsonNumber::PosInt(spec_clamp(s.ui_docker_manager_interval as int, 3, 120) as u64)));
}

/// After the terminal settings, the action-link kinds, the search engines and the monitor panels are stored, each of them reads back from the settings
/// document as it was written.
pub proof fn lemma_saved_terminal_reads_back(d: JsonModel, s: AppSettingsSummary)
    ensures
        spec_json_path(spec_saved_terminal(d, s), spec_keys(seq!["terminal", "x11_display"])) == Some(JsonModel::Str(s.x11_display@, None)),
        spec_json_path(spec_saved_terminal(d, s), spec_keys(seq!["terminal", "scrollback_lines"])) == Some(JsonModel::Number(JsonNumber::PosInt(spec_clamp(s.terminal_scrollback_lines as int, 100, 100000) as u64))),
        spec_json_path(spec_saved_terminal(d, s), spec_keys(seq!["terminal", "keep_alive_mode"])) == Some(JsonModel::Str(spec_keep_alive_mode(s.terminal_keep_alive_mode@), None)),
        spec_json_path(spec_saved_terminal(d, s), spec_keys(seq!["terminal", "keep_alive_interval"])) == Some(JsonModel::Number(JsonNumber::PosInt(spec_clamp(s.terminal_keep_alive_interval as int, 0, 600) as u64))),
        spec_json_path(spec_saved_terminal(d, s), spec_keys(seq!["terminal", "timestamp_format"])) == Some(JsonModel::Str(spec_timestamp_format(s.terminal_timestamp_format@), None)),
        spec_json_path(spec_saved_terminal(d, s), spec_keys(seq!["terminal", "hardware_acceleration"])) == Some(JsonModel::Bool(s.terminal_hardware_acceleration)),
        spec_json_path(spec_saved_terminal(d, s), spec_keys(seq!["terminal", "show_workspace_padding"])) == Some(JsonModel::Bool(s.terminal_show_workspace_padding)),
        spec_json_path(spec_saved_terminal(d, s), spec_keys(seq!["terminal", "show_line_numbers"])) == Some(JsonModel::Bool(s.terminal_show_line_numbers)),
        spec_json_path(spec_saved_terminal(d, s), spec_keys(seq!["terminal", "show_timestamps"])) == Some(JsonModel::Bool(s.terminal_show_timestamps)),
        spec_json_path(spec_saved_terminal(d, s), spec_keys(seq!["terminal", "show_multi_line_paste_dialog"])) == Some(JsonModel::Bool(s.terminal_show_multi_line_paste_dialog)),
        spec_json_path(spec_saved_terminal(d, s), spec_keys(seq!["terminal", "paste_image_as_path"])) == Some(JsonModel::Bool(s.terminal_paste_image_as_path)),
        spec_json_path(spec_saved_terminal(d, s), spec_keys(seq!["terminal", "reconnect_restore_cwd"])) == Some(JsonModel::Bool(s.terminal_reconnect_restore_cwd)),
        spec_json_path(spec_saved_terminal(d, s), spec_keys(seq!["terminal", "low_latency_mode"])) == Some(JsonModel::Bool(s.terminal_low_latency_mode)),
        spec_json_path(spec_saved_terminal(d, s), spec_keys(seq!["terminal", "zebra_stripes_enabled"])) == Some(JsonModel::Bool(s.terminal_zebra_stripes_enabled)),
        spec_json_path(spec_saved_terminal(d, s), spec_keys(seq!["terminal", "action_links_enabled"])) == Some(JsonModel::Bool(s.terminal_action_links_enabled)),
        spec_json_path(spec_saved_terminal(d, s), spec_keys(seq!["terminal", "action_links_matchers"])) == Some(spec_matchers_value(s.terminal_action_links_matchers)),
        spec_json_path(spec_saved_terminal(d, s), spec_keys(seq!["search", "custom_engines"])) == Some(spec_engines_value(engines_view(s.search_custom_engines@))),
        spec_json_path(spec_saved_terminal(d, s), spec_keys(seq!["ui", "show_notes_panel"])) == Some(JsonModel::Bool(s.ui_show_notes_panel)),
        spec_json_path(spec_saved_terminal(d, s), spec_keys(seq!["ui", "show_remote_stats"])) == Some(JsonModel::Bool(s.ui_show_remote_stats)),
        spec_json_path(spec_saved_terminal(d, s), spec_keys(seq!["ui", "remote_stats_interval"])) == Some(JsonModel::Number(JsonNumber::PosInt(spec_clamp(s.ui_remote_stats_interval as int, 1, 60) as u64))),
        spec_json_path(spec_saved_terminal(d, s), spec_keys(seq!["ui", "show_gpu_monitor"])) == Some(JsonModel::Bool(s.ui_show_gpu_monitor)),
        spec_json_path(spec_saved_terminal(d, s), spec_keys(seq!["ui", "gpu_monitor_interval"])) == Some(JsonModel::Number(JsonNumber::PosInt(spec_clamp(s.ui_gpu_monitor_interval as int, 3, 120) as u64))),
        spec_json_path(spec_saved_terminal(d, s), spec_keys(seq!["ui", "show_ascend_npu_monitor"])) == Some(JsonModel::Bool(s.ui_show_ascend_npu_monitor)),
        spec_json_path(spec_saved_terminal(d, s), spec_keys(seq!["ui", "ascend_npu_monitor_interval"])) == Some(JsonModel::Number(JsonNumber::PosInt(spec_clamp(s.ui_ascend_npu_monitor_interval as int, 3, 120) as u64))),
        spec_json_path(spec_saved_terminal(d, s), spec_keys(seq!["ui", "show_process_manager"])) == Some(JsonModel::Bool(s.ui_show_process_manager)),
        spec_json_path(spec_saved_terminal(d, s), spec_keys(seq!["ui", "process_manager_interval"])) == Some(JsonModel::Number(JsonNumber::PosInt(spec_clamp(s.ui_process_manager_interval as int, 3, 120) as u64))),
        spec_json_path(spec_saved_terminal(d, s), spec_keys(seq!["ui", "show_docker_manager"])) == Some(JsonModel::Bool(s.ui_show_docker_manager)),
        spec_json_path(spec_saved_terminal(d, s), spec_keys(seq!["ui", "docker_manager_interval"])) == Some(JsonModel::Number(JsonNumber::PosInt(spec_clamp(s.ui_docker_manager_interval as int, 3, 120) as u64))),
{
    lemma_saved_terminal_keeps_terminal_x11_display(d, s);
    lemma_saved_terminal_keeps_terminal_scrollback_lines(d, s);
    lemma_saved_terminal_keeps_terminal_keep_alive_mode(d, s);
    lemma_saved_terminal_keeps_terminal_keep_alive_interval(d, s);
    lemma_saved_terminal_keeps_terminal_timestamp_format(d, s);
    lemma_saved_terminal_keeps_terminal_hardware_acceleration(d, s);
    lemma_saved_terminal_keeps_terminal_show_workspace_padding(d, s);
    lemma_saved_terminal_keeps_terminal_show_line_numbers(d, s);
    lemma_saved_terminal_keeps_terminal_show_timestamps(d, s);
    lemma_saved_terminal_keeps_terminal_show_multi_line_paste_dialog(d, s);
    lemma_saved_terminal_keeps_terminal_paste_image_as_path(d, s);
    lemma_saved_terminal_keeps_terminal_reconnect_restore_cwd(d, s);
    lemma_saved_terminal_keeps_terminal_low_latency_mode(d, s);
    lemma_saved_terminal_keeps_terminal_zebra_stripes_enabled(d, s);
    lemma_saved_terminal_keeps_terminal_action_links_enabled(d, s);
    lemma_saved_terminal_keeps_terminal_action_links_matchers(d, s);
    lemma_saved_terminal_keeps_search_custom_engines(d, s);
    lemma_saved_terminal_keeps_ui_show_notes_panel(d, s);
    lemma_saved_terminal_keeps_ui_show_remote_stats(d, s);
    lemma_saved_terminal_keeps_ui_remote_stats_interval(d, s);
    lemma_saved_terminal_keeps_ui_show_gpu_monitor(d, s);
    lemma_saved_terminal_keeps_ui_gpu_monitor_interval(d, s);
    lemma_saved_terminal_keeps_ui_show_ascend_npu_monitor(d, s);
    lemma_saved_terminal_keeps_ui_ascend_npu_monitor_interval(d, s);
    lemma_saved_terminal_keeps_ui_show_process_manager(d, s);
    lemma_saved_terminal_keeps_ui_process_manager_interval(d, s);
    lemma_saved_terminal_keeps_ui_show_docker_manager(d, s);
    lemma_saved_terminal_keeps_ui_docker_manager_interval(d, s);
}

} // verus!
