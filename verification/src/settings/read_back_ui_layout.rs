//! The ui layout settings read back: each value that the save writes is found at
//! its place in the settings document afterwards.

use vstd::prelude::*;

use crate::settings::encode::{spec_count_map_members, spec_text_array};
use crate::settings::json::{counts_view, spec_clean_list, spec_json_path, spec_keys, strings_view, JsonModel, JsonNumber};

use crate::settings::normalize::{opt_view, spec_asset_sort_direction, spec_header_status_setting, spec_saved_connections_sort_mode, spec_start_workspace_mode};

use crate::settings::save::{spec_optional_panel_value, spec_optional_text_or_null, spec_optional_trimmed_value, spec_saved_ui_layout, spec_saved_ui_layout_part1, spec_saved_ui_layout_part2, spec_saved_ui_layout_part3, spec_saved_ui_layout_part4};
use crate::settings::summary::{spec_clamp, spec_panel_open_mode, AppSettingsSummary};
use crate::settings::write::{lemma_set_path_frame, lemma_set_path_then_read, spec_set_path};

verus! {

#[verifier::spinoff_prover]
proof fn lemma_saved_ui_layout_keeps_ui_left_width(d: JsonModel, s: AppSettingsSummary)
    ensures
        spec_json_path(spec_saved_ui_layout(d, s), spec_keys(seq!["ui", "left_width"])) == Some(JsonModel::Number(JsonNumber::PosInt(spec_clamp(s.ui_left_panel_width as int, 160, 720) as u64))),
{
    reveal_strlit("active_left_panel");
    reveal_strlit("active_right_panel");
    reveal_strlit("activity_bar_layout");
    reveal_strlit("appearance");
    reveal_strlit("asset_sort_direction");
    reveal_strlit("asset_sort_key");
    reveal_strlit("header_status_mode");
    reveal_strlit("header_status_visible");
    reveal_strlit("left_open_panels");
    reveal_strlit("left_panel_collapsed");
    reveal_strlit("left_width");
    reveal_strlit("panel_multi_open");
    reveal_strlit("panel_open_mode");
    reveal_strlit("panel_stack_sizes");
    reveal_strlit("quick_cmd_height");
    reveal_strlit("right_open_panels");
    reveal_strlit("right_panel_collapsed");
    reveal_strlit("right_width");
    reveal_strlit("saved_connections_expanded_group_ids");
    reveal_strlit("saved_connections_sort_mode");
    reveal_strlit("serial_send_height");
    reveal_strlit("show_quick_cmd_bar");
    reveal_strlit("show_serial_send_panel");
    reveal_strlit("start_workspace_mode");
    reveal_strlit("transfer_height");
    reveal_strlit("ui");
    let d1 = spec_set_path(d, spec_keys(seq!["ui", "left_width"]), JsonModel::Number(JsonNumber::PosInt(spec_clamp(s.ui_left_panel_width as int, 160, 720) as u64)));
    let d2 = spec_set_path(d1, spec_keys(seq!["ui", "right_width"]), JsonModel::Number(JsonNumber::PosInt(spec_clamp(s.ui_right_panel_width as int, 200, 720) as u64)));
    let d3 = spec_set_path(d2, spec_keys(seq!["ui", "transfer_height"]), JsonModel::Number(JsonNumber::PosInt(spec_clamp(s.ui_transfer_height as int, 60, 600) as u64)));
    let d4 = spec_set_path(d3, spec_keys(seq!["ui", "quick_cmd_height"]), JsonModel::Number(JsonNumber::PosInt(spec_clamp(s.ui_quick_cmd_height as int, 36, 520) as u64)));
    let d5 = spec_set_path(d4, spec_keys(seq!["ui", "show_quick_cmd_bar"]), JsonModel::Bool(s.ui_quick_cmd_visible));
    let d6 = spec_set_path(d5, spec_keys(seq!["ui", "serial_send_height"]), JsonModel::Number(JsonNumber::PosInt(spec_clamp(s.ui_serial_send_height as int, 60, 520) as u64)));
    let d7 = spec_set_path(d6, spec_keys(seq!["ui", "show_serial_send_panel"]), JsonModel::Bool(s.ui_serial_send_visible));
    let d8 = spec_set_path(d7, spec_keys(seq!["ui", "active_left_panel"]), spec_optional_panel_value(s.ui_active_left_panel));
    let d9 = spec_set_path(d8, spec_keys(seq!["ui", "active_right_panel"]), spec_optional_panel_value(s.ui_active_right_panel));
    let d10 = spec_set_path(d9, spec_keys(seq!["ui", "left_panel_collapsed"]), JsonModel::Bool(s.ui_left_panel_collapsed));
    let d11 = spec_set_path(d10, spec_keys(seq!["ui", "right_panel_collapsed"]), JsonModel::Bool(s.ui_right_panel_collapsed));
    let d12 = spec_set_path(d11, spec_keys(seq!["ui", "activity_bar_layout", "left_top"]), spec_text_array(spec_clean_list(strings_view(s.ui_activity_bar_left_top@), 32)));
    let d13 = spec_set_path(d12, spec_keys(seq!["ui", "activity_bar_layout", "left_bottom"]), spec_text_array(spec_clean_list(strings_view(s.ui_activity_bar_left_bottom@), 32)));
    let d14 = spec_set_path(d13, spec_keys(seq!["ui", "activity_bar_layout", "right_top"]), spec_text_array(spec_clean_list(strings_view(s.ui_activity_bar_right_top@), 32)));
    let d15 = spec_set_path(d14, spec_keys(seq!["ui", "activity_bar_layout", "right_bottom"]), spec_text_array(spec_clean_list(strings_view(s.ui_activity_bar_right_bottom@), 32)));
    let d16 = spec_set_path(d15, spec_keys(seq!["ui", "activity_bar_layout", "show_labels"]), JsonModel::Bool(s.ui_activity_bar_show_labels));
    let d17 = spec_set_path(d16, spec_keys(seq!["ui", "activity_bar_layout", "hidden_items"]), spec_text_array(spec_clean_list(strings_view(s.ui_activity_bar_hidden_items@), 64)));
    let d18 = spec_set_path(d17, spec_keys(seq!["ui", "panel_open_mode"]), JsonModel::Str(spec_panel_open_mode(s.ui_panel_open_mode@), None));
    let d19 = spec_set_path(d18, spec_keys(seq!["ui", "panel_multi_open"]), JsonModel::Bool(s.ui_panel_multi_open));
    let d20 = spec_set_path(d19, spec_keys(seq!["appearance", "panel_multi_open"]), JsonModel::Bool(s.ui_panel_multi_open));
    let d21 = spec_set_path(d20, spec_keys(seq!["ui", "left_open_panels"]), spec_text_array(spec_clean_list(strings_view(s.ui_left_open_panels@), 32)));
    let d22 = spec_set_path(d21, spec_keys(seq!["ui", "right_open_panels"]), spec_text_array(spec_clean_list(strings_view(s.ui_right_open_panels@), 32)));
    let d23 = spec_set_path(d22, spec_keys(seq!["ui", "panel_stack_sizes"]), JsonModel::Object(spec_count_map_members(counts_view(s.ui_panel_stack_sizes@))));
    let d24 = spec_set_path(d23, spec_keys(seq!["ui", "saved_connections_sort_mode"]), JsonModel::Str(spec_saved_connections_sort_mode(s.ui_saved_connections_sort_mode@), None));
    let d25 = spec_set_path(d24, spec_keys(seq!["ui", "saved_connections_expanded_group_ids"]), spec_text_array(spec_clean_list(strings_view(s.ui_saved_connections_expanded_group_ids@), 512)));
    let d26 = spec_set_path(d25, spec_keys(seq!["ui", "start_workspace_mode"]), JsonModel::Str(spec_start_workspace_mode(s.ui_start_workspace_mode@), None));
    let d27 = spec_set_path(d26, spec_keys(seq!["ui", "asset_sort_key"]), spec_optional_trimmed_value(s.ui_asset_sort_key));
    let d28 = spec_set_path(d27, spec_keys(seq!["ui", "asset_sort_direction"]), spec_optional_text_or_null(spec_asset_sort_direction(opt_view(s.ui_asset_sort_direction))));
    let d29 = spec_set_path(d28, spec_keys(seq!["ui", "header_status_mode"]), JsonModel::Str(spec_header_status_setting(s.ui_header_status_mode@), None));
    let d30 = spec_set_path(d29, spec_keys(seq!["ui", "header_status_visible"]), JsonModel::Bool(s.ui_header_status_visible));
    assert(spec_saved_ui_layout_part1(d, s) == d8);
    assert(spec_saved_ui_layout_part2(d8, s) == d16);
    assert(spec_saved_ui_layout_part3(d16, s) == d24);
    assert(spec_saved_ui_layout_part4(d24, s) == d30);
    assert(spec_saved_ui_layout(d, s) == d30);
    lemma_set_path_then_read(d, spec_keys(seq!["ui", "left_width"]), JsonModel::Number(JsonNumber::PosInt(spec_clamp(s.ui_left_panel_width as int, 160, 720) as u64)));
    assert("right_width"@.len() != "left_width"@.len());
    assert(spec_keys(seq!["ui", "right_width"])[1] != spec_keys(seq!["ui", "left_width"])[1]);
    lemma_set_path_frame(d1, spec_keys(seq!["ui", "right_width"]), JsonModel::Number(JsonNumber::PosInt(spec_clamp(s.ui_right_panel_width as int, 200, 720) as u64)), spec_keys(seq!["ui", "left_width"]));
    assert("transfer_height"@.len() != "left_width"@.len());
    assert(spec_keys(seq!["ui", "transfer_height"])[1] != spec_keys(seq!["ui", "left_width"])[1]);
    lemma_set_path_frame(d2, spec_keys(seq!["ui", "transfer_height"]), JsonModel::Number(JsonNumber::PosInt(spec_clamp(s.ui_transfer_height as int, 60, 600) as u64)), spec_keys(seq!["ui", "left_width"]));
    assert("quick_cmd_height"@.len() != "left_width"@.len());
    assert(spec_keys(seq!["ui", "quick_cmd_height"])[1] != spec_keys(seq!["ui", "left_width"])[1]);
    lemma_set_path_frame(d3, spec_keys(seq!["ui", "quick_cmd_height"]), JsonModel::Number(JsonNumber::PosInt(spec_clamp(s.ui_quick_cmd_height as int, 36, 520) as u64)), spec_keys(seq!["ui", "left_width"]));
    assert("show_quick_cmd_bar"@.len() != "left_width"@.len());
    assert(spec_keys(seq!["ui", "show_quick_cmd_bar"])[1] != spec_keys(seq!["ui", "left_width"])[1]);
    lemma_set_path_frame(d4, spec_keys(seq!["ui", "show_quick_cmd_bar"]), JsonModel::Bool(s.ui_quick_cmd_visible), spec_keys(seq!["ui", "left_width"]));
    assert("serial_send_height"@.len() != "left_width"@.len());
    assert(spec_keys(seq!["ui", "serial_send_height"])[1] != spec_keys(seq!["ui", "left_width"])[1]);
    lemma_set_path_frame(d5, spec_keys(seq!["ui", "serial_send_height"]), JsonModel::Number(JsonNumber::PosInt(spec_clamp(s.ui_serial_send_height as int, 60, 520) as u64)), spec_keys(seq!["ui", "left_width"]));
    assert("show_serial_send_panel"@.len() != "left_width"@.len());
    assert(spec_keys(seq!["ui", "show_serial_send_panel"])[1] != spec_keys(seq!["ui", "left_width"])[1]);
    lemma_set_path_frame(d6, spec_keys(seq!["ui", "show_serial_send_panel"]), JsonModel::Bool(s.ui_serial_send_visible), spec_keys(seq!["ui", "left_width"]));
    assert("active_left_panel"@.len() != "left_width"@.len());
    assert(spec_keys(seq!["ui", "active_left_panel"])[1] != spec_keys(seq!["ui", "left_width"])[1]);
    lemma_set_path_frame(d7, spec_keys(seq!["ui", "active_left_panel"]), spec_optional_panel_value(s.ui_active_left_panel), spec_keys(seq!["ui", "left_width"]));
    assert("active_right_panel"@.len() != "left_width"@.len());
    assert(spec_keys(seq!["ui", "active_right_panel"])[1] != spec_keys(seq!["ui", "left_width"])[1]);
    lemma_set_path_frame(d8, spec_keys(seq!["ui", "active_right_panel"]), spec_optional_panel_value(s.ui_active_right_panel), spec_keys(seq!["ui", "left_width"]));
    assert("left_panel_collapsed"@.len() != "left_width"@.len());
    assert(spec_keys(seq!["ui", "left_panel_collapsed"])[1] != spec_keys(seq!["ui", "left_width"])[1]);
    lemma_set_path_frame(d9, spec_keys(seq!["ui", "left_panel_collapsed"]), JsonModel::Bool(s.ui_left_panel_collapsed), spec_keys(seq!["ui", "left_width"]));
    assert("right_panel_collapsed"@.len() != "left_width"@.len());
    assert(spec_keys(seq!["ui", "right_panel_collapsed"])[1] != spec_keys(seq!["ui", "left_width"])[1]);
    lemma_set_path_frame(d10, spec_keys(seq!["ui", "right_panel_collapsed"]), JsonModel::Bool(s.ui_right_panel_collapsed), spec_keys(seq!["ui", "left_width"]));
    assert("activity_bar_layout"@.len() != "left_width"@.len());
    assert(spec_keys(seq!["ui", "activity_bar_layout", "left_top"])[1] != spec_keys(seq!["ui", "left_width"])[1]);
    lemma_set_path_frame(d11, spec_keys(seq!["ui", "activity_bar_layout", "left_top"]), spec_text_array(spec_clean_list(strings_view(s.ui_activity_bar_left_top@), 32)), spec_keys(seq!["ui", "left_width"]));
    assert("activity_bar_layout"@.len() != "left_width"@.len());
    assert(spec_keys(seq!["ui", "activity_bar_layout", "left_bottom"])[1] != spec_keys(seq!["ui", "left_width"])[1]);
    lemma_set_path_frame(d12, spec_keys(seq!["ui", "activity_bar_layout", "left_bottom"]), spec_text_array(spec_clean_list(strings_view(s.ui_activity_bar_left_bottom@), 32)), spec_keys(seq!["ui", "left_width"]));
    assert("activity_bar_layout"@.len() != "left_width"@.len());
    assert(spec_keys(seq!["ui", "activity_bar_layout", "right_top"])[1] != spec_keys(seq!["ui", "left_width"])[1]);
    lemma_set_path_frame(d13, spec_keys(seq!["ui", "activity_bar_layout", "right_top"]), spec_text_array(spec_clean_list(strings_view(s.ui_activity_bar_right_top@), 32)), spec_keys(seq!["ui", "left_width"]));
    assert("activity_bar_layout"@.len() != "left_width"@.len());
    assert(spec_keys(seq!["ui", "activity_bar_layout", "right_bottom"])[1] != spec_keys(seq!["ui", "left_width"])[1]);
    lemma_set_path_frame(d14, spec_keys(seq!["ui", "activity_bar_layout", "right_bottom"]), spec_text_array(spec_clean_list(strings_view(s.ui_activity_bar_right_bottom@), 32)), spec_keys(seq!["ui", "left_width"]));
    assert("activity_bar_layout"@.len() != "left_width"@.len());
    assert(spec_keys(seq!["ui", "activity_bar_layout", "show_labels"])[1] != spec_keys(seq!["ui", "left_width"])[1]);
    lemma_set_path_frame(d15, spec_keys(seq!["ui", "activity_bar_layout", "show_labels"]), JsonModel::Bool(s.ui_activity_bar_show_labels), spec_keys(seq!["ui", "left_width"]));
    assert("activity_bar_layout"@.len() != "left_width"@.len());
    assert(spec_keys(seq!["ui", "activity_bar_layout", "hidden_items"])[1] != spec_keys(seq!["ui", "left_width"])[1]);
    lemma_set_path_frame(d16, spec_keys(seq!["ui", "activity_bar_layout", "hidden_items"]), spec_text_array(spec_clean_list(strings_view(s.ui_activity_bar_hidden_items@), 64)), spec_keys(seq!["ui", "left_width"]));
    assert("panel_open_mode"@.len() != "left_width"@.len());
    assert(spec_keys(seq!["ui", "panel_open_mode"])[1] != spec_keys(seq!["ui", "left_width"])[1]);
    lemma_set_path_frame(d17, spec_keys(seq!["ui", "panel_open_mode"]), JsonModel::Str(spec_panel_open_mode(s.ui_panel_open_mode@), None), spec_keys(seq!["ui", "left_width"]));
    assert("panel_multi_open"@.len() != "left_width"@.len());
    assert(spec_keys(seq!["ui", "panel_multi_open"])[1] != spec_keys(seq!["ui", "left_width"])[1]);
    lemma_set_path_frame(d18, spec_keys(seq!["ui", "panel_multi_open"]), JsonModel::Bool(s.ui_panel_multi_open), spec_keys(seq!["ui", "left_width"]));
    assert("appearance"@.len() != "ui"@.len());
    assert(spec_keys(seq!["appearance", "panel_multi_open"])[0] != spec_keys(seq!["ui", "left_width"])[0]);
    lemma_set_path_frame(d19, spec_keys(seq!["appearance", "panel_multi_open"]), JsonModel::Bool(s.ui_panel_multi_open), spec_keys(seq!["ui", "left_width"]));
    assert("left_open_panels"@.len() != "left_width"@.len());
    assert(spec_keys(seq!["ui", "left_open_panels"])[1] != spec_keys(seq!["ui", "left_width"])[1]);
    lemma_set_path_frame(d20, spec_keys(seq!["ui", "left_open_panels"]), spec_text_array(spec_clean_list(strings_view(s.ui_left_open_panels@), 32)), spec_keys(seq!["ui", "left_width"]));
    assert("right_open_panels"@.len() != "left_width"@.len());
    assert(spec_keys(seq!["ui", "right_open_panels"])[1] != spec_keys(seq!["ui", "left_width"])[1]);
    lemma_set_path_frame(d21, spec_keys(seq!["ui", "right_open_panels"]), spec_text_array(spec_clean_list(strings_view(s.ui_right_open_panels@), 32)), spec_keys(seq!["ui", "left_width"]));
    assert("panel_stack_sizes"@.len() != "left_width"@.len());
    assert(spec_keys(seq!["ui", "panel_stack_sizes"])[1] != spec_keys(seq!["ui", "left_width"])[1]);
    lemma_set_path_frame(d22, spec_keys(seq!["ui", "panel_stack_sizes"]), JsonModel::Object(spec_count_map_members(counts_view(s.ui_panel_stack_sizes@))), spec_keys(seq!["ui", "left_width"]));
    assert("saved_connections_sort_mode"@.len() != "left_width"@.len());
    assert(spec_keys(seq!["ui", "saved_connections_sort_mode"])[1] != spec_keys(seq!["ui", "left_width"])[1]);
    lemma_set_path_frame(d23, spec_keys(seq!["ui", "saved_connections_sort_mode"]), JsonModel::Str(spec_saved_connections_sort_mode(s.ui_saved_connections_sort_mode@), None), spec_keys(seq!["ui", "left_width"]));
    assert("saved_connections_expanded_group_ids"@.len() != "left_width"@.len());
    assert(spec_keys(seq!["ui", "saved_connections_expanded_group_ids"])[1] != spec_keys(seq!["ui", "left_width"])[1]);
    lemma_set_path_frame(d24, spec_keys(seq!["ui", "saved_connections_expanded_group_ids"]), spec_text_array(spec_clean_list(strings_view(s.ui_saved_connections_expanded_group_ids@), 512)), spec_keys(seq!["ui", "left_width"]));
    assert("start_workspace_mode"@.len() != "left_width"@.len());
    assert(spec_keys(seq!["ui", "start_workspace_mode"])[1] != spec_keys(seq!["ui", "left_width"])[1]);
    lemma_set_path_frame(d25, spec_keys(seq!["ui", "start_workspace_mode"]), JsonModel::Str(spec_start_workspace_mode(s.ui_start_workspace_mode@), None), spec_keys(seq!["ui", "left_width"]));
    assert("asset_sort_key"@.len() != "left_width"@.len());
    assert(spec_keys(seq!["ui", "asset_sort_key"])[1] != spec_keys(seq!["ui", "left_width"])[1]);
    lemma_set_path_frame(d26, spec_keys(seq!["ui", "asset_sort_key"]), spec_optional_trimmed_value(s.ui_asset_sort_key), spec_keys(seq!["ui", "left_width"]));
    assert("asset_sort_direction"@.len() != "left_width"@.len());
    assert(spec_keys(seq!["ui", "asset_sort_direction"])[1] != spec_keys(seq!["ui", "left_width"])[1]);
    lemma_set_path_frame(d27, spec_keys(seq!["ui", "asset_sort_direction"]), spec_optional_text_or_null(spec_asset_sort_direction(opt_view(s.ui_asset_sort_direction))), spec_keys(seq!["ui", "left_width"]));
    assert("header_status_mode"@.len() != "left_width"@.len());
    assert(spec_keys(seq!["ui", "header_status_mode"])[1] != spec_keys(seq!["ui", "left_width"])[1]);
    lemma_set_path_frame(d28, spec_keys(seq!["ui", "header_status_mode"]), JsonModel::Str(spec_header_status_setting(s.ui_header_status_mode@), None), spec_keys(seq!["ui", "left_width"]));
    assert("header_status_visible"@.len() != "left_width"@.len());
    assert(spec_keys(seq!["ui", "header_status_visible"])[1] != spec_keys(seq!["ui", "left_width"])[1]);
    lemma_set_path_frame(d29, spec_keys(seq!["ui", "header_status_visible"]), JsonModel::Bool(s.ui_header_status_visible), spec_keys(seq!["ui", "left_width"]));
}

#[verifier::spinoff_prover]
proof fn lemma_saved_ui_layout_keeps_ui_right_width(d: JsonModel, s: AppSettingsSummary)
    ensures
        spec_json_path(spec_saved_ui_layout(d, s), spec_keys(seq!["ui", "right_width"])) == Some(JsonModel::Number(JsonNumber::PosInt(spec_clamp(s.ui_right_panel_width as int, 200, 720) as u64))),
{
    reveal_strlit("active_left_panel");
    reveal_strlit("active_right_panel");
    reveal_strlit("activity_bar_layout");
    reveal_strlit("appearance");
    reveal_strlit("asset_sort_direction");
    reveal_strlit("asset_sort_key");
    reveal_strlit("header_status_mode");
    reveal_strlit("header_status_visible");
    reveal_strlit("left_open_panels");
    reveal_strlit("left_panel_collapsed");
    reveal_strlit("panel_multi_open");
    reveal_strlit("panel_open_mode");
    reveal_strlit("panel_stack_sizes");
    reveal_strlit("quick_cmd_height");
    reveal_strlit("right_open_panels");
    reveal_strlit("right_panel_collapsed");
    reveal_strlit("right_width");
    reveal_strlit("saved_connections_expanded_group_ids");
    reveal_strlit("saved_connections_sort_mode");
    reveal_strlit("serial_send_height");
    reveal_strlit("show_quick_cmd_bar");
    reveal_strlit("show_serial_send_panel");
    reveal_strlit("start_workspace_mode");
    reveal_strlit("transfer_height");
    reveal_strlit("ui");
    let d1 = spec_set_path(d, spec_keys(seq!["ui", "left_width"]), JsonModel::Number(JsonNumber::PosInt(spec_clamp(s.ui_left_panel_width as int, 160, 720) as u64)));
    let d2 = spec_set_path(d1, spec_keys(seq!["ui", "right_width"]), JsonModel::Number(JsonNumber::PosInt(spec_clamp(s.ui_right_panel_width as int, 200, 720) as u64)));
    let d3 = spec_set_path(d2, spec_keys(seq!["ui", "transfer_height"]), JsonModel::Number(JsonNumber::PosInt(spec_clamp(s.ui_transfer_height as int, 60, 600) as u64)));
    let d4 = spec_set_path(d3, spec_keys(seq!["ui", "quick_cmd_height"]), JsonModel::Number(JsonNumber::PosInt(spec_clamp(s.ui_quick_cmd_height as int, 36, 520) as u64)));
    let d5 = spec_set_path(d4, spec_keys(seq!["ui", "show_quick_cmd_bar"]), JsonModel::Bool(s.ui_quick_cmd_visible));
    let d6 = spec_set_path(d5, spec_keys(seq!["ui", "serial_send_height"]), JsonModel::Number(JsonNumber::PosInt(spec_clamp(s.ui_serial_send_height as int, 60, 520) as u64)));
    let d7 = spec_set_path(d6, spec_keys(seq!["ui", "show_serial_send_panel"]), JsonModel::Bool(s.ui_serial_send_visible));
    let d8 = spec_set_path(d7, spec_keys(seq!["ui", "active_left_panel"]), spec_optional_panel_value(s.ui_active_left_panel));
    let d9 = spec_set_path(d8, spec_keys(seq!["ui", "active_right_panel"]), spec_optional_panel_value(s.ui_active_right_panel));
    let d10 = spec_set_path(d9, spec_keys(seq!["ui", "left_panel_collapsed"]), JsonModel::Bool(s.ui_left_panel_collapsed));
    let d11 = spec_set_path(d10, spec_keys(seq!["ui", "right_panel_collapsed"]), JsonModel::Bool(s.ui_right_panel_collapsed));
    let d12 = spec_set_path(d11, spec_keys(seq!["ui", "activity_bar_layout", "left_top"]), spec_text_array(spec_clean_list(strings_view(s.ui_activity_bar_left_top@), 32)));
    let d13 = spec_set_path(d12, spec_keys(seq!["ui", "activity_bar_layout", "left_bottom"]), spec_text_array(spec_clean_list(strings_view(s.ui_activity_bar_left_bottom@), 32)));
    let d14 = spec_set_path(d13, spec_keys(seq!["ui", "activity_bar_layout", "right_top"]), spec_text_array(spec_clean_list(strings_view(s.ui_activity_bar_right_top@), 32)));
    let d15 = spec_set_path(d14, spec_keys(seq!["ui", "activity_bar_layout", "right_bottom"]), spec_text_array(spec_clean_list(strings_view(s.ui_activity_bar_right_bottom@), 32)));
    let d16 = spec_set_path(d15, spec_keys(seq!["ui", "activity_bar_layout", "show_labels"]), JsonModel::Bool(s.ui_activity_bar_show_labels));
    let d17 = spec_set_path(d16, spec_keys(seq!["ui", "activity_bar_layout", "hidden_items"]), spec_text_array(spec_clean_list(strings_view(s.ui_activity_bar_hidden_items@), 64)));
    let d18 = spec_set_path(d17, spec_keys(seq!["ui", "panel_open_mode"]), JsonModel::Str(spec_panel_open_mode(s.ui_panel_open_mode@), None));
    let d19 = spec_set_path(d18, spec_keys(seq!["ui", "panel_multi_open"]), JsonModel::Bool(s.ui_panel_multi_open));
    let d20 = spec_set_path(d19, spec_keys(seq!["appearance", "panel_multi_open"]), JsonModel::Bool(s.ui_panel_multi_open));
    let d21 = spec_set_path(d20, spec_keys(seq!["ui", "left_open_panels"]), spec_text_array(spec_clean_list(strings_view(s.ui_left_open_panels@), 32)));
    let d22 = spec_set_path(d21, spec_keys(seq!["ui", "right_open_panels"]), spec_text_array(spec_clean_list(strings_view(s.ui_right_open_panels@), 32)));
    let d23 = spec_set_path(d22, spec_keys(seq!["ui", "panel_stack_sizes"]), JsonModel::Object(spec_count_map_members(counts_view(s.ui_panel_stack_sizes@))));
    let d24 = spec_set_path(d23, spec_keys(seq!["ui", "saved_connections_sort_mode"]), JsonModel::Str(spec_saved_connections_sort_mode(s.ui_saved_connections_sort_mode@), None));
    let d25 = spec_set_path(d24, spec_keys(seq!["ui", "saved_connections_expanded_group_ids"]), spec_text_array(spec_clean_list(strings_view(s.ui_saved_connections_expanded_group_ids@), 512)));
    let d26 = spec_set_path(d25, spec_keys(seq!["ui", "start_workspace_mode"]), JsonModel::Str(spec_start_workspace_mode(s.ui_start_workspace_mode@), None));
    let d27 = spec_set_path(d26, spec_keys(seq!["ui", "asset_sort_key"]), spec_optional_trimmed_value(s.ui_asset_sort_key));
    let d28 = spec_set_path(d27, spec_keys(seq!["ui", "asset_sort_direction"]), spec_optional_text_or_null(spec_asset_sort_direction(opt_view(s.ui_asset_sort_direction))));
    let d29 = spec_set_path(d28, spec_keys(seq!["ui", "header_status_mode"]), JsonModel::Str(spec_header_status_setting(s.ui_header_status_mode@), None));
    let d30 = spec_set_path(d29, spec_keys(seq!["ui", "header_status_visible"]), JsonModel::Bool(s.ui_header_status_visible));
    assert(spec_saved_ui_layout_part1(d, s) == d8);
    assert(spec_saved_ui_layout_part2(d8, s) == d16);
    assert(spec_saved_ui_layout_part3(d16, s) == d24);
    assert(spec_saved_ui_layout_part4(d24, s) == d30);
    assert(spec_saved_ui_layout(d, s) == d30);
    lemma_set_path_then_read(d1, spec_keys(seq!["ui", "right_width"]), JsonModel::Number(JsonNumber::PosInt(spec_clamp(s.ui_right_panel_width as int, 200, 720) as u64)));
    assert("transfer_height"@.len() != "right_width"@.len());
    assert(spec_keys(seq!["ui", "transfer_height"])[1] != spec_keys(seq!["ui", "right_width"])[1]);
    lemma_set_path_frame(d2, spec_keys(seq!["ui", "transfer_height"]), JsonModel::Number(JsonNumber::PosInt(spec_clamp(s.ui_transfer_height as int, 60, 600) as u64)), spec_keys(seq!["ui", "right_width"]));
    assert("quick_cmd_height"@.len() != "right_width"@.len());
    assert(spec_keys(seq!["ui", "quick_cmd_height"])[1] != spec_keys(seq!["ui", "right_width"])[1]);
    lemma_set_path_frame(d3, spec_keys(seq!["ui", "quick_cmd_height"]), JsonModel::Number(JsonNumber::PosInt(spec_clamp(s.ui_quick_cmd_height as int, 36, 520) as u64)), spec_keys(seq!["ui", "right_width"]));
    assert("show_quick_cmd_bar"@.len() != "right_width"@.len());
    assert(spec_keys(seq!["ui", "show_quick_cmd_bar"])[1] != spec_keys(seq!["ui", "right_width"])[1]);
    lemma_set_path_frame(d4, spec_keys(seq!["ui", "show_quick_cmd_bar"]), JsonModel::Bool(s.ui_quick_cmd_visible), spec_keys(seq!["ui", "right_width"]));
    assert("serial_send_height"@.len() != "right_width"@.len());
    assert(spec_keys(seq!["ui", "serial_send_height"])[1] != spec_keys(seq!["ui", "right_width"])[1]);
    lemma_set_path_frame(d5, spec_keys(seq!["ui", "serial_send_height"]), JsonModel::Number(JsonNumber::PosInt(spec_clamp(s.ui_serial_send_height as int, 60, 520) as u64)), spec_keys(seq!["ui", "right_width"]));
    assert("show_serial_send_panel"@.len() != "right_width"@.len());
    assert(spec_keys(seq!["ui", "show_serial_send_panel"])[1] != spec_keys(seq!["ui", "right_width"])[1]);
    lemma_set_path_frame(d6, spec_keys(seq!["ui", "show_serial_send_panel"]), JsonModel::Bool(s.ui_serial_send_visible), spec_keys(seq!["ui", "right_width"]));
    assert("active_left_panel"@.len() != "right_width"@.len());
    assert(spec_keys(seq!["ui", "active_left_panel"])[1] != spec_keys(seq!["ui", "right_width"])[1]);
    lemma_set_path_frame(d7, spec_keys(seq!["ui", "active_left_panel"]), spec_optional_panel_value(s.ui_active_left_panel), spec_keys(seq!["ui", "right_width"]));
    assert("active_right_panel"@.len() != "right_width"@.len());
    assert(spec_keys(seq!["ui", "active_right_panel"])[1] != spec_keys(seq!["ui", "right_width"])[1]);
    lemma_set_path_frame(d8, spec_keys(seq!["ui", "active_right_panel"]), spec_optional_panel_value(s.ui_active_right_panel), spec_keys(seq!["ui", "right_width"]));
    assert("left_panel_collapsed"@.len() != "right_width"@.len());
    assert(spec_keys(seq!["ui", "left_panel_collapsed"])[1] != spec_keys(seq!["ui", "right_width"])[1]);
    lemma_set_path_frame(d9, spec_keys(seq!["ui", "left_panel_collapsed"]), JsonModel::Bool(s.ui_left_panel_collapsed), spec_keys(seq!["ui", "right_width"]));
    assert("right_panel_collapsed"@.len() != "right_width"@.len());
    assert(spec_keys(seq!["ui", "right_panel_collapsed"])[1] != spec_keys(seq!["ui", "right_width"])[1]);
    lemma_set_path_frame(d10, spec_keys(seq!["ui", "right_panel_collapsed"]), JsonModel::Bool(s.ui_right_panel_collapsed), spec_keys(seq!["ui", "right_width"]));
    assert("activity_bar_layout"@.len() != "right_width"@.len());
    assert(spec_keys(seq!["ui", "activity_bar_layout", "left_top"])[1] != spec_keys(seq!["ui", "right_width"])[1]);
    lemma_set_path_frame(d11, spec_keys(seq!["ui", "activity_bar_layout", "left_top"]), spec_text_array(spec_clean_list(strings_view(s.ui_activity_bar_left_top@), 32)), spec_keys(seq!["ui", "right_width"]));
    assert("activity_bar_layout"@.len() != "right_width"@.len());
    assert(spec_keys(seq!["ui", "activity_bar_layout", "left_bottom"])[1] != spec_keys(seq!["ui", "right_width"])[1]);
    lemma_set_path_frame(d12, spec_keys(seq!["ui", "activity_bar_layout", "left_bottom"]), spec_text_array(spec_clean_list(strings_view(s.ui_activity_bar_left_bottom@), 32)), spec_keys(seq!["ui", "right_width"]));
    assert("activity_bar_layout"@.len() != "right_width"@.len());
    assert(spec_keys(seq!["ui", "activity_bar_layout", "right_top"])[1] != spec_keys(seq!["ui", "right_width"])[1]);
    lemma_set_path_frame(d13, spec_keys(seq!["ui", "activity_bar_layout", "right_top"]), spec_text_array(spec_clean_list(strings_view(s.ui_activity_bar_right_top@), 32)), spec_keys(seq!["ui", "right_width"]));
    assert("activity_bar_layout"@.len() != "right_width"@.len());
    assert(spec_keys(seq!["ui", "activity_bar_layout", "right_bottom"])[1] != spec_keys(seq!["ui", "right_width"])[1]);
    lemma_set_path_frame(d14, spec_keys(seq!["ui", "activity_bar_layout", "right_bottom"]), spec_text_array(spec_clean_list(strings_view(s.ui_activity_bar_right_bottom@), 32)), spec_keys(seq!["ui", "right_width"]));
    assert("activity_bar_layout"@.len() != "right_width"@.len());
    assert(spec_keys(seq!["ui", "activity_bar_layout", "show_labels"])[1] != spec_keys(seq!["ui", "right_width"])[1]);
    lemma_set_path_frame(d15, spec_keys(seq!["ui", "activity_bar_layout", "show_labels"]), JsonModel::Bool(s.ui_activity_bar_show_labels), spec_keys(seq!["ui", "right_width"]));
    assert("activity_bar_layout"@.len() != "right_width"@.len());
    assert(spec_keys(seq!["ui", "activity_bar_layout", "hidden_items"])[1] != spec_keys(seq!["ui", "right_width"])[1]);
    lemma_set_path_frame(d16, spec_keys(seq!["ui", "activity_bar_layout", "hidden_items"]), spec_text_array(spec_clean_list(strings_view(s.ui_activity_bar_hidden_items@), 64)), spec_keys(seq!["ui", "right_width"]));
    assert("panel_open_mode"@.len() != "right_width"@.len());
    assert(spec_keys(seq!["ui", "panel_open_mode"])[1] != spec_keys(seq!["ui", "right_width"])[1]);
    lemma_set_path_frame(d17, spec_keys(seq!["ui", "panel_open_mode"]), JsonModel::Str(spec_panel_open_mode(s.ui_panel_open_mode@), None), spec_keys(seq!["ui", "right_width"]));
    assert("panel_multi_open"@.len() != "right_width"@.len());
    assert(spec_keys(seq!["ui", "panel_multi_open"])[1] != spec_keys(seq!["ui", "right_width"])[1]);
    lemma_set_path_frame(d18, spec_keys(seq!["ui", "panel_multi_open"]), JsonModel::Bool(s.ui_panel_multi_open), spec_keys(seq!["ui", "right_width"]));
    assert("appearance"@.len() != "ui"@.len());
    assert(spec_keys(seq!["appearance", "panel_multi_open"])[0] != spec_keys(seq!["ui", "right_width"])[0]);
    lemma_set_path_frame(d19, spec_keys(seq!["appearance", "panel_multi_open"]), JsonModel::Bool(s.ui_panel_multi_open), spec_keys(seq!["ui", "right_width"]));
    assert("left_open_panels"@.len() != "right_width"@.len());
    assert(spec_keys(seq!["ui", "left_open_panels"])[1] != spec_keys(seq!["ui", "right_width"])[1]);
    lemma_set_path_frame(d20, spec_keys(seq!["ui", "left_open_panels"]), spec_text_array(spec_clean_list(strings_view(s.ui_left_open_panels@), 32)), spec_keys(seq!["ui", "right_width"]));
    assert("right_open_panels"@.len() != "right_width"@.len());
    assert(spec_keys(seq!["ui", "right_open_panels"])[1] != spec_keys(seq!["ui", "right_width"])[1]);
    lemma_set_path_frame(d21, spec_keys(seq!["ui", "right_open_panels"]), spec_text_array(spec_clean_list(strings_view(s.ui_right_open_panels@), 32)), spec_keys(seq!["ui", "right_width"]));
    assert("panel_stack_sizes"@.len() != "right_width"@.len());
    assert(spec_keys(seq!["ui", "panel_stack_sizes"])[1] != spec_keys(seq!["ui", "right_width"])[1]);
    lemma_set_path_frame(d22, spec_keys(seq!["ui", "panel_stack_sizes"]), JsonModel::Object(spec_count_map_members(counts_view(s.ui_panel_stack_sizes@))), spec_keys(seq!["ui", "right_width"]));
    assert("saved_connections_sort_mode"@.len() != "right_width"@.len());
    assert(spec_keys(seq!["ui", "saved_connections_sort_mode"])[1] != spec_keys(seq!["ui", "right_width"])[1]);
    lemma_set_path_frame(d23, spec_keys(seq!["ui", "saved_connections_sort_mode"]), JsonModel::Str(spec_saved_connections_sort_mode(s.ui_saved_connections_sort_mode@), None), spec_keys(seq!["ui", "right_width"]));
    assert("saved_connections_expanded_group_ids"@.len() != "right_width"@.len());
    assert(spec_keys(seq!["ui", "saved_connections_expanded_group_ids"])[1] != spec_keys(seq!["ui", "right_width"])[1]);
    lemma_set_path_frame(d24, spec_keys(seq!["ui", "saved_connections_expanded_group_ids"]), spec_text_array(spec_clean_list(strings_view(s.ui_saved_connections_expanded_group_ids@), 512)), spec_keys(seq!["ui", "right_width"]));
    assert("start_workspace_mode"@.len() != "right_width"@.len());
    assert(spec_keys(seq!["ui", "start_workspace_mode"])[1] != spec_keys(seq!["ui", "right_width"])[1]);
    lemma_set_path_frame(d25, spec_keys(seq!["ui", "start_workspace_mode"]), JsonModel::Str(spec_start_workspace_mode(s.ui_start_workspace_mode@), None), spec_keys(seq!["ui", "right_width"]));
    assert("asset_sort_key"@.len() != "right_width"@.len());
    assert(spec_keys(seq!["ui", "asset_sort_key"])[1] != spec_keys(seq!["ui", "right_width"])[1]);
    lemma_set_path_frame(d26, spec_keys(seq!["ui", "asset_sort_key"]), spec_optional_trimmed_value(s.ui_asset_sort_key), spec_keys(seq!["ui", "right_width"]));
    assert("asset_sort_direction"@.len() != "right_width"@.len());
    assert(spec_keys(seq!["ui", "asset_sort_direction"])[1] != spec_keys(seq!["ui", "right_width"])[1]);
    lemma_set_path_frame(d27, spec_keys(seq!["ui", "asset_sort_direction"]), spec_optional_text_or_null(spec_asset_sort_direction(opt_view(s.ui_asset_sort_direction))), spec_keys(seq!["ui", "right_width"]));
    assert("header_status_mode"@.len() != "right_width"@.len());
    assert(spec_keys(seq!["ui", "header_status_mode"])[1] != spec_keys(seq!["ui", "right_width"])[1]);
    lemma_set_path_frame(d28, spec_keys(seq!["ui", "header_status_mode"]), JsonModel::Str(spec_header_status_setting(s.ui_header_status_mode@), None), spec_keys(seq!["ui", "right_width"]));
    assert("header_status_visible"@.len() != "right_width"@.len());
    assert(spec_keys(seq!["ui", "header_status_visible"])[1] != spec_keys(seq!["ui", "right_width"])[1]);
    lemma_set_path_frame(d29, spec_keys(seq!["ui", "header_status_visible"]), JsonModel::Bool(s.ui_header_status_visible), spec_keys(seq!["ui", "right_width"]));
}

#[verifier::spinoff_prover]
proof fn lemma_saved_ui_layout_keeps_ui_transfer_height(d: JsonModel, s: AppSettingsSummary)
    ensures
        spec_json_path(spec_saved_ui_layout(d, s), spec_keys(seq!["ui", "transfer_height"])) == Some(JsonModel::Number(JsonNumber::PosInt(spec_clamp(s.ui_transfer_height as int, 60, 600) as u64))),
{
    reveal_strlit("active_left_panel");
    reveal_strlit("active_right_panel");
    reveal_strlit("activity_bar_layout");
    reveal_strlit("appearance");
    reveal_strlit("asset_sort_direction");
    reveal_strlit("asset_sort_key");
    reveal_strlit("header_status_mode");
    reveal_strlit("header_status_visible");
    reveal_strlit("left_open_panels");
    reveal_strlit("left_panel_collapsed");
    reveal_strlit("panel_multi_open");
    reveal_strlit("panel_open_mode");
    reveal_strlit("panel_stack_sizes");
    reveal_strlit("quick_cmd_height");
    reveal_strlit("right_open_panels");
    reveal_strlit("right_panel_collapsed");
    reveal_strlit("saved_connections_expanded_group_ids");
    reveal_strlit("saved_connections_sort_mode");
    reveal_strlit("serial_send_height");
    reveal_strlit("show_quick_cmd_bar");
    reveal_strlit("show_serial_send_panel");
    reveal_strlit("start_workspace_mode");
    reveal_strlit("transfer_height");
    reveal_strlit("ui");
    let d1 = spec_set_path(d, spec_keys(seq!["ui", "left_width"]), JsonModel::Number(JsonNumber::PosInt(spec_clamp(s.ui_left_panel_width as int, 160, 720) as u64)));
    let d2 = spec_set_path(d1, spec_keys(seq!["ui", "right_width"]), JsonModel::Number(JsonNumber::PosInt(spec_clamp(s.ui_right_panel_width as int, 200, 720) as u64)));
    let d3 = spec_set_path(d2, spec_keys(seq!["ui", "transfer_height"]), JsonModel::Number(JsonNumber::PosInt(spec_clamp(s.ui_transfer_height as int, 60, 600) as u64)));
    let d4 = spec_set_path(d3, spec_keys(seq!["ui", "quick_cmd_height"]), JsonModel::Number(JsonNumber::PosInt(spec_clamp(s.ui_quick_cmd_height as int, 36, 520) as u64)));
    let d5 = spec_set_path(d4, spec_keys(seq!["ui", "show_quick_cmd_bar"]), JsonModel::Bool(s.ui_quick_cmd_visible));
    let d6 = spec_set_path(d5, spec_keys(seq!["ui", "serial_send_height"]), JsonModel::Number(JsonNumber::PosInt(spec_clamp(s.ui_serial_send_height as int, 60, 520) as u64)));
    let d7 = spec_set_path(d6, spec_keys(seq!["ui", "show_serial_send_panel"]), JsonModel::Bool(s.ui_serial_send_visible));
    let d8 = spec_set_path(d7, spec_keys(seq!["ui", "active_left_panel"]), spec_optional_panel_value(s.ui_active_left_panel));
    let d9 = spec_set_path(d8, spec_keys(seq!["ui", "active_right_panel"]), spec_optional_panel_value(s.ui_active_right_panel));
    let d10 = spec_set_path(d9, spec_keys(seq!["ui", "left_panel_collapsed"]), JsonModel::Bool(s.ui_left_panel_collapsed));
    let d11 = spec_set_path(d10, spec_keys(seq!["ui", "right_panel_collapsed"]), JsonModel::Bool(s.ui_right_panel_collapsed));
    let d12 = spec_set_path(d11, spec_keys(seq!["ui", "activity_bar_layout", "left_top"]), spec_text_array(spec_clean_list(strings_view(s.ui_activity_bar_left_top@), 32)));
    let d13 = spec_set_path(d12, spec_keys(seq!["ui", "activity_bar_layout", "left_bottom"]), spec_text_array(spec_clean_list(strings_view(s.ui_activity_bar_left_bottom@), 32)));
    let d14 = spec_set_path(d13, spec_keys(seq!["ui", "activity_bar_layout", "right_top"]), spec_text_array(spec_clean_list(strings_view(s.ui_activity_bar_right_top@), 32)));
    let d15 = spec_set_path(d14, spec_keys(seq!["ui", "activity_bar_layout", "right_bottom"]), spec_text_array(spec_clean_list(strings_view(s.ui_activity_bar_right_bottom@), 32)));
    let d16 = spec_set_path(d15, spec_keys(seq!["ui", "activity_bar_layout", "show_labels"]), JsonModel::Bool(s.ui_activity_bar_show_labels));
    let d17 = spec_set_path(d16, spec_keys(seq!["ui", "activity_bar_layout", "hidden_items"]), spec_text_array(spec_clean_list(strings_view(s.ui_activity_bar_hidden_items@), 64)));
    let d18 = spec_set_path(d17, spec_keys(seq!["ui", "panel_open_mode"]), JsonModel::Str(spec_panel_open_mode(s.ui_panel_open_mode@), None));
    let d19 = spec_set_path(d18, spec_keys(seq!["ui", "panel_multi_open"]), JsonModel::Bool(s.ui_panel_multi_open));
    let d20 = spec_set_path(d19, spec_keys(seq!["appearance", "panel_multi_open"]), JsonModel::Bool(s.ui_panel_multi_open));
    let d21 = spec_set_path(d20, spec_keys(seq!["ui", "left_open_panels"]), spec_text_array(spec_clean_list(strings_view(s.ui_left_open_panels@), 32)));
    let d22 = spec_set_path(d21, spec_keys(seq!["ui", "right_open_panels"]), spec_text_array(spec_clean_list(strings_view(s.ui_right_open_panels@), 32)));
    let d23 = spec_set_path(d22, spec_keys(seq!["ui", "panel_stack_sizes"]), JsonModel::Object(spec_count_map_members(counts_view(s.ui_panel_stack_sizes@))));
    let d24 = spec_set_path(d23, spec_keys(seq!["ui", "saved_connections_sort_mode"]), JsonModel::Str(spec_saved_connections_sort_mode(s.ui_saved_connections_sort_mode@), None));
    let d25 = spec_set_path(d24, spec_keys(seq!["ui", "saved_connections_expanded_group_ids"]), spec_text_array(spec_clean_list(strings_view(s.ui_saved_connections_expanded_group_ids@), 512)));
    let d26 = spec_set_path(d25, spec_keys(seq!["ui", "start_workspace_mode"]), JsonModel::Str(spec_start_workspace_mode(s.ui_start_workspace_mode@), None));
    let d27 = spec_set_path(d26, spec_keys(seq!["ui", "asset_sort_key"]), spec_optional_trimmed_value(s.ui_asset_sort_key));
    let d28 = spec_set_path(d27, spec_keys(seq!["ui", "asset_sort_direction"]), spec_optional_text_or_null(spec_asset_sort_direction(opt_view(s.ui_asset_sort_direction))));
    let d29 = spec_set_path(d28, spec_keys(seq!["ui", "header_status_mode"]), JsonModel::Str(spec_header_status_setting(s.ui_header_status_mode@), None));
    let d30 = spec_set_path(d29, spec_keys(seq!["ui", "header_status_visible"]), JsonModel::Bool(s.ui_header_status_visible));
    assert(spec_saved_ui_layout_part1(d, s) == d8);
    assert(spec_saved_ui_layout_part2(d8, s) == d16);
    assert(spec_saved_ui_layout_part3(d16, s) == d24);
    assert(spec_saved_ui_layout_part4(d24, s) == d30);
    assert(spec_saved_ui_layout(d, s) == d30);
    lemma_set_path_then_read(d2, spec_keys(seq!["ui", "transfer_height"]), JsonModel::Number(JsonNumber::PosInt(spec_clamp(s.ui_transfer_height as int, 60, 600) as u64)));
    assert("quick_cmd_height"@.len() != "transfer_height"@.len());
    assert(spec_keys(seq!["ui", "quick_cmd_height"])[1] != spec_keys(seq!["ui", "transfer_height"])[1]);
    lemma_set_path_frame(d3, spec_keys(seq!["ui", "quick_cmd_height"]), JsonModel::Number(JsonNumber::PosInt(spec_clamp(s.ui_quick_cmd_height as int, 36, 520) as u64)), spec_keys(seq!["ui", "transfer_height"]));
    assert("show_quick_cmd_bar"@.len() != "transfer_height"@.len());
    assert(spec_keys(seq!["ui", "show_quick_cmd_bar"])[1] != spec_keys(seq!["ui", "transfer_height"])[1]);
    lemma_set_path_frame(d4, spec_keys(seq!["ui", "show_quick_cmd_bar"]), JsonModel::Bool(s.ui_quick_cmd_visible), spec_keys(seq!["ui", "transfer_height"]));
    assert("serial_send_height"@.len() != "transfer_height"@.len());
    assert(spec_keys(seq!["ui", "serial_send_height"])[1] != spec_keys(seq!["ui", "transfer_height"])[1]);
    lemma_set_path_frame(d5, spec_keys(seq!["ui", "serial_send_height"]), JsonModel::Number(JsonNumber::PosInt(spec_clamp(s.ui_serial_send_height as int, 60, 520) as u64)), spec_keys(seq!["ui", "transfer_height"]));
    assert("show_serial_send_panel"@.len() != "transfer_height"@.len());
    assert(spec_keys(seq!["ui", "show_serial_send_panel"])[1] != spec_keys(seq!["ui", "transfer_height"])[1]);
    lemma_set_path_frame(d6, spec_keys(seq!["ui", "show_serial_send_panel"]), JsonModel::Bool(s.ui_serial_send_visible), spec_keys(seq!["ui", "transfer_height"]));
    assert("active_left_panel"@.len() != "transfer_height"@.len());
    assert(spec_keys(seq!["ui", "active_left_panel"])[1] != spec_keys(seq!["ui", "transfer_height"])[1]);
    lemma_set_path_frame(d7, spec_keys(seq!["ui", "active_left_panel"]), spec_optional_panel_value(s.ui_active_left_panel), spec_keys(seq!["ui", "transfer_height"]));
    assert("active_right_panel"@.len() != "transfer_height"@.len());
    assert(spec_keys(seq!["ui", "active_right_panel"])[1] != spec_keys(seq!["ui", "transfer_height"])[1]);
    lemma_set_path_frame(d8, spec_keys(seq!["ui", "active_right_panel"]), spec_optional_panel_value(s.ui_active_right_panel), spec_keys(seq!["ui", "transfer_height"]));
    assert("left_panel_collapsed"@.len() != "transfer_height"@.len());
    assert(spec_keys(seq!["ui", "left_panel_collapsed"])[1] != spec_keys(seq!["ui", "transfer_height"])[1]);
    lemma_set_path_frame(d9, spec_keys(seq!["ui", "left_panel_collapsed"]), JsonModel::Bool(s.ui_left_panel_collapsed), spec_keys(seq!["ui", "transfer_height"]));
    assert("right_panel_collapsed"@.len() != "transfer_height"@.len());
    assert(spec_keys(seq!["ui", "right_panel_collapsed"])[1] != spec_keys(seq!["ui", "transfer_height"])[1]);
    lemma_set_path_frame(d10, spec_keys(seq!["ui", "right_panel_collapsed"]), JsonModel::Bool(s.ui_right_panel_collapsed), spec_keys(seq!["ui", "transfer_height"]));
    assert("activity_bar_layout"@.len() != "transfer_height"@.len());
    assert(spec_keys(seq!["ui", "activity_bar_layout", "left_top"])[1] != spec_keys(seq!["ui", "transfer_height"])[1]);
    lemma_set_path_frame(d11, spec_keys(seq!["ui", "activity_bar_layout", "left_top"]), spec_text_array(spec_clean_list(strings_view(s.ui_activity_bar_left_top@), 32)), spec_keys(seq!["ui", "transfer_height"]));
    assert("activity_bar_layout"@.len() != "transfer_height"@.len());
    assert(spec_keys(seq!["ui", "activity_bar_layout", "left_bottom"])[1] != spec_keys(seq!["ui", "transfer_height"])[1]);
    lemma_set_path_frame(d12, spec_keys(seq!["ui", "activity_bar_layout", "left_bottom"]), spec_text_array(spec_clean_list(strings_view(s.ui_activity_bar_left_bottom@), 32)), spec_keys(seq!["ui", "transfer_height"]));
    assert("activity_bar_layout"@.len() != "transfer_height"@.len());
    assert(spec_keys(seq!["ui", "activity_bar_layout", "right_top"])[1] != spec_keys(seq!["ui", "transfer_height"])[1]);
    lemma_set_path_frame(d13, spec_keys(seq!["ui", "activity_bar_layout", "right_top"]), spec_text_array(spec_clean_list(strings_view(s.ui_activity_bar_right_top@), 32)), spec_keys(seq!["ui", "transfer_height"]));
    assert("activity_bar_layout"@.len() != "transfer_height"@.len());
    assert(spec_keys(seq!["ui", "activity_bar_layout", "right_bottom"])[1] != spec_keys(seq!["ui", "transfer_height"])[1]);
    lemma_set_path_frame(d14, spec_keys(seq!["ui", "activity_bar_layout", "right_bottom"]), spec_text_array(spec_clean_list(strings_view(s.ui_activity_bar_right_bottom@), 32)), spec_keys(seq!["ui", "transfer_height"]));
    assert("activity_bar_layout"@.len() != "transfer_height"@.len());
    assert(spec_keys(seq!["ui", "activity_bar_layout", "show_labels"])[1] != spec_keys(seq!["ui", "transfer_height"])[1]);
    lemma_set_path_frame(d15, spec_keys(seq!["ui", "activity_bar_layout", "show_labels"]), JsonModel::Bool(s.ui_activity_bar_show_labels), spec_keys(seq!["ui", "transfer_height"]));
    assert("activity_bar_layout"@.len() != "transfer_height"@.len());
    assert(spec_keys(seq!["ui", "activity_bar_layout", "hidden_items"])[1] != spec_keys(seq!["ui", "transfer_height"])[1]);
    lemma_set_path_frame(d16, spec_keys(seq!["ui", "activity_bar_layout", "hidden_items"]), spec_text_array(spec_clean_list(strings_view(s.ui_activity_bar_hidden_items@), 64)), spec_keys(seq!["ui", "transfer_height"]));
    assert("panel_open_mode"@[0] != "transfer_height"@[0]);
    assert(spec_keys(seq!["ui", "panel_open_mode"])[1] != spec_keys(seq!["ui", "transfer_height"])[1]);
    lemma_set_path_frame(d17, spec_keys(seq!["ui", "panel_open_mode"]), JsonModel::Str(spec_panel_open_mode(s.ui_panel_open_mode@), None), spec_keys(seq!["ui", "transfer_height"]));
    assert("panel_multi_open"@.len() != "transfer_height"@.len());
    assert(spec_keys(seq!["ui", "panel_multi_open"])[1] != spec_keys(seq!["ui", "transfer_height"])[1]);
    lemma_set_path_frame(d18, spec_keys(seq!["ui", "panel_multi_open"]), JsonModel::Bool(s.ui_panel_multi_open), spec_keys(seq!["ui", "transfer_height"]));
    assert("appearance"@.len() != "ui"@.len());
    assert(spec_keys(seq!["appearance", "panel_multi_open"])[0] != spec_keys(seq!["ui", "transfer_height"])[0]);
    lemma_set_path_frame(d19, spec_keys(seq!["appearance", "panel_multi_open"]), JsonModel::Bool(s.ui_panel_multi_open), spec_keys(seq!["ui", "transfer_height"]));
    assert("left_open_panels"@.len() != "transfer_height"@.len());
    assert(spec_keys(seq!["ui", "left_open_panels"])[1] != spec_keys(seq!["ui", "transfer_height"])[1]);
    lemma_set_path_frame(d20, spec_keys(seq!["ui", "left_open_panels"]), spec_text_array(spec_clean_list(strings_view(s.ui_left_open_panels@), 32)), spec_keys(seq!["ui", "transfer_height"]));
    assert("right_open_panels"@.len() != "transfer_height"@.len());
    assert(spec_keys(seq!["ui", "right_open_panels"])[1] != spec_keys(seq!["ui", "transfer_height"])[1]);
    lemma_set_path_frame(d21, spec_keys(seq!["ui", "right_open_panels"]), spec_text_array(spec_clean_list(strings_view(s.ui_right_open_panels@), 32)), spec_keys(seq!["ui", "transfer_height"]));
    assert("panel_stack_sizes"@.len() != "transfer_height"@.len());
    assert(spec_keys(seq!["ui", "panel_stack_sizes"])[1] != spec_keys(seq!["ui", "transfer_height"])[1]);
    lemma_set_path_frame(d22, spec_keys(seq!["ui", "panel_stack_sizes"]), JsonModel::Object(spec_count_map_members(counts_view(s.ui_panel_stack_sizes@))), spec_keys(seq!["ui", "transfer_height"]));
    assert("saved_connections_sort_mode"@.len() != "transfer_height"@.len());
    assert(spec_keys(seq!["ui", "saved_connections_sort_mode"])[1] != spec_keys(seq!["ui", "transfer_height"])[1]);
    lemma_set_path_frame(d23, spec_keys(seq!["ui", "saved_connections_sort_mode"]), JsonModel::Str(spec_saved_connections_sort_mode(s.ui_saved_connections_sort_mode@), None), spec_keys(seq!["ui", "transfer_height"]));
    assert("saved_connections_expanded_group_ids"@.len() != "transfer_height"@.len());
    assert(spec_keys(seq!["ui", "saved_connections_expanded_group_ids"])[1] != spec_keys(seq!["ui", "transfer_height"])[1]);
    lemma_set_path_frame(d24, spec_keys(seq!["ui", "saved_connections_expanded_group_ids"]), spec_text_array(spec_clean_list(strings_view(s.ui_saved_connections_expanded_group_ids@), 512)), spec_keys(seq!["ui", "transfer_height"]));
    assert("start_workspace_mode"@.len() != "transfer_height"@.len());
    assert(spec_keys(seq!["ui", "start_workspace_mode"])[1] != spec_keys(seq!["ui", "transfer_height"])[1]);
    lemma_set_path_frame(d25, spec_keys(seq!["ui", "start_workspace_mode"]), JsonModel::Str(spec_start_workspace_mode(s.ui_start_workspace_mode@), None), spec_keys(seq!["ui", "transfer_height"]));
    assert("asset_sort_key"@.len() != "transfer_height"@.len());
    assert(spec_keys(seq!["ui", "asset_sort_key"])[1] != spec_keys(seq!["ui", "transfer_height"])[1]);
    lemma_set_path_frame(d26, spec_keys(seq!["ui", "asset_sort_key"]), spec_optional_trimmed_value(s.ui_asset_sort_key), spec_keys(seq!["ui", "transfer_height"]));
    assert("asset_sort_direction"@.len() != "transfer_height"@.len());
    assert(spec_keys(seq!["ui", "asset_sort_direction"])[1] != spec_keys(seq!["ui", "transfer_height"])[1]);
    lemma_set_path_frame(d27, spec_keys(seq!["ui", "asset_sort_direction"]), spec_optional_text_or_null(spec_asset_sort_direction(opt_view(s.ui_asset_sort_direction))), spec_keys(seq!["ui", "transfer_height"]));
    assert("header_status_mode"@.len() != "transfer_height"@.len());
    assert(spec_keys(seq!["ui", "header_status_mode"])[1] != spec_keys(seq!["ui", "transfer_height"])[1]);
    lemma_set_path_frame(d28, spec_keys(seq!["ui", "header_status_mode"]), JsonModel::Str(spec_header_status_setting(s.ui_header_status_mode@), None), spec_keys(seq!["ui", "transfer_height"]));
    assert("header_status_visible"@.len() != "transfer_height"@.len());
    assert(spec_keys(seq!["ui", "header_status_visible"])[1] != spec_keys(seq!["ui", "transfer_height"])[1]);
    lemma_set_path_frame(d29, spec_keys(seq!["ui", "header_status_visible"]), JsonModel::Bool(s.ui_header_status_visible), spec_keys(seq!["ui", "transfer_height"]));
}

#[verifier::spinoff_prover]
proof fn lemma_saved_ui_layout_keeps_ui_quick_cmd_height(d: JsonModel, s: AppSettingsSummary)
    ensures
        spec_json_path(spec_saved_ui_layout(d, s), spec_keys(seq!["ui", "quick_cmd_height"])) == Some(JsonModel::Number(JsonNumber::PosInt(spec_clamp(s.ui_quick_cmd_height as int, 36, 520) as u64))),
{
    reveal_strlit("active_left_panel");
    reveal_strlit("active_right_panel");
    reveal_strlit("activity_bar_layout");
    reveal_strlit("appearance");
    reveal_strlit("asset_sort_direction");
    reveal_strlit("asset_sort_key");
    reveal_strlit("header_status_mode");
    reveal_strlit("header_status_visible");
    reveal_strlit("left_open_panels");
    reveal_strlit("left_panel_collapsed");
    reveal_strlit("panel_multi_open");
    reveal_strlit("panel_open_mode");
    reveal_strlit("panel_stack_sizes");
    reveal_strlit("quick_cmd_height");
    reveal_strlit("right_open_panels");
    reveal_strlit("right_panel_collapsed");
    reveal_strlit("saved_connections_expanded_group_ids");
    reveal_strlit("saved_connections_sort_mode");
    reveal_strlit("serial_send_height");
    reveal_strlit("show_quick_cmd_bar");
    reveal_strlit("show_serial_send_panel");
    reveal_strlit("start_workspace_mode");
    reveal_strlit("ui");
    let d1 = spec_set_path(d, spec_keys(seq!["ui", "left_width"]), JsonModel::Number(JsonNumber::PosInt(spec_clamp(s.ui_left_panel_width as int, 160, 720) as u64)));
    let d2 = spec_set_path(d1, spec_keys(seq!["ui", "right_width"]), JsonModel::Number(JsonNumber::PosInt(spec_clamp(s.ui_right_panel_width as int, 200, 720) as u64)));
    let d3 = spec_set_path(d2, spec_keys(seq!["ui", "transfer_height"]), JsonModel::Number(JsonNumber::PosInt(spec_clamp(s.ui_transfer_height as int, 60, 600) as u64)));
    let d4 = spec_set_path(d3, spec_keys(seq!["ui", "quick_cmd_height"]), JsonModel::Number(JsonNumber::PosInt(spec_clamp(s.ui_quick_cmd_height as int, 36, 520) as u64)));
    let d5 = spec_set_path(d4, spec_keys(seq!["ui", "show_quick_cmd_bar"]), JsonModel::Bool(s.ui_quick_cmd_visible));
    let d6 = spec_set_path(d5, spec_keys(seq!["ui", "serial_send_height"]), JsonModel::Number(JsonNumber::PosInt(spec_clamp(s.ui_serial_send_height as int, 60, 520) as u64)));
    let d7 = spec_set_path(d6, spec_keys(seq!["ui", "show_serial_send_panel"]), JsonModel::Bool(s.ui_serial_send_visible));
    let d8 = spec_set_path(d7, spec_keys(seq!["ui", "active_left_panel"]), spec_optional_panel_value(s.ui_active_left_panel));
    let d9 = spec_set_path(d8, spec_keys(seq!["ui", "active_right_panel"]), spec_optional_panel_value(s.ui_active_right_panel));
    let d10 = spec_set_path(d9, spec_keys(seq!["ui", "left_panel_collapsed"]), JsonModel::Bool(s.ui_left_panel_collapsed));
    let d11 = spec_set_path(d10, spec_keys(seq!["ui", "right_panel_collapsed"]), JsonModel::Bool(s.ui_right_panel_collapsed));
    let d12 = spec_set_path(d11, spec_keys(seq!["ui", "activity_bar_layout", "left_top"]), spec_text_array(spec_clean_list(strings_view(s.ui_activity_bar_left_top@), 32)));
    let d13 = spec_set_path(d12, spec_keys(seq!["ui", "activity_bar_layout", "left_bottom"]), spec_text_array(spec_clean_list(strings_view(s.ui_activity_bar_left_bottom@), 32)));
    let d14 = spec_set_path(d13, spec_keys(seq!["ui", "activity_bar_layout", "right_top"]), spec_text_array(spec_clean_list(strings_view(s.ui_activity_bar_right_top@), 32)));
    let d15 = spec_set_path(d14, spec_keys(seq!["ui", "activity_bar_layout", "right_bottom"]), spec_text_array(spec_clean_list(strings_view(s.ui_activity_bar_right_bottom@), 32)));
    let d16 = spec_set_path(d15, spec_keys(seq!["ui", "activity_bar_layout", "show_labels"]), JsonModel::Bool(s.ui_activity_bar_show_labels));
    let d17 = spec_set_path(d16, spec_keys(seq!["ui", "activity_bar_layout", "hidden_items"]), spec_text_array(spec_clean_list(strings_view(s.ui_activity_bar_hidden_items@), 64)));
    let d18 = spec_set_path(d17, spec_keys(seq!["ui", "panel_open_mode"]), JsonModel::Str(spec_panel_open_mode(s.ui_panel_open_mode@), None));
    let d19 = spec_set_path(d18, spec_keys(seq!["ui", "panel_multi_open"]), JsonModel::Bool(s.ui_panel_multi_open));
    let d20 = spec_set_path(d19, spec_keys(seq!["appearance", "panel_multi_open"]), JsonModel::Bool(s.ui_panel_multi_open));
    let d21 = spec_set_path(d20, spec_keys(seq!["ui", "left_open_panels"]), spec_text_array(spec_clean_list(strings_view(s.ui_left_open_panels@), 32)));
    let d22 = spec_set_path(d21, spec_keys(seq!["ui", "right_open_panels"]), spec_text_array(spec_clean_list(strings_view(s.ui_right_open_panels@), 32)));
    let d23 = spec_set_path(d22, spec_keys(seq!["ui", "panel_stack_sizes"]), JsonModel::Object(spec_count_map_members(counts_view(s.ui_panel_stack_sizes@))));
    let d24 = spec_set_path(d23, spec_keys(seq!["ui", "saved_connections_sort_mode"]), JsonModel::Str(spec_saved_connections_sort_mode(s.ui_saved_connections_sort_mode@), None));
    let d25 = spec_set_path(d24, spec_keys(seq!["ui", "saved_connections_expanded_group_ids"]), spec_text_array(spec_clean_list(strings_view(s.ui_saved_connections_expanded_group_ids@), 512)));
    let d26 = spec_set_path(d25, spec_keys(seq!["ui", "start_workspace_mode"]), JsonModel::Str(spec_start_workspace_mode(s.ui_start_workspace_mode@), None));
    let d27 = spec_set_path(d26, spec_keys(seq!["ui", "asset_sort_key"]), spec_optional_trimmed_value(s.ui_asset_sort_key));
    let d28 = spec_set_path(d27, spec_keys(seq!["ui", "asset_sort_direction"]), spec_optional_text_or_null(spec_asset_sort_direction(opt_view(s.ui_asset_sort_direction))));
    let d29 = spec_set_path(d28, spec_keys(seq!["ui", "header_status_mode"]), JsonModel::Str(spec_header_status_setting(s.ui_header_status_mode@), None));
    let d30 = spec_set_path(d29, spec_keys(seq!["ui", "header_status_visible"]), JsonModel::Bool(s.ui_header_status_visible));
    assert(spec_saved_ui_layout_part1(d, s) == d8);
    assert(spec_saved_ui_layout_part2(d8, s) == d16);
    assert(spec_saved_ui_layout_part3(d16, s) == d24);
    assert(spec_saved_ui_layout_part4(d24, s) == d30);
    assert(spec_saved_ui_layout(d, s) == d30);
    lemma_set_path_then_read(d3, spec_keys(seq!["ui", "quick_cmd_height"]), JsonModel::Number(JsonNumber::PosInt(spec_clamp(s.ui_quick_cmd_height as int, 36, 520) as u64)));
    assert("show_quick_cmd_bar"@.len() != "quick_cmd_height"@.len());
    assert(spec_keys(seq!["ui", "show_quick_cmd_bar"])[1] != spec_keys(seq!["ui", "quick_cmd_height"])[1]);
    lemma_set_path_frame(d4, spec_keys(seq!["ui", "show_quick_cmd_bar"]), JsonModel::Bool(s.ui_quick_cmd_visible), spec_keys(seq!["ui", "quick_cmd_height"]));
    assert("serial_send_height"@.len() != "quick_cmd_height"@.len());
    assert(spec_keys(seq!["ui", "serial_send_height"])[1] != spec_keys(seq!["ui", "quick_cmd_height"])[1]);
    lemma_set_path_frame(d5, spec_keys(seq!["ui", "serial_send_height"]), JsonModel::Number(JsonNumber::PosInt(spec_clamp(s.ui_serial_send_height as int, 60, 520) as u64)), spec_keys(seq!["ui", "quick_cmd_height"]));
    assert("show_serial_send_panel"@.len() != "quick_cmd_height"@.len());
    assert(spec_keys(seq!["ui", "show_serial_send_panel"])[1] != spec_keys(seq!["ui", "quick_cmd_height"])[1]);
    lemma_set_path_frame(d6, spec_keys(seq!["ui", "show_serial_send_panel"]), JsonModel::Bool(s.ui_serial_send_visible), spec_keys(seq!["ui", "quick_cmd_height"]));
    assert("active_left_panel"@.len() != "quick_cmd_height"@.len());
    assert(spec_keys(seq!["ui", "active_left_panel"])[1] != spec_keys(seq!["ui", "quick_cmd_height"])[1]);
    lemma_set_path_frame(d7, spec_keys(seq!["ui", "active_left_panel"]), spec_optional_panel_value(s.ui_active_left_panel), spec_keys(seq!["ui", "quick_cmd_height"]));
    assert("active_right_panel"@.len() != "quick_cmd_height"@.len());
    assert(spec_keys(seq!["ui", "active_right_panel"])[1] != spec_keys(seq!["ui", "quick_cmd_height"])[1]);
    lemma_set_path_frame(d8, spec_keys(seq!["ui", "active_right_panel"]), spec_optional_panel_value(s.ui_active_right_panel), spec_keys(seq!["ui", "quick_cmd_height"]));
    assert("left_panel_collapsed"@.len() != "quick_cmd_height"@.len());
    assert(spec_keys(seq!["ui", "left_panel_collapsed"])[1] != spec_keys(seq!["ui", "quick_cmd_height"])[1]);
    lemma_set_path_frame(d9, spec_keys(seq!["ui", "left_panel_collapsed"]), JsonModel::Bool(s.ui_left_panel_collapsed), spec_keys(seq!["ui", "quick_cmd_height"]));
    assert("right_panel_collapsed"@.len() != "quick_cmd_height"@.len());
    assert(spec_keys(seq!["ui", "right_panel_collapsed"])[1] != spec_keys(seq!["ui", "quick_cmd_height"])[1]);
    lemma_set_path_frame(d10, spec_keys(seq!["ui", "right_panel_collapsed"]), JsonModel::Bool(s.ui_right_panel_collapsed), spec_keys(seq!["ui", "quick_cmd_height"]));
    assert("activity_bar_layout"@.len() != "quick_cmd_height"@.len());
    assert(spec_keys(seq!["ui", "activity_bar_layout", "left_top"])[1] != spec_keys(seq!["ui", "quick_cmd_height"])[1]);
    lemma_set_path_frame(d11, spec_keys(seq!["ui", "activity_bar_layout", "left_top"]), spec_text_array(spec_clean_list(strings_view(s.ui_activity_bar_left_top@), 32)), spec_keys(seq!["ui", "quick_cmd_height"]));
    assert("activity_bar_layout"@.len() != "quick_cmd_height"@.len());
    assert(spec_keys(seq!["ui", "activity_bar_layout", "left_bottom"])[1] != spec_keys(seq!["ui", "quick_cmd_height"])[1]);
    lemma_set_path_frame(d12, spec_keys(seq!["ui", "activity_bar_layout", "left_bottom"]), spec_text_array(spec_clean_list(strings_view(s.ui_activity_bar_left_bottom@), 32)), spec_keys(seq!["ui", "quick_cmd_height"]));
    assert("activity_bar_layout"@.len() != "quick_cmd_height"@.len());
    assert(spec_keys(seq!["ui", "activity_bar_layout", "right_top"])[1] != spec_keys(seq!["ui", "quick_cmd_height"])[1]);
    lemma_set_path_frame(d13, spec_keys(seq!["ui", "activity_bar_layout", "right_top"]), spec_text_array(spec_clean_list(strings_view(s.ui_activity_bar_right_top@), 32)), spec_keys(seq!["ui", "quick_cmd_height"]));
    assert("activity_bar_layout"@.len() != "quick_cmd_height"@.len());
    assert(spec_keys(seq!["ui", "activity_bar_layout", "right_bottom"])[1] != spec_keys(seq!["ui", "quick_cmd_height"])[1]);
    lemma_set_path_frame(d14, spec_keys(seq!["ui", "activity_bar_layout", "right_bottom"]), spec_text_array(spec_clean_list(strings_view(s.ui_activity_bar_right_bottom@), 32)), spec_keys(seq!["ui", "quick_cmd_height"]));
    assert("activity_bar_layout"@.len() != "quick_cmd_height"@.len());
    assert(spec_keys(seq!["ui", "activity_bar_layout", "show_labels"])[1] != spec_keys(seq!["ui", "quick_cmd_height"])[1]);
    lemma_set_path_frame(d15, spec_keys(seq!["ui", "activity_bar_layout", "show_labels"]), JsonModel::Bool(s.ui_activity_bar_show_labels), spec_keys(seq!["ui", "quick_cmd_height"]));
    assert("activity_bar_layout"@.len() != "quick_cmd_height"@.len());
    assert(spec_keys(seq!["ui", "activity_bar_layout", "hidden_items"])[1] != spec_keys(seq!["ui", "quick_cmd_height"])[1]);
    lemma_set_path_frame(d16, spec_keys(seq!["ui", "activity_bar_layout", "hidden_items"]), spec_text_array(spec_clean_list(strings_view(s.ui_activity_bar_hidden_items@), 64)), spec_keys(seq!["ui", "quick_cmd_height"]));
    assert("panel_open_mode"@.len() != "quick_cmd_height"@.len());
    assert(spec_keys(seq!["ui", "panel_open_mode"])[1] != spec_keys(seq!["ui", "quick_cmd_height"])[1]);
    lemma_set_path_frame(d17, spec_keys(seq!["ui", "panel_open_mode"]), JsonModel::Str(spec_panel_open_mode(s.ui_panel_open_mode@), None), spec_keys(seq!["ui", "quick_cmd_height"]));
    assert("panel_multi_open"@[0] != "quick_cmd_height"@[0]);
    assert(spec_keys(seq!["ui", "panel_multi_open"])[1] != spec_keys(seq!["ui", "quick_cmd_height"])[1]);
    lemma_set_path_frame(d18, spec_keys(seq!["ui", "panel_multi_open"]), JsonModel::Bool(s.ui_panel_multi_open), spec_keys(seq!["ui", "quick_cmd_height"]));
    assert("appearance"@.len() != "ui"@.len());
    assert(spec_keys(seq!["appearance", "panel_multi_open"])[0] != spec_keys(seq!["ui", "quick_cmd_height"])[0]);
    lemma_set_path_frame(d19, spec_keys(seq!["appearance", "panel_multi_open"]), JsonModel::Bool(s.ui_panel_multi_open), spec_keys(seq!["ui", "quick_cmd_height"]));
    assert("left_open_panels"@[0] != "quick_cmd_height"@[0]);
    assert(spec_keys(seq!["ui", "left_open_panels"])[1] != spec_keys(seq!["ui", "quick_cmd_height"])[1]);
    lemma_set_path_frame(d20, spec_keys(seq!["ui", "left_open_panels"]), spec_text_array(spec_clean_list(strings_view(s.ui_left_open_panels@), 32)), spec_keys(seq!["ui", "quick_cmd_height"]));
    assert("right_open_panels"@.len() != "quick_cmd_height"@.len());
    assert(spec_keys(seq!["ui", "right_open_panels"])[1] != spec_keys(seq!["ui", "quick_cmd_height"])[1]);
    lemma_set_path_frame(d21, spec_keys(seq!["ui", "right_open_panels"]), spec_text_array(spec_clean_list(strings_view(s.ui_right_open_panels@), 32)), spec_keys(seq!["ui", "quick_cmd_height"]));
    assert("panel_stack_sizes"@.len() != "quick_cmd_height"@.len());
    assert(spec_keys(seq!["ui", "panel_stack_sizes"])[1] != spec_keys(seq!["ui", "quick_cmd_height"])[1]);
    lemma_set_path_frame(d22, spec_keys(seq!["ui", "panel_stack_sizes"]), JsonModel::Object(spec_count_map_members(counts_view(s.ui_panel_stack_sizes@))), spec_keys(seq!["ui", "quick_cmd_height"]));
    assert("saved_connections_sort_mode"@.len() != "quick_cmd_height"@.len());
    assert(spec_keys(seq!["ui", "saved_connections_sort_mode"])[1] != spec_keys(seq!["ui", "quick_cmd_height"])[1]);
    lemma_set_path_frame(d23, spec_keys(seq!["ui", "saved_connections_sort_mode"]), JsonModel::Str(spec_saved_connections_sort_mode(s.ui_saved_connections_sort_mode@), None), spec_keys(seq!["ui", "quick_cmd_height"]));
    assert("saved_connections_expanded_group_ids"@.len() != "quick_cmd_height"@.len());
    assert(spec_keys(seq!["ui", "saved_connections_expanded_group_ids"])[1] != spec_keys(seq!["ui", "quick_cmd_height"])[1]);
    lemma_set_path_frame(d24, spec_keys(seq!["ui", "saved_connections_expanded_group_ids"]), spec_text_array(spec_clean_list(strings_view(s.ui_saved_connections_expanded_group_ids@), 512)), spec_keys(seq!["ui", "quick_cmd_height"]));
    assert("start_workspace_mode"@.len() != "quick_cmd_height"@.len());
    assert(spec_keys(seq!["ui", "start_workspace_mode"])[1] != spec_keys(seq!["ui", "quick_cmd_height"])[1]);
    lemma_set_path_frame(d25, spec_keys(seq!["ui", "start_workspace_mode"]), JsonModel::Str(spec_start_workspace_mode(s.ui_start_workspace_mode@), None), spec_keys(seq!["ui", "quick_cmd_height"]));
    assert("asset_sort_key"@.len() != "quick_cmd_height"@.len());
    assert(spec_keys(seq!["ui", "asset_sort_key"])[1] != spec_keys(seq!["ui", "quick_cmd_height"])[1]);
    lemma_set_path_frame(d26, spec_keys(seq!["ui", "asset_sort_key"]), spec_optional_trimmed_value(s.ui_asset_sort_key), spec_keys(seq!["ui", "quick_cmd_height"]));
    assert("asset_sort_direction"@.len() != "quick_cmd_height"@.len());
    assert(spec_keys(seq!["ui", "asset_sort_direction"])[1] != spec_keys(seq!["ui", "quick_cmd_height"])[1]);
    lemma_set_path_frame(d27, spec_keys(seq!["ui", "asset_sort_direction"]), spec_optional_text_or_null(spec_asset_sort_direction(opt_view(s.ui_asset_sort_direction))), spec_keys(seq!["ui", "quick_cmd_height"]));
    assert("header_status_mode"@.len() != "quick_cmd_height"@.len());
    assert(spec_keys(seq!["ui", "header_status_mode"])[1] != spec_keys(seq!["ui", "quick_cmd_height"])[1]);
    lemma_set_path_frame(d28, spec_keys(seq!["ui", "header_status_mode"]), JsonModel::Str(spec_header_status_setting(s.ui_header_status_mode@), None), spec_keys(seq!["ui", "quick_cmd_height"]));
    assert("header_status_visible"@.len() != "quick_cmd_height"@.len());
    assert(spec_keys(seq!["ui", "header_status_visible"])[1] != spec_keys(seq!["ui", "quick_cmd_height"])[1]);
    lemma_set_path_frame(d29, spec_keys(seq!["ui", "header_status_visible"]), JsonModel::Bool(s.ui_header_status_visible), spec_keys(seq!["ui", "quick_cmd_height"]));
}

#[verifier::spinoff_prover]
proof fn lemma_saved_ui_layout_keeps_ui_show_quick_cmd_bar(d: JsonModel, s: AppSettingsSummary)
    ensures
        spec_json_path(spec_saved_ui_layout(d, s), spec_keys(seq!["ui", "show_quick_cmd_bar"])) == Some(JsonModel::Bool(s.ui_quick_cmd_visible)),
{
    reveal_strlit("active_left_panel");
    reveal_strlit("active_right_panel");
    reveal_strlit("activity_bar_layout");
    reveal_strlit("appearance");
    reveal_strlit("asset_sort_direction");
    reveal_strlit("asset_sort_key");
    reveal_strlit("header_status_mode");
    reveal_strlit("header_status_visible");
    reveal_strlit("left_open_panels");
    reveal_strlit("left_panel_collapsed");
    reveal_strlit("panel_multi_open");
    reveal_strlit("panel_open_mode");
    reveal_strlit("panel_stack_sizes");
    reveal_strlit("right_open_panels");
    reveal_strlit("right_panel_collapsed");
    reveal_strlit("saved_connections_expanded_group_ids");
    reveal_strlit("saved_connections_sort_mode");
    reveal_strlit("serial_send_height");
    reveal_strlit("show_quick_cmd_bar");
    reveal_strlit("show_serial_send_panel");
    reveal_strlit("start_workspace_mode");
    reveal_strlit("ui");
    let d1 = spec_set_path(d, spec_keys(seq!["ui", "left_width"]), JsonModel::Number(JsonNumber::PosInt(spec_clamp(s.ui_left_panel_width as int, 160, 720) as u64)));
    let d2 = spec_set_path(d1, spec_keys(seq!["ui", "right_width"]), JsonModel::Number(JsonNumber::PosInt(spec_clamp(s.ui_right_panel_width as int, 200, 720) as u64)));
    let d3 = spec_set_path(d2, spec_keys(seq!["ui", "transfer_height"]), JsonModel::Number(JsonNumber::PosInt(spec_clamp(s.ui_transfer_height as int, 60, 600) as u64)));
    let d4 = spec_set_path(d3, spec_keys(seq!["ui", "quick_cmd_height"]), JsonModel::Number(JsonNumber::PosInt(spec_clamp(s.ui_quick_cmd_height as int, 36, 520) as u64)));
    let d5 = spec_set_path(d4, spec_keys(seq!["ui", "show_quick_cmd_bar"]), JsonModel::Bool(s.ui_quick_cmd_visible));
    let d6 = spec_set_path(d5, spec_keys(seq!["ui", "serial_send_height"]), JsonModel::Number(JsonNumber::PosInt(spec_clamp(s.ui_serial_send_height as int, 60, 520) as u64)));
    let d7 = spec_set_path(d6, spec_keys(seq!["ui", "show_serial_send_panel"]), JsonModel::Bool(s.ui_serial_send_visible));
    let d8 = spec_set_path(d7, spec_keys(seq!["ui", "active_left_panel"]), spec_optional_panel_value(s.ui_active_left_panel));
    let d9 = spec_set_path(d8, spec_keys(seq!["ui", "active_right_panel"]), spec_optional_panel_value(s.ui_active_right_panel));
    let d10 = spec_set_path(d9, spec_keys(seq!["ui", "left_panel_collapsed"]), JsonModel::Bool(s.ui_left_panel_collapsed));
    let d11 = spec_set_path(d10, spec_keys(seq!["ui", "right_panel_collapsed"]), JsonModel::Bool(s.ui_right_panel_collapsed));
    let d12 = spec_set_path(d11, spec_keys(seq!["ui", "activity_bar_layout", "left_top"]), spec_text_array(spec_clean_list(strings_view(s.ui_activity_bar_left_top@), 32)));
    let d13 = spec_set_path(d12, spec_keys(seq!["ui", "activity_bar_layout", "left_bottom"]), spec_text_array(spec_clean_list(strings_view(s.ui_activity_bar_left_bottom@), 32)));
    let d14 = spec_set_path(d13, spec_keys(seq!["ui", "activity_bar_layout", "right_top"]), spec_text_array(spec_clean_list(strings_view(s.ui_activity_bar_right_top@), 32)));
    let d15 = spec_set_path(d14, spec_keys(seq!["ui", "activity_bar_layout", "right_bottom"]), spec_text_array(spec_clean_list(strings_view(s.ui_activity_bar_right_bottom@), 32)));
    let d16 = spec_set_path(d15, spec_keys(seq!["ui", "activity_bar_layout", "show_labels"]), JsonModel::Bool(s.ui_activity_bar_show_labels));
    let d17 = spec_set_path(d16, spec_keys(seq!["ui", "activity_bar_layout", "hidden_items"]), spec_text_array(spec_clean_list(strings_view(s.ui_activity_bar_hidden_items@), 64)));
    let d18 = spec_set_path(d17, spec_keys(seq!["ui", "panel_open_mode"]), JsonModel::Str(spec_panel_open_mode(s.ui_panel_open_mode@), None));
    let d19 = spec_set_path(d18, spec_keys(seq!["ui", "panel_multi_open"]), JsonModel::Bool(s.ui_panel_multi_open));
    let d20 = spec_set_path(d19, spec_keys(seq!["appearance", "panel_multi_open"]), JsonModel::Bool(s.ui_panel_multi_open));
    let d21 = spec_set_path(d20, spec_keys(seq!["ui", "left_open_panels"]), spec_text_array(spec_clean_list(strings_view(s.ui_left_open_panels@), 32)));
    let d22 = spec_set_path(d21, spec_keys(seq!["ui", "right_open_panels"]), spec_text_array(spec_clean_list(strings_view(s.ui_right_open_panels@), 32)));
    let d23 = spec_set_path(d22, spec_keys(seq!["ui", "panel_stack_sizes"]), JsonModel::Object(spec_count_map_members(counts_view(s.ui_panel_stack_sizes@))));
    let d24 = spec_set_path(d23, spec_keys(seq!["ui", "saved_connections_sort_mode"]), JsonModel::Str(spec_saved_connections_sort_mode(s.ui_saved_connections_sort_mode@), None));
    let d25 = spec_set_path(d24, spec_keys(seq!["ui", "saved_connections_expanded_group_ids"]), spec_text_array(spec_clean_list(strings_view(s.ui_saved_connections_expanded_group_ids@), 512)));
    let d26 = spec_set_path(d25, spec_keys(seq!["ui", "start_workspace_mode"]), JsonModel::Str(spec_start_workspace_mode(s.ui_start_workspace_mode@), None));
    let d27 = spec_set_path(d26, spec_keys(seq!["ui", "asset_sort_key"]), spec_optional_trimmed_value(s.ui_asset_sort_key));
    let d28 = spec_set_path(d27, spec_keys(seq!["ui", "asset_sort_direction"]), spec_optional_text_or_null(spec_asset_sort_direction(opt_view(s.ui_asset_sort_direction))));
    let d29 = spec_set_path(d28, spec_keys(seq!["ui", "header_status_mode"]), JsonModel::Str(spec_header_status_setting(s.ui_header_status_mode@), None));
    let d30 = spec_set_path(d29, spec_keys(seq!["ui", "header_status_visible"]), JsonModel::Bool(s.ui_header_status_visible));
    assert(spec_saved_ui_layout_part1(d, s) == d8);
    assert(spec_saved_ui_layout_part2(d8, s) == d16);
    assert(spec_saved_ui_layout_part3(d16, s) == d24);
    assert(spec_saved_ui_layout_part4(d24, s) == d30);
    assert(spec_saved_ui_layout(d, s) == d30);
    lemma_set_path_then_read(d4, spec_keys(seq!["ui", "show_quick_cmd_bar"]), JsonModel::Bool(s.ui_quick_cmd_visible));
    assert("serial_send_height"@[1] != "show_quick_cmd_bar"@[1]);
    assert(spec_keys(seq!["ui", "serial_send_height"])[1] != spec_keys(seq!["ui", "show_quick_cmd_bar"])[1]);
    lemma_set_path_frame(d5, spec_keys(seq!["ui", "serial_send_height"]), JsonModel::Number(JsonNumber::PosInt(spec_clamp(s.ui_serial_send_height as int, 60, 520) as u64)), spec_keys(seq!["ui", "show_quick_cmd_bar"]));
    assert("show_serial_send_panel"@.len() != "show_quick_cmd_bar"@.len());
    assert(spec_keys(seq!["ui", "show_serial_send_panel"])[1] != spec_keys(seq!["ui", "show_quick_cmd_bar"])[1]);
    lemma_set_path_frame(d6, spec_keys(seq!["ui", "show_serial_send_panel"]), JsonModel::Bool(s.ui_serial_send_visible), spec_keys(seq!["ui", "show_quick_cmd_bar"]));
    assert("active_left_panel"@.len() != "show_quick_cmd_bar"@.len());
    assert(spec_keys(seq!["ui", "active_left_panel"])[1] != spec_keys(seq!["ui", "show_quick_cmd_bar"])[1]);
    lemma_set_path_frame(d7, spec_keys(seq!["ui", "active_left_panel"]), spec_optional_panel_value(s.ui_active_left_panel), spec_keys(seq!["ui", "show_quick_cmd_bar"]));
    assert("active_right_panel"@[0] != "show_quick_cmd_bar"@[0]);
    assert(spec_keys(seq!["ui", "active_right_panel"])[1] != spec_keys(seq!["ui", "show_quick_cmd_bar"])[1]);
    lemma_set_path_frame(d8, spec_keys(seq!["ui", "active_right_panel"]), spec_optional_panel_value(s.ui_active_right_panel), spec_keys(seq!["ui", "show_quick_cmd_bar"]));
    assert("left_panel_collapsed"@.len() != "show_quick_cmd_bar"@.len());
    assert(spec_keys(seq!["ui", "left_panel_collapsed"])[1] != spec_keys(seq!["ui", "show_quick_cmd_bar"])[1]);
    lemma_set_path_frame(d9, spec_keys(seq!["ui", "left_panel_collapsed"]), JsonModel::Bool(s.ui_left_panel_collapsed), spec_keys(seq!["ui", "show_quick_cmd_bar"]));
    assert("right_panel_collapsed"@.len() != "show_quick_cmd_bar"@.len());
    assert(spec_keys(seq!["ui", "right_panel_collapsed"])[1] != spec_keys(seq!["ui", "show_quick_cmd_bar"])[1]);
    lemma_set_path_frame(d10, spec_keys(seq!["ui", "right_panel_collapsed"]), JsonModel::Bool(s.ui_right_panel_collapsed), spec_keys(seq!["ui", "show_quick_cmd_bar"]));
    assert("activity_bar_layout"@.len() != "show_quick_cmd_bar"@.len());
    assert(spec_keys(seq!["ui", "activity_bar_layout", "left_top"])[1] != spec_keys(seq!["ui", "show_quick_cmd_bar"])[1]);
    lemma_set_path_frame(d11, spec_keys(seq!["ui", "activity_bar_layout", "left_top"]), spec_text_array(spec_clean_list(strings_view(s.ui_activity_bar_left_top@), 32)), spec_keys(seq!["ui", "show_quick_cmd_bar"]));
    assert("activity_bar_layout"@.len() != "show_quick_cmd_bar"@.len());
    assert(spec_keys(seq!["ui", "activity_bar_layout", "left_bottom"])[1] != spec_keys(seq!["ui", "show_quick_cmd_bar"])[1]);
    lemma_set_path_frame(d12, spec_keys(seq!["ui", "activity_bar_layout", "left_bottom"]), spec_text_array(spec_clean_list(strings_view(s.ui_activity_bar_left_bottom@), 32)), spec_keys(seq!["ui", "show_quick_cmd_bar"]));
    assert("activity_bar_layout"@.len() != "show_quick_cmd_bar"@.len());
    assert(spec_keys(seq!["ui", "activity_bar_layout", "right_top"])[1] != spec_keys(seq!["ui", "show_quick_cmd_bar"])[1]);
    lemma_set_path_frame(d13, spec_keys(seq!["ui", "activity_bar_layout", "right_top"]), spec_text_array(spec_clean_list(strings_view(s.ui_activity_bar_right_top@), 32)), spec_keys(seq!["ui", "show_quick_cmd_bar"]));
    assert("activity_bar_layout"@.len() != "show_quick_cmd_bar"@.len());
    assert(spec_keys(seq!["ui", "activity_bar_layout", "right_bottom"])[1] != spec_keys(seq!["ui", "show_quick_cmd_bar"])[1]);
    lemma_set_path_frame(d14, spec_keys(seq!["ui", "activity_bar_layout", "right_bottom"]), spec_text_array(spec_clean_list(strings_view(s.ui_activity_bar_right_bottom@), 32)), spec_keys(seq!["ui", "show_quick_cmd_bar"]));
    assert("activity_bar_layout"@.len() != "show_quick_cmd_bar"@.len());
    assert(spec_keys(seq!["ui", "activity_bar_layout", "show_labels"])[1] != spec_keys(seq!["ui", "show_quick_cmd_bar"])[1]);
    lemma_set_path_frame(d15, spec_keys(seq!["ui", "activity_bar_layout", "show_labels"]), JsonModel::Bool(s.ui_activity_bar_show_labels), spec_keys(seq!["ui", "show_quick_cmd_bar"]));
    assert("activity_bar_layout"@.len() != "show_quick_cmd_bar"@.len());
    assert(spec_keys(seq!["ui", "activity_bar_layout", "hidden_items"])[1] != spec_keys(seq!["ui", "show_quick_cmd_bar"])[1]);
    lemma_set_path_frame(d16, spec_keys(seq!["ui", "activity_bar_layout", "hidden_items"]), spec_text_array(spec_clean_list(strings_view(s.ui_activity_bar_hidden_items@), 64)), spec_keys(seq!["ui", "show_quick_cmd_bar"]));
    assert("panel_open_mode"@.len() != "show_quick_cmd_bar"@.len());
    assert(spec_keys(seq!["ui", "panel_open_mode"])[1] != spec_keys(seq!["ui", "show_quick_cmd_bar"])[1]);
    lemma_set_path_frame(d17, spec_keys(seq!["ui", "panel_open_mode"]), JsonModel::Str(spec_panel_open_mode(s.ui_panel_open_mode@), None), spec_keys(seq!["ui", "show_quick_cmd_bar"]));
    assert("panel_multi_open"@.len() != "show_quick_cmd_bar"@.len());
    assert(spec_keys(seq!["ui", "panel_multi_open"])[1] != spec_keys(seq!["ui", "show_quick_cmd_bar"])[1]);
    lemma_set_path_frame(d18, spec_keys(seq!["ui", "panel_multi_open"]), JsonModel::Bool(s.ui_panel_multi_open), spec_keys(seq!["ui", "show_quick_cmd_bar"]));
    assert("appearance"@.len() != "ui"@.len());
    assert(spec_keys(seq!["appearance", "panel_multi_open"])[0] != spec_keys(seq!["ui", "show_quick_cmd_bar"])[0]);
    lemma_set_path_frame(d19, spec_keys(seq!["appearance", "panel_multi_open"]), JsonModel::Bool(s.ui_panel_multi_open), spec_keys(seq!["ui", "show_quick_cmd_bar"]));
    assert("left_open_panels"@.len() != "show_quick_cmd_bar"@.len());
    assert(spec_keys(seq!["ui", "left_open_panels"])[1] != spec_keys(seq!["ui", "show_quick_cmd_bar"])[1]);
    lemma_set_path_frame(d20, spec_keys(seq!["ui", "left_open_panels"]), spec_text_array(spec_clean_list(strings_view(s.ui_left_open_panels@), 32)), spec_keys(seq!["ui", "show_quick_cmd_bar"]));
    assert("right_open_panels"@.len() != "show_quick_cmd_bar"@.len());
    assert(spec_keys(seq!["ui", "right_open_panels"])[1] != spec_keys(seq!["ui", "show_quick_cmd_bar"])[1]);
    lemma_set_path_frame(d21, spec_keys(seq!["ui", "right_open_panels"]), spec_text_array(spec_clean_list(strings_view(s.ui_right_open_panels@), 32)), spec_keys(seq!["ui", "show_quick_cmd_bar"]));
    assert("panel_stack_sizes"@.len() != "show_quick_cmd_bar"@.len());
    assert(spec_keys(seq!["ui", "panel_stack_sizes"])[1] != spec_keys(seq!["ui", "show_quick_cmd_bar"])[1]);
    lemma_set_path_frame(d22, spec_keys(seq!["ui", "panel_stack_sizes"]), JsonModel::Object(spec_count_map_members(counts_view(s.ui_panel_stack_sizes@))), spec_keys(seq!["ui", "show_quick_cmd_bar"]));
    assert("saved_connections_sort_mode"@.len() != "show_quick_cmd_bar"@.len());
    assert(spec_keys(seq!["ui", "saved_connections_sort_mode"])[1] != spec_keys(seq!["ui", "show_quick_cmd_bar"])[1]);
    lemma_set_path_frame(d23, spec_keys(seq!["ui", "saved_connections_sort_mode"]), JsonModel::Str(spec_saved_connections_sort_mode(s.ui_saved_connections_sort_mode@), None), spec_keys(seq!["ui", "show_quick_cmd_bar"]));
    assert("saved_connections_expanded_group_ids"@.len() != "show_quick_cmd_bar"@.len());
    assert(spec_keys(seq!["ui", "saved_connections_expanded_group_ids"])[1] != spec_keys(seq!["ui", "show_quick_cmd_bar"])[1]);
    lemma_set_path_frame(d24, spec_keys(seq!["ui", "saved_connections_expanded_group_ids"]), spec_text_array(spec_clean_list(strings_view(s.ui_saved_connections_expanded_group_ids@), 512)), spec_keys(seq!["ui", "show_quick_cmd_bar"]));
    assert("start_workspace_mode"@.len() != "show_quick_cmd_bar"@.len());
    assert(spec_keys(seq!["ui", "start_workspace_mode"])[1] != spec_keys(seq!["ui", "show_quick_cmd_bar"])[1]);
    lemma_set_path_frame(d25, spec_keys(seq!["ui", "start_workspace_mode"]), JsonModel::Str(spec_start_workspace_mode(s.ui_start_workspace_mode@), None), spec_keys(seq!["ui", "show_quick_cmd_bar"]));
    assert("asset_sort_key"@.len() != "show_quick_cmd_bar"@.len());
    assert(spec_keys(seq!["ui", "asset_sort_key"])[1] != spec_keys(seq!["ui", "show_quick_cmd_bar"])[1]);
    lemma_set_path_frame(d26, spec_keys(seq!["ui", "asset_sort_key"]), spec_optional_trimmed_value(s.ui_asset_sort_key), spec_keys(seq!["ui", "show_quick_cmd_bar"]));
    assert("asset_sort_direction"@.len() != "show_quick_cmd_bar"@.len());
    assert(spec_keys(seq!["ui", "asset_sort_direction"])[1] != spec_keys(seq!["ui", "show_quick_cmd_bar"])[1]);
    lemma_set_path_frame(d27, spec_keys(seq!["ui", "asset_sort_direction"]), spec_optional_text_or_null(spec_asset_sort_direction(opt_view(s.ui_asset_sort_direction))), spec_keys(seq!["ui", "show_quick_cmd_bar"]));
    assert("header_status_mode"@[0] != "show_quick_cmd_bar"@[0]);
    assert(spec_keys(seq!["ui", "header_status_mode"])[1] != spec_keys(seq!["ui", "show_quick_cmd_bar"])[1]);
    lemma_set_path_frame(d28, spec_keys(seq!["ui", "header_status_mode"]), JsonModel::Str(spec_header_status_setting(s.ui_header_status_mode@), None), spec_keys(seq!["ui", "show_quick_cmd_bar"]));
    assert("header_status_visible"@.len() != "show_quick_cmd_bar"@.len());
    assert(spec_keys(seq!["ui", "header_status_visible"])[1] != spec_keys(seq!["ui", "show_quick_cmd_bar"])[1]);
    lemma_set_path_frame(d29, spec_keys(seq!["ui", "header_status_visible"]), JsonModel::Bool(s.ui_header_status_visible), spec_keys(seq!["ui", "show_quick_cmd_bar"]));
}

#[verifier::spinoff_prover]
proof fn lemma_saved_ui_layout_keeps_ui_serial_send_height(d: JsonModel, s: AppSettingsSummary)
    ensures
        spec_json_path(spec_saved_ui_layout(d, s), spec_keys(seq!["ui", "serial_send_height"])) == Some(JsonModel::Number(JsonNumber::PosInt(spec_clamp(s.ui_serial_send_height as int, 60, 520) as u64))),
{
    reveal_strlit("active_left_panel");
    reveal_strlit("active_right_panel");
    reveal_strlit("activity_bar_layout");
    reveal_strlit("appearance");
    reveal_strlit("asset_sort_direction");
    reveal_strlit("asset_sort_key");
    reveal_strlit("header_status_mode");
    reveal_strlit("header_status_visible");
    reveal_strlit("left_open_panels");
    reveal_strlit("left_panel_collapsed");
    reveal_strlit("panel_multi_open");
    reveal_strlit("panel_open_mode");
    reveal_strlit("panel_stack_sizes");
    reveal_strlit("right_open_panels");
    reveal_strlit("right_panel_collapsed");
    reveal_strlit("saved_connections_expanded_group_ids");
    reveal_strlit("saved_connections_sort_mode");
    reveal_strlit("serial_send_height");
    reveal_strlit("show_serial_send_panel");
    reveal_strlit("start_workspace_mode");
    reveal_strlit("ui");
    let d1 = spec_set_path(d, spec_keys(seq!["ui", "left_width"]), JsonModel::Number(JsonNumber::PosInt(spec_clamp(s.ui_left_panel_width as int, 160, 720) as u64)));
    let d2 = spec_set_path(d1, spec_keys(seq!["ui", "right_width"]), JsonModel::Number(JsonNumber::PosInt(spec_clamp(s.ui_right_panel_width as int, 200, 720) as u64)));
    let d3 = spec_set_path(d2, spec_keys(seq!["ui", "transfer_height"]), JsonModel::Number(JsonNumber::PosInt(spec_clamp(s.ui_transfer_height as int, 60, 600) as u64)));
    let d4 = spec_set_path(d3, spec_keys(seq!["ui", "quick_cmd_height"]), JsonModel::Number(JsonNumber::PosInt(spec_clamp(s.ui_quick_cmd_height as int, 36, 520) as u64)));
    let d5 = spec_set_path(d4, spec_keys(seq!["ui", "show_quick_cmd_bar"]), JsonModel::Bool(s.ui_quick_cmd_visible));
    let d6 = spec_set_path(d5, spec_keys(seq!["ui", "serial_send_height"]), JsonModel::Number(JsonNumber::PosInt(spec_clamp(s.ui_serial_send_height as int, 60, 520) as u64)));
    let d7 = spec_set_path(d6, spec_keys(seq!["ui", "show_serial_send_panel"]), JsonModel::Bool(s.ui_serial_send_visible));
    let d8 = spec_set_path(d7, spec_keys(seq!["ui", "active_left_panel"]), spec_optional_panel_value(s.ui_active_left_panel));
    let d9 = spec_set_path(d8, spec_keys(seq!["ui", "active_right_panel"]), spec_optional_panel_value(s.ui_active_right_panel));
    let d10 = spec_set_path(d9, spec_keys(seq!["ui", "left_panel_collapsed"]), JsonModel::Bool(s.ui_left_panel_collapsed));
    let d11 = spec_set_path(d10, spec_keys(seq!["ui", "right_panel_collapsed"]), JsonModel::Bool(s.ui_right_panel_collapsed));
    let d12 = spec_set_path(d11, spec_keys(seq!["ui", "activity_bar_layout", "left_top"]), spec_text_array(spec_clean_list(strings_view(s.ui_activity_bar_left_top@), 32)));
    let d13 = spec_set_path(d12, spec_keys(seq!["ui", "activity_bar_layout", "left_bottom"]), spec_text_array(spec_clean_list(strings_view(s.ui_activity_bar_left_bottom@), 32)));
    let d14 = spec_set_path(d13, spec_keys(seq!["ui", "activity_bar_layout", "right_top"]), spec_text_array(spec_clean_list(strings_view(s.ui_activity_bar_right_top@), 32)));
    let d15 = spec_set_path(d14, spec_keys(seq!["ui", "activity_bar_layout", "right_bottom"]), spec_text_array(spec_clean_list(strings_view(s.ui_activity_bar_right_bottom@), 32)));
    let d16 = spec_set_path(d15, spec_keys(seq!["ui", "activity_bar_layout", "show_labels"]), JsonModel::Bool(s.ui_activity_bar_show_labels));
    let d17 = spec_set_path(d16, spec_keys(seq!["ui", "activity_bar_layout", "hidden_items"]), spec_text_array(spec_clean_list(strings_view(s.ui_activity_bar_hidden_items@), 64)));
    let d18 = spec_set_path(d17, spec_keys(seq!["ui", "panel_open_mode"]), JsonModel::Str(spec_panel_open_mode(s.ui_panel_open_mode@), None));
    let d19 = spec_set_path(d18, spec_keys(seq!["ui", "panel_multi_open"]), JsonModel::Bool(s.ui_panel_multi_open));
    let d20 = spec_set_path(d19, spec_keys(seq!["appearance", "panel_multi_open"]), JsonModel::Bool(s.ui_panel_multi_open));
    let d21 = spec_set_path(d20, spec_keys(seq!["ui", "left_open_panels"]), spec_text_array(spec_clean_list(strings_view(s.ui_left_open_panels@), 32)));
    let d22 = spec_set_path(d21, spec_keys(seq!["ui", "right_open_panels"]), spec_text_array(spec_clean_list(strings_view(s.ui_right_open_panels@), 32)));
    let d23 = spec_set_path(d22, spec_keys(seq!["ui", "panel_stack_sizes"]), JsonModel::Object(spec_count_map_members(counts_view(s.ui_panel_stack_sizes@))));
    let d24 = spec_set_path(d23, spec_keys(seq!["ui", "saved_connections_sort_mode"]), JsonModel::Str(spec_saved_connections_sort_mode(s.ui_saved_connections_sort_mode@), None));
    let d25 = spec_set_path(d24, spec_keys(seq!["ui", "saved_connections_expanded_group_ids"]), spec_text_array(spec_clean_list(strings_view(s.ui_saved_connections_expanded_group_ids@), 512)));
    let d26 = spec_set_path(d25, spec_keys(seq!["ui", "start_workspace_mode"]), JsonModel::Str(spec_start_workspace_mode(s.ui_start_workspace_mode@), None));
    let d27 = spec_set_path(d26, spec_keys(seq!["ui", "asset_sort_key"]), spec_optional_trimmed_value(s.ui_asset_sort_key));
    let d28 = spec_set_path(d27, spec_keys(seq!["ui", "asset_sort_direction"]), spec_optional_text_or_null(spec_asset_sort_direction(opt_view(s.ui_asset_sort_direction))));
    let d29 = spec_set_path(d28, spec_keys(seq!["ui", "header_status_mode"]), JsonModel::Str(spec_header_status_setting(s.ui_header_status_mode@), None));
    let d30 = spec_set_path(d29, spec_keys(seq!["ui", "header_status_visible"]), JsonModel::Bool(s.ui_header_status_visible));
    assert(spec_saved_ui_layout_part1(d, s) == d8);
    assert(spec_saved_ui_layout_part2(d8, s) == d16);
    assert(spec_saved_ui_layout_part3(d16, s) == d24);
    assert(spec_saved_ui_layout_part4(d24, s) == d30);
    assert(spec_saved_ui_layout(d, s) == d30);
    lemma_set_path_then_read(d5, spec_keys(seq!["ui", "serial_send_height"]), JsonModel::Number(JsonNumber::PosInt(spec_clamp(s.ui_serial_send_height as int, 60, 520) as u64)));
    assert("show_serial_send_panel"@.len() != "serial_send_height"@.len());
    assert(spec_keys(seq!["ui", "show_serial_send_panel"])[1] != spec_keys(seq!["ui", "serial_send_height"])[1]);
    lemma_set_path_frame(d6, spec_keys(seq!["ui", "show_serial_send_panel"]), JsonModel::Bool(s.ui_serial_send_visible), spec_keys(seq!["ui", "serial_send_height"]));
    assert("active_left_panel"@.len() != "serial_send_height"@.len());
    assert(spec_keys(seq!["ui", "active_left_panel"])[1] != spec_keys(seq!["ui", "serial_send_height"])[1]);
    lemma_set_path_frame(d7, spec_keys(seq!["ui", "active_left_panel"]), spec_optional_panel_value(s.ui_active_left_panel), spec_keys(seq!["ui", "serial_send_height"]));
    assert("active_right_panel"@[0] != "serial_send_height"@[0]);
    assert(spec_keys(seq!["ui", "active_right_panel"])[1] != spec_keys(seq!["ui", "serial_send_height"])[1]);
    lemma_set_path_frame(d8, spec_keys(seq!["ui", "active_right_panel"]), spec_optional_panel_value(s.ui_active_right_panel), spec_keys(seq!["ui", "serial_send_height"]));
    assert("left_panel_collapsed"@.len() != "serial_send_height"@.len());
    assert(spec_keys(seq!["ui", "left_panel_collapsed"])[1] != spec_keys(seq!["ui", "serial_send_height"])[1]);
    lemma_set_path_frame(d9, spec_keys(seq!["ui", "left_panel_collapsed"]), JsonModel::Bool(s.ui_left_panel_collapsed), spec_keys(seq!["ui", "serial_send_height"]));
    assert("right_panel_collapsed"@.len() != "serial_send_height"@.len());
    assert(spec_keys(seq!["ui", "right_panel_collapsed"])[1] != spec_keys(seq!["ui", "serial_send_height"])[1]);
    lemma_set_path_frame(d10, spec_keys(seq!["ui", "right_panel_collapsed"]), JsonModel::Bool(s.ui_right_panel_collapsed), spec_keys(seq!["ui", "serial_send_height"]));
    assert("activity_bar_layout"@.len() != "serial_send_height"@.len());
    assert(spec_keys(seq!["ui", "activity_bar_layout", "left_top"])[1] != spec_keys(seq!["ui", "serial_send_height"])[1]);
    lemma_set_path_frame(d11, spec_keys(seq!["ui", "activity_bar_layout", "left_top"]), spec_text_array(spec_clean_list(strings_view(s.ui_activity_bar_left_top@), 32)), spec_keys(seq!["ui", "serial_send_height"]));
    assert("activity_bar_layout"@.len() != "serial_send_height"@.len());
    assert(spec_keys(seq!["ui", "activity_bar_layout", "left_bottom"])[1] != spec_keys(seq!["ui", "serial_send_height"])[1]);
    lemma_set_path_frame(d12, spec_keys(seq!["ui", "activity_bar_layout", "left_bottom"]), spec_text_array(spec_clean_list(strings_view(s.ui_activity_bar_left_bottom@), 32)), spec_keys(seq!["ui", "serial_send_height"]));
    assert("activity_bar_layout"@.len() != "serial_send_height"@.len());
    assert(spec_keys(seq!["ui", "activity_bar_layout", "right_top"])[1] != spec_keys(seq!["ui", "serial_send_height"])[1]);
    lemma_set_path_frame(d13, spec_keys(seq!["ui", "activity_bar_layout", "right_top"]), spec_text_array(spec_clean_list(strings_view(s.ui_activity_bar_right_top@), 32)), spec_keys(seq!["ui", "serial_send_height"]));
    assert("activity_bar_layout"@.len() != "serial_send_height"@.len());
    assert(spec_keys(seq!["ui", "activity_bar_layout", "right_bottom"])[1] != spec_keys(seq!["ui", "serial_send_height"])[1]);
    lemma_set_path_frame(d14, spec_keys(seq!["ui", "activity_bar_layout", "right_bottom"]), spec_text_array(spec_clean_list(strings_view(s.ui_activity_bar_right_bottom@), 32)), spec_keys(seq!["ui", "serial_send_height"]));
    assert("activity_bar_layout"@.len() != "serial_send_height"@.len());
    assert(spec_keys(seq!["ui", "activity_bar_layout", "show_labels"])[1] != spec_keys(seq!["ui", "serial_send_height"])[1]);
    lemma_set_path_frame(d15, spec_keys(seq!["ui", "activity_bar_layout", "show_labels"]), JsonModel::Bool(s.ui_activity_bar_show_labels), spec_keys(seq!["ui", "serial_send_height"]));
    assert("activity_bar_layout"@.len() != "serial_send_height"@.len());
    assert(spec_keys(seq!["ui", "activity_bar_layout", "hidden_items"])[1] != spec_keys(seq!["ui", "serial_send_height"])[1]);
    lemma_set_path_frame(d16, spec_keys(seq!["ui", "activity_bar_layout", "hidden_items"]), spec_text_array(spec_clean_list(strings_view(s.ui_activity_bar_hidden_items@), 64)), spec_keys(seq!["ui", "serial_send_height"]));
    assert("panel_open_mode"@.len() != "serial_send_height"@.len());
    assert(spec_keys(seq!["ui", "panel_open_mode"])[1] != spec_keys(seq!["ui", "serial_send_height"])[1]);
    lemma_set_path_frame(d17, spec_keys(seq!["ui", "panel_open_mode"]), JsonModel::Str(spec_panel_open_mode(s.ui_panel_open_mode@), None), spec_keys(seq!["ui", "serial_send_height"]));
    assert("panel_multi_open"@.len() != "serial_send_height"@.len());
    assert(spec_keys(seq!["ui", "panel_multi_open"])[1] != spec_keys(seq!["ui", "serial_send_height"])[1]);
    lemma_set_path_frame(d18, spec_keys(seq!["ui", "panel_multi_open"]), JsonModel::Bool(s.ui_panel_multi_open), spec_keys(seq!["ui", "serial_send_height"]));
    assert("appearance"@.len() != "ui"@.len());
    assert(spec_keys(seq!["appearance", "panel_multi_open"])[0] != spec_keys(seq!["ui", "serial_send_height"])[0]);
    lemma_set_path_frame(d19, spec_keys(seq!["appearance", "panel_multi_open"]), JsonModel::Bool(s.ui_panel_multi_open), spec_keys(seq!["ui", "serial_send_height"]));
    assert("left_open_panels"@.len() != "serial_send_height"@.len());
    assert(spec_keys(seq!["ui", "left_open_panels"])[1] != spec_keys(seq!["ui", "serial_send_height"])[1]);
    lemma_set_path_frame(d20, spec_keys(seq!["ui", "left_open_panels"]), spec_text_array(spec_clean_list(strings_view(s.ui_left_open_panels@), 32)), spec_keys(seq!["ui", "serial_send_height"]));
    assert("right_open_panels"@.len() != "serial_send_height"@.len());
    assert(spec_keys(seq!["ui", "right_open_panels"])[1] != spec_keys(seq!["ui", "serial_send_height"])[1]);
    lemma_set_path_frame(d21, spec_keys(seq!["ui", "right_open_panels"]), spec_text_array(spec_clean_list(strings_view(s.ui_right_open_panels@), 32)), spec_keys(seq!["ui", "serial_send_height"]));
    assert("panel_stack_sizes"@.len() != "serial_send_height"@.len());
    assert(spec_keys(seq!["ui", "panel_stack_sizes"])[1] != spec_keys(seq!["ui", "serial_send_height"])[1]);
    lemma_set_path_frame(d22, spec_keys(seq!["ui", "panel_stack_sizes"]), JsonModel::Object(spec_count_map_members(counts_view(s.ui_panel_stack_sizes@))), spec_keys(seq!["ui", "serial_send_height"]));
    assert("saved_connections_sort_mode"@.len() != "serial_send_height"@.len());
    assert(spec_keys(seq!["ui", "saved_connections_sort_mode"])[1] != spec_keys(seq!["ui", "serial_send_height"])[1]);
    lemma_set_path_frame(d23, spec_keys(seq!["ui", "saved_connections_sort_mode"]), JsonModel::Str(spec_saved_connections_sort_mode(s.ui_saved_connections_sort_mode@), None), spec_keys(seq!["ui", "serial_send_height"]));
    assert("saved_connections_expanded_group_ids"@.len() != "serial_send_height"@.len());
    assert(spec_keys(seq!["ui", "saved_connections_expanded_group_ids"])[1] != spec_keys(seq!["ui", "serial_send_height"])[1]);
    lemma_set_path_frame(d24, spec_keys(seq!["ui", "saved_connections_expanded_group_ids"]), spec_text_array(spec_clean_list(strings_view(s.ui_saved_connections_expanded_group_ids@), 512)), spec_keys(seq!["ui", "serial_send_height"]));
    assert("start_workspace_mode"@.len() != "serial_send_height"@.len());
    assert(spec_keys(seq!["ui", "start_workspace_mode"])[1] != spec_keys(seq!["ui", "serial_send_height"])[1]);
    lemma_set_path_frame(d25, spec_keys(seq!["ui", "start_workspace_mode"]), JsonModel::Str(spec_start_workspace_mode(s.ui_start_workspace_mode@), None), spec_keys(seq!["ui", "serial_send_height"]));
    assert("asset_sort_key"@.len() != "serial_send_height"@.len());
    assert(spec_keys(seq!["ui", "asset_sort_key"])[1] != spec_keys(seq!["ui", "serial_send_height"])[1]);
    lemma_set_path_frame(d26, spec_keys(seq!["ui", "asset_sort_key"]), spec_optional_trimmed_value(s.ui_asset_sort_key), spec_keys(seq!["ui", "serial_send_height"]));
    assert("asset_sort_direction"@.len() != "serial_send_height"@.len());
    assert(spec_keys(seq!["ui", "asset_sort_direction"])[1] != spec_keys(seq!["ui", "serial_send_height"])[1]);
    lemma_set_path_frame(d27, spec_keys(seq!["ui", "asset_sort_direction"]), spec_optional_text_or_null(spec_asset_sort_direction(opt_view(s.ui_asset_sort_direction))), spec_keys(seq!["ui", "serial_send_height"]));
    assert("header_status_mode"@[0] != "serial_send_height"@[0]);
    assert(spec_keys(seq!["ui", "header_status_mode"])[1] != spec_keys(seq!["ui", "serial_send_height"])[1]);
    lemma_set_path_frame(d28, spec_keys(seq!["ui", "header_status_mode"]), JsonModel::Str(spec_header_status_setting(s.ui_header_status_mode@), None), spec_keys(seq!["ui", "serial_send_height"]));
    assert("header_status_visible"@.len() != "serial_send_height"@.len());
    assert(spec_keys(seq!["ui", "header_status_visible"])[1] != spec_keys(seq!["ui", "serial_send_height"])[1]);
    lemma_set_path_frame(d29, spec_keys(seq!["ui", "header_status_visible"]), JsonModel::Bool(s.ui_header_status_visible), spec_keys(seq!["ui", "serial_send_height"]));
}

#[verifier::spinoff_prover]
proof fn lemma_saved_ui_layout_keeps_ui_show_serial_send_panel(d: JsonModel, s: AppSettingsSummary)
    ensures
        spec_json_path(spec_saved_ui_layout(d, s), spec_keys(seq!["ui", "show_serial_send_panel"])) == Some(JsonModel::Bool(s.ui_serial_send_visible)),
{
    reveal_strlit("active_left_panel");
    reveal_strlit("active_right_panel");
    reveal_strlit("activity_bar_layout");
    reveal_strlit("appearance");
    reveal_strlit("asset_sort_direction");
    reveal_strlit("asset_sort_key");
    reveal_strlit("header_status_mode");
    reveal_strlit("header_status_visible");
    reveal_strlit("left_open_panels");
    reveal_strlit("left_panel_collapsed");
    reveal_strlit("panel_multi_open");
    reveal_strlit("panel_open_mode");
    reveal_strlit("panel_stack_sizes");
    reveal_strlit("right_open_panels");
    reveal_strlit("right_panel_collapsed");
    reveal_strlit("saved_connections_expanded_group_ids");
    reveal_strlit("saved_connections_sort_mode");
    reveal_strlit("show_serial_send_panel");
    reveal_strlit("start_workspace_mode");
    reveal_strlit("ui");
    let d1 = spec_set_path(d, spec_keys(seq!["ui", "left_width"]), JsonModel::Number(JsonNumber::PosInt(spec_clamp(s.ui_left_panel_width as int, 160, 720) as u64)));
    let d2 = spec_set_path(d1, spec_keys(seq!["ui", "right_width"]), JsonModel::Number(JsonNumber::PosInt(spec_clamp(s.ui_right_panel_width as int, 200, 720) as u64)));
    let d3 = spec_set_path(d2, spec_keys(seq!["ui", "transfer_height"]), JsonModel::Number(JsonNumber::PosInt(spec_clamp(s.ui_transfer_height as int, 60, 600) as u64)));
    let d4 = spec_set_path(d3, spec_keys(seq!["ui", "quick_cmd_height"]), JsonModel::Number(JsonNumber::PosInt(spec_clamp(s.ui_quick_cmd_height as int, 36, 520) as u64)));
    let d5 = spec_set_path(d4, spec_keys(seq!["ui", "show_quick_cmd_bar"]), JsonModel::Bool(s.ui_quick_cmd_visible));
    let d6 = spec_set_path(d5, spec_keys(seq!["ui", "serial_send_height"]), JsonModel::Number(JsonNumber::PosInt(spec_clamp(s.ui_serial_send_height as int, 60, 520) as u64)));
    let d7 = spec_set_path(d6, spec_keys(seq!["ui", "show_serial_send_panel"]), JsonModel::Bool(s.ui_serial_send_visible));
    let d8 = spec_set_path(d7, spec_keys(seq!["ui", "active_left_panel"]), spec_optional_panel_value(s.ui_active_left_panel));
    let d9 = spec_set_path(d8, spec_keys(seq!["ui", "active_right_panel"]), spec_optional_panel_value(s.ui_active_right_panel));
    let d10 = spec_set_path(d9, spec_keys(seq!["ui", "left_panel_collapsed"]), JsonModel::Bool(s.ui_left_panel_collapsed));
    let d11 = spec_set_path(d10, spec_keys(seq!["ui", "right_panel_collapsed"]), JsonModel::Bool(s.ui_right_panel_collapsed));
    let d12 = spec_set_path(d11, spec_keys(seq!["ui", "activity_bar_layout", "left_top"]), spec_text_array(spec_clean_list(strings_view(s.ui_activity_bar_left_top@), 32)));
    let d13 = spec_set_path(d12, spec_keys(seq!["ui", "activity_bar_layout", "left_bottom"]), spec_text_array(spec_clean_list(strings_view(s.ui_activity_bar_left_bottom@), 32)));
    let d14 = spec_set_path(d13, spec_keys(seq!["ui", "activity_bar_layout", "right_top"]), spec_text_array(spec_clean_list(strings_view(s.ui_activity_bar_right_top@), 32)));
    let d15 = spec_set_path(d14, spec_keys(seq!["ui", "activity_bar_layout", "right_bottom"]), spec_text_array(spec_clean_list(strings_view(s.ui_activity_bar_right_bottom@), 32)));
    let d16 = spec_set_path(d15, spec_keys(seq!["ui", "activity_bar_layout", "show_labels"]), JsonModel::Bool(s.ui_activity_bar_show_labels));
    let d17 = spec_set_path(d16, spec_keys(seq!["ui", "activity_bar_layout", "hidden_items"]), spec_text_array(spec_clean_list(strings_view(s.ui_activity_bar_hidden_items@), 64)));
    let d18 = spec_set_path(d17, spec_keys(seq!["ui", "panel_open_mode"]), JsonModel::Str(spec_panel_open_mode(s.ui_panel_open_mode@), None));
    let d19 = spec_set_path(d18, spec_keys(seq!["ui", "panel_multi_open"]), JsonModel::Bool(s.ui_panel_multi_open));
    let d20 = spec_set_path(d19, spec_keys(seq!["appearance", "panel_multi_open"]), JsonModel::Bool(s.ui_panel_multi_open));
    let d21 = spec_set_path(d20, spec_keys(seq!["ui", "left_open_panels"]), spec_text_array(spec_clean_list(strings_view(s.ui_left_open_panels@), 32)));
    let d22 = spec_set_path(d21, spec_keys(seq!["ui", "right_open_panels"]), spec_text_array(spec_clean_list(strings_view(s.ui_right_open_panels@), 32)));
    let d23 = spec_set_path(d22, spec_keys(seq!["ui", "panel_stack_sizes"]), JsonModel::Object(spec_count_map_members(counts_view(s.ui_panel_stack_sizes@))));
    let d24 = spec_set_path(d23, spec_keys(seq!["ui", "saved_connections_sort_mode"]), JsonModel::Str(spec_saved_connections_sort_mode(s.ui_saved_connections_sort_mode@), None));
    let d25 = spec_set_path(d24, spec_keys(seq!["ui", "saved_connections_expanded_group_ids"]), spec_text_array(spec_clean_list(strings_view(s.ui_saved_connections_expanded_group_ids@), 512)));
    let d26 = spec_set_path(d25, spec_keys(seq!["ui", "start_workspace_mode"]), JsonModel::Str(spec_start_workspace_mode(s.ui_start_workspace_mode@), None));
    let d27 = spec_set_path(d26, spec_keys(seq!["ui", "asset_sort_key"]), spec_optional_trimmed_value(s.ui_asset_sort_key));
    let d28 = spec_set_path(d27, spec_keys(seq!["ui", "asset_sort_direction"]), spec_optional_text_or_null(spec_asset_sort_direction(opt_view(s.ui_asset_sort_direction))));
    let d29 = spec_set_path(d28, spec_keys(seq!["ui", "header_status_mode"]), JsonModel::Str(spec_header_status_setting(s.ui_header_status_mode@), None));
    let d30 = spec_set_path(d29, spec_keys(seq!["ui", "header_status_visible"]), JsonModel::Bool(s.ui_header_status_visible));
    assert(spec_saved_ui_layout_part1(d, s) == d8);
    assert(spec_saved_ui_layout_part2(d8, s) == d16);
    assert(spec_saved_ui_layout_part3(d16, s) == d24);
    assert(spec_saved_ui_layout_part4(d24, s) == d30);
    assert(spec_saved_ui_layout(d, s) == d30);
    lemma_set_path_then_read(d6, spec_keys(seq!["ui", "show_serial_send_panel"]), JsonModel::Bool(s.ui_serial_send_visible));
    assert("active_left_panel"@.len() != "show_serial_send_panel"@.len());
    assert(spec_keys(seq!["ui", "active_left_panel"])[1] != spec_keys(seq!["ui", "show_serial_send_panel"])[1]);
    lemma_set_path_frame(d7, spec_keys(seq!["ui", "active_left_panel"]), spec_optional_panel_value(s.ui_active_left_panel), spec_keys(seq!["ui", "show_serial_send_panel"]));
    assert("active_right_panel"@.len() != "show_serial_send_panel"@.len());
    assert(spec_keys(seq!["ui", "active_right_panel"])[1] != spec_keys(seq!["ui", "show_serial_send_panel"])[1]);
    lemma_set_path_frame(d8, spec_keys(seq!["ui", "active_right_panel"]), spec_optional_panel_value(s.ui_active_right_panel), spec_keys(seq!["ui", "show_serial_send_panel"]));
    assert("left_panel_collapsed"@.len() != "show_serial_send_panel"@.len());
    assert(spec_keys(seq!["ui", "left_panel_collapsed"])[1] != spec_keys(seq!["ui", "show_serial_send_panel"])[1]);
    lemma_set_path_frame(d9, spec_keys(seq!["ui", "left_panel_collapsed"]), JsonModel::Bool(s.ui_left_panel_collapsed), spec_keys(seq!["ui", "show_serial_send_panel"]));
    assert("right_panel_collapsed"@.len() != "show_serial_send_panel"@.len());
    assert(spec_keys(seq!["ui", "right_panel_collapsed"])[1] != spec_keys(seq!["ui", "show_serial_send_panel"])[1]);
    lemma_set_path_frame(d10, spec_keys(seq!["ui", "right_panel_collapsed"]), JsonModel::Bool(s.ui_right_panel_collapsed), spec_keys(seq!["ui", "show_serial_send_panel"]));
    assert("activity_bar_layout"@.len() != "show_serial_send_panel"@.len());
    assert(spec_keys(seq!["ui", "activity_bar_layout", "left_top"])[1] != spec_keys(seq!["ui", "show_serial_send_panel"])[1]);
    lemma_set_path_frame(d11, spec_keys(seq!["ui", "activity_bar_layout", "left_top"]), spec_text_array(spec_clean_list(strings_view(s.ui_activity_bar_left_top@), 32)), spec_keys(seq!["ui", "show_serial_send_panel"]));
    assert("activity_bar_layout"@.len() != "show_serial_send_panel"@.len());
    assert(spec_keys(seq!["ui", "activity_bar_layout", "left_bottom"])[1] != spec_keys(seq!["ui", "show_serial_send_panel"])[1]);
    lemma_set_path_frame(d12, spec_keys(seq!["ui", "activity_bar_layout", "left_bottom"]), spec_text_array(spec_clean_list(strings_view(s.ui_activity_bar_left_bottom@), 32)), spec_keys(seq!["ui", "show_serial_send_panel"]));
    assert("activity_bar_layout"@.len() != "show_serial_send_panel"@.len());
    assert(spec_keys(seq!["ui", "activity_bar_layout", "right_top"])[1] != spec_keys(seq!["ui", "show_serial_send_panel"])[1]);
    lemma_set_path_frame(d13, spec_keys(seq!["ui", "activity_bar_layout", "right_top"]), spec_text_array(spec_clean_list(strings_view(s.ui_activity_bar_right_top@), 32)), spec_keys(seq!["ui", "show_serial_send_panel"]));
    assert("activity_bar_layout"@.len() != "show_serial_send_panel"@.len());
    assert(spec_keys(seq!["ui", "activity_bar_layout", "right_bottom"])[1] != spec_keys(seq!["ui", "show_serial_send_panel"])[1]);
    lemma_set_path_frame(d14, spec_keys(seq!["ui", "activity_bar_layout", "right_bottom"]), spec_text_array(spec_clean_list(strings_view(s.ui_activity_bar_right_bottom@), 32)), spec_keys(seq!["ui", "show_serial_send_panel"]));
    assert("activity_bar_layout"@.len() != "show_serial_send_panel"@.len());
    assert(spec_keys(seq!["ui", "activity_bar_layout", "show_labels"])[1] != spec_keys(seq!["ui", "show_serial_send_panel"])[1]);
    lemma_set_path_frame(d15, spec_keys(seq!["ui", "activity_bar_layout", "show_labels"]), JsonModel::Bool(s.ui_activity_bar_show_labels), spec_keys(seq!["ui", "show_serial_send_panel"]));
    assert("activity_bar_layout"@.len() != "show_serial_send_panel"@.len());
    assert(spec_keys(seq!["ui", "activity_bar_layout", "hidden_items"])[1] != spec_keys(seq!["ui", "show_serial_send_panel"])[1]);
    lemma_set_path_frame(d16, spec_keys(seq!["ui", "activity_bar_layout", "hidden_items"]), spec_text_array(spec_clean_list(strings_view(s.ui_activity_bar_hidden_items@), 64)), spec_keys(seq!["ui", "show_serial_send_panel"]));
    assert("panel_open_mode"@.len() != "show_serial_send_panel"@.len());
    assert(spec_keys(seq!["ui", "panel_open_mode"])[1] != spec_keys(seq!["ui", "show_serial_send_panel"])[1]);
    lemma_set_path_frame(d17, spec_keys(seq!["ui", "panel_open_mode"]), JsonModel::Str(spec_panel_open_mode(s.ui_panel_open_mode@), None), spec_keys(seq!["ui", "show_serial_send_panel"]));
    assert("panel_multi_open"@.len() != "show_serial_send_panel"@.len());
    assert(spec_keys(seq!["ui", "panel_multi_open"])[1] != spec_keys(seq!["ui", "show_serial_send_panel"])[1]);
    lemma_set_path_frame(d18, spec_keys(seq!["ui", "panel_multi_open"]), JsonModel::Bool(s.ui_panel_multi_open), spec_keys(seq!["ui", "show_serial_send_panel"]));
    assert("appearance"@.len() != "ui"@.len());
    assert(spec_keys(seq!["appearance", "panel_multi_open"])[0] != spec_keys(seq!["ui", "show_serial_send_panel"])[0]);
    lemma_set_path_frame(d19, spec_keys(seq!["appearance", "panel_multi_open"]), JsonModel::Bool(s.ui_panel_multi_open), spec_keys(seq!["ui", "show_serial_send_panel"]));
    assert("left_open_panels"@.len() != "show_serial_send_panel"@.len());
    assert(spec_keys(seq!["ui", "left_open_panels"])[1] != spec_keys(seq!["ui", "show_serial_send_panel"])[1]);
    lemma_set_path_frame(d20, spec_keys(seq!["ui", "left_open_panels"]), spec_text_array(spec_clean_list(strings_view(s.ui_left_open_panels@), 32)), spec_keys(seq!["ui", "show_serial_send_panel"]));
    assert("right_open_panels"@.len() != "show_serial_send_panel"@.len());
    assert(spec_keys(seq!["ui", "right_open_panels"])[1] != spec_keys(seq!["ui", "show_serial_send_panel"])[1]);
    lemma_set_path_frame(d21, spec_keys(seq!["ui", "right_open_panels"]), spec_text_array(spec_clean_list(strings_view(s.ui_right_open_panels@), 32)), spec_keys(seq!["ui", "show_serial_send_panel"]));
    assert("panel_stack_sizes"@.len() != "show_serial_send_panel"@.len());
    assert(spec_keys(seq!["ui", "panel_stack_sizes"])[1] != spec_keys(seq!["ui", "show_serial_send_panel"])[1]);
    lemma_set_path_frame(d22, spec_keys(seq!["ui", "panel_stack_sizes"]), JsonModel::Object(spec_count_map_members(counts_view(s.ui_panel_stack_sizes@))), spec_keys(seq!["ui", "show_serial_send_panel"]));
    assert("saved_connections_sort_mode"@.len() != "show_serial_send_panel"@.len());
    assert(spec_keys(seq!["ui", "saved_connections_sort_mode"])[1] != spec_keys(seq!["ui", "show_serial_send_panel"])[1]);
    lemma_set_path_frame(d23, spec_keys(seq!["ui", "saved_connections_sort_mode"]), JsonModel::Str(spec_saved_connections_sort_mode(s.ui_saved_connections_sort_mode@), None), spec_keys(seq!["ui", "show_serial_send_panel"]));
    assert("saved_connections_expanded_group_ids"@.len() != "show_serial_send_panel"@.len());
    assert(spec_keys(seq!["ui", "saved_connections_expanded_group_ids"])[1] != spec_keys(seq!["ui", "show_serial_send_panel"])[1]);
    lemma_set_path_frame(d24, spec_keys(seq!["ui", "saved_connections_expanded_group_ids"]), spec_text_array(spec_clean_list(strings_view(s.ui_saved_connections_expanded_group_ids@), 512)), spec_keys(seq!["ui", "show_serial_send_panel"]));
    assert("start_workspace_mode"@.len() != "show_serial_send_panel"@.len());
    assert(spec_keys(seq!["ui", "start_workspace_mode"])[1] != spec_keys(seq!["ui", "show_serial_send_panel"])[1]);
    lemma_set_path_frame(d25, spec_keys(seq!["ui", "start_workspace_mode"]), JsonModel::Str(spec_start_workspace_mode(s.ui_start_workspace_mode@), None), spec_keys(seq!["ui", "show_serial_send_panel"]));
    assert("asset_sort_key"@.len() != "show_serial_send_panel"@.len());
    assert(spec_keys(seq!["ui", "asset_sort_key"])[1] != spec_keys(seq!["ui", "show_serial_send_panel"])[1]);
    lemma_set_path_frame(d26, spec_keys(seq!["ui", "asset_sort_key"]), spec_optional_trimmed_value(s.ui_asset_sort_key), spec_keys(seq!["ui", "show_serial_send_panel"]));
    assert("asset_sort_direction"@.len() != "show_serial_send_panel"@.len());
    assert(spec_keys(seq!["ui", "asset_sort_direction"])[1] != spec_keys(seq!["ui", "show_serial_send_panel"])[1]);
    lemma_set_path_frame(d27, spec_keys(seq!["ui", "asset_sort_direction"]), spec_optional_text_or_null(spec_asset_sort_direction(opt_view(s.ui_asset_sort_direction))), spec_keys(seq!["ui", "show_serial_send_panel"]));
    assert("header_status_mode"@.len() != "show_serial_send_panel"@.len());
    assert(spec_keys(seq!["ui", "header_status_mode"])[1] != spec_keys(seq!["ui", "show_serial_send_panel"])[1]);
    lemma_set_path_frame(d28, spec_keys(seq!["ui", "header_status_mode"]), JsonModel::Str(spec_header_status_setting(s.ui_header_status_mode@), None), spec_keys(seq!["ui", "show_serial_send_panel"]));
    assert("header_status_visible"@.len() != "show_serial_send_panel"@.len());
    assert(spec_keys(seq!["ui", "header_status_visible"])[1] != spec_keys(seq!["ui", "show_serial_send_panel"])[1]);
    lemma_set_path_frame(d29, spec_keys(seq!["ui", "header_status_visible"]), JsonModel::Bool(s.ui_header_status_visible), spec_keys(seq!["ui", "show_serial_send_panel"]));
}

#[verifier::spinoff_prover]
proof fn lemma_saved_ui_layout_keeps_ui_active_left_panel(d: JsonModel, s: AppSettingsSummary)
    ensures
        spec_json_path(spec_saved_ui_layout(d, s), spec_keys(seq!["ui", "active_left_panel"])) == Some(spec_optional_panel_value(s.ui_active_left_panel)),
{
    reveal_strlit("active_left_panel");
    reveal_strlit("active_right_panel");
    reveal_strlit("activity_bar_layout");
    reveal_strlit("appearance");
    reveal_strlit("asset_sort_direction");
    reveal_strlit("asset_sort_key");
    reveal_strlit("header_status_mode");
    reveal_strlit("header_status_visible");
    reveal_strlit("left_open_panels");
    reveal_strlit("left_panel_collapsed");
    reveal_strlit("panel_multi_open");
    reveal_strlit("panel_open_mode");
    reveal_strlit("panel_stack_sizes");
    reveal_strlit("right_open_panels");
    reveal_strlit("right_panel_collapsed");
    reveal_strlit("saved_connections_expanded_group_ids");
    reveal_strlit("saved_connections_sort_mode");
    reveal_strlit("start_workspace_mode");
    reveal_strlit("ui");
    let d1 = spec_set_path(d, spec_keys(seq!["ui", "left_width"]), JsonModel::Number(JsonNumber::PosInt(spec_clamp(s.ui_left_panel_width as int, 160, 720) as u64)));
    let d2 = spec_set_path(d1, spec_keys(seq!["ui", "right_width"]), JsonModel::Number(JsonNumber::PosInt(spec_clamp(s.ui_right_panel_width as int, 200, 720) as u64)));
    let d3 = spec_set_path(d2, spec_keys(seq!["ui", "transfer_height"]), JsonModel::Number(JsonNumber::PosInt(spec_clamp(s.ui_transfer_height as int, 60, 600) as u64)));
    let d4 = spec_set_path(d3, spec_keys(seq!["ui", "quick_cmd_height"]), JsonModel::Number(JsonNumber::PosInt(spec_clamp(s.ui_quick_cmd_height as int, 36, 520) as u64)));
    let d5 = spec_set_path(d4, spec_keys(seq!["ui", "show_quick_cmd_bar"]), JsonModel::Bool(s.ui_quick_cmd_visible));
    let d6 = spec_set_path(d5, spec_keys(seq!["ui", "serial_send_height"]), JsonModel::Number(JsonNumber::PosInt(spec_clamp(s.ui_serial_send_height as int, 60, 520) as u64)));
    let d7 = spec_set_path(d6, spec_keys(seq!["ui", "show_serial_send_panel"]), JsonModel::Bool(s.ui_serial_send_visible));
    let d8 = spec_set_path(d7, spec_keys(seq!["ui", "active_left_panel"]), spec_optional_panel_value(s.ui_active_left_panel));
    let d9 = spec_set_path(d8, spec_keys(seq!["ui", "active_right_panel"]), spec_optional_panel_value(s.ui_active_right_panel));
    let d10 = spec_set_path(d9, spec_keys(seq!["ui", "left_panel_collapsed"]), JsonModel::Bool(s.ui_left_panel_collapsed));
    let d11 = spec_set_path(d10, spec_keys(seq!["ui", "right_panel_collapsed"]), JsonModel::Bool(s.ui_right_panel_collapsed));
    let d12 = spec_set_path(d11, spec_keys(seq!["ui", "activity_bar_layout", "left_top"]), spec_text_array(spec_clean_list(strings_view(s.ui_activity_bar_left_top@), 32)));
    let d13 = spec_set_path(d12, spec_keys(seq!["ui", "activity_bar_layout", "left_bottom"]), spec_text_array(spec_clean_list(strings_view(s.ui_activity_bar_left_bottom@), 32)));
    let d14 = spec_set_path(d13, spec_keys(seq!["ui", "activity_bar_layout", "right_top"]), spec_text_array(spec_clean_list(strings_view(s.ui_activity_bar_right_top@), 32)));
    let d15 = spec_set_path(d14, spec_keys(seq!["ui", "activity_bar_layout", "right_bottom"]), spec_text_array(spec_clean_list(strings_view(s.ui_activity_bar_right_bottom@), 32)));
    let d16 = spec_set_path(d15, spec_keys(seq!["ui", "activity_bar_layout", "show_labels"]), JsonModel::Bool(s.ui_activity_bar_show_labels));
    let d17 = spec_set_path(d16, spec_keys(seq!["ui", "activity_bar_layout", "hidden_items"]), spec_text_array(spec_clean_list(strings_view(s.ui_activity_bar_hidden_items@), 64)));
    let d18 = spec_set_path(d17, spec_keys(seq!["ui", "panel_open_mode"]), JsonModel::Str(spec_panel_open_mode(s.ui_panel_open_mode@), None));
    let d19 = spec_set_path(d18, spec_keys(seq!["ui", "panel_multi_open"]), JsonModel::Bool(s.ui_panel_multi_open));
    let d20 = spec_set_path(d19, spec_keys(seq!["appearance", "panel_multi_open"]), JsonModel::Bool(s.ui_panel_multi_open));
    let d21 = spec_set_path(d20, spec_keys(seq!["ui", "left_open_panels"]), spec_text_array(spec_clean_list(strings_view(s.ui_left_open_panels@), 32)));
    let d22 = spec_set_path(d21, spec_keys(seq!["ui", "right_open_panels"]), spec_text_array(spec_clean_list(strings_view(s.ui_right_open_panels@), 32)));
    let d23 = spec_set_path(d22, spec_keys(seq!["ui", "panel_stack_sizes"]), JsonModel::Object(spec_count_map_members(counts_view(s.ui_panel_stack_sizes@))));
    let d24 = spec_set_path(d23, spec_keys(seq!["ui", "saved_connections_sort_mode"]), JsonModel::Str(spec_saved_connections_sort_mode(s.ui_saved_connections_sort_mode@), None));
    let d25 = spec_set_path(d24, spec_keys(seq!["ui", "saved_connections_expanded_group_ids"]), spec_text_array(spec_clean_list(strings_view(s.ui_saved_connections_expanded_group_ids@), 512)));
    let d26 = spec_set_path(d25, spec_keys(seq!["ui", "start_workspace_mode"]), JsonModel::Str(spec_start_workspace_mode(s.ui_start_workspace_mode@), None));
    let d27 = spec_set_path(d26, spec_keys(seq!["ui", "asset_sort_key"]), spec_optional_trimmed_value(s.ui_asset_sort_key));
    let d28 = spec_set_path(d27, spec_keys(seq!["ui", "asset_sort_direction"]), spec_optional_text_or_null(spec_asset_sort_direction(opt_view(s.ui_asset_sort_direction))));
    let d29 = spec_set_path(d28, spec_keys(seq!["ui", "header_status_mode"]), JsonModel::Str(spec_header_status_setting(s.ui_header_status_mode@), None));
    let d30 = spec_set_path(d29, spec_keys(seq!["ui", "header_status_visible"]), JsonModel::Bool(s.ui_header_status_visible));
    assert(spec_saved_ui_layout_part1(d, s) == d8);
    assert(spec_saved_ui_layout_part2(d8, s) == d16);
    assert(spec_saved_ui_layout_part3(d16, s) == d24);
    assert(spec_saved_ui_layout_part4(d24, s) == d30);
    assert(spec_saved_ui_layout(d, s) == d30);
    lemma_set_path_then_read(d7, spec_keys(seq!["ui", "active_left_panel"]), spec_optional_panel_value(s.ui_active_left_panel));
    assert("active_right_panel"@.len() != "active_left_panel"@.len());
    assert(spec_keys(seq!["ui", "active_right_panel"])[1] != spec_keys(seq!["ui", "active_left_panel"])[1]);
    lemma_set_path_frame(d8, spec_keys(seq!["ui", "active_right_panel"]), spec_optional_panel_value(s.ui_active_right_panel), spec_keys(seq!["ui", "active_left_panel"]));
    assert("left_panel_collapsed"@.len() != "active_left_panel"@.len());
    assert(spec_keys(seq!["ui", "left_panel_collapsed"])[1] != spec_keys(seq!["ui", "active_left_panel"])[1]);
    lemma_set_path_frame(d9, spec_keys(seq!["ui", "left_panel_collapsed"]), JsonModel::Bool(s.ui_left_panel_collapsed), spec_keys(seq!["ui", "active_left_panel"]));
    assert("right_panel_collapsed"@.len() != "active_left_panel"@.len());
    assert(spec_keys(seq!["ui", "right_panel_collapsed"])[1] != spec_keys(seq!["ui", "active_left_panel"])[1]);
    lemma_set_path_frame(d10, spec_keys(seq!["ui", "right_panel_collapsed"]), JsonModel::Bool(s.ui_right_panel_collapsed), spec_keys(seq!["ui", "active_left_panel"]));
    assert("activity_bar_layout"@.len() != "active_left_panel"@.len());
    assert(spec_keys(seq!["ui", "activity_bar_layout", "left_top"])[1] != spec_keys(seq!["ui", "active_left_panel"])[1]);
    lemma_set_path_frame(d11, spec_keys(seq!["ui", "activity_bar_layout", "left_top"]), spec_text_array(spec_clean_list(strings_view(s.ui_activity_bar_left_top@), 32)), spec_keys(seq!["ui", "active_left_panel"]));
    assert("activity_bar_layout"@.len() != "active_left_panel"@.len());
    assert(spec_keys(seq!["ui", "activity_bar_layout", "left_bottom"])[1] != spec_keys(seq!["ui", "active_left_panel"])[1]);
    lemma_set_path_frame(d12, spec_keys(seq!["ui", "activity_bar_layout", "left_bottom"]), spec_text_array(spec_clean_list(strings_view(s.ui_activity_bar_left_bottom@), 32)), spec_keys(seq!["ui", "active_left_panel"]));
    assert("activity_bar_layout"@.len() != "active_left_panel"@.len());
    assert(spec_keys(seq!["ui", "activity_bar_layout", "right_top"])[1] != spec_keys(seq!["ui", "active_left_panel"])[1]);
    lemma_set_path_frame(d13, spec_keys(seq!["ui", "activity_bar_layout", "right_top"]), spec_text_array(spec_clean_list(strings_view(s.ui_activity_bar_right_top@), 32)), spec_keys(seq!["ui", "active_left_panel"]));
    assert("activity_bar_layout"@.len() != "active_left_panel"@.len());
    assert(spec_keys(seq!["ui", "activity_bar_layout", "right_bottom"])[1] != spec_keys(seq!["ui", "active_left_panel"])[1]);
    lemma_set_path_frame(d14, spec_keys(seq!["ui", "activity_bar_layout", "right_bottom"]), spec_text_array(spec_clean_list(strings_view(s.ui_activity_bar_right_bottom@), 32)), spec_keys(seq!["ui", "active_left_panel"]));
    assert("activity_bar_layout"@.len() != "active_left_panel"@.len());
    assert(spec_keys(seq!["ui", "activity_bar_layout", "show_labels"])[1] != spec_keys(seq!["ui", "active_left_panel"])[1]);
    lemma_set_path_frame(d15, spec_keys(seq!["ui", "activity_bar_layout", "show_labels"]), JsonModel::Bool(s.ui_activity_bar_show_labels), spec_keys(seq!["ui", "active_left_panel"]));
    assert("activity_bar_layout"@.len() != "active_left_panel"@.len());
    assert(spec_keys(seq!["ui", "activity_bar_layout", "hidden_items"])[1] != spec_keys(seq!["ui", "active_left_panel"])[1]);
    lemma_set_path_frame(d16, spec_keys(seq!["ui", "activity_bar_layout", "hidden_items"]), spec_text_array(spec_clean_list(strings_view(s.ui_activity_bar_hidden_items@), 64)), spec_keys(seq!["ui", "active_left_panel"]));
    assert("panel_open_mode"@.len() != "active_left_panel"@.len());
    assert(spec_keys(seq!["ui", "panel_open_mode"])[1] != spec_keys(seq!["ui", "active_left_panel"])[1]);
    lemma_set_path_frame(d17, spec_keys(seq!["ui", "panel_open_mode"]), JsonModel::Str(spec_panel_open_mode(s.ui_panel_open_mode@), None), spec_keys(seq!["ui", "active_left_panel"]));
    assert("panel_multi_open"@.len() != "active_left_panel"@.len());
    assert(spec_keys(seq!["ui", "panel_multi_open"])[1] != spec_keys(seq!["ui", "active_left_panel"])[1]);
    lemma_set_path_frame(d18, spec_keys(seq!["ui", "panel_multi_open"]), JsonModel::Bool(s.ui_panel_multi_open), spec_keys(seq!["ui", "active_left_panel"]));
    assert("appearance"@.len() != "ui"@.len());
    assert(spec_keys(seq!["appearance", "panel_multi_open"])[0] != spec_keys(seq!["ui", "active_left_panel"])[0]);
    lemma_set_path_frame(d19, spec_keys(seq!["appearance", "panel_multi_open"]), JsonModel::Bool(s.ui_panel_multi_open), spec_keys(seq!["ui", "active_left_panel"]));
    assert("left_open_panels"@.len() != "active_left_panel"@.len());
    assert(spec_keys(seq!["ui", "left_open_panels"])[1] != spec_keys(seq!["ui", "active_left_panel"])[1]);
    lemma_set_path_frame(d20, spec_keys(seq!["ui", "left_open_panels"]), spec_text_array(spec_clean_list(strings_view(s.ui_left_open_panels@), 32)), spec_keys(seq!["ui", "active_left_panel"]));
    assert("right_open_panels"@[0] != "active_left_panel"@[0]);
    assert(spec_keys(seq!["ui", "right_open_panels"])[1] != spec_keys(seq!["ui", "active_left_panel"])[1]);
    lemma_set_path_frame(d21, spec_keys(seq!["ui", "right_open_panels"]), spec_text_array(spec_clean_list(strings_view(s.ui_right_open_panels@), 32)), spec_keys(seq!["ui", "active_left_panel"]));
    assert("panel_stack_sizes"@[0] != "active_left_panel"@[0]);
    assert(spec_keys(seq!["ui", "panel_stack_sizes"])[1] != spec_keys(seq!["ui", "active_left_panel"])[1]);
    lemma_set_path_frame(d22, spec_keys(seq!["ui", "panel_stack_sizes"]), JsonModel::Object(spec_count_map_members(counts_view(s.ui_panel_stack_sizes@))), spec_keys(seq!["ui", "active_left_panel"]));
    assert("saved_connections_sort_mode"@.len() != "active_left_panel"@.len());
    assert(spec_keys(seq!["ui", "saved_connections_sort_mode"])[1] != spec_keys(seq!["ui", "active_left_panel"])[1]);
    lemma_set_path_frame(d23, spec_keys(seq!["ui", "saved_connections_sort_mode"]), JsonModel::Str(spec_saved_connections_sort_mode(s.ui_saved_connections_sort_mode@), None), spec_keys(seq!["ui", "active_left_panel"]));
    assert("saved_connections_expanded_group_ids"@.len() != "active_left_panel"@.len());
    assert(spec_keys(seq!["ui", "saved_connections_expanded_group_ids"])[1] != spec_keys(seq!["ui", "active_left_panel"])[1]);
    lemma_set_path_frame(d24, spec_keys(seq!["ui", "saved_connections_expanded_group_ids"]), spec_text_array(spec_clean_list(strings_view(s.ui_saved_connections_expanded_group_ids@), 512)), spec_keys(seq!["ui", "active_left_panel"]));
    assert("start_workspace_mode"@.len() != "active_left_panel"@.len());
    assert(spec_keys(seq!["ui", "start_workspace_mode"])[1] != spec_keys(seq!["ui", "active_left_panel"])[1]);
    lemma_set_path_frame(d25, spec_keys(seq!["ui", "start_workspace_mode"]), JsonModel::Str(spec_start_workspace_mode(s.ui_start_workspace_mode@), None), spec_keys(seq!["ui", "active_left_panel"]));
    assert("asset_sort_key"@.len() != "active_left_panel"@.len());
    assert(spec_keys(seq!["ui", "asset_sort_key"])[1] != spec_keys(seq!["ui", "active_left_panel"])[1]);
    lemma_set_path_frame(d26, spec_keys(seq!["ui", "asset_sort_key"]), spec_optional_trimmed_value(s.ui_asset_sort_key), spec_keys(seq!["ui", "active_left_panel"]));
    assert("asset_sort_direction"@.len() != "active_left_panel"@.len());
    assert(spec_keys(seq!["ui", "asset_sort_direction"])[1] != spec_keys(seq!["ui", "active_left_panel"])[1]);
    lemma_set_path_frame(d27, spec_keys(seq!["ui", "asset_sort_direction"]), spec_optional_text_or_null(spec_asset_sort_direction(opt_view(s.ui_asset_sort_direction))), spec_keys(seq!["ui", "active_left_panel"]));
    assert("header_status_mode"@.len() != "active_left_panel"@.len());
    assert(spec_keys(seq!["ui", "header_status_mode"])[1] != spec_keys(seq!["ui", "active_left_panel"])[1]);
    lemma_set_path_frame(d28, spec_keys(seq!["ui", "header_status_mode"]), JsonModel::Str(spec_header_status_setting(s.ui_header_status_mode@), None), spec_keys(seq!["ui", "active_left_panel"]));
    assert("header_status_visible"@.len() != "active_left_panel"@.len());
    assert(spec_keys(seq!["ui", "header_status_visible"])[1] != spec_keys(seq!["ui", "active_left_panel"])[1]);
    lemma_set_path_frame(d29, spec_keys(seq!["ui", "header_status_visible"]), JsonModel::Bool(s.ui_header_status_visible), spec_keys(seq!["ui", "active_left_panel"]));
}

#[verifier::spinoff_prover]
proof fn lemma_saved_ui_layout_keeps_ui_active_right_panel(d: JsonModel, s: AppSettingsSummary)
    ensures
        spec_json_path(spec_saved_ui_layout(d, s), spec_keys(seq!["ui", "active_right_panel"])) == Some(spec_optional_panel_value(s.ui_active_right_panel)),
{
    reveal_strlit("active_right_panel");
    reveal_strlit("activity_bar_layout");
    reveal_strlit("appearance");
    reveal_strlit("asset_sort_direction");
    reveal_strlit("asset_sort_key");
    reveal_strlit("header_status_mode");
    reveal_strlit("header_status_visible");
    reveal_strlit("left_open_panels");
    reveal_strlit("left_panel_collapsed");
    reveal_strlit("panel_multi_open");
    reveal_strlit("panel_open_mode");
    reveal_strlit("panel_stack_sizes");
    reveal_strlit("right_open_panels");
    reveal_strlit("right_panel_collapsed");
    reveal_strlit("saved_connections_expanded_group_ids");
    reveal_strlit("saved_connections_sort_mode");
    reveal_strlit("start_workspace_mode");
    reveal_strlit("ui");
    let d1 = spec_set_path(d, spec_keys(seq!["ui", "left_width"]), JsonModel::Number(JsonNumber::PosInt(spec_clamp(s.ui_left_panel_width as int, 160, 720) as u64)));
    let d2 = spec_set_path(d1, spec_keys(seq!["ui", "right_width"]), JsonModel::Number(JsonNumber::PosInt(spec_clamp(s.ui_right_panel_width as int, 200, 720) as u64)));
    let d3 = spec_set_path(d2, spec_keys(seq!["ui", "transfer_height"]), JsonModel::Number(JsonNumber::PosInt(spec_clamp(s.ui_transfer_height as int, 60, 600) as u64)));
    let d4 = spec_set_path(d3, spec_keys(seq!["ui", "quick_cmd_height"]), JsonModel::Number(JsonNumber::PosInt(spec_clamp(s.ui_quick_cmd_height as int, 36, 520) as u64)));
    let d5 = spec_set_path(d4, spec_keys(seq!["ui", "show_quick_cmd_bar"]), JsonModel::Bool(s.ui_quick_cmd_visible));
    let d6 = spec_set_path(d5, spec_keys(seq!["ui", "serial_send_height"]), JsonModel::Number(JsonNumber::PosInt(spec_clamp(s.ui_serial_send_height as int, 60, 520) as u64)));
    let d7 = spec_set_path(d6, spec_keys(seq!["ui", "show_serial_send_panel"]), JsonModel::Bool(s.ui_serial_send_visible));
    let d8 = spec_set_path(d7, spec_keys(seq!["ui", "active_left_panel"]), spec_optional_panel_value(s.ui_active_left_panel));
    let d9 = spec_set_path(d8, spec_keys(seq!["ui", "active_right_panel"]), spec_optional_panel_value(s.ui_active_right_panel));
    let d10 = spec_set_path(d9, spec_keys(seq!["ui", "left_panel_collapsed"]), JsonModel::Bool(s.ui_left_panel_collapsed));
    let d11 = spec_set_path(d10, spec_keys(seq!["ui", "right_panel_collapsed"]), JsonModel::Bool(s.ui_right_panel_collapsed));
    let d12 = spec_set_path(d11, spec_keys(seq!["ui", "activity_bar_layout", "left_top"]), spec_text_array(spec_clean_list(strings_view(s.ui_activity_bar_left_top@), 32)));
    let d13 = spec_set_path(d12, spec_keys(seq!["ui", "activity_bar_layout", "left_bottom"]), spec_text_array(spec_clean_list(strings_view(s.ui_activity_bar_left_bottom@), 32)));
    let d14 = spec_set_path(d13, spec_keys(seq!["ui", "activity_bar_layout", "right_top"]), spec_text_array(spec_clean_list(strings_view(s.ui_activity_bar_right_top@), 32)));
    let d15 = spec_set_path(d14, spec_keys(seq!["ui", "activity_bar_layout", "right_bottom"]), spec_text_array(spec_clean_list(strings_view(s.ui_activity_bar_right_bottom@), 32)));
    let d16 = spec_set_path(d15, spec_keys(seq!["ui", "activity_bar_layout", "show_labels"]), JsonModel::Bool(s.ui_activity_bar_show_labels));
    let d17 = spec_set_path(d16, spec_keys(seq!["ui", "activity_bar_layout", "hidden_items"]), spec_text_array(spec_clean_list(strings_view(s.ui_activity_bar_hidden_items@), 64)));
    let d18 = spec_set_path(d17, spec_keys(seq!["ui", "panel_open_mode"]), JsonModel::Str(spec_panel_open_mode(s.ui_panel_open_mode@), None));
    let d19 = spec_set_path(d18, spec_keys(seq!["ui", "panel_multi_open"]), JsonModel::Bool(s.ui_panel_multi_open));
    let d20 = spec_set_path(d19, spec_keys(seq!["appearance", "panel_multi_open"]), JsonModel::Bool(s.ui_panel_multi_open));
    let d21 = spec_set_path(d20, spec_keys(seq!["ui", "left_open_panels"]), spec_text_array(spec_clean_list(strings_view(s.ui_left_open_panels@), 32)));
    let d22 = spec_set_path(d21, spec_keys(seq!["ui", "right_open_panels"]), spec_text_array(spec_clean_list(strings_view(s.ui_right_open_panels@), 32)));
    let d23 = spec_set_path(d22, spec_keys(seq!["ui", "panel_stack_sizes"]), JsonModel::Object(spec_count_map_members(counts_view(s.ui_panel_stack_sizes@))));
    let d24 = spec_set_path(d23, spec_keys(seq!["ui", "saved_connections_sort_mode"]), JsonModel::Str(spec_saved_connections_sort_mode(s.ui_saved_connections_sort_mode@), None));
    let d25 = spec_set_path(d24, spec_keys(seq!["ui", "saved_connections_expanded_group_ids"]), spec_text_array(spec_clean_list(strings_view(s.ui_saved_connections_expanded_group_ids@), 512)));
    let d26 = spec_set_path(d25, spec_keys(seq!["ui", "start_workspace_mode"]), JsonModel::Str(spec_start_workspace_mode(s.ui_start_workspace_mode@), None));
    let d27 = spec_set_path(d26, spec_keys(seq!["ui", "asset_sort_key"]), spec_optional_trimmed_value(s.ui_asset_sort_key));
    let d28 = spec_set_path(d27, spec_keys(seq!["ui", "asset_sort_direction"]), spec_optional_text_or_null(spec_asset_sort_direction(opt_view(s.ui_asset_sort_direction))));
    let d29 = spec_set_path(d28, spec_keys(seq!["ui", "header_status_mode"]), JsonModel::Str(spec_header_status_setting(s.ui_header_status_mode@), None));
    let d30 = spec_set_path(d29, spec_keys(seq!["ui", "header_status_visible"]), JsonModel::Bool(s.ui_header_status_visible));
    assert(spec_saved_ui_layout_part1(d, s) == d8);
    assert(spec_saved_ui_layout_part2(d8, s) == d16);
    assert(spec_saved_ui_layout_part3(d16, s) == d24);
    assert(spec_saved_ui_layout_part4(d24, s) == d30);
    assert(spec_saved_ui_layout(d, s) == d30);
    lemma_set_path_then_read(d8, spec_keys(seq!["ui", "active_right_panel"]), spec_optional_panel_value(s.ui_active_right_panel));
    assert("left_panel_collapsed"@.len() != "active_right_panel"@.len());
    assert(spec_keys(seq!["ui", "left_panel_collapsed"])[1] != spec_keys(seq!["ui", "active_right_panel"])[1]);
    lemma_set_path_frame(d9, spec_keys(seq!["ui", "left_panel_collapsed"]), JsonModel::Bool(s.ui_left_panel_collapsed), spec_keys(seq!["ui", "active_right_panel"]));
    assert("right_panel_collapsed"@.len() != "active_right_panel"@.len());
    assert(spec_keys(seq!["ui", "right_panel_collapsed"])[1] != spec_keys(seq!["ui", "active_right_panel"])[1]);
    lemma_set_path_frame(d10, spec_keys(seq!["ui", "right_panel_collapsed"]), JsonModel::Bool(s.ui_right_panel_collapsed), spec_keys(seq!["ui", "active_right_panel"]));
    assert("activity_bar_layout"@.len() != "active_right_panel"@.len());
    assert(spec_keys(seq!["ui", "activity_bar_layout", "left_top"])[1] != spec_keys(seq!["ui", "active_right_panel"])[1]);
    lemma_set_path_frame(d11, spec_keys(seq!["ui", "activity_bar_layout", "left_top"]), spec_text_array(spec_clean_list(strings_view(s.ui_activity_bar_left_top@), 32)), spec_keys(seq!["ui", "active_right_panel"]));
    assert("activity_bar_layout"@.len() != "active_right_panel"@.len());
    assert(spec_keys(seq!["ui", "activity_bar_layout", "left_bottom"])[1] != spec_keys(seq!["ui", "active_right_panel"])[1]);
    lemma_set_path_frame(d12, spec_keys(seq!["ui", "activity_bar_layout", "left_bottom"]), spec_text_array(spec_clean_list(strings_view(s.ui_activity_bar_left_bottom@), 32)), spec_keys(seq!["ui", "active_right_panel"]));
    assert("activity_bar_layout"@.len() != "active_right_panel"@.len());
    assert(spec_keys(seq!["ui", "activity_bar_layout", "right_top"])[1] != spec_keys(seq!["ui", "active_right_panel"])[1]);
    lemma_set_path_frame(d13, spec_keys(seq!["ui", "activity_bar_layout", "right_top"]), spec_text_array(spec_clean_list(strings_view(s.ui_activity_bar_right_top@), 32)), spec_keys(seq!["ui", "active_right_panel"]));
    assert("activity_bar_layout"@.len() != "active_right_panel"@.len());
    assert(spec_keys(seq!["ui", "activity_bar_layout", "right_bottom"])[1] != spec_keys(seq!["ui", "active_right_panel"])[1]);
    lemma_set_path_frame(d14, spec_keys(seq!["ui", "activity_bar_layout", "right_bottom"]), spec_text_array(spec_clean_list(strings_view(s.ui_activity_bar_right_bottom@), 32)), spec_keys(seq!["ui", "active_right_panel"]));
    assert("activity_bar_layout"@.len() != "active_right_panel"@.len());
    assert(spec_keys(seq!["ui", "activity_bar_layout", "show_labels"])[1] != spec_keys(seq!["ui", "active_right_panel"])[1]);
    lemma_set_path_frame(d15, spec_keys(seq!["ui", "activity_bar_layout", "show_labels"]), JsonModel::Bool(s.ui_activity_bar_show_labels), spec_keys(seq!["ui", "active_right_panel"]));
    assert("activity_bar_layout"@.len() != "active_right_panel"@.len());
    assert(spec_keys(seq!["ui", "activity_bar_layout", "hidden_items"])[1] != spec_keys(seq!["ui", "active_right_panel"])[1]);
    lemma_set_path_frame(d16, spec_keys(seq!["ui", "activity_bar_layout", "hidden_items"]), spec_text_array(spec_clean_list(strings_view(s.ui_activity_bar_hidden_items@), 64)), spec_keys(seq!["ui", "active_right_panel"]));
    assert("panel_open_mode"@.len() != "active_right_panel"@.len());
    assert(spec_keys(seq!["ui", "panel_open_mode"])[1] != spec_keys(seq!["ui", "active_right_panel"])[1]);
    lemma_set_path_frame(d17, spec_keys(seq!["ui", "panel_open_mode"]), JsonModel::Str(spec_panel_open_mode(s.ui_panel_open_mode@), None), spec_keys(seq!["ui", "active_right_panel"]));
    assert("panel_multi_open"@.len() != "active_right_panel"@.len());
    assert(spec_keys(seq!["ui", "panel_multi_open"])[1] != spec_keys(seq!["ui", "active_right_panel"])[1]);
    lemma_set_path_frame(d18, spec_keys(seq!["ui", "panel_multi_open"]), JsonModel::Bool(s.ui_panel_multi_open), spec_keys(seq!["ui", "active_right_panel"]));
    assert("appearance"@.len() != "ui"@.len());
    assert(spec_keys(seq!["appearance", "panel_multi_open"])[0] != spec_keys(seq!["ui", "active_right_panel"])[0]);
    lemma_set_path_frame(d19, spec_keys(seq!["appearance", "panel_multi_open"]), JsonModel::Bool(s.ui_panel_multi_open), spec_keys(seq!["ui", "active_right_panel"]));
    assert("left_open_panels"@.len() != "active_right_panel"@.len());
    assert(spec_keys(seq!["ui", "left_open_panels"])[1] != spec_keys(seq!["ui", "active_right_panel"])[1]);
    lemma_set_path_frame(d20, spec_keys(seq!["ui", "left_open_panels"]), spec_text_array(spec_clean_list(strings_view(s.ui_left_open_panels@), 32)), spec_keys(seq!["ui", "active_right_panel"]));
    assert("right_open_panels"@.len() != "active_right_panel"@.len());
    assert(spec_keys(seq!["ui", "right_open_panels"])[1] != spec_keys(seq!["ui", "active_right_panel"])[1]);
    lemma_set_path_frame(d21, spec_keys(seq!["ui", "right_open_panels"]), spec_text_array(spec_clean_list(strings_view(s.ui_right_open_panels@), 32)), spec_keys(seq!["ui", "active_right_panel"]));
    assert("panel_stack_sizes"@.len() != "active_right_panel"@.len());
    assert(spec_keys(seq!["ui", "panel_stack_sizes"])[1] != spec_keys(seq!["ui", "active_right_panel"])[1]);
    lemma_set_path_frame(d22, spec_keys(seq!["ui", "panel_stack_sizes"]), JsonModel::Object(spec_count_map_members(counts_view(s.ui_panel_stack_sizes@))), spec_keys(seq!["ui", "active_right_panel"]));
    assert("saved_connections_sort_mode"@.len() != "active_right_panel"@.len());
    assert(spec_keys(seq!["ui", "saved_connections_sort_mode"])[1] != spec_keys(seq!["ui", "active_right_panel"])[1]);
    lemma_set_path_frame(d23, spec_keys(seq!["ui", "saved_connections_sort_mode"]), JsonModel::Str(spec_saved_connections_sort_mode(s.ui_saved_connections_sort_mode@), None), spec_keys(seq!["ui", "active_right_panel"]));
    assert("saved_connections_expanded_group_ids"@.len() != "active_right_panel"@.len());
    assert(spec_keys(seq!["ui", "saved_connections_expanded_group_ids"])[1] != spec_keys(seq!["ui", "active_right_panel"])[1]);
    lemma_set_path_frame(d24, spec_keys(seq!["ui", "saved_connections_expanded_group_ids"]), spec_text_array(spec_clean_list(strings_view(s.ui_saved_connections_expanded_group_ids@), 512)), spec_keys(seq!["ui", "active_right_panel"]));
    assert("start_workspace_mode"@.len() != "active_right_panel"@.len());
    assert(spec_keys(seq!["ui", "start_workspace_mode"])[1] != spec_keys(seq!["ui", "active_right_panel"])[1]);
    lemma_set_path_frame(d25, spec_keys(seq!["ui", "start_workspace_mode"]), JsonModel::Str(spec_start_workspace_mode(s.ui_start_workspace_mode@), None), spec_keys(seq!["ui", "active_right_panel"]));
    assert("asset_sort_key"@.len() != "active_right_panel"@.len());
    assert(spec_keys(seq!["ui", "asset_sort_key"])[1] != spec_keys(seq!["ui", "active_right_panel"])[1]);
    lemma_set_path_frame(d26, spec_keys(seq!["ui", "asset_sort_key"]), spec_optional_trimmed_value(s.ui_asset_sort_key), spec_keys(seq!["ui", "active_right_panel"]));
    assert("asset_sort_direction"@.len() != "active_right_panel"@.len());
    assert(spec_keys(seq!["ui", "asset_sort_direction"])[1] != spec_keys(seq!["ui", "active_right_panel"])[1]);
    lemma_set_path_frame(d27, spec_keys(seq!["ui", "asset_sort_direction"]), spec_optional_text_or_null(spec_asset_sort_direction(opt_view(s.ui_asset_sort_direction))), spec_keys(seq!["ui", "active_right_panel"]));
    assert("header_status_mode"@[0] != "active_right_panel"@[0]);
    assert(spec_keys(seq!["ui", "header_status_mode"])[1] != spec_keys(seq!["ui", "active_right_panel"])[1]);
    lemma_set_path_frame(d28, spec_keys(seq!["ui", "header_status_mode"]), JsonModel::Str(spec_header_status_setting(s.ui_header_status_mode@), None), spec_keys(seq!["ui", "active_right_panel"]));
    assert("header_status_visible"@.len() != "active_right_panel"@.len());
    assert(spec_keys(seq!["ui", "header_status_visible"])[1] != spec_keys(seq!["ui", "active_right_panel"])[1]);
    lemma_set_path_frame(d29, spec_keys(seq!["ui", "header_status_visible"]), JsonModel::Bool(s.ui_header_status_visible), spec_keys(seq!["ui", "active_right_panel"]));
}

#[verifier::spinoff_prover]
proof fn lemma_saved_ui_layout_keeps_ui_left_panel_collapsed(d: JsonModel, s: AppSettingsSummary)
    ensures
        spec_json_path(spec_saved_ui_layout(d, s), spec_keys(seq!["ui", "left_panel_collapsed"])) == Some(JsonModel::Bool(s.ui_left_panel_collapsed)),
{
    reveal_strlit("activity_bar_layout");
    reveal_strlit("appearance");
    reveal_strlit("asset_sort_direction");
    reveal_strlit("asset_sort_key");
    reveal_strlit("header_status_mode");
    reveal_strlit("header_status_visible");
    reveal_strlit("left_open_panels");
    reveal_strlit("left_panel_collapsed");
    reveal_strlit("panel_multi_open");
    reveal_strlit("panel_open_mode");
    reveal_strlit("panel_stack_sizes");
    reveal_strlit("right_open_panels");
    reveal_strlit("right_panel_collapsed");
    reveal_strlit("saved_connections_expanded_group_ids");
    reveal_strlit("saved_connections_sort_mode");
    reveal_strlit("start_workspace_mode");
    reveal_strlit("ui");
    let d1 = spec_set_path(d, spec_keys(seq!["ui", "left_width"]), JsonModel::Number(JsonNumber::PosInt(spec_clamp(s.ui_left_panel_width as int, 160, 720) as u64)));
    let d2 = spec_set_path(d1, spec_keys(seq!["ui", "right_width"]), JsonModel::Number(JsonNumber::PosInt(spec_clamp(s.ui_right_panel_width as int, 200, 720) as u64)));
    let d3 = spec_set_path(d2, spec_keys(seq!["ui", "transfer_height"]), JsonModel::Number(JsonNumber::PosInt(spec_clamp(s.ui_transfer_height as int, 60, 600) as u64)));
    let d4 = spec_set_path(d3, spec_keys(seq!["ui", "quick_cmd_height"]), JsonModel::Number(JsonNumber::PosInt(spec_clamp(s.ui_quick_cmd_height as int, 36, 520) as u64)));
    let d5 = spec_set_path(d4, spec_keys(seq!["ui", "show_quick_cmd_bar"]), JsonModel::Bool(s.ui_quick_cmd_visible));
    let d6 = spec_set_path(d5, spec_keys(seq!["ui", "serial_send_height"]), JsonModel::Number(JsonNumber::PosInt(spec_clamp(s.ui_serial_send_height as int, 60, 520) as u64)));
    let d7 = spec_set_path(d6, spec_keys(seq!["ui", "show_serial_send_panel"]), JsonModel::Bool(s.ui_serial_send_visible));
    let d8 = spec_set_path(d7, spec_keys(seq!["ui", "active_left_panel"]), spec_optional_panel_value(s.ui_active_left_panel));
    let d9 = spec_set_path(d8, spec_keys(seq!["ui", "active_right_panel"]), spec_optional_panel_value(s.ui_active_right_panel));
    let d10 = spec_set_path(d9, spec_keys(seq!["ui", "left_panel_collapsed"]), JsonModel::Bool(s.ui_left_panel_collapsed));
    let d11 = spec_set_path(d10, spec_keys(seq!["ui", "right_panel_collapsed"]), JsonModel::Bool(s.ui_right_panel_collapsed));
    let d12 = spec_set_path(d11, spec_keys(seq!["ui", "activity_bar_layout", "left_top"]), spec_text_array(spec_clean_list(strings_view(s.ui_activity_bar_left_top@), 32)));
    let d13 = spec_set_path(d12, spec_keys(seq!["ui", "activity_bar_layout", "left_bottom"]), spec_text_array(spec_clean_list(strings_view(s.ui_activity_bar_left_bottom@), 32)));
    let d14 = spec_set_path(d13, spec_keys(seq!["ui", "activity_bar_layout", "right_top"]), spec_text_array(spec_clean_list(strings_view(s.ui_activity_bar_right_top@), 32)));
    let d15 = spec_set_path(d14, spec_keys(seq!["ui", "activity_bar_layout", "right_bottom"]), spec_text_array(spec_clean_list(strings_view(s.ui_activity_bar_right_bottom@), 32)));
    let d16 = spec_set_path(d15, spec_keys(seq!["ui", "activity_bar_layout", "show_labels"]), JsonModel::Bool(s.ui_activity_bar_show_labels));
    let d17 = spec_set_path(d16, spec_keys(seq!["ui", "activity_bar_layout", "hidden_items"]), spec_text_array(spec_clean_list(strings_view(s.ui_activity_bar_hidden_items@), 64)));
    let d18 = spec_set_path(d17, spec_keys(seq!["ui", "panel_open_mode"]), JsonModel::Str(spec_panel_open_mode(s.ui_panel_open_mode@), None));
    let d19 = spec_set_path(d18, spec_keys(seq!["ui", "panel_multi_open"]), JsonModel::Bool(s.ui_panel_multi_open));
    let d20 = spec_set_path(d19, spec_keys(seq!["appearance", "panel_multi_open"]), JsonModel::Bool(s.ui_panel_multi_open));
    let d21 = spec_set_path(d20, spec_keys(seq!["ui", "left_open_panels"]), spec_text_array(spec_clean_list(strings_view(s.ui_left_open_panels@), 32)));
    let d22 = spec_set_path(d21, spec_keys(seq!["ui", "right_open_panels"]), spec_text_array(spec_clean_list(strings_view(s.ui_right_open_panels@), 32)));
    let d23 = spec_set_path(d22, spec_keys(seq!["ui", "panel_stack_sizes"]), JsonModel::Object(spec_count_map_members(counts_view(s.ui_panel_stack_sizes@))));
    let d24 = spec_set_path(d23, spec_keys(seq!["ui", "saved_connections_sort_mode"]), JsonModel::Str(spec_saved_connections_sort_mode(s.ui_saved_connections_sort_mode@), None));
    let d25 = spec_set_path(d24, spec_keys(seq!["ui", "saved_connections_expanded_group_ids"]), spec_text_array(spec_clean_list(strings_view(s.ui_saved_connections_expanded_group_ids@), 512)));
    let d26 = spec_set_path(d25, spec_keys(seq!["ui", "start_workspace_mode"]), JsonModel::Str(spec_start_workspace_mode(s.ui_start_workspace_mode@), None));
    let d27 = spec_set_path(d26, spec_keys(seq!["ui", "asset_sort_key"]), spec_optional_trimmed_value(s.ui_asset_sort_key));
    let d28 = spec_set_path(d27, spec_keys(seq!["ui", "asset_sort_direction"]), spec_optional_text_or_null(spec_asset_sort_direction(opt_view(s.ui_asset_sort_direction))));
    let d29 = spec_set_path(d28, spec_keys(seq!["ui", "header_status_mode"]), JsonModel::Str(spec_header_status_setting(s.ui_header_status_mode@), None));
    let d30 = spec_set_path(d29, spec_keys(seq!["ui", "header_status_visible"]), JsonModel::Bool(s.ui_header_status_visible));
    assert(spec_saved_ui_layout_part1(d, s) == d8);
    assert(spec_saved_ui_layout_part2(d8, s) == d16);
    assert(spec_saved_ui_layout_part3(d16, s) == d24);
    assert(spec_saved_ui_layout_part4(d24, s) == d30);
    assert(spec_saved_ui_layout(d, s) == d30);
    lemma_set_path_then_read(d9, spec_keys(seq!["ui", "left_panel_collapsed"]), JsonModel::Bool(s.ui_left_panel_collapsed));
    assert("right_panel_collapsed"@.len() != "left_panel_collapsed"@.len());
    assert(spec_keys(seq!["ui", "right_panel_collapsed"])[1] != spec_keys(seq!["ui", "left_panel_collapsed"])[1]);
    lemma_set_path_frame(d10, spec_keys(seq!["ui", "right_panel_collapsed"]), JsonModel::Bool(s.ui_right_panel_collapsed), spec_keys(seq!["ui", "left_panel_collapsed"]));
    assert("activity_bar_layout"@.len() != "left_panel_collapsed"@.len());
    assert(spec_keys(seq!["ui", "activity_bar_layout", "left_top"])[1] != spec_keys(seq!["ui", "left_panel_collapsed"])[1]);
    lemma_set_path_frame(d11, spec_keys(seq!["ui", "activity_bar_layout", "left_top"]), spec_text_array(spec_clean_list(strings_view(s.ui_activity_bar_left_top@), 32)), spec_keys(seq!["ui", "left_panel_collapsed"]));
    assert("activity_bar_layout"@.len() != "left_panel_collapsed"@.len());
    assert(spec_keys(seq!["ui", "activity_bar_layout", "left_bottom"])[1] != spec_keys(seq!["ui", "left_panel_collapsed"])[1]);
    lemma_set_path_frame(d12, spec_keys(seq!["ui", "activity_bar_layout", "left_bottom"]), spec_text_array(spec_clean_list(strings_view(s.ui_activity_bar_left_bottom@), 32)), spec_keys(seq!["ui", "left_panel_collapsed"]));
    assert("activity_bar_layout"@.len() != "left_panel_collapsed"@.len());
    assert(spec_keys(seq!["ui", "activity_bar_layout", "right_top"])[1] != spec_keys(seq!["ui", "left_panel_collapsed"])[1]);
    lemma_set_path_frame(d13, spec_keys(seq!["ui", "activity_bar_layout", "right_top"]), spec_text_array(spec_clean_list(strings_view(s.ui_activity_bar_right_top@), 32)), spec_keys(seq!["ui", "left_panel_collapsed"]));
    assert("activity_bar_layout"@.len() != "left_panel_collapsed"@.len());
    assert(spec_keys(seq!["ui", "activity_bar_layout", "right_bottom"])[1] != spec_keys(seq!["ui", "left_panel_collapsed"])[1]);
    lemma_set_path_frame(d14, spec_keys(seq!["ui", "activity_bar_layout", "right_bottom"]), spec_text_array(spec_clean_list(strings_view(s.ui_activity_bar_right_bottom@), 32)), spec_keys(seq!["ui", "left_panel_collapsed"]));
    assert("activity_bar_layout"@.len() != "left_panel_collapsed"@.len());
    assert(spec_keys(seq!["ui", "activity_bar_layout", "show_labels"])[1] != spec_keys(seq!["ui", "left_panel_collapsed"])[1]);
    lemma_set_path_frame(d15, spec_keys(seq!["ui", "activity_bar_layout", "show_labels"]), JsonModel::Bool(s.ui_activity_bar_show_labels), spec_keys(seq!["ui", "left_panel_collapsed"]));
    assert("activity_bar_layout"@.len() != "left_panel_collapsed"@.len());
    assert(spec_keys(seq!["ui", "activity_bar_layout", "hidden_items"])[1] != spec_keys(seq!["ui", "left_panel_collapsed"])[1]);
    lemma_set_path_frame(d16, spec_keys(seq!["ui", "activity_bar_layout", "hidden_items"]), spec_text_array(spec_clean_list(strings_view(s.ui_activity_bar_hidden_items@), 64)), spec_keys(seq!["ui", "left_panel_collapsed"]));
    assert("panel_open_mode"@.len() != "left_panel_collapsed"@.len());
    assert(spec_keys(seq!["ui", "panel_open_mode"])[1] != spec_keys(seq!["ui", "left_panel_collapsed"])[1]);
    lemma_set_path_frame(d17, spec_keys(seq!["ui", "panel_open_mode"]), JsonModel::Str(spec_panel_open_mode(s.ui_panel_open_mode@), None), spec_keys(seq!["ui", "left_panel_collapsed"]));
    assert("panel_multi_open"@.len() != "left_panel_collapsed"@.len());
    assert(spec_keys(seq!["ui", "panel_multi_open"])[1] != spec_keys(seq!["ui", "left_panel_collapsed"])[1]);
    lemma_set_path_frame(d18, spec_keys(seq!["ui", "panel_multi_open"]), JsonModel::Bool(s.ui_panel_multi_open), spec_keys(seq!["ui", "left_panel_collapsed"]));
    assert("appearance"@.len() != "ui"@.len());
    assert(spec_keys(seq!["appearance", "panel_multi_open"])[0] != spec_keys(seq!["ui", "left_panel_collapsed"])[0]);
    lemma_set_path_frame(d19, spec_keys(seq!["appearance", "panel_multi_open"]), JsonModel::Bool(s.ui_panel_multi_open), spec_keys(seq!["ui", "left_panel_collapsed"]));
    assert("left_open_panels"@.len() != "left_panel_collapsed"@.len());
    assert(spec_keys(seq!["ui", "left_open_panels"])[1] != spec_keys(seq!["ui", "left_panel_collapsed"])[1]);
    lemma_set_path_frame(d20, spec_keys(seq!["ui", "left_open_panels"]), spec_text_array(spec_clean_list(strings_view(s.ui_left_open_panels@), 32)), spec_keys(seq!["ui", "left_panel_collapsed"]));
    assert("right_open_panels"@.len() != "left_panel_collapsed"@.len());
    assert(spec_keys(seq!["ui", "right_open_panels"])[1] != spec_keys(seq!["ui", "left_panel_collapsed"])[1]);
    lemma_set_path_frame(d21, spec_keys(seq!["ui", "right_open_panels"]), spec_text_array(spec_clean_list(strings_view(s.ui_right_open_panels@), 32)), spec_keys(seq!["ui", "left_panel_collapsed"]));
    assert("panel_stack_sizes"@.len() != "left_panel_collapsed"@.len());
    assert(spec_keys(seq!["ui", "panel_stack_sizes"])[1] != spec_keys(seq!["ui", "left_panel_collapsed"])[1]);
    lemma_set_path_frame(d22, spec_keys(seq!["ui", "panel_stack_sizes"]), JsonModel::Object(spec_count_map_members(counts_view(s.ui_panel_stack_sizes@))), spec_keys(seq!["ui", "left_panel_collapsed"]));
    assert("saved_connections_sort_mode"@.len() != "left_panel_collapsed"@.len());
    assert(spec_keys(seq!["ui", "saved_connections_sort_mode"])[1] != spec_keys(seq!["ui", "left_panel_collapsed"])[1]);
    lemma_set_path_frame(d23, spec_keys(seq!["ui", "saved_connections_sort_mode"]), JsonModel::Str(spec_saved_connections_sort_mode(s.ui_saved_connections_sort_mode@), None), spec_keys(seq!["ui", "left_panel_collapsed"]));
    assert("saved_connections_expanded_group_ids"@.len() != "left_panel_collapsed"@.len());
    assert(spec_keys(seq!["ui", "saved_connections_expanded_group_ids"])[1] != spec_keys(seq!["ui", "left_panel_collapsed"])[1]);
    lemma_set_path_frame(d24, spec_keys(seq!["ui", "saved_connections_expanded_group_ids"]), spec_text_array(spec_clean_list(strings_view(s.ui_saved_connections_expanded_group_ids@), 512)), spec_keys(seq!["ui", "left_panel_collapsed"]));
    assert("start_workspace_mode"@[0] != "left_panel_collapsed"@[0]);
    assert(spec_keys(seq!["ui", "start_workspace_mode"])[1] != spec_keys(seq!["ui", "left_panel_collapsed"])[1]);
    lemma_set_path_frame(d25, spec_keys(seq!["ui", "start_workspace_mode"]), JsonModel::Str(spec_start_workspace_mode(s.ui_start_workspace_mode@), None), spec_keys(seq!["ui", "left_panel_collapsed"]));
    assert("asset_sort_key"@.len() != "left_panel_collapsed"@.len());
    assert(spec_keys(seq!["ui", "asset_sort_key"])[1] != spec_keys(seq!["ui", "left_panel_collapsed"])[1]);
    lemma_set_path_frame(d26, spec_keys(seq!["ui", "asset_sort_key"]), spec_optional_trimmed_value(s.ui_asset_sort_key), spec_keys(seq!["ui", "left_panel_collapsed"]));
    assert("asset_sort_direction"@[0] != "left_panel_collapsed"@[0]);
    assert(spec_keys(seq!["ui", "asset_sort_direction"])[1] != spec_keys(seq!["ui", "left_panel_collapsed"])[1]);
    lemma_set_path_frame(d27, spec_keys(seq!["ui", "asset_sort_direction"]), spec_optional_text_or_null(spec_asset_sort_direction(opt_view(s.ui_asset_sort_direction))), spec_keys(seq!["ui", "left_panel_collapsed"]));
    assert("header_status_mode"@.len() != "left_panel_collapsed"@.len());
    assert(spec_keys(seq!["ui", "header_status_mode"])[1] != spec_keys(seq!["ui", "left_panel_collapsed"])[1]);
    lemma_set_path_frame(d28, spec_keys(seq!["ui", "header_status_mode"]), JsonModel::Str(spec_header_status_setting(s.ui_header_status_mode@), None), spec_keys(seq!["ui", "left_panel_collapsed"]));
    assert("header_status_visible"@.len() != "left_panel_collapsed"@.len());
    assert(spec_keys(seq!["ui", "header_status_visible"])[1] != spec_keys(seq!["ui", "left_panel_collapsed"])[1]);
    lemma_set_path_frame(d29, spec_keys(seq!["ui", "header_status_visible"]), JsonModel::Bool(s.ui_header_status_visible), spec_keys(seq!["ui", "left_panel_collapsed"]));
}

#[verifier::spinoff_prover]
proof fn lemma_saved_ui_layout_keeps_ui_right_panel_collapsed(d: JsonModel, s: AppSettingsSummary)
    ensures
        spec_json_path(spec_saved_ui_layout(d, s), spec_keys(seq!["ui", "right_panel_collapsed"])) == Some(JsonModel::Bool(s.ui_right_panel_collapsed)),
{
    reveal_strlit("activity_bar_layout");
    reveal_strlit("appearance");
    reveal_strlit("asset_sort_direction");
    reveal_strlit("asset_sort_key");
    reveal_strlit("header_status_mode");
    reveal_strlit("header_status_visible");
    reveal_strlit("left_open_panels");
    reveal_strlit("panel_multi_open");
    reveal_strlit("panel_open_mode");
    reveal_strlit("panel_stack_sizes");
    reveal_strlit("right_open_panels");
    reveal_strlit("right_panel_collapsed");
    reveal_strlit("saved_connections_expanded_group_ids");
    reveal_strlit("saved_connections_sort_mode");
    reveal_strlit("start_workspace_mode");
    reveal_strlit("ui");
    let d1 = spec_set_path(d, spec_keys(seq!["ui", "left_width"]), JsonModel::Number(JsonNumber::PosInt(spec_clamp(s.ui_left_panel_width as int, 160, 720) as u64)));
    let d2 = spec_set_path(d1, spec_keys(seq!["ui", "right_width"]), JsonModel::Number(JsonNumber::PosInt(spec_clamp(s.ui_right_panel_width as int, 200, 720) as u64)));
    let d3 = spec_set_path(d2, spec_keys(seq!["ui", "transfer_height"]), JsonModel::Number(JsonNumber::PosInt(spec_clamp(s.ui_transfer_height as int, 60, 600) as u64)));
    let d4 = spec_set_path(d3, spec_keys(seq!["ui", "quick_cmd_height"]), JsonModel::Number(JsonNumber::PosInt(spec_clamp(s.ui_quick_cmd_height as int, 36, 520) as u64)));
    let d5 = spec_set_path(d4, spec_keys(seq!["ui", "show_quick_cmd_bar"]), JsonModel::Bool(s.ui_quick_cmd_visible));
    let d6 = spec_set_path(d5, spec_keys(seq!["ui", "serial_send_height"]), JsonModel::Number(JsonNumber::PosInt(spec_clamp(s.ui_serial_send_height as int, 60, 520) as u64)));
    let d7 = spec_set_path(d6, spec_keys(seq!["ui", "show_serial_send_panel"]), JsonModel::Bool(s.ui_serial_send_visible));
    let d8 = spec_set_path(d7, spec_keys(seq!["ui", "active_left_panel"]), spec_optional_panel_value(s.ui_active_left_panel));
    let d9 = spec_set_path(d8, spec_keys(seq!["ui", "active_right_panel"]), spec_optional_panel_value(s.ui_active_right_panel));
    let d10 = spec_set_path(d9, spec_keys(seq!["ui", "left_panel_collapsed"]), JsonModel::Bool(s.ui_left_panel_collapsed));
    let d11 = spec_set_path(d10, spec_keys(seq!["ui", "right_panel_collapsed"]), JsonModel::Bool(s.ui_right_panel_collapsed));
    let d12 = spec_set_path(d11, spec_keys(seq!["ui", "activity_bar_layout", "left_top"]), spec_text_array(spec_clean_list(strings_view(s.ui_activity_bar_left_top@), 32)));
    let d13 = spec_set_path(d12, spec_keys(seq!["ui", "activity_bar_layout", "left_bottom"]), spec_text_array(spec_clean_list(strings_view(s.ui_activity_bar_left_bottom@), 32)));
    let d14 = spec_set_path(d13, spec_keys(seq!["ui", "activity_bar_layout", "right_top"]), spec_text_array(spec_clean_list(strings_view(s.ui_activity_bar_right_top@), 32)));
    let d15 = spec_set_path(d14, spec_keys(seq!["ui", "activity_bar_layout", "right_bottom"]), spec_text_array(spec_clean_list(strings_view(s.ui_activity_bar_right_bottom@), 32)));
    let d16 = spec_set_path(d15, spec_keys(seq!["ui", "activity_bar_layout", "show_labels"]), JsonModel::Bool(s.ui_activity_bar_show_labels));
    let d17 = spec_set_path(d16, spec_keys(seq!["ui", "activity_bar_layout", "hidden_items"]), spec_text_array(spec_clean_list(strings_view(s.ui_activity_bar_hidden_items@), 64)));
    let d18 = spec_set_path(d17, spec_keys(seq!["ui", "panel_open_mode"]), JsonModel::Str(spec_panel_open_mode(s.ui_panel_open_mode@), None));
    let d19 = spec_set_path(d18, spec_keys(seq!["ui", "panel_multi_open"]), JsonModel::Bool(s.ui_panel_multi_open));
    let d20 = spec_set_path(d19, spec_keys(seq!["appearance", "panel_multi_open"]), JsonModel::Bool(s.ui_panel_multi_open));
    let d21 = spec_set_path(d20, spec_keys(seq!["ui", "left_open_panels"]), spec_text_array(spec_clean_list(strings_view(s.ui_left_open_panels@), 32)));
    let d22 = spec_set_path(d21, spec_keys(seq!["ui", "right_open_panels"]), spec_text_array(spec_clean_list(strings_view(s.ui_right_open_panels@), 32)));
    let d23 = spec_set_path(d22, spec_keys(seq!["ui", "panel_stack_sizes"]), JsonModel::Object(spec_count_map_members(counts_view(s.ui_panel_stack_sizes@))));
    let d24 = spec_set_path(d23, spec_keys(seq!["ui", "saved_connections_sort_mode"]), JsonModel::Str(spec_saved_connections_sort_mode(s.ui_saved_connections_sort_mode@), None));
    let d25 = spec_set_path(d24, spec_keys(seq!["ui", "saved_connections_expanded_group_ids"]), spec_text_array(spec_clean_list(strings_view(s.ui_saved_connections_expanded_group_ids@), 512)));
    let d26 = spec_set_path(d25, spec_keys(seq!["ui", "start_workspace_mode"]), JsonModel::Str(spec_start_workspace_mode(s.ui_start_workspace_mode@), None));
    let d27 = spec_set_path(d26, spec_keys(seq!["ui", "asset_sort_key"]), spec_optional_trimmed_value(s.ui_asset_sort_key));
    let d28 = spec_set_path(d27, spec_keys(seq!["ui", "asset_sort_direction"]), spec_optional_text_or_null(spec_asset_sort_direction(opt_view(s.ui_asset_sort_direction))));
    let d29 = spec_set_path(d28, spec_keys(seq!["ui", "header_status_mode"]), JsonModel::Str(spec_header_status_setting(s.ui_header_status_mode@), None));
    let d30 = spec_set_path(d29, spec_keys(seq!["ui", "header_status_visible"]), JsonModel::Bool(s.ui_header_status_visible));
    assert(spec_saved_ui_layout_part1(d, s) == d8);
    assert(spec_saved_ui_layout_part2(d8, s) == d16);
    assert(spec_saved_ui_layout_part3(d16, s) == d24);
    assert(spec_saved_ui_layout_part4(d24, s) == d30);
    assert(spec_saved_ui_layout(d, s) == d30);
    lemma_set_path_then_read(d10, spec_keys(seq!["ui", "right_panel_collapsed"]), JsonModel::Bool(s.ui_right_panel_collapsed));
    assert("activity_bar_layout"@.len() != "right_panel_collapsed"@.len());
    assert(spec_keys(seq!["ui", "activity_bar_layout", "left_top"])[1] != spec_keys(seq!["ui", "right_panel_collapsed"])[1]);
    lemma_set_path_frame(d11, spec_keys(seq!["ui", "activity_bar_layout", "left_top"]), spec_text_array(spec_clean_list(strings_view(s.ui_activity_bar_left_top@), 32)), spec_keys(seq!["ui", "right_panel_collapsed"]));
    assert("activity_bar_layout"@.len() != "right_panel_collapsed"@.len());
    assert(spec_keys(seq!["ui", "activity_bar_layout", "left_bottom"])[1] != spec_keys(seq!["ui", "right_panel_collapsed"])[1]);
    lemma_set_path_frame(d12, spec_keys(seq!["ui", "activity_bar_layout", "left_bottom"]), spec_text_array(spec_clean_list(strings_view(s.ui_activity_bar_left_bottom@), 32)), spec_keys(seq!["ui", "right_panel_collapsed"]));
    assert("activity_bar_layout"@.len() != "right_panel_collapsed"@.len());
    assert(spec_keys(seq!["ui", "activity_bar_layout", "right_top"])[1] != spec_keys(seq!["ui", "right_panel_collapsed"])[1]);
    lemma_set_path_frame(d13, spec_keys(seq!["ui", "activity_bar_layout", "right_top"]), spec_text_array(spec_clean_list(strings_view(s.ui_activity_bar_right_top@), 32)), spec_keys(seq!["ui", "right_panel_collapsed"]));
    assert("activity_bar_layout"@.len() != "right_panel_collapsed"@.len());
    assert(spec_keys(seq!["ui", "activity_bar_layout", "right_bottom"])[1] != spec_keys(seq!["ui", "right_panel_collapsed"])[1]);
    lemma_set_path_frame(d14, spec_keys(seq!["ui", "activity_bar_layout", "right_bottom"]), spec_text_array(spec_clean_list(strings_view(s.ui_activity_bar_right_bottom@), 32)), spec_keys(seq!["ui", "right_panel_collapsed"]));
    assert("activity_bar_layout"@.len() != "right_panel_collapsed"@.len());
    assert(spec_keys(seq!["ui", "activity_bar_layout", "show_labels"])[1] != spec_keys(seq!["ui", "right_panel_collapsed"])[1]);
    lemma_set_path_frame(d15, spec_keys(seq!["ui", "activity_bar_layout", "show_labels"]), JsonModel::Bool(s.ui_activity_bar_show_labels), spec_keys(seq!["ui", "right_panel_collapsed"]));
    assert("activity_bar_layout"@.len() != "right_panel_collapsed"@.len());
    assert(spec_keys(seq!["ui", "activity_bar_layout", "hidden_items"])[1] != spec_keys(seq!["ui", "right_panel_collapsed"])[1]);
    lemma_set_path_frame(d16, spec_keys(seq!["ui", "activity_bar_layout", "hidden_items"]), spec_text_array(spec_clean_list(strings_view(s.ui_activity_bar_hidden_items@), 64)), spec_keys(seq!["ui", "right_panel_collapsed"]));
    assert("panel_open_mode"@.len() != "right_panel_collapsed"@.len());
    assert(spec_keys(seq!["ui", "panel_open_mode"])[1] != spec_keys(seq!["ui", "right_panel_collapsed"])[1]);
    lemma_set_path_frame(d17, spec_keys(seq!["ui", "panel_open_mode"]), JsonModel::Str(spec_panel_open_mode(s.ui_panel_open_mode@), None), spec_keys(seq!["ui", "right_panel_collapsed"]));
    assert("panel_multi_open"@.len() != "right_panel_collapsed"@.len());
    assert(spec_keys(seq!["ui", "panel_multi_open"])[1] != spec_keys(seq!["ui", "right_panel_collapsed"])[1]);
    lemma_set_path_frame(d18, spec_keys(seq!["ui", "panel_multi_open"]), JsonModel::Bool(s.ui_panel_multi_open), spec_keys(seq!["ui", "right_panel_collapsed"]));
    assert("appearance"@.len() != "ui"@.len());
    assert(spec_keys(seq!["appearance", "panel_multi_open"])[0] != spec_keys(seq!["ui", "right_panel_collapsed"])[0]);
    lemma_set_path_frame(d19, spec_keys(seq!["appearance", "panel_multi_open"]), JsonModel::Bool(s.ui_panel_multi_open), spec_keys(seq!["ui", "right_panel_collapsed"]));
    assert("left_open_panels"@.len() != "right_panel_collapsed"@.len());
    assert(spec_keys(seq!["ui", "left_open_panels"])[1] != spec_keys(seq!["ui", "right_panel_collapsed"])[1]);
    lemma_set_path_frame(d20, spec_keys(seq!["ui", "left_open_panels"]), spec_text_array(spec_clean_list(strings_view(s.ui_left_open_panels@), 32)), spec_keys(seq!["ui", "right_panel_collapsed"]));
    assert("right_open_panels"@.len() != "right_panel_collapsed"@.len());
    assert(spec_keys(seq!["ui", "right_open_panels"])[1] != spec_keys(seq!["ui", "right_panel_collapsed"])[1]);
    lemma_set_path_frame(d21, spec_keys(seq!["ui", "right_open_panels"]), spec_text_array(spec_clean_list(strings_view(s.ui_right_open_panels@), 32)), spec_keys(seq!["ui", "right_panel_collapsed"]));
    assert("panel_stack_sizes"@.len() != "right_panel_collapsed"@.len());
    assert(spec_keys(seq!["ui", "panel_stack_sizes"])[1] != spec_keys(seq!["ui", "right_panel_collapsed"])[1]);
    lemma_set_path_frame(d22, spec_keys(seq!["ui", "panel_stack_sizes"]), JsonModel::Object(spec_count_map_members(counts_view(s.ui_panel_stack_sizes@))), spec_keys(seq!["ui", "right_panel_collapsed"]));
    assert("saved_connections_sort_mode"@.len() != "right_panel_collapsed"@.len());
    assert(spec_keys(seq!["ui", "saved_connections_sort_mode"])[1] != spec_keys(seq!["ui", "right_panel_collapsed"])[1]);
    lemma_set_path_frame(d23, spec_keys(seq!["ui", "saved_connections_sort_mode"]), JsonModel::Str(spec_saved_connections_sort_mode(s.ui_saved_connections_sort_mode@), None), spec_keys(seq!["ui", "right_panel_collapsed"]));
    assert("saved_connections_expanded_group_ids"@.len() != "right_panel_collapsed"@.len());
    assert(spec_keys(seq!["ui", "saved_connections_expanded_group_ids"])[1] != spec_keys(seq!["ui", "right_panel_collapsed"])[1]);
    lemma_set_path_frame(d24, spec_keys(seq!["ui", "saved_connections_expanded_group_ids"]), spec_text_array(spec_clean_list(strings_view(s.ui_saved_connections_expanded_group_ids@), 512)), spec_keys(seq!["ui", "right_panel_collapsed"]));
    assert("start_workspace_mode"@.len() != "right_panel_collapsed"@.len());
    assert(spec_keys(seq!["ui", "start_workspace_mode"])[1] != spec_keys(seq!["ui", "right_panel_collapsed"])[1]);
    lemma_set_path_frame(d25, spec_keys(seq!["ui", "start_workspace_mode"]), JsonModel::Str(spec_start_workspace_mode(s.ui_start_workspace_mode@), None), spec_keys(seq!["ui", "right_panel_collapsed"]));
    assert("asset_sort_key"@.len() != "right_panel_collapsed"@.len());
    assert(spec_keys(seq!["ui", "asset_sort_key"])[1] != spec_keys(seq!["ui", "right_panel_collapsed"])[1]);
    lemma_set_path_frame(d26, spec_keys(seq!["ui", "asset_sort_key"]), spec_optional_trimmed_value(s.ui_asset_sort_key), spec_keys(seq!["ui", "right_panel_collapsed"]));
    assert("asset_sort_direction"@.len() != "right_panel_collapsed"@.len());
    assert(spec_keys(seq!["ui", "asset_sort_direction"])[1] != spec_keys(seq!["ui", "right_panel_collapsed"])[1]);
    lemma_set_path_frame(d27, spec_keys(seq!["ui", "asset_sort_direction"]), spec_optional_text_or_null(spec_asset_sort_direction(opt_view(s.ui_asset_sort_direction))), spec_keys(seq!["ui", "right_panel_collapsed"]));
    assert("header_status_mode"@.len() != "right_panel_collapsed"@.len());
    assert(spec_keys(seq!["ui", "header_status_mode"])[1] != spec_keys(seq!["ui", "right_panel_collapsed"])[1]);
    lemma_set_path_frame(d28, spec_keys(seq!["ui", "header_status_mode"]), JsonModel::Str(spec_header_status_setting(s.ui_header_status_mode@), None), spec_keys(seq!["ui", "right_panel_collapsed"]));
    assert("header_status_visible"@[0] != "right_panel_collapsed"@[0]);
    assert(spec_keys(seq!["ui", "header_status_visible"])[1] != spec_keys(seq!["ui", "right_panel_collapsed"])[1]);
    lemma_set_path_frame(d29, spec_keys(seq!["ui", "header_status_visible"]), JsonModel::Bool(s.ui_header_status_visible), spec_keys(seq!["ui", "right_panel_collapsed"]));
}

#[verifier::spinoff_prover]
proof fn lemma_saved_ui_layout_keeps_ui_activity_bar_layout_left_top(d: JsonModel, s: AppSettingsSummary)
    ensures
        spec_json_path(spec_saved_ui_layout(d, s), spec_keys(seq!["ui", "activity_bar_layout", "left_top"])) == Some(spec_text_array(spec_clean_list(strings_view(s.ui_activity_bar_left_top@), 32))),
{
    reveal_strlit("activity_bar_layout");
    reveal_strlit("appearance");
    reveal_strlit("asset_sort_direction");
    reveal_strlit("asset_sort_key");
    reveal_strlit("header_status_mode");
    reveal_strlit("header_status_visible");
    reveal_strlit("hidden_items");
    reveal_strlit("left_bottom");
    reveal_strlit("left_open_panels");
    reveal_strlit("left_top");
    reveal_strlit("panel_multi_open");
    reveal_strlit("panel_open_mode");
    reveal_strlit("panel_stack_sizes");
    reveal_strlit("right_bottom");
    reveal_strlit("right_open_panels");
    reveal_strlit("right_top");
    reveal_strlit("saved_connections_expanded_group_ids");
    reveal_strlit("saved_connections_sort_mode");
    reveal_strlit("show_labels");
    reveal_strlit("start_workspace_mode");
    reveal_strlit("ui");
    let d1 = spec_set_path(d, spec_keys(seq!["ui", "left_width"]), JsonModel::Number(JsonNumber::PosInt(spec_clamp(s.ui_left_panel_width as int, 160, 720) as u64)));
    let d2 = spec_set_path(d1, spec_keys(seq!["ui", "right_width"]), JsonModel::Number(JsonNumber::PosInt(spec_clamp(s.ui_right_panel_width as int, 200, 720) as u64)));
    let d3 = spec_set_path(d2, spec_keys(seq!["ui", "transfer_height"]), JsonModel::Number(JsonNumber::PosInt(spec_clamp(s.ui_transfer_height as int, 60, 600) as u64)));
    let d4 = spec_set_path(d3, spec_keys(seq!["ui", "quick_cmd_height"]), JsonModel::Number(JsonNumber::PosInt(spec_clamp(s.ui_quick_cmd_height as int, 36, 520) as u64)));
    let d5 = spec_set_path(d4, spec_keys(seq!["ui", "show_quick_cmd_bar"]), JsonModel::Bool(s.ui_quick_cmd_visible));
    let d6 = spec_set_path(d5, spec_keys(seq!["ui", "serial_send_height"]), JsonModel::Number(JsonNumber::PosInt(spec_clamp(s.ui_serial_send_height as int, 60, 520) as u64)));
    let d7 = spec_set_path(d6, spec_keys(seq!["ui", "show_serial_send_panel"]), JsonModel::Bool(s.ui_serial_send_visible));
    let d8 = spec_set_path(d7, spec_keys(seq!["ui", "active_left_panel"]), spec_optional_panel_value(s.ui_active_left_panel));
    let d9 = spec_set_path(d8, spec_keys(seq!["ui", "active_right_panel"]), spec_optional_panel_value(s.ui_active_right_panel));
    let d10 = spec_set_path(d9, spec_keys(seq!["ui", "left_panel_collapsed"]), JsonModel::Bool(s.ui_left_panel_collapsed));
    let d11 = spec_set_path(d10, spec_keys(seq!["ui", "right_panel_collapsed"]), JsonModel::Bool(s.ui_right_panel_collapsed));
    let d12 = spec_set_path(d11, spec_keys(seq!["ui", "activity_bar_layout", "left_top"]), spec_text_array(spec_clean_list(strings_view(s.ui_activity_bar_left_top@), 32)));
    let d13 = spec_set_path(d12, spec_keys(seq!["ui", "activity_bar_layout", "left_bottom"]), spec_text_array(spec_clean_list(strings_view(s.ui_activity_bar_left_bottom@), 32)));
    let d14 = spec_set_path(d13, spec_keys(seq!["ui", "activity_bar_layout", "right_top"]), spec_text_array(spec_clean_list(strings_view(s.ui_activity_bar_right_top@), 32)));
    let d15 = spec_set_path(d14, spec_keys(seq!["ui", "activity_bar_layout", "right_bottom"]), spec_text_array(spec_clean_list(strings_view(s.ui_activity_bar_right_bottom@), 32)));
    let d16 = spec_set_path(d15, spec_keys(seq!["ui", "activity_bar_layout", "show_labels"]), JsonModel::Bool(s.ui_activity_bar_show_labels));
    let d17 = spec_set_path(d16, spec_keys(seq!["ui", "activity_bar_layout", "hidden_items"]), spec_text_array(spec_clean_list(strings_view(s.ui_activity_bar_hidden_items@), 64)));
    let d18 = spec_set_path(d17, spec_keys(seq!["ui", "panel_open_mode"]), JsonModel::Str(spec_panel_open_mode(s.ui_panel_open_mode@), None));
    let d19 = spec_set_path(d18, spec_keys(seq!["ui", "panel_multi_open"]), JsonModel::Bool(s.ui_panel_multi_open));
    let d20 = spec_set_path(d19, spec_keys(seq!["appearance", "panel_multi_open"]), JsonModel::Bool(s.ui_panel_multi_open));
    let d21 = spec_set_path(d20, spec_keys(seq!["ui", "left_open_panels"]), spec_text_array(spec_clean_list(strings_view(s.ui_left_open_panels@), 32)));
    let d22 = spec_set_path(d21, spec_keys(seq!["ui", "right_open_panels"]), spec_text_array(spec_clean_list(strings_view(s.ui_right_open_panels@), 32)));
    let d23 = spec_set_path(d22, spec_keys(seq!["ui", "panel_stack_sizes"]), JsonModel::Object(spec_count_map_members(counts_view(s.ui_panel_stack_sizes@))));
    let d24 = spec_set_path(d23, spec_keys(seq!["ui", "saved_connections_sort_mode"]), JsonModel::Str(spec_saved_connections_sort_mode(s.ui_saved_connections_sort_mode@), None));
    let d25 = spec_set_path(d24, spec_keys(seq!["ui", "saved_connections_expanded_group_ids"]), spec_text_array(spec_clean_list(strings_view(s.ui_saved_connections_expanded_group_ids@), 512)));
    let d26 = spec_set_path(d25, spec_keys(seq!["ui", "start_workspace_mode"]), JsonModel::Str(spec_start_workspace_mode(s.ui_start_workspace_mode@), None));
    let d27 = spec_set_path(d26, spec_keys(seq!["ui", "asset_sort_key"]), spec_optional_trimmed_value(s.ui_asset_sort_key));
    let d28 = spec_set_path(d27, spec_keys(seq!["ui", "asset_sort_direction"]), spec_optional_text_or_null(spec_asset_sort_direction(opt_view(s.ui_asset_sort_direction))));
    let d29 = spec_set_path(d28, spec_keys(seq!["ui", "header_status_mode"]), JsonModel::Str(spec_header_status_setting(s.ui_header_status_mode@), None));
    let d30 = spec_set_path(d29, spec_keys(seq!["ui", "header_status_visible"]), JsonModel::Bool(s.ui_header_status_visible));
    assert(spec_saved_ui_layout_part1(d, s) == d8);
    assert(spec_saved_ui_layout_part2(d8, s) == d16);
    assert(spec_saved_ui_layout_part3(d16, s) == d24);
    assert(spec_saved_ui_layout_part4(d24, s) == d30);
    assert(spec_saved_ui_layout(d, s) == d30);
    lemma_set_path_then_read(d11, spec_keys(seq!["ui", "activity_bar_layout", "left_top"]), spec_text_array(spec_clean_list(strings_view(s.ui_activity_bar_left_top@), 32)));
    assert("left_bottom"@.len() != "left_top"@.len());
    assert(spec_keys(seq!["ui", "activity_bar_layout", "left_bottom"])[2] != spec_keys(seq!["ui", "activity_bar_layout", "left_top"])[2]);
    lemma_set_path_frame(d12, spec_keys(seq!["ui", "activity_bar_layout", "left_bottom"]), spec_text_array(spec_clean_list(strings_view(s.ui_activity_bar_left_bottom@), 32)), spec_keys(seq!["ui", "activity_bar_layout", "left_top"]));
    assert("right_top"@.len() != "left_top"@.len());
    assert(spec_keys(seq!["ui", "activity_bar_layout", "right_top"])[2] != spec_keys(seq!["ui", "activity_bar_layout", "left_top"])[2]);
    lemma_set_path_frame(d13, spec_keys(seq!["ui", "activity_bar_layout", "right_top"]), spec_text_array(spec_clean_list(strings_view(s.ui_activity_bar_right_top@), 32)), spec_keys(seq!["ui", "activity_bar_layout", "left_top"]));
    assert("right_bottom"@.len() != "left_top"@.len());
    assert(spec_keys(seq!["ui", "activity_bar_layout", "right_bottom"])[2] != spec_keys(seq!["ui", "activity_bar_layout", "left_top"])[2]);
    lemma_set_path_frame(d14, spec_keys(seq!["ui", "activity_bar_layout", "right_bottom"]), spec_text_array(spec_clean_list(strings_view(s.ui_activity_bar_right_bottom@), 32)), spec_keys(seq!["ui", "activity_bar_layout", "left_top"]));
    assert("show_labels"@.len() != "left_top"@.len());
    assert(spec_keys(seq!["ui", "activity_bar_layout", "show_labels"])[2] != spec_keys(seq!["ui", "activity_bar_layout", "left_top"])[2]);
    lemma_set_path_frame(d15, spec_keys(seq!["ui", "activity_bar_layout", "show_labels"]), JsonModel::Bool(s.ui_activity_bar_show_labels), spec_keys(seq!["ui", "activity_bar_layout", "left_top"]));
    assert("hidden_items"@.len() != "left_top"@.len());
    assert(spec_keys(seq!["ui", "activity_bar_layout", "hidden_items"])[2] != spec_keys(seq!["ui", "activity_bar_layout", "left_top"])[2]);
    lemma_set_path_frame(d16, spec_keys(seq!["ui", "activity_bar_layout", "hidden_items"]), spec_text_array(spec_clean_list(strings_view(s.ui_activity_bar_hidden_items@), 64)), spec_keys(seq!["ui", "activity_bar_layout", "left_top"]));
    assert("panel_open_mode"@.len() != "activity_bar_layout"@.len());
    assert(spec_keys(seq!["ui", "panel_open_mode"])[1] != spec_keys(seq!["ui", "activity_bar_layout", "left_top"])[1]);
    lemma_set_path_frame(d17, spec_keys(seq!["ui", "panel_open_mode"]), JsonModel::Str(spec_panel_open_mode(s.ui_panel_open_mode@), None), spec_keys(seq!["ui", "activity_bar_layout", "left_top"]));
    assert("panel_multi_open"@.len() != "activity_bar_layout"@.len());
    assert(spec_keys(seq!["ui", "panel_multi_open"])[1] != spec_keys(seq!["ui", "activity_bar_layout", "left_top"])[1]);
    lemma_set_path_frame(d18, spec_keys(seq!["ui", "panel_multi_open"]), JsonModel::Bool(s.ui_panel_multi_open), spec_keys(seq!["ui", "activity_bar_layout", "left_top"]));
    assert("appearance"@.len() != "ui"@.len());
    assert(spec_keys(seq!["appearance", "panel_multi_open"])[0] != spec_keys(seq!["ui", "activity_bar_layout", "left_top"])[0]);
    lemma_set_path_frame(d19, spec_keys(seq!["appearance", "panel_multi_open"]), JsonModel::Bool(s.ui_panel_multi_open), spec_keys(seq!["ui", "activity_bar_layout", "left_top"]));
    assert("left_open_panels"@.len() != "activity_bar_layout"@.len());
    assert(spec_keys(seq!["ui", "left_open_panels"])[1] != spec_keys(seq!["ui", "activity_bar_layout", "left_top"])[1]);
    lemma_set_path_frame(d20, spec_keys(seq!["ui", "left_open_panels"]), spec_text_array(spec_clean_list(strings_view(s.ui_left_open_panels@), 32)), spec_keys(seq!["ui", "activity_bar_layout", "left_top"]));
    assert("right_open_panels"@.len() != "activity_bar_layout"@.len());
    assert(spec_keys(seq!["ui", "right_open_panels"])[1] != spec_keys(seq!["ui", "activity_bar_layout", "left_top"])[1]);
    lemma_set_path_frame(d21, spec_keys(seq!["ui", "right_open_panels"]), spec_text_array(spec_clean_list(strings_view(s.ui_right_open_panels@), 32)), spec_keys(seq!["ui", "activity_bar_layout", "left_top"]));
    assert("panel_stack_sizes"@.len() != "activity_bar_layout"@.len());
    assert(spec_keys(seq!["ui", "panel_stack_sizes"])[1] != spec_keys(seq!["ui", "activity_bar_layout", "left_top"])[1]);
    lemma_set_path_frame(d22, spec_keys(seq!["ui", "panel_stack_sizes"]), JsonModel::Object(spec_count_map_members(counts_view(s.ui_panel_stack_sizes@))), spec_keys(seq!["ui", "activity_bar_layout", "left_top"]));
    assert("saved_connections_sort_mode"@.len() != "activity_bar_layout"@.len());
    assert(spec_keys(seq!["ui", "saved_connections_sort_mode"])[1] != spec_keys(seq!["ui", "activity_bar_layout", "left_top"])[1]);
    lemma_set_path_frame(d23, spec_keys(seq!["ui", "saved_connections_sort_mode"]), JsonModel::Str(spec_saved_connections_sort_mode(s.ui_saved_connections_sort_mode@), None), spec_keys(seq!["ui", "activity_bar_layout", "left_top"]));
    assert("saved_connections_expanded_group_ids"@.len() != "activity_bar_layout"@.len());
    assert(spec_keys(seq!["ui", "saved_connections_expanded_group_ids"])[1] != spec_keys(seq!["ui", "activity_bar_layout", "left_top"])[1]);
    lemma_set_path_frame(d24, spec_keys(seq!["ui", "saved_connections_expanded_group_ids"]), spec_text_array(spec_clean_list(strings_view(s.ui_saved_connections_expanded_group_ids@), 512)), spec_keys(seq!["ui", "activity_bar_layout", "left_top"]));
    assert("start_workspace_mode"@.len() != "activity_bar_layout"@.len());
    assert(spec_keys(seq!["ui", "start_workspace_mode"])[1] != spec_keys(seq!["ui", "activity_bar_layout", "left_top"])[1]);
    lemma_set_path_frame(d25, spec_keys(seq!["ui", "start_workspace_mode"]), JsonModel::Str(spec_start_workspace_mode(s.ui_start_workspace_mode@), None), spec_keys(seq!["ui", "activity_bar_layout", "left_top"]));
    assert("asset_sort_key"@.len() != "activity_bar_layout"@.len());
    assert(spec_keys(seq!["ui", "asset_sort_key"])[1] != spec_keys(seq!["ui", "activity_bar_layout", "left_top"])[1]);
    lemma_set_path_frame(d26, spec_keys(seq!["ui", "asset_sort_key"]), spec_optional_trimmed_value(s.ui_asset_sort_key), spec_keys(seq!["ui", "activity_bar_layout", "left_top"]));
    assert("asset_sort_direction"@.len() != "activity_bar_layout"@.len());
    assert(spec_keys(seq!["ui", "asset_sort_direction"])[1] != spec_keys(seq!["ui", "activity_bar_layout", "left_top"])[1]);
    lemma_set_path_frame(d27, spec_keys(seq!["ui", "asset_sort_direction"]), spec_optional_text_or_null(spec_asset_sort_direction(opt_view(s.ui_asset_sort_direction))), spec_keys(seq!["ui", "activity_bar_layout", "left_top"]));
    assert("header_status_mode"@.len() != "activity_bar_layout"@.len());
    assert(spec_keys(seq!["ui", "header_status_mode"])[1] != spec_keys(seq!["ui", "activity_bar_layout", "left_top"])[1]);
    lemma_set_path_frame(d28, spec_keys(seq!["ui", "header_status_mode"]), JsonModel::Str(spec_header_status_setting(s.ui_header_status_mode@), None), spec_keys(seq!["ui", "activity_bar_layout", "left_top"]));
    assert("header_status_visible"@.len() != "activity_bar_layout"@.len());
    assert(spec_keys(seq!["ui", "header_status_visible"])[1] != spec_keys(seq!["ui", "activity_bar_layout", "left_top"])[1]);
    lemma_set_path_frame(d29, spec_keys(seq!["ui", "header_status_visible"]), JsonModel::Bool(s.ui_header_status_visible), spec_keys(seq!["ui", "activity_bar_layout", "left_top"]));
}

#[verifier::spinoff_prover]
proof fn lemma_saved_ui_layout_keeps_ui_activity_bar_layout_left_bottom(d: JsonModel, s: AppSettingsSummary)
    ensures
        spec_json_path(spec_saved_ui_layout(d, s), spec_keys(seq!["ui", "activity_bar_layout", "left_bottom"])) == Some(spec_text_array(spec_clean_list(strings_view(s.ui_activity_bar_left_bottom@), 32))),
{
    reveal_strlit("activity_bar_layout");
    reveal_strlit("appearance");
    reveal_strlit("asset_sort_direction");
    reveal_strlit("asset_sort_key");
    reveal_strlit("header_status_mode");
    reveal_strlit("header_status_visible");
    reveal_strlit("hidden_items");
    reveal_strlit("left_bottom");
    reveal_strlit("left_open_panels");
    reveal_strlit("panel_multi_open");
    reveal_strlit("panel_open_mode");
    reveal_strlit("panel_stack_sizes");
    reveal_strlit("right_bottom");
    reveal_strlit("right_open_panels");
    reveal_strlit("right_top");
    reveal_strlit("saved_connections_expanded_group_ids");
    reveal_strlit("saved_connections_sort_mode");
    reveal_strlit("show_labels");
    reveal_strlit("start_workspace_mode");
    reveal_strlit("ui");
    let d1 = spec_set_path(d, spec_keys(seq!["ui", "left_width"]), JsonModel::Number(JsonNumber::PosInt(spec_clamp(s.ui_left_panel_width as int, 160, 720) as u64)));
    let d2 = spec_set_path(d1, spec_keys(seq!["ui", "right_width"]), JsonModel::Number(JsonNumber::PosInt(spec_clamp(s.ui_right_panel_width as int, 200, 720) as u64)));
    let d3 = spec_set_path(d2, spec_keys(seq!["ui", "transfer_height"]), JsonModel::Number(JsonNumber::PosInt(spec_clamp(s.ui_transfer_height as int, 60, 600) as u64)));
    let d4 = spec_set_path(d3, spec_keys(seq!["ui", "quick_cmd_height"]), JsonModel::Number(JsonNumber::PosInt(spec_clamp(s.ui_quick_cmd_height as int, 36, 520) as u64)));
    let d5 = spec_set_path(d4, spec_keys(seq!["ui", "show_quick_cmd_bar"]), JsonModel::Bool(s.ui_quick_cmd_visible));
    let d6 = spec_set_path(d5, spec_keys(seq!["ui", "serial_send_height"]), JsonModel::Number(JsonNumber::PosInt(spec_clamp(s.ui_serial_send_height as int, 60, 520) as u64)));
    let d7 = spec_set_path(d6, spec_keys(seq!["ui", "show_serial_send_panel"]), JsonModel::Bool(s.ui_serial_send_visible));
    let d8 = spec_set_path(d7, spec_keys(seq!["ui", "active_left_panel"]), spec_optional_panel_value(s.ui_active_left_panel));
    let d9 = spec_set_path(d8, spec_keys(seq!["ui", "active_right_panel"]), spec_optional_panel_value(s.ui_active_right_panel));
    let d10 = spec_set_path(d9, spec_keys(seq!["ui", "left_panel_collapsed"]), JsonModel::Bool(s.ui_left_panel_collapsed));
    let d11 = spec_set_path(d10, spec_keys(seq!["ui", "right_panel_collapsed"]), JsonModel::Bool(s.ui_right_panel_collapsed));
    let d12 = spec_set_path(d11, spec_keys(seq!["ui", "activity_bar_layout", "left_top"]), spec_text_array(spec_clean_list(strings_view(s.ui_activity_bar_left_top@), 32)));
    let d13 = spec_set_path(d12, spec_keys(seq!["ui", "activity_bar_layout", "left_bottom"]), spec_text_array(spec_clean_list(strings_view(s.ui_activity_bar_left_bottom@), 32)));
    let d14 = spec_set_path(d13, spec_keys(seq!["ui", "activity_bar_layout", "right_top"]), spec_text_array(spec_clean_list(strings_view(s.ui_activity_bar_right_top@), 32)));
    let d15 = spec_set_path(d14, spec_keys(seq!["ui", "activity_bar_layout", "right_bottom"]), spec_text_array(spec_clean_list(strings_view(s.ui_activity_bar_right_bottom@), 32)));
    let d16 = spec_set_path(d15, spec_keys(seq!["ui", "activity_bar_layout", "show_labels"]), JsonModel::Bool(s.ui_activity_bar_show_labels));
    let d17 = spec_set_path(d16, spec_keys(seq!["ui", "activity_bar_layout", "hidden_items"]), spec_text_array(spec_clean_list(strings_view(s.ui_activity_bar_hidden_items@), 64)));
    let d18 = spec_set_path(d17, spec_keys(seq!["ui", "panel_open_mode"]), JsonModel::Str(spec_panel_open_mode(s.ui_panel_open_mode@), None));
    let d19 = spec_set_path(d18, spec_keys(seq!["ui", "panel_multi_open"]), JsonModel::Bool(s.ui_panel_multi_open));
    let d20 = spec_set_path(d19, spec_keys(seq!["appearance", "panel_multi_open"]), JsonModel::Bool(s.ui_panel_multi_open));
    let d21 = spec_set_path(d20, spec_keys(seq!["ui", "left_open_panels"]), spec_text_array(spec_clean_list(strings_view(s.ui_left_open_panels@), 32)));
    let d22 = spec_set_path(d21, spec_keys(seq!["ui", "right_open_panels"]), spec_text_array(spec_clean_list(strings_view(s.ui_right_open_panels@), 32)));
    let d23 = spec_set_path(d22, spec_keys(seq!["ui", "panel_stack_sizes"]), JsonModel::Object(spec_count_map_members(counts_view(s.ui_panel_stack_sizes@))));
    let d24 = spec_set_path(d23, spec_keys(seq!["ui", "saved_connections_sort_mode"]), JsonModel::Str(spec_saved_connections_sort_mode(s.ui_saved_connections_sort_mode@), None));
    let d25 = spec_set_path(d24, spec_keys(seq!["ui", "saved_connections_expanded_group_ids"]), spec_text_array(spec_clean_list(strings_view(s.ui_saved_connections_expanded_group_ids@), 512)));
    let d26 = spec_set_path(d25, spec_keys(seq!["ui", "start_workspace_mode"]), JsonModel::Str(spec_start_workspace_mode(s.ui_start_workspace_mode@), None));
    let d27 = spec_set_path(d26, spec_keys(seq!["ui", "asset_sort_key"]), spec_optional_trimmed_value(s.ui_asset_sort_key));
    let d28 = spec_set_path(d27, spec_keys(seq!["ui", "asset_sort_direction"]), spec_optional_text_or_null(spec_asset_sort_direction(opt_view(s.ui_asset_sort_direction))));
    let d29 = spec_set_path(d28, spec_keys(seq!["ui", "header_status_mode"]), JsonModel::Str(spec_header_status_setting(s.ui_header_status_mode@), None));
    let d30 = spec_set_path(d29, spec_keys(seq!["ui", "header_status_visible"]), JsonModel::Bool(s.ui_header_status_visible));
    assert(spec_saved_ui_layout_part1(d, s) == d8);
    assert(spec_saved_ui_layout_part2(d8, s) == d16);
    assert(spec_saved_ui_layout_part3(d16, s) == d24);
    assert(spec_saved_ui_layout_part4(d24, s) == d30);
    assert(spec_saved_ui_layout(d, s) == d30);
    lemma_set_path_then_read(d12, spec_keys(seq!["ui", "activity_bar_layout", "left_bottom"]), spec_text_array(spec_clean_list(strings_view(s.ui_activity_bar_left_bottom@), 32)));
    assert("right_top"@.len() != "left_bottom"@.len());
    assert(spec_keys(seq!["ui", "activity_bar_layout", "right_top"])[2] != spec_keys(seq!["ui", "activity_bar_layout", "left_bottom"])[2]);
    lemma_set_path_frame(d13, spec_keys(seq!["ui", "activity_bar_layout", "right_top"]), spec_text_array(spec_clean_list(strings_view(s.ui_activity_bar_right_top@), 32)), spec_keys(seq!["ui", "activity_bar_layout", "left_bottom"]));
    assert("right_bottom"@.len() != "left_bottom"@.len());
    assert(spec_keys(seq!["ui", "activity_bar_layout", "right_bottom"])[2] != spec_keys(seq!["ui", "activity_bar_layout", "left_bottom"])[2]);
    lemma_set_path_frame(d14, spec_keys(seq!["ui", "activity_bar_layout", "right_bottom"]), spec_text_array(spec_clean_list(strings_view(s.ui_activity_bar_right_bottom@), 32)), spec_keys(seq!["ui", "activity_bar_layout", "left_bottom"]));
    assert("show_labels"@[0] != "left_bottom"@[0]);
    assert(spec_keys(seq!["ui", "activity_bar_layout", "show_labels"])[2] != spec_keys(seq!["ui", "activity_bar_layout", "left_bottom"])[2]);
    lemma_set_path_frame(d15, spec_keys(seq!["ui", "activity_bar_layout", "show_labels"]), JsonModel::Bool(s.ui_activity_bar_show_labels), spec_keys(seq!["ui", "activity_bar_layout", "left_bottom"]));
    assert("hidden_items"@.len() != "left_bottom"@.len());
    assert(spec_keys(seq!["ui", "activity_bar_layout", "hidden_items"])[2] != spec_keys(seq!["ui", "activity_bar_layout", "left_bottom"])[2]);
    lemma_set_path_frame(d16, spec_keys(seq!["ui", "activity_bar_layout", "hidden_items"]), spec_text_array(spec_clean_list(strings_view(s.ui_activity_bar_hidden_items@), 64)), spec_keys(seq!["ui", "activity_bar_layout", "left_bottom"]));
    assert("panel_open_mode"@.len() != "activity_bar_layout"@.len());
    assert(spec_keys(seq!["ui", "panel_open_mode"])[1] != spec_keys(seq!["ui", "activity_bar_layout", "left_bottom"])[1]);
    lemma_set_path_frame(d17, spec_keys(seq!["ui", "panel_open_mode"]), JsonModel::Str(spec_panel_open_mode(s.ui_panel_open_mode@), None), spec_keys(seq!["ui", "activity_bar_layout", "left_bottom"]));
    assert("panel_multi_open"@.len() != "activity_bar_layout"@.len());
    assert(spec_keys(seq!["ui", "panel_multi_open"])[1] != spec_keys(seq!["ui", "activity_bar_layout", "left_bottom"])[1]);
    lemma_set_path_frame(d18, spec_keys(seq!["ui", "panel_multi_open"]), JsonModel::Bool(s.ui_panel_multi_open), spec_keys(seq!["ui", "activity_bar_layout", "left_bottom"]));
    assert("appearance"@.len() != "ui"@.len());
    assert(spec_keys(seq!["appearance", "panel_multi_open"])[0] != spec_keys(seq!["ui", "activity_bar_layout", "left_bottom"])[0]);
    lemma_set_path_frame(d19, spec_keys(seq!["appearance", "panel_multi_open"]), JsonModel::Bool(s.ui_panel_multi_open), spec_keys(seq!["ui", "activity_bar_layout", "left_bottom"]));
    assert("left_open_panels"@.len() != "activity_bar_layout"@.len());
    assert(spec_keys(seq!["ui", "left_open_panels"])[1] != spec_keys(seq!["ui", "activity_bar_layout", "left_bottom"])[1]);
    lemma_set_path_frame(d20, spec_keys(seq!["ui", "left_open_panels"]), spec_text_array(spec_clean_list(strings_view(s.ui_left_open_panels@), 32)), spec_keys(seq!["ui", "activity_bar_layout", "left_bottom"]));
    assert("right_open_panels"@.len() != "activity_bar_layout"@.len());
    assert(spec_keys(seq!["ui", "right_open_panels"])[1] != spec_keys(seq!["ui", "activity_bar_layout", "left_bottom"])[1]);
    lemma_set_path_frame(d21, spec_keys(seq!["ui", "right_open_panels"]), spec_text_array(spec_clean_list(strings_view(s.ui_right_open_panels@), 32)), spec_keys(seq!["ui", "activity_bar_layout", "left_bottom"]));
    assert("panel_stack_sizes"@.len() != "activity_bar_layout"@.len());
    assert(spec_keys(seq!["ui", "panel_stack_sizes"])[1] != spec_keys(seq!["ui", "activity_bar_layout", "left_bottom"])[1]);
    lemma_set_path_frame(d22, spec_keys(seq!["ui", "panel_stack_sizes"]), JsonModel::Object(spec_count_map_members(counts_view(s.ui_panel_stack_sizes@))), spec_keys(seq!["ui", "activity_bar_layout", "left_bottom"]));
    assert("saved_connections_sort_mode"@.len() != "activity_bar_layout"@.len());
    assert(spec_keys(seq!["ui", "saved_connections_sort_mode"])[1] != spec_keys(seq!["ui", "activity_bar_layout", "left_bottom"])[1]);
    lemma_set_path_frame(d23, spec_keys(seq!["ui", "saved_connections_sort_mode"]), JsonModel::Str(spec_saved_connections_sort_mode(s.ui_saved_connections_sort_mode@), None), spec_keys(seq!["ui", "activity_bar_layout", "left_bottom"]));
    assert("saved_connections_expanded_group_ids"@.len() != "activity_bar_layout"@.len());
    assert(spec_keys(seq!["ui", "saved_connections_expanded_group_ids"])[1] != spec_keys(seq!["ui", "activity_bar_layout", "left_bottom"])[1]);
    lemma_set_path_frame(d24, spec_keys(seq!["ui", "saved_connections_expanded_group_ids"]), spec_text_array(spec_clean_list(strings_view(s.ui_saved_connections_expanded_group_ids@), 512)), spec_keys(seq!["ui", "activity_bar_layout", "left_bottom"]));
    assert("start_workspace_mode"@.len() != "activity_bar_layout"@.len());
    assert(spec_keys(seq!["ui", "start_workspace_mode"])[1] != spec_keys(seq!["ui", "activity_bar_layout", "left_bottom"])[1]);
    lemma_set_path_frame(d25, spec_keys(seq!["ui", "start_workspace_mode"]), JsonModel::Str(spec_start_workspace_mode(s.ui_start_workspace_mode@), None), spec_keys(seq!["ui", "activity_bar_layout", "left_bottom"]));
    assert("asset_sort_key"@.len() != "activity_bar_layout"@.len());
    assert(spec_keys(seq!["ui", "asset_sort_key"])[1] != spec_keys(seq!["ui", "activity_bar_layout", "left_bottom"])[1]);
    lemma_set_path_frame(d26, spec_keys(seq!["ui", "asset_sort_key"]), spec_optional_trimmed_value(s.ui_asset_sort_key), spec_keys(seq!["ui", "activity_bar_layout", "left_bottom"]));
    assert("asset_sort_direction"@.len() != "activity_bar_layout"@.len());
    assert(spec_keys(seq!["ui", "asset_sort_direction"])[1] != spec_keys(seq!["ui", "activity_bar_layout", "left_bottom"])[1]);
    lemma_set_path_frame(d27, spec_keys(seq!["ui", "asset_sort_direction"]), spec_optional_text_or_null(spec_asset_sort_direction(opt_view(s.ui_asset_sort_direction))), spec_keys(seq!["ui", "activity_bar_layout", "left_bottom"]));
    assert("header_status_mode"@.len() != "activity_bar_layout"@.len());
    assert(spec_keys(seq!["ui", "header_status_mode"])[1] != spec_keys(seq!["ui", "activity_bar_layout", "left_bottom"])[1]);
    lemma_set_path_frame(d28, spec_keys(seq!["ui", "header_status_mode"]), JsonModel::Str(spec_header_status_setting(s.ui_header_status_mode@), None), spec_keys(seq!["ui", "activity_bar_layout", "left_bottom"]));
    assert("header_status_visible"@.len() != "activity_bar_layout"@.len());
    assert(spec_keys(seq!["ui", "header_status_visible"])[1] != spec_keys(seq!["ui", "activity_bar_layout", "left_bottom"])[1]);
    lemma_set_path_frame(d29, spec_keys(seq!["ui", "header_status_visible"]), JsonModel::Bool(s.ui_header_status_visible), spec_keys(seq!["ui", "activity_bar_layout", "left_bottom"]));
}

#[verifier::spinoff_prover]
proof fn lemma_saved_ui_layout_keeps_ui_activity_bar_layout_right_top(d: JsonModel, s: AppSettingsSummary)
    ensures
        spec_json_path(spec_saved_ui_layout(d, s), spec_keys(seq!["ui", "activity_bar_layout", "right_top"])) == Some(spec_text_array(spec_clean_list(strings_view(s.ui_activity_bar_right_top@), 32))),
{
    reveal_strlit("activity_bar_layout");
    reveal_strlit("appearance");
    reveal_strlit("asset_sort_direction");
    reveal_strlit("asset_sort_key");
    reveal_strlit("header_status_mode");
    reveal_strlit("header_status_visible");
    reveal_strlit("hidden_items");
    reveal_strlit("left_open_panels");
    reveal_strlit("panel_multi_open");
    reveal_strlit("panel_open_mode");
    reveal_strlit("panel_stack_sizes");
    reveal_strlit("right_bottom");
    reveal_strlit("right_open_panels");
    reveal_strlit("right_top");
    reveal_strlit("saved_connections_expanded_group_ids");
    reveal_strlit("saved_connections_sort_mode");
    reveal_strlit("show_labels");
    reveal_strlit("start_workspace_mode");
    reveal_strlit("ui");
    let d1 = spec_set_path(d, spec_keys(seq!["ui", "left_width"]), JsonModel::Number(JsonNumber::PosInt(spec_clamp(s.ui_left_panel_width as int, 160, 720) as u64)));
    let d2 = spec_set_path(d1, spec_keys(seq!["ui", "right_width"]), JsonModel::Number(JsonNumber::PosInt(spec_clamp(s.ui_right_panel_width as int, 200, 720) as u64)));
    let d3 = spec_set_path(d2, spec_keys(seq!["ui", "transfer_height"]), JsonModel::Number(JsonNumber::PosInt(spec_clamp(s.ui_transfer_height as int, 60, 600) as u64)));
    let d4 = spec_set_path(d3, spec_keys(seq!["ui", "quick_cmd_height"]), JsonModel::Number(JsonNumber::PosInt(spec_clamp(s.ui_quick_cmd_height as int, 36, 520) as u64)));
    let d5 = spec_set_path(d4, spec_keys(seq!["ui", "show_quick_cmd_bar"]), JsonModel::Bool(s.ui_quick_cmd_visible));
    let d6 = spec_set_path(d5, spec_keys(seq!["ui", "serial_send_height"]), JsonModel::Number(JsonNumber::PosInt(spec_clamp(s.ui_serial_send_height as int, 60, 520) as u64)));
    let d7 = spec_set_path(d6, spec_keys(seq!["ui", "show_serial_send_panel"]), JsonModel::Bool(s.ui_serial_send_visible));
    let d8 = spec_set_path(d7, spec_keys(seq!["ui", "active_left_panel"]), spec_optional_panel_value(s.ui_active_left_panel));
    let d9 = spec_set_path(d8, spec_keys(seq!["ui", "active_right_panel"]), spec_optional_panel_value(s.ui_active_right_panel));
    let d10 = spec_set_path(d9, spec_keys(seq!["ui", "left_panel_collapsed"]), JsonModel::Bool(s.ui_left_panel_collapsed));
    let d11 = spec_set_path(d10, spec_keys(seq!["ui", "right_panel_collapsed"]), JsonModel::Bool(s.ui_right_panel_collapsed));
    let d12 = spec_set_path(d11, spec_keys(seq!["ui", "activity_bar_layout", "left_top"]), spec_text_array(spec_clean_list(strings_view(s.ui_activity_bar_left_top@), 32)));
    let d13 = spec_set_path(d12, spec_keys(seq!["ui", "activity_bar_layout", "left_bottom"]), spec_text_array(spec_clean_list(strings_view(s.ui_activity_bar_left_bottom@), 32)));
    let d14 = spec_set_path(d13, spec_keys(seq!["ui", "activity_bar_layout", "right_top"]), spec_text_array(spec_clean_list(strings_view(s.ui_activity_bar_right_top@), 32)));
    let d15 = spec_set_path(d14, spec_keys(seq!["ui", "activity_bar_layout", "right_bottom"]), spec_text_array(spec_clean_list(strings_view(s.ui_activity_bar_right_bottom@), 32)));
    let d16 = spec_set_path(d15, spec_keys(seq!["ui", "activity_bar_layout", "show_labels"]), JsonModel::Bool(s.ui_activity_bar_show_labels));
    let d17 = spec_set_path(d16, spec_keys(seq!["ui", "activity_bar_layout", "hidden_items"]), spec_text_array(spec_clean_list(strings_view(s.ui_activity_bar_hidden_items@), 64)));
    let d18 = spec_set_path(d17, spec_keys(seq!["ui", "panel_open_mode"]), JsonModel::Str(spec_panel_open_mode(s.ui_panel_open_mode@), None));
    let d19 = spec_set_path(d18, spec_keys(seq!["ui", "panel_multi_open"]), JsonModel::Bool(s.ui_panel_multi_open));
    let d20 = spec_set_path(d19, spec_keys(seq!["appearance", "panel_multi_open"]), JsonModel::Bool(s.ui_panel_multi_open));
    let d21 = spec_set_path(d20, spec_keys(seq!["ui", "left_open_panels"]), spec_text_array(spec_clean_list(strings_view(s.ui_left_open_panels@), 32)));
    let d22 = spec_set_path(d21, spec_keys(seq!["ui", "right_open_panels"]), spec_text_array(spec_clean_list(strings_view(s.ui_right_open_panels@), 32)));
    let d23 = spec_set_path(d22, spec_keys(seq!["ui", "panel_stack_sizes"]), JsonModel::Object(spec_count_map_members(counts_view(s.ui_panel_stack_sizes@))));
    let d24 = spec_set_path(d23, spec_keys(seq!["ui", "saved_connections_sort_mode"]), JsonModel::Str(spec_saved_connections_sort_mode(s.ui_saved_connections_sort_mode@), None));
    let d25 = spec_set_path(d24, spec_keys(seq!["ui", "saved_connections_expanded_group_ids"]), spec_text_array(spec_clean_list(strings_view(s.ui_saved_connections_expanded_group_ids@), 512)));
    let d26 = spec_set_path(d25, spec_keys(seq!["ui", "start_workspace_mode"]), JsonModel::Str(spec_start_workspace_mode(s.ui_start_workspace_mode@), None));
    let d27 = spec_set_path(d26, spec_keys(seq!["ui", "asset_sort_key"]), spec_optional_trimmed_value(s.ui_asset_sort_key));
    let d28 = spec_set_path(d27, spec_keys(seq!["ui", "asset_sort_direction"]), spec_optional_text_or_null(spec_asset_sort_direction(opt_view(s.ui_asset_sort_direction))));
    let d29 = spec_set_path(d28, spec_keys(seq!["ui", "header_status_mode"]), JsonModel::Str(spec_header_status_setting(s.ui_header_status_mode@), None));
    let d30 = spec_set_path(d29, spec_keys(seq!["ui", "header_status_visible"]), JsonModel::Bool(s.ui_header_status_visible));
    assert(spec_saved_ui_layout_part1(d, s) == d8);
    assert(spec_saved_ui_layout_part2(d8, s) == d16);
    assert(spec_saved_ui_layout_part3(d16, s) == d24);
    assert(spec_saved_ui_layout_part4(d24, s) == d30);
    assert(spec_saved_ui_layout(d, s) == d30);
    lemma_set_path_then_read(d13, spec_keys(seq!["ui", "activity_bar_layout", "right_top"]), spec_text_array(spec_clean_list(strings_view(s.ui_activity_bar_right_top@), 32)));
    assert("right_bottom"@.len() != "right_top"@.len());
    assert(spec_keys(seq!["ui", "activity_bar_layout", "right_bottom"])[2] != spec_keys(seq!["ui", "activity_bar_layout", "right_top"])[2]);
    lemma_set_path_frame(d14, spec_keys(seq!["ui", "activity_bar_layout", "right_bottom"]), spec_text_array(spec_clean_list(strings_view(s.ui_activity_bar_right_bottom@), 32)), spec_keys(seq!["ui", "activity_bar_layout", "right_top"]));
    assert("show_labels"@.len() != "right_top"@.len());
    assert(spec_keys(seq!["ui", "activity_bar_layout", "show_labels"])[2] != spec_keys(seq!["ui", "activity_bar_layout", "right_top"])[2]);
    lemma_set_path_frame(d15, spec_keys(seq!["ui", "activity_bar_layout", "show_labels"]), JsonModel::Bool(s.ui_activity_bar_show_labels), spec_keys(seq!["ui", "activity_bar_layout", "right_top"]));
    assert("hidden_items"@.len() != "right_top"@.len());
    assert(spec_keys(seq!["ui", "activity_bar_layout", "hidden_items"])[2] != spec_keys(seq!["ui", "activity_bar_layout", "right_top"])[2]);
    lemma_set_path_frame(d16, spec_keys(seq!["ui", "activity_bar_layout", "hidden_items"]), spec_text_array(spec_clean_list(strings_view(s.ui_activity_bar_hidden_items@), 64)), spec_keys(seq!["ui", "activity_bar_layout", "right_top"]));
    assert("panel_open_mode"@.len() != "activity_bar_layout"@.len());
    assert(spec_keys(seq!["ui", "panel_open_mode"])[1] != spec_keys(seq!["ui", "activity_bar_layout", "right_top"])[1]);
    lemma_set_path_frame(d17, spec_keys(seq!["ui", "panel_open_mode"]), JsonModel::Str(spec_panel_open_mode(s.ui_panel_open_mode@), None), spec_keys(seq!["ui", "activity_bar_layout", "right_top"]));
    assert("panel_multi_open"@.len() != "activity_bar_layout"@.len());
    assert(spec_keys(seq!["ui", "panel_multi_open"])[1] != spec_keys(seq!["ui", "activity_bar_layout", "right_top"])[1]);
    lemma_set_path_frame(d18, spec_keys(seq!["ui", "panel_multi_open"]), JsonModel::Bool(s.ui_panel_multi_open), spec_keys(seq!["ui", "activity_bar_layout", "right_top"]));
    assert("appearance"@.len() != "ui"@.len());
    assert(spec_keys(seq!["appearance", "panel_multi_open"])[0] != spec_keys(seq!["ui", "activity_bar_layout", "right_top"])[0]);
    lemma_set_path_frame(d19, spec_keys(seq!["appearance", "panel_multi_open"]), JsonModel::Bool(s.ui_panel_multi_open), spec_keys(seq!["ui", "activity_bar_layout", "right_top"]));
    assert("left_open_panels"@.len() != "activity_bar_layout"@.len());
    assert(spec_keys(seq!["ui", "left_open_panels"])[1] != spec_keys(seq!["ui", "activity_bar_layout", "right_top"])[1]);
    lemma_set_path_frame(d20, spec_keys(seq!["ui", "left_open_panels"]), spec_text_array(spec_clean_list(strings_view(s.ui_left_open_panels@), 32)), spec_keys(seq!["ui", "activity_bar_layout", "right_top"]));
    assert("right_open_panels"@.len() != "activity_bar_layout"@.len());
    assert(spec_keys(seq!["ui", "right_open_panels"])[1] != spec_keys(seq!["ui", "activity_bar_layout", "right_top"])[1]);
    lemma_set_path_frame(d21, spec_keys(seq!["ui", "right_open_panels"]), spec_text_array(spec_clean_list(strings_view(s.ui_right_open_panels@), 32)), spec_keys(seq!["ui", "activity_bar_layout", "right_top"]));
    assert("panel_stack_sizes"@.len() != "activity_bar_layout"@.len());
    assert(spec_keys(seq!["ui", "panel_stack_sizes"])[1] != spec_keys(seq!["ui", "activity_bar_layout", "right_top"])[1]);
    lemma_set_path_frame(d22, spec_keys(seq!["ui", "panel_stack_sizes"]), JsonModel::Object(spec_count_map_members(counts_view(s.ui_panel_stack_sizes@))), spec_keys(seq!["ui", "activity_bar_layout", "right_top"]));
    assert("saved_connections_sort_mode"@.len() != "activity_bar_layout"@.len());
    assert(spec_keys(seq!["ui", "saved_connections_sort_mode"])[1] != spec_keys(seq!["ui", "activity_bar_layout", "right_top"])[1]);
    lemma_set_path_frame(d23, spec_keys(seq!["ui", "saved_connections_sort_mode"]), JsonModel::Str(spec_saved_connections_sort_mode(s.ui_saved_connections_sort_mode@), None), spec_keys(seq!["ui", "activity_bar_layout", "right_top"]));
    assert("saved_connections_expanded_group_ids"@.len() != "activity_bar_layout"@.len());
    assert(spec_keys(seq!["ui", "saved_connections_expanded_group_ids"])[1] != spec_keys(seq!["ui", "activity_bar_layout", "right_top"])[1]);
    lemma_set_path_frame(d24, spec_keys(seq!["ui", "saved_connections_expanded_group_ids"]), spec_text_array(spec_clean_list(strings_view(s.ui_saved_connections_expanded_group_ids@), 512)), spec_keys(seq!["ui", "activity_bar_layout", "right_top"]));
    assert("start_workspace_mode"@.len() != "activity_bar_layout"@.len());
    assert(spec_keys(seq!["ui", "start_workspace_mode"])[1] != spec_keys(seq!["ui", "activity_bar_layout", "right_top"])[1]);
    lemma_set_path_frame(d25, spec_keys(seq!["ui", "start_workspace_mode"]), JsonModel::Str(spec_start_workspace_mode(s.ui_start_workspace_mode@), None), spec_keys(seq!["ui", "activity_bar_layout", "right_top"]));
    assert("asset_sort_key"@.len() != "activity_bar_layout"@.len());
    assert(spec_keys(seq!["ui", "asset_sort_key"])[1] != spec_keys(seq!["ui", "activity_bar_layout", "right_top"])[1]);
    lemma_set_path_frame(d26, spec_keys(seq!["ui", "asset_sort_key"]), spec_optional_trimmed_value(s.ui_asset_sort_key), spec_keys(seq!["ui", "activity_bar_layout", "right_top"]));
    assert("asset_sort_direction"@.len() != "activity_bar_layout"@.len());
    assert(spec_keys(seq!["ui", "asset_sort_direction"])[1] != spec_keys(seq!["ui", "activity_bar_layout", "right_top"])[1]);
    lemma_set_path_frame(d27, spec_keys(seq!["ui", "asset_sort_direction"]), spec_optional_text_or_null(spec_asset_sort_direction(opt_view(s.ui_asset_sort_direction))), spec_keys(seq!["ui", "activity_bar_layout", "right_top"]));
    assert("header_status_mode"@.len() != "activity_bar_layout"@.len());
    assert(spec_keys(seq!["ui", "header_status_mode"])[1] != spec_keys(seq!["ui", "activity_bar_layout", "right_top"])[1]);
    lemma_set_path_frame(d28, spec_keys(seq!["ui", "header_status_mode"]), JsonModel::Str(spec_header_status_setting(s.ui_header_status_mode@), None), spec_keys(seq!["ui", "activity_bar_layout", "right_top"]));
    assert("header_status_visible"@.len() != "activity_bar_layout"@.len());
    assert(spec_keys(seq!["ui", "header_status_visible"])[1] != spec_keys(seq!["ui", "activity_bar_layout", "right_top"])[1]);
    lemma_set_path_frame(d29, spec_keys(seq!["ui", "header_status_visible"]), JsonModel::Bool(s.ui_header_status_visible), spec_keys(seq!["ui", "activity_bar_layout", "right_top"]));
}

#[verifier::spinoff_prover]
proof fn lemma_saved_ui_layout_keeps_ui_activity_bar_layout_right_bottom(d: JsonModel, s: AppSettingsSummary)
    ensures
        spec_json_path(spec_saved_ui_layout(d, s), spec_keys(seq!["ui", "activity_bar_layout", "right_bottom"])) == Some(spec_text_array(spec_clean_list(strings_view(s.ui_activity_bar_right_bottom@), 32))),
{
    reveal_strlit("activity_bar_layout");
    reveal_strlit("appearance");
    reveal_strlit("asset_sort_direction");
    reveal_strlit("asset_sort_key");
    reveal_strlit("header_status_mode");
    reveal_strlit("header_status_visible");
    reveal_strlit("hidden_items");
    reveal_strlit("left_open_panels");
    reveal_strlit("panel_multi_open");
    reveal_strlit("panel_open_mode");
    reveal_strlit("panel_stack_sizes");
    reveal_strlit("right_bottom");
    reveal_strlit("right_open_panels");
    reveal_strlit("saved_connections_expanded_group_ids");
    reveal_strlit("saved_connections_sort_mode");
    reveal_strlit("show_labels");
    reveal_strlit("start_workspace_mode");
    reveal_strlit("ui");
    let d1 = spec_set_path(d, spec_keys(seq!["ui", "left_width"]), JsonModel::Number(JsonNumber::PosInt(spec_clamp(s.ui_left_panel_width as int, 160, 720) as u64)));
    let d2 = spec_set_path(d1, spec_keys(seq!["ui", "right_width"]), JsonModel::Number(JsonNumber::PosInt(spec_clamp(s.ui_right_panel_width as int, 200, 720) as u64)));
    let d3 = spec_set_path(d2, spec_keys(seq!["ui", "transfer_height"]), JsonModel::Number(JsonNumber::PosInt(spec_clamp(s.ui_transfer_height as int, 60, 600) as u64)));
    let d4 = spec_set_path(d3, spec_keys(seq!["ui", "quick_cmd_height"]), JsonModel::Number(JsonNumber::PosInt(spec_clamp(s.ui_quick_cmd_height as int, 36, 520) as u64)));
    let d5 = spec_set_path(d4, spec_keys(seq!["ui", "show_quick_cmd_bar"]), JsonModel::Bool(s.ui_quick_cmd_visible));
    let d6 = spec_set_path(d5, spec_keys(seq!["ui", "serial_send_height"]), JsonModel::Number(JsonNumber::PosInt(spec_clamp(s.ui_serial_send_height as int, 60, 520) as u64)));
    let d7 = spec_set_path(d6, spec_keys(seq!["ui", "show_serial_send_panel"]), JsonModel::Bool(s.ui_serial_send_visible));
    let d8 = spec_set_path(d7, spec_keys(seq!["ui", "active_left_panel"]), spec_optional_panel_value(s.ui_active_left_panel));
    let d9 = spec_set_path(d8, spec_keys(seq!["ui", "active_right_panel"]), spec_optional_panel_value(s.ui_active_right_panel));
    let d10 = spec_set_path(d9, spec_keys(seq!["ui", "left_panel_collapsed"]), JsonModel::Bool(s.ui_left_panel_collapsed));
    let d11 = spec_set_path(d10, spec_keys(seq!["ui", "right_panel_collapsed"]), JsonModel::Bool(s.ui_right_panel_collapsed));
    let d12 = spec_set_path(d11, spec_keys(seq!["ui", "activity_bar_layout", "left_top"]), spec_text_array(spec_clean_list(strings_view(s.ui_activity_bar_left_top@), 32)));
    let d13 = spec_set_path(d12, spec_keys(seq!["ui", "activity_bar_layout", "left_bottom"]), spec_text_array(spec_clean_list(strings_view(s.ui_activity_bar_left_bottom@), 32)));
    let d14 = spec_set_path(d13, spec_keys(seq!["ui", "activity_bar_layout", "right_top"]), spec_text_array(spec_clean_list(strings_view(s.ui_activity_bar_right_top@), 32)));
    let d15 = spec_set_path(d14, spec_keys(seq!["ui", "activity_bar_layout", "right_bottom"]), spec_text_array(spec_clean_list(strings_view(s.ui_activity_bar_right_bottom@), 32)));
    let d16 = spec_set_path(d15, spec_keys(seq!["ui", "activity_bar_layout", "show_labels"]), JsonModel::Bool(s.ui_activity_bar_show_labels));
    let d17 = spec_set_path(d16, spec_keys(seq!["ui", "activity_bar_layout", "hidden_items"]), spec_text_array(spec_clean_list(strings_view(s.ui_activity_bar_hidden_items@), 64)));
    let d18 = spec_set_path(d17, spec_keys(seq!["ui", "panel_open_mode"]), JsonModel::Str(spec_panel_open_mode(s.ui_panel_open_mode@), None));
    let d19 = spec_set_path(d18, spec_keys(seq!["ui", "panel_multi_open"]), JsonModel::Bool(s.ui_panel_multi_open));
    let d20 = spec_set_path(d19, spec_keys(seq!["appearance", "panel_multi_open"]), JsonModel::Bool(s.ui_panel_multi_open));
    let d21 = spec_set_path(d20, spec_keys(seq!["ui", "left_open_panels"]), spec_text_array(spec_clean_list(strings_view(s.ui_left_open_panels@), 32)));
    let d22 = spec_set_path(d21, spec_keys(seq!["ui", "right_open_panels"]), spec_text_array(spec_clean_list(strings_view(s.ui_right_open_panels@), 32)));
    let d23 = spec_set_path(d22, spec_keys(seq!["ui", "panel_stack_sizes"]), JsonModel::Object(spec_count_map_members(counts_view(s.ui_panel_stack_sizes@))));
    let d24 = spec_set_path(d23, spec_keys(seq!["ui", "saved_connections_sort_mode"]), JsonModel::Str(spec_saved_connections_sort_mode(s.ui_saved_connections_sort_mode@), None));
    let d25 = spec_set_path(d24, spec_keys(seq!["ui", "saved_connections_expanded_group_ids"]), spec_text_array(spec_clean_list(strings_view(s.ui_saved_connections_expanded_group_ids@), 512)));
    let d26 = spec_set_path(d25, spec_keys(seq!["ui", "start_workspace_mode"]), JsonModel::Str(spec_start_workspace_mode(s.ui_start_workspace_mode@), None));
    let d27 = spec_set_path(d26, spec_keys(seq!["ui", "asset_sort_key"]), spec_optional_trimmed_value(s.ui_asset_sort_key));
    let d28 = spec_set_path(d27, spec_keys(seq!["ui", "asset_sort_direction"]), spec_optional_text_or_null(spec_asset_sort_direction(opt_view(s.ui_asset_sort_direction))));
    let d29 = spec_set_path(d28, spec_keys(seq!["ui", "header_status_mode"]), JsonModel::Str(spec_header_status_setting(s.ui_header_status_mode@), None));
    let d30 = spec_set_path(d29, spec_keys(seq!["ui", "header_status_visible"]), JsonModel::Bool(s.ui_header_status_visible));
    assert(spec_saved_ui_layout_part1(d, s) == d8);
    assert(spec_saved_ui_layout_part2(d8, s) == d16);
    assert(spec_saved_ui_layout_part3(d16, s) == d24);
    assert(spec_saved_ui_layout_part4(d24, s) == d30);
    assert(spec_saved_ui_layout(d, s) == d30);
    lemma_set_path_then_read(d14, spec_keys(seq!["ui", "activity_bar_layout", "right_bottom"]), spec_text_array(spec_clean_list(strings_view(s.ui_activity_bar_right_bottom@), 32)));
    assert("show_labels"@.len() != "right_bottom"@.len());
    assert(spec_keys(seq!["ui", "activity_bar_layout", "show_labels"])[2] != spec_keys(seq!["ui", "activity_bar_layout", "right_bottom"])[2]);
    lemma_set_path_frame(d15, spec_keys(seq!["ui", "activity_bar_layout", "show_labels"]), JsonModel::Bool(s.ui_activity_bar_show_labels), spec_keys(seq!["ui", "activity_bar_layout", "right_bottom"]));
    assert("hidden_items"@[0] != "right_bottom"@[0]);
    assert(spec_keys(seq!["ui", "activity_bar_layout", "hidden_items"])[2] != spec_keys(seq!["ui", "activity_bar_layout", "right_bottom"])[2]);
    lemma_set_path_frame(d16, spec_keys(seq!["ui", "activity_bar_layout", "hidden_items"]), spec_text_array(spec_clean_list(strings_view(s.ui_activity_bar_hidden_items@), 64)), spec_keys(seq!["ui", "activity_bar_layout", "right_bottom"]));
    assert("panel_open_mode"@.len() != "activity_bar_layout"@.len());
    assert(spec_keys(seq!["ui", "panel_open_mode"])[1] != spec_keys(seq!["ui", "activity_bar_layout", "right_bottom"])[1]);
    lemma_set_path_frame(d17, spec_keys(seq!["ui", "panel_open_mode"]), JsonModel::Str(spec_panel_open_mode(s.ui_panel_open_mode@), None), spec_keys(seq!["ui", "activity_bar_layout", "right_bottom"]));
    assert("panel_multi_open"@.len() != "activity_bar_layout"@.len());
    assert(spec_keys(seq!["ui", "panel_multi_open"])[1] != spec_keys(seq!["ui", "activity_bar_layout", "right_bottom"])[1]);
    lemma_set_path_frame(d18, spec_keys(seq!["ui", "panel_multi_open"]), JsonModel::Bool(s.ui_panel_multi_open), spec_keys(seq!["ui", "activity_bar_layout", "right_bottom"]));
    assert("appearance"@.len() != "ui"@.len());
    assert(spec_keys(seq!["appearance", "panel_multi_open"])[0] != spec_keys(seq!["ui", "activity_bar_layout", "right_bottom"])[0]);
    lemma_set_path_frame(d19, spec_keys(seq!["appearance", "panel_multi_open"]), JsonModel::Bool(s.ui_panel_multi_open), spec_keys(seq!["ui", "activity_bar_layout", "right_bottom"]));
    assert("left_open_panels"@.len() != "activity_bar_layout"@.len());
    assert(spec_keys(seq!["ui", "left_open_panels"])[1] != spec_keys(seq!["ui", "activity_bar_layout", "right_bottom"])[1]);
    lemma_set_path_frame(d20, spec_keys(seq!["ui", "left_open_panels"]), spec_text_array(spec_clean_list(strings_view(s.ui_left_open_panels@), 32)), spec_keys(seq!["ui", "activity_bar_layout", "right_bottom"]));
    assert("right_open_panels"@.len() != "activity_bar_layout"@.len());
    assert(spec_keys(seq!["ui", "right_open_panels"])[1] != spec_keys(seq!["ui", "activity_bar_layout", "right_bottom"])[1]);
    lemma_set_path_frame(d21, spec_keys(seq!["ui", "right_open_panels"]), spec_text_array(spec_clean_list(strings_view(s.ui_right_open_panels@), 32)), spec_keys(seq!["ui", "activity_bar_layout", "right_bottom"]));
    assert("panel_stack_sizes"@.len() != "activity_bar_layout"@.len());
    assert(spec_keys(seq!["ui", "panel_stack_sizes"])[1] != spec_keys(seq!["ui", "activity_bar_layout", "right_bottom"])[1]);
    lemma_set_path_frame(d22, spec_keys(seq!["ui", "panel_stack_sizes"]), JsonModel::Object(spec_count_map_members(counts_view(s.ui_panel_stack_sizes@))), spec_keys(seq!["ui", "activity_bar_layout", "right_bottom"]));
    assert("saved_connections_sort_mode"@.len() != "activity_bar_layout"@.len());
    assert(spec_keys(seq!["ui", "saved_connections_sort_mode"])[1] != spec_keys(seq!["ui", "activity_bar_layout", "right_bottom"])[1]);
    lemma_set_path_frame(d23, spec_keys(seq!["ui", "saved_connections_sort_mode"]), JsonModel::Str(spec_saved_connections_sort_mode(s.ui_saved_connections_sort_mode@), None), spec_keys(seq!["ui", "activity_bar_layout", "right_bottom"]));
    assert("saved_connections_expanded_group_ids"@.len() != "activity_bar_layout"@.len());
    assert(spec_keys(seq!["ui", "saved_connections_expanded_group_ids"])[1] != spec_keys(seq!["ui", "activity_bar_layout", "right_bottom"])[1]);
    lemma_set_path_frame(d24, spec_keys(seq!["ui", "saved_connections_expanded_group_ids"]), spec_text_array(spec_clean_list(strings_view(s.ui_saved_connections_expanded_group_ids@), 512)), spec_keys(seq!["ui", "activity_bar_layout", "right_bottom"]));
    assert("start_workspace_mode"@.len() != "activity_bar_layout"@.len());
    assert(spec_keys(seq!["ui", "start_workspace_mode"])[1] != spec_keys(seq!["ui", "activity_bar_layout", "right_bottom"])[1]);
    lemma_set_path_frame(d25, spec_keys(seq!["ui", "start_workspace_mode"]), JsonModel::Str(spec_start_workspace_mode(s.ui_start_workspace_mode@), None), spec_keys(seq!["ui", "activity_bar_layout", "right_bottom"]));
    assert("asset_sort_key"@.len() != "activity_bar_layout"@.len());
    assert(spec_keys(seq!["ui", "asset_sort_key"])[1] != spec_keys(seq!["ui", "activity_bar_layout", "right_bottom"])[1]);
    lemma_set_path_frame(d26, spec_keys(seq!["ui", "asset_sort_key"]), spec_optional_trimmed_value(s.ui_asset_sort_key), spec_keys(seq!["ui", "activity_bar_layout", "right_bottom"]));
    assert("asset_sort_direction"@.len() != "activity_bar_layout"@.len());
    assert(spec_keys(seq!["ui", "asset_sort_direction"])[1] != spec_keys(seq!["ui", "activity_bar_layout", "right_bottom"])[1]);
    lemma_set_path_frame(d27, spec_keys(seq!["ui", "asset_sort_direction"]), spec_optional_text_or_null(spec_asset_sort_direction(opt_view(s.ui_asset_sort_direction))), spec_keys(seq!["ui", "activity_bar_layout", "right_bottom"]));
    assert("header_status_mode"@.len() != "activity_bar_layout"@.len());
    assert(spec_keys(seq!["ui", "header_status_mode"])[1] != spec_keys(seq!["ui", "activity_bar_layout", "right_bottom"])[1]);
    lemma_set_path_frame(d28, spec_keys(seq!["ui", "header_status_mode"]), JsonModel::Str(spec_header_status_setting(s.ui_header_status_mode@), None), spec_keys(seq!["ui", "activity_bar_layout", "right_bottom"]));
    assert("header_status_visible"@.len() != "activity_bar_layout"@.len());
    assert(spec_keys(seq!["ui", "header_status_visible"])[1] != spec_keys(seq!["ui", "activity_bar_layout", "right_bottom"])[1]);
    lemma_set_path_frame(d29, spec_keys(seq!["ui", "header_status_visible"]), JsonModel::Bool(s.ui_header_status_visible), spec_keys(seq!["ui", "activity_bar_layout", "right_bottom"]));
}

#[verifier::spinoff_prover]
proof fn lemma_saved_ui_layout_keeps_ui_activity_bar_layout_show_labels(d: JsonModel, s: AppSettingsSummary)
    ensures
        spec_json_path(spec_saved_ui_layout(d, s), spec_keys(seq!["ui", "activity_bar_layout", "show_labels"])) == Some(JsonModel::Bool(s.ui_activity_bar_show_labels)),
{
    reveal_strlit("activity_bar_layout");
    reveal_strlit("appearance");
    reveal_strlit("asset_sort_direction");
    reveal_strlit("asset_sort_key");
    reveal_strlit("header_status_mode");
    reveal_strlit("header_status_visible");
    reveal_strlit("hidden_items");
    reveal_strlit("left_open_panels");
    reveal_strlit("panel_multi_open");
    reveal_strlit("panel_open_mode");
    reveal_strlit("panel_stack_sizes");
    reveal_strlit("right_open_panels");
    reveal_strlit("saved_connections_expanded_group_ids");
    reveal_strlit("saved_connections_sort_mode");
    reveal_strlit("show_labels");
    reveal_strlit("start_workspace_mode");
    reveal_strlit("ui");
    let d1 = spec_set_path(d, spec_keys(seq!["ui", "left_width"]), JsonModel::Number(JsonNumber::PosInt(spec_clamp(s.ui_left_panel_width as int, 160, 720) as u64)));
    let d2 = spec_set_path(d1, spec_keys(seq!["ui", "right_width"]), JsonModel::Number(JsonNumber::PosInt(spec_clamp(s.ui_right_panel_width as int, 200, 720) as u64)));
    let d3 = spec_set_path(d2, spec_keys(seq!["ui", "transfer_height"]), JsonModel::Number(JsonNumber::PosInt(spec_clamp(s.ui_transfer_height as int, 60, 600) as u64)));
    let d4 = spec_set_path(d3, spec_keys(seq!["ui", "quick_cmd_height"]), JsonModel::Number(JsonNumber::PosInt(spec_clamp(s.ui_quick_cmd_height as int, 36, 520) as u64)));
    let d5 = spec_set_path(d4, spec_keys(seq!["ui", "show_quick_cmd_bar"]), JsonModel::Bool(s.ui_quick_cmd_visible));
    let d6 = spec_set_path(d5, spec_keys(seq!["ui", "serial_send_height"]), JsonModel::Number(JsonNumber::PosInt(spec_clamp(s.ui_serial_send_height as int, 60, 520) as u64)));
    let d7 = spec_set_path(d6, spec_keys(seq!["ui", "show_serial_send_panel"]), JsonModel::Bool(s.ui_serial_send_visible));
    let d8 = spec_set_path(d7, spec_keys(seq!["ui", "active_left_panel"]), spec_optional_panel_value(s.ui_active_left_panel));
    let d9 = spec_set_path(d8, spec_keys(seq!["ui", "active_right_panel"]), spec_optional_panel_value(s.ui_active_right_panel));
    let d10 = spec_set_path(d9, spec_keys(seq!["ui", "left_panel_collapsed"]), JsonModel::Bool(s.ui_left_panel_collapsed));
    let d11 = spec_set_path(d10, spec_keys(seq!["ui", "right_panel_collapsed"]), JsonModel::Bool(s.ui_right_panel_collapsed));
    let d12 = spec_set_path(d11, spec_keys(seq!["ui", "activity_bar_layout", "left_top"]), spec_text_array(spec_clean_list(strings_view(s.ui_activity_bar_left_top@), 32)));
    let d13 = spec_set_path(d12, spec_keys(seq!["ui", "activity_bar_layout", "left_bottom"]), spec_text_array(spec_clean_list(strings_view(s.ui_activity_bar_left_bottom@), 32)));
    let d14 = spec_set_path(d13, spec_keys(seq!["ui", "activity_bar_layout", "right_top"]), spec_text_array(spec_clean_list(strings_view(s.ui_activity_bar_right_top@), 32)));
    let d15 = spec_set_path(d14, spec_keys(seq!["ui", "activity_bar_layout", "right_bottom"]), spec_text_array(spec_clean_list(strings_view(s.ui_activity_bar_right_bottom@), 32)));
    let d16 = spec_set_path(d15, spec_keys(seq!["ui", "activity_bar_layout", "show_labels"]), JsonModel::Bool(s.ui_activity_bar_show_labels));
    let d17 = spec_set_path(d16, spec_keys(seq!["ui", "activity_bar_layout", "hidden_items"]), spec_text_array(spec_clean_list(strings_view(s.ui_activity_bar_hidden_items@), 64)));
    let d18 = spec_set_path(d17, spec_keys(seq!["ui", "panel_open_mode"]), JsonModel::Str(spec_panel_open_mode(s.ui_panel_open_mode@), None));
    let d19 = spec_set_path(d18, spec_keys(seq!["ui", "panel_multi_open"]), JsonModel::Bool(s.ui_panel_multi_open));
    let d20 = spec_set_path(d19, spec_keys(seq!["appearance", "panel_multi_open"]), JsonModel::Bool(s.ui_panel_multi_open));
    let d21 = spec_set_path(d20, spec_keys(seq!["ui", "left_open_panels"]), spec_text_array(spec_clean_list(strings_view(s.ui_left_open_panels@), 32)));
    let d22 = spec_set_path(d21, spec_keys(seq!["ui", "right_open_panels"]), spec_text_array(spec_clean_list(strings_view(s.ui_right_open_panels@), 32)));
    let d23 = spec_set_path(d22, spec_keys(seq!["ui", "panel_stack_sizes"]), JsonModel::Object(spec_count_map_members(counts_view(s.ui_panel_stack_sizes@))));
    let d24 = spec_set_path(d23, spec_keys(seq!["ui", "saved_connections_sort_mode"]), JsonModel::Str(spec_saved_connections_sort_mode(s.ui_saved_connections_sort_mode@), None));
    let d25 = spec_set_path(d24, spec_keys(seq!["ui", "saved_connections_expanded_group_ids"]), spec_text_array(spec_clean_list(strings_view(s.ui_saved_connections_expanded_group_ids@), 512)));
    let d26 = spec_set_path(d25, spec_keys(seq!["ui", "start_workspace_mode"]), JsonModel::Str(spec_start_workspace_mode(s.ui_start_workspace_mode@), None));
    let d27 = spec_set_path(d26, spec_keys(seq!["ui", "asset_sort_key"]), spec_optional_trimmed_value(s.ui_asset_sort_key));
    let d28 = spec_set_path(d27, spec_keys(seq!["ui", "asset_sort_direction"]), spec_optional_text_or_null(spec_asset_sort_direction(opt_view(s.ui_asset_sort_direction))));
    let d29 = spec_set_path(d28, spec_keys(seq!["ui", "header_status_mode"]), JsonModel::Str(spec_header_status_setting(s.ui_header_status_mode@), None));
    let d30 = spec_set_path(d29, spec_keys(seq!["ui", "header_status_visible"]), JsonModel::Bool(s.ui_header_status_visible));
    assert(spec_saved_ui_layout_part1(d, s) == d8);
    assert(spec_saved_ui_layout_part2(d8, s) == d16);
    assert(spec_saved_ui_layout_part3(d16, s) == d24);
    assert(spec_saved_ui_layout_part4(d24, s) == d30);
    assert(spec_saved_ui_layout(d, s) == d30);
    lemma_set_path_then_read(d15, spec_keys(seq!["ui", "activity_bar_layout", "show_labels"]), JsonModel::Bool(s.ui_activity_bar_show_labels));
    assert("hidden_items"@.len() != "show_labels"@.len());
    assert(spec_keys(seq!["ui", "activity_bar_layout", "hidden_items"])[2] != spec_keys(seq!["ui", "activity_bar_layout", "show_labels"])[2]);
    lemma_set_path_frame(d16, spec_keys(seq!["ui", "activity_bar_layout", "hidden_items"]), spec_text_array(spec_clean_list(strings_view(s.ui_activity_bar_hidden_items@), 64)), spec_keys(seq!["ui", "activity_bar_layout", "show_labels"]));
    assert("panel_open_mode"@.len() != "activity_bar_layout"@.len());
    assert(spec_keys(seq!["ui", "panel_open_mode"])[1] != spec_keys(seq!["ui", "activity_bar_layout", "show_labels"])[1]);
    lemma_set_path_frame(d17, spec_keys(seq!["ui", "panel_open_mode"]), JsonModel::Str(spec_panel_open_mode(s.ui_panel_open_mode@), None), spec_keys(seq!["ui", "activity_bar_layout", "show_labels"]));
    assert("panel_multi_open"@.len() != "activity_bar_layout"@.len());
    assert(spec_keys(seq!["ui", "panel_multi_open"])[1] != spec_keys(seq!["ui", "activity_bar_layout", "show_labels"])[1]);
    lemma_set_path_frame(d18, spec_keys(seq!["ui", "panel_multi_open"]), JsonModel::Bool(s.ui_panel_multi_open), spec_keys(seq!["ui", "activity_bar_layout", "show_labels"]));
    assert("appearance"@.len() != "ui"@.len());
    assert(spec_keys(seq!["appearance", "panel_multi_open"])[0] != spec_keys(seq!["ui", "activity_bar_layout", "show_labels"])[0]);
    lemma_set_path_frame(d19, spec_keys(seq!["appearance", "panel_multi_open"]), JsonModel::Bool(s.ui_panel_multi_open), spec_keys(seq!["ui", "activity_bar_layout", "show_labels"]));
    assert("left_open_panels"@.len() != "activity_bar_layout"@.len());
    assert(spec_keys(seq!["ui", "left_open_panels"])[1] != spec_keys(seq!["ui", "activity_bar_layout", "show_labels"])[1]);
    lemma_set_path_frame(d20, spec_keys(seq!["ui", "left_open_panels"]), spec_text_array(spec_clean_list(strings_view(s.ui_left_open_panels@), 32)), spec_keys(seq!["ui", "activity_bar_layout", "show_labels"]));
    assert("right_open_panels"@.len() != "activity_bar_layout"@.len());
    assert(spec_keys(seq!["ui", "right_open_panels"])[1] != spec_keys(seq!["ui", "activity_bar_layout", "show_labels"])[1]);
    lemma_set_path_frame(d21, spec_keys(seq!["ui", "right_open_panels"]), spec_text_array(spec_clean_list(strings_view(s.ui_right_open_panels@), 32)), spec_keys(seq!["ui", "activity_bar_layout", "show_labels"]));
    assert("panel_stack_sizes"@.len() != "activity_bar_layout"@.len());
    assert(spec_keys(seq!["ui", "panel_stack_sizes"])[1] != spec_keys(seq!["ui", "activity_bar_layout", "show_labels"])[1]);
    lemma_set_path_frame(d22, spec_keys(seq!["ui", "panel_stack_sizes"]), JsonModel::Object(spec_count_map_members(counts_view(s.ui_panel_stack_sizes@))), spec_keys(seq!["ui", "activity_bar_layout", "show_labels"]));
    assert("saved_connections_sort_mode"@.len() != "activity_bar_layout"@.len());
    assert(spec_keys(seq!["ui", "saved_connections_sort_mode"])[1] != spec_keys(seq!["ui", "activity_bar_layout", "show_labels"])[1]);
    lemma_set_path_frame(d23, spec_keys(seq!["ui", "saved_connections_sort_mode"]), JsonModel::Str(spec_saved_connections_sort_mode(s.ui_saved_connections_sort_mode@), None), spec_keys(seq!["ui", "activity_bar_layout", "show_labels"]));
    assert("saved_connections_expanded_group_ids"@.len() != "activity_bar_layout"@.len());
    assert(spec_keys(seq!["ui", "saved_connections_expanded_group_ids"])[1] != spec_keys(seq!["ui", "activity_bar_layout", "show_labels"])[1]);
    lemma_set_path_frame(d24, spec_keys(seq!["ui", "saved_connections_expanded_group_ids"]), spec_text_array(spec_clean_list(strings_view(s.ui_saved_connections_expanded_group_ids@), 512)), spec_keys(seq!["ui", "activity_bar_layout", "show_labels"]));
    assert("start_workspace_mode"@.len() != "activity_bar_layout"@.len());
    assert(spec_keys(seq!["ui", "start_workspace_mode"])[1] != spec_keys(seq!["ui", "activity_bar_layout", "show_labels"])[1]);
    lemma_set_path_frame(d25, spec_keys(seq!["ui", "start_workspace_mode"]), JsonModel::Str(spec_start_workspace_mode(s.ui_start_workspace_mode@), None), spec_keys(seq!["ui", "activity_bar_layout", "show_labels"]));
    assert("asset_sort_key"@.len() != "activity_bar_layout"@.len());
    assert(spec_keys(seq!["ui", "asset_sort_key"])[1] != spec_keys(seq!["ui", "activity_bar_layout", "show_labels"])[1]);
    lemma_set_path_frame(d26, spec_keys(seq!["ui", "asset_sort_key"]), spec_optional_trimmed_value(s.ui_asset_sort_key), spec_keys(seq!["ui", "activity_bar_layout", "show_labels"]));
    assert("asset_sort_direction"@.len() != "activity_bar_layout"@.len());
    assert(spec_keys(seq!["ui", "asset_sort_direction"])[1] != spec_keys(seq!["ui", "activity_bar_layout", "show_labels"])[1]);
    lemma_set_path_frame(d27, spec_keys(seq!["ui", "asset_sort_direction"]), spec_optional_text_or_null(spec_asset_sort_direction(opt_view(s.ui_asset_sort_direction))), spec_keys(seq!["ui", "activity_bar_layout", "show_labels"]));
    assert("header_status_mode"@.len() != "activity_bar_layout"@.len());
    assert(spec_keys(seq!["ui", "header_status_mode"])[1] != spec_keys(seq!["ui", "activity_bar_layout", "show_labels"])[1]);
    lemma_set_path_frame(d28, spec_keys(seq!["ui", "header_status_mode"]), JsonModel::Str(spec_header_status_setting(s.ui_header_status_mode@), None), spec_keys(seq!["ui", "activity_bar_layout", "show_labels"]));
    assert("header_status_visible"@.len() != "activity_bar_layout"@.len());
    assert(spec_keys(seq!["ui", "header_status_visible"])[1] != spec_keys(seq!["ui", "activity_bar_layout", "show_labels"])[1]);
    lemma_set_path_frame(d29, spec_keys(seq!["ui", "header_status_visible"]), JsonModel::Bool(s.ui_header_status_visible), spec_keys(seq!["ui", "activity_bar_layout", "show_labels"]));
}

#[verifier::spinoff_prover]
proof fn lemma_saved_ui_layout_keeps_ui_activity_bar_layout_hidden_items(d: JsonModel, s: AppSettingsSummary)
    ensures
        spec_json_path(spec_saved_ui_layout(d, s), spec_keys(seq!["ui", "activity_bar_layout", "hidden_items"])) == Some(spec_text_array(spec_clean_list(strings_view(s.ui_activity_bar_hidden_items@), 64))),
{
    reveal_strlit("activity_bar_layout");
    reveal_strlit("appearance");
    reveal_strlit("asset_sort_direction");
    reveal_strlit("asset_sort_key");
    reveal_strlit("header_status_mode");
    reveal_strlit("header_status_visible");
    reveal_strlit("hidden_items");
    reveal_strlit("left_open_panels");
    reveal_strlit("panel_multi_open");
    reveal_strlit("panel_open_mode");
    reveal_strlit("panel_stack_sizes");
    reveal_strlit("right_open_panels");
    reveal_strlit("saved_connections_expanded_group_ids");
    reveal_strlit("saved_connections_sort_mode");
    reveal_strlit("start_workspace_mode");
    reveal_strlit("ui");
    let d1 = spec_set_path(d, spec_keys(seq!["ui", "left_width"]), JsonModel::Number(JsonNumber::PosInt(spec_clamp(s.ui_left_panel_width as int, 160, 720) as u64)));
    let d2 = spec_set_path(d1, spec_keys(seq!["ui", "right_width"]), JsonModel::Number(JsonNumber::PosInt(spec_clamp(s.ui_right_panel_width as int, 200, 720) as u64)));
    let d3 = spec_set_path(d2, spec_keys(seq!["ui", "transfer_height"]), JsonModel::Number(JsonNumber::PosInt(spec_clamp(s.ui_transfer_height as int, 60, 600) as u64)));
    let d4 = spec_set_path(d3, spec_keys(seq!["ui", "quick_cmd_height"]), JsonModel::Number(JsonNumber::PosInt(spec_clamp(s.ui_quick_cmd_height as int, 36, 520) as u64)));
    let d5 = spec_set_path(d4, spec_keys(seq!["ui", "show_quick_cmd_bar"]), JsonModel::Bool(s.ui_quick_cmd_visible));
    let d6 = spec_set_path(d5, spec_keys(seq!["ui", "serial_send_height"]), JsonModel::Number(JsonNumber::PosInt(spec_clamp(s.ui_serial_send_height as int, 60, 520) as u64)));
    let d7 = spec_set_path(d6, spec_keys(seq!["ui", "show_serial_send_panel"]), JsonModel::Bool(s.ui_serial_send_visible));
    let d8 = spec_set_path(d7, spec_keys(seq!["ui", "active_left_panel"]), spec_optional_panel_value(s.ui_active_left_panel));
    let d9 = spec_set_path(d8, spec_keys(seq!["ui", "active_right_panel"]), spec_optional_panel_value(s.ui_active_right_panel));
    let d10 = spec_set_path(d9, spec_keys(seq!["ui", "left_panel_collapsed"]), JsonModel::Bool(s.ui_left_panel_collapsed));
    let d11 = spec_set_path(d10, spec_keys(seq!["ui", "right_panel_collapsed"]), JsonModel::Bool(s.ui_right_panel_collapsed));
    let d12 = spec_set_path(d11, spec_keys(seq!["ui", "activity_bar_layout", "left_top"]), spec_text_array(spec_clean_list(strings_view(s.ui_activity_bar_left_top@), 32)));
    let d13 = spec_set_path(d12, spec_keys(seq!["ui", "activity_bar_layout", "left_bottom"]), spec_text_array(spec_clean_list(strings_view(s.ui_activity_bar_left_bottom@), 32)));
    let d14 = spec_set_path(d13, spec_keys(seq!["ui", "activity_bar_layout", "right_top"]), spec_text_array(spec_clean_list(strings_view(s.ui_activity_bar_right_top@), 32)));
    let d15 = spec_set_path(d14, spec_keys(seq!["ui", "activity_bar_layout", "right_bottom"]), spec_text_array(spec_clean_list(strings_view(s.ui_activity_bar_right_bottom@), 32)));
    let d16 = spec_set_path(d15, spec_keys(seq!["ui", "activity_bar_layout", "show_labels"]), JsonModel::Bool(s.ui_activity_bar_show_labels));
    let d17 = spec_set_path(d16, spec_keys(seq!["ui", "activity_bar_layout", "hidden_items"]), spec_text_array(spec_clean_list(strings_view(s.ui_activity_bar_hidden_items@), 64)));
    let d18 = spec_set_path(d17, spec_keys(seq!["ui", "panel_open_mode"]), JsonModel::Str(spec_panel_open_mode(s.ui_panel_open_mode@), None));
    let d19 = spec_set_path(d18, spec_keys(seq!["ui", "panel_multi_open"]), JsonModel::Bool(s.ui_panel_multi_open));
    let d20 = spec_set_path(d19, spec_keys(seq!["appearance", "panel_multi_open"]), JsonModel::Bool(s.ui_panel_multi_open));
    let d21 = spec_set_path(d20, spec_keys(seq!["ui", "left_open_panels"]), spec_text_array(spec_clean_list(strings_view(s.ui_left_open_panels@), 32)));
    let d22 = spec_set_path(d21, spec_keys(seq!["ui", "right_open_panels"]), spec_text_array(spec_clean_list(strings_view(s.ui_right_open_panels@), 32)));
    let d23 = spec_set_path(d22, spec_keys(seq!["ui", "panel_stack_sizes"]), JsonModel::Object(spec_count_map_members(counts_view(s.ui_panel_stack_sizes@))));
    let d24 = spec_set_path(d23, spec_keys(seq!["ui", "saved_connections_sort_mode"]), JsonModel::Str(spec_saved_connections_sort_mode(s.ui_saved_connections_sort_mode@), None));
    let d25 = spec_set_path(d24, spec_keys(seq!["ui", "saved_connections_expanded_group_ids"]), spec_text_array(spec_clean_list(strings_view(s.ui_saved_connections_expanded_group_ids@), 512)));
    let d26 = spec_set_path(d25, spec_keys(seq!["ui", "start_workspace_mode"]), JsonModel::Str(spec_start_workspace_mode(s.ui_start_workspace_mode@), None));
    let d27 = spec_set_path(d26, spec_keys(seq!["ui", "asset_sort_key"]), spec_optional_trimmed_value(s.ui_asset_sort_key));
    let d28 = spec_set_path(d27, spec_keys(seq!["ui", "asset_sort_direction"]), spec_optional_text_or_null(spec_asset_sort_direction(opt_view(s.ui_asset_sort_direction))));
    let d29 = spec_set_path(d28, spec_keys(seq!["ui", "header_status_mode"]), JsonModel::Str(spec_header_status_setting(s.ui_header_status_mode@), None));
    let d30 = spec_set_path(d29, spec_keys(seq!["ui", "header_status_visible"]), JsonModel::Bool(s.ui_header_status_visible));
    assert(spec_saved_ui_layout_part1(d, s) == d8);
    assert(spec_saved_ui_layout_part2(d8, s) == d16);
    assert(spec_saved_ui_layout_part3(d16, s) == d24);
    assert(spec_saved_ui_layout_part4(d24, s) == d30);
    assert(spec_saved_ui_layout(d, s) == d30);
    lemma_set_path_then_read(d16, spec_keys(seq!["ui", "activity_bar_layout", "hidden_items"]), spec_text_array(spec_clean_list(strings_view(s.ui_activity_bar_hidden_items@), 64)));
    assert("panel_open_mode"@.len() != "activity_bar_layout"@.len());
    assert(spec_keys(seq!["ui", "panel_open_mode"])[1] != spec_keys(seq!["ui", "activity_bar_layout", "hidden_items"])[1]);
    lemma_set_path_frame(d17, spec_keys(seq!["ui", "panel_open_mode"]), JsonModel::Str(spec_panel_open_mode(s.ui_panel_open_mode@), None), spec_keys(seq!["ui", "activity_bar_layout", "hidden_items"]));
    assert("panel_multi_open"@.len() != "activity_bar_layout"@.len());
    assert(spec_keys(seq!["ui", "panel_multi_open"])[1] != spec_keys(seq!["ui", "activity_bar_layout", "hidden_items"])[1]);
    lemma_set_path_frame(d18, spec_keys(seq!["ui", "panel_multi_open"]), JsonModel::Bool(s.ui_panel_multi_open), spec_keys(seq!["ui", "activity_bar_layout", "hidden_items"]));
    assert("appearance"@.len() != "ui"@.len());
    assert(spec_keys(seq!["appearance", "panel_multi_open"])[0] != spec_keys(seq!["ui", "activity_bar_layout", "hidden_items"])[0]);
    lemma_set_path_frame(d19, spec_keys(seq!["appearance", "panel_multi_open"]), JsonModel::Bool(s.ui_panel_multi_open), spec_keys(seq!["ui", "activity_bar_layout", "hidden_items"]));
    assert("left_open_panels"@.len() != "activity_bar_layout"@.len());
    assert(spec_keys(seq!["ui", "left_open_panels"])[1] != spec_keys(seq!["ui", "activity_bar_layout", "hidden_items"])[1]);
    lemma_set_path_frame(d20, spec_keys(seq!["ui", "left_open_panels"]), spec_text_array(spec_clean_list(strings_view(s.ui_left_open_panels@), 32)), spec_keys(seq!["ui", "activity_bar_layout", "hidden_items"]));
    assert("right_open_panels"@.len() != "activity_bar_layout"@.len());
    assert(spec_keys(seq!["ui", "right_open_panels"])[1] != spec_keys(seq!["ui", "activity_bar_layout", "hidden_items"])[1]);
    lemma_set_path_frame(d21, spec_keys(seq!["ui", "right_open_panels"]), spec_text_array(spec_clean_list(strings_view(s.ui_right_open_panels@), 32)), spec_keys(seq!["ui", "activity_bar_layout", "hidden_items"]));
    assert("panel_stack_sizes"@.len() != "activity_bar_layout"@.len());
    assert(spec_keys(seq!["ui", "panel_stack_sizes"])[1] != spec_keys(seq!["ui", "activity_bar_layout", "hidden_items"])[1]);
    lemma_set_path_frame(d22, spec_keys(seq!["ui", "panel_stack_sizes"]), JsonModel::Object(spec_count_map_members(counts_view(s.ui_panel_stack_sizes@))), spec_keys(seq!["ui", "activity_bar_layout", "hidden_items"]));
    assert("saved_connections_sort_mode"@.len() != "activity_bar_layout"@.len());
    assert(spec_keys(seq!["ui", "saved_connections_sort_mode"])[1] != spec_keys(seq!["ui", "activity_bar_layout", "hidden_items"])[1]);
    lemma_set_path_frame(d23, spec_keys(seq!["ui", "saved_connections_sort_mode"]), JsonModel::Str(spec_saved_connections_sort_mode(s.ui_saved_connections_sort_mode@), None), spec_keys(seq!["ui", "activity_bar_layout", "hidden_items"]));
    assert("saved_connections_expanded_group_ids"@.len() != "activity_bar_layout"@.len());
    assert(spec_keys(seq!["ui", "saved_connections_expanded_group_ids"])[1] != spec_keys(seq!["ui", "activity_bar_layout", "hidden_items"])[1]);
    lemma_set_path_frame(d24, spec_keys(seq!["ui", "saved_connections_expanded_group_ids"]), spec_text_array(spec_clean_list(strings_view(s.ui_saved_connections_expanded_group_ids@), 512)), spec_keys(seq!["ui", "activity_bar_layout", "hidden_items"]));
    assert("start_workspace_mode"@.len() != "activity_bar_layout"@.len());
    assert(spec_keys(seq!["ui", "start_workspace_mode"])[1] != spec_keys(seq!["ui", "activity_bar_layout", "hidden_items"])[1]);
    lemma_set_path_frame(d25, spec_keys(seq!["ui", "start_workspace_mode"]), JsonModel::Str(spec_start_workspace_mode(s.ui_start_workspace_mode@), None), spec_keys(seq!["ui", "activity_bar_layout", "hidden_items"]));
    assert("asset_sort_key"@.len() != "activity_bar_layout"@.len());
    assert(spec_keys(seq!["ui", "asset_sort_key"])[1] != spec_keys(seq!["ui", "activity_bar_layout", "hidden_items"])[1]);
    lemma_set_path_frame(d26, spec_keys(seq!["ui", "asset_sort_key"]), spec_optional_trimmed_value(s.ui_asset_sort_key), spec_keys(seq!["ui", "activity_bar_layout", "hidden_items"]));
    assert("asset_sort_direction"@.len() != "activity_bar_layout"@.len());
    assert(spec_keys(seq!["ui", "asset_sort_direction"])[1] != spec_keys(seq!["ui", "activity_bar_layout", "hidden_items"])[1]);
    lemma_set_path_frame(d27, spec_keys(seq!["ui", "asset_sort_direction"]), spec_optional_text_or_null(spec_asset_sort_direction(opt_view(s.ui_asset_sort_direction))), spec_keys(seq!["ui", "activity_bar_layout", "hidden_items"]));
    assert("header_status_mode"@.len() != "activity_bar_layout"@.len());
    assert(spec_keys(seq!["ui", "header_status_mode"])[1] != spec_keys(seq!["ui", "activity_bar_layout", "hidden_items"])[1]);
    lemma_set_path_frame(d28, spec_keys(seq!["ui", "header_status_mode"]), JsonModel::Str(spec_header_status_setting(s.ui_header_status_mode@), None), spec_keys(seq!["ui", "activity_bar_layout", "hidden_items"]));
    assert("header_status_visible"@.len() != "activity_bar_layout"@.len());
    assert(spec_keys(seq!["ui", "header_status_visible"])[1] != spec_keys(seq!["ui", "activity_bar_layout", "hidden_items"])[1]);
    lemma_set_path_frame(d29, spec_keys(seq!["ui", "header_status_visible"]), JsonModel::Bool(s.ui_header_status_visible), spec_keys(seq!["ui", "activity_bar_layout", "hidden_items"]));
}

#[verifier::spinoff_prover]
proof fn lemma_saved_ui_layout_keeps_ui_panel_open_mode(d: JsonModel, s: AppSettingsSummary)
    ensures
        spec_json_path(spec_saved_ui_layout(d, s), spec_keys(seq!["ui", "panel_open_mode"])) == Some(JsonModel::Str(spec_panel_open_mode(s.ui_panel_open_mode@), None)),
{
    reveal_strlit("appearance");
    reveal_strlit("asset_sort_direction");
    reveal_strlit("asset_sort_key");
    reveal_strlit("header_status_mode");
    reveal_strlit("header_status_visible");
    reveal_strlit("left_open_panels");
    reveal_strlit("panel_multi_open");
    reveal_strlit("panel_open_mode");
    reveal_strlit("panel_stack_sizes");
    reveal_strlit("right_open_panels");
    reveal_strlit("saved_connections_expanded_group_ids");
    reveal_strlit("saved_connections_sort_mode");
    reveal_strlit("start_workspace_mode");
    reveal_strlit("ui");
    let d1 = spec_set_path(d, spec_keys(seq!["ui", "left_width"]), JsonModel::Number(JsonNumber::PosInt(spec_clamp(s.ui_left_panel_width as int, 160, 720) as u64)));
    let d2 = spec_set_path(d1, spec_keys(seq!["ui", "right_width"]), JsonModel::Number(JsonNumber::PosInt(spec_clamp(s.ui_right_panel_width as int, 200, 720) as u64)));
    let d3 = spec_set_path(d2, spec_keys(seq!["ui", "transfer_height"]), JsonModel::Number(JsonNumber::PosInt(spec_clamp(s.ui_transfer_height as int, 60, 600) as u64)));
    let d4 = spec_set_path(d3, spec_keys(seq!["ui", "quick_cmd_height"]), JsonModel::Number(JsonNumber::PosInt(spec_clamp(s.ui_quick_cmd_height as int, 36, 520) as u64)));
    let d5 = spec_set_path(d4, spec_keys(seq!["ui", "show_quick_cmd_bar"]), JsonModel::Bool(s.ui_quick_cmd_visible));
    let d6 = spec_set_path(d5, spec_keys(seq!["ui", "serial_send_height"]), JsonModel::Number(JsonNumber::PosInt(spec_clamp(s.ui_serial_send_height as int, 60, 520) as u64)));
    let d7 = spec_set_path(d6, spec_keys(seq!["ui", "show_serial_send_panel"]), JsonModel::Bool(s.ui_serial_send_visible));
    let d8 = spec_set_path(d7, spec_keys(seq!["ui", "active_left_panel"]), spec_optional_panel_value(s.ui_active_left_panel));
    let d9 = spec_set_path(d8, spec_keys(seq!["ui", "active_right_panel"]), spec_optional_panel_value(s.ui_active_right_panel));
    let d10 = spec_set_path(d9, spec_keys(seq!["ui", "left_panel_collapsed"]), JsonModel::Bool(s.ui_left_panel_collapsed));
    let d11 = spec_set_path(d10, spec_keys(seq!["ui", "right_panel_collapsed"]), JsonModel::Bool(s.ui_right_panel_collapsed));
    let d12 = spec_set_path(d11, spec_keys(seq!["ui", "activity_bar_layout", "left_top"]), spec_text_array(spec_clean_list(strings_view(s.ui_activity_bar_left_top@), 32)));
    let d13 = spec_set_path(d12, spec_keys(seq!["ui", "activity_bar_layout", "left_bottom"]), spec_text_array(spec_clean_list(strings_view(s.ui_activity_bar_left_bottom@), 32)));
    let d14 = spec_set_path(d13, spec_keys(seq!["ui", "activity_bar_layout", "right_top"]), spec_text_array(spec_clean_list(strings_view(s.ui_activity_bar_right_top@), 32)));
    let d15 = spec_set_path(d14, spec_keys(seq!["ui", "activity_bar_layout", "right_bottom"]), spec_text_array(spec_clean_list(strings_view(s.ui_activity_bar_right_bottom@), 32)));
    let d16 = spec_set_path(d15, spec_keys(seq!["ui", "activity_bar_layout", "show_labels"]), JsonModel::Bool(s.ui_activity_bar_show_labels));
    let d17 = spec_set_path(d16, spec_keys(seq!["ui", "activity_bar_layout", "hidden_items"]), spec_text_array(spec_clean_list(strings_view(s.ui_activity_bar_hidden_items@), 64)));
    let d18 = spec_set_path(d17, spec_keys(seq!["ui", "panel_open_mode"]), JsonModel::Str(spec_panel_open_mode(s.ui_panel_open_mode@), None));
    let d19 = spec_set_path(d18, spec_keys(seq!["ui", "panel_multi_open"]), JsonModel::Bool(s.ui_panel_multi_open));
    let d20 = spec_set_path(d19, spec_keys(seq!["appearance", "panel_multi_open"]), JsonModel::Bool(s.ui_panel_multi_open));
    let d21 = spec_set_path(d20, spec_keys(seq!["ui", "left_open_panels"]), spec_text_array(spec_clean_list(strings_view(s.ui_left_open_panels@), 32)));
    let d22 = spec_set_path(d21, spec_keys(seq!["ui", "right_open_panels"]), spec_text_array(spec_clean_list(strings_view(s.ui_right_open_panels@), 32)));
    let d23 = spec_set_path(d22, spec_keys(seq!["ui", "panel_stack_sizes"]), JsonModel::Object(spec_count_map_members(counts_view(s.ui_panel_stack_sizes@))));
    let d24 = spec_set_path(d23, spec_keys(seq!["ui", "saved_connections_sort_mode"]), JsonModel::Str(spec_saved_connections_sort_mode(s.ui_saved_connections_sort_mode@), None));
    let d25 = spec_set_path(d24, spec_keys(seq!["ui", "saved_connections_expanded_group_ids"]), spec_text_array(spec_clean_list(strings_view(s.ui_saved_connections_expanded_group_ids@), 512)));
    let d26 = spec_set_path(d25, spec_keys(seq!["ui", "start_workspace_mode"]), JsonModel::Str(spec_start_workspace_mode(s.ui_start_workspace_mode@), None));
    let d27 = spec_set_path(d26, spec_keys(seq!["ui", "asset_sort_key"]), spec_optional_trimmed_value(s.ui_asset_sort_key));
    let d28 = spec_set_path(d27, spec_keys(seq!["ui", "asset_sort_direction"]), spec_optional_text_or_null(spec_asset_sort_direction(opt_view(s.ui_asset_sort_direction))));
    let d29 = spec_set_path(d28, spec_keys(seq!["ui", "header_status_mode"]), JsonModel::Str(spec_header_status_setting(s.ui_header_status_mode@), None));
    let d30 = spec_set_path(d29, spec_keys(seq!["ui", "header_status_visible"]), JsonModel::Bool(s.ui_header_status_visible));
    assert(spec_saved_ui_layout_part1(d, s) == d8);
    assert(spec_saved_ui_layout_part2(d8, s) == d16);
    assert(spec_saved_ui_layout_part3(d16, s) == d24);
    assert(spec_saved_ui_layout_part4(d24, s) == d30);
    assert(spec_saved_ui_layout(d, s) == d30);
    lemma_set_path_then_read(d17, spec_keys(seq!["ui", "panel_open_mode"]), JsonModel::Str(spec_panel_open_mode(s.ui_panel_open_mode@), None));
    assert("panel_multi_open"@.len() != "panel_open_mode"@.len());
    assert(spec_keys(seq!["ui", "panel_multi_open"])[1] != spec_keys(seq!["ui", "panel_open_mode"])[1]);
    lemma_set_path_frame(d18, spec_keys(seq!["ui", "panel_multi_open"]), JsonModel::Bool(s.ui_panel_multi_open), spec_keys(seq!["ui", "panel_open_mode"]));
    assert("appearance"@.len() != "ui"@.len());
    assert(spec_keys(seq!["appearance", "panel_multi_open"])[0] != spec_keys(seq!["ui", "panel_open_mode"])[0]);
    lemma_set_path_frame(d19, spec_keys(seq!["appearance", "panel_multi_open"]), JsonModel::Bool(s.ui_panel_multi_open), spec_keys(seq!["ui", "panel_open_mode"]));
    assert("left_open_panels"@.len() != "panel_open_mode"@.len());
    assert(spec_keys(seq!["ui", "left_open_panels"])[1] != spec_keys(seq!["ui", "panel_open_mode"])[1]);
    lemma_set_path_frame(d20, spec_keys(seq!["ui", "left_open_panels"]), spec_text_array(spec_clean_list(strings_view(s.ui_left_open_panels@), 32)), spec_keys(seq!["ui", "panel_open_mode"]));
    assert("right_open_panels"@.len() != "panel_open_mode"@.len());
    assert(spec_keys(seq!["ui", "right_open_panels"])[1] != spec_keys(seq!["ui", "panel_open_mode"])[1]);
    lemma_set_path_frame(d21, spec_keys(seq!["ui", "right_open_panels"]), spec_text_array(spec_clean_list(strings_view(s.ui_right_open_panels@), 32)), spec_keys(seq!["ui", "panel_open_mode"]));
    assert("panel_stack_sizes"@.len() != "panel_open_mode"@.len());
    assert(spec_keys(seq!["ui", "panel_stack_sizes"])[1] != spec_keys(seq!["ui", "panel_open_mode"])[1]);
    lemma_set_path_frame(d22, spec_keys(seq!["ui", "panel_stack_sizes"]), JsonModel::Object(spec_count_map_members(counts_view(s.ui_panel_stack_sizes@))), spec_keys(seq!["ui", "panel_open_mode"]));
    assert("saved_connections_sort_mode"@.len() != "panel_open_mode"@.len());
    assert(spec_keys(seq!["ui", "saved_connections_sort_mode"])[1] != spec_keys(seq!["ui", "panel_open_mode"])[1]);
    lemma_set_path_frame(d23, spec_keys(seq!["ui", "saved_connections_sort_mode"]), JsonModel::Str(spec_saved_connections_sort_mode(s.ui_saved_connections_sort_mode@), None), spec_keys(seq!["ui", "panel_open_mode"]));
    assert("saved_connections_expanded_group_ids"@.len() != "panel_open_mode"@.len());
    assert(spec_keys(seq!["ui", "saved_connections_expanded_group_ids"])[1] != spec_keys(seq!["ui", "panel_open_mode"])[1]);
    lemma_set_path_frame(d24, spec_keys(seq!["ui", "saved_connections_expanded_group_ids"]), spec_text_array(spec_clean_list(strings_view(s.ui_saved_connections_expanded_group_ids@), 512)), spec_keys(seq!["ui", "panel_open_mode"]));
    assert("start_workspace_mode"@.len() != "panel_open_mode"@.len());
    assert(spec_keys(seq!["ui", "start_workspace_mode"])[1] != spec_keys(seq!["ui", "panel_open_mode"])[1]);
    lemma_set_path_frame(d25, spec_keys(seq!["ui", "start_workspace_mode"]), JsonModel::Str(spec_start_workspace_mode(s.ui_start_workspace_mode@), None), spec_keys(seq!["ui", "panel_open_mode"]));
    assert("asset_sort_key"@.len() != "panel_open_mode"@.len());
    assert(spec_keys(seq!["ui", "asset_sort_key"])[1] != spec_keys(seq!["ui", "panel_open_mode"])[1]);
    lemma_set_path_frame(d26, spec_keys(seq!["ui", "asset_sort_key"]), spec_optional_trimmed_value(s.ui_asset_sort_key), spec_keys(seq!["ui", "panel_open_mode"]));
    assert("asset_sort_direction"@.len() != "panel_open_mode"@.len());
    assert(spec_keys(seq!["ui", "asset_sort_direction"])[1] != spec_keys(seq!["ui", "panel_open_mode"])[1]);
    lemma_set_path_frame(d27, spec_keys(seq!["ui", "asset_sort_direction"]), spec_optional_text_or_null(spec_asset_sort_direction(opt_view(s.ui_asset_sort_direction))), spec_keys(seq!["ui", "panel_open_mode"]));
    assert("header_status_mode"@.len() != "panel_open_mode"@.len());
    assert(spec_keys(seq!["ui", "header_status_mode"])[1] != spec_keys(seq!["ui", "panel_open_mode"])[1]);
    lemma_set_path_frame(d28, spec_keys(seq!["ui", "header_status_mode"]), JsonModel::Str(spec_header_status_setting(s.ui_header_status_mode@), None), spec_keys(seq!["ui", "panel_open_mode"]));
    assert("header_status_visible"@.len() != "panel_open_mode"@.len());
    assert(spec_keys(seq!["ui", "header_status_visible"])[1] != spec_keys(seq!["ui", "panel_open_mode"])[1]);
    lemma_set_path_frame(d29, spec_keys(seq!["ui", "header_status_visible"]), JsonModel::Bool(s.ui_header_status_visible), spec_keys(seq!["ui", "panel_open_mode"]));
}

#[verifier::spinoff_prover]
proof fn lemma_saved_ui_layout_keeps_ui_panel_multi_open(d: JsonModel, s: AppSettingsSummary)
    ensures
        spec_json_path(spec_saved_ui_layout(d, s), spec_keys(seq!["ui", "panel_multi_open"])) == Some(JsonModel::Bool(s.ui_panel_multi_open)),
{
    reveal_strlit("appearance");
    reveal_strlit("asset_sort_direction");
    reveal_strlit("asset_sort_key");
    reveal_strlit("header_status_mode");
    reveal_strlit("header_status_visible");
    reveal_strlit("left_open_panels");
    reveal_strlit("panel_multi_open");
    reveal_strlit("panel_stack_sizes");
    reveal_strlit("right_open_panels");
    reveal_strlit("saved_connections_expanded_group_ids");
    reveal_strlit("saved_connections_sort_mode");
    reveal_strlit("start_workspace_mode");
    reveal_strlit("ui");
    let d1 = spec_set_path(d, spec_keys(seq!["ui", "left_width"]), JsonModel::Number(JsonNumber::PosInt(spec_clamp(s.ui_left_panel_width as int, 160, 720) as u64)));
    let d2 = spec_set_path(d1, spec_keys(seq!["ui", "right_width"]), JsonModel::Number(JsonNumber::PosInt(spec_clamp(s.ui_right_panel_width as int, 200, 720) as u64)));
    let d3 = spec_set_path(d2, spec_keys(seq!["ui", "transfer_height"]), JsonModel::Number(JsonNumber::PosInt(spec_clamp(s.ui_transfer_height as int, 60, 600) as u64)));
    let d4 = spec_set_path(d3, spec_keys(seq!["ui", "quick_cmd_height"]), JsonModel::Number(JsonNumber::PosInt(spec_clamp(s.ui_quick_cmd_height as int, 36, 520) as u64)));
    let d5 = spec_set_path(d4, spec_keys(seq!["ui", "show_quick_cmd_bar"]), JsonModel::Bool(s.ui_quick_cmd_visible));
    let d6 = spec_set_path(d5, spec_keys(seq!["ui", "serial_send_height"]), JsonModel::Number(JsonNumber::PosInt(spec_clamp(s.ui_serial_send_height as int, 60, 520) as u64)));
    let d7 = spec_set_path(d6, spec_keys(seq!["ui", "show_serial_send_panel"]), JsonModel::Bool(s.ui_serial_send_visible));
    let d8 = spec_set_path(d7, spec_keys(seq!["ui", "active_left_panel"]), spec_optional_panel_value(s.ui_active_left_panel));
    let d9 = spec_set_path(d8, spec_keys(seq!["ui", "active_right_panel"]), spec_optional_panel_value(s.ui_active_right_panel));
    let d10 = spec_set_path(d9, spec_keys(seq!["ui", "left_panel_collapsed"]), JsonModel::Bool(s.ui_left_panel_collapsed));
    let d11 = spec_set_path(d10, spec_keys(seq!["ui", "right_panel_collapsed"]), JsonModel::Bool(s.ui_right_panel_collapsed));
    let d12 = spec_set_path(d11, spec_keys(seq!["ui", "activity_bar_layout", "left_top"]), spec_text_array(spec_clean_list(strings_view(s.ui_activity_bar_left_top@), 32)));
    let d13 = spec_set_path(d12, spec_keys(seq!["ui", "activity_bar_layout", "left_bottom"]), spec_text_array(spec_clean_list(strings_view(s.ui_activity_bar_left_bottom@), 32)));
    let d14 = spec_set_path(d13, spec_keys(seq!["ui", "activity_bar_layout", "right_top"]), spec_text_array(spec_clean_list(strings_view(s.ui_activity_bar_right_top@), 32)));
    let d15 = spec_set_path(d14, spec_keys(seq!["ui", "activity_bar_layout", "right_bottom"]), spec_text_array(spec_clean_list(strings_view(s.ui_activity_bar_right_bottom@), 32)));
    let d16 = spec_set_path(d15, spec_keys(seq!["ui", "activity_bar_layout", "show_labels"]), JsonModel::Bool(s.ui_activity_bar_show_labels));
    let d17 = spec_set_path(d16, spec_keys(seq!["ui", "activity_bar_layout", "hidden_items"]), spec_text_array(spec_clean_list(strings_view(s.ui_activity_bar_hidden_items@), 64)));
    let d18 = spec_set_path(d17, spec_keys(seq!["ui", "panel_open_mode"]), JsonModel::Str(spec_panel_open_mode(s.ui_panel_open_mode@), None));
    let d19 = spec_set_path(d18, spec_keys(seq!["ui", "panel_multi_open"]), JsonModel::Bool(s.ui_panel_multi_open));
    let d20 = spec_set_path(d19, spec_keys(seq!["appearance", "panel_multi_open"]), JsonModel::Bool(s.ui_panel_multi_open));
    let d21 = spec_set_path(d20, spec_keys(seq!["ui", "left_open_panels"]), spec_text_array(spec_clean_list(strings_view(s.ui_left_open_panels@), 32)));
    let d22 = spec_set_path(d21, spec_keys(seq!["ui", "right_open_panels"]), spec_text_array(spec_clean_list(strings_view(s.ui_right_open_panels@), 32)));
    let d23 = spec_set_path(d22, spec_keys(seq!["ui", "panel_stack_sizes"]), JsonModel::Object(spec_count_map_members(counts_view(s.ui_panel_stack_sizes@))));
    let d24 = spec_set_path(d23, spec_keys(seq!["ui", "saved_connections_sort_mode"]), JsonModel::Str(spec_saved_connections_sort_mode(s.ui_saved_connections_sort_mode@), None));
    let d25 = spec_set_path(d24, spec_keys(seq!["ui", "saved_connections_expanded_group_ids"]), spec_text_array(spec_clean_list(strings_view(s.ui_saved_connections_expanded_group_ids@), 512)));
    let d26 = spec_set_path(d25, spec_keys(seq!["ui", "start_workspace_mode"]), JsonModel::Str(spec_start_workspace_mode(s.ui_start_workspace_mode@), None));
    let d27 = spec_set_path(d26, spec_keys(seq!["ui", "asset_sort_key"]), spec_optional_trimmed_value(s.ui_asset_sort_key));
    let d28 = spec_set_path(d27, spec_keys(seq!["ui", "asset_sort_direction"]), spec_optional_text_or_null(spec_asset_sort_direction(opt_view(s.ui_asset_sort_direction))));
    let d29 = spec_set_path(d28, spec_keys(seq!["ui", "header_status_mode"]), JsonModel::Str(spec_header_status_setting(s.ui_header_status_mode@), None));
    let d30 = spec_set_path(d29, spec_keys(seq!["ui", "header_status_visible"]), JsonModel::Bool(s.ui_header_status_visible));
    assert(spec_saved_ui_layout_part1(d, s) == d8);
    assert(spec_saved_ui_layout_part2(d8, s) == d16);
    assert(spec_saved_ui_layout_part3(d16, s) == d24);
    assert(spec_saved_ui_layout_part4(d24, s) == d30);
    assert(spec_saved_ui_layout(d, s) == d30);
    lemma_set_path_then_read(d18, spec_keys(seq!["ui", "panel_multi_open"]), JsonModel::Bool(s.ui_panel_multi_open));
    assert("appearance"@.len() != "ui"@.len());
    assert(spec_keys(seq!["appearance", "panel_multi_open"])[0] != spec_keys(seq!["ui", "panel_multi_open"])[0]);
    lemma_set_path_frame(d19, spec_keys(seq!["appearance", "panel_multi_open"]), JsonModel::Bool(s.ui_panel_multi_open), spec_keys(seq!["ui", "panel_multi_open"]));
    assert("left_open_panels"@[0] != "panel_multi_open"@[0]);
    assert(spec_keys(seq!["ui", "left_open_panels"])[1] != spec_keys(seq!["ui", "panel_multi_open"])[1]);
    lemma_set_path_frame(d20, spec_keys(seq!["ui", "left_open_panels"]), spec_text_array(spec_clean_list(strings_view(s.ui_left_open_panels@), 32)), spec_keys(seq!["ui", "panel_multi_open"]));
    assert("right_open_panels"@.len() != "panel_multi_open"@.len());
    assert(spec_keys(seq!["ui", "right_open_panels"])[1] != spec_keys(seq!["ui", "panel_multi_open"])[1]);
    lemma_set_path_frame(d21, spec_keys(seq!["ui", "right_open_panels"]), spec_text_array(spec_clean_list(strings_view(s.ui_right_open_panels@), 32)), spec_keys(seq!["ui", "panel_multi_open"]));
    assert("panel_stack_sizes"@.len() != "panel_multi_open"@.len());
    assert(spec_keys(seq!["ui", "panel_stack_sizes"])[1] != spec_keys(seq!["ui", "panel_multi_open"])[1]);
    lemma_set_path_frame(d22, spec_keys(seq!["ui", "panel_stack_sizes"]), JsonModel::Object(spec_count_map_members(counts_view(s.ui_panel_stack_sizes@))), spec_keys(seq!["ui", "panel_multi_open"]));
    assert("saved_connections_sort_mode"@.len() != "panel_multi_open"@.len());
    assert(spec_keys(seq!["ui", "saved_connections_sort_mode"])[1] != spec_keys(seq!["ui", "panel_multi_open"])[1]);
    lemma_set_path_frame(d23, spec_keys(seq!["ui", "saved_connections_sort_mode"]), JsonModel::Str(spec_saved_connections_sort_mode(s.ui_saved_connections_sort_mode@), None), spec_keys(seq!["ui", "panel_multi_open"]));
    assert("saved_connections_expanded_group_ids"@.len() != "panel_multi_open"@.len());
    assert(spec_keys(seq!["ui", "saved_connections_expanded_group_ids"])[1] != spec_keys(seq!["ui", "panel_multi_open"])[1]);
    lemma_set_path_frame(d24, spec_keys(seq!["ui", "saved_connections_expanded_group_ids"]), spec_text_array(spec_clean_list(strings_view(s.ui_saved_connections_expanded_group_ids@), 512)), spec_keys(seq!["ui", "panel_multi_open"]));
    assert("start_workspace_mode"@.len() != "panel_multi_open"@.len());
    assert(spec_keys(seq!["ui", "start_workspace_mode"])[1] != spec_keys(seq!["ui", "panel_multi_open"])[1]);
    lemma_set_path_frame(d25, spec_keys(seq!["ui", "start_workspace_mode"]), JsonModel::Str(spec_start_workspace_mode(s.ui_start_workspace_mode@), None), spec_keys(seq!["ui", "panel_multi_open"]));
    assert("asset_sort_key"@.len() != "panel_multi_open"@.len());
    assert(spec_keys(seq!["ui", "asset_sort_key"])[1] != spec_keys(seq!["ui", "panel_multi_open"])[1]);
    lemma_set_path_frame(d26, spec_keys(seq!["ui", "asset_sort_key"]), spec_optional_trimmed_value(s.ui_asset_sort_key), spec_keys(seq!["ui", "panel_multi_open"]));
    assert("asset_sort_direction"@.len() != "panel_multi_open"@.len());
    assert(spec_keys(seq!["ui", "asset_sort_direction"])[1] != spec_keys(seq!["ui", "panel_multi_open"])[1]);
    lemma_set_path_frame(d27, spec_keys(seq!["ui", "asset_sort_direction"]), spec_optional_text_or_null(spec_asset_sort_direction(opt_view(s.ui_asset_sort_direction))), spec_keys(seq!["ui", "panel_multi_open"]));
    assert("header_status_mode"@.len() != "panel_multi_open"@.len());
    assert(spec_keys(seq!["ui", "header_status_mode"])[1] != spec_keys(seq!["ui", "panel_multi_open"])[1]);
    lemma_set_path_frame(d28, spec_keys(seq!["ui", "header_status_mode"]), JsonModel::Str(spec_header_status_setting(s.ui_header_status_mode@), None), spec_keys(seq!["ui", "panel_multi_open"]));
    assert("header_status_visible"@.len() != "panel_multi_open"@.len());
    assert(spec_keys(seq!["ui", "header_status_visible"])[1] != spec_keys(seq!["ui", "panel_multi_open"])[1]);
    lemma_set_path_frame(d29, spec_keys(seq!["ui", "header_status_visible"]), JsonModel::Bool(s.ui_header_status_visible), spec_keys(seq!["ui", "panel_multi_open"]));
}

#[verifier::spinoff_prover]
proof fn lemma_saved_ui_layout_keeps_appearance_panel_multi_open(d: JsonModel, s: AppSettingsSummary)
    ensures
        spec_json_path(spec_saved_ui_layout(d, s), spec_keys(seq!["appearance", "panel_multi_open"])) == Some(JsonModel::Bool(s.ui_panel_multi_open)),
{
    reveal_strlit("appearance");
    reveal_strlit("panel_multi_open");
    reveal_strlit("ui");
    let d1 = spec_set_path(d, spec_keys(seq!["ui", "left_width"]), JsonModel::Number(JsonNumber::PosInt(spec_clamp(s.ui_left_panel_width as int, 160, 720) as u64)));
    let d2 = spec_set_path(d1, spec_keys(seq!["ui", "right_width"]), JsonModel::Number(JsonNumber::PosInt(spec_clamp(s.ui_right_panel_width as int, 200, 720) as u64)));
    let d3 = spec_set_path(d2, spec_keys(seq!["ui", "transfer_height"]), JsonModel::Number(JsonNumber::PosInt(spec_clamp(s.ui_transfer_height as int, 60, 600) as u64)));
    let d4 = spec_set_path(d3, spec_keys(seq!["ui", "quick_cmd_height"]), JsonModel::Number(JsonNumber::PosInt(spec_clamp(s.ui_quick_cmd_height as int, 36, 520) as u64)));
    let d5 = spec_set_path(d4, spec_keys(seq!["ui", "show_quick_cmd_bar"]), JsonModel::Bool(s.ui_quick_cmd_visible));
    let d6 = spec_set_path(d5, spec_keys(seq!["ui", "serial_send_height"]), JsonModel::Number(JsonNumber::PosInt(spec_clamp(s.ui_serial_send_height as int, 60, 520) as u64)));
    let d7 = spec_set_path(d6, spec_keys(seq!["ui", "show_serial_send_panel"]), JsonModel::Bool(s.ui_serial_send_visible));
    let d8 = spec_set_path(d7, spec_keys(seq!["ui", "active_left_panel"]), spec_optional_panel_value(s.ui_active_left_panel));
    let d9 = spec_set_path(d8, spec_keys(seq!["ui", "active_right_panel"]), spec_optional_panel_value(s.ui_active_right_panel));
    let d10 = spec_set_path(d9, spec_keys(seq!["ui", "left_panel_collapsed"]), JsonModel::Bool(s.ui_left_panel_collapsed));
    let d11 = spec_set_path(d10, spec_keys(seq!["ui", "right_panel_collapsed"]), JsonModel::Bool(s.ui_right_panel_collapsed));
    let d12 = spec_set_path(d11, spec_keys(seq!["ui", "activity_bar_layout", "left_top"]), spec_text_array(spec_clean_list(strings_view(s.ui_activity_bar_left_top@), 32)));
    let d13 = spec_set_path(d12, spec_keys(seq!["ui", "activity_bar_layout", "left_bottom"]), spec_text_array(spec_clean_list(strings_view(s.ui_activity_bar_left_bottom@), 32)));
    let d14 = spec_set_path(d13, spec_keys(seq!["ui", "activity_bar_layout", "right_top"]), spec_text_array(spec_clean_list(strings_view(s.ui_activity_bar_right_top@), 32)));
    let d15 = spec_set_path(d14, spec_keys(seq!["ui", "activity_bar_layout", "right_bottom"]), spec_text_array(spec_clean_list(strings_view(s.ui_activity_bar_right_bottom@), 32)));
    let d16 = spec_set_path(d15, spec_keys(seq!["ui", "activity_bar_layout", "show_labels"]), JsonModel::Bool(s.ui_activity_bar_show_labels));
    let d17 = spec_set_path(d16, spec_keys(seq!["ui", "activity_bar_layout", "hidden_items"]), spec_text_array(spec_clean_list(strings_view(s.ui_activity_bar_hidden_items@), 64)));
    let d18 = spec_set_path(d17, spec_keys(seq!["ui", "panel_open_mode"]), JsonModel::Str(spec_panel_open_mode(s.ui_panel_open_mode@), None));
    let d19 = spec_set_path(d18, spec_keys(seq!["ui", "panel_multi_open"]), JsonModel::Bool(s.ui_panel_multi_open));
    let d20 = spec_set_path(d19, spec_keys(seq!["appearance", "panel_multi_open"]), JsonModel::Bool(s.ui_panel_multi_open));
    let d21 = spec_set_path(d20, spec_keys(seq!["ui", "left_open_panels"]), spec_text_array(spec_clean_list(strings_view(s.ui_left_open_panels@), 32)));
    let d22 = spec_set_path(d21, spec_keys(seq!["ui", "right_open_panels"]), spec_text_array(spec_clean_list(strings_view(s.ui_right_open_panels@), 32)));
    let d23 = spec_set_path(d22, spec_keys(seq!["ui", "panel_stack_sizes"]), JsonModel::Object(spec_count_map_members(counts_view(s.ui_panel_stack_sizes@))));
    let d24 = spec_set_path(d23, spec_keys(seq!["ui", "saved_connections_sort_mode"]), JsonModel::Str(spec_saved_connections_sort_mode(s.ui_saved_connections_sort_mode@), None));
    let d25 = spec_set_path(d24, spec_keys(seq!["ui", "saved_connections_expanded_group_ids"]), spec_text_array(spec_clean_list(strings_view(s.ui_saved_connections_expanded_group_ids@), 512)));
    let d26 = spec_set_path(d25, spec_keys(seq!["ui", "start_workspace_mode"]), JsonModel::Str(spec_start_workspace_mode(s.ui_start_workspace_mode@), None));
    let d27 = spec_set_path(d26, spec_keys(seq!["ui", "asset_sort_key"]), spec_optional_trimmed_value(s.ui_asset_sort_key));
    let d28 = spec_set_path(d27, spec_keys(seq!["ui", "asset_sort_direction"]), spec_optional_text_or_null(spec_asset_sort_direction(opt_view(s.ui_asset_sort_direction))));
    let d29 = spec_set_path(d28, spec_keys(seq!["ui", "header_status_mode"]), JsonModel::Str(spec_header_status_setting(s.ui_header_status_mode@), None));
    let d30 = spec_set_path(d29, spec_keys(seq!["ui", "header_status_visible"]), JsonModel::Bool(s.ui_header_status_visible));
    assert(spec_saved_ui_layout_part1(d, s) == d8);
    assert(spec_saved_ui_layout_part2(d8, s) == d16);
    assert(spec_saved_ui_layout_part3(d16, s) == d24);
    assert(spec_saved_ui_layout_part4(d24, s) == d30);
    assert(spec_saved_ui_layout(d, s) == d30);
    lemma_set_path_then_read(d19, spec_keys(seq!["appearance", "panel_multi_open"]), JsonModel::Bool(s.ui_panel_multi_open));
    assert("ui"@.len() != "appearance"@.len());
    assert(spec_keys(seq!["ui", "left_open_panels"])[0] != spec_keys(seq!["appearance", "panel_multi_open"])[0]);
    lemma_set_path_frame(d20, spec_keys(seq!["ui", "left_open_panels"]), spec_text_array(spec_clean_list(strings_view(s.ui_left_open_panels@), 32)), spec_keys(seq!["appearance", "panel_multi_open"]));
    assert("ui"@.len() != "appearance"@.len());
    assert(spec_keys(seq!["ui", "right_open_panels"])[0] != spec_keys(seq!["appearance", "panel_multi_open"])[0]);
    lemma_set_path_frame(d21, spec_keys(seq!["ui", "right_open_panels"]), spec_text_array(spec_clean_list(strings_view(s.ui_right_open_panels@), 32)), spec_keys(seq!["appearance", "panel_multi_open"]));
    assert("ui"@.len() != "appearance"@.len());
    assert(spec_keys(seq!["ui", "panel_stack_sizes"])[0] != spec_keys(seq!["appearance", "panel_multi_open"])[0]);
    lemma_set_path_frame(d22, spec_keys(seq!["ui", "panel_stack_sizes"]), JsonModel::Object(spec_count_map_members(counts_view(s.ui_panel_stack_sizes@))), spec_keys(seq!["appearance", "panel_multi_open"]));
    assert("ui"@.len() != "appearance"@.len());
    assert(spec_keys(seq!["ui", "saved_connections_sort_mode"])[0] != spec_keys(seq!["appearance", "panel_multi_open"])[0]);
    lemma_set_path_frame(d23, spec_keys(seq!["ui", "saved_connections_sort_mode"]), JsonModel::Str(spec_saved_connections_sort_mode(s.ui_saved_connections_sort_mode@), None), spec_keys(seq!["appearance", "panel_multi_open"]));
    assert("ui"@.len() != "appearance"@.len());
    assert(spec_keys(seq!["ui", "saved_connections_expanded_group_ids"])[0] != spec_keys(seq!["appearance", "panel_multi_open"])[0]);
    lemma_set_path_frame(d24, spec_keys(seq!["ui", "saved_connections_expanded_group_ids"]), spec_text_array(spec_clean_list(strings_view(s.ui_saved_connections_expanded_group_ids@), 512)), spec_keys(seq!["appearance", "panel_multi_open"]));
    assert("ui"@.len() != "appearance"@.len());
    assert(spec_keys(seq!["ui", "start_workspace_mode"])[0] != spec_keys(seq!["appearance", "panel_multi_open"])[0]);
    lemma_set_path_frame(d25, spec_keys(seq!["ui", "start_workspace_mode"]), JsonModel::Str(spec_start_workspace_mode(s.ui_start_workspace_mode@), None), spec_keys(seq!["appearance", "panel_multi_open"]));
    assert("ui"@.len() != "appearance"@.len());
    assert(spec_keys(seq!["ui", "asset_sort_key"])[0] != spec_keys(seq!["appearance", "panel_multi_open"])[0]);
    lemma_set_path_frame(d26, spec_keys(seq!["ui", "asset_sort_key"]), spec_optional_trimmed_value(s.ui_asset_sort_key), spec_keys(seq!["appearance", "panel_multi_open"]));
    assert("ui"@.len() != "appearance"@.len());
    assert(spec_keys(seq!["ui", "asset_sort_direction"])[0] != spec_keys(seq!["appearance", "panel_multi_open"])[0]);
    lemma_set_path_frame(d27, spec_keys(seq!["ui", "asset_sort_direction"]), spec_optional_text_or_null(spec_asset_sort_direction(opt_view(s.ui_asset_sort_direction))), spec_keys(seq!["appearance", "panel_multi_open"]));
    assert("ui"@.len() != "appearance"@.len());
    assert(spec_keys(seq!["ui", "header_status_mode"])[0] != spec_keys(seq!["appearance", "panel_multi_open"])[0]);
    lemma_set_path_frame(d28, spec_keys(seq!["ui", "header_status_mode"]), JsonModel::Str(spec_header_status_setting(s.ui_header_status_mode@), None), spec_keys(seq!["appearance", "panel_multi_open"]));
    assert("ui"@.len() != "appearance"@.len());
    assert(spec_keys(seq!["ui", "header_status_visible"])[0] != spec_keys(seq!["appearance", "panel_multi_open"])[0]);
    lemma_set_path_frame(d29, spec_keys(seq!["ui", "header_status_visible"]), JsonModel::Bool(s.ui_header_status_visible), spec_keys(seq!["appearance", "panel_multi_open"]));
}

#[verifier::spinoff_prover]
proof fn lemma_saved_ui_layout_keeps_ui_left_open_panels(d: JsonModel, s: AppSettingsSummary)
    ensures
        spec_json_path(spec_saved_ui_layout(d, s), spec_keys(seq!["ui", "left_open_panels"])) == Some(spec_text_array(spec_clean_list(strings_view(s.ui_left_open_panels@), 32))),
{
    reveal_strlit("asset_sort_direction");
    reveal_strlit("asset_sort_key");
    reveal_strlit("header_status_mode");
    reveal_strlit("header_status_visible");
    reveal_strlit("left_open_panels");
    reveal_strlit("panel_stack_sizes");
    reveal_strlit("right_open_panels");
    reveal_strlit("saved_connections_expanded_group_ids");
    reveal_strlit("saved_connections_sort_mode");
    reveal_strlit("start_workspace_mode");
    reveal_strlit("ui");
    let d1 = spec_set_path(d, spec_keys(seq!["ui", "left_width"]), JsonModel::Number(JsonNumber::PosInt(spec_clamp(s.ui_left_panel_width as int, 160, 720) as u64)));
    let d2 = spec_set_path(d1, spec_keys(seq!["ui", "right_width"]), JsonModel::Number(JsonNumber::PosInt(spec_clamp(s.ui_right_panel_width as int, 200, 720) as u64)));
    let d3 = spec_set_path(d2, spec_keys(seq!["ui", "transfer_height"]), JsonModel::Number(JsonNumber::PosInt(spec_clamp(s.ui_transfer_height as int, 60, 600) as u64)));
    let d4 = spec_set_path(d3, spec_keys(seq!["ui", "quick_cmd_height"]), JsonModel::Number(JsonNumber::PosInt(spec_clamp(s.ui_quick_cmd_height as int, 36, 520) as u64)));
    let d5 = spec_set_path(d4, spec_keys(seq!["ui", "show_quick_cmd_bar"]), JsonModel::Bool(s.ui_quick_cmd_visible));
    let d6 = spec_set_path(d5, spec_keys(seq!["ui", "serial_send_height"]), JsonModel::Number(JsonNumber::PosInt(spec_clamp(s.ui_serial_send_height as int, 60, 520) as u64)));
    let d7 = spec_set_path(d6, spec_keys(seq!["ui", "show_serial_send_panel"]), JsonModel::Bool(s.ui_serial_send_visible));
    let d8 = spec_set_path(d7, spec_keys(seq!["ui", "active_left_panel"]), spec_optional_panel_value(s.ui_active_left_panel));
    let d9 = spec_set_path(d8, spec_keys(seq!["ui", "active_right_panel"]), spec_optional_panel_value(s.ui_active_right_panel));
    let d10 = spec_set_path(d9, spec_keys(seq!["ui", "left_panel_collapsed"]), JsonModel::Bool(s.ui_left_panel_collapsed));
    let d11 = spec_set_path(d10, spec_keys(seq!["ui", "right_panel_collapsed"]), JsonModel::Bool(s.ui_right_panel_collapsed));
    let d12 = spec_set_path(d11, spec_keys(seq!["ui", "activity_bar_layout", "left_top"]), spec_text_array(spec_clean_list(strings_view(s.ui_activity_bar_left_top@), 32)));
    let d13 = spec_set_path(d12, spec_keys(seq!["ui", "activity_bar_layout", "left_bottom"]), spec_text_array(spec_clean_list(strings_view(s.ui_activity_bar_left_bottom@), 32)));
    let d14 = spec_set_path(d13, spec_keys(seq!["ui", "activity_bar_layout", "right_top"]), spec_text_array(spec_clean_list(strings_view(s.ui_activity_bar_right_top@), 32)));
    let d15 = spec_set_path(d14, spec_keys(seq!["ui", "activity_bar_layout", "right_bottom"]), spec_text_array(spec_clean_list(strings_view(s.ui_activity_bar_right_bottom@), 32)));
    let d16 = spec_set_path(d15, spec_keys(seq!["ui", "activity_bar_layout", "show_labels"]), JsonModel::Bool(s.ui_activity_bar_show_labels));
    let d17 = spec_set_path(d16, spec_keys(seq!["ui", "activity_bar_layout", "hidden_items"]), spec_text_array(spec_clean_list(strings_view(s.ui_activity_bar_hidden_items@), 64)));
    let d18 = spec_set_path(d17, spec_keys(seq!["ui", "panel_open_mode"]), JsonModel::Str(spec_panel_open_mode(s.ui_panel_open_mode@), None));
    let d19 = spec_set_path(d18, spec_keys(seq!["ui", "panel_multi_open"]), JsonModel::Bool(s.ui_panel_multi_open));
    let d20 = spec_set_path(d19, spec_keys(seq!["appearance", "panel_multi_open"]), JsonModel::Bool(s.ui_panel_multi_open));
    let d21 = spec_set_path(d20, spec_keys(seq!["ui", "left_open_panels"]), spec_text_array(spec_clean_list(strings_view(s.ui_left_open_panels@), 32)));
    let d22 = spec_set_path(d21, spec_keys(seq!["ui", "right_open_panels"]), spec_text_array(spec_clean_list(strings_view(s.ui_right_open_panels@), 32)));
    let d23 = spec_set_path(d22, spec_keys(seq!["ui", "panel_stack_sizes"]), JsonModel::Object(spec_count_map_members(counts_view(s.ui_panel_stack_sizes@))));
    let d24 = spec_set_path(d23, spec_keys(seq!["ui", "saved_connections_sort_mode"]), JsonModel::Str(spec_saved_connections_sort_mode(s.ui_saved_connections_sort_mode@), None));
    let d25 = spec_set_path(d24, spec_keys(seq!["ui", "saved_connections_expanded_group_ids"]), spec_text_array(spec_clean_list(strings_view(s.ui_saved_connections_expanded_group_ids@), 512)));
    let d26 = spec_set_path(d25, spec_keys(seq!["ui", "start_workspace_mode"]), JsonModel::Str(spec_start_workspace_mode(s.ui_start_workspace_mode@), None));
    let d27 = spec_set_path(d26, spec_keys(seq!["ui", "asset_sort_key"]), spec_optional_trimmed_value(s.ui_asset_sort_key));
    let d28 = spec_set_path(d27, spec_keys(seq!["ui", "asset_sort_direction"]), spec_optional_text_or_null(spec_asset_sort_direction(opt_view(s.ui_asset_sort_direction))));
    let d29 = spec_set_path(d28, spec_keys(seq!["ui", "header_status_mode"]), JsonModel::Str(spec_header_status_setting(s.ui_header_status_mode@), None));
    let d30 = spec_set_path(d29, spec_keys(seq!["ui", "header_status_visible"]), JsonModel::Bool(s.ui_header_status_visible));
    assert(spec_saved_ui_layout_part1(d, s) == d8);
    assert(spec_saved_ui_layout_part2(d8, s) == d16);
    assert(spec_saved_ui_layout_part3(d16, s) == d24);
    assert(spec_saved_ui_layout_part4(d24, s) == d30);
    assert(spec_saved_ui_layout(d, s) == d30);
    lemma_set_path_then_read(d20, spec_keys(seq!["ui", "left_open_panels"]), spec_text_array(spec_clean_list(strings_view(s.ui_left_open_panels@), 32)));
    assert("right_open_panels"@.len() != "left_open_panels"@.len());
    assert(spec_keys(seq!["ui", "right_open_panels"])[1] != spec_keys(seq!["ui", "left_open_panels"])[1]);
    lemma_set_path_frame(d21, spec_keys(seq!["ui", "right_open_panels"]), spec_text_array(spec_clean_list(strings_view(s.ui_right_open_panels@), 32)), spec_keys(seq!["ui", "left_open_panels"]));
    assert("panel_stack_sizes"@.len() != "left_open_panels"@.len());
    assert(spec_keys(seq!["ui", "panel_stack_sizes"])[1] != spec_keys(seq!["ui", "left_open_panels"])[1]);
    lemma_set_path_frame(d22, spec_keys(seq!["ui", "panel_stack_sizes"]), JsonModel::Object(spec_count_map_members(counts_view(s.ui_panel_stack_sizes@))), spec_keys(seq!["ui", "left_open_panels"]));
    assert("saved_connections_sort_mode"@.len() != "left_open_panels"@.len());
    assert(spec_keys(seq!["ui", "saved_connections_sort_mode"])[1] != spec_keys(seq!["ui", "left_open_panels"])[1]);
    lemma_set_path_frame(d23, spec_keys(seq!["ui", "saved_connections_sort_mode"]), JsonModel::Str(spec_saved_connections_sort_mode(s.ui_saved_connections_sort_mode@), None), spec_keys(seq!["ui", "left_open_panels"]));
    assert("saved_connections_expanded_group_ids"@.len() != "left_open_panels"@.len());
    assert(spec_keys(seq!["ui", "saved_connections_expanded_group_ids"])[1] != spec_keys(seq!["ui", "left_open_panels"])[1]);
    lemma_set_path_frame(d24, spec_keys(seq!["ui", "saved_connections_expanded_group_ids"]), spec_text_array(spec_clean_list(strings_view(s.ui_saved_connections_expanded_group_ids@), 512)), spec_keys(seq!["ui", "left_open_panels"]));
    assert("start_workspace_mode"@.len() != "left_open_panels"@.len());
    assert(spec_keys(seq!["ui", "start_workspace_mode"])[1] != spec_keys(seq!["ui", "left_open_panels"])[1]);
    lemma_set_path_frame(d25, spec_keys(seq!["ui", "start_workspace_mode"]), JsonModel::Str(spec_start_workspace_mode(s.ui_start_workspace_mode@), None), spec_keys(seq!["ui", "left_open_panels"]));
    assert("asset_sort_key"@.len() != "left_open_panels"@.len());
    assert(spec_keys(seq!["ui", "asset_sort_key"])[1] != spec_keys(seq!["ui", "left_open_panels"])[1]);
    lemma_set_path_frame(d26, spec_keys(seq!["ui", "asset_sort_key"]), spec_optional_trimmed_value(s.ui_asset_sort_key), spec_keys(seq!["ui", "left_open_panels"]));
    assert("asset_sort_direction"@.len() != "left_open_panels"@.len());
    assert(spec_keys(seq!["ui", "asset_sort_direction"])[1] != spec_keys(seq!["ui", "left_open_panels"])[1]);
    lemma_set_path_frame(d27, spec_keys(seq!["ui", "asset_sort_direction"]), spec_optional_text_or_null(spec_asset_sort_direction(opt_view(s.ui_asset_sort_direction))), spec_keys(seq!["ui", "left_open_panels"]));
    assert("header_status_mode"@.len() != "left_open_panels"@.len());
    assert(spec_keys(seq!["ui", "header_status_mode"])[1] != spec_keys(seq!["ui", "left_open_panels"])[1]);
    lemma_set_path_frame(d28, spec_keys(seq!["ui", "header_status_mode"]), JsonModel::Str(spec_header_status_setting(s.ui_header_status_mode@), None), spec_keys(seq!["ui", "left_open_panels"]));
    assert("header_status_visible"@.len() != "left_open_panels"@.len());
    assert(spec_keys(seq!["ui", "header_status_visible"])[1] != spec_keys(seq!["ui", "left_open_panels"])[1]);
    lemma_set_path_frame(d29, spec_keys(seq!["ui", "header_status_visible"]), JsonModel::Bool(s.ui_header_status_visible), spec_keys(seq!["ui", "left_open_panels"]));
}

#[verifier::spinoff_prover]
proof fn lemma_saved_ui_layout_keeps_ui_right_open_panels(d: JsonModel, s: AppSettingsSummary)
    ensures
        spec_json_path(spec_saved_ui_layout(d, s), spec_keys(seq!["ui", "right_open_panels"])) == Some(spec_text_array(spec_clean_list(strings_view(s.ui_right_open_panels@), 32))),
{
    reveal_strlit("asset_sort_direction");
    reveal_strlit("asset_sort_key");
    reveal_strlit("header_status_mode");
    reveal_strlit("header_status_visible");
    reveal_strlit("panel_stack_sizes");
    reveal_strlit("right_open_panels");
    reveal_strlit("saved_connections_expanded_group_ids");
    reveal_strlit("saved_connections_sort_mode");
    reveal_strlit("start_workspace_mode");
    reveal_strlit("ui");
    let d1 = spec_set_path(d, spec_keys(seq!["ui", "left_width"]), JsonModel::Number(JsonNumber::PosInt(spec_clamp(s.ui_left_panel_width as int, 160, 720) as u64)));
    let d2 = spec_set_path(d1, spec_keys(seq!["ui", "right_width"]), JsonModel::Number(JsonNumber::PosInt(spec_clamp(s.ui_right_panel_width as int, 200, 720) as u64)));
    let d3 = spec_set_path(d2, spec_keys(seq!["ui", "transfer_height"]), JsonModel::Number(JsonNumber::PosInt(spec_clamp(s.ui_transfer_height as int, 60, 600) as u64)));
    let d4 = spec_set_path(d3, spec_keys(seq!["ui", "quick_cmd_height"]), JsonModel::Number(JsonNumber::PosInt(spec_clamp(s.ui_quick_cmd_height as int, 36, 520) as u64)));
    let d5 = spec_set_path(d4, spec_keys(seq!["ui", "show_quick_cmd_bar"]), JsonModel::Bool(s.ui_quick_cmd_visible));
    let d6 = spec_set_path(d5, spec_keys(seq!["ui", "serial_send_height"]), JsonModel::Number(JsonNumber::PosInt(spec_clamp(s.ui_serial_send_height as int, 60, 520) as u64)));
    let d7 = spec_set_path(d6, spec_keys(seq!["ui", "show_serial_send_panel"]), JsonModel::Bool(s.ui_serial_send_visible));
    let d8 = spec_set_path(d7, spec_keys(seq!["ui", "active_left_panel"]), spec_optional_panel_value(s.ui_active_left_panel));
    let d9 = spec_set_path(d8, spec_keys(seq!["ui", "active_right_panel"]), spec_optional_panel_value(s.ui_active_right_panel));
    let d10 = spec_set_path(d9, spec_keys(seq!["ui", "left_panel_collapsed"]), JsonModel::Bool(s.ui_left_panel_collapsed));
    let d11 = spec_set_path(d10, spec_keys(seq!["ui", "right_panel_collapsed"]), JsonModel::Bool(s.ui_right_panel_collapsed));
    let d12 = spec_set_path(d11, spec_keys(seq!["ui", "activity_bar_layout", "left_top"]), spec_text_array(spec_clean_list(strings_view(s.ui_activity_bar_left_top@), 32)));
    let d13 = spec_set_path(d12, spec_keys(seq!["ui", "activity_bar_layout", "left_bottom"]), spec_text_array(spec_clean_list(strings_view(s.ui_activity_bar_left_bottom@), 32)));
    let d14 = spec_set_path(d13, spec_keys(seq!["ui", "activity_bar_layout", "right_top"]), spec_text_array(spec_clean_list(strings_view(s.ui_activity_bar_right_top@), 32)));
    let d15 = spec_set_path(d14, spec_keys(seq!["ui", "activity_bar_layout", "right_bottom"]), spec_text_array(spec_clean_list(strings_view(s.ui_activity_bar_right_bottom@), 32)));
    let d16 = spec_set_path(d15, spec_keys(seq!["ui", "activity_bar_layout", "show_labels"]), JsonModel::Bool(s.ui_activity_bar_show_labels));
    let d17 = spec_set_path(d16, spec_keys(seq!["ui", "activity_bar_layout", "hidden_items"]), spec_text_array(spec_clean_list(strings_view(s.ui_activity_bar_hidden_items@), 64)));
    let d18 = spec_set_path(d17, spec_keys(seq!["ui", "panel_open_mode"]), JsonModel::Str(spec_panel_open_mode(s.ui_panel_open_mode@), None));
    let d19 = spec_set_path(d18, spec_keys(seq!["ui", "panel_multi_open"]), JsonModel::Bool(s.ui_panel_multi_open));
    let d20 = spec_set_path(d19, spec_keys(seq!["appearance", "panel_multi_open"]), JsonModel::Bool(s.ui_panel_multi_open));
    let d21 = spec_set_path(d20, spec_keys(seq!["ui", "left_open_panels"]), spec_text_array(spec_clean_list(strings_view(s.ui_left_open_panels@), 32)));
    let d22 = spec_set_path(d21, spec_keys(seq!["ui", "right_open_panels"]), spec_text_array(spec_clean_list(strings_view(s.ui_right_open_panels@), 32)));
    let d23 = spec_set_path(d22, spec_keys(seq!["ui", "panel_stack_sizes"]), JsonModel::Object(spec_count_map_members(counts_view(s.ui_panel_stack_sizes@))));
    let d24 = spec_set_path(d23, spec_keys(seq!["ui", "saved_connections_sort_mode"]), JsonModel::Str(spec_saved_connections_sort_mode(s.ui_saved_connections_sort_mode@), None));
    let d25 = spec_set_path(d24, spec_keys(seq!["ui", "saved_connections_expanded_group_ids"]), spec_text_array(spec_clean_list(strings_view(s.ui_saved_connections_expanded_group_ids@), 512)));
    let d26 = spec_set_path(d25, spec_keys(seq!["ui", "start_workspace_mode"]), JsonModel::Str(spec_start_workspace_mode(s.ui_start_workspace_mode@), None));
    let d27 = spec_set_path(d26, spec_keys(seq!["ui", "asset_sort_key"]), spec_optional_trimmed_value(s.ui_asset_sort_key));
    let d28 = spec_set_path(d27, spec_keys(seq!["ui", "asset_sort_direction"]), spec_optional_text_or_null(spec_asset_sort_direction(opt_view(s.ui_asset_sort_direction))));
    let d29 = spec_set_path(d28, spec_keys(seq!["ui", "header_status_mode"]), JsonModel::Str(spec_header_status_setting(s.ui_header_status_mode@), None));
    let d30 = spec_set_path(d29, spec_keys(seq!["ui", "header_status_visible"]), JsonModel::Bool(s.ui_header_status_visible));
    assert(spec_saved_ui_layout_part1(d, s) == d8);
    assert(spec_saved_ui_layout_part2(d8, s) == d16);
    assert(spec_saved_ui_layout_part3(d16, s) == d24);
    assert(spec_saved_ui_layout_part4(d24, s) == d30);
    assert(spec_saved_ui_layout(d, s) == d30);
    lemma_set_path_then_read(d21, spec_keys(seq!["ui", "right_open_panels"]), spec_text_array(spec_clean_list(strings_view(s.ui_right_open_panels@), 32)));
    assert("panel_stack_sizes"@[0] != "right_open_panels"@[0]);
    assert(spec_keys(seq!["ui", "panel_stack_sizes"])[1] != spec_keys(seq!["ui", "right_open_panels"])[1]);
    lemma_set_path_frame(d22, spec_keys(seq!["ui", "panel_stack_sizes"]), JsonModel::Object(spec_count_map_members(counts_view(s.ui_panel_stack_sizes@))), spec_keys(seq!["ui", "right_open_panels"]));
    assert("saved_connections_sort_mode"@.len() != "right_open_panels"@.len());
    assert(spec_keys(seq!["ui", "saved_connections_sort_mode"])[1] != spec_keys(seq!["ui", "right_open_panels"])[1]);
    lemma_set_path_frame(d23, spec_keys(seq!["ui", "saved_connections_sort_mode"]), JsonModel::Str(spec_saved_connections_sort_mode(s.ui_saved_connections_sort_mode@), None), spec_keys(seq!["ui", "right_open_panels"]));
    assert("saved_connections_expanded_group_ids"@.len() != "right_open_panels"@.len());
    assert(spec_keys(seq!["ui", "saved_connections_expanded_group_ids"])[1] != spec_keys(seq!["ui", "right_open_panels"])[1]);
    lemma_set_path_frame(d24, spec_keys(seq!["ui", "saved_connections_expanded_group_ids"]), spec_text_array(spec_clean_list(strings_view(s.ui_saved_connections_expanded_group_ids@), 512)), spec_keys(seq!["ui", "right_open_panels"]));
    assert("start_workspace_mode"@.len() != "right_open_panels"@.len());
    assert(spec_keys(seq!["ui", "start_workspace_mode"])[1] != spec_keys(seq!["ui", "right_open_panels"])[1]);
    lemma_set_path_frame(d25, spec_keys(seq!["ui", "start_workspace_mode"]), JsonModel::Str(spec_start_workspace_mode(s.ui_start_workspace_mode@), None), spec_keys(seq!["ui", "right_open_panels"]));
    assert("asset_sort_key"@.len() != "right_open_panels"@.len());
    assert(spec_keys(seq!["ui", "asset_sort_key"])[1] != spec_keys(seq!["ui", "right_open_panels"])[1]);
    lemma_set_path_frame(d26, spec_keys(seq!["ui", "asset_sort_key"]), spec_optional_trimmed_value(s.ui_asset_sort_key), spec_keys(seq!["ui", "right_open_panels"]));
    assert("asset_sort_direction"@.len() != "right_open_panels"@.len());
    assert(spec_keys(seq!["ui", "asset_sort_direction"])[1] != spec_keys(seq!["ui", "right_open_panels"])[1]);
    lemma_set_path_frame(d27, spec_keys(seq!["ui", "asset_sort_direction"]), spec_optional_text_or_null(spec_asset_sort_direction(opt_view(s.ui_asset_sort_direction))), spec_keys(seq!["ui", "right_open_panels"]));
    assert("header_status_mode"@.len() != "right_open_panels"@.len());
    assert(spec_keys(seq!["ui", "header_status_mode"])[1] != spec_keys(seq!["ui", "right_open_panels"])[1]);
    lemma_set_path_frame(d28, spec_keys(seq!["ui", "header_status_mode"]), JsonModel::Str(spec_header_status_setting(s.ui_header_status_mode@), None), spec_keys(seq!["ui", "right_open_panels"]));
    assert("header_status_visible"@.len() != "right_open_panels"@.len());
    assert(spec_keys(seq!["ui", "header_status_visible"])[1] != spec_keys(seq!["ui", "right_open_panels"])[1]);
    lemma_set_path_frame(d29, spec_keys(seq!["ui", "header_status_visible"]), JsonModel::Bool(s.ui_header_status_visible), spec_keys(seq!["ui", "right_open_panels"]));
}

#[verifier::spinoff_prover]
proof fn lemma_saved_ui_layout_keeps_ui_panel_stack_sizes(d: JsonModel, s: AppSettingsSummary)
    ensures
        spec_json_path(spec_saved_ui_layout(d, s), spec_keys(seq!["ui", "panel_stack_sizes"])) == Some(JsonModel::Object(spec_count_map_members(counts_view(s.ui_panel_stack_sizes@)))),
{
    reveal_strlit("asset_sort_direction");
    reveal_strlit("asset_sort_key");
    reveal_strlit("header_status_mode");
    reveal_strlit("header_status_visible");
    reveal_strlit("panel_stack_sizes");
    reveal_strlit("saved_connections_expanded_group_ids");
    reveal_strlit("saved_connections_sort_mode");
    reveal_strlit("start_workspace_mode");
    reveal_strlit("ui");
    let d1 = spec_set_path(d, spec_keys(seq!["ui", "left_width"]), JsonModel::Number(JsonNumber::PosInt(spec_clamp(s.ui_left_panel_width as int, 160, 720) as u64)));
    let d2 = spec_set_path(d1, spec_keys(seq!["ui", "right_width"]), JsonModel::Number(JsonNumber::PosInt(spec_clamp(s.ui_right_panel_width as int, 200, 720) as u64)));
    let d3 = spec_set_path(d2, spec_keys(seq!["ui", "transfer_height"]), JsonModel::Number(JsonNumber::PosInt(spec_clamp(s.ui_transfer_height as int, 60, 600) as u64)));
    let d4 = spec_set_path(d3, spec_keys(seq!["ui", "quick_cmd_height"]), JsonModel::Number(JsonNumber::PosInt(spec_clamp(s.ui_quick_cmd_height as int, 36, 520) as u64)));
    let d5 = spec_set_path(d4, spec_keys(seq!["ui", "show_quick_cmd_bar"]), JsonModel::Bool(s.ui_quick_cmd_visible));
    let d6 = spec_set_path(d5, spec_keys(seq!["ui", "serial_send_height"]), JsonModel::Number(JsonNumber::PosInt(spec_clamp(s.ui_serial_send_height as int, 60, 520) as u64)));
    let d7 = spec_set_path(d6, spec_keys(seq!["ui", "show_serial_send_panel"]), JsonModel::Bool(s.ui_serial_send_visible));
    let d8 = spec_set_path(d7, spec_keys(seq!["ui", "active_left_panel"]), spec_optional_panel_value(s.ui_active_left_panel));
    let d9 = spec_set_path(d8, spec_keys(seq!["ui", "active_right_panel"]), spec_optional_panel_value(s.ui_active_right_panel));
    let d10 = spec_set_path(d9, spec_keys(seq!["ui", "left_panel_collapsed"]), JsonModel::Bool(s.ui_left_panel_collapsed));
    let d11 = spec_set_path(d10, spec_keys(seq!["ui", "right_panel_collapsed"]), JsonModel::Bool(s.ui_right_panel_collapsed));
    let d12 = spec_set_path(d11, spec_keys(seq!["ui", "activity_bar_layout", "left_top"]), spec_text_array(spec_clean_list(strings_view(s.ui_activity_bar_left_top@), 32)));
    let d13 = spec_set_path(d12, spec_keys(seq!["ui", "activity_bar_layout", "left_bottom"]), spec_text_array(spec_clean_list(strings_view(s.ui_activity_bar_left_bottom@), 32)));
    let d14 = spec_set_path(d13, spec_keys(seq!["ui", "activity_bar_layout", "right_top"]), spec_text_array(spec_clean_list(strings_view(s.ui_activity_bar_right_top@), 32)));
    let d15 = spec_set_path(d14, spec_keys(seq!["ui", "activity_bar_layout", "right_bottom"]), spec_text_array(spec_clean_list(strings_view(s.ui_activity_bar_right_bottom@), 32)));
    let d16 = spec_set_path(d15, spec_keys(seq!["ui", "activity_bar_layout", "show_labels"]), JsonModel::Bool(s.ui_activity_bar_show_labels));
    let d17 = spec_set_path(d16, spec_keys(seq!["ui", "activity_bar_layout", "hidden_items"]), spec_text_array(spec_clean_list(strings_view(s.ui_activity_bar_hidden_items@), 64)));
    let d18 = spec_set_path(d17, spec_keys(seq!["ui", "panel_open_mode"]), JsonModel::Str(spec_panel_open_mode(s.ui_panel_open_mode@), None));
    let d19 = spec_set_path(d18, spec_keys(seq!["ui", "panel_multi_open"]), JsonModel::Bool(s.ui_panel_multi_open));
    let d20 = spec_set_path(d19, spec_keys(seq!["appearance", "panel_multi_open"]), JsonModel::Bool(s.ui_panel_multi_open));
    let d21 = spec_set_path(d20, spec_keys(seq!["ui", "left_open_panels"]), spec_text_array(spec_clean_list(strings_view(s.ui_left_open_panels@), 32)));
    let d22 = spec_set_path(d21, spec_keys(seq!["ui", "right_open_panels"]), spec_text_array(spec_clean_list(strings_view(s.ui_right_open_panels@), 32)));
    let d23 = spec_set_path(d22, spec_keys(seq!["ui", "panel_stack_sizes"]), JsonModel::Object(spec_count_map_members(counts_view(s.ui_panel_stack_sizes@))));
    let d24 = spec_set_path(d23, spec_keys(seq!["ui", "saved_connections_sort_mode"]), JsonModel::Str(spec_saved_connections_sort_mode(s.ui_saved_connections_sort_mode@), None));
    let d25 = spec_set_path(d24, spec_keys(seq!["ui", "saved_connections_expanded_group_ids"]), spec_text_array(spec_clean_list(strings_view(s.ui_saved_connections_expanded_group_ids@), 512)));
    let d26 = spec_set_path(d25, spec_keys(seq!["ui", "start_workspace_mode"]), JsonModel::Str(spec_start_workspace_mode(s.ui_start_workspace_mode@), None));
    let d27 = spec_set_path(d26, spec_keys(seq!["ui", "asset_sort_key"]), spec_optional_trimmed_value(s.ui_asset_sort_key));
    let d28 = spec_set_path(d27, spec_keys(seq!["ui", "asset_sort_direction"]), spec_optional_text_or_null(spec_asset_sort_direction(opt_view(s.ui_asset_sort_direction))));
    let d29 = spec_set_path(d28, spec_keys(seq!["ui", "header_status_mode"]), JsonModel::Str(spec_header_status_setting(s.ui_header_status_mode@), None));
    let d30 = spec_set_path(d29, spec_keys(seq!["ui", "header_status_visible"]), JsonModel::Bool(s.ui_header_status_visible));
    assert(spec_saved_ui_layout_part1(d, s) == d8);
    assert(spec_saved_ui_layout_part2(d8, s) == d16);
    assert(spec_saved_ui_layout_part3(d16, s) == d24);
    assert(spec_saved_ui_layout_part4(d24, s) == d30);
    assert(spec_saved_ui_layout(d, s) == d30);
    lemma_set_path_then_read(d22, spec_keys(seq!["ui", "panel_stack_sizes"]), JsonModel::Object(spec_count_map_members(counts_view(s.ui_panel_stack_sizes@))));
    assert("saved_connections_sort_mode"@.len() != "panel_stack_sizes"@.len());
    assert(spec_keys(seq!["ui", "saved_connections_sort_mode"])[1] != spec_keys(seq!["ui", "panel_stack_sizes"])[1]);
    lemma_set_path_frame(d23, spec_keys(seq!["ui", "saved_connections_sort_mode"]), JsonModel::Str(spec_saved_connections_sort_mode(s.ui_saved_connections_sort_mode@), None), spec_keys(seq!["ui", "panel_stack_sizes"]));
    assert("saved_connections_expanded_group_ids"@.len() != "panel_stack_sizes"@.len());
    assert(spec_keys(seq!["ui", "saved_connections_expanded_group_ids"])[1] != spec_keys(seq!["ui", "panel_stack_sizes"])[1]);
    lemma_set_path_frame(d24, spec_keys(seq!["ui", "saved_connections_expanded_group_ids"]), spec_text_array(spec_clean_list(strings_view(s.ui_saved_connections_expanded_group_ids@), 512)), spec_keys(seq!["ui", "panel_stack_sizes"]));
    assert("start_workspace_mode"@.len() != "panel_stack_sizes"@.len());
    assert(spec_keys(seq!["ui", "start_workspace_mode"])[1] != spec_keys(seq!["ui", "panel_stack_sizes"])[1]);
    lemma_set_path_frame(d25, spec_keys(seq!["ui", "start_workspace_mode"]), JsonModel::Str(spec_start_workspace_mode(s.ui_start_workspace_mode@), None), spec_keys(seq!["ui", "panel_stack_sizes"]));
    assert("asset_sort_key"@.len() != "panel_stack_sizes"@.len());
    assert(spec_keys(seq!["ui", "asset_sort_key"])[1] != spec_keys(seq!["ui", "panel_stack_sizes"])[1]);
    lemma_set_path_frame(d26, spec_keys(seq!["ui", "asset_sort_key"]), spec_optional_trimmed_value(s.ui_asset_sort_key), spec_keys(seq!["ui", "panel_stack_sizes"]));
    assert("asset_sort_direction"@.len() != "panel_stack_sizes"@.len());
    assert(spec_keys(seq!["ui", "asset_sort_direction"])[1] != spec_keys(seq!["ui", "panel_stack_sizes"])[1]);
    lemma_set_path_frame(d27, spec_keys(seq!["ui", "asset_sort_direction"]), spec_optional_text_or_null(spec_asset_sort_direction(opt_view(s.ui_asset_sort_direction))), spec_keys(seq!["ui", "panel_stack_sizes"]));
    assert("header_status_mode"@.len() != "panel_stack_sizes"@.len());
    assert(spec_keys(seq!["ui", "header_status_mode"])[1] != spec_keys(seq!["ui", "panel_stack_sizes"])[1]);
    lemma_set_path_frame(d28, spec_keys(seq!["ui", "header_status_mode"]), JsonModel::Str(spec_header_status_setting(s.ui_header_status_mode@), None), spec_keys(seq!["ui", "panel_stack_sizes"]));
    assert("header_status_visible"@.len() != "panel_stack_sizes"@.len());
    assert(spec_keys(seq!["ui", "header_status_visible"])[1] != spec_keys(seq!["ui", "panel_stack_sizes"])[1]);
    lemma_set_path_frame(d29, spec_keys(seq!["ui", "header_status_visible"]), JsonModel::Bool(s.ui_header_status_visible), spec_keys(seq!["ui", "panel_stack_sizes"]));
}

#[verifier::spinoff_prover]
proof fn lemma_saved_ui_layout_keeps_ui_saved_connections_sort_mode(d: JsonModel, s: AppSettingsSummary)
    ensures
        spec_json_path(spec_saved_ui_layout(d, s), spec_keys(seq!["ui", "saved_connections_sort_mode"])) == Some(JsonModel::Str(spec_saved_connections_sort_mode(s.ui_saved_connections_sort_mode@), None)),
{
    reveal_strlit("asset_sort_direction");
    reveal_strlit("asset_sort_key");
    reveal_strlit("header_status_mode");
    reveal_strlit("header_status_visible");
    reveal_strlit("saved_connections_expanded_group_ids");
    reveal_strlit("saved_connections_sort_mode");
    reveal_strlit("start_workspace_mode");
    reveal_strlit("ui");
    let d1 = spec_set_path(d, spec_keys(seq!["ui", "left_width"]), JsonModel::Number(JsonNumber::PosInt(spec_clamp(s.ui_left_panel_width as int, 160, 720) as u64)));
    let d2 = spec_set_path(d1, spec_keys(seq!["ui", "right_width"]), JsonModel::Number(JsonNumber::PosInt(spec_clamp(s.ui_right_panel_width as int, 200, 720) as u64)));
    let d3 = spec_set_path(d2, spec_keys(seq!["ui", "transfer_height"]), JsonModel::Number(JsonNumber::PosInt(spec_clamp(s.ui_transfer_height as int, 60, 600) as u64)));
    let d4 = spec_set_path(d3, spec_keys(seq!["ui", "quick_cmd_height"]), JsonModel::Number(JsonNumber::PosInt(spec_clamp(s.ui_quick_cmd_height as int, 36, 520) as u64)));
    let d5 = spec_set_path(d4, spec_keys(seq!["ui", "show_quick_cmd_bar"]), JsonModel::Bool(s.ui_quick_cmd_visible));
    let d6 = spec_set_path(d5, spec_keys(seq!["ui", "serial_send_height"]), JsonModel::Number(JsonNumber::PosInt(spec_clamp(s.ui_serial_send_height as int, 60, 520) as u64)));
    let d7 = spec_set_path(d6, spec_keys(seq!["ui", "show_serial_send_panel"]), JsonModel::Bool(s.ui_serial_send_visible));
    let d8 = spec_set_path(d7, spec_keys(seq!["ui", "active_left_panel"]), spec_optional_panel_value(s.ui_active_left_panel));
    let d9 = spec_set_path(d8, spec_keys(seq!["ui", "active_right_panel"]), spec_optional_panel_value(s.ui_active_right_panel));
    let d10 = spec_set_path(d9, spec_keys(seq!["ui", "left_panel_collapsed"]), JsonModel::Bool(s.ui_left_panel_collapsed));
    let d11 = spec_set_path(d10, spec_keys(seq!["ui", "right_panel_collapsed"]), JsonModel::Bool(s.ui_right_panel_collapsed));
    let d12 = spec_set_path(d11, spec_keys(seq!["ui", "activity_bar_layout", "left_top"]), spec_text_array(spec_clean_list(strings_view(s.ui_activity_bar_left_top@), 32)));
    let d13 = spec_set_path(d12, spec_keys(seq!["ui", "activity_bar_layout", "left_bottom"]), spec_text_array(spec_clean_list(strings_view(s.ui_activity_bar_left_bottom@), 32)));
    let d14 = spec_set_path(d13, spec_keys(seq!["ui", "activity_bar_layout", "right_top"]), spec_text_array(spec_clean_list(strings_view(s.ui_activity_bar_right_top@), 32)));
    let d15 = spec_set_path(d14, spec_keys(seq!["ui", "activity_bar_layout", "right_bottom"]), spec_text_array(spec_clean_list(strings_view(s.ui_activity_bar_right_bottom@), 32)));
    let d16 = spec_set_path(d15, spec_keys(seq!["ui", "activity_bar_layout", "show_labels"]), JsonModel::Bool(s.ui_activity_bar_show_labels));
    let d17 = spec_set_path(d16, spec_keys(seq!["ui", "activity_bar_layout", "hidden_items"]), spec_text_array(spec_clean_list(strings_view(s.ui_activity_bar_hidden_items@), 64)));
    let d18 = spec_set_path(d17, spec_keys(seq!["ui", "panel_open_mode"]), JsonModel::Str(spec_panel_open_mode(s.ui_panel_open_mode@), None));
    let d19 = spec_set_path(d18, spec_keys(seq!["ui", "panel_multi_open"]), JsonModel::Bool(s.ui_panel_multi_open));
    let d20 = spec_set_path(d19, spec_keys(seq!["appearance", "panel_multi_open"]), JsonModel::Bool(s.ui_panel_multi_open));
    let d21 = spec_set_path(d20, spec_keys(seq!["ui", "left_open_panels"]), spec_text_array(spec_clean_list(strings_view(s.ui_left_open_panels@), 32)));
    let d22 = spec_set_path(d21, spec_keys(seq!["ui", "right_open_panels"]), spec_text_array(spec_clean_list(strings_view(s.ui_right_open_panels@), 32)));
    let d23 = spec_set_path(d22, spec_keys(seq!["ui", "panel_stack_sizes"]), JsonModel::Object(spec_count_map_members(counts_view(s.ui_panel_stack_sizes@))));
    let d24 = spec_set_path(d23, spec_keys(seq!["ui", "saved_connections_sort_mode"]), JsonModel::Str(spec_saved_connections_sort_mode(s.ui_saved_connections_sort_mode@), None));
    let d25 = spec_set_path(d24, spec_keys(seq!["ui", "saved_connections_expanded_group_ids"]), spec_text_array(spec_clean_list(strings_view(s.ui_saved_connections_expanded_group_ids@), 512)));
    let d26 = spec_set_path(d25, spec_keys(seq!["ui", "start_workspace_mode"]), JsonModel::Str(spec_start_workspace_mode(s.ui_start_workspace_mode@), None));
    let d27 = spec_set_path(d26, spec_keys(seq!["ui", "asset_sort_key"]), spec_optional_trimmed_value(s.ui_asset_sort_key));
    let d28 = spec_set_path(d27, spec_keys(seq!["ui", "asset_sort_direction"]), spec_optional_text_or_null(spec_asset_sort_direction(opt_view(s.ui_asset_sort_direction))));
    let d29 = spec_set_path(d28, spec_keys(seq!["ui", "header_status_mode"]), JsonModel::Str(spec_header_status_setting(s.ui_header_status_mode@), None));
    let d30 = spec_set_path(d29, spec_keys(seq!["ui", "header_status_visible"]), JsonModel::Bool(s.ui_header_status_visible));
    assert(spec_saved_ui_layout_part1(d, s) == d8);
    assert(spec_saved_ui_layout_part2(d8, s) == d16);
    assert(spec_saved_ui_layout_part3(d16, s) == d24);
    assert(spec_saved_ui_layout_part4(d24, s) == d30);
    assert(spec_saved_ui_layout(d, s) == d30);
    lemma_set_path_then_read(d23, spec_keys(seq!["ui", "saved_connections_sort_mode"]), JsonModel::Str(spec_saved_connections_sort_mode(s.ui_saved_connections_sort_mode@), None));
    assert("saved_connections_expanded_group_ids"@.len() != "saved_connections_sort_mode"@.len());
    assert(spec_keys(seq!["ui", "saved_connections_expanded_group_ids"])[1] != spec_keys(seq!["ui", "saved_connections_sort_mode"])[1]);
    lemma_set_path_frame(d24, spec_keys(seq!["ui", "saved_connections_expanded_group_ids"]), spec_text_array(spec_clean_list(strings_view(s.ui_saved_connections_expanded_group_ids@), 512)), spec_keys(seq!["ui", "saved_connections_sort_mode"]));
    assert("start_workspace_mode"@.len() != "saved_connections_sort_mode"@.len());
    assert(spec_keys(seq!["ui", "start_workspace_mode"])[1] != spec_keys(seq!["ui", "saved_connections_sort_mode"])[1]);
    lemma_set_path_frame(d25, spec_keys(seq!["ui", "start_workspace_mode"]), JsonModel::Str(spec_start_workspace_mode(s.ui_start_workspace_mode@), None), spec_keys(seq!["ui", "saved_connections_sort_mode"]));
    assert("asset_sort_key"@.len() != "saved_connections_sort_mode"@.len());
    assert(spec_keys(seq!["ui", "asset_sort_key"])[1] != spec_keys(seq!["ui", "saved_connections_sort_mode"])[1]);
    lemma_set_path_frame(d26, spec_keys(seq!["ui", "asset_sort_key"]), spec_optional_trimmed_value(s.ui_asset_sort_key), spec_keys(seq!["ui", "saved_connections_sort_mode"]));
    assert("asset_sort_direction"@.len() != "saved_connections_sort_mode"@.len());
    assert(spec_keys(seq!["ui", "asset_sort_direction"])[1] != spec_keys(seq!["ui", "saved_connections_sort_mode"])[1]);
    lemma_set_path_frame(d27, spec_keys(seq!["ui", "asset_sort_direction"]), spec_optional_text_or_null(spec_asset_sort_direction(opt_view(s.ui_asset_sort_direction))), spec_keys(seq!["ui", "saved_connections_sort_mode"]));
    assert("header_status_mode"@.len() != "saved_connections_sort_mode"@.len());
    assert(spec_keys(seq!["ui", "header_status_mode"])[1] != spec_keys(seq!["ui", "saved_connections_sort_mode"])[1]);
    lemma_set_path_frame(d28, spec_keys(seq!["ui", "header_status_mode"]), JsonModel::Str(spec_header_status_setting(s.ui_header_status_mode@), None), spec_keys(seq!["ui", "saved_connections_sort_mode"]));
    assert("header_status_visible"@.len() != "saved_connections_sort_mode"@.len());
    assert(spec_keys(seq!["ui", "header_status_visible"])[1] != spec_keys(seq!["ui", "saved_connections_sort_mode"])[1]);
    lemma_set_path_frame(d29, spec_keys(seq!["ui", "header_status_visible"]), JsonModel::Bool(s.ui_header_status_visible), spec_keys(seq!["ui", "saved_connections_sort_mode"]));
}

#[verifier::spinoff_prover]
proof fn lemma_saved_ui_layout_keeps_ui_saved_connections_expanded_group_ids(d: JsonModel, s: AppSettingsSummary)
    ensures
        spec_json_path(spec_saved_ui_layout(d, s), spec_keys(seq!["ui", "saved_connections_expanded_group_ids"])) == Some(spec_text_array(spec_clean_list(strings_view(s.ui_saved_connections_expanded_group_ids@), 512))),
{
    reveal_strlit("asset_sort_direction");
    reveal_strlit("asset_sort_key");
    reveal_strlit("header_status_mode");
    reveal_strlit("header_status_visible");
    reveal_strlit("saved_connections_expanded_group_ids");
    reveal_strlit("start_workspace_mode");
    reveal_strlit("ui");
    let d1 = spec_set_path(d, spec_keys(seq!["ui", "left_width"]), JsonModel::Number(JsonNumber::PosInt(spec_clamp(s.ui_left_panel_width as int, 160, 720) as u64)));
    let d2 = spec_set_path(d1, spec_keys(seq!["ui", "right_width"]), JsonModel::Number(JsonNumber::PosInt(spec_clamp(s.ui_right_panel_width as int, 200, 720) as u64)));
    let d3 = spec_set_path(d2, spec_keys(seq!["ui", "transfer_height"]), JsonModel::Number(JsonNumber::PosInt(spec_clamp(s.ui_transfer_height as int, 60, 600) as u64)));
    let d4 = spec_set_path(d3, spec_keys(seq!["ui", "quick_cmd_height"]), JsonModel::Number(JsonNumber::PosInt(spec_clamp(s.ui_quick_cmd_height as int, 36, 520) as u64)));
    let d5 = spec_set_path(d4, spec_keys(seq!["ui", "show_quick_cmd_bar"]), JsonModel::Bool(s.ui_quick_cmd_visible));
    let d6 = spec_set_path(d5, spec_keys(seq!["ui", "serial_send_height"]), JsonModel::Number(JsonNumber::PosInt(spec_clamp(s.ui_serial_send_height as int, 60, 520) as u64)));
    let d7 = spec_set_path(d6, spec_keys(seq!["ui", "show_serial_send_panel"]), JsonModel::Bool(s.ui_serial_send_visible));
    let d8 = spec_set_path(d7, spec_keys(seq!["ui", "active_left_panel"]), spec_optional_panel_value(s.ui_active_left_panel));
    let d9 = spec_set_path(d8, spec_keys(seq!["ui", "active_right_panel"]), spec_optional_panel_value(s.ui_active_right_panel));
    let d10 = spec_set_path(d9, spec_keys(seq!["ui", "left_panel_collapsed"]), JsonModel::Bool(s.ui_left_panel_collapsed));
    let d11 = spec_set_path(d10, spec_keys(seq!["ui", "right_panel_collapsed"]), JsonModel::Bool(s.ui_right_panel_collapsed));
    let d12 = spec_set_path(d11, spec_keys(seq!["ui", "activity_bar_layout", "left_top"]), spec_text_array(spec_clean_list(strings_view(s.ui_activity_bar_left_top@), 32)));
    let d13 = spec_set_path(d12, spec_keys(seq!["ui", "activity_bar_layout", "left_bottom"]), spec_text_array(spec_clean_list(strings_view(s.ui_activity_bar_left_bottom@), 32)));
    let d14 = spec_set_path(d13, spec_keys(seq!["ui", "activity_bar_layout", "right_top"]), spec_text_array(spec_clean_list(strings_view(s.ui_activity_bar_right_top@), 32)));
    let d15 = spec_set_path(d14, spec_keys(seq!["ui", "activity_bar_layout", "right_bottom"]), spec_text_array(spec_clean_list(strings_view(s.ui_activity_bar_right_bottom@), 32)));
    let d16 = spec_set_path(d15, spec_keys(seq!["ui", "activity_bar_layout", "show_labels"]), JsonModel::Bool(s.ui_activity_bar_show_labels));
    let d17 = spec_set_path(d16, spec_keys(seq!["ui", "activity_bar_layout", "hidden_items"]), spec_text_array(spec_clean_list(strings_view(s.ui_activity_bar_hidden_items@), 64)));
    let d18 = spec_set_path(d17, spec_keys(seq!["ui", "panel_open_mode"]), JsonModel::Str(spec_panel_open_mode(s.ui_panel_open_mode@), None));
    let d19 = spec_set_path(d18, spec_keys(seq!["ui", "panel_multi_open"]), JsonModel::Bool(s.ui_panel_multi_open));
    let d20 = spec_set_path(d19, spec_keys(seq!["appearance", "panel_multi_open"]), JsonModel::Bool(s.ui_panel_multi_open));
    let d21 = spec_set_path(d20, spec_keys(seq!["ui", "left_open_panels"]), spec_text_array(spec_clean_list(strings_view(s.ui_left_open_panels@), 32)));
    let d22 = spec_set_path(d21, spec_keys(seq!["ui", "right_open_panels"]), spec_text_array(spec_clean_list(strings_view(s.ui_right_open_panels@), 32)));
    let d23 = spec_set_path(d22, spec_keys(seq!["ui", "panel_stack_sizes"]), JsonModel::Object(spec_count_map_members(counts_view(s.ui_panel_stack_sizes@))));
    let d24 = spec_set_path(d23, spec_keys(seq!["ui", "saved_connections_sort_mode"]), JsonModel::Str(spec_saved_connections_sort_mode(s.ui_saved_connections_sort_mode@), None));
    let d25 = spec_set_path(d24, spec_keys(seq!["ui", "saved_connections_expanded_group_ids"]), spec_text_array(spec_clean_list(strings_view(s.ui_saved_connections_expanded_group_ids@), 512)));
    let d26 = spec_set_path(d25, spec_keys(seq!["ui", "start_workspace_mode"]), JsonModel::Str(spec_start_workspace_mode(s.ui_start_workspace_mode@), None));
    let d27 = spec_set_path(d26, spec_keys(seq!["ui", "asset_sort_key"]), spec_optional_trimmed_value(s.ui_asset_sort_key));
    let d28 = spec_set_path(d27, spec_keys(seq!["ui", "asset_sort_direction"]), spec_optional_text_or_null(spec_asset_sort_direction(opt_view(s.ui_asset_sort_direction))));
    let d29 = spec_set_path(d28, spec_keys(seq!["ui", "header_status_mode"]), JsonModel::Str(spec_header_status_setting(s.ui_header_status_mode@), None));
    let d30 = spec_set_path(d29, spec_keys(seq!["ui", "header_status_visible"]), JsonModel::Bool(s.ui_header_status_visible));
    assert(spec_saved_ui_layout_part1(d, s) == d8);
    assert(spec_saved_ui_layout_part2(d8, s) == d16);
    assert(spec_saved_ui_layout_part3(d16, s) == d24);
    assert(spec_saved_ui_layout_part4(d24, s) == d30);
    assert(spec_saved_ui_layout(d, s) == d30);
    lemma_set_path_then_read(d24, spec_keys(seq!["ui", "saved_connections_expanded_group_ids"]), spec_text_array(spec_clean_list(strings_view(s.ui_saved_connections_expanded_group_ids@), 512)));
    assert("start_workspace_mode"@.len() != "saved_connections_expanded_group_ids"@.len());
    assert(spec_keys(seq!["ui", "start_workspace_mode"])[1] != spec_keys(seq!["ui", "saved_connections_expanded_group_ids"])[1]);
    lemma_set_path_frame(d25, spec_keys(seq!["ui", "start_workspace_mode"]), JsonModel::Str(spec_start_workspace_mode(s.ui_start_workspace_mode@), None), spec_keys(seq!["ui", "saved_connections_expanded_group_ids"]));
    assert("asset_sort_key"@.len() != "saved_connections_expanded_group_ids"@.len());
    assert(spec_keys(seq!["ui", "asset_sort_key"])[1] != spec_keys(seq!["ui", "saved_connections_expanded_group_ids"])[1]);
    lemma_set_path_frame(d26, spec_keys(seq!["ui", "asset_sort_key"]), spec_optional_trimmed_value(s.ui_asset_sort_key), spec_keys(seq!["ui", "saved_connections_expanded_group_ids"]));
    assert("asset_sort_direction"@.len() != "saved_connections_expanded_group_ids"@.len());
    assert(spec_keys(seq!["ui", "asset_sort_direction"])[1] != spec_keys(seq!["ui", "saved_connections_expanded_group_ids"])[1]);
    lemma_set_path_frame(d27, spec_keys(seq!["ui", "asset_sort_direction"]), spec_optional_text_or_null(spec_asset_sort_direction(opt_view(s.ui_asset_sort_direction))), spec_keys(seq!["ui", "saved_connections_expanded_group_ids"]));
    assert("header_status_mode"@.len() != "saved_connections_expanded_group_ids"@.len());
    assert(spec_keys(seq!["ui", "header_status_mode"])[1] != spec_keys(seq!["ui", "saved_connections_expanded_group_ids"])[1]);
    lemma_set_path_frame(d28, spec_keys(seq!["ui", "header_status_mode"]), JsonModel::Str(spec_header_status_setting(s.ui_header_status_mode@), None), spec_keys(seq!["ui", "saved_connections_expanded_group_ids"]));
    assert("header_status_visible"@.len() != "saved_connections_expanded_group_ids"@.len());
    assert(spec_keys(seq!["ui", "header_status_visible"])[1] != spec_keys(seq!["ui", "saved_connections_expanded_group_ids"])[1]);
    lemma_set_path_frame(d29, spec_keys(seq!["ui", "header_status_visible"]), JsonModel::Bool(s.ui_header_status_visible), spec_keys(seq!["ui", "saved_connections_expanded_group_ids"]));
}

#[verifier::spinoff_prover]
proof fn lemma_saved_ui_layout_keeps_ui_start_workspace_mode(d: JsonModel, s: AppSettingsSummary)
    ensures
        spec_json_path(spec_saved_ui_layout(d, s), spec_keys(seq!["ui", "start_workspace_mode"])) == Some(JsonModel::Str(spec_start_workspace_mode(s.ui_start_workspace_mode@), None)),
{
    reveal_strlit("asset_sort_direction");
    reveal_strlit("asset_sort_key");
    reveal_strlit("header_status_mode");
    reveal_strlit("header_status_visible");
    reveal_strlit("start_workspace_mode");
    reveal_strlit("ui");
    let d1 = spec_set_path(d, spec_keys(seq!["ui", "left_width"]), JsonModel::Number(JsonNumber::PosInt(spec_clamp(s.ui_left_panel_width as int, 160, 720) as u64)));
    let d2 = spec_set_path(d1, spec_keys(seq!["ui", "right_width"]), JsonModel::Number(JsonNumber::PosInt(spec_clamp(s.ui_right_panel_width as int, 200, 720) as u64)));
    let d3 = spec_set_path(d2, spec_keys(seq!["ui", "transfer_height"]), JsonModel::Number(JsonNumber::PosInt(spec_clamp(s.ui_transfer_height as int, 60, 600) as u64)));
    let d4 = spec_set_path(d3, spec_keys(seq!["ui", "quick_cmd_height"]), JsonModel::Number(JsonNumber::PosInt(spec_clamp(s.ui_quick_cmd_height as int, 36, 520) as u64)));
    let d5 = spec_set_path(d4, spec_keys(seq!["ui", "show_quick_cmd_bar"]), JsonModel::Bool(s.ui_quick_cmd_visible));
    let d6 = spec_set_path(d5, spec_keys(seq!["ui", "serial_send_height"]), JsonModel::Number(JsonNumber::PosInt(spec_clamp(s.ui_serial_send_height as int, 60, 520) as u64)));
    let d7 = spec_set_path(d6, spec_keys(seq!["ui", "show_serial_send_panel"]), JsonModel::Bool(s.ui_serial_send_visible));
    let d8 = spec_set_path(d7, spec_keys(seq!["ui", "active_left_panel"]), spec_optional_panel_value(s.ui_active_left_panel));
    let d9 = spec_set_path(d8, spec_keys(seq!["ui", "active_right_panel"]), spec_optional_panel_value(s.ui_active_right_panel));
    let d10 = spec_set_path(d9, spec_keys(seq!["ui", "left_panel_collapsed"]), JsonModel::Bool(s.ui_left_panel_collapsed));
    let d11 = spec_set_path(d10, spec_keys(seq!["ui", "right_panel_collapsed"]), JsonModel::Bool(s.ui_right_panel_collapsed));
    let d12 = spec_set_path(d11, spec_keys(seq!["ui", "activity_bar_layout", "left_top"]), spec_text_array(spec_clean_list(strings_view(s.ui_activity_bar_left_top@), 32)));
    let d13 = spec_set_path(d12, spec_keys(seq!["ui", "activity_bar_layout", "left_bottom"]), spec_text_array(spec_clean_list(strings_view(s.ui_activity_bar_left_bottom@), 32)));
    let d14 = spec_set_path(d13, spec_keys(seq!["ui", "activity_bar_layout", "right_top"]), spec_text_array(spec_clean_list(strings_view(s.ui_activity_bar_right_top@), 32)));
    let d15 = spec_set_path(d14, spec_keys(seq!["ui", "activity_bar_layout", "right_bottom"]), spec_text_array(spec_clean_list(strings_view(s.ui_activity_bar_right_bottom@), 32)));
    let d16 = spec_set_path(d15, spec_keys(seq!["ui", "activity_bar_layout", "show_labels"]), JsonModel::Bool(s.ui_activity_bar_show_labels));
    let d17 = spec_set_path(d16, spec_keys(seq!["ui", "activity_bar_layout", "hidden_items"]), spec_text_array(spec_clean_list(strings_view(s.ui_activity_bar_hidden_items@), 64)));
    let d18 = spec_set_path(d17, spec_keys(seq!["ui", "panel_open_mode"]), JsonModel::Str(spec_panel_open_mode(s.ui_panel_open_mode@), None));
    let d19 = spec_set_path(d18, spec_keys(seq!["ui", "panel_multi_open"]), JsonModel::Bool(s.ui_panel_multi_open));
    let d20 = spec_set_path(d19, spec_keys(seq!["appearance", "panel_multi_open"]), JsonModel::Bool(s.ui_panel_multi_open));
    let d21 = spec_set_path(d20, spec_keys(seq!["ui", "left_open_panels"]), spec_text_array(spec_clean_list(strings_view(s.ui_left_open_panels@), 32)));
    let d22 = spec_set_path(d21, spec_keys(seq!["ui", "right_open_panels"]), spec_text_array(spec_clean_list(strings_view(s.ui_right_open_panels@), 32)));
    let d23 = spec_set_path(d22, spec_keys(seq!["ui", "panel_stack_sizes"]), JsonModel::Object(spec_count_map_members(counts_view(s.ui_panel_stack_sizes@))));
    let d24 = spec_set_path(d23, spec_keys(seq!["ui", "saved_connections_sort_mode"]), JsonModel::Str(spec_saved_connections_sort_mode(s.ui_saved_connections_sort_mode@), None));
    let d25 = spec_set_path(d24, spec_keys(seq!["ui", "saved_connections_expanded_group_ids"]), spec_text_array(spec_clean_list(strings_view(s.ui_saved_connections_expanded_group_ids@), 512)));
    let d26 = spec_set_path(d25, spec_keys(seq!["ui", "start_workspace_mode"]), JsonModel::Str(spec_start_workspace_mode(s.ui_start_workspace_mode@), None));
    let d27 = spec_set_path(d26, spec_keys(seq!["ui", "asset_sort_key"]), spec_optional_trimmed_value(s.ui_asset_sort_key));
    let d28 = spec_set_path(d27, spec_keys(seq!["ui", "asset_sort_direction"]), spec_optional_text_or_null(spec_asset_sort_direction(opt_view(s.ui_asset_sort_direction))));
    let d29 = spec_set_path(d28, spec_keys(seq!["ui", "header_status_mode"]), JsonModel::Str(spec_header_status_setting(s.ui_header_status_mode@), None));
    let d30 = spec_set_path(d29, spec_keys(seq!["ui", "header_status_visible"]), JsonModel::Bool(s.ui_header_status_visible));
    assert(spec_saved_ui_layout_part1(d, s) == d8);
    assert(spec_saved_ui_layout_part2(d8, s) == d16);
    assert(spec_saved_ui_layout_part3(d16, s) == d24);
    assert(spec_saved_ui_layout_part4(d24, s) == d30);
    assert(spec_saved_ui_layout(d, s) == d30);
    lemma_set_path_then_read(d25, spec_keys(seq!["ui", "start_workspace_mode"]), JsonModel::Str(spec_start_workspace_mode(s.ui_start_workspace_mode@), None));
    assert("asset_sort_key"@.len() != "start_workspace_mode"@.len());
    assert(spec_keys(seq!["ui", "asset_sort_key"])[1] != spec_keys(seq!["ui", "start_workspace_mode"])[1]);
    lemma_set_path_frame(d26, spec_keys(seq!["ui", "asset_sort_key"]), spec_optional_trimmed_value(s.ui_asset_sort_key), spec_keys(seq!["ui", "start_workspace_mode"]));
    assert("asset_sort_direction"@[0] != "start_workspace_mode"@[0]);
    assert(spec_keys(seq!["ui", "asset_sort_direction"])[1] != spec_keys(seq!["ui", "start_workspace_mode"])[1]);
    lemma_set_path_frame(d27, spec_keys(seq!["ui", "asset_sort_direction"]), spec_optional_text_or_null(spec_asset_sort_direction(opt_view(s.ui_asset_sort_direction))), spec_keys(seq!["ui", "start_workspace_mode"]));
    assert("header_status_mode"@.len() != "start_workspace_mode"@.len());
    assert(spec_keys(seq!["ui", "header_status_mode"])[1] != spec_keys(seq!["ui", "start_workspace_mode"])[1]);
    lemma_set_path_frame(d28, spec_keys(seq!["ui", "header_status_mode"]), JsonModel::Str(spec_header_status_setting(s.ui_header_status_mode@), None), spec_keys(seq!["ui", "start_workspace_mode"]));
    assert("header_status_visible"@.len() != "start_workspace_mode"@.len());
    assert(spec_keys(seq!["ui", "header_status_visible"])[1] != spec_keys(seq!["ui", "start_workspace_mode"])[1]);
    lemma_set_path_frame(d29, spec_keys(seq!["ui", "header_status_visible"]), JsonModel::Bool(s.ui_header_status_visible), spec_keys(seq!["ui", "start_workspace_mode"]));
}

#[verifier::spinoff_prover]
proof fn lemma_saved_ui_layout_keeps_ui_asset_sort_key(d: JsonModel, s: AppSettingsSummary)
    ensures
        spec_json_path(spec_saved_ui_layout(d, s), spec_keys(seq!["ui", "asset_sort_key"])) == Some(spec_optional_trimmed_value(s.ui_asset_sort_key)),
{
    reveal_strlit("asset_sort_direction");
    reveal_strlit("asset_sort_key");
    reveal_strlit("header_status_mode");
    reveal_strlit("header_status_visible");
    reveal_strlit("ui");
    let d1 = spec_set_path(d, spec_keys(seq!["ui", "left_width"]), JsonModel::Number(JsonNumber::PosInt(spec_clamp(s.ui_left_panel_width as int, 160, 720) as u64)));
    let d2 = spec_set_path(d1, spec_keys(seq!["ui", "right_width"]), JsonModel::Number(JsonNumber::PosInt(spec_clamp(s.ui_right_panel_width as int, 200, 720) as u64)));
    let d3 = spec_set_path(d2, spec_keys(seq!["ui", "transfer_height"]), JsonModel::Number(JsonNumber::PosInt(spec_clamp(s.ui_transfer_height as int, 60, 600) as u64)));
    let d4 = spec_set_path(d3, spec_keys(seq!["ui", "quick_cmd_height"]), JsonModel::Number(JsonNumber::PosInt(spec_clamp(s.ui_quick_cmd_height as int, 36, 520) as u64)));
    let d5 = spec_set_path(d4, spec_keys(seq!["ui", "show_quick_cmd_bar"]), JsonModel::Bool(s.ui_quick_cmd_visible));
    let d6 = spec_set_path(d5, spec_keys(seq!["ui", "serial_send_height"]), JsonModel::Number(JsonNumber::PosInt(spec_clamp(s.ui_serial_send_height as int, 60, 520) as u64)));
    let d7 = spec_set_path(d6, spec_keys(seq!["ui", "show_serial_send_panel"]), JsonModel::Bool(s.ui_serial_send_visible));
    let d8 = spec_set_path(d7, spec_keys(seq!["ui", "active_left_panel"]), spec_optional_panel_value(s.ui_active_left_panel));
    let d9 = spec_set_path(d8, spec_keys(seq!["ui", "active_right_panel"]), spec_optional_panel_value(s.ui_active_right_panel));
    let d10 = spec_set_path(d9, spec_keys(seq!["ui", "left_panel_collapsed"]), JsonModel::Bool(s.ui_left_panel_collapsed));
    let d11 = spec_set_path(d10, spec_keys(seq!["ui", "right_panel_collapsed"]), JsonModel::Bool(s.ui_right_panel_collapsed));
    let d12 = spec_set_path(d11, spec_keys(seq!["ui", "activity_bar_layout", "left_top"]), spec_text_array(spec_clean_list(strings_view(s.ui_activity_bar_left_top@), 32)));
    let d13 = spec_set_path(d12, spec_keys(seq!["ui", "activity_bar_layout", "left_bottom"]), spec_text_array(spec_clean_list(strings_view(s.ui_activity_bar_left_bottom@), 32)));
    let d14 = spec_set_path(d13, spec_keys(seq!["ui", "activity_bar_layout", "right_top"]), spec_text_array(spec_clean_list(strings_view(s.ui_activity_bar_right_top@), 32)));
    let d15 = spec_set_path(d14, spec_keys(seq!["ui", "activity_bar_layout", "right_bottom"]), spec_text_array(spec_clean_list(strings_view(s.ui_activity_bar_right_bottom@), 32)));
    let d16 = spec_set_path(d15, spec_keys(seq!["ui", "activity_bar_layout", "show_labels"]), JsonModel::Bool(s.ui_activity_bar_show_labels));
    let d17 = spec_set_path(d16, spec_keys(seq!["ui", "activity_bar_layout", "hidden_items"]), spec_text_array(spec_clean_list(strings_view(s.ui_activity_bar_hidden_items@), 64)));
    let d18 = spec_set_path(d17, spec_keys(seq!["ui", "panel_open_mode"]), JsonModel::Str(spec_panel_open_mode(s.ui_panel_open_mode@), None));
    let d19 = spec_set_path(d18, spec_keys(seq!["ui", "panel_multi_open"]), JsonModel::Bool(s.ui_panel_multi_open));
    let d20 = spec_set_path(d19, spec_keys(seq!["appearance", "panel_multi_open"]), JsonModel::Bool(s.ui_panel_multi_open));
    let d21 = spec_set_path(d20, spec_keys(seq!["ui", "left_open_panels"]), spec_text_array(spec_clean_list(strings_view(s.ui_left_open_panels@), 32)));
    let d22 = spec_set_path(d21, spec_keys(seq!["ui", "right_open_panels"]), spec_text_array(spec_clean_list(strings_view(s.ui_right_open_panels@), 32)));
    let d23 = spec_set_path(d22, spec_keys(seq!["ui", "panel_stack_sizes"]), JsonModel::Object(spec_count_map_members(counts_view(s.ui_panel_stack_sizes@))));
    let d24 = spec_set_path(d23, spec_keys(seq!["ui", "saved_connections_sort_mode"]), JsonModel::Str(spec_saved_connections_sort_mode(s.ui_saved_connections_sort_mode@), None));
    let d25 = spec_set_path(d24, spec_keys(seq!["ui", "saved_connections_expanded_group_ids"]), spec_text_array(spec_clean_list(strings_view(s.ui_saved_connections_expanded_group_ids@), 512)));
    let d26 = spec_set_path(d25, spec_keys(seq!["ui", "start_workspace_mode"]), JsonModel::Str(spec_start_workspace_mode(s.ui_start_workspace_mode@), None));
    let d27 = spec_set_path(d26, spec_keys(seq!["ui", "asset_sort_key"]), spec_optional_trimmed_value(s.ui_asset_sort_key));
    let d28 = spec_set_path(d27, spec_keys(seq!["ui", "asset_sort_direction"]), spec_optional_text_or_null(spec_asset_sort_direction(opt_view(s.ui_asset_sort_direction))));
    let d29 = spec_set_path(d28, spec_keys(seq!["ui", "header_status_mode"]), JsonModel::Str(spec_header_status_setting(s.ui_header_status_mode@), None));
    let d30 = spec_set_path(d29, spec_keys(seq!["ui", "header_status_visible"]), JsonModel::Bool(s.ui_header_status_visible));
    assert(spec_saved_ui_layout_part1(d, s) == d8);
    assert(spec_saved_ui_layout_part2(d8, s) == d16);
    assert(spec_saved_ui_layout_part3(d16, s) == d24);
    assert(spec_saved_ui_layout_part4(d24, s) == d30);
    assert(spec_saved_ui_layout(d, s) == d30);
    lemma_set_path_then_read(d26, spec_keys(seq!["ui", "asset_sort_key"]), spec_optional_trimmed_value(s.ui_asset_sort_key));
    assert("asset_sort_direction"@.len() != "asset_sort_key"@.len());
    assert(spec_keys(seq!["ui", "asset_sort_direction"])[1] != spec_keys(seq!["ui", "asset_sort_key"])[1]);
    lemma_set_path_frame(d27, spec_keys(seq!["ui", "asset_sort_direction"]), spec_optional_text_or_null(spec_asset_sort_direction(opt_view(s.ui_asset_sort_direction))), spec_keys(seq!["ui", "asset_sort_key"]));
    assert("header_status_mode"@.len() != "asset_sort_key"@.len());
    assert(spec_keys(seq!["ui", "header_status_mode"])[1] != spec_keys(seq!["ui", "asset_sort_key"])[1]);
    lemma_set_path_frame(d28, spec_keys(seq!["ui", "header_status_mode"]), JsonModel::Str(spec_header_status_setting(s.ui_header_status_mode@), None), spec_keys(seq!["ui", "asset_sort_key"]));
    assert("header_status_visible"@.len() != "asset_sort_key"@.len());
    assert(spec_keys(seq!["ui", "header_status_visible"])[1] != spec_keys(seq!["ui", "asset_sort_key"])[1]);
    lemma_set_path_frame(d29, spec_keys(seq!["ui", "header_status_visible"]), JsonModel::Bool(s.ui_header_status_visible), spec_keys(seq!["ui", "asset_sort_key"]));
}

#[verifier::spinoff_prover]
proof fn lemma_saved_ui_layout_keeps_ui_asset_sort_direction(d: JsonModel, s: AppSettingsSummary)
    ensures
        spec_json_path(spec_saved_ui_layout(d, s), spec_keys(seq!["ui", "asset_sort_direction"])) == Some(spec_optional_text_or_null(spec_asset_sort_direction(opt_view(s.ui_asset_sort_direction)))),
{
    reveal_strlit("asset_sort_direction");
    reveal_strlit("header_status_mode");
    reveal_strlit("header_status_visible");
    reveal_strlit("ui");
    let d1 = spec_set_path(d, spec_keys(seq!["ui", "left_width"]), JsonModel::Number(JsonNumber::PosInt(spec_clamp(s.ui_left_panel_width as int, 160, 720) as u64)));
    let d2 = spec_set_path(d1, spec_keys(seq!["ui", "right_width"]), JsonModel::Number(JsonNumber::PosInt(spec_clamp(s.ui_right_panel_width as int, 200, 720) as u64)));
    let d3 = spec_set_path(d2, spec_keys(seq!["ui", "transfer_height"]), JsonModel::Number(JsonNumber::PosInt(spec_clamp(s.ui_transfer_height as int, 60, 600) as u64)));
    let d4 = spec_set_path(d3, spec_keys(seq!["ui", "quick_cmd_height"]), JsonModel::Number(JsonNumber::PosInt(spec_clamp(s.ui_quick_cmd_height as int, 36, 520) as u64)));
    let d5 = spec_set_path(d4, spec_keys(seq!["ui", "show_quick_cmd_bar"]), JsonModel::Bool(s.ui_quick_cmd_visible));
    let d6 = spec_set_path(d5, spec_keys(seq!["ui", "serial_send_height"]), JsonModel::Number(JsonNumber::PosInt(spec_clamp(s.ui_serial_send_height as int, 60, 520) as u64)));
    let d7 = spec_set_path(d6, spec_keys(seq!["ui", "show_serial_send_panel"]), JsonModel::Bool(s.ui_serial_send_visible));
    let d8 = spec_set_path(d7, spec_keys(seq!["ui", "active_left_panel"]), spec_optional_panel_value(s.ui_active_left_panel));
    let d9 = spec_set_path(d8, spec_keys(seq!["ui", "active_right_panel"]), spec_optional_panel_value(s.ui_active_right_panel));
    let d10 = spec_set_path(d9, spec_keys(seq!["ui", "left_panel_collapsed"]), JsonModel::Bool(s.ui_left_panel_collapsed));
    let d11 = spec_set_path(d10, spec_keys(seq!["ui", "right_panel_collapsed"]), JsonModel::Bool(s.ui_right_panel_collapsed));
    let d12 = spec_set_path(d11, spec_keys(seq!["ui", "activity_bar_layout", "left_top"]), spec_text_array(spec_clean_list(strings_view(s.ui_activity_bar_left_top@), 32)));
    let d13 = spec_set_path(d12, spec_keys(seq!["ui", "activity_bar_layout", "left_bottom"]), spec_text_array(spec_clean_list(strings_view(s.ui_activity_bar_left_bottom@), 32)));
    let d14 = spec_set_path(d13, spec_keys(seq!["ui", "activity_bar_layout", "right_top"]), spec_text_array(spec_clean_list(strings_view(s.ui_activity_bar_right_top@), 32)));
    let d15 = spec_set_path(d14, spec_keys(seq!["ui", "activity_bar_layout", "right_bottom"]), spec_text_array(spec_clean_list(strings_view(s.ui_activity_bar_right_bottom@), 32)));
    let d16 = spec_set_path(d15, spec_keys(seq!["ui", "activity_bar_layout", "show_labels"]), JsonModel::Bool(s.ui_activity_bar_show_labels));
    let d17 = spec_set_path(d16, spec_keys(seq!["ui", "activity_bar_layout", "hidden_items"]), spec_text_array(spec_clean_list(strings_view(s.ui_activity_bar_hidden_items@), 64)));
    let d18 = spec_set_path(d17, spec_keys(seq!["ui", "panel_open_mode"]), JsonModel::Str(spec_panel_open_mode(s.ui_panel_open_mode@), None));
    let d19 = spec_set_path(d18, spec_keys(seq!["ui", "panel_multi_open"]), JsonModel::Bool(s.ui_panel_multi_open));
    let d20 = spec_set_path(d19, spec_keys(seq!["appearance", "panel_multi_open"]), JsonModel::Bool(s.ui_panel_multi_open));
    let d21 = spec_set_path(d20, spec_keys(seq!["ui", "left_open_panels"]), spec_text_array(spec_clean_list(strings_view(s.ui_left_open_panels@), 32)));
    let d22 = spec_set_path(d21, spec_keys(seq!["ui", "right_open_panels"]), spec_text_array(spec_clean_list(strings_view(s.ui_right_open_panels@), 32)));
    let d23 = spec_set_path(d22, spec_keys(seq!["ui", "panel_stack_sizes"]), JsonModel::Object(spec_count_map_members(counts_view(s.ui_panel_stack_sizes@))));
    let d24 = spec_set_path(d23, spec_keys(seq!["ui", "saved_connections_sort_mode"]), JsonModel::Str(spec_saved_connections_sort_mode(s.ui_saved_connections_sort_mode@), None));
    let d25 = spec_set_path(d24, spec_keys(seq!["ui", "saved_connections_expanded_group_ids"]), spec_text_array(spec_clean_list(strings_view(s.ui_saved_connections_expanded_group_ids@), 512)));
    let d26 = spec_set_path(d25, spec_keys(seq!["ui", "start_workspace_mode"]), JsonModel::Str(spec_start_workspace_mode(s.ui_start_workspace_mode@), None));
    let d27 = spec_set_path(d26, spec_keys(seq!["ui", "asset_sort_key"]), spec_optional_trimmed_value(s.ui_asset_sort_key));
    let d28 = spec_set_path(d27, spec_keys(seq!["ui", "asset_sort_direction"]), spec_optional_text_or_null(spec_asset_sort_direction(opt_view(s.ui_asset_sort_direction))));
    let d29 = spec_set_path(d28, spec_keys(seq!["ui", "header_status_mode"]), JsonModel::Str(spec_header_status_setting(s.ui_header_status_mode@), None));
    let d30 = spec_set_path(d29, spec_keys(seq!["ui", "header_status_visible"]), JsonModel::Bool(s.ui_header_status_visible));
    assert(spec_saved_ui_layout_part1(d, s) == d8);
    assert(spec_saved_ui_layout_part2(d8, s) == d16);
    assert(spec_saved_ui_layout_part3(d16, s) == d24);
    assert(spec_saved_ui_layout_part4(d24, s) == d30);
    assert(spec_saved_ui_layout(d, s) == d30);
    lemma_set_path_then_read(d27, spec_keys(seq!["ui", "asset_sort_direction"]), spec_optional_text_or_null(spec_asset_sort_direction(opt_view(s.ui_asset_sort_direction))));
    assert("header_status_mode"@.len() != "asset_sort_direction"@.len());
    assert(spec_keys(seq!["ui", "header_status_mode"])[1] != spec_keys(seq!["ui", "asset_sort_direction"])[1]);
    lemma_set_path_frame(d28, spec_keys(seq!["ui", "header_status_mode"]), JsonModel::Str(spec_header_status_setting(s.ui_header_status_mode@), None), spec_keys(seq!["ui", "asset_sort_direction"]));
    assert("header_status_visible"@.len() != "asset_sort_direction"@.len());
    assert(spec_keys(seq!["ui", "header_status_visible"])[1] != spec_keys(seq!["ui", "asset_sort_direction"])[1]);
    lemma_set_path_frame(d29, spec_keys(seq!["ui", "header_status_visible"]), JsonModel::Bool(s.ui_header_status_visible), spec_keys(seq!["ui", "asset_sort_direction"]));
}

#[verifier::spinoff_prover]
proof fn lemma_saved_ui_layout_keeps_ui_header_status_mode(d: JsonModel, s: AppSettingsSummary)
    ensures
        spec_json_path(spec_saved_ui_layout(d, s), spec_keys(seq!["ui", "header_status_mode"])) == Some(JsonModel::Str(spec_header_status_setting(s.ui_header_status_mode@), None)),
{
    reveal_strlit("header_status_mode");
    reveal_strlit("header_status_visible");
    reveal_strlit("ui");
    let d1 = spec_set_path(d, spec_keys(seq!["ui", "left_width"]), JsonModel::Number(JsonNumber::PosInt(spec_clamp(s.ui_left_panel_width as int, 160, 720) as u64)));
    let d2 = spec_set_path(d1, spec_keys(seq!["ui", "right_width"]), JsonModel::Number(JsonNumber::PosInt(spec_clamp(s.ui_right_panel_width as int, 200, 720) as u64)));
    let d3 = spec_set_path(d2, spec_keys(seq!["ui", "transfer_height"]), JsonModel::Number(JsonNumber::PosInt(spec_clamp(s.ui_transfer_height as int, 60, 600) as u64)));
    let d4 = spec_set_path(d3, spec_keys(seq!["ui", "quick_cmd_height"]), JsonModel::Number(JsonNumber::PosInt(spec_clamp(s.ui_quick_cmd_height as int, 36, 520) as u64)));
    let d5 = spec_set_path(d4, spec_keys(seq!["ui", "show_quick_cmd_bar"]), JsonModel::Bool(s.ui_quick_cmd_visible));
    let d6 = spec_set_path(d5, spec_keys(seq!["ui", "serial_send_height"]), JsonModel::Number(JsonNumber::PosInt(spec_clamp(s.ui_serial_send_height as int, 60, 520) as u64)));
    let d7 = spec_set_path(d6, spec_keys(seq!["ui", "show_serial_send_panel"]), JsonModel::Bool(s.ui_serial_send_visible));
    let d8 = spec_set_path(d7, spec_keys(seq!["ui", "active_left_panel"]), spec_optional_panel_value(s.ui_active_left_panel));
    let d9 = spec_set_path(d8, spec_keys(seq!["ui", "active_right_panel"]), spec_optional_panel_value(s.ui_active_right_panel));
    let d10 = spec_set_path(d9, spec_keys(seq!["ui", "left_panel_collapsed"]), JsonModel::Bool(s.ui_left_panel_collapsed));
    let d11 = spec_set_path(d10, spec_keys(seq!["ui", "right_panel_collapsed"]), JsonModel::Bool(s.ui_right_panel_collapsed));
    let d12 = spec_set_path(d11, spec_keys(seq!["ui", "activity_bar_layout", "left_top"]), spec_text_array(spec_clean_list(strings_view(s.ui_activity_bar_left_top@), 32)));
    let d13 = spec_set_path(d12, spec_keys(seq!["ui", "activity_bar_layout", "left_bottom"]), spec_text_array(spec_clean_list(strings_view(s.ui_activity_bar_left_bottom@), 32)));
    let d14 = spec_set_path(d13, spec_keys(seq!["ui", "activity_bar_layout", "right_top"]), spec_text_array(spec_clean_list(strings_view(s.ui_activity_bar_right_top@), 32)));
    let d15 = spec_set_path(d14, spec_keys(seq!["ui", "activity_bar_layout", "right_bottom"]), spec_text_array(spec_clean_list(strings_view(s.ui_activity_bar_right_bottom@), 32)));
    let d16 = spec_set_path(d15, spec_keys(seq!["ui", "activity_bar_layout", "show_labels"]), JsonModel::Bool(s.ui_activity_bar_show_labels));
    let d17 = spec_set_path(d16, spec_keys(seq!["ui", "activity_bar_layout", "hidden_items"]), spec_text_array(spec_clean_list(strings_view(s.ui_activity_bar_hidden_items@), 64)));
    let d18 = spec_set_path(d17, spec_keys(seq!["ui", "panel_open_mode"]), JsonModel::Str(spec_panel_open_mode(s.ui_panel_open_mode@), None));
    let d19 = spec_set_path(d18, spec_keys(seq!["ui", "panel_multi_open"]), JsonModel::Bool(s.ui_panel_multi_open));
    let d20 = spec_set_path(d19, spec_keys(seq!["appearance", "panel_multi_open"]), JsonModel::Bool(s.ui_panel_multi_open));
    let d21 = spec_set_path(d20, spec_keys(seq!["ui", "left_open_panels"]), spec_text_array(spec_clean_list(strings_view(s.ui_left_open_panels@), 32)));
    let d22 = spec_set_path(d21, spec_keys(seq!["ui", "right_open_panels"]), spec_text_array(spec_clean_list(strings_view(s.ui_right_open_panels@), 32)));
    let d23 = spec_set_path(d22, spec_keys(seq!["ui", "panel_stack_sizes"]), JsonModel::Object(spec_count_map_members(counts_view(s.ui_panel_stack_sizes@))));
    let d24 = spec_set_path(d23, spec_keys(seq!["ui", "saved_connections_sort_mode"]), JsonModel::Str(spec_saved_connections_sort_mode(s.ui_saved_connections_sort_mode@), None));
    let d25 = spec_set_path(d24, spec_keys(seq!["ui", "saved_connections_expanded_group_ids"]), spec_text_array(spec_clean_list(strings_view(s.ui_saved_connections_expanded_group_ids@), 512)));
    let d26 = spec_set_path(d25, spec_keys(seq!["ui", "start_workspace_mode"]), JsonModel::Str(spec_start_workspace_mode(s.ui_start_workspace_mode@), None));
    let d27 = spec_set_path(d26, spec_keys(seq!["ui", "asset_sort_key"]), spec_optional_trimmed_value(s.ui_asset_sort_key));
    let d28 = spec_set_path(d27, spec_keys(seq!["ui", "asset_sort_direction"]), spec_optional_text_or_null(spec_asset_sort_direction(opt_view(s.ui_asset_sort_direction))));
    let d29 = spec_set_path(d28, spec_keys(seq!["ui", "header_status_mode"]), JsonModel::Str(spec_header_status_setting(s.ui_header_status_mode@), None));
    let d30 = spec_set_path(d29, spec_keys(seq!["ui", "header_status_visible"]), JsonModel::Bool(s.ui_header_status_visible));
    assert(spec_saved_ui_layout_part1(d, s) == d8);
    assert(spec_saved_ui_layout_part2(d8, s) == d16);
    assert(spec_saved_ui_layout_part3(d16, s) == d24);
    assert(spec_saved_ui_layout_part4(d24, s) == d30);
    assert(spec_saved_ui_layout(d, s) == d30);
    lemma_set_path_then_read(d28, spec_keys(seq!["ui", "header_status_mode"]), JsonModel::Str(spec_header_status_setting(s.ui_header_status_mode@), None));
    assert("header_status_visible"@.len() != "header_status_mode"@.len());
    assert(spec_keys(seq!["ui", "header_status_visible"])[1] != spec_keys(seq!["ui", "header_status_mode"])[1]);
    lemma_set_path_frame(d29, spec_keys(seq!["ui", "header_status_visible"]), JsonModel::Bool(s.ui_header_status_visible), spec_keys(seq!["ui", "header_status_mode"]));
}

#[verifier::spinoff_prover]
proof fn lemma_saved_ui_layout_keeps_ui_header_status_visible(d: JsonModel, s: AppSettingsSummary)
    ensures
        spec_json_path(spec_saved_ui_layout(d, s), spec_keys(seq!["ui", "header_status_visible"])) == Some(JsonModel::Bool(s.ui_header_status_visible)),
{
    reveal_strlit("header_status_visible");
    reveal_strlit("ui");
    let d1 = spec_set_path(d, spec_keys(seq!["ui", "left_width"]), JsonModel::Number(JsonNumber::PosInt(spec_clamp(s.ui_left_panel_width as int, 160, 720) as u64)));
    let d2 = spec_set_path(d1, spec_keys(seq!["ui", "right_width"]), JsonModel::Number(JsonNumber::PosInt(spec_clamp(s.ui_right_panel_width as int, 200, 720) as u64)));
    let d3 = spec_set_path(d2, spec_keys(seq!["ui", "transfer_height"]), JsonModel::Number(JsonNumber::PosInt(spec_clamp(s.ui_transfer_height as int, 60, 600) as u64)));
    let d4 = spec_set_path(d3, spec_keys(seq!["ui", "quick_cmd_height"]), JsonModel::Number(JsonNumber::PosInt(spec_clamp(s.ui_quick_cmd_height as int, 36, 520) as u64)));
    let d5 = spec_set_path(d4, spec_keys(seq!["ui", "show_quick_cmd_bar"]), JsonModel::Bool(s.ui_quick_cmd_visible));
    let d6 = spec_set_path(d5, spec_keys(seq!["ui", "serial_send_height"]), JsonModel::Number(JsonNumber::PosInt(spec_clamp(s.ui_serial_send_height as int, 60, 520) as u64)));
    let d7 = spec_set_path(d6, spec_keys(seq!["ui", "show_serial_send_panel"]), JsonModel::Bool(s.ui_serial_send_visible));
    let d8 = spec_set_path(d7, spec_keys(seq!["ui", "active_left_panel"]), spec_optional_panel_value(s.ui_active_left_panel));
    let d9 = spec_set_path(d8, spec_keys(seq!["ui", "active_right_panel"]), spec_optional_panel_value(s.ui_active_right_panel));
    let d10 = spec_set_path(d9, spec_keys(seq!["ui", "left_panel_collapsed"]), JsonModel::Bool(s.ui_left_panel_collapsed));
    let d11 = spec_set_path(d10, spec_keys(seq!["ui", "right_panel_collapsed"]), JsonModel::Bool(s.ui_right_panel_collapsed));
    let d12 = spec_set_path(d11, spec_keys(seq!["ui", "activity_bar_layout", "left_top"]), spec_text_array(spec_clean_list(strings_view(s.ui_activity_bar_left_top@), 32)));
    let d13 = spec_set_path(d12, spec_keys(seq!["ui", "activity_bar_layout", "left_bottom"]), spec_text_array(spec_clean_list(strings_view(s.ui_activity_bar_left_bottom@), 32)));
    let d14 = spec_set_path(d13, spec_keys(seq!["ui", "activity_bar_layout", "right_top"]), spec_text_array(spec_clean_list(strings_view(s.ui_activity_bar_right_top@), 32)));
    let d15 = spec_set_path(d14, spec_keys(seq!["ui", "activity_bar_layout", "right_bottom"]), spec_text_array(spec_clean_list(strings_view(s.ui_activity_bar_right_bottom@), 32)));
    let d16 = spec_set_path(d15, spec_keys(seq!["ui", "activity_bar_layout", "show_labels"]), JsonModel::Bool(s.ui_activity_bar_show_labels));
    let d17 = spec_set_path(d16, spec_keys(seq!["ui", "activity_bar_layout", "hidden_items"]), spec_text_array(spec_clean_list(strings_view(s.ui_activity_bar_hidden_items@), 64)));
    let d18 = spec_set_path(d17, spec_keys(seq!["ui", "panel_open_mode"]), JsonModel::Str(spec_panel_open_mode(s.ui_panel_open_mode@), None));
    let d19 = spec_set_path(d18, spec_keys(seq!["ui", "panel_multi_open"]), JsonModel::Bool(s.ui_panel_multi_open));
    let d20 = spec_set_path(d19, spec_keys(seq!["appearance", "panel_multi_open"]), JsonModel::Bool(s.ui_panel_multi_open));
    let d21 = spec_set_path(d20, spec_keys(seq!["ui", "left_open_panels"]), spec_text_array(spec_clean_list(strings_view(s.ui_left_open_panels@), 32)));
    let d22 = spec_set_path(d21, spec_keys(seq!["ui", "right_open_panels"]), spec_text_array(spec_clean_list(strings_view(s.ui_right_open_panels@), 32)));
    let d23 = spec_set_path(d22, spec_keys(seq!["ui", "panel_stack_sizes"]), JsonModel::Object(spec_count_map_members(counts_view(s.ui_panel_stack_sizes@))));
    let d24 = spec_set_path(d23, spec_keys(seq!["ui", "saved_connections_sort_mode"]), JsonModel::Str(spec_saved_connections_sort_mode(s.ui_saved_connections_sort_mode@), None));
    let d25 = spec_set_path(d24, spec_keys(seq!["ui", "saved_connections_expanded_group_ids"]), spec_text_array(spec_clean_list(strings_view(s.ui_saved_connections_expanded_group_ids@), 512)));
    let d26 = spec_set_path(d25, spec_keys(seq!["ui", "start_workspace_mode"]), JsonModel::Str(spec_start_workspace_mode(s.ui_start_workspace_mode@), None));
    let d27 = spec_set_path(d26, spec_keys(seq!["ui", "asset_sort_key"]), spec_optional_trimmed_value(s.ui_asset_sort_key));
    let d28 = spec_set_path(d27, spec_keys(seq!["ui", "asset_sort_direction"]), spec_optional_text_or_null(spec_asset_sort_direction(opt_view(s.ui_asset_sort_direction))));
    let d29 = spec_set_path(d28, spec_keys(seq!["ui", "header_status_mode"]), JsonModel::Str(spec_header_status_setting(s.ui_header_status_mode@), None));
    let d30 = spec_set_path(d29, spec_keys(seq!["ui", "header_status_visible"]), JsonModel::Bool(s.ui_header_status_visible));
    assert(spec_saved_ui_layout_part1(d, s) == d8);
    assert(spec_saved_ui_layout_part2(d8, s) == d16);
    assert(spec_saved_ui_layout_part3(d16, s) == d24);
    assert(spec_saved_ui_layout_part4(d24, s) == d30);
    assert(spec_saved_ui_layout(d, s) == d30);
    lemma_set_path_then_read(d29, spec_keys(seq!["ui", "header_status_visible"]), JsonModel::Bool(s.ui_header_status_visible));
}

/// After the window layout: panel sizes and visibility, the activity bars, open panels, sort modes and the title bar reading are stored, each of them reads back from the settings
/// document as it was written.
pub proof fn lemma_saved_ui_layout_reads_back(d: JsonModel, s: AppSettingsSummary)
    ensures
        spec_json_path(spec_saved_ui_layout(d, s), spec_keys(seq!["ui", "left_width"])) == Some(JsonModel::Number(JsonNumber::PosInt(spec_clamp(s.ui_left_panel_width as int, 160, 720) as u64))),
        spec_json_path(spec_saved_ui_layout(d, s), spec_keys(seq!["ui", "right_width"])) == Some(JsonModel::Number(JsonNumber::PosInt(spec_clamp(s.ui_right_panel_width as int, 200, 720) as u64))),
        spec_json_path(spec_saved_ui_layout(d, s), spec_keys(seq!["ui", "transfer_height"])) == Some(JsonModel::Number(JsonNumber::PosInt(spec_clamp(s.ui_transfer_height as int, 60, 600) as u64))),
        spec_json_path(spec_saved_ui_layout(d, s), spec_keys(seq!["ui", "quick_cmd_height"])) == Some(JsonModel::Number(JsonNumber::PosInt(spec_clamp(s.ui_quick_cmd_height as int, 36, 520) as u64))),
        spec_json_path(spec_saved_ui_layout(d, s), spec_keys(seq!["ui", "show_quick_cmd_bar"])) == Some(JsonModel::Bool(s.ui_quick_cmd_visible)),
        spec_json_path(spec_saved_ui_layout(d, s), spec_keys(seq!["ui", "serial_send_height"])) == Some(JsonModel::Number(JsonNumber::PosInt(spec_clamp(s.ui_serial_send_height as int, 60, 520) as u64))),
        spec_json_path(spec_saved_ui_layout(d, s), spec_keys(seq!["ui", "show_serial_send_panel"])) == Some(JsonModel::Bool(s.ui_serial_send_visible)),
        spec_json_path(spec_saved_ui_layout(d, s), spec_keys(seq!["ui", "active_left_panel"])) == Some(spec_optional_panel_value(s.ui_active_left_panel)),
        spec_json_path(spec_saved_ui_layout(d, s), spec_keys(seq!["ui", "active_right_panel"])) == Some(spec_optional_panel_value(s.ui_active_right_panel)),
        spec_json_path(spec_saved_ui_layout(d, s), spec_keys(seq!["ui", "left_panel_collapsed"])) == Some(JsonModel::Bool(s.ui_left_panel_collapsed)),
        spec_json_path(spec_saved_ui_layout(d, s), spec_keys(seq!["ui", "right_panel_collapsed"])) == Some(JsonModel::Bool(s.ui_right_panel_collapsed)),
        spec_json_path(spec_saved_ui_layout(d, s), spec_keys(seq!["ui", "activity_bar_layout", "left_top"])) == Some(spec_text_array(spec_clean_list(strings_view(s.ui_activity_bar_left_top@), 32))),
        spec_json_path(spec_saved_ui_layout(d, s), spec_keys(seq!["ui", "activity_bar_layout", "left_bottom"])) == Some(spec_text_array(spec_clean_list(strings_view(s.ui_activity_bar_left_bottom@), 32))),
        spec_json_path(spec_saved_ui_layout(d, s), spec_keys(seq!["ui", "activity_bar_layout", "right_top"])) == Some(spec_text_array(spec_clean_list(strings_view(s.ui_activity_bar_right_top@), 32))),
        spec_json_path(spec_saved_ui_layout(d, s), spec_keys(seq!["ui", "activity_bar_layout", "right_bottom"])) == Some(spec_text_array(spec_clean_list(strings_view(s.ui_activity_bar_right_bottom@), 32))),
        spec_json_path(spec_saved_ui_layout(d, s), spec_keys(seq!["ui", "activity_bar_layout", "show_labels"])) == Some(JsonModel::Bool(s.ui_activity_bar_show_labels)),
        spec_json_path(spec_saved_ui_layout(d, s), spec_keys(seq!["ui", "activity_bar_layout", "hidden_items"])) == Some(spec_text_array(spec_clean_list(strings_view(s.ui_activity_bar_hidden_items@), 64))),
        spec_json_path(spec_saved_ui_layout(d, s), spec_keys(seq!["ui", "panel_open_mode"])) == Some(JsonModel::Str(spec_panel_open_mode(s.ui_panel_open_mode@), None)),
        spec_json_path(spec_saved_ui_layout(d, s), spec_keys(seq!["ui", "panel_multi_open"])) == Some(JsonModel::Bool(s.ui_panel_multi_open)),
        spec_json_path(spec_saved_ui_layout(d, s), spec_keys(seq!["appearance", "panel_multi_open"])) == Some(JsonModel::Bool(s.ui_panel_multi_open)),
        spec_json_path(spec_saved_ui_layout(d, s), spec_keys(seq!["ui", "left_open_panels"])) == Some(spec_text_array(spec_clean_list(strings_view(s.ui_left_open_panels@), 32))),
        spec_json_path(spec_saved_ui_layout(d, s), spec_keys(seq!["ui", "right_open_panels"])) == Some(spec_text_array(spec_clean_list(strings_view(s.ui_right_open_panels@), 32))),
        spec_json_path(spec_saved_ui_layout(d, s), spec_keys(seq!["ui", "panel_stack_sizes"])) == Some(JsonModel::Object(spec_count_map_members(counts_view(s.ui_panel_stack_sizes@)))),
        spec_json_path(spec_saved_ui_layout(d, s), spec_keys(seq!["ui", "saved_connections_sort_mode"])) == Some(JsonModel::Str(spec_saved_connections_sort_mode(s.ui_saved_connections_sort_mode@), None)),
        spec_json_path(spec_saved_ui_layout(d, s), spec_keys(seq!["ui", "saved_connections_expanded_group_ids"])) == Some(spec_text_array(spec_clean_list(strings_view(s.ui_saved_connections_expanded_group_ids@), 512))),
        spec_json_path(spec_saved_ui_layout(d, s), spec_keys(seq!["ui", "start_workspace_mode"])) == Some(JsonModel::Str(spec_start_workspace_mode(s.ui_start_workspace_mode@), None)),
        spec_json_path(spec_saved_ui_layout(d, s), spec_keys(seq!["ui", "asset_sort_key"])) == Some(spec_optional_trimmed_value(s.ui_asset_sort_key)),
        spec_json_path(spec_saved_ui_layout(d, s), spec_keys(seq!["ui", "asset_sort_direction"])) == Some(spec_optional_text_or_null(spec_asset_sort_direction(opt_view(s.ui_asset_sort_direction)))),
        spec_json_path(spec_saved_ui_layout(d, s), spec_keys(seq!["ui", "header_status_mode"])) == Some(JsonModel::Str(spec_header_status_setting(s.ui_header_status_mode@), None)),
        spec_json_path(spec_saved_ui_layout(d, s), spec_keys(seq!["ui", "header_status_visible"])) == Some(JsonModel::Bool(s.ui_header_status_visible)),
{
    lemma_saved_ui_layout_keeps_ui_left_width(d, s);
    lemma_saved_ui_layout_keeps_ui_right_width(d, s);
    lemma_saved_ui_layout_keeps_ui_transfer_height(d, s);
    lemma_saved_ui_layout_keeps_ui_quick_cmd_height(d, s);
    lemma_saved_ui_layout_keeps_ui_show_quick_cmd_bar(d, s);
    lemma_saved_ui_layout_keeps_ui_serial_send_height(d, s);
    lemma_saved_ui_layout_keeps_ui_show_serial_send_panel(d, s);
    lemma_saved_ui_layout_keeps_ui_active_left_panel(d, s);
    lemma_saved_ui_layout_keeps_ui_active_right_panel(d, s);
    lemma_saved_ui_layout_keeps_ui_left_panel_collapsed(d, s);
    lemma_saved_ui_layout_keeps_ui_right_panel_collapsed(d, s);
    lemma_saved_ui_layout_keeps_ui_activity_bar_layout_left_top(d, s);
    lemma_saved_ui_layout_keeps_ui_activity_bar_layout_left_bottom(d, s);
    lemma_saved_ui_layout_keeps_ui_activity_bar_layout_right_top(d, s);
    lemma_saved_ui_layout_keeps_ui_activity_bar_layout_right_bottom(d, s);
    lemma_saved_ui_layout_keeps_ui_activity_bar_layout_show_labels(d, s);
    lemma_saved_ui_layout_keeps_ui_activity_bar_layout_hidden_items(d, s);
    lemma_saved_ui_layout_keeps_ui_panel_open_mode(d, s);
    lemma_saved_ui_layout_keeps_ui_panel_multi_open(d, s);
    lemma_saved_ui_layout_keeps_appearance_panel_multi_open(d, s);
    lemma_saved_ui_layout_keeps_ui_left_open_panels(d, s);
    lemma_saved_ui_layout_keeps_ui_right_open_panels(d, s);
    lemma_saved_ui_layout_keeps_ui_panel_stack_sizes(d, s);
    lemma_saved_ui_layout_keeps_ui_saved_connections_sort_mode(d, s);
    lemma_saved_ui_layout_keeps_ui_saved_connections_expanded_group_ids(d, s);
    lemma_saved_ui_layout_keeps_ui_start_workspace_mode(d, s);
    lemma_saved_ui_layout_keeps_ui_asset_sort_key(d, s);
    lemma_saved_ui_layout_keeps_ui_asset_sort_direction(d, s);
    lemma_saved_ui_layout_keeps_ui_header_status_mode(d, s);
    lemma_saved_ui_layout_keeps_ui_header_status_visible(d, s);
}

} // verus!
