//! The appearance settings read back: each value that the save writes is
//! found at its place in the settings document afterwards.

use vstd::prelude::*;

use crate::settings::appearance::{spec_saved_appearance, spec_ui_font_family};
use crate::settings::json::{spec_json_path, spec_keys, JsonModel, JsonNumber};
use crate::settings::normalize::spec_pick;
use crate::settings::save::spec_optional_trimmed_value;
use crate::settings::summary::{spec_clamp, spec_font_weight, AppSettingsSummary};
use crate::settings::write::{lemma_set_path_frame, lemma_set_path_then_read, spec_set_path};

verus! {

#[verifier::spinoff_prover]
proof fn lemma_saved_appearance_keeps_appearance_theme(d: JsonModel, s: AppSettingsSummary, image_opacity: JsonModel, content_opacity: JsonModel, contrast: JsonModel)
    ensures
        spec_json_path(spec_saved_appearance(d, s, image_opacity, content_opacity, contrast), spec_keys(seq!["appearance", "theme"])) == Some(JsonModel::Str(s.theme@, None)),
{
    reveal_strlit("appearance");
    reveal_strlit("background_image_fit");
    reveal_strlit("background_image_opacity");
    reveal_strlit("background_image_path");
    reveal_strlit("background_opacity");
    reveal_strlit("cursor_blink");
    reveal_strlit("cursor_style");
    reveal_strlit("font_family");
    reveal_strlit("font_size");
    reveal_strlit("font_weight");
    reveal_strlit("font_weight_bold");
    reveal_strlit("minimum_contrast_ratio");
    reveal_strlit("terminal");
    reveal_strlit("terminal_theme");
    reveal_strlit("theme");
    reveal_strlit("ui_font_family");
    reveal_strlit("ui_font_size");
    let d1 = spec_set_path(d, spec_keys(seq!["appearance", "theme"]), JsonModel::Str(s.theme@, None));
    let d2 = spec_set_path(d1, spec_keys(seq!["appearance", "background_image_path"]), spec_optional_trimmed_value(s.background_image_path));
    let d3 = spec_set_path(d2, spec_keys(seq!["appearance", "background_image_fit"]), JsonModel::Str(s.background_image_fit@, None));
    let d4 = spec_set_path(d3, spec_keys(seq!["appearance", "background_image_opacity"]), image_opacity);
    let d5 = spec_set_path(d4, spec_keys(seq!["appearance", "background_opacity"]), content_opacity);
    let d6 = spec_set_path(d5, spec_keys(seq!["appearance", "font_family"]), JsonModel::Str(s.terminal_font_family@, None));
    let d7 = spec_set_path(d6, spec_keys(seq!["appearance", "font_size"]), JsonModel::Number(JsonNumber::PosInt(s.terminal_font_size as u64)));
    let d8 = spec_set_path(d7, spec_keys(seq!["appearance", "cursor_style"]), JsonModel::Str(spec_pick(s.cursor_style@, spec_keys(seq!["underline", "bar"]), "block"@), None));
    let d9 = spec_set_path(d8, spec_keys(seq!["appearance", "cursor_blink"]), JsonModel::Bool(s.cursor_blink));
    let d10 = spec_set_path(d9, spec_keys(seq!["appearance", "terminal_theme"]), spec_optional_trimmed_value(s.terminal_theme));
    let d11 = spec_set_path(d10, spec_keys(seq!["appearance", "minimum_contrast_ratio"]), contrast);
    let d12 = spec_set_path(d11, spec_keys(seq!["appearance", "ui_font_family"]), JsonModel::Str(spec_ui_font_family(s.ui_font_family@), None));
    let d13 = spec_set_path(d12, spec_keys(seq!["appearance", "ui_font_size"]), JsonModel::Number(JsonNumber::PosInt(spec_clamp(s.ui_font_size as int, 12, 24) as u64)));
    let d14 = spec_set_path(d13, spec_keys(seq!["appearance", "font_weight"]), JsonModel::Number(JsonNumber::PosInt(spec_font_weight(s.terminal_font_weight, 400) as u64)));
    let d15 = spec_set_path(d14, spec_keys(seq!["appearance", "font_weight_bold"]), JsonModel::Number(JsonNumber::PosInt(spec_font_weight(s.terminal_font_weight_bold, 700) as u64)));
    let d16 = spec_set_path(d15, spec_keys(seq!["terminal", "x11_display"]), JsonModel::Str(s.x11_display@, None));
    assert(spec_saved_appearance(d, s, image_opacity, content_opacity, contrast) == d16);
    lemma_set_path_then_read(d, spec_keys(seq!["appearance", "theme"]), JsonModel::Str(s.theme@, None));
    assert("background_image_path"@.len() != "theme"@.len());
    assert(spec_keys(seq!["appearance", "background_image_path"])[1] != spec_keys(seq!["appearance", "theme"])[1]);
    lemma_set_path_frame(d1, spec_keys(seq!["appearance", "background_image_path"]), spec_optional_trimmed_value(s.background_image_path), spec_keys(seq!["appearance", "theme"]));
    assert("background_image_fit"@.len() != "theme"@.len());
    assert(spec_keys(seq!["appearance", "background_image_fit"])[1] != spec_keys(seq!["appearance", "theme"])[1]);
    lemma_set_path_frame(d2, spec_keys(seq!["appearance", "background_image_fit"]), JsonModel::Str(s.background_image_fit@, None), spec_keys(seq!["appearance", "theme"]));
    assert("background_image_opacity"@.len() != "theme"@.len());
    assert(spec_keys(seq!["appearance", "background_image_opacity"])[1] != spec_keys(seq!["appearance", "theme"])[1]);
    lemma_set_path_frame(d3, spec_keys(seq!["appearance", "background_image_opacity"]), image_opacity, spec_keys(seq!["appearance", "theme"]));
    assert("background_opacity"@.len() != "theme"@.len());
    assert(spec_keys(seq!["appearance", "background_opacity"])[1] != spec_keys(seq!["appearance", "theme"])[1]);
    lemma_set_path_frame(d4, spec_keys(seq!["appearance", "background_opacity"]), content_opacity, spec_keys(seq!["appearance", "theme"]));
    assert("font_family"@.len() != "theme"@.len());
    assert(spec_keys(seq!["appearance", "font_family"])[1] != spec_keys(seq!["appearance", "theme"])[1]);
    lemma_set_path_frame(d5, spec_keys(seq!["appearance", "font_family"]), JsonModel::Str(s.terminal_font_family@, None), spec_keys(seq!["appearance", "theme"]));
    assert("font_size"@.len() != "theme"@.len());
    assert(spec_keys(seq!["appearance", "font_size"])[1] != spec_keys(seq!["appearance", "theme"])[1]);
    lemma_set_path_frame(d6, spec_keys(seq!["appearance", "font_size"]), JsonModel::Number(JsonNumber::PosInt(s.terminal_font_size as u64)), spec_keys(seq!["appearance", "theme"]));
    assert("cursor_style"@.len() != "theme"@.len());
    assert(spec_keys(seq!["appearance", "cursor_style"])[1] != spec_keys(seq!["appearance", "theme"])[1]);
    lemma_set_path_frame(d7, spec_keys(seq!["appearance", "cursor_style"]), JsonModel::Str(spec_pick(s.cursor_style@, spec_keys(seq!["underline", "bar"]), "block"@), None), spec_keys(seq!["appearance", "theme"]));
    assert("cursor_blink"@.len() != "theme"@.len());
    assert(spec_keys(seq!["appearance", "cursor_blink"])[1] != spec_keys(seq!["appearance", "theme"])[1]);
    lemma_set_path_frame(d8, spec_keys(seq!["appearance", "cursor_blink"]), JsonModel::Bool(s.cursor_blink), spec_keys(seq!["appearance", "theme"]));
    assert("terminal_theme"@.len() != "theme"@.len());
    assert(spec_keys(seq!["appearance", "terminal_theme"])[1] != spec_keys(seq!["appearance", "theme"])[1]);
    lemma_set_path_frame(d9, spec_keys(seq!["appearance", "terminal_theme"]), spec_optional_trimmed_value(s.terminal_theme), spec_keys(seq!["appearance", "theme"]));
    assert("minimum_contrast_ratio"@.len() != "theme"@.len());
    assert(spec_keys(seq!["appearance", "minimum_contrast_ratio"])[1] != spec_keys(seq!["appearance", "theme"])[1]);
    lemma_set_path_frame(d10, spec_keys(seq!["appearance", "minimum_contrast_ratio"]), contrast, spec_keys(seq!["appearance", "theme"]));
    assert("ui_font_family"@.len() != "theme"@.len());
    assert(spec_keys(seq!["appearance", "ui_font_family"])[1] != spec_keys(seq!["appearance", "theme"])[1]);
    lemma_set_path_frame(d11, spec_keys(seq!["appearance", "ui_font_family"]), JsonModel::Str(spec_ui_font_family(s.ui_font_family@), None), spec_keys(seq!["appearance", "theme"]));
    assert("ui_font_size"@.len() != "theme"@.len());
    assert(spec_keys(seq!["appearance", "ui_font_size"])[1] != spec_keys(seq!["appearance", "theme"])[1]);
    lemma_set_path_frame(d12, spec_keys(seq!["appearance", "ui_font_size"]), JsonModel::Number(JsonNumber::PosInt(spec_clamp(s.ui_font_size as int, 12, 24) as u64)), spec_keys(seq!["appearance", "theme"]));
    assert("font_weight"@.len() != "theme"@.len());
    assert(spec_keys(seq!["appearance", "font_weight"])[1] != spec_keys(seq!["appearance", "theme"])[1]);
    lemma_set_path_frame(d13, spec_keys(seq!["appearance", "font_weight"]), JsonModel::Number(JsonNumber::PosInt(spec_font_weight(s.terminal_font_weight, 400) as u64)), spec_keys(seq!["appearance", "theme"]));
    assert("font_weight_bold"@.len() != "theme"@.len());
    assert(spec_keys(seq!["appearance", "font_weight_bold"])[1] != spec_keys(seq!["appearance", "theme"])[1]);
    lemma_set_path_frame(d14, spec_keys(seq!["appearance", "font_weight_bold"]), JsonModel::Number(JsonNumber::PosInt(spec_font_weight(s.terminal_font_weight_bold, 700) as u64)), spec_keys(seq!["appearance", "theme"]));
    assert("terminal"@.len() != "appearance"@.len());
    assert(spec_keys(seq!["terminal", "x11_display"])[0] != spec_keys(seq!["appearance", "theme"])[0]);
    lemma_set_path_frame(d15, spec_keys(seq!["terminal", "x11_display"]), JsonModel::Str(s.x11_display@, None), spec_keys(seq!["appearance", "theme"]));
}

#[verifier::spinoff_prover]
proof fn lemma_saved_appearance_keeps_appearance_background_image_path(d: JsonModel, s: AppSettingsSummary, image_opacity: JsonModel, content_opacity: JsonModel, contrast: JsonModel)
    ensures
        spec_json_path(spec_saved_appearance(d, s, image_opacity, content_opacity, contrast), spec_keys(seq!["appearance", "background_image_path"])) == Some(spec_optional_trimmed_value(s.background_image_path)),
{
    reveal_strlit("appearance");
    reveal_strlit("background_image_fit");
    reveal_strlit("background_image_opacity");
    reveal_strlit("background_image_path");
    reveal_strlit("background_opacity");
    reveal_strlit("cursor_blink");
    reveal_strlit("cursor_style");
    reveal_strlit("font_family");
    reveal_strlit("font_size");
    reveal_strlit("font_weight");
    reveal_strlit("font_weight_bold");
    reveal_strlit("minimum_contrast_ratio");
    reveal_strlit("terminal");
    reveal_strlit("terminal_theme");
    reveal_strlit("ui_font_family");
    reveal_strlit("ui_font_size");
    let d1 = spec_set_path(d, spec_keys(seq!["appearance", "theme"]), JsonModel::Str(s.theme@, None));
    let d2 = spec_set_path(d1, spec_keys(seq!["appearance", "background_image_path"]), spec_optional_trimmed_value(s.background_image_path));
    let d3 = spec_set_path(d2, spec_keys(seq!["appearance", "background_image_fit"]), JsonModel::Str(s.background_image_fit@, None));
    let d4 = spec_set_path(d3, spec_keys(seq!["appearance", "background_image_opacity"]), image_opacity);
    let d5 = spec_set_path(d4, spec_keys(seq!["appearance", "background_opacity"]), content_opacity);
    let d6 = spec_set_path(d5, spec_keys(seq!["appearance", "font_family"]), JsonModel::Str(s.terminal_font_family@, None));
    let d7 = spec_set_path(d6, spec_keys(seq!["appearance", "font_size"]), JsonModel::Number(JsonNumber::PosInt(s.terminal_font_size as u64)));
    let d8 = spec_set_path(d7, spec_keys(seq!["appearance", "cursor_style"]), JsonModel::Str(spec_pick(s.cursor_style@, spec_keys(seq!["underline", "bar"]), "block"@), None));
    let d9 = spec_set_path(d8, spec_keys(seq!["appearance", "cursor_blink"]), JsonModel::Bool(s.cursor_blink));
    let d10 = spec_set_path(d9, spec_keys(seq!["appearance", "terminal_theme"]), spec_optional_trimmed_value(s.terminal_theme));
    let d11 = spec_set_path(d10, spec_keys(seq!["appearance", "minimum_contrast_ratio"]), contrast);
    let d12 = spec_set_path(d11, spec_keys(seq!["appearance", "ui_font_family"]), JsonModel::Str(spec_ui_font_family(s.ui_font_family@), None));
    let d13 = spec_set_path(d12, spec_keys(seq!["appearance", "ui_font_size"]), JsonModel::Number(JsonNumber::PosInt(spec_clamp(s.ui_font_size as int, 12, 24) as u64)));
    let d14 = spec_set_path(d13, spec_keys(seq!["appearance", "font_weight"]), JsonModel::Number(JsonNumber::PosInt(spec_font_weight(s.terminal_font_weight, 400) as u64)));
    let d15 = spec_set_path(d14, spec_keys(seq!["appearance", "font_weight_bold"]), JsonModel::Number(JsonNumber::PosInt(spec_font_weight(s.terminal_font_weight_bold, 700) as u64)));
    let d16 = spec_set_path(d15, spec_keys(seq!["terminal", "x11_display"]), JsonModel::Str(s.x11_display@, None));
    assert(spec_saved_appearance(d, s, image_opacity, content_opacity, contrast) == d16);
    lemma_set_path_then_read(d1, spec_keys(seq!["appearance", "background_image_path"]), spec_optional_trimmed_value(s.background_image_path));
    assert("background_image_fit"@.len() != "background_image_path"@.len());
    assert(spec_keys(seq!["appearance", "background_image_fit"])[1] != spec_keys(seq!["appearance", "background_image_path"])[1]);
    lemma_set_path_frame(d2, spec_keys(seq!["appearance", "background_image_fit"]), JsonModel::Str(s.background_image_fit@, None), spec_keys(seq!["appearance", "background_image_path"]));
    assert("background_image_opacity"@.len() != "background_image_path"@.len());
    assert(spec_keys(seq!["appearance", "background_image_opacity"])[1] != spec_keys(seq!["appearance", "background_image_path"])[1]);
    lemma_set_path_frame(d3, spec_keys(seq!["appearance", "background_image_opacity"]), image_opacity, spec_keys(seq!["appearance", "background_image_path"]));
    assert("background_opacity"@.len() != "background_image_path"@.len());
    assert(spec_keys(seq!["appearance", "background_opacity"])[1] != spec_keys(seq!["appearance", "background_image_path"])[1]);
    lemma_set_path_frame(d4, spec_keys(seq!["appearance", "background_opacity"]), content_opacity, spec_keys(seq!["appearance", "background_image_path"]));
    assert("font_family"@.len() != "background_image_path"@.len());
    assert(spec_keys(seq!["appearance", "font_family"])[1] != spec_keys(seq!["appearance", "background_image_path"])[1]);
    lemma_set_path_frame(d5, spec_keys(seq!["appearance", "font_family"]), JsonModel::Str(s.terminal_font_family@, None), spec_keys(seq!["appearance", "background_image_path"]));
    assert("font_size"@.len() != "background_image_path"@.len());
    assert(spec_keys(seq!["appearance", "font_size"])[1] != spec_keys(seq!["appearance", "background_image_path"])[1]);
    lemma_set_path_frame(d6, spec_keys(seq!["appearance", "font_size"]), JsonModel::Number(JsonNumber::PosInt(s.terminal_font_size as u64)), spec_keys(seq!["appearance", "background_image_path"]));
    assert("cursor_style"@.len() != "background_image_path"@.len());
    assert(spec_keys(seq!["appearance", "cursor_style"])[1] != spec_keys(seq!["appearance", "background_image_path"])[1]);
    lemma_set_path_frame(d7, spec_keys(seq!["appearance", "cursor_style"]), JsonModel::Str(spec_pick(s.cursor_style@, spec_keys(seq!["underline", "bar"]), "block"@), None), spec_keys(seq!["appearance", "background_image_path"]));
    assert("cursor_blink"@.len() != "background_image_path"@.len());
    assert(spec_keys(seq!["appearance", "cursor_blink"])[1] != spec_keys(seq!["appearance", "background_image_path"])[1]);
    lemma_set_path_frame(d8, spec_keys(seq!["appearance", "cursor_blink"]), JsonModel::Bool(s.cursor_blink), spec_keys(seq!["appearance", "background_image_path"]));
    assert("terminal_theme"@.len() != "background_image_path"@.len());
    assert(spec_keys(seq!["appearance", "terminal_theme"])[1] != spec_keys(seq!["appearance", "background_image_path"])[1]);
    lemma_set_path_frame(d9, spec_keys(seq!["appearance", "terminal_theme"]), spec_optional_trimmed_value(s.terminal_theme), spec_keys(seq!["appearance", "background_image_path"]));
    assert("minimum_contrast_ratio"@.len() != "background_image_path"@.len());
    assert(spec_keys(seq!["appearance", "minimum_contrast_ratio"])[1] != spec_keys(seq!["appearance", "background_image_path"])[1]);
    lemma_set_path_frame(d10, spec_keys(seq!["appearance", "minimum_contrast_ratio"]), contrast, spec_keys(seq!["appearance", "background_image_path"]));
    assert("ui_font_family"@.len() != "background_image_path"@.len());
    assert(spec_keys(seq!["appearance", "ui_font_family"])[1] != spec_keys(seq!["appearance", "background_image_path"])[1]);
    lemma_set_path_frame(d11, spec_keys(seq!["appearance", "ui_font_family"]), JsonModel::Str(spec_ui_font_family(s.ui_font_family@), None), spec_keys(seq!["appearance", "background_image_path"]));
    assert("ui_font_size"@.len() != "background_image_path"@.len());
    assert(spec_keys(seq!["appearance", "ui_font_size"])[1] != spec_keys(seq!["appearance", "background_image_path"])[1]);
    lemma_set_path_frame(d12, spec_keys(seq!["appearance", "ui_font_size"]), JsonModel::Number(JsonNumber::PosInt(spec_clamp(s.ui_font_size as int, 12, 24) as u64)), spec_keys(seq!["appearance", "background_image_path"]));
    assert("font_weight"@.len() != "background_image_path"@.len());
    assert(spec_keys(seq!["appearance", "font_weight"])[1] != spec_keys(seq!["appearance", "background_image_path"])[1]);
    lemma_set_path_frame(d13, spec_keys(seq!["appearance", "font_weight"]), JsonModel::Number(JsonNumber::PosInt(spec_font_weight(s.terminal_font_weight, 400) as u64)), spec_keys(seq!["appearance", "background_image_path"]));
    assert("font_weight_bold"@.len() != "background_image_path"@.len());
    assert(spec_keys(seq!["appearance", "font_weight_bold"])[1] != spec_keys(seq!["appearance", "background_image_path"])[1]);
    lemma_set_path_frame(d14, spec_keys(seq!["appearance", "font_weight_bold"]), JsonModel::Number(JsonNumber::PosInt(spec_font_weight(s.terminal_font_weight_bold, 700) as u64)), spec_keys(seq!["appearance", "background_image_path"]));
    assert("terminal"@.len() != "appearance"@.len());
    assert(spec_keys(seq!["terminal", "x11_display"])[0] != spec_keys(seq!["appearance", "background_image_path"])[0]);
    lemma_set_path_frame(d15, spec_keys(seq!["terminal", "x11_display"]), JsonModel::Str(s.x11_display@, None), spec_keys(seq!["appearance", "background_image_path"]));
}

#[verifier::spinoff_prover]
proof fn lemma_saved_appearance_keeps_appearance_background_image_fit(d: JsonModel, s: AppSettingsSummary, image_opacity: JsonModel, content_opacity: JsonModel, contrast: JsonModel)
    ensures
        spec_json_path(spec_saved_appearance(d, s, image_opacity, content_opacity, contrast), spec_keys(seq!["appearance", "background_image_fit"])) == Some(JsonModel::Str(s.background_image_fit@, None)),
{
    reveal_strlit("appearance");
    reveal_strlit("background_image_fit");
    reveal_strlit("background_image_opacity");
    reveal_strlit("background_opacity");
    reveal_strlit("cursor_blink");
    reveal_strlit("cursor_style");
    reveal_strlit("font_family");
    reveal_strlit("font_size");
    reveal_strlit("font_weight");
    reveal_strlit("font_weight_bold");
    reveal_strlit("minimum_contrast_ratio");
    reveal_strlit("terminal");
    reveal_strlit("terminal_theme");
    reveal_strlit("ui_font_family");
    reveal_strlit("ui_font_size");
    let d1 = spec_set_path(d, spec_keys(seq!["appearance", "theme"]), JsonModel::Str(s.theme@, None));
    let d2 = spec_set_path(d1, spec_keys(seq!["appearance", "background_image_path"]), spec_optional_trimmed_value(s.background_image_path));
    let d3 = spec_set_path(d2, spec_keys(seq!["appearance", "background_image_fit"]), JsonModel::Str(s.background_image_fit@, None));
    let d4 = spec_set_path(d3, spec_keys(seq!["appearance", "background_image_opacity"]), image_opacity);
    let d5 = spec_set_path(d4, spec_keys(seq!["appearance", "background_opacity"]), content_opacity);
    let d6 = spec_set_path(d5, spec_keys(seq!["appearance", "font_family"]), JsonModel::Str(s.terminal_font_family@, None));
    let d7 = spec_set_path(d6, spec_keys(seq!["appearance", "font_size"]), JsonModel::Number(JsonNumber::PosInt(s.terminal_font_size as u64)));
    let d8 = spec_set_path(d7, spec_keys(seq!["appearance", "cursor_style"]), JsonModel::Str(spec_pick(s.cursor_style@, spec_keys(seq!["underline", "bar"]), "block"@), None));
    let d9 = spec_set_path(d8, spec_keys(seq!["appearance", "cursor_blink"]), JsonModel::Bool(s.cursor_blink));
    let d10 = spec_set_path(d9, spec_keys(seq!["appearance", "terminal_theme"]), spec_optional_trimmed_value(s.terminal_theme));
    let d11 = spec_set_path(d10, spec_keys(seq!["appearance", "minimum_contrast_ratio"]), contrast);
    let d12 = spec_set_path(d11, spec_keys(seq!["appearance", "ui_font_family"]), JsonModel::Str(spec_ui_font_family(s.ui_font_family@), None));
    let d13 = spec_set_path(d12, spec_keys(seq!["appearance", "ui_font_size"]), JsonModel::Number(JsonNumber::PosInt(spec_clamp(s.ui_font_size as int, 12, 24) as u64)));
    let d14 = spec_set_path(d13, spec_keys(seq!["appearance", "font_weight"]), JsonModel::Number(JsonNumber::PosInt(spec_font_weight(s.terminal_font_weight, 400) as u64)));
    let d15 = spec_set_path(d14, spec_keys(seq!["appearance", "font_weight_bold"]), JsonModel::Number(JsonNumber::PosInt(spec_font_weight(s.terminal_font_weight_bold, 700) as u64)));
    let d16 = spec_set_path(d15, spec_keys(seq!["terminal", "x11_display"]), JsonModel::Str(s.x11_display@, None));
    assert(spec_saved_appearance(d, s, image_opacity, content_opacity, contrast) == d16);
    lemma_set_path_then_read(d2, spec_keys(seq!["appearance", "background_image_fit"]), JsonModel::Str(s.background_image_fit@, None));
    assert("background_image_opacity"@.len() != "background_image_fit"@.len());
    assert(spec_keys(seq!["appearance", "background_image_opacity"])[1] != spec_keys(seq!["appearance", "background_image_fit"])[1]);
    lemma_set_path_frame(d3, spec_keys(seq!["appearance", "background_image_opacity"]), image_opacity, spec_keys(seq!["appearance", "background_image_fit"]));
    assert("background_opacity"@.len() != "background_image_fit"@.len());
    assert(spec_keys(seq!["appearance", "background_opacity"])[1] != spec_keys(seq!["appearance", "background_image_fit"])[1]);
    lemma_set_path_frame(d4, spec_keys(seq!["appearance", "background_opacity"]), content_opacity, spec_keys(seq!["appearance", "background_image_fit"]));
    assert("font_family"@.len() != "background_image_fit"@.len());
    assert(spec_keys(seq!["appearance", "font_family"])[1] != spec_keys(seq!["appearance", "background_image_fit"])[1]);
    lemma_set_path_frame(d5, spec_keys(seq!["appearance", "font_family"]), JsonModel::Str(s.terminal_font_family@, None), spec_keys(seq!["appearance", "background_image_fit"]));
    assert("font_size"@.len() != "background_image_fit"@.len());
    assert(spec_keys(seq!["appearance", "font_size"])[1] != spec_keys(seq!["appearance", "background_image_fit"])[1]);
    lemma_set_path_frame(d6, spec_keys(seq!["appearance", "font_size"]), JsonModel::Number(JsonNumber::PosInt(s.terminal_font_size as u64)), spec_keys(seq!["appearance", "background_image_fit"]));
    assert("cursor_style"@.len() != "background_image_fit"@.len());
    assert(spec_keys(seq!["appearance", "cursor_style"])[1] != spec_keys(seq!["appearance", "background_image_fit"])[1]);
    lemma_set_path_frame(d7, spec_keys(seq!["appearance", "cursor_style"]), JsonModel::Str(spec_pick(s.cursor_style@, spec_keys(seq!["underline", "bar"]), "block"@), None), spec_keys(seq!["appearance", "background_image_fit"]));
    assert("cursor_blink"@.len() != "background_image_fit"@.len());
    assert(spec_keys(seq!["appearance", "cursor_blink"])[1] != spec_keys(seq!["appearance", "background_image_fit"])[1]);
    lemma_set_path_frame(d8, spec_keys(seq!["appearance", "cursor_blink"]), JsonModel::Bool(s.cursor_blink), spec_keys(seq!["appearance", "background_image_fit"]));
    assert("terminal_theme"@.len() != "background_image_fit"@.len());
    assert(spec_keys(seq!["appearance", "terminal_theme"])[1] != spec_keys(seq!["appearance", "background_image_fit"])[1]);
    lemma_set_path_frame(d9, spec_keys(seq!["appearance", "terminal_theme"]), spec_optional_trimmed_value(s.terminal_theme), spec_keys(seq!["appearance", "background_image_fit"]));
    assert("minimum_contrast_ratio"@.len() != "background_image_fit"@.len());
    assert(spec_keys(seq!["appearance", "minimum_contrast_ratio"])[1] != spec_keys(seq!["appearance", "background_image_fit"])[1]);
    lemma_set_path_frame(d10, spec_keys(seq!["appearance", "minimum_contrast_ratio"]), contrast, spec_keys(seq!["appearance", "background_image_fit"]));
    assert("ui_font_family"@.len() != "background_image_fit"@.len());
    assert(spec_keys(seq!["appearance", "ui_font_family"])[1] != spec_keys(seq!["appearance", "background_image_fit"])[1]);
    lemma_set_path_frame(d11, spec_keys(seq!["appearance", "ui_font_family"]), JsonModel::Str(spec_ui_font_family(s.ui_font_family@), None), spec_keys(seq!["appearance", "background_image_fit"]));
    assert("ui_font_size"@.len() != "background_image_fit"@.len());
    assert(spec_keys(seq!["appearance", "ui_font_size"])[1] != spec_keys(seq!["appearance", "background_image_fit"])[1]);
    lemma_set_path_frame(d12, spec_keys(seq!["appearance", "ui_font_size"]), JsonModel::Number(JsonNumber::PosInt(spec_clamp(s.ui_font_size as int, 12, 24) as u64)), spec_keys(seq!["appearance", "background_image_fit"]));
    assert("font_weight"@.len() != "background_image_fit"@.len());
    assert(spec_keys(seq!["appearance", "font_weight"])[1] != spec_keys(seq!["appearance", "background_image_fit"])[1]);
    lemma_set_path_frame(d13, spec_keys(seq!["appearance", "font_weight"]), JsonModel::Number(JsonNumber::PosInt(spec_font_weight(s.terminal_font_weight, 400) as u64)), spec_keys(seq!["appearance", "background_image_fit"]));
    assert("font_weight_bold"@.len() != "background_image_fit"@.len());
    assert(spec_keys(seq!["appearance", "font_weight_bold"])[1] != spec_keys(seq!["appearance", "background_image_fit"])[1]);
    lemma_set_path_frame(d14, spec_keys(seq!["appearance", "font_weight_bold"]), JsonModel::Number(JsonNumber::PosInt(spec_font_weight(s.terminal_font_weight_bold, 700) as u64)), spec_keys(seq!["appearance", "background_image_fit"]));
    assert("terminal"@.len() != "appearance"@.len());
    assert(spec_keys(seq!["terminal", "x11_display"])[0] != spec_keys(seq!["appearance", "background_image_fit"])[0]);
    lemma_set_path_frame(d15, spec_keys(seq!["terminal", "x11_display"]), JsonModel::Str(s.x11_display@, None), spec_keys(seq!["appearance", "background_image_fit"]));
}

#[verifier::spinoff_prover]
proof fn lemma_saved_appearance_keeps_appearance_background_image_opacity(d: JsonModel, s: AppSettingsSummary, image_opacity: JsonModel, content_opacity: JsonModel, contrast: JsonModel)
    ensures
        spec_json_path(spec_saved_appearance(d, s, image_opacity, content_opacity, contrast), spec_keys(seq!["appearance", "background_image_opacity"])) == Some(image_opacity),
{
    reveal_strlit("appearance");
    reveal_strlit("background_image_opacity");
    reveal_strlit("background_opacity");
    reveal_strlit("cursor_blink");
    reveal_strlit("cursor_style");
    reveal_strlit("font_family");
    reveal_strlit("font_size");
    reveal_strlit("font_weight");
    reveal_strlit("font_weight_bold");
    reveal_strlit("minimum_contrast_ratio");
    reveal_strlit("terminal");
    reveal_strlit("terminal_theme");
    reveal_strlit("ui_font_family");
    reveal_strlit("ui_font_size");
    let d1 = spec_set_path(d, spec_keys(seq!["appearance", "theme"]), JsonModel::Str(s.theme@, None));
    let d2 = spec_set_path(d1, spec_keys(seq!["appearance", "background_image_path"]), spec_optional_trimmed_value(s.background_image_path));
    let d3 = spec_set_path(d2, spec_keys(seq!["appearance", "background_image_fit"]), JsonModel::Str(s.background_image_fit@, None));
    let d4 = spec_set_path(d3, spec_keys(seq!["appearance", "background_image_opacity"]), image_opacity);
    let d5 = spec_set_path(d4, spec_keys(seq!["appearance", "background_opacity"]), content_opacity);
    let d6 = spec_set_path(d5, spec_keys(seq!["appearance", "font_family"]), JsonModel::Str(s.terminal_font_family@, None));
    let d7 = spec_set_path(d6, spec_keys(seq!["appearance", "font_size"]), JsonModel::Number(JsonNumber::PosInt(s.terminal_font_size as u64)));
    let d8 = spec_set_path(d7, spec_keys(seq!["appearance", "cursor_style"]), JsonModel::Str(spec_pick(s.cursor_style@, spec_keys(seq!["underline", "bar"]), "block"@), None));
    let d9 = spec_set_path(d8, spec_keys(seq!["appearance", "cursor_blink"]), JsonModel::Bool(s.cursor_blink));
    let d10 = spec_set_path(d9, spec_keys(seq!["appearance", "terminal_theme"]), spec_optional_trimmed_value(s.terminal_theme));
    let d11 = spec_set_path(d10, spec_keys(seq!["appearance", "minimum_contrast_ratio"]), contrast);
    let d12 = spec_set_path(d11, spec_keys(seq!["appearance", "ui_font_family"]), JsonModel::Str(spec_ui_font_family(s.ui_font_family@), None));
    let d13 = spec_set_path(d12, spec_keys(seq!["appearance", "ui_font_size"]), JsonModel::Number(JsonNumber::PosInt(spec_clamp(s.ui_font_size as int, 12, 24) as u64)));
    let d14 = spec_set_path(d13, spec_keys(seq!["appearance", "font_weight"]), JsonModel::Number(JsonNumber::PosInt(spec_font_weight(s.terminal_font_weight, 400) as u64)));
    let d15 = spec_set_path(d14, spec_keys(seq!["appearance", "font_weight_bold"]), JsonModel::Number(JsonNumber::PosInt(spec_font_weight(s.terminal_font_weight_bold, 700) as u64)));
    let d16 = spec_set_path(d15, spec_keys(seq!["terminal", "x11_display"]), JsonModel::Str(s.x11_display@, None));
    assert(spec_saved_appearance(d, s, image_opacity, content_opacity, contrast) == d16);
    lemma_set_path_then_read(d3, spec_keys(seq!["appearance", "background_image_opacity"]), image_opacity);
    assert("background_opacity"@.len() != "background_image_opacity"@.len());
    assert(spec_keys(seq!["appearance", "background_opacity"])[1] != spec_keys(seq!["appearance", "background_image_opacity"])[1]);
    lemma_set_path_frame(d4, spec_keys(seq!["appearance", "background_opacity"]), content_opacity, spec_keys(seq!["appearance", "background_image_opacity"]));
    assert("font_family"@.len() != "background_image_opacity"@.len());
    assert(spec_keys(seq!["appearance", "font_family"])[1] != spec_keys(seq!["appearance", "background_image_opacity"])[1]);
    lemma_set_path_frame(d5, spec_keys(seq!["appearance", "font_family"]), JsonModel::Str(s.terminal_font_family@, None), spec_keys(seq!["appearance", "background_image_opacity"]));
    assert("font_size"@.len() != "background_image_opacity"@.len());
    assert(spec_keys(seq!["appearance", "font_size"])[1] != spec_keys(seq!["appearance", "background_image_opacity"])[1]);
    lemma_set_path_frame(d6, spec_keys(seq!["appearance", "font_size"]), JsonModel::Number(JsonNumber::PosInt(s.terminal_font_size as u64)), spec_keys(seq!["appearance", "background_image_opacity"]));
    assert("cursor_style"@.len() != "background_image_opacity"@.len());
    assert(spec_keys(seq!["appearance", "cursor_style"])[1] != spec_keys(seq!["appearance", "background_image_opacity"])[1]);
    lemma_set_path_frame(d7, spec_keys(seq!["appearance", "cursor_style"]), JsonModel::Str(spec_pick(s.cursor_style@, spec_keys(seq!["underline", "bar"]), "block"@), None), spec_keys(seq!["appearance", "background_image_opacity"]));
    assert("cursor_blink"@.len() != "background_image_opacity"@.len());
    assert(spec_keys(seq!["appearance", "cursor_blink"])[1] != spec_keys(seq!["appearance", "background_image_opacity"])[1]);
    lemma_set_path_frame(d8, spec_keys(seq!["appearance", "cursor_blink"]), JsonModel::Bool(s.cursor_blink), spec_keys(seq!["appearance", "background_image_opacity"]));
    assert("terminal_theme"@.len() != "background_image_opacity"@.len());
    assert(spec_keys(seq!["appearance", "terminal_theme"])[1] != spec_keys(seq!["appearance", "background_image_opacity"])[1]);
    lemma_set_path_frame(d9, spec_keys(seq!["appearance", "terminal_theme"]), spec_optional_trimmed_value(s.terminal_theme), spec_keys(seq!["appearance", "background_image_opacity"]));
    assert("minimum_contrast_ratio"@.len() != "background_image_opacity"@.len());
    assert(spec_keys(seq!["appearance", "minimum_contrast_ratio"])[1] != spec_keys(seq!["appearance", "background_image_opacity"])[1]);
    lemma_set_path_frame(d10, spec_keys(seq!["appearance", "minimum_contrast_ratio"]), contrast, spec_keys(seq!["appearance", "background_image_opacity"]));
    assert("ui_font_family"@.len() != "background_image_opacity"@.len());
    assert(spec_keys(seq!["appearance", "ui_font_family"])[1] != spec_keys(seq!["appearance", "background_image_opacity"])[1]);
    lemma_set_path_frame(d11, spec_keys(seq!["appearance", "ui_font_family"]), JsonModel::Str(spec_ui_font_family(s.ui_font_family@), None), spec_keys(seq!["appearance", "background_image_opacity"]));
    assert("ui_font_size"@.len() != "background_image_opacity"@.len());
    assert(spec_keys(seq!["appearance", "ui_font_size"])[1] != spec_keys(seq!["appearance", "background_image_opacity"])[1]);
    lemma_set_path_frame(d12, spec_keys(seq!["appearance", "ui_font_size"]), JsonModel::Number(JsonNumber::PosInt(spec_clamp(s.ui_font_size as int, 12, 24) as u64)), spec_keys(seq!["appearance", "background_image_opacity"]));
    assert("font_weight"@.len() != "background_image_opacity"@.len());
    assert(spec_keys(seq!["appearance", "font_weight"])[1] != spec_keys(seq!["appearance", "background_image_opacity"])[1]);
    lemma_set_path_frame(d13, spec_keys(seq!["appearance", "font_weight"]), JsonModel::Number(JsonNumber::PosInt(spec_font_weight(s.terminal_font_weight, 400) as u64)), spec_keys(seq!["appearance", "background_image_opacity"]));
    assert("font_weight_bold"@.len() != "background_image_opacity"@.len());
    assert(spec_keys(seq!["appearance", "font_weight_bold"])[1] != spec_keys(seq!["appearance", "background_image_opacity"])[1]);
    lemma_set_path_frame(d14, spec_keys(seq!["appearance", "font_weight_bold"]), JsonModel::Number(JsonNumber::PosInt(spec_font_weight(s.terminal_font_weight_bold, 700) as u64)), spec_keys(seq!["appearance", "background_image_opacity"]));
    assert("terminal"@.len() != "appearance"@.len());
    assert(spec_keys(seq!["terminal", "x11_display"])[0] != spec_keys(seq!["appearance", "background_image_opacity"])[0]);
    lemma_set_path_frame(d15, spec_keys(seq!["terminal", "x11_display"]), JsonModel::Str(s.x11_display@, None), spec_keys(seq!["appearance", "background_image_opacity"]));
}

#[verifier::spinoff_prover]
proof fn lemma_saved_appearance_keeps_appearance_background_opacity(d: JsonModel, s: AppSettingsSummary, image_opacity: JsonModel, content_opacity: JsonModel, contrast: JsonModel)
    ensures
        spec_json_path(spec_saved_appearance(d, s, image_opacity, content_opacity, contrast), spec_keys(seq!["appearance", "background_opacity"])) == Some(content_opacity),
{
    reveal_strlit("appearance");
    reveal_strlit("background_opacity");
    reveal_strlit("cursor_blink");
    reveal_strlit("cursor_style");
    reveal_strlit("font_family");
    reveal_strlit("font_size");
    reveal_strlit("font_weight");
    reveal_strlit("font_weight_bold");
    reveal_strlit("minimum_contrast_ratio");
    reveal_strlit("terminal");
    reveal_strlit("terminal_theme");
    reveal_strlit("ui_font_family");
    reveal_strlit("ui_font_size");
    let d1 = spec_set_path(d, spec_keys(seq!["appearance", "theme"]), JsonModel::Str(s.theme@, None));
    let d2 = spec_set_path(d1, spec_keys(seq!["appearance", "background_image_path"]), spec_optional_trimmed_value(s.background_image_path));
    let d3 = spec_set_path(d2, spec_keys(seq!["appearance", "background_image_fit"]), JsonModel::Str(s.background_image_fit@, None));
    let d4 = spec_set_path(d3, spec_keys(seq!["appearance", "background_image_opacity"]), image_opacity);
    let d5 = spec_set_path(d4, spec_keys(seq!["appearance", "background_opacity"]), content_opacity);
    let d6 = spec_set_path(d5, spec_keys(seq!["appearance", "font_family"]), JsonModel::Str(s.terminal_font_family@, None));
    let d7 = spec_set_path(d6, spec_keys(seq!["appearance", "font_size"]), JsonModel::Number(JsonNumber::PosInt(s.terminal_font_size as u64)));
    let d8 = spec_set_path(d7, spec_keys(seq!["appearance", "cursor_style"]), JsonModel::Str(spec_pick(s.cursor_style@, spec_keys(seq!["underline", "bar"]), "block"@), None));
    let d9 = spec_set_path(d8, spec_keys(seq!["appearance", "cursor_blink"]), JsonModel::Bool(s.cursor_blink));
    let d10 = spec_set_path(d9, spec_keys(seq!["appearance", "terminal_theme"]), spec_optional_trimmed_value(s.terminal_theme));
    let d11 = spec_set_path(d10, spec_keys(seq!["appearance", "minimum_contrast_ratio"]), contrast);
    let d12 = spec_set_path(d11, spec_keys(seq!["appearance", "ui_font_family"]), JsonModel::Str(spec_ui_font_family(s.ui_font_family@), None));
    let d13 = spec_set_path(d12, spec_keys(seq!["appearance", "ui_font_size"]), JsonModel::Number(JsonNumber::PosInt(spec_clamp(s.ui_font_size as int, 12, 24) as u64)));
    let d14 = spec_set_path(d13, spec_keys(seq!["appearance", "font_weight"]), JsonModel::Number(JsonNumber::PosInt(spec_font_weight(s.terminal_font_weight, 400) as u64)));
    let d15 = spec_set_path(d14, spec_keys(seq!["appearance", "font_weight_bold"]), JsonModel::Number(JsonNumber::PosInt(spec_font_weight(s.terminal_font_weight_bold, 700) as u64)));
    let d16 = spec_set_path(d15, spec_keys(seq!["terminal", "x11_display"]), JsonModel::Str(s.x11_display@, None));
    assert(spec_saved_appearance(d, s, image_opacity, content_opacity, contrast) == d16);
    lemma_set_path_then_read(d4, spec_keys(seq!["appearance", "background_opacity"]), content_opacity);
    assert("font_family"@.len() != "background_opacity"@.len());
    assert(spec_keys(seq!["appearance", "font_family"])[1] != spec_keys(seq!["appearance", "background_opacity"])[1]);
    lemma_set_path_frame(d5, spec_keys(seq!["appearance", "font_family"]), JsonModel::Str(s.terminal_font_family@, None), spec_keys(seq!["appearance", "background_opacity"]));
    assert("font_size"@.len() != "background_opacity"@.len());
    assert(spec_keys(seq!["appearance", "font_size"])[1] != spec_keys(seq!["appearance", "background_opacity"])[1]);
    lemma_set_path_frame(d6, spec_keys(seq!["appearance", "font_size"]), JsonModel::Number(JsonNumber::PosInt(s.terminal_font_size as u64)), spec_keys(seq!["appearance", "background_opacity"]));
    assert("cursor_style"@.len() != "background_opacity"@.len());
    assert(spec_keys(seq!["appearance", "cursor_style"])[1] != spec_keys(seq!["appearance", "background_opacity"])[1]);
    lemma_set_path_frame(d7, spec_keys(seq!["appearance", "cursor_style"]), JsonModel::Str(spec_pick(s.cursor_style@, spec_keys(seq!["underline", "bar"]), "block"@), None), spec_keys(seq!["appearance", "background_opacity"]));
    assert("cursor_blink"@.len() != "background_opacity"@.len());
    assert(spec_keys(seq!["appearance", "cursor_blink"])[1] != spec_keys(seq!["appearance", "background_opacity"])[1]);
    lemma_set_path_frame(d8, spec_keys(seq!["appearance", "cursor_blink"]), JsonModel::Bool(s.cursor_blink), spec_keys(seq!["appearance", "background_opacity"]));
    assert("terminal_theme"@.len() != "background_opacity"@.len());
    assert(spec_keys(seq!["appearance", "terminal_theme"])[1] != spec_keys(seq!["appearance", "background_opacity"])[1]);
    lemma_set_path_frame(d9, spec_keys(seq!["appearance", "terminal_theme"]), spec_optional_trimmed_value(s.terminal_theme), spec_keys(seq!["appearance", "background_opacity"]));
    assert("minimum_contrast_ratio"@.len() != "background_opacity"@.len());
    assert(spec_keys(seq!["appearance", "minimum_contrast_ratio"])[1] != spec_keys(seq!["appearance", "background_opacity"])[1]);
    lemma_set_path_frame(d10, spec_keys(seq!["appearance", "minimum_contrast_ratio"]), contrast, spec_keys(seq!["appearance", "background_opacity"]));
    assert("ui_font_family"@.len() != "background_opacity"@.len());
    assert(spec_keys(seq!["appearance", "ui_font_family"])[1] != spec_keys(seq!["appearance", "background_opacity"])[1]);
    lemma_set_path_frame(d11, spec_keys(seq!["appearance", "ui_font_family"]), JsonModel::Str(spec_ui_font_family(s.ui_font_family@), None), spec_keys(seq!["appearance", "background_opacity"]));
    assert("ui_font_size"@.len() != "background_opacity"@.len());
    assert(spec_keys(seq!["appearance", "ui_font_size"])[1] != spec_keys(seq!["appearance", "background_opacity"])[1]);
    lemma_set_path_frame(d12, spec_keys(seq!["appearance", "ui_font_size"]), JsonModel::Number(JsonNumber::PosInt(spec_clamp(s.ui_font_size as int, 12, 24) as u64)), spec_keys(seq!["appearance", "background_opacity"]));
    assert("font_weight"@.len() != "background_opacity"@.len());
    assert(spec_keys(seq!["appearance", "font_weight"])[1] != spec_keys(seq!["appearance", "background_opacity"])[1]);
    lemma_set_path_frame(d13, spec_keys(seq!["appearance", "font_weight"]), JsonModel::Number(JsonNumber::PosInt(spec_font_weight(s.terminal_font_weight, 400) as u64)), spec_keys(seq!["appearance", "background_opacity"]));
    assert("font_weight_bold"@.len() != "background_opacity"@.len());
    assert(spec_keys(seq!["appearance", "font_weight_bold"])[1] != spec_keys(seq!["appearance", "background_opacity"])[1]);
    lemma_set_path_frame(d14, spec_keys(seq!["appearance", "font_weight_bold"]), JsonModel::Number(JsonNumber::PosInt(spec_font_weight(s.terminal_font_weight_bold, 700) as u64)), spec_keys(seq!["appearance", "background_opacity"]));
    assert("terminal"@.len() != "appearance"@.len());
    assert(spec_keys(seq!["terminal", "x11_display"])[0] != spec_keys(seq!["appearance", "background_opacity"])[0]);
    lemma_set_path_frame(d15, spec_keys(seq!["terminal", "x11_display"]), JsonModel::Str(s.x11_display@, None), spec_keys(seq!["appearance", "background_opacity"]));
}

#[verifier::spinoff_prover]
proof fn lemma_saved_appearance_keeps_appearance_font_family(d: JsonModel, s: AppSettingsSummary, image_opacity: JsonModel, content_opacity: JsonModel, contrast: JsonModel)
    ensures
        spec_json_path(spec_saved_appearance(d, s, image_opacity, content_opacity, contrast), spec_keys(seq!["appearance", "font_family"])) == Some(JsonModel::Str(s.terminal_font_family@, None)),
{
    reveal_strlit("appearance");
    reveal_strlit("cursor_blink");
    reveal_strlit("cursor_style");
    reveal_strlit("font_family");
    reveal_strlit("font_size");
    reveal_strlit("font_weight");
    reveal_strlit("font_weight_bold");
    reveal_strlit("minimum_contrast_ratio");
    reveal_strlit("terminal");
    reveal_strlit("terminal_theme");
    reveal_strlit("ui_font_family");
    reveal_strlit("ui_font_size");
    let d1 = spec_set_path(d, spec_keys(seq!["appearance", "theme"]), JsonModel::Str(s.theme@, None));
    let d2 = spec_set_path(d1, spec_keys(seq!["appearance", "background_image_path"]), spec_optional_trimmed_value(s.background_image_path));
    let d3 = spec_set_path(d2, spec_keys(seq!["appearance", "background_image_fit"]), JsonModel::Str(s.background_image_fit@, None));
    let d4 = spec_set_path(d3, spec_keys(seq!["appearance", "background_image_opacity"]), image_opacity);
    let d5 = spec_set_path(d4, spec_keys(seq!["appearance", "background_opacity"]), content_opacity);
    let d6 = spec_set_path(d5, spec_keys(seq!["appearance", "font_family"]), JsonModel::Str(s.terminal_font_family@, None));
    let d7 = spec_set_path(d6, spec_keys(seq!["appearance", "font_size"]), JsonModel::Number(JsonNumber::PosInt(s.terminal_font_size as u64)));
    let d8 = spec_set_path(d7, spec_keys(seq!["appearance", "cursor_style"]), JsonModel::Str(spec_pick(s.cursor_style@, spec_keys(seq!["underline", "bar"]), "block"@), None));
    let d9 = spec_set_path(d8, spec_keys(seq!["appearance", "cursor_blink"]), JsonModel::Bool(s.cursor_blink));
    let d10 = spec_set_path(d9, spec_keys(seq!["appearance", "terminal_theme"]), spec_optional_trimmed_value(s.terminal_theme));
    let d11 = spec_set_path(d10, spec_keys(seq!["appearance", "minimum_contrast_ratio"]), contrast);
    let d12 = spec_set_path(d11, spec_keys(seq!["appearance", "ui_font_family"]), JsonModel::Str(spec_ui_font_family(s.ui_font_family@), None));
    let d13 = spec_set_path(d12, spec_keys(seq!["appearance", "ui_font_size"]), JsonModel::Number(JsonNumber::PosInt(spec_clamp(s.ui_font_size as int, 12, 24) as u64)));
    let d14 = spec_set_path(d13, spec_keys(seq!["appearance", "font_weight"]), JsonModel::Number(JsonNumber::PosInt(spec_font_weight(s.terminal_font_weight, 400) as u64)));
    let d15 = spec_set_path(d14, spec_keys(seq!["appearance", "font_weight_bold"]), JsonModel::Number(JsonNumber::PosInt(spec_font_weight(s.terminal_font_weight_bold, 700) as u64)));
    let d16 = spec_set_path(d15, spec_keys(seq!["terminal", "x11_display"]), JsonModel::Str(s.x11_display@, None));
    assert(spec_saved_appearance(d, s, image_opacity, content_opacity, contrast) == d16);
    lemma_set_path_then_read(d5, spec_keys(seq!["appearance", "font_family"]), JsonModel::Str(s.terminal_font_family@, None));
    assert("font_size"@.len() != "font_family"@.len());
    assert(spec_keys(seq!["appearance", "font_size"])[1] != spec_keys(seq!["appearance", "font_family"])[1]);
    lemma_set_path_frame(d6, spec_keys(seq!["appearance", "font_size"]), JsonModel::Number(JsonNumber::PosInt(s.terminal_font_size as u64)), spec_keys(seq!["appearance", "font_family"]));
    assert("cursor_style"@.len() != "font_family"@.len());
    assert(spec_keys(seq!["appearance", "cursor_style"])[1] != spec_keys(seq!["appearance", "font_family"])[1]);
    lemma_set_path_frame(d7, spec_keys(seq!["appearance", "cursor_style"]), JsonModel::Str(spec_pick(s.cursor_style@, spec_keys(seq!["underline", "bar"]), "block"@), None), spec_keys(seq!["appearance", "font_family"]));
    assert("cursor_blink"@.len() != "font_family"@.len());
    assert(spec_keys(seq!["appearance", "cursor_blink"])[1] != spec_keys(seq!["appearance", "font_family"])[1]);
    lemma_set_path_frame(d8, spec_keys(seq!["appearance", "cursor_blink"]), JsonModel::Bool(s.cursor_blink), spec_keys(seq!["appearance", "font_family"]));
    assert("terminal_theme"@.len() != "font_family"@.len());
    assert(spec_keys(seq!["appearance", "terminal_theme"])[1] != spec_keys(seq!["appearance", "font_family"])[1]);
    lemma_set_path_frame(d9, spec_keys(seq!["appearance", "terminal_theme"]), spec_optional_trimmed_value(s.terminal_theme), spec_keys(seq!["appearance", "font_family"]));
    assert("minimum_contrast_ratio"@.len() != "font_family"@.len());
    assert(spec_keys(seq!["appearance", "minimum_contrast_ratio"])[1] != spec_keys(seq!["appearance", "font_family"])[1]);
    lemma_set_path_frame(d10, spec_keys(seq!["appearance", "minimum_contrast_ratio"]), contrast, spec_keys(seq!["appearance", "font_family"]));
    assert("ui_font_family"@.len() != "font_family"@.len());
    assert(spec_keys(seq!["appearance", "ui_font_family"])[1] != spec_keys(seq!["appearance", "font_family"])[1]);
    lemma_set_path_frame(d11, spec_keys(seq!["appearance", "ui_font_family"]), JsonModel::Str(spec_ui_font_family(s.ui_font_family@), None), spec_keys(seq!["appearance", "font_family"]));
    assert("ui_font_size"@.len() != "font_family"@.len());
    assert(spec_keys(seq!["appearance", "ui_font_size"])[1] != spec_keys(seq!["appearance", "font_family"])[1]);
    lemma_set_path_frame(d12, spec_keys(seq!["appearance", "ui_font_size"]), JsonModel::Number(JsonNumber::PosInt(spec_clamp(s.ui_font_size as int, 12, 24) as u64)), spec_keys(seq!["appearance", "font_family"]));
    assert("font_weight"@[5] != "font_family"@[5]);
    assert(spec_keys(seq!["appearance", "font_weight"])[1] != spec_keys(seq!["appearance", "font_family"])[1]);
    lemma_set_path_frame(d13, spec_keys(seq!["appearance", "font_weight"]), JsonModel::Number(JsonNumber::PosInt(spec_font_weight(s.terminal_font_weight, 400) as u64)), spec_keys(seq!["appearance", "font_family"]));
    assert("font_weight_bold"@.len() != "font_family"@.len());
    assert(spec_keys(seq!["appearance", "font_weight_bold"])[1] != spec_keys(seq!["appearance", "font_family"])[1]);
    lemma_set_path_frame(d14, spec_keys(seq!["appearance", "font_weight_bold"]), JsonModel::Number(JsonNumber::PosInt(spec_font_weight(s.terminal_font_weight_bold, 700) as u64)), spec_keys(seq!["appearance", "font_family"]));
    assert("terminal"@.len() != "appearance"@.len());
    assert(spec_keys(seq!["terminal", "x11_display"])[0] != spec_keys(seq!["appearance", "font_family"])[0]);
    lemma_set_path_frame(d15, spec_keys(seq!["terminal", "x11_display"]), JsonModel::Str(s.x11_display@, None), spec_keys(seq!["appearance", "font_family"]));
}

#[verifier::spinoff_prover]
proof fn lemma_saved_appearance_keeps_appearance_font_size(d: JsonModel, s: AppSettingsSummary, image_opacity: JsonModel, content_opacity: JsonModel, contrast: JsonModel)
    ensures
        spec_json_path(spec_saved_appearance(d, s, image_opacity, content_opacity, contrast), spec_keys(seq!["appearance", "font_size"])) == Some(JsonModel::Number(JsonNumber::PosInt(s.terminal_font_size as u64))),
{
    reveal_strlit("appearance");
    reveal_strlit("cursor_blink");
    reveal_strlit("cursor_style");
    reveal_strlit("font_size");
    reveal_strlit("font_weight");
    reveal_strlit("font_weight_bold");
    reveal_strlit("minimum_contrast_ratio");
    reveal_strlit("terminal");
    reveal_strlit("terminal_theme");
    reveal_strlit("ui_font_family");
    reveal_strlit("ui_font_size");
    let d1 = spec_set_path(d, spec_keys(seq!["appearance", "theme"]), JsonModel::Str(s.theme@, None));
    let d2 = spec_set_path(d1, spec_keys(seq!["appearance", "background_image_path"]), spec_optional_trimmed_value(s.background_image_path));
    let d3 = spec_set_path(d2, spec_keys(seq!["appearance", "background_image_fit"]), JsonModel::Str(s.background_image_fit@, None));
    let d4 = spec_set_path(d3, spec_keys(seq!["appearance", "background_image_opacity"]), image_opacity);
    let d5 = spec_set_path(d4, spec_keys(seq!["appearance", "background_opacity"]), content_opacity);
    let d6 = spec_set_path(d5, spec_keys(seq!["appearance", "font_family"]), JsonModel::Str(s.terminal_font_family@, None));
    let d7 = spec_set_path(d6, spec_keys(seq!["appearance", "font_size"]), JsonModel::Number(JsonNumber::PosInt(s.terminal_font_size as u64)));
    let d8 = spec_set_path(d7, spec_keys(seq!["appearance", "cursor_style"]), JsonModel::Str(spec_pick(s.cursor_style@, spec_keys(seq!["underline", "bar"]), "block"@), None));
    let d9 = spec_set_path(d8, spec_keys(seq!["appearance", "cursor_blink"]), JsonModel::Bool(s.cursor_blink));
    let d10 = spec_set_path(d9, spec_keys(seq!["appearance", "terminal_theme"]), spec_optional_trimmed_value(s.terminal_theme));
    let d11 = spec_set_path(d10, spec_keys(seq!["appearance", "minimum_contrast_ratio"]), contrast);
    let d12 = spec_set_path(d11, spec_keys(seq!["appearance", "ui_font_family"]), JsonModel::Str(spec_ui_font_family(s.ui_font_family@), None));
    let d13 = spec_set_path(d12, spec_keys(seq!["appearance", "ui_font_size"]), JsonModel::Number(JsonNumber::PosInt(spec_clamp(s.ui_font_size as int, 12, 24) as u64)));
    let d14 = spec_set_path(d13, spec_keys(seq!["appearance", "font_weight"]), JsonModel::Number(JsonNumber::PosInt(spec_font_weight(s.terminal_font_weight, 400) as u64)));
    let d15 = spec_set_path(d14, spec_keys(seq!["appearance", "font_weight_bold"]), JsonModel::Number(JsonNumber::PosInt(spec_font_weight(s.terminal_font_weight_bold, 700) as u64)));
    let d16 = spec_set_path(d15, spec_keys(seq!["terminal", "x11_display"]), JsonModel::Str(s.x11_display@, None));
    assert(spec_saved_appearance(d, s, image_opacity, content_opacity, contrast) == d16);
    lemma_set_path_then_read(d6, spec_keys(seq!["appearance", "font_size"]), JsonModel::Number(JsonNumber::PosInt(s.terminal_font_size as u64)));
    assert("cursor_style"@.len() != "font_size"@.len());
    assert(spec_keys(seq!["appearance", "cursor_style"])[1] != spec_keys(seq!["appearance", "font_size"])[1]);
    lemma_set_path_frame(d7, spec_keys(seq!["appearance", "cursor_style"]), JsonModel::Str(spec_pick(s.cursor_style@, spec_keys(seq!["underline", "bar"]), "block"@), None), spec_keys(seq!["appearance", "font_size"]));
    assert("cursor_blink"@.len() != "font_size"@.len());
    assert(spec_keys(seq!["appearance", "cursor_blink"])[1] != spec_keys(seq!["appearance", "font_size"])[1]);
    lemma_set_path_frame(d8, spec_keys(seq!["appearance", "cursor_blink"]), JsonModel::Bool(s.cursor_blink), spec_keys(seq!["appearance", "font_size"]));
    assert("terminal_theme"@.len() != "font_size"@.len());
    assert(spec_keys(seq!["appearance", "terminal_theme"])[1] != spec_keys(seq!["appearance", "font_size"])[1]);
    lemma_set_path_frame(d9, spec_keys(seq!["appearance", "terminal_theme"]), spec_optional_trimmed_value(s.terminal_theme), spec_keys(seq!["appearance", "font_size"]));
    assert("minimum_contrast_ratio"@.len() != "font_size"@.len());
    assert(spec_keys(seq!["appearance", "minimum_contrast_ratio"])[1] != spec_keys(seq!["appearance", "font_size"])[1]);
    lemma_set_path_frame(d10, spec_keys(seq!["appearance", "minimum_contrast_ratio"]), contrast, spec_keys(seq!["appearance", "font_size"]));
    assert("ui_font_family"@.len() != "font_size"@.len());
    assert(spec_keys(seq!["appearance", "ui_font_family"])[1] != spec_keys(seq!["appearance", "font_size"])[1]);
    lemma_set_path_frame(d11, spec_keys(seq!["appearance", "ui_font_family"]), JsonModel::Str(spec_ui_font_family(s.ui_font_family@), None), spec_keys(seq!["appearance", "font_size"]));
    assert("ui_font_size"@.len() != "font_size"@.len());
    assert(spec_keys(seq!["appearance", "ui_font_size"])[1] != spec_keys(seq!["appearance", "font_size"])[1]);
    lemma_set_path_frame(d12, spec_keys(seq!["appearance", "ui_font_size"]), JsonModel::Number(JsonNumber::PosInt(spec_clamp(s.ui_font_size as int, 12, 24) as u64)), spec_keys(seq!["appearance", "font_size"]));
    assert("font_weight"@.len() != "font_size"@.len());
    assert(spec_keys(seq!["appearance", "font_weight"])[1] != spec_keys(seq!["appearance", "font_size"])[1]);
    lemma_set_path_frame(d13, spec_keys(seq!["appearance", "font_weight"]), JsonModel::Number(JsonNumber::PosInt(spec_font_weight(s.terminal_font_weight, 400) as u64)), spec_keys(seq!["appearance", "font_size"]));
    assert("font_weight_bold"@.len() != "font_size"@.len());
    assert(spec_keys(seq!["appearance", "font_weight_bold"])[1] != spec_keys(seq!["appearance", "font_size"])[1]);
    lemma_set_path_frame(d14, spec_keys(seq!["appearance", "font_weight_bold"]), JsonModel::Number(JsonNumber::PosInt(spec_font_weight(s.terminal_font_weight_bold, 700) as u64)), spec_keys(seq!["appearance", "font_size"]));
    assert("terminal"@.len() != "appearance"@.len());
    assert(spec_keys(seq!["terminal", "x11_display"])[0] != spec_keys(seq!["appearance", "font_size"])[0]);
    lemma_set_path_frame(d15, spec_keys(seq!["terminal", "x11_display"]), JsonModel::Str(s.x11_display@, None), spec_keys(seq!["appearance", "font_size"]));
}

#[verifier::spinoff_prover]
proof fn lemma_saved_appearance_keeps_appearance_cursor_style(d: JsonModel, s: AppSettingsSummary, image_opacity: JsonModel, content_opacity: JsonModel, contrast: JsonModel)
    ensures
        spec_json_path(spec_saved_appearance(d, s, image_opacity, content_opacity, contrast), spec_keys(seq!["appearance", "cursor_style"])) == Some(JsonModel::Str(spec_pick(s.cursor_style@, spec_keys(seq!["underline", "bar"]), "block"@), None)),
{
    reveal_strlit("appearance");
    reveal_strlit("cursor_blink");
    reveal_strlit("cursor_style");
    reveal_strlit("font_weight");
    reveal_strlit("font_weight_bold");
    reveal_strlit("minimum_contrast_ratio");
    reveal_strlit("terminal");
    reveal_strlit("terminal_theme");
    reveal_strlit("ui_font_family");
    reveal_strlit("ui_font_size");
    let d1 = spec_set_path(d, spec_keys(seq!["appearance", "theme"]), JsonModel::Str(s.theme@, None));
    let d2 = spec_set_path(d1, spec_keys(seq!["appearance", "background_image_path"]), spec_optional_trimmed_value(s.background_image_path));
    let d3 = spec_set_path(d2, spec_keys(seq!["appearance", "background_image_fit"]), JsonModel::Str(s.background_image_fit@, None));
    let d4 = spec_set_path(d3, spec_keys(seq!["appearance", "background_image_opacity"]), image_opacity);
    let d5 = spec_set_path(d4, spec_keys(seq!["appearance", "background_opacity"]), content_opacity);
    let d6 = spec_set_path(d5, spec_keys(seq!["appearance", "font_family"]), JsonModel::Str(s.terminal_font_family@, None));
    let d7 = spec_set_path(d6, spec_keys(seq!["appearance", "font_size"]), JsonModel::Number(JsonNumber::PosInt(s.terminal_font_size as u64)));
    let d8 = spec_set_path(d7, spec_keys(seq!["appearance", "cursor_style"]), JsonModel::Str(spec_pick(s.cursor_style@, spec_keys(seq!["underline", "bar"]), "block"@), None));
    let d9 = spec_set_path(d8, spec_keys(seq!["appearance", "cursor_blink"]), JsonModel::Bool(s.cursor_blink));
    let d10 = spec_set_path(d9, spec_keys(seq!["appearance", "terminal_theme"]), spec_optional_trimmed_value(s.terminal_theme));
    let d11 = spec_set_path(d10, spec_keys(seq!["appearance", "minimum_contrast_ratio"]), contrast);
    let d12 = spec_set_path(d11, spec_keys(seq!["appearance", "ui_font_family"]), JsonModel::Str(spec_ui_font_family(s.ui_font_family@), None));
    let d13 = spec_set_path(d12, spec_keys(seq!["appearance", "ui_font_size"]), JsonModel::Number(JsonNumber::PosInt(spec_clamp(s.ui_font_size as int, 12, 24) as u64)));
    let d14 = spec_set_path(d13, spec_keys(seq!["appearance", "font_weight"]), JsonModel::Number(JsonNumber::PosInt(spec_font_weight(s.terminal_font_weight, 400) as u64)));
    let d15 = spec_set_path(d14, spec_keys(seq!["appearance", "font_weight_bold"]), JsonModel::Number(JsonNumber::PosInt(spec_font_weight(s.terminal_font_weight_bold, 700) as u64)));
    let d16 = spec_set_path(d15, spec_keys(seq!["terminal", "x11_display"]), JsonModel::Str(s.x11_display@, None));
    assert(spec_saved_appearance(d, s, image_opacity, content_opacity, contrast) == d16);
    lemma_set_path_then_read(d7, spec_keys(seq!["appearance", "cursor_style"]), JsonModel::Str(spec_pick(s.cursor_style@, spec_keys(seq!["underline", "bar"]), "block"@), None));
    assert("cursor_blink"@[7] != "cursor_style"@[7]);
    assert(spec_keys(seq!["appearance", "cursor_blink"])[1] != spec_keys(seq!["appearance", "cursor_style"])[1]);
    lemma_set_path_frame(d8, spec_keys(seq!["appearance", "cursor_blink"]), JsonModel::Bool(s.cursor_blink), spec_keys(seq!["appearance", "cursor_style"]));
    assert("terminal_theme"@.len() != "cursor_style"@.len());
    assert(spec_keys(seq!["appearance", "terminal_theme"])[1] != spec_keys(seq!["appearance", "cursor_style"])[1]);
    lemma_set_path_frame(d9, spec_keys(seq!["appearance", "terminal_theme"]), spec_optional_trimmed_value(s.terminal_theme), spec_keys(seq!["appearance", "cursor_style"]));
    assert("minimum_contrast_ratio"@.len() != "cursor_style"@.len());
    assert(spec_keys(seq!["appearance", "minimum_contrast_ratio"])[1] != spec_keys(seq!["appearance", "cursor_style"])[1]);
    lemma_set_path_frame(d10, spec_keys(seq!["appearance", "minimum_contrast_ratio"]), contrast, spec_keys(seq!["appearance", "cursor_style"]));
    assert("ui_font_family"@.len() != "cursor_style"@.len());
    assert(spec_keys(seq!["appearance", "ui_font_family"])[1] != spec_keys(seq!["appearance", "cursor_style"])[1]);
    lemma_set_path_frame(d11, spec_keys(seq!["appearance", "ui_font_family"]), JsonModel::Str(spec_ui_font_family(s.ui_font_family@), None), spec_keys(seq!["appearance", "cursor_style"]));
    assert("ui_font_size"@[0] != "cursor_style"@[0]);
    assert(spec_keys(seq!["appearance", "ui_font_size"])[1] != spec_keys(seq!["appearance", "cursor_style"])[1]);
    lemma_set_path_frame(d12, spec_keys(seq!["appearance", "ui_font_size"]), JsonModel::Number(JsonNumber::PosInt(spec_clamp(s.ui_font_size as int, 12, 24) as u64)), spec_keys(seq!["appearance", "cursor_style"]));
    assert("font_weight"@.len() != "cursor_style"@.len());
    assert(spec_keys(seq!["appearance", "font_weight"])[1] != spec_keys(seq!["appearance", "cursor_style"])[1]);
    lemma_set_path_frame(d13, spec_keys(seq!["appearance", "font_weight"]), JsonModel::Number(JsonNumber::PosInt(spec_font_weight(s.terminal_font_weight, 400) as u64)), spec_keys(seq!["appearance", "cursor_style"]));
    assert("font_weight_bold"@.len() != "cursor_style"@.len());
    assert(spec_keys(seq!["appearance", "font_weight_bold"])[1] != spec_keys(seq!["appearance", "cursor_style"])[1]);
    lemma_set_path_frame(d14, spec_keys(seq!["appearance", "font_weight_bold"]), JsonModel::Number(JsonNumber::PosInt(spec_font_weight(s.terminal_font_weight_bold, 700) as u64)), spec_keys(seq!["appearance", "cursor_style"]));
    assert("terminal"@.len() != "appearance"@.len());
    assert(spec_keys(seq!["terminal", "x11_display"])[0] != spec_keys(seq!["appearance", "cursor_style"])[0]);
    lemma_set_path_frame(d15, spec_keys(seq!["terminal", "x11_display"]), JsonModel::Str(s.x11_display@, None), spec_keys(seq!["appearance", "cursor_style"]));
}

#[verifier::spinoff_prover]
proof fn lemma_saved_appearance_keeps_appearance_cursor_blink(d: JsonModel, s: AppSettingsSummary, image_opacity: JsonModel, content_opacity: JsonModel, contrast: JsonModel)
    ensures
        spec_json_path(spec_saved_appearance(d, s, image_opacity, content_opacity, contrast), spec_keys(seq!["appearance", "cursor_blink"])) == Some(JsonModel::Bool(s.cursor_blink)),
{
    reveal_strlit("appearance");
    reveal_strlit("cursor_blink");
    reveal_strlit("font_weight");
    reveal_strlit("font_weight_bold");
    reveal_strlit("minimum_contrast_ratio");
    reveal_strlit("terminal");
    reveal_strlit("terminal_theme");
    reveal_strlit("ui_font_family");
    reveal_strlit("ui_font_size");
    let d1 = spec_set_path(d, spec_keys(seq!["appearance", "theme"]), JsonModel::Str(s.theme@, None));
    let d2 = spec_set_path(d1, spec_keys(seq!["appearance", "background_image_path"]), spec_optional_trimmed_value(s.background_image_path));
    let d3 = spec_set_path(d2, spec_keys(seq!["appearance", "background_image_fit"]), JsonModel::Str(s.background_image_fit@, None));
    let d4 = spec_set_path(d3, spec_keys(seq!["appearance", "background_image_opacity"]), image_opacity);
    let d5 = spec_set_path(d4, spec_keys(seq!["appearance", "background_opacity"]), content_opacity);
    let d6 = spec_set_path(d5, spec_keys(seq!["appearance", "font_family"]), JsonModel::Str(s.terminal_font_family@, None));
    let d7 = spec_set_path(d6, spec_keys(seq!["appearance", "font_size"]), JsonModel::Number(JsonNumber::PosInt(s.terminal_font_size as u64)));
    let d8 = spec_set_path(d7, spec_keys(seq!["appearance", "cursor_style"]), JsonModel::Str(spec_pick(s.cursor_style@, spec_keys(seq!["underline", "bar"]), "block"@), None));
    let d9 = spec_set_path(d8, spec_keys(seq!["appearance", "cursor_blink"]), JsonModel::Bool(s.cursor_blink));
    let d10 = spec_set_path(d9, spec_keys(seq!["appearance", "terminal_theme"]), spec_optional_trimmed_value(s.terminal_theme));
    let d11 = spec_set_path(d10, spec_keys(seq!["appearance", "minimum_contrast_ratio"]), contrast);
    let d12 = spec_set_path(d11, spec_keys(seq!["appearance", "ui_font_family"]), JsonModel::Str(spec_ui_font_family(s.ui_font_family@), None));
    let d13 = spec_set_path(d12, spec_keys(seq!["appearance", "ui_font_size"]), JsonModel::Number(JsonNumber::PosInt(spec_clamp(s.ui_font_size as int, 12, 24) as u64)));
    let d14 = spec_set_path(d13, spec_keys(seq!["appearance", "font_weight"]), JsonModel::Number(JsonNumber::PosInt(spec_font_weight(s.terminal_font_weight, 400) as u64)));
    let d15 = spec_set_path(d14, spec_keys(seq!["appearance", "font_weight_bold"]), JsonModel::Number(JsonNumber::PosInt(spec_font_weight(s.terminal_font_weight_bold, 700) as u64)));
    let d16 = spec_set_path(d15, spec_keys(seq!["terminal", "x11_display"]), JsonModel::Str(s.x11_display@, None));
    assert(spec_saved_appearance(d, s, image_opacity, content_opacity, contrast) == d16);
    lemma_set_path_then_read(d8, spec_keys(seq!["appearance", "cursor_blink"]), JsonModel::Bool(s.cursor_blink));
    assert("terminal_theme"@.len() != "cursor_blink"@.len());
    assert(spec_keys(seq!["appearance", "terminal_theme"])[1] != spec_keys(seq!["appearance", "cursor_blink"])[1]);
    lemma_set_path_frame(d9, spec_keys(seq!["appearance", "terminal_theme"]), spec_optional_trimmed_value(s.terminal_theme), spec_keys(seq!["appearance", "cursor_blink"]));
    assert("minimum_contrast_ratio"@.len() != "cursor_blink"@.len());
    assert(spec_keys(seq!["appearance", "minimum_contrast_ratio"])[1] != spec_keys(seq!["appearance", "cursor_blink"])[1]);
    lemma_set_path_frame(d10, spec_keys(seq!["appearance", "minimum_contrast_ratio"]), contrast, spec_keys(seq!["appearance", "cursor_blink"]));
    assert("ui_font_family"@.len() != "cursor_blink"@.len());
    assert(spec_keys(seq!["appearance", "ui_font_family"])[1] != spec_keys(seq!["appearance", "cursor_blink"])[1]);
    lemma_set_path_frame(d11, spec_keys(seq!["appearance", "ui_font_family"]), JsonModel::Str(spec_ui_font_family(s.ui_font_family@), None), spec_keys(seq!["appearance", "cursor_blink"]));
    assert("ui_font_size"@[0] != "cursor_blink"@[0]);
    assert(spec_keys(seq!["appearance", "ui_font_size"])[1] != spec_keys(seq!["appearance", "cursor_blink"])[1]);
    lemma_set_path_frame(d12, spec_keys(seq!["appearance", "ui_font_size"]), JsonModel::Number(JsonNumber::PosInt(spec_clamp(s.ui_font_size as int, 12, 24) as u64)), spec_keys(seq!["appearance", "cursor_blink"]));
    assert("font_weight"@.len() != "cursor_blink"@.len());
    assert(spec_keys(seq!["appearance", "font_weight"])[1] != spec_keys(seq!["appearance", "cursor_blink"])[1]);
    lemma_set_path_frame(d13, spec_keys(seq!["appearance", "font_weight"]), JsonModel::Number(JsonNumber::PosInt(spec_font_weight(s.terminal_font_weight, 400) as u64)), spec_keys(seq!["appearance", "cursor_blink"]));
    assert("font_weight_bold"@.len() != "cursor_blink"@.len());
    assert(spec_keys(seq!["appearance", "font_weight_bold"])[1] != spec_keys(seq!["appearance", "cursor_blink"])[1]);
    lemma_set_path_frame(d14, spec_keys(seq!["appearance", "font_weight_bold"]), JsonModel::Number(JsonNumber::PosInt(spec_font_weight(s.terminal_font_weight_bold, 700) as u64)), spec_keys(seq!["appearance", "cursor_blink"]));
    assert("terminal"@.len() != "appearance"@.len());
    assert(spec_keys(seq!["terminal", "x11_display"])[0] != spec_keys(seq!["appearance", "cursor_blink"])[0]);
    lemma_set_path_frame(d15, spec_keys(seq!["terminal", "x11_display"]), JsonModel::Str(s.x11_display@, None), spec_keys(seq!["appearance", "cursor_blink"]));
}

#[verifier::spinoff_prover]
proof fn lemma_saved_appearance_keeps_appearance_terminal_theme(d: JsonModel, s: AppSettingsSummary, image_opacity: JsonModel, content_opacity: JsonModel, contrast: JsonModel)
    ensures
        spec_json_path(spec_saved_appearance(d, s, image_opacity, content_opacity, contrast), spec_keys(seq!["appearance", "terminal_theme"])) == Some(spec_optional_trimmed_value(s.terminal_theme)),
{
    reveal_strlit("appearance");
    reveal_strlit("font_weight");
    reveal_strlit("font_weight_bold");
    reveal_strlit("minimum_contrast_ratio");
    reveal_strlit("terminal");
    reveal_strlit("terminal_theme");
    reveal_strlit("ui_font_family");
    reveal_strlit("ui_font_size");
    let d1 = spec_set_path(d, spec_keys(seq!["appearance", "theme"]), JsonModel::Str(s.theme@, None));
    let d2 = spec_set_path(d1, spec_keys(seq!["appearance", "background_image_path"]), spec_optional_trimmed_value(s.background_image_path));
    let d3 = spec_set_path(d2, spec_keys(seq!["appearance", "background_image_fit"]), JsonModel::Str(s.background_image_fit@, None));
    let d4 = spec_set_path(d3, spec_keys(seq!["appearance", "background_image_opacity"]), image_opacity);
    let d5 = spec_set_path(d4, spec_keys(seq!["appearance", "background_opacity"]), content_opacity);
    let d6 = spec_set_path(d5, spec_keys(seq!["appearance", "font_family"]), JsonModel::Str(s.terminal_font_family@, None));
    let d7 = spec_set_path(d6, spec_keys(seq!["appearance", "font_size"]), JsonModel::Number(JsonNumber::PosInt(s.terminal_font_size as u64)));
    let d8 = spec_set_path(d7, spec_keys(seq!["appearance", "cursor_style"]), JsonModel::Str(spec_pick(s.cursor_style@, spec_keys(seq!["underline", "bar"]), "block"@), None));
    let d9 = spec_set_path(d8, spec_keys(seq!["appearance", "cursor_blink"]), JsonModel::Bool(s.cursor_blink));
    let d10 = spec_set_path(d9, spec_keys(seq!["appearance", "terminal_theme"]), spec_optional_trimmed_value(s.terminal_theme));
    let d11 = spec_set_path(d10, spec_keys(seq!["appearance", "minimum_contrast_ratio"]), contrast);
    let d12 = spec_set_path(d11, spec_keys(seq!["appearance", "ui_font_family"]), JsonModel::Str(spec_ui_font_family(s.ui_font_family@), None));
    let d13 = spec_set_path(d12, spec_keys(seq!["appearance", "ui_font_size"]), JsonModel::Number(JsonNumber::PosInt(spec_clamp(s.ui_font_size as int, 12, 24) as u64)));
    let d14 = spec_set_path(d13, spec_keys(seq!["appearance", "font_weight"]), JsonModel::Number(JsonNumber::PosInt(spec_font_weight(s.terminal_font_weight, 400) as u64)));
    let d15 = spec_set_path(d14, spec_keys(seq!["appearance", "font_weight_bold"]), JsonModel::Number(JsonNumber::PosInt(spec_font_weight(s.terminal_font_weight_bold, 700) as u64)));
    let d16 = spec_set_path(d15, spec_keys(seq!["terminal", "x11_display"]), JsonModel::Str(s.x11_display@, None));
    assert(spec_saved_appearance(d, s, image_opacity, content_opacity, contrast) == d16);
    lemma_set_path_then_read(d9, spec_keys(seq!["appearance", "terminal_theme"]), spec_optional_trimmed_value(s.terminal_theme));
    assert("minimum_contrast_ratio"@.len() != "terminal_theme"@.len());
    assert(spec_keys(seq!["appearance", "minimum_contrast_ratio"])[1] != spec_keys(seq!["appearance", "terminal_theme"])[1]);
    lemma_set_path_frame(d10, spec_keys(seq!["appearance", "minimum_contrast_ratio"]), contrast, spec_keys(seq!["appearance", "terminal_theme"]));
    assert("ui_font_family"@[0] != "terminal_theme"@[0]);
    assert(spec_keys(seq!["appearance", "ui_font_family"])[1] != spec_keys(seq!["appearance", "terminal_theme"])[1]);
    lemma_set_path_frame(d11, spec_keys(seq!["appearance", "ui_font_family"]), JsonModel::Str(spec_ui_font_family(s.ui_font_family@), None), spec_keys(seq!["appearance", "terminal_theme"]));
    assert("ui_font_size"@.len() != "terminal_theme"@.len());
    assert(spec_keys(seq!["appearance", "ui_font_size"])[1] != spec_keys(seq!["appearance", "terminal_theme"])[1]);
    lemma_set_path_frame(d12, spec_keys(seq!["appearance", "ui_font_size"]), JsonModel::Number(JsonNumber::PosInt(spec_clamp(s.ui_font_size as int, 12, 24) as u64)), spec_keys(seq!["appearance", "terminal_theme"]));
    assert("font_weight"@.len() != "terminal_theme"@.len());
    assert(spec_keys(seq!["appearance", "font_weight"])[1] != spec_keys(seq!["appearance", "terminal_theme"])[1]);
    lemma_set_path_frame(d13, spec_keys(seq!["appearance", "font_weight"]), JsonModel::Number(JsonNumber::PosInt(spec_font_weight(s.terminal_font_weight, 400) as u64)), spec_keys(seq!["appearance", "terminal_theme"]));
    assert("font_weight_bold"@.len() != "terminal_theme"@.len());
    assert(spec_keys(seq!["appearance", "font_weight_bold"])[1] != spec_keys(seq!["appearance", "terminal_theme"])[1]);
    lemma_set_path_frame(d14, spec_keys(seq!["appearance", "font_weight_bold"]), JsonModel::Number(JsonNumber::PosInt(spec_font_weight(s.terminal_font_weight_bold, 700) as u64)), spec_keys(seq!["appearance", "terminal_theme"]));
    assert("terminal"@.len() != "appearance"@.len());
    assert(spec_keys(seq!["terminal", "x11_display"])[0] != spec_keys(seq!["appearance", "terminal_theme"])[0]);
    lemma_set_path_frame(d15, spec_keys(seq!["terminal", "x11_display"]), JsonModel::Str(s.x11_display@, None), spec_keys(seq!["appearance", "terminal_theme"]));
}

#[verifier::spinoff_prover]
proof fn lemma_saved_appearance_keeps_appearance_minimum_contrast_ratio(d: JsonModel, s: AppSettingsSummary, image_opacity: JsonModel, content_opacity: JsonModel, contrast: JsonModel)
    ensures
        spec_json_path(spec_saved_appearance(d, s, image_opacity, content_opacity, contrast), spec_keys(seq!["appearance", "minimum_contrast_ratio"])) == Some(contrast),
{
    reveal_strlit("appearance");
    reveal_strlit("font_weight");
    reveal_strlit("font_weight_bold");
    reveal_strlit("minimum_contrast_ratio");
    reveal_strlit("terminal");
    reveal_strlit("ui_font_family");
    reveal_strlit("ui_font_size");
    let d1 = spec_set_path(d, spec_keys(seq!["appearance", "theme"]), JsonModel::Str(s.theme@, None));
    let d2 = spec_set_path(d1, spec_keys(seq!["appearance", "background_image_path"]), spec_optional_trimmed_value(s.background_image_path));
    let d3 = spec_set_path(d2, spec_keys(seq!["appearance", "background_image_fit"]), JsonModel::Str(s.background_image_fit@, None));
    let d4 = spec_set_path(d3, spec_keys(seq!["appearance", "background_image_opacity"]), image_opacity);
    let d5 = spec_set_path(d4, spec_keys(seq!["appearance", "background_opacity"]), content_opacity);
    let d6 = spec_set_path(d5, spec_keys(seq!["appearance", "font_family"]), JsonModel::Str(s.terminal_font_family@, None));
    let d7 = spec_set_path(d6, spec_keys(seq!["appearance", "font_size"]), JsonModel::Number(JsonNumber::PosInt(s.terminal_font_size as u64)));
    let d8 = spec_set_path(d7, spec_keys(seq!["appearance", "cursor_style"]), JsonModel::Str(spec_pick(s.cursor_style@, spec_keys(seq!["underline", "bar"]), "block"@), None));
    let d9 = spec_set_path(d8, spec_keys(seq!["appearance", "cursor_blink"]), JsonModel::Bool(s.cursor_blink));
    let d10 = spec_set_path(d9, spec_keys(seq!["appearance", "terminal_theme"]), spec_optional_trimmed_value(s.terminal_theme));
    let d11 = spec_set_path(d10, spec_keys(seq!["appearance", "minimum_contrast_ratio"]), contrast);
    let d12 = spec_set_path(d11, spec_keys(seq!["appearance", "ui_font_family"]), JsonModel::Str(spec_ui_font_family(s.ui_font_family@), None));
    let d13 = spec_set_path(d12, spec_keys(seq!["appearance", "ui_font_size"]), JsonModel::Number(JsonNumber::PosInt(spec_clamp(s.ui_font_size as int, 12, 24) as u64)));
    let d14 = spec_set_path(d13, spec_keys(seq!["appearance", "font_weight"]), JsonModel::Number(JsonNumber::PosInt(spec_font_weight(s.terminal_font_weight, 400) as u64)));
    let d15 = spec_set_path(d14, spec_keys(seq!["appearance", "font_weight_bold"]), JsonModel::Number(JsonNumber::PosInt(spec_font_weight(s.terminal_font_weight_bold, 700) as u64)));
    let d16 = spec_set_path(d15, spec_keys(seq!["terminal", "x11_display"]), JsonModel::Str(s.x11_display@, None));
    assert(spec_saved_appearance(d, s, image_opacity, content_opacity, contrast) == d16);
    lemma_set_path_then_read(d10, spec_keys(seq!["appearance", "minimum_contrast_ratio"]), contrast);
    assert("ui_font_family"@.len() != "minimum_contrast_ratio"@.len());
    assert(spec_keys(seq!["appearance", "ui_font_family"])[1] != spec_keys(seq!["appearance", "minimum_contrast_ratio"])[1]);
    lemma_set_path_frame(d11, spec_keys(seq!["appearance", "ui_font_family"]), JsonModel::Str(spec_ui_font_family(s.ui_font_family@), None), spec_keys(seq!["appearance", "minimum_contrast_ratio"]));
    assert("ui_font_size"@.len() != "minimum_contrast_ratio"@.len());
    assert(spec_keys(seq!["appearance", "ui_font_size"])[1] != spec_keys(seq!["appearance", "minimum_contrast_ratio"])[1]);
    lemma_set_path_frame(d12, spec_keys(seq!["appearance", "ui_font_size"]), JsonModel::Number(JsonNumber::PosInt(spec_clamp(s.ui_font_size as int, 12, 24) as u64)), spec_keys(seq!["appearance", "minimum_contrast_ratio"]));
    assert("font_weight"@.len() != "minimum_contrast_ratio"@.len());
    assert(spec_keys(seq!["appearance", "font_weight"])[1] != spec_keys(seq!["appearance", "minimum_contrast_ratio"])[1]);
    lemma_set_path_frame(d13, spec_keys(seq!["appearance", "font_weight"]), JsonModel::Number(JsonNumber::PosInt(spec_font_weight(s.terminal_font_weight, 400) as u64)), spec_keys(seq!["appearance", "minimum_contrast_ratio"]));
    assert("font_weight_bold"@.len() != "minimum_contrast_ratio"@.len());
    assert(spec_keys(seq!["appearance", "font_weight_bold"])[1] != spec_keys(seq!["appearance", "minimum_contrast_ratio"])[1]);
    lemma_set_path_frame(d14, spec_keys(seq!["appearance", "font_weight_bold"]), JsonModel::Number(JsonNumber::PosInt(spec_font_weight(s.terminal_font_weight_bold, 700) as u64)), spec_keys(seq!["appearance", "minimum_contrast_ratio"]));
    assert("terminal"@.len() != "appearance"@.len());
    assert(spec_keys(seq!["terminal", "x11_display"])[0] != spec_keys(seq!["appearance", "minimum_contrast_ratio"])[0]);
    lemma_set_path_frame(d15, spec_keys(seq!["terminal", "x11_display"]), JsonModel::Str(s.x11_display@, None), spec_keys(seq!["appearance", "minimum_contrast_ratio"]));
}

#[verifier::spinoff_prover]
proof fn lemma_saved_appearance_keeps_appearance_ui_font_family(d: JsonModel, s: AppSettingsSummary, image_opacity: JsonModel, content_opacity: JsonModel, contrast: JsonModel)
    ensures
        spec_json_path(spec_saved_appearance(d, s, image_opacity, content_opacity, contrast), spec_keys(seq!["appearance", "ui_font_family"])) == Some(JsonModel::Str(spec_ui_font_family(s.ui_font_family@), None)),
{
    reveal_strlit("appearance");
    reveal_strlit("font_weight");
    reveal_strlit("font_weight_bold");
    reveal_strlit("terminal");
    reveal_strlit("ui_font_family");
    reveal_strlit("ui_font_size");
    let d1 = spec_set_path(d, spec_keys(seq!["appearance", "theme"]), JsonModel::Str(s.theme@, None));
    let d2 = spec_set_path(d1, spec_keys(seq!["appearance", "background_image_path"]), spec_optional_trimmed_value(s.background_image_path));
    let d3 = spec_set_path(d2, spec_keys(seq!["appearance", "background_image_fit"]), JsonModel::Str(s.background_image_fit@, None));
    let d4 = spec_set_path(d3, spec_keys(seq!["appearance", "background_image_opacity"]), image_opacity);
    let d5 = spec_set_path(d4, spec_keys(seq!["appearance", "background_opacity"]), content_opacity);
    let d6 = spec_set_path(d5, spec_keys(seq!["appearance", "font_family"]), JsonModel::Str(s.terminal_font_family@, None));
    let d7 = spec_set_path(d6, spec_keys(seq!["appearance", "font_size"]), JsonModel::Number(JsonNumber::PosInt(s.terminal_font_size as u64)));
    let d8 = spec_set_path(d7, spec_keys(seq!["appearance", "cursor_style"]), JsonModel::Str(spec_pick(s.cursor_style@, spec_keys(seq!["underline", "bar"]), "block"@), None));
    let d9 = spec_set_path(d8, spec_keys(seq!["appearance", "cursor_blink"]), JsonModel::Bool(s.cursor_blink));
    let d10 = spec_set_path(d9, spec_keys(seq!["appearance", "terminal_theme"]), spec_optional_trimmed_value(s.terminal_theme));
    let d11 = spec_set_path(d10, spec_keys(seq!["appearance", "minimum_contrast_ratio"]), contrast);
    let d12 = spec_set_path(d11, spec_keys(seq!["appearance", "ui_font_family"]), JsonModel::Str(spec_ui_font_family(s.ui_font_family@), None));
    let d13 = spec_set_path(d12, spec_keys(seq!["appearance", "ui_font_size"]), JsonModel::Number(JsonNumber::PosInt(spec_clamp(s.ui_font_size as int, 12, 24) as u64)));
    let d14 = spec_set_path(d13, spec_keys(seq!["appearance", "font_weight"]), JsonModel::Number(JsonNumber::PosInt(spec_font_weight(s.terminal_font_weight, 400) as u64)));
    let d15 = spec_set_path(d14, spec_keys(seq!["appearance", "font_weight_bold"]), JsonModel::Number(JsonNumber::PosInt(spec_font_weight(s.terminal_font_weight_bold, 700) as u64)));
    let d16 = spec_set_path(d15, spec_keys(seq!["terminal", "x11_display"]), JsonModel::Str(s.x11_display@, None));
    assert(spec_saved_appearance(d, s, image_opacity, content_opacity, contrast) == d16);
    lemma_set_path_then_read(d11, spec_keys(seq!["appearance", "ui_font_family"]), JsonModel::Str(spec_ui_font_family(s.ui_font_family@), None));
    assert("ui_font_size"@.len() != "ui_font_family"@.len());
    assert(spec_keys(seq!["appearance", "ui_font_size"])[1] != spec_keys(seq!["appearance", "ui_font_family"])[1]);
    lemma_set_path_frame(d12, spec_keys(seq!["appearance", "ui_font_size"]), JsonModel::Number(JsonNumber::PosInt(spec_clamp(s.ui_font_size as int, 12, 24) as u64)), spec_keys(seq!["appearance", "ui_font_family"]));
    assert("font_weight"@.len() != "ui_font_family"@.len());
    assert(spec_keys(seq!["appearance", "font_weight"])[1] != spec_keys(seq!["appearance", "ui_font_family"])[1]);
    lemma_set_path_frame(d13, spec_keys(seq!["appearance", "font_weight"]), JsonModel::Number(JsonNumber::PosInt(spec_font_weight(s.terminal_font_weight, 400) as u64)), spec_keys(seq!["appearance", "ui_font_family"]));
    assert("font_weight_bold"@.len() != "ui_font_family"@.len());
    assert(spec_keys(seq!["appearance", "font_weight_bold"])[1] != spec_keys(seq!["appearance", "ui_font_family"])[1]);
    lemma_set_path_frame(d14, spec_keys(seq!["appearance", "font_weight_bold"]), JsonModel::Number(JsonNumber::PosInt(spec_font_weight(s.terminal_font_weight_bold, 700) as u64)), spec_keys(seq!["appearance", "ui_font_family"]));
    assert("terminal"@.len() != "appearance"@.len());
    assert(spec_keys(seq!["terminal", "x11_display"])[0] != spec_keys(seq!["appearance", "ui_font_family"])[0]);
    lemma_set_path_frame(d15, spec_keys(seq!["terminal", "x11_display"]), JsonModel::Str(s.x11_display@, None), spec_keys(seq!["appearance", "ui_font_family"]));
}

#[verifier::spinoff_prover]
proof fn lemma_saved_appearance_keeps_appearance_ui_font_size(d: JsonModel, s: AppSettingsSummary, image_opacity: JsonModel, content_opacity: JsonModel, contrast: JsonModel)
    ensures
        spec_json_path(spec_saved_appearance(d, s, image_opacity, content_opacity, contrast), spec_keys(seq!["appearance", "ui_font_size"])) == Some(JsonModel::Number(JsonNumber::PosInt(spec_clamp(s.ui_font_size as int, 12, 24) as u64))),
{
    reveal_strlit("appearance");
    reveal_strlit("font_weight");
    reveal_strlit("font_weight_bold");
    reveal_strlit("terminal");
    reveal_strlit("ui_font_size");
    let d1 = spec_set_path(d, spec_keys(seq!["appearance", "theme"]), JsonModel::Str(s.theme@, None));
    let d2 = spec_set_path(d1, spec_keys(seq!["appearance", "background_image_path"]), spec_optional_trimmed_value(s.background_image_path));
    let d3 = spec_set_path(d2, spec_keys(seq!["appearance", "background_image_fit"]), JsonModel::Str(s.background_image_fit@, None));
    let d4 = spec_set_path(d3, spec_keys(seq!["appearance", "background_image_opacity"]), image_opacity);
    let d5 = spec_set_path(d4, spec_keys(seq!["appearance", "background_opacity"]), content_opacity);
    let d6 = spec_set_path(d5, spec_keys(seq!["appearance", "font_family"]), JsonModel::Str(s.terminal_font_family@, None));
    let d7 = spec_set_path(d6, spec_keys(seq!["appearance", "font_size"]), JsonModel::Number(JsonNumber::PosInt(s.terminal_font_size as u64)));
    let d8 = spec_set_path(d7, spec_keys(seq!["appearance", "cursor_style"]), JsonModel::Str(spec_pick(s.cursor_style@, spec_keys(seq!["underline", "bar"]), "block"@), None));
    let d9 = spec_set_path(d8, spec_keys(seq!["appearance", "cursor_blink"]), JsonModel::Bool(s.cursor_blink));
    let d10 = spec_set_path(d9, spec_keys(seq!["appearance", "terminal_theme"]), spec_optional_trimmed_value(s.terminal_theme));
    let d11 = spec_set_path(d10, spec_keys(seq!["appearance", "minimum_contrast_ratio"]), contrast);
    let d12 = spec_set_path(d11, spec_keys(seq!["appearance", "ui_font_family"]), JsonModel::Str(spec_ui_font_family(s.ui_font_family@), None));
    let d13 = spec_set_path(d12, spec_keys(seq!["appearance", "ui_font_size"]), JsonModel::Number(JsonNumber::PosInt(spec_clamp(s.ui_font_size as int, 12, 24) as u64)));
    let d14 = spec_set_path(d13, spec_keys(seq!["appearance", "font_weight"]), JsonModel::Number(JsonNumber::PosInt(spec_font_weight(s.terminal_font_weight, 400) as u64)));
    let d15 = spec_set_path(d14, spec_keys(seq!["appearance", "font_weight_bold"]), JsonModel::Number(JsonNumber::PosInt(spec_font_weight(s.terminal_font_weight_bold, 700) as u64)));
    let d16 = spec_set_path(d15, spec_keys(seq!["terminal", "x11_display"]), JsonModel::Str(s.x11_display@, None));
    assert(spec_saved_appearance(d, s, image_opacity, content_opacity, contrast) == d16);
    lemma_set_path_then_read(d12, spec_keys(seq!["appearance", "ui_font_size"]), JsonModel::Number(JsonNumber::PosInt(spec_clamp(s.ui_font_size as int, 12, 24) as u64)));
    assert("font_weight"@.len() != "ui_font_size"@.len());
    assert(spec_keys(seq!["appearance", "font_weight"])[1] != spec_keys(seq!["appearance", "ui_font_size"])[1]);
    lemma_set_path_frame(d13, spec_keys(seq!["appearance", "font_weight"]), JsonModel::Number(JsonNumber::PosInt(spec_font_weight(s.terminal_font_weight, 400) as u64)), spec_keys(seq!["appearance", "ui_font_size"]));
    assert("font_weight_bold"@.len() != "ui_font_size"@.len());
    assert(spec_keys(seq!["appearance", "font_weight_bold"])[1] != spec_keys(seq!["appearance", "ui_font_size"])[1]);
    lemma_set_path_frame(d14, spec_keys(seq!["appearance", "font_weight_bold"]), JsonModel::Number(JsonNumber::PosInt(spec_font_weight(s.terminal_font_weight_bold, 700) as u64)), spec_keys(seq!["appearance", "ui_font_size"]));
    assert("terminal"@.len() != "appearance"@.len());
    assert(spec_keys(seq!["terminal", "x11_display"])[0] != spec_keys(seq!["appearance", "ui_font_size"])[0]);
    lemma_set_path_frame(d15, spec_keys(seq!["terminal", "x11_display"]), JsonModel::Str(s.x11_display@, None), spec_keys(seq!["appearance", "ui_font_size"]));
}

#[verifier::spinoff_prover]
proof fn lemma_saved_appearance_keeps_appearance_font_weight(d: JsonModel, s: AppSettingsSummary, image_opacity: JsonModel, content_opacity: JsonModel, contrast: JsonModel)
    ensures
        spec_json_path(spec_saved_appearance(d, s, image_opacity, content_opacity, contrast), spec_keys(seq!["appearance", "font_weight"])) == Some(JsonModel::Number(JsonNumber::PosInt(spec_font_weight(s.terminal_font_weight, 400) as u64))),
{
    reveal_strlit("appearance");
    reveal_strlit("font_weight");
    reveal_strlit("font_weight_bold");
    reveal_strlit("terminal");
    let d1 = spec_set_path(d, spec_keys(seq!["appearance", "theme"]), JsonModel::Str(s.theme@, None));
    let d2 = spec_set_path(d1, spec_keys(seq!["appearance", "background_image_path"]), spec_optional_trimmed_value(s.background_image_path));
    let d3 = spec_set_path(d2, spec_keys(seq!["appearance", "background_image_fit"]), JsonModel::Str(s.background_image_fit@, None));
    let d4 = spec_set_path(d3, spec_keys(seq!["appearance", "background_image_opacity"]), image_opacity);
    let d5 = spec_set_path(d4, spec_keys(seq!["appearance", "background_opacity"]), content_opacity);
    let d6 = spec_set_path(d5, spec_keys(seq!["appearance", "font_family"]), JsonModel::Str(s.terminal_font_family@, None));
    let d7 = spec_set_path(d6, spec_keys(seq!["appearance", "font_size"]), JsonModel::Number(JsonNumber::PosInt(s.terminal_font_size as u64)));
    let d8 = spec_set_path(d7, spec_keys(seq!["appearance", "cursor_style"]), JsonModel::Str(spec_pick(s.cursor_style@, spec_keys(seq!["underline", "bar"]), "block"@), None));
    let d9 = spec_set_path(d8, spec_keys(seq!["appearance", "cursor_blink"]), JsonModel::Bool(s.cursor_blink));
    let d10 = spec_set_path(d9, spec_keys(seq!["appearance", "terminal_theme"]), spec_optional_trimmed_value(s.terminal_theme));
    let d11 = spec_set_path(d10, spec_keys(seq!["appearance", "minimum_contrast_ratio"]), contrast);
    let d12 = spec_set_path(d11, spec_keys(seq!["appearance", "ui_font_family"]), JsonModel::Str(spec_ui_font_family(s.ui_font_family@), None));
    let d13 = spec_set_path(d12, spec_keys(seq!["appearance", "ui_font_size"]), JsonModel::Number(JsonNumber::PosInt(spec_clamp(s.ui_font_size as int, 12, 24) as u64)));
    let d14 = spec_set_path(d13, spec_keys(seq!["appearance", "font_weight"]), JsonModel::Number(JsonNumber::PosInt(spec_font_weight(s.terminal_font_weight, 400) as u64)));
    let d15 = spec_set_path(d14, spec_keys(seq!["appearance", "font_weight_bold"]), JsonModel::Number(JsonNumber::PosInt(spec_font_weight(s.terminal_font_weight_bold, 700) as u64)));
    let d16 = spec_set_path(d15, spec_keys(seq!["terminal", "x11_display"]), JsonModel::Str(s.x11_display@, None));
    assert(spec_saved_appearance(d, s, image_opacity, content_opacity, contrast) == d16);
    lemma_set_path_then_read(d13, spec_keys(seq!["appearance", "font_weight"]), JsonModel::Number(JsonNumber::PosInt(spec_font_weight(s.terminal_font_weight, 400) as u64)));
    assert("font_weight_bold"@.len() != "font_weight"@.len());
    assert(spec_keys(seq!["appearance", "font_weight_bold"])[1] != spec_keys(seq!["appearance", "font_weight"])[1]);
    lemma_set_path_frame(d14, spec_keys(seq!["appearance", "font_weight_bold"]), JsonModel::Number(JsonNumber::PosInt(spec_font_weight(s.terminal_font_weight_bold, 700) as u64)), spec_keys(seq!["appearance", "font_weight"]));
    assert("terminal"@.len() != "appearance"@.len());
    assert(spec_keys(seq!["terminal", "x11_display"])[0] != spec_keys(seq!["appearance", "font_weight"])[0]);
    lemma_set_path_frame(d15, spec_keys(seq!["terminal", "x11_display"]), JsonModel::Str(s.x11_display@, None), spec_keys(seq!["appearance", "font_weight"]));
}

#[verifier::spinoff_prover]
proof fn lemma_saved_appearance_keeps_appearance_font_weight_bold(d: JsonModel, s: AppSettingsSummary, image_opacity: JsonModel, content_opacity: JsonModel, contrast: JsonModel)
    ensures
        spec_json_path(spec_saved_appearance(d, s, image_opacity, content_opacity, contrast), spec_keys(seq!["appearance", "font_weight_bold"])) == Some(JsonModel::Number(JsonNumber::PosInt(spec_font_weight(s.terminal_font_weight_bold, 700) as u64))),
{
    reveal_strlit("appearance");
    reveal_strlit("font_weight_bold");
    reveal_strlit("terminal");
    let d1 = spec_set_path(d, spec_keys(seq!["appearance", "theme"]), JsonModel::Str(s.theme@, None));
    let d2 = spec_set_path(d1, spec_keys(seq!["appearance", "background_image_path"]), spec_optional_trimmed_value(s.background_image_path));
    let d3 = spec_set_path(d2, spec_keys(seq!["appearance", "background_image_fit"]), JsonModel::Str(s.background_image_fit@, None));
    let d4 = spec_set_path(d3, spec_keys(seq!["appearance", "background_image_opacity"]), image_opacity);
    let d5 = spec_set_path(d4, spec_keys(seq!["appearance", "background_opacity"]), content_opacity);
    let d6 = spec_set_path(d5, spec_keys(seq!["appearance", "font_family"]), JsonModel::Str(s.terminal_font_family@, None));
    let d7 = spec_set_path(d6, spec_keys(seq!["appearance", "font_size"]), JsonModel::Number(JsonNumber::PosInt(s.terminal_font_size as u64)));
    let d8 = spec_set_path(d7, spec_keys(seq!["appearance", "cursor_style"]), JsonModel::Str(spec_pick(s.cursor_style@, spec_keys(seq!["underline", "bar"]), "block"@), None));
    let d9 = spec_set_path(d8, spec_keys(seq!["appearance", "cursor_blink"]), JsonModel::Bool(s.cursor_blink));
    let d10 = spec_set_path(d9, spec_keys(seq!["appearance", "terminal_theme"]), spec_optional_trimmed_value(s.terminal_theme));
    let d11 = spec_set_path(d10, spec_keys(seq!["appearance", "minimum_contrast_ratio"]), contrast);
    let d12 = spec_set_path(d11, spec_keys(seq!["appearance", "ui_font_family"]), JsonModel::Str(spec_ui_font_family(s.ui_font_family@), None));
    let d13 = spec_set_path(d12, spec_keys(seq!["appearance", "ui_font_size"]), JsonModel::Number(JsonNumber::PosInt(spec_clamp(s.ui_font_size as int, 12, 24) as u64)));
    let d14 = spec_set_path(d13, spec_keys(seq!["appearance", "font_weight"]), JsonModel::Number(JsonNumber::PosInt(spec_font_weight(s.terminal_font_weight, 400) as u64)));
    let d15 = spec_set_path(d14, spec_keys(seq!["appearance", "font_weight_bold"]), JsonModel::Number(JsonNumber::PosInt(spec_font_weight(s.terminal_font_weight_bold, 700) as u64)));
    let d16 = spec_set_path(d15, spec_keys(seq!["terminal", "x11_display"]), JsonModel::Str(s.x11_display@, None));
    assert(spec_saved_appearance(d, s, image_opacity, content_opacity, contrast) == d16);
    lemma_set_path_then_read(d14, spec_keys(seq!["appearance", "font_weight_bold"]), JsonModel::Number(JsonNumber::PosInt(spec_font_weight(s.terminal_font_weight_bold, 700) as u64)));
    assert("terminal"@.len() != "appearance"@.len());
    assert(spec_keys(seq!["terminal", "x11_display"])[0] != spec_keys(seq!["appearance", "font_weight_bold"])[0]);
    lemma_set_path_frame(d15, spec_keys(seq!["terminal", "x11_display"]), JsonModel::Str(s.x11_display@, None), spec_keys(seq!["appearance", "font_weight_bold"]));
}

#[verifier::spinoff_prover]
proof fn lemma_saved_appearance_keeps_terminal_x11_display(d: JsonModel, s: AppSettingsSummary, image_opacity: JsonModel, content_opacity: JsonModel, contrast: JsonModel)
    ensures
        spec_json_path(spec_saved_appearance(d, s, image_opacity, content_opacity, contrast), spec_keys(seq!["terminal", "x11_display"])) == Some(JsonModel::Str(s.x11_display@, None)),
{
    reveal_strlit("terminal");
    reveal_strlit("x11_display");
    let d1 = spec_set_path(d, spec_keys(seq!["appearance", "theme"]), JsonModel::Str(s.theme@, None));
    let d2 = spec_set_path(d1, spec_keys(seq!["appearance", "background_image_path"]), spec_optional_trimmed_value(s.background_image_path));
    let d3 = spec_set_path(d2, spec_keys(seq!["appearance", "background_image_fit"]), JsonModel::Str(s.background_image_fit@, None));
    let d4 = spec_set_path(d3, spec_keys(seq!["appearance", "background_image_opacity"]), image_opacity);
    let d5 = spec_set_path(d4, spec_keys(seq!["appearance", "background_opacity"]), content_opacity);
    let d6 = spec_set_path(d5, spec_keys(seq!["appearance", "font_family"]), JsonModel::Str(s.terminal_font_family@, None));
    let d7 = spec_set_path(d6, spec_keys(seq!["appearance", "font_size"]), JsonModel::Number(JsonNumber::PosInt(s.terminal_font_size as u64)));
    let d8 = spec_set_path(d7, spec_keys(seq!["appearance", "cursor_style"]), JsonModel::Str(spec_pick(s.cursor_style@, spec_keys(seq!["underline", "bar"]), "block"@), None));
    let d9 = spec_set_path(d8, spec_keys(seq!["appearance", "cursor_blink"]), JsonModel::Bool(s.cursor_blink));
    let d10 = spec_set_path(d9, spec_keys(seq!["appearance", "terminal_theme"]), spec_optional_trimmed_value(s.terminal_theme));
    let d11 = spec_set_path(d10, spec_keys(seq!["appearance", "minimum_contrast_ratio"]), contrast);
    let d12 = spec_set_path(d11, spec_keys(seq!["appearance", "ui_font_family"]), JsonModel::Str(spec_ui_font_family(s.ui_font_family@), None));
    let d13 = spec_set_path(d12, spec_keys(seq!["appearance", "ui_font_size"]), JsonModel::Number(JsonNumber::PosInt(spec_clamp(s.ui_font_size as int, 12, 24) as u64)));
    let d14 = spec_set_path(d13, spec_keys(seq!["appearance", "font_weight"]), JsonModel::Number(JsonNumber::PosInt(spec_font_weight(s.terminal_font_weight, 400) as u64)));
    let d15 = spec_set_path(d14, spec_keys(seq!["appearance", "font_weight_bold"]), JsonModel::Number(JsonNumber::PosInt(spec_font_weight(s.terminal_font_weight_bold, 700) as u64)));
    let d16 = spec_set_path(d15, spec_keys(seq!["terminal", "x11_display"]), JsonModel::Str(s.x11_display@, None));
    assert(spec_saved_appearance(d, s, image_opacity, content_opacity, contrast) == d16);
    lemma_set_path_then_read(d15, spec_keys(seq!["terminal", "x11_display"]), JsonModel::Str(s.x11_display@, None));
}

/// After the appearance is stored, each of its values reads back from
/// the settings document as it was written.
pub proof fn lemma_saved_appearance_reads_back(d: JsonModel, s: AppSettingsSummary, image_opacity: JsonModel, content_opacity: JsonModel, contrast: JsonModel)
    ensures
        spec_json_path(spec_saved_appearance(d, s, image_opacity, content_opacity, contrast), spec_keys(seq!["appearance", "theme"])) == Some(JsonModel::Str(s.theme@, None)),
        spec_json_path(spec_saved_appearance(d, s, image_opacity, content_opacity, contrast), spec_keys(seq!["appearance", "background_image_path"])) == Some(spec_optional_trimmed_value(s.background_image_path)),
        spec_json_path(spec_saved_appearance(d, s, image_opacity, content_opacity, contrast), spec_keys(seq!["appearance", "background_image_fit"])) == Some(JsonModel::Str(s.background_image_fit@, None)),
        spec_json_path(spec_saved_appearance(d, s, image_opacity, content_opacity, contrast), spec_keys(seq!["appearance", "background_image_opacity"])) == Some(image_opacity),
        spec_json_path(spec_saved_appearance(d, s, image_opacity, content_opacity, contrast), spec_keys(seq!["appearance", "background_opacity"])) == Some(content_opacity),
        spec_json_path(spec_saved_appearance(d, s, image_opacity, content_opacity, contrast), spec_keys(seq!["appearance", "font_family"])) == Some(JsonModel::Str(s.terminal_font_family@, None)),
        spec_json_path(spec_saved_appearance(d, s, image_opacity, content_opacity, contrast), spec_keys(seq!["appearance", "font_size"])) == Some(JsonModel::Number(JsonNumber::PosInt(s.terminal_font_size as u64))),
        spec_json_path(spec_saved_appearance(d, s, image_opacity, content_opacity, contrast), spec_keys(seq!["appearance", "cursor_style"])) == Some(JsonModel::Str(spec_pick(s.cursor_style@, spec_keys(seq!["underline", "bar"]), "block"@), None)),
        spec_json_path(spec_saved_appearance(d, s, image_opacity, content_opacity, contrast), spec_keys(seq!["appearance", "cursor_blink"])) == Some(JsonModel::Bool(s.cursor_blink)),
        spec_json_path(spec_saved_appearance(d, s, image_opacity, content_opacity, contrast), spec_keys(seq!["appearance", "terminal_theme"])) == Some(spec_optional_trimmed_value(s.terminal_theme)),
        spec_json_path(spec_saved_appearance(d, s, image_opacity, content_opacity, contrast), spec_keys(seq!["appearance", "minimum_contrast_ratio"])) == Some(contrast),
        spec_json_path(spec_saved_appearance(d, s, image_opacity, content_opacity, contrast), spec_keys(seq!["appearance", "ui_font_family"])) == Some(JsonModel::Str(spec_ui_font_family(s.ui_font_family@), None)),
        spec_json_path(spec_saved_appearance(d, s, image_opacity, content_opacity, contrast), spec_keys(seq!["appearance", "ui_font_size"])) == Some(JsonModel::Number(JsonNumber::PosInt(spec_clamp(s.ui_font_size as int, 12, 24) as u64))),
        spec_json_path(spec_saved_appearance(d, s, image_opacity, content_opacity, contrast), spec_keys(seq!["appearance", "font_weight"])) == Some(JsonModel::Number(JsonNumber::PosInt(spec_font_weight(s.terminal_font_weight, 400) as u64))),
        spec_json_path(spec_saved_appearance(d, s, image_opacity, content_opacity, contrast), spec_keys(seq!["appearance", "font_weight_bold"])) == Some(JsonModel::Number(JsonNumber::PosInt(spec_font_weight(s.terminal_font_weight_bold, 700) as u64))),
        spec_json_path(spec_saved_appearance(d, s, image_opacity, content_opacity, contrast), spec_keys(seq!["terminal", "x11_display"])) == Some(JsonModel::Str(s.x11_display@, None)),
{
    lemma_saved_appearance_keeps_appearance_theme(d, s, image_opacity, content_opacity, contrast);
    lemma_saved_appearance_keeps_appearance_background_image_path(d, s, image_opacity, content_opacity, contrast);
    lemma_saved_appearance_keeps_appearance_background_image_fit(d, s, image_opacity, content_opacity, contrast);
    lemma_saved_appearance_keeps_appearance_background_image_opacity(d, s, image_opacity, content_opacity, contrast);
    lemma_saved_appearance_keeps_appearance_background_opacity(d, s, image_opacity, content_opacity, contrast);
    lemma_saved_appearance_keeps_appearance_font_family(d, s, image_opacity, content_opacity, contrast);
    lemma_saved_appearance_keeps_appearance_font_size(d, s, image_opacity, content_opacity, contrast);
    lemma_saved_appearance_keeps_appearance_cursor_style(d, s, image_opacity, content_opacity, contrast);
    lemma_saved_appearance_keeps_appearance_cursor_blink(d, s, image_opacity, content_opacity, contrast);
    lemma_saved_appearance_keeps_appearance_terminal_theme(d, s, image_opacity, content_opacity, contrast);
    lemma_saved_appearance_keeps_appearance_minimum_contrast_ratio(d, s, image_opacity, content_opacity, contrast);
    lemma_saved_appearance_keeps_appearance_ui_font_family(d, s, image_opacity, content_opacity, contrast);
    lemma_saved_appearance_keeps_appearance_ui_font_size(d, s, image_opacity, content_opacity, contrast);
    lemma_saved_appearance_keeps_appearance_font_weight(d, s, image_opacity, content_opacity, contrast);
    lemma_saved_appearance_keeps_appearance_font_weight_bold(d, s, image_opacity, content_opacity, contrast);
    lemma_saved_appearance_keeps_terminal_x11_display(d, s, image_opacity, content_opacity, contrast);
}

} // verus!
