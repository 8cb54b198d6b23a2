//! Storing the appearance settings. The opacities and the contrast ratio
//! are stored as floating-point numbers, which the caller encodes; which
//! ratio is stored, and everything else, is decided here.

use vstd::prelude::*;

use crate::settings::encode::{number_value, text_value};
use crate::settings::json::{json_view, spec_keys, ContrastRatio, JsonModel, JsonNumber, JsonValue};
use crate::settings::normalize::{pick, spec_pick};
use crate::settings::save::{optional_trimmed_value, spec_optional_trimmed_value};
use crate::settings::store::{ConnectionStore, StorageError};
use crate::settings::summary::{
    clamp_u16, font_weight, is_summary_of, spec_clamp, spec_font_weight, AppSettingsSummary,
};
use crate::settings::write::{set_nested_json_value, spec_set_path};
use crate::text::{spec_trim, str_eq, trim};

verus! {

/// The contrast ratio that a setting names: `3`, `4.5`, `7` or `21`, else
/// the ratio one.
pub open spec fn spec_appearance_contrast(name: Seq<char>) -> ContrastRatio {
    if name == "3"@ {
        ContrastRatio::Three
    } else if name == "4.5"@ {
        ContrastRatio::FourAndAHalf
    } else if name == "7"@ {
        ContrastRatio::Seven
    } else if name == "21"@ {
        ContrastRatio::TwentyOne
    } else {
        ContrastRatio::One
    }
}

/// The contrast ratio that a setting names (see `spec_appearance_contrast`).
pub fn appearance_contrast(name: &str) -> (r: ContrastRatio)
    ensures
        r == spec_appearance_contrast(name@),
{
    if str_eq(name, "3") {
        ContrastRatio::Three
    } else if str_eq(name, "4.5") {
        ContrastRatio::FourAndAHalf
    } else if str_eq(name, "7") {
        ContrastRatio::Seven
    } else if str_eq(name, "21") {
        ContrastRatio::TwentyOne
    } else {
        ContrastRatio::One
    }
}

/// The interface font: `Inter` when the setting is blank.
pub open spec fn spec_ui_font_family(f: Seq<char>) -> Seq<char> {
    if spec_trim(f).len() == 0 {
        "Inter"@
    } else {
        f
    }
}

/// The interface font (see `spec_ui_font_family`).
pub fn ui_font_family(f: &String) -> (r: String)
    ensures
        r@ == spec_ui_font_family(f@),
{
    if trim(f.as_str()).as_str().is_empty() {
        "Inter".to_owned()
    } else {
        f.clone()
    }
}

/// The settings document after the appearance is stored from `s`, with
/// the opacities and the contrast ratio as the caller encoded them.
pub open spec fn spec_saved_appearance(
    d: JsonModel,
    s: AppSettingsSummary,
    image_opacity: JsonModel,
    content_opacity: JsonModel,
    contrast: JsonModel,
) -> JsonModel {
    let d = spec_set_path(d, spec_keys(seq!["appearance", "theme"]), JsonModel::Str(s.theme@, None));
    let d = spec_set_path(
        d,
        spec_keys(seq!["appearance", "background_image_path"]),
        spec_optional_trimmed_value(s.background_image_path),
    );
    let d = spec_set_path(
        d,
        spec_keys(seq!["appearance", "background_image_fit"]),
        JsonModel::Str(s.background_image_fit@, None),
    );
    let d = spec_set_path(d, spec_keys(seq!["appearance", "background_image_opacity"]), image_opacity);
    let d = spec_set_path(d, spec_keys(seq!["appearance", "background_opacity"]), content_opacity);
    let d = spec_set_path(
        d,
        spec_keys(seq!["appearance", "font_family"]),
        JsonModel::Str(s.terminal_font_family@, None),
    );
    let d = spec_set_path(
        d,
        spec_keys(seq!["appearance", "font_size"]),
        JsonModel::Number(JsonNumber::PosInt(s.terminal_font_size as u64)),
    );
    let d = spec_set_path(
        d,
        spec_keys(seq!["appearance", "cursor_style"]),
        JsonModel::Str(spec_pick(s.cursor_style@, spec_keys(seq!["underline", "bar"]), "block"@), None),
    );
    let d = spec_set_path(d, spec_keys(seq!["appearance", "cursor_blink"]), JsonModel::Bool(s.cursor_blink));
    let d = spec_set_path(
        d,
        spec_keys(seq!["appearance", "terminal_theme"]),
        spec_optional_trimmed_value(s.terminal_theme),
    );
    let d = spec_set_path(d, spec_keys(seq!["appearance", "minimum_contrast_ratio"]), contrast);
    let d = spec_set_path(
        d,
        spec_keys(seq!["appearance", "ui_font_family"]),
        JsonModel::Str(spec_ui_font_family(s.ui_font_family@), None),
    );
    let d = spec_set_path(
        d,
        spec_keys(seq!["appearance", "ui_font_size"]),
        JsonModel::Number(JsonNumber::PosInt(spec_clamp(s.ui_font_size as int, 12, 24) as u64)),
    );
    let d = spec_set_path(
        d,
        spec_keys(seq!["appearance", "font_weight"]),
        JsonModel::Number(JsonNumber::PosInt(spec_font_weight(s.terminal_font_weight, 400) as u64)),
    );
    let d = spec_set_path(
        d,
        spec_keys(seq!["appearance", "font_weight_bold"]),
        JsonModel::Number(
            JsonNumber::PosInt(spec_font_weight(s.terminal_font_weight_bold, 700) as u64),
        ),
    );
    let d = spec_set_path(
        d,
        spec_keys(seq!["terminal", "x11_display"]),
        JsonModel::Str(s.x11_display@, None),
    );
    d
}

impl ConnectionStore {
    /// Stores the appearance, and returns the settings as they now read.
    /// `image_opacity` and `content_opacity` are the two opacities of
    /// `settings` as fractions, and `contrast` the number of
    /// `appearance_contrast(&settings.minimum_contrast_ratio)`, each encoded
    /// by the caller.
    pub fn save_appearance_settings(
        &mut self,
        settings: &AppSettingsSummary,
        image_opacity: JsonValue,
        content_opacity: JsonValue,
        contrast: JsonValue,
    ) -> (r: Result<AppSettingsSummary, StorageError>)
        ensures
            json_view(final(self).settings) == spec_saved_appearance(
                json_view(old(self).settings),
                *settings,
                json_view(image_opacity),
                json_view(content_opacity),
                json_view(contrast),
            ),
            final(self).master_password == old(self).master_password,
            r is Ok,
            r matches Ok(v) ==> is_summary_of(v, json_view(final(self).settings)),
    {
        set_nested_json_value(&mut self.settings, &["appearance", "theme"], text_value(settings.theme.clone()));
        set_nested_json_value(
            &mut self.settings,
            &["appearance", "background_image_path"],
            optional_trimmed_value(&settings.background_image_path),
        );
        set_nested_json_value(
            &mut self.settings,
            &["appearance", "background_image_fit"],
            text_value(settings.background_image_fit.clone()),
        );
        set_nested_json_value(&mut self.settings, &["appearance", "background_image_opacity"], image_opacity);
        set_nested_json_value(&mut self.settings, &["appearance", "background_opacity"], content_opacity);
        set_nested_json_value(
            &mut self.settings,
            &["appearance", "font_family"],
            text_value(settings.terminal_font_family.clone()),
        );
        set_nested_json_value(
            &mut self.settings,
            &["appearance", "font_size"],
            number_value(settings.terminal_font_size as u64),
        );
        set_nested_json_value(
            &mut self.settings,
            &["appearance", "cursor_style"],
            text_value(pick(settings.cursor_style.clone(), &["underline", "bar"], "block")),
        );
        set_nested_json_value(&mut self.settings, &["appearance", "cursor_blink"], JsonValue::Bool(settings.cursor_blink));
        set_nested_json_value(
            &mut self.settings,
            &["appearance", "terminal_theme"],
            optional_trimmed_value(&settings.terminal_theme),
        );
        set_nested_json_value(&mut self.settings, &["appearance", "minimum_contrast_ratio"], contrast);
        set_nested_json_value(
            &mut self.settings,
            &["appearance", "ui_font_family"],
            text_value(ui_font_family(&settings.ui_font_family)),
        );
        set_nested_json_value(
            &mut self.settings,
            &["appearance", "ui_font_size"],
            number_value(clamp_u16(settings.ui_font_size, 12, 24) as u64),
        );
        set_nested_json_value(
            &mut self.settings,
            &["appearance", "font_weight"],
            number_value(font_weight(settings.terminal_font_weight, 400) as u64),
        );
        set_nested_json_value(
            &mut self.settings,
            &["appearance", "font_weight_bold"],
            number_value(font_weight(settings.terminal_font_weight_bold, 700) as u64),
        );
        set_nested_json_value(
            &mut self.settings,
            &["terminal", "x11_display"],
            text_value(settings.x11_display.clone()),
        );
        self.load_app_settings_summary()
    }
}

} // verus!
