//! The transfer settings read back: each value that the save writes is found at
//! its place in the settings document afterwards.

use vstd::prelude::*;

use crate::settings::json::{spec_json_path, spec_keys, JsonModel, JsonNumber};

use crate::settings::normalize::{spec_transfer_duplicate_strategy, spec_transfer_editor_type, spec_transfer_file_permissions};

use crate::settings::save::{spec_saved_transfer, spec_saved_transfer_part1, spec_saved_transfer_part2};
use crate::settings::summary::{spec_clamp, AppSettingsSummary};
use crate::settings::write::{lemma_set_path_frame, lemma_set_path_then_read, spec_set_path};

verus! {

#[verifier::spinoff_prover]
proof fn lemma_saved_transfer_keeps_transfer_download_path(d: JsonModel, s: AppSettingsSummary)
    ensures
        spec_json_path(spec_saved_transfer(d, s), spec_keys(seq!["transfer", "download_path"])) == Some(JsonModel::Str(s.transfer_download_path@, None)),
{
    reveal_strlit("ask_save_location");
    reveal_strlit("default_editor");
    reveal_strlit("default_file_permissions");
    reveal_strlit("download_path");
    reveal_strlit("download_threads");
    reveal_strlit("duplicate_strategy");
    reveal_strlit("editor_type");
    reveal_strlit("internal_editor_font_size");
    reveal_strlit("max_transfer_retries");
    reveal_strlit("preserve_timestamps");
    reveal_strlit("resume_broken_transfer");
    reveal_strlit("transfer");
    reveal_strlit("transfer_buffer_size");
    reveal_strlit("upload_threads");
    let d1 = spec_set_path(d, spec_keys(seq!["transfer", "download_path"]), JsonModel::Str(s.transfer_download_path@, None));
    let d2 = spec_set_path(d1, spec_keys(seq!["transfer", "ask_save_location"]), JsonModel::Bool(s.transfer_ask_save_location));
    let d3 = spec_set_path(d2, spec_keys(seq!["transfer", "duplicate_strategy"]), JsonModel::Str(spec_transfer_duplicate_strategy(s.transfer_duplicate_strategy@), None));
    let d4 = spec_set_path(d3, spec_keys(seq!["transfer", "editor_type"]), JsonModel::Str(spec_transfer_editor_type(s.transfer_editor_type@), None));
    let d5 = spec_set_path(d4, spec_keys(seq!["transfer", "internal_editor_font_size"]), JsonModel::Number(JsonNumber::PosInt(spec_clamp(s.transfer_internal_editor_font_size as int, 8, 72) as u64)));
    let d6 = spec_set_path(d5, spec_keys(seq!["transfer", "default_editor"]), JsonModel::Str(s.transfer_default_editor@, None));
    let d7 = spec_set_path(d6, spec_keys(seq!["transfer", "download_threads"]), JsonModel::Number(JsonNumber::PosInt(spec_clamp(s.transfer_download_threads as int, 1, 10) as u64)));
    let d8 = spec_set_path(d7, spec_keys(seq!["transfer", "upload_threads"]), JsonModel::Number(JsonNumber::PosInt(spec_clamp(s.transfer_upload_threads as int, 1, 10) as u64)));
    let d9 = spec_set_path(d8, spec_keys(seq!["transfer", "max_transfer_retries"]), JsonModel::Number(JsonNumber::PosInt(spec_clamp(s.transfer_max_retries as int, 0, 10) as u64)));
    let d10 = spec_set_path(d9, spec_keys(seq!["transfer", "transfer_buffer_size"]), JsonModel::Number(JsonNumber::PosInt(spec_clamp(s.transfer_buffer_size as int, 8, 256) as u64)));
    let d11 = spec_set_path(d10, spec_keys(seq!["transfer", "default_file_permissions"]), JsonModel::Str(spec_transfer_file_permissions(s.transfer_default_file_permissions@), None));
    let d12 = spec_set_path(d11, spec_keys(seq!["transfer", "preserve_timestamps"]), JsonModel::Bool(s.transfer_preserve_timestamps));
    let d13 = spec_set_path(d12, spec_keys(seq!["transfer", "resume_broken_transfer"]), JsonModel::Bool(s.transfer_resume_broken_transfer));
    assert(spec_saved_transfer_part1(d, s) == d8);
    assert(spec_saved_transfer_part2(d8, s) == d13);
    assert(spec_saved_transfer(d, s) == d13);
    lemma_set_path_then_read(d, spec_keys(seq!["transfer", "download_path"]), JsonModel::Str(s.transfer_download_path@, None));
    assert("ask_save_location"@.len() != "download_path"@.len());
    assert(spec_keys(seq!["transfer", "ask_save_location"])[1] != spec_keys(seq!["transfer", "download_path"])[1]);
    lemma_set_path_frame(d1, spec_keys(seq!["transfer", "ask_save_location"]), JsonModel::Bool(s.transfer_ask_save_location), spec_keys(seq!["transfer", "download_path"]));
    assert("duplicate_strategy"@.len() != "download_path"@.len());
    assert(spec_keys(seq!["transfer", "duplicate_strategy"])[1] != spec_keys(seq!["transfer", "download_path"])[1]);
    lemma_set_path_frame(d2, spec_keys(seq!["transfer", "duplicate_strategy"]), JsonModel::Str(spec_transfer_duplicate_strategy(s.transfer_duplicate_strategy@), None), spec_keys(seq!["transfer", "download_path"]));
    assert("editor_type"@.len() != "download_path"@.len());
    assert(spec_keys(seq!["transfer", "editor_type"])[1] != spec_keys(seq!["transfer", "download_path"])[1]);
    lemma_set_path_frame(d3, spec_keys(seq!["transfer", "editor_type"]), JsonModel::Str(spec_transfer_editor_type(s.transfer_editor_type@), None), spec_keys(seq!["transfer", "download_path"]));
    assert("internal_editor_font_size"@.len() != "download_path"@.len());
    assert(spec_keys(seq!["transfer", "internal_editor_font_size"])[1] != spec_keys(seq!["transfer", "download_path"])[1]);
    lemma_set_path_frame(d4, spec_keys(seq!["transfer", "internal_editor_font_size"]), JsonModel::Number(JsonNumber::PosInt(spec_clamp(s.transfer_internal_editor_font_size as int, 8, 72) as u64)), spec_keys(seq!["transfer", "download_path"]));
    assert("default_editor"@.len() != "download_path"@.len());
    assert(spec_keys(seq!["transfer", "default_editor"])[1] != spec_keys(seq!["transfer", "download_path"])[1]);
    lemma_set_path_frame(d5, spec_keys(seq!["transfer", "default_editor"]), JsonModel::Str(s.transfer_default_editor@, None), spec_keys(seq!["transfer", "download_path"]));
    assert("download_threads"@.len() != "download_path"@.len());
    assert(spec_keys(seq!["transfer", "download_threads"])[1] != spec_keys(seq!["transfer", "download_path"])[1]);
    lemma_set_path_frame(d6, spec_keys(seq!["transfer", "download_threads"]), JsonModel::Number(JsonNumber::PosInt(spec_clamp(s.transfer_download_threads as int, 1, 10) as u64)), spec_keys(seq!["transfer", "download_path"]));
    assert("upload_threads"@.len() != "download_path"@.len());
    assert(spec_keys(seq!["transfer", "upload_threads"])[1] != spec_keys(seq!["transfer", "download_path"])[1]);
    lemma_set_path_frame(d7, spec_keys(seq!["transfer", "upload_threads"]), JsonModel::Number(JsonNumber::PosInt(spec_clamp(s.transfer_upload_threads as int, 1, 10) as u64)), spec_keys(seq!["transfer", "download_path"]));
    assert("max_transfer_retries"@.len() != "download_path"@.len());
    assert(spec_keys(seq!["transfer", "max_transfer_retries"])[1] != spec_keys(seq!["transfer", "download_path"])[1]);
    lemma_set_path_frame(d8, spec_keys(seq!["transfer", "max_transfer_retries"]), JsonModel::Number(JsonNumber::PosInt(spec_clamp(s.transfer_max_retries as int, 0, 10) as u64)), spec_keys(seq!["transfer", "download_path"]));
    assert("transfer_buffer_size"@.len() != "download_path"@.len());
    assert(spec_keys(seq!["transfer", "transfer_buffer_size"])[1] != spec_keys(seq!["transfer", "download_path"])[1]);
    lemma_set_path_frame(d9, spec_keys(seq!["transfer", "transfer_buffer_size"]), JsonModel::Number(JsonNumber::PosInt(spec_clamp(s.transfer_buffer_size as int, 8, 256) as u64)), spec_keys(seq!["transfer", "download_path"]));
    assert("default_file_permissions"@.len() != "download_path"@.len());
    assert(spec_keys(seq!["transfer", "default_file_permissions"])[1] != spec_keys(seq!["transfer", "download_path"])[1]);
    lemma_set_path_frame(d10, spec_keys(seq!["transfer", "default_file_permissions"]), JsonModel::Str(spec_transfer_file_permissions(s.transfer_default_file_permissions@), None), spec_keys(seq!["transfer", "download_path"]));
    assert("preserve_timestamps"@.len() != "download_path"@.len());
    assert(spec_keys(seq!["transfer", "preserve_timestamps"])[1] != spec_keys(seq!["transfer", "download_path"])[1]);
    lemma_set_path_frame(d11, spec_keys(seq!["transfer", "preserve_timestamps"]), JsonModel::Bool(s.transfer_preserve_timestamps), spec_keys(seq!["transfer", "download_path"]));
    assert("resume_broken_transfer"@.len() != "download_path"@.len());
    assert(spec_keys(seq!["transfer", "resume_broken_transfer"])[1] != spec_keys(seq!["transfer", "download_path"])[1]);
    lemma_set_path_frame(d12, spec_keys(seq!["transfer", "resume_broken_transfer"]), JsonModel::Bool(s.transfer_resume_broken_transfer), spec_keys(seq!["transfer", "download_path"]));
}

#[verifier::spinoff_prover]
proof fn lemma_saved_transfer_keeps_transfer_ask_save_location(d: JsonModel, s: AppSettingsSummary)
    ensures
        spec_json_path(spec_saved_transfer(d, s), spec_keys(seq!["transfer", "ask_save_location"])) == Some(JsonModel::Bool(s.transfer_ask_save_location)),
{
    reveal_strlit("ask_save_location");
    reveal_strlit("default_editor");
    reveal_strlit("default_file_permissions");
    reveal_strlit("download_threads");
    reveal_strlit("duplicate_strategy");
    reveal_strlit("editor_type");
    reveal_strlit("internal_editor_font_size");
    reveal_strlit("max_transfer_retries");
    reveal_strlit("preserve_timestamps");
    reveal_strlit("resume_broken_transfer");
    reveal_strlit("transfer");
    reveal_strlit("transfer_buffer_size");
    reveal_strlit("upload_threads");
    let d1 = spec_set_path(d, spec_keys(seq!["transfer", "download_path"]), JsonModel::Str(s.transfer_download_path@, None));
    let d2 = spec_set_path(d1, spec_keys(seq!["transfer", "ask_save_location"]), JsonModel::Bool(s.transfer_ask_save_location));
    let d3 = spec_set_path(d2, spec_keys(seq!["transfer", "duplicate_strategy"]), JsonModel::Str(spec_transfer_duplicate_strategy(s.transfer_duplicate_strategy@), None));
    let d4 = spec_set_path(d3, spec_keys(seq!["transfer", "editor_type"]), JsonModel::Str(spec_transfer_editor_type(s.transfer_editor_type@), None));
    let d5 = spec_set_path(d4, spec_keys(seq!["transfer", "internal_editor_font_size"]), JsonModel::Number(JsonNumber::PosInt(spec_clamp(s.transfer_internal_editor_font_size as int, 8, 72) as u64)));
    let d6 = spec_set_path(d5, spec_keys(seq!["transfer", "default_editor"]), JsonModel::Str(s.transfer_default_editor@, None));
    let d7 = spec_set_path(d6, spec_keys(seq!["transfer", "download_threads"]), JsonModel::Number(JsonNumber::PosInt(spec_clamp(s.transfer_download_threads as int, 1, 10) as u64)));
    let d8 = spec_set_path(d7, spec_keys(seq!["transfer", "upload_threads"]), JsonModel::Number(JsonNumber::PosInt(spec_clamp(s.transfer_upload_threads as int, 1, 10) as u64)));
    let d9 = spec_set_path(d8, spec_keys(seq!["transfer", "max_transfer_retries"]), JsonModel::Number(JsonNumber::PosInt(spec_clamp(s.transfer_max_retries as int, 0, 10) as u64)));
    let d10 = spec_set_path(d9, spec_keys(seq!["transfer", "transfer_buffer_size"]), JsonModel::Number(JsonNumber::PosInt(spec_clamp(s.transfer_buffer_size as int, 8, 256) as u64)));
    let d11 = spec_set_path(d10, spec_keys(seq!["transfer", "default_file_permissions"]), JsonModel::Str(spec_transfer_file_permissions(s.transfer_default_file_permissions@), None));
    let d12 = spec_set_path(d11, spec_keys(seq!["transfer", "preserve_timestamps"]), JsonModel::Bool(s.transfer_preserve_timestamps));
    let d13 = spec_set_path(d12, spec_keys(seq!["transfer", "resume_broken_transfer"]), JsonModel::Bool(s.transfer_resume_broken_transfer));
    assert(spec_saved_transfer_part1(d, s) == d8);
    assert(spec_saved_transfer_part2(d8, s) == d13);
    assert(spec_saved_transfer(d, s) == d13);
    lemma_set_path_then_read(d1, spec_keys(seq!["transfer", "ask_save_location"]), JsonModel::Bool(s.transfer_ask_save_location));
    assert("duplicate_strategy"@.len() != "ask_save_location"@.len());
    assert(spec_keys(seq!["transfer", "duplicate_strategy"])[1] != spec_keys(seq!["transfer", "ask_save_location"])[1]);
    lemma_set_path_frame(d2, spec_keys(seq!["transfer", "duplicate_strategy"]), JsonModel::Str(spec_transfer_duplicate_strategy(s.transfer_duplicate_strategy@), None), spec_keys(seq!["transfer", "ask_save_location"]));
    assert("editor_type"@.len() != "ask_save_location"@.len());
    assert(spec_keys(seq!["transfer", "editor_type"])[1] != spec_keys(seq!["transfer", "ask_save_location"])[1]);
    lemma_set_path_frame(d3, spec_keys(seq!["transfer", "editor_type"]), JsonModel::Str(spec_transfer_editor_type(s.transfer_editor_type@), None), spec_keys(seq!["transfer", "ask_save_location"]));
    assert("internal_editor_font_size"@.len() != "ask_save_location"@.len());
    assert(spec_keys(seq!["transfer", "internal_editor_font_size"])[1] != spec_keys(seq!["transfer", "ask_save_location"])[1]);
    lemma_set_path_frame(d4, spec_keys(seq!["transfer", "internal_editor_font_size"]), JsonModel::Number(JsonNumber::PosInt(spec_clamp(s.transfer_internal_editor_font_size as int, 8, 72) as u64)), spec_keys(seq!["transfer", "ask_save_location"]));
    assert("default_editor"@.len() != "ask_save_location"@.len());
    assert(spec_keys(seq!["transfer", "default_editor"])[1] != spec_keys(seq!["transfer", "ask_save_location"])[1]);
    lemma_set_path_frame(d5, spec_keys(seq!["transfer", "default_editor"]), JsonModel::Str(s.transfer_default_editor@, None), spec_keys(seq!["transfer", "ask_save_location"]));
    assert("download_threads"@.len() != "ask_save_location"@.len());
    assert(spec_keys(seq!["transfer", "download_threads"])[1] != spec_keys(seq!["transfer", "ask_save_location"])[1]);
    lemma_set_path_frame(d6, spec_keys(seq!["transfer", "download_threads"]), JsonModel::Number(JsonNumber::PosInt(spec_clamp(s.transfer_download_threads as int, 1, 10) as u64)), spec_keys(seq!["transfer", "ask_save_location"]));
    assert("upload_threads"@.len() != "ask_save_location"@.len());
    assert(spec_keys(seq!["transfer", "upload_threads"])[1] != spec_keys(seq!["transfer", "ask_save_location"])[1]);
    lemma_set_path_frame(d7, spec_keys(seq!["transfer", "upload_threads"]), JsonModel::Number(JsonNumber::PosInt(spec_clamp(s.transfer_upload_threads as int, 1, 10) as u64)), spec_keys(seq!["transfer", "ask_save_location"]));
    assert("max_transfer_retries"@.len() != "ask_save_location"@.len());
    assert(spec_keys(seq!["transfer", "max_transfer_retries"])[1] != spec_keys(seq!["transfer", "ask_save_location"])[1]);
    lemma_set_path_frame(d8, spec_keys(seq!["transfer", "max_transfer_retries"]), JsonModel::Number(JsonNumber::PosInt(spec_clamp(s.transfer_max_retries as int, 0, 10) as u64)), spec_keys(seq!["transfer", "ask_save_location"]));
    assert("transfer_buffer_size"@.len() != "ask_save_location"@.len());
    assert(spec_keys(seq!["transfer", "transfer_buffer_size"])[1] != spec_keys(seq!["transfer", "ask_save_location"])[1]);
    lemma_set_path_frame(d9, spec_keys(seq!["transfer", "transfer_buffer_size"]), JsonModel::Number(JsonNumber::PosInt(spec_clamp(s.transfer_buffer_size as int, 8, 256) as u64)), spec_keys(seq!["transfer", "ask_save_location"]));
    assert("default_file_permissions"@.len() != "ask_save_location"@.len());
    assert(spec_keys(seq!["transfer", "default_file_permissions"])[1] != spec_keys(seq!["transfer", "ask_save_location"])[1]);
    lemma_set_path_frame(d10, spec_keys(seq!["transfer", "default_file_permissions"]), JsonModel::Str(spec_transfer_file_permissions(s.transfer_default_file_permissions@), None), spec_keys(seq!["transfer", "ask_save_location"]));
    assert("preserve_timestamps"@.len() != "ask_save_location"@.len());
    assert(spec_keys(seq!["transfer", "preserve_timestamps"])[1] != spec_keys(seq!["transfer", "ask_save_location"])[1]);
    lemma_set_path_frame(d11, spec_keys(seq!["transfer", "preserve_timestamps"]), JsonModel::Bool(s.transfer_preserve_timestamps), spec_keys(seq!["transfer", "ask_save_location"]));
    assert("resume_broken_transfer"@.len() != "ask_save_location"@.len());
    assert(spec_keys(seq!["transfer", "resume_broken_transfer"])[1] != spec_keys(seq!["transfer", "ask_save_location"])[1]);
    lemma_set_path_frame(d12, spec_keys(seq!["transfer", "resume_broken_transfer"]), JsonModel::Bool(s.transfer_resume_broken_transfer), spec_keys(seq!["transfer", "ask_save_location"]));
}

#[verifier::spinoff_prover]
proof fn lemma_saved_transfer_keeps_transfer_duplicate_strategy(d: JsonModel, s: AppSettingsSummary)
    ensures
        spec_json_path(spec_saved_transfer(d, s), spec_keys(seq!["transfer", "duplicate_strategy"])) == Some(JsonModel::Str(spec_transfer_duplicate_strategy(s.transfer_duplicate_strategy@), None)),
{
    reveal_strlit("default_editor");
    reveal_strlit("default_file_permissions");
    reveal_strlit("download_threads");
    reveal_strlit("duplicate_strategy");
    reveal_strlit("editor_type");
    reveal_strlit("internal_editor_font_size");
    reveal_strlit("max_transfer_retries");
    reveal_strlit("preserve_timestamps");
    reveal_strlit("resume_broken_transfer");
    reveal_strlit("transfer");
    reveal_strlit("transfer_buffer_size");
    reveal_strlit("upload_threads");
    let d1 = spec_set_path(d, spec_keys(seq!["transfer", "download_path"]), JsonModel::Str(s.transfer_download_path@, None));
    let d2 = spec_set_path(d1, spec_keys(seq!["transfer", "ask_save_location"]), JsonModel::Bool(s.transfer_ask_save_location));
    let d3 = spec_set_path(d2, spec_keys(seq!["transfer", "duplicate_strategy"]), JsonModel::Str(spec_transfer_duplicate_strategy(s.transfer_duplicate_strategy@), None));
    let d4 = spec_set_path(d3, spec_keys(seq!["transfer", "editor_type"]), JsonModel::Str(spec_transfer_editor_type(s.transfer_editor_type@), None));
    let d5 = spec_set_path(d4, spec_keys(seq!["transfer", "internal_editor_font_size"]), JsonModel::Number(JsonNumber::PosInt(spec_clamp(s.transfer_internal_editor_font_size as int, 8, 72) as u64)));
    let d6 = spec_set_path(d5, spec_keys(seq!["transfer", "default_editor"]), JsonModel::Str(s.transfer_default_editor@, None));
    let d7 = spec_set_path(d6, spec_keys(seq!["transfer", "download_threads"]), JsonModel::Number(JsonNumber::PosInt(spec_clamp(s.transfer_download_threads as int, 1, 10) as u64)));
    let d8 = spec_set_path(d7, spec_keys(seq!["transfer", "upload_threads"]), JsonModel::Number(JsonNumber::PosInt(spec_clamp(s.transfer_upload_threads as int, 1, 10) as u64)));
    let d9 = spec_set_path(d8, spec_keys(seq!["transfer", "max_transfer_retries"]), JsonModel::Number(JsonNumber::PosInt(spec_clamp(s.transfer_max_retries as int, 0, 10) as u64)));
    let d10 = spec_set_path(d9, spec_keys(seq!["transfer", "transfer_buffer_size"]), JsonModel::Number(JsonNumber::PosInt(spec_clamp(s.transfer_buffer_size as int, 8, 256) as u64)));
    let d11 = spec_set_path(d10, spec_keys(seq!["transfer", "default_file_permissions"]), JsonModel::Str(spec_transfer_file_permissions(s.transfer_default_file_permissions@), None));
    let d12 = spec_set_path(d11, spec_keys(seq!["transfer", "preserve_timestamps"]), JsonModel::Bool(s.transfer_preserve_timestamps));
    let d13 = spec_set_path(d12, spec_keys(seq!["transfer", "resume_broken_transfer"]), JsonModel::Bool(s.transfer_resume_broken_transfer));
    assert(spec_saved_transfer_part1(d, s) == d8);
    assert(spec_saved_transfer_part2(d8, s) == d13);
    assert(spec_saved_transfer(d, s) == d13);
    lemma_set_path_then_read(d2, spec_keys(seq!["transfer", "duplicate_strategy"]), JsonModel::Str(spec_transfer_duplicate_strategy(s.transfer_duplicate_strategy@), None));
    assert("editor_type"@.len() != "duplicate_strategy"@.len());
    assert(spec_keys(seq!["transfer", "editor_type"])[1] != spec_keys(seq!["transfer", "duplicate_strategy"])[1]);
    lemma_set_path_frame(d3, spec_keys(seq!["transfer", "editor_type"]), JsonModel::Str(spec_transfer_editor_type(s.transfer_editor_type@), None), spec_keys(seq!["transfer", "duplicate_strategy"]));
    assert("internal_editor_font_size"@.len() != "duplicate_strategy"@.len());
    assert(spec_keys(seq!["transfer", "internal_editor_font_size"])[1] != spec_keys(seq!["transfer", "duplicate_strategy"])[1]);
    lemma_set_path_frame(d4, spec_keys(seq!["transfer", "internal_editor_font_size"]), JsonModel::Number(JsonNumber::PosInt(spec_clamp(s.transfer_internal_editor_font_size as int, 8, 72) as u64)), spec_keys(seq!["transfer", "duplicate_strategy"]));
    assert("default_editor"@.len() != "duplicate_strategy"@.len());
    assert(spec_keys(seq!["transfer", "default_editor"])[1] != spec_keys(seq!["transfer", "duplicate_strategy"])[1]);
    lemma_set_path_frame(d5, spec_keys(seq!["transfer", "default_editor"]), JsonModel::Str(s.transfer_default_editor@, None), spec_keys(seq!["transfer", "duplicate_strategy"]));
    assert("download_threads"@.len() != "duplicate_strategy"@.len());
    assert(spec_keys(seq!["transfer", "download_threads"])[1] != spec_keys(seq!["transfer", "duplicate_strategy"])[1]);
    lemma_set_path_frame(d6, spec_keys(seq!["transfer", "download_threads"]), JsonModel::Number(JsonNumber::PosInt(spec_clamp(s.transfer_download_threads as int, 1, 10) as u64)), spec_keys(seq!["transfer", "duplicate_strategy"]));
    assert("upload_threads"@.len() != "duplicate_strategy"@.len());
    assert(spec_keys(seq!["transfer", "upload_threads"])[1] != spec_keys(seq!["transfer", "duplicate_strategy"])[1]);
    lemma_set_path_frame(d7, spec_keys(seq!["transfer", "upload_threads"]), JsonModel::Number(JsonNumber::PosInt(spec_clamp(s.transfer_upload_threads as int, 1, 10) as u64)), spec_keys(seq!["transfer", "duplicate_strategy"]));
    assert("max_transfer_retries"@.len() != "duplicate_strategy"@.len());
    assert(spec_keys(seq!["transfer", "max_transfer_retries"])[1] != spec_keys(seq!["transfer", "duplicate_strategy"])[1]);
    lemma_set_path_frame(d8, spec_keys(seq!["transfer", "max_transfer_retries"]), JsonModel::Number(JsonNumber::PosInt(spec_clamp(s.transfer_max_retries as int, 0, 10) as u64)), spec_keys(seq!["transfer", "duplicate_strategy"]));
    assert("transfer_buffer_size"@.len() != "duplicate_strategy"@.len());
    assert(spec_keys(seq!["transfer", "transfer_buffer_size"])[1] != spec_keys(seq!["transfer", "duplicate_strategy"])[1]);
    lemma_set_path_frame(d9, spec_keys(seq!["transfer", "transfer_buffer_size"]), JsonModel::Number(JsonNumber::PosInt(spec_clamp(s.transfer_buffer_size as int, 8, 256) as u64)), spec_keys(seq!["transfer", "duplicate_strategy"]));
    assert("default_file_permissions"@.len() != "duplicate_strategy"@.len());
    assert(spec_keys(seq!["transfer", "default_file_permissions"])[1] != spec_keys(seq!["transfer", "duplicate_strategy"])[1]);
    lemma_set_path_frame(d10, spec_keys(seq!["transfer", "default_file_permissions"]), JsonModel::Str(spec_transfer_file_permissions(s.transfer_default_file_permissions@), None), spec_keys(seq!["transfer", "duplicate_strategy"]));
    assert("preserve_timestamps"@.len() != "duplicate_strategy"@.len());
    assert(spec_keys(seq!["transfer", "preserve_timestamps"])[1] != spec_keys(seq!["transfer", "duplicate_strategy"])[1]);
    lemma_set_path_frame(d11, spec_keys(seq!["transfer", "preserve_timestamps"]), JsonModel::Bool(s.transfer_preserve_timestamps), spec_keys(seq!["transfer", "duplicate_strategy"]));
    assert("resume_broken_transfer"@.len() != "duplicate_strategy"@.len());
    assert(spec_keys(seq!["transfer", "resume_broken_transfer"])[1] != spec_keys(seq!["transfer", "duplicate_strategy"])[1]);
    lemma_set_path_frame(d12, spec_keys(seq!["transfer", "resume_broken_transfer"]), JsonModel::Bool(s.transfer_resume_broken_transfer), spec_keys(seq!["transfer", "duplicate_strategy"]));
}

#[verifier::spinoff_prover]
proof fn lemma_saved_transfer_keeps_transfer_editor_type(d: JsonModel, s: AppSettingsSummary)
    ensures
        spec_json_path(spec_saved_transfer(d, s), spec_keys(seq!["transfer", "editor_type"])) == Some(JsonModel::Str(spec_transfer_editor_type(s.transfer_editor_type@), None)),
{
    reveal_strlit("default_editor");
    reveal_strlit("default_file_permissions");
    reveal_strlit("download_threads");
    reveal_strlit("editor_type");
    reveal_strlit("internal_editor_font_size");
    reveal_strlit("max_transfer_retries");
    reveal_strlit("preserve_timestamps");
    reveal_strlit("resume_broken_transfer");
    reveal_strlit("transfer");
    reveal_strlit("transfer_buffer_size");
    reveal_strlit("upload_threads");
    let d1 = spec_set_path(d, spec_keys(seq!["transfer", "download_path"]), JsonModel::Str(s.transfer_download_path@, None));
    let d2 = spec_set_path(d1, spec_keys(seq!["transfer", "ask_save_location"]), JsonModel::Bool(s.transfer_ask_save_location));
    let d3 = spec_set_path(d2, spec_keys(seq!["transfer", "duplicate_strategy"]), JsonModel::Str(spec_transfer_duplicate_strategy(s.transfer_duplicate_strategy@), None));
    let d4 = spec_set_path(d3, spec_keys(seq!["transfer", "editor_type"]), JsonModel::Str(spec_transfer_editor_type(s.transfer_editor_type@), None));
    let d5 = spec_set_path(d4, spec_keys(seq!["transfer", "internal_editor_font_size"]), JsonModel::Number(JsonNumber::PosInt(spec_clamp(s.transfer_internal_editor_font_size as int, 8, 72) as u64)));
    let d6 = spec_set_path(d5, spec_keys(seq!["transfer", "default_editor"]), JsonModel::Str(s.transfer_default_editor@, None));
    let d7 = spec_set_path(d6, spec_keys(seq!["transfer", "download_threads"]), JsonModel::Number(JsonNumber::PosInt(spec_clamp(s.transfer_download_threads as int, 1, 10) as u64)));
    let d8 = spec_set_path(d7, spec_keys(seq!["transfer", "upload_threads"]), JsonModel::Number(JsonNumber::PosInt(spec_clamp(s.transfer_upload_threads as int, 1, 10) as u64)));
    let d9 = spec_set_path(d8, spec_keys(seq!["transfer", "max_transfer_retries"]), JsonModel::Number(JsonNumber::PosInt(spec_clamp(s.transfer_max_retries as int, 0, 10) as u64)));
    let d10 = spec_set_path(d9, spec_keys(seq!["transfer", "transfer_buffer_size"]), JsonModel::Number(JsonNumber::PosInt(spec_clamp(s.transfer_buffer_size as int, 8, 256) as u64)));
    let d11 = spec_set_path(d10, spec_keys(seq!["transfer", "default_file_permissions"]), JsonModel::Str(spec_transfer_file_permissions(s.transfer_default_file_permissions@), None));
    let d12 = spec_set_path(d11, spec_keys(seq!["transfer", "preserve_timestamps"]), JsonModel::Bool(s.transfer_preserve_timestamps));
    let d13 = spec_set_path(d12, spec_keys(seq!["transfer", "resume_broken_transfer"]), JsonModel::Bool(s.transfer_resume_broken_transfer));
    assert(spec_saved_transfer_part1(d, s) == d8);
    assert(spec_saved_transfer_part2(d8, s) == d13);
    assert(spec_saved_transfer(d, s) == d13);
    lemma_set_path_then_read(d3, spec_keys(seq!["transfer", "editor_type"]), JsonModel::Str(spec_transfer_editor_type(s.transfer_editor_type@), None));
    assert("internal_editor_font_size"@.len() != "editor_type"@.len());
    assert(spec_keys(seq!["transfer", "internal_editor_font_size"])[1] != spec_keys(seq!["transfer", "editor_type"])[1]);
    lemma_set_path_frame(d4, spec_keys(seq!["transfer", "internal_editor_font_size"]), JsonModel::Number(JsonNumber::PosInt(spec_clamp(s.transfer_internal_editor_font_size as int, 8, 72) as u64)), spec_keys(seq!["transfer", "editor_type"]));
    assert("default_editor"@.len() != "editor_type"@.len());
    assert(spec_keys(seq!["transfer", "default_editor"])[1] != spec_keys(seq!["transfer", "editor_type"])[1]);
    lemma_set_path_frame(d5, spec_keys(seq!["transfer", "default_editor"]), JsonModel::Str(s.transfer_default_editor@, None), spec_keys(seq!["transfer", "editor_type"]));
    assert("download_threads"@.len() != "editor_type"@.len());
    assert(spec_keys(seq!["transfer", "download_threads"])[1] != spec_keys(seq!["transfer", "editor_type"])[1]);
    lemma_set_path_frame(d6, spec_keys(seq!["transfer", "download_threads"]), JsonModel::Number(JsonNumber::PosInt(spec_clamp(s.transfer_download_threads as int, 1, 10) as u64)), spec_keys(seq!["transfer", "editor_type"]));
    assert("upload_threads"@.len() != "editor_type"@.len());
    assert(spec_keys(seq!["transfer", "upload_threads"])[1] != spec_keys(seq!["transfer", "editor_type"])[1]);
    lemma_set_path_frame(d7, spec_keys(seq!["transfer", "upload_threads"]), JsonModel::Number(JsonNumber::PosInt(spec_clamp(s.transfer_upload_threads as int, 1, 10) as u64)), spec_keys(seq!["transfer", "editor_type"]));
    assert("max_transfer_retries"@.len() != "editor_type"@.len());
    assert(spec_keys(seq!["transfer", "max_transfer_retries"])[1] != spec_keys(seq!["transfer", "editor_type"])[1]);
    lemma_set_path_frame(d8, spec_keys(seq!["transfer", "max_transfer_retries"]), JsonModel::Number(JsonNumber::PosInt(spec_clamp(s.transfer_max_retries as int, 0, 10) as u64)), spec_keys(seq!["transfer", "editor_type"]));
    assert("transfer_buffer_size"@.len() != "editor_type"@.len());
    assert(spec_keys(seq!["transfer", "transfer_buffer_size"])[1] != spec_keys(seq!["transfer", "editor_type"])[1]);
    lemma_set_path_frame(d9, spec_keys(seq!["transfer", "transfer_buffer_size"]), JsonModel::Number(JsonNumber::PosInt(spec_clamp(s.transfer_buffer_size as int, 8, 256) as u64)), spec_keys(seq!["transfer", "editor_type"]));
    assert("default_file_permissions"@.len() != "editor_type"@.len());
    assert(spec_keys(seq!["transfer", "default_file_permissions"])[1] != spec_keys(seq!["transfer", "editor_type"])[1]);
    lemma_set_path_frame(d10, spec_keys(seq!["transfer", "default_file_permissions"]), JsonModel::Str(spec_transfer_file_permissions(s.transfer_default_file_permissions@), None), spec_keys(seq!["transfer", "editor_type"]));
    assert("preserve_timestamps"@.len() != "editor_type"@.len());
    assert(spec_keys(seq!["transfer", "preserve_timestamps"])[1] != spec_keys(seq!["transfer", "editor_type"])[1]);
    lemma_set_path_frame(d11, spec_keys(seq!["transfer", "preserve_timestamps"]), JsonModel::Bool(s.transfer_preserve_timestamps), spec_keys(seq!["transfer", "editor_type"]));
    assert("resume_broken_transfer"@.len() != "editor_type"@.len());
    assert(spec_keys(seq!["transfer", "resume_broken_transfer"])[1] != spec_keys(seq!["transfer", "editor_type"])[1]);
    lemma_set_path_frame(d12, spec_keys(seq!["transfer", "resume_broken_transfer"]), JsonModel::Bool(s.transfer_resume_broken_transfer), spec_keys(seq!["transfer", "editor_type"]));
}

#[verifier::spinoff_prover]
proof fn lemma_saved_transfer_keeps_transfer_internal_editor_font_size(d: JsonModel, s: AppSettingsSummary)
    ensures
        spec_json_path(spec_saved_transfer(d, s), spec_keys(seq!["transfer", "internal_editor_font_size"])) == Some(JsonModel::Number(JsonNumber::PosInt(spec_clamp(s.transfer_internal_editor_font_size as int, 8, 72) as u64))),
{
    reveal_strlit("default_editor");
    reveal_strlit("default_file_permissions");
    reveal_strlit("download_threads");
    reveal_strlit("internal_editor_font_size");
    reveal_strlit("max_transfer_retries");
    reveal_strlit("preserve_timestamps");
    reveal_strlit("resume_broken_transfer");
    reveal_strlit("transfer");
    reveal_strlit("transfer_buffer_size");
    reveal_strlit("upload_threads");
    let d1 = spec_set_path(d, spec_keys(seq!["transfer", "download_path"]), JsonModel::Str(s.transfer_download_path@, None));
    let d2 = spec_set_path(d1, spec_keys(seq!["transfer", "ask_save_location"]), JsonModel::Bool(s.transfer_ask_save_location));
    let d3 = spec_set_path(d2, spec_keys(seq!["transfer", "duplicate_strategy"]), JsonModel::Str(spec_transfer_duplicate_strategy(s.transfer_duplicate_strategy@), None));
    let d4 = spec_set_path(d3, spec_keys(seq!["transfer", "editor_type"]), JsonModel::Str(spec_transfer_editor_type(s.transfer_editor_type@), None));
    let d5 = spec_set_path(d4, spec_keys(seq!["transfer", "internal_editor_font_size"]), JsonModel::Number(JsonNumber::PosInt(spec_clamp(s.transfer_internal_editor_font_size as int, 8, 72) as u64)));
    let d6 = spec_set_path(d5, spec_keys(seq!["transfer", "default_editor"]), JsonModel::Str(s.transfer_default_editor@, None));
    let d7 = spec_set_path(d6, spec_keys(seq!["transfer", "download_threads"]), JsonModel::Number(JsonNumber::PosInt(spec_clamp(s.transfer_download_threads as int, 1, 10) as u64)));
    let d8 = spec_set_path(d7, spec_keys(seq!["transfer", "upload_threads"]), JsonModel::Number(JsonNumber::PosInt(spec_clamp(s.transfer_upload_threads as int, 1, 10) as u64)));
    let d9 = spec_set_path(d8, spec_keys(seq!["transfer", "max_transfer_retries"]), JsonModel::Number(JsonNumber::PosInt(spec_clamp(s.transfer_max_retries as int, 0, 10) as u64)));
    let d10 = spec_set_path(d9, spec_keys(seq!["transfer", "transfer_buffer_size"]), JsonModel::Number(JsonNumber::PosInt(spec_clamp(s.transfer_buffer_size as int, 8, 256) as u64)));
    let d11 = spec_set_path(d10, spec_keys(seq!["transfer", "default_file_permissions"]), JsonModel::Str(spec_transfer_file_permissions(s.transfer_default_file_permissions@), None));
    let d12 = spec_set_path(d11, spec_keys(seq!["transfer", "preserve_timestamps"]), JsonModel::Bool(s.transfer_preserve_timestamps));
    let d13 = spec_set_path(d12, spec_keys(seq!["transfer", "resume_broken_transfer"]), JsonModel::Bool(s.transfer_resume_broken_transfer));
    assert(spec_saved_transfer_part1(d, s) == d8);
    assert(spec_saved_transfer_part2(d8, s) == d13);
    assert(spec_saved_transfer(d, s) == d13);
    lemma_set_path_then_read(d4, spec_keys(seq!["transfer", "internal_editor_font_size"]), JsonModel::Number(JsonNumber::PosInt(spec_clamp(s.transfer_internal_editor_font_size as int, 8, 72) as u64)));
    assert("default_editor"@.len() != "internal_editor_font_size"@.len());
    assert(spec_keys(seq!["transfer", "default_editor"])[1] != spec_keys(seq!["transfer", "internal_editor_font_size"])[1]);
    lemma_set_path_frame(d5, spec_keys(seq!["transfer", "default_editor"]), JsonModel::Str(s.transfer_default_editor@, None), spec_keys(seq!["transfer", "internal_editor_font_size"]));
    assert("download_threads"@.len() != "internal_editor_font_size"@.len());
    assert(spec_keys(seq!["transfer", "download_threads"])[1] != spec_keys(seq!["transfer", "internal_editor_font_size"])[1]);
    lemma_set_path_frame(d6, spec_keys(seq!["transfer", "download_threads"]), JsonModel::Number(JsonNumber::PosInt(spec_clamp(s.transfer_download_threads as int, 1, 10) as u64)), spec_keys(seq!["transfer", "internal_editor_font_size"]));
    assert("upload_threads"@.len() != "internal_editor_font_size"@.len());
    assert(spec_keys(seq!["transfer", "upload_threads"])[1] != spec_keys(seq!["transfer", "internal_editor_font_size"])[1]);
    lemma_set_path_frame(d7, spec_keys(seq!["transfer", "upload_threads"]), JsonModel::Number(JsonNumber::PosInt(spec_clamp(s.transfer_upload_threads as int, 1, 10) as u64)), spec_keys(seq!["transfer", "internal_editor_font_size"]));
    assert("max_transfer_retries"@.len() != "internal_editor_font_size"@.len());
    assert(spec_keys(seq!["transfer", "max_transfer_retries"])[1] != spec_keys(seq!["transfer", "internal_editor_font_size"])[1]);
    lemma_set_path_frame(d8, spec_keys(seq!["transfer", "max_transfer_retries"]), JsonModel::Number(JsonNumber::PosInt(spec_clamp(s.transfer_max_retries as int, 0, 10) as u64)), spec_keys(seq!["transfer", "internal_editor_font_size"]));
    assert("transfer_buffer_size"@.len() != "internal_editor_font_size"@.len());
    assert(spec_keys(seq!["transfer", "transfer_buffer_size"])[1] != spec_keys(seq!["transfer", "internal_editor_font_size"])[1]);
    lemma_set_path_frame(d9, spec_keys(seq!["transfer", "transfer_buffer_size"]), JsonModel::Number(JsonNumber::PosInt(spec_clamp(s.transfer_buffer_size as int, 8, 256) as u64)), spec_keys(seq!["transfer", "internal_editor_font_size"]));
    assert("default_file_permissions"@.len() != "internal_editor_font_size"@.len());
    assert(spec_keys(seq!["transfer", "default_file_permissions"])[1] != spec_keys(seq!["transfer", "internal_editor_font_size"])[1]);
    lemma_set_path_frame(d10, spec_keys(seq!["transfer", "default_file_permissions"]), JsonModel::Str(spec_transfer_file_permissions(s.transfer_default_file_permissions@), None), spec_keys(seq!["transfer", "internal_editor_font_size"]));
    assert("preserve_timestamps"@.len() != "internal_editor_font_size"@.len());
    assert(spec_keys(seq!["transfer", "preserve_timestamps"])[1] != spec_keys(seq!["transfer", "internal_editor_font_size"])[1]);
    lemma_set_path_frame(d11, spec_keys(seq!["transfer", "preserve_timestamps"]), JsonModel::Bool(s.transfer_preserve_timestamps), spec_keys(seq!["transfer", "internal_editor_font_size"]));
    assert("resume_broken_transfer"@.len() != "internal_editor_font_size"@.len());
    assert(spec_keys(seq!["transfer", "resume_broken_transfer"])[1] != spec_keys(seq!["transfer", "internal_editor_font_size"])[1]);
    lemma_set_path_frame(d12, spec_keys(seq!["transfer", "resume_broken_transfer"]), JsonModel::Bool(s.transfer_resume_broken_transfer), spec_keys(seq!["transfer", "internal_editor_font_size"]));
}

#[verifier::spinoff_prover]
proof fn lemma_saved_transfer_keeps_transfer_default_editor(d: JsonModel, s: AppSettingsSummary)
    ensures
        spec_json_path(spec_saved_transfer(d, s), spec_keys(seq!["transfer", "default_editor"])) == Some(JsonModel::Str(s.transfer_default_editor@, None)),
{
    reveal_strlit("default_editor");
    reveal_strlit("default_file_permissions");
    reveal_strlit("download_threads");
    reveal_strlit("max_transfer_retries");
    reveal_strlit("preserve_timestamps");
    reveal_strlit("resume_broken_transfer");
    reveal_strlit("transfer");
    reveal_strlit("transfer_buffer_size");
    reveal_strlit("upload_threads");
    let d1 = spec_set_path(d, spec_keys(seq!["transfer", "download_path"]), JsonModel::Str(s.transfer_download_path@, None));
    let d2 = spec_set_path(d1, spec_keys(seq!["transfer", "ask_save_location"]), JsonModel::Bool(s.transfer_ask_save_location));
    let d3 = spec_set_path(d2, spec_keys(seq!["transfer", "duplicate_strategy"]), JsonModel::Str(spec_transfer_duplicate_strategy(s.transfer_duplicate_strategy@), None));
    let d4 = spec_set_path(d3, spec_keys(seq!["transfer", "editor_type"]), JsonModel::Str(spec_transfer_editor_type(s.transfer_editor_type@), None));
    let d5 = spec_set_path(d4, spec_keys(seq!["transfer", "internal_editor_font_size"]), JsonModel::Number(JsonNumber::PosInt(spec_clamp(s.transfer_internal_editor_font_size as int, 8, 72) as u64)));
    let d6 = spec_set_path(d5, spec_keys(seq!["transfer", "default_editor"]), JsonModel::Str(s.transfer_default_editor@, None));
    let d7 = spec_set_path(d6, spec_keys(seq!["transfer", "download_threads"]), JsonModel::Number(JsonNumber::PosInt(spec_clamp(s.transfer_download_threads as int, 1, 10) as u64)));
    let d8 = spec_set_path(d7, spec_keys(seq!["transfer", "upload_threads"]), JsonModel::Number(JsonNumber::PosInt(spec_clamp(s.transfer_upload_threads as int, 1, 10) as u64)));
    let d9 = spec_set_path(d8, spec_keys(seq!["transfer", "max_transfer_retries"]), JsonModel::Number(JsonNumber::PosInt(spec_clamp(s.transfer_max_retries as int, 0, 10) as u64)));
    let d10 = spec_set_path(d9, spec_keys(seq!["transfer", "transfer_buffer_size"]), JsonModel::Number(JsonNumber::PosInt(spec_clamp(s.transfer_buffer_size as int, 8, 256) as u64)));
    let d11 = spec_set_path(d10, spec_keys(seq!["transfer", "default_file_permissions"]), JsonModel::Str(spec_transfer_file_permissions(s.transfer_default_file_permissions@), None));
    let d12 = spec_set_path(d11, spec_keys(seq!["transfer", "preserve_timestamps"]), JsonModel::Bool(s.transfer_preserve_timestamps));
    let d13 = spec_set_path(d12, spec_keys(seq!["transfer", "resume_broken_transfer"]), JsonModel::Bool(s.transfer_resume_broken_transfer));
    assert(spec_saved_transfer_part1(d, s) == d8);
    assert(spec_saved_transfer_part2(d8, s) == d13);
    assert(spec_saved_transfer(d, s) == d13);
    lemma_set_path_then_read(d5, spec_keys(seq!["transfer", "default_editor"]), JsonModel::Str(s.transfer_default_editor@, None));
    assert("download_threads"@.len() != "default_editor"@.len());
    assert(spec_keys(seq!["transfer", "download_threads"])[1] != spec_keys(seq!["transfer", "default_editor"])[1]);
    lemma_set_path_frame(d6, spec_keys(seq!["transfer", "download_threads"]), JsonModel::Number(JsonNumber::PosInt(spec_clamp(s.transfer_download_threads as int, 1, 10) as u64)), spec_keys(seq!["transfer", "default_editor"]));
    assert("upload_threads"@[0] != "default_editor"@[0]);
    assert(spec_keys(seq!["transfer", "upload_threads"])[1] != spec_keys(seq!["transfer", "default_editor"])[1]);
    lemma_set_path_frame(d7, spec_keys(seq!["transfer", "upload_threads"]), JsonModel::Number(JsonNumber::PosInt(spec_clamp(s.transfer_upload_threads as int, 1, 10) as u64)), spec_keys(seq!["transfer", "default_editor"]));
    assert("max_transfer_retries"@.len() != "default_editor"@.len());
    assert(spec_keys(seq!["transfer", "max_transfer_retries"])[1] != spec_keys(seq!["transfer", "default_editor"])[1]);
    lemma_set_path_frame(d8, spec_keys(seq!["transfer", "max_transfer_retries"]), JsonModel::Number(JsonNumber::PosInt(spec_clamp(s.transfer_max_retries as int, 0, 10) as u64)), spec_keys(seq!["transfer", "default_editor"]));
    assert("transfer_buffer_size"@.len() != "default_editor"@.len());
    assert(spec_keys(seq!["transfer", "transfer_buffer_size"])[1] != spec_keys(seq!["transfer", "default_editor"])[1]);
    lemma_set_path_frame(d9, spec_keys(seq!["transfer", "transfer_buffer_size"]), JsonModel::Number(JsonNumber::PosInt(spec_clamp(s.transfer_buffer_size as int, 8, 256) as u64)), spec_keys(seq!["transfer", "default_editor"]));
    assert("default_file_permissions"@.len() != "default_editor"@.len());
    assert(spec_keys(seq!["transfer", "default_file_permissions"])[1] != spec_keys(seq!["transfer", "default_editor"])[1]);
    lemma_set_path_frame(d10, spec_keys(seq!["transfer", "default_file_permissions"]), JsonModel::Str(spec_transfer_file_permissions(s.transfer_default_file_permissions@), None), spec_keys(seq!["transfer", "default_editor"]));
    assert("preserve_timestamps"@.len() != "default_editor"@.len());
    assert(spec_keys(seq!["transfer", "preserve_timestamps"])[1] != spec_keys(seq!["transfer", "default_editor"])[1]);
    lemma_set_path_frame(d11, spec_keys(seq!["transfer", "preserve_timestamps"]), JsonModel::Bool(s.transfer_preserve_timestamps), spec_keys(seq!["transfer", "default_editor"]));
    assert("resume_broken_transfer"@.len() != "default_editor"@.len());
    assert(spec_keys(seq!["transfer", "resume_broken_transfer"])[1] != spec_keys(seq!["transfer", "default_editor"])[1]);
    lemma_set_path_frame(d12, spec_keys(seq!["transfer", "resume_broken_transfer"]), JsonModel::Bool(s.transfer_resume_broken_transfer), spec_keys(seq!["transfer", "default_editor"]));
}

#[verifier::spinoff_prover]
proof fn lemma_saved_transfer_keeps_transfer_download_threads(d: JsonModel, s: AppSettingsSummary)
    ensures
        spec_json_path(spec_saved_transfer(d, s), spec_keys(seq!["transfer", "download_threads"])) == Some(JsonModel::Number(JsonNumber::PosInt(spec_clamp(s.transfer_download_threads as int, 1, 10) as u64))),
{
    reveal_strlit("default_file_permissions");
    reveal_strlit("download_threads");
    reveal_strlit("max_transfer_retries");
    reveal_strlit("preserve_timestamps");
    reveal_strlit("resume_broken_transfer");
    reveal_strlit("transfer");
    reveal_strlit("transfer_buffer_size");
    reveal_strlit("upload_threads");
    let d1 = spec_set_path(d, spec_keys(seq!["transfer", "download_path"]), JsonModel::Str(s.transfer_download_path@, None));
    let d2 = spec_set_path(d1, spec_keys(seq!["transfer", "ask_save_location"]), JsonModel::Bool(s.transfer_ask_save_location));
    let d3 = spec_set_path(d2, spec_keys(seq!["transfer", "duplicate_strategy"]), JsonModel::Str(spec_transfer_duplicate_strategy(s.transfer_duplicate_strategy@), None));
    let d4 = spec_set_path(d3, spec_keys(seq!["transfer", "editor_type"]), JsonModel::Str(spec_transfer_editor_type(s.transfer_editor_type@), None));
    let d5 = spec_set_path(d4, spec_keys(seq!["transfer", "internal_editor_font_size"]), JsonModel::Number(JsonNumber::PosInt(spec_clamp(s.transfer_internal_editor_font_size as int, 8, 72) as u64)));
    let d6 = spec_set_path(d5, spec_keys(seq!["transfer", "default_editor"]), JsonModel::Str(s.transfer_default_editor@, None));
    let d7 = spec_set_path(d6, spec_keys(seq!["transfer", "download_threads"]), JsonModel::Number(JsonNumber::PosInt(spec_clamp(s.transfer_download_threads as int, 1, 10) as u64)));
    let d8 = spec_set_path(d7, spec_keys(seq!["transfer", "upload_threads"]), JsonModel::Number(JsonNumber::PosInt(spec_clamp(s.transfer_upload_threads as int, 1, 10) as u64)));
    let d9 = spec_set_path(d8, spec_keys(seq!["transfer", "max_transfer_retries"]), JsonModel::Number(JsonNumber::PosInt(spec_clamp(s.transfer_max_retries as int, 0, 10) as u64)));
    let d10 = spec_set_path(d9, spec_keys(seq!["transfer", "transfer_buffer_size"]), JsonModel::Number(JsonNumber::PosInt(spec_clamp(s.transfer_buffer_size as int, 8, 256) as u64)));
    let d11 = spec_set_path(d10, spec_keys(seq!["transfer", "default_file_permissions"]), JsonModel::Str(spec_transfer_file_permissions(s.transfer_default_file_permissions@), None));
    let d12 = spec_set_path(d11, spec_keys(seq!["transfer", "preserve_timestamps"]), JsonModel::Bool(s.transfer_preserve_timestamps));
    let d13 = spec_set_path(d12, spec_keys(seq!["transfer", "resume_broken_transfer"]), JsonModel::Bool(s.transfer_resume_broken_transfer));
    assert(spec_saved_transfer_part1(d, s) == d8);
    assert(spec_saved_transfer_part2(d8, s) == d13);
    assert(spec_saved_transfer(d, s) == d13);
    lemma_set_path_then_read(d6, spec_keys(seq!["transfer", "download_threads"]), JsonModel::Number(JsonNumber::PosInt(spec_clamp(s.transfer_download_threads as int, 1, 10) as u64)));
    assert("upload_threads"@.len() != "download_threads"@.len());
    assert(spec_keys(seq!["transfer", "upload_threads"])[1] != spec_keys(seq!["transfer", "download_threads"])[1]);
    lemma_set_path_frame(d7, spec_keys(seq!["transfer", "upload_threads"]), JsonModel::Number(JsonNumber::PosInt(spec_clamp(s.transfer_upload_threads as int, 1, 10) as u64)), spec_keys(seq!["transfer", "download_threads"]));
    assert("max_transfer_retries"@.len() != "download_threads"@.len());
    assert(spec_keys(seq!["transfer", "max_transfer_retries"])[1] != spec_keys(seq!["transfer", "download_threads"])[1]);
    lemma_set_path_frame(d8, spec_keys(seq!["transfer", "max_transfer_retries"]), JsonModel::Number(JsonNumber::PosInt(spec_clamp(s.transfer_max_retries as int, 0, 10) as u64)), spec_keys(seq!["transfer", "download_threads"]));
    assert("transfer_buffer_size"@.len() != "download_threads"@.len());
    assert(spec_keys(seq!["transfer", "transfer_buffer_size"])[1] != spec_keys(seq!["transfer", "download_threads"])[1]);
    lemma_set_path_frame(d9, spec_keys(seq!["transfer", "transfer_buffer_size"]), JsonModel::Number(JsonNumber::PosInt(spec_clamp(s.transfer_buffer_size as int, 8, 256) as u64)), spec_keys(seq!["transfer", "download_threads"]));
    assert("default_file_permissions"@.len() != "download_threads"@.len());
    assert(spec_keys(seq!["transfer", "default_file_permissions"])[1] != spec_keys(seq!["transfer", "download_threads"])[1]);
    lemma_set_path_frame(d10, spec_keys(seq!["transfer", "default_file_permissions"]), JsonModel::Str(spec_transfer_file_permissions(s.transfer_default_file_permissions@), None), spec_keys(seq!["transfer", "download_threads"]));
    assert("preserve_timestamps"@.len() != "download_threads"@.len());
    assert(spec_keys(seq!["transfer", "preserve_timestamps"])[1] != spec_keys(seq!["transfer", "download_threads"])[1]);
    lemma_set_path_frame(d11, spec_keys(seq!["transfer", "preserve_timestamps"]), JsonModel::Bool(s.transfer_preserve_timestamps), spec_keys(seq!["transfer", "download_threads"]));
    assert("resume_broken_transfer"@.len() != "download_threads"@.len());
    assert(spec_keys(seq!["transfer", "resume_broken_transfer"])[1] != spec_keys(seq!["transfer", "download_threads"])[1]);
    lemma_set_path_frame(d12, spec_keys(seq!["transfer", "resume_broken_transfer"]), JsonModel::Bool(s.transfer_resume_broken_transfer), spec_keys(seq!["transfer", "download_threads"]));
}

#[verifier::spinoff_prover]
proof fn lemma_saved_transfer_keeps_transfer_upload_threads(d: JsonModel, s: AppSettingsSummary)
    ensures
        spec_json_path(spec_saved_transfer(d, s), spec_keys(seq!["transfer", "upload_threads"])) == Some(JsonModel::Number(JsonNumber::PosInt(spec_clamp(s.transfer_upload_threads as int, 1, 10) as u64))),
{
    reveal_strlit("default_file_permissions");
    reveal_strlit("max_transfer_retries");
    reveal_strlit("preserve_timestamps");
    reveal_strlit("resume_broken_transfer");
    reveal_strlit("transfer");
    reveal_strlit("transfer_buffer_size");
    reveal_strlit("upload_threads");
    let d1 = spec_set_path(d, spec_keys(seq!["transfer", "download_path"]), JsonModel::Str(s.transfer_download_path@, None));
    let d2 = spec_set_path(d1, spec_keys(seq!["transfer", "ask_save_location"]), JsonModel::Bool(s.transfer_ask_save_location));
    let d3 = spec_set_path(d2, spec_keys(seq!["transfer", "duplicate_strategy"]), JsonModel::Str(spec_transfer_duplicate_strategy(s.transfer_duplicate_strategy@), None));
    let d4 = spec_set_path(d3, spec_keys(seq!["transfer", "editor_type"]), JsonModel::Str(spec_transfer_editor_type(s.transfer_editor_type@), None));
    let d5 = spec_set_path(d4, spec_keys(seq!["transfer", "internal_editor_font_size"]), JsonModel::Number(JsonNumber::PosInt(spec_clamp(s.transfer_internal_editor_font_size as int, 8, 72) as u64)));
    let d6 = spec_set_path(d5, spec_keys(seq!["transfer", "default_editor"]), JsonModel::Str(s.transfer_default_editor@, None));
    let d7 = spec_set_path(d6, spec_keys(seq!["transfer", "download_threads"]), JsonModel::Number(JsonNumber::PosInt(spec_clamp(s.transfer_download_threads as int, 1, 10) as u64)));
    let d8 = spec_set_path(d7, spec_keys(seq!["transfer", "upload_threads"]), JsonModel::Number(JsonNumber::PosInt(spec_clamp(s.transfer_upload_threads as int, 1, 10) as u64)));
    let d9 = spec_set_path(d8, spec_keys(seq!["transfer", "max_transfer_retries"]), JsonModel::Number(JsonNumber::PosInt(spec_clamp(s.transfer_max_retries as int, 0, 10) as u64)));
    let d10 = spec_set_path(d9, spec_keys(seq!["transfer", "transfer_buffer_size"]), JsonModel::Number(JsonNumber::PosInt(spec_clamp(s.transfer_buffer_size as int, 8, 256) as u64)));
    let d11 = spec_set_path(d10, spec_keys(seq!["transfer", "default_file_permissions"]), JsonModel::Str(spec_transfer_file_permissions(s.transfer_default_file_permissions@), None));
    let d12 = spec_set_path(d11, spec_keys(seq!["transfer", "preserve_timestamps"]), JsonModel::Bool(s.transfer_preserve_timestamps));
    let d13 = spec_set_path(d12, spec_keys(seq!["transfer", "resume_broken_transfer"]), JsonModel::Bool(s.transfer_resume_broken_transfer));
    assert(spec_saved_transfer_part1(d, s) == d8);
    assert(spec_saved_transfer_part2(d8, s) == d13);
    assert(spec_saved_transfer(d, s) == d13);
    lemma_set_path_then_read(d7, spec_keys(seq!["transfer", "upload_threads"]), JsonModel::Number(JsonNumber::PosInt(spec_clamp(s.transfer_upload_threads as int, 1, 10) as u64)));
    assert("max_transfer_retries"@.len() != "upload_threads"@.len());
    assert(spec_keys(seq!["transfer", "max_transfer_retries"])[1] != spec_keys(seq!["transfer", "upload_threads"])[1]);
    lemma_set_path_frame(d8, spec_keys(seq!["transfer", "max_transfer_retries"]), JsonModel::Number(JsonNumber::PosInt(spec_clamp(s.transfer_max_retries as int, 0, 10) as u64)), spec_keys(seq!["transfer", "upload_threads"]));
    assert("transfer_buffer_size"@.len() != "upload_threads"@.len());
    assert(spec_keys(seq!["transfer", "transfer_buffer_size"])[1] != spec_keys(seq!["transfer", "upload_threads"])[1]);
    lemma_set_path_frame(d9, spec_keys(seq!["transfer", "transfer_buffer_size"]), JsonModel::Number(JsonNumber::PosInt(spec_clamp(s.transfer_buffer_size as int, 8, 256) as u64)), spec_keys(seq!["transfer", "upload_threads"]));
    assert("default_file_permissions"@.len() != "upload_threads"@.len());
    assert(spec_keys(seq!["transfer", "default_file_permissions"])[1] != spec_keys(seq!["transfer", "upload_threads"])[1]);
    lemma_set_path_frame(d10, spec_keys(seq!["transfer", "default_file_permissions"]), JsonModel::Str(spec_transfer_file_permissions(s.transfer_default_file_permissions@), None), spec_keys(seq!["transfer", "upload_threads"]));
    assert("preserve_timestamps"@.len() != "upload_threads"@.len());
    assert(spec_keys(seq!["transfer", "preserve_timestamps"])[1] != spec_keys(seq!["transfer", "upload_threads"])[1]);
    lemma_set_path_frame(d11, spec_keys(seq!["transfer", "preserve_timestamps"]), JsonModel::Bool(s.transfer_preserve_timestamps), spec_keys(seq!["transfer", "upload_threads"]));
    assert("resume_broken_transfer"@.len() != "upload_threads"@.len());
    assert(spec_keys(seq!["transfer", "resume_broken_transfer"])[1] != spec_keys(seq!["transfer", "upload_threads"])[1]);
    lemma_set_path_frame(d12, spec_keys(seq!["transfer", "resume_broken_transfer"]), JsonModel::Bool(s.transfer_resume_broken_transfer), spec_keys(seq!["transfer", "upload_threads"]));
}

#[verifier::spinoff_prover]
proof fn lemma_saved_transfer_keeps_transfer_max_transfer_retries(d: JsonModel, s: AppSettingsSummary)
    ensures
        spec_json_path(spec_saved_transfer(d, s), spec_keys(seq!["transfer", "max_transfer_retries"])) == Some(JsonModel::Number(JsonNumber::PosInt(spec_clamp(s.transfer_max_retries as int, 0, 10) as u64))),
{
    reveal_strlit("default_file_permissions");
    reveal_strlit("max_transfer_retries");
    reveal_strlit("preserve_timestamps");
    reveal_strlit("resume_broken_transfer");
    reveal_strlit("transfer");
    reveal_strlit("transfer_buffer_size");
    let d1 = spec_set_path(d, spec_keys(seq!["transfer", "download_path"]), JsonModel::Str(s.transfer_download_path@, None));
    let d2 = spec_set_path(d1, spec_keys(seq!["transfer", "ask_save_location"]), JsonModel::Bool(s.transfer_ask_save_location));
    let d3 = spec_set_path(d2, spec_keys(seq!["transfer", "duplicate_strategy"]), JsonModel::Str(spec_transfer_duplicate_strategy(s.transfer_duplicate_strategy@), None));
    let d4 = spec_set_path(d3, spec_keys(seq!["transfer", "editor_type"]), JsonModel::Str(spec_transfer_editor_type(s.transfer_editor_type@), None));
    let d5 = spec_set_path(d4, spec_keys(seq!["transfer", "internal_editor_font_size"]), JsonModel::Number(JsonNumber::PosInt(spec_clamp(s.transfer_internal_editor_font_size as int, 8, 72) as u64)));
    let d6 = spec_set_path(d5, spec_keys(seq!["transfer", "default_editor"]), JsonModel::Str(s.transfer_default_editor@, None));
    let d7 = spec_set_path(d6, spec_keys(seq!["transfer", "download_threads"]), JsonModel::Number(JsonNumber::PosInt(spec_clamp(s.transfer_download_threads as int, 1, 10) as u64)));
    let d8 = spec_set_path(d7, spec_keys(seq!["transfer", "upload_threads"]), JsonModel::Number(JsonNumber::PosInt(spec_clamp(s.transfer_upload_threads as int, 1, 10) as u64)));
    let d9 = spec_set_path(d8, spec_keys(seq!["transfer", "max_transfer_retries"]), JsonModel::Number(JsonNumber::PosInt(spec_clamp(s.transfer_max_retries as int, 0, 10) as u64)));
    let d10 = spec_set_path(d9, spec_keys(seq!["transfer", "transfer_buffer_size"]), JsonModel::Number(JsonNumber::PosInt(spec_clamp(s.transfer_buffer_size as int, 8, 256) as u64)));
    let d11 = spec_set_path(d10, spec_keys(seq!["transfer", "default_file_permissions"]), JsonModel::Str(spec_transfer_file_permissions(s.transfer_default_file_permissions@), None));
    let d12 = spec_set_path(d11, spec_keys(seq!["transfer", "preserve_timestamps"]), JsonModel::Bool(s.transfer_preserve_timestamps));
    let d13 = spec_set_path(d12, spec_keys(seq!["transfer", "resume_broken_transfer"]), JsonModel::Bool(s.transfer_resume_broken_transfer));
    assert(spec_saved_transfer_part1(d, s) == d8);
    assert(spec_saved_transfer_part2(d8, s) == d13);
    assert(spec_saved_transfer(d, s) == d13);
    lemma_set_path_then_read(d8, spec_keys(seq!["transfer", "max_transfer_retries"]), JsonModel::Number(JsonNumber::PosInt(spec_clamp(s.transfer_max_retries as int, 0, 10) as u64)));
    assert("transfer_buffer_size"@[0] != "max_transfer_retries"@[0]);
    assert(spec_keys(seq!["transfer", "transfer_buffer_size"])[1] != spec_keys(seq!["transfer", "max_transfer_retries"])[1]);
    lemma_set_path_frame(d9, spec_keys(seq!["transfer", "transfer_buffer_size"]), JsonModel::Number(JsonNumber::PosInt(spec_clamp(s.transfer_buffer_size as int, 8, 256) as u64)), spec_keys(seq!["transfer", "max_transfer_retries"]));
    assert("default_file_permissions"@.len() != "max_transfer_retries"@.len());
    assert(spec_keys(seq!["transfer", "default_file_permissions"])[1] != spec_keys(seq!["transfer", "max_transfer_retries"])[1]);
    lemma_set_path_frame(d10, spec_keys(seq!["transfer", "default_file_permissions"]), JsonModel::Str(spec_transfer_file_permissions(s.transfer_default_file_permissions@), None), spec_keys(seq!["transfer", "max_transfer_retries"]));
    assert("preserve_timestamps"@.len() != "max_transfer_retries"@.len());
    assert(spec_keys(seq!["transfer", "preserve_timestamps"])[1] != spec_keys(seq!["transfer", "max_transfer_retries"])[1]);
    lemma_set_path_frame(d11, spec_keys(seq!["transfer", "preserve_timestamps"]), JsonModel::Bool(s.transfer_preserve_timestamps), spec_keys(seq!["transfer", "max_transfer_retries"]));
    assert("resume_broken_transfer"@.len() != "max_transfer_retries"@.len());
    assert(spec_keys(seq!["transfer", "resume_broken_transfer"])[1] != spec_keys(seq!["transfer", "max_transfer_retries"])[1]);
    lemma_set_path_frame(d12, spec_keys(seq!["transfer", "resume_broken_transfer"]), JsonModel::Bool(s.transfer_resume_broken_transfer), spec_keys(seq!["transfer", "max_transfer_retries"]));
}

#[verifier::spinoff_prover]
proof fn lemma_saved_transfer_keeps_transfer_transfer_buffer_size(d: JsonModel, s: AppSettingsSummary)
    ensures
        spec_json_path(spec_saved_transfer(d, s), spec_keys(seq!["transfer", "transfer_buffer_size"])) == Some(JsonModel::Number(JsonNumber::PosInt(spec_clamp(s.transfer_buffer_size as int, 8, 256) as u64))),
{
    reveal_strlit("default_file_permissions");
    reveal_strlit("preserve_timestamps");
    reveal_strlit("resume_broken_transfer");
    reveal_strlit("transfer");
    reveal_strlit("transfer_buffer_size");
    let d1 = spec_set_path(d, spec_keys(seq!["transfer", "download_path"]), JsonModel::Str(s.transfer_download_path@, None));
    let d2 = spec_set_path(d1, spec_keys(seq!["transfer", "ask_save_location"]), JsonModel::Bool(s.transfer_ask_save_location));
    let d3 = spec_set_path(d2, spec_keys(seq!["transfer", "duplicate_strategy"]), JsonModel::Str(spec_transfer_duplicate_strategy(s.transfer_duplicate_strategy@), None));
    let d4 = spec_set_path(d3, spec_keys(seq!["transfer", "editor_type"]), JsonModel::Str(spec_transfer_editor_type(s.transfer_editor_type@), None));
    let d5 = spec_set_path(d4, spec_keys(seq!["transfer", "internal_editor_font_size"]), JsonModel::Number(JsonNumber::PosInt(spec_clamp(s.transfer_internal_editor_font_size as int, 8, 72) as u64)));
    let d6 = spec_set_path(d5, spec_keys(seq!["transfer", "default_editor"]), JsonModel::Str(s.transfer_default_editor@, None));
    let d7 = spec_set_path(d6, spec_keys(seq!["transfer", "download_threads"]), JsonModel::Number(JsonNumber::PosInt(spec_clamp(s.transfer_download_threads as int, 1, 10) as u64)));
    let d8 = spec_set_path(d7, spec_keys(seq!["transfer", "upload_threads"]), JsonModel::Number(JsonNumber::PosInt(spec_clamp(s.transfer_upload_threads as int, 1, 10) as u64)));
    let d9 = spec_set_path(d8, spec_keys(seq!["transfer", "max_transfer_retries"]), JsonModel::Number(JsonNumber::PosInt(spec_clamp(s.transfer_max_retries as int, 0, 10) as u64)));
    let d10 = spec_set_path(d9, spec_keys(seq!["transfer", "transfer_buffer_size"]), JsonModel::Number(JsonNumber::PosInt(spec_clamp(s.transfer_buffer_size as int, 8, 256) as u64)));
    let d11 = spec_set_path(d10, spec_keys(seq!["transfer", "default_file_permissions"]), JsonModel::Str(spec_transfer_file_permissions(s.transfer_default_file_permissions@), None));
    let d12 = spec_set_path(d11, spec_keys(seq!["transfer", "preserve_timestamps"]), JsonModel::Bool(s.transfer_preserve_timestamps));
    let d13 = spec_set_path(d12, spec_keys(seq!["transfer", "resume_broken_transfer"]), JsonModel::Bool(s.transfer_resume_broken_transfer));
    assert(spec_saved_transfer_part1(d, s) == d8);
    assert(spec_saved_transfer_part2(d8, s) == d13);
    assert(spec_saved_transfer(d, s) == d13);
    lemma_set_path_then_read(d9, spec_keys(seq!["transfer", "transfer_buffer_size"]), JsonModel::Number(JsonNumber::PosInt(spec_clamp(s.transfer_buffer_size as int, 8, 256) as u64)));
    assert("default_file_permissions"@.len() != "transfer_buffer_size"@.len());
    assert(spec_keys(seq!["transfer", "default_file_permissions"])[1] != spec_keys(seq!["transfer", "transfer_buffer_size"])[1]);
    lemma_set_path_frame(d10, spec_keys(seq!["transfer", "default_file_permissions"]), JsonModel::Str(spec_transfer_file_permissions(s.transfer_default_file_permissions@), None), spec_keys(seq!["transfer", "transfer_buffer_size"]));
    assert("preserve_timestamps"@.len() != "transfer_buffer_size"@.len());
    assert(spec_keys(seq!["transfer", "preserve_timestamps"])[1] != spec_keys(seq!["transfer", "transfer_buffer_size"])[1]);
    lemma_set_path_frame(d11, spec_keys(seq!["transfer", "preserve_timestamps"]), JsonModel::Bool(s.transfer_preserve_timestamps), spec_keys(seq!["transfer", "transfer_buffer_size"]));
    assert("resume_broken_transfer"@.len() != "transfer_buffer_size"@.len());
    assert(spec_keys(seq!["transfer", "resume_broken_transfer"])[1] != spec_keys(seq!["transfer", "transfer_buffer_size"])[1]);
    lemma_set_path_frame(d12, spec_keys(seq!["transfer", "resume_broken_transfer"]), JsonModel::Bool(s.transfer_resume_broken_transfer), spec_keys(seq!["transfer", "transfer_buffer_size"]));
}

#[verifier::spinoff_prover]
proof fn lemma_saved_transfer_keeps_transfer_default_file_permissions(d: JsonModel, s: AppSettingsSummary)
    ensures
        spec_json_path(spec_saved_transfer(d, s), spec_keys(seq!["transfer", "default_file_permissions"])) == Some(JsonModel::Str(spec_transfer_file_permissions(s.transfer_default_file_permissions@), None)),
{
    reveal_strlit("default_file_permissions");
    reveal_strlit("preserve_timestamps");
    reveal_strlit("resume_broken_transfer");
    reveal_strlit("transfer");
    let d1 = spec_set_path(d, spec_keys(seq!["transfer", "download_path"]), JsonModel::Str(s.transfer_download_path@, None));
    let d2 = spec_set_path(d1, spec_keys(seq!["transfer", "ask_save_location"]), JsonModel::Bool(s.transfer_ask_save_location));
    let d3 = spec_set_path(d2, spec_keys(seq!["transfer", "duplicate_strategy"]), JsonModel::Str(spec_transfer_duplicate_strategy(s.transfer_duplicate_strategy@), None));
    let d4 = spec_set_path(d3, spec_keys(seq!["transfer", "editor_type"]), JsonModel::Str(spec_transfer_editor_type(s.transfer_editor_type@), None));
    let d5 = spec_set_path(d4, spec_keys(seq!["transfer", "internal_editor_font_size"]), JsonModel::Number(JsonNumber::PosInt(spec_clamp(s.transfer_internal_editor_font_size as int, 8, 72) as u64)));
    let d6 = spec_set_path(d5, spec_keys(seq!["transfer", "default_editor"]), JsonModel::Str(s.transfer_default_editor@, None));
    let d7 = spec_set_path(d6, spec_keys(seq!["transfer", "download_threads"]), JsonModel::Number(JsonNumber::PosInt(spec_clamp(s.transfer_download_threads as int, 1, 10) as u64)));
    let d8 = spec_set_path(d7, spec_keys(seq!["transfer", "upload_threads"]), JsonModel::Number(JsonNumber::PosInt(spec_clamp(s.transfer_upload_threads as int, 1, 10) as u64)));
    let d9 = spec_set_path(d8, spec_keys(seq!["transfer", "max_transfer_retries"]), JsonModel::Number(JsonNumber::PosInt(spec_clamp(s.transfer_max_retries as int, 0, 10) as u64)));
    let d10 = spec_set_path(d9, spec_keys(seq!["transfer", "transfer_buffer_size"]), JsonModel::Number(JsonNumber::PosInt(spec_clamp(s.transfer_buffer_size as int, 8, 256) as u64)));
    let d11 = spec_set_path(d10, spec_keys(seq!["transfer", "default_file_permissions"]), JsonModel::Str(spec_transfer_file_permissions(s.transfer_default_file_permissions@), None));
    let d12 = spec_set_path(d11, spec_keys(seq!["transfer", "preserve_timestamps"]), JsonModel::Bool(s.transfer_preserve_timestamps));
    let d13 = spec_set_path(d12, spec_keys(seq!["transfer", "resume_broken_transfer"]), JsonModel::Bool(s.transfer_resume_broken_transfer));
    assert(spec_saved_transfer_part1(d, s) == d8);
    assert(spec_saved_transfer_part2(d8, s) == d13);
    assert(spec_saved_transfer(d, s) == d13);
    lemma_set_path_then_read(d10, spec_keys(seq!["transfer", "default_file_permissions"]), JsonModel::Str(spec_transfer_file_permissions(s.transfer_default_file_permissions@), None));
    assert("preserve_timestamps"@.len() != "default_file_permissions"@.len());
    assert(spec_keys(seq!["transfer", "preserve_timestamps"])[1] != spec_keys(seq!["transfer", "default_file_permissions"])[1]);
    lemma_set_path_frame(d11, spec_keys(seq!["transfer", "preserve_timestamps"]), JsonModel::Bool(s.transfer_preserve_timestamps), spec_keys(seq!["transfer", "default_file_permissions"]));
    assert("resume_broken_transfer"@.len() != "default_file_permissions"@.len());
    assert(spec_keys(seq!["transfer", "resume_broken_transfer"])[1] != spec_keys(seq!["transfer", "default_file_permissions"])[1]);
    lemma_set_path_frame(d12, spec_keys(seq!["transfer", "resume_broken_transfer"]), JsonModel::Bool(s.transfer_resume_broken_transfer), spec_keys(seq!["transfer", "default_file_permissions"]));
}

#[verifier::spinoff_prover]
proof fn lemma_saved_transfer_keeps_transfer_preserve_timestamps(d: JsonModel, s: AppSettingsSummary)
    ensures
        spec_json_path(spec_saved_transfer(d, s), spec_keys(seq!["transfer", "preserve_timestamps"])) == Some(JsonModel::Bool(s.transfer_preserve_timestamps)),
{
    reveal_strlit("preserve_timestamps");
    reveal_strlit("resume_broken_transfer");
    reveal_strlit("transfer");
    let d1 = spec_set_path(d, spec_keys(seq!["transfer", "download_path"]), JsonModel::Str(s.transfer_download_path@, None));
    let d2 = spec_set_path(d1, spec_keys(seq!["transfer", "ask_save_location"]), JsonModel::Bool(s.transfer_ask_save_location));
    let d3 = spec_set_path(d2, spec_keys(seq!["transfer", "duplicate_strategy"]), JsonModel::Str(spec_transfer_duplicate_strategy(s.transfer_duplicate_strategy@), None));
    let d4 = spec_set_path(d3, spec_keys(seq!["transfer", "editor_type"]), JsonModel::Str(spec_transfer_editor_type(s.transfer_editor_type@), None));
    let d5 = spec_set_path(d4, spec_keys(seq!["transfer", "internal_editor_font_size"]), JsonModel::Number(JsonNumber::PosInt(spec_clamp(s.transfer_internal_editor_font_size as int, 8, 72) as u64)));
    let d6 = spec_set_path(d5, spec_keys(seq!["transfer", "default_editor"]), JsonModel::Str(s.transfer_default_editor@, None));
    let d7 = spec_set_path(d6, spec_keys(seq!["transfer", "download_threads"]), JsonModel::Number(JsonNumber::PosInt(spec_clamp(s.transfer_download_threads as int, 1, 10) as u64)));
    let d8 = spec_set_path(d7, spec_keys(seq!["transfer", "upload_threads"]), JsonModel::Number(JsonNumber::PosInt(spec_clamp(s.transfer_upload_threads as int, 1, 10) as u64)));
    let d9 = spec_set_path(d8, spec_keys(seq!["transfer", "max_transfer_retries"]), JsonModel::Number(JsonNumber::PosInt(spec_clamp(s.transfer_max_retries as int, 0, 10) as u64)));
    let d10 = spec_set_path(d9, spec_keys(seq!["transfer", "transfer_buffer_size"]), JsonModel::Number(JsonNumber::PosInt(spec_clamp(s.transfer_buffer_size as int, 8, 256) as u64)));
    let d11 = spec_set_path(d10, spec_keys(seq!["transfer", "default_file_permissions"]), JsonModel::Str(spec_transfer_file_permissions(s.transfer_default_file_permissions@), None));
    let d12 = spec_set_path(d11, spec_keys(seq!["transfer", "preserve_timestamps"]), JsonModel::Bool(s.transfer_preserve_timestamps));
    let d13 = spec_set_path(d12, spec_keys(seq!["transfer", "resume_broken_transfer"]), JsonModel::Bool(s.transfer_resume_broken_transfer));
    assert(spec_saved_transfer_part1(d, s) == d8);
    assert(spec_saved_transfer_part2(d8, s) == d13);
    assert(spec_saved_transfer(d, s) == d13);
    lemma_set_path_then_read(d11, spec_keys(seq!["transfer", "preserve_timestamps"]), JsonModel::Bool(s.transfer_preserve_timestamps));
    assert("resume_broken_transfer"@.len() != "preserve_timestamps"@.len());
    assert(spec_keys(seq!["transfer", "resume_broken_transfer"])[1] != spec_keys(seq!["transfer", "preserve_timestamps"])[1]);
    lemma_set_path_frame(d12, spec_keys(seq!["transfer", "resume_broken_transfer"]), JsonModel::Bool(s.transfer_resume_broken_transfer), spec_keys(seq!["transfer", "preserve_timestamps"]));
}

#[verifier::spinoff_prover]
proof fn lemma_saved_transfer_keeps_transfer_resume_broken_transfer(d: JsonModel, s: AppSettingsSummary)
    ensures
        spec_json_path(spec_saved_transfer(d, s), spec_keys(seq!["transfer", "resume_broken_transfer"])) == Some(JsonModel::Bool(s.transfer_resume_broken_transfer)),
{
    reveal_strlit("resume_broken_transfer");
    reveal_strlit("transfer");
    let d1 = spec_set_path(d, spec_keys(seq!["transfer", "download_path"]), JsonModel::Str(s.transfer_download_path@, None));
    let d2 = spec_set_path(d1, spec_keys(seq!["transfer", "ask_save_location"]), JsonModel::Bool(s.transfer_ask_save_location));
    let d3 = spec_set_path(d2, spec_keys(seq!["transfer", "duplicate_strategy"]), JsonModel::Str(spec_transfer_duplicate_strategy(s.transfer_duplicate_strategy@), None));
    let d4 = spec_set_path(d3, spec_keys(seq!["transfer", "editor_type"]), JsonModel::Str(spec_transfer_editor_type(s.transfer_editor_type@), None));
    let d5 = spec_set_path(d4, spec_keys(seq!["transfer", "internal_editor_font_size"]), JsonModel::Number(JsonNumber::PosInt(spec_clamp(s.transfer_internal_editor_font_size as int, 8, 72) as u64)));
    let d6 = spec_set_path(d5, spec_keys(seq!["transfer", "default_editor"]), JsonModel::Str(s.transfer_default_editor@, None));
    let d7 = spec_set_path(d6, spec_keys(seq!["transfer", "download_threads"]), JsonModel::Number(JsonNumber::PosInt(spec_clamp(s.transfer_download_threads as int, 1, 10) as u64)));
    let d8 = spec_set_path(d7, spec_keys(seq!["transfer", "upload_threads"]), JsonModel::Number(JsonNumber::PosInt(spec_clamp(s.transfer_upload_threads as int, 1, 10) as u64)));
    let d9 = spec_set_path(d8, spec_keys(seq!["transfer", "max_transfer_retries"]), JsonModel::Number(JsonNumber::PosInt(spec_clamp(s.transfer_max_retries as int, 0, 10) as u64)));
    let d10 = spec_set_path(d9, spec_keys(seq!["transfer", "transfer_buffer_size"]), JsonModel::Number(JsonNumber::PosInt(spec_clamp(s.transfer_buffer_size as int, 8, 256) as u64)));
    let d11 = spec_set_path(d10, spec_keys(seq!["transfer", "default_file_permissions"]), JsonModel::Str(spec_transfer_file_permissions(s.transfer_default_file_permissions@), None));
    let d12 = spec_set_path(d11, spec_keys(seq!["transfer", "preserve_timestamps"]), JsonModel::Bool(s.transfer_preserve_timestamps));
    let d13 = spec_set_path(d12, spec_keys(seq!["transfer", "resume_broken_transfer"]), JsonModel::Bool(s.transfer_resume_broken_transfer));
    assert(spec_saved_transfer_part1(d, s) == d8);
    assert(spec_saved_transfer_part2(d8, s) == d13);
    assert(spec_saved_transfer(d, s) == d13);
    lemma_set_path_then_read(d12, spec_keys(seq!["transfer", "resume_broken_transfer"]), JsonModel::Bool(s.transfer_resume_broken_transfer));
}

/// After the file transfer settings are stored, each of them reads back from the settings
/// document as it was written.
pub proof fn lemma_saved_transfer_reads_back(d: JsonModel, s: AppSettingsSummary)
    ensures
        spec_json_path(spec_saved_transfer(d, s), spec_keys(seq!["transfer", "download_path"])) == Some(JsonModel::Str(s.transfer_download_path@, None)),
        spec_json_path(spec_saved_transfer(d, s), spec_keys(seq!["transfer", "ask_save_location"])) == Some(JsonModel::Bool(s.transfer_ask_save_location)),
        spec_json_path(spec_saved_transfer(d, s), spec_keys(seq!["transfer", "duplicate_strategy"])) == Some(JsonModel::Str(spec_transfer_duplicate_strategy(s.transfer_duplicate_strategy@), None)),
        spec_json_path(spec_saved_transfer(d, s), spec_keys(seq!["transfer", "editor_type"])) == Some(JsonModel::Str(spec_transfer_editor_type(s.transfer_editor_type@), None)),
        spec_json_path(spec_saved_transfer(d, s), spec_keys(seq!["transfer", "internal_editor_font_size"])) == Some(JsonModel::Number(JsonNumber::PosInt(spec_clamp(s.transfer_internal_editor_font_size as int, 8, 72) as u64))),
        spec_json_path(spec_saved_transfer(d, s), spec_keys(seq!["transfer", "default_editor"])) == Some(JsonModel::Str(s.transfer_default_editor@, None)),
        spec_json_path(spec_saved_transfer(d, s), spec_keys(seq!["transfer", "download_threads"])) == Some(JsonModel::Number(JsonNumber::PosInt(spec_clamp(s.transfer_download_threads as int, 1, 10) as u64))),
        spec_json_path(spec_saved_transfer(d, s), spec_keys(seq!["transfer", "upload_threads"])) == Some(JsonModel::Number(JsonNumber::PosInt(spec_clamp(s.transfer_upload_threads as int, 1, 10) as u64))),
        spec_json_path(spec_saved_transfer(d, s), spec_keys(seq!["transfer", "max_transfer_retries"])) == Some(JsonModel::Number(JsonNumber::PosInt(spec_clamp(s.transfer_max_retries as int, 0, 10) as u64))),
        spec_json_path(spec_saved_transfer(d, s), spec_keys(seq!["transfer", "transfer_buffer_size"])) == Some(JsonModel::Number(JsonNumber::PosInt(spec_clamp(s.transfer_buffer_size as int, 8, 256) as u64))),
        spec_json_path(spec_saved_transfer(d, s), spec_keys(seq!["transfer", "default_file_permissions"])) == Some(JsonModel::Str(spec_transfer_file_permissions(s.transfer_default_file_permissions@), None)),
        spec_json_path(spec_saved_transfer(d, s), spec_keys(seq!["transfer", "preserve_timestamps"])) == Some(JsonModel::Bool(s.transfer_preserve_timestamps)),
        spec_json_path(spec_saved_transfer(d, s), spec_keys(seq!["transfer", "resume_broken_transfer"])) == Some(JsonModel::Bool(s.transfer_resume_broken_transfer)),
{
    lemma_saved_transfer_keeps_transfer_download_path(d, s);
    lemma_saved_transfer_keeps_transfer_ask_save_location(d, s);
    lemma_saved_transfer_keeps_transfer_duplicate_strategy(d, s);
    lemma_saved_transfer_keeps_transfer_editor_type(d, s);
    lemma_saved_transfer_keeps_transfer_internal_editor_font_size(d, s);
    lemma_saved_transfer_keeps_transfer_default_editor(d, s);
    lemma_saved_transfer_keeps_transfer_download_threads(d, s);
    lemma_saved_transfer_keeps_transfer_upload_threads(d, s);
    lemma_saved_transfer_keeps_transfer_max_transfer_retries(d, s);
    lemma_saved_transfer_keeps_transfer_transfer_buffer_size(d, s);
    lemma_saved_transfer_keeps_transfer_default_file_permissions(d, s);
    lemma_saved_transfer_keeps_transfer_preserve_timestamps(d, s);
    lemma_saved_transfer_keeps_transfer_resume_broken_transfer(d, s);
}

} // verus!
