//! The recording settings read back: each value that the save writes is found at
//! its place in the settings document afterwards.

use vstd::prelude::*;

use crate::settings::encode::spec_rotation_value;
use crate::settings::json::{spec_json_path, spec_keys, JsonModel, JsonNumber};

use crate::settings::recording::{spec_existing_file_behavior_value, spec_recording_mode_value, spec_recording_path_template};
use crate::settings::save::{spec_saved_recording, spec_saved_recording_part1, spec_saved_recording_part2};
use crate::settings::summary::AppSettingsSummary;
use crate::settings::write::{lemma_set_path_frame, lemma_set_path_then_read, spec_set_path};

verus! {

#[verifier::spinoff_prover]
proof fn lemma_saved_recording_keeps_recording_base_path(d: JsonModel, s: AppSettingsSummary)
    ensures
        spec_json_path(spec_saved_recording(d, s), spec_keys(seq!["recording", "base_path"])) == Some(JsonModel::Str(s.recording_path@, None)),
{
    reveal_strlit("auto_start");
    reveal_strlit("base_path");
    reveal_strlit("default_mode");
    reveal_strlit("existing_file_behavior");
    reveal_strlit("include_binary_transfer_payloads");
    reveal_strlit("include_io_labels");
    reveal_strlit("include_session_metadata");
    reveal_strlit("include_timestamps");
    reveal_strlit("memory_limit_bytes");
    reveal_strlit("path_template");
    reveal_strlit("recording");
    reveal_strlit("rotation");
    let d1 = spec_set_path(d, spec_keys(seq!["recording", "base_path"]), JsonModel::Str(s.recording_path@, None));
    let d2 = spec_set_path(d1, spec_keys(seq!["recording", "auto_start"]), JsonModel::Bool(s.recording_auto_start));
    let d3 = spec_set_path(d2, spec_keys(seq!["recording", "default_mode"]), JsonModel::Str(spec_recording_mode_value(s.recording_default_mode), None));
    let d4 = spec_set_path(d3, spec_keys(seq!["recording", "path_template"]), JsonModel::Str(spec_recording_path_template(s.recording_path_template@), None));
    let d5 = spec_set_path(d4, spec_keys(seq!["recording", "include_io_labels"]), JsonModel::Bool(s.recording_include_io_labels));
    let d6 = spec_set_path(d5, spec_keys(seq!["recording", "include_timestamps"]), JsonModel::Bool(s.recording_include_timestamps));
    let d7 = spec_set_path(d6, spec_keys(seq!["recording", "include_session_metadata"]), JsonModel::Bool(s.recording_include_session_metadata));
    let d8 = spec_set_path(d7, spec_keys(seq!["recording", "rotation"]), spec_rotation_value(s.recording_rotation));
    let d9 = spec_set_path(d8, spec_keys(seq!["recording", "existing_file_behavior"]), JsonModel::Str(spec_existing_file_behavior_value(s.recording_existing_file_behavior), None));
    let d10 = spec_set_path(d9, spec_keys(seq!["recording", "include_binary_transfer_payloads"]), JsonModel::Bool(s.recording_include_binary_transfer_payloads));
    let d11 = spec_set_path(d10, spec_keys(seq!["recording", "memory_limit_bytes"]), JsonModel::Number(JsonNumber::PosInt(s.recording_memory_limit_bytes)));
    assert(spec_saved_recording_part1(d, s) == d8);
    assert(spec_saved_recording_part2(d8, s) == d11);
    assert(spec_saved_recording(d, s) == d11);
    lemma_set_path_then_read(d, spec_keys(seq!["recording", "base_path"]), JsonModel::Str(s.recording_path@, None));
    assert("auto_start"@.len() != "base_path"@.len());
    assert(spec_keys(seq!["recording", "auto_start"])[1] != spec_keys(seq!["recording", "base_path"])[1]);
    lemma_set_path_frame(d1, spec_keys(seq!["recording", "auto_start"]), JsonModel::Bool(s.recording_auto_start), spec_keys(seq!["recording", "base_path"]));
    assert("default_mode"@.len() != "base_path"@.len());
    assert(spec_keys(seq!["recording", "default_mode"])[1] != spec_keys(seq!["recording", "base_path"])[1]);
    lemma_set_path_frame(d2, spec_keys(seq!["recording", "default_mode"]), JsonModel::Str(spec_recording_mode_value(s.recording_default_mode), None), spec_keys(seq!["recording", "base_path"]));
    assert("path_template"@.len() != "base_path"@.len());
    assert(spec_keys(seq!["recording", "path_template"])[1] != spec_keys(seq!["recording", "base_path"])[1]);
    lemma_set_path_frame(d3, spec_keys(seq!["recording", "path_template"]), JsonModel::Str(spec_recording_path_template(s.recording_path_template@), None), spec_keys(seq!["recording", "base_path"]));
    assert("include_io_labels"@.len() != "base_path"@.len());
    assert(spec_keys(seq!["recording", "include_io_labels"])[1] != spec_keys(seq!["recording", "base_path"])[1]);
    lemma_set_path_frame(d4, spec_keys(seq!["recording", "include_io_labels"]), JsonModel::Bool(s.recording_include_io_labels), spec_keys(seq!["recording", "base_path"]));
    assert("include_timestamps"@.len() != "base_path"@.len());
    assert(spec_keys(seq!["recording", "include_timestamps"])[1] != spec_keys(seq!["recording", "base_path"])[1]);
    lemma_set_path_frame(d5, spec_keys(seq!["recording", "include_timestamps"]), JsonModel::Bool(s.recording_include_timestamps), spec_keys(seq!["recording", "base_path"]));
    assert("include_session_metadata"@.len() != "base_path"@.len());
    assert(spec_keys(seq!["recording", "include_session_metadata"])[1] != spec_keys(seq!["recording", "base_path"])[1]);
    lemma_set_path_frame(d6, spec_keys(seq!["recording", "include_session_metadata"]), JsonModel::Bool(s.recording_include_session_metadata), spec_keys(seq!["recording", "base_path"]));
    assert("rotation"@.len() != "base_path"@.len());
    assert(spec_keys(seq!["recording", "rotation"])[1] != spec_keys(seq!["recording", "base_path"])[1]);
    lemma_set_path_frame(d7, spec_keys(seq!["recording", "rotation"]), spec_rotation_value(s.recording_rotation), spec_keys(seq!["recording", "base_path"]));
    assert("existing_file_behavior"@.len() != "base_path"@.len());
    assert(spec_keys(seq!["recording", "existing_file_behavior"])[1] != spec_keys(seq!["recording", "base_path"])[1]);
    lemma_set_path_frame(d8, spec_keys(seq!["recording", "existing_file_behavior"]), JsonModel::Str(spec_existing_file_behavior_value(s.recording_existing_file_behavior), None), spec_keys(seq!["recording", "base_path"]));
    assert("include_binary_transfer_payloads"@.len() != "base_path"@.len());
    assert(spec_keys(seq!["recording", "include_binary_transfer_payloads"])[1] != spec_keys(seq!["recording", "base_path"])[1]);
    lemma_set_path_frame(d9, spec_keys(seq!["recording", "include_binary_transfer_payloads"]), JsonModel::Bool(s.recording_include_binary_transfer_payloads), spec_keys(seq!["recording", "base_path"]));
    assert("memory_limit_bytes"@.len() != "base_path"@.len());
    assert(spec_keys(seq!["recording", "memory_limit_bytes"])[1] != spec_keys(seq!["recording", "base_path"])[1]);
    lemma_set_path_frame(d10, spec_keys(seq!["recording", "memory_limit_bytes"]), JsonModel::Number(JsonNumber::PosInt(s.recording_memory_limit_bytes)), spec_keys(seq!["recording", "base_path"]));
}

#[verifier::spinoff_prover]
proof fn lemma_saved_recording_keeps_recording_auto_start(d: JsonModel, s: AppSettingsSummary)
    ensures
        spec_json_path(spec_saved_recording(d, s), spec_keys(seq!["recording", "auto_start"])) == Some(JsonModel::Bool(s.recording_auto_start)),
{
    reveal_strlit("auto_start");
    reveal_strlit("default_mode");
    reveal_strlit("existing_file_behavior");
    reveal_strlit("include_binary_transfer_payloads");
    reveal_strlit("include_io_labels");
    reveal_strlit("include_session_metadata");
    reveal_strlit("include_timestamps");
    reveal_strlit("memory_limit_bytes");
    reveal_strlit("path_template");
    reveal_strlit("recording");
    reveal_strlit("rotation");
    let d1 = spec_set_path(d, spec_keys(seq!["recording", "base_path"]), JsonModel::Str(s.recording_path@, None));
    let d2 = spec_set_path(d1, spec_keys(seq!["recording", "auto_start"]), JsonModel::Bool(s.recording_auto_start));
    let d3 = spec_set_path(d2, spec_keys(seq!["recording", "default_mode"]), JsonModel::Str(spec_recording_mode_value(s.recording_default_mode), None));
    let d4 = spec_set_path(d3, spec_keys(seq!["recording", "path_template"]), JsonModel::Str(spec_recording_path_template(s.recording_path_template@), None));
    let d5 = spec_set_path(d4, spec_keys(seq!["recording", "include_io_labels"]), JsonModel::Bool(s.recording_include_io_labels));
    let d6 = spec_set_path(d5, spec_keys(seq!["recording", "include_timestamps"]), JsonModel::Bool(s.recording_include_timestamps));
    let d7 = spec_set_path(d6, spec_keys(seq!["recording", "include_session_metadata"]), JsonModel::Bool(s.recording_include_session_metadata));
    let d8 = spec_set_path(d7, spec_keys(seq!["recording", "rotation"]), spec_rotation_value(s.recording_rotation));
    let d9 = spec_set_path(d8, spec_keys(seq!["recording", "existing_file_behavior"]), JsonModel::Str(spec_existing_file_behavior_value(s.recording_existing_file_behavior), None));
    let d10 = spec_set_path(d9, spec_keys(seq!["recording", "include_binary_transfer_payloads"]), JsonModel::Bool(s.recording_include_binary_transfer_payloads));
    let d11 = spec_set_path(d10, spec_keys(seq!["recording", "memory_limit_bytes"]), JsonModel::Number(JsonNumber::PosInt(s.recording_memory_limit_bytes)));
    assert(spec_saved_recording_part1(d, s) == d8);
    assert(spec_saved_recording_part2(d8, s) == d11);
    assert(spec_saved_recording(d, s) == d11);
    lemma_set_path_then_read(d1, spec_keys(seq!["recording", "auto_start"]), JsonModel::Bool(s.recording_auto_start));
    assert("default_mode"@.len() != "auto_start"@.len());
    assert(spec_keys(seq!["recording", "default_mode"])[1] != spec_keys(seq!["recording", "auto_start"])[1]);
    lemma_set_path_frame(d2, spec_keys(seq!["recording", "default_mode"]), JsonModel::Str(spec_recording_mode_value(s.recording_default_mode), None), spec_keys(seq!["recording", "auto_start"]));
    assert("path_template"@.len() != "auto_start"@.len());
    assert(spec_keys(seq!["recording", "path_template"])[1] != spec_keys(seq!["recording", "auto_start"])[1]);
    lemma_set_path_frame(d3, spec_keys(seq!["recording", "path_template"]), JsonModel::Str(spec_recording_path_template(s.recording_path_template@), None), spec_keys(seq!["recording", "auto_start"]));
    assert("include_io_labels"@.len() != "auto_start"@.len());
    assert(spec_keys(seq!["recording", "include_io_labels"])[1] != spec_keys(seq!["recording", "auto_start"])[1]);
    lemma_set_path_frame(d4, spec_keys(seq!["recording", "include_io_labels"]), JsonModel::Bool(s.recording_include_io_labels), spec_keys(seq!["recording", "auto_start"]));
    assert("include_timestamps"@.len() != "auto_start"@.len());
    assert(spec_keys(seq!["recording", "include_timestamps"])[1] != spec_keys(seq!["recording", "auto_start"])[1]);
    lemma_set_path_frame(d5, spec_keys(seq!["recording", "include_timestamps"]), JsonModel::Bool(s.recording_include_timestamps), spec_keys(seq!["recording", "auto_start"]));
    assert("include_session_metadata"@.len() != "auto_start"@.len());
    assert(spec_keys(seq!["recording", "include_session_metadata"])[1] != spec_keys(seq!["recording", "auto_start"])[1]);
    lemma_set_path_frame(d6, spec_keys(seq!["recording", "include_session_metadata"]), JsonModel::Bool(s.recording_include_session_metadata), spec_keys(seq!["recording", "auto_start"]));
    assert("rotation"@.len() != "auto_start"@.len());
    assert(spec_keys(seq!["recording", "rotation"])[1] != spec_keys(seq!["recording", "auto_start"])[1]);
    lemma_set_path_frame(d7, spec_keys(seq!["recording", "rotation"]), spec_rotation_value(s.recording_rotation), spec_keys(seq!["recording", "auto_start"]));
    assert("existing_file_behavior"@.len() != "auto_start"@.len());
    assert(spec_keys(seq!["recording", "existing_file_behavior"])[1] != spec_keys(seq!["recording", "auto_start"])[1]);
    lemma_set_path_frame(d8, spec_keys(seq!["recording", "existing_file_behavior"]), JsonModel::Str(spec_existing_file_behavior_value(s.recording_existing_file_behavior), None), spec_keys(seq!["recording", "auto_start"]));
    assert("include_binary_transfer_payloads"@.len() != "auto_start"@.len());
    assert(spec_keys(seq!["recording", "include_binary_transfer_payloads"])[1] != spec_keys(seq!["recording", "auto_start"])[1]);
    lemma_set_path_frame(d9, spec_keys(seq!["recording", "include_binary_transfer_payloads"]), JsonModel::Bool(s.recording_include_binary_transfer_payloads), spec_keys(seq!["recording", "auto_start"]));
    assert("memory_limit_bytes"@.len() != "auto_start"@.len());
    assert(spec_keys(seq!["recording", "memory_limit_bytes"])[1] != spec_keys(seq!["recording", "auto_start"])[1]);
    lemma_set_path_frame(d10, spec_keys(seq!["recording", "memory_limit_bytes"]), JsonModel::Number(JsonNumber::PosInt(s.recording_memory_limit_bytes)), spec_keys(seq!["recording", "auto_start"]));
}

#[verifier::spinoff_prover]
proof fn lemma_saved_recording_keeps_recording_default_mode(d: JsonModel, s: AppSettingsSummary)
    ensures
        spec_json_path(spec_saved_recording(d, s), spec_keys(seq!["recording", "default_mode"])) == Some(JsonModel::Str(spec_recording_mode_value(s.recording_default_mode), None)),
{
    reveal_strlit("default_mode");
    reveal_strlit("existing_file_behavior");
    reveal_strlit("include_binary_transfer_payloads");
    reveal_strlit("include_io_labels");
    reveal_strlit("include_session_metadata");
    reveal_strlit("include_timestamps");
    reveal_strlit("memory_limit_bytes");
    reveal_strlit("path_template");
    reveal_strlit("recording");
    reveal_strlit("rotation");
    let d1 = spec_set_path(d, spec_keys(seq!["recording", "base_path"]), JsonModel::Str(s.recording_path@, None));
    let d2 = spec_set_path(d1, spec_keys(seq!["recording", "auto_start"]), JsonModel::Bool(s.recording_auto_start));
    let d3 = spec_set_path(d2, spec_keys(seq!["recording", "default_mode"]), JsonModel::Str(spec_recording_mode_value(s.recording_default_mode), None));
    let d4 = spec_set_path(d3, spec_keys(seq!["recording", "path_template"]), JsonModel::Str(spec_recording_path_template(s.recording_path_template@), None));
    let d5 = spec_set_path(d4, spec_keys(seq!["recording", "include_io_labels"]), JsonModel::Bool(s.recording_include_io_labels));
    let d6 = spec_set_path(d5, spec_keys(seq!["recording", "include_timestamps"]), JsonModel::Bool(s.recording_include_timestamps));
    let d7 = spec_set_path(d6, spec_keys(seq!["recording", "include_session_metadata"]), JsonModel::Bool(s.recording_include_session_metadata));
    let d8 = spec_set_path(d7, spec_keys(seq!["recording", "rotation"]), spec_rotation_value(s.recording_rotation));
    let d9 = spec_set_path(d8, spec_keys(seq!["recording", "existing_file_behavior"]), JsonModel::Str(spec_existing_file_behavior_value(s.recording_existing_file_behavior), None));
    let d10 = spec_set_path(d9, spec_keys(seq!["recording", "include_binary_transfer_payloads"]), JsonModel::Bool(s.recording_include_binary_transfer_payloads));
    let d11 = spec_set_path(d10, spec_keys(seq!["recording", "memory_limit_bytes"]), JsonModel::Number(JsonNumber::PosInt(s.recording_memory_limit_bytes)));
    assert(spec_saved_recording_part1(d, s) == d8);
    assert(spec_saved_recording_part2(d8, s) == d11);
    assert(spec_saved_recording(d, s) == d11);
    lemma_set_path_then_read(d2, spec_keys(seq!["recording", "default_mode"]), JsonModel::Str(spec_recording_mode_value(s.recording_default_mode), None));
    assert("path_template"@.len() != "default_mode"@.len());
    assert(spec_keys(seq!["recording", "path_template"])[1] != spec_keys(seq!["recording", "default_mode"])[1]);
    lemma_set_path_frame(d3, spec_keys(seq!["recording", "path_template"]), JsonModel::Str(spec_recording_path_template(s.recording_path_template@), None), spec_keys(seq!["recording", "default_mode"]));
    assert("include_io_labels"@.len() != "default_mode"@.len());
    assert(spec_keys(seq!["recording", "include_io_labels"])[1] != spec_keys(seq!["recording", "default_mode"])[1]);
    lemma_set_path_frame(d4, spec_keys(seq!["recording", "include_io_labels"]), JsonModel::Bool(s.recording_include_io_labels), spec_keys(seq!["recording", "default_mode"]));
    assert("include_timestamps"@.len() != "default_mode"@.len());
    assert(spec_keys(seq!["recording", "include_timestamps"])[1] != spec_keys(seq!["recording", "default_mode"])[1]);
    lemma_set_path_frame(d5, spec_keys(seq!["recording", "include_timestamps"]), JsonModel::Bool(s.recording_include_timestamps), spec_keys(seq!["recording", "default_mode"]));
    assert("include_session_metadata"@.len() != "default_mode"@.len());
    assert(spec_keys(seq!["recording", "include_session_metadata"])[1] != spec_keys(seq!["recording", "default_mode"])[1]);
    lemma_set_path_frame(d6, spec_keys(seq!["recording", "include_session_metadata"]), JsonModel::Bool(s.recording_include_session_metadata), spec_keys(seq!["recording", "default_mode"]));
    assert("rotation"@.len() != "default_mode"@.len());
    assert(spec_keys(seq!["recording", "rotation"])[1] != spec_keys(seq!["recording", "default_mode"])[1]);
    lemma_set_path_frame(d7, spec_keys(seq!["recording", "rotation"]), spec_rotation_value(s.recording_rotation), spec_keys(seq!["recording", "default_mode"]));
    assert("existing_file_behavior"@.len() != "default_mode"@.len());
    assert(spec_keys(seq!["recording", "existing_file_behavior"])[1] != spec_keys(seq!["recording", "default_mode"])[1]);
    lemma_set_path_frame(d8, spec_keys(seq!["recording", "existing_file_behavior"]), JsonModel::Str(spec_existing_file_behavior_value(s.recording_existing_file_behavior), None), spec_keys(seq!["recording", "default_mode"]));
    assert("include_binary_transfer_payloads"@.len() != "default_mode"@.len());
    assert(spec_keys(seq!["recording", "include_binary_transfer_payloads"])[1] != spec_keys(seq!["recording", "default_mode"])[1]);
    lemma_set_path_frame(d9, spec_keys(seq!["recording", "include_binary_transfer_payloads"]), JsonModel::Bool(s.recording_include_binary_transfer_payloads), spec_keys(seq!["recording", "default_mode"]));
    assert("memory_limit_bytes"@.len() != "default_mode"@.len());
    assert(spec_keys(seq!["recording", "memory_limit_bytes"])[1] != spec_keys(seq!["recording", "default_mode"])[1]);
    lemma_set_path_frame(d10, spec_keys(seq!["recording", "memory_limit_bytes"]), JsonModel::Number(JsonNumber::PosInt(s.recording_memory_limit_bytes)), spec_keys(seq!["recording", "default_mode"]));
}

#[verifier::spinoff_prover]
proof fn lemma_saved_recording_keeps_recording_path_template(d: JsonModel, s: AppSettingsSummary)
    ensures
        spec_json_path(spec_saved_recording(d, s), spec_keys(seq!["recording", "path_template"])) == Some(JsonModel::Str(spec_recording_path_template(s.recording_path_template@), None)),
{
    reveal_strlit("existing_file_behavior");
    reveal_strlit("include_binary_transfer_payloads");
    reveal_strlit("include_io_labels");
    reveal_strlit("include_session_metadata");
    reveal_strlit("include_timestamps");
    reveal_strlit("memory_limit_bytes");
    reveal_strlit("path_template");
    reveal_strlit("recording");
    reveal_strlit("rotation");
    let d1 = spec_set_path(d, spec_keys(seq!["recording", "base_path"]), JsonModel::Str(s.recording_path@, None));
    let d2 = spec_set_path(d1, spec_keys(seq!["recording", "auto_start"]), JsonModel::Bool(s.recording_auto_start));
    let d3 = spec_set_path(d2, spec_keys(seq!["recording", "default_mode"]), JsonModel::Str(spec_recording_mode_value(s.recording_default_mode), None));
    let d4 = spec_set_path(d3, spec_keys(seq!["recording", "path_template"]), JsonModel::Str(spec_recording_path_template(s.recording_path_template@), None));
    let d5 = spec_set_path(d4, spec_keys(seq!["recording", "include_io_labels"]), JsonModel::Bool(s.recording_include_io_labels));
    let d6 = spec_set_path(d5, spec_keys(seq!["recording", "include_timestamps"]), JsonModel::Bool(s.recording_include_timestamps));
    let d7 = spec_set_path(d6, spec_keys(seq!["recording", "include_session_metadata"]), JsonModel::Bool(s.recording_include_session_metadata));
    let d8 = spec_set_path(d7, spec_keys(seq!["recording", "rotation"]), spec_rotation_value(s.recording_rotation));
    let d9 = spec_set_path(d8, spec_keys(seq!["recording", "existing_file_behavior"]), JsonModel::Str(spec_existing_file_behavior_value(s.recording_existing_file_behavior), None));
    let d10 = spec_set_path(d9, spec_keys(seq!["recording", "include_binary_transfer_payloads"]), JsonModel::Bool(s.recording_include_binary_transfer_payloads));
    let d11 = spec_set_path(d10, spec_keys(seq!["recording", "memory_limit_bytes"]), JsonModel::Number(JsonNumber::PosInt(s.recording_memory_limit_bytes)));
    assert(spec_saved_recording_part1(d, s) == d8);
    assert(spec_saved_recording_part2(d8, s) == d11);
    assert(spec_saved_recording(d, s) == d11);
    lemma_set_path_then_read(d3, spec_keys(seq!["recording", "path_template"]), JsonModel::Str(spec_recording_path_template(s.recording_path_template@), None));
    assert("include_io_labels"@.len() != "path_template"@.len());
    assert(spec_keys(seq!["recording", "include_io_labels"])[1] != spec_keys(seq!["recording", "path_template"])[1]);
    lemma_set_path_frame(d4, spec_keys(seq!["recording", "include_io_labels"]), JsonModel::Bool(s.recording_include_io_labels), spec_keys(seq!["recording", "path_template"]));
    assert("include_timestamps"@.len() != "path_template"@.len());
    assert(spec_keys(seq!["recording", "include_timestamps"])[1] != spec_keys(seq!["recording", "path_template"])[1]);
    lemma_set_path_frame(d5, spec_keys(seq!["recording", "include_timestamps"]), JsonModel::Bool(s.recording_include_timestamps), spec_keys(seq!["recording", "path_template"]));
    assert("include_session_metadata"@.len() != "path_template"@.len());
    assert(spec_keys(seq!["recording", "include_session_metadata"])[1] != spec_keys(seq!["recording", "path_template"])[1]);
    lemma_set_path_frame(d6, spec_keys(seq!["recording", "include_session_metadata"]), JsonModel::Bool(s.recording_include_session_metadata), spec_keys(seq!["recording", "path_template"]));
    assert("rotation"@.len() != "path_template"@.len());
    assert(spec_keys(seq!["recording", "rotation"])[1] != spec_keys(seq!["recording", "path_template"])[1]);
    lemma_set_path_frame(d7, spec_keys(seq!["recording", "rotation"]), spec_rotation_value(s.recording_rotation), spec_keys(seq!["recording", "path_template"]));
    assert("existing_file_behavior"@.len() != "path_template"@.len());
    assert(spec_keys(seq!["recording", "existing_file_behavior"])[1] != spec_keys(seq!["recording", "path_template"])[1]);
    lemma_set_path_frame(d8, spec_keys(seq!["recording", "existing_file_behavior"]), JsonModel::Str(spec_existing_file_behavior_value(s.recording_existing_file_behavior), None), spec_keys(seq!["recording", "path_template"]));
    assert("include_binary_transfer_payloads"@.len() != "path_template"@.len());
    assert(spec_keys(seq!["recording", "include_binary_transfer_payloads"])[1] != spec_keys(seq!["recording", "path_template"])[1]);
    lemma_set_path_frame(d9, spec_keys(seq!["recording", "include_binary_transfer_payloads"]), JsonModel::Bool(s.recording_include_binary_transfer_payloads), spec_keys(seq!["recording", "path_template"]));
    assert("memory_limit_bytes"@.len() != "path_template"@.len());
    assert(spec_keys(seq!["recording", "memory_limit_bytes"])[1] != spec_keys(seq!["recording", "path_template"])[1]);
    lemma_set_path_frame(d10, spec_keys(seq!["recording", "memory_limit_bytes"]), JsonModel::Number(JsonNumber::PosInt(s.recording_memory_limit_bytes)), spec_keys(seq!["recording", "path_template"]));
}

#[verifier::spinoff_prover]
proof fn lemma_saved_recording_keeps_recording_include_io_labels(d: JsonModel, s: AppSettingsSummary)
    ensures
        spec_json_path(spec_saved_recording(d, s), spec_keys(seq!["recording", "include_io_labels"])) == Some(JsonModel::Bool(s.recording_include_io_labels)),
{
    reveal_strlit("existing_file_behavior");
    reveal_strlit("include_binary_transfer_payloads");
    reveal_strlit("include_io_labels");
    reveal_strlit("include_session_metadata");
    reveal_strlit("include_timestamps");
    reveal_strlit("memory_limit_bytes");
    reveal_strlit("recording");
    reveal_strlit("rotation");
    let d1 = spec_set_path(d, spec_keys(seq!["recording", "base_path"]), JsonModel::Str(s.recording_path@, None));
    let d2 = spec_set_path(d1, spec_keys(seq!["recording", "auto_start"]), JsonModel::Bool(s.recording_auto_start));
    let d3 = spec_set_path(d2, spec_keys(seq!["recording", "default_mode"]), JsonModel::Str(spec_recording_mode_value(s.recording_default_mode), None));
    let d4 = spec_set_path(d3, spec_keys(seq!["recording", "path_template"]), JsonModel::Str(spec_recording_path_template(s.recording_path_template@), None));
    let d5 = spec_set_path(d4, spec_keys(seq!["recording", "include_io_labels"]), JsonModel::Bool(s.recording_include_io_labels));
    let d6 = spec_set_path(d5, spec_keys(seq!["recording", "include_timestamps"]), JsonModel::Bool(s.recording_include_timestamps));
    let d7 = spec_set_path(d6, spec_keys(seq!["recording", "include_session_metadata"]), JsonModel::Bool(s.recording_include_session_metadata));
    let d8 = spec_set_path(d7, spec_keys(seq!["recording", "rotation"]), spec_rotation_value(s.recording_rotation));
    let d9 = spec_set_path(d8, spec_keys(seq!["recording", "existing_file_behavior"]), JsonModel::Str(spec_existing_file_behavior_value(s.recording_existing_file_behavior), None));
    let d10 = spec_set_path(d9, spec_keys(seq!["recording", "include_binary_transfer_payloads"]), JsonModel::Bool(s.recording_include_binary_transfer_payloads));
    let d11 = spec_set_path(d10, spec_keys(seq!["recording", "memory_limit_bytes"]), JsonModel::Number(JsonNumber::PosInt(s.recording_memory_limit_bytes)));
    assert(spec_saved_recording_part1(d, s) == d8);
    assert(spec_saved_recording_part2(d8, s) == d11);
    assert(spec_saved_recording(d, s) == d11);
    lemma_set_path_then_read(d4, spec_keys(seq!["recording", "include_io_labels"]), JsonModel::Bool(s.recording_include_io_labels));
    assert("include_timestamps"@.len() != "include_io_labels"@.len());
    assert(spec_keys(seq!["recording", "include_timestamps"])[1] != spec_keys(seq!["recording", "include_io_labels"])[1]);
    lemma_set_path_frame(d5, spec_keys(seq!["recording", "include_timestamps"]), JsonModel::Bool(s.recording_include_timestamps), spec_keys(seq!["recording", "include_io_labels"]));
    assert("include_session_metadata"@.len() != "include_io_labels"@.len());
    assert(spec_keys(seq!["recording", "include_session_metadata"])[1] != spec_keys(seq!["recording", "include_io_labels"])[1]);
    lemma_set_path_frame(d6, spec_keys(seq!["recording", "include_session_metadata"]), JsonModel::Bool(s.recording_include_session_metadata), spec_keys(seq!["recording", "include_io_labels"]));
    assert("rotation"@.len() != "include_io_labels"@.len());
    assert(spec_keys(seq!["recording", "rotation"])[1] != spec_keys(seq!["recording", "include_io_labels"])[1]);
    lemma_set_path_frame(d7, spec_keys(seq!["recording", "rotation"]), spec_rotation_value(s.recording_rotation), spec_keys(seq!["recording", "include_io_labels"]));
    assert("existing_file_behavior"@.len() != "include_io_labels"@.len());
    assert(spec_keys(seq!["recording", "existing_file_behavior"])[1] != spec_keys(seq!["recording", "include_io_labels"])[1]);
    lemma_set_path_frame(d8, spec_keys(seq!["recording", "existing_file_behavior"]), JsonModel::Str(spec_existing_file_behavior_value(s.recording_existing_file_behavior), None), spec_keys(seq!["recording", "include_io_labels"]));
    assert("include_binary_transfer_payloads"@.len() != "include_io_labels"@.len());
    assert(spec_keys(seq!["recording", "include_binary_transfer_payloads"])[1] != spec_keys(seq!["recording", "include_io_labels"])[1]);
    lemma_set_path_frame(d9, spec_keys(seq!["recording", "include_binary_transfer_payloads"]), JsonModel::Bool(s.recording_include_binary_transfer_payloads), spec_keys(seq!["recording", "include_io_labels"]));
    assert("memory_limit_bytes"@.len() != "include_io_labels"@.len());
    assert(spec_keys(seq!["recording", "memory_limit_bytes"])[1] != spec_keys(seq!["recording", "include_io_labels"])[1]);
    lemma_set_path_frame(d10, spec_keys(seq!["recording", "memory_limit_bytes"]), JsonModel::Number(JsonNumber::PosInt(s.recording_memory_limit_bytes)), spec_keys(seq!["recording", "include_io_labels"]));
}

#[verifier::spinoff_prover]
proof fn lemma_saved_recording_keeps_recording_include_timestamps(d: JsonModel, s: AppSettingsSummary)
    ensures
        spec_json_path(spec_saved_recording(d, s), spec_keys(seq!["recording", "include_timestamps"])) == Some(JsonModel::Bool(s.recording_include_timestamps)),
{
    reveal_strlit("existing_file_behavior");
    reveal_strlit("include_binary_transfer_payloads");
    reveal_strlit("include_session_metadata");
    reveal_strlit("include_timestamps");
    reveal_strlit("memory_limit_bytes");
    reveal_strlit("recording");
    reveal_strlit("rotation");
    let d1 = spec_set_path(d, spec_keys(seq!["recording", "base_path"]), JsonModel::Str(s.recording_path@, None));
    let d2 = spec_set_path(d1, spec_keys(seq!["recording", "auto_start"]), JsonModel::Bool(s.recording_auto_start));
    let d3 = spec_set_path(d2, spec_keys(seq!["recording", "default_mode"]), JsonModel::Str(spec_recording_mode_value(s.recording_default_mode), None));
    let d4 = spec_set_path(d3, spec_keys(seq!["recording", "path_template"]), JsonModel::Str(spec_recording_path_template(s.recording_path_template@), None));
    let d5 = spec_set_path(d4, spec_keys(seq!["recording", "include_io_labels"]), JsonModel::Bool(s.recording_include_io_labels));
    let d6 = spec_set_path(d5, spec_keys(seq!["recording", "include_timestamps"]), JsonModel::Bool(s.recording_include_timestamps));
    let d7 = spec_set_path(d6, spec_keys(seq!["recording", "include_session_metadata"]), JsonModel::Bool(s.recording_include_session_metadata));
    let d8 = spec_set_path(d7, spec_keys(seq!["recording", "rotation"]), spec_rotation_value(s.recording_rotation));
    let d9 = spec_set_path(d8, spec_keys(seq!["recording", "existing_file_behavior"]), JsonModel::Str(spec_existing_file_behavior_value(s.recording_existing_file_behavior), None));
    let d10 = spec_set_path(d9, spec_keys(seq!["recording", "include_binary_transfer_payloads"]), JsonModel::Bool(s.recording_include_binary_transfer_payloads));
    let d11 = spec_set_path(d10, spec_keys(seq!["recording", "memory_limit_bytes"]), JsonModel::Number(JsonNumber::PosInt(s.recording_memory_limit_bytes)));
    assert(spec_saved_recording_part1(d, s) == d8);
    assert(spec_saved_recording_part2(d8, s) == d11);
    assert(spec_saved_recording(d, s) == d11);
    lemma_set_path_then_read(d5, spec_keys(seq!["recording", "include_timestamps"]), JsonModel::Bool(s.recording_include_timestamps));
    assert("include_session_metadata"@.len() != "include_timestamps"@.len());
    assert(spec_keys(seq!["recording", "include_session_metadata"])[1] != spec_keys(seq!["recording", "include_timestamps"])[1]);
    lemma_set_path_frame(d6, spec_keys(seq!["recording", "include_session_metadata"]), JsonModel::Bool(s.recording_include_session_metadata), spec_keys(seq!["recording", "include_timestamps"]));
    assert("rotation"@.len() != "include_timestamps"@.len());
    assert(spec_keys(seq!["recording", "rotation"])[1] != spec_keys(seq!["recording", "include_timestamps"])[1]);
    lemma_set_path_frame(d7, spec_keys(seq!["recording", "rotation"]), spec_rotation_value(s.recording_rotation), spec_keys(seq!["recording", "include_timestamps"]));
    assert("existing_file_behavior"@.len() != "include_timestamps"@.len());
    assert(spec_keys(seq!["recording", "existing_file_behavior"])[1] != spec_keys(seq!["recording", "include_timestamps"])[1]);
    lemma_set_path_frame(d8, spec_keys(seq!["recording", "existing_file_behavior"]), JsonModel::Str(spec_existing_file_behavior_value(s.recording_existing_file_behavior), None), spec_keys(seq!["recording", "include_timestamps"]));
    assert("include_binary_transfer_payloads"@.len() != "include_timestamps"@.len());
    assert(spec_keys(seq!["recording", "include_binary_transfer_payloads"])[1] != spec_keys(seq!["recording", "include_timestamps"])[1]);
    lemma_set_path_frame(d9, spec_keys(seq!["recording", "include_binary_transfer_payloads"]), JsonModel::Bool(s.recording_include_binary_transfer_payloads), spec_keys(seq!["recording", "include_timestamps"]));
    assert("memory_limit_bytes"@[0] != "include_timestamps"@[0]);
    assert(spec_keys(seq!["recording", "memory_limit_bytes"])[1] != spec_keys(seq!["recording", "include_timestamps"])[1]);
    lemma_set_path_frame(d10, spec_keys(seq!["recording", "memory_limit_bytes"]), JsonModel::Number(JsonNumber::PosInt(s.recording_memory_limit_bytes)), spec_keys(seq!["recording", "include_timestamps"]));
}

#[verifier::spinoff_prover]
proof fn lemma_saved_recording_keeps_recording_include_session_metadata(d: JsonModel, s: AppSettingsSummary)
    ensures
        spec_json_path(spec_saved_recording(d, s), spec_keys(seq!["recording", "include_session_metadata"])) == Some(JsonModel::Bool(s.recording_include_session_metadata)),
{
    reveal_strlit("existing_file_behavior");
    reveal_strlit("include_binary_transfer_payloads");
    reveal_strlit("include_session_metadata");
    reveal_strlit("memory_limit_bytes");
    reveal_strlit("recording");
    reveal_strlit("rotation");
    let d1 = spec_set_path(d, spec_keys(seq!["recording", "base_path"]), JsonModel::Str(s.recording_path@, None));
    let d2 = spec_set_path(d1, spec_keys(seq!["recording", "auto_start"]), JsonModel::Bool(s.recording_auto_start));
    let d3 = spec_set_path(d2, spec_keys(seq!["recording", "default_mode"]), JsonModel::Str(spec_recording_mode_value(s.recording_default_mode), None));
    let d4 = spec_set_path(d3, spec_keys(seq!["recording", "path_template"]), JsonModel::Str(spec_recording_path_template(s.recording_path_template@), None));
    let d5 = spec_set_path(d4, spec_keys(seq!["recording", "include_io_labels"]), JsonModel::Bool(s.recording_include_io_labels));
    let d6 = spec_set_path(d5, spec_keys(seq!["recording", "include_timestamps"]), JsonModel::Bool(s.recording_include_timestamps));
    let d7 = spec_set_path(d6, spec_keys(seq!["recording", "include_session_metadata"]), JsonModel::Bool(s.recording_include_session_metadata));
    let d8 = spec_set_path(d7, spec_keys(seq!["recording", "rotation"]), spec_rotation_value(s.recording_rotation));
    let d9 = spec_set_path(d8, spec_keys(seq!["recording", "existing_file_behavior"]), JsonModel::Str(spec_existing_file_behavior_value(s.recording_existing_file_behavior), None));
    let d10 = spec_set_path(d9, spec_keys(seq!["recording", "include_binary_transfer_payloads"]), JsonModel::Bool(s.recording_include_binary_transfer_payloads));
    let d11 = spec_set_path(d10, spec_keys(seq!["recording", "memory_limit_bytes"]), JsonModel::Number(JsonNumber::PosInt(s.recording_memory_limit_bytes)));
    assert(spec_saved_recording_part1(d, s) == d8);
    assert(spec_saved_recording_part2(d8, s) == d11);
    assert(spec_saved_recording(d, s) == d11);
    lemma_set_path_then_read(d6, spec_keys(seq!["recording", "include_session_metadata"]), JsonModel::Bool(s.recording_include_session_metadata));
    assert("rotation"@.len() != "include_session_metadata"@.len());
    assert(spec_keys(seq!["recording", "rotation"])[1] != spec_keys(seq!["recording", "include_session_metadata"])[1]);
    lemma_set_path_frame(d7, spec_keys(seq!["recording", "rotation"]), spec_rotation_value(s.recording_rotation), spec_keys(seq!["recording", "include_session_metadata"]));
    assert("existing_file_behavior"@.len() != "include_session_metadata"@.len());
    assert(spec_keys(seq!["recording", "existing_file_behavior"])[1] != spec_keys(seq!["recording", "include_session_metadata"])[1]);
    lemma_set_path_frame(d8, spec_keys(seq!["recording", "existing_file_behavior"]), JsonModel::Str(spec_existing_file_behavior_value(s.recording_existing_file_behavior), None), spec_keys(seq!["recording", "include_session_metadata"]));
    assert("include_binary_transfer_payloads"@.len() != "include_session_metadata"@.len());
    assert(spec_keys(seq!["recording", "include_binary_transfer_payloads"])[1] != spec_keys(seq!["recording", "include_session_metadata"])[1]);
    lemma_set_path_frame(d9, spec_keys(seq!["recording", "include_binary_transfer_payloads"]), JsonModel::Bool(s.recording_include_binary_transfer_payloads), spec_keys(seq!["recording", "include_session_metadata"]));
    assert("memory_limit_bytes"@.len() != "include_session_metadata"@.len());
    assert(spec_keys(seq!["recording", "memory_limit_bytes"])[1] != spec_keys(seq!["recording", "include_session_metadata"])[1]);
    lemma_set_path_frame(d10, spec_keys(seq!["recording", "memory_limit_bytes"]), JsonModel::Number(JsonNumber::PosInt(s.recording_memory_limit_bytes)), spec_keys(seq!["recording", "include_session_metadata"]));
}

#[verifier::spinoff_prover]
proof fn lemma_saved_recording_keeps_recording_rotation(d: JsonModel, s: AppSettingsSummary)
    ensures
        spec_json_path(spec_saved_recording(d, s), spec_keys(seq!["recording", "rotation"])) == Some(spec_rotation_value(s.recording_rotation)),
{
    reveal_strlit("existing_file_behavior");
    reveal_strlit("include_binary_transfer_payloads");
    reveal_strlit("memory_limit_bytes");
    reveal_strlit("recording");
    reveal_strlit("rotation");
    let d1 = spec_set_path(d, spec_keys(seq!["recording", "base_path"]), JsonModel::Str(s.recording_path@, None));
    let d2 = spec_set_path(d1, spec_keys(seq!["recording", "auto_start"]), JsonModel::Bool(s.recording_auto_start));
    let d3 = spec_set_path(d2, spec_keys(seq!["recording", "default_mode"]), JsonModel::Str(spec_recording_mode_value(s.recording_default_mode), None));
    let d4 = spec_set_path(d3, spec_keys(seq!["recording", "path_template"]), JsonModel::Str(spec_recording_path_template(s.recording_path_template@), None));
    let d5 = spec_set_path(d4, spec_keys(seq!["recording", "include_io_labels"]), JsonModel::Bool(s.recording_include_io_labels));
    let d6 = spec_set_path(d5, spec_keys(seq!["recording", "include_timestamps"]), JsonModel::Bool(s.recording_include_timestamps));
    let d7 = spec_set_path(d6, spec_keys(seq!["recording", "include_session_metadata"]), JsonModel::Bool(s.recording_include_session_metadata));
    let d8 = spec_set_path(d7, spec_keys(seq!["recording", "rotation"]), spec_rotation_value(s.recording_rotation));
    let d9 = spec_set_path(d8, spec_keys(seq!["recording", "existing_file_behavior"]), JsonModel::Str(spec_existing_file_behavior_value(s.recording_existing_file_behavior), None));
    let d10 = spec_set_path(d9, spec_keys(seq!["recording", "include_binary_transfer_payloads"]), JsonModel::Bool(s.recording_include_binary_transfer_payloads));
    let d11 = spec_set_path(d10, spec_keys(seq!["recording", "memory_limit_bytes"]), JsonModel::Number(JsonNumber::PosInt(s.recording_memory_limit_bytes)));
    assert(spec_saved_recording_part1(d, s) == d8);
    assert(spec_saved_recording_part2(d8, s) == d11);
    assert(spec_saved_recording(d, s) == d11);
    lemma_set_path_then_read(d7, spec_keys(seq!["recording", "rotation"]), spec_rotation_value(s.recording_rotation));
    assert("existing_file_behavior"@.len() != "rotation"@.len());
    assert(spec_keys(seq!["recording", "existing_file_behavior"])[1] != spec_keys(seq!["recording", "rotation"])[1]);
    lemma_set_path_frame(d8, spec_keys(seq!["recording", "existing_file_behavior"]), JsonModel::Str(spec_existing_file_behavior_value(s.recording_existing_file_behavior), None), spec_keys(seq!["recording", "rotation"]));
    assert("include_binary_transfer_payloads"@.len() != "rotation"@.len());
    assert(spec_keys(seq!["recording", "include_binary_transfer_payloads"])[1] != spec_keys(seq!["recording", "rotation"])[1]);
    lemma_set_path_frame(d9, spec_keys(seq!["recording", "include_binary_transfer_payloads"]), JsonModel::Bool(s.recording_include_binary_transfer_payloads), spec_keys(seq!["recording", "rotation"]));
    assert("memory_limit_bytes"@.len() != "rotation"@.len());
    assert(spec_keys(seq!["recording", "memory_limit_bytes"])[1] != spec_keys(seq!["recording", "rotation"])[1]);
    lemma_set_path_frame(d10, spec_keys(seq!["recording", "memory_limit_bytes"]), JsonModel::Number(JsonNumber::PosInt(s.recording_memory_limit_bytes)), spec_keys(seq!["recording", "rotation"]));
}

#[verifier::spinoff_prover]
proof fn lemma_saved_recording_keeps_recording_existing_file_behavior(d: JsonModel, s: AppSettingsSummary)
    ensures
        spec_json_path(spec_saved_recording(d, s), spec_keys(seq!["recording", "existing_file_behavior"])) == Some(JsonModel::Str(spec_existing_file_behavior_value(s.recording_existing_file_behavior), None)),
{
    reveal_strlit("existing_file_behavior");
    reveal_strlit("include_binary_transfer_payloads");
    reveal_strlit("memory_limit_bytes");
    reveal_strlit("recording");
    let d1 = spec_set_path(d, spec_keys(seq!["recording", "base_path"]), JsonModel::Str(s.recording_path@, None));
    let d2 = spec_set_path(d1, spec_keys(seq!["recording", "auto_start"]), JsonModel::Bool(s.recording_auto_start));
    let d3 = spec_set_path(d2, spec_keys(seq!["recording", "default_mode"]), JsonModel::Str(spec_recording_mode_value(s.recording_default_mode), None));
    let d4 = spec_set_path(d3, spec_keys(seq!["recording", "path_template"]), JsonModel::Str(spec_recording_path_template(s.recording_path_template@), None));
    let d5 = spec_set_path(d4, spec_keys(seq!["recording", "include_io_labels"]), JsonModel::Bool(s.recording_include_io_labels));
    let d6 = spec_set_path(d5, spec_keys(seq!["recording", "include_timestamps"]), JsonModel::Bool(s.recording_include_timestamps));
    let d7 = spec_set_path(d6, spec_keys(seq!["recording", "include_session_metadata"]), JsonModel::Bool(s.recording_include_session_metadata));
    let d8 = spec_set_path(d7, spec_keys(seq!["recording", "rotation"]), spec_rotation_value(s.recording_rotation));
    let d9 = spec_set_path(d8, spec_keys(seq!["recording", "existing_file_behavior"]), JsonModel::Str(spec_existing_file_behavior_value(s.recording_existing_file_behavior), None));
    let d10 = spec_set_path(d9, spec_keys(seq!["recording", "include_binary_transfer_payloads"]), JsonModel::Bool(s.recording_include_binary_transfer_payloads));
    let d11 = spec_set_path(d10, spec_keys(seq!["recording", "memory_limit_bytes"]), JsonModel::Number(JsonNumber::PosInt(s.recording_memory_limit_bytes)));
    assert(spec_saved_recording_part1(d, s) == d8);
    assert(spec_saved_recording_part2(d8, s) == d11);
    assert(spec_saved_recording(d, s) == d11);
    lemma_set_path_then_read(d8, spec_keys(seq!["recording", "existing_file_behavior"]), JsonModel::Str(spec_existing_file_behavior_value(s.recording_existing_file_behavior), None));
    assert("include_binary_transfer_payloads"@.len() != "existing_file_behavior"@.len());
    assert(spec_keys(seq!["recording", "include_binary_transfer_payloads"])[1] != spec_keys(seq!["recording", "existing_file_behavior"])[1]);
    lemma_set_path_frame(d9, spec_keys(seq!["recording", "include_binary_transfer_payloads"]), JsonModel::Bool(s.recording_include_binary_transfer_payloads), spec_keys(seq!["recording", "existing_file_behavior"]));
    assert("memory_limit_bytes"@.len() != "existing_file_behavior"@.len());
    assert(spec_keys(seq!["recording", "memory_limit_bytes"])[1] != spec_keys(seq!["recording", "existing_file_behavior"])[1]);
    lemma_set_path_frame(d10, spec_keys(seq!["recording", "memory_limit_bytes"]), JsonModel::Number(JsonNumber::PosInt(s.recording_memory_limit_bytes)), spec_keys(seq!["recording", "existing_file_behavior"]));
}

#[verifier::spinoff_prover]
proof fn lemma_saved_recording_keeps_recording_include_binary_transfer_payloads(d: JsonModel, s: AppSettingsSummary)
    ensures
        spec_json_path(spec_saved_recording(d, s), spec_keys(seq!["recording", "include_binary_transfer_payloads"])) == Some(JsonModel::Bool(s.recording_include_binary_transfer_payloads)),
{
    reveal_strlit("include_binary_transfer_payloads");
    reveal_strlit("memory_limit_bytes");
    reveal_strlit("recording");
    let d1 = spec_set_path(d, spec_keys(seq!["recording", "base_path"]), JsonModel::Str(s.recording_path@, None));
    let d2 = spec_set_path(d1, spec_keys(seq!["recording", "auto_start"]), JsonModel::Bool(s.recording_auto_start));
    let d3 = spec_set_path(d2, spec_keys(seq!["recording", "default_mode"]), JsonModel::Str(spec_recording_mode_value(s.recording_default_mode), None));
    let d4 = spec_set_path(d3, spec_keys(seq!["recording", "path_template"]), JsonModel::Str(spec_recording_path_template(s.recording_path_template@), None));
    let d5 = spec_set_path(d4, spec_keys(seq!["recording", "include_io_labels"]), JsonModel::Bool(s.recording_include_io_labels));
    let d6 = spec_set_path(d5, spec_keys(seq!["recording", "include_timestamps"]), JsonModel::Bool(s.recording_include_timestamps));
    let d7 = spec_set_path(d6, spec_keys(seq!["recording", "include_session_metadata"]), JsonModel::Bool(s.recording_include_session_metadata));
    let d8 = spec_set_path(d7, spec_keys(seq!["recording", "rotation"]), spec_rotation_value(s.recording_rotation));
    let d9 = spec_set_path(d8, spec_keys(seq!["recording", "existing_file_behavior"]), JsonModel::Str(spec_existing_file_behavior_value(s.recording_existing_file_behavior), None));
    let d10 = spec_set_path(d9, spec_keys(seq!["recording", "include_binary_transfer_payloads"]), JsonModel::Bool(s.recording_include_binary_transfer_payloads));
    let d11 = spec_set_path(d10, spec_keys(seq!["recording", "memory_limit_bytes"]), JsonModel::Number(JsonNumber::PosInt(s.recording_memory_limit_bytes)));
    assert(spec_saved_recording_part1(d, s) == d8);
    assert(spec_saved_recording_part2(d8, s) == d11);
    assert(spec_saved_recording(d, s) == d11);
    lemma_set_path_then_read(d9, spec_keys(seq!["recording", "include_binary_transfer_payloads"]), JsonModel::Bool(s.recording_include_binary_transfer_payloads));
    assert("memory_limit_bytes"@.len() != "include_binary_transfer_payloads"@.len());
    assert(spec_keys(seq!["recording", "memory_limit_bytes"])[1] != spec_keys(seq!["recording", "include_binary_transfer_payloads"])[1]);
    lemma_set_path_frame(d10, spec_keys(seq!["recording", "memory_limit_bytes"]), JsonModel::Number(JsonNumber::PosInt(s.recording_memory_limit_bytes)), spec_keys(seq!["recording", "include_binary_transfer_payloads"]));
}

#[verifier::spinoff_prover]
proof fn lemma_saved_recording_keeps_recording_memory_limit_bytes(d: JsonModel, s: AppSettingsSummary)
    ensures
        spec_json_path(spec_saved_recording(d, s), spec_keys(seq!["recording", "memory_limit_bytes"])) == Some(JsonModel::Number(JsonNumber::PosInt(s.recording_memory_limit_bytes))),
{
    reveal_strlit("memory_limit_bytes");
    reveal_strlit("recording");
    let d1 = spec_set_path(d, spec_keys(seq!["recording", "base_path"]), JsonModel::Str(s.recording_path@, None));
    let d2 = spec_set_path(d1, spec_keys(seq!["recording", "auto_start"]), JsonModel::Bool(s.recording_auto_start));
    let d3 = spec_set_path(d2, spec_keys(seq!["recording", "default_mode"]), JsonModel::Str(spec_recording_mode_value(s.recording_default_mode), None));
    let d4 = spec_set_path(d3, spec_keys(seq!["recording", "path_template"]), JsonModel::Str(spec_recording_path_template(s.recording_path_template@), None));
    let d5 = spec_set_path(d4, spec_keys(seq!["recording", "include_io_labels"]), JsonModel::Bool(s.recording_include_io_labels));
    let d6 = spec_set_path(d5, spec_keys(seq!["recording", "include_timestamps"]), JsonModel::Bool(s.recording_include_timestamps));
    let d7 = spec_set_path(d6, spec_keys(seq!["recording", "include_session_metadata"]), JsonModel::Bool(s.recording_include_session_metadata));
    let d8 = spec_set_path(d7, spec_keys(seq!["recording", "rotation"]), spec_rotation_value(s.recording_rotation));
    let d9 = spec_set_path(d8, spec_keys(seq!["recording", "existing_file_behavior"]), JsonModel::Str(spec_existing_file_behavior_value(s.recording_existing_file_behavior), None));
    let d10 = spec_set_path(d9, spec_keys(seq!["recording", "include_binary_transfer_payloads"]), JsonModel::Bool(s.recording_include_binary_transfer_payloads));
    let d11 = spec_set_path(d10, spec_keys(seq!["recording", "memory_limit_bytes"]), JsonModel::Number(JsonNumber::PosInt(s.recording_memory_limit_bytes)));
    assert(spec_saved_recording_part1(d, s) == d8);
    assert(spec_saved_recording_part2(d8, s) == d11);
    assert(spec_saved_recording(d, s) == d11);
    lemma_set_path_then_read(d10, spec_keys(seq!["recording", "memory_limit_bytes"]), JsonModel::Number(JsonNumber::PosInt(s.recording_memory_limit_bytes)));
}

/// After the session-recording settings are stored, each of them reads back from the settings
/// document as it was written.
pub proof fn lemma_saved_recording_reads_back(d: JsonModel, s: AppSettingsSummary)
    ensures
        spec_json_path(spec_saved_recording(d, s), spec_keys(seq!["recording", "base_path"])) == Some(JsonModel::Str(s.recording_path@, None)),
        spec_json_path(spec_saved_recording(d, s), spec_keys(seq!["recording", "auto_start"])) == Some(JsonModel::Bool(s.recording_auto_start)),
        spec_json_path(spec_saved_recording(d, s), spec_keys(seq!["recording", "default_mode"])) == Some(JsonModel::Str(spec_recording_mode_value(s.recording_default_mode), None)),
        spec_json_path(spec_saved_recording(d, s), spec_keys(seq!["recording", "path_template"])) == Some(JsonModel::Str(spec_recording_path_template(s.recording_path_template@), None)),
        spec_json_path(spec_saved_recording(d, s), spec_keys(seq!["recording", "include_io_labels"])) == Some(JsonModel::Bool(s.recording_include_io_labels)),
        spec_json_path(spec_saved_recording(d, s), spec_keys(seq!["recording", "include_timestamps"])) == Some(JsonModel::Bool(s.recording_include_timestamps)),
        spec_json_path(spec_saved_recording(d, s), spec_keys(seq!["recording", "include_session_metadata"])) == Some(JsonModel::Bool(s.recording_include_session_metadata)),
        spec_json_path(spec_saved_recording(d, s), spec_keys(seq!["recording", "rotation"])) == Some(spec_rotation_value(s.recording_rotation)),
        spec_json_path(spec_saved_recording(d, s), spec_keys(seq!["recording", "existing_file_behavior"])) == Some(JsonModel::Str(spec_existing_file_behavior_value(s.recording_existing_file_behavior), None)),
        spec_json_path(spec_saved_recording(d, s), spec_keys(seq!["recording", "include_binary_transfer_payloads"])) == Some(JsonModel::Bool(s.recording_include_binary_transfer_payloads)),
        spec_json_path(spec_saved_recording(d, s), spec_keys(seq!["recording", "memory_limit_bytes"])) == Some(JsonModel::Number(JsonNumber::PosInt(s.recording_memory_limit_bytes))),
{
    lemma_saved_recording_keeps_recording_base_path(d, s);
    lemma_saved_recording_keeps_recording_auto_start(d, s);
    lemma_saved_recording_keeps_recording_default_mode(d, s);
    lemma_saved_recording_keeps_recording_path_template(d, s);
    lemma_saved_recording_keeps_recording_include_io_labels(d, s);
    lemma_saved_recording_keeps_recording_include_timestamps(d, s);
    lemma_saved_recording_keeps_recording_include_session_metadata(d, s);
    lemma_saved_recording_keeps_recording_rotation(d, s);
    lemma_saved_recording_keeps_recording_existing_file_behavior(d, s);
    lemma_saved_recording_keeps_recording_include_binary_transfer_payloads(d, s);
    lemma_saved_recording_keeps_recording_memory_limit_bytes(d, s);
}

} // verus!
