//! The session-recording settings: what a recording holds, where it goes and
//! when it starts a new file.

use vstd::prelude::*;

use crate::settings::json::{
    json_get, json_path, json_string, json_view, spec_as_str, spec_json_get, spec_json_path,
    spec_json_string, spec_keys, JsonModel, JsonNumber, JsonValue,
};
use crate::text::{spec_trim, str_eq, trim};

verus! {

/// Where recordings go when no template is set, relative to the base path.
pub const DEFAULT_RECORDING_PATH_TEMPLATE: &'static str = "{date}/{host}-{time}.log";

/// The size at which a size-rotated recording starts a new file when none is
/// set: 50 MiB.
pub const DEFAULT_ROTATION_MAX_BYTES: u64 = 52428800;

/// What a recording keeps.
#[derive(Clone, Copy, Debug, PartialEq, Eq, Structural)]
pub enum RecordingMode {
    /// The text as the terminal showed it.
    Transcript,
    /// The bytes as they went through.
    Raw,
}

/// What a new recording does with a file that is already there.
#[derive(Clone, Copy, Debug, PartialEq, Eq, Structural)]
pub enum ExistingFileBehavior {
    /// Pick a name that is not taken.
    Unique,
    /// Write on at its end.
    Append,
    /// Replace it.
    Overwrite,
}

/// When a recording starts a new file.
#[derive(Clone, Copy, Debug, PartialEq, Eq, Structural)]
pub enum RecordingRotationPolicy {
    /// One file per session.
    Session,
    /// A new file each day.
    Daily,
    /// A new file once this many bytes are written.
    Size { max_bytes: u64 },
}

/// The path of a setting in the `recording` section.
pub open spec fn recording_path(key: &str) -> Seq<Seq<char>> {
    spec_keys(seq!["recording", key])
}

/// The stored recording mode: `raw`, else a transcript.
pub open spec fn spec_recording_mode(doc: JsonModel) -> RecordingMode {
    if spec_json_string(doc, recording_path("default_mode"), "transcript"@) == "raw"@ {
        RecordingMode::Raw
    } else {
        RecordingMode::Transcript
    }
}

/// Reads the recording mode from the settings document.
pub fn load_recording_mode(doc: &JsonValue) -> (r: RecordingMode)
    ensures
        r == spec_recording_mode(json_view(*doc)),
{
    let raw = json_string(doc, &["recording", "default_mode"], "transcript");
    if str_eq(raw.as_str(), "raw") {
        RecordingMode::Raw
    } else {
        RecordingMode::Transcript
    }
}

/// The name under which a recording mode is stored.
pub open spec fn spec_recording_mode_value(mode: RecordingMode) -> Seq<char> {
    match mode {
        RecordingMode::Transcript => "transcript"@,
        RecordingMode::Raw => "raw"@,
    }
}

/// The name under which a recording mode is stored.
pub fn recording_mode_value(mode: RecordingMode) -> (r: &'static str)
    ensures
        r@ == spec_recording_mode_value(mode),
{
    match mode {
        RecordingMode::Transcript => "transcript",
        RecordingMode::Raw => "raw",
    }
}

/// The stored behaviour for an existing file: `append`, `overwrite`, else a
/// unique name.
pub open spec fn spec_existing_file_behavior(doc: JsonModel) -> ExistingFileBehavior {
    let raw = spec_json_string(doc, recording_path("existing_file_behavior"), "unique"@);
    if raw == "append"@ {
        ExistingFileBehavior::Append
    } else if raw == "overwrite"@ {
        ExistingFileBehavior::Overwrite
    } else {
        ExistingFileBehavior::Unique
    }
}

/// Reads the behaviour for an existing file from the settings document.
pub fn load_existing_file_behavior(doc: &JsonValue) -> (r: ExistingFileBehavior)
    ensures
        r == spec_existing_file_behavior(json_view(*doc)),
{
    let raw = json_string(doc, &["recording", "existing_file_behavior"], "unique");
    if str_eq(raw.as_str(), "append") {
        ExistingFileBehavior::Append
    } else if str_eq(raw.as_str(), "overwrite") {
        ExistingFileBehavior::Overwrite
    } else {
        ExistingFileBehavior::Unique
    }
}

/// The name under which an existing-file behaviour is stored.
pub open spec fn spec_existing_file_behavior_value(behavior: ExistingFileBehavior) -> Seq<char> {
    match behavior {
        ExistingFileBehavior::Unique => "unique"@,
        ExistingFileBehavior::Append => "append"@,
        ExistingFileBehavior::Overwrite => "overwrite"@,
    }
}

/// The name under which an existing-file behaviour is stored.
pub fn existing_file_behavior_value(behavior: ExistingFileBehavior) -> (r: &'static str)
    ensures
        r@ == spec_existing_file_behavior_value(behavior),
{
    match behavior {
        ExistingFileBehavior::Unique => "unique",
        ExistingFileBehavior::Append => "append",
        ExistingFileBehavior::Overwrite => "overwrite",
    }
}

/// The rotation type stored in a rotation object; `session` when it names
/// none.
pub open spec fn spec_rotation_type(raw: JsonModel) -> Seq<char> {
    match spec_json_get(raw, "type"@) {
        Some(v) => match spec_as_str(v) {
            Some(t) => t,
            None => "session"@,
        },
        None => "session"@,
    }
}

/// The size limit stored in a rotation object, at least one byte; 50 MiB
/// when it holds no non-negative integer.
pub open spec fn spec_rotation_max_bytes(raw: JsonModel) -> u64 {
    match spec_json_get(raw, "max_bytes"@) {
        Some(JsonModel::Number(JsonNumber::PosInt(n))) => if n == 0 {
            1
        } else {
            n
        },
        _ => DEFAULT_ROTATION_MAX_BYTES,
    }
}

/// The stored rotation policy: `daily`, `size` with its limit, else one file
/// per session.
pub open spec fn spec_recording_rotation(doc: JsonModel) -> RecordingRotationPolicy {
    match spec_json_path(doc, recording_path("rotation")) {
        Some(raw) => {
            let ty = spec_rotation_type(raw);
            if ty == "daily"@ {
                RecordingRotationPolicy::Daily
            } else if ty == "size"@ {
                RecordingRotationPolicy::Size { max_bytes: spec_rotation_max_bytes(raw) }
            } else {
                RecordingRotationPolicy::Session
            }
        },
        None => RecordingRotationPolicy::Session,
    }
}

/// Reads the rotation policy from the settings document.
pub fn load_recording_rotation(doc: &JsonValue) -> (r: RecordingRotationPolicy)
    ensures
        r == spec_recording_rotation(json_view(*doc)),
{
    let raw = match json_path(doc, &["recording", "rotation"]) {
        Some(raw) => raw,
        None => {
            return RecordingRotationPolicy::Session;
        },
    };
    let is_daily;
    let is_size;
    match json_get(raw, "type") {
        Some(JsonValue::Str(t)) => {
            is_daily = str_eq(t.text.as_str(), "daily");
            is_size = str_eq(t.text.as_str(), "size");
        },
        _ => {
            proof {
                reveal_strlit("session");
                reveal_strlit("daily");
                reveal_strlit("size");
                assert("session"@.len() != "daily"@.len());
                assert("session"@.len() != "size"@.len());
            }
            is_daily = false;
            is_size = false;
        },
    }
    if is_daily {
        RecordingRotationPolicy::Daily
    } else if is_size {
        let max_bytes: u64 = match json_get(raw, "max_bytes") {
            Some(JsonValue::Number(JsonNumber::PosInt(n))) => if *n == 0 {
                1
            } else {
                *n
            },
            _ => DEFAULT_ROTATION_MAX_BYTES,
        };
        RecordingRotationPolicy::Size { max_bytes }
    } else {
        RecordingRotationPolicy::Session
    }
}

/// The path template: trimmed; the default when blank.
pub open spec fn spec_recording_path_template(template: Seq<char>) -> Seq<char> {
    if spec_trim(template).len() == 0 {
        DEFAULT_RECORDING_PATH_TEMPLATE@
    } else {
        spec_trim(template)
    }
}

/// Reads a stored path template.
pub fn normalize_recording_path_template(template: &str) -> (r: String)
    ensures
        r@ == spec_recording_path_template(template@),
{
    let t = trim(template);
    if t.as_str().is_empty() {
        String::from_str(DEFAULT_RECORDING_PATH_TEMPLATE)
    } else {
        t
    }
}

} // verus!
