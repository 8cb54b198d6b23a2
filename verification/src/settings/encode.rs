//! The JSON values that settings are stored as.

use vstd::prelude::*;

use crate::settings::json::{
    clean_list, items_view, json_view, lemma_items_view_index, lemma_members_view_index,
    members_view, spec_clean_list, strings_view, JsonModel, JsonNumber, JsonText, JsonValue,
};
use crate::settings::links::{engines_view, ActionLinksMatcherSettings, SearchEngineConfig, SearchEngineView};
use crate::settings::recording::RecordingRotationPolicy;
use crate::settings::write::{put_member, spec_put_member};
use crate::text::{spec_trim, trim};

verus! {

/// A JSON string holding `s`. Text written here carries no number reading:
/// only the minimum contrast setting is read as a number, and it is never
/// written as text.
pub fn text_value(s: String) -> (r: JsonValue)
    ensures
        json_view(r) == JsonModel::Str(s@, None),
{
    JsonValue::Str(JsonText { text: s, as_float: None })
}

/// A JSON number holding `n`.
pub fn number_value(n: u64) -> (r: JsonValue)
    ensures
        json_view(r) == JsonModel::Number(JsonNumber::PosInt(n)),
{
    JsonValue::Number(JsonNumber::PosInt(n))
}

/// The model of a JSON array of strings.
pub open spec fn spec_text_array(texts: Seq<Seq<char>>) -> JsonModel {
    JsonModel::Array(texts.map_values(|t: Seq<char>| JsonModel::Str(t, None)))
}

/// A JSON array of the strings of `texts`.
pub fn text_array(texts: Vec<String>) -> (r: JsonValue)
    ensures
        json_view(r) == spec_text_array(strings_view(texts@)),
{
    let mut items: Vec<JsonValue> = Vec::new();
    let mut rest = texts;
    let ghost orig = rest@;
    let n = rest.len();
    let mut i: usize = 0;
    while rest.len() > 0
        invariant
            i + rest@.len() == orig.len(),
            orig.len() == n,
            rest@ == orig.skip(i as int),
            items@.len() == i,
            forall|j: int| 0 <= j < i ==> json_view(#[trigger] items@[j]) == JsonModel::Str(orig[j]@, None),
        decreases rest@.len(),
    {
        let t = rest.remove(0);
        assert(t == orig[i as int]);
        assert(orig.skip(i as int).drop_first() =~= orig.skip(i + 1));
        items.push(text_value(t));
        i += 1;
    }
    proof {
        lemma_items_view_index(items@);
        assert(items_view(items@) =~= strings_view(orig).map_values(
            |t: Seq<char>| JsonModel::Str(t, None),
        ));
    }
    JsonValue::Array(items)
}

/// A list of identifiers as stored: trimmed, blank entries and repeats
/// dropped, at most `limit` kept.
pub fn string_vec_json_value(values: &Vec<String>, limit: usize) -> (r: JsonValue)
    ensures
        json_view(r) == spec_text_array(spec_clean_list(strings_view(values@), limit as int)),
{
    text_array(clean_list(values, limit))
}

/// The members of keyed identifier lists as stored: keys trimmed, entries
/// with a blank key or an empty clean list skipped, a key given twice keeping
/// its first place and its last list.
pub open spec fn spec_list_map_members(
    m: Seq<(Seq<char>, Seq<Seq<char>>)>,
    limit: int,
) -> Seq<(Seq<char>, JsonModel)>
    decreases m.len(),
{
    if m.len() == 0 {
        Seq::empty()
    } else {
        let r = spec_list_map_members(m.drop_last(), limit);
        let key = spec_trim(m.last().0);
        let values = spec_clean_list(m.last().1, limit);
        if key.len() == 0 || values.len() == 0 {
            r
        } else {
            spec_put_member(r, key, spec_text_array(values))
        }
    }
}

/// The key/list view of keyed identifier lists.
pub open spec fn list_map_view(v: Seq<(String, Vec<String>)>) -> Seq<(Seq<char>, Seq<Seq<char>>)> {
    v.map_values(|p: (String, Vec<String>)| (p.0@, strings_view(p.1@)))
}

/// Keyed identifier lists as stored.
pub fn string_vec_map_json_value(map: &Vec<(String, Vec<String>)>, limit_per_key: usize) -> (r:
    JsonValue)
    ensures
        json_view(r) == JsonModel::Object(
            spec_list_map_members(list_map_view(map@), limit_per_key as int),
        ),
{
    let ghost mv = list_map_view(map@);
    let mut members: Vec<(String, JsonValue)> = Vec::new();
    let mut i: usize = 0;
    while i < map.len()
        invariant
            i <= map@.len(),
            mv == list_map_view(map@),
            members_view(members@) == spec_list_map_members(mv.take(i as int), limit_per_key as int),
        decreases map@.len() - i,
    {
        assert(mv.take(i + 1).drop_last() =~= mv.take(i as int));
        assert(mv.take(i + 1).last() == mv[i as int]);
        let key = trim(map[i].0.as_str());
        let values = clean_list(&map[i].1, limit_per_key);
        if !key.as_str().is_empty() && values.len() > 0 {
            let ghost vv = strings_view(values@);
            let arr = text_array(values);
            put_member(&mut members, key, arr);
        }
        i += 1;
    }
    assert(mv.take(map@.len() as int) =~= mv);
    JsonValue::Object(members)
}

/// The members of positive counts as stored: zeros skipped, a key given
/// twice keeping its first place and its last count.
pub open spec fn spec_count_map_members(m: Seq<(Seq<char>, u32)>) -> Seq<(Seq<char>, JsonModel)>
    decreases m.len(),
{
    if m.len() == 0 {
        Seq::empty()
    } else {
        let r = spec_count_map_members(m.drop_last());
        if m.last().1 > 0 {
            spec_put_member(r, m.last().0, JsonModel::Number(JsonNumber::PosInt(m.last().1 as u64)))
        } else {
            r
        }
    }
}

/// Positive counts as stored.
pub fn u32_map_json_value(map: &Vec<(String, u32)>) -> (r: JsonValue)
    ensures
        json_view(r) == JsonModel::Object(
            spec_count_map_members(crate::settings::json::counts_view(map@)),
        ),
{
    let ghost mv = crate::settings::json::counts_view(map@);
    let mut members: Vec<(String, JsonValue)> = Vec::new();
    let mut i: usize = 0;
    while i < map.len()
        invariant
            i <= map@.len(),
            mv == crate::settings::json::counts_view(map@),
            members_view(members@) == spec_count_map_members(mv.take(i as int)),
        decreases map@.len() - i,
    {
        assert(mv.take(i + 1).drop_last() =~= mv.take(i as int));
        assert(mv.take(i + 1).last() == mv[i as int]);
        if map[i].1 > 0 {
            put_member(&mut members, map[i].0.clone(), number_value(map[i].1 as u64));
        }
        i += 1;
    }
    assert(mv.take(map@.len() as int) =~= mv);
    JsonValue::Object(members)
}

/// The members of string pairs as stored, a key given twice keeping its
/// first place and its last value.
pub open spec fn spec_string_map_members(m: Seq<(Seq<char>, Seq<char>)>) -> Seq<(Seq<char>, JsonModel)>
    decreases m.len(),
{
    if m.len() == 0 {
        Seq::empty()
    } else {
        spec_put_member(
            spec_string_map_members(m.drop_last()),
            m.last().0,
            JsonModel::Str(m.last().1, None),
        )
    }
}

/// String pairs as stored, every key and value kept verbatim.
pub fn string_map_json_value(map: &Vec<(String, String)>) -> (r: JsonValue)
    ensures
        json_view(r) == JsonModel::Object(
            spec_string_map_members(crate::settings::json::pairs_view(map@)),
        ),
{
    let ghost mv = crate::settings::json::pairs_view(map@);
    let mut members: Vec<(String, JsonValue)> = Vec::new();
    let mut i: usize = 0;
    while i < map.len()
        invariant
            i <= map@.len(),
            mv == crate::settings::json::pairs_view(map@),
            members_view(members@) == spec_string_map_members(mv.take(i as int)),
        decreases map@.len() - i,
    {
        assert(mv.take(i + 1).drop_last() =~= mv.take(i as int));
        assert(mv.take(i + 1).last() == mv[i as int]);
        put_member(&mut members, map[i].0.clone(), text_value(map[i].1.clone()));
        i += 1;
    }
    assert(mv.take(map@.len() as int) =~= mv);
    JsonValue::Object(members)
}

/// The model of an object with the given members, in order.
pub open spec fn spec_object(m: Seq<(Seq<char>, JsonModel)>) -> JsonModel {
    JsonModel::Object(m)
}

/// The model of a stored rotation policy.
pub open spec fn spec_rotation_value(r: RecordingRotationPolicy) -> JsonModel {
    match r {
        RecordingRotationPolicy::Session => spec_object(seq![("type"@, JsonModel::Str("session"@, None))]),
        RecordingRotationPolicy::Daily => spec_object(seq![("type"@, JsonModel::Str("daily"@, None))]),
        RecordingRotationPolicy::Size { max_bytes } => spec_object(
            seq![
                ("type"@, JsonModel::Str("size"@, None)),
                ("max_bytes"@, JsonModel::Number(JsonNumber::PosInt(if max_bytes == 0 {
                    1
                } else {
                    max_bytes
                }))),
            ],
        ),
    }
}

/// An object made of the given members.
fn object_of(members: Vec<(String, JsonValue)>) -> (r: JsonValue)
    ensures
        json_view(r) == JsonModel::Object(members_view(members@)),
{
    JsonValue::Object(members)
}

/// A rotation policy as stored; a size limit is at least one byte.
pub fn recording_rotation_value(rotation: &RecordingRotationPolicy) -> (r: JsonValue)
    ensures
        json_view(r) == spec_rotation_value(*rotation),
{
    let mut members: Vec<(String, JsonValue)> = Vec::new();
    match rotation {
        RecordingRotationPolicy::Session => {
            members.push((String::from_str("type"), text_value(String::from_str("session"))));
        },
        RecordingRotationPolicy::Daily => {
            members.push((String::from_str("type"), text_value(String::from_str("daily"))));
        },
        RecordingRotationPolicy::Size { max_bytes } => {
            members.push((String::from_str("type"), text_value(String::from_str("size"))));
            let limit = if *max_bytes == 0 {
                1
            } else {
                *max_bytes
            };
            members.push((String::from_str("max_bytes"), number_value(limit)));
        },
    }
    proof {
        lemma_members_view_index(members@);
    }
    assert(members_view(members@) =~= spec_members_of_rotation(*rotation));
    object_of(members)
}

/// The members of a stored rotation policy.
pub open spec fn spec_members_of_rotation(r: RecordingRotationPolicy) -> Seq<(Seq<char>, JsonModel)> {
    match spec_rotation_value(r) {
        JsonModel::Object(m) => m,
        _ => Seq::empty(),
    }
}

/// The model of the stored action-link kinds.
pub open spec fn spec_matchers_value(m: ActionLinksMatcherSettings) -> JsonModel {
    spec_object(
        seq![
            ("ipv4"@, JsonModel::Bool(m.ipv4)),
            ("archive"@, JsonModel::Bool(m.archive)),
            ("host_port"@, JsonModel::Bool(m.host_port)),
        ],
    )
}

/// The action-link kinds as stored.
pub fn matchers_value(m: &ActionLinksMatcherSettings) -> (r: JsonValue)
    ensures
        json_view(r) == spec_matchers_value(*m),
{
    let mut members: Vec<(String, JsonValue)> = Vec::new();
    members.push((String::from_str("ipv4"), JsonValue::Bool(m.ipv4)));
    members.push((String::from_str("archive"), JsonValue::Bool(m.archive)));
    members.push((String::from_str("host_port"), JsonValue::Bool(m.host_port)));
    proof {
        lemma_members_view_index(members@);
    }
    assert(members_view(members@) =~= seq![
        ("ipv4"@, JsonModel::Bool(m.ipv4)),
        ("archive"@, JsonModel::Bool(m.archive)),
        ("host_port"@, JsonModel::Bool(m.host_port)),
    ]);
    object_of(members)
}

/// The model of a stored search engine; a missing icon is `null`.
pub open spec fn spec_engine_value(e: SearchEngineView) -> JsonModel {
    spec_object(
        seq![
            ("name"@, JsonModel::Str(e.name, None)),
            ("url_template"@, JsonModel::Str(e.url_template, None)),
            ("icon"@, match e.icon {
                Some(i) => JsonModel::Str(i, None),
                None => JsonModel::Null,
            }),
            ("show_in_menu"@, JsonModel::Bool(e.show_in_menu)),
        ],
    )
}

/// The model of the stored search engines.
pub open spec fn spec_engines_value(engines: Seq<SearchEngineView>) -> JsonModel {
    JsonModel::Array(engines.map_values(|e: SearchEngineView| spec_engine_value(e)))
}

/// One search engine as stored.
fn engine_value(e: &SearchEngineConfig) -> (r: JsonValue)
    ensures
        json_view(r) == spec_engine_value(e@),
{
    let mut members: Vec<(String, JsonValue)> = Vec::new();
    members.push((String::from_str("name"), text_value(e.name.clone())));
    members.push((String::from_str("url_template"), text_value(e.url_template.clone())));
    let icon = match &e.icon {
        Some(i) => text_value(i.clone()),
        None => JsonValue::Null,
    };
    members.push((String::from_str("icon"), icon));
    members.push((String::from_str("show_in_menu"), JsonValue::Bool(e.show_in_menu)));
    let ghost ev = e@;
    let ghost expected = seq![
        ("name"@, JsonModel::Str(ev.name, None)),
        ("url_template"@, JsonModel::Str(ev.url_template, None)),
        ("icon"@, match ev.icon {
            Some(i) => JsonModel::Str(i, None),
            None => JsonModel::Null,
        }),
        ("show_in_menu"@, JsonModel::Bool(ev.show_in_menu)),
    ];
    proof {
        lemma_members_view_index(members@);
    }
    assert(members_view(members@) =~= expected);
    object_of(members)
}

/// The search engines as stored.
pub fn search_engines_to_json(engines: &Vec<SearchEngineConfig>) -> (r: JsonValue)
    ensures
        json_view(r) == spec_engines_value(engines_view(engines@)),
{
    let mut items: Vec<JsonValue> = Vec::new();
    let mut i: usize = 0;
    while i < engines.len()
        invariant
            i <= engines@.len(),
            items@.len() == i,
            forall|j: int| 0 <= j < i ==> json_view(#[trigger] items@[j]) == spec_engine_value(engines@[j]@),
        decreases engines@.len() - i,
    {
        items.push(engine_value(&engines[i]));
        i += 1;
    }
    proof {
        lemma_items_view_index(items@);
        assert(items_view(items@) =~= engines_view(engines@).map_values(
            |e: SearchEngineView| spec_engine_value(e),
        ));
    }
    JsonValue::Array(items)
}

} // verus!
