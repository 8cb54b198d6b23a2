//! The settings document: a JSON value held as plain data, with the typed
//! reads and nested writes that the settings code makes of it.

use vstd::prelude::*;

use crate::text::{spec_trim, str_eq, trim};

verus! {

/// What the settings code reads from a floating-point JSON number. Float
/// arithmetic is done where the document is parsed; the fields hold its
/// plain results.
pub struct FloatReading {
    /// The number's IEEE 754 bit pattern, so that it is written back as it
    /// was read.
    pub bits: u64,
    /// `f.round() as u16` when `f` is finite and `0 <= f <= u16::MAX`.
    pub as_u16: Option<u16>,
    /// `f.round() as u32` when `f` is finite and `0 <= f <= u32::MAX`.
    pub as_u32: Option<u32>,
    /// `f.round() as u64` when `f` is finite and `0 <= f <= u64::MAX`.
    pub as_u64: Option<u64>,
    /// `f.round() as u64`, saturating (NaN gives 0).
    pub rounded_u64: u64,
    /// An opacity stored either as a 0..1 fraction or as a percentage:
    /// `(f * 100).round() as u8` when `f <= 1`, else `f.round() as u8`.
    pub percent: u8,
    /// The contrast ratio that `f` is exactly, if it is one of the offered ones.
    pub contrast: Option<ContrastRatio>,
}

/// The minimum contrast ratios that the appearance settings offer.
#[derive(Clone, Copy, Debug, PartialEq, Eq, Structural)]
pub enum ContrastRatio {
    One,
    Three,
    FourAndAHalf,
    Seven,
    TwentyOne,
}

/// A JSON number: a non-negative integer, a negative integer or a float.
pub enum JsonNumber {
    PosInt(u64),
    NegInt(i64),
    Float(FloatReading),
}

/// A JSON string, with what the text reads as when parsed as a float.
pub struct JsonText {
    pub text: String,
    pub as_float: Option<FloatReading>,
}

/// A JSON value. An object keeps its members in document order; keys are
/// unique in a parsed document, and a read finds the first member of a key.
pub enum JsonValue {
    Null,
    Bool(bool),
    Number(JsonNumber),
    Str(JsonText),
    Array(Vec<JsonValue>),
    Object(Vec<(String, JsonValue)>),
}

/// The mathematical value of a JSON document: sequences in place of vectors
/// and character sequences in place of strings.
pub enum JsonModel {
    Null,
    Bool(bool),
    Number(JsonNumber),
    Str(Seq<char>, Option<FloatReading>),
    Array(Seq<JsonModel>),
    Object(Seq<(Seq<char>, JsonModel)>),
}

/// The model of a JSON value.
pub open spec fn json_view(v: JsonValue) -> JsonModel
    decreases v, 1int,
{
    match v {
        JsonValue::Null => JsonModel::Null,
        JsonValue::Bool(b) => JsonModel::Bool(b),
        JsonValue::Number(n) => JsonModel::Number(n),
        JsonValue::Str(t) => JsonModel::Str(t.text@, t.as_float),
        JsonValue::Array(items) => JsonModel::Array(items_view(items@)),
        JsonValue::Object(m) => JsonModel::Object(members_view(m@)),
    }
}

/// The models of the items of an array.
pub open spec fn items_view(s: Seq<JsonValue>) -> Seq<JsonModel>
    decreases s, 0int,
{
    if s.len() == 0 {
        Seq::empty()
    } else {
        items_view(s.drop_last()).push(json_view(s.last()))
    }
}

/// The models of the members of an object, keys as character sequences.
pub open spec fn members_view(s: Seq<(String, JsonValue)>) -> Seq<(Seq<char>, JsonModel)>
    decreases s, 0int,
{
    if s.len() == 0 {
        Seq::empty()
    } else {
        members_view(s.drop_last()).push((s.last().0@, json_view(s.last().1)))
    }
}

/// The value of the first member named `key`.
pub open spec fn spec_member(members: Seq<(Seq<char>, JsonModel)>, key: Seq<char>) -> Option<
    JsonModel,
>
    decreases members.len(),
{
    if members.len() == 0 {
        None
    } else if members[0].0 == key {
        Some(members[0].1)
    } else {
        spec_member(members.drop_first(), key)
    }
}

/// The member `key` of an object; `None` for a missing key or a non-object.
pub open spec fn spec_json_get(v: JsonModel, key: Seq<char>) -> Option<JsonModel> {
    match v {
        JsonModel::Object(m) => spec_member(m, key),
        _ => None,
    }
}

/// The value at `path`, following object members from `v`.
pub open spec fn spec_json_path(v: JsonModel, path: Seq<Seq<char>>) -> Option<JsonModel>
    decreases path.len(),
{
    if path.len() == 0 {
        Some(v)
    } else {
        match spec_json_get(v, path[0]) {
            Some(c) => spec_json_path(c, path.drop_first()),
            None => None,
        }
    }
}

/// The keys of a path given as string slices.
pub open spec fn spec_keys(path: Seq<&str>) -> Seq<Seq<char>> {
    path.map_values(|k: &str| k@)
}

/// The member `key` of `v`, if `v` is an object that has one.
pub fn json_get<'a>(v: &'a JsonValue, key: &str) -> (r: Option<&'a JsonValue>)
    ensures
        r is Some <==> spec_json_get(json_view(*v), key@) is Some,
        r matches Some(x) ==> json_view(*x) == spec_json_get(json_view(*v), key@)->0,
{
    match v {
        JsonValue::Object(members) => {
            proof {
                lemma_members_view_index(members@);
            }
            let mut i: usize = 0;
            while i < members.len()
                invariant
                    i <= members@.len(),
                    json_view(*v) == JsonModel::Object(members_view(members@)),
                    members_view(members@).len() == members@.len(),
                    forall|j: int|
                        0 <= j < members@.len() ==> #[trigger] members_view(members@)[j] == (
                        members@[j].0@, json_view(members@[j].1)),
                    forall|j: int| 0 <= j < i ==> (#[trigger] members@[j]).0@ != key@,
                decreases members@.len() - i,
            {
                if str_eq(members[i].0.as_str(), key) {
                    proof {
                        lemma_member_first(members_view(members@), key@, i as int);
                    }
                    return Some(&members[i].1);
                }
                i += 1;
            }
            proof {
                lemma_member_absent(members_view(members@), key@);
            }
            None
        },
        _ => None,
    }
}

/// The view of the members has one entry per member, key and model.
pub proof fn lemma_members_view_index(s: Seq<(String, JsonValue)>)
    ensures
        members_view(s).len() == s.len(),
        forall|j: int|
            0 <= j < s.len() ==> #[trigger] members_view(s)[j] == (s[j].0@, json_view(s[j].1)),
    decreases s.len(),
{
    if s.len() > 0 {
        lemma_members_view_index(s.drop_last());
    }
}

/// The view of the items has one model per item.
pub proof fn lemma_items_view_index(s: Seq<JsonValue>)
    ensures
        items_view(s).len() == s.len(),
        forall|j: int| 0 <= j < s.len() ==> #[trigger] items_view(s)[j] == json_view(s[j]),
    decreases s.len(),
{
    if s.len() > 0 {
        lemma_items_view_index(s.drop_last());
    }
}

/// One more item extends the models of a prefix by that item's model.
pub proof fn lemma_items_view_step(s: Seq<JsonValue>, i: int)
    requires
        0 <= i < s.len(),
    ensures
        items_view(s.take(i + 1)) == items_view(s.take(i)).push(json_view(s[i])),
        items_view(s.take(i)).push(json_view(s[i])).drop_last() == items_view(s.take(i)),
        items_view(s.take(i)).push(json_view(s[i])).last() == json_view(s[i]),
{
    assert(s.take(i + 1).drop_last() =~= s.take(i));
    assert(items_view(s.take(i)).push(json_view(s[i])).drop_last() =~= items_view(s.take(i)));
}

/// One more member extends the models of a prefix by that member's model.
pub proof fn lemma_members_view_step(s: Seq<(String, JsonValue)>, i: int)
    requires
        0 <= i < s.len(),
    ensures
        members_view(s.take(i + 1)) == members_view(s.take(i)).push((s[i].0@, json_view(s[i].1))),
        members_view(s.take(i)).push((s[i].0@, json_view(s[i].1))).drop_last() == members_view(
            s.take(i),
        ),
        members_view(s.take(i)).push((s[i].0@, json_view(s[i].1))).last() == (
            s[i].0@,
            json_view(s[i].1),
        ),
{
    assert(s.take(i + 1).drop_last() =~= s.take(i));
    assert(members_view(s.take(i)).push((s[i].0@, json_view(s[i].1))).drop_last()
        =~= members_view(s.take(i)));
}

/// A key's first member gives its value.
pub proof fn lemma_member_first(ms: Seq<(Seq<char>, JsonModel)>, key: Seq<char>, i: int)
    requires
        0 <= i < ms.len(),
        ms[i].0 == key,
        forall|j: int| 0 <= j < i ==> (#[trigger] ms[j]).0 != key,
    ensures
        spec_member(ms, key) == Some(ms[i].1),
    decreases i,
{
    if i > 0 {
        assert forall|j: int| 0 <= j < i - 1 implies (#[trigger] ms.drop_first()[j]).0 != key by {
            assert(ms.drop_first()[j] == ms[j + 1]);
        }
        lemma_member_first(ms.drop_first(), key, i - 1);
    }
}

/// A key that no member has gives nothing.
pub proof fn lemma_member_absent(ms: Seq<(Seq<char>, JsonModel)>, key: Seq<char>)
    requires
        forall|j: int| 0 <= j < ms.len() ==> (#[trigger] ms[j]).0 != key,
    ensures
        spec_member(ms, key) is None,
    decreases ms.len(),
{
    if ms.len() > 0 {
        assert forall|j: int| 0 <= j < ms.len() - 1 implies (#[trigger] ms.drop_first()[j]).0
            != key by {
            assert(ms.drop_first()[j] == ms[j + 1]);
        }
        lemma_member_absent(ms.drop_first(), key);
    }
}

/// The value at `path` in `v`.
pub fn json_path<'a>(v: &'a JsonValue, path: &[&str]) -> (r: Option<&'a JsonValue>)
    ensures
        r is Some <==> spec_json_path(json_view(*v), spec_keys(path@)) is Some,
        r matches Some(x) ==> json_view(*x) == spec_json_path(json_view(*v), spec_keys(path@))->0,
{
    let mut cur = v;
    let mut i: usize = 0;
    assert(spec_keys(path@).skip(0) =~= spec_keys(path@));
    while i < path.len()
        invariant
            i <= path@.len(),
            spec_json_path(json_view(*v), spec_keys(path@)) == spec_json_path(
                json_view(*cur),
                spec_keys(path@).skip(i as int),
            ),
        decreases path@.len() - i,
    {
        let ghost keys = spec_keys(path@).skip(i as int);
        assert(keys.drop_first() =~= spec_keys(path@).skip(i + 1));
        assert(keys[0] == path@[i as int]@);
        match json_get(cur, path[i]) {
            Some(next) => {
                cur = next;
            },
            None => {
                return None;
            },
        }
        i += 1;
    }
    assert(spec_keys(path@).skip(i as int).len() == 0);
    Some(cur)
}

/// The text of a JSON string.
pub open spec fn spec_as_str(v: JsonModel) -> Option<Seq<char>> {
    match v {
        JsonModel::Str(t, _) => Some(t),
        _ => None,
    }
}

/// The string at `path`, if it is a non-empty string; else `fallback`.
pub open spec fn spec_json_string(doc: JsonModel, path: Seq<Seq<char>>, fallback: Seq<char>) -> Seq<
    char,
> {
    match spec_json_path(doc, path) {
        Some(v) => match spec_as_str(v) {
            Some(t) => if t.len() > 0 {
                t
            } else {
                fallback
            },
            None => fallback,
        },
        None => fallback,
    }
}

/// The trimmed string at `path`, if it is a string that is not blank.
pub open spec fn spec_json_optional_string(doc: JsonModel, path: Seq<Seq<char>>) -> Option<
    Seq<char>,
> {
    match spec_json_path(doc, path) {
        Some(v) => match spec_as_str(v) {
            Some(t) => if spec_trim(t).len() > 0 {
                Some(spec_trim(t))
            } else {
                None
            },
            None => None,
        },
        None => None,
    }
}

/// The boolean at `path`, else `fallback`.
pub open spec fn spec_json_bool(doc: JsonModel, path: Seq<Seq<char>>, fallback: bool) -> bool {
    match spec_json_path(doc, path) {
        Some(JsonModel::Bool(b)) => b,
        _ => fallback,
    }
}

/// The string at `v` as an owned copy, if `v` is a string.
pub fn as_string(v: &JsonValue) -> (r: Option<String>)
    ensures
        r is Some <==> spec_as_str(json_view(*v)) is Some,
        r matches Some(t) ==> t@ == spec_as_str(json_view(*v))->0,
{
    match v {
        JsonValue::Str(t) => Some(t.text.clone()),
        _ => None,
    }
}

/// The string at `path`, if it is a non-empty string; else `fallback`.
pub fn json_string(doc: &JsonValue, path: &[&str], fallback: &str) -> (r: String)
    ensures
        r@ == spec_json_string(json_view(*doc), spec_keys(path@), fallback@),
{
    match json_path(doc, path) {
        Some(v) => match as_string(v) {
            Some(t) => if !t.as_str().is_empty() {
                t
            } else {
                String::from_str(fallback)
            },
            None => String::from_str(fallback),
        },
        None => String::from_str(fallback),
    }
}

/// The trimmed string at `path`, if it is a string that is not blank.
pub fn json_optional_string(doc: &JsonValue, path: &[&str]) -> (r: Option<String>)
    ensures
        r is Some <==> spec_json_optional_string(json_view(*doc), spec_keys(path@)) is Some,
        r matches Some(t) ==> t@ == spec_json_optional_string(json_view(*doc), spec_keys(path@))->0,
{
    match json_path(doc, path) {
        Some(v) => match as_string(v) {
            Some(t) => {
                let trimmed = trim(t.as_str());
                if trimmed.as_str().is_empty() {
                    None
                } else {
                    Some(trimmed)
                }
            },
            None => None,
        },
        None => None,
    }
}

/// The boolean at `path`, else `fallback`.
pub fn json_bool(doc: &JsonValue, path: &[&str], fallback: bool) -> (r: bool)
    ensures
        r == spec_json_bool(json_view(*doc), spec_keys(path@), fallback),
{
    match json_path(doc, path) {
        Some(JsonValue::Bool(b)) => *b,
        _ => fallback,
    }
}

/// The `u16` at `path`, else `fallback`.
pub open spec fn spec_json_u16(doc: JsonModel, path: Seq<Seq<char>>, fallback: u16) -> u16 {
    match spec_json_path(doc, path) {
        Some(JsonModel::Number(JsonNumber::PosInt(n))) => if n <= u16::MAX {
            n as u16
        } else {
            fallback
        },
        Some(JsonModel::Number(JsonNumber::Float(f))) => match f.as_u16 {
            Some(n) => n,
            None => fallback,
        },
        _ => fallback,
    }
}

/// The `u32` at `path`, else `fallback`.
pub open spec fn spec_json_u32(doc: JsonModel, path: Seq<Seq<char>>, fallback: u32) -> u32 {
    match spec_json_path(doc, path) {
        Some(JsonModel::Number(JsonNumber::PosInt(n))) => if n <= u32::MAX {
            n as u32
        } else {
            fallback
        },
        Some(JsonModel::Number(JsonNumber::Float(f))) => match f.as_u32 {
            Some(n) => n,
            None => fallback,
        },
        _ => fallback,
    }
}

/// The `u64` at `path`, else `fallback`.
pub open spec fn spec_json_u64(doc: JsonModel, path: Seq<Seq<char>>, fallback: u64) -> u64 {
    match spec_json_path(doc, path) {
        Some(JsonModel::Number(JsonNumber::PosInt(n))) => n,
        Some(JsonModel::Number(JsonNumber::Float(f))) => match f.as_u64 {
            Some(n) => n,
            None => fallback,
        },
        _ => fallback,
    }
}

/// The `u16` at `path`: a non-negative integer that fits, or a finite float
/// in range, rounded; else `fallback`.
pub fn json_u16(doc: &JsonValue, path: &[&str], fallback: u16) -> (r: u16)
    ensures
        r == spec_json_u16(json_view(*doc), spec_keys(path@), fallback),
{
    match json_path(doc, path) {
        Some(JsonValue::Number(JsonNumber::PosInt(n))) => if *n <= 0xffff {
            *n as u16
        } else {
            fallback
        },
        Some(JsonValue::Number(JsonNumber::Float(f))) => match f.as_u16 {
            Some(n) => n,
            None => fallback,
        },
        _ => fallback,
    }
}

/// The `u32` at `path`: a non-negative integer that fits, or a finite float
/// in range, rounded; else `fallback`.
pub fn json_u32(doc: &JsonValue, path: &[&str], fallback: u32) -> (r: u32)
    ensures
        r == spec_json_u32(json_view(*doc), spec_keys(path@), fallback),
{
    match json_path(doc, path) {
        Some(JsonValue::Number(JsonNumber::PosInt(n))) => if *n <= 0xffff_ffff {
            *n as u32
        } else {
            fallback
        },
        Some(JsonValue::Number(JsonNumber::Float(f))) => match f.as_u32 {
            Some(n) => n,
            None => fallback,
        },
        _ => fallback,
    }
}

/// The `u64` at `path`: a non-negative integer, or a finite float in range,
/// rounded; else `fallback`.
pub fn json_u64(doc: &JsonValue, path: &[&str], fallback: u64) -> (r: u64)
    ensures
        r == spec_json_u64(json_view(*doc), spec_keys(path@), fallback),
{
    match json_path(doc, path) {
        Some(JsonValue::Number(JsonNumber::PosInt(n))) => *n,
        Some(JsonValue::Number(JsonNumber::Float(f))) => match f.as_u64 {
            Some(n) => n,
            None => fallback,
        },
        _ => fallback,
    }
}

/// The characters of each string.
pub open spec fn strings_view(v: Seq<String>) -> Seq<Seq<char>> {
    v.map_values(|s: String| s@)
}

/// `s` with later repeats of an entry dropped.
pub open spec fn spec_dedup(s: Seq<Seq<char>>) -> Seq<Seq<char>>
    decreases s.len(),
{
    if s.len() == 0 {
        Seq::empty()
    } else {
        let d = spec_dedup(s.drop_last());
        if d.contains(s.last()) {
            d
        } else {
            d.push(s.last())
        }
    }
}

/// The texts trimmed, blank ones dropped.
pub open spec fn spec_trimmed_nonblank(s: Seq<Seq<char>>) -> Seq<Seq<char>>
    decreases s.len(),
{
    if s.len() == 0 {
        Seq::empty()
    } else {
        let r = spec_trimmed_nonblank(s.drop_last());
        if spec_trim(s.last()).len() > 0 {
            r.push(spec_trim(s.last()))
        } else {
            r
        }
    }
}

/// At most the first `limit` entries of `s`.
pub open spec fn spec_take_at_most<T>(s: Seq<T>, limit: int) -> Seq<T> {
    if s.len() <= limit {
        s
    } else {
        s.take(limit)
    }
}

/// A list of identifiers as the settings keep it: trimmed, blank entries and
/// repeats dropped, at most `limit` of them.
pub open spec fn spec_clean_list(s: Seq<Seq<char>>, limit: int) -> Seq<Seq<char>> {
    spec_take_at_most(spec_dedup(spec_trimmed_nonblank(s)), limit)
}

/// The strings among the items of a JSON array, in order.
pub open spec fn spec_array_texts(items: Seq<JsonModel>) -> Seq<Seq<char>>
    decreases items.len(),
{
    if items.len() == 0 {
        Seq::empty()
    } else {
        let r = spec_array_texts(items.drop_last());
        match spec_as_str(items.last()) {
            Some(t) => r.push(t),
            None => r,
        }
    }
}

/// Whether `t` is among `list`.
pub fn contains_text(list: &Vec<String>, t: &String) -> (r: bool)
    ensures
        r == strings_view(list@).contains(t@),
{
    let mut i: usize = 0;
    while i < list.len()
        invariant
            i <= list@.len(),
            forall|j: int| 0 <= j < i ==> list@[j]@ != t@,
        decreases list@.len() - i,
    {
        if list[i] == *t {
            assert(strings_view(list@)[i as int] == t@);
            return true;
        }
        i += 1;
    }
    proof {
        if strings_view(list@).contains(t@) {
            let j = choose|j: int| 0 <= j < strings_view(list@).len() && strings_view(list@)[j]
                == t@;
            assert(list@[j]@ == t@);
        }
    }
    false
}

/// The texts trimmed, blank ones and repeats dropped, at most `limit` kept.
pub fn clean_list(texts: &Vec<String>, limit: usize) -> (r: Vec<String>)
    ensures
        strings_view(r@) == spec_clean_list(strings_view(texts@), limit as int),
{
    let mut out: Vec<String> = Vec::new();
    let mut i: usize = 0;
    while i < texts.len()
        invariant
            i <= texts@.len(),
            strings_view(out@) == spec_dedup(spec_trimmed_nonblank(
                strings_view(texts@).take(i as int),
            )),
        decreases texts@.len() - i,
    {
        let ghost prev = strings_view(texts@).take(i as int);
        assert(strings_view(texts@).take(i + 1).drop_last() =~= prev);
        assert(strings_view(texts@).take(i + 1).last() == texts@[i as int]@);
        let t = trim(texts[i].as_str());
        if !t.as_str().is_empty() {
            let ghost before = spec_trimmed_nonblank(prev);
            assert(spec_trimmed_nonblank(strings_view(texts@).take(i + 1)) == before.push(t@));
            assert(before.push(t@).drop_last() =~= before);
            if !contains_text(&out, &t) {
                let ghost prev_out = out@;
                let ghost tv = t@;
                out.push(t);
                assert(strings_view(out@) =~= strings_view(prev_out).push(tv));
            }
        }
        i += 1;
    }
    assert(strings_view(texts@).take(texts@.len() as int) =~= strings_view(texts@));
    let ghost full = strings_view(out@);
    if out.len() > limit {
        out.truncate(limit);
        assert(strings_view(out@) =~= full.take(limit as int));
    }
    out
}

/// The strings among `items`, in order.
pub fn array_texts(items: &Vec<JsonValue>) -> (r: Vec<String>)
    ensures
        strings_view(r@) == spec_array_texts(items_view(items@)),
{
    let mut out: Vec<String> = Vec::new();
    let mut i: usize = 0;
    while i < items.len()
        invariant
            i <= items@.len(),
            strings_view(out@) == spec_array_texts(items_view(items@.take(i as int))),
        decreases items@.len() - i,
    {
        proof {
            lemma_items_view_step(items@, i as int);
        }
        match as_string(&items[i]) {
            Some(t) => {
                let ghost prev_out = out@;
                let ghost tv = t@;
                out.push(t);
                assert(strings_view(out@) =~= strings_view(prev_out).push(tv));
            },
            None => {},
        }
        i += 1;
    }
    assert(items@.take(items@.len() as int) =~= items@);
    out
}

/// The identifier list at `path`: the strings of an array, trimmed, blank
/// ones and repeats dropped, at most `limit`; empty for anything else.
pub open spec fn spec_json_string_vec(doc: JsonModel, path: Seq<Seq<char>>, limit: int) -> Seq<
    Seq<char>,
> {
    match spec_json_path(doc, path) {
        Some(JsonModel::Array(items)) => spec_clean_list(spec_array_texts(items), limit),
        _ => Seq::empty(),
    }
}

/// The identifier list at `path`, as `spec_json_string_vec` says.
pub fn json_string_vec(doc: &JsonValue, path: &[&str], limit: usize) -> (r: Vec<String>)
    ensures
        strings_view(r@) == spec_json_string_vec(json_view(*doc), spec_keys(path@), limit as int),
{
    match json_path(doc, path) {
        Some(JsonValue::Array(items)) => {
            let texts = array_texts(items);
            clean_list(&texts, limit)
        },
        _ => {
            let r: Vec<String> = Vec::new();
            assert(strings_view(r@) =~= Seq::<Seq<char>>::empty());
            r
        },
    }
}

/// The identifier list at `path` when the document has that key at all,
/// else `default`.
pub open spec fn spec_json_string_vec_with_default(
    doc: JsonModel,
    path: Seq<Seq<char>>,
    limit: int,
    default: Seq<Seq<char>>,
) -> Seq<Seq<char>> {
    if spec_json_path(doc, path) is Some {
        spec_json_string_vec(doc, path, limit)
    } else {
        default
    }
}

/// The identifier list at `path` when the document has that key at all,
/// else `default`.
pub fn json_string_vec_with_default(
    doc: &JsonValue,
    path: &[&str],
    limit: usize,
    default: Vec<String>,
) -> (r: Vec<String>)
    ensures
        strings_view(r@) == spec_json_string_vec_with_default(
            json_view(*doc),
            spec_keys(path@),
            limit as int,
            strings_view(default@),
        ),
{
    if json_path(doc, path).is_some() {
        json_string_vec(doc, path, limit)
    } else {
        default
    }
}

/// The members of an object whose values are strings, as key/text pairs.
pub open spec fn spec_string_members(m: Seq<(Seq<char>, JsonModel)>) -> Seq<(Seq<char>, Seq<char>)>
    decreases m.len(),
{
    if m.len() == 0 {
        Seq::empty()
    } else {
        let r = spec_string_members(m.drop_last());
        match spec_as_str(m.last().1) {
            Some(t) => r.push((m.last().0, t)),
            None => r,
        }
    }
}

/// The key/text view of a list of string pairs.
pub open spec fn pairs_view(v: Seq<(String, String)>) -> Seq<(Seq<char>, Seq<char>)> {
    v.map_values(|p: (String, String)| (p.0@, p.1@))
}

/// The string-valued members of the object at `path`; empty for anything else.
pub open spec fn spec_json_string_map(doc: JsonModel, path: Seq<Seq<char>>) -> Seq<
    (Seq<char>, Seq<char>),
> {
    match spec_json_path(doc, path) {
        Some(JsonModel::Object(m)) => spec_string_members(m),
        _ => Seq::empty(),
    }
}

/// The string-valued members of the object at `path`, in document order.
pub fn json_string_map(doc: &JsonValue, path: &[&str]) -> (r: Vec<(String, String)>)
    ensures
        pairs_view(r@) == spec_json_string_map(json_view(*doc), spec_keys(path@)),
{
    let mut out: Vec<(String, String)> = Vec::new();
    match json_path(doc, path) {
        Some(JsonValue::Object(members)) => {
            let mut i: usize = 0;
            while i < members.len()
                invariant
                    i <= members@.len(),
                    pairs_view(out@) == spec_string_members(members_view(members@.take(i as int))),
                decreases members@.len() - i,
            {
                proof {
                    lemma_members_view_step(members@, i as int);
                }
                match as_string(&members[i].1) {
                    Some(t) => {
                        let ghost prev_out = out@;
                        let key = members[i].0.clone();
                        let ghost pv = (key@, t@);
                        out.push((key, t));
                        assert(pairs_view(out@) =~= pairs_view(prev_out).push(pv));
                    },
                    None => {},
                }
                i += 1;
            }
            assert(members@.take(members@.len() as int) =~= members@);
        },
        _ => {
            assert(pairs_view(out@) =~= Seq::<(Seq<char>, Seq<char>)>::empty());
        },
    }
    out
}

/// The members of an object whose values are arrays with at least one
/// usable string, each as its clean identifier list of at most `limit`.
pub open spec fn spec_list_members(m: Seq<(Seq<char>, JsonModel)>, limit: int) -> Seq<
    (Seq<char>, Seq<Seq<char>>),
>
    decreases m.len(),
{
    if m.len() == 0 {
        Seq::empty()
    } else {
        let r = spec_list_members(m.drop_last(), limit);
        match m.last().1 {
            JsonModel::Array(items) => {
                let l = spec_clean_list(spec_array_texts(items), limit);
                if l.len() > 0 {
                    r.push((m.last().0, l))
                } else {
                    r
                }
            },
            _ => r,
        }
    }
}

/// The key/list view of a list of keyed identifier lists.
pub open spec fn list_pairs_view(v: Seq<(String, Vec<String>)>) -> Seq<(Seq<char>, Seq<Seq<char>>)> {
    v.map_values(|p: (String, Vec<String>)| (p.0@, strings_view(p.1@)))
}

/// The keyed identifier lists of the object at `path`; empty for anything
/// else.
pub open spec fn spec_json_string_vec_map(doc: JsonModel, path: Seq<Seq<char>>, limit: int) -> Seq<
    (Seq<char>, Seq<Seq<char>>),
> {
    match spec_json_path(doc, path) {
        Some(JsonModel::Object(m)) => spec_list_members(m, limit),
        _ => Seq::empty(),
    }
}

/// The keyed identifier lists of the object at `path`, in document order.
pub fn json_string_vec_map(doc: &JsonValue, path: &[&str], limit_per_key: usize) -> (r: Vec<
    (String, Vec<String>),
>)
    ensures
        list_pairs_view(r@) == spec_json_string_vec_map(
            json_view(*doc),
            spec_keys(path@),
            limit_per_key as int,
        ),
{
    let mut out: Vec<(String, Vec<String>)> = Vec::new();
    match json_path(doc, path) {
        Some(JsonValue::Object(members)) => {
            let mut i: usize = 0;
            while i < members.len()
                invariant
                    i <= members@.len(),
                    list_pairs_view(out@) == spec_list_members(
                        members_view(members@.take(i as int)),
                        limit_per_key as int,
                    ),
                decreases members@.len() - i,
            {
                proof {
                    lemma_members_view_step(members@, i as int);
                }
                match &members[i].1 {
                    JsonValue::Array(items) => {
                        let texts = array_texts(items);
                        let values = clean_list(&texts, limit_per_key);
                        if values.len() > 0 {
                            let ghost prev_out = out@;
                            let key = members[i].0.clone();
                            let ghost pv = (key@, strings_view(values@));
                            out.push((key, values));
                            assert(list_pairs_view(out@) =~= list_pairs_view(prev_out).push(pv));
                        }
                    },
                    _ => {},
                }
                i += 1;
            }
            assert(members@.take(members@.len() as int) =~= members@);
        },
        _ => {
            assert(list_pairs_view(out@) =~= Seq::<(Seq<char>, Seq<Seq<char>>)>::empty());
        },
    }
    out
}

/// A JSON number read as a `u64`: a non-negative integer as it is, a
/// negative one as zero, a float rounded with saturation.
pub open spec fn spec_saturating_u64(n: JsonNumber) -> u64 {
    match n {
        JsonNumber::PosInt(v) => v,
        JsonNumber::NegInt(_) => 0,
        JsonNumber::Float(f) => f.rounded_u64,
    }
}

/// A count kept as `u32`: larger ones stop at `u32::MAX`.
pub open spec fn spec_cap_u32(n: u64) -> u32 {
    if n > u32::MAX {
        u32::MAX
    } else {
        n as u32
    }
}

/// The numeric members of an object that are positive, capped to `u32`.
pub open spec fn spec_count_members(m: Seq<(Seq<char>, JsonModel)>) -> Seq<(Seq<char>, u32)>
    decreases m.len(),
{
    if m.len() == 0 {
        Seq::empty()
    } else {
        let r = spec_count_members(m.drop_last());
        match m.last().1 {
            JsonModel::Number(n) => if spec_saturating_u64(n) > 0 {
                r.push((m.last().0, spec_cap_u32(spec_saturating_u64(n))))
            } else {
                r
            },
            _ => r,
        }
    }
}

/// The key/count view of a list of counts.
pub open spec fn counts_view(v: Seq<(String, u32)>) -> Seq<(Seq<char>, u32)> {
    v.map_values(|p: (String, u32)| (p.0@, p.1))
}

/// The positive counts in the object at `path`; empty for anything else.
pub open spec fn spec_json_u32_map(doc: JsonModel, path: Seq<Seq<char>>) -> Seq<(Seq<char>, u32)> {
    match spec_json_path(doc, path) {
        Some(JsonModel::Object(m)) => spec_count_members(m),
        _ => Seq::empty(),
    }
}

/// The positive counts in the object at `path`, in document order.
pub fn json_u32_map(doc: &JsonValue, path: &[&str]) -> (r: Vec<(String, u32)>)
    ensures
        counts_view(r@) == spec_json_u32_map(json_view(*doc), spec_keys(path@)),
{
    let mut out: Vec<(String, u32)> = Vec::new();
    match json_path(doc, path) {
        Some(JsonValue::Object(members)) => {
            let mut i: usize = 0;
            while i < members.len()
                invariant
                    i <= members@.len(),
                    counts_view(out@) == spec_count_members(members_view(members@.take(i as int))),
                decreases members@.len() - i,
            {
                proof {
                    lemma_members_view_step(members@, i as int);
                }
                match &members[i].1 {
                    JsonValue::Number(n) => {
                        let v: u64 = match n {
                            JsonNumber::PosInt(v) => *v,
                            JsonNumber::NegInt(_) => 0,
                            JsonNumber::Float(f) => f.rounded_u64,
                        };
                        if v > 0 {
                            let capped: u32 = if v > 0xffff_ffff {
                                0xffff_ffff
                            } else {
                                v as u32
                            };
                            let ghost prev_out = out@;
                            let key = members[i].0.clone();
                            let ghost pv = (key@, capped);
                            out.push((key, capped));
                            assert(counts_view(out@) =~= counts_view(prev_out).push(pv));
                        }
                    },
                    _ => {},
                }
                i += 1;
            }
            assert(members@.take(members@.len() as int) =~= members@);
        },
        _ => {
            assert(counts_view(out@) =~= Seq::<(Seq<char>, u32)>::empty());
        },
    }
    out
}

} // verus!
