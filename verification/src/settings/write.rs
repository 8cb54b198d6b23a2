//! Writing one setting into the settings document: the objects along its
//! path are made where missing, and the member at its end is replaced.

use vstd::prelude::*;

use crate::settings::json::{
    json_view, lemma_member_absent, lemma_member_first, lemma_members_view_index, members_view, spec_json_get, spec_json_path, spec_keys,
    spec_member, JsonModel, JsonText, JsonValue,
};
use crate::settings::normalize::spec_eq_ignore_ascii_case;
use crate::text::str_eq;

verus! {

/// `m` with the first member named `key` given the value `v`, or with a
/// member `key: v` added at the end when there is none.
pub open spec fn spec_put_member(m: Seq<(Seq<char>, JsonModel)>, key: Seq<char>, v: JsonModel) -> Seq<
    (Seq<char>, JsonModel),
>
    decreases m.len(),
{
    if m.len() == 0 {
        seq![(key, v)]
    } else if m[0].0 == key {
        m.update(0, (key, v))
    } else {
        seq![m[0]] + spec_put_member(m.drop_first(), key, v)
    }
}

/// The members of `v` when it is an object; none otherwise.
pub open spec fn spec_members_of(v: JsonModel) -> Seq<(Seq<char>, JsonModel)> {
    match v {
        JsonModel::Object(m) => m,
        _ => Seq::empty(),
    }
}

/// `v` with the value at `path` replaced by `new`: each value along the path
/// that is not an object becomes an empty object first, and missing members
/// are added.
pub open spec fn spec_set_path(v: JsonModel, path: Seq<Seq<char>>, new: JsonModel) -> JsonModel
    decreases path.len(),
{
    if path.len() == 0 {
        new
    } else {
        let m = spec_members_of(v);
        let child = match spec_member(m, path[0]) {
            Some(c) => c,
            None => JsonModel::Null,
        };
        JsonModel::Object(spec_put_member(m, path[0], spec_set_path(child, path.drop_first(), new)))
    }
}

/// After a put, the key reads back the value put.
pub proof fn lemma_put_member_get(m: Seq<(Seq<char>, JsonModel)>, key: Seq<char>, v: JsonModel)
    ensures
        spec_member(spec_put_member(m, key, v), key) == Some(v),
    decreases m.len(),
{
    if m.len() > 0 && m[0].0 != key {
        lemma_put_member_get(m.drop_first(), key, v);
        assert((seq![m[0]] + spec_put_member(m.drop_first(), key, v)).drop_first()
            =~= spec_put_member(m.drop_first(), key, v));
    }
}

/// A put leaves every other key as it was.
pub proof fn lemma_put_member_other(
    m: Seq<(Seq<char>, JsonModel)>,
    key: Seq<char>,
    v: JsonModel,
    other: Seq<char>,
)
    requires
        other != key,
    ensures
        spec_member(spec_put_member(m, key, v), other) == spec_member(m, other),
    decreases m.len(),
{
    if m.len() == 0 {
        assert(spec_member(seq![(key, v)].drop_first(), other) is None);
    } else if m[0].0 == key {
        assert(m.update(0, (key, v)).drop_first() =~= m.drop_first());
    } else {
        lemma_put_member_other(m.drop_first(), key, v, other);
        assert((seq![m[0]] + spec_put_member(m.drop_first(), key, v)).drop_first()
            =~= spec_put_member(m.drop_first(), key, v));
    }
}

/// The value at a path, once written, reads back as written.
pub proof fn lemma_set_path_then_read(v: JsonModel, path: Seq<Seq<char>>, new: JsonModel)
    ensures
        spec_json_path(spec_set_path(v, path, new), path) == Some(new),
    decreases path.len(),
{
    if path.len() > 0 {
        let m = spec_members_of(v);
        let child = match spec_member(m, path[0]) {
            Some(c) => c,
            None => JsonModel::Null,
        };
        lemma_put_member_get(m, path[0], spec_set_path(child, path.drop_first(), new));
        lemma_set_path_then_read(child, path.drop_first(), new);
    }
}

/// Whether the paths `p` and `q` part at some key: neither is a prefix of
/// the other.
pub open spec fn paths_diverge(p: Seq<Seq<char>>, q: Seq<Seq<char>>) -> bool {
    exists|i: int| 0 <= i < p.len() && i < q.len() && p[i] != q[i]
}

/// Writing at one path leaves the value at any path that parts from it as
/// it was.
pub proof fn lemma_set_path_frame(
    v: JsonModel,
    p: Seq<Seq<char>>,
    new: JsonModel,
    q: Seq<Seq<char>>,
)
    requires
        paths_diverge(p, q),
    ensures
        spec_json_path(spec_set_path(v, p, new), q) == spec_json_path(v, q),
    decreases p.len(),
{
    let i = choose|i: int| 0 <= i < p.len() && i < q.len() && p[i] != q[i];
    let m = spec_members_of(v);
    let child = match spec_member(m, p[0]) {
        Some(c) => c,
        None => JsonModel::Null,
    };
    let written = spec_set_path(child, p.drop_first(), new);
    if p[0] != q[0] {
        lemma_put_member_other(m, p[0], written, q[0]);
        match v {
            JsonModel::Object(_) => {},
            _ => {
                assert(spec_json_get(v, q[0]) is None);
                assert(spec_member(m, q[0]) is None);
            },
        }
    } else {
        lemma_put_member_get(m, p[0], written);
        assert(p.drop_first()[i - 1] == p[i] && q.drop_first()[i - 1] == q[i]);
        lemma_set_path_frame(child, p.drop_first(), new, q.drop_first());
        match spec_member(m, p[0]) {
            Some(c) => {
                match v {
                    JsonModel::Object(_) => {},
                    _ => {
                        assert(spec_member(Seq::<(Seq<char>, JsonModel)>::empty(), p[0]) is None);
                    },
                }
            },
            None => {
                lemma_read_null_path(q.drop_first());
                match v {
                    JsonModel::Object(_) => {},
                    _ => {},
                }
            },
        }
    }
}

/// Nothing is read below `null` but `null` itself.
pub proof fn lemma_read_null_path(q: Seq<Seq<char>>)
    ensures
        q.len() > 0 ==> spec_json_path(JsonModel::Null, q) is None,
{
}

/// The first index of a member named `key` in `m`, if there is one.
pub open spec fn spec_first_index(m: Seq<(Seq<char>, JsonModel)>, key: Seq<char>, i: int) -> bool {
    0 <= i < m.len() && m[i].0 == key && forall|j: int| 0 <= j < i ==> (#[trigger] m[j]).0 != key
}

/// A put replaces the first member named `key`.
proof fn lemma_put_member_at(m: Seq<(Seq<char>, JsonModel)>, key: Seq<char>, v: JsonModel, i: int)
    requires
        spec_first_index(m, key, i),
    ensures
        spec_put_member(m, key, v) == m.update(i, (key, v)),
    decreases m.len(),
{
    if i > 0 {
        let t = m.drop_first();
        assert forall|j: int| 0 <= j < i - 1 implies (#[trigger] t[j]).0 != key by {
            assert(t[j] == m[j + 1]);
        }
        lemma_put_member_at(t, key, v, i - 1);
        assert(seq![m[0]] + t.update(i - 1, (key, v)) =~= m.update(i, (key, v)));
    }
}

/// A put of a key that no member has adds it at the end.
proof fn lemma_put_member_new(m: Seq<(Seq<char>, JsonModel)>, key: Seq<char>, v: JsonModel)
    requires
        forall|j: int| 0 <= j < m.len() ==> (#[trigger] m[j]).0 != key,
    ensures
        spec_put_member(m, key, v) == m.push((key, v)),
    decreases m.len(),
{
    if m.len() > 0 {
        let t = m.drop_first();
        assert forall|j: int| 0 <= j < t.len() implies (#[trigger] t[j]).0 != key by {
            assert(t[j] == m[j + 1]);
        }
        lemma_put_member_new(t, key, v);
        assert(seq![m[0]] + t.push((key, v)) =~= m.push((key, v)));
    }
}

/// The index of the first member named `key`, if any.
fn find_member(members: &Vec<(String, JsonValue)>, key: &str) -> (r: Option<usize>)
    ensures
        match r {
            Some(i) => spec_first_index(members_view(members@), key@, i as int),
            None => forall|j: int|
                0 <= j < members@.len() ==> (#[trigger] members_view(members@)[j]).0 != key@,
        },
{
    proof {
        lemma_members_view_index(members@);
    }
    let mut i: usize = 0;
    while i < members.len()
        invariant
            i <= members@.len(),
            members_view(members@).len() == members@.len(),
            forall|j: int|
                0 <= j < members@.len() ==> #[trigger] members_view(members@)[j] == (
                members@[j].0@, json_view(members@[j].1)),
            forall|j: int| 0 <= j < i ==> (#[trigger] members_view(members@)[j]).0 != key@,
        decreases members@.len() - i,
    {
        if str_eq(members[i].0.as_str(), key) {
            return Some(i);
        }
        i += 1;
    }
    None
}

/// Gives `key` the value `value` among `members`, as `spec_put_member` says.
pub fn put_member(members: &mut Vec<(String, JsonValue)>, key: String, value: JsonValue)
    ensures
        members_view(final(members)@) == spec_put_member(
            members_view(old(members)@),
            key@,
            json_view(value),
        ),
{
    let ghost m0 = members@;
    proof {
        lemma_members_view_index(m0);
    }
    match find_member(members, key.as_str()) {
        Some(k) => {
            let ghost kv = key@;
            let ghost entry = (key, value);
            members.remove(k);
            members.insert(k, (key, value));
            proof {
                assert(members@ =~= m0.update(k as int, entry));
                lemma_members_view_index(members@);
                lemma_put_member_at(members_view(m0), kv, json_view(entry.1), k as int);
                assert(members_view(members@) =~= members_view(m0).update(
                    k as int,
                    (kv, json_view(entry.1)),
                ));
            }
        },
        None => {
            let ghost kv = key@;
            let ghost vv = json_view(value);
            members.push((key, value));
            proof {
                lemma_put_member_new(members_view(m0), kv, vv);
                assert(members@.drop_last() =~= m0);
            }
        },
    }
}

/// `v` with the value at `path[i..]` replaced by `new_value`.
fn with_path_set(v: JsonValue, path: &[&str], i: usize, new_value: JsonValue) -> (r: JsonValue)
    requires
        i <= path@.len(),
    ensures
        json_view(r) == spec_set_path(
            json_view(v),
            spec_keys(path@).skip(i as int),
            json_view(new_value),
        ),
    decreases path@.len() - i,
{
    let ghost keys = spec_keys(path@).skip(i as int);
    if i == path.len() {
        return new_value;
    }
    assert(keys[0] == path@[i as int]@);
    assert(keys.drop_first() =~= spec_keys(path@).skip(i + 1));
    let ghost old_v = json_view(v);
    let mut members: Vec<(String, JsonValue)> = match v {
        JsonValue::Object(m) => m,
        _ => Vec::new(),
    };
    assert(members_view(members@) == spec_members_of(old_v));
    let ghost m0 = members@;
    proof {
        lemma_members_view_index(m0);
    }
    match find_member(&members, path[i]) {
        Some(k) => {
            let (key, child) = members.remove(k);
            proof {
                lemma_member_first(members_view(m0), keys[0], k as int);
            }
            let updated = with_path_set(child, path, i + 1, new_value);
            let ghost entry = (key, updated);
            members.insert(k, (key, updated));
            proof {
                assert(members@ =~= m0.update(k as int, entry));
                lemma_members_view_index(members@);
                lemma_put_member_at(
                    members_view(m0),
                    keys[0],
                    spec_set_path(
                        json_view(m0[k as int].1),
                        keys.drop_first(),
                        json_view(new_value),
                    ),
                    k as int,
                );
                assert(members_view(members@) =~= members_view(m0).update(
                    k as int,
                    (keys[0], json_view(entry.1)),
                ));
            }
        },
        None => {
            let updated = with_path_set(JsonValue::Null, path, i + 1, new_value);
            let key = String::from_str(path[i]);
            let ghost entry = (key, updated);
            members.push((key, updated));
            proof {
                lemma_member_absent(members_view(m0), keys[0]);
                lemma_put_member_new(
                    members_view(m0),
                    keys[0],
                    spec_set_path(JsonModel::Null, keys.drop_first(), json_view(new_value)),
                );
                assert(members@.drop_last() =~= m0);
            }
        },
    }
    JsonValue::Object(members)
}

/// Writes `new_value` at `path` in the settings document.
pub fn set_nested_json_value(doc: &mut JsonValue, path: &[&str], new_value: JsonValue)
    ensures
        json_view(*final(doc)) == spec_set_path(
            json_view(*old(doc)),
            spec_keys(path@),
            json_view(new_value),
        ),
{
    let mut v = JsonValue::Null;
    std::mem::swap(&mut v, doc);
    assert(spec_keys(path@).skip(0) =~= spec_keys(path@));
    *doc = with_path_set(v, path, 0, new_value);
}

/// Whether `s` is a word of ASCII letters that no float parser reads as a
/// number: not `inf`, `infinity` or `nan` in any case.
pub open spec fn spec_is_plain_word(s: Seq<char>) -> bool {
    &&& forall|i: int|
        0 <= i < s.len() ==> ('a' <= #[trigger] s[i] && s[i] <= 'z') || ('A' <= s[i] && s[i]
            <= 'Z')
    &&& !spec_eq_ignore_ascii_case(s, "inf"@)
    &&& !spec_eq_ignore_ascii_case(s, "infinity"@)
    &&& !spec_eq_ignore_ascii_case(s, "nan"@)
}

/// A JSON string holding a plain word, which reads as no number.
pub fn word_value(s: String) -> (r: JsonValue)
    requires
        spec_is_plain_word(s@),
    ensures
        json_view(r) == JsonModel::Str(s@, None),
{
    JsonValue::Str(JsonText { text: s, as_float: None })
}

/// Writes a plain word at `path` in the settings document.
pub fn set_nested_json_string(doc: &mut JsonValue, path: &[&str], new_value: String)
    requires
        spec_is_plain_word(new_value@),
    ensures
        json_view(*final(doc)) == spec_set_path(
            json_view(*old(doc)),
            spec_keys(path@),
            JsonModel::Str(new_value@, None),
        ),
{
    set_nested_json_value(doc, path, word_value(new_value));
}

/// Writes a boolean at `path` in the settings document.
pub fn set_nested_json_bool(doc: &mut JsonValue, path: &[&str], new_value: bool)
    ensures
        json_view(*final(doc)) == spec_set_path(
            json_view(*old(doc)),
            spec_keys(path@),
            JsonModel::Bool(new_value),
        ),
{
    set_nested_json_value(doc, path, JsonValue::Bool(new_value));
}

} // verus!
