//! The activity bars on both sides of the window: which entries sit in which
//! of their four zones, in what order, and which are hidden.

use vstd::prelude::*;

use crate::settings::json::{contains_text, strings_view};
use crate::settings::summary::{
    default_activity_left_bottom, default_activity_left_top, default_activity_right_bottom,
    default_activity_right_top, spec_default_activity_left_bottom, spec_default_activity_left_top,
    spec_default_activity_right_bottom, spec_default_activity_right_top,
};
use crate::text::str_eq;

verus! {

/// One of the four groups of entries on the activity bars.
#[derive(Clone, Copy, Debug, PartialEq, Eq, Structural)]
pub enum ActivityBarZone {
    LeftTop,
    LeftBottom,
    RightTop,
    RightBottom,
}

impl ActivityBarZone {
    /// Every zone, in the order the layout is walked.
    pub fn all() -> (r: [Self; 4])
        ensures
            r@ == seq![
                ActivityBarZone::LeftTop,
                ActivityBarZone::LeftBottom,
                ActivityBarZone::RightTop,
                ActivityBarZone::RightBottom,
            ],
    {
        let r = [
            ActivityBarZone::LeftTop,
            ActivityBarZone::LeftBottom,
            ActivityBarZone::RightTop,
            ActivityBarZone::RightBottom,
        ];
        assert(r@ =~= seq![
            ActivityBarZone::LeftTop,
            ActivityBarZone::LeftBottom,
            ActivityBarZone::RightTop,
            ActivityBarZone::RightBottom,
        ]);
        r
    }
}

/// A side of the window.
#[derive(Clone, Copy, Debug, PartialEq, Eq, Structural)]
pub enum PanelSide {
    Left,
    Right,
}

/// The side of the window that a zone is on.
pub open spec fn spec_zone_side(zone: ActivityBarZone) -> PanelSide {
    match zone {
        ActivityBarZone::LeftTop | ActivityBarZone::LeftBottom => PanelSide::Left,
        ActivityBarZone::RightTop | ActivityBarZone::RightBottom => PanelSide::Right,
    }
}

/// The side of the window that a zone is on.
pub fn activity_zone_side(zone: ActivityBarZone) -> (r: PanelSide)
    ensures
        r == spec_zone_side(zone),
{
    match zone {
        ActivityBarZone::LeftTop | ActivityBarZone::LeftBottom => PanelSide::Left,
        ActivityBarZone::RightTop | ActivityBarZone::RightBottom => PanelSide::Right,
    }
}

/// The entries of each zone, by persistence id, and which are hidden.
pub struct ActivityBarLayout {
    pub left_top: Vec<String>,
    pub left_bottom: Vec<String>,
    pub right_top: Vec<String>,
    pub right_bottom: Vec<String>,
    pub show_labels: bool,
    pub hidden_items: Vec<String>,
}

impl ActivityBarLayout {
    /// The ids of `zone`.
    pub open spec fn zone_view(&self, zone: ActivityBarZone) -> Seq<Seq<char>> {
        match zone {
            ActivityBarZone::LeftTop => strings_view(self.left_top@),
            ActivityBarZone::LeftBottom => strings_view(self.left_bottom@),
            ActivityBarZone::RightTop => strings_view(self.right_top@),
            ActivityBarZone::RightBottom => strings_view(self.right_bottom@),
        }
    }

    /// The ids of `zone`.
    pub fn zone(&self, zone: ActivityBarZone) -> (r: &Vec<String>)
        ensures
            strings_view(r@) == self.zone_view(zone),
    {
        match zone {
            ActivityBarZone::LeftTop => &self.left_top,
            ActivityBarZone::LeftBottom => &self.left_bottom,
            ActivityBarZone::RightTop => &self.right_top,
            ActivityBarZone::RightBottom => &self.right_bottom,
        }
    }

    /// Whether `id` is hidden from the bars.
    pub fn is_hidden(&self, id: &String) -> (r: bool)
        ensures
            r == strings_view(self.hidden_items@).contains(id@),
    {
        contains_text(&self.hidden_items, id)
    }
}

/// The layout a new installation starts with: every entry shown, in its
/// default zone.
pub open spec fn is_default_layout(l: ActivityBarLayout) -> bool {
    &&& l.zone_view(ActivityBarZone::LeftTop) == spec_default_activity_left_top()
    &&& l.zone_view(ActivityBarZone::LeftBottom) == spec_default_activity_left_bottom()
    &&& l.zone_view(ActivityBarZone::RightTop) == spec_default_activity_right_top()
    &&& l.zone_view(ActivityBarZone::RightBottom) == spec_default_activity_right_bottom()
    &&& !l.show_labels
    &&& l.hidden_items@.len() == 0
}

impl Default for ActivityBarLayout {
    fn default() -> (r: Self)
        ensures
            is_default_layout(r),
    {
        ActivityBarLayout {
            left_top: default_activity_left_top(),
            left_bottom: default_activity_left_bottom(),
            right_top: default_activity_right_top(),
            right_bottom: default_activity_right_bottom(),
            show_labels: false,
            hidden_items: Vec::new(),
        }
    }
}

/// The default ids of `zone`.
pub open spec fn spec_default_zone(zone: ActivityBarZone) -> Seq<Seq<char>> {
    match zone {
        ActivityBarZone::LeftTop => spec_default_activity_left_top(),
        ActivityBarZone::LeftBottom => spec_default_activity_left_bottom(),
        ActivityBarZone::RightTop => spec_default_activity_right_top(),
        ActivityBarZone::RightBottom => spec_default_activity_right_bottom(),
    }
}

/// The id an entry goes by now: `keyManagement` was renamed `securityAuth`.
pub open spec fn spec_alias(id: Seq<char>) -> Seq<char> {
    if id == "keyManagement"@ {
        "securityAuth"@
    } else {
        id
    }
}

/// The id an entry goes by now.
pub fn current_id(id: &String) -> (r: String)
    ensures
        r@ == spec_alias(id@),
{
    if str_eq(id.as_str(), "keyManagement") {
        String::from_str("securityAuth")
    } else {
        id.clone()
    }
}

/// The ids of a zone as kept: renamed ids updated, the retired
/// `fileTransfer` dropped, and any id already in `seen` or earlier in the
/// zone dropped.
pub open spec fn spec_clean_zone(raw: Seq<Seq<char>>, seen: Seq<Seq<char>>) -> Seq<Seq<char>>
    decreases raw.len(),
{
    if raw.len() == 0 {
        Seq::empty()
    } else {
        let r = spec_clean_zone(raw.drop_last(), seen);
        let id = spec_alias(raw.last());
        if id == "fileTransfer"@ || seen.contains(id) || r.contains(id) {
            r
        } else {
            r.push(id)
        }
    }
}

/// The first index of `x` in `t`.
pub open spec fn spec_index_of(t: Seq<Seq<char>>, x: Seq<char>) -> Option<int>
    decreases t.len(),
{
    if t.len() == 0 {
        None
    } else if t[0] == x {
        Some(0)
    } else {
        match spec_index_of(t.drop_first(), x) {
            Some(i) => Some(i + 1),
            None => None,
        }
    }
}

/// The place just after the last of `anchors` that `t` holds.
pub open spec fn spec_after_last_anchor(t: Seq<Seq<char>>, anchors: Seq<Seq<char>>) -> Option<int>
    decreases anchors.len(),
{
    if anchors.len() == 0 {
        None
    } else {
        match spec_index_of(t, anchors.last()) {
            Some(i) => Some(i + 1),
            None => spec_after_last_anchor(t, anchors.drop_last()),
        }
    }
}

/// The place of the first of `anchors` that `t` holds.
pub open spec fn spec_first_anchor(t: Seq<Seq<char>>, anchors: Seq<Seq<char>>) -> Option<int>
    decreases anchors.len(),
{
    if anchors.len() == 0 {
        None
    } else {
        match spec_index_of(t, anchors[0]) {
            Some(i) => Some(i),
            None => spec_first_anchor(t, anchors.drop_first()),
        }
    }
}

/// Where the default entry `defaults[k]` goes back into `t`: just after the
/// nearest default before it that `t` holds, else just before the nearest
/// default after it, else at the end.
pub open spec fn spec_anchor_index(t: Seq<Seq<char>>, defaults: Seq<Seq<char>>, k: int) -> int {
    match spec_after_last_anchor(t, defaults.take(k)) {
        Some(i) => i,
        None => match spec_first_anchor(t, defaults.skip(k + 1)) {
            Some(i) => i,
            None => t.len() as int,
        },
    }
}

/// The zone `t` and the ids `seen` after `defaults[k]` is put back when no
/// zone holds it.
pub open spec fn spec_restore_step(
    state: (Seq<Seq<char>>, Seq<Seq<char>>),
    defaults: Seq<Seq<char>>,
    k: int,
) -> (Seq<Seq<char>>, Seq<Seq<char>>) {
    let id = defaults[k];
    if state.1.contains(id) {
        state
    } else {
        (state.0.insert(spec_anchor_index(state.0, defaults, k), id), state.1.push(id))
    }
}

/// The zone and the ids seen after the first `k` defaults are put back.
pub open spec fn spec_restore(
    state: (Seq<Seq<char>>, Seq<Seq<char>>),
    defaults: Seq<Seq<char>>,
    k: int,
) -> (Seq<Seq<char>>, Seq<Seq<char>>)
    decreases k,
{
    if k <= 0 {
        state
    } else {
        spec_restore_step(spec_restore(state, defaults, k - 1), defaults, k - 1)
    }
}

/// The hidden ids as kept: renamed ids updated; ids that no zone holds, and
/// repeats, dropped.
pub open spec fn spec_clean_hidden(hidden: Seq<Seq<char>>, seen: Seq<Seq<char>>) -> Seq<Seq<char>>
    decreases hidden.len(),
{
    if hidden.len() == 0 {
        Seq::empty()
    } else {
        let r = spec_clean_hidden(hidden.drop_last(), seen);
        let id = spec_alias(hidden.last());
        if seen.contains(id) && !r.contains(id) {
            r.push(id)
        } else {
            r
        }
    }
}

/// The layout after normalising, zone by zone and then the hidden ids: each
/// zone cleaned against the ids of the zones before it, every default entry
/// that no zone holds put back beside its nearest default neighbour, and the
/// hidden ids cleaned against all the ids placed.
pub open spec fn spec_normalized(
    lt: Seq<Seq<char>>,
    lb: Seq<Seq<char>>,
    rt: Seq<Seq<char>>,
    rb: Seq<Seq<char>>,
    hidden: Seq<Seq<char>>,
) -> (Seq<Seq<char>>, Seq<Seq<char>>, Seq<Seq<char>>, Seq<Seq<char>>, Seq<Seq<char>>) {
    let c1 = spec_clean_zone(lt, Seq::empty());
    let c2 = spec_clean_zone(lb, c1);
    let c3 = spec_clean_zone(rt, c1 + c2);
    let c4 = spec_clean_zone(rb, c1 + c2 + c3);
    let seen = c1 + c2 + c3 + c4;
    let d1 = spec_default_activity_left_top();
    let d2 = spec_default_activity_left_bottom();
    let d3 = spec_default_activity_right_top();
    let d4 = spec_default_activity_right_bottom();
    let r1 = spec_restore((c1, seen), d1, d1.len() as int);
    let r2 = spec_restore((c2, r1.1), d2, d2.len() as int);
    let r3 = spec_restore((c3, r2.1), d3, d3.len() as int);
    let r4 = spec_restore((c4, r3.1), d4, d4.len() as int);
    (r1.0, r2.0, r3.0, r4.0, spec_clean_hidden(hidden, r4.1))
}

/// Cleans one zone against the ids already `seen`, adding the ids it keeps
/// to `seen`.
fn clean_zone(raw: &Vec<String>, seen: &mut Vec<String>) -> (r: Vec<String>)
    ensures
        strings_view(r@) == spec_clean_zone(strings_view(raw@), strings_view(old(seen)@)),
        strings_view(final(seen)@) == strings_view(old(seen)@) + strings_view(r@),
{
    let ghost seen0 = strings_view(seen@);
    let mut r: Vec<String> = Vec::new();
    let mut i: usize = 0;
    while i < raw.len()
        invariant
            i <= raw@.len(),
            strings_view(r@) == spec_clean_zone(strings_view(raw@).take(i as int), seen0),
            strings_view(seen@) == seen0 + strings_view(r@),
        decreases raw@.len() - i,
    {
        let ghost prefix = strings_view(raw@).take(i as int);
        assert(strings_view(raw@).take(i + 1).drop_last() =~= prefix);
        assert(strings_view(raw@).take(i + 1).last() == raw@[i as int]@);
        let id = current_id(&raw[i]);
        let in_seen = contains_text(seen, &id);
        proof {
            assert((seen0 + strings_view(r@)).contains(id@) <==> (seen0.contains(id@)
                || strings_view(r@).contains(id@))) by {
                if (seen0 + strings_view(r@)).contains(id@) {
                    let j = choose|j: int|
                        0 <= j < (seen0 + strings_view(r@)).len() && (seen0 + strings_view(
                            r@,
                        ))[j] == id@;
                    if j < seen0.len() {
                        assert(seen0[j] == id@);
                    } else {
                        assert(strings_view(r@)[j - seen0.len()] == id@);
                    }
                }
                if seen0.contains(id@) {
                    let j = choose|j: int| 0 <= j < seen0.len() && seen0[j] == id@;
                    assert((seen0 + strings_view(r@))[j] == id@);
                }
                if strings_view(r@).contains(id@) {
                    let j = choose|j: int|
                        0 <= j < strings_view(r@).len() && strings_view(r@)[j] == id@;
                    assert((seen0 + strings_view(r@))[j + seen0.len()] == id@);
                }
            }
        }
        if !str_eq(id.as_str(), "fileTransfer") && !in_seen {
            let ghost prev = strings_view(r@);
            let ghost prev_seen = strings_view(seen@);
            let copy = id.clone();
            r.push(id);
            seen.push(copy);
            assert(strings_view(r@) =~= prev.push(copy@));
            assert(strings_view(seen@) =~= prev_seen.push(copy@));
            assert(seen0 + strings_view(r@) =~= (seen0 + prev).push(copy@));
        }
        i += 1;
    }
    assert(strings_view(raw@).take(raw@.len() as int) =~= strings_view(raw@));
    r
}

/// A first match gives the index.
proof fn lemma_index_of_first(t: Seq<Seq<char>>, x: Seq<char>, i: int)
    requires
        0 <= i < t.len(),
        t[i] == x,
        forall|j: int| 0 <= j < i ==> t[j] != x,
    ensures
        spec_index_of(t, x) == Some(i),
    decreases i,
{
    if i > 0 {
        assert forall|j: int| 0 <= j < i - 1 implies t.drop_first()[j] != x by {
            assert(t.drop_first()[j] == t[j + 1]);
        }
        lemma_index_of_first(t.drop_first(), x, i - 1);
    }
}

/// No match gives no index.
proof fn lemma_index_of_absent(t: Seq<Seq<char>>, x: Seq<char>)
    requires
        forall|j: int| 0 <= j < t.len() ==> t[j] != x,
    ensures
        spec_index_of(t, x) is None,
    decreases t.len(),
{
    if t.len() > 0 {
        assert forall|j: int| 0 <= j < t.len() - 1 implies t.drop_first()[j] != x by {
            assert(t.drop_first()[j] == t[j + 1]);
        }
        lemma_index_of_absent(t.drop_first(), x);
    }
}

/// An index that is found lies inside the sequence.
pub proof fn lemma_index_of_bound(t: Seq<Seq<char>>, x: Seq<char>)
    ensures
        spec_index_of(t, x) matches Some(i) ==> 0 <= i < t.len(),
    decreases t.len(),
{
    if t.len() > 0 {
        lemma_index_of_bound(t.drop_first(), x);
    }
}

/// The first index of `x` in `t`.
pub(crate) fn index_of(t: &Vec<String>, x: &String) -> (r: Option<usize>)
    ensures
        match r {
            Some(i) => spec_index_of(strings_view(t@), x@) == Some(i as int),
            None => spec_index_of(strings_view(t@), x@) is None,
        },
{
    let ghost tv = strings_view(t@);
    let mut i: usize = 0;
    while i < t.len()
        invariant
            i <= t@.len(),
            tv == strings_view(t@),
            forall|j: int| 0 <= j < i ==> tv[j] != x@,
        decreases t@.len() - i,
    {
        if str_eq(t[i].as_str(), x.as_str()) {
            proof {
                lemma_index_of_first(tv, x@, i as int);
            }
            return Some(i);
        }
        i += 1;
    }
    proof {
        lemma_index_of_absent(tv, x@);
    }
    None
}

/// Anchors found are places inside or at the end of the zone.
proof fn lemma_anchor_bounds(t: Seq<Seq<char>>, anchors: Seq<Seq<char>>)
    ensures
        spec_after_last_anchor(t, anchors) matches Some(i) ==> 0 <= i <= t.len(),
        spec_first_anchor(t, anchors) matches Some(i) ==> 0 <= i < t.len(),
    decreases anchors.len(),
{
    if anchors.len() > 0 {
        lemma_index_of_bound(t, anchors.last());
        lemma_index_of_bound(t, anchors[0]);
        lemma_anchor_bounds(t, anchors.drop_last());
        lemma_anchor_bounds(t, anchors.drop_first());
    }
}

/// Where `defaults[k]` goes back into `t`.
fn anchor_index(t: &Vec<String>, defaults: &Vec<String>, k: usize) -> (r: usize)
    requires
        k < defaults@.len(),
    ensures
        r == spec_anchor_index(strings_view(t@), strings_view(defaults@), k as int),
        r <= t@.len(),
{
    let ghost tv = strings_view(t@);
    let ghost dv = strings_view(defaults@);
    proof {
        lemma_anchor_bounds(tv, dv.take(k as int));
        lemma_anchor_bounds(tv, dv.skip(k + 1));
    }
    let mut j: usize = k;
    while j > 0
        invariant
            j <= k < dv.len(),
            k < defaults@.len(),
            tv == strings_view(t@),
            dv == strings_view(defaults@),
            spec_after_last_anchor(tv, dv.take(k as int)) == spec_after_last_anchor(
                tv,
                dv.take(j as int),
            ),
        decreases j,
    {
        assert(dv.take(j as int).drop_last() =~= dv.take(j - 1));
        assert(dv.take(j as int).last() == defaults@[j - 1]@);
        match index_of(t, &defaults[j - 1]) {
            Some(p) => {
                proof {
                    lemma_index_of_bound(tv, dv[j - 1]);
                }
                let len = t.len();
                assert(p < len);
                return p + 1;
            },
            None => {},
        }
        j -= 1;
    }
    let dlen = defaults.len();
    assert(k < dlen);
    let mut j: usize = k + 1;
    assert(dv.skip(k + 1) =~= dv.skip(j as int));
    while j < defaults.len()
        invariant
            k < j <= dv.len(),
            dv.len() == defaults@.len(),
            tv == strings_view(t@),
            dv == strings_view(defaults@),
            spec_after_last_anchor(tv, dv.take(k as int)) is None,
            spec_first_anchor(tv, dv.skip(k + 1)) == spec_first_anchor(tv, dv.skip(j as int)),
        decreases dv.len() - j,
    {
        assert(dv.skip(j as int).drop_first() =~= dv.skip(j + 1));
        assert(dv.skip(j as int)[0] == defaults@[j as int]@);
        match index_of(t, &defaults[j]) {
            Some(p) => {
                proof {
                    lemma_index_of_bound(tv, dv[j as int]);
                }
                assert(p < t@.len());
                return p;
            },
            None => {},
        }
        j += 1;
    }
    t.len()
}

/// Puts back, beside their neighbours, the defaults of a zone that no zone
/// holds.
fn restore_zone(target: &mut Vec<String>, defaults: &Vec<String>, seen: &mut Vec<String>)
    ensures
        (strings_view(final(target)@), strings_view(final(seen)@)) == spec_restore(
            (strings_view(old(target)@), strings_view(old(seen)@)),
            strings_view(defaults@),
            defaults@.len() as int,
        ),
{
    let ghost start = (strings_view(target@), strings_view(seen@));
    let ghost dv = strings_view(defaults@);
    let mut k: usize = 0;
    while k < defaults.len()
        invariant
            k <= defaults@.len(),
            dv == strings_view(defaults@),
            (strings_view(target@), strings_view(seen@)) == spec_restore(start, dv, k as int),
        decreases defaults@.len() - k,
    {
        assert(dv[k as int] == defaults@[k as int]@);
        if !contains_text(seen, &defaults[k]) {
            let at = anchor_index(target, defaults, k);
            let ghost tv = strings_view(target@);
            let ghost sv = strings_view(seen@);
            target.insert(at, defaults[k].clone());
            seen.push(defaults[k].clone());
            assert(strings_view(target@) =~= tv.insert(at as int, dv[k as int]));
            assert(strings_view(seen@) =~= sv.push(dv[k as int]));
        }
        k += 1;
    }
}

/// Cleans the hidden ids against the ids placed.
fn clean_hidden(hidden: &Vec<String>, seen: &Vec<String>) -> (r: Vec<String>)
    ensures
        strings_view(r@) == spec_clean_hidden(strings_view(hidden@), strings_view(seen@)),
{
    let mut r: Vec<String> = Vec::new();
    let mut i: usize = 0;
    while i < hidden.len()
        invariant
            i <= hidden@.len(),
            strings_view(r@) == spec_clean_hidden(
                strings_view(hidden@).take(i as int),
                strings_view(seen@),
            ),
        decreases hidden@.len() - i,
    {
        assert(strings_view(hidden@).take(i + 1).drop_last() =~= strings_view(hidden@).take(
            i as int,
        ));
        assert(strings_view(hidden@).take(i + 1).last() == hidden@[i as int]@);
        let id = current_id(&hidden[i]);
        if contains_text(seen, &id) && !contains_text(&r, &id) {
            let ghost prev = strings_view(r@);
            let ghost idv = id@;
            r.push(id);
            assert(strings_view(r@) =~= prev.push(idv));
        }
        i += 1;
    }
    assert(strings_view(hidden@).take(hidden@.len() as int) =~= strings_view(hidden@));
    r
}

/// Brings a stored layout up to date: renamed ids are updated, retired and
/// repeated ids dropped, every default entry that is missing is put back
/// beside its nearest default neighbour (other entries keep their zone and
/// order), and hidden ids that no zone holds are dropped.
pub fn normalize_activity_bar_layout(layout: &mut ActivityBarLayout)
    ensures
        (
            final(layout).zone_view(ActivityBarZone::LeftTop),
            final(layout).zone_view(ActivityBarZone::LeftBottom),
            final(layout).zone_view(ActivityBarZone::RightTop),
            final(layout).zone_view(ActivityBarZone::RightBottom),
            strings_view(final(layout).hidden_items@),
        ) == spec_normalized(
            old(layout).zone_view(ActivityBarZone::LeftTop),
            old(layout).zone_view(ActivityBarZone::LeftBottom),
            old(layout).zone_view(ActivityBarZone::RightTop),
            old(layout).zone_view(ActivityBarZone::RightBottom),
            strings_view(old(layout).hidden_items@),
        ),
        final(layout).show_labels == old(layout).show_labels,
{
    let mut seen: Vec<String> = Vec::new();
    assert(strings_view(seen@) =~= Seq::<Seq<char>>::empty());
    let mut lt = clean_zone(&layout.left_top, &mut seen);
    let mut lb = clean_zone(&layout.left_bottom, &mut seen);
    let mut rt = clean_zone(&layout.right_top, &mut seen);
    let mut rb = clean_zone(&layout.right_bottom, &mut seen);
    assert(strings_view(seen@) =~= strings_view(lt@) + strings_view(lb@) + strings_view(rt@)
        + strings_view(rb@));
    restore_zone(&mut lt, &default_activity_left_top(), &mut seen);
    restore_zone(&mut lb, &default_activity_left_bottom(), &mut seen);
    restore_zone(&mut rt, &default_activity_right_top(), &mut seen);
    restore_zone(&mut rb, &default_activity_right_bottom(), &mut seen);
    let hidden = clean_hidden(&layout.hidden_items, &seen);
    layout.left_top = lt;
    layout.left_bottom = lb;
    layout.right_top = rt;
    layout.right_bottom = rb;
    layout.hidden_items = hidden;
}

/// Which of the panels that can be switched off are on.
#[derive(Clone, Copy, Debug, PartialEq, Eq, Structural)]
pub struct PanelAvailability {
    pub notes: bool,
    pub remote_stats: bool,
    pub gpu_monitor: bool,
    pub ascend_npu_monitor: bool,
    pub process_manager: bool,
    pub docker_manager: bool,
}

/// The entries that the bars know; anything else in a stored layout is
/// skipped.
pub open spec fn spec_known_entries() -> Seq<Seq<char>> {
    spec_default_activity_left_top() + spec_default_activity_left_bottom()
        + spec_default_activity_right_top() + spec_default_activity_right_bottom() + crate::settings::summary::texts(
        seq!["gpuMonitor", "ascendNpuMonitor"],
    )
}

/// Whether the entry `id` is offered: the panels that can be switched off
/// only while on, every other entry always.
pub open spec fn spec_entry_visible(id: Seq<char>, a: PanelAvailability) -> bool {
    if id == "notes"@ {
        a.notes
    } else if id == "resourceMonitor"@ {
        a.remote_stats
    } else if id == "gpuMonitor"@ {
        a.gpu_monitor
    } else if id == "ascendNpuMonitor"@ {
        a.ascend_npu_monitor
    } else if id == "processManager"@ {
        a.process_manager
    } else if id == "dockerManager"@ {
        a.docker_manager
    } else {
        true
    }
}

/// Whether the entry `id` is offered.
pub fn entry_visible(id: &String, a: PanelAvailability) -> (r: bool)
    ensures
        r == spec_entry_visible(id@, a),
{
    if str_eq(id.as_str(), "notes") {
        a.notes
    } else if str_eq(id.as_str(), "resourceMonitor") {
        a.remote_stats
    } else if str_eq(id.as_str(), "gpuMonitor") {
        a.gpu_monitor
    } else if str_eq(id.as_str(), "ascendNpuMonitor") {
        a.ascend_npu_monitor
    } else if str_eq(id.as_str(), "processManager") {
        a.process_manager
    } else if str_eq(id.as_str(), "dockerManager") {
        a.docker_manager
    } else {
        true
    }
}

/// The entries of a zone that the bar shows: not hidden, known, and offered.
pub open spec fn spec_shown_entries(
    zone: Seq<Seq<char>>,
    hidden: Seq<Seq<char>>,
    a: PanelAvailability,
) -> Seq<Seq<char>>
    decreases zone.len(),
{
    if zone.len() == 0 {
        Seq::empty()
    } else {
        let r = spec_shown_entries(zone.drop_last(), hidden, a);
        let id = zone.last();
        if !hidden.contains(id) && spec_known_entries().contains(id) && spec_entry_visible(id, a) {
            r.push(id)
        } else {
            r
        }
    }
}

/// Whether `id` is an entry that the bars know.
pub fn is_known_entry(id: &String) -> (r: bool)
    ensures
        r == spec_known_entries().contains(id@),
{
    let known = crate::settings::summary::strings_of(
        &[
            "fileExplorer",
            "notes",
            "network",
            "securityAuth",
            "syncBackupHistory",
            "settings",
            "savedConnections",
            "aiAssistant",
            "activeSessions",
            "commandHistory",
            "resourceMonitor",
            "processManager",
            "dockerManager",
            "quickCmdBar",
            "serialSend",
            "recording",
            "lock",
            "gpuMonitor",
            "ascendNpuMonitor",
        ],
    );
    assert(strings_view(known@) =~= spec_known_entries());
    contains_text(&known, id)
}

impl ActivityBarLayout {
    /// The entries of `zone` that the bar shows, in order.
    pub fn activity_entries_for_zone(&self, zone: ActivityBarZone, a: PanelAvailability) -> (r: Vec<
        String,
    >)
        ensures
            strings_view(r@) == spec_shown_entries(
                self.zone_view(zone),
                strings_view(self.hidden_items@),
                a,
            ),
    {
        let ids = self.zone(zone);
        let ghost zv = self.zone_view(zone);
        let mut r: Vec<String> = Vec::new();
        let mut i: usize = 0;
        while i < ids.len()
            invariant
                i <= ids@.len(),
                zv == strings_view(ids@),
                strings_view(r@) == spec_shown_entries(
                    zv.take(i as int),
                    strings_view(self.hidden_items@),
                    a,
                ),
            decreases ids@.len() - i,
        {
            assert(zv.take(i + 1).drop_last() =~= zv.take(i as int));
            assert(zv.take(i + 1).last() == ids@[i as int]@);
            let id = &ids[i];
            if !self.is_hidden(id) && is_known_entry(id) && entry_visible(id, a) {
                let ghost prev = strings_view(r@);
                r.push(id.clone());
                assert(strings_view(r@) =~= prev.push(id@));
            }
            i += 1;
        }
        assert(zv.take(ids@.len() as int) =~= zv);
        r
    }

    /// Whether the bar on `side` shows any entry.
    pub fn activity_side_has_items(&self, side: PanelSide, a: PanelAvailability) -> (r: bool)
        ensures
            r == match side {
                PanelSide::Left => spec_shown_entries(
                    self.zone_view(ActivityBarZone::LeftTop),
                    strings_view(self.hidden_items@),
                    a,
                ).len() > 0 || spec_shown_entries(
                    self.zone_view(ActivityBarZone::LeftBottom),
                    strings_view(self.hidden_items@),
                    a,
                ).len() > 0,
                PanelSide::Right => spec_shown_entries(
                    self.zone_view(ActivityBarZone::RightTop),
                    strings_view(self.hidden_items@),
                    a,
                ).len() > 0 || spec_shown_entries(
                    self.zone_view(ActivityBarZone::RightBottom),
                    strings_view(self.hidden_items@),
                    a,
                ).len() > 0,
            },
    {
        let (top, bottom) = match side {
            PanelSide::Left => (ActivityBarZone::LeftTop, ActivityBarZone::LeftBottom),
            PanelSide::Right => (ActivityBarZone::RightTop, ActivityBarZone::RightBottom),
        };
        self.activity_entries_for_zone(top, a).len() > 0
            || self.activity_entries_for_zone(bottom, a).len() > 0
    }

    /// The side whose bar holds `id`, looking through the zones in order.
    pub fn side_for_entry(&self, id: &String) -> (r: Option<PanelSide>)
        ensures
            r == spec_side_for_entry(self, id@),
    {
        if contains_text(&self.left_top, id) || contains_text(&self.left_bottom, id) {
            Some(PanelSide::Left)
        } else if contains_text(&self.right_top, id) || contains_text(&self.right_bottom, id) {
            Some(PanelSide::Right)
        } else {
            None
        }
    }
}

/// The side whose bar holds `id`.
pub open spec fn spec_side_for_entry(l: &ActivityBarLayout, id: Seq<char>) -> Option<PanelSide> {
    if l.zone_view(ActivityBarZone::LeftTop).contains(id) || l.zone_view(
        ActivityBarZone::LeftBottom,
    ).contains(id) {
        Some(PanelSide::Left)
    } else if l.zone_view(ActivityBarZone::RightTop).contains(id) || l.zone_view(
        ActivityBarZone::RightBottom,
    ).contains(id) {
        Some(PanelSide::Right)
    } else {
        None
    }
}

/// The entries that a layout places, zone after zone.
pub open spec fn spec_placed(
    n: (Seq<Seq<char>>, Seq<Seq<char>>, Seq<Seq<char>>, Seq<Seq<char>>, Seq<Seq<char>>),
) -> Seq<Seq<char>> {
    n.0 + n.1 + n.2 + n.3
}

/// Whether no entry of `s` is the retired `fileTransfer` or the renamed
/// `keyManagement`.
pub open spec fn spec_current_ids(s: Seq<Seq<char>>) -> bool {
    forall|i: int| 0 <= i < s.len() ==> #[trigger] s[i] != "fileTransfer"@ && s[i] != "keyManagement"@
}

/// Every id of the default layout.
pub open spec fn spec_all_defaults() -> Seq<Seq<char>> {
    spec_default_activity_left_top() + spec_default_activity_left_bottom()
        + spec_default_activity_right_top() + spec_default_activity_right_bottom()
}

proof fn lemma_concat_contains<A>(a: Seq<A>, b: Seq<A>, x: A)
    ensures
        (a + b).contains(x) <==> a.contains(x) || b.contains(x),
{
    if (a + b).contains(x) {
        let i = choose|i: int| 0 <= i < (a + b).len() && (a + b)[i] == x;
        if i < a.len() {
            assert(a[i] == x);
        } else {
            assert(b[i - a.len()] == x);
        }
    }
    if a.contains(x) {
        let i = choose|i: int| 0 <= i < a.len() && a[i] == x;
        assert((a + b)[i] == x);
    }
    if b.contains(x) {
        let i = choose|i: int| 0 <= i < b.len() && b[i] == x;
        assert((a + b)[i + a.len()] == x);
    }
}

proof fn lemma_no_dup_split<A>(a: Seq<A>, b: Seq<A>)
    requires
        (a + b).no_duplicates(),
    ensures
        a.no_duplicates(),
        b.no_duplicates(),
        forall|x: A| a.contains(x) ==> !b.contains(x),
{
    assert forall|i: int, j: int| 0 <= i < a.len() && 0 <= j < a.len() && i != j implies a[i]
        != a[j] by {
        assert((a + b)[i] == a[i] && (a + b)[j] == a[j]);
    }
    assert forall|i: int, j: int| 0 <= i < b.len() && 0 <= j < b.len() && i != j implies b[i]
        != b[j] by {
        assert((a + b)[i + a.len()] == b[i] && (a + b)[j + a.len()] == b[j]);
    }
    assert forall|x: A| a.contains(x) implies !b.contains(x) by {
        let i = choose|i: int| 0 <= i < a.len() && a[i] == x;
        if b.contains(x) {
            let j = choose|j: int| 0 <= j < b.len() && b[j] == x;
            assert((a + b)[i] == x && (a + b)[j + a.len()] == x);
        }
    }
}

proof fn lemma_no_dup_push<A>(a: Seq<A>, x: A)
    requires
        a.no_duplicates(),
        !a.contains(x),
    ensures
        a.push(x).no_duplicates(),
{
    assert forall|i: int, j: int|
        0 <= i < a.push(x).len() && 0 <= j < a.push(x).len() && i != j implies a.push(x)[i]
        != a.push(x)[j] by {
        if i == a.len() {
            assert(a[j] == a.push(x)[j]);
        } else if j == a.len() {
            assert(a[i] == a.push(x)[i]);
        }
    }
}

/// A cleaned zone adds only new, current ids to those seen.
proof fn lemma_clean_zone_props(raw: Seq<Seq<char>>, seen: Seq<Seq<char>>)
    requires
        seen.no_duplicates(),
    ensures
        (seen + spec_clean_zone(raw, seen)).no_duplicates(),
        spec_current_ids(spec_clean_zone(raw, seen)),
    decreases raw.len(),
{
    if raw.len() > 0 {
        let r = spec_clean_zone(raw.drop_last(), seen);
        lemma_clean_zone_props(raw.drop_last(), seen);
        let id = spec_alias(raw.last());
        if !(id == "fileTransfer"@ || seen.contains(id) || r.contains(id)) {
            reveal_strlit("securityAuth");
            reveal_strlit("keyManagement");
            reveal_strlit("fileTransfer");
            assert("securityAuth"@.len() != "keyManagement"@.len());
            assert(id != "keyManagement"@);
            lemma_concat_contains(seen, r, id);
            lemma_no_dup_push(seen + r, id);
            assert(seen + r.push(id) =~= (seen + r).push(id));
            assert forall|i: int| 0 <= i < r.push(id).len() implies #[trigger] r.push(id)[i]
                != "fileTransfer"@ && r.push(id)[i] != "keyManagement"@ by {
                if i < r.len() {
                    assert(r.push(id)[i] == r[i]);
                }
            }
        }
    }
}

/// Putting defaults back only places ids not yet seen, each into the zone,
/// and marks them seen.
proof fn lemma_restore_props(
    t: Seq<Seq<char>>,
    seen: Seq<Seq<char>>,
    d: Seq<Seq<char>>,
    k: int,
)
    requires
        0 <= k <= d.len(),
        seen.no_duplicates(),
        t.no_duplicates(),
        forall|x: Seq<char>| t.contains(x) ==> seen.contains(x),
        spec_current_ids(seen),
        spec_current_ids(d),
    ensures
        ({
            let (t2, s2) = spec_restore((t, seen), d, k);
            &&& seen.len() <= s2.len()
            &&& s2.take(seen.len() as int) == seen
            &&& s2.no_duplicates()
            &&& t2.no_duplicates()
            &&& spec_current_ids(s2)
            &&& forall|x: Seq<char>| t2.contains(x) ==> t.contains(x) || s2.skip(
                seen.len() as int,
            ).contains(x)
            &&& forall|x: Seq<char>| s2.skip(seen.len() as int).contains(x) ==> t2.contains(x)
            &&& forall|x: Seq<char>| t.contains(x) ==> t2.contains(x)
            &&& forall|j: int| 0 <= j < k ==> s2.contains(#[trigger] d[j])
            &&& t2.to_multiset() == t.to_multiset().add(s2.skip(seen.len() as int).to_multiset())
        }),
    decreases k,
{
    broadcast use vstd::multiset::group_multiset_axioms;
    broadcast use vstd::seq_lib::group_to_multiset_ensures;

    if k == 0 {
        assert(seen.take(seen.len() as int) =~= seen);
        assert(seen.skip(seen.len() as int) =~= Seq::<Seq<char>>::empty());
        assert(t.to_multiset() =~= t.to_multiset().add(Seq::<Seq<char>>::empty().to_multiset()));
    } else {
        lemma_restore_props(t, seen, d, k - 1);
        let (t1, s1) = spec_restore((t, seen), d, k - 1);
        let id = d[k - 1];
        if s1.contains(id) {
        } else {
            let p = spec_anchor_index(t1, d, k - 1);
            lemma_anchor_bounds(t1, d.take(k - 1));
            lemma_anchor_bounds(t1, d.skip(k));
            assert(0 <= p <= t1.len());
            let t2 = t1.insert(p, id);
            let s2 = s1.push(id);
            t1.insert_ensures(p, id);
            assert(!t1.contains(id));
            lemma_no_dup_push(s1, id);
            assert forall|i: int, j: int|
                0 <= i < t2.len() && 0 <= j < t2.len() && i != j implies t2[i] != t2[j] by {
                if i == p {
                    if j < p {
                        assert(t1.contains(t1[j]));
                    } else {
                        assert(t1.contains(t1[j - 1]));
                    }
                } else if j == p {
                    if i < p {
                        assert(t1.contains(t1[i]));
                    } else {
                        assert(t1.contains(t1[i - 1]));
                    }
                }
            }
            assert(s2.take(seen.len() as int) =~= s1.take(seen.len() as int));
            assert(s2.skip(seen.len() as int) =~= s1.skip(seen.len() as int).push(id));
            assert forall|x: Seq<char>| t2.contains(x) implies t.contains(x) || s2.skip(
                seen.len() as int,
            ).contains(x) by {
                let i = choose|i: int| 0 <= i < t2.len() && t2[i] == x;
                if i == p {
                    assert(s2.skip(seen.len() as int).last() == x);
                } else if i < p {
                    assert(t1[i] == x);
                    if s1.skip(seen.len() as int).contains(x) {
                        let j = choose|j: int|
                            0 <= j < s1.skip(seen.len() as int).len() && s1.skip(
                                seen.len() as int,
                            )[j] == x;
                        assert(s2.skip(seen.len() as int)[j] == x);
                    }
                } else {
                    assert(t1[i - 1] == x);
                    if s1.skip(seen.len() as int).contains(x) {
                        let j = choose|j: int|
                            0 <= j < s1.skip(seen.len() as int).len() && s1.skip(
                                seen.len() as int,
                            )[j] == x;
                        assert(s2.skip(seen.len() as int)[j] == x);
                    }
                }
            }
            assert forall|x: Seq<char>| s2.skip(seen.len() as int).contains(x) implies t2.contains(
                x,
            ) by {
                let j = choose|j: int|
                    0 <= j < s2.skip(seen.len() as int).len() && s2.skip(seen.len() as int)[j]
                        == x;
                if j == s1.skip(seen.len() as int).len() {
                    assert(t2[p] == x);
                } else {
                    assert(s1.skip(seen.len() as int)[j] == x);
                    assert(t1.contains(x));
                    let i = choose|i: int| 0 <= i < t1.len() && t1[i] == x;
                    if i < p {
                        assert(t2[i] == x);
                    } else {
                        assert(t2[i + 1] == x);
                    }
                }
            }
            assert forall|x: Seq<char>| t.contains(x) implies t2.contains(x) by {
                assert(t1.contains(x));
                let i = choose|i: int| 0 <= i < t1.len() && t1[i] == x;
                if i < p {
                    assert(t2[i] == x);
                } else {
                    assert(t2[i + 1] == x);
                }
            }
            assert forall|j: int| 0 <= j < k implies s2.contains(#[trigger] d[j]) by {
                if j == k - 1 {
                    assert(s2[s1.len() as int] == d[j]);
                } else {
                    assert(s1.contains(d[j]));
                    let i = choose|i: int| 0 <= i < s1.len() && s1[i] == d[j];
                    assert(s2[i] == d[j]);
                }
            }
            assert forall|i: int| 0 <= i < s2.len() implies #[trigger] s2[i] != "fileTransfer"@
                && s2[i] != "keyManagement"@ by {
                if i < s1.len() {
                    assert(s2[i] == s1[i]);
                }
            }
            let a = t1.subrange(0, p);
            let b = t1.subrange(p, t1.len() as int);
            assert(t1 =~= a + b);
            assert(t2 =~= a.push(id) + b);
            vstd::seq_lib::lemma_multiset_commutative(a, b);
            vstd::seq_lib::lemma_multiset_commutative(a.push(id), b);
            assert(t2.to_multiset() =~= t1.to_multiset().insert(id));
            let n1 = s1.skip(seen.len() as int);
            assert(s2.skip(seen.len() as int) =~= n1.push(id));
            assert(t2.to_multiset() =~= t.to_multiset().add(n1.push(id).to_multiset()));
        }
    }
}

/// The hidden ids as kept are distinct and placed.
proof fn lemma_clean_hidden_props(hidden: Seq<Seq<char>>, seen: Seq<Seq<char>>)
    ensures
        spec_clean_hidden(hidden, seen).no_duplicates(),
        forall|x: Seq<char>| spec_clean_hidden(hidden, seen).contains(x) ==> seen.contains(x),
    decreases hidden.len(),
{
    if hidden.len() > 0 {
        lemma_clean_hidden_props(hidden.drop_last(), seen);
        let r = spec_clean_hidden(hidden.drop_last(), seen);
        let id = spec_alias(hidden.last());
        if seen.contains(id) && !r.contains(id) {
            lemma_no_dup_push(r, id);
            assert forall|x: Seq<char>| r.push(id).contains(x) implies seen.contains(x) by {
                let i = choose|i: int| 0 <= i < r.push(id).len() && r.push(id)[i] == x;
                if i < r.len() {
                    assert(r[i] == x);
                }
            }
        }
    }
}

proof fn lemma_current_concat(a: Seq<Seq<char>>, b: Seq<Seq<char>>)
    requires
        spec_current_ids(a),
        spec_current_ids(b),
    ensures
        spec_current_ids(a + b),
{
    assert forall|i: int| 0 <= i < (a + b).len() implies #[trigger] (a + b)[i] != "fileTransfer"@
        && (a + b)[i] != "keyManagement"@ by {
        if i < a.len() {
            assert((a + b)[i] == a[i]);
        } else {
            assert((a + b)[i] == b[i - a.len()]);
        }
    }
}

proof fn lemma_prefix_split(s2: Seq<Seq<char>>, s1: Seq<Seq<char>>)
    requires
        s1.len() <= s2.len(),
        s2.take(s1.len() as int) == s1,
    ensures
        s2 == s1 + s2.skip(s1.len() as int),
{
    assert(s2 =~= s1 + s2.skip(s1.len() as int));
}

/// No default id is retired or renamed.
proof fn lemma_defaults_current()
    ensures
        spec_current_ids(spec_default_activity_left_top()),
        spec_current_ids(spec_default_activity_left_bottom()),
        spec_current_ids(spec_default_activity_right_top()),
        spec_current_ids(spec_default_activity_right_bottom()),
{
    reveal_strlit("fileTransfer");
    reveal_strlit("keyManagement");
    reveal_strlit("fileExplorer");
    reveal_strlit("notes");
    reveal_strlit("network");
    reveal_strlit("securityAuth");
    reveal_strlit("syncBackupHistory");
    reveal_strlit("settings");
    reveal_strlit("savedConnections");
    reveal_strlit("aiAssistant");
    reveal_strlit("activeSessions");
    reveal_strlit("commandHistory");
    reveal_strlit("resourceMonitor");
    reveal_strlit("processManager");
    reveal_strlit("dockerManager");
    reveal_strlit("quickCmdBar");
    reveal_strlit("serialSend");
    reveal_strlit("recording");
    reveal_strlit("lock");
    assert("fileExplorer"@[4] != "fileTransfer"@[4]);
    assert("fileExplorer"@.len() != "keyManagement"@.len());
    assert("notes"@.len() != "fileTransfer"@.len());
    assert("notes"@.len() != "keyManagement"@.len());
    assert("network"@.len() != "fileTransfer"@.len());
    assert("network"@.len() != "keyManagement"@.len());
    assert("securityAuth"@[0] != "fileTransfer"@[0]);
    assert("securityAuth"@.len() != "keyManagement"@.len());
    assert("syncBackupHistory"@.len() != "fileTransfer"@.len());
    assert("syncBackupHistory"@.len() != "keyManagement"@.len());
    assert("settings"@.len() != "fileTransfer"@.len());
    assert("settings"@.len() != "keyManagement"@.len());
    assert("savedConnections"@.len() != "fileTransfer"@.len());
    assert("savedConnections"@.len() != "keyManagement"@.len());
    assert("aiAssistant"@.len() != "fileTransfer"@.len());
    assert("aiAssistant"@.len() != "keyManagement"@.len());
    assert("activeSessions"@.len() != "fileTransfer"@.len());
    assert("activeSessions"@.len() != "keyManagement"@.len());
    assert("commandHistory"@.len() != "fileTransfer"@.len());
    assert("commandHistory"@.len() != "keyManagement"@.len());
    assert("resourceMonitor"@.len() != "fileTransfer"@.len());
    assert("resourceMonitor"@.len() != "keyManagement"@.len());
    assert("processManager"@.len() != "fileTransfer"@.len());
    assert("processManager"@.len() != "keyManagement"@.len());
    assert("dockerManager"@.len() != "fileTransfer"@.len());
    assert("dockerManager"@[0] != "keyManagement"@[0]);
    assert("quickCmdBar"@.len() != "fileTransfer"@.len());
    assert("quickCmdBar"@.len() != "keyManagement"@.len());
    assert("serialSend"@.len() != "fileTransfer"@.len());
    assert("serialSend"@.len() != "keyManagement"@.len());
    assert("recording"@.len() != "fileTransfer"@.len());
    assert("recording"@.len() != "keyManagement"@.len());
    assert("lock"@.len() != "fileTransfer"@.len());
    assert("lock"@.len() != "keyManagement"@.len());
    let d1 = spec_default_activity_left_top();
    assert(d1 =~= seq!["fileExplorer"@, "notes"@, "network"@, "securityAuth"@]);
    assert(spec_current_ids(d1)) by {
        assert forall|i: int| 0 <= i < d1.len() implies #[trigger] d1[i] != "fileTransfer"@ && d1[i] != "keyManagement"@ by {
            if i == 0 {
                assert(d1[i] == "fileExplorer"@);
            }
            if i == 1 {
                assert(d1[i] == "notes"@);
            }
            if i == 2 {
                assert(d1[i] == "network"@);
            }
            if i == 3 {
                assert(d1[i] == "securityAuth"@);
            }
        }
    }
    let d2 = spec_default_activity_left_bottom();
    assert(d2 =~= seq!["syncBackupHistory"@, "settings"@]);
    assert(spec_current_ids(d2)) by {
        assert forall|i: int| 0 <= i < d2.len() implies #[trigger] d2[i] != "fileTransfer"@ && d2[i] != "keyManagement"@ by {
            if i == 0 {
                assert(d2[i] == "syncBackupHistory"@);
            }
            if i == 1 {
                assert(d2[i] == "settings"@);
            }
        }
    }
    let d3 = spec_default_activity_right_top();
    assert(d3 =~= seq!["savedConnections"@, "aiAssistant"@, "activeSessions"@, "commandHistory"@, "resourceMonitor"@, "processManager"@, "dockerManager"@]);
    assert(spec_current_ids(d3)) by {
        assert forall|i: int| 0 <= i < d3.len() implies #[trigger] d3[i] != "fileTransfer"@ && d3[i] != "keyManagement"@ by {
            if i == 0 {
                assert(d3[i] == "savedConnections"@);
            }
            if i == 1 {
                assert(d3[i] == "aiAssistant"@);
            }
            if i == 2 {
                assert(d3[i] == "activeSessions"@);
            }
            if i == 3 {
                assert(d3[i] == "commandHistory"@);
            }
            if i == 4 {
                assert(d3[i] == "resourceMonitor"@);
            }
            if i == 5 {
                assert(d3[i] == "processManager"@);
            }
            if i == 6 {
                assert(d3[i] == "dockerManager"@);
            }
        }
    }
    let d4 = spec_default_activity_right_bottom();
    assert(d4 =~= seq!["quickCmdBar"@, "serialSend"@, "recording"@, "lock"@]);
    assert(spec_current_ids(d4)) by {
        assert forall|i: int| 0 <= i < d4.len() implies #[trigger] d4[i] != "fileTransfer"@ && d4[i] != "keyManagement"@ by {
            if i == 0 {
                assert(d4[i] == "quickCmdBar"@);
            }
            if i == 1 {
                assert(d4[i] == "serialSend"@);
            }
            if i == 2 {
                assert(d4[i] == "recording"@);
            }
            if i == 3 {
                assert(d4[i] == "lock"@);
            }
        }
    }
}

/// After normalising, the layout is clean: no entry is placed twice, none
/// is retired or goes by an old name, every default entry is placed
/// somewhere, and the hidden ids are distinct and all placed.
pub proof fn lemma_normalized_layout_is_clean(
    lt: Seq<Seq<char>>,
    lb: Seq<Seq<char>>,
    rt: Seq<Seq<char>>,
    rb: Seq<Seq<char>>,
    hidden: Seq<Seq<char>>,
)
    ensures
        ({
            let n = spec_normalized(lt, lb, rt, rb, hidden);
            &&& spec_placed(n).no_duplicates()
            &&& spec_current_ids(spec_placed(n))
            &&& forall|j: int|
                0 <= j < spec_all_defaults().len() ==> spec_placed(n).contains(
                    #[trigger] spec_all_defaults()[j],
                )
            &&& n.4.no_duplicates()
            &&& forall|x: Seq<char>| n.4.contains(x) ==> spec_placed(n).contains(x)
        }),
{
    broadcast use vstd::multiset::group_multiset_axioms;
    broadcast use vstd::seq_lib::group_to_multiset_ensures;

    let e = Seq::<Seq<char>>::empty();
    let c1 = spec_clean_zone(lt, e);
    let c2 = spec_clean_zone(lb, c1);
    let c3 = spec_clean_zone(rt, c1 + c2);
    let c4 = spec_clean_zone(rb, c1 + c2 + c3);
    let seen = c1 + c2 + c3 + c4;
    lemma_clean_zone_props(lt, e);
    assert(e + c1 =~= c1);
    lemma_clean_zone_props(lb, c1);
    lemma_clean_zone_props(rt, c1 + c2);
    lemma_clean_zone_props(rb, c1 + c2 + c3);
    lemma_current_concat(c1, c2);
    lemma_current_concat(c1 + c2, c3);
    lemma_current_concat(c1 + c2 + c3, c4);
    lemma_no_dup_split(c1 + c2 + c3, c4);
    lemma_no_dup_split(c1 + c2, c3);
    lemma_no_dup_split(c1, c2);
    lemma_defaults_current();
    let d1 = spec_default_activity_left_top();
    let d2 = spec_default_activity_left_bottom();
    let d3 = spec_default_activity_right_top();
    let d4 = spec_default_activity_right_bottom();
    assert forall|x: Seq<char>| c1.contains(x) implies seen.contains(x) by {
        lemma_concat_contains(c1, c2, x);
        lemma_concat_contains(c1 + c2, c3, x);
        lemma_concat_contains(c1 + c2 + c3, c4, x);
    }
    let r1 = spec_restore((c1, seen), d1, d1.len() as int);
    lemma_restore_props(c1, seen, d1, d1.len() as int);
    let s1 = r1.1;
    lemma_prefix_split(s1, seen);
    assert forall|x: Seq<char>| c2.contains(x) implies s1.contains(x) by {
        lemma_concat_contains(c1, c2, x);
        lemma_concat_contains(c1 + c2, c3, x);
        lemma_concat_contains(c1 + c2 + c3, c4, x);
        lemma_concat_contains(seen, s1.skip(seen.len() as int), x);
    }
    let r2 = spec_restore((c2, s1), d2, d2.len() as int);
    lemma_restore_props(c2, s1, d2, d2.len() as int);
    let s2 = r2.1;
    lemma_prefix_split(s2, s1);
    assert forall|x: Seq<char>| c3.contains(x) implies s2.contains(x) by {
        lemma_concat_contains(c1 + c2, c3, x);
        lemma_concat_contains(c1 + c2 + c3, c4, x);
        lemma_concat_contains(seen, s1.skip(seen.len() as int), x);
        lemma_concat_contains(s1, s2.skip(s1.len() as int), x);
    }
    let r3 = spec_restore((c3, s2), d3, d3.len() as int);
    lemma_restore_props(c3, s2, d3, d3.len() as int);
    let s3 = r3.1;
    lemma_prefix_split(s3, s2);
    assert forall|x: Seq<char>| c4.contains(x) implies s3.contains(x) by {
        lemma_concat_contains(c1 + c2 + c3, c4, x);
        lemma_concat_contains(seen, s1.skip(seen.len() as int), x);
        lemma_concat_contains(s1, s2.skip(s1.len() as int), x);
        lemma_concat_contains(s2, s3.skip(s2.len() as int), x);
    }
    let r4 = spec_restore((c4, s3), d4, d4.len() as int);
    lemma_restore_props(c4, s3, d4, d4.len() as int);
    let s4 = r4.1;
    lemma_prefix_split(s4, s3);
    let n = spec_normalized(lt, lb, rt, rb, hidden);
    assert(n.0 == r1.0 && n.1 == r2.0 && n.2 == r3.0 && n.3 == r4.0);
    let placed = spec_placed(n);
    let n1 = s1.skip(seen.len() as int);
    let n2 = s2.skip(s1.len() as int);
    let n3 = s3.skip(s2.len() as int);
    let n4 = s4.skip(s3.len() as int);
    vstd::seq_lib::lemma_multiset_commutative(r1.0, r2.0);
    vstd::seq_lib::lemma_multiset_commutative(r1.0 + r2.0, r3.0);
    vstd::seq_lib::lemma_multiset_commutative(r1.0 + r2.0 + r3.0, r4.0);
    vstd::seq_lib::lemma_multiset_commutative(c1, c2);
    vstd::seq_lib::lemma_multiset_commutative(c1 + c2, c3);
    vstd::seq_lib::lemma_multiset_commutative(c1 + c2 + c3, c4);
    vstd::seq_lib::lemma_multiset_commutative(seen, n1);
    vstd::seq_lib::lemma_multiset_commutative(s1, n2);
    vstd::seq_lib::lemma_multiset_commutative(s2, n3);
    vstd::seq_lib::lemma_multiset_commutative(s3, n4);
    assert(placed.to_multiset() =~= s4.to_multiset());
    s4.lemma_multiset_has_no_duplicates();
    placed.lemma_multiset_has_no_duplicates_conv();
    assert forall|x: Seq<char>| placed.contains(x) <==> s4.contains(x) by {
        assert(placed.to_multiset().count(x) == s4.to_multiset().count(x));
    }
    assert forall|i: int| 0 <= i < placed.len() implies #[trigger] placed[i] != "fileTransfer"@
        && placed[i] != "keyManagement"@ by {
        assert(placed.contains(placed[i]));
        let j = choose|j: int| 0 <= j < s4.len() && s4[j] == placed[i];
        assert(s4[j] != "fileTransfer"@ && s4[j] != "keyManagement"@);
    }
    let all = spec_all_defaults();
    assert forall|j: int| 0 <= j < all.len() implies placed.contains(#[trigger] all[j]) by {
        let x = all[j];
        if j < d1.len() {
            assert(x == d1[j]);
            assert(s1.contains(d1[j]));
            lemma_concat_contains(s1, n2, x);
            lemma_concat_contains(s2, n3, x);
            lemma_concat_contains(s3, n4, x);
        } else if j < d1.len() + d2.len() {
            assert(x == d2[j - d1.len()]);
            assert(s2.contains(d2[j - d1.len()]));
            lemma_concat_contains(s2, n3, x);
            lemma_concat_contains(s3, n4, x);
        } else if j < d1.len() + d2.len() + d3.len() {
            assert(x == d3[j - d1.len() - d2.len()]);
            assert(s3.contains(d3[j - d1.len() - d2.len()]));
            lemma_concat_contains(s3, n4, x);
        } else {
            assert(x == d4[j - d1.len() - d2.len() - d3.len()]);
            assert(s4.contains(d4[j - d1.len() - d2.len() - d3.len()]));
        }
    }
    lemma_clean_hidden_props(hidden, s4);
}

/// A zone of distinct current ids that are new to `seen` is kept as it is.
proof fn lemma_clean_zone_keeps_clean(raw: Seq<Seq<char>>, seen: Seq<Seq<char>>)
    requires
        (seen + raw).no_duplicates(),
        spec_current_ids(raw),
    ensures
        spec_clean_zone(raw, seen) == raw,
    decreases raw.len(),
{
    if raw.len() > 0 {
        let init = raw.drop_last();
        assert(seen + init + seq![raw.last()] =~= seen + raw);
        lemma_no_dup_split(seen + init, seq![raw.last()]);
        assert(seq![raw.last()][0] == raw.last());
        assert(seq![raw.last()].contains(raw.last()));
        assert(spec_current_ids(init)) by {
            assert forall|i: int| 0 <= i < init.len() implies #[trigger] init[i]
                != "fileTransfer"@ && init[i] != "keyManagement"@ by {
                assert(init[i] == raw[i]);
            }
        }
        lemma_clean_zone_keeps_clean(init, seen);
        assert(raw.last() == raw[raw.len() - 1]);
        lemma_concat_contains(seen, init, raw.last());
        assert(init.push(raw.last()) =~= raw);
    }
}

/// Defaults that are all seen already put nothing back.
proof fn lemma_restore_nothing_missing(
    t: Seq<Seq<char>>,
    seen: Seq<Seq<char>>,
    d: Seq<Seq<char>>,
    k: int,
)
    requires
        0 <= k <= d.len(),
        forall|j: int| 0 <= j < d.len() ==> seen.contains(#[trigger] d[j]),
    ensures
        spec_restore((t, seen), d, k) == (t, seen),
    decreases k,
{
    if k > 0 {
        lemma_restore_nothing_missing(t, seen, d, k - 1);
        assert(seen.contains(d[k - 1]));
    }
}

/// Hidden ids that are distinct, current and placed are kept as they are.
proof fn lemma_clean_hidden_keeps_clean(h: Seq<Seq<char>>, seen: Seq<Seq<char>>)
    requires
        h.no_duplicates(),
        spec_current_ids(h),
        forall|x: Seq<char>| h.contains(x) ==> seen.contains(x),
    ensures
        spec_clean_hidden(h, seen) == h,
    decreases h.len(),
{
    if h.len() > 0 {
        let init = h.drop_last();
        assert(spec_current_ids(init)) by {
            assert forall|i: int| 0 <= i < init.len() implies #[trigger] init[i]
                != "fileTransfer"@ && init[i] != "keyManagement"@ by {
                assert(init[i] == h[i]);
            }
        }
        assert(init.no_duplicates()) by {
            assert forall|i: int, j: int|
                0 <= i < init.len() && 0 <= j < init.len() && i != j implies init[i]
                != init[j] by {
                assert(init[i] == h[i] && init[j] == h[j]);
            }
        }
        assert forall|x: Seq<char>| init.contains(x) implies seen.contains(x) by {
            let i = choose|i: int| 0 <= i < init.len() && init[i] == x;
            assert(h[i] == x);
        }
        lemma_clean_hidden_keeps_clean(init, seen);
        assert(h.last() == h[h.len() - 1]);
        assert(h.contains(h.last()));
        if init.contains(h.last()) {
            let i = choose|i: int| 0 <= i < init.len() && init[i] == h.last();
            assert(h[i] == h[h.len() - 1]);
        }
        assert(init.push(h.last()) =~= h);
    }
}

/// Normalising a normalised layout changes nothing.
pub proof fn lemma_normalize_is_idempotent(
    lt: Seq<Seq<char>>,
    lb: Seq<Seq<char>>,
    rt: Seq<Seq<char>>,
    rb: Seq<Seq<char>>,
    hidden: Seq<Seq<char>>,
)
    ensures
        ({
            let n = spec_normalized(lt, lb, rt, rb, hidden);
            spec_normalized(n.0, n.1, n.2, n.3, n.4) == n
        }),
{
    let n = spec_normalized(lt, lb, rt, rb, hidden);
    lemma_normalized_layout_is_clean(lt, lb, rt, rb, hidden);
    let (r1, r2, r3, r4, h) = n;
    let placed = spec_placed(n);
    let e = Seq::<Seq<char>>::empty();
    lemma_no_dup_split(r1 + r2 + r3, r4);
    lemma_no_dup_split(r1 + r2, r3);
    lemma_no_dup_split(r1, r2);
    assert forall|i: int| 0 <= i < r1.len() implies #[trigger] r1[i] != "fileTransfer"@ && r1[i]
        != "keyManagement"@ by {
        assert(placed[i] == r1[i]);
    }
    assert forall|i: int| 0 <= i < r2.len() implies #[trigger] r2[i] != "fileTransfer"@ && r2[i]
        != "keyManagement"@ by {
        assert(placed[r1.len() + i] == r2[i]);
    }
    assert forall|i: int| 0 <= i < r3.len() implies #[trigger] r3[i] != "fileTransfer"@ && r3[i]
        != "keyManagement"@ by {
        assert(placed[r1.len() + r2.len() + i] == r3[i]);
    }
    assert forall|i: int| 0 <= i < r4.len() implies #[trigger] r4[i] != "fileTransfer"@ && r4[i]
        != "keyManagement"@ by {
        assert(placed[r1.len() + r2.len() + r3.len() + i] == r4[i]);
    }
    assert(e + r1 =~= r1);
    lemma_clean_zone_keeps_clean(r1, e);
    lemma_clean_zone_keeps_clean(r2, r1);
    lemma_clean_zone_keeps_clean(r3, r1 + r2);
    lemma_clean_zone_keeps_clean(r4, r1 + r2 + r3);
    let d1 = spec_default_activity_left_top();
    let d2 = spec_default_activity_left_bottom();
    let d3 = spec_default_activity_right_top();
    let d4 = spec_default_activity_right_bottom();
    let all = spec_all_defaults();
    assert forall|j: int| 0 <= j < d1.len() implies placed.contains(#[trigger] d1[j]) by {
        assert(all[j] == d1[j]);
    }
    assert forall|j: int| 0 <= j < d2.len() implies placed.contains(#[trigger] d2[j]) by {
        assert(all[d1.len() + j] == d2[j]);
    }
    assert forall|j: int| 0 <= j < d3.len() implies placed.contains(#[trigger] d3[j]) by {
        assert(all[d1.len() + d2.len() + j] == d3[j]);
    }
    assert forall|j: int| 0 <= j < d4.len() implies placed.contains(#[trigger] d4[j]) by {
        assert(all[d1.len() + d2.len() + d3.len() + j] == d4[j]);
    }
    lemma_restore_nothing_missing(r1, placed, d1, d1.len() as int);
    lemma_restore_nothing_missing(r2, placed, d2, d2.len() as int);
    lemma_restore_nothing_missing(r3, placed, d3, d3.len() as int);
    lemma_restore_nothing_missing(r4, placed, d4, d4.len() as int);
    assert(spec_current_ids(h)) by {
        assert forall|i: int| 0 <= i < h.len() implies #[trigger] h[i] != "fileTransfer"@ && h[i]
            != "keyManagement"@ by {
            assert(h.contains(h[i]));
            let j = choose|j: int| 0 <= j < placed.len() && placed[j] == h[i];
            assert(placed[j] != "fileTransfer"@);
        }
    }
    lemma_clean_hidden_keeps_clean(h, placed);
}

} // verus!
