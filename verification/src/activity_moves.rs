//! Changing the activity bars: hiding and showing entries, putting the
//! default layout back, and dragging an entry to another place or zone,
//! with the panels that the change affects.

use vstd::multiset::Multiset;
use vstd::prelude::*;

use crate::activity_bar::{
    activity_zone_side, index_of, lemma_index_of_bound, normalize_activity_bar_layout,
    spec_default_zone, spec_entry_visible, spec_index_of, spec_known_entries, spec_normalized,
    spec_shown_entries, spec_side_for_entry, spec_zone_side, ActivityBarLayout, ActivityBarZone,
    PanelAvailability, PanelSide,
};
use crate::panels::{remove_all, spec_side_without, spec_without, PanelsState, SideView};
use crate::settings::json::{contains_text, strings_view};
use crate::text::str_eq;

verus! {

/// The layout as sequences of ids.
pub struct LayoutModel {
    pub left_top: Seq<Seq<char>>,
    pub left_bottom: Seq<Seq<char>>,
    pub right_top: Seq<Seq<char>>,
    pub right_bottom: Seq<Seq<char>>,
    pub show_labels: bool,
    pub hidden: Seq<Seq<char>>,
}

/// The layout as sequences of ids.
pub open spec fn layout_model(l: &ActivityBarLayout) -> LayoutModel {
    LayoutModel {
        left_top: strings_view(l.left_top@),
        left_bottom: strings_view(l.left_bottom@),
        right_top: strings_view(l.right_top@),
        right_bottom: strings_view(l.right_bottom@),
        show_labels: l.show_labels,
        hidden: strings_view(l.hidden_items@),
    }
}

/// The ids of `zone`.
pub open spec fn model_zone(m: LayoutModel, zone: ActivityBarZone) -> Seq<Seq<char>> {
    match zone {
        ActivityBarZone::LeftTop => m.left_top,
        ActivityBarZone::LeftBottom => m.left_bottom,
        ActivityBarZone::RightTop => m.right_top,
        ActivityBarZone::RightBottom => m.right_bottom,
    }
}

/// `m` with the ids of `zone` replaced by `ids`.
pub open spec fn model_with_zone(m: LayoutModel, zone: ActivityBarZone, ids: Seq<Seq<char>>) -> LayoutModel {
    match zone {
        ActivityBarZone::LeftTop => LayoutModel { left_top: ids, ..m },
        ActivityBarZone::LeftBottom => LayoutModel { left_bottom: ids, ..m },
        ActivityBarZone::RightTop => LayoutModel { right_top: ids, ..m },
        ActivityBarZone::RightBottom => LayoutModel { right_bottom: ids, ..m },
    }
}

/// Both sides of the panels.
pub open spec fn panels_model(p: &PanelsState) -> (SideView, SideView) {
    (p.side_view(PanelSide::Left), p.side_view(PanelSide::Right))
}

/// The panels after `id` leaves `side`; the other side is untouched.
pub open spec fn spec_panels_without(s: (SideView, SideView), side: PanelSide, id: Seq<char>) -> (
    SideView,
    SideView,
) {
    match side {
        PanelSide::Left => (spec_side_without(s.0, id), s.1),
        PanelSide::Right => (s.0, spec_side_without(s.1, id)),
    }
}

impl ActivityBarLayout {
    /// Hides `id`; `false` when it was hidden already.
    pub fn hide_entry(&mut self, id: &String) -> (r: bool)
        ensures
            r == !layout_model(old(self)).hidden.contains(id@),
            layout_model(final(self)) == (LayoutModel {
                hidden: if r {
                    layout_model(old(self)).hidden.push(id@)
                } else {
                    layout_model(old(self)).hidden
                },
                ..layout_model(old(self))
            }),
    {
        if contains_text(&self.hidden_items, id) {
            return false;
        }
        let ghost before = self.hidden_items@;
        self.hidden_items.push(id.clone());
        proof {
            assert(strings_view(self.hidden_items@) =~= strings_view(before).push(id@));
        }
        true
    }

    /// Shows `id` again; `false` when it was not hidden.
    pub fn show_entry(&mut self, id: &String) -> (r: bool)
        ensures
            r == layout_model(old(self)).hidden.contains(id@),
            layout_model(final(self)) == (LayoutModel {
                hidden: spec_without(layout_model(old(self)).hidden, id@),
                ..layout_model(old(self))
            }),
    {
        let shown = contains_text(&self.hidden_items, id);
        remove_all(&mut self.hidden_items, id.as_str());
        proof {
            if !shown {
                lemma_without_absent(strings_view(old(self).hidden_items@), id@);
            }
        }
        shown
    }

    /// Whether any entry is hidden.
    pub fn has_hidden_entries(&self) -> (r: bool)
        ensures
            r == (self.hidden_items@.len() > 0),
    {
        self.hidden_items.len() > 0
    }
}

/// Taking out an id that is not there changes nothing.
proof fn lemma_without_absent(s: Seq<Seq<char>>, id: Seq<char>)
    requires
        !s.contains(id),
    ensures
        spec_without(s, id) == s,
    decreases s.len(),
{
    if s.len() > 0 {
        assert(!s.drop_last().contains(id)) by {
            if s.drop_last().contains(id) {
                let j = choose|j: int| 0 <= j < s.drop_last().len() && s.drop_last()[j] == id;
                assert(s[j] == id);
            }
        }
        lemma_without_absent(s.drop_last(), id);
        assert(s.drop_last().push(s.last()) =~= s);
    }
}

/// The layout with `id` hidden; unchanged when it was hidden already.
pub open spec fn spec_hide_layout(m: LayoutModel, id: Seq<char>) -> LayoutModel {
    if m.hidden.contains(id) {
        m
    } else {
        LayoutModel { hidden: m.hidden.push(id), ..m }
    }
}

/// The layout with `id` shown again.
pub open spec fn spec_show_layout(m: LayoutModel, id: Seq<char>) -> LayoutModel {
    LayoutModel { hidden: spec_without(m.hidden, id), ..m }
}

/// Hides the entry `id` from the bars and takes its panel off the side that
/// held it; `false`, with nothing changed, when it was hidden already.
pub fn hide_activity_entry(layout: &mut ActivityBarLayout, panels: &mut PanelsState, entry_id: &String) -> (r:
    bool)
    ensures
        r == !layout_model(old(layout)).hidden.contains(entry_id@),
        layout_model(final(layout)) == spec_hide_layout(layout_model(old(layout)), entry_id@),
        panels_model(final(panels)) == (if r && spec_side_for_entry(old(layout), entry_id@) is Some {
            spec_panels_without(
                panels_model(old(panels)),
                spec_side_for_entry(old(layout), entry_id@)->0,
                entry_id@,
            )
        } else {
            panels_model(old(panels))
        }),
{
    let side = layout.side_for_entry(entry_id);
    if !layout.hide_entry(entry_id) {
        return false;
    }
    if let Some(side) = side {
        panels.clear_activity_entry_from_side(entry_id.as_str(), side);
    }
    true
}

/// Shows the entry `id` on the bars again; `false` when it was not hidden.
pub fn show_activity_entry(layout: &mut ActivityBarLayout, entry_id: &String) -> (r: bool)
    ensures
        r == layout_model(old(layout)).hidden.contains(entry_id@),
        layout_model(final(layout)) == spec_show_layout(layout_model(old(layout)), entry_id@),
{
    layout.show_entry(entry_id)
}

/// Showing an entry that was just hidden puts the bars back as they were.
pub proof fn lemma_show_undoes_hide(m: LayoutModel, id: Seq<char>)
    requires
        !m.hidden.contains(id),
    ensures
        spec_show_layout(spec_hide_layout(m, id), id) == m,
{
    lemma_without_absent(m.hidden, id);
    assert(spec_without(m.hidden.push(id), id) == spec_without(m.hidden, id)) by {
        assert(m.hidden.push(id).drop_last() =~= m.hidden);
    }
}

/// Once shown, an entry is not hidden, whatever was hidden before.
pub proof fn lemma_shown_entry_is_not_hidden(m: LayoutModel, id: Seq<char>)
    ensures
        !spec_show_layout(m, id).hidden.contains(id),
    decreases m.hidden.len(),
{
    if m.hidden.len() > 0 {
        lemma_shown_entry_is_not_hidden(LayoutModel { hidden: m.hidden.drop_last(), ..m }, id);
        let r = spec_without(m.hidden.drop_last(), id);
        if m.hidden.last() != id {
            assert(spec_without(m.hidden, id) == r.push(m.hidden.last()));
            if r.push(m.hidden.last()).contains(id) {
                let k = choose|k: int| 0 <= k < r.len() + 1 && r.push(m.hidden.last())[k] == id;
                assert(r[k] == id);
            }
        }
    }
}

/// Shows the labels under the entries if they were hidden, and hides them
/// if they were shown; whether they are shown now.
pub fn toggle_activity_bar_labels(layout: &mut ActivityBarLayout) -> (shown: bool)
    ensures
        shown == !old(layout).show_labels,
        layout_model(final(layout)) == (LayoutModel { show_labels: shown, ..layout_model(old(layout)) }),
{
    layout.show_labels = !layout.show_labels;
    layout.show_labels
}

/// A side with nothing open, active or floating, collapsed.
pub open spec fn spec_closed_side() -> SideView {
    SideView { open: seq![], active: None, floating: None, collapsed: true }
}

/// The default layout as normalising leaves it.
pub open spec fn spec_reset_layout() -> LayoutModel {
    let n = spec_normalized(
        spec_default_zone(ActivityBarZone::LeftTop),
        spec_default_zone(ActivityBarZone::LeftBottom),
        spec_default_zone(ActivityBarZone::RightTop),
        spec_default_zone(ActivityBarZone::RightBottom),
        seq![],
    );
    LayoutModel {
        left_top: n.0,
        left_bottom: n.1,
        right_top: n.2,
        right_bottom: n.3,
        show_labels: false,
        hidden: n.4,
    }
}

/// Puts the default layout back and closes every panel on both sides,
/// since an open panel may belong to an entry that moved sides.
pub fn reset_activity_bar_layout(layout: &mut ActivityBarLayout, panels: &mut PanelsState)
    ensures
        layout_model(final(layout)) == spec_reset_layout(),
        panels_model(final(panels)) == (spec_closed_side(), spec_closed_side()),
{
    *layout = ActivityBarLayout::default();
    proof {
        assert(strings_view(layout.hidden_items@) =~= Seq::<Seq<char>>::empty());
    }
    normalize_activity_bar_layout(layout);
    panels.left_open = Vec::new();
    panels.right_open = Vec::new();
    panels.active_left = None;
    panels.active_right = None;
    panels.floating_left = None;
    panels.floating_right = None;
    panels.left_collapsed = true;
    panels.right_collapsed = true;
    proof {
        assert(strings_view(panels.left_open@) =~= Seq::<Seq<char>>::empty());
        assert(strings_view(panels.right_open@) =~= Seq::<Seq<char>>::empty());
    }
}


/// Where `id` sits: the first zone, walking the zones in order, that holds
/// it, and its place there.
pub open spec fn spec_find_entry(m: LayoutModel, id: Seq<char>) -> Option<(ActivityBarZone, int)> {
    match spec_index_of(m.left_top, id) {
        Some(i) => Some((ActivityBarZone::LeftTop, i)),
        None => match spec_index_of(m.left_bottom, id) {
            Some(i) => Some((ActivityBarZone::LeftBottom, i)),
            None => match spec_index_of(m.right_top, id) {
                Some(i) => Some((ActivityBarZone::RightTop, i)),
                None => match spec_index_of(m.right_bottom, id) {
                    Some(i) => Some((ActivityBarZone::RightBottom, i)),
                    None => None,
                },
            },
        },
    }
}

/// The shown entries of a zone after the one at `pos` is dropped at the
/// slot `target` (counted among the shown entries, the end when absent):
/// it leaves its place, and a slot after it counts one less.
pub open spec fn spec_reorder(shown: Seq<Seq<char>>, pos: int, target: Option<int>) -> Seq<Seq<char>> {
    let rest = shown.remove(pos);
    let wanted = match target {
        Some(t) => t,
        None => rest.len() as int,
    };
    let shifted = if pos < wanted {
        wanted - 1
    } else {
        wanted
    };
    let at = if shifted > rest.len() {
        rest.len() as int
    } else {
        shifted
    };
    rest.insert(at, shown[pos])
}

/// `zone` with its entries that `shown` holds replaced, in order, by those
/// of `reordered`; the entries that are not shown keep their places.
pub open spec fn spec_merge_reorder(
    zone: Seq<Seq<char>>,
    shown: Seq<Seq<char>>,
    reordered: Seq<Seq<char>>,
) -> Seq<Seq<char>>
    decreases zone.len(),
{
    if zone.len() == 0 {
        seq![]
    } else if shown.contains(zone[0]) && reordered.len() > 0 {
        seq![reordered[0]] + spec_merge_reorder(zone.drop_first(), shown, reordered.drop_first())
    } else {
        seq![zone[0]] + spec_merge_reorder(zone.drop_first(), shown, reordered)
    }
}

/// Where in the zone `ids` an entry dropped at the slot `target` (counted
/// among the shown entries `shown`) goes: at the place of the shown entry
/// in that slot, else at the end.
pub open spec fn spec_cross_insert_at(ids: Seq<Seq<char>>, shown: Seq<Seq<char>>, target: Option<int>) -> int {
    match target {
        Some(i) => if 0 <= i < shown.len() {
            match spec_index_of(ids, shown[i]) {
                Some(p) => p,
                None => ids.len() as int,
            }
        } else {
            ids.len() as int
        },
        None => ids.len() as int,
    }
}

/// The layout after the entry `id`, shown in `zone`, is dragged to the
/// slot `target` of that zone; `None` when it is not shown there.
pub open spec fn spec_reorder_zone(
    m: LayoutModel,
    a: PanelAvailability,
    id: Seq<char>,
    zone: ActivityBarZone,
    target: Option<int>,
) -> Option<LayoutModel> {
    let ids = model_zone(m, zone);
    let shown = spec_shown_entries(ids, m.hidden, a);
    match spec_index_of(shown, id) {
        None => None,
        Some(pos) => Some(
            model_with_zone(m, zone, spec_merge_reorder(ids, shown, spec_reorder(shown, pos, target))),
        ),
    }
}

/// The layout after the entry at `index` of `source` is dragged to the
/// slot `target` of another zone.
pub open spec fn spec_cross_move(
    m: LayoutModel,
    a: PanelAvailability,
    id: Seq<char>,
    source: ActivityBarZone,
    index: int,
    zone: ActivityBarZone,
    target: Option<int>,
) -> LayoutModel {
    let lifted = model_with_zone(m, source, model_zone(m, source).remove(index));
    let ids = model_zone(lifted, zone);
    let at = spec_cross_insert_at(ids, spec_shown_entries(ids, lifted.hidden, a), target);
    model_with_zone(lifted, zone, ids.insert(at, id))
}

/// The layout after the entry `id` is dragged to the slot `target` of
/// `zone`; `None` when no zone holds it, or when it is dragged within its
/// zone but not shown there.
pub open spec fn spec_move_layout(
    m: LayoutModel,
    a: PanelAvailability,
    id: Seq<char>,
    zone: ActivityBarZone,
    target: Option<int>,
) -> Option<LayoutModel> {
    match spec_find_entry(m, id) {
        None => None,
        Some((source, index)) => if source == zone {
            spec_reorder_zone(m, a, id, zone, target)
        } else {
            Some(spec_cross_move(m, a, id, source, index, zone, target))
        },
    }
}

/// The panels after an entry moves from `from` to `to`: across sides its
/// panel leaves the old side, and a floating one floats on the new side.
pub open spec fn spec_move_panels(
    p: (SideView, SideView),
    from: PanelSide,
    to: PanelSide,
    id: Seq<char>,
) -> (SideView, SideView) {
    if from == to {
        p
    } else {
        let floating = match from {
            PanelSide::Left => p.0.floating,
            PanelSide::Right => p.1.floating,
        };
        let q = spec_panels_without(p, from, id);
        if floating == Some(id) {
            match to {
                PanelSide::Left => (SideView { floating: Some(id), ..q.0 }, q.1),
                PanelSide::Right => (q.0, SideView { floating: Some(id), ..q.1 }),
            }
        } else {
            q
        }
    }
}

/// The zone that holds `id` (meaningful only where one does).
pub open spec fn spec_found_zone(m: LayoutModel, id: Seq<char>) -> ActivityBarZone {
    match spec_find_entry(m, id) {
        Some((zone, _)) => zone,
        None => ActivityBarZone::LeftTop,
    }
}

/// What dragging an entry did.
#[derive(Clone, Copy, Debug, PartialEq, Eq, Structural)]
pub enum ActivityMoveOutcome {
    /// No zone holds the entry.
    NotFound,
    /// The entry was dragged within its zone, where it is not shown.
    NotShown,
    /// The entry moved.
    Moved,
}

/// A found index names the entry there.
proof fn lemma_index_of_found(t: Seq<Seq<char>>, x: Seq<char>)
    ensures
        spec_index_of(t, x) matches Some(i) ==> 0 <= i < t.len() && t[i] == x,
    decreases t.len(),
{
    if t.len() > 0 && t[0] != x {
        lemma_index_of_found(t.drop_first(), x);
    }
}

/// A copy of `v`.
fn copy_ids(v: &Vec<String>) -> (r: Vec<String>)
    ensures
        strings_view(r@) == strings_view(v@),
{
    let mut r: Vec<String> = Vec::new();
    let mut i: usize = 0;
    while i < v.len()
        invariant
            i <= v@.len(),
            strings_view(r@) == strings_view(v@).take(i as int),
        decreases v@.len() - i,
    {
        let ghost before = strings_view(r@);
        r.push(v[i].clone());
        assert(strings_view(r@) =~= before.push(v@[i as int]@));
        assert(strings_view(v@).take(i + 1) =~= strings_view(v@).take(i as int).push(v@[i as int]@));
        i += 1;
    }
    assert(strings_view(v@).take(v@.len() as int) =~= strings_view(v@));
    r
}

/// `zone` with its shown entries replaced, in order, by `reordered`.
fn merge_reorder(zone: &Vec<String>, shown: &Vec<String>, reordered: &Vec<String>) -> (r: Vec<String>)
    ensures
        strings_view(r@) == spec_merge_reorder(
            strings_view(zone@),
            strings_view(shown@),
            strings_view(reordered@),
        ),
{
    let ghost zv = strings_view(zone@);
    let ghost sv = strings_view(shown@);
    let ghost qv = strings_view(reordered@);
    let mut out: Vec<String> = Vec::new();
    let mut i: usize = 0;
    let mut q: usize = 0;
    proof {
        assert(zv.skip(0) =~= zv);
        assert(qv.skip(0) =~= qv);
        assert(strings_view(out@) + spec_merge_reorder(zv, sv, qv) =~= spec_merge_reorder(zv, sv, qv));
    }
    while i < zone.len()
        invariant
            i <= zone@.len(),
            q <= reordered@.len(),
            zv == strings_view(zone@),
            sv == strings_view(shown@),
            qv == strings_view(reordered@),
            strings_view(out@) + spec_merge_reorder(zv.skip(i as int), sv, qv.skip(q as int))
                == spec_merge_reorder(zv, sv, qv),
        decreases zone@.len() - i,
    {
        let ghost before = strings_view(out@);
        let ghost rest = zv.skip(i as int);
        assert(rest[0] == zv[i as int]);
        assert(rest.drop_first() =~= zv.skip(i + 1));
        if contains_text(shown, &zone[i]) && q < reordered.len() {
            out.push(reordered[q].clone());
            proof {
                assert(qv.skip(q as int)[0] == qv[q as int]);
                assert(qv.skip(q as int).drop_first() =~= qv.skip(q + 1));
                assert(strings_view(out@) =~= before.push(qv[q as int]));
                assert(strings_view(out@) + spec_merge_reorder(zv.skip(i + 1), sv, qv.skip(q + 1))
                    =~= before + (seq![qv[q as int]] + spec_merge_reorder(
                    zv.skip(i + 1),
                    sv,
                    qv.skip(q + 1),
                )));
            }
            q += 1;
        } else {
            out.push(zone[i].clone());
            proof {
                assert(strings_view(out@) =~= before.push(zv[i as int]));
                assert(strings_view(out@) + spec_merge_reorder(zv.skip(i + 1), sv, qv.skip(q as int))
                    =~= before + (seq![zv[i as int]] + spec_merge_reorder(
                    zv.skip(i + 1),
                    sv,
                    qv.skip(q as int),
                )));
            }
        }
        i += 1;
    }
    proof {
        assert(zv.skip(i as int) =~= Seq::<Seq<char>>::empty());
        assert(strings_view(out@) + Seq::<Seq<char>>::empty() =~= strings_view(out@));
    }
    out
}

impl ActivityBarLayout {
    /// Replaces the ids of `zone`.
    fn set_zone(&mut self, zone: ActivityBarZone, ids: Vec<String>)
        ensures
            layout_model(final(self)) == model_with_zone(
                layout_model(old(self)),
                zone,
                strings_view(ids@),
            ),
    {
        match zone {
            ActivityBarZone::LeftTop => self.left_top = ids,
            ActivityBarZone::LeftBottom => self.left_bottom = ids,
            ActivityBarZone::RightTop => self.right_top = ids,
            ActivityBarZone::RightBottom => self.right_bottom = ids,
        }
    }

    /// Where `id` sits: its zone and place (see `spec_find_entry`).
    pub fn find_entry(&self, id: &String) -> (r: Option<(ActivityBarZone, usize)>)
        ensures
            match r {
                Some((zone, i)) => spec_find_entry(layout_model(self), id@) == Some(
                    (zone, i as int),
                ),
                None => spec_find_entry(layout_model(self), id@) is None,
            },
    {
        if let Some(i) = index_of(&self.left_top, id) {
            return Some((ActivityBarZone::LeftTop, i));
        }
        if let Some(i) = index_of(&self.left_bottom, id) {
            return Some((ActivityBarZone::LeftBottom, i));
        }
        if let Some(i) = index_of(&self.right_top, id) {
            return Some((ActivityBarZone::RightTop, i));
        }
        if let Some(i) = index_of(&self.right_bottom, id) {
            return Some((ActivityBarZone::RightBottom, i));
        }
        None
    }
}

/// Whether `o` names `id`.
fn names(o: &Option<String>, id: &String) -> (r: bool)
    ensures
        r == (match *o {
            Some(s) => Some(s@),
            None => None,
        } == Some(id@)),
{
    match o {
        Some(s) => str_eq(s.as_str(), id.as_str()),
        None => false,
    }
}

/// The optional slot as an integer.
pub open spec fn spec_slot(target: Option<usize>) -> Option<int> {
    match target {
        Some(t) => Some(t as int),
        None => None,
    }
}

/// Drags `entry_id`, shown in `zone`, to the slot `target_index` of that
/// zone; `false`, with nothing changed, when it is not shown there.
fn reorder_within_zone(
    layout: &mut ActivityBarLayout,
    availability: PanelAvailability,
    entry_id: &String,
    zone: ActivityBarZone,
    target_index: Option<usize>,
) -> (moved: bool)
    ensures
        match spec_reorder_zone(
            layout_model(old(layout)),
            availability,
            entry_id@,
            zone,
            spec_slot(target_index),
        ) {
            None => !moved && layout_model(final(layout)) == layout_model(old(layout)),
            Some(m) => moved && layout_model(final(layout)) == m,
        },
{
    let ghost target = spec_slot(target_index);
    let shown = layout.activity_entries_for_zone(zone, availability);
    let pos = match index_of(&shown, entry_id) {
        None => {
            return false;
        },
        Some(pos) => pos,
    };
    proof {
        lemma_index_of_found(strings_view(shown@), entry_id@);
    }
    let mut visible = copy_ids(&shown);
    let ghost sv = strings_view(shown@);
    let moved = visible.remove(pos);
    proof {
        assert(strings_view(visible@) =~= sv.remove(pos as int));
    }
    let mut insert_at = match target_index {
        Some(t) => t,
        None => visible.len(),
    };
    if pos < insert_at {
        insert_at = insert_at - 1;
    }
    if insert_at > visible.len() {
        insert_at = visible.len();
    }
    let ghost rest = strings_view(visible@);
    visible.insert(insert_at, moved);
    proof {
        assert(strings_view(visible@) =~= rest.insert(insert_at as int, sv[pos as int]));
        assert(strings_view(visible@) == spec_reorder(sv, pos as int, target));
    }
    let merged = merge_reorder(layout.zone(zone), &shown, &visible);
    layout.set_zone(zone, merged);
    true
}

/// Drags the entry at `source_index` of `source_zone`, which is
/// `entry_id`, to the slot `target_index` of another zone.
fn move_to_zone(
    layout: &mut ActivityBarLayout,
    availability: PanelAvailability,
    entry_id: &String,
    source_zone: ActivityBarZone,
    source_index: usize,
    target_zone: ActivityBarZone,
    target_index: Option<usize>,
)
    requires
        source_zone != target_zone,
        source_index < model_zone(layout_model(old(layout)), source_zone).len(),
        model_zone(layout_model(old(layout)), source_zone)[source_index as int] == entry_id@,
    ensures
        layout_model(final(layout)) == spec_cross_move(
            layout_model(old(layout)),
            availability,
            entry_id@,
            source_zone,
            source_index as int,
            target_zone,
            spec_slot(target_index),
        ),
{
    let mut source_ids = copy_ids(layout.zone(source_zone));
    let ghost before_src = strings_view(source_ids@);
    let removed = source_ids.remove(source_index);
    proof {
        assert(strings_view(source_ids@) =~= before_src.remove(source_index as int));
    }
    layout.set_zone(source_zone, source_ids);
    let ghost m1 = layout_model(layout);
    let shown = layout.activity_entries_for_zone(target_zone, availability);
    let target_ids = layout.zone(target_zone);
    let at = match target_index {
        Some(i) => if i < shown.len() {
            match index_of(target_ids, &shown[i]) {
                Some(p) => p,
                None => target_ids.len(),
            }
        } else {
            target_ids.len()
        },
        None => target_ids.len(),
    };
    proof {
        lemma_index_of_bound(model_zone(m1, target_zone), spec_index_of_arg(shown@, target_index));
    }
    let mut new_target = copy_ids(target_ids);
    let ghost before_tgt = strings_view(new_target@);
    new_target.insert(at, removed);
    proof {
        assert(strings_view(new_target@) =~= before_tgt.insert(at as int, entry_id@));
    }
    layout.set_zone(target_zone, new_target);
}

/// Moves the panel of `entry_id` along with its entry from `from` to `to`.
fn move_entry_panels(panels: &mut PanelsState, entry_id: &String, from: PanelSide, to: PanelSide)
    ensures
        panels_model(final(panels)) == spec_move_panels(panels_model(old(panels)), from, to, entry_id@),
{
    if from != to {
        let moved_floating = match from {
            PanelSide::Left => names(&panels.floating_left, entry_id),
            PanelSide::Right => names(&panels.floating_right, entry_id),
        };
        panels.clear_activity_entry_from_side(entry_id.as_str(), from);
        if moved_floating {
            match to {
                PanelSide::Left => panels.floating_left = Some(entry_id.clone()),
                PanelSide::Right => panels.floating_right = Some(entry_id.clone()),
            }
        }
    }
}

/// Drags the entry `id` to the slot `target_index` of `target_zone`, the
/// slot counted among the entries shown there (see `spec_move_layout` and
/// `spec_move_panels`).
pub fn move_activity_entry(
    layout: &mut ActivityBarLayout,
    panels: &mut PanelsState,
    availability: PanelAvailability,
    entry_id: &String,
    target_zone: ActivityBarZone,
    target_index: Option<usize>,
) -> (r: ActivityMoveOutcome)
    ensures
        spec_find_entry(layout_model(old(layout)), entry_id@) is None ==> r
            == ActivityMoveOutcome::NotFound,
        match spec_move_layout(
            layout_model(old(layout)),
            availability,
            entry_id@,
            target_zone,
            spec_slot(target_index),
        ) {
            None => {
                &&& r != ActivityMoveOutcome::Moved
                &&& layout_model(final(layout)) == layout_model(old(layout))
                &&& panels_model(final(panels)) == panels_model(old(panels))
            },
            Some(m) => {
                &&& r == ActivityMoveOutcome::Moved
                &&& layout_model(final(layout)) == m
                &&& panels_model(final(panels)) == spec_move_panels(
                    panels_model(old(panels)),
                    spec_zone_side(spec_found_zone(layout_model(old(layout)), entry_id@)),
                    spec_zone_side(target_zone),
                    entry_id@,
                )
            },
        },
{
    let ghost m0 = layout_model(layout);
    let (source_zone, source_index) = match layout.find_entry(entry_id) {
        None => {
            return ActivityMoveOutcome::NotFound;
        },
        Some(found) => found,
    };
    proof {
        lemma_index_of_found(model_zone(m0, source_zone), entry_id@);
    }
    if source_zone == target_zone {
        if !reorder_within_zone(layout, availability, entry_id, source_zone, target_index) {
            return ActivityMoveOutcome::NotShown;
        }
    } else {
        move_to_zone(
            layout,
            availability,
            entry_id,
            source_zone,
            source_index,
            target_zone,
            target_index,
        );
    }
    move_entry_panels(
        panels,
        entry_id,
        activity_zone_side(source_zone),
        activity_zone_side(target_zone),
    );
    ActivityMoveOutcome::Moved
}

/// The id of the shown entry in the slot `target`, or any id when there is
/// none.
pub open spec fn spec_index_of_arg(shown: Seq<String>, target: Option<usize>) -> Seq<char> {
    match target {
        Some(i) => if i < shown.len() {
            shown[i as int]@
        } else {
            seq![]
        },
        None => seq![],
    }
}

/// Every entry of the bars, counted with repeats.
pub open spec fn spec_all_entries(m: LayoutModel) -> Multiset<Seq<char>> {
    m.left_top.to_multiset().add(m.left_bottom.to_multiset()).add(m.right_top.to_multiset()).add(
        m.right_bottom.to_multiset(),
    )
}

/// Whether the bars show `id`: not hidden, known and offered.
pub open spec fn spec_offered(id: Seq<char>, hidden: Seq<Seq<char>>, a: PanelAvailability) -> bool {
    !hidden.contains(id) && spec_known_entries().contains(id) && spec_entry_visible(id, a)
}

/// The entries of `z` that `shown` holds, in order.
pub open spec fn spec_in_shown(z: Seq<Seq<char>>, shown: Seq<Seq<char>>) -> Seq<Seq<char>>
    decreases z.len(),
{
    if z.len() == 0 {
        seq![]
    } else if shown.contains(z[0]) {
        seq![z[0]] + spec_in_shown(z.drop_first(), shown)
    } else {
        spec_in_shown(z.drop_first(), shown)
    }
}

/// The entries of `z` that `shown` does not hold, in order.
pub open spec fn spec_not_in_shown(z: Seq<Seq<char>>, shown: Seq<Seq<char>>) -> Seq<Seq<char>>
    decreases z.len(),
{
    if z.len() == 0 {
        seq![]
    } else if shown.contains(z[0]) {
        spec_not_in_shown(z.drop_first(), shown)
    } else {
        seq![z[0]] + spec_not_in_shown(z.drop_first(), shown)
    }
}

/// The shown entries of `z`, walked from the front.
pub open spec fn spec_offered_from_front(z: Seq<Seq<char>>, hidden: Seq<Seq<char>>, a: PanelAvailability) -> Seq<
    Seq<char>,
>
    decreases z.len(),
{
    if z.len() == 0 {
        seq![]
    } else if spec_offered(z[0], hidden, a) {
        seq![z[0]] + spec_offered_from_front(z.drop_first(), hidden, a)
    } else {
        spec_offered_from_front(z.drop_first(), hidden, a)
    }
}

/// Putting an entry in front counts it once more.
proof fn lemma_ms_prepend(x: Seq<char>, s: Seq<Seq<char>>)
    ensures
        (seq![x] + s).to_multiset() == s.to_multiset().insert(x),
{
    broadcast use vstd::multiset::group_multiset_axioms, vstd::seq_lib::group_to_multiset_ensures;

    vstd::seq_lib::lemma_multiset_commutative(seq![x], s);
    let e = Seq::<Seq<char>>::empty();
    assert(seq![x] =~= e.push(x));
    assert(e.to_multiset() =~= Multiset::empty());
    assert(seq![x].to_multiset() =~= Multiset::empty().insert(x));
    assert(seq![x].to_multiset().add(s.to_multiset()) =~= s.to_multiset().insert(x));
}

/// A zone splits into its shown and its other entries.
proof fn lemma_shown_partition(z: Seq<Seq<char>>, shown: Seq<Seq<char>>)
    ensures
        z.to_multiset() == spec_not_in_shown(z, shown).to_multiset().add(
            spec_in_shown(z, shown).to_multiset(),
        ),
    decreases z.len(),
{
    broadcast use vstd::multiset::group_multiset_axioms, vstd::seq_lib::group_to_multiset_ensures;

    if z.len() == 0 {
        assert(z.to_multiset() =~= Multiset::empty());
        assert(spec_not_in_shown(z, shown).to_multiset() =~= Multiset::empty());
        assert(spec_in_shown(z, shown).to_multiset() =~= Multiset::empty());
    } else {
        let t = z.drop_first();
        lemma_shown_partition(t, shown);
        assert(z =~= seq![z[0]] + t);
        lemma_ms_prepend(z[0], t);
        lemma_ms_prepend(z[0], spec_in_shown(t, shown));
        lemma_ms_prepend(z[0], spec_not_in_shown(t, shown));
        assert(z.to_multiset() =~= spec_not_in_shown(z, shown).to_multiset().add(
            spec_in_shown(z, shown).to_multiset(),
        ));
    }
}

/// Merging puts the first of the reordered entries where the shown ones
/// were.
proof fn lemma_merge_counts(z: Seq<Seq<char>>, shown: Seq<Seq<char>>, r: Seq<Seq<char>>)
    requires
        spec_in_shown(z, shown).len() <= r.len(),
    ensures
        spec_merge_reorder(z, shown, r).to_multiset() == spec_not_in_shown(z, shown).to_multiset().add(
            r.take(spec_in_shown(z, shown).len() as int).to_multiset(),
        ),
    decreases z.len(),
{
    broadcast use vstd::multiset::group_multiset_axioms, vstd::seq_lib::group_to_multiset_ensures;

    let n = spec_in_shown(z, shown).len() as int;
    if z.len() == 0 {
        assert(r.take(0) =~= Seq::<Seq<char>>::empty());
        assert(spec_merge_reorder(z, shown, r).to_multiset() =~= Multiset::empty());
        assert(spec_not_in_shown(z, shown).to_multiset() =~= Multiset::empty());
        assert(r.take(0).to_multiset() =~= Multiset::empty());
    } else {
        let t = z.drop_first();
        if shown.contains(z[0]) {
            let r2 = r.drop_first();
            lemma_merge_counts(t, shown, r2);
            lemma_ms_prepend(r[0], spec_merge_reorder(t, shown, r2));
            assert(r.take(n) =~= seq![r[0]] + r2.take(n - 1));
            lemma_ms_prepend(r[0], r2.take(n - 1));
            assert(spec_merge_reorder(z, shown, r).to_multiset() =~= spec_not_in_shown(
                z,
                shown,
            ).to_multiset().add(r.take(n).to_multiset()));
        } else {
            lemma_merge_counts(t, shown, r);
            lemma_ms_prepend(z[0], spec_merge_reorder(t, shown, r));
            lemma_ms_prepend(z[0], spec_not_in_shown(t, shown));
            assert(spec_merge_reorder(z, shown, r).to_multiset() =~= spec_not_in_shown(
                z,
                shown,
            ).to_multiset().add(r.take(n).to_multiset()));
        }
    }
}

/// The shown entries are those of the zone that the bars offer.
proof fn lemma_shown_contains(z: Seq<Seq<char>>, hidden: Seq<Seq<char>>, a: PanelAvailability, x: Seq<char>)
    ensures
        spec_shown_entries(z, hidden, a).contains(x) <==> (z.contains(x) && spec_offered(x, hidden, a)),
    decreases z.len(),
{
    if z.len() > 0 {
        let d = z.drop_last();
        let l = z.last();
        lemma_shown_contains(d, hidden, a, x);
        let r = spec_shown_entries(d, hidden, a);
        let sz = spec_shown_entries(z, hidden, a);
        assert(sz == if spec_offered(l, hidden, a) {
            r.push(l)
        } else {
            r
        });
        assert forall|k: int| 0 <= k < r.len() implies sz[k] == r[k] by {}
        if z.contains(x) && spec_offered(x, hidden, a) {
            let i = choose|i: int| 0 <= i < z.len() && z[i] == x;
            if i < z.len() - 1 {
                assert(d[i] == x);
                assert(d.contains(x));
                let k = choose|k: int| 0 <= k < r.len() && r[k] == x;
                assert(sz[k] == x);
            } else {
                assert(l == x);
                assert(sz[r.len() as int] == x);
            }
            assert(sz.contains(x));
        }
        if sz.contains(x) {
            let j = choose|j: int| 0 <= j < sz.len() && sz[j] == x;
            if j < r.len() {
                assert(r[j] == x);
                assert(r.contains(x));
                let k = choose|k: int| 0 <= k < d.len() && d[k] == x;
                assert(z[k] == x);
            } else {
                assert(spec_offered(l, hidden, a));
                assert(x == l);
                assert(z[z.len() - 1] == x);
            }
            assert(z.contains(x));
        }
    }
}

/// Walking the zone from the front or from the back offers the same
/// entries.
proof fn lemma_offered_from_front(z: Seq<Seq<char>>, hidden: Seq<Seq<char>>, a: PanelAvailability)
    ensures
        spec_offered_from_front(z, hidden, a) == spec_shown_entries(z, hidden, a),
    decreases z.len(),
{
    if z.len() == 1 {
        assert(z.drop_first() =~= Seq::<Seq<char>>::empty());
        assert(z.drop_last() =~= Seq::<Seq<char>>::empty());
        assert(z.last() == z[0]);
        assert(spec_offered_from_front(z.drop_first(), hidden, a) == Seq::<Seq<char>>::empty());
        assert(spec_shown_entries(z.drop_last(), hidden, a) == Seq::<Seq<char>>::empty());
        if spec_offered(z[0], hidden, a) {
            assert(spec_offered_from_front(z, hidden, a) =~= seq![z[0]]);
            assert(spec_shown_entries(z, hidden, a) =~= seq![z[0]]);
        } else {
            assert(spec_offered_from_front(z, hidden, a) =~= Seq::<Seq<char>>::empty());
        }
    } else if z.len() > 1 {
        let d = z.drop_last();
        let t = z.drop_first();
        let m = t.drop_last();
        lemma_offered_from_front(d, hidden, a);
        lemma_offered_from_front(t, hidden, a);
        lemma_offered_from_front(m, hidden, a);
        assert(d.drop_first() =~= m);
        assert(d[0] == z[0]);
        assert(t.last() == z.last());
        let head: Seq<Seq<char>> = if spec_offered(z[0], hidden, a) {
            seq![z[0]]
        } else {
            seq![]
        };
        let mid = spec_shown_entries(m, hidden, a);
        assert(spec_shown_entries(d, hidden, a) == head + mid);
        assert(spec_offered_from_front(z, hidden, a) == head + spec_shown_entries(t, hidden, a));
        if spec_offered(z.last(), hidden, a) {
            assert(spec_shown_entries(t, hidden, a) == mid.push(z.last()));
            assert(spec_shown_entries(z, hidden, a) == (head + mid).push(z.last()));
            assert((head + mid).push(z.last()) =~= head + mid.push(z.last()));
        } else {
            assert(spec_shown_entries(t, hidden, a) == mid);
            assert(spec_shown_entries(z, hidden, a) == head + mid);
        }
    }
}

/// Within a zone, the entries that the shown ones pick out are the shown
/// ones.
proof fn lemma_in_shown_is_offered(z: Seq<Seq<char>>, shown: Seq<Seq<char>>, hidden: Seq<Seq<char>>, a: PanelAvailability)
    requires
        forall|x: Seq<char>| z.contains(x) ==> (shown.contains(x) <==> spec_offered(x, hidden, a)),
    ensures
        spec_in_shown(z, shown) == spec_offered_from_front(z, hidden, a),
    decreases z.len(),
{
    if z.len() > 0 {
        let t = z.drop_first();
        assert forall|x: Seq<char>| t.contains(x) implies (shown.contains(x) <==> spec_offered(x, hidden, a)) by {
            let i = choose|i: int| 0 <= i < t.len() && t[i] == x;
            assert(z[i + 1] == x);
        }
        lemma_in_shown_is_offered(t, shown, hidden, a);
        assert(z.contains(z[0]));
    }
}

/// Reordering the shown entries of a zone keeps every entry of it.
proof fn lemma_reorder_keeps_entries(
    z: Seq<Seq<char>>,
    hidden: Seq<Seq<char>>,
    a: PanelAvailability,
    pos: int,
    target: Option<int>,
)
    requires
        0 <= pos < spec_shown_entries(z, hidden, a).len(),
        target matches Some(t) ==> 0 <= t,
    ensures
        spec_merge_reorder(
            z,
            spec_shown_entries(z, hidden, a),
            spec_reorder(spec_shown_entries(z, hidden, a), pos, target),
        ).to_multiset() == z.to_multiset(),
{
    broadcast use vstd::multiset::group_multiset_axioms, vstd::seq_lib::group_to_multiset_ensures;

    let shown = spec_shown_entries(z, hidden, a);
    let r = spec_reorder(shown, pos, target);
    assert forall|x: Seq<char>| z.contains(x) implies (shown.contains(x) <==> spec_offered(x, hidden, a)) by {
        lemma_shown_contains(z, hidden, a, x);
    }
    lemma_in_shown_is_offered(z, shown, hidden, a);
    lemma_offered_from_front(z, hidden, a);
    let rest = shown.remove(pos);
    vstd::seq_lib::to_multiset_remove(shown, pos);
    let wanted = match target {
        Some(t) => t,
        None => rest.len() as int,
    };
    let shifted = if pos < wanted { wanted - 1 } else { wanted };
    let at = if shifted > rest.len() { rest.len() as int } else { shifted };
    vstd::seq_lib::to_multiset_insert(rest, at, shown[pos]);
    assert(r.to_multiset() =~= shown.to_multiset());
    assert(r.len() == shown.len());
    lemma_merge_counts(z, shown, r);
    assert(r.take(shown.len() as int) =~= r);
    lemma_shown_partition(z, shown);
}

/// Replacing the ids of one zone swaps that zone's share of the entries.
proof fn lemma_all_entries_with_zone(m: LayoutModel, zone: ActivityBarZone, ids: Seq<Seq<char>>)
    ensures
        spec_all_entries(model_with_zone(m, zone, ids)) == spec_all_entries(m).sub(
            model_zone(m, zone).to_multiset(),
        ).add(ids.to_multiset()),
{
    broadcast use vstd::multiset::group_multiset_axioms;

    assert(spec_all_entries(model_with_zone(m, zone, ids)) =~= spec_all_entries(m).sub(
        model_zone(m, zone).to_multiset(),
    ).add(ids.to_multiset()));
}

/// Where `spec_find_entry` finds `id`, it is there.
proof fn lemma_find_entry_found(m: LayoutModel, id: Seq<char>)
    ensures
        spec_find_entry(m, id) matches Some((zone, i)) ==> 0 <= i < model_zone(m, zone).len()
            && model_zone(m, zone)[i] == id,
{
    lemma_index_of_found(m.left_top, id);
    lemma_index_of_found(m.left_bottom, id);
    lemma_index_of_found(m.right_top, id);
    lemma_index_of_found(m.right_bottom, id);
}

/// Dragging an entry never loses or repeats one: afterwards the bars hold
/// the same entries, each as often as before, and the hidden entries and
/// the labels setting stay as they were.
pub proof fn lemma_moves_keep_every_entry(
    m: LayoutModel,
    a: PanelAvailability,
    id: Seq<char>,
    zone: ActivityBarZone,
    target: Option<int>,
)
    requires
        target matches Some(t) ==> 0 <= t,
        spec_move_layout(m, a, id, zone, target) is Some,
    ensures
        ({
            let after = spec_move_layout(m, a, id, zone, target)->0;
            &&& spec_all_entries(after) == spec_all_entries(m)
            &&& after.hidden == m.hidden
            &&& after.show_labels == m.show_labels
        }),
{
    broadcast use vstd::multiset::group_multiset_axioms, vstd::seq_lib::group_to_multiset_ensures;

    lemma_find_entry_found(m, id);
    let (source, index) = spec_find_entry(m, id)->0;
    let ids = model_zone(m, source);
    if source == zone {
        let shown = spec_shown_entries(ids, m.hidden, a);
        lemma_index_of_found(shown, id);
        let pos = spec_index_of(shown, id)->0;
        let merged = spec_merge_reorder(ids, shown, spec_reorder(shown, pos, target));
        lemma_reorder_keeps_entries(ids, m.hidden, a, pos, target);
        lemma_all_entries_with_zone(m, zone, merged);
        assert(spec_all_entries(m).sub(ids.to_multiset()).add(ids.to_multiset()) =~= spec_all_entries(
            m,
        )) by {
            assert(spec_all_entries(m) =~= spec_all_entries(m).sub(ids.to_multiset()).add(
                ids.to_multiset(),
            )) by {
                lemma_all_entries_with_zone(m, zone, ids);
                assert(model_with_zone(m, zone, ids) == m);
            }
        }
    } else {
        let lifted = model_with_zone(m, source, ids.remove(index));
        let t = model_zone(lifted, zone);
        let shown_t = spec_shown_entries(t, lifted.hidden, a);
        let at = spec_cross_insert_at(t, shown_t, target);
        match target {
            Some(i) => if 0 <= i < shown_t.len() {
                lemma_index_of_bound(t, shown_t[i]);
            },
            None => {},
        }
        assert(0 <= at <= t.len());
        vstd::seq_lib::to_multiset_remove(ids, index);
        vstd::seq_lib::to_multiset_insert(t, at, id);
        lemma_all_entries_with_zone(m, source, ids.remove(index));
        lemma_all_entries_with_zone(lifted, zone, t.insert(at, id));
        assert(t == model_zone(m, zone));
        assert(ids.to_multiset().count(id) > 0);
        lemma_all_entries_with_zone(m, source, ids);
        assert(model_with_zone(m, source, ids) == m);
        lemma_all_entries_with_zone(m, zone, t);
        assert(model_with_zone(m, zone, t) == m);
        assert(spec_all_entries(spec_move_layout(m, a, id, zone, target)->0) =~= spec_all_entries(m));
    }
}

} // verus!
