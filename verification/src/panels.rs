//! The side panels: which are open on each side, which is active, which
//! floats, and whether a side is collapsed. Panels are named by the
//! persistence id of their activity-bar entry.

use vstd::prelude::*;

use crate::activity_bar::{
    spec_entry_visible, spec_side_for_entry, ActivityBarLayout, PanelAvailability, PanelSide,
};
use crate::settings::json::strings_view;
use crate::settings::normalize::opt_view;
use crate::text::str_eq;

verus! {

/// The open panels of both sides.
pub struct PanelsState {
    pub left_open: Vec<String>,
    pub right_open: Vec<String>,
    pub active_left: Option<String>,
    pub active_right: Option<String>,
    pub floating_left: Option<String>,
    pub floating_right: Option<String>,
    pub left_collapsed: bool,
    pub right_collapsed: bool,
}

/// `s` without any `id`.
pub open spec fn spec_without(s: Seq<Seq<char>>, id: Seq<char>) -> Seq<Seq<char>>
    decreases s.len(),
{
    if s.len() == 0 {
        Seq::empty()
    } else if s.last() == id {
        spec_without(s.drop_last(), id)
    } else {
        spec_without(s.drop_last(), id).push(s.last())
    }
}

/// `o` unless it names `id`.
pub open spec fn spec_unless(o: Option<Seq<char>>, id: Seq<char>) -> Option<Seq<char>> {
    if o == Some(id) {
        None
    } else {
        o
    }
}

/// The panel state of one side: the open ids, the active one, the floating
/// one, and whether it is collapsed.
pub struct SideView {
    pub open: Seq<Seq<char>>,
    pub active: Option<Seq<char>>,
    pub floating: Option<Seq<char>>,
    pub collapsed: bool,
}

impl PanelsState {
    /// The state of `side`.
    pub open spec fn side_view(&self, side: PanelSide) -> SideView {
        match side {
            PanelSide::Left => SideView {
                open: strings_view(self.left_open@),
                active: opt_view(self.active_left),
                floating: opt_view(self.floating_left),
                collapsed: self.left_collapsed,
            },
            PanelSide::Right => SideView {
                open: strings_view(self.right_open@),
                active: opt_view(self.active_right),
                floating: opt_view(self.floating_right),
                collapsed: self.right_collapsed,
            },
        }
    }
}

/// A side after the panel `id` leaves it: it no longer floats, is open or is
/// active there, and a side left with nothing open or active collapses.
pub open spec fn spec_side_without(s: SideView, id: Seq<char>) -> SideView {
    let open = spec_without(s.open, id);
    let active = spec_unless(s.active, id);
    SideView {
        open,
        active,
        floating: spec_unless(s.floating, id),
        collapsed: if open.len() == 0 && active is None {
            true
        } else {
            s.collapsed
        },
    }
}

/// `v` without any `id`.
pub(crate) fn remove_all(v: &mut Vec<String>, id: &str)
    ensures
        strings_view(final(v)@) == spec_without(strings_view(old(v)@), id@),
{
    let ghost orig = strings_view(v@);
    let mut kept: Vec<String> = Vec::new();
    let mut i: usize = 0;
    while i < v.len()
        invariant
            i <= v@.len(),
            orig == strings_view(v@),
            strings_view(kept@) == spec_without(orig.take(i as int), id@),
        decreases v@.len() - i,
    {
        assert(orig.take(i + 1).drop_last() =~= orig.take(i as int));
        assert(orig.take(i + 1).last() == v@[i as int]@);
        if !str_eq(v[i].as_str(), id) {
            let ghost prev = strings_view(kept@);
            kept.push(v[i].clone());
            assert(strings_view(kept@) =~= prev.push(v@[i as int]@));
        }
        i += 1;
    }
    assert(orig.take(v@.len() as int) =~= orig);
    *v = kept;
}

/// `o` unless it names `id`.
fn clear_if(o: &mut Option<String>, id: &str)
    ensures
        opt_view(*final(o)) == spec_unless(opt_view(*old(o)), id@),
{
    let names = match o {
        Some(s) => str_eq(s.as_str(), id),
        None => false,
    };
    if names {
        *o = None;
    }
}

impl PanelsState {
    /// Takes the panel `id` off `side`: it stops floating, is closed there,
    /// stops being active there, and the side collapses if nothing is left
    /// open or active. The other side is untouched.
    pub fn clear_activity_entry_from_side(&mut self, entry_id: &str, side: PanelSide)
        ensures
            final(self).side_view(side) == spec_side_without(old(self).side_view(side), entry_id@),
            side == PanelSide::Left ==> final(self).side_view(PanelSide::Right) == old(
                self,
            ).side_view(PanelSide::Right),
            side == PanelSide::Right ==> final(self).side_view(PanelSide::Left) == old(
                self,
            ).side_view(PanelSide::Left),
    {
        match side {
            PanelSide::Left => {
                clear_if(&mut self.floating_left, entry_id);
                remove_all(&mut self.left_open, entry_id);
                clear_if(&mut self.active_left, entry_id);
                if self.left_open.len() == 0 && self.active_left.is_none() {
                    self.left_collapsed = true;
                }
            },
            PanelSide::Right => {
                clear_if(&mut self.floating_right, entry_id);
                remove_all(&mut self.right_open, entry_id);
                clear_if(&mut self.active_right, entry_id);
                if self.right_open.len() == 0 && self.active_right.is_none() {
                    self.right_collapsed = true;
                }
            },
        }
    }
}

/// The panels that can be switched off, in the order they are checked.
pub open spec fn spec_switchable_panels() -> Seq<Seq<char>> {
    crate::settings::summary::texts(
        seq![
            "notes",
            "resourceMonitor",
            "gpuMonitor",
            "ascendNpuMonitor",
            "processManager",
            "dockerManager",
        ],
    )
}

/// The panels after each switched-off panel, in turn, is taken off the side
/// whose bar holds it.
pub open spec fn spec_reconciled(
    p: (SideView, SideView),
    l: &ActivityBarLayout,
    a: PanelAvailability,
    k: int,
) -> (SideView, SideView)
    decreases k,
{
    if k <= 0 {
        p
    } else {
        let q = spec_reconciled(p, l, a, k - 1);
        let id = spec_switchable_panels()[k - 1];
        if spec_entry_visible(id, a) {
            q
        } else {
            match spec_side_for_entry(l, id) {
                Some(PanelSide::Left) => (spec_side_without(q.0, id), q.1),
                Some(PanelSide::Right) => (q.0, spec_side_without(q.1, id)),
                None => q,
            }
        }
    }
}

impl PanelsState {
    /// Takes every panel that is switched off off its side.
    pub fn reconcile_activity_panel_availability(
        &mut self,
        layout: &ActivityBarLayout,
        a: PanelAvailability,
    )
        ensures
            (final(self).side_view(PanelSide::Left), final(self).side_view(PanelSide::Right))
                == spec_reconciled(
                (old(self).side_view(PanelSide::Left), old(self).side_view(PanelSide::Right)),
                layout,
                a,
                6,
            ),
    {
        let items = crate::settings::summary::strings_of(
            &[
                "notes",
                "resourceMonitor",
                "gpuMonitor",
                "ascendNpuMonitor",
                "processManager",
                "dockerManager",
            ],
        );
        let ghost start = (self.side_view(PanelSide::Left), self.side_view(PanelSide::Right));
        let mut k: usize = 0;
        while k < items.len()
            invariant
                k <= items@.len(),
                strings_view(items@) == spec_switchable_panels(),
                (self.side_view(PanelSide::Left), self.side_view(PanelSide::Right))
                    == spec_reconciled(start, layout, a, k as int),
            decreases items@.len() - k,
        {
            let id = &items[k];
            assert(spec_switchable_panels()[k as int] == id@);
            if !crate::activity_bar::entry_visible(id, a) {
                match layout.side_for_entry(id) {
                    Some(side) => {
                        self.clear_activity_entry_from_side(id.as_str(), side);
                    },
                    None => {},
                }
            }
            k += 1;
        }
    }
}

} // verus!
