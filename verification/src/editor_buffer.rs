//! The text, selection and history of the remote file editor, and what each
//! edit, cursor move and input-method event does to them. The view around it
//! renders the text and reacts to the effect that each operation reports.

use std::ops::Range;

use vstd::prelude::*;

use crate::text::{chars_of, is_whitespace, str_eq, string_from_range};
use crate::text_editor::{
    remote_text_selection_drag_active, MouseButton, is_close_bracket, lemma_byte_len_push, matching_close_bracket, should_auto_close,
    spec_is_close_bracket, spec_matching_close_bracket, spec_should_auto_close, spec_width,
};
use crate::text_editor::{
    byte_offset_for_char_column, floor_index, lemma_boundary_is_nearest, lemma_byte_len_is_utf8,
    lemma_cursor_positions_are_char_boundaries, lemma_floor_index, lemma_line_end_before_break,
    spec_blank, spec_scan_back, spec_scan_forward, lemma_utf16_chars_bound, lemma_utf16_chars_mono,
    spec_utf16_chars, spec_utf16_to_utf8, spec_utf16_width, utf16_to_utf8,
    lemma_offset_is_boundary, lemma_offset_mono, line_end, line_start, nearest_char_boundary,
    next_char_boundary, next_word_boundary, previous_char_boundary, previous_word_boundary,
    spec_byte_len, spec_byte_offset_for_char_column, spec_floor_index, spec_is_boundary,
    spec_line_end, spec_line_start, spec_nearest_char_boundary, spec_next_char_boundary,
    spec_next_word_boundary, spec_offset, spec_previous_char_boundary,
    spec_previous_word_boundary, spec_word_bounds, utf8_layout, word_bounds,
};

verus! {

/// How many edits can be undone.
pub const UNDO_LIMIT: usize = 64;

/// What an operation changed, for the view to react to: nothing; only how
/// it is shown; the cursor or selection; the text, taken from outside (the
/// view drops what it laid out); or the text, edited here (the view also
/// writes it back).
#[derive(Clone, Copy, Debug, PartialEq, Eq, Structural)]
pub enum EditorEffect {
    Unchanged,
    Redraw,
    CursorMoved,
    TextReloaded,
    ContentChanged,
}

/// The text and selection as they were before an edit.
pub struct EditSnapshot {
    pub content: String,
    pub anchor: usize,
    pub head: usize,
}

/// A snapshot as mathematical values.
pub struct SnapshotView {
    pub content: Seq<char>,
    pub anchor: int,
    pub head: int,
}

impl View for EditSnapshot {
    type V = SnapshotView;

    open spec fn view(&self) -> SnapshotView {
        SnapshotView { content: self.content@, anchor: self.anchor as int, head: self.head as int }
    }
}

/// The editor's state: the tab it edits, its text, the selection from
/// `anchor` to `head` (byte offsets), the text that an input method is
/// composing, whether a drag is extending the selection, and the undo and
/// redo histories.
pub struct EditorBuffer {
    pub tab_id: String,
    pub content: String,
    pub anchor: usize,
    pub head: usize,
    pub marked_range: Option<Range<usize>>,
    pub selecting: bool,
    pub read_only: bool,
    pub scroll_cursor_pending: bool,
    pub search_query: String,
    pub active_match: usize,
    pub undo_stack: Vec<EditSnapshot>,
    pub redo_stack: Vec<EditSnapshot>,
}

/// The editor's state as mathematical values.
pub struct EditorView {
    pub tab_id: Seq<char>,
    pub content: Seq<char>,
    pub anchor: int,
    pub head: int,
    pub marked: Option<(int, int)>,
    pub selecting: bool,
    pub read_only: bool,
    pub scroll_cursor_pending: bool,
    pub search_query: Seq<char>,
    pub active_match: int,
    pub undo: Seq<SnapshotView>,
    pub redo: Seq<SnapshotView>,
}

impl View for EditorBuffer {
    type V = EditorView;

    open spec fn view(&self) -> EditorView {
        EditorView {
            tab_id: self.tab_id@,
            content: self.content@,
            anchor: self.anchor as int,
            head: self.head as int,
            marked: match self.marked_range {
                Some(r) => Some((r.start as int, r.end as int)),
                None => None,
            },
            selecting: self.selecting,
            read_only: self.read_only,
            scroll_cursor_pending: self.scroll_cursor_pending,
            search_query: self.search_query@,
            active_match: self.active_match as int,
            undo: self.undo_stack@.map_values(|s: EditSnapshot| s@),
            redo: self.redo_stack@.map_values(|s: EditSnapshot| s@),
        }
    }
}

/// A text that fits in memory: no longer than the largest allocation.
pub open spec fn fits(s: Seq<char>) -> bool {
    spec_byte_len(s) <= isize::MAX
}

/// A snapshot whose selection lies between characters of its text.
pub open spec fn snapshot_wf(snap: SnapshotView) -> bool {
    &&& fits(snap.content)
    &&& spec_is_boundary(snap.content, snap.anchor)
    &&& spec_is_boundary(snap.content, snap.head)
}

/// The editor state's invariant: the text fits in memory, the selection
/// and the composed text lie between characters, and every snapshot in the
/// histories is itself well formed.
pub open spec fn view_wf(v: EditorView) -> bool {
    &&& fits(v.content)
    &&& spec_is_boundary(v.content, v.anchor)
    &&& spec_is_boundary(v.content, v.head)
    &&& (v.marked matches Some((a, b)) ==> a <= b && spec_is_boundary(v.content, a)
        && spec_is_boundary(v.content, b))
    &&& forall|i: int| 0 <= i < v.undo.len() ==> #[trigger] snapshot_wf(v.undo[i])
    &&& forall|i: int| 0 <= i < v.redo.len() ==> #[trigger] snapshot_wf(v.redo[i])
}

impl EditorBuffer {
    /// The editor state's invariant.
    pub open spec fn wf(&self) -> bool {
        view_wf(self@)
    }
}

/// The current text and selection as a snapshot.
pub open spec fn spec_snapshot(v: EditorView) -> SnapshotView {
    SnapshotView { content: v.content, anchor: v.anchor, head: v.head }
}

/// The undo history after `snap` is recorded: the oldest entry goes once
/// there are more than `UNDO_LIMIT`.
pub open spec fn spec_pushed_undo(undo: Seq<SnapshotView>, snap: SnapshotView) -> Seq<
    SnapshotView,
> {
    let grown = undo.push(snap);
    if grown.len() > UNDO_LIMIT {
        grown.drop_first()
    } else {
        grown
    }
}

/// `s` with the characters between character indices `a` and `b`
/// replaced by `t`.
pub open spec fn spec_splice(s: Seq<char>, a: int, b: int, t: Seq<char>) -> Seq<char> {
    s.take(a) + t + s.skip(b)
}

/// What replacing the bytes from `start` to `end` by `text` does: both ends
/// are moved back to character boundaries (the end no earlier than the
/// start), the cursor lands after the new text, the composition ends, and
/// the edit is recorded for undo when asked. A read-only editor is left as
/// it is.
pub open spec fn spec_replace(v: EditorView, start: int, end: int, text: Seq<char>, record: bool) -> EditorView {
    if v.read_only {
        v
    } else {
        let a = spec_floor_index(v.content, start);
        let b0 = spec_floor_index(v.content, end);
        let b = if b0 < a {
            a
        } else {
            b0
        };
        let cursor = spec_offset(v.content, a) + spec_byte_len(text);
        EditorView {
            tab_id: v.tab_id,
            content: spec_splice(v.content, a, b, text),
            anchor: cursor,
            head: cursor,
            marked: None,
            selecting: v.selecting,
            read_only: v.read_only,
            scroll_cursor_pending: true,
            search_query: v.search_query,
            active_match: v.active_match,
            undo: if record {
                spec_pushed_undo(v.undo, spec_snapshot(v))
            } else {
                v.undo
            },
            redo: if record {
                seq![]
            } else {
                v.redo
            },
        }
    }
}

/// What restoring `snap` does: its text and selection come back, the
/// composition ends and the cursor is scrolled into view.
pub open spec fn spec_restore(v: EditorView, snap: SnapshotView) -> EditorView {
    EditorView {
        content: snap.content,
        anchor: snap.anchor,
        head: snap.head,
        marked: None,
        scroll_cursor_pending: true,
        ..v
    }
}

/// What undo does: the last recorded state comes back and the current one
/// is kept for redo. Nothing happens when read-only or with no history.
pub open spec fn spec_undo(v: EditorView) -> EditorView {
    if v.read_only || v.undo.len() == 0 {
        v
    } else {
        spec_restore(
            EditorView { undo: v.undo.drop_last(), redo: v.redo.push(spec_snapshot(v)), ..v },
            v.undo.last(),
        )
    }
}

/// What redo does: the last undone state comes back and the current one is
/// kept for undo. Nothing happens when read-only or with nothing undone.
pub open spec fn spec_redo(v: EditorView) -> EditorView {
    if v.read_only || v.redo.len() == 0 {
        v
    } else {
        spec_restore(
            EditorView { redo: v.redo.drop_last(), undo: v.undo.push(spec_snapshot(v)), ..v },
            v.redo.last(),
        )
    }
}

/// UTF-8 length of a concatenation.
pub proof fn lemma_byte_len_concat(x: Seq<char>, y: Seq<char>)
    ensures
        spec_byte_len(x + y) == spec_byte_len(x) + spec_byte_len(y),
    decreases x.len(),
{
    if x.len() == 0 {
        assert(x + y =~= y);
    } else {
        lemma_byte_len_concat(x.drop_first(), y);
        assert((x + y).drop_first() =~= x.drop_first() + y);
        assert((x + y)[0] == x[0]);
    }
}

/// The length of a text in bytes.
pub fn byte_len(s: &str) -> (r: usize)
    requires
        spec_byte_len(s@) <= usize::MAX,
    ensures
        r == spec_byte_len(s@),
{
    proof {
        lemma_byte_len_is_utf8(s@);
    }
    s.len()
}

/// Appends the characters of `v` from `start` to `end` to `out`.
fn push_chars(out: &mut String, v: &Vec<char>, start: usize, end: usize)
    requires
        start <= end <= v@.len(),
    ensures
        final(out)@ == old(out)@ + v@.subrange(start as int, end as int),
{
    let mut i = start;
    proof {
        assert(old(out)@ + v@.subrange(start as int, start as int) =~= old(out)@);
    }
    while i < end
        invariant
            start <= i <= end <= v@.len(),
            out@ == old(out)@ + v@.subrange(start as int, i as int),
        decreases end - i,
    {
        out.push(v[i]);
        assert(old(out)@ + v@.subrange(start as int, i + 1) =~= old(out)@ + v@.subrange(
            start as int,
            i as int,
        ) + seq![v@[i as int]]);
        i += 1;
    }
}

/// `content` with the characters between character indices `a` and `b`
/// replaced by `text`.
fn splice(chars: &Vec<char>, a: usize, b: usize, text: &str) -> (r: String)
    requires
        a <= b <= chars@.len(),
    ensures
        r@ == spec_splice(chars@, a as int, b as int, text@),
{
    let t = chars_of(text);
    let mut out = String::new();
    push_chars(&mut out, chars, 0, a);
    push_chars(&mut out, &t, 0, t.len());
    push_chars(&mut out, chars, b, chars.len());
    proof {
        assert(chars@.subrange(0, a as int) =~= chars@.take(a as int));
        assert(t@.subrange(0, t@.len() as int) =~= text@);
        assert(chars@.subrange(b as int, chars@.len() as int) =~= chars@.skip(b as int));
        assert(Seq::<char>::empty() + chars@.take(a as int) =~= chars@.take(a as int));
    }
    out
}

/// How a fresh editor for a tab starts: with the cursor at the end.
pub open spec fn spec_new_editor(
    tab_id: Seq<char>,
    content: Seq<char>,
    loading: bool,
    saving: bool,
    search_query: Seq<char>,
    active_match: int,
) -> EditorView {
    EditorView {
        tab_id,
        content,
        anchor: spec_byte_len(content),
        head: spec_byte_len(content),
        marked: None,
        selecting: false,
        read_only: loading || saving,
        scroll_cursor_pending: true,
        search_query,
        active_match,
        undo: seq![],
        redo: seq![],
    }
}

/// How a read-only preview starts: with the cursor at the start.
pub open spec fn spec_new_read_only(id: Seq<char>, content: Seq<char>) -> EditorView {
    EditorView {
        tab_id: id,
        content,
        anchor: 0,
        head: 0,
        marked: None,
        selecting: false,
        read_only: true,
        scroll_cursor_pending: false,
        search_query: seq![],
        active_match: 0,
        undo: seq![],
        redo: seq![],
    }
}

/// The lower end of the selection.
pub open spec fn spec_selection_start(v: EditorView) -> int {
    if v.anchor <= v.head {
        v.anchor
    } else {
        v.head
    }
}

/// The upper end of the selection.
pub open spec fn spec_selection_end(v: EditorView) -> int {
    if v.anchor <= v.head {
        v.head
    } else {
        v.anchor
    }
}

proof fn lemma_boundary_ends(s: Seq<char>)
    ensures
        spec_is_boundary(s, 0),
        spec_is_boundary(s, spec_byte_len(s)),
{
    lemma_offset_is_boundary(s, 0);
    lemma_offset_is_boundary(s, s.len() as int);
    lemma_offset_mono(s, 0, s.len() as int);
}

proof fn lemma_empty_histories(v: Vec<EditSnapshot>)
    requires
        v@.len() == 0,
    ensures
        v@.map_values(|s: EditSnapshot| s@) =~= Seq::<SnapshotView>::empty(),
{
}

impl EditorBuffer {
    /// A fresh editor for a tab, with the cursor at the end of its text.
    pub fn new(
        tab_id: String,
        content: String,
        loading: bool,
        saving: bool,
        search_query: String,
        active_match: usize,
    ) -> (r: Self)
        requires
            fits(content@),
        ensures
            r.wf(),
            r@ == spec_new_editor(
                tab_id@,
                content@,
                loading,
                saving,
                search_query@,
                active_match as int,
            ),
    {
        let cursor = byte_len(content.as_str());
        let r = EditorBuffer {
            tab_id,
            content,
            anchor: cursor,
            head: cursor,
            marked_range: None,
            selecting: false,
            read_only: loading || saving,
            scroll_cursor_pending: true,
            search_query,
            active_match,
            undo_stack: Vec::new(),
            redo_stack: Vec::new(),
        };
        proof {
            lemma_boundary_ends(r.content@);
            lemma_empty_histories(r.undo_stack);
            lemma_empty_histories(r.redo_stack);
        }
        r
    }

    /// A read-only surface that previews `content`; `id` only names it.
    pub fn new_read_only(id: String, content: String) -> (r: Self)
        requires
            fits(content@),
        ensures
            r.wf(),
            r@ == spec_new_read_only(id@, content@),
    {
        let r = EditorBuffer {
            tab_id: id,
            content,
            anchor: 0,
            head: 0,
            marked_range: None,
            selecting: false,
            read_only: true,
            scroll_cursor_pending: false,
            search_query: String::new(),
            active_match: 0,
            undo_stack: Vec::new(),
            redo_stack: Vec::new(),
        };
        proof {
            lemma_boundary_ends(r.content@);
            lemma_empty_histories(r.undo_stack);
            lemma_empty_histories(r.redo_stack);
        }
        r
    }

    /// The selection from its lower to its upper end.
    pub fn selected_range(&self) -> (r: Range<usize>)
        ensures
            r.start == spec_selection_start(self@),
            r.end == spec_selection_end(self@),
    {
        if self.anchor <= self.head {
            Range { start: self.anchor, end: self.head }
        } else {
            Range { start: self.head, end: self.anchor }
        }
    }

    /// Whether the selection was made backwards.
    pub fn selection_reversed(&self) -> (r: bool)
        ensures
            r == (self.head < self.anchor),
    {
        self.head < self.anchor
    }

    /// The current text and selection.
    pub fn snapshot(&self) -> (r: EditSnapshot)
        ensures
            r@ == spec_snapshot(self@),
    {
        EditSnapshot { content: self.content.clone(), anchor: self.anchor, head: self.head }
    }

    /// Records the current state for undo and forgets what was undone.
    fn push_undo(&mut self)
        requires
            old(self).wf(),
        ensures
            final(self).wf(),
            final(self)@ == (EditorView {
                undo: spec_pushed_undo(old(self)@.undo, spec_snapshot(old(self)@)),
                redo: seq![],
                ..old(self)@
            }),
    {
        let snap = self.snapshot();
        let ghost before = self.undo_stack@;
        self.undo_stack.push(snap);
        proof {
            assert(before.push(snap).map_values(|s: EditSnapshot| s@) =~= before.map_values(
                |s: EditSnapshot| s@,
            ).push(snap@));
        }
        if self.undo_stack.len() > UNDO_LIMIT {
            let ghost grown = self.undo_stack@;
            self.undo_stack.remove(0);
            proof {
                assert(grown.remove(0).map_values(|s: EditSnapshot| s@) =~= grown.map_values(
                    |s: EditSnapshot| s@,
                ).drop_first());
            }
        }
        self.redo_stack.clear();
        proof {
            lemma_empty_histories(self.redo_stack);
        }
    }

    /// Replaces the bytes of `range` by `new_text` (see `spec_replace`).
    pub fn replace_byte_range(&mut self, range: Range<usize>, new_text: &str, record_undo: bool) -> (e:
        EditorEffect)
        requires
            old(self).wf(),
            spec_byte_len(old(self)@.content) + spec_byte_len(new_text@) <= isize::MAX,
        ensures
            final(self).wf(),
            final(self)@ == spec_replace(
                old(self)@,
                range.start as int,
                range.end as int,
                new_text@,
                record_undo,
            ),
            e == (if old(self).read_only {
                EditorEffect::Unchanged
            } else {
                EditorEffect::ContentChanged
            }),
    {
        if self.read_only {
            return EditorEffect::Unchanged;
        }
        let ghost s = self.content@;
        let ghost t = new_text@;
        let layout = utf8_layout(self.content.as_str());
        let a = floor_index(&layout, range.start);
        let b0 = floor_index(&layout, range.end);
        let b = if b0 < a {
            a
        } else {
            b0
        };
        let start = layout.starts[a];
        if record_undo {
            self.push_undo();
        }
        let fresh = splice(&layout.chars, a, b, new_text);
        let ghost n = fresh@;
        proof {
            lemma_offset_mono(s, a as int, b as int);
            lemma_offset_mono(s, 0, s.len() as int);
            assert(s.take(b as int) + s.skip(b as int) =~= s);
            lemma_byte_len_concat(s.take(b as int), s.skip(b as int));
            lemma_byte_len_concat(s.take(a as int) + t, s.skip(b as int));
            lemma_byte_len_concat(s.take(a as int), t);
            assert(n.take(a + t.len()) =~= s.take(a as int) + t);
            lemma_offset_is_boundary(n, a + t.len());
        }
        let cursor = start + byte_len(new_text);
        self.content = fresh;
        self.anchor = cursor;
        self.head = cursor;
        self.marked_range = None;
        self.scroll_cursor_pending = true;
        EditorEffect::ContentChanged
    }

    /// Brings back the text and selection of `snapshot`.
    fn restore_snapshot(&mut self, snapshot: EditSnapshot)
        requires
            old(self).wf(),
            snapshot_wf(snapshot@),
        ensures
            final(self).wf(),
            final(self)@ == spec_restore(old(self)@, snapshot@),
    {
        self.content = snapshot.content;
        self.anchor = snapshot.anchor;
        self.head = snapshot.head;
        self.marked_range = None;
        self.scroll_cursor_pending = true;
    }

    /// Undoes the last recorded edit (see `spec_undo`).
    pub fn undo(&mut self) -> (e: EditorEffect)
        requires
            old(self).wf(),
        ensures
            final(self).wf(),
            final(self)@ == spec_undo(old(self)@),
            e == (if old(self)@.read_only || old(self)@.undo.len() == 0 {
                EditorEffect::Unchanged
            } else {
                EditorEffect::ContentChanged
            }),
    {
        if self.read_only {
            return EditorEffect::Unchanged;
        }
        let ghost v = self@;
        let ghost before = self.undo_stack@;
        match self.undo_stack.pop() {
            None => EditorEffect::Unchanged,
            Some(snapshot) => {
                proof {
                    assert(self.undo_stack@.map_values(|s: EditSnapshot| s@) =~= v.undo.drop_last());
                    assert(snapshot_wf(v.undo[v.undo.len() - 1]));
                }
                let current = self.snapshot();
                let ghost redo_before = self.redo_stack@;
                self.redo_stack.push(current);
                proof {
                    assert(redo_before.push(current).map_values(|s: EditSnapshot| s@)
                        =~= redo_before.map_values(|s: EditSnapshot| s@).push(current@));
                }
                self.restore_snapshot(snapshot);
                EditorEffect::ContentChanged
            },
        }
    }

    /// Redoes the last undone edit (see `spec_redo`).
    pub fn redo(&mut self) -> (e: EditorEffect)
        requires
            old(self).wf(),
        ensures
            final(self).wf(),
            final(self)@ == spec_redo(old(self)@),
            e == (if old(self)@.read_only || old(self)@.redo.len() == 0 {
                EditorEffect::Unchanged
            } else {
                EditorEffect::ContentChanged
            }),
    {
        if self.read_only {
            return EditorEffect::Unchanged;
        }
        let ghost v = self@;
        match self.redo_stack.pop() {
            None => EditorEffect::Unchanged,
            Some(snapshot) => {
                proof {
                    assert(self.redo_stack@.map_values(|s: EditSnapshot| s@) =~= v.redo.drop_last());
                    assert(snapshot_wf(v.redo[v.redo.len() - 1]));
                }
                let current = self.snapshot();
                let ghost undo_before = self.undo_stack@;
                self.undo_stack.push(current);
                proof {
                    assert(undo_before.push(current).map_values(|s: EditSnapshot| s@)
                        =~= undo_before.map_values(|s: EditSnapshot| s@).push(current@));
                }
                self.restore_snapshot(snapshot);
                EditorEffect::ContentChanged
            },
        }
    }
}

/// Undo and redo take each other back: after an undo, redo brings back the
/// text and selection from before it, and after a redo, undo does.
pub proof fn lemma_undo_and_redo_take_each_other_back(v: EditorView)
    ensures
        !v.read_only && v.undo.len() > 0 ==> spec_snapshot(spec_redo(spec_undo(v)))
            == spec_snapshot(v),
        !v.read_only && v.redo.len() > 0 ==> spec_snapshot(spec_undo(spec_redo(v)))
            == spec_snapshot(v),
{
}

/// A recorded edit can be undone: undo brings back exactly the text and
/// selection from before the edit, and redo then brings back the edited
/// text and selection. In a read-only editor the edit changes nothing.
pub proof fn lemma_undo_reverts_recorded_edit(v: EditorView, start: int, end: int, text: Seq<char>)
    ensures
        !v.read_only ==> spec_snapshot(spec_undo(spec_replace(v, start, end, text, true)))
            == spec_snapshot(v),
        !v.read_only ==> spec_snapshot(spec_redo(spec_undo(spec_replace(v, start, end, text, true))))
            == spec_snapshot(spec_replace(v, start, end, text, true)),
        v.read_only ==> spec_replace(v, start, end, text, true) == v,
{
    if !v.read_only {
        let e = spec_replace(v, start, end, text, true);
        let grown = v.undo.push(spec_snapshot(v));
        assert(grown.last() == spec_snapshot(v));
        if grown.len() > UNDO_LIMIT {
            assert(grown.drop_first().last() == grown.last());
        }
        assert(e.undo.last() == spec_snapshot(v));
    }
}

/// What moving the cursor to `offset` does: it goes back to a character
/// boundary, the head moves there, and the anchor too unless the selection
/// is being extended; any composition ends.
pub open spec fn spec_move_cursor(v: EditorView, offset: int, extend: bool) -> EditorView {
    let o = spec_nearest_char_boundary(v.content, offset);
    EditorView {
        anchor: if extend {
            v.anchor
        } else {
            o
        },
        head: o,
        marked: None,
        scroll_cursor_pending: true,
        ..v
    }
}

/// The left arrow: a selection collapses to its start; otherwise the head
/// goes one character (or one word) back.
pub open spec fn spec_move_left(v: EditorView, extend: bool, by_word: bool) -> EditorView {
    if !extend && v.anchor != v.head {
        spec_move_cursor(v, spec_selection_start(v), false)
    } else if by_word {
        spec_move_cursor(v, spec_previous_word_boundary(v.content, v.head), extend)
    } else {
        spec_move_cursor(v, spec_previous_char_boundary(v.content, v.head), extend)
    }
}

/// The right arrow: a selection collapses to its end; otherwise the head
/// goes one character (or one word) forward.
pub open spec fn spec_move_right(v: EditorView, extend: bool, by_word: bool) -> EditorView {
    if !extend && v.anchor != v.head {
        spec_move_cursor(v, spec_selection_end(v), false)
    } else if by_word {
        spec_move_cursor(v, spec_next_word_boundary(v.content, v.head), extend)
    } else {
        spec_move_cursor(v, spec_next_char_boundary(v.content, v.head), extend)
    }
}

/// Where the line above (`up`) or below the head's line starts; the first
/// and the last line stay where they are.
pub open spec fn spec_target_line_start(s: Seq<char>, cursor: int, up: bool) -> int {
    let current = spec_line_start(s, cursor);
    if up {
        if current == 0 {
            0
        } else {
            spec_line_start(s, current - 1)
        }
    } else {
        let end = spec_line_end(s, cursor);
        if end >= spec_byte_len(s) {
            current
        } else {
            end + 1
        }
    }
}

/// The up and down arrows: the head goes to the same character column of
/// the line above or below, or to the end of that line when it is shorter.
pub open spec fn spec_move_vertical(v: EditorView, up: bool, extend: bool) -> EditorView {
    let s = v.content;
    let column = spec_floor_index(s, v.head) - spec_floor_index(s, spec_line_start(s, v.head));
    let target_start = spec_target_line_start(s, v.head, up);
    let target_end = spec_line_end(s, target_start);
    spec_move_cursor(
        v,
        spec_byte_offset_for_char_column(s, target_start, target_end, column),
        extend,
    )
}

/// A double click: the word (or run of punctuation or spaces) under
/// `offset` is selected.
pub open spec fn spec_select_word_at(v: EditorView, offset: int) -> EditorView {
    let (a, b) = spec_word_bounds(v.content, offset);
    EditorView { anchor: a, head: b, scroll_cursor_pending: true, ..v }
}

/// A triple click: the line under `offset` is selected with its line break.
pub open spec fn spec_select_line_at(v: EditorView, offset: int) -> EditorView {
    let end = spec_line_end(v.content, offset);
    EditorView {
        anchor: spec_line_start(v.content, offset),
        head: if end < spec_byte_len(v.content) {
            end + 1
        } else {
            end
        },
        scroll_cursor_pending: true,
        ..v
    }
}

/// Select all: from the start to the end of the text.
pub open spec fn spec_select_all(v: EditorView) -> EditorView {
    EditorView { anchor: 0, head: spec_byte_len(v.content), scroll_cursor_pending: true, ..v }
}

/// How many line breaks `s` holds.
pub open spec fn spec_count_newlines(s: Seq<char>) -> int
    decreases s.len(),
{
    if s.len() == 0 {
        0
    } else {
        spec_count_newlines(s.drop_last()) + if s.last() == '\n' {
            1int
        } else {
            0int
        }
    }
}

/// The head's line and character column, both counted from one.
pub open spec fn spec_cursor_position(v: EditorView) -> (int, int) {
    let k = spec_floor_index(v.content, v.head);
    (
        spec_count_newlines(v.content.take(k)) + 1,
        k - spec_floor_index(v.content, spec_line_start(v.content, v.head)) + 1,
    )
}

proof fn lemma_count_newlines_bound(s: Seq<char>)
    ensures
        0 <= spec_count_newlines(s) <= s.len(),
    decreases s.len(),
{
    if s.len() > 0 {
        lemma_count_newlines_bound(s.drop_last());
    }
}

proof fn lemma_byte_len_at_least_len(s: Seq<char>)
    ensures
        s.len() <= spec_byte_len(s),
{
    lemma_offset_mono(s, 0, s.len() as int);
}

impl EditorBuffer {
    /// Moves the cursor to `offset` (see `spec_move_cursor`).
    pub fn move_cursor(&mut self, offset: usize, extend: bool) -> (e: EditorEffect)
        requires
            old(self).wf(),
        ensures
            final(self).wf(),
            final(self)@ == spec_move_cursor(old(self)@, offset as int, extend),
            e == EditorEffect::CursorMoved,
    {
        proof {
            lemma_cursor_positions_are_char_boundaries(self.content@, offset as int);
            lemma_byte_len_at_least_len(self.content@);
        }
        let o = nearest_char_boundary(self.content.as_str(), offset);
        if !extend {
            self.anchor = o;
        }
        self.head = o;
        self.marked_range = None;
        self.scroll_cursor_pending = true;
        EditorEffect::CursorMoved
    }

    /// The left arrow (see `spec_move_left`).
    pub fn move_left(&mut self, extend: bool, by_word: bool) -> (e: EditorEffect)
        requires
            old(self).wf(),
        ensures
            final(self).wf(),
            final(self)@ == spec_move_left(old(self)@, extend, by_word),
            e == EditorEffect::CursorMoved,
    {
        if !extend && self.anchor != self.head {
            let start = self.selected_range().start;
            return self.move_cursor(start, false);
        }
        let target = if by_word {
            previous_word_boundary(self.content.as_str(), self.head)
        } else {
            previous_char_boundary(self.content.as_str(), self.head)
        };
        self.move_cursor(target, extend)
    }

    /// The right arrow (see `spec_move_right`).
    pub fn move_right(&mut self, extend: bool, by_word: bool) -> (e: EditorEffect)
        requires
            old(self).wf(),
        ensures
            final(self).wf(),
            final(self)@ == spec_move_right(old(self)@, extend, by_word),
            e == EditorEffect::CursorMoved,
    {
        if !extend && self.anchor != self.head {
            let end = self.selected_range().end;
            return self.move_cursor(end, false);
        }
        let target = if by_word {
            next_word_boundary(self.content.as_str(), self.head)
        } else {
            next_char_boundary(self.content.as_str(), self.head)
        };
        self.move_cursor(target, extend)
    }

    /// The up (`delta < 0`) and down arrows (see `spec_move_vertical`).
    pub fn move_vertical(&mut self, delta: isize, extend: bool) -> (e: EditorEffect)
        requires
            old(self).wf(),
        ensures
            final(self).wf(),
            final(self)@ == spec_move_vertical(old(self)@, delta < 0, extend),
            e == EditorEffect::CursorMoved,
    {
        let ghost s = self.content@;
        let text = self.content.as_str();
        let cursor = self.head;
        let current_start = line_start(text, cursor);
        proof {
            lemma_cursor_positions_are_char_boundaries(s, cursor as int);
            lemma_boundary_is_nearest(s, cursor as int);
            lemma_floor_index(s, cursor as int);
            lemma_floor_index(s, current_start as int);
            lemma_offset_is_boundary(s, spec_floor_index(s, current_start as int));
            if spec_floor_index(s, cursor as int) < spec_floor_index(s, current_start as int) {
                lemma_offset_mono(
                    s,
                    spec_floor_index(s, cursor as int),
                    spec_floor_index(s, current_start as int),
                );
            }
        }
        let layout = utf8_layout(text);
        let column = floor_index(&layout, cursor) - floor_index(&layout, current_start);
        let target_start = if delta < 0 {
            if current_start == 0 {
                0
            } else {
                line_start(text, current_start - 1)
            }
        } else {
            let current_end = line_end(text, cursor);
            proof {
                lemma_line_end_before_break(s, cursor as int);
                lemma_offset_mono(s, 0, s.len() as int);
            }
            if current_end >= byte_len(text) {
                current_start
            } else {
                current_end + 1
            }
        };
        proof {
            if current_start > 0 {
                lemma_cursor_positions_are_char_boundaries(s, current_start - 1);
            }
            lemma_cursor_positions_are_char_boundaries(s, target_start as int);
            lemma_boundary_ends(s);
            lemma_boundary_is_nearest(s, target_start as int);
        }
        let target_end = line_end(text, target_start);
        proof {
            lemma_cursor_positions_are_char_boundaries(s, target_end as int);
        }
        let target = byte_offset_for_char_column(text, target_start, target_end, column);
        self.move_cursor(target, extend)
    }

    /// A double click (see `spec_select_word_at`).
    pub fn select_word_at(&mut self, offset: usize) -> (e: EditorEffect)
        requires
            old(self).wf(),
        ensures
            final(self).wf(),
            final(self)@ == spec_select_word_at(old(self)@, offset as int),
            e == EditorEffect::CursorMoved,
    {
        proof {
            lemma_cursor_positions_are_char_boundaries(self.content@, offset as int);
        }
        let (start, end) = word_bounds(self.content.as_str(), offset);
        self.anchor = start;
        self.head = end;
        self.scroll_cursor_pending = true;
        EditorEffect::CursorMoved
    }

    /// A triple click (see `spec_select_line_at`).
    pub fn select_line_at(&mut self, offset: usize) -> (e: EditorEffect)
        requires
            old(self).wf(),
        ensures
            final(self).wf(),
            final(self)@ == spec_select_line_at(old(self)@, offset as int),
            e == EditorEffect::CursorMoved,
    {
        proof {
            lemma_cursor_positions_are_char_boundaries(self.content@, offset as int);
            lemma_line_end_before_break(self.content@, offset as int);
            lemma_offset_mono(self.content@, 0, self.content@.len() as int);
        }
        let text = self.content.as_str();
        let start = line_start(text, offset);
        let mut end = line_end(text, offset);
        if end < byte_len(text) {
            end += 1;
        }
        self.anchor = start;
        self.head = end;
        self.scroll_cursor_pending = true;
        EditorEffect::CursorMoved
    }

    /// Selects the whole text (see `spec_select_all`).
    pub fn select_all(&mut self) -> (e: EditorEffect)
        requires
            old(self).wf(),
        ensures
            final(self).wf(),
            final(self)@ == spec_select_all(old(self)@),
            e == EditorEffect::CursorMoved,
    {
        proof {
            lemma_boundary_ends(self.content@);
        }
        self.anchor = 0;
        self.head = byte_len(self.content.as_str());
        self.scroll_cursor_pending = true;
        EditorEffect::CursorMoved
    }

    /// The head's line and column, both counted from one.
    pub fn cursor_position(&self) -> (r: (usize, usize))
        requires
            self.wf(),
        ensures
            (r.0 as int, r.1 as int) == spec_cursor_position(self@),
    {
        let ghost s = self.content@;
        let text = self.content.as_str();
        let layout = utf8_layout(text);
        let k = floor_index(&layout, self.head);
        let mut lines: usize = 0;
        let mut i: usize = 0;
        proof {
            lemma_byte_len_at_least_len(s);
            assert(s.take(0) =~= Seq::<char>::empty());
        }
        while i < k
            invariant
                layout.is_layout_of(s),
                k <= s.len(),
                i <= k,
                s.len() <= isize::MAX,
                lines as int == spec_count_newlines(s.take(i as int)),
            decreases k - i,
        {
            proof {
                assert(s.take(i + 1).drop_last() =~= s.take(i as int));
                lemma_count_newlines_bound(s.take(i as int));
            }
            if layout.chars[i] == '\n' {
                lines += 1;
            }
            i += 1;
        }
        proof {
            lemma_count_newlines_bound(s.take(k as int));
            lemma_cursor_positions_are_char_boundaries(s, self.head as int);
        }
        let start = line_start(text, self.head);
        let j = floor_index(&layout, start);
        proof {
            lemma_boundary_is_nearest(s, self.head as int);
            lemma_floor_index(s, self.head as int);
            lemma_floor_index(s, start as int);
            if k < j {
                lemma_offset_mono(s, k as int, j as int);
            }
        }
        (lines + 1, k - j + 1)
    }
}

/// Spaces and tabs, the characters that indent a line.
pub open spec fn spec_indent_char() -> spec_fn(char) -> bool {
    |c: char| c == ' ' || c == '\t'
}

/// Whether `open` and `close` are a bracket pair that encloses a block.
pub open spec fn spec_closes_block(open: char, close: char) -> bool {
    (open == '(' && close == ')') || (open == '[' && close == ']') || (open == '{' && close
        == '}')
}

/// The spaces and tabs that start the head's line, up to the selection.
pub open spec fn spec_newline_indent(v: EditorView) -> Seq<char> {
    let s = v.content;
    let start = spec_selection_start(v);
    let k = spec_floor_index(s, start);
    let a = spec_floor_index(s, spec_line_start(s, start));
    s.subrange(a, a + spec_scan_forward(s.subrange(a, k), 0, spec_indent_char()))
}

/// Whether Enter falls between an opening bracket and its closing partner
/// (white space aside), so that the block is opened on a line of its own.
pub open spec fn spec_newline_opens_block(v: EditorView) -> bool {
    let s = v.content;
    let p = spec_scan_back(s, spec_floor_index(s, spec_selection_start(v)), spec_blank());
    let q = spec_scan_forward(s, spec_floor_index(s, spec_selection_end(v)), spec_blank());
    p > 0 && q < s.len() && spec_closes_block(s[p - 1], s[q])
}

/// What Enter inserts: a line break and the current indentation; between a
/// bracket pair, also an indented empty line for the block.
pub open spec fn spec_newline_insertion(v: EditorView) -> Seq<char> {
    let ind = spec_newline_indent(v);
    if spec_newline_opens_block(v) {
        seq!['\n'] + ind + seq![' ', ' ', ' ', ' ', '\n'] + ind
    } else {
        seq!['\n'] + ind
    }
}

/// Enter: the selection is replaced by the insertion; inside a bracket pair
/// the cursor goes to the indented empty line.
pub open spec fn spec_insert_newline(v: EditorView) -> EditorView {
    let start = spec_selection_start(v);
    let edited = spec_replace(
        v,
        start,
        spec_selection_end(v),
        spec_newline_insertion(v),
        true,
    );
    if spec_newline_opens_block(v) {
        let cursor = start + 1 + spec_newline_indent(v).len() + 4;
        EditorView { anchor: cursor, head: cursor, scroll_cursor_pending: true, ..edited }
    } else {
        edited
    }
}

/// Texts of one-byte characters take one byte each.
pub proof fn lemma_ascii_byte_len(t: Seq<char>)
    requires
        forall|i: int| 0 <= i < t.len() ==> (#[trigger] t[i] as u32) < 0x80,
    ensures
        spec_byte_len(t) == t.len(),
    decreases t.len(),
{
    if t.len() > 0 {
        assert((t[0] as u32) < 0x80);
        let u = t.drop_first();
        assert forall|i: int| 0 <= i < u.len() implies (#[trigger] u[i] as u32) < 0x80 by {
            assert(u[i] == t[i + 1]);
        }
        lemma_ascii_byte_len(u);
    }
}

/// Whether `c` is a space or a tab.
fn is_indent_char(c: char) -> (r: bool)
    ensures
        r == (spec_indent_char())(c),
{
    c == ' ' || c == '\t'
}

impl EditorBuffer {
    /// Enter (see `spec_insert_newline`); only an editable text takes it.
    #[verifier::spinoff_prover]
    #[verifier::rlimit(40)]
    pub fn insert_newline(&mut self) -> (e: EditorEffect)
        requires
            old(self).wf(),
            !old(self).read_only,
            spec_byte_len(old(self)@.content) + spec_byte_len(spec_newline_insertion(old(self)@))
                <= isize::MAX,
        ensures
            final(self).wf(),
            final(self)@ == spec_insert_newline(old(self)@),
            e == EditorEffect::ContentChanged,
    {
        let ghost v = self@;
        let ghost s = self.content@;
        let range = self.selected_range();
        let start = range.start;
        let text = self.content.as_str();
        let layout = utf8_layout(text);
        let n = layout.chars.len();
        proof {
            lemma_cursor_positions_are_char_boundaries(s, start as int);
            lemma_floor_index(s, start as int);
        }
        let ls = line_start(text, start);
        let a = floor_index(&layout, ls);
        let k = floor_index(&layout, start);
        let b = floor_index(&layout, range.end);
        proof {
            lemma_floor_index(s, ls as int);
            lemma_boundary_is_nearest(s, start as int);
            if k < a {
                lemma_offset_mono(s, k as int, a as int);
            }
        }
        let ghost t = s.subrange(a as int, k as int);
        let mut i = a;
        proof {
            assert(t.len() == k - a);
        }
        while i < k && is_indent_char(layout.chars[i])
            invariant
                layout.is_layout_of(s),
                a <= i <= k <= n == s.len(),
                t == s.subrange(a as int, k as int),
                spec_scan_forward(t, i - a, spec_indent_char()) == spec_scan_forward(
                    t,
                    0,
                    spec_indent_char(),
                ),
            decreases k - i,
        {
            assert(t[i - a] == s[i as int]);
            i += 1;
        }
        proof {
            if i < k {
                assert(t[i - a] == s[i as int]);
            }
        }
        let mut p = k;
        let ghost k0 = k as int;
        while p > 0 && is_whitespace(layout.chars[p - 1])
            invariant
                layout.is_layout_of(s),
                p <= k <= n == s.len(),
                spec_scan_back(s, p as int, spec_blank()) == spec_scan_back(s, k0, spec_blank()),
            decreases p,
        {
            p -= 1;
        }
        let mut q = b;
        let ghost b0 = b as int;
        while q < n && is_whitespace(layout.chars[q])
            invariant
                layout.is_layout_of(s),
                b <= q <= n == s.len(),
                spec_scan_forward(s, q as int, spec_blank()) == spec_scan_forward(s, b0, spec_blank()),
            decreases n - q,
        {
            q += 1;
        }
        let closes = p > 0 && q < n && {
            let o = layout.chars[p - 1];
            let c = layout.chars[q];
            (o == '(' && c == ')') || (o == '[' && c == ']') || (o == '{' && c == '}')
        };
        let mut insertion = String::new();
        insertion.push('\n');
        push_chars(&mut insertion, &layout.chars, a, i);
        if closes {
            insertion.push(' ');
            insertion.push(' ');
            insertion.push(' ');
            insertion.push(' ');
            insertion.push('\n');
            push_chars(&mut insertion, &layout.chars, a, i);
        }
        let ghost ind = s.subrange(a as int, i as int);
        proof {
            assert(ind =~= spec_newline_indent(v));
            assert(insertion@ =~= spec_newline_insertion(v));
        }
        self.replace_byte_range(range, insertion.as_str(), true);
        if closes {
            let ghost fresh = self.content@;
            let ghost c = k + 1 + ind.len() + 4;
            proof {
                assert forall|j: int| 0 <= j < ind.len() implies (#[trigger] ind[j] as u32) < 0x80 by {
                    assert(ind[j] == t[j]);
                    lemma_scan_forward_prefix(t, 0, j, spec_indent_char());
                }
                let head = seq!['\n'] + ind + seq![' ', ' ', ' ', ' '];
                assert forall|j: int| 0 <= j < head.len() implies (#[trigger] head[j] as u32) < 0x80 by {
                    if 1 <= j < 1 + ind.len() {
                        assert(head[j] == ind[j - 1]);
                    }
                }
                lemma_ascii_byte_len(head);
                assert(fresh.take(c) =~= s.take(k as int) + head);
                lemma_byte_len_concat(s.take(k as int), head);
                lemma_offset_is_boundary(fresh, c);
            }
            let cursor = start + 1 + (i - a) + 4;
            self.anchor = cursor;
            self.head = cursor;
            self.scroll_cursor_pending = true;
        }
        EditorEffect::ContentChanged
    }
}

/// A forward scan stops at a character that fails its predicate, or at
/// the end.
pub proof fn lemma_scan_forward_stops(s: Seq<char>, k: int, p: spec_fn(char) -> bool)
    requires
        0 <= k <= s.len(),
    ensures
        spec_scan_forward(s, k, p) < s.len() ==> !p(s[spec_scan_forward(s, k, p)]),
    decreases s.len() - k,
{
    if k < s.len() && p(s[k]) {
        lemma_scan_forward_stops(s, k + 1, p);
    }
}

/// Enter carries the indentation of the cursor's line: what it inserts is
/// a line break followed by the longest run of spaces and tabs that starts
/// the line, taken up to the cursor; a tab-indented line keeps its tabs.
pub proof fn lemma_enter_keeps_line_indentation(v: EditorView)
    requires
        view_wf(v),
    ensures
        ({
            let s = v.content;
            let start = spec_selection_start(v);
            let k = spec_floor_index(s, start);
            let a = spec_floor_index(s, spec_line_start(s, start));
            let ins = spec_newline_insertion(v);
            let n = spec_newline_indent(v).len() as int;
            &&& 0 <= a <= a + n <= k <= s.len()
            &&& ins.len() >= n + 1
            &&& ins[0] == '\n'
            &&& forall|j: int|
                0 <= j < n ==> #[trigger] ins[j + 1] == s[a + j] && (s[a + j] == ' ' || s[a + j]
                    == '\t')
            &&& a + n < k ==> s[a + n] != ' ' && s[a + n] != '\t'
        }),
{
    let s = v.content;
    let start = spec_selection_start(v);
    let ls = spec_line_start(s, start);
    let k = spec_floor_index(s, start);
    let a = spec_floor_index(s, ls);
    lemma_cursor_positions_are_char_boundaries(s, start);
    lemma_boundary_is_nearest(s, start);
    lemma_floor_index(s, start);
    lemma_floor_index(s, ls);
    if k < a {
        lemma_offset_mono(s, k + 1, a);
    }
    let t = s.subrange(a, k);
    let p = spec_indent_char();
    let r = spec_scan_forward(t, 0, p);
    crate::text_editor::lemma_scan_forward_bound(t, 0, p);
    lemma_scan_forward_stops(t, 0, p);
    let ind = spec_newline_indent(v);
    assert(ind == s.subrange(a, a + r));
    let ins = spec_newline_insertion(v);
    assert forall|j: int| 0 <= j < r implies #[trigger] ins[j + 1] == s[a + j] && (s[a + j] == ' '
        || s[a + j] == '\t') by {
        lemma_scan_forward_prefix(t, 0, j, p);
        assert(t[j] == s[a + j]);
        assert(ind[j] == s[a + j]);
    }
    if a + r < k {
        assert(t[r] == s[a + r]);
        assert(!p(t[r]));
    }
    assert(0 <= a <= a + r <= k <= s.len());
    assert(ins.len() >= r + 1);
    assert(ins[0] == '\n');
    assert(a + r < k ==> s[a + r] != ' ' && s[a + r] != '\t');
    assert(spec_newline_indent(v).len() as int == r);
    assert(forall|j: int|
        0 <= j < r ==> #[trigger] ins[j + 1] == s[a + j] && (s[a + j] == ' ' || s[a + j]
            == '\t'));
}

/// Every character that a forward scan passes satisfies its predicate.
pub proof fn lemma_scan_forward_prefix(s: Seq<char>, k: int, j: int, p: spec_fn(char) -> bool)
    requires
        0 <= k <= j < spec_scan_forward(s, k, p),
    ensures
        p(s[j]),
    decreases j - k,
{
    if j > k {
        lemma_scan_forward_prefix(s, k + 1, j, p);
    }
}

/// The lines of `s`: the pieces between its line breaks, one more than
/// there are line breaks.
pub open spec fn spec_lines(s: Seq<char>) -> Seq<Seq<char>>
    decreases s.len(),
{
    if s.len() == 0 {
        seq![seq![]]
    } else {
        let before = spec_lines(s.drop_last());
        if s.last() == '\n' {
            before.push(seq![])
        } else {
            before.update(before.len() - 1, before.last().push(s.last()))
        }
    }
}

/// Lines joined with line breaks between them.
pub open spec fn spec_join_lines(lines: Seq<Seq<char>>) -> Seq<char>
    decreases lines.len(),
{
    if lines.len() == 0 {
        seq![]
    } else if lines.len() == 1 {
        lines[0]
    } else {
        spec_join_lines(lines.drop_last()) + seq!['\n'] + lines.last()
    }
}

/// How many spaces start `line`, counting no further than `limit`.
pub open spec fn spec_leading_spaces(line: Seq<char>, limit: nat) -> int
    decreases limit,
{
    if limit == 0 || line.len() == 0 || line[0] != ' ' {
        0
    } else {
        1 + spec_leading_spaces(line.drop_first(), (limit - 1) as nat)
    }
}

/// How many characters outdenting takes from the start of `line`: one tab,
/// or else up to four spaces.
pub open spec fn spec_outdent_width(line: Seq<char>) -> int {
    if line.len() > 0 && line[0] == '\t' {
        1
    } else {
        spec_leading_spaces(line, 4)
    }
}

/// One line after Tab (four spaces more) or Shift+Tab (one indent less).
pub open spec fn spec_reindent_line(line: Seq<char>, outdent: bool) -> Seq<char> {
    if outdent {
        line.skip(spec_outdent_width(line))
    } else {
        seq![' ', ' ', ' ', ' '] + line
    }
}

/// The lines of `source` each indented or outdented.
pub open spec fn spec_reindented(source: Seq<char>, outdent: bool) -> Seq<char> {
    spec_join_lines(spec_lines(source).map_values(|l: Seq<char>| spec_reindent_line(l, outdent)))
}

/// Whether re-indenting `source` changes anything: indenting always does,
/// outdenting when some line starts with a tab or a space.
pub open spec fn spec_reindent_changes(source: Seq<char>, outdent: bool) -> bool {
    !outdent || exists|i: int|
        0 <= i < spec_lines(source).len() && spec_outdent_width(#[trigger] spec_lines(source)[i])
            > 0
}

/// The whole lines that the selection touches, as a byte range; a
/// selection that ends at the start of a line leaves that line out.
pub open spec fn spec_indent_span(v: EditorView) -> (int, int) {
    let s = v.content;
    let ss = spec_selection_start(v);
    let se = spec_selection_end(v);
    let last = if se > ss && se == spec_line_start(s, se) {
        spec_previous_char_boundary(s, se)
    } else {
        se
    };
    (spec_line_start(s, ss), spec_line_end(s, last))
}

/// What Tab writes: four spaces in place of an empty selection, else the
/// selected lines re-indented.
pub open spec fn spec_indent_text(v: EditorView, outdent: bool) -> Seq<char> {
    if spec_selection_start(v) == spec_selection_end(v) && !outdent {
        seq![' ', ' ', ' ', ' ']
    } else {
        let (start, end) = spec_indent_span(v);
        spec_reindented(
            v.content.subrange(
                spec_floor_index(v.content, start),
                spec_floor_index(v.content, end),
            ),
            outdent,
        )
    }
}

/// Whether Tab or Shift+Tab changes the text.
pub open spec fn spec_indent_changes(v: EditorView, outdent: bool) -> bool {
    let (start, end) = spec_indent_span(v);
    (spec_selection_start(v) == spec_selection_end(v) && !outdent) || spec_reindent_changes(
        v.content.subrange(spec_floor_index(v.content, start), spec_floor_index(v.content, end)),
        outdent,
    )
}

/// Tab and Shift+Tab: an empty selection gets four spaces; otherwise the
/// selected lines are indented or outdented and then selected whole, and
/// nothing happens when no line can be outdented.
pub open spec fn spec_indent_selection(v: EditorView, outdent: bool) -> EditorView {
    let ss = spec_selection_start(v);
    let se = spec_selection_end(v);
    if ss == se && !outdent {
        spec_replace(v, ss, se, spec_indent_text(v, outdent), true)
    } else {
        let (start, end) = spec_indent_span(v);
        let source = v.content.subrange(
            spec_floor_index(v.content, start),
            spec_floor_index(v.content, end),
        );
        if !spec_reindent_changes(source, outdent) {
            v
        } else {
            let edited = spec_replace(v, start, end, spec_indent_text(v, outdent), true);
            EditorView { anchor: start, scroll_cursor_pending: true, ..edited }
        }
    }
}

/// Lines as sequences of characters.
pub open spec fn deep_lines(v: Seq<Vec<char>>) -> Seq<Seq<char>> {
    v.map_values(|l: Vec<char>| l@)
}

/// The lines of the characters from `a` to `b`.
fn split_lines(chars: &Vec<char>, a: usize, b: usize) -> (r: Vec<Vec<char>>)
    requires
        a <= b <= chars@.len(),
    ensures
        deep_lines(r@) == spec_lines(chars@.subrange(a as int, b as int)),
{
    let ghost s = chars@;
    let mut lines: Vec<Vec<char>> = Vec::new();
    let mut current: Vec<char> = Vec::new();
    let mut i = a;
    proof {
        assert(s.subrange(a as int, a as int) =~= Seq::<char>::empty());
        assert(deep_lines(lines@).push(current@) =~= seq![Seq::<char>::empty()]);
    }
    while i < b
        invariant
            a <= i <= b <= s.len(),
            s == chars@,
            deep_lines(lines@).push(current@) == spec_lines(s.subrange(a as int, i as int)),
        decreases b - i,
    {
        let c = chars[i];
        let ghost before = deep_lines(lines@);
        let ghost cur = current@;
        proof {
            assert(s.subrange(a as int, i + 1).drop_last() =~= s.subrange(a as int, i as int));
            assert(s.subrange(a as int, i + 1).last() == c);
        }
        if c == '\n' {
            let done = current;
            lines.push(done);
            current = Vec::new();
            proof {
                assert(deep_lines(lines@) =~= before.push(cur));
                assert(deep_lines(lines@).push(current@) =~= before.push(cur).push(seq![]));
            }
        } else {
            current.push(c);
            proof {
                assert(deep_lines(lines@) =~= before);
                assert(before.push(current@) =~= before.push(cur).update(
                    before.len() as int,
                    cur.push(c),
                ));
            }
        }
        i += 1;
    }
    let ghost before = deep_lines(lines@);
    let ghost cur = current@;
    lines.push(current);
    proof {
        assert(deep_lines(lines@) =~= before.push(cur));
    }
    lines
}

/// How many characters outdenting takes from the start of `line`.
fn outdent_width(line: &Vec<char>) -> (r: usize)
    ensures
        r == spec_outdent_width(line@),
        r <= line@.len(),
{
    if line.len() > 0 && line[0] == '\t' {
        return 1;
    }
    let mut k: usize = 0;
    proof {
        assert(line@.skip(0) =~= line@);
    }
    while k < 4 && k < line.len() && line[k] == ' '
        invariant
            k <= 4,
            k <= line@.len(),
            spec_leading_spaces(line@.skip(k as int), (4 - k) as nat) + k == spec_leading_spaces(
                line@,
                4,
            ),
        decreases 4 - k,
    {
        proof {
            assert(line@.skip(k as int).drop_first() =~= line@.skip(k + 1));
            assert(line@.skip(k as int)[0] == line@[k as int]);
        }
        k += 1;
    }
    proof {
        if k < 4 && k < line@.len() {
            assert(line@.skip(k as int)[0] == line@[k as int]);
        }
    }
    k
}

proof fn lemma_lines_nonempty(s: Seq<char>)
    ensures
        spec_lines(s).len() >= 1,
    decreases s.len(),
{
    if s.len() > 0 {
        lemma_lines_nonempty(s.drop_last());
    }
}

/// The lines of the characters from `a` to `b`, each re-indented, joined
/// again; and whether that changed anything.
fn reindent(chars: &Vec<char>, a: usize, b: usize, outdent: bool) -> (r: (String, bool))
    requires
        a <= b <= chars@.len(),
    ensures
        r.0@ == spec_reindented(chars@.subrange(a as int, b as int), outdent),
        r.1 == spec_reindent_changes(chars@.subrange(a as int, b as int), outdent),
{
    let ghost source = chars@.subrange(a as int, b as int);
    let lines = split_lines(chars, a, b);
    let ghost ls = deep_lines(lines@);
    let ghost mapped = ls.map_values(|l: Seq<char>| spec_reindent_line(l, outdent));
    proof {
        lemma_lines_nonempty(source);
    }
    let mut out = String::new();
    let mut changed = false;
    let mut j: usize = 0;
    while j < lines.len()
        invariant
            ls == deep_lines(lines@),
            ls == spec_lines(source),
            mapped == ls.map_values(|l: Seq<char>| spec_reindent_line(l, outdent)),
            j <= lines@.len(),
            out@ == spec_join_lines(mapped.take(j as int)),
            changed == ((!outdent && j > 0) || (outdent && exists|i: int|
                0 <= i < j && spec_outdent_width(#[trigger] ls[i]) > 0)),
        decreases lines@.len() - j,
    {
        let line = &lines[j];
        assert(line@ == ls[j as int]);
        let ghost before = out@;
        if j > 0 {
            out.push('\n');
        }
        if outdent {
            let w = outdent_width(line);
            if w > 0 {
                changed = true;
            }
            push_chars(&mut out, line, w, line.len());
            proof {
                assert(line@.subrange(w as int, line@.len() as int) =~= line@.skip(w as int));
            }
        } else {
            out.push(' ');
            out.push(' ');
            out.push(' ');
            out.push(' ');
            push_chars(&mut out, line, 0, line.len());
            changed = true;
            proof {
                assert(line@.subrange(0, line@.len() as int) =~= line@);
            }
        }
        proof {
            assert(mapped.take(j + 1).drop_last() =~= mapped.take(j as int));
            assert(mapped.take(j + 1).last() == mapped[j as int]);
            if j == 0 {
                assert(before =~= Seq::<char>::empty());
                assert(out@ =~= mapped[0]);
            } else {
                assert(out@ =~= before + seq!['\n'] + mapped[j as int]);
            }
        }
        j += 1;
    }
    proof {
        assert(mapped.take(lines@.len() as int) =~= mapped);
    }
    (out, changed)
}

impl EditorBuffer {
    /// Tab (`outdent` false) and Shift+Tab (see `spec_indent_selection`);
    /// only an editable text takes them.
    #[verifier::spinoff_prover]
    #[verifier::rlimit(40)]
    pub fn indent_selection(&mut self, outdent: bool) -> (e: EditorEffect)
        requires
            old(self).wf(),
            !old(self).read_only,
            spec_byte_len(old(self)@.content) + spec_byte_len(spec_indent_text(old(self)@, outdent))
                <= isize::MAX,
        ensures
            final(self).wf(),
            final(self)@ == spec_indent_selection(old(self)@, outdent),
            e == (if spec_indent_changes(old(self)@, outdent) {
                EditorEffect::ContentChanged
            } else {
                EditorEffect::Unchanged
            }),
    {
        let ghost v = self@;
        let ghost s = self.content@;
        let selection = self.selected_range();
        if selection.start == selection.end && !outdent {
            proof {
                reveal_strlit("    ");
                assert("    "@ =~= seq![' ', ' ', ' ', ' ']);
            }
            return self.replace_byte_range(selection, "    ", true);
        }
        let text = self.content.as_str();
        let ss = selection.start;
        let se = selection.end;
        proof {
            lemma_cursor_positions_are_char_boundaries(s, ss as int);
            lemma_cursor_positions_are_char_boundaries(s, se as int);
            lemma_boundary_is_nearest(s, ss as int);
            lemma_boundary_is_nearest(s, se as int);
            lemma_floor_index(s, ss as int);
            lemma_floor_index(s, se as int);
        }
        let start = line_start(text, ss);
        let last = if se > ss && se == line_start(text, se) {
            proof {
                let i = spec_floor_index(s, ss as int);
                let j = spec_floor_index(s, se as int);
                if i >= j {
                    lemma_offset_mono(s, j, i);
                }
                lemma_offset_mono(s, i, j - 1);
            }
            previous_char_boundary(text, se)
        } else {
            se
        };
        proof {
            lemma_cursor_positions_are_char_boundaries(s, last as int);
            lemma_boundary_is_nearest(s, last as int);
        }
        let end = line_end(text, last);
        let layout = utf8_layout(text);
        let a = floor_index(&layout, start);
        let b = floor_index(&layout, end);
        proof {
            lemma_floor_index(s, start as int);
            lemma_floor_index(s, end as int);
            if b < a {
                lemma_offset_mono(s, b as int, a as int);
            }
        }
        let (replacement, changed) = reindent(&layout.chars, a, b, outdent);
        if !changed {
            return EditorEffect::Unchanged;
        }
        self.replace_byte_range(Range { start, end }, replacement.as_str(), true);
        proof {
            let fresh = self.content@;
            assert(fresh.take(a as int) =~= s.take(a as int));
            lemma_offset_is_boundary(fresh, a as int);
        }
        self.anchor = start;
        self.scroll_cursor_pending = true;
        EditorEffect::ContentChanged
    }
}

/// Whether `q` occurs in `s` at character index `j`.
pub open spec fn spec_occurs_at(s: Seq<char>, q: Seq<char>, j: int) -> bool {
    0 <= j && j + q.len() <= s.len() && s.subrange(j, j + q.len()) == q
}

/// The first character index from `i` on at which `q` occurs in `s`.
pub open spec fn spec_find_from(s: Seq<char>, q: Seq<char>, i: int) -> Option<int>
    decreases s.len() + 1 - i,
{
    if i < 0 || i + q.len() > s.len() {
        None
    } else if spec_occurs_at(s, q, i) {
        Some(i)
    } else {
        spec_find_from(s, q, i + 1)
    }
}

/// Counting from zero, the `n`th of the occurrences of `q` in `s` from `i`
/// on that do not overlap, found from left to right.
pub open spec fn spec_nth_match(s: Seq<char>, q: Seq<char>, i: int, n: nat) -> Option<int>
    decreases n,
{
    match spec_find_from(s, q, i) {
        None => None,
        Some(j) => if n == 0 {
            Some(j)
        } else {
            spec_nth_match(s, q, j + q.len(), (n - 1) as nat)
        },
    }
}

/// A machine index as a mathematical one.
pub open spec fn opt_int(r: Option<usize>) -> Option<int> {
    match r {
        Some(j) => Some(j as int),
        None => None,
    }
}

proof fn lemma_find_from_bound(s: Seq<char>, q: Seq<char>, i: int)
    ensures
        spec_find_from(s, q, i) matches Some(j) ==> i <= j && spec_occurs_at(s, q, j),
    decreases s.len() + 1 - i,
{
    if !(i < 0 || i + q.len() > s.len()) && !spec_occurs_at(s, q, i) {
        lemma_find_from_bound(s, q, i + 1);
    }
}

proof fn lemma_nth_match_occurs(s: Seq<char>, q: Seq<char>, i: int, n: nat)
    ensures
        spec_nth_match(s, q, i, n) matches Some(j) ==> spec_occurs_at(s, q, j),
    decreases n,
{
    lemma_find_from_bound(s, q, i);
    if let Some(j) = spec_find_from(s, q, i) {
        if n > 0 {
            lemma_nth_match_occurs(s, q, j + q.len(), (n - 1) as nat);
        }
    }
}

/// Whether `q` occurs in `s` at index `j`.
fn occurs_at(s: &Vec<char>, q: &Vec<char>, j: usize) -> (r: bool)
    requires
        j + q@.len() <= s@.len(),
    ensures
        r == spec_occurs_at(s@, q@, j as int),
{
    let n = s.len();
    let mut k: usize = 0;
    while k < q.len()
        invariant
            n == s@.len(),
            j + q@.len() <= s@.len(),
            k <= q@.len(),
            forall|m: int| 0 <= m < k ==> s@[j + m] == q@[m],
        decreases q@.len() - k,
    {
        if s[j + k] != q[k] {
            assert(s@.subrange(j as int, j + q@.len())[k as int] != q@[k as int]);
            return false;
        }
        k += 1;
    }
    assert(s@.subrange(j as int, j + q@.len()) =~= q@);
    true
}

/// The first index from `i` on at which `q` occurs in `s`.
fn find_from(s: &Vec<char>, q: &Vec<char>, i: usize) -> (r: Option<usize>)
    requires
        q@.len() > 0,
    ensures
        opt_int(r) == spec_find_from(s@, q@, i as int),
{
    let mut j = i;
    while j <= s.len() && q.len() <= s.len() - j
        invariant
            q@.len() > 0,
            i <= j,
            spec_find_from(s@, q@, j as int) == spec_find_from(s@, q@, i as int),
        decreases s@.len() + 1 - j,
    {
        if occurs_at(s, q, j) {
            return Some(j);
        }
        j += 1;
    }
    None
}

/// The `n`th non-overlapping occurrence of the non-empty `q` in `s`.
fn nth_match(s: &Vec<char>, q: &Vec<char>, n: usize) -> (r: Option<usize>)
    requires
        q@.len() > 0,
    ensures
        opt_int(r) == spec_nth_match(s@, q@, 0, n as nat),
{
    let len = s.len();
    let mut from: usize = 0;
    let mut left = n;
    loop
        invariant
            len == s@.len(),
            q@.len() > 0,
            from <= s@.len(),
            spec_nth_match(s@, q@, from as int, left as nat) == spec_nth_match(
                s@,
                q@,
                0,
                n as nat,
            ),
        decreases left,
    {
        proof {
            lemma_find_from_bound(s@, q@, from as int);
        }
        match find_from(s, q, from) {
            None => {
                return None;
            },
            Some(j) => {
                if left == 0 {
                    return Some(j);
                }
                from = j + q.len();
                left -= 1;
            },
        }
    }
}

/// What taking the tab's current state does: new text puts the cursor at
/// the nearest boundary and drops the histories; the tab being loaded or
/// saved makes the editor read-only; a new search selects the match it
/// points at (an empty one collapses the selection to the head).
pub open spec fn spec_sync_from_tab(
    v: EditorView,
    content: Seq<char>,
    loading: bool,
    saving: bool,
    query: Seq<char>,
    active_match: int,
) -> EditorView {
    let reloaded = if v.content != content {
        let cursor = spec_nearest_char_boundary(content, v.head);
        EditorView {
            content,
            anchor: cursor,
            head: cursor,
            marked: None,
            undo: seq![],
            redo: seq![],
            scroll_cursor_pending: true,
            ..v
        }
    } else {
        v
    };
    let locked = EditorView { read_only: loading || saving, ..reloaded };
    if locked.search_query != query || locked.active_match != active_match {
        let searched = EditorView { search_query: query, active_match, ..locked };
        if query.len() == 0 {
            EditorView { anchor: searched.head, ..searched }
        } else {
            match spec_nth_match(searched.content, query, 0, active_match as nat) {
                Some(j) => EditorView {
                    anchor: spec_offset(searched.content, j),
                    head: spec_offset(searched.content, j + query.len()),
                    scroll_cursor_pending: true,
                    ..searched
                },
                None => searched,
            }
        }
    } else {
        locked
    }
}

/// What the view does after taking the tab's state: lay out the new text,
/// redraw, or nothing.
pub open spec fn spec_sync_effect(
    v: EditorView,
    content: Seq<char>,
    loading: bool,
    saving: bool,
    query: Seq<char>,
    active_match: int,
) -> EditorEffect {
    if v.content != content {
        EditorEffect::TextReloaded
    } else if v.read_only != (loading || saving) || v.search_query != query || v.active_match
        != active_match {
        EditorEffect::Redraw
    } else {
        EditorEffect::Unchanged
    }
}

/// What showing another preview does: a different name or text resets the
/// selection and histories; the same ones change nothing.
pub open spec fn spec_sync_read_only(v: EditorView, id: Seq<char>, content: Seq<char>) -> EditorView {
    if v.tab_id == id && v.content == content {
        v
    } else {
        EditorView {
            tab_id: id,
            content,
            anchor: 0,
            head: 0,
            marked: None,
            undo: seq![],
            redo: seq![],
            ..v
        }
    }
}

impl EditorBuffer {
    /// Takes the tab's current state (see `spec_sync_from_tab`).
    pub fn sync_from_tab(
        &mut self,
        content: &str,
        loading: bool,
        saving: bool,
        search_query: &str,
        active_match: usize,
    ) -> (e: EditorEffect)
        requires
            old(self).wf(),
            fits(content@),
        ensures
            final(self).wf(),
            final(self)@ == spec_sync_from_tab(
                old(self)@,
                content@,
                loading,
                saving,
                search_query@,
                active_match as int,
            ),
            e == spec_sync_effect(
                old(self)@,
                content@,
                loading,
                saving,
                search_query@,
                active_match as int,
            ),
    {
        let mut effect = EditorEffect::Unchanged;
        if !str_eq(self.content.as_str(), content) {
            proof {
                lemma_cursor_positions_are_char_boundaries(content@, self.head as int);
                lemma_byte_len_at_least_len(content@);
            }
            let cursor = nearest_char_boundary(content, self.head);
            self.content = content.to_owned();
            self.anchor = cursor;
            self.head = cursor;
            self.marked_range = None;
            self.undo_stack.clear();
            self.redo_stack.clear();
            self.scroll_cursor_pending = true;
            proof {
                lemma_empty_histories(self.undo_stack);
                lemma_empty_histories(self.redo_stack);
            }
            effect = EditorEffect::TextReloaded;
        }
        let read_only = loading || saving;
        if self.read_only != read_only {
            self.read_only = read_only;
            if effect == EditorEffect::Unchanged {
                effect = EditorEffect::Redraw;
            }
        }
        if !str_eq(self.search_query.as_str(), search_query) || self.active_match != active_match {
            self.search_query = search_query.to_owned();
            self.active_match = active_match;
            if search_query.is_empty() {
                self.anchor = self.head;
            } else {
                let chars = chars_of(self.content.as_str());
                let query = chars_of(search_query);
                proof {
                    lemma_nth_match_occurs(chars@, query@, 0, active_match as nat);
                }
                match nth_match(&chars, &query, active_match) {
                    Some(j) => {
                        let total = chars.len();
                        assert(j + query@.len() <= total);
                        let layout = utf8_layout(self.content.as_str());
                        proof {
                            lemma_offset_is_boundary(chars@, j as int);
                            lemma_offset_is_boundary(chars@, j + query@.len());
                        }
                        self.anchor = layout.starts[j];
                        self.head = layout.starts[j + query.len()];
                        self.scroll_cursor_pending = true;
                    },
                    None => {},
                }
            }
            if effect == EditorEffect::Unchanged {
                effect = EditorEffect::Redraw;
            }
        }
        effect
    }

    /// Shows another preview (see `spec_sync_read_only`).
    pub fn sync_read_only(&mut self, id: &str, content: &str) -> (e: EditorEffect)
        requires
            old(self).wf(),
            fits(content@),
        ensures
            final(self).wf(),
            final(self)@ == spec_sync_read_only(old(self)@, id@, content@),
            e == (if old(self)@.tab_id == id@ && old(self)@.content == content@ {
                EditorEffect::Unchanged
            } else {
                EditorEffect::TextReloaded
            }),
    {
        if str_eq(self.tab_id.as_str(), id) && str_eq(self.content.as_str(), content) {
            return EditorEffect::Unchanged;
        }
        self.tab_id = id.to_owned();
        self.content = content.to_owned();
        self.anchor = 0;
        self.head = 0;
        self.marked_range = None;
        self.undo_stack.clear();
        self.redo_stack.clear();
        proof {
            lemma_boundary_ends(content@);
            lemma_empty_histories(self.undo_stack);
            lemma_empty_histories(self.redo_stack);
        }
        EditorEffect::TextReloaded
    }
}

/// How many UTF-16 code units `s` takes.
pub open spec fn spec_utf16_len(s: Seq<char>) -> int
    decreases s.len(),
{
    if s.len() == 0 {
        0
    } else {
        spec_utf16_len(s.drop_last()) + spec_utf16_width(s.last())
    }
}

/// The UTF-16 offset of the boundary at or before byte `offset`.
pub open spec fn spec_offset_to_utf16(s: Seq<char>, offset: int) -> int {
    spec_utf16_len(s.take(spec_floor_index(s, offset)))
}

/// A range given in UTF-16 code units as byte offsets.
pub open spec fn spec_range_from_utf16(s: Seq<char>, r: (int, int)) -> (int, int) {
    (spec_utf16_to_utf8(s, r.0), spec_utf16_to_utf8(s, r.1))
}

/// A byte range in UTF-16 code units.
pub open spec fn spec_range_to_utf16(s: Seq<char>, r: (int, int)) -> (int, int) {
    (spec_offset_to_utf16(s, r.0), spec_offset_to_utf16(s, r.1))
}

/// A range as a pair of bounds.
pub open spec fn range_view(r: Range<usize>) -> (int, int) {
    (r.start as int, r.end as int)
}

/// An optional range as an optional pair of bounds.
pub open spec fn opt_range_view(r: Option<Range<usize>>) -> Option<(int, int)> {
    match r {
        Some(x) => Some(range_view(x)),
        None => None,
    }
}

proof fn lemma_utf16_len_bound(s: Seq<char>)
    ensures
        0 <= spec_utf16_len(s) <= 2 * s.len(),
    decreases s.len(),
{
    if s.len() > 0 {
        lemma_utf16_len_bound(s.drop_last());
    }
}

/// The byte range of an input-method request: the given UTF-16 range, else
/// the text being composed, else the selection.
pub open spec fn spec_input_range(v: EditorView, range_utf16: Option<(int, int)>) -> (int, int) {
    match range_utf16 {
        Some(r) => spec_range_from_utf16(v.content, r),
        None => match v.marked {
            Some(m) => m,
            None => (spec_selection_start(v), spec_selection_end(v)),
        },
    }
}

proof fn lemma_input_range_boundaries(v: EditorView, range_utf16: Option<(int, int)>)
    requires
        view_wf(v),
    ensures
        spec_is_boundary(v.content, spec_input_range(v, range_utf16).0),
        spec_is_boundary(v.content, spec_input_range(v, range_utf16).1),
{
    if let Some(r) = range_utf16 {
        lemma_cursor_positions_are_char_boundaries(v.content, 0);
        lemma_utf16_chars_bound(v.content, r.0);
        lemma_utf16_chars_bound(v.content, r.1);
        lemma_offset_is_boundary(v.content, spec_utf16_chars(v.content, r.0));
        lemma_offset_is_boundary(v.content, spec_utf16_chars(v.content, r.1));
    }
}

/// The boundary after `m` characters of `t` inserted at character `a` of
/// `s` lies `m` characters into the inserted text.
proof fn lemma_offset_into_insertion(s: Seq<char>, a: int, t: Seq<char>, rest: Seq<char>, m: int)
    requires
        0 <= a <= s.len(),
        0 <= m <= t.len(),
    ensures
        spec_offset(s.take(a) + t + rest, a + m) == spec_offset(s, a) + spec_offset(t, m),
        spec_is_boundary(s.take(a) + t + rest, spec_offset(s, a) + spec_offset(t, m)),
{
    let n = s.take(a) + t + rest;
    assert(n.take(a + m) =~= s.take(a) + t.take(m));
    lemma_byte_len_concat(s.take(a), t.take(m));
    lemma_offset_is_boundary(n, a + m);
}

impl EditorBuffer {
    /// The UTF-16 offset of the boundary at or before byte `offset`.
    pub fn offset_to_utf16(&self, offset: usize) -> (r: usize)
        requires
            self.wf(),
        ensures
            r == spec_offset_to_utf16(self@.content, offset as int),
    {
        let ghost s = self.content@;
        let layout = utf8_layout(self.content.as_str());
        let k = floor_index(&layout, offset);
        let mut units: usize = 0;
        let mut i: usize = 0;
        proof {
            lemma_byte_len_at_least_len(s);
            assert(s.take(0) =~= Seq::<char>::empty());
        }
        while i < k
            invariant
                layout.is_layout_of(s),
                i <= k <= s.len(),
                s.len() <= isize::MAX,
                units == spec_utf16_len(s.take(i as int)),
            decreases k - i,
        {
            proof {
                assert(s.take(i + 1).drop_last() =~= s.take(i as int));
                lemma_utf16_len_bound(s.take(i as int));
            }
            let c = layout.chars[i];
            units = units + if (c as u32) >= 0x10000 {
                2
            } else {
                1
            };
            i += 1;
        }
        units
    }

    /// The byte offset that the UTF-16 offset `offset` stands for.
    pub fn offset_from_utf16(&self, offset: usize) -> (r: usize)
        requires
            self.wf(),
        ensures
            r == spec_utf16_to_utf8(self@.content, offset as int),
    {
        utf16_to_utf8(self.content.as_str(), offset)
    }

    /// A UTF-16 range as a byte range.
    pub fn range_from_utf16(&self, range: &Range<usize>) -> (r: Range<usize>)
        requires
            self.wf(),
        ensures
            range_view(r) == spec_range_from_utf16(self@.content, range_view(*range)),
    {
        Range { start: self.offset_from_utf16(range.start), end: self.offset_from_utf16(range.end) }
    }

    /// A byte range as a UTF-16 range.
    pub fn range_to_utf16(&self, range: &Range<usize>) -> (r: Range<usize>)
        requires
            self.wf(),
        ensures
            range_view(r) == spec_range_to_utf16(self@.content, range_view(*range)),
    {
        Range { start: self.offset_to_utf16(range.start), end: self.offset_to_utf16(range.end) }
    }

    /// The text of a UTF-16 range, and the range itself as the text has it.
    pub fn text_for_range(&self, range_utf16: Range<usize>, actual_range: &mut Option<Range<usize>>) -> (r:
        Option<String>)
        requires
            self.wf(),
            range_utf16.start <= range_utf16.end,
        ensures
            r matches Some(t) && t@ == self@.content.subrange(
                spec_utf16_chars(self@.content, range_utf16.start as int),
                spec_utf16_chars(self@.content, range_utf16.end as int),
            ),
            opt_range_view(*final(actual_range)) == Some(
                spec_range_to_utf16(
                    self@.content,
                    spec_range_from_utf16(self@.content, range_view(range_utf16)),
                ),
            ),
    {
        let ghost s = self.content@;
        let range = self.range_from_utf16(&range_utf16);
        *actual_range = Some(self.range_to_utf16(&range));
        let layout = utf8_layout(self.content.as_str());
        let a = floor_index(&layout, range.start);
        let b = floor_index(&layout, range.end);
        proof {
            lemma_utf16_chars_bound(s, range_utf16.start as int);
            lemma_utf16_chars_bound(s, range_utf16.end as int);
            lemma_utf16_chars_mono(s, range_utf16.start as int, range_utf16.end as int);
            lemma_offset_is_boundary(s, spec_utf16_chars(s, range_utf16.start as int));
            lemma_offset_is_boundary(s, spec_utf16_chars(s, range_utf16.end as int));
        }
        Some(string_from_range(&layout.chars, a, b))
    }

    /// The selection in UTF-16 code units, and whether it was made
    /// backwards.
    pub fn selected_text_range(&self) -> (r: (Range<usize>, bool))
        requires
            self.wf(),
        ensures
            range_view(r.0) == spec_range_to_utf16(
                self@.content,
                (spec_selection_start(self@), spec_selection_end(self@)),
            ),
            r.1 == (self.head < self.anchor),
    {
        let selected = self.selected_range();
        (self.range_to_utf16(&selected), self.selection_reversed())
    }

    /// The text being composed, in UTF-16 code units.
    pub fn marked_text_range(&self) -> (r: Option<Range<usize>>)
        requires
            self.wf(),
        ensures
            opt_range_view(r) == (match self@.marked {
                Some(m) => Some(spec_range_to_utf16(self@.content, m)),
                None => None,
            }),
    {
        match &self.marked_range {
            Some(range) => Some(self.range_to_utf16(range)),
            None => None,
        }
    }

    /// Ends the composition, keeping its text.
    pub fn unmark_text(&mut self)
        requires
            old(self).wf(),
        ensures
            final(self).wf(),
            final(self)@ == (EditorView { marked: None, ..old(self)@ }),
    {
        self.marked_range = None;
    }

    /// The byte range of an input-method request (see `spec_input_range`).
    fn input_range(&self, range_utf16: &Option<Range<usize>>) -> (r: Range<usize>)
        requires
            self.wf(),
        ensures
            range_view(r) == spec_input_range(self@, opt_range_view(*range_utf16)),
    {
        match range_utf16 {
            Some(range) => self.range_from_utf16(range),
            None => match &self.marked_range {
                Some(marked) => Range { start: marked.start, end: marked.end },
                None => self.selected_range(),
            },
        }
    }
}

/// What typing `t` over an input-method range does. With nothing being
/// composed and an empty range: a closing bracket or quote that is already
/// there is stepped over; an opening one gets its partner too, the cursor
/// between them. Otherwise `t` replaces the range, recorded for undo unless
/// it ends a composition. A read-only editor takes nothing.
pub open spec fn spec_replace_text_in_range(
    v: EditorView,
    range_utf16: Option<(int, int)>,
    t: Seq<char>,
) -> EditorView {
    if v.read_only {
        v
    } else {
        let (rs, re) = spec_input_range(v, range_utf16);
        let s = v.content;
        let typing = v.marked is None && rs == re;
        if typing && spec_is_close_bracket(t) && spec_occurs_at(s, t, spec_floor_index(s, rs)) {
            spec_move_cursor(v, rs + spec_byte_len(t), false)
        } else if typing && spec_should_auto_close(s, rs, t) && spec_matching_close_bracket(t) is Some {
            let edited = spec_replace(v, rs, re, t.push(spec_matching_close_bracket(t)->0), true);
            let cursor = rs + spec_byte_len(t);
            EditorView { anchor: cursor, head: cursor, scroll_cursor_pending: true, ..edited }
        } else {
            spec_replace(v, rs, re, t, v.marked is None)
        }
    }
}

/// What the view does after typing: nothing when read-only, follow the
/// cursor when a closing character was stepped over, else take the edit.
pub open spec fn spec_replace_text_effect(
    v: EditorView,
    range_utf16: Option<(int, int)>,
    t: Seq<char>,
) -> EditorEffect {
    let (rs, re) = spec_input_range(v, range_utf16);
    if v.read_only {
        EditorEffect::Unchanged
    } else if v.marked is None && rs == re && spec_is_close_bracket(t) && spec_occurs_at(
        v.content,
        t,
        spec_floor_index(v.content, rs),
    ) {
        EditorEffect::CursorMoved
    } else {
        EditorEffect::ContentChanged
    }
}

/// What an input method's composition step does: `t` replaces the range
/// and becomes the text being composed, with the selection that the input
/// method asks for inside it. A read-only editor takes nothing.
pub open spec fn spec_replace_and_mark(
    v: EditorView,
    range_utf16: Option<(int, int)>,
    t: Seq<char>,
    selected_utf16: Option<(int, int)>,
) -> EditorView {
    if v.read_only {
        v
    } else {
        let (rs, re) = spec_input_range(v, range_utf16);
        let edited = spec_replace(v, rs, re, t, v.marked is None);
        if t.len() == 0 {
            edited
        } else {
            let marked = EditorView { marked: Some((rs, rs + spec_byte_len(t))), ..edited };
            match selected_utf16 {
                Some(sel) => EditorView {
                    anchor: rs + spec_utf16_to_utf8(t, sel.0),
                    head: rs + spec_utf16_to_utf8(t, sel.1),
                    ..marked
                },
                None => marked,
            }
        }
    }
}

proof fn lemma_occurs_offset(s: Seq<char>, t: Seq<char>, k: int)
    requires
        spec_occurs_at(s, t, k),
    ensures
        spec_offset(s, k + t.len()) == spec_offset(s, k) + spec_byte_len(t),
{
    assert(s.take(k + t.len()) =~= s.take(k) + s.subrange(k, k + t.len()));
    lemma_byte_len_concat(s.take(k), t);
}

impl EditorBuffer {
    /// Types `new_text` over an input-method range (see
    /// `spec_replace_text_in_range`).
    #[verifier::spinoff_prover]
    #[verifier::rlimit(40)]
    pub fn replace_text_in_range(&mut self, range_utf16: Option<Range<usize>>, new_text: &str) -> (e:
        EditorEffect)
        requires
            old(self).wf(),
            spec_byte_len(old(self)@.content) + spec_byte_len(new_text@) + 1 <= isize::MAX,
        ensures
            final(self).wf(),
            final(self)@ == spec_replace_text_in_range(
                old(self)@,
                opt_range_view(range_utf16),
                new_text@,
            ),
            e == spec_replace_text_effect(old(self)@, opt_range_view(range_utf16), new_text@),
    {
        if self.read_only {
            return EditorEffect::Unchanged;
        }
        let ghost v = self@;
        let ghost s = self.content@;
        let ghost t = new_text@;
        let range = self.input_range(&range_utf16);
        proof {
            lemma_input_range_boundaries(v, opt_range_view(range_utf16));
        }
        let typing = self.marked_range.is_none() && range.start == range.end;
        if typing && is_close_bracket(new_text) {
            let layout = utf8_layout(self.content.as_str());
            let k = floor_index(&layout, range.start);
            let tc = chars_of(new_text);
            let n = layout.chars.len();
            if tc.len() <= n - k && occurs_at(&layout.chars, &tc, k) {
                proof {
                    lemma_occurs_offset(s, t, k as int);
                    lemma_offset_mono(s, 0, s.len() as int);
                    lemma_offset_mono(s, k + t.len(), s.len() as int);
                    lemma_byte_len_is_utf8(t);
                }
                let target = range.start + byte_len(new_text);
                return self.move_cursor(target, false);
            }
            proof {
                if tc@.len() > n - k {
                    assert(!spec_occurs_at(s, t, k as int));
                }
            }
        }
        if typing && should_auto_close(self.content.as_str(), range.start, new_text) {
            if let Some(close) = matching_close_bracket(new_text) {
                let start = range.start;
                let mut pair = new_text.to_owned();
                pair.push(close);
                let ghost pt = pair@;
                proof {
                    assert(pt == t.push(close));
                    lemma_byte_len_push(t, close);
                    assert(spec_width(close) == 1);
                }
                self.replace_byte_range(range, pair.as_str(), true);
                proof {
                    let k = spec_floor_index(s, start as int);
                    lemma_floor_index(s, start as int);
                    lemma_offset_mono(s, 0, s.len() as int);
                    let b0 = spec_floor_index(s, start as int);
                    assert(s.take(k) + pt + s.skip(b0) =~= s.take(k) + pt + s.skip(b0));
                    assert(pt.take(t.len() as int) =~= t);
                    lemma_offset_into_insertion(s, k, pt, s.skip(b0), t.len() as int);
                    assert(spec_offset(pt, t.len() as int) == spec_byte_len(t));
                }
                let cursor = start + byte_len(new_text);
                self.anchor = cursor;
                self.head = cursor;
                self.scroll_cursor_pending = true;
                return EditorEffect::ContentChanged;
            }
        }
        let record_undo = self.marked_range.is_none();
        self.replace_byte_range(range, new_text, record_undo)
    }

    /// An input method's composition step (see `spec_replace_and_mark`).
    #[verifier::spinoff_prover]
    #[verifier::rlimit(40)]
    pub fn replace_and_mark_text_in_range(
        &mut self,
        range_utf16: Option<Range<usize>>,
        new_text: &str,
        new_selected_range_utf16: Option<Range<usize>>,
    ) -> (e: EditorEffect)
        requires
            old(self).wf(),
            spec_byte_len(old(self)@.content) + spec_byte_len(new_text@) <= isize::MAX,
        ensures
            final(self).wf(),
            final(self)@ == spec_replace_and_mark(
                old(self)@,
                opt_range_view(range_utf16),
                new_text@,
                opt_range_view(new_selected_range_utf16),
            ),
            e == (if old(self).read_only {
                EditorEffect::Unchanged
            } else {
                EditorEffect::ContentChanged
            }),
    {
        if self.read_only {
            return EditorEffect::Unchanged;
        }
        let ghost v = self@;
        let ghost s = self.content@;
        let ghost t = new_text@;
        let range = self.input_range(&range_utf16);
        proof {
            lemma_input_range_boundaries(v, opt_range_view(range_utf16));
        }
        let record_undo = self.marked_range.is_none();
        let start = range.start;
        self.replace_byte_range(range, new_text, record_undo);
        if new_text.is_empty() {
            return EditorEffect::ContentChanged;
        }
        let ghost k = spec_floor_index(s, start as int);
        let ghost b0 = spec_floor_index(s, range.end as int);
        let ghost b = if b0 < k { k } else { b0 };
        proof {
            lemma_floor_index(s, start as int);
            lemma_byte_len_is_utf8(t);
            lemma_offset_mono(t, 0, t.len() as int);
            lemma_offset_into_insertion(s, k, t, s.skip(b), t.len() as int);
            lemma_offset_into_insertion(s, k, t, s.skip(b), 0);
        }
        let len = byte_len(new_text);
        self.marked_range = Some(Range { start, end: start + len });
        if let Some(selected) = new_selected_range_utf16 {
            let relative_start = utf16_to_utf8(new_text, selected.start);
            let relative_end = utf16_to_utf8(new_text, selected.end);
            proof {
                lemma_utf16_chars_bound(t, selected.start as int);
                lemma_utf16_chars_bound(t, selected.end as int);
                lemma_offset_into_insertion(
                    s,
                    k,
                    t,
                    s.skip(b),
                    spec_utf16_chars(t, selected.start as int),
                );
                lemma_offset_into_insertion(
                    s,
                    k,
                    t,
                    s.skip(b),
                    spec_utf16_chars(t, selected.end as int),
                );
                lemma_offset_mono(t, spec_utf16_chars(t, selected.start as int), t.len() as int);
                lemma_offset_mono(t, spec_utf16_chars(t, selected.end as int), t.len() as int);
            }
            self.anchor = start + relative_start;
            self.head = start + relative_end;
        }
        EditorEffect::ContentChanged
    }

    /// The selected text, when the selection is not empty.
    pub fn selected_text(&self) -> (r: Option<String>)
        requires
            self.wf(),
        ensures
            spec_selection_start(self@) == spec_selection_end(self@) ==> r is None,
            spec_selection_start(self@) != spec_selection_end(self@) ==> (r matches Some(t) && t@
                == self@.content.subrange(
                spec_floor_index(self@.content, spec_selection_start(self@)),
                spec_floor_index(self@.content, spec_selection_end(self@)),
            )),
    {
        let range = self.selected_range();
        if range.start == range.end {
            return None;
        }
        let layout = utf8_layout(self.content.as_str());
        let a = floor_index(&layout, range.start);
        let b = floor_index(&layout, range.end);
        proof {
            let s = self.content@;
            lemma_floor_index(s, range.start as int);
            lemma_floor_index(s, range.end as int);
            if b < a {
                lemma_offset_mono(s, b as int, a as int);
            }
        }
        Some(string_from_range(&layout.chars, a, b))
    }

    /// Cut: the selected text is taken out and handed back for the
    /// clipboard; nothing happens to an empty selection.
    pub fn cut_selection(&mut self) -> (r: (Option<String>, EditorEffect))
        requires
            old(self).wf(),
        ensures
            final(self).wf(),
            spec_selection_start(old(self)@) == spec_selection_end(old(self)@) ==> (r.0 is None
                && r.1 == EditorEffect::Unchanged && final(self)@ == old(self)@),
            spec_selection_start(old(self)@) != spec_selection_end(old(self)@) ==> {
                &&& r.0 matches Some(t) && t@ == old(self)@.content.subrange(
                    spec_floor_index(old(self)@.content, spec_selection_start(old(self)@)),
                    spec_floor_index(old(self)@.content, spec_selection_end(old(self)@)),
                )
                &&& final(self)@ == spec_replace(
                    old(self)@,
                    spec_selection_start(old(self)@),
                    spec_selection_end(old(self)@),
                    seq![],
                    true,
                )
                &&& r.1 == (if old(self).read_only {
                    EditorEffect::Unchanged
                } else {
                    EditorEffect::ContentChanged
                })
            },
    {
        let text = self.selected_text();
        match text {
            None => (None, EditorEffect::Unchanged),
            Some(t) => {
                let range = self.selected_range();
                proof {
                    reveal_strlit("");
                }
                let e = self.replace_byte_range(range, "", true);
                (Some(t), e)
            },
        }
    }
}

/// `s` with each carriage return that comes before a line feed left out.
pub open spec fn spec_crlf_to_lf(s: Seq<char>) -> Seq<char>
    decreases s.len(),
{
    if s.len() == 0 {
        seq![]
    } else if s.len() >= 2 && s[0] == '\r' && s[1] == '\n' {
        seq!['\n'] + spec_crlf_to_lf(s.skip(2))
    } else {
        seq![s[0]] + spec_crlf_to_lf(s.skip(1))
    }
}

proof fn lemma_byte_len_cons(c: char, s: Seq<char>)
    ensures
        spec_byte_len(seq![c] + s) == spec_width(c) + spec_byte_len(s),
{
    assert((seq![c] + s).drop_first() =~= s);
    assert((seq![c] + s)[0] == c);
}

proof fn lemma_crlf_to_lf_shorter(s: Seq<char>)
    ensures
        spec_byte_len(spec_crlf_to_lf(s)) <= spec_byte_len(s),
    decreases s.len(),
{
    if s.len() > 0 {
        if s.len() >= 2 && s[0] == '\r' && s[1] == '\n' {
            lemma_crlf_to_lf_shorter(s.skip(2));
            lemma_byte_len_cons('\n', spec_crlf_to_lf(s.skip(2)));
            assert(s =~= seq![s[0]] + (seq![s[1]] + s.skip(2)));
            lemma_byte_len_cons(s[0], seq![s[1]] + s.skip(2));
            lemma_byte_len_cons(s[1], s.skip(2));
        } else {
            lemma_crlf_to_lf_shorter(s.skip(1));
            lemma_byte_len_cons(s[0], spec_crlf_to_lf(s.skip(1)));
            assert(s =~= seq![s[0]] + s.skip(1));
            lemma_byte_len_cons(s[0], s.skip(1));
        }
    }
}

/// `text` with Windows line endings turned into line feeds.
pub fn crlf_to_lf(text: &str) -> (r: String)
    ensures
        r@ == spec_crlf_to_lf(text@),
{
    let v = chars_of(text);
    let ghost s = v@;
    let mut out = String::new();
    let mut i: usize = 0;
    proof {
        assert(s.skip(0) =~= s);
        assert(Seq::<char>::empty() + spec_crlf_to_lf(s) =~= spec_crlf_to_lf(s));
    }
    while i < v.len()
        invariant
            s == v@,
            i <= s.len(),
            out@ + spec_crlf_to_lf(s.skip(i as int)) == spec_crlf_to_lf(s),
        decreases s.len() - i,
    {
        let ghost before = out@;
        let ghost rest = s.skip(i as int);
        if i + 1 < v.len() && v[i] == '\r' && v[i + 1] == '\n' {
            out.push('\n');
            proof {
                assert(rest[0] == s[i as int] && rest[1] == s[i + 1]);
                assert(rest.skip(2) =~= s.skip(i + 2));
                assert(out@ + spec_crlf_to_lf(s.skip(i + 2)) =~= before + (seq!['\n']
                    + spec_crlf_to_lf(rest.skip(2))));
            }
            i += 2;
        } else {
            out.push(v[i]);
            proof {
                assert(rest[0] == s[i as int]);
                if rest.len() >= 2 {
                    assert(rest[1] == s[i + 1]);
                }
                assert(rest.skip(1) =~= s.skip(i + 1));
                assert(out@ + spec_crlf_to_lf(s.skip(i + 1)) =~= before + (seq![s[i as int]]
                    + spec_crlf_to_lf(rest.skip(1))));
            }
            i += 1;
        }
    }
    proof {
        assert(s.skip(i as int) =~= Seq::<char>::empty());
        assert(out@ + Seq::<char>::empty() =~= out@);
    }
    out
}

impl EditorBuffer {
    /// Paste: the selection is replaced by `text`, Windows line endings
    /// turned into line feeds.
    pub fn paste(&mut self, text: &str) -> (e: EditorEffect)
        requires
            old(self).wf(),
            spec_byte_len(old(self)@.content) + spec_byte_len(text@) <= isize::MAX,
        ensures
            final(self).wf(),
            final(self)@ == spec_replace(
                old(self)@,
                spec_selection_start(old(self)@),
                spec_selection_end(old(self)@),
                spec_crlf_to_lf(text@),
                true,
            ),
            e == (if old(self).read_only {
                EditorEffect::Unchanged
            } else {
                EditorEffect::ContentChanged
            }),
    {
        let normalized = crlf_to_lf(text);
        proof {
            lemma_crlf_to_lf_shorter(text@);
        }
        let range = self.selected_range();
        self.replace_byte_range(range, normalized.as_str(), true)
    }
}

/// What a key asks of the editor.
#[derive(Clone, Copy, Debug, PartialEq, Eq, Structural)]
pub enum EditorCommand {
    SelectAll,
    Copy,
    Cut,
    Paste,
    Undo,
    Redo,
    Save,
    FocusSearch,
    MoveLeft { extend: bool, by_word: bool },
    MoveRight { extend: bool, by_word: bool },
    MoveVertical { up: bool, extend: bool },
    LineStart { extend: bool },
    LineEnd { extend: bool },
    Backspace,
    Delete,
    Enter,
    Indent { outdent: bool },
}

/// The command that `key` gives with the primary modifier (Control, or
/// Command) held and Alt not; editing ones only when the text is editable.
pub open spec fn spec_shortcut(key: Seq<char>, shift: bool, read_only: bool) -> Option<
    EditorCommand,
> {
    if key == "a"@ {
        Some(EditorCommand::SelectAll)
    } else if key == "c"@ {
        Some(EditorCommand::Copy)
    } else if key == "x"@ && !read_only {
        Some(EditorCommand::Cut)
    } else if key == "v"@ && !read_only {
        Some(EditorCommand::Paste)
    } else if key == "z"@ && shift {
        Some(EditorCommand::Redo)
    } else if key == "z"@ {
        Some(EditorCommand::Undo)
    } else if key == "y"@ {
        Some(EditorCommand::Redo)
    } else if key == "s"@ {
        Some(EditorCommand::Save)
    } else if key == "f"@ {
        Some(EditorCommand::FocusSearch)
    } else if key == "left"@ {
        Some(EditorCommand::MoveLeft { extend: shift, by_word: true })
    } else if key == "right"@ {
        Some(EditorCommand::MoveRight { extend: shift, by_word: true })
    } else {
        None
    }
}

/// The command that `key` gives on its own (Shift aside); editing ones only
/// when the text is editable.
pub open spec fn spec_plain_key(key: Seq<char>, shift: bool, read_only: bool) -> Option<
    EditorCommand,
> {
    if key == "left"@ {
        Some(EditorCommand::MoveLeft { extend: shift, by_word: false })
    } else if key == "right"@ {
        Some(EditorCommand::MoveRight { extend: shift, by_word: false })
    } else if key == "up"@ {
        Some(EditorCommand::MoveVertical { up: true, extend: shift })
    } else if key == "down"@ {
        Some(EditorCommand::MoveVertical { up: false, extend: shift })
    } else if key == "home"@ {
        Some(EditorCommand::LineStart { extend: shift })
    } else if key == "end"@ {
        Some(EditorCommand::LineEnd { extend: shift })
    } else if key == "backspace"@ && !read_only {
        Some(EditorCommand::Backspace)
    } else if key == "delete"@ && !read_only {
        Some(EditorCommand::Delete)
    } else if key == "enter"@ && !read_only {
        Some(EditorCommand::Enter)
    } else if key == "tab"@ && !read_only {
        Some(EditorCommand::Indent { outdent: shift })
    } else {
        None
    }
}

/// The command that a key press gives, if any: with the primary modifier
/// (and not Alt) only shortcuts count.
pub open spec fn spec_key_command(
    key: Seq<char>,
    primary: bool,
    alt: bool,
    shift: bool,
    read_only: bool,
) -> Option<EditorCommand> {
    if primary && !alt {
        spec_shortcut(key, shift, read_only)
    } else {
        spec_plain_key(key, shift, read_only)
    }
}

/// The command that a key press gives (see `spec_key_command`).
pub fn key_command(key: &str, primary: bool, alt: bool, shift: bool, read_only: bool) -> (r:
    Option<EditorCommand>)
    ensures
        r == spec_key_command(key@, primary, alt, shift, read_only),
{
    if primary && !alt {
        if str_eq(key, "a") {
            Some(EditorCommand::SelectAll)
        } else if str_eq(key, "c") {
            Some(EditorCommand::Copy)
        } else if str_eq(key, "x") && !read_only {
            Some(EditorCommand::Cut)
        } else if str_eq(key, "v") && !read_only {
            Some(EditorCommand::Paste)
        } else if str_eq(key, "z") && shift {
            Some(EditorCommand::Redo)
        } else if str_eq(key, "z") {
            Some(EditorCommand::Undo)
        } else if str_eq(key, "y") {
            Some(EditorCommand::Redo)
        } else if str_eq(key, "s") {
            Some(EditorCommand::Save)
        } else if str_eq(key, "f") {
            Some(EditorCommand::FocusSearch)
        } else if str_eq(key, "left") {
            Some(EditorCommand::MoveLeft { extend: shift, by_word: true })
        } else if str_eq(key, "right") {
            Some(EditorCommand::MoveRight { extend: shift, by_word: true })
        } else {
            None
        }
    } else if str_eq(key, "left") {
        Some(EditorCommand::MoveLeft { extend: shift, by_word: false })
    } else if str_eq(key, "right") {
        Some(EditorCommand::MoveRight { extend: shift, by_word: false })
    } else if str_eq(key, "up") {
        Some(EditorCommand::MoveVertical { up: true, extend: shift })
    } else if str_eq(key, "down") {
        Some(EditorCommand::MoveVertical { up: false, extend: shift })
    } else if str_eq(key, "home") {
        Some(EditorCommand::LineStart { extend: shift })
    } else if str_eq(key, "end") {
        Some(EditorCommand::LineEnd { extend: shift })
    } else if str_eq(key, "backspace") && !read_only {
        Some(EditorCommand::Backspace)
    } else if str_eq(key, "delete") && !read_only {
        Some(EditorCommand::Delete)
    } else if str_eq(key, "enter") && !read_only {
        Some(EditorCommand::Enter)
    } else if str_eq(key, "tab") && !read_only {
        Some(EditorCommand::Indent { outdent: shift })
    } else {
        None
    }
}

/// The bytes that Backspace (`forward` false) or Delete removes: the
/// selection, else the character before (or after) the head.
pub open spec fn spec_erase_range(v: EditorView, forward: bool) -> (int, int) {
    if spec_selection_start(v) != spec_selection_end(v) {
        (spec_selection_start(v), spec_selection_end(v))
    } else if forward {
        (v.head, spec_next_char_boundary(v.content, v.head))
    } else {
        (spec_previous_char_boundary(v.content, v.head), v.head)
    }
}

/// Backspace and Delete: the range is removed, when there is one.
pub open spec fn spec_erase(v: EditorView, forward: bool) -> EditorView {
    let (a, b) = spec_erase_range(v, forward);
    if a < b {
        spec_replace(v, a, b, seq![], true)
    } else {
        v
    }
}

/// What a command does to the editor. Copying, cutting, pasting, saving
/// and searching go through the clipboard or the tab, outside the editor's
/// state, and leave it as it is here.
pub open spec fn spec_apply(v: EditorView, cmd: EditorCommand) -> EditorView {
    match cmd {
        EditorCommand::SelectAll => spec_select_all(v),
        EditorCommand::Undo => spec_undo(v),
        EditorCommand::Redo => spec_redo(v),
        EditorCommand::MoveLeft { extend, by_word } => spec_move_left(v, extend, by_word),
        EditorCommand::MoveRight { extend, by_word } => spec_move_right(v, extend, by_word),
        EditorCommand::MoveVertical { up, extend } => spec_move_vertical(v, up, extend),
        EditorCommand::LineStart { extend } => spec_move_cursor(
            v,
            spec_line_start(v.content, v.head),
            extend,
        ),
        EditorCommand::LineEnd { extend } => spec_move_cursor(
            v,
            spec_line_end(v.content, v.head),
            extend,
        ),
        EditorCommand::Backspace => spec_erase(v, false),
        EditorCommand::Delete => spec_erase(v, true),
        EditorCommand::Enter => spec_insert_newline(v),
        EditorCommand::Indent { outdent } => spec_indent_selection(v, outdent),
        _ => v,
    }
}

/// What the view does after a command.
pub open spec fn spec_apply_effect(v: EditorView, cmd: EditorCommand) -> EditorEffect {
    match cmd {
        EditorCommand::SelectAll => EditorEffect::CursorMoved,
        EditorCommand::Undo => if v.read_only || v.undo.len() == 0 {
            EditorEffect::Unchanged
        } else {
            EditorEffect::ContentChanged
        },
        EditorCommand::Redo => if v.read_only || v.redo.len() == 0 {
            EditorEffect::Unchanged
        } else {
            EditorEffect::ContentChanged
        },
        EditorCommand::MoveLeft { .. } => EditorEffect::CursorMoved,
        EditorCommand::MoveRight { .. } => EditorEffect::CursorMoved,
        EditorCommand::MoveVertical { .. } => EditorEffect::CursorMoved,
        EditorCommand::LineStart { .. } => EditorEffect::CursorMoved,
        EditorCommand::LineEnd { .. } => EditorEffect::CursorMoved,
        EditorCommand::Backspace => if spec_erase_range(v, false).0 < spec_erase_range(v, false).1
            && !v.read_only {
            EditorEffect::ContentChanged
        } else {
            EditorEffect::Unchanged
        },
        EditorCommand::Delete => if spec_erase_range(v, true).0 < spec_erase_range(v, true).1
            && !v.read_only {
            EditorEffect::ContentChanged
        } else {
            EditorEffect::Unchanged
        },
        EditorCommand::Enter => EditorEffect::ContentChanged,
        EditorCommand::Indent { outdent } => if spec_indent_changes(v, outdent) {
            EditorEffect::ContentChanged
        } else {
            EditorEffect::Unchanged
        },
        _ => EditorEffect::Unchanged,
    }
}

/// What a command asks of the editor's state to be carried out: Enter and
/// Tab only in an editable text whose new length fits in memory.
pub open spec fn spec_command_allowed(v: EditorView, cmd: EditorCommand) -> bool {
    match cmd {
        EditorCommand::Enter => !v.read_only && spec_byte_len(v.content) + spec_byte_len(
            spec_newline_insertion(v),
        ) <= isize::MAX,
        EditorCommand::Indent { outdent } => !v.read_only && spec_byte_len(v.content)
            + spec_byte_len(spec_indent_text(v, outdent)) <= isize::MAX,
        _ => true,
    }
}

impl EditorBuffer {
    /// Removes the selection, or the character before (`forward` false) or
    /// after the head.
    fn erase(&mut self, forward: bool) -> (e: EditorEffect)
        requires
            old(self).wf(),
        ensures
            final(self).wf(),
            final(self)@ == spec_erase(old(self)@, forward),
            e == spec_apply_effect(
                old(self)@,
                if forward {
                    EditorCommand::Delete
                } else {
                    EditorCommand::Backspace
                },
            ),
    {
        let selected = self.selected_range();
        proof {
            lemma_cursor_positions_are_char_boundaries(self.content@, self.head as int);
            lemma_boundary_is_nearest(self.content@, self.head as int);
        }
        let range = if selected.start != selected.end {
            selected
        } else if forward {
            Range { start: self.head, end: next_char_boundary(self.content.as_str(), self.head) }
        } else {
            Range {
                start: previous_char_boundary(self.content.as_str(), self.head),
                end: self.head,
            }
        };
        if range.start < range.end {
            proof {
                reveal_strlit("");
            }
            self.replace_byte_range(range, "", true)
        } else {
            EditorEffect::Unchanged
        }
    }

    /// Carries out a command (see `spec_apply`).
    pub fn apply(&mut self, cmd: EditorCommand) -> (e: EditorEffect)
        requires
            old(self).wf(),
            spec_command_allowed(old(self)@, cmd),
        ensures
            final(self).wf(),
            final(self)@ == spec_apply(old(self)@, cmd),
            e == spec_apply_effect(old(self)@, cmd),
    {
        match cmd {
            EditorCommand::SelectAll => self.select_all(),
            EditorCommand::Undo => self.undo(),
            EditorCommand::Redo => self.redo(),
            EditorCommand::MoveLeft { extend, by_word } => self.move_left(extend, by_word),
            EditorCommand::MoveRight { extend, by_word } => self.move_right(extend, by_word),
            EditorCommand::MoveVertical { up, extend } => self.move_vertical(
                if up {
                    -1
                } else {
                    1
                },
                extend,
            ),
            EditorCommand::LineStart { extend } => {
                let target = line_start(self.content.as_str(), self.head);
                self.move_cursor(target, extend)
            },
            EditorCommand::LineEnd { extend } => {
                let target = line_end(self.content.as_str(), self.head);
                self.move_cursor(target, extend)
            },
            EditorCommand::Backspace => self.erase(false),
            EditorCommand::Delete => self.erase(true),
            EditorCommand::Enter => self.insert_newline(),
            EditorCommand::Indent { outdent } => self.indent_selection(outdent),
            _ => EditorEffect::Unchanged,
        }
    }
}

/// The boundary that a point of the laid-out text stands for: the layout's
/// index moved back to a character boundary, or the end of the text when
/// nothing is laid out yet.
pub open spec fn spec_index_for_point(s: Seq<char>, layout_index: Option<int>) -> int {
    match layout_index {
        Some(i) => spec_nearest_char_boundary(s, i),
        None => spec_byte_len(s),
    }
}

/// A mouse press: three clicks select the line, two the word, one places
/// the cursor (or, with Shift, extends the selection) and starts a drag.
pub open spec fn spec_mouse_down(
    v: EditorView,
    layout_index: Option<int>,
    click_count: int,
    shift: bool,
) -> EditorView {
    let index = spec_index_for_point(v.content, layout_index);
    if click_count >= 3 {
        EditorView { selecting: false, ..spec_select_line_at(v, index) }
    } else if click_count == 2 {
        EditorView { selecting: false, ..spec_select_word_at(v, index) }
    } else {
        EditorView {
            anchor: if shift {
                v.anchor
            } else {
                index
            },
            head: index,
            selecting: true,
            scroll_cursor_pending: true,
            ..v
        }
    }
}

/// A mouse move: while dragging with the left button the head follows the
/// pointer; otherwise the drag ends.
pub open spec fn spec_mouse_move(
    v: EditorView,
    layout_index: Option<int>,
    pressed_button: Option<MouseButton>,
) -> EditorView {
    if !(v.selecting && pressed_button == Some(MouseButton::Left)) {
        EditorView { selecting: false, ..v }
    } else {
        EditorView {
            head: spec_index_for_point(v.content, layout_index),
            scroll_cursor_pending: true,
            ..v
        }
    }
}

impl EditorBuffer {
    /// The boundary that a point of the laid-out text stands for (see
    /// `spec_index_for_point`).
    pub fn index_for_point(&self, layout_index: Option<usize>) -> (r: usize)
        requires
            self.wf(),
        ensures
            r == spec_index_for_point(self@.content, opt_int(layout_index)),
            spec_is_boundary(self@.content, r as int),
    {
        proof {
            lemma_boundary_ends(self.content@);
        }
        match layout_index {
            Some(i) => {
                proof {
                    lemma_cursor_positions_are_char_boundaries(self.content@, i as int);
                }
                nearest_char_boundary(self.content.as_str(), i)
            },
            None => byte_len(self.content.as_str()),
        }
    }

    /// A mouse press (see `spec_mouse_down`).
    pub fn mouse_down(&mut self, layout_index: Option<usize>, click_count: usize, shift: bool) -> (e:
        EditorEffect)
        requires
            old(self).wf(),
        ensures
            final(self).wf(),
            final(self)@ == spec_mouse_down(
                old(self)@,
                opt_int(layout_index),
                click_count as int,
                shift,
            ),
            e == EditorEffect::CursorMoved,
    {
        let index = self.index_for_point(layout_index);
        if click_count >= 3 {
            let e = self.select_line_at(index);
            self.selecting = false;
            e
        } else if click_count == 2 {
            let e = self.select_word_at(index);
            self.selecting = false;
            e
        } else {
            if !shift {
                self.anchor = index;
            }
            self.head = index;
            self.selecting = true;
            self.scroll_cursor_pending = true;
            EditorEffect::CursorMoved
        }
    }

    /// A mouse move (see `spec_mouse_move`).
    pub fn mouse_move(&mut self, layout_index: Option<usize>, pressed_button: Option<MouseButton>) -> (e:
        EditorEffect)
        requires
            old(self).wf(),
        ensures
            final(self).wf(),
            final(self)@ == spec_mouse_move(old(self)@, opt_int(layout_index), pressed_button),
            e == (if old(self).selecting && pressed_button == Some(MouseButton::Left) {
                EditorEffect::CursorMoved
            } else {
                EditorEffect::Unchanged
            }),
    {
        if !remote_text_selection_drag_active(self.selecting, pressed_button) {
            self.selecting = false;
            return EditorEffect::Unchanged;
        }
        self.head = self.index_for_point(layout_index);
        self.scroll_cursor_pending = true;
        EditorEffect::CursorMoved
    }

    /// A mouse release: any drag ends.
    pub fn mouse_up(&mut self)
        requires
            old(self).wf(),
        ensures
            final(self).wf(),
            final(self)@ == (EditorView { selecting: false, ..old(self)@ }),
    {
        self.selecting = false;
    }
}

/// A read-only editor never changes its text: no key gives an editing
/// command there, every command that a key gives keeps the text, and typed,
/// composed or pasted text is refused.
pub proof fn lemma_read_only_never_edits(
    v: EditorView,
    key: Seq<char>,
    primary: bool,
    alt: bool,
    shift: bool,
    range_utf16: Option<(int, int)>,
    t: Seq<char>,
    selected_utf16: Option<(int, int)>,
    start: int,
    end: int,
    record: bool,
)
    requires
        v.read_only,
    ensures
        spec_key_command(key, primary, alt, shift, true) matches Some(cmd) ==> {
            &&& !(cmd is Cut || cmd is Paste || cmd is Backspace || cmd is Delete || cmd is Enter
                || cmd is Indent)
            &&& spec_apply(v, cmd).content == v.content
        },
        spec_replace(v, start, end, t, record) == v,
        spec_replace_text_in_range(v, range_utf16, t) == v,
        spec_replace_and_mark(v, range_utf16, t, selected_utf16) == v,
{
}

} // verus!
