//! What the command-suggestion popup does with a key, with a taken
//! suggestion and with a history entry that is deleted; and how long the
//! slowest stage of an input or refresh pass took.

use vstd::prelude::*;

use crate::command_suggestions::{
    command_suggestion_clamp_selection, command_suggestion_step_selection, spec_clamp_selection,
    spec_step_selection, CommandSuggestionItem, CommandSuggestionItemView, CommandSuggestionState,
    CommandSuggestionStateView,
};
use crate::text::{chars_of, spec_trim, str_eq, trim};

verus! {

/// The popup as plain values, `None` when it is closed.
pub open spec fn popup_view(p: Option<CommandSuggestionState>) -> Option<CommandSuggestionStateView> {
    match p {
        Some(s) => Some(s@),
        None => None,
    }
}

/// Closes the popup and starts a new search generation, so that a search
/// still running is not shown; whether the popup was open.
pub fn dismiss_command_suggestions(
    search_gen: &mut u64,
    suggestions: &mut Option<CommandSuggestionState>,
) -> (changed: bool)
    ensures
        changed == old(suggestions).is_some(),
        *final(search_gen) == (if *old(search_gen) == u64::MAX {
            u64::MAX
        } else {
            (*old(search_gen) + 1) as u64
        }),
        final(suggestions).is_none(),
{
    *search_gen = search_gen.saturating_add(1);
    let changed = suggestions.is_some();
    *suggestions = None;
    changed
}

/// A suggestion taken from the popup.
pub struct AppliedSuggestion {
    /// The bytes to send to the terminal: Ctrl+E, Ctrl+U, the command, and a
    /// carriage return when it is run.
    pub payload: String,
    pub command: String,
    pub source: String,
    pub execute: bool,
}

/// What goes to the terminal for `command`: Ctrl+E and Ctrl+U replace the
/// line, then the command, then a carriage return when it is run.
pub open spec fn spec_suggestion_payload(command: Seq<char>, execute: bool) -> Seq<char> {
    seq!['\u{05}', '\u{15}'] + command + (if execute {
        seq!['\r']
    } else {
        seq![]
    })
}

/// The selected suggestion of an open popup, if the selection is in range.
pub open spec fn spec_selected_item(p: Option<CommandSuggestionStateView>) -> Option<
    CommandSuggestionItemView,
> {
    match p {
        Some(s) => match s.selected_index {
            Some(i) => if i < s.items.len() {
                Some(s.items[i as int])
            } else {
                None
            },
            None => None,
        },
        None => None,
    }
}

/// The bytes that replace the terminal's line with `command`, and run it
/// when `execute` is set.
fn payload_for(command: &String, execute: bool) -> (r: String)
    ensures
        r@ == spec_suggestion_payload(command@, execute),
{
    let mut out = String::new();
    out.push('\u{05}');
    out.push('\u{15}');
    let cs = chars_of(command.as_str());
    let mut i: usize = 0;
    while i < cs.len()
        invariant
            i <= cs@.len(),
            cs@ == command@,
            out@ == seq!['\u{05}', '\u{15}'] + cs@.take(i as int),
        decreases cs@.len() - i,
    {
        out.push(cs[i]);
        assert(cs@.take(i + 1) =~= cs@.take(i as int).push(cs@[i as int]));
        assert(out@ =~= seq!['\u{05}', '\u{15}'] + cs@.take(i + 1));
        i += 1;
    }
    assert(cs@.take(cs@.len() as int) =~= cs@);
    if execute {
        out.push('\r');
    }
    assert(out@ =~= spec_suggestion_payload(command@, execute));
    out
}

/// Takes the selected suggestion: the popup closes and the payload for the
/// terminal comes back; `None`, with the popup unchanged, when the popup is
/// closed or nothing in range is selected.
pub fn apply_selected_command_suggestion(
    suggestions: &mut Option<CommandSuggestionState>,
    execute: bool,
) -> (r: Option<AppliedSuggestion>)
    ensures
        match spec_selected_item(popup_view(*old(suggestions))) {
            None => r is None && popup_view(*final(suggestions)) == popup_view(*old(suggestions)),
            Some(item) => {
                &&& r matches Some(a) && a.command@ == item.command && a.source@ == item.source
                    && a.execute == execute && a.payload@ == spec_suggestion_payload(
                    item.command,
                    execute,
                )
                &&& final(suggestions).is_none()
            },
        },
{
    let (command, source) = match suggestions {
        None => {
            return None;
        },
        Some(state) => match state.selected_index {
            None => {
                return None;
            },
            Some(i) => {
                if i >= state.items.len() {
                    return None;
                }
                (state.items[i].command.clone(), state.items[i].source.clone())
            },
        },
    };
    let payload = payload_for(&command, execute);
    *suggestions = None;
    Some(AppliedSuggestion { payload, command, source, execute })
}

/// What a key did to the popup.
pub enum SuggestionKeyOutcome {
    /// The popup does not take the key.
    Ignored,
    /// The popup belonged to a session that is no longer shown: it closed,
    /// and the key goes on to the terminal.
    Closed,
    /// Escape closed the popup.
    Dismissed,
    /// An arrow key moved the selection.
    Moved,
    /// Tab or Enter took the selected suggestion.
    Applied(AppliedSuggestion),
}

/// Whether the popup takes the key: the other outcomes pass it on.
pub open spec fn spec_key_consumed(o: SuggestionKeyOutcome) -> bool {
    match o {
        SuggestionKeyOutcome::Ignored | SuggestionKeyOutcome::Closed => false,
        _ => true,
    }
}

/// Which of the popup's keys `key` is.
pub enum SuggestionKey {
    Escape,
    Up,
    Down,
    Tab,
    Enter,
    Other,
}

/// The popup's key named `key`.
pub open spec fn spec_suggestion_key(key: Seq<char>) -> SuggestionKey {
    if key == "escape"@ {
        SuggestionKey::Escape
    } else if key == "up"@ {
        SuggestionKey::Up
    } else if key == "down"@ {
        SuggestionKey::Down
    } else if key == "tab"@ {
        SuggestionKey::Tab
    } else if key == "enter"@ {
        SuggestionKey::Enter
    } else {
        SuggestionKey::Other
    }
}

/// The popup's key named `key`.
fn suggestion_key(key: &str) -> (r: SuggestionKey)
    ensures
        r == spec_suggestion_key(key@),
{
    if str_eq(key, "escape") {
        SuggestionKey::Escape
    } else if str_eq(key, "up") {
        SuggestionKey::Up
    } else if str_eq(key, "down") {
        SuggestionKey::Down
    } else if str_eq(key, "tab") {
        SuggestionKey::Tab
    } else if str_eq(key, "enter") {
        SuggestionKey::Enter
    } else {
        SuggestionKey::Other
    }
}

/// The popup after its selection moves one step in `direction`.
pub open spec fn spec_popup_stepped(s: CommandSuggestionStateView, direction: i32) -> CommandSuggestionStateView {
    CommandSuggestionStateView {
        selected_index: spec_step_selection(s.selected_index, s.items.len() as usize, direction),
        ..s
    }
}

/// Handles a key while the popup may be open. `session_shown` says whether
/// the popup's session is the active one and its terminal is on screen; a
/// key with Cmd, Alt or Ctrl held is left alone. Escape closes the popup,
/// the arrow keys move the selection, Tab fills in the selected suggestion
/// and Enter runs it.
pub fn handle_command_suggestion_key(
    search_gen: &mut u64,
    suggestions: &mut Option<CommandSuggestionState>,
    session_shown: bool,
    platform: bool,
    alt: bool,
    control: bool,
    key: &str,
) -> (r: SuggestionKeyOutcome)
    ensures
        match popup_view(*old(suggestions)) {
            None => r is Ignored && final(suggestions).is_none() && *final(search_gen) == *old(
                search_gen,
            ),
            Some(s) => if s.items.len() == 0 {
                r is Ignored && popup_view(*final(suggestions)) == popup_view(*old(suggestions))
                    && *final(search_gen) == *old(search_gen)
            } else if !session_shown {
                r is Closed && final(suggestions).is_none() && *final(search_gen) == *old(
                    search_gen,
                )
            } else if platform || alt || control {
                r is Ignored && popup_view(*final(suggestions)) == popup_view(*old(suggestions))
                    && *final(search_gen) == *old(search_gen)
            } else {
                match spec_suggestion_key(key@) {
                    SuggestionKey::Escape => r is Dismissed && final(suggestions).is_none()
                        && *final(search_gen) == (if *old(search_gen) == u64::MAX {
                        u64::MAX
                    } else {
                        (*old(search_gen) + 1) as u64
                    }),
                    SuggestionKey::Up => r is Moved && popup_view(*final(suggestions)) == Some(
                        spec_popup_stepped(s, -1i32),
                    ) && *final(search_gen) == *old(search_gen),
                    SuggestionKey::Down => r is Moved && popup_view(*final(suggestions)) == Some(
                        spec_popup_stepped(s, 1i32),
                    ) && *final(search_gen) == *old(search_gen),
                    SuggestionKey::Tab | SuggestionKey::Enter => {
                        let execute = spec_suggestion_key(key@) is Enter;
                        &&& *final(search_gen) == *old(search_gen)
                        &&& match spec_selected_item(Some(s)) {
                            None => r is Ignored && popup_view(*final(suggestions)) == Some(s),
                            Some(item) => r matches SuggestionKeyOutcome::Applied(a)
                                && a.command@ == item.command && a.source@ == item.source
                                && a.execute == execute
                                && a.payload@ == spec_suggestion_payload(item.command, execute)
                                && final(suggestions).is_none(),
                        }
                    },
                    SuggestionKey::Other => r is Ignored && popup_view(*final(suggestions))
                        == popup_view(*old(suggestions)) && *final(search_gen) == *old(
                        search_gen,
                    ),
                }
            },
        },
{
    let len = match suggestions {
        None => {
            return SuggestionKeyOutcome::Ignored;
        },
        Some(state) => state.items.len(),
    };
    if len == 0 {
        return SuggestionKeyOutcome::Ignored;
    }
    if !session_shown {
        *suggestions = None;
        return SuggestionKeyOutcome::Closed;
    }
    if platform || alt || control {
        return SuggestionKeyOutcome::Ignored;
    }
    match suggestion_key(key) {
        SuggestionKey::Escape => {
            dismiss_command_suggestions(search_gen, suggestions);
            SuggestionKeyOutcome::Dismissed
        },
        SuggestionKey::Up => {
            if let Some(state) = suggestions {
                state.selected_index = command_suggestion_step_selection(
                    state.selected_index,
                    state.items.len(),
                    -1,
                );
            }
            SuggestionKeyOutcome::Moved
        },
        SuggestionKey::Down => {
            if let Some(state) = suggestions {
                state.selected_index = command_suggestion_step_selection(
                    state.selected_index,
                    state.items.len(),
                    1,
                );
            }
            SuggestionKeyOutcome::Moved
        },
        SuggestionKey::Tab => match apply_selected_command_suggestion(suggestions, false) {
            Some(a) => SuggestionKeyOutcome::Applied(a),
            None => SuggestionKeyOutcome::Ignored,
        },
        SuggestionKey::Enter => match apply_selected_command_suggestion(suggestions, true) {
            Some(a) => SuggestionKeyOutcome::Applied(a),
            None => SuggestionKeyOutcome::Ignored,
        },
        SuggestionKey::Other => SuggestionKeyOutcome::Ignored,
    }
}

/// The command to delete from history: `command` without blanks at either
/// end; `None` when nothing is left of it.
pub fn history_command_to_delete(command: &str) -> (r: Option<String>)
    ensures
        match r {
            Some(c) => c@ == spec_trim(command@) && c@.len() > 0,
            None => spec_trim(command@).len() == 0,
        },
{
    let t = trim(command);
    if chars_of(t.as_str()).len() == 0 {
        None
    } else {
        Some(t)
    }
}

/// Whether `item` is the history entry `command`.
pub open spec fn spec_is_history_item(item: CommandSuggestionItemView, command: Seq<char>) -> bool {
    item.source == "history"@ && item.command == command
}

/// `items` without the history entry `command`.
pub open spec fn spec_without_history(items: Seq<CommandSuggestionItemView>, command: Seq<char>) -> Seq<
    CommandSuggestionItemView,
>
    decreases items.len(),
{
    if items.len() == 0 {
        seq![]
    } else {
        let rest = spec_without_history(items.drop_last(), command);
        if spec_is_history_item(items.last(), command) {
            rest
        } else {
            rest.push(items.last())
        }
    }
}

/// The popup once the history entry `command` is gone from it: closed when
/// nothing is left, else with its selection kept in range.
pub open spec fn spec_popup_without_history(s: CommandSuggestionStateView, command: Seq<char>) -> Option<
    CommandSuggestionStateView,
> {
    let items = spec_without_history(s.items, command);
    if items.len() == 0 {
        None
    } else {
        Some(
            CommandSuggestionStateView {
                items,
                selected_index: spec_clamp_selection(s.selected_index, items.len() as usize),
                ..s
            },
        )
    }
}

/// A copy of a list of numbers.
fn copy_indices(v: &Vec<usize>) -> (r: Vec<usize>)
    ensures
        r@ == v@,
{
    let mut r: Vec<usize> = Vec::new();
    let mut i: usize = 0;
    while i < v.len()
        invariant
            i <= v@.len(),
            r@ == v@.take(i as int),
        decreases v@.len() - i,
    {
        r.push(v[i]);
        assert(v@.take(i + 1) =~= v@.take(i as int).push(v@[i as int]));
        i += 1;
    }
    assert(v@.take(v@.len() as int) =~= v@);
    r
}

/// A copy of a suggestion.
fn copy_item(item: &CommandSuggestionItem) -> (r: CommandSuggestionItem)
    ensures
        r@ == item@,
{
    CommandSuggestionItem {
        command: item.command.clone(),
        display: item.display.clone(),
        source: item.source.clone(),
        score: item.score,
        indices: copy_indices(&item.indices),
    }
}

/// Whether `item` is the history entry `command`.
fn is_history_item(item: &CommandSuggestionItem, command: &String) -> (r: bool)
    ensures
        r == spec_is_history_item(item@, command@),
{
    str_eq(item.source.as_str(), "history") && str_eq(item.command.as_str(), command.as_str())
}

/// The items of `items` other than the history entry `command`.
fn items_without_history(items: &Vec<CommandSuggestionItem>, command: &String) -> (r: Vec<
    CommandSuggestionItem,
>)
    ensures
        r@.map_values(|i: CommandSuggestionItem| i@) == spec_without_history(
            items@.map_values(|i: CommandSuggestionItem| i@),
            command@,
        ),
{
    let ghost iv = items@.map_values(|i: CommandSuggestionItem| i@);
    let mut r: Vec<CommandSuggestionItem> = Vec::new();
    let mut i: usize = 0;
    while i < items.len()
        invariant
            i <= items@.len(),
            iv == items@.map_values(|i: CommandSuggestionItem| i@),
            r@.map_values(|i: CommandSuggestionItem| i@) == spec_without_history(
                iv.take(i as int),
                command@,
            ),
        decreases items@.len() - i,
    {
        assert(iv.take(i + 1).drop_last() =~= iv.take(i as int));
        assert(iv.take(i + 1).last() == items@[i as int]@);
        if !is_history_item(&items[i], command) {
            let ghost prev = r@.map_values(|i: CommandSuggestionItem| i@);
            r.push(copy_item(&items[i]));
            assert(r@.map_values(|i: CommandSuggestionItem| i@) =~= prev.push(items@[i as int]@));
        }
        i += 1;
    }
    assert(iv.take(items@.len() as int) =~= iv);
    r
}

/// After the history entry `command` was deleted, drops it from the popup,
/// which closes when nothing is left; `true` when no popup was open, so a
/// fresh search should run.
pub fn remove_deleted_history_suggestion(
    suggestions: &mut Option<CommandSuggestionState>,
    command: &String,
) -> (refresh: bool)
    ensures
        refresh == old(suggestions).is_none(),
        match popup_view(*old(suggestions)) {
            None => final(suggestions).is_none(),
            Some(s) => popup_view(*final(suggestions)) == spec_popup_without_history(s, command@),
        },
{
    let mut emptied = false;
    match suggestions {
        None => {
            return true;
        },
        Some(state) => {
            let kept = items_without_history(&state.items, command);
            state.items = kept;
            if state.items.len() == 0 {
                emptied = true;
            } else {
                state.selected_index = command_suggestion_clamp_selection(
                    state.selected_index,
                    state.items.len(),
                );
            }
        },
    }
    if emptied {
        *suggestions = None;
    }
    false
}

/// The largest of `s`, or zero when it is empty.
pub open spec fn spec_max_of(s: Seq<u64>) -> u64
    decreases s.len(),
{
    if s.len() == 0 {
        0
    } else {
        let m = spec_max_of(s.drop_last());
        if s.last() > m {
            s.last()
        } else {
            m
        }
    }
}

/// The largest of `v`, or zero when it is empty.
fn max_of(v: &Vec<u64>) -> (r: u64)
    ensures
        r == spec_max_of(v@),
{
    let mut m: u64 = 0;
    let mut i: usize = 0;
    while i < v.len()
        invariant
            i <= v@.len(),
            m == spec_max_of(v@.take(i as int)),
        decreases v@.len() - i,
    {
        assert(v@.take(i + 1).drop_last() =~= v@.take(i as int));
        if v[i] > m {
            m = v[i];
        }
        i += 1;
    }
    assert(v@.take(v@.len() as int) =~= v@);
    m
}

/// How long each stage of handling terminal input took, in nanoseconds.
pub struct CommandSuggestionInputTiming {
    pub utf8: u64,
    pub submission: u64,
    pub resync: u64,
    pub apply_tracker: u64,
    pub min_chars: u64,
    pub pattern: u64,
    pub pager: u64,
    pub eligibility: u64,
    pub hide_popup: u64,
    pub schedule: u64,
}

impl CommandSuggestionInputTiming {
    /// The stages, in order.
    pub open spec fn stages(&self) -> Seq<u64> {
        seq![
            self.utf8,
            self.submission,
            self.resync,
            self.apply_tracker,
            self.min_chars,
            self.pattern,
            self.pager,
            self.eligibility,
            self.hide_popup,
            self.schedule,
        ]
    }

    /// The slowest stage.
    pub fn max_stage(&self) -> (r: u64)
        ensures
            r == spec_max_of(self.stages()),
    {
        let v = vec![
            self.utf8,
            self.submission,
            self.resync,
            self.apply_tracker,
            self.min_chars,
            self.pattern,
            self.pager,
            self.eligibility,
            self.hide_popup,
            self.schedule,
        ];
        assert(v@ =~= self.stages());
        max_of(&v)
    }
}

/// How long each stage of a suggestion refresh took, in nanoseconds.
pub struct CommandSuggestionRefreshTiming {
    pub pattern: u64,
    pub search: u64,
    pub cursor: u64,
    pub update_state: u64,
    pub hide_popup: u64,
}

impl CommandSuggestionRefreshTiming {
    /// The stages, in order.
    pub open spec fn stages(&self) -> Seq<u64> {
        seq![self.pattern, self.search, self.cursor, self.update_state, self.hide_popup]
    }

    /// The slowest stage.
    pub fn max_stage(&self) -> (r: u64)
        ensures
            r == spec_max_of(self.stages()),
    {
        let v = vec![self.pattern, self.search, self.cursor, self.update_state, self.hide_popup];
        assert(v@ =~= self.stages());
        max_of(&v)
    }
}

} // verus!
