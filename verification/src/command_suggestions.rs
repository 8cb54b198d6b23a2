//! The command-suggestion popup of the terminal: which suggestion is
//! selected as the arrow keys move, and when the typed line is worth a fresh
//! search.

use vstd::prelude::*;

use crate::text::{chars_of, spec_trim_start, str_eq, trim_start};

verus! {

/// The selection after one arrow-key step over `len` suggestions: down
/// enters at the top and leaves after the bottom, up enters at the bottom and
/// leaves above the top; no direction keeps the selection in range.
pub open spec fn spec_step_selection(current: Option<usize>, len: usize, direction: i32) -> Option<
    usize,
> {
    if len == 0 {
        None
    } else if direction > 0 {
        match current {
            None => Some(0),
            Some(i) => if i + 1 < len {
                Some((i + 1) as usize)
            } else {
                None
            },
        }
    } else if direction < 0 {
        match current {
            None => Some((len - 1) as usize),
            Some(i) => if i == 0 {
                None
            } else if i <= len - 1 {
                Some((i - 1) as usize)
            } else if len >= 2 {
                Some((len - 2) as usize)
            } else {
                Some(0)
            },
        }
    } else {
        spec_clamp_selection(current, len)
    }
}

/// A selection kept inside `len` suggestions; none when there are none.
pub open spec fn spec_clamp_selection(current: Option<usize>, len: usize) -> Option<usize> {
    if len == 0 {
        None
    } else {
        match current {
            Some(i) => if i < len {
                Some(i)
            } else {
                Some((len - 1) as usize)
            },
            None => None,
        }
    }
}

/// Moves the selection one step.
pub fn command_suggestion_step_selection(current: Option<usize>, len: usize, direction: i32) -> (r:
    Option<usize>)
    ensures
        r == spec_step_selection(current, len, direction),
        r matches Some(i) ==> i < len,
{
    if len == 0 {
        return None;
    }
    if direction > 0 {
        return match current {
            None => Some(0),
            Some(index) => if index < len - 1 {
                Some(index + 1)
            } else {
                None
            },
        };
    }
    if direction < 0 {
        return match current {
            None => Some(len - 1),
            Some(index) => if index == 0 {
                None
            } else {
                let capped = if index < len - 1 {
                    index
                } else {
                    len - 1
                };
                if capped == 0 {
                    Some(0)
                } else {
                    Some(capped - 1)
                }
            },
        };
    }
    command_suggestion_clamp_selection(current, len)
}

/// Keeps the selection inside the list.
pub fn command_suggestion_clamp_selection(current: Option<usize>, len: usize) -> (r: Option<usize>)
    ensures
        r == spec_clamp_selection(current, len),
        r matches Some(i) ==> i < len,
{
    if len == 0 {
        return None;
    }
    match current {
        Some(index) => if index < len {
            Some(index)
        } else {
            Some(len - 1)
        },
        None => None,
    }
}

/// One suggestion.
pub struct CommandSuggestionItem {
    pub command: String,
    pub display: String,
    /// Where it came from: history or a quick command.
    pub source: String,
    pub score: i64,
    /// The characters of `display` that matched the typed text.
    pub indices: Vec<usize>,
}

/// The plain value of a suggestion.
pub struct CommandSuggestionItemView {
    pub command: Seq<char>,
    pub display: Seq<char>,
    pub source: Seq<char>,
    pub score: i64,
    pub indices: Seq<usize>,
}

impl View for CommandSuggestionItem {
    type V = CommandSuggestionItemView;

    open spec fn view(&self) -> CommandSuggestionItemView {
        CommandSuggestionItemView {
            command: self.command@,
            display: self.display@,
            source: self.source@,
            score: self.score,
            indices: self.indices@,
        }
    }
}

/// The popup as shown: for which session and typed text, with which
/// suggestions, which selected, and at which cursor cell.
pub struct CommandSuggestionState {
    pub session_id: String,
    pub draft: String,
    pub items: Vec<CommandSuggestionItem>,
    pub selected_index: Option<usize>,
    pub cursor_row: usize,
    pub cursor_col: usize,
}

/// The plain value of the popup.
pub struct CommandSuggestionStateView {
    pub session_id: Seq<char>,
    pub draft: Seq<char>,
    pub items: Seq<CommandSuggestionItemView>,
    pub selected_index: Option<usize>,
    pub cursor_row: usize,
    pub cursor_col: usize,
}

impl View for CommandSuggestionState {
    type V = CommandSuggestionStateView;

    open spec fn view(&self) -> CommandSuggestionStateView {
        CommandSuggestionStateView {
            session_id: self.session_id@,
            draft: self.draft@,
            items: self.items@.map_values(|i: CommandSuggestionItem| i@),
            selected_index: self.selected_index,
            cursor_row: self.cursor_row,
            cursor_col: self.cursor_col,
        }
    }
}

/// Whether two lists of numbers are equal.
fn indices_eq(a: &Vec<usize>, b: &Vec<usize>) -> (r: bool)
    ensures
        r == (a@ == b@),
{
    if a.len() != b.len() {
        return false;
    }
    let mut i: usize = 0;
    while i < a.len()
        invariant
            i <= a@.len(),
            a@.len() == b@.len(),
            forall|j: int| 0 <= j < i ==> a@[j] == b@[j],
        decreases a@.len() - i,
    {
        if a[i] != b[i] {
            return false;
        }
        i += 1;
    }
    assert(a@ =~= b@);
    true
}

/// Whether two suggestions are the same.
fn item_eq(a: &CommandSuggestionItem, b: &CommandSuggestionItem) -> (r: bool)
    ensures
        r == (a@ == b@),
{
    str_eq(a.command.as_str(), b.command.as_str()) && str_eq(
        a.display.as_str(),
        b.display.as_str(),
    ) && str_eq(a.source.as_str(), b.source.as_str()) && a.score == b.score && indices_eq(
        &a.indices,
        &b.indices,
    )
}

/// Whether two popups show the same thing.
pub fn command_suggestion_state_eq(a: &CommandSuggestionState, b: &CommandSuggestionState) -> (r:
    bool)
    ensures
        r == (a@ == b@),
{
    if !str_eq(a.session_id.as_str(), b.session_id.as_str()) || !str_eq(
        a.draft.as_str(),
        b.draft.as_str(),
    ) || a.selected_index != b.selected_index || a.cursor_row != b.cursor_row || a.cursor_col
        != b.cursor_col {
        return false;
    }
    if a.items.len() != b.items.len() {
        assert(a@.items.len() != b@.items.len());
        return false;
    }
    let ghost av = a@.items;
    let ghost bv = b@.items;
    let mut i: usize = 0;
    while i < a.items.len()
        invariant
            i <= a.items@.len(),
            a.items@.len() == b.items@.len(),
            av == a@.items,
            bv == b@.items,
            forall|j: int| 0 <= j < i ==> av[j] == bv[j],
        decreases a.items@.len() - i,
    {
        if !item_eq(&a.items[i], &b.items[i]) {
            assert(av[i as int] == a.items@[i as int]@);
            return false;
        }
        i += 1;
    }
    assert(av =~= bv);
    true
}

/// Whether showing `next` changes what the popup shows.
pub fn command_suggestion_state_changed(
    current: Option<&CommandSuggestionState>,
    next: &CommandSuggestionState,
) -> (r: bool)
    ensures
        r == match current {
            None => true,
            Some(c) => c@ != next@,
        },
{
    match current {
        None => true,
        Some(c) => !command_suggestion_state_eq(c, next),
    }
}

/// The selected suggestion, if the selection is inside the list.
pub fn command_suggestion_item_for_selection(
    items: &[CommandSuggestionItem],
    selected_index: Option<usize>,
) -> (r: Option<&CommandSuggestionItem>)
    ensures
        match selected_index {
            Some(i) => if i < items@.len() {
                r == Some(&items@[i as int])
            } else {
                r is None
            },
            None => r is None,
        },
{
    match selected_index {
        Some(i) => if i < items.len() {
            Some(&items[i])
        } else {
            None
        },
        None => None,
    }
}

/// What the terminal's input tracker knows of the line being typed.
pub struct TerminalInputState {
    pub value: String,
    /// The cursor, as a byte offset into `value`.
    pub cursor: usize,
    /// The tracker lost sync with what the shell shows.
    pub desynced: bool,
    /// The line continues over several lines.
    pub multiline: bool,
}

/// Whether a refresh may wait for the terminal to go quiet: the tracker is in
/// sync, the line is a single one, and the cursor is at its end.
pub open spec fn spec_can_defer_refresh(s: &TerminalInputState) -> bool {
    !s.desynced && !s.multiline && s.cursor == (vstd::utf8::encode_utf8(s.value@).len() as usize)
}

/// Whether a refresh may wait for the terminal to go quiet.
pub fn command_suggestion_input_can_defer_refresh(state: &TerminalInputState) -> (r: bool)
    ensures
        r == spec_can_defer_refresh(state),
{
    !state.desynced && !state.multiline && state.cursor == state.value.as_str().len()
}

/// Whether the line, leading blanks aside, starts like a pager command
/// (`/`, `?` or `:`) rather than a shell command.
pub open spec fn spec_obvious_pager_prefix(value: Seq<char>) -> bool {
    let t = spec_trim_start(value);
    t.len() > 0 && (t[0] == '/' || t[0] == '?' || t[0] == ':')
}

/// Whether the line starts like a pager command.
pub fn command_suggestion_input_obvious_pager_prefix(state: &TerminalInputState) -> (r: bool)
    ensures
        r == spec_obvious_pager_prefix(state.value@),
{
    let t = chars_of(trim_start(state.value.as_str()).as_str());
    t.len() > 0 && (t[0] == '/' || t[0] == '?' || t[0] == ':')
}

/// How many characters the line has, leading blanks aside.
pub fn command_suggestion_input_candidate_chars(state: &TerminalInputState) -> (r: usize)
    ensures
        r == spec_trim_start(state.value@).len(),
{
    chars_of(trim_start(state.value.as_str()).as_str()).len()
}

/// How much longer a refresh should wait for the terminal to go quiet: the
/// rest of the quiet `window` since the last input, if it has not passed.
/// Times are in nanoseconds.
pub open spec fn spec_refresh_input_delay(last_input_at: Option<u64>, now: u64, window: u64) -> Option<
    u64,
> {
    match last_input_at {
        Some(last) => {
            let elapsed = if now >= last {
                now - last
            } else {
                0
            };
            if elapsed < window {
                Some((window - elapsed) as u64)
            } else {
                None
            }
        },
        None => None,
    }
}

/// How much longer a refresh should wait for the terminal to go quiet.
pub fn command_suggestion_refresh_input_delay(last_input_at: Option<u64>, now: u64, window: u64) -> (r:
    Option<u64>)
    ensures
        r == spec_refresh_input_delay(last_input_at, now, window),
{
    match last_input_at {
        Some(last) => {
            let elapsed = if now >= last {
                now - last
            } else {
                0
            };
            if elapsed < window {
                Some(window - elapsed)
            } else {
                None
            }
        },
        None => None,
    }
}

} // verus!
