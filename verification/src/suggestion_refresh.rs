//! The steps of a command-suggestion refresh: what typed input sets off,
//! when a scheduled refresh goes ahead, waits or gives up, what it searches
//! for, and whether its results still belong on screen when they come back.
//! Times are in nanoseconds.

use vstd::prelude::*;

use crate::command_suggestions::{
    command_suggestion_input_can_defer_refresh, command_suggestion_input_obvious_pager_prefix,
    command_suggestion_refresh_input_delay, command_suggestion_state_changed,
    spec_can_defer_refresh, spec_obvious_pager_prefix, spec_refresh_input_delay,
    CommandSuggestionItem, CommandSuggestionItemView, CommandSuggestionState,
    CommandSuggestionStateView, TerminalInputState,
};
use crate::suggestion_keys::popup_view;
use crate::text::{chars_of, spec_trim, spec_trim_start, str_eq, text_from_utf8, trim};

verus! {

/// How long a refresh waits after typing before it searches.
pub const COMMAND_SUGGESTION_REFRESH_DEBOUNCE: u64 = 80_000_000;

/// How long a refresh waits again while the terminal is busy with output.
pub const COMMAND_SUGGESTION_REFRESH_PRESSURE_RETRY: u64 = 120_000_000;

/// Starts a new refresh: the search generation moves on, and the new
/// generation is the refresh's id.
pub fn begin_command_suggestion_refresh(search_gen: &mut u64) -> (request_id: u64)
    ensures
        *final(search_gen) == (if *old(search_gen) == u64::MAX {
            u64::MAX
        } else {
            (*old(search_gen) + 1) as u64
        }),
        request_id == *final(search_gen),
{
    *search_gen = search_gen.saturating_add(1);
    *search_gen
}

/// What a scheduled refresh does when its timer fires.
#[derive(Clone, Copy, Debug, PartialEq, Eq, Structural)]
pub enum RefreshStep {
    /// A newer refresh replaced it: nothing to do.
    Stale,
    /// Low-latency mode is on: hide the popup.
    Hide,
    /// The terminal was typed into a moment ago: schedule again after this
    /// long.
    Wait(u64),
    /// The terminal is busy with output: hide the popup and schedule again
    /// after this long.
    HideAndRetry(u64),
    /// Go ahead and prepare the search.
    Prepare,
}

/// What a scheduled refresh does when its timer fires.
pub open spec fn spec_refresh_step(
    search_gen: u64,
    request_id: u64,
    low_latency: bool,
    last_input_at: Option<u64>,
    now: u64,
    window: u64,
    output_pressure: bool,
) -> RefreshStep {
    if search_gen != request_id {
        RefreshStep::Stale
    } else if low_latency {
        RefreshStep::Hide
    } else if spec_refresh_input_delay(last_input_at, now, window) is Some {
        RefreshStep::Wait(spec_refresh_input_delay(last_input_at, now, window)->0)
    } else if output_pressure {
        RefreshStep::HideAndRetry(COMMAND_SUGGESTION_REFRESH_PRESSURE_RETRY)
    } else {
        RefreshStep::Prepare
    }
}

/// What a scheduled refresh does when its timer fires.
pub fn command_suggestion_refresh_step(
    search_gen: u64,
    request_id: u64,
    low_latency: bool,
    last_input_at: Option<u64>,
    now: u64,
    window: u64,
    output_pressure: bool,
) -> (r: RefreshStep)
    ensures
        r == spec_refresh_step(
            search_gen,
            request_id,
            low_latency,
            last_input_at,
            now,
            window,
            output_pressure,
        ),
{
    if search_gen != request_id {
        return RefreshStep::Stale;
    }
    if low_latency {
        return RefreshStep::Hide;
    }
    if let Some(delay) = command_suggestion_refresh_input_delay(last_input_at, now, window) {
        return RefreshStep::Wait(delay);
    }
    if output_pressure {
        return RefreshStep::HideAndRetry(COMMAND_SUGGESTION_REFRESH_PRESSURE_RETRY);
    }
    RefreshStep::Prepare
}

/// A search to run for the popup.
pub struct SuggestionSearchRequest {
    pub request_id: u64,
    pub session_id: String,
    /// The command typed so far.
    pub pattern: String,
    pub pattern_chars: usize,
    /// The shortest and longest commands worth suggesting.
    pub min_chars: usize,
    pub max_chars: usize,
}

/// The shortest command worth suggesting: the setting, at least one.
pub open spec fn spec_min_chars(setting: u32) -> usize {
    if setting >= 1 {
        setting as usize
    } else {
        1
    }
}

/// The longest command worth suggesting: the setting, at least the
/// shortest.
pub open spec fn spec_max_chars(setting: u32, min_chars: usize) -> usize {
    if setting >= min_chars {
        setting as usize
    } else {
        min_chars
    }
}

/// Whether `pattern` starts like a pager command (`/`, `?` or `:`).
pub open spec fn spec_pager_pattern(pattern: Seq<char>) -> bool {
    pattern.len() > 0 && (pattern[0] == '/' || pattern[0] == '?' || pattern[0] == ':')
}

/// Whether a search is prepared: a session is active, suggestions are on
/// and not held back (a credential prompt, or a program that takes over the
/// screen), the tracked command may be searched for, is long enough, and
/// does not look like a pager command.
pub open spec fn spec_search_prepared(
    active_session: Option<Seq<char>>,
    held_back: bool,
    enabled: bool,
    min_chars_setting: u32,
    pattern: Seq<char>,
    can_suggest: bool,
) -> bool {
    &&& active_session matches Some(s) && s.len() > 0
    &&& !held_back
    &&& enabled
    &&& can_suggest
    &&& pattern.len() >= spec_min_chars(min_chars_setting)
    &&& !spec_pager_pattern(pattern)
}

/// No search is ever prepared for a command that starts like a pager or
/// editor command (`/`, `?` or `:`), whatever else holds.
pub proof fn lemma_no_search_for_pager_commands(
    active_session: Option<Seq<char>>,
    held_back: bool,
    enabled: bool,
    min_chars_setting: u32,
    pattern: Seq<char>,
    can_suggest: bool,
)
    requires
        pattern.len() > 0,
        pattern[0] == '/' || pattern[0] == '?' || pattern[0] == ':',
    ensures
        !spec_search_prepared(
            active_session,
            held_back,
            enabled,
            min_chars_setting,
            pattern,
            can_suggest,
        ),
{
}

/// Prepares the search for the refresh `request_id` from the tracked
/// command `pattern` (and whether it may be searched for, `can_suggest`);
/// where no search is due, the popup is hidden and `None` comes back.
pub fn prepare_command_suggestion_search(
    suggestions: &mut Option<CommandSuggestionState>,
    request_id: u64,
    active_session: Option<&String>,
    held_back: bool,
    enabled: bool,
    min_chars_setting: u32,
    max_chars_setting: u32,
    pattern: String,
    can_suggest: bool,
) -> (r: Option<SuggestionSearchRequest>)
    ensures
        spec_search_prepared(
            match active_session {
                Some(s) => Some(s@),
                None => None,
            },
            held_back,
            enabled,
            min_chars_setting,
            pattern@,
            can_suggest,
        ) <==> r is Some,
        pattern@.len() > 0 && (pattern@[0] == '/' || pattern@[0] == '?' || pattern@[0] == ':')
            ==> r is None && final(suggestions).is_none(),
        match r {
            Some(q) => {
                &&& q.request_id == request_id
                &&& active_session matches Some(s) && q.session_id@ == s@
                &&& q.pattern@ == pattern@
                &&& q.pattern_chars == pattern@.len()
                &&& q.min_chars == spec_min_chars(min_chars_setting)
                &&& q.max_chars == spec_max_chars(max_chars_setting, q.min_chars)
                &&& popup_view(*final(suggestions)) == popup_view(*old(suggestions))
            },
            None => final(suggestions).is_none(),
        },
{
    let session_id = match active_session {
        Some(s) => {
            if chars_of(s.as_str()).len() == 0 {
                *suggestions = None;
                return None;
            }
            s.clone()
        },
        None => {
            *suggestions = None;
            return None;
        },
    };
    if held_back || !enabled {
        *suggestions = None;
        return None;
    }
    let min_chars: usize = if min_chars_setting >= 1 {
        min_chars_setting as usize
    } else {
        1
    };
    let max_chars: usize = if max_chars_setting as usize >= min_chars {
        max_chars_setting as usize
    } else {
        min_chars
    };
    let cs = chars_of(pattern.as_str());
    let pattern_chars = cs.len();
    if !can_suggest || pattern_chars < min_chars {
        *suggestions = None;
        return None;
    }
    if pattern_chars > 0 && (cs[0] == '/' || cs[0] == '?' || cs[0] == ':') {
        *suggestions = None;
        return None;
    }
    Some(
        SuggestionSearchRequest {
            request_id,
            session_id,
            pattern,
            pattern_chars,
            min_chars,
            max_chars,
        },
    )
}

/// What became of a search's results.
#[derive(Clone, Copy, Debug, PartialEq, Eq, Structural)]
pub enum PublishOutcome {
    /// The results came too late: the search, the session, the settings or
    /// the typed command changed meanwhile. Nothing is shown.
    Stale,
    /// Nothing matched: the popup is hidden.
    Hidden,
    /// The popup already shows these results.
    Unchanged,
    /// The popup now shows these results.
    Shown,
}

/// Whether the results of `request` still belong on screen.
pub open spec fn spec_results_current(
    request_id: u64,
    request_session: Seq<char>,
    request_pattern: Seq<char>,
    search_gen: u64,
    active_session: Option<Seq<char>>,
    held_back: bool,
    enabled: bool,
    tracked_pattern: Seq<char>,
) -> bool {
    &&& search_gen == request_id
    &&& active_session == Some(request_session)
    &&& !held_back
    &&& enabled
    &&& tracked_pattern == request_pattern
}

/// The popup that shows `items` for `request`, nothing selected.
pub open spec fn spec_results_popup(
    request_session: Seq<char>,
    request_pattern: Seq<char>,
    items: Seq<CommandSuggestionItemView>,
    cursor_row: usize,
    cursor_col: usize,
) -> CommandSuggestionStateView {
    CommandSuggestionStateView {
        session_id: request_session,
        draft: request_pattern,
        items,
        selected_index: None,
        cursor_row,
        cursor_col,
    }
}

/// Puts the results of `request` on screen, if they still belong there
/// (see `spec_results_current`), at the cursor cell
/// `(cursor_row, cursor_col)`.
pub fn publish_command_suggestion_search(
    suggestions: &mut Option<CommandSuggestionState>,
    request: SuggestionSearchRequest,
    search_gen: u64,
    active_session: Option<&String>,
    held_back: bool,
    enabled: bool,
    tracked_pattern: &String,
    items: Vec<CommandSuggestionItem>,
    cursor_row: usize,
    cursor_col: usize,
) -> (r: PublishOutcome)
    ensures
        ({
            let next = spec_results_popup(
                request.session_id@,
                request.pattern@,
                items@.map_values(|i: CommandSuggestionItem| i@),
                cursor_row,
                cursor_col,
            );
            if !spec_results_current(
                request.request_id,
                request.session_id@,
                request.pattern@,
                search_gen,
                match active_session {
                    Some(s) => Some(s@),
                    None => None,
                },
                held_back,
                enabled,
                tracked_pattern@,
            ) {
                r == PublishOutcome::Stale && popup_view(*final(suggestions)) == popup_view(
                    *old(suggestions),
                )
            } else if items@.len() == 0 {
                r == PublishOutcome::Hidden && final(suggestions).is_none()
            } else if popup_view(*old(suggestions)) == Some(next) {
                r == PublishOutcome::Unchanged && popup_view(*final(suggestions)) == popup_view(
                    *old(suggestions),
                )
            } else {
                r == PublishOutcome::Shown && popup_view(*final(suggestions)) == Some(next)
            }
        }),
{
    let session_matches = match active_session {
        Some(s) => str_eq(s.as_str(), request.session_id.as_str()),
        None => false,
    };
    if search_gen != request.request_id || !session_matches || held_back || !enabled || !str_eq(
        tracked_pattern.as_str(),
        request.pattern.as_str(),
    ) {
        return PublishOutcome::Stale;
    }
    if items.len() == 0 {
        *suggestions = None;
        return PublishOutcome::Hidden;
    }
    let next = CommandSuggestionState {
        session_id: request.session_id,
        draft: request.pattern,
        items,
        selected_index: None,
        cursor_row,
        cursor_col,
    };
    if !command_suggestion_state_changed(suggestions.as_ref(), &next) {
        return PublishOutcome::Unchanged;
    }
    *suggestions = Some(next);
    PublishOutcome::Shown
}

/// What typed bytes do before the input tracker sees them.
pub enum InputGate {
    /// A credential prompt owns the input: leave everything as it is.
    Skip,
    /// Suggestions are off for now (low-latency mode, switched off, no
    /// session, or bytes that are not text): drop the draft and the popup.
    ClearDraft,
    /// Nothing was typed.
    Ignore,
    /// Ctrl+C or `q` ends the hold a full-screen program put on suggestions:
    /// lift it, reset the tracker and close the popup.
    ResetSuppression,
    /// Hand the text to the input tracker.
    Track(String),
}

/// Whether `text` ends the hold on suggestions: Ctrl+C or `q` alone.
pub open spec fn spec_ends_suppression(text: Seq<char>) -> bool {
    text == seq!['\u{3}'] || text == seq!['q']
}

/// Whether `text` ends the hold on suggestions.
fn ends_suppression(text: &String) -> (r: bool)
    ensures
        r == spec_ends_suppression(text@),
{
    let cs = chars_of(text.as_str());
    if cs.len() != 1 {
        return false;
    }
    proof {
        assert(cs@ =~= seq![cs@[0]]);
    }
    cs[0] == '\u{3}' || cs[0] == 'q'
}

/// What typed `bytes` do before the input tracker sees them, checked in
/// this order: a credential prompt, low-latency mode, suggestions switched
/// off, no active session, bytes that are not UTF-8, nothing typed, and the
/// end of a hold on suggestions.
pub fn command_suggestion_input_gate(
    credential_mode: bool,
    low_latency: bool,
    enabled: bool,
    has_session: bool,
    suppressed: bool,
    bytes: &[u8],
) -> (r: InputGate)
    ensures
        credential_mode ==> r is Skip,
        !credential_mode && (low_latency || !enabled || !has_session || !vstd::utf8::valid_utf8(
            bytes@,
        )) ==> r is ClearDraft,
        !credential_mode && !low_latency && enabled && has_session && vstd::utf8::valid_utf8(
            bytes@,
        ) ==> {
            let text = vstd::utf8::decode_utf8(bytes@);
            if text.len() == 0 {
                r is Ignore
            } else if suppressed && spec_ends_suppression(text) {
                r is ResetSuppression
            } else {
                r matches InputGate::Track(t) && t@ == text
            }
        },
{
    if credential_mode {
        return InputGate::Skip;
    }
    if low_latency || !enabled || !has_session {
        return InputGate::ClearDraft;
    }
    let text = match text_from_utf8(bytes) {
        Some(t) => t,
        None => {
            return InputGate::ClearDraft;
        },
    };
    if chars_of(text.as_str()).len() == 0 {
        return InputGate::Ignore;
    }
    if suppressed && ends_suppression(&text) {
        return InputGate::ResetSuppression;
    }
    InputGate::Track(text)
}

/// What the popup does once the tracker has taken the typed text.
#[derive(Clone, Copy, Debug, PartialEq, Eq, Structural)]
pub enum InputRefresh {
    /// A full-screen program holds suggestions back: hide the popup.
    HideSuppressed,
    /// The command is shorter than the shortest worth suggesting.
    HideBelowMinChars,
    /// The line starts like a pager command.
    HidePager,
    /// The line cannot be searched for yet (out of sync, several lines, or
    /// the cursor not at its end).
    HideNotEligible,
    /// Schedule a refresh.
    Schedule,
}

/// What the popup does once the tracker has taken the typed text.
pub open spec fn spec_input_refresh(suppressed: bool, below_min_chars: bool, tracker: &TerminalInputState) -> InputRefresh {
    if suppressed {
        InputRefresh::HideSuppressed
    } else if below_min_chars {
        InputRefresh::HideBelowMinChars
    } else if spec_obvious_pager_prefix(tracker.value@) {
        InputRefresh::HidePager
    } else if !spec_can_defer_refresh(tracker) {
        InputRefresh::HideNotEligible
    } else {
        InputRefresh::Schedule
    }
}

/// Typed text that, leading blanks aside, starts like a pager or editor
/// command (`/`, `?` or `:`) never schedules a refresh.
pub proof fn lemma_pager_input_never_schedules(
    suppressed: bool,
    below_min_chars: bool,
    tracker: &TerminalInputState,
)
    requires
        spec_trim_start(tracker.value@).len() > 0,
        spec_trim_start(tracker.value@)[0] == '/' || spec_trim_start(tracker.value@)[0] == '?'
            || spec_trim_start(tracker.value@)[0] == ':',
    ensures
        spec_input_refresh(suppressed, below_min_chars, tracker) != InputRefresh::Schedule,
{
}

/// What the popup does once the tracker has taken the typed text;
/// `below_min_chars` says whether the tracked command is shorter than the
/// shortest worth suggesting.
pub fn command_suggestion_input_refresh(
    suppressed: bool,
    below_min_chars: bool,
    tracker: &TerminalInputState,
) -> (r: InputRefresh)
    ensures
        r == spec_input_refresh(suppressed, below_min_chars, tracker),
{
    if suppressed {
        InputRefresh::HideSuppressed
    } else if below_min_chars {
        InputRefresh::HideBelowMinChars
    } else if command_suggestion_input_obvious_pager_prefix(tracker) {
        InputRefresh::HidePager
    } else if !command_suggestion_input_can_defer_refresh(tracker) {
        InputRefresh::HideNotEligible
    } else {
        InputRefresh::Schedule
    }
}

/// What typed bytes do to the command history's tracker.
pub enum HistoryInputGate {
    /// Leave everything as it is: a credential prompt, nothing typed, or a
    /// hold on suggestions that this input does not end.
    Skip,
    /// The bytes are not text: reset the tracker.
    ResetTracker,
    /// Ctrl+C or `q` ends the hold: lift it and reset the tracker.
    ResetSuppression,
    /// Hand the text to the tracker.
    Track(String),
}

/// What typed `bytes` do to the command history's tracker.
pub fn command_history_input_gate(credential_mode: bool, suppressed: bool, bytes: &[u8]) -> (r:
    HistoryInputGate)
    ensures
        credential_mode ==> r is Skip,
        !credential_mode && !vstd::utf8::valid_utf8(bytes@) ==> r is ResetTracker,
        !credential_mode && vstd::utf8::valid_utf8(bytes@) ==> {
            let text = vstd::utf8::decode_utf8(bytes@);
            if text.len() == 0 {
                r is Skip
            } else if suppressed {
                if spec_ends_suppression(text) {
                    r is ResetSuppression
                } else {
                    r is Skip
                }
            } else {
                r matches HistoryInputGate::Track(t) && t@ == text
            }
        },
{
    if credential_mode {
        return HistoryInputGate::Skip;
    }
    let text = match text_from_utf8(bytes) {
        Some(t) => t,
        None => {
            return HistoryInputGate::ResetTracker;
        },
    };
    if chars_of(text.as_str()).len() == 0 {
        return HistoryInputGate::Skip;
    }
    if suppressed {
        if ends_suppression(&text) {
            return HistoryInputGate::ResetSuppression;
        }
        return HistoryInputGate::Skip;
    }
    HistoryInputGate::Track(text)
}

/// The session for which suggestions are asked for by hand, if they may be
/// shown: none while they are held back (a credential prompt or a
/// full-screen program), in low-latency mode, when switched off, without an
/// active session, or while the line cannot be searched for.
pub fn manual_suggestions_session(
    held_back: bool,
    low_latency: bool,
    enabled: bool,
    active_session: Option<&String>,
    tracker: &TerminalInputState,
) -> (r: Option<String>)
    ensures
        match r {
            Some(s) => {
                &&& !held_back && !low_latency && enabled
                &&& active_session matches Some(a) && a@ == s@ && s@.len() > 0
                &&& spec_can_defer_refresh(tracker)
            },
            None => held_back || low_latency || !enabled || !spec_can_defer_refresh(tracker)
                || match active_session {
                Some(a) => a@.len() == 0,
                None => true,
            },
        },
{
    if held_back || low_latency || !enabled {
        return None;
    }
    let session = match active_session {
        Some(s) => {
            if chars_of(s.as_str()).len() == 0 {
                return None;
            }
            s.clone()
        },
        None => {
            return None;
        },
    };
    if !command_suggestion_input_can_defer_refresh(tracker) {
        return None;
    }
    Some(session)
}

/// Where suggestions asked for by hand come from.
#[derive(Clone, Copy, Debug, PartialEq, Eq, Structural)]
pub enum ManualSuggestionSource {
    /// Nothing is typed: the usual commands.
    Usual,
    /// A search for the typed command.
    Search,
    /// The typed command cannot be searched for: none.
    Nothing,
}

/// Where suggestions asked for by hand come from, for the tracked command
/// `pattern`.
pub fn manual_suggestion_source(pattern: &String, can_suggest: bool) -> (r: ManualSuggestionSource)
    ensures
        r == (if spec_trim(pattern@).len() == 0 {
            ManualSuggestionSource::Usual
        } else if can_suggest {
            ManualSuggestionSource::Search
        } else {
            ManualSuggestionSource::Nothing
        }),
{
    if chars_of(trim(pattern.as_str()).as_str()).len() == 0 {
        ManualSuggestionSource::Usual
    } else if can_suggest {
        ManualSuggestionSource::Search
    } else {
        ManualSuggestionSource::Nothing
    }
}

/// Shows suggestions asked for by hand: the popup for `session_id` and the
/// typed `pattern`, nothing selected, at the cursor cell; with no
/// suggestions, the popup is hidden. Whether it is shown.
pub fn show_manual_command_suggestions(
    suggestions: &mut Option<CommandSuggestionState>,
    session_id: String,
    pattern: String,
    items: Vec<CommandSuggestionItem>,
    cursor_row: usize,
    cursor_col: usize,
) -> (shown: bool)
    ensures
        shown == (items@.len() > 0),
        shown ==> popup_view(*final(suggestions)) == Some(
            spec_results_popup(
                session_id@,
                pattern@,
                items@.map_values(|i: CommandSuggestionItem| i@),
                cursor_row,
                cursor_col,
            ),
        ),
        !shown ==> final(suggestions).is_none(),
{
    if items.len() == 0 {
        *suggestions = None;
        return false;
    }
    *suggestions = Some(
        CommandSuggestionState {
            session_id,
            draft: pattern,
            items,
            selected_index: None,
            cursor_row,
            cursor_col,
        },
    );
    true
}

} // verus!
