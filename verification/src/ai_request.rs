//! The AI request that a terminal context-menu action prepares.

use vstd::prelude::*;

verus! {

/// What an AI request asks for.
#[derive(Clone, Copy, Debug, PartialEq, Eq, Structural)]
pub enum AiAction {
    /// A user-defined action run from the terminal context menu.
    CustomTerminalAction,
}

/// The terminal context that goes with an AI request.
pub struct AiContext {
    /// The text selected in the terminal, whole.
    pub selected_text: String,
}

impl Default for AiContext {
    /// A context with nothing selected.
    fn default() -> (r: Self)
        ensures
            r.selected_text@.len() == 0,
    {
        AiContext { selected_text: String::new() }
    }
}

/// A request ready to be sent to the assistant.
pub struct AiPreparedRequest {
    pub action: AiAction,
    pub context: AiContext,
    pub source_label: String,
}

/// The request for a custom terminal action: the context carries the whole
/// selection, not a preview of it, and the label names the action.
pub fn terminal_ai_prepared_request(context: AiContext, selected_text: String, source_label: String) -> (r:
    AiPreparedRequest)
    ensures
        r.action == AiAction::CustomTerminalAction,
        r.context == (AiContext { selected_text, ..context }),
        r.source_label == source_label,
{
    let mut context = context;
    context.selected_text = selected_text;
    AiPreparedRequest { action: AiAction::CustomTerminalAction, context, source_label }
}

} // verus!
