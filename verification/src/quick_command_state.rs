//! The state of the quick-command panel: the list's filters and modes, the
//! editor draft with its pickers and detached window, the confirmation
//! dialogs, the variable prompt, the import prompt and the AI popover.

use vstd::prelude::*;

use crate::quick_command::{append_mode, execute_mode, QuickCommandEditorField, QuickCommandEditorState};
use crate::text::{spec_trim, str_eq, trim};

verus! {

/// How the quick commands are ordered.
#[derive(Clone, Copy, Debug, PartialEq, Eq, Structural)]
pub enum QuickCommandSortMode {
    Usage,
    Name,
    Created,
    Custom,
}

/// How the quick commands are laid out.
#[derive(Clone, Copy, Debug, PartialEq, Eq, Structural)]
pub enum QuickCommandViewMode {
    List,
    Compact,
    Tile,
}

/// The label of a view mode, out of the three given.
pub fn quick_command_view_mode_label(
    mode: QuickCommandViewMode,
    list_label: String,
    compact_label: String,
    tile_label: String,
) -> (r: String)
    ensures
        r == match mode {
            QuickCommandViewMode::List => list_label,
            QuickCommandViewMode::Compact => compact_label,
            QuickCommandViewMode::Tile => tile_label,
        },
{
    match mode {
        QuickCommandViewMode::List => list_label,
        QuickCommandViewMode::Compact => compact_label,
        QuickCommandViewMode::Tile => tile_label,
    }
}

/// The label of a sort mode, out of the four given.
pub fn quick_command_sort_mode_label(
    mode: QuickCommandSortMode,
    created_label: String,
    name_label: String,
    usage_label: String,
    custom_label: String,
) -> (r: String)
    ensures
        r == match mode {
            QuickCommandSortMode::Created => created_label,
            QuickCommandSortMode::Name => name_label,
            QuickCommandSortMode::Usage => usage_label,
            QuickCommandSortMode::Custom => custom_label,
        },
{
    match mode {
        QuickCommandSortMode::Created => created_label,
        QuickCommandSortMode::Name => name_label,
        QuickCommandSortMode::Usage => usage_label,
        QuickCommandSortMode::Custom => custom_label,
    }
}

/// Where a dragged command or category lands relative to its target.
#[derive(Clone, Copy, Debug, PartialEq, Eq, Structural)]
pub enum QuickCommandDropPosition {
    Before,
    After,
    Inside,
}

/// The row a drag is over, and where on it the drop would land.
pub struct QuickCommandDropTarget {
    pub id: String,
    pub position: QuickCommandDropPosition,
}

/// The kind of file an import asks a path for.
#[derive(Clone, Copy, Debug, PartialEq, Eq, Structural)]
pub enum QuickCommandImportPathPromptKind {
    NyatermJson,
    XshellXts,
}

/// Which command's tooltip is shown, and which was dismissed and stays so
/// until the pointer comes back to it.
pub struct QuickCommandTooltipControl {
    pub suppressed_command_id: Option<String>,
    pub active: Option<String>,
}

/// The editor's detached window: none, being opened, or open.
#[derive(Clone, Copy, Debug, PartialEq, Eq, Structural)]
pub enum EditorWindowSlot {
    Closed,
    Pending,
    Open(u64),
}

/// The confirmation to delete a category.
pub struct QuickCommandCategoryDeleteState {
    pub id: String,
    pub name: String,
}

/// The dialog that renames a category.
pub struct QuickCommandCategoryRenameState {
    pub id: String,
    pub original_name: String,
    pub draft: String,
    pub error: Option<String>,
}

/// The dialog that adds a category; without a parent it adds a root one.
pub struct QuickCommandCategoryCreateState {
    pub parent_id: Option<String>,
    pub draft: String,
    pub error: Option<String>,
}

/// One `{{name}}` placeholder of a command, with the value given for it.
pub struct QuickCommandVariableDef {
    pub raw: String,
    pub name: String,
    pub options: Vec<String>,
    pub value: String,
}

/// The prompt for a command's placeholders before it is sent.
pub struct QuickCommandVariablePromptState {
    pub command_id: String,
    pub label: String,
    pub command: String,
    pub execute: bool,
    pub send_to_all: bool,
    pub variables: Vec<QuickCommandVariableDef>,
}

/// The list: search, category filter, sort and view, drag target, tooltip.
pub struct QuickCommandListState {
    pub search_draft: String,
    pub selected_category: String,
    pub sort_mode: QuickCommandSortMode,
    pub view_mode: QuickCommandViewMode,
    pub drop_target: Option<QuickCommandDropTarget>,
    pub tooltip: QuickCommandTooltipControl,
}

/// The editor draft, its window, and its two pickers.
pub struct QuickCommandEditorFeatureState {
    pub draft: Option<QuickCommandEditorState>,
    pub window: EditorWindowSlot,
    pub category_picker_open: bool,
    pub icon_picker_open: bool,
    pub category_search_draft: String,
    pub new_category_draft: String,
}

/// The category dialogs and the variable prompt.
pub struct QuickCommandDialogState {
    pub category_delete: Option<QuickCommandCategoryDeleteState>,
    pub category_create: Option<QuickCommandCategoryCreateState>,
    pub category_rename: Option<QuickCommandCategoryRenameState>,
    pub variable_prompt: Option<QuickCommandVariablePromptState>,
}

/// The AI popover that drafts a command from a prompt.
pub struct QuickCommandAiState {
    pub popover_open: bool,
    pub prompt_draft: String,
}

/// Everything the quick-command panel keeps between frames.
pub struct QuickCommandFeatureState {
    pub list: QuickCommandListState,
    pub editor: QuickCommandEditorFeatureState,
    pub dialogs: QuickCommandDialogState,
    pub import_path_prompt: Option<QuickCommandImportPathPromptKind>,
    pub ai: QuickCommandAiState,
}

/// The category filter that shows every command.
pub open spec fn all_categories() -> Seq<char> {
    "all"@
}

impl QuickCommandFeatureState {
    /// A panel with no search, every category, nothing open.
    pub fn new(sort_mode: QuickCommandSortMode, view_mode: QuickCommandViewMode) -> (r: Self)
        ensures
            r.list.search_draft@.len() == 0,
            r.list.selected_category@ == all_categories(),
            r.list.sort_mode == sort_mode,
            r.list.view_mode == view_mode,
            r.list.drop_target is None,
            r.list.tooltip.suppressed_command_id is None,
            r.list.tooltip.active is None,
            r.editor.draft is None,
            r.editor.window == EditorWindowSlot::Closed,
            !r.editor.category_picker_open,
            !r.editor.icon_picker_open,
            r.editor.category_search_draft@.len() == 0,
            r.editor.new_category_draft@.len() == 0,
            r.dialogs.category_delete is None,
            r.dialogs.category_create is None,
            r.dialogs.category_rename is None,
            r.dialogs.variable_prompt is None,
            r.import_path_prompt is None,
            !r.ai.popover_open,
            r.ai.prompt_draft@.len() == 0,
    {
        QuickCommandFeatureState {
            list: QuickCommandListState {
                search_draft: String::new(),
                selected_category: String::from_str("all"),
                sort_mode,
                view_mode,
                drop_target: None,
                tooltip: QuickCommandTooltipControl { suppressed_command_id: None, active: None },
            },
            editor: QuickCommandEditorFeatureState {
                draft: None,
                window: EditorWindowSlot::Closed,
                category_picker_open: false,
                icon_picker_open: false,
                category_search_draft: String::new(),
                new_category_draft: String::new(),
            },
            dialogs: QuickCommandDialogState {
                category_delete: None,
                category_create: None,
                category_rename: None,
                variable_prompt: None,
            },
            import_path_prompt: None,
            ai: QuickCommandAiState { popover_open: false, prompt_draft: String::new() },
        }
    }

    /// Closes the AI toolbar popover before another toolbar action takes
    /// over.
    pub fn close_toolbar_popovers(&mut self)
        ensures
            !final(self).ai.popover_open,
            final(self).ai.prompt_draft == old(self).ai.prompt_draft,
            final(self).list == old(self).list,
            final(self).editor == old(self).editor,
            final(self).dialogs == old(self).dialogs,
            final(self).import_path_prompt == old(self).import_path_prompt,
    {
        self.ai.popover_open = false;
    }

    /// Closes the toolbar popovers; whether one was open.
    pub fn close_quick_toolbar_popovers(&mut self) -> (changed: bool)
        ensures
            changed == old(self).ai.popover_open,
            !final(self).ai.popover_open,
            final(self).ai.prompt_draft == old(self).ai.prompt_draft,
            final(self).list == old(self).list,
            final(self).editor == old(self).editor,
            final(self).dialogs == old(self).dialogs,
            final(self).import_path_prompt == old(self).import_path_prompt,
    {
        let changed = self.ai.popover_open;
        self.close_toolbar_popovers();
        changed
    }

    /// Clears the search and shows every category.
    pub fn clear_quick_filters(&mut self)
        ensures
            final(self).list.search_draft@.len() == 0,
            final(self).list.selected_category@ == all_categories(),
            final(self).list.sort_mode == old(self).list.sort_mode,
            final(self).list.view_mode == old(self).list.view_mode,
            final(self).list.drop_target == old(self).list.drop_target,
            final(self).list.tooltip == old(self).list.tooltip,
            final(self).editor == old(self).editor,
            final(self).dialogs == old(self).dialogs,
            final(self).import_path_prompt == old(self).import_path_prompt,
            final(self).ai == old(self).ai,
    {
        self.list.search_draft = String::new();
        self.list.selected_category = String::from_str("all");
    }

    /// Changes the layout, closing the toolbar popovers.
    pub fn set_quick_view_mode(&mut self, mode: QuickCommandViewMode)
        ensures
            final(self).list.view_mode == mode,
            !final(self).ai.popover_open,
            final(self).ai.prompt_draft == old(self).ai.prompt_draft,
            final(self).list.sort_mode == old(self).list.sort_mode,
            final(self).list.search_draft == old(self).list.search_draft,
            final(self).list.selected_category == old(self).list.selected_category,
            final(self).editor == old(self).editor,
            final(self).dialogs == old(self).dialogs,
    {
        self.close_quick_toolbar_popovers();
        self.list.view_mode = mode;
    }

    /// Changes the order, closing the toolbar popovers.
    pub fn set_quick_sort_mode(&mut self, mode: QuickCommandSortMode)
        ensures
            final(self).list.sort_mode == mode,
            !final(self).ai.popover_open,
            final(self).ai.prompt_draft == old(self).ai.prompt_draft,
            final(self).list.view_mode == old(self).list.view_mode,
            final(self).list.search_draft == old(self).list.search_draft,
            final(self).list.selected_category == old(self).list.selected_category,
            final(self).editor == old(self).editor,
            final(self).dialogs == old(self).dialogs,
    {
        self.close_quick_toolbar_popovers();
        self.list.sort_mode = mode;
    }

    /// Marks the row a drag is over; whether that changed the mark.
    pub fn set_quick_drop_target(&mut self, target: QuickCommandDropTarget) -> (changed: bool)
        ensures
            changed == !(old(self).list.drop_target matches Some(t) && t.id@ == target.id@
                && t.position == target.position),
            changed ==> final(self).list.drop_target == Some(target),
            !changed ==> final(self).list.drop_target == old(self).list.drop_target,
            final(self).list.search_draft == old(self).list.search_draft,
            final(self).list.selected_category == old(self).list.selected_category,
            final(self).editor == old(self).editor,
            final(self).dialogs == old(self).dialogs,
            final(self).ai == old(self).ai,
    {
        let same = match &self.list.drop_target {
            Some(t) => str_eq(t.id.as_str(), target.id.as_str()) && t.position == target.position,
            None => false,
        };
        if same {
            return false;
        }
        self.list.drop_target = Some(target);
        true
    }

    /// Forgets the drag target.
    pub fn clear_quick_drop_target(&mut self)
        ensures
            final(self).list.drop_target is None,
            final(self).list.search_draft == old(self).list.search_draft,
            final(self).list.selected_category == old(self).list.selected_category,
            final(self).editor == old(self).editor,
            final(self).dialogs == old(self).dialogs,
            final(self).ai == old(self).ai,
    {
        self.list.drop_target = None;
    }
}

/// At most one of the editor's two pickers is open.
pub open spec fn pickers_exclusive(e: QuickCommandEditorFeatureState) -> bool {
    !(e.category_picker_open && e.icon_picker_open)
}

/// The editor part after it is opened on `draft` or closed: pickers shut and
/// their drafts empty.
pub open spec fn pickers_reset(e: QuickCommandEditorFeatureState) -> bool {
    &&& !e.category_picker_open
    &&& !e.icon_picker_open
    &&& e.category_search_draft@.len() == 0
    &&& e.new_category_draft@.len() == 0
}

impl QuickCommandFeatureState {
    /// Opens the editor on a draft, with both pickers shut.
    pub fn open_quick_editor(&mut self, editor: QuickCommandEditorState)
        ensures
            final(self).editor.draft == Some(editor),
            pickers_reset(final(self).editor),
            final(self).editor.window == old(self).editor.window,
            final(self).list == old(self).list,
            final(self).dialogs == old(self).dialogs,
            final(self).ai == old(self).ai,
    {
        self.editor.draft = Some(editor);
        self.editor.category_search_draft = String::new();
        self.editor.new_category_draft = String::new();
        self.editor.category_picker_open = false;
        self.editor.icon_picker_open = false;
    }

    /// Closes the editor, its window and its pickers.
    pub fn close_quick_editor(&mut self)
        ensures
            final(self).editor.draft is None,
            final(self).editor.window == EditorWindowSlot::Closed,
            pickers_reset(final(self).editor),
            final(self).list == old(self).list,
            final(self).dialogs == old(self).dialogs,
            final(self).ai == old(self).ai,
    {
        self.editor.draft = None;
        self.editor.category_search_draft = String::new();
        self.editor.new_category_draft = String::new();
        self.editor.window = EditorWindowSlot::Closed;
        self.editor.category_picker_open = false;
        self.editor.icon_picker_open = false;
    }

    /// Sets the category search text; whether it changed.
    pub fn apply_quick_editor_category_search(&mut self, text: String) -> (changed: bool)
        ensures
            pickers_exclusive(old(self).editor) ==> pickers_exclusive(final(self).editor),
            changed == (old(self).editor.category_search_draft@ != text@),
            final(self).editor.category_search_draft@ == text@,
            final(self).editor.draft == old(self).editor.draft,
            final(self).editor.new_category_draft == old(self).editor.new_category_draft,
            final(self).editor.category_picker_open == old(self).editor.category_picker_open,
            final(self).editor.icon_picker_open == old(self).editor.icon_picker_open,
            final(self).editor.window == old(self).editor.window,
            final(self).list == old(self).list,
            final(self).dialogs == old(self).dialogs,
    {
        if self.editor.category_search_draft == text {
            return false;
        }
        self.editor.category_search_draft = text;
        true
    }

    /// Sets the new-category text; whether it changed.
    pub fn apply_quick_editor_new_category(&mut self, text: String) -> (changed: bool)
        ensures
            pickers_exclusive(old(self).editor) ==> pickers_exclusive(final(self).editor),
            changed == (old(self).editor.new_category_draft@ != text@),
            final(self).editor.new_category_draft@ == text@,
            final(self).editor.draft == old(self).editor.draft,
            final(self).editor.category_search_draft == old(self).editor.category_search_draft,
            final(self).editor.category_picker_open == old(self).editor.category_picker_open,
            final(self).editor.icon_picker_open == old(self).editor.icon_picker_open,
            final(self).editor.window == old(self).editor.window,
            final(self).list == old(self).list,
            final(self).dialogs == old(self).dialogs,
    {
        if self.editor.new_category_draft == text {
            return false;
        }
        self.editor.new_category_draft = text;
        true
    }
}

/// The draft with its error cleared.
pub open spec fn error_cleared(before: QuickCommandEditorState, after: QuickCommandEditorState) -> bool {
    &&& after.error is None
    &&& after.error_field is None
    &&& after.original == before.original
}

impl QuickCommandFeatureState {
    /// Turns the new-category text, trimmed, into the draft's category; a
    /// blank text or a missing draft changes nothing.
    pub fn commit_quick_editor_new_category(&mut self) -> (changed: bool)
        ensures
            pickers_exclusive(old(self).editor) ==> pickers_exclusive(final(self).editor),
            changed == (spec_trim(old(self).editor.new_category_draft@).len() > 0
                && old(self).editor.draft is Some),
            changed ==> ({
                let before = old(self).editor.draft->0;
                let after = final(self).editor.draft->0;
                &&& final(self).editor.draft is Some
                &&& after.category_id is None
                &&& after.category_draft@ == spec_trim(old(self).editor.new_category_draft@)
                &&& error_cleared(before, after)
                &&& after.label == before.label
                &&& after.command == before.command
                &&& after.focused_field == before.focused_field
                &&& final(self).editor.category_search_draft@.len() == 0
                &&& final(self).editor.new_category_draft@.len() == 0
                &&& !final(self).editor.category_picker_open
            }),
            !changed ==> final(self).editor == old(self).editor,
            final(self).list == old(self).list,
            final(self).dialogs == old(self).dialogs,
    {
        let draft = trim(self.editor.new_category_draft.as_str());
        if draft.as_str().is_empty() {
            return false;
        }
        match &mut self.editor.draft {
            Some(editor) => {
                editor.category_id = None;
                editor.category_draft = draft;
                editor.error = None;
                editor.error_field = None;
            },
            None => {
                return false;
            },
        }
        self.editor.category_search_draft = String::new();
        self.editor.new_category_draft = String::new();
        self.editor.category_picker_open = false;
        true
    }

    /// Opens or shuts the category picker; opening shuts the icon picker and
    /// shutting clears both picker texts. Whether anything changed.
    pub fn set_quick_editor_category_picker_open(&mut self, open: bool) -> (changed: bool)
        ensures
            pickers_exclusive(old(self).editor) ==> pickers_exclusive(final(self).editor),
            changed == (old(self).editor.category_picker_open != open),
            final(self).editor.category_picker_open == open,
            changed && open ==> !final(self).editor.icon_picker_open,
            changed && !open ==> final(self).editor.category_search_draft@.len() == 0
                && final(self).editor.new_category_draft@.len() == 0
                && final(self).editor.icon_picker_open == old(self).editor.icon_picker_open,
            changed && open ==> final(self).editor.category_search_draft
                == old(self).editor.category_search_draft
                && final(self).editor.new_category_draft == old(self).editor.new_category_draft,
            !changed ==> final(self).editor == old(self).editor,
            final(self).editor.draft == old(self).editor.draft,
            final(self).editor.window == old(self).editor.window,
            final(self).list == old(self).list,
            final(self).dialogs == old(self).dialogs,
    {
        if self.editor.category_picker_open == open {
            return false;
        }
        self.editor.category_picker_open = open;
        if !open {
            self.editor.category_search_draft = String::new();
            self.editor.new_category_draft = String::new();
        }
        if open {
            self.editor.icon_picker_open = false;
        }
        true
    }

    /// Opens or shuts the icon picker; opening shuts the category picker.
    /// Whether anything changed.
    pub fn set_quick_editor_icon_picker_open(&mut self, open: bool) -> (changed: bool)
        ensures
            pickers_exclusive(old(self).editor) ==> pickers_exclusive(final(self).editor),
            changed == (old(self).editor.icon_picker_open != open),
            final(self).editor.icon_picker_open == open,
            changed && open ==> !final(self).editor.category_picker_open,
            changed && !open ==> final(self).editor.category_picker_open
                == old(self).editor.category_picker_open,
            !changed ==> final(self).editor == old(self).editor,
            final(self).editor.draft == old(self).editor.draft,
            final(self).editor.window == old(self).editor.window,
            final(self).editor.category_search_draft == old(self).editor.category_search_draft,
            final(self).editor.new_category_draft == old(self).editor.new_category_draft,
            final(self).list == old(self).list,
            final(self).dialogs == old(self).dialogs,
    {
        if self.editor.icon_picker_open == open {
            return false;
        }
        self.editor.icon_picker_open = open;
        if open {
            self.editor.category_picker_open = false;
        }
        true
    }

    /// Takes typed text into a field of the draft: the category field feeds
    /// the category search, the others replace their text. The field gets
    /// the focus and the error is cleared. Whether anything changed.
    pub fn apply_quick_editor_input(&mut self, field: QuickCommandEditorField, text: String) -> (changed:
        bool)
        ensures
            pickers_exclusive(old(self).editor) ==> pickers_exclusive(final(self).editor),
            field == QuickCommandEditorField::Category ==> {
                &&& changed == (old(self).editor.category_search_draft@ != text@)
                &&& final(self).editor.category_search_draft@ == text@
                &&& (changed && old(self).editor.draft is Some) ==> {
                    let before = old(self).editor.draft->0;
                    let after = final(self).editor.draft->0;
                    &&& final(self).editor.draft is Some
                    &&& after.focused_field == field
                    &&& error_cleared(before, after)
                    &&& after.label == before.label
                    &&& after.command == before.command
                    &&& after.description == before.description
                }
                &&& !(changed && old(self).editor.draft is Some) ==> final(self).editor.draft == old(
                    self,
                ).editor.draft
            },
            field != QuickCommandEditorField::Category ==> {
                &&& changed == old(self).editor.draft is Some
                &&& final(self).editor.category_search_draft == old(
                    self,
                ).editor.category_search_draft
                &&& !changed ==> final(self).editor.draft is None
                &&& changed ==> {
                    let before = old(self).editor.draft->0;
                    let after = final(self).editor.draft->0;
                    &&& final(self).editor.draft is Some
                    &&& after.focused_field == field
                    &&& error_cleared(before, after)
                    &&& after.label == (if field == QuickCommandEditorField::Label {
                        text
                    } else {
                        before.label
                    })
                    &&& after.command == (if field == QuickCommandEditorField::Command {
                        text
                    } else {
                        before.command
                    })
                    &&& after.description == (if field == QuickCommandEditorField::Description {
                        text
                    } else {
                        before.description
                    })
                    &&& after.category_id == before.category_id
                    &&& after.category_draft == before.category_draft
                }
            },
            final(self).editor.new_category_draft == old(self).editor.new_category_draft,
            final(self).editor.category_picker_open == old(self).editor.category_picker_open,
            final(self).editor.icon_picker_open == old(self).editor.icon_picker_open,
            final(self).editor.window == old(self).editor.window,
            final(self).list == old(self).list,
            final(self).dialogs == old(self).dialogs,
    {
        if field == QuickCommandEditorField::Category {
            let changed = self.apply_quick_editor_category_search(text);
            if changed {
                match &mut self.editor.draft {
                    Some(editor) => {
                        editor.focused_field = field;
                        editor.error = None;
                        editor.error_field = None;
                    },
                    None => {},
                }
            }
            return changed;
        }
        match &mut self.editor.draft {
            Some(editor) => {
                editor.focused_field = field;
                match field {
                    QuickCommandEditorField::Label => editor.label = text,
                    QuickCommandEditorField::Command => editor.command = text,
                    QuickCommandEditorField::Description => editor.description = text,
                    QuickCommandEditorField::Category => {},
                }
                editor.error = None;
                editor.error_field = None;
                true
            },
            None => false,
        }
    }

    /// Picks a category for the draft, closing the category picker.
    pub fn set_quick_editor_category(&mut self, category_id: Option<String>, category_draft: String) -> (changed:
        bool)
        ensures
            pickers_exclusive(old(self).editor) ==> pickers_exclusive(final(self).editor),
            changed == old(self).editor.draft is Some,
            changed ==> ({
                let before = old(self).editor.draft->0;
                let after = final(self).editor.draft->0;
                &&& final(self).editor.draft is Some
                &&& after.category_id == category_id
                &&& after.category_draft == category_draft
                &&& error_cleared(before, after)
                &&& after.label == before.label
                &&& after.command == before.command
                &&& final(self).editor.category_search_draft@.len() == 0
                &&& final(self).editor.new_category_draft@.len() == 0
                &&& !final(self).editor.category_picker_open
                &&& final(self).editor.icon_picker_open == old(self).editor.icon_picker_open
            }),
            !changed ==> final(self).editor == old(self).editor,
            final(self).list == old(self).list,
            final(self).dialogs == old(self).dialogs,
    {
        match &mut self.editor.draft {
            Some(editor) => {
                editor.category_id = category_id;
                editor.category_draft = category_draft;
                editor.error = None;
                editor.error_field = None;
            },
            None => {
                return false;
            },
        }
        self.editor.category_search_draft = String::new();
        self.editor.new_category_draft = String::new();
        self.editor.category_picker_open = false;
        true
    }

    /// Gives the draft a colour, which replaces its icon, and shuts the icon
    /// picker.
    pub fn set_quick_editor_color(&mut self, color_tag: Option<String>) -> (changed: bool)
        ensures
            pickers_exclusive(old(self).editor) ==> pickers_exclusive(final(self).editor),
            changed == old(self).editor.draft is Some,
            changed ==> ({
                let before = old(self).editor.draft->0;
                let after = final(self).editor.draft->0;
                &&& final(self).editor.draft is Some
                &&& after.color_tag == color_tag
                &&& after.icon_tag is None
                &&& error_cleared(before, after)
                &&& after.label == before.label
                &&& after.command == before.command
                &&& !final(self).editor.icon_picker_open
                &&& final(self).editor.category_picker_open == old(
                    self,
                ).editor.category_picker_open
            }),
            !changed ==> final(self).editor == old(self).editor,
            final(self).list == old(self).list,
            final(self).dialogs == old(self).dialogs,
    {
        match &mut self.editor.draft {
            Some(editor) => {
                editor.color_tag = color_tag;
                editor.icon_tag = None;
                editor.error = None;
                editor.error_field = None;
            },
            None => {
                return false;
            },
        }
        self.editor.icon_picker_open = false;
        true
    }

    /// Gives the draft an icon, which replaces its colour, and shuts the icon
    /// picker.
    pub fn set_quick_editor_icon(&mut self, icon_tag: Option<String>) -> (changed: bool)
        ensures
            pickers_exclusive(old(self).editor) ==> pickers_exclusive(final(self).editor),
            changed == old(self).editor.draft is Some,
            changed ==> ({
                let before = old(self).editor.draft->0;
                let after = final(self).editor.draft->0;
                &&& final(self).editor.draft is Some
                &&& after.icon_tag == icon_tag
                &&& after.color_tag == (if icon_tag is Some {
                    None
                } else {
                    before.color_tag
                })
                &&& error_cleared(before, after)
                &&& after.label == before.label
                &&& after.command == before.command
                &&& !final(self).editor.icon_picker_open
                &&& final(self).editor.category_picker_open == old(
                    self,
                ).editor.category_picker_open
            }),
            !changed ==> final(self).editor == old(self).editor,
            final(self).list == old(self).list,
            final(self).dialogs == old(self).dialogs,
    {
        match &mut self.editor.draft {
            Some(editor) => {
                let has_icon = icon_tag.is_some();
                editor.icon_tag = icon_tag;
                if has_icon {
                    editor.color_tag = None;
                }
                editor.error = None;
                editor.error_field = None;
            },
            None => {
                return false;
            },
        }
        self.editor.icon_picker_open = false;
        true
    }

    /// Pins or unpins the draft.
    pub fn toggle_quick_editor_pinned(&mut self) -> (changed: bool)
        ensures
            changed == old(self).editor.draft is Some,
            changed ==> ({
                let before = old(self).editor.draft->0;
                let after = final(self).editor.draft->0;
                &&& final(self).editor.draft is Some
                &&& after.pinned == !before.pinned
                &&& error_cleared(before, after)
                &&& after.label == before.label
                &&& after.command == before.command
            }),
            !changed ==> final(self).editor.draft == old(self).editor.draft,
            final(self).editor.window == old(self).editor.window,
            final(self).editor.category_picker_open == old(self).editor.category_picker_open,
            final(self).editor.icon_picker_open == old(self).editor.icon_picker_open,
            final(self).list == old(self).list,
            final(self).dialogs == old(self).dialogs,
    {
        match &mut self.editor.draft {
            Some(editor) => {
                editor.pinned = !editor.pinned;
                editor.error = None;
                editor.error_field = None;
                true
            },
            None => false,
        }
    }

    /// Sets how the draft is sent: `append` when asked for, else `execute`.
    pub fn set_quick_editor_execution_mode(&mut self, mode: &str) -> (changed: bool)
        ensures
            changed == old(self).editor.draft is Some,
            changed ==> ({
                let before = old(self).editor.draft->0;
                let after = final(self).editor.draft->0;
                &&& final(self).editor.draft is Some
                &&& after.execution_mode@ == (if mode@ == "append"@ {
                    seq!['a', 'p', 'p', 'e', 'n', 'd']
                } else {
                    crate::quick_command::spec_default_execution_mode()
                })
                &&& error_cleared(before, after)
                &&& after.label == before.label
                &&& after.command == before.command
            }),
            !changed ==> final(self).editor.draft == old(self).editor.draft,
            final(self).editor.window == old(self).editor.window,
            final(self).list == old(self).list,
            final(self).dialogs == old(self).dialogs,
    {
        match &mut self.editor.draft {
            Some(editor) => {
                editor.execution_mode = if str_eq(mode, "append") {
                    append_mode()
                } else {
                    execute_mode()
                };
                editor.error = None;
                editor.error_field = None;
                true
            },
            None => false,
        }
    }

    /// Shows an error on the draft, focusing the field it belongs to.
    pub fn set_quick_editor_error(&mut self, error: String, field: Option<QuickCommandEditorField>)
        ensures
            old(self).editor.draft is Some ==> ({
                let before = old(self).editor.draft->0;
                let after = final(self).editor.draft->0;
                &&& final(self).editor.draft is Some
                &&& after.error == Some(error)
                &&& after.error_field == field
                &&& after.focused_field == (match field {
                    Some(f) => f,
                    None => before.focused_field,
                })
                &&& after.label == before.label
                &&& after.command == before.command
            }),
            old(self).editor.draft is None ==> final(self).editor.draft is None,
            final(self).editor.window == old(self).editor.window,
            final(self).list == old(self).list,
            final(self).dialogs == old(self).dialogs,
    {
        match &mut self.editor.draft {
            Some(editor) => {
                editor.error = Some(error);
                editor.error_field = field;
                match field {
                    Some(f) => {
                        editor.focused_field = f;
                    },
                    None => {},
                }
            },
            None => {},
        }
    }
}

impl QuickCommandFeatureState {
    /// Whether the editor shows inside the panel: there is a draft and no
    /// window for it.
    pub fn quick_editor_is_inline(&self) -> (r: bool)
        ensures
            r == (self.editor.draft is Some && self.editor.window == EditorWindowSlot::Closed),
    {
        self.editor.draft.is_some() && self.editor.window == EditorWindowSlot::Closed
    }

    /// Whether a window for the editor is being opened.
    pub fn quick_editor_window_is_pending(&self) -> (r: bool)
        ensures
            r == (self.editor.window == EditorWindowSlot::Pending),
    {
        self.editor.window == EditorWindowSlot::Pending
    }

    /// The editor's window, once open.
    pub fn quick_editor_window(&self) -> (r: Option<u64>)
        ensures
            r == match self.editor.window {
                EditorWindowSlot::Open(w) => Some(w),
                _ => None,
            },
    {
        match self.editor.window {
            EditorWindowSlot::Open(w) => Some(w),
            _ => None,
        }
    }

    /// Claims the right to open the editor window: refused without a draft
    /// or while a window is open or being opened.
    pub fn request_quick_editor_window(&mut self) -> (granted: bool)
        ensures
            granted == (old(self).editor.draft is Some && old(self).editor.window
                == EditorWindowSlot::Closed),
            granted ==> final(self).editor.window == EditorWindowSlot::Pending,
            !granted ==> final(self).editor.window == old(self).editor.window,
            final(self).editor.draft == old(self).editor.draft,
            final(self).list == old(self).list,
            final(self).dialogs == old(self).dialogs,
    {
        if self.editor.draft.is_none() {
            return false;
        }
        if self.editor.window != EditorWindowSlot::Closed {
            return false;
        }
        self.editor.window = EditorWindowSlot::Pending;
        true
    }

    /// Ends a window request: open when a window came, closed when not.
    pub fn finish_quick_editor_window_open(&mut self, window: Option<u64>)
        ensures
            final(self).editor.window == match window {
                Some(w) => EditorWindowSlot::Open(w),
                None => EditorWindowSlot::Closed,
            },
            final(self).editor.draft == old(self).editor.draft,
            final(self).list == old(self).list,
            final(self).dialogs == old(self).dialogs,
    {
        self.editor.window = match window {
            Some(w) => EditorWindowSlot::Open(w),
            None => EditorWindowSlot::Closed,
        };
    }

    /// Drops a window request that has not finished.
    pub fn cancel_quick_editor_window_request(&mut self)
        ensures
            final(self).editor.window == (if old(self).editor.window == EditorWindowSlot::Pending {
                EditorWindowSlot::Closed
            } else {
                old(self).editor.window
            }),
            final(self).editor.draft == old(self).editor.draft,
            final(self).list == old(self).list,
            final(self).dialogs == old(self).dialogs,
    {
        if self.editor.window == EditorWindowSlot::Pending {
            self.editor.window = EditorWindowSlot::Closed;
        }
    }

    /// After a category is deleted: its confirmation closes, the filter falls
    /// back to every category if it showed that one, and a draft in it loses
    /// its category.
    pub fn finish_quick_category_delete(&mut self, category_id: &str)
        ensures
            final(self).dialogs.category_delete is None,
            final(self).list.selected_category@ == (if old(self).list.selected_category@
                == category_id@ {
                all_categories()
            } else {
                old(self).list.selected_category@
            }),
            old(self).editor.draft is Some ==> ({
                let before = old(self).editor.draft->0;
                let after = final(self).editor.draft->0;
                &&& final(self).editor.draft is Some
                &&& if before.category_id matches Some(c) && c@ == category_id@ {
                    after.category_id is None && after.category_draft@.len() == 0
                } else {
                    after.category_id == before.category_id && after.category_draft
                        == before.category_draft
                }
                &&& after.label == before.label
                &&& after.command == before.command
                &&& after.error == before.error
            }),
            old(self).editor.draft is None ==> final(self).editor.draft is None,
            final(self).dialogs.category_create == old(self).dialogs.category_create,
            final(self).dialogs.category_rename == old(self).dialogs.category_rename,
            final(self).dialogs.variable_prompt == old(self).dialogs.variable_prompt,
    {
        self.dialogs.category_delete = None;
        if str_eq(self.list.selected_category.as_str(), category_id) {
            self.list.selected_category = String::from_str("all");
        }
        match &mut self.editor.draft {
            Some(editor) => {
                let matches = match &editor.category_id {
                    Some(c) => str_eq(c.as_str(), category_id),
                    None => false,
                };
                if matches {
                    editor.category_id = None;
                    editor.category_draft = String::new();
                }
            },
            None => {},
        }
    }

    /// Takes the text of the add-category dialog, clearing its error.
    pub fn apply_quick_category_create(&mut self, text: String) -> (changed: bool)
        ensures
            changed == old(self).dialogs.category_create is Some,
            changed ==> final(self).dialogs.category_create == Some(
                QuickCommandCategoryCreateState {
                    parent_id: old(self).dialogs.category_create->0.parent_id,
                    draft: text,
                    error: None,
                },
            ),
            !changed ==> final(self).dialogs.category_create is None,
            final(self).dialogs.category_rename == old(self).dialogs.category_rename,
            final(self).dialogs.category_delete == old(self).dialogs.category_delete,
            final(self).editor == old(self).editor,
            final(self).list == old(self).list,
    {
        match &mut self.dialogs.category_create {
            Some(create) => {
                create.draft = text;
                create.error = None;
                true
            },
            None => false,
        }
    }

    /// Shows an error in the add-category dialog.
    pub fn set_quick_category_create_error(&mut self, error: String)
        ensures
            old(self).dialogs.category_create is Some ==> final(self).dialogs.category_create
                == Some(
                QuickCommandCategoryCreateState {
                    parent_id: old(self).dialogs.category_create->0.parent_id,
                    draft: old(self).dialogs.category_create->0.draft,
                    error: Some(error),
                },
            ),
            old(self).dialogs.category_create is None ==> final(self).dialogs.category_create is None,
            final(self).dialogs.category_rename == old(self).dialogs.category_rename,
            final(self).editor == old(self).editor,
            final(self).list == old(self).list,
    {
        match &mut self.dialogs.category_create {
            Some(create) => {
                create.error = Some(error);
            },
            None => {},
        }
    }

    /// Takes the text of the rename dialog, clearing its error.
    pub fn apply_quick_category_rename(&mut self, text: String) -> (changed: bool)
        ensures
            changed == old(self).dialogs.category_rename is Some,
            changed ==> final(self).dialogs.category_rename == Some(
                QuickCommandCategoryRenameState {
                    id: old(self).dialogs.category_rename->0.id,
                    original_name: old(self).dialogs.category_rename->0.original_name,
                    draft: text,
                    error: None,
                },
            ),
            !changed ==> final(self).dialogs.category_rename is None,
            final(self).dialogs.category_create == old(self).dialogs.category_create,
            final(self).dialogs.category_delete == old(self).dialogs.category_delete,
            final(self).editor == old(self).editor,
            final(self).list == old(self).list,
    {
        match &mut self.dialogs.category_rename {
            Some(rename) => {
                rename.draft = text;
                rename.error = None;
                true
            },
            None => false,
        }
    }

    /// Shows an error in the rename dialog.
    pub fn set_quick_category_rename_error(&mut self, error: String)
        ensures
            old(self).dialogs.category_rename is Some ==> final(self).dialogs.category_rename
                == Some(
                QuickCommandCategoryRenameState {
                    id: old(self).dialogs.category_rename->0.id,
                    original_name: old(self).dialogs.category_rename->0.original_name,
                    draft: old(self).dialogs.category_rename->0.draft,
                    error: Some(error),
                },
            ),
            old(self).dialogs.category_rename is None ==> final(self).dialogs.category_rename is None,
            final(self).dialogs.category_create == old(self).dialogs.category_create,
            final(self).editor == old(self).editor,
            final(self).list == old(self).list,
    {
        match &mut self.dialogs.category_rename {
            Some(rename) => {
                rename.error = Some(error);
            },
            None => {},
        }
    }

    /// Starts asking for an import path; refused while one is being asked.
    pub fn request_quick_import_path(&mut self, kind: QuickCommandImportPathPromptKind) -> (granted:
        bool)
        ensures
            granted == old(self).import_path_prompt is None,
            final(self).import_path_prompt == (if granted {
                Some(kind)
            } else {
                old(self).import_path_prompt
            }),
            final(self).editor == old(self).editor,
            final(self).list == old(self).list,
            final(self).dialogs == old(self).dialogs,
    {
        if self.import_path_prompt.is_some() {
            return false;
        }
        self.import_path_prompt = Some(kind);
        true
    }

    /// Stops asking for an import path.
    pub fn finish_quick_import_path(&mut self)
        ensures
            final(self).import_path_prompt is None,
            final(self).editor == old(self).editor,
            final(self).list == old(self).list,
            final(self).dialogs == old(self).dialogs,
    {
        self.import_path_prompt = None;
    }

    /// Opens the AI popover if it was shut, shuts it if it was open; the
    /// other toolbar popovers close. Whether it is now open.
    pub fn toggle_quick_ai_popover(&mut self) -> (open: bool)
        ensures
            open == !old(self).ai.popover_open,
            final(self).ai.popover_open == open,
            final(self).ai.prompt_draft == old(self).ai.prompt_draft,
            final(self).editor == old(self).editor,
            final(self).list == old(self).list,
            final(self).dialogs == old(self).dialogs,
    {
        let open = !self.ai.popover_open;
        self.close_quick_toolbar_popovers();
        self.ai.popover_open = open;
        open
    }

    /// The AI prompt, trimmed, if it is not blank; it is then cleared.
    pub fn take_quick_ai_prompt(&mut self) -> (r: Option<String>)
        ensures
            spec_trim(old(self).ai.prompt_draft@).len() == 0 ==> r is None && final(self).ai
                == old(self).ai,
            spec_trim(old(self).ai.prompt_draft@).len() > 0 ==> r is Some && r->0@ == spec_trim(
                old(self).ai.prompt_draft@,
            ) && final(self).ai.prompt_draft@.len() == 0 && final(self).ai.popover_open == old(
                self,
            ).ai.popover_open,
            final(self).editor == old(self).editor,
            final(self).list == old(self).list,
            final(self).dialogs == old(self).dialogs,
    {
        let prompt = trim(self.ai.prompt_draft.as_str());
        if prompt.as_str().is_empty() {
            return None;
        }
        self.ai.prompt_draft = String::new();
        Some(prompt)
    }
}

/// The placeholders after `value` is given to every one named `name`.
pub open spec fn spec_set_variable(
    vars: Seq<QuickCommandVariableDef>,
    name: Seq<char>,
    value: String,
) -> Seq<QuickCommandVariableDef> {
    vars.map_values(
        |v: QuickCommandVariableDef|
            if v.name@ == name {
                QuickCommandVariableDef { raw: v.raw, name: v.name, options: v.options, value }
            } else {
                v
            },
    )
}

impl QuickCommandFeatureState {
    /// Gives a value to the placeholder at `index` and to every other
    /// placeholder of the same name; refused without a prompt or a
    /// placeholder there.
    pub fn set_quick_variable_value(&mut self, index: usize, value: String) -> (changed: bool)
        ensures
            changed == (old(self).dialogs.variable_prompt matches Some(p) && index
                < p.variables@.len()),
            changed ==> ({
                let before = old(self).dialogs.variable_prompt->0;
                let after = final(self).dialogs.variable_prompt->0;
                &&& final(self).dialogs.variable_prompt is Some
                &&& after.variables@ == spec_set_variable(
                    before.variables@,
                    before.variables@[index as int].name@,
                    value,
                )
                &&& after.command_id == before.command_id
                &&& after.command == before.command
                &&& after.execute == before.execute
                &&& after.send_to_all == before.send_to_all
            }),
            !changed ==> final(self).dialogs.variable_prompt == old(self).dialogs.variable_prompt,
            final(self).dialogs.category_create == old(self).dialogs.category_create,
            final(self).editor == old(self).editor,
            final(self).list == old(self).list,
    {
        match &mut self.dialogs.variable_prompt {
            Some(prompt) => {
                if index >= prompt.variables.len() {
                    return false;
                }
                let name = prompt.variables[index].name.clone();
                let mut rest: Vec<QuickCommandVariableDef> = Vec::new();
                std::mem::swap(&mut rest, &mut prompt.variables);
                let ghost orig = rest@;
                let n = rest.len();
                let mut done: Vec<QuickCommandVariableDef> = Vec::new();
                let mut i: usize = 0;
                while rest.len() > 0
                    invariant
                        i + rest@.len() == orig.len(),
                        orig.len() == n,
                        rest@ == orig.skip(i as int),
                        done@ == spec_set_variable(orig.take(i as int), name@, value),
                    decreases rest@.len(),
                {
                    let mut v = rest.remove(0);
                    assert(v == orig[i as int]);
                    if str_eq(v.name.as_str(), name.as_str()) {
                        v.value = value.clone();
                    }
                    done.push(v);
                    assert(orig.skip(i as int).drop_first() =~= orig.skip(i + 1));
                    assert(done@ =~= spec_set_variable(orig.take(i + 1), name@, value));
                    i += 1;
                }
                assert(orig.take(orig.len() as int) =~= orig);
                prompt.variables = done;
                true
            },
            None => false,
        }
    }
}

/// Whether `o` names `id`.
pub open spec fn names(o: Option<String>, id: Seq<char>) -> bool {
    o matches Some(x) && x@ == id
}

/// Whether `o` names `id`.
fn option_names(o: &Option<String>, id: &str) -> (r: bool)
    ensures
        r == names(*o, id@),
{
    match o {
        Some(x) => str_eq(x.as_str(), id),
        None => false,
    }
}

impl QuickCommandTooltipControl {
    /// No tooltip shown and none dismissed.
    pub fn new() -> (r: Self)
        ensures
            r.suppressed_command_id is None,
            r.active is None,
    {
        QuickCommandTooltipControl { suppressed_command_id: None, active: None }
    }

    /// The pointer enters a command: a tooltip dismissed on it may show
    /// again, and the tooltip of another command goes.
    pub fn begin_hover(&mut self, command_id: &str)
        ensures
            final(self).suppressed_command_id == (if names(
                old(self).suppressed_command_id,
                command_id@,
            ) {
                None
            } else {
                old(self).suppressed_command_id
            }),
            final(self).active == (if old(self).active is Some && !names(
                old(self).active,
                command_id@,
            ) {
                None
            } else {
                old(self).active
            }),
    {
        if option_names(&self.suppressed_command_id, command_id) {
            self.suppressed_command_id = None;
        }
        if self.active.is_some() && !option_names(&self.active, command_id) {
            self.active = None;
        }
    }

    /// Whether the tooltip of `command_id` was dismissed.
    pub fn is_suppressed(&self, command_id: &str) -> (r: bool)
        ensures
            r == names(self.suppressed_command_id, command_id@),
    {
        option_names(&self.suppressed_command_id, command_id)
    }

    /// Records the tooltip now shown.
    pub fn register(&mut self, command_id: String)
        ensures
            final(self).active == Some(command_id),
            final(self).suppressed_command_id == old(self).suppressed_command_id,
    {
        self.active = Some(command_id);
    }

    /// Dismisses the tooltip of `command_id` until the pointer comes back;
    /// whether a tooltip was shown, which the caller then closes.
    pub fn dismiss(&mut self, command_id: &str) -> (was_active: bool)
        ensures
            was_active == old(self).active is Some,
            final(self).suppressed_command_id matches Some(x) && x@ == command_id@,
            final(self).active is None,
    {
        self.suppressed_command_id = Some(String::from_str(command_id));
        let was_active = self.active.is_some();
        self.active = None;
        was_active
    }
}

} // verus!
