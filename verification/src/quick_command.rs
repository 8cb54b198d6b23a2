//! Quick commands, their categories, the editor draft and the catalog that
//! owns them.

use vstd::prelude::*;

use crate::text::{chars_of, spec_trim, trim};

verus! {

/// A saved command that can be sent to a terminal.
pub struct QuickCommand {
    pub id: String,
    pub label: String,
    pub command: String,
    pub category_id: Option<String>,
    pub description: Option<String>,
    pub color_tag: Option<String>,
    pub icon_tag: Option<String>,
    pub pinned: Option<bool>,
    pub execution_mode: Option<String>,
    pub source: Option<String>,
    pub risk_level: Option<String>,
    pub updated_at: Option<i64>,
    pub created_at: Option<i64>,
    pub use_count: Option<u32>,
    pub sort_order: Option<i32>,
}

/// A folder that groups quick commands; `parent_id` nests it.
pub struct QuickCommandCategory {
    pub id: String,
    pub name: String,
    pub parent_id: Option<String>,
    pub sort_order: i32,
}

/// The editor field that has the focus or that an error belongs to.
#[derive(Clone, Copy, Debug, PartialEq, Eq, Structural)]
pub enum QuickCommandEditorField {
    Label,
    Command,
    Category,
    Description,
}

/// The draft that the quick command editor works on.
pub struct QuickCommandEditorState {
    pub original: Option<QuickCommand>,
    pub focused_field: QuickCommandEditorField,
    pub label: String,
    pub command: String,
    pub category_id: Option<String>,
    pub category_draft: String,
    pub description: String,
    pub color_tag: Option<String>,
    pub icon_tag: Option<String>,
    pub pinned: bool,
    pub execution_mode: String,
    pub error: Option<String>,
    /// Which field the error belongs to. `None` is a general error, which the
    /// dialog shows in its own box instead of beside a caption.
    pub error_field: Option<QuickCommandEditorField>,
}

/// A copy of an optional string.
pub fn clone_opt_string(s: &Option<String>) -> (r: Option<String>)
    ensures
        r == *s,
{
    match s {
        Some(v) => Some(v.clone()),
        None => None,
    }
}

/// The execution mode that a new draft starts with.
pub open spec fn spec_default_execution_mode() -> Seq<char> {
    seq!['e', 'x', 'e', 'c', 'u', 't', 'e']
}

/// The execution mode `execute` as a string.
pub fn execute_mode() -> (r: String)
    ensures
        r@ == spec_default_execution_mode(),
{
    let mut s = String::new();
    s.push('e');
    s.push('x');
    s.push('e');
    s.push('c');
    s.push('u');
    s.push('t');
    s.push('e');
    s
}

/// The execution mode `append` as a string.
pub fn append_mode() -> (r: String)
    ensures
        r@ == seq!['a', 'p', 'p', 'e', 'n', 'd'],
{
    let mut s = String::new();
    s.push('a');
    s.push('p');
    s.push('p');
    s.push('e');
    s.push('n');
    s.push('d');
    s
}

impl QuickCommandEditorState {
    /// A fresh draft: no text, no category, no tags, label focused, in
    /// `execute` mode, with no error.
    pub open spec fn spec_is_blank(self) -> bool {
        &&& self.spec_has_blank_details()
        &&& self.focused_field == QuickCommandEditorField::Label
        &&& self.command@.len() == 0
        &&& self.category_id is None
    }

    /// Everything but the focus, the command text and the category is as in a
    /// fresh draft.
    pub open spec fn spec_has_blank_details(self) -> bool {
        &&& self.original is None
        &&& self.label@.len() == 0
        &&& self.category_draft@.len() == 0
        &&& self.description@.len() == 0
        &&& self.color_tag is None
        &&& self.icon_tag is None
        &&& !self.pinned
        &&& self.execution_mode@ == spec_default_execution_mode()
        &&& self.error is None
        &&& self.error_field is None
    }

    /// An empty draft for a new command.
    pub fn blank() -> (r: Self)
        ensures
            r.spec_is_blank(),
    {
        QuickCommandEditorState {
            original: None,
            focused_field: QuickCommandEditorField::Label,
            label: String::new(),
            command: String::new(),
            category_id: None,
            category_draft: String::new(),
            description: String::new(),
            color_tag: None,
            icon_tag: None,
            pinned: false,
            execution_mode: execute_mode(),
            error: None,
            error_field: None,
        }
    }

    /// `blank()` seeded with a category, for "add command" on a group row. An id
    /// that no longer resolves is dropped so the editor opens uncategorized rather
    /// than holding a dangling reference.
    pub fn blank_in_category(category_id: Option<String>, categories: &[QuickCommandCategory]) -> (r:
        Self)
        ensures
            ({
                let blank = r.category_id is None;
                &&& r.spec_has_blank_details()
                &&& r.focused_field == QuickCommandEditorField::Label
                &&& r.command@.len() == 0
                &&& match category_id {
                    Some(id) => if exists|i: int|
                        0 <= i < categories@.len() && (#[trigger] categories@[i]).id@ == id@ {
                        r.category_id == Some(id)
                    } else {
                        blank
                    },
                    None => blank,
                }
            }),
    {
        let mut keep: Option<String> = None;
        if let Some(id) = category_id {
            let mut i: usize = 0;
            let mut found = false;
            while i < categories.len()
                invariant
                    i <= categories@.len(),
                    found <==> exists|j: int|
                        0 <= j < i && (#[trigger] categories@[j]).id@ == id@,
                decreases categories@.len() - i,
            {
                if categories[i].id == id {
                    found = true;
                }
                i += 1;
            }
            if found {
                keep = Some(id);
            }
        }
        let blank = Self::blank();
        QuickCommandEditorState { category_id: keep, ..blank }
    }

    /// A draft for a terminal selection: the selection becomes the command,
    /// exactly as selected, and the command field takes the focus.
    pub fn from_terminal_selection(command: String) -> (r: Self)
        ensures
            r.command == command,
            r.focused_field == QuickCommandEditorField::Command,
            r.category_id is None,
            r.spec_has_blank_details(),
    {
        let blank = Self::blank();
        QuickCommandEditorState { focused_field: QuickCommandEditorField::Command, command, ..blank }
    }

    /// A draft that edits `command`: its fields are copied, a missing
    /// description becomes empty, a missing pinned flag false and a missing
    /// mode `execute`; the command itself is kept as the original.
    pub fn from_command(command: QuickCommand) -> (r: Self)
        ensures
            r.focused_field == QuickCommandEditorField::Label,
            r.label == command.label,
            r.command == command.command,
            r.category_id == command.category_id,
            r.category_draft@.len() == 0,
            match command.description {
                Some(d) => r.description == d,
                None => r.description@.len() == 0,
            },
            r.color_tag == command.color_tag,
            r.icon_tag == command.icon_tag,
            r.pinned == (command.pinned == Some(true)),
            match command.execution_mode {
                Some(m) => r.execution_mode == m,
                None => r.execution_mode@ == spec_default_execution_mode(),
            },
            r.error is None,
            r.error_field is None,
            r.original == Some(command),
    {
        let label = command.label.clone();
        let text = command.command.clone();
        let category_id = clone_opt_string(&command.category_id);
        let description = match &command.description {
            Some(d) => d.clone(),
            None => String::new(),
        };
        let color_tag = clone_opt_string(&command.color_tag);
        let icon_tag = clone_opt_string(&command.icon_tag);
        let pinned = match command.pinned {
            Some(p) => p,
            None => false,
        };
        let execution_mode = match &command.execution_mode {
            Some(m) => m.clone(),
            None => execute_mode(),
        };
        QuickCommandEditorState {
            focused_field: QuickCommandEditorField::Label,
            label,
            command: text,
            category_id,
            category_draft: String::new(),
            description,
            color_tag,
            icon_tag,
            pinned,
            execution_mode,
            error: None,
            error_field: None,
            original: Some(command),
        }
    }
}

/// The text that the copy button of a quick command puts on the
/// clipboard: the command as it is, or `None` when it is blank.
pub fn quick_command_text_to_copy(command: String) -> (r: Option<String>)
    ensures
        match r {
            Some(t) => t@ == command@ && spec_trim(command@).len() > 0,
            None => spec_trim(command@).len() == 0,
        },
{
    if chars_of(trim(command.as_str()).as_str()).len() == 0 {
        None
    } else {
        Some(command)
    }
}

} // verus!
