//! Verified core logic of the NyaTerm terminal: title sanitising, shell
//! quoting, the settings document, the quick-command state machines, the
//! activity bars and context menu, and the remote file editor.

pub mod activity_bar;
pub mod activity_moves;
pub mod activity_selection;
pub mod category_dialogs;
pub mod ai_request;
pub mod command_catalog;
pub mod command_suggestions;
pub mod context_menu;
pub mod dynamic_title;
pub mod editor_buffer;
pub mod header_status;
pub mod panels;
pub mod quick_command;
pub mod quick_command_delete;
pub mod quick_command_state;
pub mod settings;
pub mod stats;
pub mod suggestion_keys;
pub mod suggestion_refresh;
pub mod reconnect_cwd;
pub mod text;
pub mod text_editor;
