//! The application settings document and the summary read from it.

pub mod json;
pub mod normalize;
pub mod recording;
pub mod links;
pub mod summary;
pub mod write;
pub mod store;
pub mod encode;
pub mod save;
pub mod read_back;
pub mod restore;
pub mod appearance;
pub mod read_back_recording;
pub mod read_back_transfer;
pub mod read_back_interaction;
pub mod read_back_terminal;
pub mod read_back_ui_layout;
pub mod read_back_appearance;
