//! Messages that ask for a confirmation and carry the answer, and focus changes.
pub mod confirm_actions;
pub mod confirm_delete_project;
pub mod focus_messages;
