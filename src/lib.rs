//! A keyboard-driven todo list: the list model, the modal key dispatch that
//! edits it, and the decisions around where and how the list is persisted.

pub mod todo;
pub mod keys;
pub mod editor;
pub mod storage;
pub mod app;
pub mod events;
