//! The interactive core of a keyboard-driven task manager: the task and list
//! model, cursor navigation over tasks and sub-tasks, the modal popups that
//! mediate every edit, and the command language.

pub mod app;
pub mod changes;
pub mod command;
pub mod compare;
pub mod date;
pub mod key;
pub mod popup;
pub mod quick_date;
pub mod rows;
pub mod tabs;
pub mod task;
pub mod text;
pub mod widgets;
