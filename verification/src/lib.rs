//! A keyboard-driven editor for named tables, without its terminal: the
//! tables and their names, the focus with its overlays, the command that
//! waits for its text, and the steps that requests take the application
//! through. Every operation is stated over plain-data models and proved.

pub mod app;
pub mod command;
pub mod csv_codec;
pub mod display_focus;
pub mod error;
pub mod error_popup;
pub mod file_list;
pub mod message;
pub mod table_selector;
pub mod table_view;
pub mod text;
pub mod update;
