//! A scrollable, multi-column list renderer for a terminal history search UI.
//!
//! The crate owns two problems: deciding which contiguous window of a long
//! list is visible given a selection cursor and a persisted scroll offset
//! (`scroll`), and laying out each visible row as a sequence of styled text
//! fragments under a tight width budget (`layout`, `row`, `render`).

pub mod datetime;
pub mod item;
pub mod layout;
pub mod list;
pub mod render;
pub mod row;
pub mod scroll;
pub mod text;
pub mod theme;
pub mod words;

pub use item::HistoryItem;
pub use layout::{ColumnKind, ColumnSpec};
pub use list::{HistoryHighlighter, HistoryList, SearchEngine};
pub use scroll::ListState;
pub use theme::{Meaning, SelectionMode, Style, Theme, ThemeColor};
