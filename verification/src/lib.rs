//! A reference table of keyboard shortcuts for a tiling window manager,
//! grouped by category and narrowed by a search text.
//!
//! The table is fixed. What is shown of it for a search text is computed
//! anew on every change: for each category in display order the shortcuts
//! that match, categories without a match left out.

pub mod catalog;
pub mod chord;
pub mod color;
pub mod grouping;
pub mod keybindings;
pub mod laws;
pub mod search;
pub mod seq_facts;
pub mod text;
pub mod ui;
