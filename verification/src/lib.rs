//! Selection engine of an incremental tab and pane picker.
//!
//! The user types a query; tabs and, inside the chosen tab, panes are narrowed
//! by fuzzy matching of their labels against it, and a cursor moves through
//! what is left until one item is confirmed.

pub mod cursor;
pub mod frame;
pub mod input;
pub mod item;
pub mod laws;
pub mod panes;
pub mod ranker;
pub mod selector;
pub mod tabs;
