//! View-management and navigation engine of a terminal viewer for tabular data.
//!
//! The dataset is held in memory as columns of display strings. Table views
//! project a row mapping of the dataset into a window; filtering stacks derived
//! views, and searching, sorting, the value histogram and the record inspector
//! work on the active view.

pub mod domain;
pub mod layout;
pub mod text;
pub mod inputter;
pub mod order;
pub mod column;
pub mod table_view;
pub mod search;
pub mod filter;
pub mod sort;
pub mod histogram;
pub mod scroll;
pub mod record;
pub mod clipboard;
pub mod table;
pub mod model;
pub mod engine;
pub mod controller;
