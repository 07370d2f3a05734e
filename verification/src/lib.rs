//! Compares two `KEY=VALUE` files and describes the interactive view of their differences.

pub mod differ;
pub mod file_loader;
pub mod kv_map;
pub mod layout;
pub mod text;
pub mod tui;
pub mod viewer;
