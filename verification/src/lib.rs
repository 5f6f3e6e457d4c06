//! Editing core of a terminal text editor: a mutable character buffer with
//! line-aware queries and word-boundary scanning, and a cursor that keeps a
//! linear buffer position synchronized with a two-dimensional screen
//! coordinate under every edit and movement command.

pub mod buffer;
pub mod cursor;
pub mod editor;
mod rope;
pub mod text;
