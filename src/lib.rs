//! Core of a terminal text editor: the line-based text buffer, the viewport
//! that follows its cursor, and the key dispatch that ties them together.

pub mod buffer;
pub mod editor;
pub mod lemmas;
pub mod text;
pub mod viewport;
