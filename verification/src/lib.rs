//! Renders a one-line summary of a working tree for a shell prompt.

pub mod arguments;
pub mod color;
pub mod command_line;
pub mod options;
pub mod render;
pub mod repository;
pub mod status;
pub mod text;
