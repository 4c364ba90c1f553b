//! Low-level primitives shared across terminal UI components.

pub mod chars;
pub mod geom;
pub mod path;
pub mod scrollbar;
pub mod strings;
pub mod text;
