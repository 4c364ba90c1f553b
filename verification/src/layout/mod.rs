//! Text layout helpers.

pub mod branding;
pub mod fuzzy;
pub mod picker_kit;
pub mod section_stack;
pub mod text;
pub mod visual;
