//! Building blocks for terminal user interfaces: text wrapping and cursor
//! mapping, list viewports, scrollbar geometry and the rectangle arithmetic
//! that dialogs and inputs are laid out with.
//!
//! Everything here computes on plain values. Painting a frame and reading
//! events is left to the program that embeds the kit.

pub mod components;
pub mod layout;
pub mod primitives;
pub mod runtime;
pub mod theme;
pub mod wizard;
