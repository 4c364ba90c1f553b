//! A wizard: a list of items, and a flow of steps that creates or edits
//! one of them.

pub mod framework;
pub mod layout;
pub mod model;
pub mod steps;
pub mod view;
