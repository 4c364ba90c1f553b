//! Reusable terminal UI components: their state and their geometry.

pub mod component;
pub mod dialog_shell;
pub mod dropdown;
pub mod help_bar;
pub mod input_box;
pub mod key_hints;
pub mod lines_viewport;
pub mod list;
pub mod list_items;
pub mod overlay_dialog;
pub mod picker;
pub mod picker_dialog;
pub mod tabbed_dialog;
pub mod tabbed_prompt_dialog;
pub mod text_area;
pub mod text_input;
