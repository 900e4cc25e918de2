//! The panels, popups and text fields of the interface.

pub mod capture_popup;
pub mod capture_view;
pub mod command_picker;
pub mod file_panel;
pub mod file_view;
pub mod help_panel;
pub mod input_box;
pub mod pinned_panel;
pub mod search_box;
pub mod target_bar;
