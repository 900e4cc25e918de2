//! Verified core of a keyboard-driven two-panel file manager: the state
//! machines behind its panels, text fields and searches, and the text layout
//! decisions its widgets draw.

pub mod message;
pub mod paths;
pub mod text;
pub mod view_search;
pub mod ui;
pub mod update;
pub mod view;
