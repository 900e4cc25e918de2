use vstd::prelude::*;

use crate::message::Message;
use crate::ui::file_panel::{step_down, step_up};

verus! {

/// The pinned-directory popup: the pinned directories and the highlighted one.
pub struct Model {
    pub pins: Vec<String>,
    pub selection: usize,
}

impl Model {
    /// No pins, cursor at the top.
    pub fn new() -> (m: Self)
        ensures
            m.pins@.len() == 0,
            m.selection == 0,
    {
        Self { pins: Vec::new(), selection: 0 }
    }

    /// Number of pinned directories.
    pub fn pin_count(&self) -> (n: usize)
        ensures
            n == self.pins@.len(),
    {
        self.pins.len()
    }
}

/// Where the highlight goes in a list of `count` pins on `msg`: up and down
/// one step, stopping at either end; other messages leave it where it is.
pub open spec fn moved(selection: int, count: int, msg: Message) -> int {
    match msg {
        Message::SelectUp => step_up(selection),
        Message::SelectDown => step_down(selection, count),
        _ => selection,
    }
}

/// Move the highlight through the pins; other messages leave the panel alone.
pub fn update(mut model: Model, msg: Message) -> (m: Model)
    ensures
        m.pins == model.pins,
        m.selection == moved(model.selection as int, model.pins@.len() as int, msg),
{
    match msg {
        Message::SelectUp => {
            model.selection = model.selection.saturating_sub(1);
        },
        Message::SelectDown => {
            let count = model.pin_count();
            if count > 0 {
                model.selection = if model.selection < count - 1 {
                    model.selection + 1
                } else {
                    count - 1
                };
            }
        },
        _ => {},
    }
    model
}

} // verus!
