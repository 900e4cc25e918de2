use vstd::prelude::*;

use crate::message::NavOp;
use crate::text::push_char;
use crate::ui::file_panel::{step_down, step_up};
use crate::ui::input_box;

verus! {

/// `s` cut to at most `max` characters; a cut text ends in an ellipsis
/// unless there is room for only one character or none.
pub open spec fn truncate_spec(s: Seq<char>, max: nat) -> Seq<char> {
    if s.len() <= max {
        s
    } else if max <= 1 {
        s.take(max as int)
    } else {
        s.take(max - 1).push('\u{2026}')
    }
}

/// Cut `s` to `max` characters for a column of the preset list.
pub fn truncate(s: &str, max: usize) -> (out: String)
    ensures
        out@ == truncate_spec(s@, max as nat),
{
    let len = s.unicode_len();
    if len <= max {
        String::from_str(s)
    } else if max <= 1 {
        String::from_str(s.substring_char(0, max))
    } else {
        let mut out = String::from_str(s.substring_char(0, max - 1));
        push_char(&mut out, '\u{2026}');
        out
    }
}

/// Where a preset command's output goes.
#[derive(Clone, Copy, PartialEq, Eq, Debug, Structural)]
pub enum OutputMode {
    /// Started and left to run; its output is dropped.
    Background,
    /// Run in the terminal, with the interface suspended until it ends.
    Block,
    /// Run out of sight, its output shown in the capture view afterwards.
    Capture,
}

/// A user-defined command, as the picker lists it.
pub struct Preset {
    pub label: String,
    /// The key that runs it straight from the list, if it has one.
    pub shortcut: Option<char>,
    /// Its template asks for a value the picker prompts for first.
    pub needs_input: bool,
    /// Its template names the selected files, so it needs some.
    pub references_files: bool,
    pub output: OutputMode,
}

/// The preset list popup: the presets, the highlighted one, and the prompt
/// for a value while one is asked for.
pub struct CommandPicker {
    pub presets: Vec<Preset>,
    pub selection: usize,
    pub input: Option<input_box::Model>,
}

/// The first preset at or after `from` bound to the key `c`, or -1.
pub open spec fn shortcut_pos(presets: Seq<Preset>, c: char, from: int) -> int
    decreases presets.len() - from,
{
    if from < 0 || from >= presets.len() {
        -1
    } else if presets[from].shortcut == Some(c) {
        from
    } else {
        shortcut_pos(presets, c, from + 1)
    }
}

/// The highlight after `op` in the list: up and down a row, stopping at the
/// ends; it stays while the prompt is up or the list is empty, and the list
/// neither pages nor marks.
pub open spec fn picker_moved(p: CommandPicker, op: NavOp) -> int {
    if p.input is None && p.presets@.len() > 0 {
        match op {
            NavOp::Up => step_up(p.selection as int),
            NavOp::Down => step_down(p.selection as int, p.presets@.len() as int),
            _ => p.selection as int,
        }
    } else {
        p.selection as int
    }
}

impl CommandPicker {
    /// The prompt's cursor, when the prompt is up, lies inside its text.
    pub open spec fn wf(&self) -> bool {
        self.input matches Some(f) ==> f.wf()
    }

    /// The list of `presets`, the first highlighted, no prompt.
    pub fn new(presets: Vec<Preset>) -> (p: Self)
        ensures
            p.presets == presets,
            p.selection == 0,
            p.input is None,
    {
        CommandPicker { presets, selection: 0, input: None }
    }

    /// The first preset bound to the key `c`.
    pub fn shortcut_index(&self, c: char) -> (i: Option<usize>)
        ensures
            match i {
                Some(k) => shortcut_pos(self.presets@, c, 0) == k,
                None => shortcut_pos(self.presets@, c, 0) == -1,
            },
    {
        let mut k: usize = 0;
        while k < self.presets.len()
            invariant
                k <= self.presets@.len(),
                shortcut_pos(self.presets@, c, 0) == shortcut_pos(self.presets@, c, k as int),
            decreases self.presets@.len() - k,
        {
            if self.presets[k].shortcut == Some(c) {
                return Some(k);
            }
            k = k + 1;
        }
        None
    }

    /// Move the highlight by one key.
    pub fn move_selection(&mut self, op: NavOp)
        ensures
            final(self).selection == picker_moved(*old(self), op),
            *final(self) == (CommandPicker { selection: final(self).selection, ..*old(self) }),
    {
        let n = self.presets.len();
        if self.input.is_none() && n > 0 {
            match op {
                NavOp::Up => self.selection = self.selection.saturating_sub(1),
                NavOp::Down => {
                    self.selection = if self.selection < n - 1 { self.selection + 1 } else { n - 1 };
                },
                _ => {},
            }
        }
    }
}

} // verus!
