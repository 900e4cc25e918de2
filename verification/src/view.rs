//! What the screen shows for a given state: which hint line, which popups and
//! in what order, and the texts they are built from. Drawing them is left to
//! the caller.
use vstd::prelude::*;

use crate::text::{decimal, decimal_spec};
use crate::ui::file_panel;
use crate::update::{ActivePanel, Model, TransferMode, TransferOp, TransferProgress};

verus! {

/// The hint line at the bottom of the screen.
#[derive(Clone, Copy, PartialEq, Eq, Debug, Structural)]
pub enum Hints {
    /// The viewer has the keys.
    FileView,
    /// Captured command output is shown.
    Capture,
    /// The preset list is up; the flag says whether it is asking for a value.
    Picker(bool),
    /// The overwrite prompt is up.
    Overwrite,
    /// A result popup is up; the flag says whether its query row has the keys.
    Search(bool),
    /// An error is shown.
    Error,
    /// The name dialog is up.
    Rename,
    /// The help is up.
    Help,
    /// The "go to" field is open.
    Goto,
    /// A delete is waiting for confirmation.
    Delete,
    /// The "new path" field is open.
    NewPath,
    /// The filter bar has the keys; the flag says whether Shift is held.
    Filter(bool),
    /// A filter is locked in; the flag says whether Shift is held.
    FilterLocked(bool),
    /// The destination of a copy is being picked.
    CopyHere,
    /// The destination of a move is being picked.
    MoveHere,
    /// The pinned popup has the keys.
    Pinned,
    /// The plain command set; the flag says whether Shift is held, which shows
    /// the shifted commands instead.
    Normal(bool),
}

/// The hints for the active file panel's own prompts and filter, if one is up.
pub open spec fn panel_hints_spec(m: Model) -> Option<Hints> {
    if m.active_panel is Pinned {
        None
    } else {
        let p = if m.active_panel is LeftFiles { m.left_files } else { m.right_files };
        if p.goto_input.active {
            Some(Hints::Goto)
        } else if p.delete_confirm {
            Some(Hints::Delete)
        } else if p.new_path_input.active {
            Some(Hints::NewPath)
        } else if p.search.active {
            Some(Hints::Filter(m.shift_held))
        } else if p.search.text@.len() != 0 {
            Some(Hints::FilterLocked(m.shift_held))
        } else {
            None
        }
    }
}

/// The hint line for a state: the topmost thing that has the keys decides.
pub open spec fn hints_spec(m: Model) -> Hints {
    if m.file_view is Some && m.file_view_focused {
        Hints::FileView
    } else if m.capture_view is Some {
        Hints::Capture
    } else if m.command_picker is Some {
        Hints::Picker(m.command_picker->0.input is Some)
    } else if m.pending_overwrite is Some {
        Hints::Overwrite
    } else if m.content_search is Some {
        Hints::Search(m.content_search->0.input_focused)
    } else if m.file_find is Some {
        Hints::Search(m.file_find->0.input_focused)
    } else if m.error_message is Some {
        Hints::Error
    } else if m.rename_input.active {
        Hints::Rename
    } else if m.show_help {
        Hints::Help
    } else if panel_hints_spec(m) is Some {
        panel_hints_spec(m)->0
    } else if m.transfer_mode.copies() {
        Hints::CopyHere
    } else if m.transfer_mode.moves() {
        Hints::MoveHere
    } else if m.active_panel is Pinned {
        Hints::Pinned
    } else {
        Hints::Normal(m.shift_held)
    }
}

fn active_panel_hints(model: &Model) -> (h: Option<Hints>)
    ensures
        h == panel_hints_spec(*model),
{
    let panel = match model.active_panel {
        ActivePanel::LeftFiles => &model.left_files,
        ActivePanel::RightFiles => &model.right_files,
        ActivePanel::Pinned => return None,
    };
    if panel.goto_input.active {
        Some(Hints::Goto)
    } else if panel.delete_confirm {
        Some(Hints::Delete)
    } else if panel.new_path_input.active {
        Some(Hints::NewPath)
    } else if panel.search.active {
        Some(Hints::Filter(model.shift_held))
    } else if !panel.search.text.as_str().is_empty() {
        Some(Hints::FilterLocked(model.shift_held))
    } else {
        None
    }
}

/// Which hint line to show.
pub fn hint_line(model: &Model) -> (h: Hints)
    ensures
        h == hints_spec(*model),
{
    if model.file_view.is_some() && model.file_view_focused {
        return Hints::FileView;
    }
    if model.capture_view.is_some() {
        return Hints::Capture;
    }
    match &model.command_picker {
        Some(cp) => return Hints::Picker(cp.input.is_some()),
        None => {},
    }
    if model.pending_overwrite.is_some() {
        return Hints::Overwrite;
    }
    match &model.content_search {
        Some(cs) => return Hints::Search(cs.input_focused),
        None => {},
    }
    match &model.file_find {
        Some(ff) => return Hints::Search(ff.input_focused),
        None => {},
    }
    if model.error_message.is_some() {
        Hints::Error
    } else if model.rename_input.active {
        Hints::Rename
    } else if model.show_help {
        Hints::Help
    } else {
        match active_panel_hints(model) {
            Some(h) => h,
            None => {
                if model.transfer_mode.is_copy() {
                    Hints::CopyHere
                } else if model.transfer_mode.is_move() {
                    Hints::MoveHere
                } else if model.active_panel == ActivePanel::Pinned {
                    Hints::Pinned
                } else {
                    Hints::Normal(model.shift_held)
                }
            },
        }
    }
}

/// Whether the screen shows both file panels side by side: while a copy or
/// move picks its destination, once any new name has been typed. Otherwise
/// the left panel has the screen to itself.
pub fn shows_both_panels(model: &Model) -> (b: bool)
    ensures
        b == ((model.transfer_mode.copies() || model.transfer_mode.moves()) && !model.rename_input.active),
{
    (model.transfer_mode.is_copy() || model.transfer_mode.is_move()) && !model.rename_input.active
}

/// A popup drawn over the panels.
#[derive(Clone, Copy, PartialEq, Eq, Debug, Structural)]
pub enum Overlay {
    PinnedPanel,
    NewPathInput,
    GotoInput,
    RenameDialog,
    Help,
    Progress,
    ContentSearch,
    FileFind,
    CommandPicker,
    OverwritePrompt,
    Error,
    DeletePrompt,
}

/// `o` when `cond` holds, nothing otherwise.
pub open spec fn shown_if(cond: bool, o: Overlay) -> Seq<Overlay> {
    if cond { seq![o] } else { Seq::empty() }
}

/// The popups a state shows, bottom to top.
pub open spec fn overlays_spec(m: Model) -> Seq<Overlay> {
    let panel = if m.active_panel is LeftFiles {
        Some(m.left_files)
    } else if m.active_panel is RightFiles {
        Some(m.right_files)
    } else {
        None
    };
    shown_if(m.active_panel is Pinned, Overlay::PinnedPanel) + shown_if(
        panel is Some && panel->0.new_path_input.active,
        Overlay::NewPathInput,
    ) + shown_if(panel is Some && panel->0.goto_input.active, Overlay::GotoInput) + shown_if(
        m.rename_input.active,
        Overlay::RenameDialog,
    ) + shown_if(m.show_help, Overlay::Help) + shown_if(m.progress is Some, Overlay::Progress)
        + shown_if(m.content_search is Some, Overlay::ContentSearch) + shown_if(
        m.file_find is Some,
        Overlay::FileFind,
    ) + shown_if(m.command_picker is Some, Overlay::CommandPicker) + shown_if(
        m.pending_overwrite is Some,
        Overlay::OverwritePrompt,
    ) + shown_if(
        m.error_message is Some,
        Overlay::Error,
    ) + shown_if(panel is Some && panel->0.delete_confirm, Overlay::DeletePrompt)
}

fn push_if(v: &mut Vec<Overlay>, cond: bool, o: Overlay)
    ensures
        final(v)@ == old(v)@ + shown_if(cond, o),
{
    if cond {
        v.push(o);
    }
    assert(final(v)@ =~= old(v)@ + shown_if(cond, o));
}

/// The popups to draw over the panels, bottom to top.
pub fn overlays(model: &Model) -> (v: Vec<Overlay>)
    ensures
        v@ == overlays_spec(*model),
{
    let panel = match model.active_panel {
        ActivePanel::LeftFiles => Some(&model.left_files),
        ActivePanel::RightFiles => Some(&model.right_files),
        ActivePanel::Pinned => None,
    };
    let (new_path, goto, delete) = match panel {
        Some(p) => (p.new_path_input.active, p.goto_input.active, p.delete_confirm),
        None => (false, false, false),
    };
    let mut v: Vec<Overlay> = Vec::new();
    push_if(&mut v, model.active_panel == ActivePanel::Pinned, Overlay::PinnedPanel);
    push_if(&mut v, new_path, Overlay::NewPathInput);
    push_if(&mut v, goto, Overlay::GotoInput);
    push_if(&mut v, model.rename_input.active, Overlay::RenameDialog);
    push_if(&mut v, model.show_help, Overlay::Help);
    push_if(&mut v, model.progress.is_some(), Overlay::Progress);
    push_if(&mut v, model.content_search.is_some(), Overlay::ContentSearch);
    push_if(&mut v, model.file_find.is_some(), Overlay::FileFind);
    push_if(&mut v, model.command_picker.is_some(), Overlay::CommandPicker);
    push_if(&mut v, model.pending_overwrite.is_some(), Overlay::OverwritePrompt);
    push_if(&mut v, model.error_message.is_some(), Overlay::Error);
    push_if(&mut v, delete, Overlay::DeletePrompt);
    assert(v@ =~= overlays_spec(*model));
    v
}

/// The title of the name dialog for a transfer mode.
pub open spec fn rename_title_spec(mode: TransferMode) -> Seq<char> {
    if mode.copies() {
        "Copy with rename"@
    } else if mode.moves() {
        "Move with rename"@
    } else {
        "Rename"@
    }
}

/// The title of the name dialog.
pub fn rename_title(mode: TransferMode) -> (t: &'static str)
    ensures
        t@ == rename_title_spec(mode),
{
    if mode.is_copy() {
        "Copy with rename"
    } else if mode.is_move() {
        "Move with rename"
    } else {
        "Rename"
    }
}

/// The overwrite prompt: the one name, or how many names, a transfer would
/// replace.
pub open spec fn overwrite_message_spec(conflicts: Seq<String>) -> Seq<char> {
    if conflicts.len() == 1 {
        "Overwrite '"@ + conflicts[0]@ + "'?"@
    } else {
        "Overwrite "@ + decimal_spec(conflicts.len()) + " existing items?"@
    }
}

/// The text of the overwrite prompt.
pub fn overwrite_message(conflicts: &Vec<String>) -> (s: String)
    ensures
        s@ == overwrite_message_spec(conflicts@),
{
    if conflicts.len() == 1 {
        let mut s = String::from_str("Overwrite '");
        s.append(conflicts[0].as_str());
        s.append("'?");
        s
    } else {
        let mut s = String::from_str("Overwrite ");
        s.append(decimal(conflicts.len() as u64).as_str());
        s.append(" existing items?");
        s
    }
}

/// The delete prompt: the one name, or how many entries, a delete removes.
pub open spec fn delete_message_spec(targets: Seq<file_panel::DeleteTarget>) -> Seq<char> {
    if targets.len() == 1 {
        "Delete '"@ + targets[0].name@ + "'?"@
    } else {
        "Delete "@ + decimal_spec(targets.len()) + " items?"@
    }
}

/// The text of the delete prompt.
pub fn delete_message(targets: &Vec<file_panel::DeleteTarget>) -> (s: String)
    ensures
        s@ == delete_message_spec(targets@),
{
    if targets.len() == 1 {
        let mut s = String::from_str("Delete '");
        s.append(targets[0].name.as_str());
        s.append("'?");
        s
    } else {
        let mut s = String::from_str("Delete ");
        s.append(decimal(targets.len() as u64).as_str());
        s.append(" items?");
        s
    }
}

/// The title of the progress popup.
pub open spec fn progress_title_spec(op: TransferOp) -> Seq<char> {
    match op {
        TransferOp::Copy => " Copying "@,
        TransferOp::Move => " Moving "@,
        TransferOp::Delete => " Deleting "@,
    }
}

/// The title of the progress popup.
pub fn progress_title(op: TransferOp) -> (t: &'static str)
    ensures
        t@ == progress_title_spec(op),
{
    match op {
        TransferOp::Copy => " Copying ",
        TransferOp::Move => " Moving ",
        TransferOp::Delete => " Deleting ",
    }
}

/// The count shown in the progress bar: done so far, and the total.
pub fn progress_label(progress: &TransferProgress) -> (s: String)
    ensures
        s@ == decimal_spec(progress.current as nat) + " / "@ + decimal_spec(progress.total as nat),
{
    let mut s = decimal(progress.current);
    s.append(" / ");
    s.append(decimal(progress.total).as_str());
    s
}

/// The note in a result popup's bottom border: that the index is still being
/// built, nothing while there is no query, or the number of results and
/// whether the search is still running.
pub open spec fn match_label_spec(indexing: bool, query_empty: bool, done: bool, count: nat) -> Seq<char> {
    if indexing {
        " indexing\u{2026}  "@
    } else if query_empty {
        Seq::empty()
    } else if done {
        " "@ + decimal_spec(count) + " matches  "@
    } else {
        " "@ + decimal_spec(count) + " matches  searching\u{2026}  "@
    }
}

/// The note in a result popup's bottom border.
pub fn match_label(panel: &crate::update::ResultPanel) -> (s: String)
    ensures
        s@ == match_label_spec(
            panel.indexing,
            panel.query.text@.len() == 0,
            panel.done,
            panel.results@.len(),
        ),
{
    if panel.indexing {
        return String::from_str(" indexing\u{2026}  ");
    }
    if panel.query.text.as_str().is_empty() {
        return String::new();
    }
    let mut s = String::from_str(" ");
    s.append(decimal(panel.results.len() as u64).as_str());
    if panel.done {
        s.append(" matches  ");
    } else {
        s.append(" matches  searching\u{2026}  ");
    }
    s
}

/// Columns given to the mask field of a result popup's query row, label
/// included; a narrow row gives it a third of the width instead.
pub const MASK_WIDTH: u16 = 28;

/// Below this the query row shows the query alone.
pub const MIN_SPLIT_WIDTH: u16 = 60;

/// How a query row `width` columns wide is split: the mask's width, or `None`
/// when the row is too narrow to show the mask at all.
pub fn mask_width(width: u16) -> (w: Option<u16>)
    ensures
        w == (if width < MIN_SPLIT_WIDTH {
            None
        } else if MASK_WIDTH <= width / 3 {
            Some(MASK_WIDTH)
        } else {
            Some((width / 3) as u16)
        }),
{
    if width < MIN_SPLIT_WIDTH {
        return None;
    }
    let third = width / 3;
    Some(if MASK_WIDTH <= third { MASK_WIDTH } else { third })
}

} // verus!
