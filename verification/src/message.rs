//! What a key press, or a finished background job, asks the interface to do.
use vstd::prelude::*;

use crate::ui::input_box::EditOp;

verus! {

/// Which of the two result popups a message is for.
#[derive(Clone, Copy, PartialEq, Eq, Debug, Structural)]
pub enum SearchKind {
    /// Searching file contents.
    Content,
    /// Finding files by name.
    Files,
}

/// A list or popup that moves by lines and pages.
#[derive(Clone, Copy, PartialEq, Eq, Debug, Structural)]
pub enum Surface {
    Help,
    Search(SearchKind),
    /// The preset command list.
    CommandPicker,
    /// The captured output of a command.
    Capture,
    /// The viewer panel.
    FileView,
}

/// A movement key.
#[derive(Clone, Copy, PartialEq, Eq, Debug, Structural)]
pub enum NavOp {
    Up,
    Down,
    PageUp,
    PageDown,
    MarkUp,
    MarkDown,
}

/// A text field outside the file panels.
#[derive(Clone, Copy, PartialEq, Eq, Debug, Structural)]
pub enum Field {
    /// The name typed for a rename, or for a copy or move that renames.
    Rename,
    /// The query row of a result popup.
    SearchQuery(SearchKind),
    /// The value a preset command asks for.
    CommandInput,
}

/// A request to a file panel, the pinned-directory panel or the whole
/// interface.
#[derive(Clone, Copy, PartialEq, Eq, Debug)]
pub enum Message {
    // The filter bar above a file panel.
    EnterFilter,
    FilterChar(char),
    FilterBackspace,
    ConfirmFilter,
    ExitFilter,
    // The "new file or directory" field.
    NewPath,
    NewPathChar(char),
    NewPathBackspace,
    NewPathCursorLeft,
    NewPathCursorRight,
    NewPathCancel,
    NewPathConfirm,
    // The "go to path" field.
    GotoPath,
    GotoPathChar(char),
    GotoPathBackspace,
    GotoPathCursorLeft,
    GotoPathCursorRight,
    GotoPathCancel,
    GotoPathConfirm,
    // Deleting the selection.
    DeleteFiles,
    DeleteCancel,
    DeleteConfirm,
    // Moving through and marking the listing.
    SelectUp,
    SelectDown,
    MarkSelectUp,
    MarkSelectDown,
    ClearSelection,
    CycleSort,
    // Archives.
    ZipFiles,
    UnzipFile,
    // Walking the tree.
    DirUp,
    DirEnter,
    // The whole interface.
    Quit,
    NextPanel,
    PrevPanel,
    TogglePinnedPanel,
    PinCurrentDir,
    DeletePinnedDir,
    SelectPinnedDir,
    ToggleHelp,
    Nav(Surface, NavOp),
    SetShiftHeld(bool),
    OpenEditor,
    OpenDefault,
    StartCopy,
    StartCopyRename,
    CancelCopy,
    ConfirmCopy,
    StartMove,
    StartMoveRename,
    CancelMove,
    ConfirmMove,
    RenameInPlace,
    ConfirmRename,
    Cancel(Field),
    Edit(Field, EditOp),
    ProgressTick { current: u64, total: u64 },
    ProgressDone,
    OverwriteConfirm,
    OverwriteCancel,
    DismissError,
    SearchOpen(SearchKind),
    SearchToggleFocus(SearchKind),
    Close(Surface),
    SearchConfirm(SearchKind),
    // Preset commands.
    OpenCommandPicker,
    CommandPickerConfirm,
    CommandPickerShortcut(char),
    CommandInputConfirm,
    // The viewer panel.
    ViewFile,
}

} // verus!
