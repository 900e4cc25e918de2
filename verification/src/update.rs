//! The whole interface as one state machine: every key press becomes a
//! `Message`, and `update` turns the state and the message into the next state
//! and the `Effect` the caller has to carry out. Work the caller finishes
//! (directory listings, overwrite checks) comes back through the functions at
//! the end of this module.
use vstd::prelude::*;

use crate::message::{Field, Message, NavOp, SearchKind, Surface};
use crate::paths::{file_name, file_name_spec, join, join_spec, parent, parent_spec, same_path, same_path_spec};
use crate::ui::file_panel::{self, Entry, PanelRequest, closed_field, opened_field, opt_view};
use crate::ui::help_panel;
use crate::ui::input_box::{self, EditOp, edited};
use crate::ui::capture_view::{self, CaptureView};
use crate::ui::command_picker::{self, CommandPicker, OutputMode, Preset};
use crate::ui::file_view::FileView;
use crate::ui::pinned_panel;

verus! {

/// Which panel has the keys.
#[derive(Clone, Copy, PartialEq, Eq, Debug, Structural)]
pub enum ActivePanel {
    LeftFiles,
    RightFiles,
    Pinned,
}

/// The panel Tab moves to: the other file panel. The pinned popup keeps the
/// keys until it is closed.
pub open spec fn next_panel(p: ActivePanel) -> ActivePanel {
    match p {
        ActivePanel::LeftFiles => ActivePanel::RightFiles,
        ActivePanel::RightFiles => ActivePanel::LeftFiles,
        ActivePanel::Pinned => ActivePanel::Pinned,
    }
}

impl ActivePanel {
    /// The panel Tab moves to.
    pub fn next(self) -> (r: Self)
        ensures
            r == next_panel(self),
    {
        match self {
            ActivePanel::LeftFiles => ActivePanel::RightFiles,
            ActivePanel::RightFiles => ActivePanel::LeftFiles,
            ActivePanel::Pinned => ActivePanel::Pinned,
        }
    }

    /// The panel Shift+Tab moves to; with two file panels it is the same one.
    pub fn prev(self) -> (r: Self)
        ensures
            r == next_panel(self),
    {
        self.next()
    }
}

/// One of the two file panels.
#[derive(Clone, Copy, PartialEq, Eq, Debug, Structural)]
pub enum Side {
    Left,
    Right,
}

/// What the right panel is picking a destination for, if anything.
#[derive(Clone, Copy, PartialEq, Eq, Debug, Structural)]
pub enum TransferMode {
    Idle,
    Copy,
    Move,
    CopyRename,
    MoveRename,
    Rename,
}

impl TransferMode {
    pub open spec fn copies(self) -> bool {
        self is Copy || self is CopyRename
    }

    pub open spec fn moves(self) -> bool {
        self is Move || self is MoveRename
    }

    pub open spec fn renames_on_the_way(self) -> bool {
        self is CopyRename || self is MoveRename
    }

    /// A copy, with or without a new name.
    pub fn is_copy(self) -> (b: bool)
        ensures
            b == self.copies(),
    {
        match self {
            TransferMode::Copy | TransferMode::CopyRename => true,
            _ => false,
        }
    }

    /// A move, with or without a new name.
    pub fn is_move(self) -> (b: bool)
        ensures
            b == self.moves(),
    {
        match self {
            TransferMode::Move | TransferMode::MoveRename => true,
            _ => false,
        }
    }

    /// A copy or move that gives its single source a new name.
    pub fn with_rename(self) -> (b: bool)
        ensures
            b == self.renames_on_the_way(),
    {
        match self {
            TransferMode::CopyRename | TransferMode::MoveRename => true,
            _ => false,
        }
    }
}

/// What a background job does.
#[derive(Clone, Copy, PartialEq, Eq, Debug, Structural)]
pub enum TransferOp {
    Copy,
    Move,
    Delete,
}

/// How far a background job has got.
#[derive(Clone, Copy, PartialEq, Eq, Debug, Structural)]
pub struct TransferProgress {
    pub op: TransferOp,
    pub current: u64,
    pub total: u64,
}

/// A confirmed copy or move.
pub enum PendingKind {
    /// Copy these paths into a directory.
    Copy(Vec<String>, String),
    /// Move these paths into a directory.
    Move(Vec<String>, String),
    /// Copy one path to a new path.
    CopyRename(String, String),
    /// Move one path to a new path.
    MoveRename(String, String),
}

/// Every one of `sources` lies directly in `dir`.
pub open spec fn all_in(sources: Seq<String>, dir: Seq<char>) -> bool {
    forall|i: int|
        0 <= i < sources.len() ==> (parent_spec((#[trigger] sources[i])@) matches Some(p) && same_dir(p, dir))
}

/// `kind` would leave every source exactly where it already is: a copy or
/// move into the directory its sources are in, or a copy or move with rename
/// onto the source itself.
pub open spec fn same_location(kind: PendingKind) -> bool {
    match kind {
        PendingKind::Copy(sources, dst) => all_in(sources@, dst@),
        PendingKind::Move(sources, dst) => all_in(sources@, dst@),
        PendingKind::CopyRename(src, dst) => same_dir(src@, dst@),
        PendingKind::MoveRename(src, dst) => same_dir(src@, dst@),
    }
}

/// The job a transfer runs as.
pub open spec fn kind_op(kind: PendingKind) -> TransferOp {
    match kind {
        PendingKind::Copy(..) | PendingKind::CopyRename(..) => TransferOp::Copy,
        PendingKind::Move(..) | PendingKind::MoveRename(..) => TransferOp::Move,
    }
}

impl PendingKind {
    /// The job the transfer runs as.
    pub fn op(&self) -> (op: TransferOp)
        ensures
            op == kind_op(*self),
    {
        match self {
            PendingKind::Copy(..) | PendingKind::CopyRename(..) => TransferOp::Copy,
            PendingKind::Move(..) | PendingKind::MoveRename(..) => TransferOp::Move,
        }
    }

    /// Whether the transfer would leave every source where it already is.
    pub fn is_same_location(&self) -> (b: bool)
        ensures
            b == same_location(*self),
    {
        match self {
            PendingKind::Copy(sources, dst) | PendingKind::Move(sources, dst) => {
                assert(same_location(*self) == all_in(sources@, dst@));
                let mut i: usize = 0;
                while i < sources.len()
                    invariant
                        i <= sources@.len(),
                        same_location(*self) == all_in(sources@, dst@),
                        forall|j: int|
                            0 <= j < i ==> (parent_spec((#[trigger] sources@[j])@) matches Some(p) && same_dir(
                                p,
                                dst@,
                            )),
                    decreases sources@.len() - i,
                {
                    match parent(sources[i].as_str()) {
                        Some(p) => {
                            if !(p == *dst || same_path(p.as_str(), dst.as_str())) {
                                assert(!all_in(sources@, dst@));
                                return false;
                            }
                        },
                        None => {
                            assert(!all_in(sources@, dst@));
                            return false;
                        },
                    }
                    i = i + 1;
                }
                true
            },
            PendingKind::CopyRename(src, dst) | PendingKind::MoveRename(src, dst) => {
                *src == *dst || same_path(src.as_str(), dst.as_str())
            },
        }
    }
}

/// A transfer held back until the user agrees to overwrite `conflicts`.
pub struct PendingOverwrite {
    pub kind: PendingKind,
    /// Names in the destination that the transfer would replace.
    pub conflicts: Vec<String>,
}

/// Which of a result popup's two fields has the cursor.
#[derive(Clone, Copy, PartialEq, Eq, Debug, Structural)]
pub enum InputField {
    Query,
    Mask,
}

/// One result of a search: the file it points at, and the line that lists it.
pub struct Hit {
    pub path: String,
    pub label: String,
}

/// A result popup: a query row (the query and a file mask) over a list of
/// results that a background search fills in.
pub struct ResultPanel {
    /// Directory the search runs in.
    pub root: String,
    pub query: input_box::Model,
    /// Glob patterns limiting the files searched; empty means all.
    pub mask: input_box::Model,
    pub input_field: InputField,
    /// Whether the query row, rather than the result list, has the keys.
    pub input_focused: bool,
    pub results: Vec<Hit>,
    pub selection: usize,
    /// The search for the current query has finished.
    pub done: bool,
    /// The index the search runs over is still being built.
    pub indexing: bool,
}

impl ResultPanel {
    pub open spec fn wf(&self) -> bool {
        self.query.wf() && self.mask.wf()
    }

    /// A fresh popup searching under `root`: empty fields, the keys in the
    /// query, no results.
    pub fn new(root: String) -> (p: Self)
        ensures
            p.root == root,
            closed_field(p.query),
            closed_field(p.mask),
            p.input_field == InputField::Query,
            p.input_focused,
            p.results@.len() == 0,
            p.selection == 0,
            p.done,
            !p.indexing,
            p.wf(),
    {
        ResultPanel {
            root,
            query: input_box::Model::new(),
            mask: input_box::Model::new(),
            input_field: InputField::Query,
            input_focused: true,
            results: Vec::new(),
            selection: 0,
            done: true,
            indexing: false,
        }
    }
}

/// The whole interface.
pub struct Model {
    pub left_files: file_panel::Model,
    pub right_files: file_panel::Model,
    pub pinned_panel: pinned_panel::Model,
    pub active_panel: ActivePanel,
    /// The panel the pinned popup was opened from.
    pub origin_panel: ActivePanel,
    pub show_help: bool,
    pub help_selection: usize,
    pub shift_held: bool,
    pub transfer_mode: TransferMode,
    pub rename_input: input_box::Model,
    pub error_message: Option<String>,
    pub progress: Option<TransferProgress>,
    pub pending_overwrite: Option<PendingOverwrite>,
    /// Name to put the cursor on once a rename has finished.
    pub pending_select: Option<String>,
    pub content_search: Option<ResultPanel>,
    pub file_find: Option<ResultPanel>,
    /// The viewer panel, when it is open beside the file list.
    pub file_view: Option<FileView>,
    /// Whether the viewer, rather than the file list, has the keys.
    pub file_view_focused: bool,
    /// The preset command list, when it is open.
    pub command_picker: Option<CommandPicker>,
    /// The captured output of the last command run for it, while shown.
    pub capture_view: Option<CaptureView>,
}

/// How a preset command runs, once its template has been filled in.
pub enum CommandLine {
    /// A program and its arguments, run directly.
    Argv(Vec<String>),
    /// A line for the shell.
    Shell(String),
}

/// A preset command ready to run.
pub struct RunSpec {
    pub argv: Option<Vec<String>>,
    pub shell: Option<String>,
    /// The directory it runs in.
    pub cwd: String,
    pub mode: OutputMode,
    pub label: String,
}

/// What the caller has to do after an update.
pub enum Effect {
    Nothing,
    Quit,
    OpenEditor(String),
    OpenDefault(String),
    StartCopy(Vec<String>, String),
    StartMove(Vec<String>, String),
    StartCopyRename(String, String),
    StartMoveRename(String, String),
    StartDelete(Vec<String>),
    /// Make sure the content-search index for `root` exists without running a
    /// query yet.
    PrepareContentSearch { root: String },
    StartContentSearch { root: String, query: String, mask: String },
    /// Make sure the file-find index for `root` exists without running a
    /// query yet.
    PrepareFileFind { root: String },
    StartFileFind { root: String, query: String, mask: String },
    /// File-system work for one file panel; see `file_panel::PanelRequest`.
    Panel { side: Side, request: PanelRequest },
    /// Find which names the transfer would overwrite in its destination and
    /// report them through `conflicts_checked`.
    CheckConflicts(PendingKind),
    /// Re-read both panels' directories and report them through `reloaded`.
    ReloadPanels { reselect_left: Option<String> },
    /// Show both panels' directories afresh: list each one again, reporting
    /// through `listed`.
    RelistPanels,
    /// Load the preset commands and report them through `presets_loaded`.
    LoadPresets,
    /// Fill in the highlighted preset's template with the active selection
    /// (`active_selection`), the active panel's directory and `input`, and
    /// report the result through `run_selected_preset`.
    ExpandPreset { input: String },
    /// Run a preset command.
    RunCommand { spec: RunSpec },
    /// Scroll the viewer's content by one key.
    ScrollView(NavOp),
}

impl Model {
    /// Every text field keeps its cursor inside its text.
    pub open spec fn wf(&self) -> bool {
        &&& self.left_files.wf()
        &&& self.right_files.wf()
        &&& self.rename_input.wf()
        &&& (self.content_search matches Some(p) ==> p.wf())
        &&& (self.file_find matches Some(p) ==> p.wf())
        &&& (self.command_picker matches Some(p) ==> p.wf())
    }

    /// The interface at start-up: the two file panels, the left one active,
    /// `pins` in the pinned-directory panel, and no popup, prompt or job.
    pub fn init(left: file_panel::Model, right: file_panel::Model, pins: Vec<String>) -> (m: Self)
        requires
            left.wf(),
            right.wf(),
        ensures
            m.left_files == left,
            m.right_files == right,
            m.pinned_panel.pins@ == pins@,
            m.pinned_panel.selection == 0,
            m.active_panel == ActivePanel::LeftFiles,
            m.origin_panel == ActivePanel::LeftFiles,
            !m.show_help,
            m.help_selection == 0,
            !m.shift_held,
            m.transfer_mode == TransferMode::Idle,
            file_panel::closed_field(m.rename_input),
            m.error_message is None,
            m.progress is None,
            m.pending_overwrite is None,
            m.pending_select is None,
            m.content_search is None,
            m.file_find is None,
            m.file_view is None,
            !m.file_view_focused,
            m.command_picker is None,
            m.capture_view is None,
            m.wf(),
    {
        Model {
            left_files: left,
            right_files: right,
            pinned_panel: pinned_panel::Model { pins, selection: 0 },
            active_panel: ActivePanel::LeftFiles,
            origin_panel: ActivePanel::LeftFiles,
            show_help: false,
            help_selection: 0,
            shift_held: false,
            transfer_mode: TransferMode::Idle,
            rename_input: input_box::Model::new(),
            error_message: None,
            progress: None,
            pending_overwrite: None,
            pending_select: None,
            content_search: None,
            file_find: None,
            file_view: None,
            file_view_focused: false,
            command_picker: None,
            capture_view: None,
        }
    }
}

/// The file panel a side names.
pub open spec fn panel_on(m: Model, side: Side) -> file_panel::Model {
    match side {
        Side::Left => m.left_files,
        Side::Right => m.right_files,
    }
}

/// `eff` carries out the request `req` of the panel on `side`; a panel with
/// nothing to do makes no effect.
pub open spec fn panel_effect(eff: Effect, side: Side, req: PanelRequest) -> bool {
    if req is Nothing {
        eff is Nothing
    } else {
        eff matches Effect::Panel { side: s, request } && s == side && request == req
    }
}

/// `eff` asks for `path` to be listed on `side`, with the cursor then put on
/// the entry named `reselect`.
pub open spec fn lists_on(eff: Effect, side: Side, path: Seq<char>, reselect: Option<Seq<char>>) -> bool {
    eff matches Effect::Panel { side: s, request } && s == side && file_panel::lists(request, path, reselect)
}

/// The effect that starts the transfer `kind`.
pub open spec fn starts(kind: PendingKind, eff: Effect) -> bool {
    match kind {
        PendingKind::Copy(s, d) => eff matches Effect::StartCopy(s2, d2) && s2 == s && d2 == d,
        PendingKind::Move(s, d) => eff matches Effect::StartMove(s2, d2) && s2 == s && d2 == d,
        PendingKind::CopyRename(s, d) => eff matches Effect::StartCopyRename(s2, d2) && s2 == s && d2 == d,
        PendingKind::MoveRename(s, d) => eff matches Effect::StartMoveRename(s2, d2) && s2 == s && d2 == d,
    }
}

/// What the user is told about a transfer that would land its sources where
/// they already are.
pub open spec fn same_location_note(kind: PendingKind) -> Option<Seq<char>> {
    if !same_location(kind) {
        None
    } else {
        match kind {
            PendingKind::Copy(..) => Some("Copy target is the source folder \u{2014} pick another folder."@),
            PendingKind::Move(..) => Some("Move target is the source folder \u{2014} pick another folder."@),
            _ => Some("Target is the source itself \u{2014} pick another folder or name."@),
        }
    }
}

/// The path `OpenEditor` and `OpenDefault` open: the highlighted entry of the
/// active file panel, or its directory when nothing is highlighted; nothing
/// while the pinned popup has the keys.
pub open spec fn active_file_path_spec(m: Model) -> Option<Seq<char>> {
    match m.active_panel {
        ActivePanel::Pinned => None,
        _ => {
            let panel = if m.active_panel is LeftFiles { m.left_files } else { m.right_files };
            let vis = panel.visible();
            if panel.selection < vis.len() {
                Some(join_spec(panel.current_dir@, panel.entries@[vis[panel.selection as int] as int].name@))
            } else {
                Some(panel.current_dir@)
            }
        },
    }
}

/// The active file panel's directory: where a search or a command opened now
/// would run; `None` while the pinned popup has the keys.
pub open spec fn active_panel_dir_spec(m: Model) -> Option<Seq<char>> {
    match m.active_panel {
        ActivePanel::LeftFiles => Some(m.left_files.current_dir@),
        ActivePanel::RightFiles => Some(m.right_files.current_dir@),
        ActivePanel::Pinned => None,
    }
}

/// The panel pinning takes its directory from: the right one if the popup
/// was opened from it, otherwise the left one.
pub open spec fn origin_panel_spec(m: Model) -> file_panel::Model {
    match m.origin_panel {
        ActivePanel::RightFiles => m.right_files,
        _ => m.left_files,
    }
}

/// `pins` holds a directory spelled `dir`.
pub open spec fn pinned(pins: Seq<String>, dir: Seq<char>) -> bool {
    exists|i: int| 0 <= i < pins.len() && same_dir((#[trigger] pins[i])@, dir)
}

/// Two directories are the same: spelled alike, or equal as paths.
pub open spec fn same_dir(a: Seq<char>, b: Seq<char>) -> bool {
    a == b || same_path_spec(a, b)
}

/// No directory is pinned twice.
pub open spec fn pins_distinct(pins: Seq<String>) -> bool {
    forall|i: int, j: int| 0 <= i < j < pins.len() ==> !same_dir((#[trigger] pins[i])@, (#[trigger] pins[j])@)
}

/// The rename dialog as it opens: holding the name of the first chosen entry
/// of the left panel (or nothing), with the cursor at its end and the keys.
pub open spec fn rename_opened(old: Model, new: Model, mode: TransferMode) -> bool {
    let chosen = old.left_files.chosen();
    let name = if chosen.len() > 0 { chosen[0].name@ } else { Seq::<char>::empty() };
    &&& new.rename_input.text@ == name
    &&& new.rename_input.pos() == name.len()
    &&& new.rename_input.active
    &&& new == (Model { rename_input: new.rename_input, transfer_mode: mode, ..old })
}

/// The destination picker as it opens for `mode`: the right panel lists the
/// left panel's directory, directories only, and has the keys.
pub open spec fn target_panel_opened(old: Model, new: Model, mode: TransferMode, eff: Effect) -> bool {
    &&& new.right_files == (file_panel::Model { dirs_only: true, ..old.right_files })
    &&& new == (Model {
        right_files: new.right_files,
        transfer_mode: mode,
        active_panel: ActivePanel::RightFiles,
        ..old
    })
    &&& lists_on(eff, Side::Right, old.left_files.current_dir@, None)
}

/// The transfer being picked is dropped: no mode, the rename field closed, the
/// right panel listing everything again, and the keys back on the left.
pub open spec fn transfer_cancelled(old: Model, new: Model) -> bool {
    &&& closed_field(new.rename_input)
    &&& new.right_files == (file_panel::Model { dirs_only: false, ..old.right_files })
    &&& new == (Model {
        transfer_mode: TransferMode::Idle,
        rename_input: new.rename_input,
        right_files: new.right_files,
        active_panel: ActivePanel::LeftFiles,
        ..old
    })
}

/// The transfer confirming the destination picker builds: the left panel's
/// chosen entries into the right panel's directory, or, with a rename, the
/// first of them to the typed name there.
pub open spec fn confirmed_kind(old: Model, op: TransferOp, kind: PendingKind) -> bool {
    let chosen = old.left_files.chosen();
    let dir = old.left_files.current_dir@;
    let dst = old.right_files.current_dir@;
    if old.transfer_mode.renames_on_the_way() {
        let src = join_spec(dir, chosen[0].name@);
        let target = join_spec(dst, old.rename_input.text@);
        if op is Move {
            kind matches PendingKind::MoveRename(s, t) && s@ == src && t@ == target
        } else {
            kind matches PendingKind::CopyRename(s, t) && s@ == src && t@ == target
        }
    } else {
        let ok = |srcs: Vec<String>, d: String| srcs@.len() == chosen.len() && (forall|i: int|
            0 <= i < chosen.len() ==> (#[trigger] srcs@[i])@ == join_spec(dir, chosen[i].name@)) && d@ == dst;
        if op is Move {
            kind matches PendingKind::Move(srcs, d) && ok(srcs, d)
        } else {
            kind matches PendingKind::Copy(srcs, d) && ok(srcs, d)
        }
    }
}

/// Confirming the destination picker: with nothing chosen the transfer is
/// dropped; a transfer onto its own location is refused with a message and
/// the picker left as it was; otherwise the picker closes and the transfer is
/// checked for overwrites.
pub open spec fn transfer_confirmed(old: Model, op: TransferOp, new: Model, eff: Effect) -> bool {
    if old.left_files.chosen().len() == 0 {
        transfer_cancelled(old, new) && eff is Nothing
    } else {
        exists|kind: PendingKind| #[trigger] confirmed_kind(old, op, kind) && if same_location(kind) {
            &&& new == (Model { error_message: new.error_message, ..old })
            &&& opt_view(new.error_message) == same_location_note(kind)
            &&& eff is Nothing
        } else {
            &&& transfer_cancelled(old, new)
            &&& eff matches Effect::CheckConflicts(k) && k == kind
        }
    }
}

/// What a result popup's step leaves for the interface to do.
pub enum PanelOutcome {
    Nothing,
    /// The query row changed; re-run the search over this root, query and mask.
    Rerun(String, String, String),
    /// A result was picked; close the popup and move the file list onto it.
    Reveal(String),
    /// The popup was dismissed.
    Close,
}

/// The query row after a text edit in whichever field has the cursor: the old
/// results go, and the search counts as done while the query is empty.
pub open spec fn query_edited(old: ResultPanel, new: ResultPanel, op: EditOp) -> bool {
    &&& (if old.input_field is Query {
        edited(old.query, new.query, op) && new.query.active == old.query.active && new.mask == old.mask
    } else {
        edited(old.mask, new.mask, op) && new.mask.active == old.mask.active && new.query == old.query
    })
    &&& new.results@.len() == 0
    &&& new.done == (new.query.text@.len() == 0)
    &&& new == (ResultPanel {
        query: new.query,
        mask: new.mask,
        results: new.results,
        selection: 0,
        done: new.done,
        ..old
    })
}

/// The query row after a cursor move: Right past the end of the query enters
/// the mask at its start, Left before the start of the mask returns to the end
/// of the query, and otherwise the cursor moves inside its field.
pub open spec fn query_cursor_moved(old: ResultPanel, new: ResultPanel, right: bool) -> bool {
    if old.input_field is Query && right && old.query.pos() == old.query.text@.len() {
        new.input_field == InputField::Mask && new.mask.text@ == old.mask.text@ && new.mask.pos() == 0
            && new.mask.active == old.mask.active && new == (ResultPanel {
            input_field: InputField::Mask,
            mask: new.mask,
            ..old
        })
    } else if old.input_field is Mask && !right && old.mask.pos() == 0 {
        new.input_field == InputField::Query && new.query.text@ == old.query.text@ && new.query.pos()
            == old.query.text@.len() && new.query.active == old.query.active && new == (ResultPanel {
            input_field: InputField::Query,
            query: new.query,
            ..old
        })
    } else if old.input_field is Query {
        edited(old.query, new.query, if right { EditOp::CursorRight } else { EditOp::CursorLeft })
            && new.query.active == old.query.active && new == (ResultPanel { query: new.query, ..old })
    } else {
        edited(old.mask, new.mask, if right { EditOp::CursorRight } else { EditOp::CursorLeft })
            && new.mask.active == old.mask.active && new == (ResultPanel { mask: new.mask, ..old })
    }
}

/// One message applied to an open result popup.
pub open spec fn search_stepped(old: ResultPanel, msg: Message, new: ResultPanel, out: PanelOutcome) -> bool {
    match msg {
        Message::Edit(_, op) => match op {
            EditOp::CursorLeft => query_cursor_moved(old, new, false) && out is Nothing,
            EditOp::CursorRight => query_cursor_moved(old, new, true) && out is Nothing,
            _ => query_edited(old, new, op) && if new.query.text@.len() == 0 {
                out is Nothing
            } else {
                out matches PanelOutcome::Rerun(r, q, m) && r == old.root && q@ == new.query.text@ && m@
                    == new.mask.text@
            },
        },
        Message::SearchToggleFocus(_) => new == (ResultPanel { input_focused: !old.input_focused, ..old })
            && out is Nothing,
        Message::Nav(_, op) => out is Nothing && match op {
            NavOp::Up => if old.selection == 0 {
                new == (ResultPanel { input_focused: true, ..old })
            } else {
                new == (ResultPanel { selection: (old.selection - 1) as usize, ..old })
            },
            NavOp::Down => if old.results@.len() > 0 {
                new == (ResultPanel {
                    selection: file_panel::step_down(old.selection as int, old.results@.len() as int) as usize,
                    ..old
                })
            } else {
                new == old
            },
            _ => new == old,
        },
        Message::Close(_) => new == old && out is Close,
        Message::SearchConfirm(_) => new == old && if old.selection < old.results@.len() {
            out matches PanelOutcome::Reveal(p) && p == old.results@[old.selection as int].path
        } else {
            out is Nothing
        },
        _ => new == old && out is Nothing,
    }
}

/// The left panel is moved onto `path`'s directory with the cursor on `path`,
/// and given the keys.
pub open spec fn revealed(old: Model, path: Seq<char>, new: Model, eff: Effect) -> bool {
    &&& new == (Model { active_panel: ActivePanel::LeftFiles, ..old })
    &&& match parent_spec(path) {
        Some(dir) => lists_on(eff, Side::Left, dir, file_name_spec(path)),
        None => eff is Nothing,
    }
}

/// The result popup of `kind`.
pub open spec fn search_slot(m: Model, kind: SearchKind) -> Option<ResultPanel> {
    match kind {
        SearchKind::Content => m.content_search,
        SearchKind::Files => m.file_find,
    }
}

/// `new` is `old` with the result popup of `kind` set to `slot`.
pub open spec fn with_search_slot(old: Model, kind: SearchKind, slot: Option<ResultPanel>, new: Model) -> bool {
    match kind {
        SearchKind::Content => new == (Model { content_search: slot, ..old }),
        SearchKind::Files => new == (Model { file_find: slot, ..old }),
    }
}

/// A search message applied to the interface.
pub open spec fn search_updated(old: Model, kind: SearchKind, msg: Message, new: Model, eff: Effect) -> bool {
    if msg is SearchOpen {
        match active_panel_dir_spec(old) {
            None => new == old && eff is Nothing,
            Some(root) => {
                &&& search_slot(new, kind) matches Some(p) && p.root@ == root && closed_field(p.query)
                    && closed_field(p.mask) && p.input_field == InputField::Query && p.input_focused
                    && p.results@.len() == 0 && p.selection == 0 && p.done && !p.indexing
                &&& with_search_slot(old, kind, search_slot(new, kind), new)
                &&& match kind {
                    SearchKind::Content => eff matches Effect::PrepareContentSearch { root: r } && r@ == root,
                    SearchKind::Files => eff matches Effect::PrepareFileFind { root: r } && r@ == root,
                }
            },
        }
    } else {
        match search_slot(old, kind) {
            None => new == old && eff is Nothing,
            Some(p) => exists|q: ResultPanel, out: PanelOutcome| #[trigger] search_stepped(p, msg, q, out)
                && match out {
                PanelOutcome::Nothing => with_search_slot(old, kind, Some(q), new) && eff is Nothing,
                PanelOutcome::Rerun(r, qu, ma) => with_search_slot(old, kind, Some(q), new) && match kind {
                    SearchKind::Content => eff matches Effect::StartContentSearch { root, query, mask } && root
                        == r && query == qu && mask == ma,
                    SearchKind::Files => eff matches Effect::StartFileFind { root, query, mask } && root == r
                        && query == qu && mask == ma,
                },
                PanelOutcome::Close => with_search_slot(old, kind, None, new) && eff is Nothing,
                PanelOutcome::Reveal(path) => exists|mid: Model| #[trigger] with_search_slot(old, kind, None, mid)
                    && revealed(mid, path@, new, eff),
            },
        }
    }
}

/// The panel that has the keys, when it is a file panel.
pub open spec fn active_side(m: Model) -> Option<Side> {
    match m.active_panel {
        ActivePanel::LeftFiles => Some(Side::Left),
        ActivePanel::RightFiles => Some(Side::Right),
        ActivePanel::Pinned => None,
    }
}

/// `new` is `old` with the file panel on `side` replaced by `p`.
pub open spec fn with_panel(old: Model, side: Side, p: file_panel::Model, new: Model) -> bool {
    match side {
        Side::Left => new == (Model { left_files: p, ..old }),
        Side::Right => new == (Model { right_files: p, ..old }),
    }
}

/// Wrap a panel's request as the interface's effect.
fn panel_request(side: Side, request: PanelRequest) -> (eff: Effect)
    ensures
        panel_effect(eff, side, request),
{
    match request {
        PanelRequest::Nothing => Effect::Nothing,
        request => Effect::Panel { side, request },
    }
}

/// Route a message no popup claims to the panel that has the keys.
fn dispatch_to_panel(mut model: Model, msg: Message) -> (res: (Model, Effect))
    requires
        model.wf(),
    ensures
        res.0.wf(),
        match active_side(model) {
            Some(side) => exists|p: file_panel::Model, req: PanelRequest|
                #[trigger] file_panel::stepped(panel_on(model, side), msg, p, req) && with_panel(model, side, p, res.0)
                    && panel_effect(res.1, side, req),
            None => res.0 == (Model { pinned_panel: res.0.pinned_panel, ..model }) && res.0.pinned_panel.pins
                == model.pinned_panel.pins && res.0.pinned_panel.selection == pinned_panel::moved(
                model.pinned_panel.selection as int,
                model.pinned_panel.pins@.len() as int,
                msg,
            ) && res.1 is Nothing,
        },
{
    match model.active_panel {
        ActivePanel::LeftFiles => {
            let ghost old = model;
            let (fp, req) = file_panel::update(model.left_files, msg);
            model.left_files = fp;
            let eff = panel_request(Side::Left, req);
            assert(file_panel::stepped(panel_on(old, Side::Left), msg, fp, req));
            (model, eff)
        },
        ActivePanel::RightFiles => {
            let ghost old = model;
            let (fp, req) = file_panel::update(model.right_files, msg);
            model.right_files = fp;
            let eff = panel_request(Side::Right, req);
            assert(file_panel::stepped(panel_on(old, Side::Right), msg, fp, req));
            (model, eff)
        },
        ActivePanel::Pinned => {
            model.pinned_panel = pinned_panel::update(model.pinned_panel, msg);
            (model, Effect::Nothing)
        },
    }
}

fn update_help_scroll(mut model: Model, op: NavOp) -> (res: (Model, Effect))
    ensures
        res.0 == (Model {
            help_selection: match op {
                NavOp::Up => help_panel::prev_selectable_spec(model.help_selection as int) as usize,
                NavOp::Down => help_panel::next_selectable_spec(model.help_selection as int) as usize,
                _ => model.help_selection,
            },
            ..model
        }),
        res.1 is Nothing,
{
    match op {
        NavOp::Up => model.help_selection = help_panel::prev_selectable(model.help_selection),
        NavOp::Down => model.help_selection = help_panel::next_selectable(model.help_selection),
        _ => {},
    }
    (model, Effect::Nothing)
}

/// The panel pinning takes its directory from.
fn origin_file_panel(model: &Model) -> (p: &file_panel::Model)
    ensures
        *p == origin_panel_spec(*model),
{
    match model.origin_panel {
        ActivePanel::RightFiles => &model.right_files,
        _ => &model.left_files,
    }
}

/// Whether `pins` holds a directory spelled `dir`.
fn is_pinned(pins: &Vec<String>, dir: &String) -> (b: bool)
    ensures
        b == pinned(pins@, dir@),
{
    let mut i: usize = 0;
    while i < pins.len()
        invariant
            i <= pins@.len(),
            forall|j: int| 0 <= j < i ==> !same_dir((#[trigger] pins@[j])@, dir@),
        decreases pins@.len() - i,
    {
        if pins[i] == *dir || same_path(pins[i].as_str(), dir.as_str()) {
            return true;
        }
        i = i + 1;
    }
    false
}

fn update_pin_current_dir(mut model: Model) -> (res: (Model, Effect))
    ensures
        ({
            let dir = origin_panel_spec(model).current_dir;
            &&& res.0.pinned_panel.pins@ == (if pinned(model.pinned_panel.pins@, dir@) {
                model.pinned_panel.pins@
            } else {
                model.pinned_panel.pins@.push(dir)
            })
            &&& res.0.pinned_panel.selection == model.pinned_panel.selection
            &&& res.0 == (Model {
                pinned_panel: res.0.pinned_panel,
                active_panel: model.origin_panel,
                ..model
            })
        }),
        res.1 is Nothing,
{
    let dir = origin_file_panel(&model).current_dir.clone();
    if !is_pinned(&model.pinned_panel.pins, &dir) {
        model.pinned_panel.pins.push(dir);
    }
    model.active_panel = model.origin_panel;
    (model, Effect::Nothing)
}

fn update_delete_pinned_dir(mut model: Model) -> (res: (Model, Effect))
    ensures
        ({
            let sel = model.pinned_panel.selection;
            let pins = model.pinned_panel.pins@;
            if sel < pins.len() {
                &&& res.0.pinned_panel.pins@ == pins.remove(sel as int)
                &&& res.0.pinned_panel.selection == (if pins.len() > 1 {
                    if sel < pins.len() - 2 { sel as int } else { pins.len() - 2 }
                } else {
                    0
                })
                &&& res.0 == (Model { pinned_panel: res.0.pinned_panel, ..model })
            } else {
                res.0 == model
            }
        }),
        res.1 is Nothing,
{
    let sel = model.pinned_panel.selection;
    if sel < model.pinned_panel.pins.len() {
        model.pinned_panel.pins.remove(sel);
        let count = model.pinned_panel.pins.len();
        model.pinned_panel.selection = if count > 0 {
            if sel < count - 1 { sel } else { count - 1 }
        } else {
            0
        };
    }
    (model, Effect::Nothing)
}

/// The path `OpenEditor` and `OpenDefault` open.
fn active_file_path(model: &Model) -> (p: Option<String>)
    ensures
        opt_view(p) == active_file_path_spec(*model),
{
    let panel = match model.active_panel {
        ActivePanel::LeftFiles => &model.left_files,
        ActivePanel::RightFiles => &model.right_files,
        ActivePanel::Pinned => return None,
    };
    let vis = panel.visible_entries();
    // Reading the length tells the proof that the listing fits in a `usize`.
    let _count = panel.entries.len();
    proof {
        file_panel::lemma_visible_upto(panel.entries@, panel.filter_key(), panel.dirs_only, panel.entries@.len() as int);
    }
    if panel.selection < vis.len() {
        Some(join(panel.current_dir.as_str(), panel.entries[vis[panel.selection]].name.as_str()))
    } else {
        Some(panel.current_dir.clone())
    }
}

fn update_open(model: Model, editor: bool) -> (res: (Model, Effect))
    ensures
        res.0 == model,
        match active_file_path_spec(model) {
            None => res.1 is Nothing,
            Some(path) => if editor {
                res.1 matches Effect::OpenEditor(p) && p@ == path
            } else {
                res.1 matches Effect::OpenDefault(p) && p@ == path
            },
        },
{
    let path = match active_file_path(&model) {
        Some(p) => p,
        None => return (model, Effect::Nothing),
    };
    if editor {
        (model, Effect::OpenEditor(path))
    } else {
        (model, Effect::OpenDefault(path))
    }
}

fn update_select_pinned_dir(mut model: Model) -> (res: (Model, Effect))
    ensures
        res.0 == (Model { active_panel: model.origin_panel, ..model }),
        ({
            let sel = model.pinned_panel.selection;
            let pins = model.pinned_panel.pins@;
            if sel < pins.len() && !(model.origin_panel is Pinned) {
                lists_on(
                    res.1,
                    if model.origin_panel is LeftFiles { Side::Left } else { Side::Right },
                    pins[sel as int]@,
                    None,
                )
            } else {
                res.1 is Nothing
            }
        }),
{
    let mut eff = Effect::Nothing;
    if model.pinned_panel.selection < model.pinned_panel.pins.len() {
        let dir = model.pinned_panel.pins[model.pinned_panel.selection].clone();
        match model.origin_panel {
            ActivePanel::LeftFiles => {
                eff = Effect::Panel { side: Side::Left, request: PanelRequest::List { path: dir, reselect: None } };
            },
            ActivePanel::RightFiles => {
                eff = Effect::Panel { side: Side::Right, request: PanelRequest::List { path: dir, reselect: None } };
            },
            ActivePanel::Pinned => {},
        }
    }
    model.active_panel = model.origin_panel;
    (model, eff)
}

/// Open the name dialog for `mode`, holding the name of the first entry the
/// left panel acts on.
fn open_rename_dialog(model: &mut Model, mode: TransferMode)
    requires
        old(model).wf(),
    ensures
        rename_opened(*old(model), *final(model), mode),
        final(model).wf(),
{
    let targets = model.left_files.action_targets();
    let name = if targets.len() > 0 { targets[0].name.clone() } else { String::new() };
    model.rename_input.set_text(name);
    model.rename_input.active = true;
    model.transfer_mode = mode;
}

/// Open the right panel as the destination for `mode`. It lists directories
/// only: a copy or move target is always a directory.
fn open_target_panel(model: &mut Model, mode: TransferMode) -> (eff: Effect)
    requires
        old(model).wf(),
    ensures
        target_panel_opened(*old(model), *final(model), mode, eff),
        final(model).wf(),
{
    let start_dir = model.left_files.current_dir.clone();
    model.right_files.dirs_only = true;
    model.transfer_mode = mode;
    model.active_panel = ActivePanel::RightFiles;
    Effect::Panel { side: Side::Right, request: PanelRequest::List { path: start_dir, reselect: None } }
}

fn cancel_transfer(model: &mut Model)
    requires
        old(model).wf(),
    ensures
        transfer_cancelled(*old(model), *final(model)),
        final(model).wf(),
{
    model.transfer_mode = TransferMode::Idle;
    model.rename_input.close();
    model.right_files.dirs_only = false;
    model.active_panel = ActivePanel::LeftFiles;
}

/// The effect that starts a transfer.
fn pending_effect(kind: PendingKind) -> (eff: Effect)
    ensures
        starts(kind, eff),
{
    match kind {
        PendingKind::Copy(sources, dst) => Effect::StartCopy(sources, dst),
        PendingKind::Move(sources, dst) => Effect::StartMove(sources, dst),
        PendingKind::CopyRename(src, dst) => Effect::StartCopyRename(src, dst),
        PendingKind::MoveRename(src, dst) => Effect::StartMoveRename(src, dst),
    }
}

/// What to tell the user about a transfer that would land its sources exactly
/// where they already are, or `None` when there is real work to do. Reported
/// before any state is torn down, so the picker or the rename dialog it came
/// from is still open once the message is dismissed.
pub fn same_location_message(kind: &PendingKind) -> (m: Option<String>)
    ensures
        opt_view(m) == same_location_note(*kind),
{
    if !kind.is_same_location() {
        return None;
    }
    match kind {
        PendingKind::Copy(..) => Some(String::from_str("Copy target is the source folder \u{2014} pick another folder.")),
        PendingKind::Move(..) => Some(String::from_str("Move target is the source folder \u{2014} pick another folder.")),
        _ => Some(String::from_str("Target is the source itself \u{2014} pick another folder or name.")),
    }
}

/// Build the transfer for the destination now shown in the right panel and
/// hand it on to be checked for overwrites. A destination that is the folder
/// the sources already live in leaves the picker exactly as it is, so the user
/// can dismiss the message and walk to another folder.
fn confirm_transfer(model: &mut Model, op: TransferOp) -> (eff: Effect)
    requires
        old(model).wf(),
        op is Copy || op is Move,
    ensures
        transfer_confirmed(*old(model), op, *final(model), eff),
        final(model).wf(),
{
    let targets = model.left_files.action_targets();
    if targets.len() == 0 {
        cancel_transfer(model);
        return Effect::Nothing;
    }
    let ghost old_model = *model;
    let ghost chosen = model.left_files.chosen();
    let dst = model.right_files.current_dir.clone();
    let moving = match op {
        TransferOp::Move => true,
        _ => false,
    };
    let kind = if model.transfer_mode.with_rename() {
        let target = join(dst.as_str(), model.rename_input.text.as_str());
        let src = targets[0].path.clone();
        assert(file_panel::target_for(targets@[0], model.left_files.current_dir@, chosen[0]));
        if moving {
            PendingKind::MoveRename(src, target)
        } else {
            PendingKind::CopyRename(src, target)
        }
    } else {
        let mut sources: Vec<String> = Vec::new();
        for i in 0..targets.len()
            invariant
                file_panel::targets_for(targets@, model.left_files.current_dir@, chosen),
                sources@.len() == i,
                forall|j: int| 0 <= j < i ==> (#[trigger] sources@[j])@ == join_spec(
                    model.left_files.current_dir@,
                    chosen[j].name@,
                ),
        {
            assert(file_panel::target_for(targets@[i as int], model.left_files.current_dir@, chosen[i as int]));
            sources.push(targets[i].path.clone());
        }
        if moving {
            PendingKind::Move(sources, dst)
        } else {
            PendingKind::Copy(sources, dst)
        }
    };
    assert(confirmed_kind(old_model, op, kind));
    match same_location_message(&kind) {
        Some(message) => {
            model.error_message = Some(message);
            return Effect::Nothing;
        },
        None => {},
    }
    model.transfer_mode = TransferMode::Idle;
    model.rename_input.close();
    model.right_files.dirs_only = false;
    model.active_panel = ActivePanel::LeftFiles;
    Effect::CheckConflicts(kind)
}

/// A transfer whose overwrite check came back: with nothing to overwrite it
/// starts at once, otherwise it waits behind the overwrite prompt.
pub open spec fn conflicts_handled(old: Model, kind: PendingKind, conflicts: Seq<String>, new: Model, eff: Effect) -> bool {
    if conflicts.len() == 0 {
        new == (Model {
            progress: Some(TransferProgress { op: kind_op(kind), current: 0, total: 0 }),
            ..old
        }) && starts(kind, eff)
    } else {
        new.pending_overwrite matches Some(po) && po.kind == kind && po.conflicts@ == conflicts && new == (
        Model { pending_overwrite: new.pending_overwrite, ..old }) && eff is Nothing
    }
}

/// The mode a plain copy or move starts.
pub open spec fn plain_mode(msg: Message) -> TransferMode {
    if msg is StartMoveRename || msg is StartMove || msg is CancelMove || msg is ConfirmMove {
        TransferMode::Move
    } else {
        TransferMode::Copy
    }
}

/// A copy or move message applied to the interface.
pub open spec fn transfer_stepped(old: Model, msg: Message, new: Model, eff: Effect) -> bool {
    match msg {
        Message::StartCopy | Message::StartMove => target_panel_opened(old, new, plain_mode(msg), eff),
        Message::StartCopyRename | Message::StartMoveRename => {
            let n = old.left_files.chosen().len();
            if n == 0 {
                new == old && eff is Nothing
            } else if n != 1 {
                target_panel_opened(old, new, plain_mode(msg), eff)
            } else {
                rename_opened(
                    old,
                    new,
                    if msg is StartMoveRename { TransferMode::MoveRename } else { TransferMode::CopyRename },
                ) && eff is Nothing
            }
        },
        Message::CancelCopy | Message::CancelMove => transfer_cancelled(old, new) && eff is Nothing,
        Message::ConfirmCopy => transfer_confirmed(old, TransferOp::Copy, new, eff),
        Message::ConfirmMove => transfer_confirmed(old, TransferOp::Move, new, eff),
        _ => false,
    }
}

/// Where an in-place rename of `src` to `name` lands: beside the source.
pub open spec fn renamed_path(src: Seq<char>, name: Seq<char>) -> Seq<char> {
    match parent_spec(src) {
        Some(p) => join_spec(p, name),
        None => name,
    }
}

/// `kind` moves `src` to `dst`.
pub open spec fn is_move_rename(kind: PendingKind, src: Seq<char>, dst: Seq<char>) -> bool {
    kind matches PendingKind::MoveRename(s, d) && s@ == src && d@ == dst
}

/// A message to the name dialog applied to the interface.
pub open spec fn rename_stepped(old: Model, msg: Message, new: Model, eff: Effect) -> bool {
    match msg {
        Message::Edit(_, op) => edited(old.rename_input, new.rename_input, op) && new.rename_input.active
            == old.rename_input.active && new == (Model { rename_input: new.rename_input, ..old }) && eff is Nothing,
        Message::Cancel(_) => transfer_cancelled(old, new) && eff is Nothing,
        Message::ConfirmRename => {
            let name = old.rename_input.text@;
            if name.len() == 0 {
                transfer_cancelled(old, new) && eff is Nothing
            } else if old.transfer_mode is Rename {
                let chosen = old.left_files.chosen();
                if chosen.len() == 0 {
                    transfer_cancelled(old, new) && eff is Nothing
                } else {
                    let src = join_spec(old.left_files.current_dir@, chosen[0].name@);
                    exists|kind: PendingKind|
                        #[trigger] is_move_rename(kind, src, renamed_path(src, name)) && if same_location(kind) {
                            new == (Model { error_message: new.error_message, ..old }) && opt_view(
                                new.error_message,
                            ) == same_location_note(kind) && eff is Nothing
                        } else {
                            &&& closed_field(new.rename_input)
                            &&& opt_view(new.pending_select) == Some(name)
                            &&& new == (Model {
                                rename_input: new.rename_input,
                                transfer_mode: TransferMode::Idle,
                                pending_select: new.pending_select,
                                ..old
                            })
                            &&& eff matches Effect::CheckConflicts(k) && k == kind
                        }
                } 
            } else {
                let mid = Model {
                    rename_input: input_box::Model { active: false, ..old.rename_input },
                    ..old
                };
                target_panel_opened(mid, new, old.transfer_mode, eff)
            }
        },
        _ => false,
    }
}

/// Confirming a delete prompt: the active panel's pending targets are handed
/// to a background delete, and its prompt, targets and marks are cleared.
pub open spec fn delete_confirmed(old: Model, new: Model, eff: Effect) -> bool {
    match active_side(old) {
        None => new == old && eff is Nothing,
        Some(side) => {
            let p = panel_on(old, side);
            let np = panel_on(new, side);
            let ts = p.delete_targets@;
            &&& np == (file_panel::Model {
                delete_confirm: false,
                delete_targets: np.delete_targets,
                selected: np.selected,
                ..p
            })
            &&& np.delete_targets@.len() == 0
            &&& np.selected@.is_empty()
            &&& if ts.len() == 0 {
                with_panel(old, side, np, new) && eff is Nothing
            } else {
                &&& new.progress == Some(TransferProgress { op: TransferOp::Delete, current: 0, total: 0 })
                &&& with_panel(Model { progress: new.progress, ..old }, side, np, new)
                &&& eff matches Effect::StartDelete(srcs) && srcs@.len() == ts.len() && forall|i: int|
                    0 <= i < ts.len() ==> (#[trigger] srcs@[i])@ == ts[i].path@
            }
        },
    }
}

/// A message the popups and dialogs leave alone, applied to the panel that has
/// the keys.
pub open spec fn dispatched(old: Model, msg: Message, new: Model, eff: Effect) -> bool {
    match active_side(old) {
        Some(side) => exists|p: file_panel::Model, req: PanelRequest|
            #[trigger] file_panel::stepped(panel_on(old, side), msg, p, req) && with_panel(old, side, p, new)
                && panel_effect(eff, side, req),
        None => new == (Model { pinned_panel: new.pinned_panel, ..old }) && new.pinned_panel.pins
            == old.pinned_panel.pins && new.pinned_panel.selection == pinned_panel::moved(
            old.pinned_panel.selection as int,
            old.pinned_panel.pins@.len() as int,
            msg,
        ) && eff is Nothing,
    }
}

/// One message applied to the whole interface: `old` becomes `new`, and `eff`
/// is what the caller has to do.
pub open spec fn step(old: Model, msg: Message, new: Model, eff: Effect) -> bool {
    match msg {
        Message::Quit => new == old && eff is Quit,
        Message::NextPanel | Message::PrevPanel => eff is Nothing && if old.file_view is Some
            && old.transfer_mode is Idle {
            new == (Model { file_view_focused: !old.file_view_focused, ..old })
        } else {
            new == (Model { active_panel: next_panel(old.active_panel), ..old })
        },
        Message::TogglePinnedPanel => eff is Nothing && if old.active_panel is Pinned {
            new == (Model { active_panel: old.origin_panel, ..old })
        } else {
            new == (Model { origin_panel: old.active_panel, active_panel: ActivePanel::Pinned, ..old })
        },
        Message::PinCurrentDir => {
            let dir = origin_panel_spec(old).current_dir;
            &&& new.pinned_panel.pins@ == (if pinned(old.pinned_panel.pins@, dir@) {
                old.pinned_panel.pins@
            } else {
                old.pinned_panel.pins@.push(dir)
            })
            &&& new.pinned_panel.selection == old.pinned_panel.selection
            &&& new == (Model { pinned_panel: new.pinned_panel, active_panel: old.origin_panel, ..old })
            &&& eff is Nothing
        },
        Message::DeletePinnedDir => {
            let sel = old.pinned_panel.selection;
            let pins = old.pinned_panel.pins@;
            &&& eff is Nothing
            &&& if sel < pins.len() {
                &&& new.pinned_panel.pins@ == pins.remove(sel as int)
                &&& new.pinned_panel.selection == (if pins.len() > 1 {
                    if sel < pins.len() - 2 { sel as int } else { pins.len() - 2 }
                } else {
                    0
                })
                &&& new == (Model { pinned_panel: new.pinned_panel, ..old })
            } else {
                new == old
            }
        },
        Message::SelectPinnedDir => {
            let sel = old.pinned_panel.selection;
            let pins = old.pinned_panel.pins@;
            &&& new == (Model { active_panel: old.origin_panel, ..old })
            &&& if sel < pins.len() && !(old.origin_panel is Pinned) {
                lists_on(eff, if old.origin_panel is LeftFiles { Side::Left } else { Side::Right }, pins[sel as int]@, None)
            } else {
                eff is Nothing
            }
        },
        Message::ToggleHelp => new == (Model { show_help: !old.show_help, help_selection: 0, ..old })
            && eff is Nothing,
        Message::Nav(Surface::Help, op) => eff is Nothing && new == (Model {
            help_selection: match op {
                NavOp::Up => help_panel::prev_selectable_spec(old.help_selection as int) as usize,
                NavOp::Down => help_panel::next_selectable_spec(old.help_selection as int) as usize,
                _ => old.help_selection,
            },
            ..old
        }),
        Message::SetShiftHeld(held) => new == (Model { shift_held: held, ..old }) && eff is Nothing,
        Message::OpenEditor | Message::OpenDefault => new == old && match active_file_path_spec(old) {
            None => eff is Nothing,
            Some(path) => if msg is OpenEditor {
                eff matches Effect::OpenEditor(p) && p@ == path
            } else {
                eff matches Effect::OpenDefault(p) && p@ == path
            },
        },
        Message::StartCopy | Message::StartCopyRename | Message::CancelCopy | Message::ConfirmCopy
        | Message::StartMove | Message::StartMoveRename | Message::CancelMove | Message::ConfirmMove =>
            transfer_stepped(old, msg, new, eff),
        Message::RenameInPlace => eff is Nothing && if old.left_files.chosen().len() == 1 {
            rename_opened(old, new, TransferMode::Rename)
        } else {
            new == old
        },
        Message::ConfirmRename | Message::Cancel(Field::Rename) | Message::Edit(Field::Rename, _) =>
            rename_stepped(old, msg, new, eff),
        Message::DeleteConfirm => delete_confirmed(old, new, eff),
        Message::ProgressTick { current, total } => eff is Nothing && new == (Model {
            progress: match old.progress {
                Some(p) => Some(TransferProgress { current, total, ..p }),
                None => None,
            },
            ..old
        }),
        Message::ProgressDone => {
            &&& new == (Model { progress: None, pending_select: None, ..old })
            &&& eff matches Effect::ReloadPanels { reselect_left } && reselect_left == old.pending_select
        },
        Message::OverwriteConfirm => match old.pending_overwrite {
            None => new == old && eff is Nothing,
            Some(po) => new == (Model {
                pending_overwrite: None,
                progress: Some(TransferProgress { op: kind_op(po.kind), current: 0, total: 0 }),
                ..old
            }) && starts(po.kind, eff),
        },
        Message::OverwriteCancel => new == (Model {
            pending_overwrite: None,
            pending_select: None,
            active_panel: ActivePanel::LeftFiles,
            ..old
        }) && eff is Nothing,
        Message::DismissError => new == (Model { error_message: None, ..old }) && eff is Nothing,
        Message::SearchOpen(kind) | Message::SearchToggleFocus(kind) | Message::Close(Surface::Search(kind))
        | Message::SearchConfirm(kind) | Message::Edit(Field::SearchQuery(kind), _)
        | Message::Nav(Surface::Search(kind), _) => search_updated(old, kind, msg, new, eff),
        Message::ViewFile | Message::Close(Surface::FileView) | Message::Nav(Surface::FileView, _)
        | Message::Close(Surface::Capture) | Message::Nav(Surface::Capture, _) | Message::OpenCommandPicker
        | Message::Nav(Surface::CommandPicker, _) | Message::Close(Surface::CommandPicker)
        | Message::CommandPickerConfirm | Message::CommandPickerShortcut(_) | Message::Edit(
            Field::CommandInput,
            _,
        ) | Message::Cancel(Field::CommandInput) | Message::CommandInputConfirm => extra_step(old, msg, new, eff),
        _ => dispatched(old, msg, new, eff),
    }
}

/// Hand a checked transfer on: start it when it overwrites nothing, otherwise
/// hold it behind the overwrite prompt. `conflicts` are the names in the
/// destination the transfer would replace.
pub fn conflicts_checked(mut model: Model, kind: PendingKind, conflicts: Vec<String>) -> (res: (Model, Effect))
    ensures
        conflicts_handled(model, kind, conflicts@, res.0, res.1),
{
    if conflicts.len() == 0 {
        model.progress = Some(TransferProgress { op: kind.op(), current: 0, total: 0 });
        (model, pending_effect(kind))
    } else {
        model.pending_overwrite = Some(PendingOverwrite { kind, conflicts });
        (model, Effect::Nothing)
    }
}

fn overwrite_confirm(mut model: Model) -> (res: (Model, Effect))
    ensures
        step(model, Message::OverwriteConfirm, res.0, res.1),
{
    let mut pending: Option<PendingOverwrite> = None;
    std::mem::swap(&mut pending, &mut model.pending_overwrite);
    match pending {
        None => (model, Effect::Nothing),
        Some(po) => {
            model.progress = Some(TransferProgress { op: po.kind.op(), current: 0, total: 0 });
            (model, pending_effect(po.kind))
        },
    }
}

fn update_transfer(mut model: Model, msg: Message) -> (res: (Model, Effect))
    requires
        model.wf(),
        msg is StartCopy || msg is StartCopyRename || msg is CancelCopy || msg is ConfirmCopy
            || msg is StartMove || msg is StartMoveRename || msg is CancelMove || msg is ConfirmMove,
    ensures
        res.0.wf(),
        transfer_stepped(model, msg, res.0, res.1),
{
    match msg {
        Message::StartCopy => {
            let eff = open_target_panel(&mut model, TransferMode::Copy);
            (model, eff)
        },
        Message::StartMove => {
            let eff = open_target_panel(&mut model, TransferMode::Move);
            (model, eff)
        },
        Message::StartCopyRename | Message::StartMoveRename => {
            let moving = match msg {
                Message::StartMoveRename => true,
                _ => false,
            };
            let targets = model.left_files.action_targets();
            if targets.len() == 0 {
                return (model, Effect::Nothing);
            }
            if targets.len() != 1 {
                // Several entries: fall back to a plain copy or move.
                let eff = open_target_panel(
                    &mut model,
                    if moving { TransferMode::Move } else { TransferMode::Copy },
                );
                return (model, eff);
            }
            open_rename_dialog(
                &mut model,
                if moving { TransferMode::MoveRename } else { TransferMode::CopyRename },
            );
            (model, Effect::Nothing)
        },
        Message::CancelCopy | Message::CancelMove => {
            cancel_transfer(&mut model);
            (model, Effect::Nothing)
        },
        Message::ConfirmCopy => {
            let eff = confirm_transfer(&mut model, TransferOp::Copy);
            (model, eff)
        },
        _ => {
            let eff = confirm_transfer(&mut model, TransferOp::Move);
            (model, eff)
        },
    }
}

fn update_rename(mut model: Model, msg: Message) -> (res: (Model, Effect))
    requires
        model.wf(),
        msg is ConfirmRename || msg is Cancel || msg is Edit,
    ensures
        res.0.wf(),
        rename_stepped(model, msg, res.0, res.1),
{
    match msg {
        Message::Edit(_, op) => {
            input_box::apply(&mut model.rename_input, op);
            (model, Effect::Nothing)
        },
        Message::Cancel(_) => {
            cancel_transfer(&mut model);
            (model, Effect::Nothing)
        },
        _ => {
            if model.rename_input.text.as_str().is_empty() {
                cancel_transfer(&mut model);
                return (model, Effect::Nothing);
            }
            if model.transfer_mode == TransferMode::Rename {
                // In-place rename: move the entry within its directory under
                // the new name.
                let targets = model.left_files.action_targets();
                if targets.len() == 0 {
                    cancel_transfer(&mut model);
                    return (model, Effect::Nothing);
                }
                let ghost chosen = model.left_files.chosen();
                assert(file_panel::target_for(targets@[0], model.left_files.current_dir@, chosen[0]));
                let new_name = model.rename_input.text.clone();
                let src = targets[0].path.clone();
                let dst = match parent(src.as_str()) {
                    Some(p) => join(p.as_str(), new_name.as_str()),
                    None => new_name.clone(),
                };
                let kind = PendingKind::MoveRename(src, dst);
                assert(is_move_rename(kind, src@, renamed_path(src@, new_name@)));
                match same_location_message(&kind) {
                    Some(message) => {
                        // Leave the dialog open behind the message, so the
                        // name can be edited rather than typed again.
                        model.error_message = Some(message);
                        return (model, Effect::Nothing);
                    },
                    None => {},
                }
                model.rename_input.close();
                model.transfer_mode = TransferMode::Idle;
                model.pending_select = Some(new_name);
                return (model, Effect::CheckConflicts(kind));
            }
            // Keep the typed name and pick the destination directory.
            model.rename_input.active = false;
            let mode = model.transfer_mode;
            let eff = open_target_panel(&mut model, mode);
            (model, eff)
        },
    }
}

fn update_delete_confirm(mut model: Model) -> (res: (Model, Effect))
    requires
        model.wf(),
    ensures
        res.0.wf(),
        delete_confirmed(model, res.0, res.1),
{
    let side = match model.active_panel {
        ActivePanel::LeftFiles => Side::Left,
        ActivePanel::RightFiles => Side::Right,
        ActivePanel::Pinned => return (model, Effect::Nothing),
    };
    let ghost old = model;
    let mut panel = match side {
        Side::Left => {
            let mut p = file_panel::Model {
                current_dir: String::new(),
                entries: Vec::new(),
                selection: 0,
                selected: std::collections::BTreeSet::new(),
                search: input_box::Model::new(),
                new_path_input: input_box::Model::new(),
                goto_input: input_box::Model::new(),
                delete_confirm: false,
                delete_targets: Vec::new(),
                sort_order: file_panel::SortOrder::Name,
                dirs_only: false,
            };
            std::mem::swap(&mut p, &mut model.left_files);
            p
        },
        Side::Right => {
            let mut p = file_panel::Model {
                current_dir: String::new(),
                entries: Vec::new(),
                selection: 0,
                selected: std::collections::BTreeSet::new(),
                search: input_box::Model::new(),
                new_path_input: input_box::Model::new(),
                goto_input: input_box::Model::new(),
                delete_confirm: false,
                delete_targets: Vec::new(),
                sort_order: file_panel::SortOrder::Name,
                dirs_only: false,
            };
            std::mem::swap(&mut p, &mut model.right_files);
            p
        },
    };
    let ghost p0 = panel;
    let mut sources: Vec<String> = Vec::new();
    for i in 0..panel.delete_targets.len()
        invariant
            sources@.len() == i,
            forall|j: int| 0 <= j < i ==> (#[trigger] sources@[j])@ == panel.delete_targets@[j].path@,
    {
        sources.push(panel.delete_targets[i].path.clone());
    }
    panel.delete_confirm = false;
    panel.delete_targets = Vec::new();
    panel.selected = std::collections::BTreeSet::new();
    let empty = sources.len() == 0;
    if !empty {
        model.progress = Some(TransferProgress { op: TransferOp::Delete, current: 0, total: 0 });
    }
    match side {
        Side::Left => {
            model.left_files = panel;
        },
        Side::Right => {
            model.right_files = panel;
        },
    }
    if empty {
        (model, Effect::Nothing)
    } else {
        (model, Effect::StartDelete(sources))
    }
}

/// Apply a text edit to whichever of the popup's two fields has the cursor;
/// report the root, query and mask the search should re-run with, or `None`
/// while the query is empty — a mask on its own has nothing to look for.
fn edit_query_panel(panel: &mut ResultPanel, op: EditOp) -> (rerun: Option<(String, String, String)>)
    requires
        old(panel).wf(),
        op is Char || op is Backspace,
    ensures
        final(panel).wf(),
        query_edited(*old(panel), *final(panel), op),
        match rerun {
            Some((r, q, m)) => final(panel).query.text@.len() != 0 && r == old(panel).root && q@
                == final(panel).query.text@ && m@ == final(panel).mask.text@,
            None => final(panel).query.text@.len() == 0,
        },
{
    match panel.input_field {
        InputField::Query => input_box::apply(&mut panel.query, op),
        InputField::Mask => input_box::apply(&mut panel.mask, op),
    }
    panel.results = Vec::new();
    panel.selection = 0;
    panel.done = panel.query.text.as_str().is_empty();
    if panel.query.text.as_str().is_empty() {
        None
    } else {
        Some((panel.root.clone(), panel.query.text.clone(), panel.mask.text.clone()))
    }
}

/// Move the cursor within the focused field, crossing into the other one when
/// it runs off the end: Right past the query enters the mask at its start, Left
/// before the mask returns to the end of the query.
fn move_query_cursor(panel: &mut ResultPanel, right: bool)
    requires
        old(panel).wf(),
    ensures
        final(panel).wf(),
        query_cursor_moved(*old(panel), *final(panel), right),
{
    let query_len = crate::text::char_len(&panel.query.text);
    match (panel.input_field, right) {
        (InputField::Query, true) if panel.query.pos == query_len => {
            panel.input_field = InputField::Mask;
            panel.mask.cursor_home();
        },
        (InputField::Mask, false) if panel.mask.pos == 0 => {
            panel.input_field = InputField::Query;
            panel.query.cursor_end();
        },
        (InputField::Query, true) => panel.query.move_right(),
        (InputField::Query, false) => panel.query.move_left(),
        (InputField::Mask, true) => panel.mask.move_right(),
        (InputField::Mask, false) => panel.mask.move_left(),
    }
}

/// Apply a message to an open result popup.
fn step_search_panel(panel: &mut ResultPanel, msg: Message) -> (out: PanelOutcome)
    requires
        old(panel).wf(),
    ensures
        final(panel).wf(),
        search_stepped(*old(panel), msg, *final(panel), out),
{
    match msg {
        Message::Edit(_, op) => match op {
            EditOp::CursorLeft => {
                move_query_cursor(panel, false);
                PanelOutcome::Nothing
            },
            EditOp::CursorRight => {
                move_query_cursor(panel, true);
                PanelOutcome::Nothing
            },
            _ => match edit_query_panel(panel, op) {
                Some((root, query, mask)) => PanelOutcome::Rerun(root, query, mask),
                None => PanelOutcome::Nothing,
            },
        },
        Message::SearchToggleFocus(_) => {
            panel.input_focused = !panel.input_focused;
            PanelOutcome::Nothing
        },
        Message::Nav(_, op) => {
            match op {
                // Up off the first result returns the keys to the query row.
                NavOp::Up => {
                    if panel.selection == 0 {
                        panel.input_focused = true;
                    } else {
                        panel.selection = panel.selection - 1;
                    }
                },
                NavOp::Down => {
                    let n = panel.results.len();
                    if n > 0 {
                        panel.selection = if panel.selection < n - 1 {
                            panel.selection + 1
                        } else {
                            n - 1
                        };
                    }
                },
                // The results list neither pages nor marks.
                _ => {},
            }
            PanelOutcome::Nothing
        },
        Message::Close(_) => PanelOutcome::Close,
        // Enter with nothing to confirm leaves the popup up.
        Message::SearchConfirm(_) => {
            if panel.selection < panel.results.len() {
                PanelOutcome::Reveal(panel.results[panel.selection].path.clone())
            } else {
                PanelOutcome::Nothing
            }
        },
        _ => PanelOutcome::Nothing,
    }
}

/// Move the left file list onto `path` and give it the keys, so a confirmed
/// result is the entry under the cursor once the listing arrives.
fn reveal_result(model: &mut Model, path: &String) -> (eff: Effect)
    ensures
        revealed(*old(model), path@, *final(model), eff),
{
    model.active_panel = ActivePanel::LeftFiles;
    panel_request(Side::Left, file_panel::parent_listing(parent(path.as_str()), file_name(path.as_str())))
}

/// The active file panel's directory: where a search or a command opened now
/// would run; `None` while the pinned popup has the keys.
pub fn active_panel_dir(model: &Model) -> (d: Option<String>)
    ensures
        opt_view(d) == active_panel_dir_spec(*model),
{
    match model.active_panel {
        ActivePanel::LeftFiles => Some(model.left_files.current_dir.clone()),
        ActivePanel::RightFiles => Some(model.right_files.current_dir.clone()),
        ActivePanel::Pinned => None,
    }
}

fn update_search(mut model: Model, kind: SearchKind, msg: Message) -> (res: (Model, Effect))
    requires
        model.wf(),
    ensures
        res.0.wf(),
        search_updated(model, kind, msg, res.0, res.1),
{
    // Opening needs the root before there is a popup to ask for one.
    if let Message::SearchOpen(_) = msg {
        let root = match active_panel_dir(&model) {
            Some(r) => r,
            None => return (model, Effect::Nothing),
        };
        // Index up front so the first keystroke searches a ready index.
        return match kind {
            SearchKind::Content => {
                model.content_search = Some(ResultPanel::new(root.clone()));
                (model, Effect::PrepareContentSearch { root })
            },
            SearchKind::Files => {
                model.file_find = Some(ResultPanel::new(root.clone()));
                (model, Effect::PrepareFileFind { root })
            },
        };
    }
    let ghost old = model;
    let mut slot: Option<ResultPanel> = None;
    match kind {
        SearchKind::Content => std::mem::swap(&mut slot, &mut model.content_search),
        SearchKind::Files => std::mem::swap(&mut slot, &mut model.file_find),
    }
    let mut panel = match slot {
        Some(p) => p,
        None => {
            return (with_slot(model, kind, None), Effect::Nothing);
        },
    };
    let ghost p0 = panel;
    let outcome = step_search_panel(&mut panel, msg);
    assert(search_stepped(p0, msg, panel, outcome));
    match outcome {
        PanelOutcome::Nothing => (with_slot(model, kind, Some(panel)), Effect::Nothing),
        PanelOutcome::Rerun(root, query, mask) => {
            let eff = match kind {
                SearchKind::Content => Effect::StartContentSearch { root, query, mask },
                SearchKind::Files => Effect::StartFileFind { root, query, mask },
            };
            (with_slot(model, kind, Some(panel)), eff)
        },
        PanelOutcome::Close => (with_slot(model, kind, None), Effect::Nothing),
        PanelOutcome::Reveal(path) => {
            let mut m = with_slot(model, kind, None);
            let ghost mid = m;
            assert(with_search_slot(old, kind, None, mid));
            let eff = reveal_result(&mut m, &path);
            (m, eff)
        },
    }
}

/// Put `slot` back as the result popup of `kind`.
fn with_slot(mut model: Model, kind: SearchKind, slot: Option<ResultPanel>) -> (m: Model)
    ensures
        with_search_slot(model, kind, slot, m),
{
    match kind {
        SearchKind::Content => model.content_search = slot,
        SearchKind::Files => model.file_find = slot,
    }
    model
}

/// The entry the viewer shows for a state: the path, name and directory flag
/// of the active file panel's highlighted entry; `None` while the pinned popup
/// has the keys or nothing is highlighted.
pub open spec fn view_target_spec(m: Model) -> Option<(Seq<char>, Seq<char>, bool)> {
    match active_side(m) {
        None => None,
        Some(side) => {
            let p = panel_on(m, side);
            let vis = p.visible();
            if p.selection < vis.len() {
                let e = p.entries@[vis[p.selection as int] as int];
                Some((join_spec(p.current_dir@, e.name@), e.name@, e.is_dir))
            } else {
                None
            }
        },
    }
}

/// The viewer `v` shows the entry `t`.
pub open spec fn shows_target(v: FileView, t: (Seq<char>, Seq<char>, bool)) -> bool {
    v.path@ == t.0 && v.name@ == t.1 && v.is_dir == t.2
}

/// `new` is `old` with the viewer closed and the keys back on the file list.
pub open spec fn view_closed(old: Model, new: Model) -> bool {
    new == (Model { file_view: None, file_view_focused: false, ..old })
}

/// `new` is `mid` with an open viewer moved onto the highlighted entry, when
/// the file list has moved to another one.
pub open spec fn synced(mid: Model, new: Model) -> bool {
    match (mid.file_view, view_target_spec(mid)) {
        (Some(v), Some(t)) => if !same_dir(v.path@, t.0) {
            (new.file_view matches Some(w) && shows_target(w, t)) && new == (Model {
                file_view: new.file_view,
                ..mid
            })
        } else {
            new == mid
        },
        _ => new == mid,
    }
}

/// Confirming the highlighted preset: one that asks for a value opens the
/// prompt; any other is handed on to be filled in, with no value.
pub open spec fn picker_confirmed(old: Model, new: Model, eff: Effect) -> bool {
    match old.command_picker {
        None => new == old && eff is Nothing,
        Some(p) => if p.selection >= p.presets@.len() {
            new == old && eff is Nothing
        } else if p.presets@[p.selection as int].needs_input {
            &&& eff is Nothing
            &&& new.command_picker matches Some(q) && (q.input matches Some(f) && opened_field(f))
                && q == (CommandPicker { input: q.input, ..p })
            &&& new == (Model { command_picker: new.command_picker, ..old })
        } else {
            &&& new == old
            &&& eff matches Effect::ExpandPreset { input } && input@.len() == 0
        },
    }
}

/// `new` is `old` with the preset list's highlight moved by `op`.
pub open spec fn picker_stepped(old: Model, p: CommandPicker, op: NavOp, new: Model) -> bool {
    &&& new.command_picker matches Some(q) && q.selection == command_picker::picker_moved(p, op) && q == (
    CommandPicker { selection: q.selection, ..p })
    &&& new == (Model { command_picker: new.command_picker, ..old })
}

/// A message to the viewer, the capture view or the preset list applied to
/// the interface.
pub open spec fn extra_step(old: Model, msg: Message, new: Model, eff: Effect) -> bool {
    match msg {
        Message::ViewFile => eff is Nothing && if old.file_view is Some {
            view_closed(old, new)
        } else {
            match view_target_spec(old) {
                None => new == old,
                Some(t) => (new.file_view matches Some(v) && shows_target(v, t)) && new == (Model {
                    file_view: new.file_view,
                    ..old
                }),
            }
        },
        Message::Close(Surface::FileView) => eff is Nothing && view_closed(old, new),
        Message::Nav(Surface::FileView, op) => new == old && if old.file_view is Some && (op is Up || op is Down
            || op is PageUp || op is PageDown) {
            (eff matches Effect::ScrollView(o) && o == op)
        } else {
            eff is Nothing
        },
        Message::Close(Surface::Capture) => if old.capture_view is Some {
            new == (Model { capture_view: None, ..old }) && eff is RelistPanels
        } else {
            new == old && eff is Nothing
        },
        Message::Nav(Surface::Capture, op) => eff is Nothing && match old.capture_view {
            None => new == old,
            Some(v) => (new.capture_view matches Some(w) && w.scroll == capture_view::scrolled(
                v.scroll as int,
                op,
                capture_view::max_scroll_spec(v),
                capture_view::page_step_spec(v),
            ) && w == (CaptureView { scroll: w.scroll, ..v })) && new == (Model {
                capture_view: new.capture_view,
                ..old
            }),
        },
        Message::OpenCommandPicker => new == old && if old.active_panel is Pinned {
            eff is Nothing
        } else {
            eff is LoadPresets
        },
        Message::Nav(Surface::CommandPicker, op) => eff is Nothing && match old.command_picker {
            None => new == old,
            Some(p) => picker_stepped(old, p, op, new),
        },
        Message::Close(Surface::CommandPicker) => eff is Nothing && new == (Model { command_picker: None, ..old }),
        Message::CommandPickerConfirm => picker_confirmed(old, new, eff),
        Message::CommandPickerShortcut(c) => match old.command_picker {
            None => new == old && eff is Nothing,
            Some(p) => {
                let k = command_picker::shortcut_pos(p.presets@, c, 0);
                if k >= 0 {
                    picker_confirmed(
                        Model { command_picker: Some(CommandPicker { selection: k as usize, ..p }), ..old },
                        new,
                        eff,
                    )
                } else if c == 'j' {
                    eff is Nothing && picker_stepped(old, p, NavOp::Down, new)
                } else if c == 'k' {
                    eff is Nothing && picker_stepped(old, p, NavOp::Up, new)
                } else {
                    new == old && eff is Nothing
                }
            },
        },
        Message::Edit(_, op) => eff is Nothing && match old.command_picker {
            None => new == old,
            Some(p) => match p.input {
                None => new == old,
                Some(f) => (new.command_picker matches Some(q) && (q.input matches Some(g) && edited(f, g, op)
                    && g.active == f.active) && q == (CommandPicker { input: q.input, ..p })) && new == (Model {
                    command_picker: new.command_picker,
                    ..old
                }),
            },
        },
        Message::Cancel(_) => eff is Nothing && match old.command_picker {
            None => new == old,
            Some(p) => (new.command_picker matches Some(q) && q.input is None && q == (CommandPicker {
                input: q.input,
                ..p
            })) && new == (Model { command_picker: new.command_picker, ..old }),
        },
        Message::CommandInputConfirm => new == old && match old.command_picker {
            None => eff is Nothing,
            Some(p) => eff matches Effect::ExpandPreset { input } && input@ == (match p.input {
                Some(f) => f.text@,
                None => Seq::<char>::empty(),
            }),
        },
        _ => false,
    }
}

/// The entry the viewer would show: the path, name and directory flag of the
/// active file panel's highlighted entry.
pub fn view_target(model: &Model) -> (t: Option<(String, String, bool)>)
    ensures
        match t {
            Some((p, n, d)) => view_target_spec(*model) == Some((p@, n@, d)),
            None => view_target_spec(*model) is None,
        },
{
    let panel = match model.active_panel {
        ActivePanel::LeftFiles => &model.left_files,
        ActivePanel::RightFiles => &model.right_files,
        ActivePanel::Pinned => return None,
    };
    let vis = panel.visible_entries();
    // Reading the length tells the proof that the listing fits in a `usize`.
    let _count = panel.entries.len();
    proof {
        file_panel::lemma_visible_upto(panel.entries@, panel.filter_key(), panel.dirs_only, panel.entries@.len() as int);
    }
    if panel.selection >= vis.len() {
        return None;
    }
    let e = &panel.entries[vis[panel.selection]];
    Some((join(panel.current_dir.as_str(), e.name.as_str()), e.name.clone(), e.is_dir))
}

/// Move an open viewer onto the highlighted entry when the file list has
/// moved to another one.
fn sync_file_view(model: &mut Model)
    requires
        old(model).wf(),
    ensures
        synced(*old(model), *final(model)),
        final(model).wf(),
{
    let current = match &model.file_view {
        Some(v) => v.path.clone(),
        None => return,
    };
    match view_target(model) {
        Some((path, name, is_dir)) => {
            if !(current == path || same_path(current.as_str(), path.as_str())) {
                model.file_view = Some(FileView { name, path, is_dir });
            }
        },
        None => {},
    }
}

fn update_viewer(mut model: Model, msg: Message) -> (res: (Model, Effect))
    requires
        model.wf(),
        msg is ViewFile || msg matches Message::Close(Surface::FileView) || msg matches Message::Nav(
            Surface::FileView,
            _,
        ),
    ensures
        res.0.wf(),
        extra_step(model, msg, res.0, res.1),
{
    match msg {
        Message::ViewFile => {
            if model.file_view.is_some() {
                model.file_view = None;
                model.file_view_focused = false;
            } else {
                match view_target(&model) {
                    Some((path, name, is_dir)) => {
                        model.file_view = Some(FileView { name, path, is_dir });
                    },
                    None => {},
                }
            }
            (model, Effect::Nothing)
        },
        Message::Nav(_, op) => {
            let scrolls = match op {
                NavOp::Up | NavOp::Down | NavOp::PageUp | NavOp::PageDown => true,
                _ => false,
            };
            if model.file_view.is_some() && scrolls {
                (model, Effect::ScrollView(op))
            } else {
                (model, Effect::Nothing)
            }
        },
        _ => {
            model.file_view = None;
            model.file_view_focused = false;
            (model, Effect::Nothing)
        },
    }
}

fn update_capture(mut model: Model, msg: Message) -> (res: (Model, Effect))
    requires
        model.wf(),
        msg matches Message::Close(Surface::Capture) || msg matches Message::Nav(Surface::Capture, _),
    ensures
        res.0.wf(),
        extra_step(model, msg, res.0, res.1),
{
    match msg {
        Message::Nav(_, op) => {
            let mut slot: Option<CaptureView> = None;
            std::mem::swap(&mut slot, &mut model.capture_view);
            match slot {
                Some(mut v) => {
                    capture_view::scroll(&mut v, op);
                    model.capture_view = Some(v);
                },
                None => {},
            }
            (model, Effect::Nothing)
        },
        _ => {
            if model.capture_view.is_some() {
                model.capture_view = None;
                (model, Effect::RelistPanels)
            } else {
                (model, Effect::Nothing)
            }
        },
    }
}

/// Apply the confirmation of the highlighted preset.
fn confirm_preset(mut model: Model) -> (res: (Model, Effect))
    requires
        model.wf(),
    ensures
        res.0.wf(),
        picker_confirmed(model, res.0, res.1),
{
    let mut slot: Option<CommandPicker> = None;
    std::mem::swap(&mut slot, &mut model.command_picker);
    let mut p = match slot {
        Some(p) => p,
        None => return (model, Effect::Nothing),
    };
    if p.selection >= p.presets.len() {
        model.command_picker = Some(p);
        return (model, Effect::Nothing);
    }
    if p.presets[p.selection].needs_input {
        let mut input = input_box::Model::new();
        input.open();
        p.input = Some(input);
        model.command_picker = Some(p);
        (model, Effect::Nothing)
    } else {
        model.command_picker = Some(p);
        (model, Effect::ExpandPreset { input: String::new() })
    }
}

fn update_command(mut model: Model, msg: Message) -> (res: (Model, Effect))
    requires
        model.wf(),
        msg is OpenCommandPicker || msg matches Message::Nav(Surface::CommandPicker, _) || msg matches Message::Close(
            Surface::CommandPicker,
        ) || msg is CommandPickerConfirm || msg is CommandPickerShortcut || msg matches Message::Edit(
            Field::CommandInput,
            _,
        ) || msg matches Message::Cancel(Field::CommandInput) || msg is CommandInputConfirm,
    ensures
        res.0.wf(),
        extra_step(model, msg, res.0, res.1),
{
    match msg {
        Message::OpenCommandPicker => {
            if model.active_panel == ActivePanel::Pinned {
                (model, Effect::Nothing)
            } else {
                (model, Effect::LoadPresets)
            }
        },
        Message::Close(_) => {
            model.command_picker = None;
            (model, Effect::Nothing)
        },
        Message::CommandPickerConfirm => confirm_preset(model),
        Message::CommandInputConfirm => {
            let input = match &model.command_picker {
                None => return (model, Effect::Nothing),
                Some(p) => match &p.input {
                    Some(f) => f.text.clone(),
                    None => String::new(),
                },
            };
            (model, Effect::ExpandPreset { input })
        },
        _ => {
            let mut slot: Option<CommandPicker> = None;
            std::mem::swap(&mut slot, &mut model.command_picker);
            let mut p = match slot {
                Some(p) => p,
                None => return (model, Effect::Nothing),
            };
            match msg {
                Message::Nav(_, op) => {
                    p.move_selection(op);
                    model.command_picker = Some(p);
                    (model, Effect::Nothing)
                },
                Message::CommandPickerShortcut(c) => match p.shortcut_index(c) {
                    Some(k) => {
                        p.selection = k;
                        model.command_picker = Some(p);
                        confirm_preset(model)
                    },
                    None => {
                        if c == 'j' {
                            p.move_selection(NavOp::Down);
                        } else if c == 'k' {
                            p.move_selection(NavOp::Up);
                        }
                        model.command_picker = Some(p);
                        (model, Effect::Nothing)
                    },
                },
                Message::Edit(_, op) => {
                    let mut slot_in: Option<input_box::Model> = None;
                    std::mem::swap(&mut slot_in, &mut p.input);
                    match slot_in {
                        Some(mut f) => {
                            input_box::apply(&mut f, op);
                            p.input = Some(f);
                        },
                        None => {},
                    }
                    model.command_picker = Some(p);
                    (model, Effect::Nothing)
                },
                _ => {
                    p.input = None;
                    model.command_picker = Some(p);
                    (model, Effect::Nothing)
                },
            }
        },
    }
}

fn update_extras(model: Model, msg: Message) -> (res: (Model, Effect))
    requires
        model.wf(),
        msg is ViewFile || msg matches Message::Close(Surface::FileView) || msg matches Message::Nav(
            Surface::FileView,
            _,
        ) || msg matches Message::Close(Surface::Capture) || msg matches Message::Nav(Surface::Capture, _)
            || msg is OpenCommandPicker || msg matches Message::Nav(Surface::CommandPicker, _) || msg matches Message::Close(
            Surface::CommandPicker,
        ) || msg is CommandPickerConfirm || msg is CommandPickerShortcut || msg matches Message::Edit(
            Field::CommandInput,
            _,
        ) || msg matches Message::Cancel(Field::CommandInput) || msg is CommandInputConfirm,
    ensures
        res.0.wf(),
        extra_step(model, msg, res.0, res.1),
{
    match msg {
        Message::ViewFile | Message::Close(Surface::FileView) | Message::Nav(Surface::FileView, _) => update_viewer(
            model,
            msg,
        ),
        Message::Close(Surface::Capture) | Message::Nav(Surface::Capture, _) => update_capture(model, msg),
        _ => update_command(model, msg),
    }
}

/// The active panel's chosen entries, as names and as full paths; `None`
/// while the pinned popup has the keys.
pub fn active_selection(model: &Model) -> (sel: Option<(Vec<String>, Vec<String>)>)
    ensures
        match active_side(*model) {
            None => sel is None,
            Some(side) => sel matches Some((names, paths)) && {
                let p = panel_on(*model, side);
                let chosen = p.chosen();
                &&& names@.len() == chosen.len()
                &&& paths@.len() == chosen.len()
                &&& forall|i: int| 0 <= i < chosen.len() ==> (#[trigger] names@[i])@ == chosen[i].name@
                &&& forall|i: int|
                    0 <= i < chosen.len() ==> (#[trigger] paths@[i])@ == join_spec(p.current_dir@, chosen[i].name@)
            },
        },
{
    let panel = match model.active_panel {
        ActivePanel::LeftFiles => &model.left_files,
        ActivePanel::RightFiles => &model.right_files,
        ActivePanel::Pinned => return None,
    };
    let targets = panel.action_targets();
    let ghost chosen = panel.chosen();
    let mut names: Vec<String> = Vec::new();
    let mut paths: Vec<String> = Vec::new();
    for i in 0..targets.len()
        invariant
            file_panel::targets_for(targets@, panel.current_dir@, chosen),
            names@.len() == i,
            paths@.len() == i,
            forall|j: int| 0 <= j < i ==> (#[trigger] names@[j])@ == chosen[j].name@,
            forall|j: int| 0 <= j < i ==> (#[trigger] paths@[j])@ == join_spec(panel.current_dir@, chosen[j].name@),
    {
        assert(file_panel::target_for(targets@[i as int], panel.current_dir@, chosen[i as int]));
        names.push(targets[i].name.clone());
        paths.push(targets[i].path.clone());
    }
    Some((names, paths))
}

/// The preset list after the presets were read: open on them, or, when they
/// could not be read, an error naming the file.
pub fn presets_loaded(mut model: Model, loaded: Result<Vec<Preset>, String>) -> (m: Model)
    ensures
        match loaded {
            Ok(ps) => m.command_picker matches Some(p) && p.presets == ps && p.selection == 0 && p.input is None
                && m == (Model { command_picker: m.command_picker, ..model }),
            Err(e) => opt_view(m.error_message) == Some("commands.json: "@ + e@) && m == (Model {
                error_message: m.error_message,
                ..model
            }),
        },
{
    match loaded {
        Ok(ps) => {
            model.command_picker = Some(CommandPicker::new(ps));
        },
        Err(e) => {
            proof {
                reveal_strlit("commands.json: ");
            }
            let mut msg = String::from_str("commands.json: ");
            msg.append(e.as_str());
            model.error_message = Some(msg);
        },
    }
    model
}

/// Running the highlighted preset once its template has been filled in, as
/// `expanded`: the list closes, and the command runs in the active panel's
/// directory, unless it names files and none is chosen, or the template could
/// not be filled in; then an error says so.
pub open spec fn preset_run(old: Model, expanded: Result<CommandLine, String>, new: Model, eff: Effect) -> bool {
    match old.command_picker {
        None => new == old && eff is Nothing,
        Some(p) => if p.selection >= p.presets@.len() {
            new == old && eff is Nothing
        } else {
            let pr = p.presets@[p.selection as int];
            match active_side(old) {
                None => new == (Model { command_picker: None, ..old }) && eff is Nothing,
                Some(side) => {
                    let panel = panel_on(old, side);
                    if pr.references_files && panel.chosen().len() == 0 {
                        &&& new == (Model { command_picker: None, error_message: new.error_message, ..old })
                        &&& opt_view(new.error_message) == Some(
                            "'"@ + pr.label@ + "' requires a selected file (none available)"@,
                        )
                        &&& eff is Nothing
                    } else {
                        match expanded {
                            Err(e) => {
                                &&& new == (Model { command_picker: None, error_message: new.error_message, ..old })
                                &&& opt_view(new.error_message) == Some("'"@ + pr.label@ + "': "@ + e@)
                                &&& eff is Nothing
                            },
                            Ok(cmd) => {
                                &&& new == (Model { command_picker: None, ..old })
                                &&& eff matches Effect::RunCommand { spec } && spec.cwd == panel.current_dir
                                    && spec.label == pr.label && spec.mode == pr.output && match cmd {
                                    CommandLine::Argv(v) => spec.argv == Some(v) && spec.shell is None,
                                    CommandLine::Shell(sh) => spec.argv is None && spec.shell == Some(sh),
                                }
                            },
                        }
                    }
                },
            }
        },
    }
}

/// Run the highlighted preset with its template filled in as `expanded`.
pub fn run_selected_preset(mut model: Model, expanded: Result<CommandLine, String>) -> (res: (Model, Effect))
    ensures
        preset_run(model, expanded, res.0, res.1),
{
    let (label, references_files, mode) = match &model.command_picker {
        None => return (model, Effect::Nothing),
        Some(p) => {
            if p.selection >= p.presets.len() {
                return (model, Effect::Nothing);
            }
            let pr = &p.presets[p.selection];
            (pr.label.clone(), pr.references_files, pr.output)
        },
    };
    let cwd = match model.active_panel {
        ActivePanel::LeftFiles => model.left_files.current_dir.clone(),
        ActivePanel::RightFiles => model.right_files.current_dir.clone(),
        ActivePanel::Pinned => {
            model.command_picker = None;
            return (model, Effect::Nothing);
        },
    };
    let none_chosen = match model.active_panel {
        ActivePanel::LeftFiles => model.left_files.action_targets().len() == 0,
        _ => model.right_files.action_targets().len() == 0,
    };
    model.command_picker = None;
    proof {
        reveal_strlit("'");
        reveal_strlit("' requires a selected file (none available)");
        reveal_strlit("': ");
    }
    if references_files && none_chosen {
        let mut msg = String::from_str("'");
        msg.append(label.as_str());
        msg.append("' requires a selected file (none available)");
        model.error_message = Some(msg);
        return (model, Effect::Nothing);
    }
    match expanded {
        Err(e) => {
            let mut msg = String::from_str("'");
            msg.append(label.as_str());
            msg.append("': ");
            msg.append(e.as_str());
            model.error_message = Some(msg);
            (model, Effect::Nothing)
        },
        Ok(cmd) => {
            let (argv, shell) = match cmd {
                CommandLine::Argv(v) => (Some(v), None),
                CommandLine::Shell(sh) => (None, Some(sh)),
            };
            (model, Effect::RunCommand { spec: RunSpec { argv, shell, cwd, mode, label } })
        },
    }
}

/// A command run for its output has finished: show what it wrote, from the
/// top.
pub fn command_output(mut model: Model, label: String, output: String, exit_code: Option<i32>) -> (m: Model)
    ensures
        m.capture_view matches Some(v) && v.label == label && v.output == output && v.exit_code == exit_code
            && v.scroll == 0 && v.rows == 0,
        m == (Model { capture_view: m.capture_view, ..model }),
{
    model.capture_view = Some(CaptureView { label, output, exit_code, scroll: 0, rows: 0 });
    model
}

/// The messages that change the interface's own flags and slots directly.
#[verifier::rlimit(100)]
#[verifier::spinoff_prover]
fn update_simple(mut model: Model, msg: Message) -> (res: (Model, Effect))
    requires
        model.wf(),
        msg is Quit || msg is NextPanel || msg is PrevPanel || msg is TogglePinnedPanel || msg is ToggleHelp
            || msg is SetShiftHeld || msg is RenameInPlace || msg is ProgressTick || msg is ProgressDone
            || msg is OverwriteCancel || msg is DismissError,
    ensures
        res.0.wf(),
        step(model, msg, res.0, res.1),
{
    match msg {
        Message::NextPanel | Message::PrevPanel => {
            // While the viewer takes the right half, Tab moves between the
            // file list and the viewer instead of between the two lists.
            if model.file_view.is_some() && model.transfer_mode == TransferMode::Idle {
                model.file_view_focused = !model.file_view_focused;
            } else if let Message::NextPanel = msg {
                model.active_panel = model.active_panel.next();
            } else {
                model.active_panel = model.active_panel.prev();
            }
            (model, Effect::Nothing)
        },
        Message::TogglePinnedPanel => {
            if model.active_panel == ActivePanel::Pinned {
                model.active_panel = model.origin_panel;
            } else {
                model.origin_panel = model.active_panel;
                model.active_panel = ActivePanel::Pinned;
            }
            (model, Effect::Nothing)
        },
        Message::ToggleHelp => {
            model.show_help = !model.show_help;
            model.help_selection = 0;
            (model, Effect::Nothing)
        },
        Message::SetShiftHeld(held) => {
            model.shift_held = held;
            (model, Effect::Nothing)
        },
        Message::RenameInPlace => {
            let targets = model.left_files.action_targets();
            if targets.len() != 1 {
                return (model, Effect::Nothing);
            }
            open_rename_dialog(&mut model, TransferMode::Rename);
            (model, Effect::Nothing)
        },
        Message::ProgressTick { current, total } => {
            match model.progress {
                Some(p) => {
                    model.progress = Some(TransferProgress { op: p.op, current, total });
                },
                None => {},
            }
            (model, Effect::Nothing)
        },
        Message::ProgressDone => {
            model.progress = None;
            let mut reselect_left: Option<String> = None;
            std::mem::swap(&mut reselect_left, &mut model.pending_select);
            // Focus is not touched here: a copy or move already handed it back
            // to the source panel when the destination was confirmed, and a
            // delete never left the panel it ran in.
            (model, Effect::ReloadPanels { reselect_left })
        },
        Message::OverwriteCancel => {
            model.pending_overwrite = None;
            model.pending_select = None;
            model.active_panel = ActivePanel::LeftFiles;
            (model, Effect::Nothing)
        },
        Message::DismissError => {
            model.error_message = None;
            (model, Effect::Nothing)
        },
        _ => (model, Effect::Quit),
    }
}

/// Apply one message to the whole interface, returning the next state and the
/// work the caller has to do.
#[verifier::rlimit(100)]
#[verifier::spinoff_prover]
fn update_message(mut model: Model, msg: Message) -> (res: (Model, Effect))
    requires
        model.wf(),
    ensures
        res.0.wf(),
        step(model, msg, res.0, res.1),
{
    match msg {
        Message::Quit | Message::NextPanel | Message::PrevPanel | Message::TogglePinnedPanel
        | Message::ToggleHelp | Message::SetShiftHeld(_) | Message::RenameInPlace | Message::ProgressTick { .. }
        | Message::ProgressDone | Message::OverwriteCancel | Message::DismissError => update_simple(model, msg),
        Message::PinCurrentDir => update_pin_current_dir(model),
        Message::DeletePinnedDir => update_delete_pinned_dir(model),
        Message::SelectPinnedDir => update_select_pinned_dir(model),
        Message::Nav(Surface::Help, op) => update_help_scroll(model, op),
        Message::OpenEditor => update_open(model, true),
        Message::OpenDefault => update_open(model, false),
        Message::StartCopy | Message::StartCopyRename | Message::CancelCopy | Message::ConfirmCopy
        | Message::StartMove | Message::StartMoveRename | Message::CancelMove | Message::ConfirmMove =>
            update_transfer(model, msg),
        Message::ConfirmRename | Message::Cancel(Field::Rename) | Message::Edit(Field::Rename, _) =>
            update_rename(model, msg),
        Message::DeleteConfirm => update_delete_confirm(model),
        Message::OverwriteConfirm => overwrite_confirm(model),
        Message::SearchOpen(kind) | Message::SearchToggleFocus(kind) | Message::Close(Surface::Search(kind))
        | Message::SearchConfirm(kind) | Message::Edit(Field::SearchQuery(kind), _)
        | Message::Nav(Surface::Search(kind), _) => update_search(model, kind, msg),
        Message::ViewFile | Message::Close(Surface::FileView) | Message::Nav(Surface::FileView, _)
        | Message::Close(Surface::Capture) | Message::Nav(Surface::Capture, _) | Message::OpenCommandPicker
        | Message::Nav(Surface::CommandPicker, _) | Message::Close(Surface::CommandPicker)
        | Message::CommandPickerConfirm | Message::CommandPickerShortcut(_) | Message::Edit(
            Field::CommandInput,
            _,
        ) | Message::Cancel(Field::CommandInput) | Message::CommandInputConfirm => update_extras(model, msg),
        _ => dispatch_to_panel(model, msg),
    }
}

/// Apply one message to the whole interface, returning the next state and the
/// work the caller has to do. Whatever the message did, an open viewer then
/// follows the file list onto the entry now highlighted.
pub fn update(model: Model, msg: Message) -> (res: (Model, Effect))
    requires
        model.wf(),
    ensures
        res.0.wf(),
        exists|mid: Model| #[trigger] step(model, msg, mid, res.1) && synced(mid, res.0),
{
    let (mut m, eff) = update_message(model, msg);
    let ghost mid = m;
    sync_file_view(&mut m);
    assert(step(model, msg, mid, eff) && synced(mid, m));
    let res = (m, eff);
    assert(step(model, msg, mid, res.1));
    assert(synced(mid, res.0));
    res
}

/// Panel `old` after the listing `listing` of `path` arrived (`None` when it
/// could not be read) and the cursor was put on the entry named `reselect`: a
/// listing is shown as `navigate_to` shows it; then the cursor moves onto the
/// first entry with that name, if any.
pub open spec fn shows_listing(
    old: file_panel::Model,
    path: String,
    listing: Option<Vec<Entry>>,
    reselect: Option<String>,
    new: file_panel::Model,
) -> bool {
    let cursor = match listing {
        Some(_) => 0int,
        None => old.selection as int,
    };
    &&& match listing {
        Some(l) => {
            &&& new.current_dir == path
            &&& file_panel::sorted_from(new.entries@, l@, old.sort_order)
            &&& new.selected@.is_empty()
            &&& closed_field(new.search)
            &&& closed_field(new.new_path_input)
            &&& closed_field(new.goto_input)
            &&& !new.delete_confirm
            &&& new.delete_targets@.len() == 0
            &&& new.sort_order == old.sort_order
            &&& new.dirs_only == old.dirs_only
        },
        None => new == (file_panel::Model { selection: new.selection, ..old }),
    }
    &&& match reselect {
        Some(name) => {
            let hit = file_panel::first_named(new.entries@, name@, 0);
            if hit >= 0 {
                new.selection == hit as usize
            } else {
                new.selection == cursor
            }
        },
        None => new.selection == cursor,
    }
}

/// The listing for a panel's `List` request has been read (`None` when it
/// could not be): show it, then put the cursor on the entry named `reselect`.
pub fn listed(
    mut model: Model,
    side: Side,
    path: String,
    listing: Option<Vec<Entry>>,
    reselect: Option<String>,
) -> (m: Model)
    ensures
        shows_listing(panel_on(model, side), path, listing, reselect, panel_on(m, side)),
        with_panel(model, side, panel_on(m, side), m),
{
    match side {
        Side::Left => show_listing(&mut model.left_files, path, listing, reselect),
        Side::Right => show_listing(&mut model.right_files, path, listing, reselect),
    }
    model
}

fn show_listing(
    panel: &mut file_panel::Model,
    path: String,
    listing: Option<Vec<Entry>>,
    reselect: Option<String>,
)
    ensures
        shows_listing(*old(panel), path, listing, reselect, *final(panel)),
{
    match listing {
        Some(l) => panel.navigate_to(path, l),
        None => {},
    }
    match reselect {
        Some(name) => panel.reselect(name.as_str()),
        None => {},
    }
}

/// A panel's file-system job has finished: let the panel decide what follows.
pub fn panel_done(mut model: Model, side: Side, outcome: file_panel::Outcome) -> (res: (Model, Effect))
    ensures
        exists|p: file_panel::Model, req: PanelRequest|
            #[trigger] file_panel::completed(panel_on(model, side), outcome, p, req) && with_panel(model, side, p, res.0)
                && panel_effect(res.1, side, req),
{
    match side {
        Side::Left => {
            let (p, req) = file_panel::complete(model.left_files, outcome);
            let m = Model { left_files: p, ..model };
            (m, panel_request(side, req))
        },
        Side::Right => {
            let (p, req) = file_panel::complete(model.right_files, outcome);
            let m = Model { right_files: p, ..model };
            (m, panel_request(side, req))
        },
    }
}

/// A panel `old` after re-reading its directory, cursor aside: a fresh listing
/// replaces the entries, sorted in the panel's order, and drops the marks;
/// with no listing nothing changes.
pub open spec fn reload_shown(old: file_panel::Model, listing: Option<Vec<Entry>>, new: file_panel::Model) -> bool {
    match listing {
        Some(l) => {
            &&& file_panel::sorted_from(new.entries@, l@, old.sort_order)
            &&& new.selected@.is_empty()
            &&& new == (file_panel::Model {
                entries: new.entries,
                selected: new.selected,
                selection: new.selection,
                ..old
            })
        },
        None => new == (file_panel::Model { selection: new.selection, ..old }),
    }
}

/// Where a re-read keeps the cursor: where it was, moved up onto the last
/// shown entry when the listing got shorter.
pub open spec fn reload_cursor(old: file_panel::Model, listing: Option<Vec<Entry>>, new: file_panel::Model) -> int {
    match listing {
        Some(_) => {
            let count = new.visible().len();
            if count == 0 {
                0
            } else if old.selection < count {
                old.selection as int
            } else {
                count - 1
            }
        },
        None => old.selection as int,
    }
}

/// Both panels' directories have been read again after a background job:
/// show the fresh listings keeping each cursor where it was, then put the left
/// cursor on the entry a rename produced.
pub fn reloaded(
    mut model: Model,
    left: Option<Vec<Entry>>,
    right: Option<Vec<Entry>>,
    reselect_left: Option<String>,
) -> (m: Model)
    ensures
        reload_shown(model.left_files, left, m.left_files),
        reload_shown(model.right_files, right, m.right_files),
        m.right_files.selection == reload_cursor(model.right_files, right, m.right_files),
        match reselect_left {
            Some(name) => {
                let hit = file_panel::first_visible_named(
                    m.left_files.entries@,
                    m.left_files.visible(),
                    name@,
                    0,
                );
                if hit >= 0 {
                    m.left_files.selection == hit as usize
                } else {
                    m.left_files.selection == reload_cursor(model.left_files, left, m.left_files)
                }
            },
            None => m.left_files.selection == reload_cursor(model.left_files, left, m.left_files),
        },
        m == (Model { left_files: m.left_files, right_files: m.right_files, ..model }),
{
    reload_panel(&mut model.left_files, left);
    reload_panel(&mut model.right_files, right);
    let ghost mid = model.left_files;
    match reselect_left {
        Some(name) => model.left_files.select_visible_named(name.as_str()),
        None => {},
    }
    assert(model.left_files.visible() == mid.visible());
    model
}

/// Re-read one panel: show `listing` when there is one, keeping the cursor.
fn reload_panel(panel: &mut file_panel::Model, listing: Option<Vec<Entry>>)
    ensures
        reload_shown(*old(panel), listing, *final(panel)),
        final(panel).selection == reload_cursor(*old(panel), listing, *final(panel)),
{
    match listing {
        Some(l) => panel.reload_keeping_selection(l),
        None => {},
    }
}

/// The entry under the cursor of a file panel, if there is one.
pub open spec fn highlighted(p: file_panel::Model) -> Option<Entry> {
    let vis = p.visible();
    if p.selection < vis.len() {
        Some(p.entries@[vis[p.selection as int] as int])
    } else {
        None
    }
}

/// Confirming a move hands on a move, and confirming a copy a copy: without a
/// rename, of the left panel's chosen entries into the right panel's
/// directory; with one, of the first of them to the typed name there.
pub proof fn lemma_confirm_keeps_the_operation(m0: Model, msg: Message, m1: Model, e1: Effect)
    requires
        msg is ConfirmMove || msg is ConfirmCopy,
        step(m0, msg, m1, e1),
    ensures
        e1 matches Effect::CheckConflicts(k) ==> {
            let chosen = m0.left_files.chosen();
            let dir = m0.left_files.current_dir@;
            let dst = m0.right_files.current_dir@;
            if m0.transfer_mode is CopyRename || m0.transfer_mode is MoveRename {
                if msg is ConfirmMove {
                    k matches PendingKind::MoveRename(s, t) && s@ == join_spec(dir, chosen[0].name@) && t@
                        == join_spec(dst, m0.rename_input.text@)
                } else {
                    k matches PendingKind::CopyRename(s, t) && s@ == join_spec(dir, chosen[0].name@) && t@
                        == join_spec(dst, m0.rename_input.text@)
                }
            } else {
                let into = |srcs: Vec<String>, d: String|
                    d@ == dst && srcs@.len() == chosen.len() && forall|i: int|
                        0 <= i < chosen.len() ==> (#[trigger] srcs@[i])@ == join_spec(dir, chosen[i].name@);
                if msg is ConfirmMove {
                    k matches PendingKind::Move(srcs, d) && into(srcs, d)
                } else {
                    k matches PendingKind::Copy(srcs, d) && into(srcs, d)
                }
            }
        },
        e1 matches Effect::CheckConflicts(k) ==> (kind_op(k) is Move <==> msg is ConfirmMove),
{
    let op = if msg is ConfirmMove { TransferOp::Move } else { TransferOp::Copy };
    assert(transfer_confirmed(m0, op, m1, e1));
    if let Effect::CheckConflicts(k) = e1 {
        if m0.left_files.chosen().len() != 0 {
            let kind = choose|kind: PendingKind| #[trigger] confirmed_kind(m0, op, kind) && if same_location(kind) {
                &&& m1 == (Model { error_message: m1.error_message, ..m0 })
                &&& opt_view(m1.error_message) == same_location_note(kind)
                &&& e1 is Nothing
            } else {
                &&& transfer_cancelled(m0, m1)
                &&& e1 matches Effect::CheckConflicts(kk) && kk == kind
            };
            assert(kind == k);
        }
    }
}

/// A search popup only ever starts or prepares its own kind of search: the
/// content search never runs a file find, nor the file find a content search,
/// and a search re-run after an edit runs under the popup's own root.
pub proof fn lemma_search_effect_matches_popup(m0: Model, kind: SearchKind, msg: Message, m1: Model, e1: Effect)
    requires
        msg == Message::SearchOpen(kind) || msg == Message::SearchToggleFocus(kind) || msg == Message::Close(
            Surface::Search(kind),
        ) || msg == Message::SearchConfirm(kind) || (msg matches Message::Edit(f, _) && f == Field::SearchQuery(
            kind,
        )) || (msg matches Message::Nav(s, _) && s == Surface::Search(kind)),
        step(m0, msg, m1, e1),
    ensures
        kind is Content ==> !(e1 is StartFileFind) && !(e1 is PrepareFileFind),
        kind is Files ==> !(e1 is StartContentSearch) && !(e1 is PrepareContentSearch),
        e1 matches Effect::StartContentSearch { root, .. } ==> (m0.content_search matches Some(p) && root
            == p.root),
        e1 matches Effect::StartFileFind { root, .. } ==> (m0.file_find matches Some(p) && root == p.root),
{
    assert(search_updated(m0, kind, msg, m1, e1));
    if !(msg is SearchOpen) {
        if let Some(p) = search_slot(m0, kind) {
            let (q, out) = choose|q: ResultPanel, out: PanelOutcome| #[trigger] search_stepped(p, msg, q, out)
                && match out {
                PanelOutcome::Nothing => with_search_slot(m0, kind, Some(q), m1) && e1 is Nothing,
                PanelOutcome::Rerun(r, qu, ma) => with_search_slot(m0, kind, Some(q), m1) && match kind {
                    SearchKind::Content => e1 matches Effect::StartContentSearch { root, query, mask } && root
                        == r && query == qu && mask == ma,
                    SearchKind::Files => e1 matches Effect::StartFileFind { root, query, mask } && root == r
                        && query == qu && mask == ma,
                },
                PanelOutcome::Close => with_search_slot(m0, kind, None, m1) && e1 is Nothing,
                PanelOutcome::Reveal(path) => exists|mid: Model| #[trigger] with_search_slot(m0, kind, None, mid)
                    && revealed(mid, path@, m1, e1),
            };
            if let PanelOutcome::Reveal(path) = out {
                let mid = choose|mid: Model| #[trigger] with_search_slot(m0, kind, None, mid) && revealed(
                    mid,
                    path@,
                    m1,
                    e1,
                );
                assert(revealed(mid, path@, m1, e1));
            }
        }
    }
}

/// A preset command runs in the directory of the file panel that has the
/// keys, under the highlighted preset's label and output mode.
pub proof fn lemma_preset_runs_in_the_active_panel(
    m0: Model,
    expanded: Result<CommandLine, String>,
    m1: Model,
    e1: Effect,
)
    requires
        preset_run(m0, expanded, m1, e1),
    ensures
        e1 matches Effect::RunCommand { spec } ==> {
            &&& m0.active_panel is LeftFiles ==> spec.cwd == m0.left_files.current_dir
            &&& m0.active_panel is RightFiles ==> spec.cwd == m0.right_files.current_dir
            &&& !(m0.active_panel is Pinned)
            &&& m0.command_picker matches Some(p) && p.selection < p.presets@.len() && spec.label
                == p.presets@[p.selection as int].label && spec.mode == p.presets@[p.selection as int].output
        },
        m1.command_picker is None || m1 == m0,
{
}

/// Opening in the editor or with the default program opens what the file
/// panel with the keys has under its cursor, or that panel's directory when
/// nothing is; from the pinned popup nothing is opened.
pub proof fn lemma_open_uses_the_active_panel(m0: Model, msg: Message, m1: Model, e1: Effect)
    requires
        msg is OpenEditor || msg is OpenDefault,
        step(m0, msg, m1, e1),
    ensures
        m1 == m0,
        m0.active_panel is Pinned ==> e1 is Nothing,
        !(m0.active_panel is Pinned) ==> {
            let p = if m0.active_panel is RightFiles { m0.right_files } else { m0.left_files };
            let path = match highlighted(p) {
                Some(e) => join_spec(p.current_dir@, e.name@),
                None => p.current_dir@,
            };
            if msg is OpenEditor {
                e1 matches Effect::OpenEditor(o) && o@ == path
            } else {
                e1 matches Effect::OpenDefault(o) && o@ == path
            }
        },
{
}

/// The viewer is about the highlighted entry of the file panel with the keys:
/// its path in that panel's directory, its name and whether it is a directory.
pub proof fn lemma_view_target_is_the_active_highlight(m: Model)
    ensures
        m.active_panel is Pinned ==> view_target_spec(m) is None,
        !(m.active_panel is Pinned) ==> {
            let p = if m.active_panel is RightFiles { m.right_files } else { m.left_files };
            view_target_spec(m) == match highlighted(p) {
                Some(e) => Some((join_spec(p.current_dir@, e.name@), e.name@, e.is_dir)),
                None => None::<(Seq<char>, Seq<char>, bool)>,
            }
        },
{
}

/// Opening the viewer shows the highlighted entry of the file panel with the
/// keys, and nothing when no entry is highlighted there.
pub proof fn lemma_view_file_opens_the_active_highlight(m0: Model, m1: Model, e1: Effect)
    requires
        m0.file_view is None,
        step(m0, Message::ViewFile, m1, e1),
    ensures
        e1 is Nothing,
        m0.active_panel is Pinned ==> m1.file_view is None,
        !(m0.active_panel is Pinned) ==> {
            let p = if m0.active_panel is RightFiles { m0.right_files } else { m0.left_files };
            match highlighted(p) {
                Some(e) => m1.file_view matches Some(v) && v.path@ == join_spec(p.current_dir@, e.name@) && v.name@
                    == e.name@ && v.is_dir == e.is_dir,
                None => m1.file_view is None,
            }
        },
{
}

/// Opening the pinned popup from a file panel and closing it again gives the
/// keys back to that panel, changing nothing else but the remembered origin.
pub proof fn lemma_pinned_popup_round_trip(m0: Model, m1: Model, e1: Effect, m2: Model, e2: Effect)
    requires
        !(m0.active_panel is Pinned),
        step(m0, Message::TogglePinnedPanel, m1, e1),
        step(m1, Message::TogglePinnedPanel, m2, e2),
    ensures
        m2 == (Model { origin_panel: m0.active_panel, ..m0 }),
        e1 is Nothing && e2 is Nothing,
{
}

/// Showing and hiding the help leaves the help hidden-or-shown as before,
/// with its highlight back on the first row.
pub proof fn lemma_help_toggle_twice(m0: Model, m1: Model, e1: Effect, m2: Model, e2: Effect)
    requires
        step(m0, Message::ToggleHelp, m1, e1),
        step(m1, Message::ToggleHelp, m2, e2),
    ensures
        m2 == (Model { help_selection: 0, ..m0 }),
{
}

/// Pinning never pins a directory twice, and the directory is pinned
/// afterwards.
pub proof fn lemma_pinning_keeps_pins_distinct(m0: Model, m1: Model, e1: Effect)
    requires
        pins_distinct(m0.pinned_panel.pins@),
        step(m0, Message::PinCurrentDir, m1, e1),
    ensures
        pins_distinct(m1.pinned_panel.pins@),
        pinned(m1.pinned_panel.pins@, origin_panel_spec(m0).current_dir@),
{
    let dir = origin_panel_spec(m0).current_dir;
    let pins = m0.pinned_panel.pins@;
    if !pinned(pins, dir@) {
        let np = pins.push(dir);
        assert(np[pins.len() as int] == dir);
        assert forall|i: int, j: int| 0 <= i < j < np.len() implies !same_dir((#[trigger] np[i])@, (#[trigger] np[j])@) by {
            if j == pins.len() {
                assert(np[i] == pins[i]);
            } else {
                assert(np[i] == pins[i] && np[j] == pins[j]);
            }
        }
    }
}

/// Confirming a destination, or an in-place rename, never hands on a transfer
/// that would leave its sources exactly where they are.
pub proof fn lemma_same_location_never_checked(m0: Model, msg: Message, m1: Model, e1: Effect)
    requires
        msg is ConfirmCopy || msg is ConfirmMove || msg is ConfirmRename,
        step(m0, msg, m1, e1),
    ensures
        e1 matches Effect::CheckConflicts(kind) ==> !same_location(kind),
{
    if let Effect::CheckConflicts(kind) = e1 {
        if msg is ConfirmRename && m0.rename_input.text@.len() != 0 && m0.transfer_mode is Rename
            && m0.left_files.chosen().len() != 0 {
            let src = join_spec(m0.left_files.current_dir@, m0.left_files.chosen()[0].name@);
            let k = choose|k: PendingKind|
                #[trigger] is_move_rename(k, src, renamed_path(src, m0.rename_input.text@)) && if same_location(k) {
                    m1 == (Model { error_message: m1.error_message, ..m0 }) && opt_view(m1.error_message)
                        == same_location_note(k) && e1 is Nothing
                } else {
                    &&& closed_field(m1.rename_input)
                    &&& opt_view(m1.pending_select) == Some(m0.rename_input.text@)
                    &&& m1 == (Model {
                        rename_input: m1.rename_input,
                        transfer_mode: TransferMode::Idle,
                        pending_select: m1.pending_select,
                        ..m0
                    })
                    &&& e1 matches Effect::CheckConflicts(kk) && kk == k
                };
            assert(k == kind);
        }
        if msg is ConfirmCopy || msg is ConfirmMove {
            let op = if msg is ConfirmMove { TransferOp::Move } else { TransferOp::Copy };
            assert(transfer_confirmed(m0, op, m1, e1));
        }
    }
}

/// A confirmation refused with a message changes nothing else: once the
/// message is dismissed, the picker or name dialog it came from is back
/// exactly as it was, ready for another folder or name.
pub proof fn lemma_refusal_keeps_dialog(m0: Model, msg: Message, m1: Model, e1: Effect, m2: Model, e2: Effect)
    requires
        msg is ConfirmCopy || msg is ConfirmMove || msg is ConfirmRename,
        m0.error_message is None,
        step(m0, msg, m1, e1),
        m1.error_message is Some,
        step(m1, Message::DismissError, m2, e2),
    ensures
        m2 == m0,
        e1 is Nothing,
        e2 is Nothing,
{
    if msg is ConfirmRename && m0.rename_input.text@.len() != 0 && m0.transfer_mode is Rename
        && m0.left_files.chosen().len() != 0 {
        let src = join_spec(m0.left_files.current_dir@, m0.left_files.chosen()[0].name@);
        let k = choose|k: PendingKind|
            #[trigger] is_move_rename(k, src, renamed_path(src, m0.rename_input.text@)) && if same_location(k) {
                m1 == (Model { error_message: m1.error_message, ..m0 }) && opt_view(m1.error_message)
                    == same_location_note(k) && e1 is Nothing
            } else {
                &&& closed_field(m1.rename_input)
                &&& opt_view(m1.pending_select) == Some(m0.rename_input.text@)
                &&& m1 == (Model {
                    rename_input: m1.rename_input,
                    transfer_mode: TransferMode::Idle,
                    pending_select: m1.pending_select,
                    ..m0
                })
                &&& e1 matches Effect::CheckConflicts(kk) && kk == k
            };
        assert(same_location(k));
    }
    if msg is ConfirmCopy || msg is ConfirmMove {
        let op = if msg is ConfirmMove { TransferOp::Move } else { TransferOp::Copy };
        assert(transfer_confirmed(m0, op, m1, e1));
    }
}

/// Starting a copy or move and cancelling it puts the interface back as it
/// was, when no transfer was being picked before: the left panel has the keys
/// again, the right panel lists everything, and the name field is closed.
pub proof fn lemma_start_then_cancel(m0: Model, start: Message, m1: Model, e1: Effect, cancel: Message, m2: Model, e2: Effect)
    requires
        (start is StartCopy && cancel is CancelCopy) || (start is StartMove && cancel is CancelMove),
        m0.transfer_mode is Idle,
        m0.active_panel is LeftFiles,
        !m0.right_files.dirs_only,
        closed_field(m0.rename_input),
        step(m0, start, m1, e1),
        step(m1, cancel, m2, e2),
    ensures
        m2 == (Model { rename_input: m2.rename_input, ..m0 }),
        closed_field(m2.rename_input),
        e2 is Nothing,
{
}

/// A transfer held behind the overwrite prompt starts exactly as it was
/// checked once the prompt is confirmed, and not at all once it is cancelled.
pub proof fn lemma_overwrite_prompt(
    m0: Model,
    kind: PendingKind,
    conflicts: Seq<String>,
    m1: Model,
    e1: Effect,
    answer: Message,
    m2: Model,
    e2: Effect,
)
    requires
        conflicts.len() > 0,
        conflicts_handled(m0, kind, conflicts, m1, e1),
        answer is OverwriteConfirm || answer is OverwriteCancel,
        step(m1, answer, m2, e2),
    ensures
        e1 is Nothing,
        m2.pending_overwrite is None,
        answer is OverwriteConfirm ==> starts(kind, e2) && m2.progress == Some(
            TransferProgress { op: kind_op(kind), current: 0, total: 0 },
        ),
        answer is OverwriteCancel ==> e2 is Nothing && m2.active_panel is LeftFiles,
{
}

} // verus!
