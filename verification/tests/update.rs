use lfm::message::{Field, Message, NavOp, SearchKind, Surface};
use lfm::ui::file_panel::{self, Entry, Outcome, PanelRequest};
use lfm::ui::input_box::EditOp;
use lfm::update::{
    conflicts_checked, listed, panel_done, reloaded, same_location_message, update, ActivePanel,
    Effect, Hit, Model, PendingKind, Side, TransferMode, TransferOp, TransferProgress,
};

fn file(name: &str) -> Entry {
    Entry { name: name.to_string(), is_dir: false, size: 1, modified: None }
}

fn dir(name: &str) -> Entry {
    Entry { name: name.to_string(), is_dir: true, size: 0, modified: None }
}

fn ui() -> Model {
    let left = file_panel::Model::init("/home/u".to_string(), vec![file("a.txt"), file("b.txt"), dir("sub")]);
    let right = file_panel::Model::init("/tmp".to_string(), vec![dir("t")]);
    Model::init(left, right, Vec::new())
}

fn send(model: Model, msgs: &[Message]) -> (Model, Effect) {
    let mut model = model;
    let mut eff = Effect::Nothing;
    for &m in msgs {
        let (next, e) = update(model, m);
        model = next;
        eff = e;
    }
    (model, eff)
}

fn strings(v: &[&str]) -> Vec<String> {
    v.iter().map(|s| s.to_string()).collect()
}

#[test]
fn start_up_state() {
    let m = ui();
    assert_eq!(m.active_panel, ActivePanel::LeftFiles);
    assert_eq!(m.transfer_mode, TransferMode::Idle);
    assert!(!m.show_help);
    assert!(m.error_message.is_none() && m.progress.is_none() && m.pending_overwrite.is_none());
    assert!(m.content_search.is_none() && m.file_find.is_none());
}

#[test]
fn quit_asks_the_caller_to_stop() {
    let (_, eff) = send(ui(), &[Message::Quit]);
    assert!(matches!(eff, Effect::Quit));
}

#[test]
fn tab_swaps_the_file_panels() {
    let (m, _) = send(ui(), &[Message::NextPanel]);
    assert_eq!(m.active_panel, ActivePanel::RightFiles);
    let (m, _) = send(m, &[Message::NextPanel]);
    assert_eq!(m.active_panel, ActivePanel::LeftFiles);
    let (m, _) = send(m, &[Message::PrevPanel]);
    assert_eq!(m.active_panel, ActivePanel::RightFiles);
}

#[test]
fn the_pinned_popup_returns_the_keys_where_it_took_them() {
    let (m, _) = send(ui(), &[Message::NextPanel, Message::TogglePinnedPanel]);
    assert_eq!(m.active_panel, ActivePanel::Pinned);
    assert_eq!(m.origin_panel, ActivePanel::RightFiles);
    let (m, _) = send(m, &[Message::TogglePinnedPanel]);
    assert_eq!(m.active_panel, ActivePanel::RightFiles);
}

#[test]
fn pinning_never_pins_a_directory_twice() {
    let (m, _) = send(ui(), &[Message::TogglePinnedPanel, Message::PinCurrentDir]);
    assert_eq!(m.pinned_panel.pins, strings(&["/home/u"]));
    assert_eq!(m.active_panel, ActivePanel::LeftFiles);
    let (m, _) = send(m, &[Message::TogglePinnedPanel, Message::PinCurrentDir]);
    assert_eq!(m.pinned_panel.pins, strings(&["/home/u"]));
    let (m, _) = send(m, &[Message::NextPanel, Message::TogglePinnedPanel, Message::PinCurrentDir]);
    assert_eq!(m.pinned_panel.pins, strings(&["/home/u", "/tmp"]));
}

#[test]
fn selecting_a_pin_lists_it_in_the_origin_panel() {
    let left = file_panel::Model::init("/home/u".to_string(), Vec::new());
    let right = file_panel::Model::init("/tmp".to_string(), Vec::new());
    let m = Model::init(left, right, strings(&["/a", "/b"]));
    let (m, _) = send(m, &[Message::NextPanel, Message::TogglePinnedPanel, Message::SelectDown]);
    assert_eq!(m.pinned_panel.selection, 1);
    let (m, eff) = send(m, &[Message::SelectPinnedDir]);
    assert_eq!(m.active_panel, ActivePanel::RightFiles);
    match eff {
        Effect::Panel { side: Side::Right, request: PanelRequest::List { path, reselect: None } } => assert_eq!(path, "/b"),
        _ => panic!("expected a listing in the right panel"),
    }
}

#[test]
fn deleting_a_pin_keeps_the_cursor_on_the_list() {
    let left = file_panel::Model::init("/home/u".to_string(), Vec::new());
    let right = file_panel::Model::init("/tmp".to_string(), Vec::new());
    let m = Model::init(left, right, strings(&["/a", "/b", "/c"]));
    let (m, _) = send(m, &[Message::TogglePinnedPanel, Message::SelectDown, Message::SelectDown, Message::DeletePinnedDir]);
    assert_eq!(m.pinned_panel.pins, strings(&["/a", "/b"]));
    assert_eq!(m.pinned_panel.selection, 1);
    let (m, _) = send(m, &[Message::DeletePinnedDir, Message::DeletePinnedDir]);
    assert!(m.pinned_panel.pins.is_empty());
    assert_eq!(m.pinned_panel.selection, 0);
    let (m, eff) = send(m, &[Message::DeletePinnedDir]);
    assert!(m.pinned_panel.pins.is_empty());
    assert!(matches!(eff, Effect::Nothing));
}

#[test]
fn help_toggles_and_scrolls_past_separators() {
    let (m, _) = send(ui(), &[Message::ToggleHelp]);
    assert!(m.show_help);
    assert_eq!(m.help_selection, 0);
    let mut m = m;
    for _ in 0..6 {
        m = update(m, Message::Nav(Surface::Help, NavOp::Down)).0;
    }
    assert_eq!(m.help_selection, 6);
    let (m, _) = send(m, &[Message::Nav(Surface::Help, NavOp::Down)]);
    assert_eq!(m.help_selection, 8);
    let (m, _) = send(m, &[Message::Nav(Surface::Help, NavOp::Up)]);
    assert_eq!(m.help_selection, 6);
    let (m, _) = send(m, &[Message::ToggleHelp]);
    assert!(!m.show_help);
    assert_eq!(m.help_selection, 0);
}

#[test]
fn the_shift_key_is_remembered() {
    let (m, _) = send(ui(), &[Message::SetShiftHeld(true)]);
    assert!(m.shift_held);
    let (m, _) = send(m, &[Message::SetShiftHeld(false)]);
    assert!(!m.shift_held);
}

#[test]
fn opening_hands_over_the_highlighted_path() {
    let (_, eff) = send(ui(), &[Message::SelectDown, Message::OpenEditor]);
    assert!(matches!(eff, Effect::OpenEditor(ref p) if p == "/home/u/b.txt"));
    let (_, eff) = send(ui(), &[Message::OpenDefault]);
    assert!(matches!(eff, Effect::OpenDefault(ref p) if p == "/home/u/a.txt"));
    let (_, eff) = send(ui(), &[Message::TogglePinnedPanel, Message::OpenEditor]);
    assert!(matches!(eff, Effect::Nothing));
}

#[test]
fn keys_reach_the_active_file_panel() {
    let (m, eff) = send(ui(), &[Message::SelectDown, Message::SelectDown]);
    assert_eq!(m.left_files.selection, 2);
    assert!(matches!(eff, Effect::Nothing));
    let (m, eff) = send(m, &[Message::DirEnter]);
    match eff {
        Effect::Panel { side: Side::Left, request: PanelRequest::List { path, .. } } => assert_eq!(path, "/home/u/sub"),
        _ => panic!("expected a listing"),
    }
    let (m, _) = send(m, &[Message::NextPanel, Message::SelectDown]);
    assert_eq!(m.right_files.selection, 0);
    assert_eq!(m.left_files.selection, 2);
}

#[test]
fn starting_a_copy_opens_the_destination_picker() {
    let (m, eff) = send(ui(), &[Message::StartCopy]);
    assert_eq!(m.transfer_mode, TransferMode::Copy);
    assert_eq!(m.active_panel, ActivePanel::RightFiles);
    assert!(m.right_files.dirs_only);
    match eff {
        Effect::Panel { side: Side::Right, request: PanelRequest::List { path, reselect: None } } => assert_eq!(path, "/home/u"),
        _ => panic!("expected the picker to list the source folder"),
    }
}

#[test]
fn cancelling_a_transfer_puts_everything_back() {
    let (m, _) = send(ui(), &[Message::StartMove, Message::CancelMove]);
    assert_eq!(m.transfer_mode, TransferMode::Idle);
    assert_eq!(m.active_panel, ActivePanel::LeftFiles);
    assert!(!m.right_files.dirs_only);
    assert!(!m.rename_input.active);
}

#[test]
fn a_copy_into_its_own_folder_is_refused_with_the_picker_left_open() {
    let (m, _) = send(ui(), &[Message::StartCopy]);
    let m = listed(m, Side::Right, "/home/u".to_string(), Some(vec![dir("sub")]), None);
    let (m, eff) = send(m, &[Message::ConfirmCopy]);
    assert!(matches!(eff, Effect::Nothing));
    assert_eq!(m.error_message.as_deref(), Some("Copy target is the source folder \u{2014} pick another folder."));
    assert_eq!(m.transfer_mode, TransferMode::Copy);
    assert_eq!(m.active_panel, ActivePanel::RightFiles);
    let (m, _) = send(m, &[Message::DismissError]);
    assert!(m.error_message.is_none());
    assert_eq!(m.transfer_mode, TransferMode::Copy);
    assert_eq!(m.active_panel, ActivePanel::RightFiles);
    assert!(m.right_files.dirs_only);
    assert_eq!(m.right_files.current_dir, "/home/u");
}

#[test]
fn confirming_a_copy_checks_for_overwrites_first() {
    let (m, _) = send(ui(), &[Message::MarkSelectDown, Message::MarkSelectDown, Message::StartCopy]);
    let m = listed(m, Side::Right, "/tmp".to_string(), Some(vec![dir("t")]), None);
    let (m, eff) = send(m, &[Message::ConfirmCopy]);
    assert_eq!(m.transfer_mode, TransferMode::Idle);
    assert_eq!(m.active_panel, ActivePanel::LeftFiles);
    let kind = match eff {
        Effect::CheckConflicts(kind) => kind,
        _ => panic!("expected an overwrite check"),
    };
    match &kind {
        PendingKind::Copy(sources, dst) => {
            assert_eq!(*sources, strings(&["/home/u/a.txt", "/home/u/b.txt"]));
            assert_eq!(dst, "/tmp");
        }
        _ => panic!("expected a copy"),
    }
    let (m, eff) = conflicts_checked(m, kind, Vec::new());
    assert_eq!(m.progress, Some(TransferProgress { op: TransferOp::Copy, current: 0, total: 0 }));
    assert!(matches!(eff, Effect::StartCopy(ref s, ref d) if s.len() == 2 && d == "/tmp"));
}

#[test]
fn overwrites_wait_for_the_user() {
    let kind = PendingKind::Move(strings(&["/home/u/a.txt"]), "/tmp".to_string());
    let (m, eff) = conflicts_checked(ui(), kind, strings(&["a.txt"]));
    assert!(matches!(eff, Effect::Nothing));
    assert!(m.progress.is_none());
    assert_eq!(m.pending_overwrite.as_ref().map(|p| p.conflicts.clone()), Some(strings(&["a.txt"])));
    let (m, eff) = send(m, &[Message::OverwriteConfirm]);
    assert!(m.pending_overwrite.is_none());
    assert_eq!(m.progress, Some(TransferProgress { op: TransferOp::Move, current: 0, total: 0 }));
    assert!(matches!(eff, Effect::StartMove(ref s, ref d) if s.len() == 1 && d == "/tmp"));

    let kind = PendingKind::Copy(strings(&["/home/u/a.txt"]), "/tmp".to_string());
    let (m, _) = conflicts_checked(ui(), kind, strings(&["a.txt"]));
    let (m, eff) = send(m, &[Message::OverwriteCancel]);
    assert!(m.pending_overwrite.is_none());
    assert!(m.progress.is_none());
    assert!(matches!(eff, Effect::Nothing));
    let (_, eff) = send(m, &[Message::OverwriteConfirm]);
    assert!(matches!(eff, Effect::Nothing));
}

#[test]
fn same_location_messages() {
    let k = PendingKind::Move(strings(&["/a/x", "/a/y"]), "/a".to_string());
    assert_eq!(same_location_message(&k).as_deref(), Some("Move target is the source folder \u{2014} pick another folder."));
    let k = PendingKind::Move(strings(&["/a/x", "/b/y"]), "/a".to_string());
    assert_eq!(same_location_message(&k), None);
    let k = PendingKind::CopyRename("/a/x".to_string(), "/a/x".to_string());
    assert_eq!(same_location_message(&k).as_deref(), Some("Target is the source itself \u{2014} pick another folder or name."));
    let k = PendingKind::MoveRename("/a/x".to_string(), "/a/y".to_string());
    assert_eq!(same_location_message(&k), None);
    assert!(PendingKind::Copy(Vec::new(), "/a".to_string()).is_same_location());
    assert_eq!(PendingKind::CopyRename(String::new(), String::new()).op(), TransferOp::Copy);
}

#[test]
fn renaming_in_place_moves_beside_the_source() {
    let (m, _) = send(ui(), &[Message::RenameInPlace]);
    assert_eq!(m.transfer_mode, TransferMode::Rename);
    assert_eq!(m.rename_input.text, "a.txt");
    assert!(m.rename_input.active);
    let mut m = m;
    for _ in 0..4 {
        m = update(m, Message::Edit(Field::Rename, EditOp::Backspace)).0;
    }
    let (m, eff) = send(m, &[Message::Edit(Field::Rename, EditOp::Char('c'))]);
    assert!(matches!(eff, Effect::Nothing));
    assert_eq!(m.rename_input.text, "ac");
    let (m, eff) = send(m, &[Message::ConfirmRename]);
    match eff {
        Effect::CheckConflicts(PendingKind::MoveRename(src, dst)) => {
            assert_eq!(src, "/home/u/a.txt");
            assert_eq!(dst, "/home/u/ac");
        }
        _ => panic!("expected a move with rename"),
    }
    assert_eq!(m.pending_select.as_deref(), Some("ac"));
    assert_eq!(m.transfer_mode, TransferMode::Idle);
    assert!(!m.rename_input.active);
}

#[test]
fn renaming_to_the_same_name_is_refused() {
    let (m, eff) = send(ui(), &[Message::RenameInPlace, Message::ConfirmRename]);
    assert!(matches!(eff, Effect::Nothing));
    assert_eq!(m.error_message.as_deref(), Some("Target is the source itself \u{2014} pick another folder or name."));
    assert_eq!(m.transfer_mode, TransferMode::Rename);
    let (m, _) = send(m, &[Message::DismissError]);
    assert!(m.rename_input.active);
    assert_eq!(m.rename_input.text, "a.txt");
    assert_eq!(m.transfer_mode, TransferMode::Rename);
}

#[test]
fn an_empty_name_cancels_the_rename() {
    let (m, _) = send(ui(), &[Message::RenameInPlace]);
    let mut m = m;
    for _ in 0..5 {
        m = update(m, Message::Edit(Field::Rename, EditOp::Backspace)).0;
    }
    let (m, eff) = send(m, &[Message::ConfirmRename]);
    assert!(matches!(eff, Effect::Nothing));
    assert_eq!(m.transfer_mode, TransferMode::Idle);
    let (m, _) = send(m, &[Message::RenameInPlace, Message::Cancel(Field::Rename)]);
    assert_eq!(m.transfer_mode, TransferMode::Idle);
    assert_eq!(m.rename_input.text, "");
}

#[test]
fn renaming_needs_exactly_one_entry() {
    let (m, _) = send(ui(), &[Message::MarkSelectDown, Message::MarkSelectDown, Message::RenameInPlace]);
    assert_eq!(m.transfer_mode, TransferMode::Idle);
}

#[test]
fn a_copy_with_rename_names_the_copy_then_picks_the_folder() {
    let (m, eff) = send(ui(), &[Message::StartCopyRename]);
    assert!(matches!(eff, Effect::Nothing));
    assert_eq!(m.transfer_mode, TransferMode::CopyRename);
    assert_eq!(m.rename_input.text, "a.txt");
    let (m, eff) = send(m, &[Message::Edit(Field::Rename, EditOp::Char('2')), Message::ConfirmRename]);
    assert_eq!(m.active_panel, ActivePanel::RightFiles);
    assert!(matches!(eff, Effect::Panel { side: Side::Right, .. }));
    let m = listed(m, Side::Right, "/tmp".to_string(), Some(Vec::new()), None);
    let (_, eff) = send(m, &[Message::ConfirmCopy]);
    match eff {
        Effect::CheckConflicts(PendingKind::CopyRename(src, dst)) => {
            assert_eq!(src, "/home/u/a.txt");
            assert_eq!(dst, "/tmp/a.txt2");
        }
        _ => panic!("expected a copy with rename"),
    }
}

#[test]
fn progress_ticks_only_while_a_job_runs() {
    let (m, _) = send(ui(), &[Message::ProgressTick { current: 1, total: 2 }]);
    assert!(m.progress.is_none());
    let kind = PendingKind::Copy(strings(&["/home/u/a.txt"]), "/tmp".to_string());
    let (m, _) = conflicts_checked(m, kind, Vec::new());
    let (m, _) = send(m, &[Message::ProgressTick { current: 1, total: 2 }]);
    assert_eq!(m.progress, Some(TransferProgress { op: TransferOp::Copy, current: 1, total: 2 }));
    let (m, eff) = send(m, &[Message::ProgressDone]);
    assert!(m.progress.is_none());
    assert!(matches!(eff, Effect::ReloadPanels { reselect_left: None }));
}

#[test]
fn a_confirmed_delete_runs_in_the_background() {
    let (m, _) = send(ui(), &[Message::SelectDown, Message::DeleteFiles]);
    assert!(m.left_files.delete_confirm);
    let (m, eff) = send(m, &[Message::DeleteConfirm]);
    assert!(!m.left_files.delete_confirm);
    assert_eq!(m.progress, Some(TransferProgress { op: TransferOp::Delete, current: 0, total: 0 }));
    assert!(matches!(eff, Effect::StartDelete(ref p) if *p == strings(&["/home/u/b.txt"])));
}

#[test]
fn opening_a_search_prepares_its_index() {
    let (m, eff) = send(ui(), &[Message::SearchOpen(SearchKind::Content)]);
    assert!(matches!(eff, Effect::PrepareContentSearch { ref root } if root == "/home/u"));
    let p = m.content_search.as_ref().unwrap();
    assert!(p.input_focused && p.done && p.results.is_empty());
    let (m, eff) = send(m, &[Message::NextPanel, Message::SearchOpen(SearchKind::Files)]);
    assert!(matches!(eff, Effect::PrepareFileFind { ref root } if root == "/tmp"));
    assert!(m.file_find.is_some());
}

#[test]
fn typing_a_query_reruns_the_search() {
    let (m, _) = send(ui(), &[Message::SearchOpen(SearchKind::Files)]);
    let (m, eff) = send(m, &[Message::Edit(Field::SearchQuery(SearchKind::Files), EditOp::Char('x'))]);
    assert!(matches!(eff, Effect::StartFileFind { ref root, ref query, ref mask } if root == "/home/u" && query == "x" && mask.is_empty()));
    assert!(!m.file_find.as_ref().unwrap().done);
    let (m, eff) = send(m, &[
        Message::Edit(Field::SearchQuery(SearchKind::Files), EditOp::CursorRight),
        Message::Edit(Field::SearchQuery(SearchKind::Files), EditOp::Char('*')),
    ]);
    assert!(matches!(eff, Effect::StartFileFind { ref query, ref mask, .. } if query == "x" && mask == "*"));
    let (m, _) = send(m, &[
        Message::Edit(Field::SearchQuery(SearchKind::Files), EditOp::CursorLeft),
        Message::Edit(Field::SearchQuery(SearchKind::Files), EditOp::CursorLeft),
        Message::Edit(Field::SearchQuery(SearchKind::Files), EditOp::Backspace),
    ]);
    let p = m.file_find.as_ref().unwrap();
    assert_eq!(p.query.text, "");
    assert!(p.done);
}

#[test]
fn confirming_a_result_reveals_it_in_the_left_panel() {
    let (mut m, _) = send(ui(), &[Message::NextPanel, Message::SearchOpen(SearchKind::Content)]);
    m.content_search.as_mut().unwrap().results = vec![
        Hit { path: "/tmp/x/one.txt".to_string(), label: "one".to_string() },
        Hit { path: "/tmp/y/two.txt".to_string(), label: "two".to_string() },
    ];
    let (m, _) = send(m, &[Message::SearchToggleFocus(SearchKind::Content), Message::Nav(Surface::Search(SearchKind::Content), NavOp::Down)]);
    assert_eq!(m.content_search.as_ref().unwrap().selection, 1);
    let (m, eff) = send(m, &[Message::SearchConfirm(SearchKind::Content)]);
    assert!(m.content_search.is_none());
    assert_eq!(m.active_panel, ActivePanel::LeftFiles);
    match eff {
        Effect::Panel { side: Side::Left, request: PanelRequest::List { path, reselect } } => {
            assert_eq!(path, "/tmp/y");
            assert_eq!(reselect.as_deref(), Some("two.txt"));
        }
        _ => panic!("expected the left panel to list the result's folder"),
    }
}

#[test]
fn up_off_the_first_result_returns_to_the_query() {
    let (m, _) = send(ui(), &[Message::SearchOpen(SearchKind::Content), Message::SearchToggleFocus(SearchKind::Content)]);
    assert!(!m.content_search.as_ref().unwrap().input_focused);
    let (m, _) = send(m, &[Message::Nav(Surface::Search(SearchKind::Content), NavOp::Up)]);
    assert!(m.content_search.as_ref().unwrap().input_focused);
    let (m, eff) = send(m, &[Message::SearchConfirm(SearchKind::Content)]);
    assert!(matches!(eff, Effect::Nothing));
    let (m, _) = send(m, &[Message::Close(Surface::Search(SearchKind::Content))]);
    assert!(m.content_search.is_none());
}

#[test]
fn a_listing_replaces_the_panel_contents() {
    let m = listed(ui(), Side::Left, "/srv".to_string(), Some(vec![file("z"), file("y")]), Some("z".to_string()));
    assert_eq!(m.left_files.current_dir, "/srv");
    assert_eq!(m.left_files.entries.iter().map(|e| e.name.as_str()).collect::<Vec<_>>(), vec!["y", "z"]);
    assert_eq!(m.left_files.selection, 1);
    let m = listed(m, Side::Left, "/nowhere".to_string(), None, None);
    assert_eq!(m.left_files.current_dir, "/srv");
}

#[test]
fn finished_panel_jobs_become_effects() {
    let (_, eff) = panel_done(ui(), Side::Right, Outcome::Created(true));
    match eff {
        Effect::Panel { side: Side::Right, request: PanelRequest::List { path, .. } } => assert_eq!(path, "/tmp"),
        _ => panic!("expected the right panel to be listed again"),
    }
    let (_, eff) = panel_done(ui(), Side::Left, Outcome::Unzipped(false));
    assert!(matches!(eff, Effect::Nothing));
}

#[test]
fn reloading_both_panels_keeps_the_cursors() {
    let (m, _) = send(ui(), &[Message::SelectDown, Message::SelectDown]);
    let m = reloaded(m, Some(vec![file("a.txt"), file("c.txt")]), None, Some("a.txt".to_string()));
    assert_eq!(m.left_files.selection, 0);
    assert_eq!(m.right_files.entries.len(), 1);
    let m = reloaded(m, Some(vec![file("a.txt"), file("c.txt")]), None, None);
    assert_eq!(m.left_files.selection, 0);
}

#[test]
fn a_trailing_slash_does_not_pin_a_directory_twice() {
    let left = file_panel::Model::init("/tmp/".to_string(), Vec::new());
    let right = file_panel::Model::init("/r".to_string(), Vec::new());
    let m = Model::init(left, right, strings(&["/tmp"]));
    let (m, _) = send(m, &[Message::TogglePinnedPanel, Message::PinCurrentDir]);
    assert_eq!(m.pinned_panel.pins, strings(&["/tmp"]));
}
