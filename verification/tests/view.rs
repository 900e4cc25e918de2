use lfm::message::{Message, SearchKind};
use lfm::ui::capture_popup::{self, CapturePopup};
use lfm::ui::capture_view::{self, CaptureView};
use lfm::ui::command_picker::truncate;
use lfm::ui::file_panel::{self, DeleteTarget, Entry};
use lfm::ui::file_view::{highlights, match_status, search_row_shown, Highlight};
use lfm::update::{update, Model, ResultPanel, TransferMode, TransferOp, TransferProgress};
use lfm::view::{
    delete_message, hint_line, shows_both_panels, mask_width, match_label, overlays, overwrite_message,
    progress_label, progress_title, rename_title, Hints, Overlay,
};
use lfm::view_search::{Match, ViewSearch};

fn ui() -> Model {
    let entries = vec![Entry { name: "a".to_string(), is_dir: false, size: 1, modified: None }];
    let left = file_panel::Model::init("/l".to_string(), entries);
    let right = file_panel::Model::init("/r".to_string(), Vec::new());
    Model::init(left, right, Vec::new())
}

fn target(name: &str) -> DeleteTarget {
    DeleteTarget { name: name.to_string(), path: format!("/x/{name}"), is_dir: false }
}

#[test]
fn the_hint_line_follows_what_has_the_keys() {
    let m = ui();
    assert_eq!(hint_line(&m), Hints::Normal(false));
    let (m, _) = update(m, Message::SetShiftHeld(true));
    assert_eq!(hint_line(&m), Hints::Normal(true));
    let (m, _) = update(m, Message::EnterFilter);
    assert_eq!(hint_line(&m), Hints::Filter(true));
    let (m, _) = update(m, Message::FilterChar('a'));
    let (m, _) = update(m, Message::ConfirmFilter);
    assert_eq!(hint_line(&m), Hints::FilterLocked(true));
    let (m, _) = update(m, Message::StartCopy);
    assert_eq!(hint_line(&m), Hints::CopyHere);
    let (m, _) = update(m, Message::ToggleHelp);
    assert_eq!(hint_line(&m), Hints::Help);
    let (m, _) = update(m, Message::SearchOpen(SearchKind::Files));
    assert_eq!(hint_line(&m), Hints::Search(true));
}

#[test]
fn the_pinned_popup_and_prompts_have_their_own_hints() {
    let (m, _) = update(ui(), Message::TogglePinnedPanel);
    assert_eq!(hint_line(&m), Hints::Pinned);
    let (m, _) = update(ui(), Message::GotoPath);
    assert_eq!(hint_line(&m), Hints::Goto);
    let (m, _) = update(ui(), Message::NewPath);
    assert_eq!(hint_line(&m), Hints::NewPath);
    let (m, _) = update(ui(), Message::DeleteFiles);
    assert_eq!(hint_line(&m), Hints::Delete);
    let (m, _) = update(ui(), Message::RenameInPlace);
    assert_eq!(hint_line(&m), Hints::Rename);
    let (m, _) = update(ui(), Message::StartMove);
    assert_eq!(hint_line(&m), Hints::MoveHere);
    let mut m = ui();
    m.error_message = Some("x".to_string());
    assert_eq!(hint_line(&m), Hints::Error);
}

#[test]
fn overlays_stack_bottom_to_top() {
    assert!(overlays(&ui()).is_empty());
    let (m, _) = update(ui(), Message::DeleteFiles);
    let mut m = m;
    m.error_message = Some("x".to_string());
    m.progress = Some(TransferProgress { op: TransferOp::Copy, current: 0, total: 0 });
    m.show_help = true;
    assert_eq!(overlays(&m), vec![Overlay::Help, Overlay::Progress, Overlay::Error, Overlay::DeletePrompt]);
    let (m, _) = update(ui(), Message::TogglePinnedPanel);
    assert_eq!(overlays(&m), vec![Overlay::PinnedPanel]);
}

#[test]
fn dialog_titles_and_prompts() {
    assert_eq!(rename_title(TransferMode::CopyRename), "Copy with rename");
    assert_eq!(rename_title(TransferMode::MoveRename), "Move with rename");
    assert_eq!(rename_title(TransferMode::Rename), "Rename");
    assert_eq!(overwrite_message(&vec!["a.txt".to_string()]), "Overwrite 'a.txt'?");
    assert_eq!(overwrite_message(&vec!["a".to_string(), "b".to_string(), "c".to_string()]), "Overwrite 3 existing items?");
    assert_eq!(delete_message(&vec![target("f")]), "Delete 'f'?");
    assert_eq!(delete_message(&vec![target("f"), target("g")]), "Delete 2 items?");
    assert_eq!(progress_title(TransferOp::Move), " Moving ");
    assert_eq!(progress_label(&TransferProgress { op: TransferOp::Copy, current: 3, total: 12 }), "3 / 12");
}

#[test]
fn the_result_popup_note() {
    let mut p = ResultPanel::new("/".to_string());
    assert_eq!(match_label(&p), "");
    p.query.set_text("q".to_string());
    assert_eq!(match_label(&p), " 0 matches  ");
    p.done = false;
    assert_eq!(match_label(&p), " 0 matches  searching\u{2026}  ");
    p.indexing = true;
    assert_eq!(match_label(&p), " indexing\u{2026}  ");
}

#[test]
fn the_mask_gets_a_third_of_a_narrow_row() {
    assert_eq!(mask_width(59), None);
    assert_eq!(mask_width(60), Some(20));
    assert_eq!(mask_width(84), Some(28));
    assert_eq!(mask_width(200), Some(28));
}

#[test]
fn capture_popup_texts() {
    let p = CapturePopup { label: "ls".to_string(), output: String::new(), exit_code: Some(-1), scroll: 0 };
    assert_eq!(capture_popup::body(&p), "(no output)");
    assert_eq!(capture_popup::header(&p), " exit -1 \u{2014} ls ");
    assert_eq!(capture_popup::line_count(&p), 1);
    let p = CapturePopup { label: "ls".to_string(), output: "a\nb\nc\n".to_string(), exit_code: None, scroll: 0 };
    assert_eq!(capture_popup::header(&p), " spawn failed \u{2014} ls ");
    assert_eq!(capture_popup::line_count(&p), 3);
}

#[test]
fn capture_view_texts() {
    let v = CaptureView { label: "make".to_string(), output: "x\ny".to_string(), exit_code: Some(2), scroll: 0, rows: 0 };
    assert_eq!(capture_view::body(&v), "x\ny");
    assert_eq!(capture_view::header(&v), " exit 2 \u{2014} make ");
    assert_eq!(capture_view::line_count(&v), 2);
}

#[test]
fn truncating_a_preset_column() {
    assert_eq!(truncate("short", 10), "short");
    assert_eq!(truncate("a long label", 6), "a lon\u{2026}");
    assert_eq!(truncate("abc", 1), "a");
    assert_eq!(truncate("abc", 0), "");
    assert_eq!(truncate("äöüß", 3), "äö\u{2026}");
}

fn search(matches: Vec<Match>, current: usize) -> ViewSearch {
    let mut s = ViewSearch::new();
    s.query = "q".to_string();
    s.matches = matches;
    s.current = current;
    s
}

#[test]
fn highlights_cover_the_matches_on_screen() {
    let s = search(
        vec![
            Match { row: 1, col: 2, width: 3 },
            Match { row: 5, col: 0, width: 4 },
            Match { row: 6, col: 8, width: 5 },
            Match { row: 20, col: 0, width: 1 },
        ],
        2,
    );
    let hs = highlights(&s, 4, 10, 1, 10, 5);
    assert_eq!(
        hs,
        vec![
            Highlight { y: 2, start: 10, end: 14, current: false },
            Highlight { y: 3, start: 18, end: 20, current: true },
        ]
    );
}

#[test]
fn the_search_row_needs_room() {
    let s = search(Vec::new(), 0);
    assert!(search_row_shown(&s, 2));
    assert!(!search_row_shown(&s, 1));
    assert!(!search_row_shown(&ViewSearch::new(), 10));
}

#[test]
fn the_match_status() {
    assert_eq!(match_status(&search(Vec::new(), 0)).as_deref(), Some("  no match"));
    let s = search(vec![Match { row: 0, col: 0, width: 1 }; 3], 1);
    assert_eq!(match_status(&s).as_deref(), Some("  2/3"));
    let mut s = s;
    s.input.open();
    assert_eq!(match_status(&s), None);
    assert_eq!(match_status(&ViewSearch::new()), None);
}

#[test]
fn both_panels_show_while_a_destination_is_picked() {
    assert!(!shows_both_panels(&ui()));
    let (m, _) = update(ui(), Message::StartCopy);
    assert!(shows_both_panels(&m));
    let (m, _) = update(ui(), Message::StartCopyRename);
    assert!(!shows_both_panels(&m));
    let (m, _) = update(ui(), Message::RenameInPlace);
    assert!(!shows_both_panels(&m));
}
