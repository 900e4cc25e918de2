use lfm::message::Message;
use lfm::ui::file_panel::{
    before, before_by_extension, complete, entry_label, panel_title, parent_listing, resolve_goto,
    sort_entries, unzip_plan, update, zip_archive_name, ArchiveFormat, Entry, Model, Outcome,
    PanelRequest, SortOrder,
};
use lfm::ui::search_box;
use lfm::update::TransferMode;

fn file(name: &str, size: u64, modified: Option<i128>) -> Entry {
    Entry { name: name.to_string(), is_dir: false, size, modified }
}

fn dir(name: &str) -> Entry {
    Entry { name: name.to_string(), is_dir: true, size: 0, modified: None }
}

fn names(entries: &[Entry]) -> Vec<&str> {
    entries.iter().map(|e| e.name.as_str()).collect()
}

fn panel(entries: Vec<Entry>) -> Model {
    Model::init("/home/u".to_string(), entries)
}

fn send(model: Model, msgs: &[Message]) -> (Model, PanelRequest) {
    let mut model = model;
    let mut req = PanelRequest::Nothing;
    for &m in msgs {
        let (next, r) = update(model, m);
        model = next;
        req = r;
    }
    (model, req)
}

fn sample() -> Vec<Entry> {
    vec![
        file("b.txt", 10, Some(300)),
        dir("docs"),
        file("A.rs", 30, Some(100)),
        file("c.tar.gz", 20, None),
        file("Archive.ZIP", 5, Some(200)),
    ]
}

#[test]
fn init_sorts_by_name_with_nothing_open() {
    let m = panel(sample());
    assert_eq!(names(&m.entries), vec!["A.rs", "Archive.ZIP", "b.txt", "c.tar.gz", "docs"]);
    assert_eq!(m.sort_order, SortOrder::Name);
    assert_eq!(m.selection, 0);
    assert!(m.selected.is_empty());
    assert!(!m.search.active && !m.new_path_input.active && !m.goto_input.active);
    assert!(!m.delete_confirm);
}

#[test]
fn sort_orders_cycle_name_date_ext_size() {
    assert_eq!(SortOrder::Name.next(), SortOrder::Modified);
    assert_eq!(SortOrder::Modified.next(), SortOrder::Extension);
    assert_eq!(SortOrder::Extension.next(), SortOrder::Size);
    assert_eq!(SortOrder::Size.next(), SortOrder::Name);
    assert_eq!(SortOrder::Extension.label(), "ext");
    assert_eq!(SortOrder::default(), SortOrder::Name);
}

#[test]
fn sorting_by_date_puts_the_newest_first_and_unknown_last() {
    let out = sort_entries(sample(), SortOrder::Modified);
    assert_eq!(names(&out), vec!["b.txt", "Archive.ZIP", "A.rs", "docs", "c.tar.gz"]);
}

#[test]
fn sorting_by_size_puts_the_largest_first() {
    let out = sort_entries(sample(), SortOrder::Size);
    assert_eq!(names(&out), vec!["A.rs", "c.tar.gz", "b.txt", "Archive.ZIP", "docs"]);
}

#[test]
fn sorting_by_extension_falls_back_to_the_name() {
    let out = sort_entries(sample(), SortOrder::Extension);
    // No extension first, then ZIP, gz, rs, txt in code point order.
    assert_eq!(names(&out), vec!["docs", "Archive.ZIP", "c.tar.gz", "A.rs", "b.txt"]);
}

#[test]
fn equal_keys_keep_their_listing_order() {
    let out = sort_entries(vec![file("x", 1, None), file("y", 1, None), file("w", 1, None)], SortOrder::Size);
    assert_eq!(names(&out), vec!["x", "y", "w"]);
}

#[test]
fn before_is_the_sort_order() {
    assert!(before(SortOrder::Name, &file("a", 0, None), &file("b", 0, None)));
    assert!(!before(SortOrder::Name, &file("b", 0, None), &file("a", 0, None)));
    assert!(before(SortOrder::Modified, &file("a", 0, Some(1)), &file("b", 0, None)));
    assert!(!before(SortOrder::Modified, &file("a", 0, None), &file("b", 0, None)));
}

#[test]
fn the_filter_ignores_case() {
    let m = panel(sample());
    let (m, _) = send(m, &[Message::EnterFilter, Message::FilterChar('a')]);
    // "A.rs", "Archive.ZIP", "c.tar.gz" contain an a once lower-cased.
    assert_eq!(m.visible_entries(), vec![0, 1, 3]);
    assert_eq!(m.entry_count(), 3);
    let (m, _) = send(m, &[Message::FilterChar('R'), Message::FilterChar('C')]);
    assert_eq!(m.visible_entries(), vec![1]);
}

#[test]
fn the_filter_keeps_the_highlighted_entry_when_it_stays_shown() {
    let m = panel(sample());
    let (m, _) = send(m, &[Message::SelectDown, Message::SelectDown, Message::SelectDown]);
    assert_eq!(m.entries[m.visible_entries()[m.selection]].name, "c.tar.gz");
    let (m, _) = send(m, &[Message::EnterFilter, Message::FilterChar('.')]);
    assert_eq!(m.entries[m.visible_entries()[m.selection]].name, "c.tar.gz");
    let (m, _) = send(m, &[Message::FilterChar('r'), Message::FilterChar('s')]);
    assert_eq!(m.selection, 0);
    assert_eq!(m.entries[m.visible_entries()[m.selection]].name, "A.rs");
}

#[test]
fn escape_clears_the_filter_and_confirm_keeps_it() {
    let m = panel(sample());
    let (m, _) = send(m, &[Message::EnterFilter, Message::FilterChar('d'), Message::ConfirmFilter]);
    assert_eq!(m.search.text, "d");
    assert!(!m.search.active);
    let (m, _) = send(m, &[Message::EnterFilter]);
    assert!(m.search.active);
    assert_eq!(m.search.pos, 1);
    let (m, _) = send(m, &[Message::ExitFilter]);
    assert_eq!(m.search.text, "");
    assert_eq!(m.entry_count(), 5);
}

#[test]
fn moving_stops_at_both_ends() {
    let m = panel(sample());
    let (m, _) = send(m, &[Message::SelectUp]);
    assert_eq!(m.selection, 0);
    let (m, _) = send(m, &[Message::SelectDown; 9]);
    assert_eq!(m.selection, 4);
    let empty = panel(Vec::new());
    let (empty, _) = send(empty, &[Message::SelectDown]);
    assert_eq!(empty.selection, 0);
}

#[test]
fn marking_toggles_and_moves() {
    let m = panel(sample());
    let (m, _) = send(m, &[Message::MarkSelectDown, Message::MarkSelectDown]);
    assert_eq!(m.selected.iter().copied().collect::<Vec<_>>(), vec![0, 1]);
    assert_eq!(m.selection, 2);
    let (m, _) = send(m, &[Message::SelectUp, Message::MarkSelectUp]);
    assert_eq!(m.selected.iter().copied().collect::<Vec<_>>(), vec![0]);
    assert_eq!(m.selection, 0);
    let (m, _) = send(m, &[Message::ClearSelection]);
    assert!(m.selected.is_empty());
}

#[test]
fn toggling_twice_restores_the_marks() {
    let mut m = panel(sample());
    m.toggle_selected(3);
    assert!(m.selected.contains(&3));
    m.toggle_selected(3);
    assert!(m.selected.is_empty());
}

#[test]
fn action_targets_are_the_marks_or_else_the_cursor() {
    let m = panel(sample());
    let t = m.action_targets();
    assert_eq!(t.len(), 1);
    assert_eq!(t[0].name, "A.rs");
    assert_eq!(t[0].path, "/home/u/A.rs");
    let (m, _) = send(m, &[Message::SelectDown, Message::SelectDown, Message::MarkSelectDown, Message::MarkSelectDown]);
    let t = m.action_targets();
    assert_eq!(t.iter().map(|t| t.path.as_str()).collect::<Vec<_>>(), vec!["/home/u/b.txt", "/home/u/c.tar.gz"]);
    assert!(panel(Vec::new()).action_targets().is_empty());
}

#[test]
fn cycling_the_sort_resorts_and_resets_the_cursor() {
    let m = panel(sample());
    let (m, _) = send(m, &[Message::SelectDown, Message::MarkSelectDown, Message::CycleSort]);
    assert_eq!(m.sort_order, SortOrder::Modified);
    assert_eq!(names(&m.entries), vec!["b.txt", "Archive.ZIP", "A.rs", "c.tar.gz", "docs"]);
    assert_eq!(m.selection, 0);
    assert!(m.selected.is_empty());
}

#[test]
fn dir_up_lists_the_parent_and_reselects_this_directory() {
    let m = panel(sample());
    let (m, req) = send(m, &[Message::DirUp]);
    match req {
        PanelRequest::List { path, reselect } => {
            assert_eq!(path, "/home");
            assert_eq!(reselect.as_deref(), Some("u"));
        }
        _ => panic!("expected a listing"),
    }
    let root = Model::init("/".to_string(), Vec::new());
    assert!(matches!(update(root, Message::DirUp).1, PanelRequest::Nothing));
    assert_eq!(m.current_dir, "/home/u");
}

#[test]
fn dir_enter_lists_a_highlighted_directory_only() {
    let m = panel(sample());
    let (m, req) = send(m, &[Message::DirEnter]);
    assert!(matches!(req, PanelRequest::Nothing));
    let (_, req) = send(m, &[Message::SelectDown; 4].iter().copied().chain([Message::DirEnter]).collect::<Vec<_>>());
    match req {
        PanelRequest::List { path, reselect } => {
            assert_eq!(path, "/home/u/docs");
            assert!(reselect.is_none());
        }
        _ => panic!("expected a listing"),
    }
}

#[test]
fn new_path_creates_a_file_or_a_directory() {
    let m = panel(sample());
    let (m, req) = send(m, &[Message::NewPath, Message::NewPathChar('x'), Message::NewPathChar('/'), Message::NewPathConfirm]);
    match req {
        PanelRequest::Create { target, is_dir } => {
            assert_eq!(target, "/home/u/x/");
            assert!(is_dir);
        }
        _ => panic!("expected a create"),
    }
    assert!(!m.new_path_input.active);
    let (m, req) = send(m, &[Message::NewPath, Message::NewPathChar('f'), Message::NewPathChar('.'), Message::NewPathBackspace, Message::NewPathConfirm]);
    match req {
        PanelRequest::Create { target, is_dir } => {
            assert_eq!(target, "/home/u/f");
            assert!(!is_dir);
        }
        _ => panic!("expected a create"),
    }
    let (_, req) = send(m, &[Message::NewPath, Message::NewPathConfirm]);
    assert!(matches!(req, PanelRequest::Nothing));
}

#[test]
fn cancelling_new_path_closes_the_field() {
    let m = panel(sample());
    let (m, req) = send(m, &[Message::NewPath, Message::NewPathChar('x'), Message::NewPathCancel]);
    assert!(matches!(req, PanelRequest::Nothing));
    assert_eq!(m.new_path_input.text, "");
    assert!(!m.new_path_input.active);
}

#[test]
fn goto_hands_over_the_typed_text() {
    let m = panel(sample());
    let (m, req) = send(m, &[Message::GotoPath, Message::GotoPathChar('~'), Message::GotoPathChar('/'), Message::GotoPathChar('x'), Message::GotoPathConfirm]);
    match req {
        PanelRequest::Goto { text } => assert_eq!(text, "~/x"),
        _ => panic!("expected a goto"),
    }
    assert!(!m.goto_input.active);
    let (_, req) = send(m, &[Message::GotoPath, Message::GotoPathChar('q'), Message::GotoPathCancel]);
    assert!(matches!(req, PanelRequest::Nothing));
}

#[test]
fn resolve_goto_expands_home_and_joins_relative_paths() {
    assert_eq!(resolve_goto("~", "/cwd", Some("/home/u")), "/home/u");
    assert_eq!(resolve_goto("~/src", "/cwd", Some("/home/u")), "/home/u/src");
    assert_eq!(resolve_goto("~/src", "/cwd", None), "/cwd/~/src");
    assert_eq!(resolve_goto("/etc", "/cwd", Some("/home/u")), "/etc");
    assert_eq!(resolve_goto("sub", "/cwd", None), "/cwd/sub");
    assert_eq!(resolve_goto("~x", "/cwd", Some("/home/u")), "/cwd/~x");
}

#[test]
fn delete_asks_first_and_then_removes_the_chosen_entries() {
    let m = panel(sample());
    let (m, _) = send(m, &[Message::MarkSelectDown, Message::MarkSelectDown, Message::DeleteFiles]);
    assert!(m.delete_confirm);
    assert_eq!(m.delete_targets.iter().map(|t| t.name.as_str()).collect::<Vec<_>>(), vec!["A.rs", "Archive.ZIP"]);
    let (m, req) = send(m, &[Message::DeleteConfirm]);
    match req {
        PanelRequest::Remove { targets } => {
            assert_eq!(targets.iter().map(|t| t.path.as_str()).collect::<Vec<_>>(), vec!["/home/u/A.rs", "/home/u/Archive.ZIP"]);
        }
        _ => panic!("expected a removal"),
    }
    assert!(!m.delete_confirm);
    assert!(m.selected.is_empty());
    assert!(m.delete_targets.is_empty());
}

#[test]
fn cancelling_a_delete_restores_the_panel() {
    let m = panel(sample());
    let (m, _) = send(m, &[Message::DeleteFiles, Message::DeleteCancel]);
    assert!(!m.delete_confirm);
    assert!(m.delete_targets.is_empty());
    assert_eq!(m.selection, 0);
    let (m, _) = send(panel(Vec::new()), &[Message::DeleteFiles]);
    assert!(!m.delete_confirm);
}

#[test]
fn zipping_one_file_names_the_archive_after_its_stem() {
    let m = panel(sample());
    let (_, req) = send(m, &[Message::SelectDown, Message::SelectDown, Message::ZipFiles]);
    match req {
        PanelRequest::Zip { sources, dest } => {
            assert_eq!(sources, vec!["/home/u/b.txt".to_string()]);
            assert_eq!(dest, "/home/u/b.zip");
        }
        _ => panic!("expected a zip"),
    }
}

#[test]
fn zipping_a_directory_or_several_entries() {
    let m = panel(sample());
    let (m, req) = send(m, &[Message::SelectDown; 4].iter().copied().chain([Message::ZipFiles]).collect::<Vec<_>>());
    match req {
        PanelRequest::Zip { dest, .. } => assert_eq!(dest, "/home/u/docs.zip"),
        _ => panic!("expected a zip"),
    }
    let (_, req) = send(m, &[Message::MarkSelectUp, Message::MarkSelectUp, Message::ZipFiles]);
    match req {
        PanelRequest::Zip { sources, dest } => {
            assert_eq!(sources.len(), 2);
            assert_eq!(dest, "/home/u/archive.zip");
        }
        _ => panic!("expected a zip"),
    }
}

#[test]
fn unzipping_picks_the_format_from_the_name() {
    let m = panel(sample());
    let (m, req) = send(m, &[Message::SelectDown, Message::UnzipFile]);
    match req {
        PanelRequest::Unzip { archive, dest, format } => {
            assert_eq!(archive, "/home/u/Archive.ZIP");
            assert_eq!(dest, "/home/u/Archive.ZIP");
            assert_eq!(format, ArchiveFormat::Zip);
        }
        _ => panic!("expected an unzip"),
    }
    let (m, req) = send(m, &[Message::SelectDown, Message::SelectDown, Message::UnzipFile]);
    match req {
        PanelRequest::Unzip { archive, dest, format } => {
            assert_eq!(archive, "/home/u/c.tar.gz");
            assert_eq!(dest, "/home/u/c");
            assert_eq!(format, ArchiveFormat::TarGz);
        }
        _ => panic!("expected an unzip"),
    }
    let (_, req) = send(m, &[Message::SelectUp, Message::UnzipFile]);
    assert!(matches!(req, PanelRequest::Nothing));
}

#[test]
fn unzipping_drops_every_trailing_zip_suffix() {
    let m = panel(vec![file("a.zip.zip", 1, None)]);
    match update(m, Message::UnzipFile).1 {
        PanelRequest::Unzip { dest, .. } => assert_eq!(dest, "/home/u/a"),
        _ => panic!("expected an unzip"),
    }
}

#[test]
fn finished_jobs_relist_the_panel() {
    let m = panel(sample());
    let (m, req) = complete(m, Outcome::Created(true));
    assert!(matches!(req, PanelRequest::List { ref path, reselect: None } if path == "/home/u"));
    let (m, req) = complete(m, Outcome::Created(false));
    assert!(matches!(req, PanelRequest::Nothing));
    let (m, req) = complete(m, Outcome::GotoChecked { target: "/tmp".to_string(), is_dir: true });
    assert!(matches!(req, PanelRequest::List { ref path, .. } if path == "/tmp"));
    let (m, req) = complete(m, Outcome::GotoChecked { target: "/tmp/f".to_string(), is_dir: false });
    assert!(matches!(req, PanelRequest::Nothing));
    let (m, _) = send(m, &[Message::MarkSelectDown]);
    let (m, req) = complete(m, Outcome::Zipped(true));
    assert!(m.selected.is_empty());
    assert!(matches!(req, PanelRequest::List { .. }));
    let (_, req) = complete(m, Outcome::Removed);
    assert!(matches!(req, PanelRequest::List { .. }));
}

#[test]
fn navigating_shows_the_new_listing_from_the_top() {
    let mut m = panel(sample());
    let (m2, _) = send(m, &[Message::SelectDown, Message::MarkSelectDown, Message::EnterFilter, Message::FilterChar('x')]);
    m = m2;
    m.navigate_to("/tmp".to_string(), vec![file("z", 0, None), file("y", 0, None)]);
    assert_eq!(m.current_dir, "/tmp");
    assert_eq!(names(&m.entries), vec!["y", "z"]);
    assert_eq!(m.selection, 0);
    assert!(m.selected.is_empty());
    assert_eq!(m.search.text, "");
}

#[test]
fn reloading_keeps_the_cursor_inside_the_listing() {
    let mut m = panel(sample());
    m.selection = 4;
    m.reload_keeping_selection(vec![file("a", 0, None), file("b", 0, None)]);
    assert_eq!(m.selection, 1);
    m.reload_keeping_selection(Vec::new());
    assert_eq!(m.selection, 0);
}

#[test]
fn reselecting_by_name() {
    let mut m = panel(sample());
    m.reselect("docs");
    assert_eq!(m.selection, 4);
    m.reselect("missing");
    assert_eq!(m.selection, 4);
    let (mut m, _) = send(m, &[Message::EnterFilter, Message::FilterChar('t')]);
    m.select_visible_named("c.tar.gz");
    assert_eq!(m.entries[m.visible_entries()[m.selection]].name, "c.tar.gz");
}

#[test]
fn walking_up_needs_a_parent() {
    match parent_listing(Some("/a".to_string()), Some("b".to_string())) {
        PanelRequest::List { path, reselect } => {
            assert_eq!(path, "/a");
            assert_eq!(reselect.as_deref(), Some("b"));
        }
        _ => panic!("expected a listing"),
    }
    assert!(matches!(parent_listing(None, Some("x".to_string())), PanelRequest::Nothing));
}

#[test]
fn the_unpacking_plan_follows_the_extension() {
    match unzip_plan("/d", "pack.zip.zip", Some("ZiP".to_string())) {
        PanelRequest::Unzip { archive, dest, format } => {
            assert_eq!(archive, "/d/pack.zip.zip");
            assert_eq!(dest, "/d/pack");
            assert_eq!(format, ArchiveFormat::Zip);
        }
        _ => panic!("expected an unzip"),
    }
    match unzip_plan("/d", "src.TAR.GZ", Some("GZ".to_string())) {
        PanelRequest::Unzip { dest, format, .. } => {
            assert_eq!(dest, "/d/src");
            assert_eq!(format, ArchiveFormat::TarGz);
        }
        _ => panic!("expected an unzip"),
    }
    assert!(matches!(unzip_plan("/d", "notes.txt", Some("txt".to_string())), PanelRequest::Nothing));
    assert!(matches!(unzip_plan("/d", "zip", None), PanelRequest::Nothing));
}

#[test]
fn the_archive_name_comes_from_the_stem() {
    assert_eq!(zip_archive_name(1, "report.pdf", false, Some("report".to_string())), "report.zip");
    assert_eq!(zip_archive_name(1, "photos.d", true, Some("photos".to_string())), "photos.d.zip");
    assert_eq!(zip_archive_name(1, "odd", false, None), "odd.zip");
    assert_eq!(zip_archive_name(3, "report.pdf", false, Some("report".to_string())), "archive.zip");
}

#[test]
fn ordering_by_extension_then_name() {
    assert!(before_by_extension("z.a", Some("a".to_string()), "a.b", Some("b".to_string())));
    assert!(before_by_extension("a.c", Some("c".to_string()), "b.c", Some("c".to_string())));
    assert!(before_by_extension("noext", None, "a.a", Some("a".to_string())));
    assert!(!before_by_extension("b.c", Some("c".to_string()), "a.c", Some("c".to_string())));
}

#[test]
fn marking_marks_the_entry_under_the_cursor_when_entries_are_hidden() {
    let m = panel(sample());
    // Filter to "b.txt" and "c.tar.gz" (listing positions 2 and 3).
    let (m, _) = send(m, &[Message::EnterFilter, Message::FilterChar('t'), Message::ConfirmFilter]);
    let (m, _) = send(m, &[Message::SelectDown, Message::MarkSelectUp]);
    assert_eq!(m.selected.iter().copied().collect::<Vec<_>>(), vec![3]);
    assert_eq!(m.selection, 0);
    let t = m.action_targets();
    assert_eq!(t.iter().map(|t| t.name.as_str()).collect::<Vec<_>>(), vec!["c.tar.gz"]);
    let (m, _) = send(m, &[Message::MarkSelectDown]);
    assert_eq!(m.selected.iter().copied().collect::<Vec<_>>(), vec![2, 3]);
}

#[test]
fn marking_in_a_directories_only_panel() {
    let mut m = panel(vec![file("a", 1, None), dir("b")]);
    m.dirs_only = true;
    let (m, _) = send(m, &[Message::MarkSelectDown]);
    assert_eq!(m.selected.iter().copied().collect::<Vec<_>>(), vec![1]);
    let (m, _) = send(panel(Vec::new()), &[Message::MarkSelectDown]);
    assert!(m.selected.is_empty());
}

#[test]
fn entries_are_listed_with_their_icons() {
    assert_eq!(entry_label(&dir("docs")), "\u{f024b} docs/");
    assert_eq!(entry_label(&file("a.txt", 1, None)), "\u{f0219} a.txt");
}

#[test]
fn panel_titles_mark_a_destination() {
    assert_eq!(panel_title("/home/u", SortOrder::Size, None), "/home/u [Sorted by: size]");
    assert_eq!(panel_title("/t", SortOrder::Name, Some(TransferMode::Copy)), "\u{2192}  /t [Sorted by: name]");
    assert_eq!(panel_title("/t", SortOrder::Modified, Some(TransferMode::MoveRename)), "\u{219d}  /t [Sorted by: date]");
    assert_eq!(panel_title("/t", SortOrder::Name, Some(TransferMode::Rename)), "/t [Sorted by: name]");
    assert_eq!(search_box::title("x [Sorted by: name]"), " x [Sorted by: name] ");
}
