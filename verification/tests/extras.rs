use lfm::message::{Field, Message, NavOp, Surface};
use lfm::ui::capture_view;
use lfm::ui::command_picker::{OutputMode, Preset};
use lfm::ui::file_panel::{self, Entry};
use lfm::ui::input_box::EditOp;
use lfm::update::{
    active_selection, command_output, presets_loaded, run_selected_preset, same_location_message, update,
    view_target, ActivePanel, CommandLine, Effect, Model, PendingKind,
};
use lfm::view::{hint_line, overlays, Hints, Overlay};

fn entry(name: &str, is_dir: bool) -> Entry {
    Entry { name: name.to_string(), is_dir, size: 1, modified: None }
}

fn start() -> Model {
    let left = file_panel::Model::init("/w".to_string(), vec![entry("a.txt", false), entry("b.txt", false), entry("d", true)]);
    let right = file_panel::Model::init("/r".to_string(), Vec::new());
    Model::init(left, right, Vec::new())
}

fn go(model: Model, msgs: &[Message]) -> (Model, Effect) {
    let mut model = model;
    let mut eff = Effect::Nothing;
    for &m in msgs {
        let (next, e) = update(model, m);
        model = next;
        eff = e;
    }
    (model, eff)
}

fn preset(label: &str, shortcut: Option<char>, needs_input: bool, references_files: bool) -> Preset {
    Preset { label: label.to_string(), shortcut, needs_input, references_files, output: OutputMode::Capture }
}

fn with_presets() -> Model {
    let (m, eff) = go(start(), &[Message::OpenCommandPicker]);
    assert!(matches!(eff, Effect::LoadPresets));
    presets_loaded(
        m,
        Ok(vec![preset("wc", Some('w'), false, true), preset("grep", None, true, true), preset("ls", Some('l'), false, false)]),
    )
}

#[test]
fn the_viewer_shows_the_highlighted_entry() {
    let m = start();
    assert_eq!(view_target(&m), Some(("/w/a.txt".to_string(), "a.txt".to_string(), false)));
    let (m, _) = go(m, &[Message::ViewFile]);
    assert_eq!(m.file_view.as_ref().map(|v| v.path.as_str()), Some("/w/a.txt"));
    let (m, _) = go(m, &[Message::SelectDown, Message::SelectDown]);
    let v = m.file_view.as_ref().unwrap();
    assert_eq!((v.path.as_str(), v.name.as_str(), v.is_dir), ("/w/d", "d", true));
    let (m, _) = go(m, &[Message::ViewFile]);
    assert!(m.file_view.is_none());
}

#[test]
fn tab_moves_between_the_list_and_the_viewer() {
    let (m, _) = go(start(), &[Message::ViewFile, Message::NextPanel]);
    assert!(m.file_view_focused);
    assert_eq!(m.active_panel, ActivePanel::LeftFiles);
    assert_eq!(hint_line(&m), Hints::FileView);
    let (_, eff) = go(m, &[Message::Nav(Surface::FileView, NavOp::PageDown)]);
    assert!(matches!(eff, Effect::ScrollView(NavOp::PageDown)));
    let (m, _) = go(start(), &[Message::ViewFile, Message::NextPanel, Message::Close(Surface::FileView)]);
    assert!(m.file_view.is_none() && !m.file_view_focused);
    let (m, _) = go(m, &[Message::NextPanel]);
    assert_eq!(m.active_panel, ActivePanel::RightFiles);
}

#[test]
fn nothing_to_view_from_the_pinned_popup() {
    let (m, _) = go(start(), &[Message::TogglePinnedPanel]);
    assert_eq!(view_target(&m), None);
    let (m, _) = go(m, &[Message::ViewFile]);
    assert!(m.file_view.is_none());
}

#[test]
fn captured_output_scrolls_within_its_lines() {
    let output: String = (0..10).map(|i| format!("line {i}\n")).collect();
    let mut m = command_output(start(), "ls".to_string(), output, Some(0));
    assert_eq!(hint_line(&m), Hints::Capture);
    m.capture_view.as_mut().unwrap().rows = 4;
    let v = m.capture_view.as_ref().unwrap();
    assert_eq!(capture_view::max_scroll(v), 6);
    assert_eq!(capture_view::page_step(v), 4);
    let (m, _) = go(m, &[Message::Nav(Surface::Capture, NavOp::Up)]);
    assert_eq!(m.capture_view.as_ref().unwrap().scroll, 0);
    let (m, _) = go(m, &[Message::Nav(Surface::Capture, NavOp::PageDown), Message::Nav(Surface::Capture, NavOp::Down)]);
    assert_eq!(m.capture_view.as_ref().unwrap().scroll, 5);
    let (m, _) = go(m, &[Message::Nav(Surface::Capture, NavOp::PageDown)]);
    assert_eq!(m.capture_view.as_ref().unwrap().scroll, 6);
    let (m, _) = go(m, &[Message::Nav(Surface::Capture, NavOp::PageUp)]);
    assert_eq!(m.capture_view.as_ref().unwrap().scroll, 2);
    let (m, eff) = go(m, &[Message::Close(Surface::Capture)]);
    assert!(m.capture_view.is_none());
    assert!(matches!(eff, Effect::RelistPanels));
    let (_, eff) = go(m, &[Message::Close(Surface::Capture)]);
    assert!(matches!(eff, Effect::Nothing));
}

#[test]
fn the_preset_list_moves_and_runs_by_shortcut() {
    let m = with_presets();
    assert_eq!(overlays(&m), vec![Overlay::CommandPicker]);
    assert_eq!(hint_line(&m), Hints::Picker(false));
    let (m, _) = go(m, &[Message::Nav(Surface::CommandPicker, NavOp::Down), Message::Nav(Surface::CommandPicker, NavOp::Down), Message::Nav(Surface::CommandPicker, NavOp::Down)]);
    assert_eq!(m.command_picker.as_ref().unwrap().selection, 2);
    let (m, _) = go(m, &[Message::CommandPickerShortcut('k')]);
    assert_eq!(m.command_picker.as_ref().unwrap().selection, 1);
    let (m, eff) = go(m, &[Message::CommandPickerShortcut('l')]);
    assert_eq!(m.command_picker.as_ref().unwrap().selection, 2);
    assert!(matches!(eff, Effect::ExpandPreset { ref input } if input.is_empty()));
    let (m, eff) = go(m, &[Message::CommandPickerShortcut('z')]);
    assert!(matches!(eff, Effect::Nothing));
    let (m, _) = go(m, &[Message::Close(Surface::CommandPicker)]);
    assert!(m.command_picker.is_none());
}

#[test]
fn a_preset_that_asks_for_a_value_prompts_first() {
    let (m, _) = go(with_presets(), &[Message::Nav(Surface::CommandPicker, NavOp::Down), Message::CommandPickerConfirm]);
    assert!(m.command_picker.as_ref().unwrap().input.as_ref().unwrap().active);
    assert_eq!(hint_line(&m), Hints::Picker(true));
    let (m, eff) = go(m, &[
        Message::Edit(Field::CommandInput, EditOp::Char('f')),
        Message::Edit(Field::CommandInput, EditOp::Char('o')),
        Message::CommandInputConfirm,
    ]);
    assert!(matches!(eff, Effect::ExpandPreset { ref input } if input == "fo"));
    let (m, _) = go(m, &[Message::Cancel(Field::CommandInput)]);
    assert!(m.command_picker.as_ref().unwrap().input.is_none());
}

#[test]
fn running_a_preset_closes_the_list() {
    let m = with_presets();
    assert_eq!(active_selection(&m), Some((vec!["a.txt".to_string()], vec!["/w/a.txt".to_string()])));
    let (m2, eff) = run_selected_preset(m, Ok(CommandLine::Argv(vec!["wc".to_string(), "/w/a.txt".to_string()])));
    assert!(m2.command_picker.is_none());
    match eff {
        Effect::RunCommand { spec } => {
            assert_eq!(spec.argv, Some(vec!["wc".to_string(), "/w/a.txt".to_string()]));
            assert_eq!(spec.shell, None);
            assert_eq!(spec.cwd, "/w");
            assert_eq!(spec.label, "wc");
            assert_eq!(spec.mode, OutputMode::Capture);
        }
        _ => panic!("expected a command to run"),
    }
    let (m, eff) = run_selected_preset(with_presets(), Err("bad template".to_string()));
    assert!(matches!(eff, Effect::Nothing));
    assert_eq!(m.error_message.as_deref(), Some("'wc': bad template"));
    assert!(m.command_picker.is_none());
}

#[test]
fn a_preset_naming_files_needs_a_selection() {
    let left = file_panel::Model::init("/empty".to_string(), Vec::new());
    let right = file_panel::Model::init("/r".to_string(), Vec::new());
    let m = Model::init(left, right, Vec::new());
    let (m, _) = go(m, &[Message::OpenCommandPicker]);
    let m = presets_loaded(m, Ok(vec![preset("wc", None, false, true), preset("ls", None, false, false)]));
    let (m2, eff) = run_selected_preset(m, Ok(CommandLine::Shell("wc".to_string())));
    assert!(matches!(eff, Effect::Nothing));
    assert_eq!(m2.error_message.as_deref(), Some("'wc' requires a selected file (none available)"));
    let m = presets_loaded(m2, Ok(vec![preset("ls", None, false, false)]));
    let (_, eff) = run_selected_preset(m, Ok(CommandLine::Shell("ls".to_string())));
    assert!(matches!(eff, Effect::RunCommand { ref spec } if spec.shell.as_deref() == Some("ls") && spec.argv.is_none()));
}

#[test]
fn unreadable_presets_are_reported() {
    let m = presets_loaded(start(), Err("missing".to_string()));
    assert_eq!(m.error_message.as_deref(), Some("commands.json: missing"));
    assert!(m.command_picker.is_none());
    let (_, eff) = go(start(), &[Message::TogglePinnedPanel, Message::OpenCommandPicker]);
    assert!(matches!(eff, Effect::Nothing));
}

#[test]
fn a_trailing_slash_is_still_the_source_folder() {
    let k = PendingKind::Copy(vec!["/a/x".to_string()], "/a/".to_string());
    assert!(same_location_message(&k).is_some());
    let k = PendingKind::MoveRename("/a/x".to_string(), "/a//x".to_string());
    assert!(same_location_message(&k).is_some());
}
