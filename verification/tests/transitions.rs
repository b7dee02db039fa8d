use editor::{Editor, Error, Message, Request, Theme};
use iced::widget::text_editor::{Action, Edit, Motion};
use std::io::ErrorKind;
use std::path::PathBuf;
use std::sync::Arc;

const DIRECTORY: &str = "/home/user/editor";

fn fresh() -> Editor {
    Editor::new(DIRECTORY).0
}

fn insert(editor: &mut Editor, text: &str) {
    for character in text.chars() {
        let request = editor.update(Message::Edit(Action::Edit(Edit::Insert(character)))).0;
        assert!(request.is_none());
    }
}

fn opened(path: &str, text: &str) -> Message {
    Message::FileOpened(Ok((PathBuf::from(path), Arc::new(text.to_string()))))
}

#[test]
fn a_fresh_editor_is_empty_and_saved() {
    let (editor, request) = Editor::new(DIRECTORY);
    assert_eq!(editor.lines(), vec![String::new()]);
    assert_eq!(editor.cursor_position(), (0, 0));
    assert!(editor.path.is_none());
    assert!(editor.error.is_none());
    assert!(editor.saved);
    assert_eq!(editor.theme, Theme::SolarizedDark);
    assert!(matches!(
        request,
        Request::LoadFile(path) if path == PathBuf::from("/home/user/editor/src/main.rs")
    ));
}

#[test]
fn the_default_file_is_the_main_source_file() {
    assert_eq!(
        editor::default_file("/home/user/editor"),
        PathBuf::from("/home/user/editor/src/main.rs")
    );
    assert_eq!(
        editor::default_file("/home/user/editor").to_str(),
        Some("/home/user/editor/src/main.rs")
    );
    assert!(editor::default_file("/work/ed").ends_with("src/main.rs"));
    assert!(editor::default_file("/work/ed").is_absolute());
}

#[test]
fn the_default_file_is_the_same_on_every_call() {
    assert_eq!(editor::default_file("/work/ed"), editor::default_file("/work/ed"));
    assert_eq!(editor::default_file(""), PathBuf::from("/src/main.rs"));
}

#[test]
fn choosing_a_theme_twice_is_choosing_it_once() {
    let mut once = fresh();
    assert!(once.update(Message::NewTheme(Theme::Base16Ocean)).0.is_none());
    let mut twice = fresh();
    assert!(twice.update(Message::NewTheme(Theme::Base16Ocean)).0.is_none());
    assert!(twice.update(Message::NewTheme(Theme::Base16Ocean)).0.is_none());
    assert_eq!(once.theme, Theme::Base16Ocean);
    assert_eq!(twice.theme, once.theme);
    assert_eq!(twice.saved, once.saved);
    assert_eq!(twice.path, once.path);
    assert_eq!(twice.lines(), once.lines());
    assert!(twice.error.is_none() && once.error.is_none());
}

#[test]
fn every_theme_can_be_chosen() {
    let mut editor = fresh();
    for theme in Theme::all() {
        assert!(editor.update(Message::NewTheme(theme)).0.is_none());
        assert_eq!(editor.theme, theme);
        assert!(editor.saved);
    }
}

#[test]
fn an_edit_marks_the_document_unsaved() {
    let mut editor = fresh();
    assert!(editor.saved);
    let request = editor.update(Message::Edit(Action::Edit(Edit::Insert('a')))).0;
    assert!(request.is_none());
    assert!(!editor.saved);
    assert_eq!(editor.lines(), vec!["a".to_string()]);
}

#[test]
fn every_kind_of_edit_marks_the_document_unsaved() {
    let edits = vec![
        Edit::Insert('x'),
        Edit::Paste(Arc::new("pasted".to_string())),
        Edit::Enter,
        Edit::Backspace,
        Edit::Delete,
    ];
    for edit in edits {
        let mut editor = fresh();
        editor.update(opened("/tmp/a.txt", "one\ntwo"));
        assert!(editor.saved);
        editor.update(Message::Edit(Action::Edit(edit)));
        assert!(!editor.saved);
    }
}

#[test]
fn a_cursor_move_keeps_the_saved_flag_and_the_text() {
    let mut editor = fresh();
    editor.update(opened("/tmp/a.txt", "one\ntwo"));
    assert!(editor.saved);
    editor.update(Message::Edit(Action::Move(Motion::DocumentEnd)));
    assert!(editor.saved);
    assert_eq!(editor.lines(), vec!["one".to_string(), "two".to_string()]);
    assert_eq!(editor.cursor_position(), (1, 3));

    insert(&mut editor, "x");
    assert!(!editor.saved);
    let before = editor.lines();
    editor.update(Message::Edit(Action::Move(Motion::DocumentStart)));
    editor.update(Message::Edit(Action::Select(Motion::DocumentEnd)));
    editor.update(Message::Edit(Action::SelectLine));
    assert!(!editor.saved);
    assert_eq!(editor.lines(), before);
}

#[test]
fn new_resets_the_document() {
    let mut editor = fresh();
    editor.update(opened("/tmp/a.txt", "hello"));
    assert!(editor.saved);
    let request = editor.update(Message::New).0;
    assert!(request.is_none());
    assert!(editor.path.is_none());
    assert_eq!(editor.lines(), vec![String::new()]);
    assert_eq!(editor.lines().join("\n"), "");
    assert_eq!(editor.cursor_position(), (0, 0));
    assert!(!editor.saved);
}

#[test]
fn new_keeps_the_theme_and_the_error() {
    let mut editor = fresh();
    editor.update(Message::NewTheme(Theme::InspiredGitHub));
    editor.update(Message::FileSaved(Err(Error::IOFailed(ErrorKind::PermissionDenied))));
    editor.update(Message::New);
    assert_eq!(editor.theme, Theme::InspiredGitHub);
    assert!(matches!(editor.error, Some(Error::IOFailed(ErrorKind::PermissionDenied))));
}

#[test]
fn an_opened_file_becomes_the_document() {
    let mut editor = fresh();
    insert(&mut editor, "draft");
    assert!(!editor.saved);
    let request = editor.update(opened("/tmp/hello.txt", "hello")).0;
    assert!(request.is_none());
    assert_eq!(editor.path, Some(PathBuf::from("/tmp/hello.txt")));
    assert_eq!(editor.lines(), vec!["hello".to_string()]);
    assert_eq!(editor.lines().join("\n"), "hello");
    assert!(editor.saved);
    assert!(editor.error.is_none());
}

#[test]
fn opening_a_file_does_not_clear_an_error() {
    let mut editor = fresh();
    editor.update(Message::FileOpened(Err(Error::DialogClosed)));
    editor.update(opened("/tmp/hello.txt", "hello"));
    assert!(matches!(editor.error, Some(Error::DialogClosed)));
    assert!(editor.saved);
}

#[test]
fn open_schedules_the_file_dialog_and_changes_nothing() {
    let mut editor = fresh();
    insert(&mut editor, "ab");
    let request = editor.update(Message::Open).0;
    assert!(matches!(request, Some(Request::PickFile)));
    assert!(!editor.saved);
    assert!(editor.path.is_none());
    assert_eq!(editor.lines(), vec!["ab".to_string()]);
}

#[test]
fn save_without_a_path_asks_for_one() {
    let mut editor = fresh();
    insert(&mut editor, "ab");
    let request = editor.update(Message::Save).0.expect("a save request");
    assert!(matches!(&request, Request::SaveFile(None, text) if text == "ab\n"));
    assert!(matches!(
        editor::begin(request),
        editor::Step::ChooseTarget { text, suggestion } if text == "ab\n" && suggestion == "new.txt"
    ));
    assert!(!editor.saved);
    assert!(editor.path.is_none());
}

#[test]
fn save_with_a_path_writes_there() {
    let mut editor = fresh();
    editor.update(opened("/tmp/a.txt", "one\ntwo\n"));
    let request = editor.update(Message::Save).0.expect("a save request");
    assert!(matches!(
        &request,
        Request::SaveFile(Some(path), text) if path == &PathBuf::from("/tmp/a.txt") && text == "one\ntwo\n"
    ));
    assert!(matches!(
        editor::begin(request),
        editor::Step::Write(path, text) if path == PathBuf::from("/tmp/a.txt") && text == "one\ntwo\n"
    ));
    assert!(editor.saved);
}

#[test]
fn an_edit_clears_the_error() {
    let mut editor = fresh();
    editor.update(Message::FileOpened(Err(Error::IOFailed(ErrorKind::NotFound))));
    assert!(matches!(editor.error, Some(Error::IOFailed(ErrorKind::NotFound))));
    editor.update(Message::Edit(Action::Edit(Edit::Insert('a'))));
    assert!(editor.error.is_none());
}

#[test]
fn a_cursor_move_clears_the_error_too() {
    let mut editor = fresh();
    editor.update(Message::FileSaved(Err(Error::IOFailed(ErrorKind::NotFound))));
    assert!(editor.error.is_some());
    editor.update(Message::Edit(Action::Move(Motion::Left)));
    assert!(editor.error.is_none());
    assert!(editor.saved);
}

#[test]
fn a_closed_open_dialog_changes_only_the_error() {
    let mut editor = fresh();
    editor.update(opened("/tmp/a.txt", "kept"));
    insert(&mut editor, "x");
    let lines = editor.lines();
    let cursor = editor.cursor_position();
    let request = editor.update(Message::FileOpened(Err(Error::DialogClosed))).0;
    assert!(request.is_none());
    assert_eq!(editor.path, Some(PathBuf::from("/tmp/a.txt")));
    assert_eq!(editor.lines(), lines);
    assert_eq!(editor.cursor_position(), cursor);
    assert!(!editor.saved);
    assert!(matches!(editor.error, Some(Error::DialogClosed)));
}

#[test]
fn a_closed_save_dialog_changes_only_the_error() {
    let mut editor = fresh();
    insert(&mut editor, "x");
    let request = editor.update(Message::FileSaved(Err(Error::DialogClosed))).0;
    assert!(request.is_none());
    assert!(editor.path.is_none());
    assert_eq!(editor.lines(), vec!["x".to_string()]);
    assert!(!editor.saved);
    assert!(matches!(editor.error, Some(Error::DialogClosed)));
}

#[test]
fn a_failed_save_keeps_the_document_unsaved() {
    let mut editor = fresh();
    insert(&mut editor, "x");
    editor.update(Message::FileSaved(Err(Error::IOFailed(ErrorKind::PermissionDenied))));
    assert!(!editor.saved);
    assert!(editor.path.is_none());
    assert!(matches!(editor.error, Some(Error::IOFailed(ErrorKind::PermissionDenied))));
}

#[test]
fn only_the_latest_error_is_kept() {
    let mut editor = fresh();
    editor.update(Message::FileOpened(Err(Error::IOFailed(ErrorKind::NotFound))));
    editor.update(Message::FileSaved(Err(Error::DialogClosed)));
    assert!(matches!(editor.error, Some(Error::DialogClosed)));
}

#[test]
fn a_late_save_result_overwrites_a_newer_path() {
    let mut editor = fresh();
    editor.update(opened("/tmp/new.txt", "new"));
    editor.update(Message::Edit(Action::Edit(Edit::Insert('x'))));
    editor.update(Message::FileSaved(Ok(PathBuf::from("/tmp/old.txt"))));
    assert_eq!(editor.path, Some(PathBuf::from("/tmp/old.txt")));
    assert!(editor.saved);
}

#[test]
fn first_save_of_a_new_document() {
    let mut editor = fresh();
    assert!(editor.path.is_none());
    assert_eq!(editor.lines().join("\n"), "");
    assert!(editor.saved);

    insert(&mut editor, "abc");
    assert_eq!(editor.lines().join("\n"), "abc");
    assert!(!editor.saved);

    let request = editor.update(Message::Save).0.expect("a save request");
    assert!(matches!(&request, Request::SaveFile(None, text) if text == "abc\n"));
    let step = editor::begin(request);
    let text = match step {
        editor::Step::ChooseTarget { text, .. } => text,
        other => panic!("the save went on without asking for a path: {:?}", other),
    };
    let step = editor::target_chosen(Some(PathBuf::from("/tmp/x.txt")), text);
    let (path, text) = match step {
        editor::Step::Write(path, text) => (path, text),
        other => panic!("the save did not go on to writing: {:?}", other),
    };
    assert_eq!(path, PathBuf::from("/tmp/x.txt"));
    assert_eq!(text, "abc\n");
    let message = match editor::file_written(path, Ok(())) {
        editor::Step::Done(message) => message,
        other => panic!("the save did not end: {:?}", other),
    };
    assert!(matches!(&message, Message::FileSaved(Ok(path)) if path == &PathBuf::from("/tmp/x.txt")));

    let request = editor.update(message).0;
    assert!(request.is_none());
    assert_eq!(editor.path, Some(PathBuf::from("/tmp/x.txt")));
    assert!(editor.saved);
    assert!(editor.error.is_none());
    assert_eq!(editor.lines(), vec!["abc".to_string()]);
}

#[test]
fn what_depends_on_the_view_is_handed_back() {
    let by_line = [Motion::Up, Motion::Down, Motion::Home, Motion::End, Motion::PageUp, Motion::PageDown];
    let mut editor = fresh();
    editor.update(opened("/tmp/a.txt", "one\ntwo"));
    for motion in by_line {
        let (request, held) = editor.update(Message::Edit(Action::Move(motion)));
        assert!(request.is_none());
        assert_eq!(held, Some(Action::Move(motion)));
        let (request, held) = editor.update(Message::Edit(Action::Select(motion)));
        assert!(request.is_none());
        assert_eq!(held, Some(Action::Select(motion)));
    }
    let (request, held) = editor.update(Message::Edit(Action::Scroll { lines: 3 }));
    assert!(request.is_none());
    assert_eq!(held, Some(Action::Scroll { lines: 3 }));
    assert!(editor.saved);
    assert_eq!(editor.path, Some(PathBuf::from("/tmp/a.txt")));
    assert_eq!(editor.cursor_position(), (0, 0));
    assert_eq!(editor.lines(), vec!["one".to_string(), "two".to_string()]);
}

#[test]
fn an_action_that_is_handed_back_clears_the_error_too() {
    for action in [Action::Move(Motion::Up), Action::Select(Motion::End), Action::Scroll { lines: -1 }] {
        let mut editor = fresh();
        editor.update(Message::FileOpened(Err(Error::IOFailed(ErrorKind::NotFound))));
        assert!(editor.error.is_some());
        let (request, held) = editor.update(Message::Edit(action.clone()));
        assert!(request.is_none());
        assert_eq!(held, Some(action));
        assert!(editor.error.is_none());
        assert!(editor.saved);
    }
}

#[test]
fn nothing_is_handed_back_by_the_other_messages() {
    let mut editor = fresh();
    assert!(editor.update(Message::Open).1.is_none());
    assert!(editor.update(opened("/tmp/a.txt", "one")).1.is_none());
    assert!(editor.update(Message::Edit(Action::Move(Motion::DocumentEnd))).1.is_none());
    assert!(editor.update(Message::Edit(Action::Edit(Edit::Insert('!')))).1.is_none());
    assert!(editor.update(Message::Edit(Action::SelectWord)).1.is_none());
    assert!(editor.update(Message::Save).1.is_none());
    assert!(editor.update(Message::NewTheme(Theme::Base16Mocha)).1.is_none());
    assert!(editor.update(Message::New).1.is_none());
    assert!(editor.update(Message::FileSaved(Ok(PathBuf::from("/tmp/b.txt")))).1.is_none());
    assert!(editor.update(Message::FileSaved(Err(Error::DialogClosed))).1.is_none());
    assert_eq!(editor.path, Some(PathBuf::from("/tmp/b.txt")));
}

#[test]
fn requests_come_from_open_and_save_alone() {
    let mut editor = fresh();
    assert!(matches!(editor.update(Message::Open).0, Some(Request::PickFile)));
    assert!(matches!(editor.update(Message::Save).0, Some(Request::SaveFile(None, _))));
    assert!(editor.update(Message::New).0.is_none());
    assert!(editor.update(Message::NewTheme(Theme::Base16Ocean)).0.is_none());
    assert!(editor.update(opened("/tmp/a.txt", "one")).0.is_none());
    assert!(editor.update(Message::Edit(Action::SelectLine)).0.is_none());
    assert!(editor.update(Message::FileOpened(Err(Error::DialogClosed))).0.is_none());
    assert!(editor.update(Message::FileSaved(Ok(PathBuf::from("/tmp/a.txt")))).0.is_none());
    assert!(editor.update(Message::FileSaved(Err(Error::DialogClosed))).0.is_none());
}
