use zen::commands::cursor::get_cursor_position;
use zen::commands::view::move_end_of_document;
use zen::commands::view::move_start_of_document;
use zen::commands::view::scroll_down;
use zen::commands::view::scroll_up;
use zen::commands::Commands;
use zen::document::Document;
use zen::editor::Editor;
use zen::editor::EditorAction;
use zen::editor::EditorMode;
use zen::editor::Key;
use zen::editor::Position;
use zen::editor::SearchDirection;
use zen::editor::StatusMessage;
use zen::editor::QUIT_TIMES;

fn editor(lines: &[&str]) -> Editor {
    let lines: Vec<String> = lines.iter().map(|l| l.to_string()).collect();
    Editor::new(Document::open("test.rs", &lines), 80, 24)
}

fn texts(e: &Editor) -> Vec<String> {
    e.document.rows.iter().map(|r| r.string.clone()).collect()
}

#[test]
fn new_editor_starts_in_normal_mode() {
    let e = editor(&["abc"]);
    assert_eq!(e.mode, EditorMode::Normal);
    assert_eq!(e.cursor_position, Position { x: 0, y: 0 });
    assert_eq!(e.offset, Position { x: 0, y: 0 });
    assert_eq!(e.quit_times, QUIT_TIMES);
    assert!(!e.should_quit);
}

#[test]
fn interpret_key_normal_mode() {
    let e = editor(&["abc"]);
    assert_eq!(
        e.interpret_key(Key::Char('i')),
        Some(Commands::EditorSwitchMode(EditorMode::Insert))
    );
    assert_eq!(e.interpret_key(Key::Char('h')), Some(Commands::CursorMoveLeft));
    assert_eq!(e.interpret_key(Key::Char('j')), Some(Commands::CursorMoveUp));
    assert_eq!(e.interpret_key(Key::Char('k')), Some(Commands::CursorMoveDown));
    assert_eq!(e.interpret_key(Key::Char('l')), Some(Commands::CursorMoveRight));
    assert_eq!(e.interpret_key(Key::Char('w')), Some(Commands::CursorMoveNextWord));
    assert_eq!(e.interpret_key(Key::Char('b')), Some(Commands::CursorMovePrevWord));
    assert_eq!(e.interpret_key(Key::Up), Some(Commands::CursorMoveUp));
    assert_eq!(e.interpret_key(Key::PageDown), Some(Commands::DocumentPageDown));
    assert_eq!(e.interpret_key(Key::Ctrl('q')), Some(Commands::DocumentQuit));
    assert_eq!(e.interpret_key(Key::Ctrl('s')), Some(Commands::DocumentSave));
    assert_eq!(e.interpret_key(Key::Ctrl('f')), Some(Commands::DocumentSearch));
    assert_eq!(e.interpret_key(Key::Char('z')), None);
    assert_eq!(e.interpret_key(Key::Esc), None);
}

#[test]
fn interpret_key_insert_mode() {
    let mut e = editor(&["abc"]);
    e.mode = EditorMode::Insert;
    assert_eq!(e.interpret_key(Key::Char('x')), Some(Commands::DocumentInsert('x')));
    assert_eq!(e.interpret_key(Key::Char('\n')), Some(Commands::DocumentInsert('\n')));
    assert_eq!(e.interpret_key(Key::Backspace), Some(Commands::DocumentDeleteBackward));
    assert_eq!(e.interpret_key(Key::Delete), Some(Commands::DocumentDelete));
    assert_eq!(e.interpret_key(Key::Esc), Some(Commands::EditorSwitchMode(EditorMode::Normal)));
    assert_eq!(e.interpret_key(Key::PageUp), None);
}

#[test]
fn interpret_key_command_mode_maps_nothing() {
    let mut e = editor(&["abc"]);
    e.mode = EditorMode::Command;
    assert_eq!(e.interpret_key(Key::Char('i')), None);
    assert_eq!(e.interpret_key(Key::Esc), None);
}

#[test]
fn cursor_clamp_on_read() {
    let mut e = editor(&["hello", ""]);
    e.cursor_position = Position { x: 10, y: 0 };
    let p = get_cursor_position(&e);
    assert_eq!(p, Position { x: 5, y: 0 });
    e.cursor_position = Position { x: 10, y: 1 };
    let p = get_cursor_position(&e);
    assert_eq!(p, Position { x: 0, y: 1 });
}

#[test]
fn cursor_moves_and_wrapping() {
    let mut e = editor(&["ab", "cd"]);
    e.execute_command(Commands::CursorMoveRight);
    assert_eq!(e.cursor_position, Position { x: 1, y: 0 });
    e.execute_command(Commands::CursorMoveRight);
    assert_eq!(e.cursor_position, Position { x: 2, y: 0 });
    // At the row's end, right wraps to the next row's start.
    e.execute_command(Commands::CursorMoveRight);
    assert_eq!(e.cursor_position, Position { x: 0, y: 1 });
    // At a row's start, left wraps to the previous row's end.
    e.execute_command(Commands::CursorMoveLeft);
    assert_eq!(e.cursor_position, Position { x: 2, y: 0 });
    e.execute_command(Commands::CursorMoveDown);
    assert_eq!(e.cursor_position, Position { x: 2, y: 1 });
    e.execute_command(Commands::CursorMoveUp);
    assert_eq!(e.cursor_position, Position { x: 2, y: 0 });
    e.execute_command(Commands::CursorMoveStart);
    assert_eq!(e.cursor_position, Position { x: 0, y: 0 });
    e.execute_command(Commands::CursorMoveEnd);
    assert_eq!(e.cursor_position, Position { x: 2, y: 0 });
}

#[test]
fn word_motions() {
    let mut e = editor(&["foo  bar baz"]);
    e.execute_command(Commands::CursorMoveNextWord);
    assert_eq!(e.cursor_position.x, 3);
    e.execute_command(Commands::CursorMoveNextWord);
    assert_eq!(e.cursor_position.x, 8);
    e.execute_command(Commands::CursorMoveNextWord);
    assert_eq!(e.cursor_position.x, 12);
    e.execute_command(Commands::CursorMovePrevWord);
    assert_eq!(e.cursor_position.x, 9);
    e.execute_command(Commands::CursorMovePrevWord);
    assert_eq!(e.cursor_position.x, 5);
    e.execute_command(Commands::CursorMovePrevWord);
    assert_eq!(e.cursor_position.x, 0);
}

#[test]
fn insert_command_types_text() {
    let mut e = editor(&[]);
    e.execute_command(Commands::DocumentInsert('h'));
    e.execute_command(Commands::DocumentInsert('i'));
    assert_eq!(texts(&e), vec!["hi"]);
    assert_eq!(e.cursor_position, Position { x: 2, y: 0 });
    assert!(e.document.is_dirty());
}

#[test]
fn insert_newline_command_splits_and_descends() {
    let mut e = editor(&["hello world"]);
    e.cursor_position = Position { x: 5, y: 0 };
    e.execute_command(Commands::DocumentInsert('\n'));
    assert_eq!(texts(&e), vec!["hello", " world"]);
    assert_eq!(e.cursor_position, Position { x: 0, y: 1 });
}

#[test]
fn delete_commands() {
    let mut e = editor(&["abc"]);
    e.cursor_position = Position { x: 1, y: 0 };
    e.execute_command(Commands::DocumentDelete);
    assert_eq!(texts(&e), vec!["ac"]);
    assert_eq!(e.cursor_position, Position { x: 1, y: 0 });
    e.execute_command(Commands::DocumentDeleteBackward);
    assert_eq!(texts(&e), vec!["c"]);
    assert_eq!(e.cursor_position, Position { x: 0, y: 0 });
    // At the origin, backward delete does nothing.
    e.execute_command(Commands::DocumentDeleteBackward);
    assert_eq!(texts(&e), vec!["c"]);
}

#[test]
fn backward_delete_at_line_start_merges_rows() {
    let mut e = editor(&["ab", "cd"]);
    e.cursor_position = Position { x: 0, y: 1 };
    e.execute_command(Commands::DocumentDeleteBackward);
    assert_eq!(texts(&e), vec!["abcd"]);
    assert_eq!(e.cursor_position, Position { x: 2, y: 0 });
}

#[test]
fn mode_switch_command() {
    let mut e = editor(&["x"]);
    e.execute_command(Commands::EditorSwitchMode(EditorMode::Insert));
    assert_eq!(e.mode, EditorMode::Insert);
    e.execute_command(Commands::EditorSwitchMode(EditorMode::Normal));
    assert_eq!(e.mode, EditorMode::Normal);
}

#[test]
fn save_and_search_commands_request_actions() {
    let mut e = editor(&["x"]);
    assert_eq!(e.execute_command(Commands::DocumentSave), EditorAction::SaveRequested);
    assert_eq!(e.execute_command(Commands::DocumentSearch), EditorAction::SearchRequested);
    assert_eq!(e.execute_command(Commands::CursorMoveRight), EditorAction::Proceed);
}

#[test]
fn quit_countdown_takes_three_quits_on_dirty_document() {
    let mut e = editor(&["x"]);
    e.execute_command(Commands::DocumentInsert('y'));
    assert!(e.document.is_dirty());
    e.execute_command(Commands::DocumentQuit);
    assert!(!e.should_quit);
    assert_eq!(e.quit_times, 2);
    e.execute_command(Commands::DocumentQuit);
    assert!(!e.should_quit);
    assert_eq!(e.quit_times, 1);
    e.execute_command(Commands::DocumentQuit);
    assert!(e.should_quit);
}

#[test]
fn non_quit_command_resets_countdown() {
    let mut e = editor(&["x"]);
    e.execute_command(Commands::DocumentInsert('y'));
    e.execute_command(Commands::DocumentQuit);
    e.execute_command(Commands::DocumentQuit);
    assert_eq!(e.quit_times, 1);
    e.execute_command(Commands::CursorMoveLeft);
    assert_eq!(e.quit_times, QUIT_TIMES);
    e.execute_command(Commands::DocumentQuit);
    assert!(!e.should_quit);
    assert_eq!(e.quit_times, 2);
}

#[test]
fn clean_document_quits_at_once() {
    let mut e = editor(&["x"]);
    assert!(!e.document.is_dirty());
    e.execute_command(Commands::DocumentQuit);
    assert!(e.should_quit);
}

#[test]
fn dispatch_executes_in_submission_order() {
    let mut e = editor(&[]);
    e.push_command(Commands::DocumentInsert('a')).unwrap();
    e.push_command(Commands::DocumentInsert('b')).unwrap();
    e.push_command(Commands::DocumentInsert('c')).unwrap();
    let acts = e.run_command_loop();
    assert_eq!(texts(&e), vec!["abc"]);
    assert_eq!(acts, vec![EditorAction::Proceed, EditorAction::Proceed, EditorAction::Proceed]);
}

#[test]
fn dispatch_reports_actions_in_order() {
    let mut e = editor(&["x"]);
    e.push_command(Commands::DocumentSave).unwrap();
    e.push_command(Commands::CursorMoveRight).unwrap();
    e.push_command(Commands::DocumentSearch).unwrap();
    let acts = e.run_command_loop();
    assert_eq!(
        acts,
        vec![EditorAction::SaveRequested, EditorAction::Proceed, EditorAction::SearchRequested]
    );
}

#[test]
fn dispatch_stops_at_quit() {
    let mut e = editor(&["x"]);
    e.push_command(Commands::DocumentQuit).unwrap();
    e.push_command(Commands::DocumentInsert('z')).unwrap();
    let acts = e.run_command_loop();
    assert!(e.should_quit);
    assert_eq!(texts(&e), vec!["x"]);
    assert_eq!(acts.len(), 1);
}

#[test]
fn queue_full_is_reported() {
    let mut e = editor(&["x"]);
    for _ in 0..100 {
        assert!(e.push_command(Commands::CursorMoveRight).is_ok());
    }
    assert!(e.push_command(Commands::CursorMoveRight).is_err());
    e.run_command_loop();
    assert!(e.push_command(Commands::CursorMoveRight).is_ok());
}

#[test]
fn scroll_follows_cursor_minimally() {
    let mut e = editor(&["one line"; 100]);
    e.cursor_position = Position { x: 0, y: 50 };
    e.scroll();
    // Minimal movement: the cursor sits on the viewport's last row.
    assert_eq!(e.offset.y, 50 - 24 + 1);
    e.cursor_position = Position { x: 0, y: 10 };
    e.scroll();
    assert_eq!(e.offset.y, 10);
    e.cursor_position = Position { x: 0, y: 20 };
    e.scroll();
    assert_eq!(e.offset.y, 10);
}

#[test]
fn page_movements() {
    let mut e = editor(&["r"; 100]);
    scroll_down(&mut e);
    assert_eq!(e.cursor_position.y, 24);
    scroll_down(&mut e);
    assert_eq!(e.cursor_position.y, 48);
    scroll_up(&mut e);
    assert_eq!(e.cursor_position.y, 24);
    e.cursor_position = Position { x: 0, y: 90 };
    scroll_down(&mut e);
    assert_eq!(e.cursor_position.y, 100);
    e.cursor_position = Position { x: 0, y: 5 };
    scroll_up(&mut e);
    assert_eq!(e.cursor_position.y, 0);
}

#[test]
fn document_extent_moves() {
    let mut e = editor(&["r"; 50]);
    e.cursor_position = Position { x: 1, y: 30 };
    e.offset = Position { x: 0, y: 20 };
    move_start_of_document(&mut e);
    assert_eq!(e.cursor_position, Position { x: 0, y: 0 });
    assert_eq!(e.offset, Position { x: 0, y: 0 });
    move_end_of_document(&mut e);
    assert_eq!(e.cursor_position, Position { x: 0, y: 49 });
    assert_eq!(e.offset.y, 49 - 24);
}

#[test]
fn calculate_viewport_clamps_to_document() {
    let e = editor(&["r"; 10]);
    assert_eq!(e.calculate_viewport(), (0, 10));
    let e = editor(&["r"; 100]);
    assert_eq!(e.calculate_viewport(), (0, 24));
}

#[test]
fn incremental_search_moves_cursor_and_highlights() {
    let mut e = editor(&["foo bar", "baz foo"]);
    e.cursor_position = Position { x: 1, y: 0 };
    let found = e.incremental_search("foo", SearchDirection::Forward);
    assert_eq!(found, Some(Position { x: 4, y: 1 }));
    assert_eq!(e.cursor_position, Position { x: 4, y: 1 });
    assert_eq!(e.highlighted_word.as_deref(), Some("foo"));
    let missed = e.incremental_search("zap", SearchDirection::Forward);
    assert_eq!(missed, None);
    assert_eq!(e.cursor_position, Position { x: 4, y: 1 });
    assert_eq!(e.highlighted_word.as_deref(), Some("zap"));
}

#[test]
fn cancel_search_restores_cursor() {
    let mut e = editor(&["foo bar", "baz foo"]);
    let origin = Position { x: 1, y: 0 };
    e.cursor_position = origin;
    e.incremental_search("foo", SearchDirection::Forward);
    assert_ne!(e.cursor_position, origin);
    e.cancel_search(origin);
    assert_eq!(e.cursor_position, origin);
    assert!(e.highlighted_word.is_none());
}

#[test]
fn status_message_wraps_text() {
    let m = StatusMessage::from("hello".to_string());
    assert_eq!(m.text, "hello");
}

#[test]
fn position_default_is_origin() {
    assert_eq!(Position::default(), Position { x: 0, y: 0 });
}

#[test]
fn viewport_with_offset_past_document() {
    let mut e = editor(&["r"; 10]);
    e.offset = Position { x: 0, y: 30 };
    assert_eq!(e.calculate_viewport(), (30, 10));
}

#[test]
fn moving_to_short_row_clamps_only_on_read() {
    let mut e = editor(&["hello", "hi", "hello"]);
    e.cursor_position = Position { x: 5, y: 0 };
    e.execute_command(Commands::CursorMoveDown);
    // The read-time column is the short row's length.
    assert_eq!(e.cursor_position, Position { x: 5, y: 1 });
    assert_eq!(get_cursor_position(&e), Position { x: 2, y: 1 });
}
