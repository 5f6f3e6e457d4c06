use rut::buffer::{Buffer, DeletionMode};
use rut::cursor::CursorPosition;
use rut::editor::{Action, Command, Editor};

#[test]
fn default_cursor_sits_at_origin() {
    let cur = CursorPosition::default();
    assert_eq!(cur.index(), 0);
    assert_eq!(cur.col(), 0);
    assert_eq!(cur.row(), 0);
}

#[test]
fn move_right_and_left_clamp_to_buffer_bounds() {
    let buf = Buffer::new("ab");
    let mut cur = CursorPosition::default();
    cur.move_left(&buf);
    assert_eq!(cur.index(), 0);
    cur.move_right(&buf);
    assert_eq!(cur.index(), 1);
    cur.move_right(&buf);
    assert_eq!(cur.index(), 2);
    cur.move_right(&buf);
    assert_eq!(cur.index(), 2);
    cur.move_left(&buf);
    assert_eq!(cur.index(), 1);
}

#[test]
fn moving_across_a_newline_updates_the_row() {
    let buf = Buffer::new("a\nb");
    let mut cur = CursorPosition::default();
    cur.move_right(&buf);
    assert_eq!((cur.col(), cur.row()), (1, 0));
    cur.move_right(&buf);
    assert_eq!((cur.col(), cur.row()), (0, 1));
    cur.move_left(&buf);
    assert_eq!((cur.col(), cur.row()), (1, 0));
}

#[test]
fn move_down_preserves_column_when_possible() {
    let buf = Buffer::new("ab\ncdef");
    let mut cur = CursorPosition::default();
    cur.set_index(&buf, 1);
    assert_eq!((cur.col(), cur.row()), (1, 0));
    cur.move_down(&buf);
    assert_eq!(cur.index(), 4);
    assert_eq!((cur.col(), cur.row()), (1, 1));
}

#[test]
fn move_down_clamps_to_a_shorter_line() {
    let buf = Buffer::new("abcd\nxy");
    let mut cur = CursorPosition::default();
    cur.set_index(&buf, 4);
    assert_eq!((cur.col(), cur.row()), (4, 0));
    cur.move_down(&buf);
    assert_eq!(cur.index(), 7);
    assert_eq!((cur.col(), cur.row()), (2, 1));
}

#[test]
fn move_down_on_last_line_is_a_no_op() {
    let buf = Buffer::new("ab\ncd");
    let mut cur = CursorPosition::default();
    cur.set_index(&buf, 4);
    cur.move_down(&buf);
    assert_eq!(cur.index(), 4);
}

#[test]
fn move_up_preserves_column_when_possible() {
    let buf = Buffer::new("abcd\nxy");
    let mut cur = CursorPosition::default();
    cur.set_index(&buf, 7);
    assert_eq!((cur.col(), cur.row()), (2, 1));
    cur.move_up(&buf);
    assert_eq!(cur.index(), 2);
    assert_eq!((cur.col(), cur.row()), (2, 0));
}

#[test]
fn move_up_clamps_to_a_shorter_line() {
    let buf = Buffer::new("ab\ncdef");
    let mut cur = CursorPosition::default();
    cur.set_index(&buf, 7);
    assert_eq!((cur.col(), cur.row()), (4, 1));
    cur.move_up(&buf);
    assert_eq!(cur.index(), 2);
    assert_eq!((cur.col(), cur.row()), (2, 0));
}

#[test]
fn move_up_on_first_line_is_a_no_op() {
    let buf = Buffer::new("ab\ncd");
    let mut cur = CursorPosition::default();
    cur.set_index(&buf, 1);
    cur.move_up(&buf);
    assert_eq!(cur.index(), 1);
}

#[test]
fn word_movement_follows_word_boundaries() {
    let buf = Buffer::new("hello world");
    let mut cur = CursorPosition::default();
    cur.move_word_right(&buf);
    assert_eq!(cur.index(), 5);
    cur.move_word_right(&buf);
    assert_eq!(cur.index(), 11);
    cur.move_word_right(&buf);
    assert_eq!(cur.index(), 11);
    cur.move_word_left(&buf);
    assert_eq!(cur.index(), 6);
    cur.move_word_left(&buf);
    assert_eq!(cur.index(), 0);
    cur.move_word_left(&buf);
    assert_eq!(cur.index(), 0);
}

#[test]
fn editor_inserts_at_the_cursor_and_advances() {
    let mut ed = Editor::new("");
    ed.insert_char('h');
    ed.insert_char('i');
    ed.insert_char('\n');
    ed.insert_char('x');
    assert_eq!(ed.snapshot(), "hi\nx");
    assert_eq!(ed.cursor_index(), 4);
    assert_eq!((ed.cursor().col(), ed.cursor().row()), (1, 1));
}

#[test]
fn backspace_at_buffer_start_is_a_no_op() {
    let mut ed = Editor::new("abc");
    ed.remove_char(DeletionMode::Backspace);
    assert_eq!(ed.snapshot(), "abc");
    assert_eq!(ed.cursor_index(), 0);
    assert_eq!((ed.cursor().col(), ed.cursor().row()), (0, 0));
}

#[test]
fn backspace_removes_the_character_before_the_cursor() {
    let mut ed = Editor::new("abc");
    ed.handle_command(Command::MoveRight);
    ed.handle_command(Command::MoveRight);
    ed.remove_char(DeletionMode::Backspace);
    assert_eq!(ed.snapshot(), "ac");
    assert_eq!(ed.cursor_index(), 1);
}

#[test]
fn delete_removes_the_character_at_the_cursor() {
    let mut ed = Editor::new("abc");
    ed.handle_command(Command::MoveRight);
    ed.remove_char(DeletionMode::Delete);
    assert_eq!(ed.snapshot(), "ac");
    assert_eq!(ed.cursor_index(), 1);
}

#[test]
fn delete_at_buffer_end_is_a_no_op() {
    let mut ed = Editor::new("ab");
    ed.handle_command(Command::MoveRight);
    ed.handle_command(Command::MoveRight);
    ed.remove_char(DeletionMode::Delete);
    assert_eq!(ed.snapshot(), "ab");
    assert_eq!(ed.cursor_index(), 2);
}

#[test]
fn remove_word_deletes_back_to_the_word_start() {
    let mut ed = Editor::new("hello world");
    for _ in 0..11 {
        ed.handle_command(Command::MoveRight);
    }
    ed.remove_word();
    assert_eq!(ed.snapshot(), "hello ");
    assert_eq!(ed.cursor_index(), 6);
}

#[test]
fn remove_word_at_buffer_start_is_a_no_op() {
    let mut ed = Editor::new("hello");
    ed.remove_word();
    assert_eq!(ed.snapshot(), "hello");
    assert_eq!(ed.cursor_index(), 0);
}

#[test]
fn handle_command_dispatches_movement() {
    let mut ed = Editor::new("ab\ncdef");
    let act = ed.handle_command(Command::MoveRight);
    assert!(matches!(act, Action::CursorMoved));
    assert_eq!(ed.cursor_index(), 1);
    let act = ed.handle_command(Command::MoveDown);
    assert!(matches!(act, Action::CursorMoved));
    assert_eq!(ed.cursor_index(), 4);
    let act = ed.handle_command(Command::MoveUp);
    assert!(matches!(act, Action::CursorMoved));
    assert_eq!(ed.cursor_index(), 1);
    let act = ed.handle_command(Command::MoveWordRight);
    assert!(matches!(act, Action::CursorMoved));
    assert_eq!(ed.cursor_index(), 2);
}

#[test]
fn handle_command_dispatches_edits() {
    let mut ed = Editor::new("ab");
    let act = ed.handle_command(Command::Insert('x'));
    assert!(matches!(act, Action::Edited));
    assert_eq!(ed.snapshot(), "xab");
    let act = ed.handle_command(Command::Backspace);
    assert!(matches!(act, Action::Edited));
    assert_eq!(ed.snapshot(), "ab");
    let act = ed.handle_command(Command::Delete);
    assert!(matches!(act, Action::Edited));
    assert_eq!(ed.snapshot(), "b");
}

#[test]
fn handle_command_delete_word_removes_the_word_before_the_cursor() {
    let mut ed = Editor::new("one two");
    for _ in 0..7 {
        ed.handle_command(Command::MoveRight);
    }
    let act = ed.handle_command(Command::DeleteWord);
    assert!(matches!(act, Action::Edited));
    assert_eq!(ed.snapshot(), "one ");
    assert_eq!(ed.cursor_index(), 4);
}

#[test]
fn handle_command_save_hands_out_a_snapshot() {
    let mut ed = Editor::new("keep me");
    let act = ed.handle_command(Command::Save);
    match act {
        Action::Persist(snap) => assert_eq!(snap, "keep me"),
        _ => panic!("save must produce a snapshot to persist"),
    }
    assert_eq!(ed.snapshot(), "keep me");
    assert_eq!(ed.cursor_index(), 0);
}

#[test]
fn handle_command_exit_requests_quit() {
    let mut ed = Editor::new("x");
    let act = ed.handle_command(Command::Exit);
    assert!(matches!(act, Action::Quit));
    assert_eq!(ed.snapshot(), "x");
}

#[test]
fn enter_inserts_a_newline_and_moves_to_the_next_row() {
    let mut ed = Editor::new("ab");
    ed.handle_command(Command::MoveRight);
    let act = ed.handle_command(Command::Insert('\n'));
    assert!(matches!(act, Action::Edited));
    assert_eq!(ed.snapshot(), "a\nb");
    assert_eq!(ed.cursor_index(), 2);
    assert_eq!((ed.cursor().col(), ed.cursor().row()), (0, 1));
}
