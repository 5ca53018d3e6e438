use shush::decoder::KeyEvent;
use shush::editor::Editor;

const HIDE: &[u8] = b"\x1b[?25l";
const SHOW: &[u8] = b"\x1b[?25h";
const CLEAR: &[u8] = b"\x1b[2K\r";
const PROMPT: &[u8] = &[0xf0, 0x9f, 0xa4, 0xab, b'>', b' '];

/// The full repaint that follows a mutation: hide, clear, prompt, text,
/// cursor column, show.
fn expected_redraw(text: &[u8], cursor: usize) -> Vec<u8> {
    let mut out = Vec::new();
    out.extend_from_slice(HIDE);
    out.extend_from_slice(CLEAR);
    out.extend_from_slice(PROMPT);
    out.extend_from_slice(text);
    out.extend_from_slice(format!("\x1b[{}G", cursor + 5).as_bytes());
    out.extend_from_slice(SHOW);
    out
}

#[test]
fn delete_backward_on_empty_buffer_is_a_noop() {
    let mut editor = Editor::new();
    let outcome = editor.apply_event(KeyEvent::DeleteBackward);
    assert!(outcome.output.is_empty());
    assert!(outcome.finished.is_none());
    assert!(!outcome.terminate);
    assert_eq!(editor.cursor, 0);
    assert_eq!(editor.get_buffer_text().unwrap(), "");
}

#[test]
fn navigation_is_clamped() {
    let mut editor = Editor::new();
    assert_eq!(editor.move_cursor_left(), None);
    assert_eq!(editor.move_cursor_right(), None);
    let _ = editor.write_to_buffer(b"ab");
    assert_eq!(editor.cursor, 2);
    assert_eq!(editor.move_cursor_right(), None);
    assert_eq!(editor.move_cursor_left(), Some("\x1B[D"));
    assert_eq!(editor.cursor, 1);
    assert_eq!(editor.move_cursor_to_start(), "\x1B[5G");
    assert_eq!(editor.cursor, 0);
    assert_eq!(editor.move_cursor_to_start(), "\x1B[5G");
    assert_eq!(editor.cursor, 0);
    assert_eq!(editor.move_cursor_left(), None);
    assert_eq!(editor.cursor, 0);
    assert_eq!(editor.move_cursor_right(), Some("\x1B[C"));
    assert_eq!(editor.cursor, 1);
}

#[test]
fn typing_inserts_at_the_cursor() {
    let mut editor = Editor::new();
    let out = editor.write_to_buffer(b"hello");
    assert_eq!(out, expected_redraw(b"hello", 5));
    editor.move_cursor_left();
    let out = editor.write_to_buffer(b"XY");
    assert_eq!(editor.get_buffer_text().unwrap(), "hellXYo");
    assert_eq!(editor.cursor, 6);
    assert_eq!(out, expected_redraw(b"hellXYo", 6));
}

#[test]
fn character_event_repaints_the_line() {
    let mut editor = Editor::new();
    let outcome = editor.apply_event(KeyEvent::Character(b'A'));
    assert_eq!(editor.get_buffer_text().unwrap(), "A");
    assert_eq!(editor.cursor, 1);
    assert_eq!(outcome.output, expected_redraw(b"A", 1));
    assert!(outcome.finished.is_none());
    assert!(!outcome.terminate);
}

#[test]
fn delete_backward_removes_before_the_cursor() {
    let mut editor = Editor::new();
    let _ = editor.write_to_buffer(b"hello");
    editor.move_cursor_left();
    let outcome = editor.apply_event(KeyEvent::DeleteBackward);
    assert_eq!(editor.get_buffer_text().unwrap(), "helo");
    assert_eq!(editor.cursor, 3);
    assert_eq!(outcome.output, expected_redraw(b"helo", 3));
}

#[test]
fn delete_forward_removes_at_the_cursor() {
    let mut editor = Editor::new();
    let _ = editor.write_to_buffer(b"hello");
    let outcome = editor.apply_event(KeyEvent::DeleteForward);
    assert!(outcome.output.is_empty());
    assert_eq!(editor.get_buffer_text().unwrap(), "hello");
    let _ = editor.apply_event(KeyEvent::MoveHome);
    let outcome = editor.apply_event(KeyEvent::DeleteForward);
    assert_eq!(editor.get_buffer_text().unwrap(), "ello");
    assert_eq!(editor.cursor, 0);
    assert_eq!(outcome.output, expected_redraw(b"ello", 0));
}

#[test]
fn home_and_end_reposition_absolutely() {
    let mut editor = Editor::new();
    let _ = editor.write_to_buffer(b"0123456789");
    let outcome = editor.apply_event(KeyEvent::MoveHome);
    assert_eq!(editor.cursor, 0);
    assert_eq!(outcome.output, b"\x1b[5G".to_vec());
    let outcome = editor.apply_event(KeyEvent::MoveEnd);
    assert_eq!(editor.cursor, 10);
    assert_eq!(outcome.output, b"\x1b[15G".to_vec());
}

#[test]
fn enter_hands_the_line_out_and_clears() {
    let mut editor = Editor::new();
    let _ = editor.write_to_buffer(b"echo hi");
    let outcome = editor.apply_event(KeyEvent::Enter);
    assert_eq!(outcome.finished, Some(b"echo hi".to_vec()));
    assert_eq!(outcome.output, b"\n".to_vec());
    assert!(!outcome.terminate);
    assert_eq!(editor.get_buffer_text().unwrap(), "");
    assert_eq!(editor.cursor, 0);
}

#[test]
fn interrupt_and_end_of_transmission_terminate() {
    let mut editor = Editor::new();
    let _ = editor.write_to_buffer(b"x");
    let outcome = editor.apply_event(KeyEvent::Interrupt);
    assert!(outcome.terminate);
    assert!(outcome.output.is_empty());
    assert_eq!(editor.get_buffer_text().unwrap(), "x");
    let outcome = editor.apply_event(KeyEvent::EndOfTransmission);
    assert!(outcome.terminate);
}

#[test]
fn unrecognized_events_do_nothing() {
    let mut editor = Editor::new();
    let _ = editor.write_to_buffer(b"x");
    editor.move_cursor_left();
    let outcome = editor.apply_event(KeyEvent::Unrecognized);
    assert!(outcome.output.is_empty());
    assert!(outcome.finished.is_none());
    assert!(!outcome.terminate);
    assert_eq!(editor.cursor, 0);
    assert_eq!(editor.get_buffer_text().unwrap(), "x");
}

#[test]
fn new_line_emits_a_fresh_prompt() {
    let mut editor = Editor::new();
    let _ = editor.write_to_buffer(b"abc");
    editor.clean_buffer();
    let out = editor.new_line();
    let mut expected = b"\n".to_vec();
    expected.extend_from_slice(PROMPT);
    expected.extend_from_slice(b"\x1b[5G");
    assert_eq!(out, expected);
    assert_eq!(editor.cursor, 0);
}
