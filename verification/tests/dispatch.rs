//! Tests for the cursor/viewport model and the modal dispatcher.

use hecto::{move_cursor, Document, Editor, Key, Mode, Position, Row, Size};

fn chars(s: &str) -> Vec<char> {
    s.chars().collect()
}

fn row_text(r: &Row) -> String {
    r.render(0, r.len()).into_iter().collect()
}

fn doc_line(d: &Document, i: usize) -> String {
    row_text(d.row(i).expect("row index in range"))
}

fn size_10_by_3() -> Size {
    Size { width: 10, height: 3 }
}

fn five_line_doc() -> Document {
    Document::from_text(&chars("aa\nbb\ncc\ndd\nee\n"), None)
}

#[test]
fn move_cursor_clamps_row_and_scrolls() {
    let d = five_line_doc();
    let (cursor, offset) = move_cursor(&d, Mode::Normal, size_10_by_3(), Position { x: 0, y: 10 });
    assert_eq!((cursor.x, cursor.y), (0, 4));
    assert_eq!(offset.y, 2);
    assert_eq!(offset.x, 0);
}

#[test]
fn move_cursor_clamps_column_and_scrolls_horizontally() {
    let d = Document::from_text(&chars("abcdefghijklmnop\n"), None);
    let (cursor, offset) = move_cursor(&d, Mode::Normal, size_10_by_3(), Position { x: 99, y: 0 });
    assert_eq!((cursor.x, cursor.y), (15, 0));
    assert_eq!(offset.x, 6);
    assert_eq!(offset.y, 0);
}

#[test]
fn move_cursor_insert_mode_allows_one_past_end() {
    let d = Document::from_text(&chars("ab\n"), None);
    let (normal, _) = move_cursor(&d, Mode::Normal, size_10_by_3(), Position { x: 99, y: 99 });
    assert_eq!((normal.x, normal.y), (1, 0));
    // one row past the end is allowed; the column then clamps to that
    // (empty) row's one allowed cell
    let (insert, _) = move_cursor(&d, Mode::Insert, size_10_by_3(), Position { x: 99, y: 99 });
    assert_eq!((insert.x, insert.y), (0, 1));
    // on an existing row the column may sit one past the last character
    let (append, _) = move_cursor(&d, Mode::Insert, size_10_by_3(), Position { x: 99, y: 0 });
    assert_eq!((append.x, append.y), (2, 0));
}

fn editor_over(text: &str) -> Editor {
    Editor::new(Document::from_text(&chars(text), None), size_10_by_3())
}

#[test]
fn movement_keys_step_and_clamp() {
    let mut ed = editor_over("abc\nde\n");
    assert!(ed.process_keypress(Key::Char('l')));
    assert_eq!((ed.cursor_position.x, ed.cursor_position.y), (1, 0));
    assert!(ed.process_keypress(Key::Char('j')));
    assert_eq!((ed.cursor_position.x, ed.cursor_position.y), (1, 1));
    assert!(ed.process_keypress(Key::Char('h')));
    assert_eq!((ed.cursor_position.x, ed.cursor_position.y), (0, 1));
    assert!(ed.process_keypress(Key::Char('k')));
    assert_eq!((ed.cursor_position.x, ed.cursor_position.y), (0, 0));
    // clamped at the edges
    assert!(ed.process_keypress(Key::Char('h')));
    assert!(ed.process_keypress(Key::Char('k')));
    assert_eq!((ed.cursor_position.x, ed.cursor_position.y), (0, 0));
}

#[test]
fn dollar_and_zero_seek_line_ends() {
    let mut ed = editor_over("abcde\n");
    assert!(ed.process_keypress(Key::Char('$')));
    assert_eq!(ed.cursor_position.x, 4);
    assert!(ed.process_keypress(Key::Char('0')));
    assert_eq!(ed.cursor_position.x, 0);
}

#[test]
fn capital_g_seeks_last_row_and_gg_seeks_first() {
    let mut ed = editor_over("aa\nbb\ncc\ndd\nee\n");
    assert!(ed.process_keypress(Key::Char('G')));
    assert_eq!(ed.cursor_position.y, 4);
    assert_eq!(ed.offset.y, 2);
    assert!(ed.process_keypress(Key::Char('g')));
    assert_eq!(ed.cursor_position.y, 4);
    assert!(ed.process_keypress(Key::Char('g')));
    assert_eq!(ed.cursor_position.y, 0);
    assert_eq!(ed.offset.y, 0);
}

#[test]
fn pending_g_is_dropped_by_another_key() {
    let mut ed = editor_over("aa\nbb\ncc\ndd\nee\n");
    assert!(ed.process_keypress(Key::Char('G')));
    assert_eq!(ed.cursor_position.y, 4);
    assert!(ed.process_keypress(Key::Char('g')));
    assert!(ed.process_keypress(Key::Char('x')));
    assert!(ed.process_keypress(Key::Char('g')));
    // the second `g` opens a fresh sequence instead of completing one
    assert_eq!(ed.cursor_position.y, 4);
}

#[test]
fn search_and_visual_are_reachable_stubs() {
    let mut ed = editor_over("ab\n");
    assert!(ed.process_keypress(Key::Char('/')));
    assert_eq!(ed.mode, Mode::Search);
    assert!(ed.process_keypress(Key::Char('q')));
    assert_eq!(ed.mode, Mode::Search);

    let mut ed2 = editor_over("ab\n");
    assert!(ed2.process_keypress(Key::Ctrl('v')));
    assert_eq!(ed2.mode, Mode::Visual);
}

#[test]
fn insert_entry_appends_at_line_end() {
    let mut ed = editor_over("abc\n");
    assert!(ed.process_keypress(Key::Char('A')));
    assert_eq!(ed.mode, Mode::Insert);
    assert_eq!((ed.cursor_position.x, ed.cursor_position.y), (3, 0));
    assert!(ed.process_keypress(Key::Char('!')));
    assert_eq!(doc_line(&ed.doc, 0), "abc!");
    assert_eq!(ed.cursor_position.x, 4);
}

#[test]
fn insert_mode_backspace_and_escape() {
    let mut ed = editor_over("abc\n");
    assert!(ed.process_keypress(Key::Char('A')));
    assert!(ed.process_keypress(Key::Backspace));
    assert_eq!(doc_line(&ed.doc, 0), "ab");
    assert_eq!(ed.cursor_position.x, 2);
    assert!(ed.process_keypress(Key::Esc));
    assert_eq!(ed.mode, Mode::Normal);
    assert_eq!(ed.cursor_position.x, 1);
    assert_eq!(ed.prompt_line.len(), 0);
}

#[test]
fn escape_at_column_zero_saturates() {
    let mut ed = editor_over("ab\n");
    assert!(ed.process_keypress(Key::Char('i')));
    assert_eq!(ed.mode, Mode::Insert);
    assert!(ed.process_keypress(Key::Esc));
    assert_eq!(ed.mode, Mode::Normal);
    assert_eq!((ed.cursor_position.x, ed.cursor_position.y), (0, 0));
}

#[test]
fn insert_mode_arrows_and_paging_do_nothing() {
    let mut ed = editor_over("ab\n");
    assert!(ed.process_keypress(Key::Char('i')));
    let cursor = ed.cursor_position;
    for key in [Key::Left, Key::Right, Key::Up, Key::Down, Key::PageUp, Key::PageDown] {
        assert!(ed.process_keypress(key));
        assert_eq!(ed.cursor_position, cursor);
        assert_eq!(ed.mode, Mode::Insert);
        assert_eq!(ed.doc.lines(), 1);
    }
}

#[test]
fn command_mode_other_text_does_not_quit() {
    let mut ed = editor_over("ab\n");
    assert!(ed.process_keypress(Key::Char('l')));
    assert!(ed.process_keypress(Key::Char(':')));
    assert_eq!(ed.mode, Mode::Command);
    assert_eq!(ed.prompt_line, vec![':']);
    assert!(ed.process_keypress(Key::Char('w')));
    assert!(ed.process_keypress(Key::Char('\n')));
    assert!(!ed.should_quit);
    assert_eq!(ed.mode, Mode::Normal);
    // cursor restored to where command mode was entered
    assert_eq!((ed.cursor_position.x, ed.cursor_position.y), (1, 0));
    assert_eq!(ed.prompt_line.len(), 0);
}

#[test]
fn command_mode_backspace_edits_prompt() {
    let mut ed = editor_over("ab\n");
    assert!(ed.process_keypress(Key::Char(':')));
    assert!(ed.process_keypress(Key::Char('q')));
    assert!(ed.process_keypress(Key::Char('x')));
    assert!(ed.process_keypress(Key::Backspace));
    assert_eq!(ed.prompt_line, vec![':', 'q']);
    assert!(ed.process_keypress(Key::Char('\n')));
    assert!(ed.should_quit);
}

#[test]
fn desynchronized_insert_is_reported_fatal() {
    // scroll far enough down that cursor + offset points past the buffer
    let mut ed = editor_over("a\nb\nc\nd\ne\nf\ng\nh\ni\nj\n");
    assert!(ed.process_keypress(Key::Char('G')));
    assert_eq!(ed.cursor_position.y, 9);
    assert_eq!(ed.offset.y, 7);
    assert!(ed.process_keypress(Key::Char('i')));
    let before = ed.cursor_position;
    assert!(!ed.process_keypress(Key::Char('x')));
    assert_eq!(ed.cursor_position, before);
    assert_eq!(ed.doc.lines(), 10);
}

#[test]
fn empty_document_gets_one_blank_row() {
    let ed = Editor::new(Document::default(), size_10_by_3());
    assert_eq!(ed.doc.lines(), 1);
    assert_eq!(doc_line(&ed.doc, 0), "");
    assert!(ed.doc.filename.is_none());
}

#[test]
fn end_to_end_open_type_escape_quit() {
    let mut ed = Editor::new(Document::default(), Size { width: 80, height: 24 });

    // `o` enters insert mode with one blank row added below
    assert!(ed.process_keypress(Key::Char('o')));
    assert_eq!(ed.mode, Mode::Insert);
    assert_eq!(ed.doc.lines(), 2);
    assert_eq!((ed.cursor_position.x, ed.cursor_position.y), (0, 1));

    // type "hi"
    assert!(ed.process_keypress(Key::Char('h')));
    assert!(ed.process_keypress(Key::Char('i')));
    assert_eq!(doc_line(&ed.doc, 1), "hi");
    assert_eq!((ed.cursor_position.x, ed.cursor_position.y), (2, 1));

    // escape back to normal mode, cursor one column left
    assert!(ed.process_keypress(Key::Esc));
    assert_eq!(ed.mode, Mode::Normal);
    assert_eq!((ed.cursor_position.x, ed.cursor_position.y), (1, 1));

    // enter command mode, type the quit command, press enter
    assert!(ed.process_keypress(Key::Char(':')));
    assert_eq!(ed.mode, Mode::Command);
    assert!(ed.process_keypress(Key::Char('q')));
    assert!(ed.process_keypress(Key::Char('\n')));
    assert!(ed.should_quit);
    assert_eq!(ed.mode, Mode::Normal);
    assert_eq!((ed.cursor_position.x, ed.cursor_position.y), (1, 1));
}
