//! Tests for the row and document layers of the editing core.

use hecto::{Document, Position, Row};

fn chars(s: &str) -> Vec<char> {
    s.chars().collect()
}

fn row_text(r: &Row) -> String {
    r.render(0, r.len()).into_iter().collect()
}

fn doc_line(d: &Document, i: usize) -> String {
    row_text(d.row(i).expect("row index in range"))
}

#[test]
fn render_clamps_out_of_range() {
    let r = Row::from_vec(chars("hello"));
    assert_eq!(r.render(1, 3), chars("el"));
    assert_eq!(r.render(0, 99), chars("hello"));
    assert_eq!(r.render(7, 99), chars(""));
    assert_eq!(r.render(4, 2), chars(""));
}

#[test]
fn len_counts_characters() {
    assert_eq!(Row::from_vec(chars("")).len(), 0);
    assert_eq!(Row::from_vec(chars("abc")).len(), 3);
}

#[test]
fn head_finds_first_non_blank() {
    assert_eq!(Row::from_vec(chars("   abc")).head(), 3);
    assert_eq!(Row::from_vec(chars("abc")).head(), 0);
    assert_eq!(Row::from_vec(chars("    ")).head(), 0);
    assert_eq!(Row::from_vec(chars("")).head(), 0);
}

#[test]
fn insert_places_character_before_offset() {
    let mut r = Row::from_vec(chars("ac"));
    r.insert(1, 'b');
    assert_eq!(row_text(&r), "abc");
    r.insert(3, 'd');
    assert_eq!(row_text(&r), "abcd");
}

#[test]
fn delete_removes_character_at_offset() {
    let mut r = Row::from_vec(chars("abc"));
    r.delete(1);
    assert_eq!(row_text(&r), "ac");
}

#[test]
fn insert_then_delete_round_trips() {
    for o in 0..=4 {
        let mut r = Row::from_vec(chars("wxyz"));
        r.insert(o, 'Q');
        r.delete(o);
        assert_eq!(row_text(&r), "wxyz");
    }
}

#[test]
fn split_mid_row_keeps_head_returns_tail() {
    let mut r = Row::from_vec(chars("abcd"));
    let tail = r.split(2);
    assert_eq!(row_text(&r), "ab");
    assert_eq!(row_text(&tail), "cd");
}

#[test]
fn split_at_len_leaves_row_and_returns_empty() {
    let mut r = Row::from_vec(chars("abcd"));
    let tail = r.split(4);
    assert_eq!(row_text(&r), "abcd");
    assert_eq!(row_text(&tail), "");
}

#[test]
fn open_three_line_file_gives_three_rows() {
    let d = Document::from_text(&chars("one\ntwo\nthree\n"), Some("f.txt".to_string()));
    assert_eq!(d.lines(), 3);
    assert_eq!(doc_line(&d, 0), "one");
    assert_eq!(doc_line(&d, 1), "two");
    assert_eq!(doc_line(&d, 2), "three");
    for i in 0..3 {
        assert!(!doc_line(&d, i).contains('\n'));
    }
}

#[test]
fn from_text_edge_cases() {
    assert_eq!(Document::from_text(&chars(""), None).lines(), 0);
    let lone = Document::from_text(&chars("\n"), None);
    assert_eq!(lone.lines(), 1);
    assert_eq!(doc_line(&lone, 0), "");
    let no_final_newline = Document::from_text(&chars("a\nb"), None);
    assert_eq!(no_final_newline.lines(), 2);
    assert_eq!(doc_line(&no_final_newline, 1), "b");
    let crlf = Document::from_text(&chars("a\r\nb\r\n"), None);
    assert_eq!(crlf.lines(), 2);
    assert_eq!(doc_line(&crlf, 0), "a");
    assert_eq!(doc_line(&crlf, 1), "b");
    let blank_between = Document::from_text(&chars("a\n\nb"), None);
    assert_eq!(blank_between.lines(), 3);
    assert_eq!(doc_line(&blank_between, 1), "");
}

#[test]
fn row_lookup_is_bounds_checked() {
    let d = Document::from_text(&chars("x\n"), None);
    assert!(d.row(0).is_some());
    assert!(d.row(1).is_none());
    assert!(!d.is_empty());
    assert!(Document::default().is_empty());
}

#[test]
fn begin_insert_append_and_first_non_blank() {
    let mut d = Document::from_text(&chars("1234567\n"), None);
    let p = d.begin_insert(&Position { x: 3, y: 0 }, 'A');
    assert_eq!((p.x, p.y), (7, 0));

    let mut d2 = Document::from_text(&chars("   abc\n"), None);
    let p2 = d2.begin_insert(&Position { x: 3, y: 0 }, 'I');
    assert_eq!((p2.x, p2.y), (3, 0));
}

#[test]
fn begin_insert_all_commands() {
    let text = chars("  ab\ncd\n");
    let at = Position { x: 1, y: 0 };

    let mut d = Document::from_text(&text, None);
    let p = d.begin_insert(&at, 'i');
    assert_eq!((p.x, p.y), (1, 0));
    assert_eq!(d.lines(), 2);

    let mut d = Document::from_text(&text, None);
    let p = d.begin_insert(&at, 'a');
    assert_eq!((p.x, p.y), (2, 0));

    let mut d = Document::from_text(&text, None);
    let p = d.begin_insert(&at, 'o');
    assert_eq!((p.x, p.y), (0, 1));
    assert_eq!(d.lines(), 3);
    assert_eq!(doc_line(&d, 1), "");
    assert_eq!(doc_line(&d, 2), "cd");

    let mut d = Document::from_text(&text, None);
    let p = d.begin_insert(&at, 'O');
    assert_eq!((p.x, p.y), (0, 0));
    assert_eq!(d.lines(), 3);
    assert_eq!(doc_line(&d, 0), "");
    assert_eq!(doc_line(&d, 1), "  ab");

    let mut d = Document::from_text(&text, None);
    let p = d.begin_insert(&at, 'r');
    assert_eq!((p.x, p.y), (1, 0));
    assert_eq!(d.lines(), 2);
}

#[test]
fn insert_newline_splits_row() {
    let mut d = Document::from_text(&chars("abcd\n"), None);
    let p = d.insert('\n', &Position { x: 2, y: 0 });
    assert_eq!(d.lines(), 2);
    assert_eq!(doc_line(&d, 0), "ab");
    assert_eq!(doc_line(&d, 1), "cd");
    assert_eq!((p.x, p.y), (0, 1));
}

#[test]
fn insert_character_advances_position() {
    let mut d = Document::from_text(&chars("ac\n"), None);
    let p = d.insert('b', &Position { x: 1, y: 0 });
    assert_eq!(doc_line(&d, 0), "abc");
    assert_eq!((p.x, p.y), (2, 0));
}

#[test]
fn backspace_deletes_before_cursor() {
    let mut d = Document::from_text(&chars("abc\n"), None);
    let p = d.backspace(&Position { x: 2, y: 0 });
    assert_eq!(doc_line(&d, 0), "ac");
    assert_eq!((p.x, p.y), (1, 0));
}

#[test]
fn backspace_at_line_start_is_no_op() {
    let mut d = Document::from_text(&chars("ab\ncd\n"), None);
    let p = d.backspace(&Position { x: 0, y: 1 });
    assert_eq!(d.lines(), 2);
    assert_eq!(doc_line(&d, 0), "ab");
    assert_eq!(doc_line(&d, 1), "cd");
    assert_eq!((p.x, p.y), (0, 1));
}
