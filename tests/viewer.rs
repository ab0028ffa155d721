use pound::cursor::{CursorController, Direction};
use pound::editor::{Editor, KeyCode, KeyEvent, Modifiers};
use pound::output::{EditorContents, Output};
use pound::render::{Row, TAB_STOP};
use pound::rows::EditorRows;

fn chars(s: &str) -> Vec<char> {
    s.chars().collect()
}

fn text(v: &[char]) -> String {
    v.iter().collect()
}

fn rendered(raw: &str) -> String {
    let mut row = Row::new(chars(raw), Vec::new());
    EditorRows::render_row(&mut row);
    text(&row.render)
}

fn doc(lines: &[&str]) -> EditorRows {
    EditorRows::from_lines(lines.iter().map(|l| chars(l)).collect())
}

fn key(code: KeyCode) -> KeyEvent {
    KeyEvent { code, modifiers: Modifiers::Plain }
}

fn controller_at(x: usize, y: usize) -> CursorController {
    let mut c = CursorController::new((80, 24));
    c.cursor_x = x;
    c.cursor_y = y;
    c
}

#[test]
fn tab_after_two_characters_pads_to_tab_stop() {
    assert_eq!(TAB_STOP, 8);
    let r = rendered("ab\tc");
    assert_eq!(r, format!("ab{}c", " ".repeat(6)));
    assert_eq!(r.chars().count(), 9);
}

#[test]
fn render_x_counts_tab_expansion() {
    let rows = doc(&["ab\tc", "de"]);
    let c = controller_at(3, 0);
    assert_eq!(c.get_render_x(rows.get_editor_row(0)), 8);
    let c = controller_at(4, 0);
    assert_eq!(c.get_render_x(rows.get_editor_row(0)), 9);
}

#[test]
fn render_plain_and_empty_lines() {
    assert_eq!(rendered(""), "");
    assert_eq!(rendered("hello"), "hello");
}

#[test]
fn tab_on_a_tab_stop_emits_a_full_stop() {
    assert_eq!(rendered("\t"), " ".repeat(8));
    assert_eq!(rendered("12345678\tx"), format!("12345678{}x", " ".repeat(8)));
    assert_eq!(rendered("1234567\tx"), "1234567 x");
    assert_eq!(rendered("a\t\tb"), format!("a{}b", " ".repeat(15)));
}

#[test]
fn rendered_length_matches_column_of_every_tab() {
    let raw = "x\tyz\t\tw";
    let r = rendered(raw);
    let mut col = 0usize;
    for ch in raw.chars() {
        if ch == '\t' {
            col = col + 8 - col % 8;
            assert_eq!(col % 8, 0);
        } else {
            col += 1;
        }
    }
    assert_eq!(r.chars().count(), col);
}

#[test]
fn from_text_splits_lines() {
    let rows = EditorRows::from_text(&chars("one\r\ntwo\n\nthree\n"));
    assert_eq!(rows.number_of_rows(), 4);
    assert_eq!(text(&rows.get_editor_row(0).row_content), "one");
    assert_eq!(text(&rows.get_editor_row(1).row_content), "two");
    assert_eq!(text(&rows.get_editor_row(2).row_content), "");
    assert_eq!(text(rows.get_render(3)), "three");
    let rows = EditorRows::from_text(&chars("a\tb"));
    assert_eq!(rows.number_of_rows(), 1);
    assert_eq!(text(rows.get_render(0)), "a       b");
}

#[test]
fn from_text_of_empty_text_has_no_rows() {
    assert_eq!(EditorRows::from_text(&Vec::new()).number_of_rows(), 0);
    assert_eq!(EditorRows::new().number_of_rows(), 0);
}

#[test]
fn end_truncates_to_shorter_row() {
    let rows = doc(&["abcdefgh", "ab"]);
    let mut c = controller_at(8, 0);
    c.move_cursor(Direction::Down, &rows);
    assert_eq!((c.cursor_x, c.cursor_y), (2, 1));
    c.move_cursor(Direction::End, &rows);
    assert_eq!((c.cursor_x, c.cursor_y), (2, 1));
    let mut c = controller_at(6, 1);
    c.move_cursor(Direction::End, &rows);
    assert_eq!(c.cursor_x, 2);
}

#[test]
fn moves_keep_cursor_inside_rows() {
    let rows = doc(&["abc", "", "a\tb"]);
    let mut c = controller_at(0, 0);
    let moves = [
        Direction::End,
        Direction::Down,
        Direction::Right,
        Direction::Right,
        Direction::End,
        Direction::Up,
        Direction::Left,
        Direction::Down,
        Direction::Down,
        Direction::Down,
        Direction::Down,
        Direction::Home,
    ];
    for d in moves {
        c.move_cursor(d, &rows);
        if c.cursor_y < rows.number_of_rows() {
            assert!(c.cursor_x <= rows.get_render(c.cursor_y).len());
        } else {
            assert_eq!(c.cursor_x, 0);
        }
    }
    assert_eq!((c.cursor_x, c.cursor_y), (0, 3));
}

#[test]
fn up_and_left_stop_at_origin() {
    let rows = doc(&["abc"]);
    let mut c = controller_at(0, 0);
    c.move_cursor(Direction::Up, &rows);
    c.move_cursor(Direction::Left, &rows);
    assert_eq!((c.cursor_x, c.cursor_y), (0, 0));
}

#[test]
fn right_then_left_returns_to_row_end() {
    let rows = doc(&["abc", "a\tb", "z"]);
    for n in 0..3 {
        let len = rows.get_render(n).len();
        let mut c = controller_at(len, n);
        c.move_cursor(Direction::Right, &rows);
        assert_eq!((c.cursor_x, c.cursor_y), (0, n + 1));
        c.move_cursor(Direction::Left, &rows);
        assert_eq!((c.cursor_x, c.cursor_y), (len, n));
    }
}

#[test]
fn scroll_keeps_cursor_on_screen() {
    let lines: Vec<String> = (0..100).map(|i| format!("{}", i).repeat(30)).collect();
    let rows = EditorRows::from_lines(lines.iter().map(|l| chars(l)).collect());
    let mut c = CursorController::new((10, 5));
    c.cursor_y = 50;
    c.cursor_x = 45;
    c.scroll(&rows);
    assert_eq!(c.render_x, 45);
    assert_eq!(c.row_offset, 46);
    assert_eq!(c.column_offset, 36);
    c.cursor_y = 3;
    c.cursor_x = 2;
    c.scroll(&rows);
    assert_eq!(c.row_offset, 3);
    assert_eq!(c.column_offset, 2);
    assert!(c.row_offset <= c.cursor_y && c.cursor_y < c.row_offset + 5);
    assert!(c.column_offset <= c.render_x && c.render_x < c.column_offset + 10);
}

#[test]
fn scroll_on_short_document_stays_at_top() {
    let rows = doc(&["a", "b"]);
    let mut c = CursorController::new((10, 5));
    c.cursor_y = 2;
    c.scroll(&rows);
    assert_eq!(c.row_offset, 0);
    assert_eq!(c.render_x, 0);
}

#[test]
fn render_x_past_raw_text_stops_at_its_end() {
    let rows = doc(&["\tx"]);
    let mut c = controller_at(9, 0);
    c.scroll(&rows);
    assert_eq!(c.render_x, 9);
}

#[test]
fn empty_document_frame_has_banner() {
    let mut out = Output::new((80, 24), EditorRows::new());
    let frame = text(&out.refresh_screen());
    let start = "\u{1b}[?25l\u{1b}[1;1H";
    assert!(frame.starts_with(start));
    let end = "\u{1b}[1;1H\u{1b}[?25h";
    assert!(frame.ends_with(end));
    let body = &frame[start.len()..frame.len() - end.len()];
    let lines: Vec<&str> = body.split("\r\n").collect();
    assert_eq!(lines.len(), 24);
    for (i, line) in lines.iter().enumerate() {
        if i == 8 {
            let banner = "Pound Editor --- Version 3.0.0";
            assert_eq!(*line, format!("~{}{}\u{1b}[K", " ".repeat(24), banner));
        } else {
            assert_eq!(*line, "~\u{1b}[K");
        }
    }
    assert!(out.editor_contents.content.is_empty());
}

#[test]
fn narrow_screen_truncates_banner() {
    let mut out = Output::new((10, 3), EditorRows::new());
    out.draw_rows();
    let body = text(&out.editor_contents.content);
    assert_eq!(body, "~\u{1b}[K\r\nPound Edit\u{1b}[K\r\n~\u{1b}[K");
}

#[test]
fn frame_slices_rows_by_column_offset() {
    let rows = doc(&["0123456789abcdef", "xy"]);
    let mut out = Output::new((4, 3), rows);
    out.cursor_controller.cursor_x = 6;
    let frame = text(&out.refresh_screen());
    assert_eq!(out.cursor_controller.column_offset, 3);
    assert_eq!(
        frame,
        "\u{1b}[?25l\u{1b}[1;1H3456\u{1b}[K\r\n\u{1b}[K\r\n~\u{1b}[K\u{1b}[1;4H\u{1b}[?25h"
    );
}

#[test]
fn contents_push_and_push_str() {
    let mut c = EditorContents::new();
    c.push('a');
    c.push_str(&['b', 'c']);
    assert_eq!(text(&c.content), "abc");
}

#[test]
fn control_q_quits() {
    let mut e = Editor::new((80, 24), doc(&["a"]));
    let quit = KeyEvent { code: KeyCode::Char('q'), modifiers: Modifiers::Control };
    assert!(!e.process_keypress(quit));
    assert!(e.run(quit).is_none());
    assert!(e.process_keypress(key(KeyCode::Char('q'))));
}

#[test]
fn arrows_with_modifiers_are_ignored() {
    let mut e = Editor::new((80, 24), doc(&["abc"]));
    let k = KeyEvent { code: KeyCode::Right, modifiers: Modifiers::Control };
    assert!(e.process_keypress(k));
    assert_eq!(e.output.cursor_controller.cursor_x, 0);
    assert!(e.process_keypress(key(KeyCode::Right)));
    assert_eq!(e.output.cursor_controller.cursor_x, 1);
}

#[test]
fn page_down_and_up_move_a_screen() {
    let lines: Vec<String> = (0..50).map(|i| format!("line {}", i)).collect();
    let rows = EditorRows::from_lines(lines.iter().map(|l| chars(l)).collect());
    let mut e = Editor::new((20, 10), rows);
    assert!(e.run(key(KeyCode::PageDown)).is_some());
    assert_eq!(e.output.cursor_controller.cursor_y, 19);
    assert_eq!(e.output.cursor_controller.row_offset, 10);
    assert!(e.run(key(KeyCode::PageUp)).is_some());
    assert_eq!(e.output.cursor_controller.cursor_y, 0);
    assert_eq!(e.output.cursor_controller.row_offset, 0);
}

#[test]
fn page_down_stops_past_last_row() {
    let mut e = Editor::new((20, 10), doc(&["a", "b", "c"]));
    e.process_keypress(key(KeyCode::PageDown));
    assert_eq!(e.output.cursor_controller.cursor_y, 3);
    assert_eq!(e.output.cursor_controller.cursor_x, 0);
}
