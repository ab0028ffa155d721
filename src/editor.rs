use vstd::prelude::*;

use crate::cursor::{moved, moved_all, render_x_of, scrolled, Direction};
use crate::output::{frame, Output};
use crate::rows::EditorRows;

verus! {

/// The key of a key press.
#[derive(Clone, Copy, Debug, PartialEq, Eq, Structural)]
pub enum KeyCode {
    Char(char),
    Up,
    Down,
    Left,
    Right,
    Home,
    End,
    PageUp,
    PageDown,
    Other,
}

/// The modifier keys held during a key press: none, exactly Control, or any
/// other combination.
#[derive(Clone, Copy, Debug, PartialEq, Eq, Structural)]
pub enum Modifiers {
    Plain,
    Control,
    Other,
}

/// A key press.
#[derive(Clone, Copy, Debug, PartialEq, Eq, Structural)]
pub struct KeyEvent {
    pub code: KeyCode,
    pub modifiers: Modifiers,
}

/// Control-Q ends the session.
pub open spec fn is_quit(key: KeyEvent) -> bool {
    key.code == KeyCode::Char('q') && key.modifiers == Modifiers::Control
}

/// The single-step movement a key stands for, when pressed without modifiers.
pub open spec fn direction_of(key: KeyEvent) -> Option<Direction> {
    if key.modifiers != Modifiers::Plain {
        None
    } else {
        match key.code {
            KeyCode::Up => Some(Direction::Up),
            KeyCode::Down => Some(Direction::Down),
            KeyCode::Left => Some(Direction::Left),
            KeyCode::Right => Some(Direction::Right),
            KeyCode::Home => Some(Direction::Home),
            KeyCode::End => Some(Direction::End),
            _ => None,
        }
    }
}

/// Page Up (`up`) or Page Down: jump to the top or bottom row of the screen,
/// then take one step per screen row in that direction.
pub open spec fn paged(
    cx: int,
    row_offset: int,
    screen_rows: int,
    up: bool,
    rows: EditorRows,
) -> (int, int) {
    let n = rows.len() as int;
    let start = if up {
        row_offset
    } else if row_offset + screen_rows - 1 <= n {
        row_offset + screen_rows - 1
    } else {
        n
    };
    let d = if up { Direction::Up } else { Direction::Down };
    moved_all(cx, start, Seq::new(screen_rows as nat, |i: int| d), rows)
}

/// The cursor position after `key`, from position (`cx`, `cy`).
pub open spec fn key_position(
    key: KeyEvent,
    cx: int,
    cy: int,
    row_offset: int,
    screen_rows: int,
    rows: EditorRows,
) -> (int, int) {
    if is_quit(key) {
        (cx, cy)
    } else if direction_of(key).is_some() {
        moved(cx, cy, direction_of(key).unwrap(), rows)
    } else if key.modifiers == Modifiers::Plain && key.code == KeyCode::PageUp {
        paged(cx, row_offset, screen_rows, true, rows)
    } else if key.modifiers == Modifiers::Plain && key.code == KeyCode::PageDown {
        paged(cx, row_offset, screen_rows, false, rows)
    } else {
        (cx, cy)
    }
}

/// The viewer: a screen over a document, driven one key press at a time.
pub struct Editor {
    pub output: Output,
}

impl Editor {
    pub open spec fn wf(&self) -> bool {
        self.output.wf()
    }

    /// A viewer of `editor_rows` on a screen of `win_size` (columns, rows).
    pub fn new(win_size: (usize, usize), editor_rows: EditorRows) -> (r: Self)
        ensures
            r.output.win_size == win_size,
            r.output.editor_contents.content@ == Seq::<char>::empty(),
            r.output.cursor_controller == crate::cursor::CursorController::initial(win_size),
            r.output.editor_rows == editor_rows,
            editor_rows.wf() && 1 <= win_size.0 <= 65535 && 1 <= win_size.1 <= 65535 ==> r.wf(),
    {
        Self { output: Output::new(win_size, editor_rows) }
    }

    /// Applies one key press; returns false when it asks to quit.
    pub fn process_keypress(&mut self, key: KeyEvent) -> (r: bool)
        requires
            old(self).wf(),
        ensures
            final(self).wf(),
            r == !is_quit(key),
            (final(self).output.cursor_controller.cursor_x as int,
            final(self).output.cursor_controller.cursor_y as int) == key_position(
                key,
                old(self).output.cursor_controller.cursor_x as int,
                old(self).output.cursor_controller.cursor_y as int,
                old(self).output.cursor_controller.row_offset as int,
                old(self).output.win_size.1 as int,
                old(self).output.editor_rows,
            ),
            final(self).output.cursor_controller.row_offset
                == old(self).output.cursor_controller.row_offset,
            final(self).output.cursor_controller.column_offset
                == old(self).output.cursor_controller.column_offset,
            final(self).output.cursor_controller.render_x
                == old(self).output.cursor_controller.render_x,
            final(self).output.cursor_controller.screen_rows
                == old(self).output.cursor_controller.screen_rows,
            final(self).output.cursor_controller.screen_columns
                == old(self).output.cursor_controller.screen_columns,
            final(self).output.win_size == old(self).output.win_size,
            final(self).output.editor_rows == old(self).output.editor_rows,
            final(self).output.editor_contents == old(self).output.editor_contents,
    {
        if key.code == KeyCode::Char('q') && key.modifiers == Modifiers::Control {
            return false;
        }
        if key.modifiers != Modifiers::Plain {
            return true;
        }
        let direction = match key.code {
            KeyCode::Up => Direction::Up,
            KeyCode::Down => Direction::Down,
            KeyCode::Left => Direction::Left,
            KeyCode::Right => Direction::Right,
            KeyCode::Home => Direction::Home,
            KeyCode::End => Direction::End,
            KeyCode::PageUp => {
                self.page(true);
                return true;
            },
            KeyCode::PageDown => {
                self.page(false);
                return true;
            },
            _ => {
                return true;
            },
        };
        self.output.move_cursor(direction);
        true
    }

    fn page(&mut self, up: bool)
        requires
            old(self).wf(),
        ensures
            final(self).wf(),
            (final(self).output.cursor_controller.cursor_x as int,
            final(self).output.cursor_controller.cursor_y as int) == paged(
                old(self).output.cursor_controller.cursor_x as int,
                old(self).output.cursor_controller.row_offset as int,
                old(self).output.win_size.1 as int,
                up,
                old(self).output.editor_rows,
            ),
            final(self).output.cursor_controller.row_offset
                == old(self).output.cursor_controller.row_offset,
            final(self).output.cursor_controller.column_offset
                == old(self).output.cursor_controller.column_offset,
            final(self).output.cursor_controller.render_x
                == old(self).output.cursor_controller.render_x,
            final(self).output.cursor_controller.screen_rows
                == old(self).output.cursor_controller.screen_rows,
            final(self).output.cursor_controller.screen_columns
                == old(self).output.cursor_controller.screen_columns,
            final(self).output.win_size == old(self).output.win_size,
            final(self).output.editor_rows == old(self).output.editor_rows,
            final(self).output.editor_contents == old(self).output.editor_contents,
    {
        let n = self.output.editor_rows.number_of_rows();
        let screen_rows = self.output.win_size.1;
        let row_offset = self.output.cursor_controller.row_offset;
        if up {
            self.output.cursor_controller.cursor_y = row_offset;
        } else if screen_rows - 1 <= n - row_offset {
            self.output.cursor_controller.cursor_y = row_offset + (screen_rows - 1);
        } else {
            self.output.cursor_controller.cursor_y = n;
        }
        let direction = if up {
            Direction::Up
        } else {
            Direction::Down
        };
        let ghost cx = old(self).output.cursor_controller.cursor_x as int;
        let ghost start = self.output.cursor_controller.cursor_y as int;
        let ghost rows = self.output.editor_rows;
        let mut k: usize = 0;
        while k < screen_rows
            invariant
                0 <= k <= screen_rows,
                screen_rows == self.output.win_size.1,
                self.output.cursor_controller.cursor_y <= rows.len(),
                rows == self.output.editor_rows,
                rows == old(self).output.editor_rows,
                self.output.win_size == old(self).output.win_size,
                self.output.editor_contents == old(self).output.editor_contents,
                self.output.cursor_controller.row_offset
                    == old(self).output.cursor_controller.row_offset,
                self.output.cursor_controller.column_offset
                    == old(self).output.cursor_controller.column_offset,
                self.output.cursor_controller.render_x
                    == old(self).output.cursor_controller.render_x,
                self.output.cursor_controller.screen_rows
                    == old(self).output.cursor_controller.screen_rows,
                self.output.cursor_controller.screen_columns
                    == old(self).output.cursor_controller.screen_columns,
                (self.output.cursor_controller.cursor_x as int,
                self.output.cursor_controller.cursor_y as int) == moved_all(
                    cx,
                    start,
                    Seq::new(k as nat, |i: int| direction),
                    rows,
                ),
            decreases screen_rows - k,
        {
            self.output.move_cursor(direction);
            k = k + 1;
            assert(Seq::new(k as nat, |i: int| direction).drop_last() =~= Seq::new(
                (k - 1) as nat,
                |i: int| direction,
            ));
        }
    }

    /// Applies one key press and, unless it asks to quit, draws the next
    /// frame.
    pub fn run(&mut self, key: KeyEvent) -> (r: Option<Vec<char>>)
        requires
            old(self).wf(),
        ensures
            final(self).wf(),
            r.is_none() == is_quit(key),
            (final(self).output.cursor_controller.cursor_x as int,
            final(self).output.cursor_controller.cursor_y as int) == key_position(
                key,
                old(self).output.cursor_controller.cursor_x as int,
                old(self).output.cursor_controller.cursor_y as int,
                old(self).output.cursor_controller.row_offset as int,
                old(self).output.win_size.1 as int,
                old(self).output.editor_rows,
            ),
            final(self).output.win_size == old(self).output.win_size,
            final(self).output.editor_rows == old(self).output.editor_rows,
            r.is_some() ==> {
                &&& final(self).output.cursor_controller.render_x == render_x_of(
                    final(self).output.cursor_controller.cursor_x as int,
                    final(self).output.cursor_controller.cursor_y as int,
                    final(self).output.editor_rows,
                )
                &&& final(self).output.cursor_controller.row_offset == scrolled(
                    old(self).output.cursor_controller.row_offset as int,
                    final(self).output.cursor_controller.cursor_y as int,
                    final(self).output.win_size.1 as int,
                )
                &&& final(self).output.cursor_controller.column_offset == scrolled(
                    old(self).output.cursor_controller.column_offset as int,
                    final(self).output.cursor_controller.render_x as int,
                    final(self).output.win_size.0 as int,
                )
                &&& r.unwrap()@ == old(self).output.editor_contents.content@ + frame(
                    final(self).output.editor_rows,
                    final(self).output.cursor_controller,
                    final(self).output.win_size.0 as int,
                    final(self).output.win_size.1 as int,
                )
            },
            r.is_none() ==> *final(self) == *old(self),
    {
        if !self.process_keypress(key) {
            return None;
        }
        Some(self.output.refresh_screen())
    }
}

} // verus!
