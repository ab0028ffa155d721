use vstd::prelude::*;

use crate::render::{column_after, lemma_column_monotone, lemma_tab_expansion, Row, TAB_STOP};
use crate::rows::EditorRows;

verus! {

/// A single-step cursor movement.
#[derive(Clone, Copy, Debug, PartialEq, Eq, Structural)]
pub enum Direction {
    Up,
    Down,
    Left,
    Right,
    Home,
    End,
}

/// Cursor position, screen size and scroll offsets.
pub struct CursorController {
    pub cursor_x: usize,
    pub cursor_y: usize,
    pub screen_columns: usize,
    pub screen_rows: usize,
    pub row_offset: usize,
    pub column_offset: usize,
    pub render_x: usize,
}

/// The position after one step in direction `d`, before the column clamp.
pub open spec fn step(cx: int, cy: int, d: Direction, rows: EditorRows) -> (int, int) {
    let n = rows.len() as int;
    match d {
        Direction::Up => (cx, if cy > 0 { cy - 1 } else { 0 }),
        Direction::Down => (cx, if cy < n { cy + 1 } else { cy }),
        Direction::Left => if cx != 0 {
            (cx - 1, cy)
        } else if cy > 0 {
            (rows.row_len(cy - 1), cy - 1)
        } else {
            (cx, cy)
        },
        Direction::Right => if cy < n && cx < rows.row_len(cy) {
            (cx + 1, cy)
        } else if cy < n && cx == rows.row_len(cy) {
            (0, cy + 1)
        } else {
            (cx, cy)
        },
        Direction::End => if cy < n {
            (rows.row_len(cy), cy)
        } else {
            (cx, cy)
        },
        Direction::Home => (0, cy),
    }
}

/// The position after one move: the step, then the column clamped to the
/// rendered length of the row it lands on (0 past the last row).
pub open spec fn moved(cx: int, cy: int, d: Direction, rows: EditorRows) -> (int, int) {
    let (x, y) = step(cx, cy, d, rows);
    (if x <= rows.row_len(y) { x } else { rows.row_len(y) }, y)
}

/// The position after a sequence of moves, applied in order.
pub open spec fn moved_all(cx: int, cy: int, ds: Seq<Direction>, rows: EditorRows) -> (int, int)
    decreases ds.len(),
{
    if ds.len() == 0 {
        (cx, cy)
    } else {
        let (x, y) = moved_all(cx, cy, ds.drop_last(), rows);
        moved(x, y, ds.last(), rows)
    }
}

/// The cursor lies within the document: its row is at most one past the
/// last, and its column at most the rendered length of that row.
pub open spec fn in_document(cx: int, cy: int, rows: EditorRows) -> bool {
    0 <= cy <= rows.len() && 0 <= cx <= rows.row_len(cy)
}

/// The least offset that keeps `pos` inside a window of `size` that started
/// at `offset`.
pub open spec fn scrolled(offset: int, pos: int, size: int) -> int {
    let o = if offset <= pos { offset } else { pos };
    if pos >= o + size { pos - size + 1 } else { o }
}

/// Render column of the cursor in row `cy`: the column reached after the raw
/// characters before the cursor; 0 past the last row.
pub open spec fn render_x_of(cx: int, cy: int, rows: EditorRows) -> int {
    if 0 <= cy < rows.len() {
        let raw = rows.raw(cy);
        column_after(raw, if cx <= raw.len() { cx } else { raw.len() as int })
    } else {
        0
    }
}

/// Any one move keeps the cursor within the document.
pub proof fn lemma_move_in_document(cx: int, cy: int, d: Direction, rows: EditorRows)
    requires
        0 <= cy <= rows.len(),
        0 <= cx,
    ensures
        in_document(moved(cx, cy, d, rows).0, moved(cx, cy, d, rows).1, rows),
{
}

/// From a valid position, after any sequence of moves, the cursor column is
/// at most the rendered length of its row, and 0 when the cursor is past the
/// last row.
pub proof fn lemma_moves_clamp_cursor(cx: int, cy: int, ds: Seq<Direction>, rows: EditorRows)
    requires
        in_document(cx, cy, rows),
    ensures
        ({
            let (x, y) = moved_all(cx, cy, ds, rows);
            0 <= y <= rows.len() && 0 <= x && (y < rows.len() ==> x <= rows.rendered(y).len()) && (y
                == rows.len() ==> x == 0)
        }),
    decreases ds.len(),
{
    if ds.len() > 0 {
        lemma_moves_clamp_cursor(cx, cy, ds.drop_last(), rows);
        let (x, y) = moved_all(cx, cy, ds.drop_last(), rows);
        lemma_move_in_document(x, y, ds.last(), rows);
    }
}

/// Moving Right from the end of row `n` and then Left comes back to the end
/// of row `n`.
pub proof fn lemma_right_then_left(n: int, rows: EditorRows)
    requires
        0 <= n < rows.len(),
    ensures
        ({
            let (x, y) = moved(rows.row_len(n), n, Direction::Right, rows);
            moved(x, y, Direction::Left, rows) == (rows.row_len(n), n)
        }),
{
}

impl CursorController {
    /// The cursor lies within `rows`.
    pub open spec fn wf(&self, rows: EditorRows) -> bool {
        in_document(self.cursor_x as int, self.cursor_y as int, rows)
    }

    /// A cursor at the top left, with no scroll, for a screen of
    /// `win_size.0` columns and `win_size.1` rows.
    pub open spec fn initial(win_size: (usize, usize)) -> Self {
        CursorController {
            cursor_x: 0,
            cursor_y: 0,
            screen_columns: win_size.0,
            screen_rows: win_size.1,
            row_offset: 0,
            column_offset: 0,
            render_x: 0,
        }
    }

    pub fn new(win_size: (usize, usize)) -> (r: Self)
        ensures
            r == Self::initial(win_size),
    {
        Self {
            cursor_x: 0,
            cursor_y: 0,
            screen_columns: win_size.0,
            screen_rows: win_size.1,
            row_offset: 0,
            column_offset: 0,
            render_x: 0,
        }
    }

    /// Moves the cursor one step, then clamps its column to the row it is on.
    pub fn move_cursor(&mut self, direction: Direction, editor_rows: &EditorRows)
        requires
            old(self).cursor_y <= editor_rows.len(),
        ensures
            (final(self).cursor_x as int, final(self).cursor_y as int) == moved(
                old(self).cursor_x as int,
                old(self).cursor_y as int,
                direction,
                *editor_rows,
            ),
            in_document(final(self).cursor_x as int, final(self).cursor_y as int, *editor_rows),
            final(self).screen_columns == old(self).screen_columns,
            final(self).screen_rows == old(self).screen_rows,
            final(self).row_offset == old(self).row_offset,
            final(self).column_offset == old(self).column_offset,
            final(self).render_x == old(self).render_x,
    {
        let num_of_rows = editor_rows.number_of_rows();
        match direction {
            Direction::Up => {
                if self.cursor_y > 0 {
                    self.cursor_y = self.cursor_y - 1;
                }
            },
            Direction::Left => {
                if self.cursor_x != 0 {
                    self.cursor_x = self.cursor_x - 1;
                } else if self.cursor_y > 0 {
                    self.cursor_y = self.cursor_y - 1;
                    self.cursor_x = editor_rows.get_render(self.cursor_y).len();
                }
            },
            Direction::Down => {
                if self.cursor_y < num_of_rows {
                    self.cursor_y = self.cursor_y + 1;
                }
            },
            Direction::Right => {
                if self.cursor_y < num_of_rows {
                    let len = editor_rows.get_render(self.cursor_y).len();
                    if self.cursor_x < len {
                        self.cursor_x = self.cursor_x + 1;
                    } else if self.cursor_x == len {
                        self.cursor_y = self.cursor_y + 1;
                        self.cursor_x = 0;
                    }
                }
            },
            Direction::End => {
                if self.cursor_y < num_of_rows {
                    self.cursor_x = editor_rows.get_render(self.cursor_y).len();
                }
            },
            Direction::Home => {
                self.cursor_x = 0;
            },
        }
        let row_len = if self.cursor_y < num_of_rows {
            editor_rows.get_render(self.cursor_y).len()
        } else {
            0
        };
        if self.cursor_x > row_len {
            self.cursor_x = row_len;
        }
    }

    /// Recomputes `render_x`, then moves each offset the least amount that
    /// keeps the cursor inside the screen.
    pub fn scroll(&mut self, editor_rows: &EditorRows)
        requires
            editor_rows.wf(),
            old(self).cursor_y <= editor_rows.len(),
            old(self).screen_rows >= 1,
            old(self).screen_columns >= 1,
        ensures
            final(self).render_x == render_x_of(
                old(self).cursor_x as int,
                old(self).cursor_y as int,
                *editor_rows,
            ),
            final(self).row_offset == scrolled(
                old(self).row_offset as int,
                old(self).cursor_y as int,
                old(self).screen_rows as int,
            ),
            final(self).column_offset == scrolled(
                old(self).column_offset as int,
                final(self).render_x as int,
                old(self).screen_columns as int,
            ),
            final(self).row_offset <= final(self).cursor_y < final(self).row_offset
                + final(self).screen_rows,
            final(self).column_offset <= final(self).render_x < final(self).column_offset
                + final(self).screen_columns,
            editor_rows.len() < old(self).screen_rows && old(self).row_offset == 0
                ==> final(self).row_offset == 0,
            final(self).cursor_x == old(self).cursor_x,
            final(self).cursor_y == old(self).cursor_y,
            final(self).screen_columns == old(self).screen_columns,
            final(self).screen_rows == old(self).screen_rows,
    {
        self.render_x = 0;
        if self.cursor_y < editor_rows.number_of_rows() {
            self.render_x = self.get_render_x(editor_rows.get_editor_row(self.cursor_y));
        }
        if self.cursor_y < self.row_offset {
            self.row_offset = self.cursor_y;
        }
        if self.cursor_y - self.row_offset >= self.screen_rows {
            self.row_offset = self.cursor_y - self.screen_rows + 1;
        }
        if self.render_x < self.column_offset {
            self.column_offset = self.render_x;
        }
        if self.render_x - self.column_offset >= self.screen_columns {
            self.column_offset = self.render_x - self.screen_columns + 1;
        }
    }

    /// The render column of the cursor in `row`: the column reached after the
    /// raw characters before the cursor (all of them, if the cursor is past
    /// the raw text).
    pub fn get_render_x(&self, row: &Row) -> (r: usize)
        requires
            row.is_rendered(),
        ensures
            r == column_after(
                row.row_content@,
                if self.cursor_x <= row.row_content@.len() {
                    self.cursor_x as int
                } else {
                    row.row_content@.len() as int
                },
            ),
    {
        let raw = &row.row_content;
        let end: usize = if self.cursor_x <= raw.len() {
            self.cursor_x
        } else {
            raw.len()
        };
        let rendered_len = row.render.len();
        proof {
            lemma_tab_expansion(raw@);
        }
        let mut render_x: usize = 0;
        let mut i: usize = 0;
        while i < end
            invariant
                end <= raw@.len(),
                0 <= i <= end,
                render_x == column_after(raw@, i as int),
                column_after(raw@, raw@.len() as int) == rendered_len,
            decreases end - i,
        {
            proof {
                lemma_column_monotone(raw@, i + 1, raw@.len() as int);
            }
            if raw[i] == '\t' {
                render_x = render_x + (TAB_STOP - render_x % TAB_STOP);
            } else {
                render_x = render_x + 1;
            }
            i = i + 1;
        }
        render_x
    }
}

} // verus!

