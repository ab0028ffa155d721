use vstd::prelude::*;

use crossterm::Command;

use crate::cursor::{render_x_of, scrolled, CursorController, Direction};
use crate::render::spaces;
use crate::rows::EditorRows;

verus! {

/// The character for decimal digit `d`.
pub open spec fn digit(d: nat) -> char {
    ((48 + d) as u8) as char
}

/// Decimal digits of `n`, without leading zeros.
pub open spec fn decimal(n: nat) -> Seq<char>
    decreases n,
{
    if n < 10 {
        seq![digit(n)]
    } else {
        decimal(n / 10).push(digit(n % 10))
    }
}

/// The escape sequence that clears from the cursor to the end of the line.
pub open spec fn esc_clear_line() -> Seq<char> {
    seq!['\u{1b}', '[', 'K']
}

/// The escape sequence that hides the cursor.
pub open spec fn esc_hide() -> Seq<char> {
    seq!['\u{1b}', '[', '?', '2', '5', 'l']
}

/// The escape sequence that shows the cursor.
pub open spec fn esc_show() -> Seq<char> {
    seq!['\u{1b}', '[', '?', '2', '5', 'h']
}

/// The escape sequence that moves the cursor to column `x`, row `y`
/// (0-based; the terminal counts from 1).
pub open spec fn esc_move_to(x: nat, y: nat) -> Seq<char> {
    seq!['\u{1b}', '['] + decimal(y + 1) + seq![';'] + decimal(x + 1) + seq!['H']
}

/// Relies on crossterm's `Clear(ClearType::UntilNewLine)`, whose ANSI form is
/// `ESC [ K`.
#[verifier::external_body]
fn clear_line_escape() -> (r: Vec<char>)
    ensures
        r@ == esc_clear_line(),
{
    let mut s = String::new();
    let _ = crossterm::terminal::Clear(crossterm::terminal::ClearType::UntilNewLine).write_ansi(
        &mut s,
    );
    s.chars().collect()
}

/// Relies on crossterm's `cursor::Hide`, whose ANSI form is `ESC [ ? 2 5 l`.
#[verifier::external_body]
fn hide_cursor_escape() -> (r: Vec<char>)
    ensures
        r@ == esc_hide(),
{
    let mut s = String::new();
    let _ = crossterm::cursor::Hide.write_ansi(&mut s);
    s.chars().collect()
}

/// Relies on crossterm's `cursor::Show`, whose ANSI form is `ESC [ ? 2 5 h`.
#[verifier::external_body]
fn show_cursor_escape() -> (r: Vec<char>)
    ensures
        r@ == esc_show(),
{
    let mut s = String::new();
    let _ = crossterm::cursor::Show.write_ansi(&mut s);
    s.chars().collect()
}

/// Relies on crossterm's `cursor::MoveTo(x, y)`, which writes
/// `ESC [ {y + 1} ; {x + 1} H` in decimal; `x + 1` and `y + 1` must fit in `u16`.
#[verifier::external_body]
fn move_to_escape(x: u16, y: u16) -> (r: Vec<char>)
    requires
        x < 65535,
        y < 65535,
    ensures
        r@ == esc_move_to(x as nat, y as nat),
{
    let mut s = String::new();
    let _ = crossterm::cursor::MoveTo(x, y).write_ansi(&mut s);
    s.chars().collect()
}

/// The banner text shown on an empty document.
pub open spec fn welcome_spec() -> Seq<char> {
    "Pound Editor --- Version 3.0.0"@
}

fn welcome_message() -> (r: Vec<char>)
    ensures
        r@ == welcome_spec(),
{
    let s = "Pound Editor --- Version 3.0.0";
    let n = s.unicode_len();
    let mut v: Vec<char> = Vec::new();
    let mut i: usize = 0;
    while i < n
        invariant
            n == s@.len(),
            0 <= i <= n,
            v@ == s@.subrange(0, i as int),
        decreases n - i,
    {
        v.push(s.get_char(i));
        i = i + 1;
        assert(v@ =~= s@.subrange(0, i as int));
    }
    assert(s@.subrange(0, n as int) =~= s@);
    v
}

/// The banner row for a screen `cols` wide: the banner cut to the width,
/// centred, with a marker in the first padding column.
pub open spec fn banner_line(cols: int) -> Seq<char> {
    let w = if welcome_spec().len() > cols {
        welcome_spec().subrange(0, cols)
    } else {
        welcome_spec()
    };
    let padding = (cols - w.len()) / 2;
    if padding != 0 {
        seq!['~'] + spaces((padding - 1) as nat) + w
    } else {
        w
    }
}

/// The text of screen row `i`, before the clear-line escape.
pub open spec fn row_text(
    rows: EditorRows,
    row_offset: int,
    column_offset: int,
    cols: int,
    screen_rows: int,
    i: int,
) -> Seq<char> {
    let file_row = i + row_offset;
    if file_row >= rows.len() {
        if rows.len() == 0 && i == screen_rows / 3 {
            banner_line(cols)
        } else {
            seq!['~']
        }
    } else {
        let r = rows.rendered(file_row);
        let rest = if r.len() > column_offset { r.len() - column_offset } else { 0 };
        let len = if rest < cols { rest } else { cols };
        r.subrange(if len == 0 { 0 } else { column_offset }, (if len == 0 { 0 } else { column_offset }) + len)
    }
}

/// The first `k` screen rows, each followed by the clear-line escape, with a
/// line break between rows.
pub open spec fn drawn_rows(
    rows: EditorRows,
    row_offset: int,
    column_offset: int,
    cols: int,
    screen_rows: int,
    k: int,
) -> Seq<char>
    decreases k,
{
    if k <= 0 {
        Seq::empty()
    } else {
        drawn_rows(rows, row_offset, column_offset, cols, screen_rows, k - 1) + row_text(
            rows,
            row_offset,
            column_offset,
            cols,
            screen_rows,
            k - 1,
        ) + esc_clear_line() + if k - 1 < screen_rows - 1 {
            seq!['\r', '\n']
        } else {
            Seq::empty()
        }
    }
}

/// A whole frame for cursor state `c`: hide the cursor, draw every row from
/// the top left, put the cursor at its place on screen and show it.
pub open spec fn frame(rows: EditorRows, c: CursorController, cols: int, screen_rows: int) -> Seq<
    char,
> {
    esc_hide() + esc_move_to(0, 0) + drawn_rows(
        rows,
        c.row_offset as int,
        c.column_offset as int,
        cols,
        screen_rows,
        screen_rows,
    ) + esc_move_to((c.render_x - c.column_offset) as nat, (c.cursor_y - c.row_offset) as nat)
        + esc_show()
}

/// A buffer that a frame is gathered into before it is written out at once.
pub struct EditorContents {
    pub content: Vec<char>,
}

impl EditorContents {
    pub fn new() -> (r: Self)
        ensures
            r.content@ == Seq::<char>::empty(),
    {
        Self { content: Vec::new() }
    }

    pub fn push(&mut self, ch: char)
        ensures
            final(self).content@ == old(self).content@.push(ch),
    {
        self.content.push(ch);
    }

    pub fn push_str(&mut self, string: &[char])
        ensures
            final(self).content@ == old(self).content@ + string@,
    {
        let ghost start = self.content@;
        let mut i: usize = 0;
        while i < string.len()
            invariant
                0 <= i <= string@.len(),
                self.content@ == start + string@.subrange(0, i as int),
            decreases string@.len() - i,
        {
            self.content.push(string[i]);
            i = i + 1;
            assert(self.content@ =~= start + string@.subrange(0, i as int));
        }
        assert(string@.subrange(0, string@.len() as int) =~= string@);
    }
}

/// The screen: its size, the frame buffer, the cursor and the document.
pub struct Output {
    pub win_size: (usize, usize),
    pub editor_contents: EditorContents,
    pub cursor_controller: CursorController,
    pub editor_rows: EditorRows,
}

impl Output {
    /// The state a frame can be drawn from: a rendered document, a cursor
    /// within it whose screen is the window, and a window of 1 to 65535
    /// cells each way.
    pub open spec fn wf(&self) -> bool {
        &&& self.editor_rows.wf()
        &&& self.cursor_controller.cursor_y <= self.editor_rows.len()
        &&& self.cursor_controller.row_offset <= self.editor_rows.len()
        &&& self.cursor_controller.screen_columns == self.win_size.0
        &&& self.cursor_controller.screen_rows == self.win_size.1
        &&& 1 <= self.win_size.0 <= 65535
        &&& 1 <= self.win_size.1 <= 65535
    }

    /// A screen of `win_size` showing `editor_rows`, with the cursor at the
    /// top left.
    pub fn new(win_size: (usize, usize), editor_rows: EditorRows) -> (r: Self)
        ensures
            r.win_size == win_size,
            r.editor_contents.content@ == Seq::<char>::empty(),
            r.cursor_controller == CursorController::initial(win_size),
            r.editor_rows == editor_rows,
    {
        Self {
            win_size,
            editor_contents: EditorContents::new(),
            cursor_controller: CursorController::new(win_size),
            editor_rows,
        }
    }

    /// Appends every screen row to the frame buffer.
    pub fn draw_rows(&mut self)
        ensures
            final(self).editor_contents.content@ == old(self).editor_contents.content@ + drawn_rows(
                old(self).editor_rows,
                old(self).cursor_controller.row_offset as int,
                old(self).cursor_controller.column_offset as int,
                old(self).win_size.0 as int,
                old(self).win_size.1 as int,
                old(self).win_size.1 as int,
            ),
            final(self).win_size == old(self).win_size,
            final(self).cursor_controller == old(self).cursor_controller,
            final(self).editor_rows == old(self).editor_rows,
    {
        let screen_rows = self.win_size.1;
        let screen_columns = self.win_size.0;
        let n = self.editor_rows.number_of_rows();
        let row_offset = self.cursor_controller.row_offset;
        let column_offset = self.cursor_controller.column_offset;
        let ghost start = self.editor_contents.content@;
        let ghost rows = self.editor_rows;
        let mut i: usize = 0;
        while i < screen_rows
            invariant
                0 <= i <= screen_rows,
                screen_rows == self.win_size.1,
                screen_columns == self.win_size.0,
                n == rows.len(),
                row_offset == self.cursor_controller.row_offset,
                column_offset == self.cursor_controller.column_offset,
                self.win_size == old(self).win_size,
                self.cursor_controller == old(self).cursor_controller,
                self.editor_rows == old(self).editor_rows,
                rows == old(self).editor_rows,
                start == old(self).editor_contents.content@,
                self.editor_contents.content@ == start + drawn_rows(
                    rows,
                    row_offset as int,
                    column_offset as int,
                    screen_columns as int,
                    screen_rows as int,
                    i as int,
                ),
            decreases screen_rows - i,
        {
            let ghost before = self.editor_contents.content@;
            if row_offset >= n || i >= n - row_offset {
                if n == 0 && i == screen_rows / 3 {
                    let mut welcome = welcome_message();
                    if welcome.len() > screen_columns {
                        welcome.truncate(screen_columns);
                    }
                    let mut padding = (screen_columns - welcome.len()) / 2;
                    let ghost lead = if padding != 0 { seq!['~'] } else { Seq::<char>::empty() };
                    if padding != 0 {
                        self.editor_contents.push('~');
                        padding = padding - 1;
                    }
                    let mut k: usize = 0;
                    while k < padding
                        invariant
                            0 <= k <= padding,
                            self.win_size == old(self).win_size,
                            self.cursor_controller == old(self).cursor_controller,
                            self.editor_rows == old(self).editor_rows,
                            self.editor_contents.content@ == before + lead + spaces(k as nat),
                        decreases padding - k,
                    {
                        self.editor_contents.push(' ');
                        k = k + 1;
                        assert(self.editor_contents.content@ =~= before + lead + spaces(k as nat));
                    }
                    self.editor_contents.push_str(welcome.as_slice());
                    assert(welcome@ =~= (if welcome_spec().len() > screen_columns {
                        welcome_spec().subrange(0, screen_columns as int)
                    } else {
                        welcome_spec()
                    }));
                    assert(self.editor_contents.content@ =~= before + banner_line(
                        screen_columns as int,
                    ));
                } else {
                    self.editor_contents.push('~');
                }
            } else {
                let row = self.editor_rows.get_render(i + row_offset);
                let rest: usize = if row.len() > column_offset {
                    row.len() - column_offset
                } else {
                    0
                };
                let len: usize = if rest < screen_columns {
                    rest
                } else {
                    screen_columns
                };
                let from: usize = if len == 0 {
                    0
                } else {
                    column_offset
                };
                let end: usize = from + len;
                let mut k: usize = from;
                while k < end
                    invariant
                        from <= k <= end,
                        end == from + len,
                        end <= row@.len(),
                        row@ == rows.rendered(i + row_offset),
                        self.win_size == old(self).win_size,
                        self.cursor_controller == old(self).cursor_controller,
                        self.editor_rows == old(self).editor_rows,
                        self.editor_contents.content@ == before + row@.subrange(
                            from as int,
                            k as int,
                        ),
                    decreases end - k,
                {
                    self.editor_contents.push(row[k]);
                    k = k + 1;
                    assert(self.editor_contents.content@ =~= before + row@.subrange(
                        from as int,
                        k as int,
                    ));
                }
            }
            assert(self.editor_contents.content@ =~= before + row_text(
                rows,
                row_offset as int,
                column_offset as int,
                screen_columns as int,
                screen_rows as int,
                i as int,
            ));
            let clear = clear_line_escape();
            self.editor_contents.push_str(clear.as_slice());
            if i < screen_rows - 1 {
                self.editor_contents.push('\r');
                self.editor_contents.push('\n');
            }
            i = i + 1;
            assert(self.editor_contents.content@ =~= start + drawn_rows(
                rows,
                row_offset as int,
                column_offset as int,
                screen_columns as int,
                screen_rows as int,
                i as int,
            ));
        }
    }

    /// Moves the cursor one step within the document.
    pub fn move_cursor(&mut self, direction: Direction)
        requires
            old(self).cursor_controller.cursor_y <= old(self).editor_rows.len(),
        ensures
            (final(self).cursor_controller.cursor_x as int, final(self).cursor_controller.cursor_y as int)
                == crate::cursor::moved(
                old(self).cursor_controller.cursor_x as int,
                old(self).cursor_controller.cursor_y as int,
                direction,
                old(self).editor_rows,
            ),
            final(self).cursor_controller.row_offset == old(self).cursor_controller.row_offset,
            final(self).cursor_controller.column_offset == old(self).cursor_controller.column_offset,
            final(self).cursor_controller.render_x == old(self).cursor_controller.render_x,
            final(self).cursor_controller.screen_rows == old(self).cursor_controller.screen_rows,
            final(self).cursor_controller.screen_columns == old(self).cursor_controller.screen_columns,
            final(self).win_size == old(self).win_size,
            final(self).editor_rows == old(self).editor_rows,
            final(self).editor_contents == old(self).editor_contents,
    {
        self.cursor_controller.move_cursor(direction, &self.editor_rows);
    }

    /// Scrolls so the cursor is on screen, then gathers a whole frame and
    /// hands it back, leaving the buffer empty.
    pub fn refresh_screen(&mut self) -> (r: Vec<char>)
        requires
            old(self).wf(),
        ensures
            final(self).wf(),
            final(self).cursor_controller.render_x == render_x_of(
                old(self).cursor_controller.cursor_x as int,
                old(self).cursor_controller.cursor_y as int,
                old(self).editor_rows,
            ),
            final(self).cursor_controller.row_offset == scrolled(
                old(self).cursor_controller.row_offset as int,
                old(self).cursor_controller.cursor_y as int,
                old(self).win_size.1 as int,
            ),
            final(self).cursor_controller.column_offset == scrolled(
                old(self).cursor_controller.column_offset as int,
                final(self).cursor_controller.render_x as int,
                old(self).win_size.0 as int,
            ),
            final(self).cursor_controller.cursor_x == old(self).cursor_controller.cursor_x,
            final(self).cursor_controller.cursor_y == old(self).cursor_controller.cursor_y,
            final(self).cursor_controller.screen_columns == old(self).cursor_controller.screen_columns,
            final(self).cursor_controller.screen_rows == old(self).cursor_controller.screen_rows,
            final(self).win_size == old(self).win_size,
            final(self).editor_rows == old(self).editor_rows,
            final(self).editor_contents.content@ == Seq::<char>::empty(),
            r@ == old(self).editor_contents.content@ + frame(
                final(self).editor_rows,
                final(self).cursor_controller,
                final(self).win_size.0 as int,
                final(self).win_size.1 as int,
            ),
    {
        self.cursor_controller.scroll(&self.editor_rows);
        let ghost start = self.editor_contents.content@;
        let hide = hide_cursor_escape();
        self.editor_contents.push_str(hide.as_slice());
        let home = move_to_escape(0, 0);
        self.editor_contents.push_str(home.as_slice());
        let ghost before_rows = self.editor_contents.content@;
        self.draw_rows();
        let cursor_x = self.cursor_controller.render_x - self.cursor_controller.column_offset;
        let cursor_y = self.cursor_controller.cursor_y - self.cursor_controller.row_offset;
        let place = move_to_escape(cursor_x as u16, cursor_y as u16);
        self.editor_contents.push_str(place.as_slice());
        let show = show_cursor_escape();
        self.editor_contents.push_str(show.as_slice());
        let mut out = EditorContents::new();
        std::mem::swap(&mut out, &mut self.editor_contents);
        assert(out.content@ =~= start + frame(
            self.editor_rows,
            self.cursor_controller,
            self.win_size.0 as int,
            self.win_size.1 as int,
        ));
        out.content
    }
}

} // verus!
