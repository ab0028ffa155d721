use vstd::prelude::*;

use crate::render::{
    lemma_column_monotone, lemma_render_len_bound, lemma_render_prefix, render_spec, spaces, Row,
    TAB_STOP,
};

verus! {

/// Drops one carriage return from the end of `line`, if it has one.
pub open spec fn strip_cr(line: Seq<char>) -> Seq<char> {
    if line.len() > 0 && line.last() == '\r' {
        line.drop_last()
    } else {
        line
    }
}

/// After the first `n` characters of `text`: the lines completed so far (each
/// ended by a line feed, which is dropped along with a carriage return just
/// before it) and the line in progress.
pub open spec fn split_state(text: Seq<char>, n: int) -> (Seq<Seq<char>>, Seq<char>)
    decreases n,
{
    if n <= 0 {
        (Seq::empty(), Seq::empty())
    } else {
        let (done, cur) = split_state(text, n - 1);
        if text[n - 1] == '\n' {
            (done.push(strip_cr(cur)), Seq::empty())
        } else {
            (done, cur.push(text[n - 1]))
        }
    }
}

/// The lines of `text`: split at each line feed, with a carriage return that
/// precedes a line feed dropped; a final line feed ends the last line and
/// starts no new one.
pub open spec fn lines_spec(text: Seq<char>) -> Seq<Seq<char>> {
    let (done, cur) = split_state(text, text.len() as int);
    if cur.len() > 0 {
        done.push(cur)
    } else {
        done
    }
}

proof fn lemma_split_state_bound(text: Seq<char>, n: int)
    requires
        0 <= n <= text.len(),
    ensures
        split_state(text, n).1.len() <= n,
        forall|i: int|
            0 <= i < split_state(text, n).0.len() ==> #[trigger] split_state(text, n).0[i].len()
                <= n,
    decreases n,
{
    if n > 0 {
        lemma_split_state_bound(text, n - 1);
    }
}

/// The document: an ordered, fixed sequence of rendered lines.
pub struct EditorRows {
    row_contents: Vec<Row>,
}

impl EditorRows {
    /// Every row holds the rendered form of its raw text.
    pub open spec fn wf(&self) -> bool {
        forall|i: int| 0 <= i < self.len() ==> #[trigger] self.row_at(i).is_rendered()
    }

    pub closed spec fn len(&self) -> nat {
        self.row_contents@.len()
    }

    pub closed spec fn row_at(&self, i: int) -> Row {
        self.row_contents@[i]
    }

    /// Raw text of row `i`.
    pub open spec fn raw(&self, i: int) -> Seq<char> {
        self.row_at(i).row_content@
    }

    /// Rendered text of row `i`.
    pub open spec fn rendered(&self, i: int) -> Seq<char> {
        self.row_at(i).render@
    }

    /// Rendered length of row `i`, and 0 past the last row.
    pub open spec fn row_len(&self, i: int) -> int {
        if 0 <= i < self.len() {
            self.rendered(i).len() as int
        } else {
            0
        }
    }

    /// An empty document.
    pub fn new() -> (r: Self)
        ensures
            r.wf(),
            r.len() == 0,
    {
        Self { row_contents: Vec::new() }
    }

    /// Builds a document from raw lines, rendering each one.
    pub fn from_lines(lines: Vec<Vec<char>>) -> (r: Self)
        requires
            forall|i: int| 0 <= i < lines@.len() ==> #[trigger] render_spec(lines@[i]@).len() <= usize::MAX,
        ensures
            r.wf(),
            r.len() == lines@.len(),
            forall|i: int| 0 <= i < lines@.len() ==> #[trigger] r.raw(i) == lines@[i]@,
    {
        let mut row_contents: Vec<Row> = Vec::new();
        let mut i: usize = 0;
        while i < lines.len()
            invariant
                0 <= i <= lines@.len(),
                row_contents@.len() == i,
                forall|j: int| 0 <= j < lines@.len() ==> #[trigger] render_spec(lines@[j]@).len() <= usize::MAX,
                forall|j: int| 0 <= j < i ==> (#[trigger] row_contents@[j]).is_rendered()
                    && row_contents@[j].row_content@ == lines@[j]@,
            decreases lines@.len() - i,
        {
            let mut row = Row::new(lines[i].clone(), Vec::new());
            Self::render_row(&mut row);
            row_contents.push(row);
            i = i + 1;
        }
        Self { row_contents }
    }

    /// Builds a document from the whole text of a file, split into lines.
    pub fn from_text(text: &Vec<char>) -> (r: Self)
        requires
            TAB_STOP * text@.len() <= usize::MAX,
        ensures
            r.wf(),
            r.len() == lines_spec(text@).len(),
            forall|i: int| 0 <= i < r.len() ==> #[trigger] r.raw(i) == lines_spec(text@)[i],
    {
        let mut lines: Vec<Vec<char>> = Vec::new();
        let mut cur: Vec<char> = Vec::new();
        let mut i: usize = 0;
        while i < text.len()
            invariant
                0 <= i <= text@.len(),
                lines@.len() == split_state(text@, i as int).0.len(),
                forall|j: int|
                    0 <= j < lines@.len() ==> #[trigger] lines@[j]@ == split_state(text@, i as int).0[j],
                cur@ == split_state(text@, i as int).1,
            decreases text@.len() - i,
        {
            let c = text[i];
            if c == '\n' {
                if cur.len() > 0 && cur[cur.len() - 1] == '\r' {
                    cur.pop();
                    assert(cur@ =~= strip_cr(split_state(text@, i as int).1));
                }
                lines.push(cur);
                cur = Vec::new();
            } else {
                cur.push(c);
            }
            i = i + 1;
        }
        if cur.len() > 0 {
            lines.push(cur);
        }
        proof {
            lemma_split_state_bound(text@, text@.len() as int);
            assert forall|k: int| 0 <= k < lines@.len() implies #[trigger] render_spec(
                lines@[k]@,
            ).len() <= usize::MAX && lines@[k]@ == lines_spec(text@)[k] by {
                lemma_render_len_bound(lines@[k]@);
            }
        }
        Self::from_lines(lines)
    }

    /// Expands the tabs of `row.row_content` into `row.render`.
    pub fn render_row(row: &mut Row)
        requires
            render_spec(old(row).row_content@).len() <= usize::MAX,
        ensures
            final(row).row_content@ == old(row).row_content@,
            final(row).is_rendered(),
    {
        let mut out: Vec<char> = Vec::new();
        let n = row.row_content.len();
        let mut i: usize = 0;
        while i < n
            invariant
                n == row.row_content@.len(),
                0 <= i <= n,
                out@ == render_spec(row.row_content@.subrange(0, i as int)),
                render_spec(row.row_content@).len() <= usize::MAX,
            decreases n - i,
        {
            let c = row.row_content[i];
            let ghost raw = row.row_content@;
            proof {
                let s = raw.subrange(0, i + 1);
                assert(s.drop_last() =~= raw.subrange(0, i as int));
                lemma_render_prefix(raw, i + 1);
                lemma_render_prefix(raw, n as int);
                assert(raw.subrange(0, n as int) =~= raw);
                lemma_column_monotone(raw, i + 1, n as int);
            }
            if c == '\t' {
                out.push(' ');
                let ghost target = render_spec(raw.subrange(0, i + 1));
                while out.len() % TAB_STOP != 0
                    invariant
                        target == render_spec(raw.subrange(0, i as int)) + spaces(
                            (TAB_STOP - render_spec(raw.subrange(0, i as int)).len() % (TAB_STOP as nat)) as nat,
                        ),
                        render_spec(raw.subrange(0, i as int)).len() < out@.len() <= target.len(),
                        target.len() <= usize::MAX,
                        out@ == render_spec(raw.subrange(0, i as int)) + spaces(
                            (out@.len() - render_spec(raw.subrange(0, i as int)).len()) as nat,
                        ),
                    decreases target.len() - out@.len(),
                {
                    out.push(' ');
                    assert(out@ =~= render_spec(raw.subrange(0, i as int)) + spaces(
                        (out@.len() - render_spec(raw.subrange(0, i as int)).len()) as nat,
                    ));
                }
                assert(out@ =~= target);
            } else {
                out.push(c);
            }
            i = i + 1;
        }
        assert(row.row_content@.subrange(0, n as int) =~= row.row_content@);
        row.render = out;
    }

    pub fn number_of_rows(&self) -> (r: usize)
        ensures
            r == self.len(),
    {
        self.row_contents.len()
    }

    pub fn get_render(&self, at: usize) -> (r: &Vec<char>)
        requires
            at < self.len(),
        ensures
            r@ == self.rendered(at as int),
    {
        &self.row_contents[at].render
    }

    pub fn get_editor_row(&self, at: usize) -> (r: &Row)
        requires
            at < self.len(),
        ensures
            *r == self.row_at(at as int),
    {
        &self.row_contents[at]
    }
}

} // verus!
