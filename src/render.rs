use vstd::prelude::*;

verus! {

/// Width of a tab stop, in display columns.
pub const TAB_STOP: usize = 8;

/// The display column reached after the first `n` characters of `raw`,
/// where a tab advances to the next multiple of `TAB_STOP`.
pub open spec fn column_after(raw: Seq<char>, n: int) -> int
    decreases n,
{
    if n <= 0 {
        0
    } else {
        let p = column_after(raw, n - 1);
        if raw[n - 1] == '\t' {
            p + TAB_STOP - p % (TAB_STOP as int)
        } else {
            p + 1
        }
    }
}

/// `n` spaces.
pub open spec fn spaces(n: nat) -> Seq<char> {
    Seq::new(n, |i: int| ' ')
}

/// The display form of a raw line: every tab becomes at least one space,
/// padded until the column is a multiple of `TAB_STOP`.
pub open spec fn render_spec(raw: Seq<char>) -> Seq<char>
    decreases raw.len(),
{
    if raw.len() == 0 {
        Seq::empty()
    } else {
        let prev = render_spec(raw.drop_last());
        if raw.last() == '\t' {
            prev + spaces((TAB_STOP - prev.len() % (TAB_STOP as nat)) as nat)
        } else {
            prev.push(raw.last())
        }
    }
}

/// One logical line: the raw text and its rendered form.
pub struct Row {
    pub row_content: Vec<char>,
    pub render: Vec<char>,
}

impl Row {
    pub fn new(row_content: Vec<char>, render: Vec<char>) -> (r: Self)
        ensures
            r.row_content@ == row_content@,
            r.render@ == render@,
    {
        Self { row_content, render }
    }

    /// The rendered form matches the raw text.
    pub open spec fn is_rendered(&self) -> bool {
        self.render@ == render_spec(self.row_content@)
    }
}

/// The rendered form of the first `n` characters is `column_after(raw, n)` long.
pub proof fn lemma_render_prefix(raw: Seq<char>, n: int)
    requires
        0 <= n <= raw.len(),
    ensures
        render_spec(raw.subrange(0, n)).len() == column_after(raw, n),
    decreases n,
{
    if n > 0 {
        lemma_render_prefix(raw, n - 1);
        let s = raw.subrange(0, n);
        assert(s.drop_last() =~= raw.subrange(0, n - 1));
    }
}

/// Rendering a line yields exactly as many characters as the column reached
/// after its last character, and the column after every tab is a multiple of
/// the tab stop.
pub proof fn lemma_tab_expansion(raw: Seq<char>)
    ensures
        render_spec(raw).len() == column_after(raw, raw.len() as int),
        forall|i: int|
            0 <= i < raw.len() && raw[i] == '\t' ==> #[trigger] column_after(raw, i + 1) % (
            TAB_STOP as int) == 0,
{
    lemma_render_prefix(raw, raw.len() as int);
    assert(raw.subrange(0, raw.len() as int) =~= raw);
}

/// A tab adds at most `TAB_STOP` columns, so a rendered line is at most
/// `TAB_STOP` times as long as its raw text.
pub proof fn lemma_render_len_bound(raw: Seq<char>)
    ensures
        render_spec(raw).len() <= TAB_STOP * raw.len(),
    decreases raw.len(),
{
    if raw.len() > 0 {
        lemma_render_len_bound(raw.drop_last());
    }
}

/// The column never decreases along a line.
pub proof fn lemma_column_monotone(raw: Seq<char>, a: int, b: int)
    requires
        0 <= a <= b,
    ensures
        column_after(raw, a) <= column_after(raw, b),
    decreases b - a,
{
    if a < b {
        lemma_column_monotone(raw, a, b - 1);
    }
}

} // verus!
