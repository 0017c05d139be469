//! Canvas cells and their per-cell undo history.
use vstd::prelude::*;

use crate::brush::Point;
use crate::import::{style_sequence, TextStyle};
use crate::terminal::{color_sequence, Color, NamedColor};
use crate::text::{char_width, char_width_of, pop_char, push_char, push_str};

verus! {

/// What a cell shows.
#[derive(Copy, Clone, Debug, PartialEq, Eq, Structural)]
pub struct CellContent {
    pub c: char,
    pub foreground: Color,
    pub background: Color,
    pub style: TextStyle,
}

/// The content of an untouched cell: NUL in the default colors, no style.
pub open spec fn blank() -> CellContent {
    CellContent {
        c: '\0',
        foreground: Color::Named(NamedColor::Default),
        background: Color::Named(NamedColor::Default),
        style: TextStyle { bold: false, italics: false },
    }
}

/// Whether `c` has the Unicode `White_Space` property: tab to carriage
/// return, space, next line, no-break space, the Ogham space mark, the
/// spaces from en quad to hair space, the line and paragraph separators,
/// the narrow no-break and medium mathematical spaces, and the ideographic
/// space.
pub open spec fn white_space(c: char) -> bool {
    let u = c as u32;
    (0x09 <= u <= 0x0d) || u == 0x20 || u == 0x85 || u == 0xa0 || u == 0x1680 || (0x2000 <= u
        <= 0x200a) || u == 0x2028 || u == 0x2029 || u == 0x202f || u == 0x205f || u == 0x3000
}

/// Whether `c` has the Unicode `White_Space` property.
pub fn is_whitespace(c: char) -> (r: bool)
    ensures
        r == white_space(c),
{
    let u = c as u32;
    (0x09 <= u && u <= 0x0d) || u == 0x20 || u == 0x85 || u == 0xa0 || u == 0x1680 || (0x2000 <= u
        && u <= 0x200a) || u == 0x2028 || u == 0x2029 || u == 0x202f || u == 0x205f || u == 0x3000
}

/// Content of a cell in the grid, with the content it had before each
/// revision that changed it.
pub struct Cell {
    content: CellContent,
    history: Vec<(usize, CellContent)>,
}

/// The revisions held in `h`, each with the content it restores.
pub open spec fn history_map(h: Seq<(usize, CellContent)>) -> Map<usize, CellContent>
    decreases h.len(),
{
    if h.len() == 0 {
        Map::empty()
    } else {
        history_map(h.drop_last()).insert(h.last().0, h.last().1)
    }
}

/// No revision is held twice.
pub open spec fn unique_revisions(h: Seq<(usize, CellContent)>) -> bool {
    forall|i: int, j: int| 0 <= i < j < h.len() ==> h[i].0 != h[j].0
}

impl Cell {
    /// The content each held revision restores.
    pub closed spec fn history(&self) -> Map<usize, CellContent> {
        history_map(self.history@)
    }

    /// What the cell shows.
    pub closed spec fn content_spec(&self) -> CellContent {
        self.content
    }

    /// What the cell shows.
    pub fn content(&self) -> (r: CellContent)
        ensures
            r == self.content_spec(),
    {
        self.content
    }

    /// Each revision is held at most once.
    pub closed spec fn wf(&self) -> bool {
        unique_revisions(self.history@)
    }

    /// A cell with `content` and no history.
    pub fn new(content: CellContent) -> (c: Cell)
        ensures
            c.wf(),
            c.content_spec() == content,
            c.history() == Map::<usize, CellContent>::empty(),
    {
        Cell { content, history: Vec::new() }
    }

    /// An untouched cell.
    pub fn blank() -> (c: Cell)
        ensures
            c.wf(),
            c.content_spec() == blank(),
            c.history() == Map::<usize, CellContent>::empty(),
    {
        Cell::new(CellContent {
            c: '\0',
            foreground: Color::default(),
            background: Color::default(),
            style: TextStyle { bold: false, italics: false },
        })
    }

    fn find(&self, revision: usize) -> (r: Option<usize>)
        requires
            self.wf(),
        ensures
            r is None ==> !self.history().contains_key(revision),
            r is None ==> forall|j: int| 0 <= j < self.history@.len() ==> self.history@[j].0 != revision,
            r is Some ==> r->0 < self.history@.len() && self.history@[r->0 as int].0 == revision,
    {
        let mut i: usize = 0;
        while i < self.history.len()
            invariant
                i <= self.history@.len(),
                forall|j: int| 0 <= j < i ==> self.history@[j].0 != revision,
            decreases self.history@.len() - i,
        {
            if self.history[i].0 == revision {
                return Some(i);
            }
            i = i + 1;
        }
        proof {
            lemma_absent(self.history@, revision);
        }
        None
    }

    /// Replace the content. The content before is kept as the one to
    /// restore for `revision`, unless that revision already holds one.
    pub fn replace(&mut self, content: CellContent, revision: usize)
        requires
            old(self).wf(),
        ensures
            final(self).wf(),
            final(self).content_spec() == content,
            old(self).history().contains_key(revision) ==> final(self).history() == old(self).history(),
            !old(self).history().contains_key(revision) ==> final(self).history() == old(self).history().insert(
                revision,
                old(self).content_spec(),
            ),
    {
        match self.find(revision) {
            Some(i) => {
                proof {
                    lemma_present(self.history@, i as int);
                }
            },
            None => {
                let ghost h = self.history@;
                self.history.push((revision, self.content));
                proof {
                    assert(self.history@.drop_last() =~= h);
                }
            },
        }
        self.content = content;
    }

    /// Reset the cell to an untouched one, keeping the content before for
    /// `revision`.
    pub fn clear(&mut self, revision: usize)
        requires
            old(self).wf(),
        ensures
            final(self).wf(),
            final(self).content_spec() == blank(),
            old(self).history().contains_key(revision) ==> final(self).history() == old(self).history(),
            !old(self).history().contains_key(revision) ==> final(self).history() == old(self).history().insert(
                revision,
                old(self).content_spec(),
            ),
    {
        self.replace(Cell::blank().content, revision);
    }

    /// Switch to revision `new_revision`, when the cell holds it: its content
    /// comes back, and the content now is kept for `current_revision`.
    pub fn set_revision(&mut self, current_revision: usize, new_revision: usize)
        requires
            old(self).wf(),
        ensures
            final(self).wf(),
            !old(self).history().contains_key(new_revision) ==> final(self).content_spec() == old(self).content_spec()
                && final(self).history() == old(self).history(),
            old(self).history().contains_key(new_revision) ==> final(self).content_spec() == old(self).history()[new_revision]
                && final(self).history() == old(self).history().remove(new_revision).insert(
                current_revision,
                old(self).content_spec(),
            ),
    {
        let i = match self.find(new_revision) {
            Some(i) => i,
            None => return,
        };
        let ghost h = self.history@;
        proof {
            lemma_present(h, i as int);
        }
        let restored = self.history[i].1;
        let last = self.history.len() - 1;
        let moved = self.history[last];
        self.history.set(i, moved);
        self.history.pop();
        proof {
            lemma_remove_swap(h, i as int);
        }
        let ghost h2 = self.history@;
        let k = self.find(current_revision);
        match k {
            Some(k) => {
                let ghost before = self.history@;
                self.history.set(k, (current_revision, self.content));
                proof {
                    lemma_update_same_key(before, k as int, self.content);
                }
            },
            None => {
                self.history.push((current_revision, self.content));
                proof {
                    assert(self.history@.drop_last() =~= h2);
                }
            },
        }
        self.content = restored;
    }

    /// Drop every revision after `revision`.
    pub fn clear_history(&mut self, revision: usize)
        requires
            old(self).wf(),
        ensures
            final(self).wf(),
            final(self).content_spec() == old(self).content_spec(),
            final(self).history() == old(self).history().restrict(
                old(self).history().dom().filter(|r: usize| r <= revision),
            ),
    {
        let ghost old_h = self.history@;
        let mut kept: Vec<(usize, CellContent)> = Vec::new();
        let mut i: usize = 0;
        while i < self.history.len()
            invariant
                i <= self.history@.len(),
                self.history@ == old_h,
                unique_revisions(old_h),
                unique_revisions(kept@),
                forall|j: int| 0 <= j < kept@.len() ==> exists|x: int| 0 <= x < i && #[trigger] kept@[j] == old_h[x],
                history_map(kept@) == history_map(old_h.take(i as int)).restrict(
                    history_map(old_h.take(i as int)).dom().filter(|r: usize| r <= revision),
                ),
            decreases self.history@.len() - i,
        {
            let entry = self.history[i];
            let ghost prev = kept@;
            if entry.0 <= revision {
                kept.push(entry);
                proof {
                    assert(kept@.drop_last() =~= prev);
                    assert forall|a: int, b: int| 0 <= a < b < kept@.len() implies kept@[a].0 != kept@[b].0 by {
                        if b == kept@.len() - 1 {
                            let x = choose|x: int| 0 <= x < i && kept@[a] == old_h[x];
                            assert(old_h[x].0 != old_h[i as int].0);
                        }
                    }
                }
            }
            proof {
                lemma_take_step(old_h, i as int, revision, prev, kept@);
            }
            i = i + 1;
        }
        assert(old_h.take(i as int) =~= old_h);
        self.history = kept;
    }

    /// Whether the cell shows nothing: white space or NUL on the default
    /// background.
    pub fn is_empty(&self) -> (r: bool)
        ensures
            r == ((white_space(self.content_spec().c) || self.content_spec().c == '\0')
                && self.content_spec().background == Color::Named(NamedColor::Default)),
    {
        (is_whitespace(self.content.c) || self.content.c == '\0')
            && self.content.background == Color::default()
    }
}

proof fn lemma_absent(h: Seq<(usize, CellContent)>, revision: usize)
    requires
        forall|j: int| 0 <= j < h.len() ==> h[j].0 != revision,
    ensures
        !history_map(h).contains_key(revision),
    decreases h.len(),
{
    if h.len() > 0 {
        lemma_absent(h.drop_last(), revision);
    }
}

proof fn lemma_present(h: Seq<(usize, CellContent)>, i: int)
    requires
        unique_revisions(h),
        0 <= i < h.len(),
    ensures
        history_map(h).contains_key(h[i].0),
        history_map(h)[h[i].0] == h[i].1,
    decreases h.len(),
{
    if i < h.len() - 1 {
        lemma_present(h.drop_last(), i);
    }
}

/// The map of a history is determined entry by entry.
proof fn lemma_map_of(h: Seq<(usize, CellContent)>)
    requires
        unique_revisions(h),
    ensures
        forall|r: usize| #[trigger] history_map(h).contains_key(r) <==> exists|i: int| 0 <= i < h.len() && h[i].0 == r,
        forall|i: int| 0 <= i < h.len() ==> #[trigger] history_map(h)[h[i].0] == h[i].1,
    decreases h.len(),
{
    if h.len() > 0 {
        lemma_map_of(h.drop_last());
        let t = h.drop_last();
        assert forall|r: usize| #[trigger] history_map(h).contains_key(r) <==> exists|i: int| 0 <= i < h.len() && h[i].0 == r by {
            if r == h.last().0 {
                assert(h[h.len() - 1].0 == r);
            }
            if history_map(h).contains_key(r) && r != h.last().0 {
                assert(history_map(t).contains_key(r));
                let i = choose|i: int| 0 <= i < t.len() && t[i].0 == r;
                assert(h[i].0 == r);
            }
            if exists|i: int| 0 <= i < h.len() && h[i].0 == r {
                let i = choose|i: int| 0 <= i < h.len() && h[i].0 == r;
                if i < h.len() - 1 {
                    assert(t[i].0 == r);
                    assert(history_map(t).contains_key(r));
                }
            }
        }
        assert forall|i: int| 0 <= i < h.len() implies #[trigger] history_map(h)[h[i].0] == h[i].1 by {
            lemma_present(h, i);
        }
    }
}

/// Moving the last entry into slot `i` and dropping the last slot removes
/// the revision of entry `i`.
proof fn lemma_remove_swap(h: Seq<(usize, CellContent)>, i: int)
    requires
        unique_revisions(h),
        0 <= i < h.len(),
    ensures
        ({
            let s = h.update(i, h.last()).drop_last();
            &&& unique_revisions(s)
            &&& history_map(s) == history_map(h).remove(h[i].0)
        }),
{
    let s = h.update(i, h.last()).drop_last();
    let n = h.len() - 1;
    assert forall|a: int, b: int| 0 <= a < b < s.len() implies s[a].0 != s[b].0 by {
        if a == i {
            assert(s[a] == h[n]);
        } else if b == i {
            assert(s[b] == h[n]);
        }
    }
    lemma_map_of(h);
    lemma_map_of(s);
    let m = history_map(h).remove(h[i].0);
    assert forall|r: usize| #[trigger] history_map(s).contains_key(r) <==> m.contains_key(r) by {
        if history_map(s).contains_key(r) {
            let k = choose|k: int| 0 <= k < s.len() && s[k].0 == r;
            if k == i {
                assert(s[k] == h[n]);
            } else {
                assert(s[k] == h[k]);
            }
        }
        if m.contains_key(r) {
            let k = choose|k: int| 0 <= k < h.len() && h[k].0 == r;
            if k == n {
                if i < n {
                    assert(s[i].0 == r);
                }
            } else {
                assert(s[k].0 == r);
            }
        }
    }
    assert forall|r: usize| #[trigger] history_map(s).contains_key(r) implies history_map(s)[r] == m[r] by {
        let k = choose|k: int| 0 <= k < s.len() && s[k].0 == r;
        if k == i {
            assert(s[k] == h[n]);
            assert(history_map(h)[h[n].0] == h[n].1);
        } else {
            assert(s[k] == h[k]);
            assert(history_map(h)[h[k].0] == h[k].1);
        }
        assert(history_map(s)[s[k].0] == s[k].1);
    }
    assert(history_map(s) =~= m);
}

/// Replacing the content held for the revision in slot `k`.
proof fn lemma_update_same_key(h: Seq<(usize, CellContent)>, k: int, v: CellContent)
    requires
        unique_revisions(h),
        0 <= k < h.len(),
    ensures
        ({
            let s = h.update(k, (h[k].0, v));
            &&& unique_revisions(s)
            &&& history_map(s) == history_map(h).insert(h[k].0, v)
        }),
{
    let s = h.update(k, (h[k].0, v));
    assert forall|a: int, b: int| 0 <= a < b < s.len() implies s[a].0 != s[b].0 by {
        assert(s[a].0 == h[a].0 && s[b].0 == h[b].0);
    }
    lemma_map_of(h);
    lemma_map_of(s);
    let m = history_map(h).insert(h[k].0, v);
    assert forall|r: usize| #[trigger] history_map(s).contains_key(r) <==> m.contains_key(r) by {
        if history_map(s).contains_key(r) {
            let j = choose|j: int| 0 <= j < s.len() && s[j].0 == r;
            assert(h[j].0 == r);
        }
        if m.contains_key(r) && r != h[k].0 {
            let j = choose|j: int| 0 <= j < h.len() && h[j].0 == r;
            assert(s[j].0 == r);
        }
        if r == h[k].0 {
            assert(s[k].0 == r);
        }
    }
    assert forall|r: usize| #[trigger] history_map(s).contains_key(r) implies history_map(s)[r] == m[r] by {
        let j = choose|j: int| 0 <= j < s.len() && s[j].0 == r;
        assert(history_map(s)[s[j].0] == s[j].1);
        if j != k {
            assert(history_map(h)[h[j].0] == h[j].1);
        }
    }
    assert(history_map(s) =~= m);
}

proof fn lemma_take_step(
    h: Seq<(usize, CellContent)>,
    i: int,
    revision: usize,
    prev: Seq<(usize, CellContent)>,
    kept: Seq<(usize, CellContent)>,
)
    requires
        0 <= i < h.len(),
        unique_revisions(h),
        history_map(prev) == history_map(h.take(i)).restrict(
            history_map(h.take(i)).dom().filter(|r: usize| r <= revision),
        ),
        h[i].0 <= revision ==> kept == prev.push(h[i]),
        h[i].0 > revision ==> kept == prev,
    ensures
        history_map(kept) == history_map(h.take(i + 1)).restrict(
            history_map(h.take(i + 1)).dom().filter(|r: usize| r <= revision),
        ),
{
    assert(h.take(i + 1).drop_last() =~= h.take(i));
    if h[i].0 <= revision {
        assert(kept.drop_last() =~= prev);
    }
    let a = history_map(h.take(i + 1));
    let b = history_map(h.take(i));
    assert(history_map(kept) =~= a.restrict(a.dom().filter(|r: usize| r <= revision))) by {
        assert(a == b.insert(h[i].0, h[i].1));
    }
}

/// The colors and style the terminal writes with.
pub open spec fn attributes_of(c: CellContent) -> (Color, Color, TextStyle) {
    (c.foreground, c.background, c.style)
}

/// The sequences that switch from attributes `st` to those of cell `c`:
/// only what differs is written.
pub open spec fn cell_prefix(st: (Color, Color, TextStyle), c: CellContent) -> Seq<char> {
    (if c.foreground != st.0 { color_sequence(c.foreground, true) } else { Seq::empty() }) + (
    if c.background != st.1 {
        color_sequence(c.background, false)
    } else {
        Seq::empty()
    }) + (if c.style != st.2 { style_sequence(c.style) } else { Seq::empty() })
}

/// The character a cell shows: its own when one or two columns wide, else a
/// space.
pub open spec fn cell_glyph(c: CellContent) -> char {
    if char_width_of(c.c) == Some(1usize) || char_width_of(c.c) == Some(2usize) {
        c.c
    } else {
        ' '
    }
}

/// How many columns a cell's character covers: its width, at least one.
pub open spec fn cell_step(c: CellContent) -> nat {
    match char_width_of(c.c) {
        Some(w) => if w > 1 { w as nat } else { 1 },
        None => 1,
    }
}

/// The text of a line from column `j` on, starting with attributes `st`,
/// and the attributes after it. A fullwidth character covers the cell after
/// it, which is skipped.
pub open spec fn render_line(cells: Seq<CellContent>, j: int, st: (Color, Color, TextStyle)) -> (
    Seq<char>,
    (Color, Color, TextStyle),
)
    decreases cells.len() - j,
{
    if j < 0 || j >= cells.len() {
        (Seq::empty(), st)
    } else {
        let c = cells[j];
        let next = j + cell_step(c);
        let rest = if next < cells.len() {
            render_line(cells, next, attributes_of(c))
        } else {
            (Seq::empty(), attributes_of(c))
        };
        (cell_prefix(st, c).push(cell_glyph(c)) + rest.0, rest.1)
    }
}

/// The text of the lines from `i` on, each ended by a newline.
pub open spec fn render_lines(lines: Seq<Seq<CellContent>>, i: int, st: (Color, Color, TextStyle)) -> Seq<char>
    decreases lines.len() - i,
{
    if i < 0 || i >= lines.len() {
        Seq::empty()
    } else {
        let l = render_line(lines[i], 0, st);
        l.0.push('\n') + render_lines(lines, i + 1, l.1)
    }
}

/// `s` without the newlines at its end.
pub open spec fn trim_newlines(s: Seq<char>) -> Seq<char>
    decreases s.len(),
{
    if s.len() > 0 && s.last() == '\n' {
        trim_newlines(s.drop_last())
    } else {
        s
    }
}

/// The default colors, no style.
pub open spec fn plain_attributes() -> (Color, Color, TextStyle) {
    (
        Color::Named(NamedColor::Default),
        Color::Named(NamedColor::Default),
        TextStyle { bold: false, italics: false },
    )
}

/// The contents of each cell of each line.
pub open spec fn contents(lines: Seq<Vec<Cell>>) -> Seq<Seq<CellContent>> {
    lines.map_values(|l: Vec<Cell>| l@.map_values(|c: Cell| c.content_spec()))
}

fn cell_columns(c: char) -> (w: usize)
    ensures
        w as nat == cell_step(CellContent { c, ..blank() }),
        1 <= w <= 3,
{
    match char_width(c) {
        Some(w) => if w > 1 { w } else { 1 },
        None => 1,
    }
}

fn render_line_into(out: &mut String, cells: &Vec<Cell>, st: (Color, Color, TextStyle)) -> (r: (Color, Color, TextStyle))
    ensures
        final(out)@ == old(out)@ + render_line(cells@.map_values(|c: Cell| c.content_spec()), 0, st).0,
        r == render_line(cells@.map_values(|c: Cell| c.content_spec()), 0, st).1,
{
    let ghost cs = cells@.map_values(|c: Cell| c.content_spec());
    let ghost start = out@;
    let mut cur = st;
    let mut j: usize = 0;
    while j < cells.len()
        invariant
            cs == cells@.map_values(|c: Cell| c.content_spec()),
            j <= cells@.len(),
            start + render_line(cs, 0, st).0 == out@ + render_line(cs, j as int, cur).0,
            render_line(cs, 0, st).1 == render_line(cs, j as int, cur).1,
        decreases cells@.len() - j,
    {
        let c = cells[j].content();
        assert(c == cs[j as int]);
        let ghost before = out@;
        if c.foreground != cur.0 {
            push_str(out, c.foreground.escape(true).as_str());
        }
        if c.background != cur.1 {
            push_str(out, c.background.escape(false).as_str());
        }
        if c.style != cur.2 {
            push_str(out, c.style.escape().as_str());
        }
        let step = cell_columns(c.c);
        let glyph = match char_width(c.c) {
            Some(w) => if w == 1 || w == 2 { c.c } else { ' ' },
            None => ' ',
        };
        push_char(out, glyph);
        let ghost jo = j as int;
        let ghost curo = cur;
        proof {
            assert(cell_step(c) == cell_step(CellContent { c: c.c, ..blank() }));
            assert(out@ =~= before + cell_prefix(cur, c).push(cell_glyph(c)));
            let rest = if jo + step < cs.len() {
                render_line(cs, jo + step, attributes_of(c))
            } else {
                (Seq::<char>::empty(), attributes_of(c))
            };
            assert(render_line(cs, jo, curo) == (cell_prefix(curo, c).push(cell_glyph(c)) + rest.0, rest.1));
            if jo + step >= cs.len() {
                assert(render_line(cs, cs.len() as int, attributes_of(c)).0 == Seq::<char>::empty());
            }
        }
        cur = (c.foreground, c.background, c.style);
        if cells.len() - j <= step {
            j = cells.len();
        } else {
            j = j + step;
        }
    }
    proof {
        lemma_render_line_end(cs, j as int, cur);
    }
    cur
}

/// Past the end of a line nothing is rendered.
proof fn lemma_render_line_end(cs: Seq<CellContent>, j: int, st: (Color, Color, TextStyle))
    requires
        j >= cs.len(),
    ensures
        render_line(cs, j, st).0 == Seq::<char>::empty(),
        render_line(cs, j, st).1 == st,
{
}

/// The text of the grid as the terminal shows it: one text line per grid
/// line, each cell's character preceded by the color and style sequences
/// that differ from the cell before, starting from the default colors; the
/// newlines at the end are left out.
pub fn render_grid(lines: &Vec<Vec<Cell>>) -> (r: String)
    ensures
        r@ == trim_newlines(render_lines(contents(lines@), 0, plain_attributes())),
{
    let ghost ls = contents(lines@);
    let mut out = String::new();
    let mut st = (Color::default(), Color::default(), TextStyle::empty());
    let mut i: usize = 0;
    while i < lines.len()
        invariant
            ls == contents(lines@),
            i <= lines@.len(),
            render_lines(ls, 0, plain_attributes()) == out@ + render_lines(ls, i as int, st),
        decreases lines@.len() - i,
    {
        let ghost before = out@;
        let ghost prev = st;
        assert(ls[i as int] == lines@[i as int]@.map_values(|c: Cell| c.content_spec()));
        st = render_line_into(&mut out, &lines[i], st);
        push_char(&mut out, '\n');
        i = i + 1;
        assert(out@ + render_lines(ls, i as int, st) =~= before + render_lines(ls, (i - 1) as int, prev));
    }
    let ghost full = out@;
    loop
        invariant
            trim_newlines(out@) == trim_newlines(full),
        ensures
            out@ == trim_newlines(full),
        decreases out@.len(),
    {
        let ghost before = out@;
        match pop_char(&mut out) {
            Some(c) => {
                if c != '\n' {
                    push_char(&mut out, c);
                    assert(out@ =~= before);
                    break;
                }
            },
            None => {
                break;
            },
        }
    }
    out
}

/// The displayed width of a character, zero for a control character.
pub open spec fn glyph_width(c: char) -> nat {
    match char_width_of(c) {
        Some(w) => w as nat,
        None => 0,
    }
}

/// Whether a run of `count` copies of a `w` columns wide glyph from 1-based
/// `column` starts inside a line of `len` cells: the first copy must fit.
pub open spec fn run_accepted(len: nat, column: nat, w: nat, count: nat) -> bool {
    count > 0 && w > 0 && column >= 1 && column + w <= len + 1
}

/// The last column a run may start a copy in: the line's end cuts it off.
pub open spec fn run_last(len: nat, column: nat, w: nat, count: nat) -> nat {
    let end = column + (count - 1) * w;
    if end < len { end as nat } else { len }
}

/// Whether 1-based column `x` gets a copy of the glyph.
pub open spec fn run_hit(x: int, column: nat, w: nat, last: nat) -> bool {
    column <= x <= last && (x - column) % (w as int) == 0
}

/// The content cell `k` (0-based) shows after the run, or `None` when the
/// run leaves it alone: each copy fills its cell; a fullwidth copy clears the
/// cell it covers; a fullwidth character in the cell left of a copy, which
/// the copy would cut in half, is cleared.
pub open spec fn run_effect(
    old: Seq<CellContent>,
    column: nat,
    w: nat,
    last: nat,
    content: CellContent,
    k: int,
) -> Option<CellContent> {
    if run_hit(k + 1, column, w, last) {
        Some(content)
    } else if w == 2 && run_hit(k, column, w, last) && k < old.len() {
        Some(blank())
    } else if run_hit(k + 2, column, w, last) && char_width_of(old[k].c) == Some(2usize) {
        Some(blank())
    } else {
        None
    }
}

/// `run_effect` with only the copies left of 1-based column `col` made.
pub open spec fn run_effect_before(
    old: Seq<CellContent>,
    column: nat,
    w: nat,
    last: nat,
    content: CellContent,
    k: int,
    col: int,
) -> Option<CellContent> {
    if run_hit(k + 1, column, w, last) && k + 1 < col {
        Some(content)
    } else if w == 2 && run_hit(k, column, w, last) && k < old.len() && k < col {
        Some(blank())
    } else if run_hit(k + 2, column, w, last) && k + 2 < col && char_width_of(old[k].c) == Some(2usize) {
        Some(blank())
    } else {
        None
    }
}

/// What `replace` leaves in a cell's history: the content before, for
/// `revision`, unless that revision holds one already.
pub open spec fn history_after(before: Cell, revision: usize) -> Map<usize, CellContent> {
    if before.history().contains_key(revision) {
        before.history()
    } else {
        before.history().insert(revision, before.content_spec())
    }
}

/// Cell `after` is `before` with `effect` applied.
pub open spec fn applied(before: Cell, after: Cell, effect: Option<CellContent>, revision: usize) -> bool {
    match effect {
        Some(v) => after.content_spec() == v && after.history() == history_after(before, revision),
        None => after.content_spec() == before.content_spec() && after.history() == before.history(),
    }
}

proof fn lemma_run_step(
    old: Seq<CellContent>,
    column: nat,
    w: nat,
    last: nat,
    content: CellContent,
    k: int,
    col: int,
)
    requires
        1 <= w <= 3,
        column <= col <= last,
        (col - column) % (w as int) == 0,
    ensures
        k + 1 != col && !(w == 2 && k == col) && k + 2 != col ==> run_effect_before(old, column, w, last, content, k, col + w)
            == run_effect_before(old, column, w, last, content, k, col),
        k + 1 == col ==> run_effect_before(old, column, w, last, content, k, col + w) == Some(content)
            && run_effect_before(old, column, w, last, content, k, col) is None,
        w == 2 && k == col && k < old.len() ==> run_effect_before(old, column, w, last, content, k, col + w) == Some(blank())
            && run_effect_before(old, column, w, last, content, k, col) is None,
        k + 2 == col && w == 1 && col > column ==> run_effect_before(old, column, w, last, content, k, col + w)
            == run_effect_before(old, column, w, last, content, k, col)
            && run_effect_before(old, column, w, last, content, k, col) == Some(content),
        k + 2 == col && w == 2 && col > column && k < old.len() ==> run_effect_before(old, column, w, last, content, k, col + w)
            == run_effect_before(old, column, w, last, content, k, col)
            && run_effect_before(old, column, w, last, content, k, col) == Some(blank()),
        k + 2 == col && (w == 3 || col == column) ==> run_effect_before(old, column, w, last, content, k, col) is None
            && run_effect_before(old, column, w, last, content, k, col + w) == (
                if char_width_of(old[k].c) == Some(2usize) { Some(blank()) } else { None::<CellContent> }),
{
    if w == 2 && col > column {
        assert((col - 2 - column) % 2 == 0);
        assert((col - 1 - column) % 2 == 1);
        assert((col + 1 - column) % 2 == 1);
    }
}

/// Store a run of `count` copies of `content`'s glyph in `line`, from
/// 1-based `column`, each as wide as the glyph; copies past the line's end
/// are dropped. Every changed cell keeps its content before for `revision`.
/// Nothing is stored when the glyph has no width or the first copy does not
/// fit; the result says whether the run was accepted.
#[verifier::rlimit(60)]
pub fn store_run(line: &mut Vec<Cell>, column: usize, content: CellContent, count: usize, revision: usize) -> (accepted: bool)
    requires
        forall|k: int| 0 <= k < old(line)@.len() ==> #[trigger] old(line)@[k].wf(),
    ensures
        final(line)@.len() == old(line)@.len(),
        forall|k: int| 0 <= k < final(line)@.len() ==> #[trigger] final(line)@[k].wf(),
        accepted == run_accepted(old(line)@.len(), column as nat, glyph_width(content.c), count as nat),
        ({
            let old_contents = old(line)@.map_values(|c: Cell| c.content_spec());
            let w = glyph_width(content.c);
            let last = run_last(old(line)@.len(), column as nat, w, count as nat);
            forall|k: int| 0 <= k < final(line)@.len() ==> applied(
                old(line)@[k],
                #[trigger] final(line)@[k],
                if accepted { run_effect(old_contents, column as nat, w, last, content, k) } else { None },
                revision,
            )
        }),
{
    let w: usize = match char_width(content.c) {
        Some(w) => w,
        None => 0,
    };
    let len = line.len();
    if count == 0 || w == 0 || column == 0 || w > len || column > len - w + 1 {
        return false;
    }
    let ghost old_line = line@;
    let ghost old_contents = old_line.map_values(|c: Cell| c.content_spec());
    let last: usize = if count - 1 <= (len - column) / w {
        let q = (len - column) / w;
        assert((count - 1) * w <= len - column) by (nonlinear_arith)
            requires
                count - 1 <= q,
                q == (len - column) as int / w as int,
                w > 0,
                len >= column,
        ;
        column + (count - 1) * w
    } else {
        let q = (len - column) / w;
        assert((count - 1) * w > len - column) by (nonlinear_arith)
            requires
                count - 1 > q,
                q == (len - column) as int / w as int,
                w > 0,
                len >= column,
        ;
        len
    };
    assert(last == run_last(len as nat, column as nat, w as nat, count as nat));
    let mut col: usize = column;
    proof {
        if w == 1 {
            assert(0int % 1 == 0);
        } else if w == 2 {
            assert(0int % 2 == 0);
        } else {
            assert(0int % 3 == 0);
        }
    }
    loop
        invariant_except_break
            forall|k: int| 0 <= k < len ==> applied(
                old_line[k],
                #[trigger] line@[k],
                run_effect_before(old_contents, column as nat, w as nat, last as nat, content, k, col as int),
                revision,
            ),
        invariant
            1 <= w <= 3,
            1 <= column <= col <= last,
            column + w <= len + 1,
            last <= len,
            (col - column) % (w as int) == 0,
            line@.len() == len,
            old_line.len() == len,
            old_contents == old_line.map_values(|c: Cell| c.content_spec()),
            w == glyph_width(content.c),
            last == run_last(len as nat, column as nat, w as nat, count as nat),
            forall|k: int| 0 <= k < len ==> #[trigger] line@[k].wf(),
        ensures
            forall|k: int| 0 <= k < len ==> applied(
                old_line[k],
                #[trigger] line@[k],
                run_effect(old_contents, column as nat, w as nat, last as nat, content, k),
                revision,
            ),
        decreases last - col,
    {
        assert forall|k: int| #![auto] 0 <= k < len implies old_contents[k] == old_line[k].content_spec() by {}
        line[col - 1].replace(content, revision);
        if w == 2 && col < len {
            line[col].clear(revision);
        }
        if col >= 2 {
            let left = line[col - 2].content().c;
            if char_width(left) == Some(2) {
                line[col - 2].clear(revision);
            }
        }
        proof {
            assert forall|k: int| 0 <= k < len implies applied(
                old_line[k],
                #[trigger] line@[k],
                run_effect_before(old_contents, column as nat, w as nat, last as nat, content, k, col as int + w),
                revision,
            ) by {
                lemma_run_step(old_contents, column as nat, w as nat, last as nat, content, k, col as int);
            }
        }
        if last - col < w {
            proof {
                assert forall|k: int| 0 <= k < len implies #[trigger] run_effect_before(old_contents, column as nat, w as nat, last as nat, content, k, col as int + w) == run_effect(old_contents, column as nat, w as nat, last as nat, content, k) by {}
            }
            break;
        }
        proof {
            let d = col - column;
            if w == 1 {
                assert((d + 1) % 1 == 0);
            } else if w == 2 {
                assert((d + 2) % 2 == 0);
            } else {
                assert(w == 3);
                assert(d % 3 == 0);
                assert((d + 3) % 3 == 0) by (nonlinear_arith)
                    requires
                        d % 3 == 0,
                ;
            }
        }
        col = col + w;
    }
    true
}

/// Whether every cell of every line holds each revision at most once.
pub open spec fn grid_wf(lines: Seq<Vec<Cell>>) -> bool {
    forall|i: int, j: int| 0 <= i < lines.len() && 0 <= j < lines[i]@.len() ==> #[trigger] lines[i]@[j].wf()
}

/// Write a run of `count` copies of `content`'s glyph at `at` (1-based)
/// into the grid, when `persist` is set. The run is refused (`None`) when it
/// is empty, the glyph has no width, `at` is off the grid or the first copy
/// does not fit its line; else the result is the cell after the run.
pub fn write_glyphs(
    lines: &mut Vec<Vec<Cell>>,
    at: Point,
    content: CellContent,
    count: usize,
    revision: usize,
    persist: bool,
) -> (r: Option<Point>)
    requires
        grid_wf(old(lines)@),
    ensures
        grid_wf(final(lines)@),
        final(lines)@.len() == old(lines)@.len(),
        ({
            let w = glyph_width(content.c);
            let ok = 1 <= at.line <= old(lines)@.len() && run_accepted(
                old(lines)@[at.line - 1]@.len(),
                at.column as nat,
                w,
                count as nat,
            ) && at.column + w * count <= usize::MAX;
            &&& !ok ==> r is None && final(lines)@ == old(lines)@
            &&& ok ==> r == Some(Point { column: (at.column + w * count) as usize, line: at.line })
            &&& ok && !persist ==> final(lines)@ == old(lines)@
            &&& ok && persist ==> forall|i: int| 0 <= i < old(lines)@.len() && i != at.line - 1
                ==> #[trigger] final(lines)@[i] == old(lines)@[i]
            &&& ok && persist ==> final(lines)@[at.line - 1]@.len() == old(lines)@[at.line - 1]@.len()
            &&& ok && persist ==> ({
                let before = old(lines)@[at.line - 1]@;
                let after = final(lines)@[at.line - 1]@;
                let last = run_last(before.len(), at.column as nat, w, count as nat);
                forall|k: int| 0 <= k < after.len() ==> applied(
                    before[k],
                    #[trigger] after[k],
                    run_effect(
                        before.map_values(|c: Cell| c.content_spec()),
                        at.column as nat,
                        w,
                        last,
                        content,
                        k,
                    ),
                    revision,
                )
            })
        }),
{
    let w: usize = match char_width(content.c) {
        Some(w) => w,
        None => 0,
    };
    if at.line == 0 || at.line > lines.len() {
        return None;
    }
    let len = lines[at.line - 1].len();
    if count == 0 || w == 0 || at.column == 0 || w > len || at.column > len - w + 1 {
        return None;
    }
    if count > (usize::MAX - at.column) / w {
        assert(at.column + w * count > usize::MAX) by (nonlinear_arith)
            requires
                count > (usize::MAX - at.column) as int / w as int,
                w > 0,
                at.column <= usize::MAX,
        ;
        return None;
    }
    assert(w * count <= usize::MAX - at.column) by (nonlinear_arith)
        requires
            count <= (usize::MAX - at.column) as int / w as int,
            w > 0,
            at.column <= usize::MAX,
    ;
    if persist {
        let ghost old_lines = lines@;
        let accepted = store_run(&mut lines[at.line - 1], at.column, content, count, revision);
        assert(accepted);
        proof {
            assert forall|i: int, j: int| 0 <= i < lines@.len() && 0 <= j < lines@[i]@.len() implies #[trigger] lines@[i]@[j].wf() by {
                if i != at.line - 1 {
                    assert(lines@[i] == old_lines[i]);
                }
            }
        }
    }
    Some(Point { column: at.column + w * count, line: at.line })
}

/// Where the text after the white space at the start of `s` begins: after
/// the last newline in that white space, so that the first line with content
/// is kept whole.
pub open spec fn leading_cut(s: Seq<char>, i: int, cut: int) -> int
    decreases s.len() - i,
{
    if 0 <= i < s.len() && white_space(s[i]) {
        leading_cut(s, i + 1, if s[i] == '\n' { i + 1 } else { cut })
    } else {
        cut
    }
}

/// The length of the first `n` characters of `s` without the white space
/// at their end.
pub open spec fn trailing_end(s: Seq<char>, n: int) -> int
    decreases n,
{
    if 0 < n <= s.len() && white_space(s[n - 1]) {
        trailing_end(s, n - 1)
    } else {
        n
    }
}

/// A sketch's text without the empty lines above it and the white space
/// after it, ended by one newline.
pub open spec fn trimmed_sketch(s: Seq<char>) -> Seq<char> {
    let a = leading_cut(s, 0, 0);
    let e = trailing_end(s, s.len() as int);
    (if a < e { s.subrange(a, e) } else { Seq::empty() }).push('\n')
}

/// The sketch's text without the empty lines above it and the white space
/// after it, ended by one newline.
pub fn trimmed_text(text: &Vec<char>) -> (r: Vec<char>)
    ensures
        r@ == trimmed_sketch(text@),
{
    let n = text.len();
    let mut i: usize = 0;
    let mut cut: usize = 0;
    while i < n && is_whitespace(text[i])
        invariant
            n == text@.len(),
            cut <= i <= n,
            leading_cut(text@, i as int, cut as int) == leading_cut(text@, 0, 0),
        decreases n - i,
    {
        if text[i] == '\n' {
            cut = i + 1;
        }
        i = i + 1;
    }
    let mut e: usize = n;
    while e > 0 && is_whitespace(text[e - 1])
        invariant
            e <= n == text@.len(),
            trailing_end(text@, e as int) == trailing_end(text@, n as int),
        decreases e,
    {
        e = e - 1;
    }
    let mut r: Vec<char> = Vec::new();
    if cut < e {
        let mut k: usize = cut;
        while k < e
            invariant
                cut <= k <= e <= n == text@.len(),
                r@ == text@.subrange(cut as int, k as int),
            decreases e - k,
        {
            r.push(text[k]);
            k = k + 1;
            assert(r@ =~= text@.subrange(cut as int, k as int));
        }
    }
    r.push('\n');
    assert(r@ =~= trimmed_sketch(text@));
    r
}

} // verus!
