//! The two glyph screens: the one being composed (`LcdScreenNext`) and the
//! one shown on the display (`LcdScreenCurrent`), which draws into the
//! framebuffer what changed.
use vstd::prelude::*;
use crate::font::Font;
use crate::glyph::{GlyphData, GLYPH_DATA_ROW_BYTES, GLYPH_SIZE};
use crate::glyph_code::GlyphCode;
use vstd::arithmetic::div_mod::{lemma_fundamental_div_mod, lemma_fundamental_div_mod_converse};
use crate::layout::{
    lemma_geometry,
    Framebuffer, LcdTopSideProvider, LCD_CELLS, LCD_FRAMEBUFFER_ROW_BYTES, LCD_FRAMEBUFFER_SIZE,
    LCD_GLYPHS_PER_COLUMN, LCD_GLYPHS_PER_ROW,
};

verus! {

/// Position in the cell sequence of screen cell `(x, y)`; positions past
/// the end wrap around.
pub open spec fn screen_index(x: int, y: int) -> int {
    (y * LCD_GLYPHS_PER_ROW + x) % (LCD_CELLS as int)
}

/// The cell index computation does not overflow.
pub open spec fn screen_index_fits(x: int, y: int) -> bool {
    y * LCD_GLYPHS_PER_ROW + x <= usize::MAX
}

pub open spec fn all_cells(c: GlyphCode) -> Seq<GlyphCode> {
    Seq::new(LCD_CELLS as nat, |i: int| c)
}

pub struct LcdCell {
    cell: GlyphCode,
}

impl View for LcdCell {
    type V = GlyphCode;

    closed spec fn view(&self) -> GlyphCode {
        self.cell
    }
}

impl LcdCell {
    pub fn get(&self) -> (r: GlyphCode)
        ensures
            r == self@,
    {
        self.cell
    }

    pub fn set(&mut self, c: GlyphCode)
        ensures
            final(self)@ == c,
    {
        self.cell = c;
    }
}

pub open spec fn cell_codes(cells: Seq<LcdCell>) -> Seq<GlyphCode> {
    cells.map_values(|c: LcdCell| c@)
}

/// Fills a cell vector with `c`.
fn filled_cells(c: GlyphCode) -> (r: Vec<LcdCell>)
    ensures
        r@.len() == LCD_CELLS,
        cell_codes(r@) == all_cells(c),
{
    let mut cells: Vec<LcdCell> = Vec::new();
    for i in 0..LCD_CELLS
        invariant
            cells@.len() == i,
            forall|k: int| 0 <= k < i ==> (#[trigger] cells@[k])@ == c,
    {
        cells.push(LcdCell { cell: c });
    }
    assert(cell_codes(cells@) =~= all_cells(c));
    cells
}

/// Cell `i` of `cells` set to `c`.
fn set_cell(cells: &mut Vec<LcdCell>, i: usize, c: GlyphCode)
    requires
        i < old(cells)@.len(),
    ensures
        final(cells)@.len() == old(cells)@.len(),
        cell_codes(final(cells)@) == cell_codes(old(cells)@).update(i as int, c),
    no_unwind
{
    let ghost before = cells@;
    cells[i] = LcdCell { cell: c };
    assert(cell_codes(cells@) =~= cell_codes(before).update(i as int, c));
}

/// The screen being composed: windows write into it, and `refresh` makes
/// the display show it.
pub struct LcdScreenNext {
    cells: Vec<LcdCell>,
}

impl View for LcdScreenNext {
    type V = Seq<GlyphCode>;

    closed spec fn view(&self) -> Seq<GlyphCode> {
        cell_codes(self.cells@)
    }
}

impl LcdScreenNext {
    #[verifier::type_invariant]
    closed spec fn inv(&self) -> bool {
        self.cells@.len() == LCD_CELLS
    }

    /// A screen of spaces.
    pub fn new() -> (r: Self)
        ensures
            r@ == all_cells(GlyphCode::Space),
    {
        Self { cells: filled_cells(GlyphCode::Space) }
    }

    fn index(&self, x: usize, y: usize) -> (r: usize)
        requires
            screen_index_fits(x as int, y as int),
        ensures
            r == screen_index(x as int, y as int),
            r < LCD_CELLS,
            r < self.cells@.len(),
    {
        proof {
            use_type_invariant(self);
            lemma_geometry();
        }
        ((y * LCD_GLYPHS_PER_ROW) + x) % self.cells.len()
    }

    /// Number of cells of the screen: always `LCD_CELLS`.
    pub fn cell_count(&self) -> (r: usize)
        ensures
            r == LCD_CELLS,
            self@.len() == LCD_CELLS,
    {
        proof {
            use_type_invariant(self);
        }
        self.cells.len()
    }

    pub fn get(&self, x: usize, y: usize) -> (r: GlyphCode)
        requires
            screen_index_fits(x as int, y as int),
        ensures
            self@.len() == LCD_CELLS,
            r == self@[screen_index(x as int, y as int)],
    {
        proof {
            use_type_invariant(self);
        }
        let i = self.index(x, y);
        self.cells[i].get()
    }

    pub fn set(&mut self, x: usize, y: usize, c: GlyphCode)
        requires
            screen_index_fits(x as int, y as int),
        ensures
            old(self)@.len() == LCD_CELLS,
            final(self)@.len() == LCD_CELLS,
            final(self)@ == old(self)@.update(screen_index(x as int, y as int), c),
    {
        proof {
            use_type_invariant(&*self);
        }
        let i = self.index(x, y);
        set_cell(&mut self.cells, i, c);
    }

    /// Fills the screen with spaces.
    pub fn clear(&mut self)
        ensures
            old(self)@.len() == LCD_CELLS,
            final(self)@ == all_cells(GlyphCode::Space),
    {
        proof {
            use_type_invariant(&*self);
        }
        for i in 0..LCD_CELLS
            invariant
                self.cells@.len() == LCD_CELLS,
                forall|k: int| 0 <= k < i ==> (#[trigger] cell_codes(self.cells@)[k]) == GlyphCode::Space,
        {
            set_cell(&mut self.cells, i, GlyphCode::Space);
        }
        assert(cell_codes(self.cells@) =~= all_cells(GlyphCode::Space));
    }
}

/// Framebuffer offset of the first byte of the glyph of cell `(x, y)`: a
/// cell row spans `GLYPH_SIZE` framebuffer rows of `LCD_FRAMEBUFFER_ROW_BYTES`
/// (1080 bytes), a cell `GLYPH_DATA_ROW_BYTES` (6 bytes).
pub open spec fn glyph_base(x: int, y: int) -> int {
    y * 1080 + x * 6
}

/// The glyph of cell `(x, y)` lies within the framebuffer.
pub open spec fn glyph_fits(x: int, y: int) -> bool {
    glyph_base(x, y) + (GLYPH_SIZE - 1) * LCD_FRAMEBUFFER_ROW_BYTES + GLYPH_DATA_ROW_BYTES
        <= LCD_FRAMEBUFFER_SIZE
}

/// Glyph row of framebuffer byte `p` of a glyph drawn from offset `base`.
pub open spec fn glyph_row_of(base: int, p: int) -> int {
    (p - base) / (LCD_FRAMEBUFFER_ROW_BYTES as int)
}

/// Byte within its glyph row of framebuffer byte `p` of a glyph drawn from
/// offset `base`.
pub open spec fn glyph_byte_of(base: int, p: int) -> int {
    (p - base) % (LCD_FRAMEBUFFER_ROW_BYTES as int)
}

/// Framebuffer byte `p` is one of the bytes of a glyph drawn from `base`.
pub open spec fn glyph_covers(base: int, p: int) -> bool {
    &&& base <= p
    &&& glyph_row_of(base, p) < GLYPH_SIZE
    &&& glyph_byte_of(base, p) < GLYPH_DATA_ROW_BYTES
}

/// `after` is `before` with `glyph` drawn from offset `base`.
pub open spec fn glyph_drawn(before: Seq<u8>, after: Seq<u8>, glyph: GlyphData, base: int) -> bool {
    &&& after.len() == before.len()
    &&& forall|p: int|
        0 <= p < before.len() ==> #[trigger] after[p] == if glyph_covers(base, p) {
            glyph[glyph_row_of(base, p)][glyph_byte_of(base, p)]
        } else {
            before[p]
        }
}

proof fn lemma_split_offset(r: int, k: int)
    requires
        0 <= r,
        0 <= k < 60,
    ensures
        (60 * r + k) / 60 == r,
        (60 * r + k) % 60 == k,
{
    assert((60 * r + k) / 60 == r && (60 * r + k) % 60 == k) by (nonlinear_arith)
        requires
            0 <= r,
            0 <= k < 60,
    ;
}

/// Cell index of the glyph cell that framebuffer byte `p` belongs to.
pub open spec fn cell_of_byte(p: int) -> int {
    (p / 1080) * LCD_GLYPHS_PER_ROW + (p % 60) / 6
}

/// Glyph row of framebuffer byte `p` within its cell.
pub open spec fn row_of_byte(p: int) -> int {
    (p % 1080) / 60
}

/// Byte of framebuffer byte `p` within its glyph row.
pub open spec fn byte_of_byte(p: int) -> int {
    p % 6
}

/// The framebuffer bytes that glyph cells cover: all but the last two pixel
/// rows.
pub open spec fn in_cells(p: int) -> bool {
    0 <= p < LCD_CELLS * 108
}

/// `after` is the framebuffer `before` once the display went from showing
/// the cells `shown` to showing `next`: the bytes of each cell that changed
/// hold the new glyph, every other byte is unchanged.
pub open spec fn refreshed(
    before: Seq<u8>,
    after: Seq<u8>,
    shown: Seq<GlyphCode>,
    next: Seq<GlyphCode>,
    glyphs: Seq<GlyphData>,
) -> bool {
    &&& after.len() == before.len()
    &&& forall|p: int|
        0 <= p < before.len() ==> #[trigger] after[p] == if in_cells(p) && shown[cell_of_byte(p)]
            != next[cell_of_byte(p)] {
            glyphs[next[cell_of_byte(p)].code_index() as int][row_of_byte(p)][byte_of_byte(p)]
        } else {
            before[p]
        }
}

/// The framebuffer `fb` shows the cells `cells`: every byte that a glyph
/// cell covers holds the byte of that cell's glyph.
pub open spec fn framebuffer_shows(fb: Seq<u8>, cells: Seq<GlyphCode>, glyphs: Seq<GlyphData>) -> bool {
    forall|p: int|
        0 <= p < fb.len() && in_cells(p) ==> #[trigger] fb[p]
            == glyphs[cells[cell_of_byte(p)].code_index() as int][row_of_byte(p)][byte_of_byte(p)]
}

/// A framebuffer that shows the cells the display shows, shows the next
/// screen once the display is refreshed to it.
pub proof fn lemma_refresh_shows_next(
    before: Seq<u8>,
    after: Seq<u8>,
    shown: Seq<GlyphCode>,
    next: Seq<GlyphCode>,
    glyphs: Seq<GlyphData>,
)
    requires
        framebuffer_shows(before, shown, glyphs),
        refreshed(before, after, shown, next, glyphs),
    ensures
        framebuffer_shows(after, next, glyphs),
{
    assert forall|p: int| 0 <= p < after.len() && in_cells(p) implies #[trigger] after[p]
        == glyphs[next[cell_of_byte(p)].code_index() as int][row_of_byte(p)][byte_of_byte(p)] by {
        assert(before[p] == glyphs[shown[cell_of_byte(p)].code_index() as int][row_of_byte(p)][byte_of_byte(p)]);
    }
}

/// Refreshing the display to the cells it already shows leaves the
/// framebuffer as it is.
pub proof fn lemma_refresh_same_screen(
    before: Seq<u8>,
    after: Seq<u8>,
    shown: Seq<GlyphCode>,
    glyphs: Seq<GlyphData>,
)
    requires
        refreshed(before, after, shown, shown, glyphs),
    ensures
        after == before,
{
    assert(after =~= before);
}

proof fn lemma_cell_geometry(x: int, y: int, p: int)
    requires
        0 <= x < 10,
        0 <= y < 7,
        0 <= p < 7680,
    ensures
        glyph_covers(glyph_base(x, y), p) <==> (in_cells(p) && cell_of_byte(p) == y * 10 + x),
        glyph_covers(glyph_base(x, y), p) ==> glyph_row_of(glyph_base(x, y), p) == row_of_byte(p)
            && glyph_byte_of(glyph_base(x, y), p) == byte_of_byte(p),
{
    lemma_geometry();
    let b = 1080 * y + 6 * x;
    assert(glyph_base(x, y) == b);
    // p = 1080 q + 60 r + 6 a + k
    let q = p / 1080;
    let m = p % 1080;
    lemma_fundamental_div_mod(p, 1080);
    let r = m / 60;
    let n = m % 60;
    lemma_fundamental_div_mod(m, 60);
    let a = n / 6;
    let k = n % 6;
    lemma_fundamental_div_mod(n, 6);
    assert(p == (18 * q + r) * 60 + n);
    lemma_fundamental_div_mod_converse(p, 60, 18 * q + r, n);
    assert(p == (180 * q + 10 * r + a) * 6 + k);
    lemma_fundamental_div_mod_converse(p, 6, 180 * q + 10 * r + a, k);
    assert(cell_of_byte(p) == 10 * q + a);
    assert(row_of_byte(p) == r);
    assert(byte_of_byte(p) == k);
    if in_cells(p) && cell_of_byte(p) == y * 10 + x {
        assert(q == y && a == x);
        assert(p - b == r * 60 + k);
        lemma_fundamental_div_mod_converse(p - b, 60, r, k);
    }
    if glyph_covers(b, p) {
        let rr = (p - b) / 60;
        let kk = (p - b) % 60;
        lemma_fundamental_div_mod(p - b, 60);
        assert(p == y * 1080 + (60 * rr + 6 * x + kk));
        lemma_fundamental_div_mod_converse(p, 1080, y, 60 * rr + 6 * x + kk);
        lemma_fundamental_div_mod_converse(m, 60, rr, 6 * x + kk);
        lemma_fundamental_div_mod_converse(n, 6, x, kk);
    }
}

/// The screen the display shows.
pub struct LcdScreenCurrent<TOP: LcdTopSideProvider + 'static> {
    font: &'static Font<TOP>,
    cells: Vec<LcdCell>,
}

impl<TOP: LcdTopSideProvider + 'static> View for LcdScreenCurrent<TOP> {
    type V = Seq<GlyphCode>;

    closed spec fn view(&self) -> Seq<GlyphCode> {
        cell_codes(self.cells@)
    }
}

impl<TOP: LcdTopSideProvider + 'static> LcdScreenCurrent<TOP> {
    #[verifier::type_invariant]
    closed spec fn inv(&self) -> bool {
        self.cells@.len() == LCD_CELLS
    }

    /// The glyphs of the font the screen draws with.
    pub closed spec fn glyphs(&self) -> Seq<GlyphData> {
        self.font@
    }

    /// A screen that believes every cell shows the full block, so that the
    /// first refresh draws every cell.
    pub fn new(font: &'static Font<TOP>) -> (r: Self)
        ensures
            r@ == all_cells(GlyphCode::Full),
            r.glyphs() == font@,
    {
        Self { font, cells: filled_cells(GlyphCode::Full) }
    }

    fn index(&self, x: usize, y: usize) -> (r: usize)
        requires
            screen_index_fits(x as int, y as int),
        ensures
            r == screen_index(x as int, y as int),
            r < LCD_CELLS,
            r < self.cells@.len(),
    {
        proof {
            use_type_invariant(self);
            lemma_geometry();
        }
        ((y * LCD_GLYPHS_PER_ROW) + x) % self.cells.len()
    }

    /// Number of cells of the screen: always `LCD_CELLS`.
    pub fn cell_count(&self) -> (r: usize)
        ensures
            r == LCD_CELLS,
            self@.len() == LCD_CELLS,
    {
        proof {
            use_type_invariant(self);
        }
        self.cells.len()
    }

    pub fn get(&self, x: usize, y: usize) -> (r: GlyphCode)
        requires
            screen_index_fits(x as int, y as int),
        ensures
            self@.len() == LCD_CELLS,
            r == self@[screen_index(x as int, y as int)],
    {
        proof {
            use_type_invariant(self);
        }
        let i = self.index(x, y);
        self.cells[i].get()
    }

    pub fn set(&mut self, x: usize, y: usize, c: GlyphCode)
        requires
            screen_index_fits(x as int, y as int),
        ensures
            old(self)@.len() == LCD_CELLS,
            final(self)@.len() == LCD_CELLS,
            final(self)@ == old(self)@.update(screen_index(x as int, y as int), c),
            final(self).glyphs() == old(self).glyphs(),
    {
        proof {
            use_type_invariant(&*self);
        }
        let i = self.index(x, y);
        set_cell(&mut self.cells, i, c);
    }

    /// Draws the glyph of `c` into cell `(x, y)` of the framebuffer.
    pub fn draw_glyph(&self, fb: &mut Framebuffer, c: GlyphCode, x: usize, y: usize)
        requires
            c != GlyphCode::Count,
            glyph_fits(x as int, y as int),
        ensures
            glyph_drawn(old(fb)@, final(fb)@, self.glyphs()[c.code_index() as int], glyph_base(x as int, y as int)),
    {
        proof {
            lemma_geometry();
        }
        let glyph = self.font.glyph_data(c);
        let ghost start = glyph_base(x as int, y as int);
        let ghost before = fb@;
        assert(y * 60 * 18 == y * 1080 && y * 1080 + x * 6 <= 7680);
        let mut base = (y * LCD_FRAMEBUFFER_ROW_BYTES * GLYPH_SIZE) + (x * GLYPH_DATA_ROW_BYTES);
        for r in 0..GLYPH_SIZE
            invariant
                start == glyph_base(x as int, y as int),
                glyph_fits(x as int, y as int),
                base == start + 60 * r,
                fb@.len() == before.len(),
                forall|p: int|
                    0 <= p < before.len() ==> #[trigger] fb@[p] == if glyph_covers(start, p)
                        && glyph_row_of(start, p) < r {
                        glyph[glyph_row_of(start, p)][glyph_byte_of(start, p)]
                    } else {
                        before[p]
                    },
        {
            let row = &glyph[r];
            for k in 0..GLYPH_DATA_ROW_BYTES
                invariant
                    start == glyph_base(x as int, y as int),
                    glyph_fits(x as int, y as int),
                    r < GLYPH_SIZE,
                    base == start + 60 * r,
                    *row == glyph[r as int],
                    fb@.len() == before.len(),
                    forall|p: int|
                        0 <= p < before.len() ==> #[trigger] fb@[p] == if glyph_covers(start, p) && (
                        glyph_row_of(start, p) < r || (glyph_row_of(start, p) == r
                            && glyph_byte_of(start, p) < k)) {
                            glyph[glyph_row_of(start, p)][glyph_byte_of(start, p)]
                        } else {
                            before[p]
                        },
            {
                proof {
                    lemma_split_offset(r as int, k as int);
                }
                let ghost prev = fb@;
                fb[base + k] = row[k];
                proof {
                    let p0 = base + k;
                    assert(glyph_row_of(start, p0) == r && glyph_byte_of(start, p0) == k);
                    assert forall|p: int| 0 <= p < before.len() implies #[trigger] fb@[p] == if glyph_covers(start, p) && (
                        glyph_row_of(start, p) < r || (glyph_row_of(start, p) == r
                            && glyph_byte_of(start, p) < k + 1)) {
                            glyph[glyph_row_of(start, p)][glyph_byte_of(start, p)]
                        } else {
                            before[p]
                        } by {
                        if p != p0 {
                            assert(fb@[p] == prev[p]);
                            if glyph_covers(start, p) && glyph_row_of(start, p) == r && glyph_byte_of(start, p) == k {
                                assert(p - start == 60 * glyph_row_of(start, p) + glyph_byte_of(start, p));
                            }
                        }
                    }
                }
            }
            base += LCD_FRAMEBUFFER_ROW_BYTES;
        }
    }

    /// Makes cell `(x, y)` show `next`, drawing it only when it changes.
    pub fn apply(&mut self, fb: &mut Framebuffer, x: usize, y: usize, next: GlyphCode)
        requires
            screen_index_fits(x as int, y as int),
            old(self)@[screen_index(x as int, y as int)] != next ==> next != GlyphCode::Count
                && glyph_fits(x as int, y as int),
        ensures
            old(self)@.len() == LCD_CELLS,
            final(self)@.len() == LCD_CELLS,
            final(self)@ == old(self)@.update(screen_index(x as int, y as int), next),
            final(self).glyphs() == old(self).glyphs(),
            if old(self)@[screen_index(x as int, y as int)] != next {
                glyph_drawn(
                    old(fb)@,
                    final(fb)@,
                    old(self).glyphs()[next.code_index() as int],
                    glyph_base(x as int, y as int),
                )
            } else {
                final(fb)@ == old(fb)@
            },
    {
        proof {
            use_type_invariant(&*self);
            lemma_geometry();
        }
        let current = self.get(x, y);
        if current != next {
            self.set(x, y, next);
            self.draw_glyph(fb, next, x, y);
        } else {
            proof {
                assert(old(self)@.update(screen_index(x as int, y as int), next) =~= old(self)@);
            }
        }
    }

    /// Makes the display show `next`, drawing only the cells that change.
    pub fn refresh(&mut self, next: &LcdScreenNext, fb: &mut Framebuffer)
        requires
            forall|i: int|
                0 <= i < LCD_CELLS && #[trigger] old(self)@[i] != next@[i] ==> next@[i] != GlyphCode::Count,
        ensures
            old(self)@.len() == LCD_CELLS,
            next@.len() == LCD_CELLS,
            final(self)@ == next@,
            final(self).glyphs() == old(self).glyphs(),
            refreshed(old(fb)@, final(fb)@, old(self)@, next@, old(self).glyphs()),
    {
        proof {
            lemma_geometry();
            use_type_invariant(&*self);
            use_type_invariant(next);
        }
        let ghost shown = self@;
        let ghost before = fb@;
        let ghost glyphs = self.glyphs();
        for y in 0..LCD_GLYPHS_PER_COLUMN
            invariant
                LCD_GLYPHS_PER_ROW == 10,
                LCD_GLYPHS_PER_COLUMN == 7,
                LCD_CELLS == 70,
                shown.len() == LCD_CELLS,
                next@.len() == LCD_CELLS,
                self.glyphs() == glyphs,
                forall|i: int|
                    0 <= i < LCD_CELLS && #[trigger] shown[i] != next@[i] ==> next@[i] != GlyphCode::Count,
                self@.len() == LCD_CELLS,
                forall|i: int| 0 <= i < LCD_CELLS ==> #[trigger] self@[i] == if i < y * 10 { next@[i] } else { shown[i] },
                fb@.len() == before.len(),
                forall|p: int|
                    0 <= p < before.len() ==> #[trigger] fb@[p] == if in_cells(p) && cell_of_byte(p) < y * 10
                        && shown[cell_of_byte(p)] != next@[cell_of_byte(p)] {
                        glyphs[next@[cell_of_byte(p)].code_index() as int][row_of_byte(p)][byte_of_byte(p)]
                    } else {
                        before[p]
                    },
        {
            for x in 0..LCD_GLYPHS_PER_ROW
                invariant
                    LCD_GLYPHS_PER_ROW == 10,
                    LCD_GLYPHS_PER_COLUMN == 7,
                    LCD_CELLS == 70,
                    y < LCD_GLYPHS_PER_COLUMN,
                    shown.len() == LCD_CELLS,
                    next@.len() == LCD_CELLS,
                    self.glyphs() == glyphs,
                    forall|i: int|
                        0 <= i < LCD_CELLS && #[trigger] shown[i] != next@[i] ==> next@[i] != GlyphCode::Count,
                    self@.len() == LCD_CELLS,
                    forall|i: int| 0 <= i < LCD_CELLS ==> #[trigger] self@[i] == if i < y * 10 + x { next@[i] } else { shown[i] },
                    fb@.len() == before.len(),
                    forall|p: int|
                        0 <= p < before.len() ==> #[trigger] fb@[p] == if in_cells(p) && cell_of_byte(p) < y * 10 + x
                            && shown[cell_of_byte(p)] != next@[cell_of_byte(p)] {
                            glyphs[next@[cell_of_byte(p)].code_index() as int][row_of_byte(p)][byte_of_byte(p)]
                        } else {
                            before[p]
                        },
            {
                let ghost i = y * 10 + x;
                assert(screen_index(x as int, y as int) == i);
                let c = next.get(x, y);
                let ghost prev_fb = fb@;
                let ghost prev_cells = self@;
                assert(prev_cells[i] == shown[i]);
                self.apply(fb, x, y, c);
                proof {
                    assert forall|j: int| 0 <= j < LCD_CELLS implies #[trigger] self@[j] == if j < i + 1 { next@[j] } else { shown[j] } by {
                        if j != i {
                            assert(self@[j] == prev_cells[j]);
                        }
                    }
                    assert forall|p: int| 0 <= p < before.len() implies #[trigger] fb@[p] == if in_cells(p) && cell_of_byte(p) < i + 1
                            && shown[cell_of_byte(p)] != next@[cell_of_byte(p)] {
                            glyphs[next@[cell_of_byte(p)].code_index() as int][row_of_byte(p)][byte_of_byte(p)]
                        } else {
                            before[p]
                        } by {
                        lemma_cell_geometry(x as int, y as int, p);
                        assert(prev_fb[p] == if in_cells(p) && cell_of_byte(p) < i
                            && shown[cell_of_byte(p)] != next@[cell_of_byte(p)] {
                            glyphs[next@[cell_of_byte(p)].code_index() as int][row_of_byte(p)][byte_of_byte(p)]
                        } else {
                            before[p]
                        });
                    }
                }
            }
        }
        proof {
            assert(self@ =~= next@);
        }
    }

}

} // verus!
