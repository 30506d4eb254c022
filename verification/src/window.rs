//! Square text windows on the screen: their coordinates turn with the brick,
//! and text, numbers and bars are written into them cell by cell.
use vstd::prelude::*;
use core::marker::PhantomData;
use crate::glyph::{LcdTopSide, GLYPH_SIZE};
use crate::glyph_code::{byte_to_glyph_code, glyph_digit, glyph_for_byte, glyph_for_digit, GlyphCode};
use crate::layout::{lemma_geometry, layout_fits, LcdLayout, LcdTopSideProvider, WindowId, WindowIdProvider, LCD_CELLS, LCD_GLYPHS_PER_ROW};
use vstd::arithmetic::power::{pow, lemma_pow0, lemma_pow1, lemma_pow_adds, lemma_pow_positive};
use vstd::arithmetic::div_mod::lemma_div_denominator;
use vstd::arithmetic::div_mod::{lemma_fundamental_div_mod, lemma_fundamental_div_mod_converse};
use vstd::string::StringSliceAdditionalSpecFns;
use crate::screen::{screen_index, screen_index_fits, LcdScreenNext};
use crate::glyph_table::{
    lemma_bar_down_glyphs, lemma_bar_left_glyphs, lemma_bar_right_glyphs, lemma_bar_up_glyphs, lemma_space_unlit,
    lit_from_bottom, lit_from_left, lit_from_right, lit_from_top,
};

verus! {

/// One write into a window: column, row, glyph.
pub type WindowWrite = (int, int, GlyphCode);

/// Window cell `(x, y)` in the unturned coordinates of a window of `size`
/// cells when `top` is the top side of the screen.
pub open spec fn window_local(top: LcdTopSide, size: int, x: int, y: int) -> (int, int) {
    match top {
        LcdTopSide::Up => (x, y),
        LcdTopSide::Down => (size - 1 - x, size - 1 - y),
        LcdTopSide::Left => (y, size - 1 - x),
        LcdTopSide::Right => (size - 1 - y, x),
    }
}

/// The screen cell that cell `(x, y)` of window `id` shows up in.
pub open spec fn window_to_screen(l: LcdLayout, id: WindowId, x: int, y: int) -> (int, int) {
    let p = l.placement(id);
    let local = window_local(l.top_side, p.size as int, x, y);
    (p.x + local.0, p.y + local.1)
}

/// Turning window cell `(x, y)` into screen coordinates neither underflows
/// nor overflows.
pub open spec fn window_transform_ok(l: LcdLayout, id: WindowId, x: int, y: int) -> bool {
    let p = l.placement(id);
    let s = window_to_screen(l, id, x, y);
    &&& 0 <= x <= usize::MAX
    &&& 0 <= y <= usize::MAX
    &&& match l.top_side {
        LcdTopSide::Up => true,
        LcdTopSide::Down => x < p.size && y < p.size,
        LcdTopSide::Left => x < p.size,
        LcdTopSide::Right => y < p.size,
    }
    &&& s.0 <= usize::MAX
    &&& s.1 <= usize::MAX
}

/// Writing window cell `(x, y)` is defined: the cell turns into screen
/// coordinates and their screen index is computed without overflow.
pub open spec fn window_cell_ok(l: LcdLayout, id: WindowId, x: int, y: int) -> bool {
    let s = window_to_screen(l, id, x, y);
    &&& window_transform_ok(l, id, x, y)
    &&& screen_index_fits(s.0, s.1)
}

/// The screen after writing `c` into cell `(x, y)` of window `id`.
pub open spec fn window_write(
    screen: Seq<GlyphCode>,
    l: LcdLayout,
    id: WindowId,
    x: int,
    y: int,
    c: GlyphCode,
) -> Seq<GlyphCode> {
    let s = window_to_screen(l, id, x, y);
    screen.update(screen_index(s.0, s.1), c)
}

/// The screen after the writes `w` into window `id`, in order.
pub open spec fn window_writes(screen: Seq<GlyphCode>, l: LcdLayout, id: WindowId, w: Seq<WindowWrite>) -> Seq<
    GlyphCode,
>
    decreases w.len(),
{
    if w.len() == 0 {
        screen
    } else {
        let last = w.last();
        window_write(window_writes(screen, l, id, w.drop_last()), l, id, last.0, last.1, last.2)
    }
}

/// Writes into a window keep the length of a whole screen.
pub broadcast proof fn lemma_window_writes_len(screen: Seq<GlyphCode>, l: LcdLayout, id: WindowId, w: Seq<WindowWrite>)
    requires
        screen.len() == LCD_CELLS,
    ensures
        #[trigger] window_writes(screen, l, id, w).len() == screen.len(),
    decreases w.len(),
{
    if w.len() > 0 {
        lemma_geometry();
        lemma_window_writes_len(screen, l, id, w.drop_last());
    }
}

/// Every write of `w` is defined.
pub open spec fn writes_ok(l: LcdLayout, id: WindowId, w: Seq<WindowWrite>) -> bool {
    forall|i: int| 0 <= i < w.len() ==> window_cell_ok(l, id, #[trigger] w[i].0, w[i].1)
}

proof fn lemma_writes_step(screen: Seq<GlyphCode>, l: LcdLayout, id: WindowId, w: Seq<WindowWrite>, k: int)
    requires
        0 <= k < w.len(),
    ensures
        window_writes(screen, l, id, w.take(k + 1)) == window_write(
            window_writes(screen, l, id, w.take(k)),
            l,
            id,
            w[k].0,
            w[k].1,
            w[k].2,
        ),
{
    assert(w.take(k + 1).drop_last() =~= w.take(k));
}

proof fn lemma_writes_all(screen: Seq<GlyphCode>, l: LcdLayout, id: WindowId, w: Seq<WindowWrite>)
    ensures
        window_writes(screen, l, id, w.take(w.len() as int)) == window_writes(screen, l, id, w),
{
    assert(w.take(w.len() as int) =~= w);
}

/// How many bytes of a text of `len` bytes a print that starts on line
/// `start` of a window of `size` lines writes: it stops at the end of the
/// text, or when it moves past the last line of the window (at the end of
/// its first line if it started past the last line).
pub open spec fn text_run_len(size: int, start: int, len: int) -> int {
    let room = if start < size {
        (size - start) * size
    } else {
        size
    };
    if len < room {
        len
    } else {
        room
    }
}

/// The writes of printing `bytes` line by line from the start of row `row`.
pub open spec fn print_row_writes(size: int, row: int, bytes: Seq<u8>) -> Seq<WindowWrite> {
    Seq::new(
        text_run_len(size, row, bytes.len() as int) as nat,
        |i: int| (i % size, row + i / size, glyph_for_byte(bytes[i])),
    )
}

/// The writes of printing `bytes` column by column from the top of column
/// `column`.
pub open spec fn print_column_writes(size: int, column: int, bytes: Seq<u8>) -> Seq<WindowWrite> {
    Seq::new(
        text_run_len(size, column, bytes.len() as int) as nat,
        |i: int| (column + i / size, i % size, glyph_for_byte(bytes[i])),
    )
}

proof fn lemma_cursor_step(size: int, i: int)
    requires
        size >= 1,
        i >= 0,
    ensures
        i % size + 1 < size ==> (i + 1) % size == i % size + 1 && (i + 1) / size == i / size,
        i % size + 1 >= size ==> (i + 1) % size == 0 && (i + 1) / size == i / size + 1,
        0 <= i % size < size,
        i / size >= 0,
{
    lemma_fundamental_div_mod(i, size);
    vstd::arithmetic::div_mod::lemma_mod_bound(i, size);
    if i % size + 1 < size {
        let q = i / size;
        assert(i + 1 == q * size + (i % size + 1)) by (nonlinear_arith)
            requires
                i == size * q + i % size,
        ;
        lemma_fundamental_div_mod_converse(i + 1, size, i / size, i % size + 1);
    } else {
        let q = i / size;
        assert(i + 1 == (q + 1) * size + 0) by (nonlinear_arith)
            requires
                i == size * q + i % size,
                i % size + 1 == size,
        ;
        lemma_fundamental_div_mod_converse(i + 1, size, i / size + 1, 0);
    }
    vstd::arithmetic::div_mod::lemma_div_pos_is_pos(i, size);
}

/// A run stops right after writing byte `i` exactly when that byte fills
/// the room the run has.
proof fn lemma_run_stop(size: int, start: int, i: int)
    requires
        size >= 1,
        start >= 0,
        0 <= i,
        i < (if start < size { (size - start) * size } else { size }),
    ensures
        ({
            let room = if start < size { (size - start) * size } else { size };
            &&& ((i + 1) % size == 0 && start + (i + 1) / size >= size) <==> i + 1 == room
            &&& i + 1 <= room
        }),
{
    lemma_fundamental_div_mod(i + 1, size);
    vstd::arithmetic::div_mod::lemma_mod_bound(i + 1, size);
    let q = (i + 1) / size;
    let m = (i + 1) % size;
    if start < size {
        let room = (size - start) * size;
        if m == 0 && start + q >= size {
            assert(q * size >= (size - start) * size) by (nonlinear_arith)
                requires
                    q >= size - start,
                    size >= 1,
            ;
            assert(size * q == q * size) by (nonlinear_arith);
        }
        if i + 1 == room {
            lemma_fundamental_div_mod_converse(i + 1, size, size - start, 0);
        }
    } else {
        if m == 0 {
            assert(q >= 1) by (nonlinear_arith)
                requires
                    i + 1 == size * q + m,
                    m == 0,
                    i >= 0,
                    size >= 1,
            ;
            assert(size * q >= size) by (nonlinear_arith)
                requires
                    q >= 1,
                    size >= 1,
            ;
        }
        if i + 1 == size {
            lemma_fundamental_div_mod_converse(i + 1, size, 1, 0);
        }
    }
}

/// `v` divided by 10 as Rust divides integers (rounding toward zero).
pub open spec fn div10(v: int) -> int {
    if v >= 0 {
        v / 10
    } else {
        -((-v) / 10)
    }
}

/// The remainder of `v` by 10 as Rust computes it (with the sign of `v`).
pub open spec fn rem10(v: int) -> int {
    if v >= 0 {
        v % 10
    } else {
        -((-v) % 10)
    }
}

/// `v` divided by 10, `i` times over, as Rust divides.
pub open spec fn drop_digits(v: int, i: nat) -> int
    decreases i,
{
    if i == 0 {
        v
    } else {
        div10(drop_digits(v, (i - 1) as nat))
    }
}

/// The glyph that shows digit `i` (counted from the right) of `value`:
/// positions past the value's leading digit show a space, except that a
/// zero shows its one digit.
pub open spec fn value_digit(value: int, i: int) -> GlyphCode {
    let v = drop_digits(value, i as nat);
    if v == 0 {
        if i == 0 {
            GlyphCode::D0
        } else {
            GlyphCode::Space
        }
    } else {
        glyph_for_digit(rem10(v))
    }
}

/// The writes of printing `value` right-aligned in `digits` cells of row
/// `row` starting at column `column`, rightmost digit first.
pub open spec fn print_value_writes(row: int, column: int, digits: int, value: int) -> Seq<WindowWrite> {
    Seq::new(digits as nat, |i: int| (column + digits - 1 - i, row, value_digit(value, i)))
}

/// The sign glyph `print_value_signed` writes before the digits.
pub open spec fn sign_glyph(value: int) -> GlyphCode {
    if value > 0 {
        GlyphCode::Plus
    } else if value < 0 {
        GlyphCode::Minus
    } else {
        GlyphCode::Space
    }
}

pub open spec fn abs_value(value: int) -> int {
    if value < 0 {
        -value
    } else {
        value
    }
}

/// `value` limited to `-limit..=limit` as a bar clamps it.
pub open spec fn clamp_bar(value: int, limit: int) -> int {
    let upper = if value < limit {
        value
    } else {
        limit
    };
    if upper > -limit {
        upper
    } else {
        -limit
    }
}

/// A bar of `value` out of `limit` over `size` glyphs, in eighteenths of a
/// glyph.
pub open spec fn bar_steps(value: i32, limit: i32, size: usize) -> int {
    ((value as usize) * (size * GLYPH_SIZE)) as int / ((limit as usize) as int)
}

/// Full glyphs, empty glyphs after the partial one, and the steps of the
/// partial glyph of a bar.
pub open spec fn bar_params(value: i32, limit: i32, size: usize) -> (int, int, int) {
    let steps = bar_steps(value, limit, size);
    let full = steps / 18;
    (full, if full + 1 < size { size - (full + 1) } else { 0 }, steps % 18)
}

/// The writes of a bar that grows along row `row` from the start of the
/// row: full glyphs, the partial glyph, then empty glyphs.
pub open spec fn bar_forward_writes(
    size: int,
    full: int,
    empty: int,
    line: int,
    along_row: bool,
    full_glyph: GlyphCode,
    partial: GlyphCode,
    empty_glyph: GlyphCode,
) -> Seq<WindowWrite> {
    let at = |k: int, c: GlyphCode| if along_row { (k, line, c) } else { (line, k, c) };
    Seq::new(full as nat, |i: int| at(i, full_glyph)) + (if full < size {
        seq![at(full, partial)]
    } else {
        Seq::empty()
    }) + (if full + 1 < size {
        Seq::new(empty as nat, |j: int| at(full + 1 + j, empty_glyph))
    } else {
        Seq::empty()
    })
}

/// The writes of a bar that grows along `line` from its end: full glyphs,
/// the partial glyph, then empty glyphs.
pub open spec fn bar_backward_writes(
    size: int,
    full: int,
    empty: int,
    line: int,
    along_row: bool,
    full_glyph: GlyphCode,
    partial: GlyphCode,
    empty_glyph: GlyphCode,
) -> Seq<WindowWrite> {
    let at = |k: int, c: GlyphCode| if along_row { (k, line, c) } else { (line, k, c) };
    Seq::new(full as nat, |i: int| at(size - 1 - i, full_glyph)) + (if size - 1 - full >= 0 {
        seq![at(size - 1 - full, partial)]
    } else {
        Seq::empty()
    }) + (if size - 2 - full >= 0 {
        Seq::new(empty as nat, |j: int| at(size - 2 - full - j, empty_glyph))
    } else {
        Seq::empty()
    })
}

/// The writes of a bar of zero: every cell of the line gets `c`.
pub open spec fn bar_blank_writes(size: int, line: int, along_row: bool, c: GlyphCode) -> Seq<WindowWrite> {
    Seq::new(size as nat, |k: int| if along_row { (k, line, c) } else { (line, k, c) })
}

/// All the writes of a bar of `value` out of `limit` along line `line` of a
/// window of `size` cells: along a row (`horizontal`) or along a column.
pub open spec fn bar_writes(size: usize, line: int, value: i32, limit: i32, horizontal: bool) -> Seq<WindowWrite> {
    let v = clamp_bar(value as int, limit as int);
    if v > 0 {
        let (full, empty, rem) = bar_params(v as i32, limit, size);
        if horizontal {
            bar_forward_writes(size as int, full, empty, line, true, GlyphCode::BarLeft18,
                GlyphCode::from_index((88 + rem) as usize), GlyphCode::BarLeft0)
        } else {
            bar_backward_writes(size as int, full, empty, line, false, GlyphCode::BarUp18,
                GlyphCode::from_index((50 + rem) as usize), GlyphCode::BarUp0)
        }
    } else if v < 0 {
        let (full, empty, rem) = bar_params((-v) as i32, limit, size);
        if horizontal {
            bar_backward_writes(size as int, full, empty, line, true, GlyphCode::BarRight18,
                GlyphCode::from_index((107 + rem) as usize), GlyphCode::Space)
        } else {
            bar_forward_writes(size as int, full, empty, line, false, GlyphCode::BarDown18,
                GlyphCode::from_index((69 + rem) as usize), GlyphCode::BarDown0)
        }
    } else if horizontal {
        bar_blank_writes(size as int, line, true, GlyphCode::BarRight0)
    } else {
        bar_blank_writes(size as int, line, false, GlyphCode::Space)
    }
}

/// Drawing the bar neither overflows nor leaves the defined cells.
pub open spec fn bar_ok(l: LcdLayout, id: WindowId, line: int, value: i32, limit: i32, horizontal: bool) -> bool {
    let v = clamp_bar(value as int, limit as int);
    let size = l.placement(id).size;
    &&& limit != i32::MIN
    &&& v != 0 ==> (abs_value(v) as usize) * (size * GLYPH_SIZE) <= usize::MAX
    &&& writes_ok(l, id, bar_writes(size, line, value, limit, horizontal))
}

proof fn lemma_negative_as_usize(limit: i32)
    requires
        limit < 0,
        limit != i32::MIN,
    ensures
        (limit as usize) as int >= -(limit as int),
{
    assert((limit as usize) >= 0x8000_0000usize) by (bit_vector)
        requires
            limit < 0i32,
    ;
}

/// A bar never has more full glyphs than the window has cells when its
/// magnitude is at most its limit's.
proof fn lemma_bar_full_fits(value: i32, limit: i32, size: usize)
    requires
        value > 0,
        (value as usize) * (size * GLYPH_SIZE) <= usize::MAX,
        limit as usize != 0,
        (value as usize) as int <= (limit as usize) as int,
    ensures
        0 <= bar_params(value, limit, size).0 <= size,
        0 <= bar_params(value, limit, size).2 < 18,
{
    let u = (value as usize) as int;
    let m = (size * GLYPH_SIZE) as int;
    let d = (limit as usize) as int;
    assert((u * m) / d <= m) by (nonlinear_arith)
        requires
            0 < u <= d,
            0 <= m,
    ;
    assert(((u * m) / d) / 18 <= size) by (nonlinear_arith)
        requires
            (u * m) / d <= m,
            m == size * 18,
            0 <= u,
            0 < d,
            0 <= m,
    ;
    assert((u * m) / d >= 0) by (nonlinear_arith)
        requires
            0 <= u,
            0 < d,
            0 <= m,
    ;
}

/// Printing `bytes` into window `id` row by row from row `row` is defined.
pub open spec fn print_row_ok(l: LcdLayout, id: WindowId, row: int, bytes: Seq<u8>) -> bool {
    let size = l.placement(id).size as int;
    &&& writes_ok(l, id, print_row_writes(size, row, bytes))
    &&& row + text_run_len(size, row, bytes.len() as int) / size <= usize::MAX
}

/// Printing `bytes` into window `id` column by column from column `column`
/// is defined.
pub open spec fn print_column_ok(l: LcdLayout, id: WindowId, column: int, bytes: Seq<u8>) -> bool {
    let size = l.placement(id).size as int;
    &&& writes_ok(l, id, print_column_writes(size, column, bytes))
    &&& column + text_run_len(size, column, bytes.len() as int) / size <= usize::MAX
}

/// Printing a value into `digits` cells from `(column, row)` is defined.
pub open spec fn print_value_ok(l: LcdLayout, id: WindowId, row: int, column: int, digits: int, value: int) -> bool {
    &&& 1 <= column + digits <= usize::MAX
    &&& writes_ok(l, id, print_value_writes(row, column, digits, value))
}

/// Printing a signed value from `(column, row)` is defined.
pub open spec fn print_value_signed_ok(
    l: LcdLayout,
    id: WindowId,
    row: int,
    column: int,
    digits: int,
    value: int,
) -> bool {
    &&& i32::MIN < value
    &&& column + 1 + digits <= usize::MAX
    &&& window_cell_ok(l, id, column, row)
    &&& writes_ok(l, id, print_value_writes(row, column + 1, digits, abs_value(value)))
}

/// The screen after printing a signed value from `(column, row)`.
pub open spec fn print_value_signed_result(
    screen: Seq<GlyphCode>,
    l: LcdLayout,
    id: WindowId,
    row: int,
    column: int,
    digits: int,
    value: int,
) -> Seq<GlyphCode> {
    window_writes(
        window_write(screen, l, id, column, row, sign_glyph(value)),
        l,
        id,
        print_value_writes(row, column + 1, digits, abs_value(value)),
    )
}

/// How a bar splits into glyphs: full glyphs, empty glyphs after the
/// partial glyph, and the eighteenths of the partial glyph.
#[derive(Clone, Copy, PartialEq, Eq, Structural, Debug)]
pub struct BarParameters {
    pub full_blocks: usize,
    pub empty_blocks: usize,
    pub remainder: usize,
}

impl BarParameters {
    /// Splits a bar of `value` out of `limit`, `size` glyphs long, into full
    /// glyphs, a partial glyph and empty glyphs.
    pub fn new(value: i32, limit: i32, size: usize) -> (r: Self)
        requires
            size * GLYPH_SIZE <= usize::MAX,
            (value as usize) * (size * GLYPH_SIZE) <= usize::MAX,
            limit as usize != 0,
        ensures
            r.full_blocks == bar_params(value, limit, size).0,
            r.empty_blocks == bar_params(value, limit, size).1,
            r.remainder == bar_params(value, limit, size).2,
    {
        let max = size * GLYPH_SIZE;
        let value = (value as usize) * max / (limit as usize);
        let full_blocks = value / GLYPH_SIZE;
        let empty_blocks = if (full_blocks + 1) < size {
            size - (full_blocks + 1)
        } else {
            0
        };
        let remainder = value % GLYPH_SIZE;
        Self { full_blocks, empty_blocks, remainder }
    }
}

pub struct Window<ID: WindowIdProvider, TOP: LcdTopSideProvider> {
    id: PhantomData<ID>,
    top: PhantomData<TOP>,
}

impl<ID: WindowIdProvider, TOP: LcdTopSideProvider> Window<ID, TOP> {
    pub fn new() -> (r: Self) {
        Self { id: PhantomData, top: PhantomData }
    }

    /// Screen coordinates of window cell `(x, y)`.
    pub fn transform(&self, x: usize, y: usize) -> (r: (usize, usize))
        requires
            window_transform_ok(TOP::layout(), ID::window_id(), x as int, y as int),
        ensures
            r.0 == window_to_screen(TOP::layout(), ID::window_id(), x as int, y as int).0,
            r.1 == window_to_screen(TOP::layout(), ID::window_id(), x as int, y as int).1,
    {
        let size = ID::kind().size::<TOP>();
        let (lx, ly) = match TOP::top_side() {
            LcdTopSide::Up => (x, y),
            LcdTopSide::Down => (size - 1 - x, size - 1 - y),
            LcdTopSide::Left => (y, size - 1 - x),
            LcdTopSide::Right => (size - 1 - y, x),
        };
        (ID::kind().x::<TOP>() + lx, ID::kind().y::<TOP>() + ly)
    }

    pub fn set(&self, x: usize, y: usize, c: GlyphCode, screen: &mut LcdScreenNext)
        requires
            window_cell_ok(TOP::layout(), ID::window_id(), x as int, y as int),
        ensures
            old(screen)@.len() == LCD_CELLS,
            final(screen)@.len() == LCD_CELLS,
            final(screen)@ == window_write(old(screen)@, TOP::layout(), ID::window_id(), x as int, y as int, c),
    {
        screen.cell_count();
        proof {
            broadcast use lemma_window_writes_len;
        }
        let (x, y) = self.transform(x, y);
        screen.set(x, y, c);
    }

    /// Writes the glyph of character `c` (by its low byte) into cell `(x, y)`.
    pub fn print_char(&self, x: usize, y: usize, c: char, screen: &mut LcdScreenNext)
        requires
            window_cell_ok(TOP::layout(), ID::window_id(), x as int, y as int),
        ensures
            old(screen)@.len() == LCD_CELLS,
            final(screen)@.len() == LCD_CELLS,
            final(screen)@ == window_write(
                old(screen)@,
                TOP::layout(),
                ID::window_id(),
                x as int,
                y as int,
                glyph_for_byte(c as u8),
            ),
    {
        screen.cell_count();
        proof {
            broadcast use lemma_window_writes_len;
        }
        let (x, y) = self.transform(x, y);
        let c = byte_to_glyph_code(c as u8);
        screen.set(x, y, c);
    }

    /// Prints `text` row by row from the start of row `row`, one glyph per byte.
    pub fn print_row(&self, row: usize, text: &str, screen: &mut LcdScreenNext)
        requires
            writes_ok(
                TOP::layout(),
                ID::window_id(),
                print_row_writes(TOP::layout().placement(ID::window_id()).size as int, row as int, text.spec_bytes()),
            ),
            row + text_run_len(
                TOP::layout().placement(ID::window_id()).size as int,
                row as int,
                text.spec_bytes().len() as int,
            ) / (TOP::layout().placement(ID::window_id()).size as int) <= usize::MAX,
        ensures
            old(screen)@.len() == LCD_CELLS,
            final(screen)@.len() == LCD_CELLS,
            final(screen)@ == window_writes(
                old(screen)@,
                TOP::layout(),
                ID::window_id(),
                print_row_writes(TOP::layout().placement(ID::window_id()).size as int, row as int, text.spec_bytes()),
            ),
    {
        screen.cell_count();
        proof {
            broadcast use lemma_window_writes_len;
        }
        proof {
            TOP::lemma_layout_fits();
        }
        let ghost l = TOP::layout();
        let ghost id = ID::window_id();
        let size = ID::kind().size::<TOP>();
        let ghost w = print_row_writes(size as int, row as int, text.spec_bytes());
        let ghost n = text_run_len(size as int, row as int, text.spec_bytes().len() as int);
        let ghost room = if row < size { (size - row) * size } else { size as int };
        let bytes = text.as_bytes();
        let mut x: usize = 0;
        let mut y: usize = row;
        let mut i: usize = 0;
        proof {
            assert(room >= 1) by (nonlinear_arith)
                requires
                    size >= 1,
                    room == if row < size { (size - row) * size } else { size as int },
            ;
        }
        while i < bytes.len()
            invariant_except_break
                i < room,
                x == (i as int) % (size as int),
                y == row + (i as int) / (size as int),
            invariant
                l == TOP::layout(),
                id == ID::window_id(),
                size == l.placement(id).size,
                size >= 1,
                bytes@ == text.spec_bytes(),
                w == print_row_writes(size as int, row as int, bytes@),
                n == text_run_len(size as int, row as int, bytes@.len() as int),
                room == if row < size { (size - row) * size } else { size as int },
                n == if bytes@.len() < room { bytes@.len() as int } else { room },
                w.len() == n,
                writes_ok(l, id, w),
                row + n / (size as int) <= usize::MAX,
                i <= n,
                i <= bytes@.len(),
                screen@ == window_writes(old(screen)@, l, id, w.take(i as int)),
            ensures
                i == n,
            decreases bytes@.len() - i,
        {
            proof {
                lemma_cursor_step(size as int, i as int);
                lemma_run_stop(size as int, row as int, i as int);
                lemma_writes_step(old(screen)@, l, id, w, i as int);
                assert(w[i as int] == (x as int, y as int, glyph_for_byte(bytes@[i as int])));
            }
            let c = byte_to_glyph_code(bytes[i]);
            self.set(x, y, c, screen);
            i += 1;
            x += 1;
            if x >= size {
                proof {
                    vstd::arithmetic::div_mod::lemma_div_is_ordered(i as int, n, size as int);
                }
                x = 0;
                y += 1;
                if y >= size {
                    break;
                }
            }
        }
        proof {
            lemma_writes_all(old(screen)@, l, id, w);
        }
    }

    /// Prints `text` column by column from the top of column `column`, one glyph per byte.
    pub fn print_column(&self, column: usize, text: &str, screen: &mut LcdScreenNext)
        requires
            writes_ok(
                TOP::layout(),
                ID::window_id(),
                print_column_writes(TOP::layout().placement(ID::window_id()).size as int, column as int, text.spec_bytes()),
            ),
            column + text_run_len(
                TOP::layout().placement(ID::window_id()).size as int,
                column as int,
                text.spec_bytes().len() as int,
            ) / (TOP::layout().placement(ID::window_id()).size as int) <= usize::MAX,
        ensures
            old(screen)@.len() == LCD_CELLS,
            final(screen)@.len() == LCD_CELLS,
            final(screen)@ == window_writes(
                old(screen)@,
                TOP::layout(),
                ID::window_id(),
                print_column_writes(TOP::layout().placement(ID::window_id()).size as int, column as int, text.spec_bytes()),
            ),
    {
        screen.cell_count();
        proof {
            broadcast use lemma_window_writes_len;
        }
        proof {
            TOP::lemma_layout_fits();
        }
        let ghost l = TOP::layout();
        let ghost id = ID::window_id();
        let size = ID::kind().size::<TOP>();
        let ghost w = print_column_writes(size as int, column as int, text.spec_bytes());
        let ghost n = text_run_len(size as int, column as int, text.spec_bytes().len() as int);
        let ghost room = if column < size { (size - column) * size } else { size as int };
        let bytes = text.as_bytes();
        let mut y: usize = 0;
        let mut x: usize = column;
        let mut i: usize = 0;
        proof {
            assert(room >= 1) by (nonlinear_arith)
                requires
                    size >= 1,
                    room == if column < size { (size - column) * size } else { size as int },
            ;
        }
        while i < bytes.len()
            invariant_except_break
                i < room,
                y == (i as int) % (size as int),
                x == column + (i as int) / (size as int),
            invariant
                l == TOP::layout(),
                id == ID::window_id(),
                size == l.placement(id).size,
                size >= 1,
                bytes@ == text.spec_bytes(),
                w == print_column_writes(size as int, column as int, bytes@),
                n == text_run_len(size as int, column as int, bytes@.len() as int),
                room == if column < size { (size - column) * size } else { size as int },
                n == if bytes@.len() < room { bytes@.len() as int } else { room },
                w.len() == n,
                writes_ok(l, id, w),
                column + n / (size as int) <= usize::MAX,
                i <= n,
                i <= bytes@.len(),
                screen@ == window_writes(old(screen)@, l, id, w.take(i as int)),
            ensures
                i == n,
            decreases bytes@.len() - i,
        {
            proof {
                lemma_cursor_step(size as int, i as int);
                lemma_run_stop(size as int, column as int, i as int);
                lemma_writes_step(old(screen)@, l, id, w, i as int);
                assert(w[i as int] == (x as int, y as int, glyph_for_byte(bytes@[i as int])));
            }
            let c = byte_to_glyph_code(bytes[i]);
            self.set(x, y, c, screen);
            i += 1;
            y += 1;
            if y >= size {
                proof {
                    vstd::arithmetic::div_mod::lemma_div_is_ordered(i as int, n, size as int);
                }
                y = 0;
                x += 1;
                if x >= size {
                    break;
                }
            }
        }
        proof {
            lemma_writes_all(old(screen)@, l, id, w);
        }
    }


    /// Prints `value` right-aligned in the `digits` cells of row `row` that
    /// start at column `column`; a zero shows as `0`, leading zeros as spaces.
    pub fn print_value(&self, row: usize, column: usize, digits: usize, value: i32, screen: &mut LcdScreenNext)
        requires
            1 <= column + digits <= usize::MAX,
            writes_ok(TOP::layout(), ID::window_id(), print_value_writes(row as int, column as int, digits as int, value as int)),
        ensures
            old(screen)@.len() == LCD_CELLS,
            final(screen)@.len() == LCD_CELLS,
            final(screen)@ == window_writes(
                old(screen)@,
                TOP::layout(),
                ID::window_id(),
                print_value_writes(row as int, column as int, digits as int, value as int),
            ),
    {
        screen.cell_count();
        proof {
            broadcast use lemma_window_writes_len;
        }
        let ghost l = TOP::layout();
        let ghost id = ID::window_id();
        let ghost w = print_value_writes(row as int, column as int, digits as int, value as int);
        let ghost v0 = value as int;
        let last = column + digits - 1;
        let y = row;
        let mut value = value;
        let mut is_first = true;
        for i in 0..digits
            invariant
                l == TOP::layout(),
                id == ID::window_id(),
                last == column + digits - 1,
                y == row,
                w == print_value_writes(row as int, column as int, digits as int, v0),
                writes_ok(l, id, w),
                value as int == drop_digits(v0, i as nat),
                is_first == (i == 0),
                screen@ == window_writes(old(screen)@, l, id, w.take(i as int)),
        {
            let digit = value % 10;
            let c = if value == 0 {
                if is_first {
                    GlyphCode::D0
                } else {
                    GlyphCode::Space
                }
            } else {
                glyph_digit(digit)
            };
            proof {
                lemma_writes_step(old(screen)@, l, id, w, i as int);
                assert(w[i as int] == (last - i, y as int, value_digit(v0, i as int)));
            }
            self.set(last - i, y, c, screen);
            value = value / 10;
            is_first = false;
        }
        proof {
            lemma_writes_all(old(screen)@, l, id, w);
        }
    }

    /// Prints the sign of `value` at column `column` (`+`, `-`, or a space
    /// for zero) and its magnitude in the `digits` cells after it.
    pub fn print_value_signed(&self, row: usize, column: usize, digits: usize, value: i32, screen: &mut LcdScreenNext)
        requires
            value != i32::MIN,
            column + 1 + digits <= usize::MAX,
            window_cell_ok(TOP::layout(), ID::window_id(), column as int, row as int),
            writes_ok(
                TOP::layout(),
                ID::window_id(),
                print_value_writes(row as int, column + 1, digits as int, abs_value(value as int)),
            ),
        ensures
            old(screen)@.len() == LCD_CELLS,
            final(screen)@.len() == LCD_CELLS,
            final(screen)@ == window_writes(
                window_write(old(screen)@, TOP::layout(), ID::window_id(), column as int, row as int, sign_glyph(value as int)),
                TOP::layout(),
                ID::window_id(),
                print_value_writes(row as int, column + 1, digits as int, abs_value(value as int)),
            ),
    {
        screen.cell_count();
        proof {
            broadcast use lemma_window_writes_len;
        }
        let (c, abs_value) = if value > 0 {
            (GlyphCode::Plus, value)
        } else if value < 0 {
            (GlyphCode::Minus, -value)
        } else {
            (GlyphCode::Space, 0)
        };
        self.set(column, row, c, screen);
        self.print_value(row, column + 1, digits, abs_value, screen);
    }


    /// Cell `k` of `line`: along the row `line`, or down the column `line`.
    fn set_on_line(&self, along_row: bool, line: usize, k: usize, c: GlyphCode, screen: &mut LcdScreenNext)
        requires
            window_cell_ok(
                TOP::layout(),
                ID::window_id(),
                if along_row { k as int } else { line as int },
                if along_row { line as int } else { k as int },
            ),
        ensures
            final(screen)@ == window_write(
                old(screen)@,
                TOP::layout(),
                ID::window_id(),
                if along_row { k as int } else { line as int },
                if along_row { line as int } else { k as int },
                c,
            ),
    {
        if along_row {
            self.set(k, line, c, screen);
        } else {
            self.set(line, k, c, screen);
        }
    }

    /// Writes a bar that starts at the beginning of `line`.
    fn fill_forward(
        &self,
        along_row: bool,
        line: usize,
        full: usize,
        empty: usize,
        full_glyph: GlyphCode,
        partial: GlyphCode,
        empty_glyph: GlyphCode,
        screen: &mut LcdScreenNext,
    )
        requires
            empty == (if full + 1 < TOP::layout().placement(ID::window_id()).size {
                TOP::layout().placement(ID::window_id()).size - (full + 1)
            } else {
                0
            }),
            writes_ok(
                TOP::layout(),
                ID::window_id(),
                bar_forward_writes(
                    TOP::layout().placement(ID::window_id()).size as int,
                    full as int,
                    empty as int,
                    line as int,
                    along_row,
                    full_glyph,
                    partial,
                    empty_glyph,
                ),
            ),
        ensures
            final(screen)@ == window_writes(
                old(screen)@,
                TOP::layout(),
                ID::window_id(),
                bar_forward_writes(
                    TOP::layout().placement(ID::window_id()).size as int,
                    full as int,
                    empty as int,
                    line as int,
                    along_row,
                    full_glyph,
                    partial,
                    empty_glyph,
                ),
            ),
    {
        let ghost l = TOP::layout();
        let ghost id = ID::window_id();
        let size = ID::kind().size::<TOP>();
        let ghost w = bar_forward_writes(size as int, full as int, empty as int, line as int, along_row,
            full_glyph, partial, empty_glyph);
        let ghost at = |k: int, c: GlyphCode| if along_row { (k, line as int, c) } else { (line as int, k, c) };
        assert(w.len() == full + (if full < size { 1int } else { 0 }) + (if full + 1 < size { empty as int } else { 0 }));
        let mut k: usize = 0;
        for i in 0..full
            invariant
                l == TOP::layout(),
                id == ID::window_id(),
                size == l.placement(id).size,
                w == bar_forward_writes(size as int, full as int, empty as int, line as int, along_row,
                    full_glyph, partial, empty_glyph),
                at == (|k: int, c: GlyphCode| if along_row { (k, line as int, c) } else { (line as int, k, c) }),
                writes_ok(l, id, w),
                k == i,
                i <= full,
                screen@ == window_writes(old(screen)@, l, id, w.take(i as int)),
        {
            proof {
                lemma_writes_step(old(screen)@, l, id, w, i as int);
                assert(w[i as int] == at(i as int, full_glyph));
            }
            self.set_on_line(along_row, line, k, full_glyph, screen);
            k += 1;
        }
        let ghost mut done: int = full as int;
        if k < size {
            proof {
                lemma_writes_step(old(screen)@, l, id, w, done);
                assert(w[done] == at(k as int, partial));
            }
            self.set_on_line(along_row, line, k, partial, screen);
            k += 1;
            proof {
                done = done + 1;
            }
        }
        if k < size {
            for j in 0..empty
                invariant
                    l == TOP::layout(),
                    id == ID::window_id(),
                    size == l.placement(id).size,
                    full + 1 < size,
                    w == bar_forward_writes(size as int, full as int, empty as int, line as int, along_row,
                        full_glyph, partial, empty_glyph),
                    at == (|k: int, c: GlyphCode| if along_row { (k, line as int, c) } else { (line as int, k, c) }),
                    writes_ok(l, id, w),
                    k == full + 1 + j,
                    done == k,
                    empty == size - (full + 1),
                    screen@ == window_writes(old(screen)@, l, id, w.take(done)),
            {
                proof {
                    lemma_writes_step(old(screen)@, l, id, w, done);
                    assert(w[done] == at(k as int, empty_glyph));
                }
                self.set_on_line(along_row, line, k, empty_glyph, screen);
                k += 1;
                proof {
                    done = done + 1;
                }
            }
        }
        proof {
            assert(done == w.len());
            lemma_writes_all(old(screen)@, l, id, w);
        }
    }


    /// Writes a bar that starts at the end of `line`.
    fn fill_backward(
        &self,
        along_row: bool,
        line: usize,
        full: usize,
        empty: usize,
        full_glyph: GlyphCode,
        partial: GlyphCode,
        empty_glyph: GlyphCode,
        screen: &mut LcdScreenNext,
    )
        requires
            full <= TOP::layout().placement(ID::window_id()).size,
            empty == (if full + 1 < TOP::layout().placement(ID::window_id()).size {
                TOP::layout().placement(ID::window_id()).size - (full + 1)
            } else {
                0
            }),
            writes_ok(
                TOP::layout(),
                ID::window_id(),
                bar_backward_writes(
                    TOP::layout().placement(ID::window_id()).size as int,
                    full as int,
                    empty as int,
                    line as int,
                    along_row,
                    full_glyph,
                    partial,
                    empty_glyph,
                ),
            ),
        ensures
            final(screen)@ == window_writes(
                old(screen)@,
                TOP::layout(),
                ID::window_id(),
                bar_backward_writes(
                    TOP::layout().placement(ID::window_id()).size as int,
                    full as int,
                    empty as int,
                    line as int,
                    along_row,
                    full_glyph,
                    partial,
                    empty_glyph,
                ),
            ),
    {
        proof {
            TOP::lemma_layout_fits();
        }
        let ghost l = TOP::layout();
        let ghost id = ID::window_id();
        let size = ID::kind().size::<TOP>();
        let ghost w = bar_backward_writes(size as int, full as int, empty as int, line as int, along_row,
            full_glyph, partial, empty_glyph);
        let ghost at = |k: int, c: GlyphCode| if along_row { (k, line as int, c) } else { (line as int, k, c) };
        assert(w.len() == full + (if size - 1 - full >= 0 { 1int } else { 0 }) + (if size - 2 - full >= 0 { empty as int } else { 0 }));
        let mut k: isize = (size - 1) as isize;
        for i in 0..full
            invariant
                l == TOP::layout(),
                id == ID::window_id(),
                size == l.placement(id).size,
                1 <= size <= 10,
                full <= size,
                w == bar_backward_writes(size as int, full as int, empty as int, line as int, along_row,
                    full_glyph, partial, empty_glyph),
                at == (|k: int, c: GlyphCode| if along_row { (k, line as int, c) } else { (line as int, k, c) }),
                writes_ok(l, id, w),
                k == size - 1 - i,
                i <= full,
                screen@ == window_writes(old(screen)@, l, id, w.take(i as int)),
        {
            proof {
                lemma_writes_step(old(screen)@, l, id, w, i as int);
                assert(w[i as int] == at(size - 1 - i, full_glyph));
            }
            self.set_on_line(along_row, line, k as usize, full_glyph, screen);
            k -= 1;
        }
        let ghost mut done: int = full as int;
        if k >= 0 {
            proof {
                lemma_writes_step(old(screen)@, l, id, w, done);
                assert(w[done] == at(k as int, partial));
            }
            self.set_on_line(along_row, line, k as usize, partial, screen);
            k -= 1;
            proof {
                done = done + 1;
            }
        }
        if k >= 0 {
            for j in 0..empty
                invariant
                    l == TOP::layout(),
                    id == ID::window_id(),
                    size == l.placement(id).size,
                    1 <= size <= 10,
                    full + 1 < size,
                    w == bar_backward_writes(size as int, full as int, empty as int, line as int, along_row,
                        full_glyph, partial, empty_glyph),
                    at == (|k: int, c: GlyphCode| if along_row { (k, line as int, c) } else { (line as int, k, c) }),
                    writes_ok(l, id, w),
                    k == size - 2 - full - j,
                    done == full + 1 + j,
                    empty == size - (full + 1),
                    screen@ == window_writes(old(screen)@, l, id, w.take(done)),
            {
                proof {
                    lemma_writes_step(old(screen)@, l, id, w, done);
                    assert(w[done] == at(k as int, empty_glyph));
                }
                self.set_on_line(along_row, line, k as usize, empty_glyph, screen);
                k -= 1;
                proof {
                    done = done + 1;
                }
            }
        }
        proof {
            assert(done == w.len());
            lemma_writes_all(old(screen)@, l, id, w);
        }
    }

    /// Writes `c` into every cell of `line`.
    fn fill_blank(&self, along_row: bool, line: usize, c: GlyphCode, screen: &mut LcdScreenNext)
        requires
            writes_ok(
                TOP::layout(),
                ID::window_id(),
                bar_blank_writes(TOP::layout().placement(ID::window_id()).size as int, line as int, along_row, c),
            ),
        ensures
            final(screen)@ == window_writes(
                old(screen)@,
                TOP::layout(),
                ID::window_id(),
                bar_blank_writes(TOP::layout().placement(ID::window_id()).size as int, line as int, along_row, c),
            ),
    {
        let ghost l = TOP::layout();
        let ghost id = ID::window_id();
        let size = ID::kind().size::<TOP>();
        let ghost w = bar_blank_writes(size as int, line as int, along_row, c);
        for k in 0..size
            invariant
                l == TOP::layout(),
                id == ID::window_id(),
                size == l.placement(id).size,
                w == bar_blank_writes(size as int, line as int, along_row, c),
                writes_ok(l, id, w),
                screen@ == window_writes(old(screen)@, l, id, w.take(k as int)),
        {
            proof {
                lemma_writes_step(old(screen)@, l, id, w, k as int);
            }
            self.set_on_line(along_row, line, k, c, screen);
        }
        proof {
            lemma_writes_all(old(screen)@, l, id, w);
        }
    }


    /// Draws a bar of `value` out of `limit` along row `row`: positive bars grow from the left, negative ones from the right.
    pub fn bar_horizontal(&self, row: usize, value: i32, limit: i32, screen: &mut LcdScreenNext)
        requires
            bar_ok(TOP::layout(), ID::window_id(), row as int, value, limit, true),
        ensures
            old(screen)@.len() == LCD_CELLS,
            final(screen)@.len() == LCD_CELLS,
            final(screen)@ == window_writes(
                old(screen)@,
                TOP::layout(),
                ID::window_id(),
                bar_writes(TOP::layout().placement(ID::window_id()).size, row as int, value, limit, true),
            ),
    {
        screen.cell_count();
        proof {
            broadcast use lemma_window_writes_len;
        }
        proof {
            TOP::lemma_layout_fits();
        }
        let upper = if value < limit {
            value
        } else {
            limit
        };
        let value = if upper > -limit {
            upper
        } else {
            -limit
        };
        let size = ID::kind().size::<TOP>();
        if value > 0 {
            proof {
                if limit < 0 {
                    lemma_negative_as_usize(limit);
                }
            }
            let params = BarParameters::new(value, limit, size);
            proof {
                lemma_bar_full_fits(value, limit, size);
            }
            let partial = GlyphCode::from(GlyphCode::BarLeft0.index() + params.remainder);
            self.fill_forward(true, row, params.full_blocks, params.empty_blocks, GlyphCode::BarLeft18, partial,
                GlyphCode::BarLeft0, screen);
        } else if value < 0 {
            let params = BarParameters::new(-value, limit, size);
            proof {
                lemma_bar_full_fits(-value as i32, limit, size);
            }
            let partial = GlyphCode::from(GlyphCode::BarRight0.index() + params.remainder);
            self.fill_backward(true, row, params.full_blocks, params.empty_blocks, GlyphCode::BarRight18, partial,
                GlyphCode::Space, screen);
        } else {
            self.fill_blank(true, row, GlyphCode::BarRight0, screen);
        }
    }

    /// Draws a bar of `value` out of `limit` along column `column`: positive bars grow from the bottom, negative ones from the top.
    pub fn bar_vertical(&self, column: usize, value: i32, limit: i32, screen: &mut LcdScreenNext)
        requires
            bar_ok(TOP::layout(), ID::window_id(), column as int, value, limit, false),
        ensures
            old(screen)@.len() == LCD_CELLS,
            final(screen)@.len() == LCD_CELLS,
            final(screen)@ == window_writes(
                old(screen)@,
                TOP::layout(),
                ID::window_id(),
                bar_writes(TOP::layout().placement(ID::window_id()).size, column as int, value, limit, false),
            ),
    {
        screen.cell_count();
        proof {
            broadcast use lemma_window_writes_len;
        }
        proof {
            TOP::lemma_layout_fits();
        }
        let upper = if value < limit {
            value
        } else {
            limit
        };
        let value = if upper > -limit {
            upper
        } else {
            -limit
        };
        let size = ID::kind().size::<TOP>();
        if value > 0 {
            proof {
                if limit < 0 {
                    lemma_negative_as_usize(limit);
                }
            }
            let params = BarParameters::new(value, limit, size);
            proof {
                lemma_bar_full_fits(value, limit, size);
            }
            let partial = GlyphCode::from(GlyphCode::BarUp0.index() + params.remainder);
            self.fill_backward(false, column, params.full_blocks, params.empty_blocks, GlyphCode::BarUp18, partial,
                GlyphCode::BarUp0, screen);
        } else if value < 0 {
            let params = BarParameters::new(-value, limit, size);
            proof {
                lemma_bar_full_fits(-value as i32, limit, size);
            }
            let partial = GlyphCode::from(GlyphCode::BarDown0.index() + params.remainder);
            self.fill_forward(false, column, params.full_blocks, params.empty_blocks, GlyphCode::BarDown18, partial,
                GlyphCode::BarDown0, screen);
        } else {
            self.fill_blank(false, column, GlyphCode::Space, screen);
        }
    }

}

/// Within a window that fits on the screen, distinct cells land on distinct
/// screen cells, all inside the window's square: turning with the brick
/// moves the cells of a window around without merging them or spilling.
pub proof fn lemma_window_cells_distinct(l: LcdLayout, id: WindowId, x1: int, y1: int, x2: int, y2: int)
    requires
        layout_fits(l),
        0 <= x1 < l.placement(id).size,
        0 <= y1 < l.placement(id).size,
        0 <= x2 < l.placement(id).size,
        0 <= y2 < l.placement(id).size,
        x1 != x2 || y1 != y2,
    ensures
        window_to_screen(l, id, x1, y1) != window_to_screen(l, id, x2, y2),
        l.placement(id).x <= window_to_screen(l, id, x1, y1).0 < l.placement(id).x + l.placement(id).size,
        l.placement(id).y <= window_to_screen(l, id, x1, y1).1 < l.placement(id).y + l.placement(id).size,
{
}

/// Every cell of a window that fits on the screen can be written, and what
/// is written there is what the screen then holds at the cell's place.
pub proof fn lemma_window_write_then_read(
    screen: Seq<GlyphCode>,
    l: LcdLayout,
    id: WindowId,
    x: int,
    y: int,
    c: GlyphCode,
)
    requires
        layout_fits(l),
        screen.len() == LCD_CELLS,
        0 <= x < l.placement(id).size,
        0 <= y < l.placement(id).size,
    ensures
        window_cell_ok(l, id, x, y),
        window_write(screen, l, id, x, y, c)[screen_index(
            window_to_screen(l, id, x, y).0,
            window_to_screen(l, id, x, y).1,
        )] == c,
{
    lemma_geometry();
    let p = l.placement(id);
    let sc = window_to_screen(l, id, x, y);
    assert(p.x <= sc.0 < p.x + p.size && p.y <= sc.1 < p.y + p.size);
    assert(0 <= sc.1 * 10 + sc.0 < 70);
    assert(screen_index(sc.0, sc.1) == sc.1 * 10 + sc.0);
}

/// For a value that is not negative, digit `i` from the right comes from
/// `value / 10^i`: the digits printed are the decimal digits of the value.
pub proof fn lemma_drop_digits_is_division(value: int, i: nat)
    requires
        value >= 0,
    ensures
        drop_digits(value, i) == value / pow(10, i),
        drop_digits(value, i) >= 0,
    decreases i,
{
    if i == 0 {
        assert(pow(10, 0) == 1) by {
            lemma_pow0(10);
        }
    } else {
        lemma_drop_digits_is_division(value, (i - 1) as nat);
        lemma_pow_positive(10, (i - 1) as nat);
        lemma_div_denominator(value, pow(10, (i - 1) as nat), 10);
        lemma_pow1(10);
        lemma_pow_adds(10, (i - 1) as nat, 1);
        vstd::arithmetic::div_mod::lemma_div_pos_is_pos(value, pow(10, (i - 1) as nat));
    }
}

/// A bar at or past its limit is the full bar: every glyph of the line is
/// full.
pub proof fn lemma_full_bar(size: usize, line: int, value: i32, limit: i32)
    requires
        limit > 0,
        value >= limit,
        1 <= size <= 10,
    ensures
        bar_writes(size, line, value, limit, true) == Seq::new(
            size as nat,
            |i: int| (i, line, GlyphCode::BarLeft18),
        ),
        bar_writes(size, line, value, limit, false) == Seq::new(
            size as nat,
            |i: int| (line, size - 1 - i, GlyphCode::BarUp18),
        ),
{
    let v = limit;
    assert(clamp_bar(value as int, limit as int) == limit);
    let u = (v as usize) as int;
    let m = (size * GLYPH_SIZE) as int;
    assert(u == limit);
    assert((u * m) / u == m) by (nonlinear_arith)
        requires
            u > 0,
            m >= 0,
    ;
    assert(bar_steps(v, limit, size) == size * 18);
    assert(bar_params(v, limit, size).0 == size) by (nonlinear_arith)
        requires
            bar_params(v, limit, size).0 == bar_steps(v, limit, size) / 18,
            bar_steps(v, limit, size) == size * 18,
    ;
    assert(bar_writes(size, line, value, limit, true) =~= Seq::new(size as nat, |i: int| (i, line, GlyphCode::BarLeft18)));
    assert(bar_writes(size, line, value, limit, false) =~= Seq::new(size as nat, |i: int| (line, size - 1 - i, GlyphCode::BarUp18)));
}

/// A bar of zero clears the line: a row gets empty right-growing bar
/// glyphs, a column gets spaces.
pub proof fn lemma_zero_bar(size: usize, line: int, limit: i32)
    requires
        limit >= 0,
    ensures
        bar_writes(size, line, 0, limit, true) == Seq::new(size as nat, |i: int| (i, line, GlyphCode::BarRight0)),
        bar_writes(size, line, 0, limit, false) == Seq::new(size as nat, |i: int| (line, i, GlyphCode::Space)),
{
    assert(bar_writes(size, line, 0, limit, true) =~= Seq::new(size as nat, |i: int| (i, line, GlyphCode::BarRight0)));
    assert(bar_writes(size, line, 0, limit, false) =~= Seq::new(size as nat, |i: int| (line, i, GlyphCode::Space)));
}


/// The eighteenths of a bar `k` eighteenths long that fall in cell `j` of
/// its line, counting cells from where the bar starts.
pub open spec fn cell_share(k: int, j: int) -> int {
    if k - 18 * j >= 18 {
        18
    } else if k - 18 * j <= 0 {
        0
    } else {
        k - 18 * j
    }
}

/// A vertical bar shows its value exactly, in eighteenths of a glyph. The
/// bar is `k` eighteenths long, `k` the clamped value's share (rounded down)
/// of the `18 * size` rows of the column. Every cell of the column is
/// written; counting cells from where the bar starts, the bottom for a
/// positive value and the top for a negative one, cell `j` is lit in the
/// `cell_share(k, j)` rows nearest the start.
pub proof fn lemma_bar_vertical_shows_value(size: usize, line: int, value: i32, limit: i32)
    requires
        1 <= size,
        0 < limit,
        clamp_bar(value as int, limit as int) != 0,
        abs_value(clamp_bar(value as int, limit as int)) * (size * 18) <= usize::MAX,
    ensures
        ({
            let v = clamp_bar(value as int, limit as int);
            let k = abs_value(v) * (size * 18) / (limit as int);
            let w = bar_writes(size, line, value, limit, false);
            &&& w.len() == size
            &&& forall|j: int|
                0 <= j < size ==> if v > 0 {
                    &&& (#[trigger] w[j]).0 == line
                    &&& w[j].1 == size - 1 - j
                    &&& lit_from_bottom(w[j].2, cell_share(k, j))
                } else {
                    &&& w[j].0 == line
                    &&& w[j].1 == j
                    &&& lit_from_top(w[j].2, cell_share(k, j))
                }
        }),
{
    let v = clamp_bar(value as int, limit as int);
    let m = abs_value(v);
    let k = m * (size * 18) / (limit as int);
    let w = bar_writes(size, line, value, limit, false);
    lemma_bar_full_fits(m as i32, limit, size);
    let (full, empty, rem) = bar_params(m as i32, limit, size);
    assert(k == 18 * full + rem);
    if v > 0 {
        lemma_bar_up_glyphs(rem);
        lemma_bar_up_glyphs(18);
        lemma_bar_up_glyphs(0);
        assert(GlyphCode::from_index(68) == GlyphCode::BarUp18);
        assert(GlyphCode::from_index(50) == GlyphCode::BarUp0);
        assert(w.len() == size);
        assert forall|j: int| 0 <= j < size implies {
            &&& (#[trigger] w[j]).0 == line
            &&& w[j].1 == size - 1 - j
            &&& lit_from_bottom(w[j].2, cell_share(k, j))
        } by {
            if j < full {
                assert(w[j] == (line, size - 1 - j, GlyphCode::BarUp18));
            } else if j == full {
                assert(w[j] == (line, size - 1 - j, GlyphCode::from_index((50 + rem) as usize)));
            } else {
                assert(w[j] == (line, size - 1 - j, GlyphCode::BarUp0));
            }
        }
    } else {
        lemma_bar_down_glyphs(rem);
        lemma_bar_down_glyphs(18);
        lemma_bar_down_glyphs(0);
        assert(GlyphCode::from_index(87) == GlyphCode::BarDown18);
        assert(GlyphCode::from_index(69) == GlyphCode::BarDown0);
        assert(w.len() == size);
        assert forall|j: int| 0 <= j < size implies {
            &&& (#[trigger] w[j]).0 == line
            &&& w[j].1 == j
            &&& lit_from_top(w[j].2, cell_share(k, j))
        } by {
            if j < full {
                assert(w[j] == (line, j, GlyphCode::BarDown18));
            } else if j == full {
                assert(w[j] == (line, j, GlyphCode::from_index((69 + rem) as usize)));
            } else {
                assert(w[j] == (line, j, GlyphCode::BarDown0));
            }
        }
    }
}

/// A horizontal bar shows its value exactly, in eighteenths of a glyph. The
/// bar is `k` eighteenths long, `k` the clamped value's share (rounded down)
/// of the `18 * size` columns of the row. Every cell of the row is written;
/// counting cells from where the bar starts, the left end for a positive
/// value and the right end for a negative one, cell `j` is lit in the
/// `cell_share(k, j)` columns nearest the start.
pub proof fn lemma_bar_horizontal_shows_value(size: usize, line: int, value: i32, limit: i32)
    requires
        1 <= size,
        0 < limit,
        clamp_bar(value as int, limit as int) != 0,
        abs_value(clamp_bar(value as int, limit as int)) * (size * 18) <= usize::MAX,
    ensures
        ({
            let v = clamp_bar(value as int, limit as int);
            let k = abs_value(v) * (size * 18) / (limit as int);
            let w = bar_writes(size, line, value, limit, true);
            &&& w.len() == size
            &&& forall|j: int|
                0 <= j < size ==> if v > 0 {
                    &&& (#[trigger] w[j]).0 == j
                    &&& w[j].1 == line
                    &&& lit_from_left(w[j].2, cell_share(k, j))
                } else {
                    &&& w[j].0 == size - 1 - j
                    &&& w[j].1 == line
                    &&& lit_from_right(w[j].2, cell_share(k, j))
                }
        }),
{
    let v = clamp_bar(value as int, limit as int);
    let m = abs_value(v);
    let k = m * (size * 18) / (limit as int);
    let w = bar_writes(size, line, value, limit, true);
    lemma_bar_full_fits(m as i32, limit, size);
    let (full, empty, rem) = bar_params(m as i32, limit, size);
    assert(k == 18 * full + rem);
    if v > 0 {
        lemma_bar_left_glyphs(rem);
        lemma_bar_left_glyphs(18);
        lemma_bar_left_glyphs(0);
        assert(GlyphCode::from_index(106) == GlyphCode::BarLeft18);
        assert(GlyphCode::from_index(88) == GlyphCode::BarLeft0);
        assert(w.len() == size);
        assert forall|j: int| 0 <= j < size implies {
            &&& (#[trigger] w[j]).0 == j
            &&& w[j].1 == line
            &&& lit_from_left(w[j].2, cell_share(k, j))
        } by {
            if j < full {
                assert(w[j] == (j, line, GlyphCode::BarLeft18));
            } else if j == full {
                assert(w[j] == (j, line, GlyphCode::from_index((88 + rem) as usize)));
            } else {
                assert(w[j] == (j, line, GlyphCode::BarLeft0));
            }
        }
    } else {
        lemma_bar_right_glyphs(rem);
        lemma_bar_right_glyphs(18);
        lemma_space_unlit();
        assert(GlyphCode::from_index(125) == GlyphCode::BarRight18);
        assert(w.len() == size);
        assert forall|j: int| 0 <= j < size implies {
            &&& (#[trigger] w[j]).0 == size - 1 - j
            &&& w[j].1 == line
            &&& lit_from_right(w[j].2, cell_share(k, j))
        } by {
            if j < full {
                assert(w[j] == (size - 1 - j, line, GlyphCode::BarRight18));
            } else if j == full {
                assert(w[j] == (size - 1 - j, line, GlyphCode::from_index((107 + rem) as usize)));
            } else {
                assert(w[j] == (size - 1 - j, line, GlyphCode::Space));
            }
        }
    }
}

} // verus!
