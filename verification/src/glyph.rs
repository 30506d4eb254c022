//! Glyph bitmaps and their conversion into EV3 framebuffer bytes.
//!
//! A glyph source is an 18x18 bitmap: row `r` is a `u32` whose bit `c`
//! holds the pixel of bit-column `c` (bit 17 is the leftmost pixel as the
//! bitmaps are written).  The EV3 framebuffer packs three pixels per byte,
//! two bits per pixel, starting at bit 2: pixel `j` of a byte lives in
//! bits `2 * j + 2` and `2 * j + 3`.
use vstd::prelude::*;

verus! {

pub const GLYPH_SIZE: usize = 18;

pub type GlyphSourceRow = u32;

pub const GLYPH_DATA_ROW_BYTES: usize = GLYPH_SIZE / 3;

pub type GlyphDataRow = [u8; GLYPH_DATA_ROW_BYTES];

pub type GlyphData = [GlyphDataRow; GLYPH_SIZE];

/// Orientation of the brick: which side of the screen is the top.
#[derive(Clone, Copy, PartialEq, Eq, Structural, Debug)]
pub enum LcdTopSide {
    Up,
    Down,
    Left,
    Right,
}

pub struct GlyphSource {
    pub bits: [GlyphSourceRow; GLYPH_SIZE],
}

pub struct GlyphDataRowByte {
    pub byte: u8,
}

/// Bit `column` of row `row` of a glyph source, as 0 or 1.
pub open spec fn source_bit(src: GlyphSource, row: int, column: int) -> u8 {
    ((src.bits[row] >> (column as u32)) & 1u32) as u8
}

/// The source pixel in visual coordinates: `x` counts from the left.
pub open spec fn source_pixel(src: GlyphSource, y: int, x: int) -> u8 {
    source_bit(src, y, (GLYPH_SIZE - 1) - x)
}

/// The two framebuffer bits of pixel `j` (0, 1 or 2) of a data byte.
pub open spec fn pixel_bits(byte: u8, j: int) -> u8 {
    (byte >> ((2 * j + 2) as u8)) & 3u8
}

/// A data byte whose three pixels show `p0`, `p1`, `p2` (each 0 or 1) and
/// whose two unused low bits are clear.
pub open spec fn byte_shows(byte: u8, p0: u8, p1: u8, p2: u8) -> bool {
    &&& byte & 3u8 == 0
    &&& pixel_bits(byte, 0) == 3 * p0
    &&& pixel_bits(byte, 1) == 3 * p1
    &&& pixel_bits(byte, 2) == 3 * p2
}

/// Bytes `0..n` of `row` show pixel `f(x)` at each pixel column `x`, with
/// the unused low bits clear.
pub open spec fn row_prefix_shows(row: GlyphDataRow, f: spec_fn(int) -> u8, n: int) -> bool {
    forall|k: int, j: int|
        0 <= k < n && 0 <= j < 3 ==> #[trigger] pixel_bits(row[k], j) == 3 * f(3 * k + j)
            && row[k] & 3u8 == 0
}

/// `row` shows pixel `f(x)` at each of its 18 pixel columns `x`.
pub open spec fn row_shows(row: GlyphDataRow, f: spec_fn(int) -> u8) -> bool {
    row_prefix_shows(row, f, GLYPH_DATA_ROW_BYTES as int)
}

proof fn lemma_row_next_byte(before: GlyphDataRow, after: GlyphDataRow, f: spec_fn(int) -> u8, k: int)
    requires
        0 <= k < GLYPH_DATA_ROW_BYTES,
        row_prefix_shows(before, f, k),
        forall|kk: int| 0 <= kk < k ==> after[kk] == before[kk],
        byte_shows(after[k], f(3 * k), f(3 * k + 1), f(3 * k + 2)),
    ensures
        row_prefix_shows(after, f, k + 1),
{
    assert forall|kk: int, j: int| 0 <= kk < k + 1 && 0 <= j < 3 implies #[trigger] pixel_bits(after[kk], j) == 3
        * f(3 * kk + j) && after[kk] & 3u8 == 0 by {
        if kk < k {
            assert(after[kk] == before[kk]);
            assert(pixel_bits(before[kk], j) == 3 * f(3 * kk + j) && before[kk] & 3u8 == 0);
        } else if j == 0 {
        } else if j == 1 {
        } else {
        }
    }
}

/// Where a visual pixel `(y, x)` of a glyph drawn with `top` up comes from
/// in the source bitmap.
pub open spec fn oriented(top: LcdTopSide, y: int, x: int) -> (int, int) {
    let last = GLYPH_SIZE - 1;
    match top {
        LcdTopSide::Up => (y, x),
        LcdTopSide::Down => (last - y, last - x),
        LcdTopSide::Left => (x, last - y),
        LcdTopSide::Right => (last - x, y),
    }
}

/// Rows `0..rows` of `data` show `src` drawn with `top` up: every visual
/// pixel is the source pixel that `oriented` names, and no unused bit is set.
pub open spec fn renders_rows(data: GlyphData, src: GlyphSource, top: LcdTopSide, rows: int) -> bool {
    forall|y: int, k: int, j: int|
        0 <= y < rows && 0 <= k < GLYPH_DATA_ROW_BYTES && 0 <= j < 3 ==> {
            &&& #[trigger] pixel_bits(data[y][k], j) == 3 * source_pixel(
                src,
                oriented(top, y, 3 * k + j).0,
                oriented(top, y, 3 * k + j).1,
            )
            &&& data[y][k] & 3u8 == 0
        }
}

/// `data` is `src` drawn with `top` up.
pub open spec fn renders(data: GlyphData, src: GlyphSource, top: LcdTopSide) -> bool {
    renders_rows(data, src, top, GLYPH_SIZE as int)
}


proof fn lemma_renders_next_row(
    before: GlyphData,
    after: GlyphData,
    src: GlyphSource,
    top: LcdTopSide,
    y: int,
)
    requires
        0 <= y < GLYPH_SIZE,
        renders_rows(before, src, top, y),
        forall|yy: int| 0 <= yy < y ==> after[yy] == before[yy],
        forall|k: int, j: int|
            0 <= k < GLYPH_DATA_ROW_BYTES && 0 <= j < 3 ==> #[trigger] pixel_bits(after[y][k], j) == 3
                * source_pixel(src, oriented(top, y, 3 * k + j).0, oriented(top, y, 3 * k + j).1)
                && after[y][k] & 3u8 == 0,
    ensures
        renders_rows(after, src, top, y + 1),
{
    assert forall|yy: int, k: int, j: int|
        0 <= yy < y + 1 && 0 <= k < GLYPH_DATA_ROW_BYTES && 0 <= j < 3 implies {
            &&& #[trigger] pixel_bits(after[yy][k], j) == 3 * source_pixel(
                src,
                oriented(top, yy, 3 * k + j).0,
                oriented(top, yy, 3 * k + j).1,
            )
            &&& after[yy][k] & 3u8 == 0
        } by {
        if yy < y {
            assert(after[yy] == before[yy]);
            assert(pixel_bits(before[yy][k], j) == 3 * source_pixel(
                src,
                oriented(top, yy, 3 * k + j).0,
                oriented(top, yy, 3 * k + j).1,
            ) && before[yy][k] & 3u8 == 0);
        } else {
            assert(yy == y);
            assert(pixel_bits(after[y][k], j) == 3 * source_pixel(
                src,
                oriented(top, y, 3 * k + j).0,
                oriented(top, y, 3 * k + j).1,
            ) && after[y][k] & 3u8 == 0);
        }
    }
}

proof fn lemma_pack(b1: u8, b2: u8, b3: u8, byte: u8)
    requires
        b1 <= 1,
        b2 <= 1,
        b3 <= 1,
        byte == 12 * b1 + 48 * b2 + 192 * b3,
    ensures
        byte_shows(byte, b1, b2, b3),
{
    assert(byte & 3u8 == 0 && (byte >> 2u8) & 3u8 == 3 * b1 && (byte >> 4u8) & 3u8 == 3 * b2
        && (byte >> 6u8) & 3u8 == 3 * b3) by (bit_vector)
        requires
            b1 <= 1,
            b2 <= 1,
            b3 <= 1,
            byte == 12 * b1 + 48 * b2 + 192 * b3,
    ;
}

impl GlyphDataRowByte {
    /// Packs three pixels, the first one leftmost.
    pub fn new_direct(bits: (u8, u8, u8)) -> (r: Self)
        ensures
            r.byte == ((bits.0 << 2u8) | (bits.0 << 3u8)) | ((bits.1 << 4u8) | (bits.1 << 5u8)) | ((
            bits.2 << 6u8) | (bits.2 << 7u8)),
            bits.0 <= 1 && bits.1 <= 1 && bits.2 <= 1 ==> byte_shows(r.byte, bits.0, bits.1, bits.2),
    {
        let (bit1, bit2, bit3) = bits;
        let mut byte: u8 = 0;
        byte |= (bit1 << 2u8) | (bit1 << 3u8);
        byte |= (bit2 << 4u8) | (bit2 << 5u8);
        byte |= (bit3 << 6u8) | (bit3 << 7u8);
        assert(byte == ((bit1 << 2u8) | (bit1 << 3u8)) | ((bit2 << 4u8) | (bit2 << 5u8)) | ((bit3
            << 6u8) | (bit3 << 7u8))) by (bit_vector)
            requires
                byte == ((0u8 | ((bit1 << 2u8) | (bit1 << 3u8))) | ((bit2 << 4u8) | (bit2 << 5u8)))
                    | ((bit3 << 6u8) | (bit3 << 7u8)),
        ;
        proof {
            if bit1 <= 1 && bit2 <= 1 && bit3 <= 1 {
                assert(byte == 12 * bit1 + 48 * bit2 + 192 * bit3) by (bit_vector)
                    requires
                        bit1 <= 1 && bit2 <= 1 && bit3 <= 1,
                        byte == ((bit1 << 2u8) | (bit1 << 3u8)) | ((bit2 << 4u8) | (bit2 << 5u8))
                            | ((bit3 << 6u8) | (bit3 << 7u8)),
                ;
                lemma_pack(bit1, bit2, bit3, byte);
            }
        }
        Self { byte }
    }

    /// Packs three pixels, the first one rightmost.
    pub fn new_mirror(bits: (u8, u8, u8)) -> (r: Self)
        ensures
            r.byte == ((bits.2 << 2u8) | (bits.2 << 3u8)) | ((bits.1 << 4u8) | (bits.1 << 5u8)) | ((
            bits.0 << 6u8) | (bits.0 << 7u8)),
            bits.0 <= 1 && bits.1 <= 1 && bits.2 <= 1 ==> byte_shows(r.byte, bits.2, bits.1, bits.0),
    {
        let (bit1, bit2, bit3) = bits;
        let mut byte: u8 = 0;
        byte |= (bit3 << 2u8) | (bit3 << 3u8);
        byte |= (bit2 << 4u8) | (bit2 << 5u8);
        byte |= (bit1 << 6u8) | (bit1 << 7u8);
        assert(byte == ((bit3 << 2u8) | (bit3 << 3u8)) | ((bit2 << 4u8) | (bit2 << 5u8)) | ((bit1
            << 6u8) | (bit1 << 7u8))) by (bit_vector)
            requires
                byte == ((0u8 | ((bit3 << 2u8) | (bit3 << 3u8))) | ((bit2 << 4u8) | (bit2 << 5u8)))
                    | ((bit1 << 6u8) | (bit1 << 7u8)),
        ;
        proof {
            if bit1 <= 1 && bit2 <= 1 && bit3 <= 1 {
                assert(byte == 12 * bit3 + 48 * bit2 + 192 * bit1) by (bit_vector)
                    requires
                        bit1 <= 1 && bit2 <= 1 && bit3 <= 1,
                        byte == ((bit3 << 2u8) | (bit3 << 3u8)) | ((bit2 << 4u8) | (bit2 << 5u8))
                            | ((bit1 << 6u8) | (bit1 << 7u8)),
                ;
                lemma_pack(bit3, bit2, bit1, byte);
            }
        }
        Self { byte }
    }
}

impl GlyphSource {
    pub fn new(bits: [GlyphSourceRow; GLYPH_SIZE]) -> (r: Self)
        ensures
            r.bits == bits,
    {
        Self { bits }
    }

    /// Pixel of bit-column `column` in row `row`, as 0 or 1.
    pub fn bit(&self, row: usize, column: usize) -> (r: u8)
        requires
            row < GLYPH_SIZE,
            column < 32,
        ensures
            r == source_bit(*self, row as int, column as int),
            r <= 1,
    {
        let bits = self.bits[row];
        let c = column as u32;
        let r = ((bits & (1u32 << c)) >> c) as u8;
        assert(((bits & (1u32 << c)) >> c) == (bits >> c) & 1u32 && (bits >> c) & 1u32 <= 1) by (bit_vector)
            requires
                c < 32,
        ;
        r
    }

    /// The three pixels of data byte `byte_index` of row `row`, leftmost first
    /// when read by bit-column.
    pub fn row_bits_direct(&self, row: usize, byte_index: usize) -> (r: (u8, u8, u8))
        requires
            row < GLYPH_SIZE,
            byte_index * 3 + 2 < 32,
        ensures
            r.0 == source_bit(*self, row as int, 3 * byte_index),
            r.1 == source_bit(*self, row as int, 3 * byte_index + 1),
            r.2 == source_bit(*self, row as int, 3 * byte_index + 2),
            r.0 <= 1 && r.1 <= 1 && r.2 <= 1,
    {
        let base_column_index = byte_index * 3;
        let bit1 = self.bit(row, base_column_index + 0);
        let bit2 = self.bit(row, base_column_index + 1);
        let bit3 = self.bit(row, base_column_index + 2);
        (bit1, bit2, bit3)
    }

    pub fn row_bits_mirror(&self, row: usize, byte_index: usize) -> (r: (u8, u8, u8))
        requires
            row < GLYPH_SIZE,
            byte_index < GLYPH_DATA_ROW_BYTES,
        ensures
            r.0 == source_bit(*self, row as int, 15 - 3 * byte_index),
            r.1 == source_bit(*self, row as int, 16 - 3 * byte_index),
            r.2 == source_bit(*self, row as int, 17 - 3 * byte_index),
            r.0 <= 1 && r.1 <= 1 && r.2 <= 1,
    {
        let byte_index = GLYPH_DATA_ROW_BYTES - (byte_index + 1);
        self.row_bits_direct(row, byte_index)
    }

    pub fn column_bits_direct(&self, column: usize, byte_index: usize) -> (r: (u8, u8, u8))
        requires
            column < 32,
            byte_index * 3 + 2 < GLYPH_SIZE,
        ensures
            r.0 == source_bit(*self, 3 * byte_index, column as int),
            r.1 == source_bit(*self, 3 * byte_index + 1, column as int),
            r.2 == source_bit(*self, 3 * byte_index + 2, column as int),
            r.0 <= 1 && r.1 <= 1 && r.2 <= 1,
    {
        let base_row_index = byte_index * 3;
        let bit1 = self.bit(base_row_index + 0, column);
        let bit2 = self.bit(base_row_index + 1, column);
        let bit3 = self.bit(base_row_index + 2, column);
        (bit1, bit2, bit3)
    }

    pub fn column_bits_mirror(&self, column: usize, byte_index: usize) -> (r: (u8, u8, u8))
        requires
            column < 32,
            byte_index < GLYPH_DATA_ROW_BYTES,
        ensures
            r.0 == source_bit(*self, 15 - 3 * byte_index, column as int),
            r.1 == source_bit(*self, 16 - 3 * byte_index, column as int),
            r.2 == source_bit(*self, 17 - 3 * byte_index, column as int),
            r.0 <= 1 && r.1 <= 1 && r.2 <= 1,
    {
        let byte_index = GLYPH_DATA_ROW_BYTES - (byte_index + 1);
        self.column_bits_direct(column, byte_index)
    }

    /// Data byte `byte_index` of row `row`, bit-column `3 * byte_index` leftmost.
    pub fn row_byte_direct(&self, row: usize, byte_index: usize) -> (r: u8)
        requires
            row < GLYPH_SIZE,
            byte_index * 3 + 2 < 32,
        ensures
            byte_shows(
                r,
                source_bit(*self, row as int, 3 * byte_index),
                source_bit(*self, row as int, 3 * byte_index + 1),
                source_bit(*self, row as int, 3 * byte_index + 2),
            ),
    {
        let bits = self.row_bits_direct(row, byte_index);
        GlyphDataRowByte::new_direct(bits).byte
    }

    /// Data byte `byte_index` of row `row`, bit-column `17 - 3 * byte_index` leftmost.
    pub fn row_byte_mirror(&self, row: usize, byte_index: usize) -> (r: u8)
        requires
            row < GLYPH_SIZE,
            byte_index < GLYPH_DATA_ROW_BYTES,
        ensures
            byte_shows(
                r,
                source_bit(*self, row as int, 17 - 3 * byte_index),
                source_bit(*self, row as int, 16 - 3 * byte_index),
                source_bit(*self, row as int, 15 - 3 * byte_index),
            ),
    {
        let bits = self.row_bits_mirror(row, byte_index);
        GlyphDataRowByte::new_mirror(bits).byte
    }

    /// Data byte `byte_index` of column `column`, row `3 * byte_index` leftmost.
    pub fn column_byte_direct(&self, column: usize, byte_index: usize) -> (r: u8)
        requires
            column < 32,
            byte_index * 3 + 2 < GLYPH_SIZE,
        ensures
            byte_shows(
                r,
                source_bit(*self, 3 * byte_index, column as int),
                source_bit(*self, 3 * byte_index + 1, column as int),
                source_bit(*self, 3 * byte_index + 2, column as int),
            ),
    {
        let bits = self.column_bits_direct(column, byte_index);
        GlyphDataRowByte::new_direct(bits).byte
    }

    /// Data byte `byte_index` of column `column`, row `17 - 3 * byte_index` leftmost.
    pub fn column_byte_mirror(&self, column: usize, byte_index: usize) -> (r: u8)
        requires
            column < 32,
            byte_index < GLYPH_DATA_ROW_BYTES,
        ensures
            byte_shows(
                r,
                source_bit(*self, 17 - 3 * byte_index, column as int),
                source_bit(*self, 16 - 3 * byte_index, column as int),
                source_bit(*self, 15 - 3 * byte_index, column as int),
            ),
    {
        let bits = self.column_bits_mirror(column, byte_index);
        GlyphDataRowByte::new_mirror(bits).byte
    }
}

impl GlyphSource {
    /// Row `row` as framebuffer bytes, bit-column 0 leftmost.
    pub fn row_direct(&self, row: usize) -> (r: GlyphDataRow)
        requires
            row < GLYPH_SIZE,
        ensures
            row_shows(r, |x: int| source_bit(*self, row as int, x)),
    {
        let ghost f = |x: int| source_bit(*self, row as int, x);
        let mut data: GlyphDataRow = [0u8; GLYPH_DATA_ROW_BYTES];
        for k in 0..GLYPH_DATA_ROW_BYTES
            invariant
                f == (|x: int| source_bit(*self, row as int, x)),
                row < GLYPH_SIZE,
                row_prefix_shows(data, f, k as int),
        {
            let b = self.row_byte_direct(row, k);
            let ghost before = data;
            data[k] = b;
            proof {
                let kk = k as int;
                assert(data[kk] == b);
                assert(f(3 * kk) == source_bit(*self, row as int, (3 * kk)));
                assert(f(3 * kk + 1) == source_bit(*self, row as int, (3 * kk + 1)));
                assert(f(3 * kk + 2) == source_bit(*self, row as int, (3 * kk + 2)));
                lemma_row_next_byte(before, data, f, kk);
            }
        }
        data
    }

    /// Row `row` as framebuffer bytes, bit-column 17 leftmost.
    pub fn row_mirror(&self, row: usize) -> (r: GlyphDataRow)
        requires
            row < GLYPH_SIZE,
        ensures
            row_shows(r, |x: int| source_bit(*self, row as int, 17 - x)),
    {
        let ghost f = |x: int| source_bit(*self, row as int, 17 - x);
        let mut data: GlyphDataRow = [0u8; GLYPH_DATA_ROW_BYTES];
        for k in 0..GLYPH_DATA_ROW_BYTES
            invariant
                f == (|x: int| source_bit(*self, row as int, 17 - x)),
                row < GLYPH_SIZE,
                row_prefix_shows(data, f, k as int),
        {
            let b = self.row_byte_mirror(row, k);
            let ghost before = data;
            data[k] = b;
            proof {
                let kk = k as int;
                assert(data[kk] == b);
                assert(f(3 * kk) == source_bit(*self, row as int, 17 - (3 * kk)));
                assert(f(3 * kk + 1) == source_bit(*self, row as int, 17 - (3 * kk + 1)));
                assert(f(3 * kk + 2) == source_bit(*self, row as int, 17 - (3 * kk + 2)));
                lemma_row_next_byte(before, data, f, kk);
            }
        }
        data
    }

    /// Column `column` as framebuffer bytes, row 0 leftmost.
    pub fn column_direct(&self, column: usize) -> (r: GlyphDataRow)
        requires
            column < 32,
        ensures
            row_shows(r, |x: int| source_bit(*self, x, column as int)),
    {
        let ghost f = |x: int| source_bit(*self, x, column as int);
        let mut data: GlyphDataRow = [0u8; GLYPH_DATA_ROW_BYTES];
        for k in 0..GLYPH_DATA_ROW_BYTES
            invariant
                f == (|x: int| source_bit(*self, x, column as int)),
                column < 32,
                row_prefix_shows(data, f, k as int),
        {
            let b = self.column_byte_direct(column, k);
            let ghost before = data;
            data[k] = b;
            proof {
                let kk = k as int;
                assert(data[kk] == b);
                assert(f(3 * kk) == source_bit(*self, (3 * kk), column as int));
                assert(f(3 * kk + 1) == source_bit(*self, (3 * kk + 1), column as int));
                assert(f(3 * kk + 2) == source_bit(*self, (3 * kk + 2), column as int));
                lemma_row_next_byte(before, data, f, kk);
            }
        }
        data
    }

    /// Column `column` as framebuffer bytes, row 17 leftmost.
    pub fn column_mirror(&self, column: usize) -> (r: GlyphDataRow)
        requires
            column < 32,
        ensures
            row_shows(r, |x: int| source_bit(*self, 17 - x, column as int)),
    {
        let ghost f = |x: int| source_bit(*self, 17 - x, column as int);
        let mut data: GlyphDataRow = [0u8; GLYPH_DATA_ROW_BYTES];
        for k in 0..GLYPH_DATA_ROW_BYTES
            invariant
                f == (|x: int| source_bit(*self, 17 - x, column as int)),
                column < 32,
                row_prefix_shows(data, f, k as int),
        {
            let b = self.column_byte_mirror(column, k);
            let ghost before = data;
            data[k] = b;
            proof {
                let kk = k as int;
                assert(data[kk] == b);
                assert(f(3 * kk) == source_bit(*self, 17 - (3 * kk), column as int));
                assert(f(3 * kk + 1) == source_bit(*self, 17 - (3 * kk + 1), column as int));
                assert(f(3 * kk + 2) == source_bit(*self, 17 - (3 * kk + 2), column as int));
                lemma_row_next_byte(before, data, f, kk);
            }
        }
        data
    }

}

impl GlyphSource {
    /// The glyph drawn with Up as the top of the screen.
    pub fn glyph_up(&self) -> (r: GlyphData)
        ensures
            renders(r, *self, LcdTopSide::Up),
    {
        let mut data: GlyphData = [[0u8; GLYPH_DATA_ROW_BYTES]; GLYPH_SIZE];
        for y in 0..GLYPH_SIZE
            invariant
                renders_rows(data, *self, LcdTopSide::Up, y as int),
        {
            let row = self.row_mirror(y);
            proof {
                assert forall|k: int, j: int| 0 <= k < GLYPH_DATA_ROW_BYTES && 0 <= j < 3 implies
                    #[trigger] pixel_bits(row[k], j) == 3 * source_pixel(
                        *self,
                        oriented(LcdTopSide::Up, y as int, 3 * k + j).0,
                        oriented(LcdTopSide::Up, y as int, 3 * k + j).1,
                    ) && row[k] & 3u8 == 0 by {
                    assert(pixel_bits(row[k], j) == 3 * (source_bit(*self, y as int, 17 - (3 * k + j))));
                }
            }
            let ghost before = data;
            data[y] = row;
            proof {
                lemma_renders_next_row(before, data, *self, LcdTopSide::Up, y as int);
            }
        }
        data
    }

    /// The glyph drawn with Down as the top of the screen.
    pub fn glyph_down(&self) -> (r: GlyphData)
        ensures
            renders(r, *self, LcdTopSide::Down),
    {
        let mut data: GlyphData = [[0u8; GLYPH_DATA_ROW_BYTES]; GLYPH_SIZE];
        for y in 0..GLYPH_SIZE
            invariant
                renders_rows(data, *self, LcdTopSide::Down, y as int),
        {
            let row = self.row_direct(GLYPH_SIZE - 1 - y);
            proof {
                assert forall|k: int, j: int| 0 <= k < GLYPH_DATA_ROW_BYTES && 0 <= j < 3 implies
                    #[trigger] pixel_bits(row[k], j) == 3 * source_pixel(
                        *self,
                        oriented(LcdTopSide::Down, y as int, 3 * k + j).0,
                        oriented(LcdTopSide::Down, y as int, 3 * k + j).1,
                    ) && row[k] & 3u8 == 0 by {
                    assert(pixel_bits(row[k], j) == 3 * (source_bit(*self, 17 - y, 3 * k + j)));
                }
            }
            let ghost before = data;
            data[y] = row;
            proof {
                lemma_renders_next_row(before, data, *self, LcdTopSide::Down, y as int);
            }
        }
        data
    }

    /// The glyph drawn with Left as the top of the screen.
    pub fn glyph_left(&self) -> (r: GlyphData)
        ensures
            renders(r, *self, LcdTopSide::Left),
    {
        let mut data: GlyphData = [[0u8; GLYPH_DATA_ROW_BYTES]; GLYPH_SIZE];
        for y in 0..GLYPH_SIZE
            invariant
                renders_rows(data, *self, LcdTopSide::Left, y as int),
        {
            let row = self.column_direct(y);
            proof {
                assert forall|k: int, j: int| 0 <= k < GLYPH_DATA_ROW_BYTES && 0 <= j < 3 implies
                    #[trigger] pixel_bits(row[k], j) == 3 * source_pixel(
                        *self,
                        oriented(LcdTopSide::Left, y as int, 3 * k + j).0,
                        oriented(LcdTopSide::Left, y as int, 3 * k + j).1,
                    ) && row[k] & 3u8 == 0 by {
                    assert(pixel_bits(row[k], j) == 3 * (source_bit(*self, 3 * k + j, y as int)));
                }
            }
            let ghost before = data;
            data[y] = row;
            proof {
                lemma_renders_next_row(before, data, *self, LcdTopSide::Left, y as int);
            }
        }
        data
    }

    /// The glyph drawn with Right as the top of the screen.
    pub fn glyph_right(&self) -> (r: GlyphData)
        ensures
            renders(r, *self, LcdTopSide::Right),
    {
        let mut data: GlyphData = [[0u8; GLYPH_DATA_ROW_BYTES]; GLYPH_SIZE];
        for y in 0..GLYPH_SIZE
            invariant
                renders_rows(data, *self, LcdTopSide::Right, y as int),
        {
            let row = self.column_mirror(GLYPH_SIZE - 1 - y);
            proof {
                assert forall|k: int, j: int| 0 <= k < GLYPH_DATA_ROW_BYTES && 0 <= j < 3 implies
                    #[trigger] pixel_bits(row[k], j) == 3 * source_pixel(
                        *self,
                        oriented(LcdTopSide::Right, y as int, 3 * k + j).0,
                        oriented(LcdTopSide::Right, y as int, 3 * k + j).1,
                    ) && row[k] & 3u8 == 0 by {
                    assert(pixel_bits(row[k], j) == 3 * (source_bit(*self, 17 - (3 * k + j), 17 - y)));
                }
            }
            let ghost before = data;
            data[y] = row;
            proof {
                lemma_renders_next_row(before, data, *self, LcdTopSide::Right, y as int);
            }
        }
        data
    }
    /// The glyph drawn with `dir` as the top of the screen.
    pub fn glyph(&self, dir: LcdTopSide) -> (r: GlyphData)
        ensures
            renders(r, *self, dir),
    {
        match dir {
            LcdTopSide::Up => self.glyph_up(),
            LcdTopSide::Down => self.glyph_down(),
            LcdTopSide::Left => self.glyph_left(),
            LcdTopSide::Right => self.glyph_right(),
        }
    }
}

} // verus!
