use ev3rt_kit::font::build_font;
use ev3rt_kit::glyph::{GlyphData, GlyphDataRowByte, GlyphSource, LcdTopSide, GLYPH_SIZE};
use ev3rt_kit::glyph_code::{byte_to_glyph_code, glyph_digit, GlyphCode, GLYPH_CODE_COUNT};
use ev3rt_kit::glyph_table::{glyph_bar_down, glyph_bar_left, glyph_bar_right, glyph_bar_up, glyph_source, FULL_ROW, GLYPH_A};
use ev3rt_kit::layout::{LcdTopSideDown, LcdTopSideUp};

fn top_left_pixel() -> GlyphSource {
    let mut bits = [0u32; GLYPH_SIZE];
    bits[0] = 1 << 17;
    GlyphSource::new(bits)
}

fn pixel(data: &GlyphData, y: usize, x: usize) -> u8 {
    (data[y][x / 3] >> (2 * (x % 3) + 2)) & 3
}

#[test]
fn direct_byte_packs_leftmost_first() {
    assert_eq!(GlyphDataRowByte::new_direct((1, 0, 0)).byte, 0b0000_1100);
    assert_eq!(GlyphDataRowByte::new_direct((0, 1, 0)).byte, 0b0011_0000);
    assert_eq!(GlyphDataRowByte::new_direct((0, 0, 1)).byte, 0b1100_0000);
    assert_eq!(GlyphDataRowByte::new_direct((1, 1, 1)).byte, 0b1111_1100);
    assert_eq!(GlyphDataRowByte::new_direct((1, 0, 1)).byte, 12 + 192);
}

#[test]
fn mirror_byte_packs_rightmost_first() {
    assert_eq!(GlyphDataRowByte::new_mirror((1, 0, 0)).byte, 0b1100_0000);
    assert_eq!(GlyphDataRowByte::new_mirror((0, 0, 1)).byte, 0b0000_1100);
    assert_eq!(GlyphDataRowByte::new_mirror((0, 1, 1)).byte, 0b0011_1100);
}

#[test]
fn bit_reads_one_pixel() {
    let src = GlyphSource::new(GLYPH_A);
    // row 2 of A is 0b000000011110000000
    assert_eq!(src.bit(2, 7), 1);
    assert_eq!(src.bit(2, 10), 1);
    assert_eq!(src.bit(2, 11), 0);
    assert_eq!(src.bit(2, 6), 0);
    assert_eq!(src.bit(0, 31), 0);
}

#[test]
fn row_and_column_bits() {
    let src = top_left_pixel();
    assert_eq!(src.row_bits_direct(0, 5), (0, 0, 1));
    assert_eq!(src.row_bits_mirror(0, 0), (0, 0, 1));
    assert_eq!(src.column_bits_direct(17, 0), (1, 0, 0));
    assert_eq!(src.column_bits_mirror(17, 5), (1, 0, 0));
    assert_eq!(src.row_byte_mirror(0, 0), 0b0000_1100);
    assert_eq!(src.row_byte_direct(0, 5), 0b1100_0000);
    assert_eq!(src.column_byte_direct(17, 0), 0b0000_1100);
    assert_eq!(src.column_byte_mirror(17, 5), 0b1100_0000);
}

#[test]
fn rows_and_columns_of_a_single_pixel() {
    let src = top_left_pixel();
    assert_eq!(src.row_mirror(0), [12, 0, 0, 0, 0, 0]);
    assert_eq!(src.row_direct(0), [0, 0, 0, 0, 0, 192]);
    assert_eq!(src.column_direct(17), [12, 0, 0, 0, 0, 0]);
    assert_eq!(src.column_mirror(17), [0, 0, 0, 0, 0, 192]);
    assert_eq!(src.row_direct(1), [0; 6]);
}

#[test]
fn single_pixel_turns_with_the_top_side() {
    let src = top_left_pixel();
    let up = src.glyph(LcdTopSide::Up);
    let down = src.glyph(LcdTopSide::Down);
    let left = src.glyph(LcdTopSide::Left);
    let right = src.glyph(LcdTopSide::Right);
    for y in 0..18 {
        for x in 0..18 {
            assert_eq!(pixel(&up, y, x), if (y, x) == (0, 0) { 3 } else { 0 });
            assert_eq!(pixel(&down, y, x), if (y, x) == (17, 17) { 3 } else { 0 });
            assert_eq!(pixel(&left, y, x), if (y, x) == (17, 0) { 3 } else { 0 });
            assert_eq!(pixel(&right, y, x), if (y, x) == (0, 17) { 3 } else { 0 });
        }
    }
    assert_eq!(src.glyph_up(), up);
    assert_eq!(src.glyph_down(), down);
    assert_eq!(src.glyph_left(), left);
    assert_eq!(src.glyph_right(), right);
}

#[test]
fn every_orientation_shows_the_source_pixels() {
    let src = GlyphSource::new(GLYPH_A);
    let sp = |y: usize, x: usize| -> u8 { (((src.bits[y] >> (17 - x)) & 1) as u8) * 3 };
    for (dir, f) in [
        (LcdTopSide::Up, (|y: usize, x: usize| (y, x)) as fn(usize, usize) -> (usize, usize)),
        (LcdTopSide::Down, |y, x| (17 - y, 17 - x)),
        (LcdTopSide::Left, |y, x| (x, 17 - y)),
        (LcdTopSide::Right, |y, x| (17 - x, y)),
    ] {
        let g = src.glyph(dir);
        for y in 0..18 {
            for x in 0..18 {
                let (sy, sx) = f(y, x);
                assert_eq!(pixel(&g, y, x), sp(sy, sx));
            }
            for k in 0..6 {
                assert_eq!(g[y][k] & 3, 0);
            }
        }
    }
}

#[test]
fn full_and_space_glyphs() {
    let full = glyph_source(GlyphCode::Full).glyph(LcdTopSide::Left);
    assert_eq!(full, [[0xFC; 6]; 18]);
    let space = glyph_source(GlyphCode::Space).glyph(LcdTopSide::Right);
    assert_eq!(space, [[0; 6]; 18]);
}

#[test]
fn bar_sources() {
    let up = glyph_bar_up(3);
    assert_eq!(up.bits[17], 0b001111111111111100);
    assert_eq!(up.bits[15], 0b001111111111111100);
    assert_eq!(up.bits[14], 0);
    let down = glyph_bar_down(3);
    assert_eq!(down.bits[0], 0b001111111111111100);
    assert_eq!(down.bits[2], 0b001111111111111100);
    assert_eq!(down.bits[3], 0);
    assert_eq!(glyph_bar_left(0).bits, [0; 18]);
    assert_eq!(glyph_bar_left(18).bits, [FULL_ROW; 18]);
    assert_eq!(glyph_bar_left(2).bits[5], 0b110000000000000000);
    assert_eq!(glyph_bar_right(2).bits[5], 0b11);
    assert_eq!(glyph_bar_right(18).bits[0], FULL_ROW);
    assert_eq!(glyph_source(GlyphCode::BarLeft2).bits, glyph_bar_left(2).bits);
    assert_eq!(glyph_source(GlyphCode::BarUp18).bits, glyph_bar_up(18).bits);
    assert_eq!(glyph_source(GlyphCode::A).bits, GLYPH_A);
}

#[test]
fn glyph_codes_round_trip() {
    for i in 0..GLYPH_CODE_COUNT {
        assert_eq!(GlyphCode::from(i).index(), i);
    }
    assert_eq!(GlyphCode::from(GLYPH_CODE_COUNT), GlyphCode::Space);
    assert_eq!(GlyphCode::from(1000), GlyphCode::Space);
    assert_eq!(GlyphCode::Count.index(), 126);
    assert_eq!(GlyphCode::BarLeft0.index(), 88);
    assert_eq!(GlyphCode::from(12), GlyphCode::A);
}

#[test]
fn bytes_map_to_glyphs() {
    assert_eq!(byte_to_glyph_code(b'7'), GlyphCode::D7);
    assert_eq!(byte_to_glyph_code(b'Q'), GlyphCode::Q);
    assert_eq!(byte_to_glyph_code(b' '), GlyphCode::Space);
    assert_eq!(byte_to_glyph_code(b'_'), GlyphCode::Full);
    assert_eq!(byte_to_glyph_code(b'\\'), GlyphCode::UpLEFT);
    assert_eq!(byte_to_glyph_code(b'/'), GlyphCode::UpRIGHT);
    assert_eq!(byte_to_glyph_code(b'y'), GlyphCode::Yes);
    assert_eq!(byte_to_glyph_code(b'a'), GlyphCode::Full);
    assert_eq!(byte_to_glyph_code(0xFF), GlyphCode::Full);
    assert_eq!(glyph_digit(0), GlyphCode::D0);
    assert_eq!(glyph_digit(9), GlyphCode::D9);
    assert_eq!(glyph_digit(10), GlyphCode::Full);
    assert_eq!(glyph_digit(-3), GlyphCode::Full);
}

#[test]
fn font_holds_every_glyph_turned() {
    let up = build_font::<LcdTopSideUp>();
    let down = build_font::<LcdTopSideDown>();
    for i in 0..GLYPH_CODE_COUNT {
        let code = GlyphCode::from(i);
        assert_eq!(*up.glyph_data(code), glyph_source(code).glyph(LcdTopSide::Up));
        assert_eq!(*down.glyph_data(code), glyph_source(code).glyph(LcdTopSide::Down));
    }
    assert_eq!(*up.glyph_data(GlyphCode::Full), [[0xFC; 6]; 18]);
}
