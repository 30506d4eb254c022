use ev3rt_kit::font::{build_font, Font};
use ev3rt_kit::glyph::LcdTopSide;
use ev3rt_kit::glyph_code::GlyphCode;
use ev3rt_kit::glyph_table::glyph_source;
use ev3rt_kit::lcd::{Lcd, LcdTrait};
use ev3rt_kit::layout::{
    LcdTopSideDown, LcdTopSideLeft, LcdTopSideProvider, LcdTopSideRight, LcdTopSideUp, WindowId,
    LCD_FRAMEBUFFER_SIZE,
};
use ev3rt_kit::screen::{LcdScreenCurrent, LcdScreenNext};
use ev3rt_kit::window::BarParameters;

fn leak_font<TOP: LcdTopSideProvider>() -> &'static Font<TOP> {
    Box::leak(Box::new(build_font::<TOP>()))
}

fn row_of<TOP: LcdTopSideProvider + 'static>(lcd: &Lcd<TOP>, y: usize, xs: std::ops::Range<usize>) -> Vec<GlyphCode> {
    xs.map(|x| lcd.next_screen.get(x, y)).collect()
}

#[test]
fn layout_of_each_orientation() {
    assert_eq!(WindowId::Main.size::<LcdTopSideUp>(), 7);
    assert_eq!(WindowId::Sub1.x::<LcdTopSideUp>(), 7);
    assert_eq!(WindowId::Sub2.y::<LcdTopSideUp>(), 4);
    assert_eq!(WindowId::Main.x::<LcdTopSideDown>(), 3);
    assert_eq!(WindowId::Sub1.y::<LcdTopSideDown>(), 4);
    assert_eq!(WindowId::Sub2.y::<LcdTopSideLeft>(), 0);
    assert_eq!(WindowId::Sub2.size::<LcdTopSideRight>(), 3);
    assert_eq!(LcdTopSideRight::top_side(), LcdTopSide::Right);
}

#[test]
fn cell_get_and_set() {
    let mut screen = LcdScreenNext::new();
    assert_eq!(screen.get(3, 4), GlyphCode::Space);
    screen.set(3, 4, GlyphCode::B);
    assert_eq!(screen.get(3, 4), GlyphCode::B);
    // positions past the end of the screen wrap around
    screen.set(10, 6, GlyphCode::C);
    assert_eq!(screen.get(0, 0), GlyphCode::C);
    screen.clear();
    assert_eq!(screen.get(3, 4), GlyphCode::Space);
    assert_eq!(screen.get(0, 0), GlyphCode::Space);
}

#[test]
fn current_screen_get_and_set() {
    let mut current = LcdScreenCurrent::new(leak_font::<LcdTopSideUp>());
    assert_eq!(current.get(9, 6), GlyphCode::Full);
    current.set(9, 6, GlyphCode::Z);
    assert_eq!(current.get(9, 6), GlyphCode::Z);
}

#[test]
fn refresh_draws_changed_cells_only() {
    let font = leak_font::<LcdTopSideUp>();
    let mut lcd = Lcd::new(font);
    let mut fb = [0xAAu8; LCD_FRAMEBUFFER_SIZE];
    lcd.print(0, "A");
    lcd.refresh(&mut fb);
    // every cell changed from the full block: cell (0, 0) shows A, the others spaces
    let a = glyph_source(GlyphCode::A).glyph(LcdTopSide::Up);
    for r in 0..18 {
        for k in 0..6 {
            assert_eq!(fb[r * 60 + k], a[r][k]);
            assert_eq!(fb[r * 60 + 6 + k], 0);
            assert_eq!(fb[6 * 1080 + r * 60 + 54 + k], 0);
        }
    }
    // the two pixel rows below the cells are untouched
    for p in 7560..LCD_FRAMEBUFFER_SIZE {
        assert_eq!(fb[p], 0xAA);
    }
    assert_eq!(lcd.current_screen.get(0, 0), GlyphCode::A);
    // a second refresh with no change draws nothing
    let mut fb2 = [0x55u8; LCD_FRAMEBUFFER_SIZE];
    lcd.refresh(&mut fb2);
    assert!(fb2.iter().all(|b| *b == 0x55));
    // one change redraws one cell
    lcd.print_char(1, 0, 'B');
    lcd.refresh(&mut fb2);
    let b = glyph_source(GlyphCode::B).glyph(LcdTopSide::Up);
    for p in 0..LCD_FRAMEBUFFER_SIZE {
        let in_cell = p / 1080 == 0 && (p % 60) / 6 == 1 && p < 7560;
        if in_cell {
            assert_eq!(fb2[p], b[(p % 1080) / 60][p % 6]);
        } else {
            assert_eq!(fb2[p], 0x55);
        }
    }
}

#[test]
fn draw_glyph_and_clear_pixels() {
    let font = leak_font::<LcdTopSideUp>();
    let lcd = Lcd::new(font);
    let mut fb = [0u8; LCD_FRAMEBUFFER_SIZE];
    lcd.draw_glyph(&mut fb, GlyphCode::Full, 9, 6);
    assert_eq!(fb[6 * 1080 + 54], 0xFC);
    assert_eq!(fb[6 * 1080 + 17 * 60 + 59], 0xFC);
    assert_eq!(fb[6 * 1080 + 53], 0);
    lcd.clear_pixels(&mut fb);
    assert!(fb.iter().all(|b| *b == 0));
}

#[test]
fn print_turns_with_the_brick() {
    let mut up = Lcd::new(leak_font::<LcdTopSideUp>());
    up.print(0, "AB");
    assert_eq!(row_of(&up, 0, 0..3), vec![GlyphCode::A, GlyphCode::B, GlyphCode::Space]);

    let mut down = Lcd::new(leak_font::<LcdTopSideDown>());
    down.print(0, "AB");
    // main window at x = 3, turned half a turn
    assert_eq!(down.next_screen.get(9, 6), GlyphCode::A);
    assert_eq!(down.next_screen.get(8, 6), GlyphCode::B);

    let mut left = Lcd::new(leak_font::<LcdTopSideLeft>());
    left.print(0, "AB");
    assert_eq!(left.next_screen.get(0, 6), GlyphCode::A);
    assert_eq!(left.next_screen.get(0, 5), GlyphCode::B);

    let mut right = Lcd::new(leak_font::<LcdTopSideRight>());
    right.print(0, "AB");
    assert_eq!(right.next_screen.get(9, 0), GlyphCode::A);
    assert_eq!(right.next_screen.get(9, 1), GlyphCode::B);
}

#[test]
fn print_wraps_and_stops_at_the_window_end() {
    let mut lcd = Lcd::new(leak_font::<LcdTopSideUp>());
    lcd.print_sub1(1, "ABCDEFGHIJ");
    // sub window 1: 3x3 at (7, 0); starts at row 1, wraps, stops after row 2
    assert_eq!(row_of(&lcd, 1, 7..10), vec![GlyphCode::A, GlyphCode::B, GlyphCode::C]);
    assert_eq!(row_of(&lcd, 2, 7..10), vec![GlyphCode::D, GlyphCode::E, GlyphCode::F]);
    assert_eq!(row_of(&lcd, 0, 7..10), vec![GlyphCode::Space; 3]);
    assert_eq!(row_of(&lcd, 3, 7..10), vec![GlyphCode::Space; 3]);

    let mut lcd = Lcd::new(leak_font::<LcdTopSideUp>());
    lcd.print_column_sub2(2, "XYZW");
    // sub window 2 at (7, 4): column 2, top to bottom, then stops
    assert_eq!(lcd.next_screen.get(9, 4), GlyphCode::X);
    assert_eq!(lcd.next_screen.get(9, 5), GlyphCode::Y);
    assert_eq!(lcd.next_screen.get(9, 6), GlyphCode::Z);
    assert_eq!(lcd.next_screen.get(7, 4), GlyphCode::Space);
}

#[test]
fn print_char_and_clear() {
    let mut lcd = Lcd::new(leak_font::<LcdTopSideUp>());
    lcd.print_char(6, 6, '+');
    assert_eq!(lcd.next_screen.get(6, 6), GlyphCode::Plus);
    lcd.print_char_sub2(0, 0, 'v');
    assert_eq!(lcd.next_screen.get(7, 4), GlyphCode::DOWN);
    lcd.clear();
    assert_eq!(lcd.next_screen.get(6, 6), GlyphCode::Space);
    assert_eq!(lcd.current_screen.get(6, 6), GlyphCode::Full);
}

#[test]
fn print_value_right_aligned() {
    let mut lcd = Lcd::new(leak_font::<LcdTopSideUp>());
    lcd.print_value(0, 0, 4, 407);
    assert_eq!(row_of(&lcd, 0, 0..4), vec![GlyphCode::Space, GlyphCode::D4, GlyphCode::D0, GlyphCode::D7]);
    lcd.print_value(1, 2, 3, 0);
    assert_eq!(row_of(&lcd, 1, 2..5), vec![GlyphCode::Space, GlyphCode::Space, GlyphCode::D0]);
    // too many digits for the cells: the leading ones are cut
    lcd.print_value(2, 0, 2, 12345);
    assert_eq!(row_of(&lcd, 2, 0..2), vec![GlyphCode::D4, GlyphCode::D5]);
    // negative values have no digit glyphs
    lcd.print_value(3, 0, 2, -5);
    assert_eq!(row_of(&lcd, 3, 0..2), vec![GlyphCode::Space, GlyphCode::Full]);
    // no digits at all
    lcd.print_value(4, 1, 0, 9);
    assert_eq!(row_of(&lcd, 4, 0..3), vec![GlyphCode::Space; 3]);
}

#[test]
fn print_value_signed_puts_the_sign_first() {
    let mut lcd = Lcd::new(leak_font::<LcdTopSideUp>());
    lcd.print_value_signed(0, 0, 2, -42);
    assert_eq!(row_of(&lcd, 0, 0..3), vec![GlyphCode::Minus, GlyphCode::D4, GlyphCode::D2]);
    lcd.print_value_signed(1, 0, 2, 7);
    assert_eq!(row_of(&lcd, 1, 0..3), vec![GlyphCode::Plus, GlyphCode::Space, GlyphCode::D7]);
    lcd.print_value_signed(2, 0, 2, 0);
    assert_eq!(row_of(&lcd, 2, 0..3), vec![GlyphCode::Space, GlyphCode::Space, GlyphCode::D0]);
    lcd.print_value_signed_sub1(0, 0, 2, 3);
    assert_eq!(row_of(&lcd, 0, 7..10), vec![GlyphCode::Plus, GlyphCode::Space, GlyphCode::D3]);
    lcd.print_value_sub2(0, 0, 3, 5);
    assert_eq!(row_of(&lcd, 4, 7..10), vec![GlyphCode::Space, GlyphCode::Space, GlyphCode::D5]);
}

#[test]
fn bar_parameters() {
    assert_eq!(BarParameters::new(50, 100, 7), BarParameters { full_blocks: 3, empty_blocks: 3, remainder: 9 });
    assert_eq!(BarParameters::new(100, 100, 7), BarParameters { full_blocks: 7, empty_blocks: 0, remainder: 0 });
    assert_eq!(BarParameters::new(1, 100, 3), BarParameters { full_blocks: 0, empty_blocks: 2, remainder: 0 });
}

#[test]
fn horizontal_bars() {
    let mut lcd = Lcd::new(leak_font::<LcdTopSideUp>());
    lcd.bar_horizontal(0, 50, 100);
    let mut expected = vec![GlyphCode::BarLeft18; 3];
    expected.push(GlyphCode::BarLeft9);
    expected.extend(vec![GlyphCode::BarLeft0; 3]);
    assert_eq!(row_of(&lcd, 0, 0..7), expected);

    lcd.bar_horizontal(1, -50, 100);
    let mut expected = vec![GlyphCode::Space; 3];
    expected.push(GlyphCode::BarRight9);
    expected.extend(vec![GlyphCode::BarRight18; 3]);
    assert_eq!(row_of(&lcd, 1, 0..7), expected);

    lcd.bar_horizontal(2, 0, 100);
    assert_eq!(row_of(&lcd, 2, 0..7), vec![GlyphCode::BarRight0; 7]);

    // past the limit the bar is full
    lcd.bar_horizontal(3, 500, 100);
    assert_eq!(row_of(&lcd, 3, 0..7), vec![GlyphCode::BarLeft18; 7]);
    lcd.bar_horizontal(4, -500, 100);
    assert_eq!(row_of(&lcd, 4, 0..7), vec![GlyphCode::BarRight18; 7]);

    lcd.bar_horizontal_sub1(0, 1, 2);
    assert_eq!(row_of(&lcd, 0, 7..10), vec![GlyphCode::BarLeft18, GlyphCode::BarLeft9, GlyphCode::BarLeft0]);
}

#[test]
fn vertical_bars() {
    let mut lcd = Lcd::new(leak_font::<LcdTopSideUp>());
    lcd.bar_vertical(0, 50, 100);
    let column: Vec<GlyphCode> = (0..7).map(|y| lcd.next_screen.get(0, y)).collect();
    let mut expected = vec![GlyphCode::BarUp0; 3];
    expected.push(GlyphCode::BarUp9);
    expected.extend(vec![GlyphCode::BarUp18; 3]);
    assert_eq!(column, expected);

    lcd.bar_vertical(1, -50, 100);
    let column: Vec<GlyphCode> = (0..7).map(|y| lcd.next_screen.get(1, y)).collect();
    let mut expected = vec![GlyphCode::BarDown18; 3];
    expected.push(GlyphCode::BarDown9);
    expected.extend(vec![GlyphCode::BarDown0; 3]);
    assert_eq!(column, expected);

    lcd.next_screen.set(2, 3, GlyphCode::A);
    lcd.bar_vertical(2, 0, 100);
    let column: Vec<GlyphCode> = (0..7).map(|y| lcd.next_screen.get(2, y)).collect();
    assert_eq!(column, vec![GlyphCode::Space; 7]);

    lcd.bar_vertical_sub2(0, 100, 100);
    let column: Vec<GlyphCode> = (4..7).map(|y| lcd.next_screen.get(7, y)).collect();
    assert_eq!(column, vec![GlyphCode::BarUp18; 3]);

    lcd.bar_vertical_sub1(1, -1, 1);
    let column: Vec<GlyphCode> = (0..3).map(|y| lcd.next_screen.get(8, y)).collect();
    assert_eq!(column, vec![GlyphCode::BarDown18; 3]);
}

#[test]
fn negative_limit_bars_show_an_empty_bar() {
    let mut lcd = Lcd::new(leak_font::<LcdTopSideUp>());
    lcd.bar_horizontal(0, 3, -5);
    // the limit turns the value into its magnitude, which scales to nothing
    assert_eq!(row_of(&lcd, 0, 0..7), vec![GlyphCode::BarLeft0; 7]);
}

#[test]
fn lcd_trait_forwards() {
    fn use_trait(lcd: &mut impl LcdTrait) {
        lcd.print(0, "HI");
        lcd.print_column(6, "OK");
        lcd.print_value(1, 0, 2, 12);
        lcd.print_value_signed(2, 0, 2, -1);
        lcd.bar_horizontal(3, 1, 1);
        lcd.bar_vertical(5, 0, 1);
        lcd.print_char_sub1(0, 0, 'A');
        lcd.print_sub1(1, "B");
        lcd.print_column_sub1(2, "C");
        lcd.print_value_sub1(2, 0, 1, 4);
        lcd.print_value_signed_sub1(0, 0, 1, 1);
        lcd.bar_vertical_sub1(0, 0, 1);
        lcd.bar_horizontal_sub1(0, 0, 1);
        lcd.print_char_sub2(0, 0, 'D');
        lcd.print_sub2(1, "E");
        lcd.print_column_sub2(2, "F");
        lcd.print_value_sub2(2, 0, 1, 6);
        lcd.print_value_signed_sub2(0, 0, 1, -6);
        lcd.bar_vertical_sub2(0, 0, 1);
        lcd.bar_horizontal_sub2(0, 0, 1);
        lcd.print_char(6, 6, 'Z');
    }
    let mut lcd = Lcd::new(leak_font::<LcdTopSideUp>());
    use_trait(&mut lcd);
    assert_eq!(lcd.next_screen.get(0, 0), GlyphCode::H);
    assert_eq!(lcd.next_screen.get(1, 0), GlyphCode::I);
    assert_eq!(lcd.next_screen.get(6, 0), GlyphCode::O);
    assert_eq!(lcd.next_screen.get(6, 1), GlyphCode::K);
    assert_eq!(lcd.next_screen.get(6, 6), GlyphCode::Z);
    assert_eq!(lcd.next_screen.get(0, 1), GlyphCode::D1);
    assert_eq!(lcd.next_screen.get(1, 1), GlyphCode::D2);
    assert_eq!(lcd.next_screen.get(0, 2), GlyphCode::Minus);
    assert_eq!(lcd.next_screen.get(2, 2), GlyphCode::D1);
    LcdTrait::clear(&mut lcd);
    assert_eq!(lcd.next_screen.get(0, 0), GlyphCode::Space);
}

#[test]
fn screens_have_a_cell_for_each_glyph_position() {
    let mut next = LcdScreenNext::new();
    assert_eq!(next.cell_count(), 70);
    next.set(9, 6, GlyphCode::Z);
    assert_eq!(next.cell_count(), 70);
    assert_eq!(next.get(9, 6), GlyphCode::Z);
    let current = LcdScreenCurrent::new(leak_font::<LcdTopSideUp>());
    assert_eq!(current.cell_count(), 70);
}
