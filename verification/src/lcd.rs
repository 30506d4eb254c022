//! The display: the screen being composed, the screen shown, and the three
//! windows that text, numbers and bars go into.
use vstd::prelude::*;
use vstd::string::StringSliceAdditionalSpecFns;
use core::marker::PhantomData;
use crate::font::Font;
use crate::glyph_code::{glyph_for_byte, GlyphCode};
use crate::layout::{
    Framebuffer, LcdLayout, LcdTopSideProvider, WindowId, WindowIdMain, WindowIdSub1, WindowIdSub2,
    LCD_CELLS, LCD_FRAMEBUFFER_SIZE,
};
use crate::screen::{all_cells, glyph_base, glyph_drawn, glyph_fits, refreshed, LcdScreenCurrent, LcdScreenNext};
use crate::window::{
    bar_ok, bar_writes, print_column_ok, print_column_writes, print_row_ok, print_row_writes,
    print_value_ok, print_value_signed_ok, print_value_signed_result, print_value_writes, window_cell_ok,
    window_write, window_writes, Window,
};

verus! {

/// Text, numbers and bars for the three windows of a display.
pub trait LcdTrait {
    /// The layout of the display's windows.
    spec fn layout(&self) -> LcdLayout;

    /// The cells of the screen being composed.
    spec fn next_cells(&self) -> Seq<GlyphCode>;

    /// Fills the screen being composed with spaces.
    fn clear(&mut self)
        ensures
            old(self).next_cells().len() == LCD_CELLS,
            final(self).next_cells().len() == LCD_CELLS,
            final(self).next_cells() == all_cells(GlyphCode::Space),
            final(self).layout() == old(self).layout(),
    ;

    /// Writes the glyph of character `c` (by its low byte) into cell `(x, y)` of the main window.
    fn print_char(&mut self, x: usize, y: usize, c: char)
        requires
            window_cell_ok(old(self).layout(), WindowId::Main, x as int, y as int),
        ensures
            old(self).next_cells().len() == LCD_CELLS,
            final(self).next_cells().len() == LCD_CELLS,
            final(self).next_cells() == window_write(old(self).next_cells(), old(self).layout(), WindowId::Main, x as int, y as int, glyph_for_byte(c as u8)),
            final(self).layout() == old(self).layout(),
    ;

    /// Prints `text` into the main window row by row from the start of row `row`.
    fn print(&mut self, row: usize, text: &str)
        requires
            print_row_ok(old(self).layout(), WindowId::Main, row as int, text.spec_bytes()),
        ensures
            old(self).next_cells().len() == LCD_CELLS,
            final(self).next_cells().len() == LCD_CELLS,
            final(self).next_cells() == window_writes(old(self).next_cells(), old(self).layout(), WindowId::Main, print_row_writes(old(self).layout().placement(WindowId::Main).size as int, row as int, text.spec_bytes())),
            final(self).layout() == old(self).layout(),
    ;

    /// Prints `text` into the main window column by column from the top of column `column`.
    fn print_column(&mut self, column: usize, text: &str)
        requires
            print_column_ok(old(self).layout(), WindowId::Main, column as int, text.spec_bytes()),
        ensures
            old(self).next_cells().len() == LCD_CELLS,
            final(self).next_cells().len() == LCD_CELLS,
            final(self).next_cells() == window_writes(old(self).next_cells(), old(self).layout(), WindowId::Main, print_column_writes(old(self).layout().placement(WindowId::Main).size as int, column as int, text.spec_bytes())),
            final(self).layout() == old(self).layout(),
    ;

    /// Prints `value` right-aligned in `digits` cells of row `row` of the main window, from column `column`.
    fn print_value(&mut self, row: usize, column: usize, digits: usize, value: i32)
        requires
            print_value_ok(old(self).layout(), WindowId::Main, row as int, column as int, digits as int, value as int),
        ensures
            old(self).next_cells().len() == LCD_CELLS,
            final(self).next_cells().len() == LCD_CELLS,
            final(self).next_cells() == window_writes(old(self).next_cells(), old(self).layout(), WindowId::Main, print_value_writes(row as int, column as int, digits as int, value as int)),
            final(self).layout() == old(self).layout(),
    ;

    /// Prints the sign of `value` at `(column, row)` of the main window and its magnitude in the `digits` cells after it.
    fn print_value_signed(&mut self, row: usize, column: usize, digits: usize, value: i32)
        requires
            print_value_signed_ok(old(self).layout(), WindowId::Main, row as int, column as int, digits as int, value as int),
        ensures
            old(self).next_cells().len() == LCD_CELLS,
            final(self).next_cells().len() == LCD_CELLS,
            final(self).next_cells() == print_value_signed_result(old(self).next_cells(), old(self).layout(), WindowId::Main, row as int, column as int, digits as int, value as int),
            final(self).layout() == old(self).layout(),
    ;

    /// Draws a vertical bar of `value` out of `limit` in column `column` of the main window.
    fn bar_vertical(&mut self, column: usize, value: i32, limit: i32)
        requires
            bar_ok(old(self).layout(), WindowId::Main, column as int, value, limit, false),
        ensures
            old(self).next_cells().len() == LCD_CELLS,
            final(self).next_cells().len() == LCD_CELLS,
            final(self).next_cells() == window_writes(old(self).next_cells(), old(self).layout(), WindowId::Main, bar_writes(old(self).layout().placement(WindowId::Main).size, column as int, value, limit, false)),
            final(self).layout() == old(self).layout(),
    ;

    /// Draws a horizontal bar of `value` out of `limit` in row `row` of the main window.
    fn bar_horizontal(&mut self, row: usize, value: i32, limit: i32)
        requires
            bar_ok(old(self).layout(), WindowId::Main, row as int, value, limit, true),
        ensures
            old(self).next_cells().len() == LCD_CELLS,
            final(self).next_cells().len() == LCD_CELLS,
            final(self).next_cells() == window_writes(old(self).next_cells(), old(self).layout(), WindowId::Main, bar_writes(old(self).layout().placement(WindowId::Main).size, row as int, value, limit, true)),
            final(self).layout() == old(self).layout(),
    ;

    /// Writes the glyph of character `c` (by its low byte) into cell `(x, y)` of the first small window.
    fn print_char_sub1(&mut self, x: usize, y: usize, c: char)
        requires
            window_cell_ok(old(self).layout(), WindowId::Sub1, x as int, y as int),
        ensures
            old(self).next_cells().len() == LCD_CELLS,
            final(self).next_cells().len() == LCD_CELLS,
            final(self).next_cells() == window_write(old(self).next_cells(), old(self).layout(), WindowId::Sub1, x as int, y as int, glyph_for_byte(c as u8)),
            final(self).layout() == old(self).layout(),
    ;

    /// Prints `text` into the first small window row by row from the start of row `row`.
    fn print_sub1(&mut self, row: usize, text: &str)
        requires
            print_row_ok(old(self).layout(), WindowId::Sub1, row as int, text.spec_bytes()),
        ensures
            old(self).next_cells().len() == LCD_CELLS,
            final(self).next_cells().len() == LCD_CELLS,
            final(self).next_cells() == window_writes(old(self).next_cells(), old(self).layout(), WindowId::Sub1, print_row_writes(old(self).layout().placement(WindowId::Sub1).size as int, row as int, text.spec_bytes())),
            final(self).layout() == old(self).layout(),
    ;

    /// Prints `text` into the first small window column by column from the top of column `column`.
    fn print_column_sub1(&mut self, column: usize, text: &str)
        requires
            print_column_ok(old(self).layout(), WindowId::Sub1, column as int, text.spec_bytes()),
        ensures
            old(self).next_cells().len() == LCD_CELLS,
            final(self).next_cells().len() == LCD_CELLS,
            final(self).next_cells() == window_writes(old(self).next_cells(), old(self).layout(), WindowId::Sub1, print_column_writes(old(self).layout().placement(WindowId::Sub1).size as int, column as int, text.spec_bytes())),
            final(self).layout() == old(self).layout(),
    ;

    /// Prints `value` right-aligned in `digits` cells of row `row` of the first small window, from column `column`.
    fn print_value_sub1(&mut self, row: usize, column: usize, digits: usize, value: i32)
        requires
            print_value_ok(old(self).layout(), WindowId::Sub1, row as int, column as int, digits as int, value as int),
        ensures
            old(self).next_cells().len() == LCD_CELLS,
            final(self).next_cells().len() == LCD_CELLS,
            final(self).next_cells() == window_writes(old(self).next_cells(), old(self).layout(), WindowId::Sub1, print_value_writes(row as int, column as int, digits as int, value as int)),
            final(self).layout() == old(self).layout(),
    ;

    /// Prints the sign of `value` at `(column, row)` of the first small window and its magnitude in the `digits` cells after it.
    fn print_value_signed_sub1(&mut self, row: usize, column: usize, digits: usize, value: i32)
        requires
            print_value_signed_ok(old(self).layout(), WindowId::Sub1, row as int, column as int, digits as int, value as int),
        ensures
            old(self).next_cells().len() == LCD_CELLS,
            final(self).next_cells().len() == LCD_CELLS,
            final(self).next_cells() == print_value_signed_result(old(self).next_cells(), old(self).layout(), WindowId::Sub1, row as int, column as int, digits as int, value as int),
            final(self).layout() == old(self).layout(),
    ;

    /// Draws a vertical bar of `value` out of `limit` in column `column` of the first small window.
    fn bar_vertical_sub1(&mut self, column: usize, value: i32, limit: i32)
        requires
            bar_ok(old(self).layout(), WindowId::Sub1, column as int, value, limit, false),
        ensures
            old(self).next_cells().len() == LCD_CELLS,
            final(self).next_cells().len() == LCD_CELLS,
            final(self).next_cells() == window_writes(old(self).next_cells(), old(self).layout(), WindowId::Sub1, bar_writes(old(self).layout().placement(WindowId::Sub1).size, column as int, value, limit, false)),
            final(self).layout() == old(self).layout(),
    ;

    /// Draws a horizontal bar of `value` out of `limit` in row `row` of the first small window.
    fn bar_horizontal_sub1(&mut self, row: usize, value: i32, limit: i32)
        requires
            bar_ok(old(self).layout(), WindowId::Sub1, row as int, value, limit, true),
        ensures
            old(self).next_cells().len() == LCD_CELLS,
            final(self).next_cells().len() == LCD_CELLS,
            final(self).next_cells() == window_writes(old(self).next_cells(), old(self).layout(), WindowId::Sub1, bar_writes(old(self).layout().placement(WindowId::Sub1).size, row as int, value, limit, true)),
            final(self).layout() == old(self).layout(),
    ;

    /// Writes the glyph of character `c` (by its low byte) into cell `(x, y)` of the second small window.
    fn print_char_sub2(&mut self, x: usize, y: usize, c: char)
        requires
            window_cell_ok(old(self).layout(), WindowId::Sub2, x as int, y as int),
        ensures
            old(self).next_cells().len() == LCD_CELLS,
            final(self).next_cells().len() == LCD_CELLS,
            final(self).next_cells() == window_write(old(self).next_cells(), old(self).layout(), WindowId::Sub2, x as int, y as int, glyph_for_byte(c as u8)),
            final(self).layout() == old(self).layout(),
    ;

    /// Prints `text` into the second small window row by row from the start of row `row`.
    fn print_sub2(&mut self, row: usize, text: &str)
        requires
            print_row_ok(old(self).layout(), WindowId::Sub2, row as int, text.spec_bytes()),
        ensures
            old(self).next_cells().len() == LCD_CELLS,
            final(self).next_cells().len() == LCD_CELLS,
            final(self).next_cells() == window_writes(old(self).next_cells(), old(self).layout(), WindowId::Sub2, print_row_writes(old(self).layout().placement(WindowId::Sub2).size as int, row as int, text.spec_bytes())),
            final(self).layout() == old(self).layout(),
    ;

    /// Prints `text` into the second small window column by column from the top of column `column`.
    fn print_column_sub2(&mut self, column: usize, text: &str)
        requires
            print_column_ok(old(self).layout(), WindowId::Sub2, column as int, text.spec_bytes()),
        ensures
            old(self).next_cells().len() == LCD_CELLS,
            final(self).next_cells().len() == LCD_CELLS,
            final(self).next_cells() == window_writes(old(self).next_cells(), old(self).layout(), WindowId::Sub2, print_column_writes(old(self).layout().placement(WindowId::Sub2).size as int, column as int, text.spec_bytes())),
            final(self).layout() == old(self).layout(),
    ;

    /// Prints `value` right-aligned in `digits` cells of row `row` of the second small window, from column `column`.
    fn print_value_sub2(&mut self, row: usize, column: usize, digits: usize, value: i32)
        requires
            print_value_ok(old(self).layout(), WindowId::Sub2, row as int, column as int, digits as int, value as int),
        ensures
            old(self).next_cells().len() == LCD_CELLS,
            final(self).next_cells().len() == LCD_CELLS,
            final(self).next_cells() == window_writes(old(self).next_cells(), old(self).layout(), WindowId::Sub2, print_value_writes(row as int, column as int, digits as int, value as int)),
            final(self).layout() == old(self).layout(),
    ;

    /// Prints the sign of `value` at `(column, row)` of the second small window and its magnitude in the `digits` cells after it.
    fn print_value_signed_sub2(&mut self, row: usize, column: usize, digits: usize, value: i32)
        requires
            print_value_signed_ok(old(self).layout(), WindowId::Sub2, row as int, column as int, digits as int, value as int),
        ensures
            old(self).next_cells().len() == LCD_CELLS,
            final(self).next_cells().len() == LCD_CELLS,
            final(self).next_cells() == print_value_signed_result(old(self).next_cells(), old(self).layout(), WindowId::Sub2, row as int, column as int, digits as int, value as int),
            final(self).layout() == old(self).layout(),
    ;

    /// Draws a vertical bar of `value` out of `limit` in column `column` of the second small window.
    fn bar_vertical_sub2(&mut self, column: usize, value: i32, limit: i32)
        requires
            bar_ok(old(self).layout(), WindowId::Sub2, column as int, value, limit, false),
        ensures
            old(self).next_cells().len() == LCD_CELLS,
            final(self).next_cells().len() == LCD_CELLS,
            final(self).next_cells() == window_writes(old(self).next_cells(), old(self).layout(), WindowId::Sub2, bar_writes(old(self).layout().placement(WindowId::Sub2).size, column as int, value, limit, false)),
            final(self).layout() == old(self).layout(),
    ;

    /// Draws a horizontal bar of `value` out of `limit` in row `row` of the second small window.
    fn bar_horizontal_sub2(&mut self, row: usize, value: i32, limit: i32)
        requires
            bar_ok(old(self).layout(), WindowId::Sub2, row as int, value, limit, true),
        ensures
            old(self).next_cells().len() == LCD_CELLS,
            final(self).next_cells().len() == LCD_CELLS,
            final(self).next_cells() == window_writes(old(self).next_cells(), old(self).layout(), WindowId::Sub2, bar_writes(old(self).layout().placement(WindowId::Sub2).size, row as int, value, limit, true)),
            final(self).layout() == old(self).layout(),
    ;

}

pub struct Lcd<TOP: LcdTopSideProvider + 'static> {
    pub top: PhantomData<TOP>,
    pub current_screen: LcdScreenCurrent<TOP>,
    pub next_screen: LcdScreenNext,
    pub main_window: Window<WindowIdMain, TOP>,
    pub sub1_window: Window<WindowIdSub1, TOP>,
    pub sub2_window: Window<WindowIdSub2, TOP>,
}

impl<TOP: LcdTopSideProvider + 'static> Lcd<TOP> {
    /// A display whose screen being composed is blank and whose first
    /// refresh draws every cell.
    pub fn new(font: &'static Font<TOP>) -> (r: Self)
        ensures
            r.current_screen@ == all_cells(GlyphCode::Full),
            r.current_screen.glyphs() == font@,
            r.next_screen@ == all_cells(GlyphCode::Space),
    {
        Self {
            top: PhantomData,
            current_screen: LcdScreenCurrent::new(font),
            next_screen: LcdScreenNext::new(),
            main_window: Window::new(),
            sub1_window: Window::new(),
            sub2_window: Window::new(),
        }
    }

    /// Blanks every pixel of the framebuffer.
    pub fn clear_pixels(&self, fb: &mut Framebuffer)
        ensures
            final(fb)@ == Seq::new(LCD_FRAMEBUFFER_SIZE as nat, |i: int| 0u8),
    {
        for i in 0..LCD_FRAMEBUFFER_SIZE
            invariant
                fb@.len() == LCD_FRAMEBUFFER_SIZE,
                forall|k: int| 0 <= k < i ==> #[trigger] fb@[k] == 0u8,
        {
            fb[i] = 0;
        }
        assert(fb@ =~= Seq::new(LCD_FRAMEBUFFER_SIZE as nat, |i: int| 0u8));
    }

    /// Fills the screen being composed with spaces.
    pub fn clear(&mut self)
        ensures
            old(self).next_screen@.len() == LCD_CELLS,
            final(self).next_screen@.len() == LCD_CELLS,
            final(self).next_screen@ == all_cells(GlyphCode::Space),
            final(self).current_screen == old(self).current_screen,
    {
        self.next_screen.clear();
    }

    /// Makes the display show the screen being composed, drawing the cells
    /// that change into the framebuffer.
    pub fn refresh(&mut self, fb: &mut Framebuffer)
        requires
            forall|i: int|
                0 <= i < LCD_CELLS && #[trigger] old(self).current_screen@[i] != old(self).next_screen@[i]
                    ==> old(self).next_screen@[i] != GlyphCode::Count,
        ensures
            old(self).current_screen@.len() == LCD_CELLS,
            old(self).next_screen@.len() == LCD_CELLS,
            final(self).current_screen@ == old(self).next_screen@,
            final(self).current_screen.glyphs() == old(self).current_screen.glyphs(),
            final(self).next_screen == old(self).next_screen,
            refreshed(
                old(fb)@,
                final(fb)@,
                old(self).current_screen@,
                old(self).next_screen@,
                old(self).current_screen.glyphs(),
            ),
    {
        self.current_screen.refresh(&self.next_screen, fb);
    }

    /// Draws the glyph of `c` into cell `(x, y)` of the framebuffer.
    pub fn draw_glyph(&self, fb: &mut Framebuffer, c: GlyphCode, x: usize, y: usize)
        requires
            c != GlyphCode::Count,
            glyph_fits(x as int, y as int),
        ensures
            glyph_drawn(
                old(fb)@,
                final(fb)@,
                self.current_screen.glyphs()[c.code_index() as int],
                glyph_base(x as int, y as int),
            ),
    {
        self.current_screen.draw_glyph(fb, c, x, y);
    }

    /// Writes the glyph of character `c` (by its low byte) into cell `(x, y)` of the main window.
    pub fn print_char(&mut self, x: usize, y: usize, c: char)
        requires
            window_cell_ok(TOP::layout(), WindowId::Main, x as int, y as int),
        ensures
            old(self).next_screen@.len() == LCD_CELLS,
            final(self).next_screen@.len() == LCD_CELLS,
            final(self).next_screen@ == window_write(old(self).next_screen@, TOP::layout(), WindowId::Main, x as int, y as int, glyph_for_byte(c as u8)),
            final(self).current_screen == old(self).current_screen,
    {
        self.main_window.print_char(x, y, c, &mut self.next_screen);
    }

    /// Prints `text` into the main window row by row from the start of row `row`.
    pub fn print(&mut self, row: usize, text: &str)
        requires
            print_row_ok(TOP::layout(), WindowId::Main, row as int, text.spec_bytes()),
        ensures
            old(self).next_screen@.len() == LCD_CELLS,
            final(self).next_screen@.len() == LCD_CELLS,
            final(self).next_screen@ == window_writes(old(self).next_screen@, TOP::layout(), WindowId::Main, print_row_writes(TOP::layout().placement(WindowId::Main).size as int, row as int, text.spec_bytes())),
            final(self).current_screen == old(self).current_screen,
    {
        self.main_window.print_row(row, text, &mut self.next_screen);
    }

    /// Prints `text` into the main window column by column from the top of column `column`.
    pub fn print_column(&mut self, column: usize, text: &str)
        requires
            print_column_ok(TOP::layout(), WindowId::Main, column as int, text.spec_bytes()),
        ensures
            old(self).next_screen@.len() == LCD_CELLS,
            final(self).next_screen@.len() == LCD_CELLS,
            final(self).next_screen@ == window_writes(old(self).next_screen@, TOP::layout(), WindowId::Main, print_column_writes(TOP::layout().placement(WindowId::Main).size as int, column as int, text.spec_bytes())),
            final(self).current_screen == old(self).current_screen,
    {
        self.main_window.print_column(column, text, &mut self.next_screen);
    }

    /// Prints `value` right-aligned in `digits` cells of row `row` of the main window, from column `column`.
    pub fn print_value(&mut self, row: usize, column: usize, digits: usize, value: i32)
        requires
            print_value_ok(TOP::layout(), WindowId::Main, row as int, column as int, digits as int, value as int),
        ensures
            old(self).next_screen@.len() == LCD_CELLS,
            final(self).next_screen@.len() == LCD_CELLS,
            final(self).next_screen@ == window_writes(old(self).next_screen@, TOP::layout(), WindowId::Main, print_value_writes(row as int, column as int, digits as int, value as int)),
            final(self).current_screen == old(self).current_screen,
    {
        self.main_window.print_value(row, column, digits, value, &mut self.next_screen);
    }

    /// Prints the sign of `value` at `(column, row)` of the main window and its magnitude in the `digits` cells after it.
    pub fn print_value_signed(&mut self, row: usize, column: usize, digits: usize, value: i32)
        requires
            print_value_signed_ok(TOP::layout(), WindowId::Main, row as int, column as int, digits as int, value as int),
        ensures
            old(self).next_screen@.len() == LCD_CELLS,
            final(self).next_screen@.len() == LCD_CELLS,
            final(self).next_screen@ == print_value_signed_result(old(self).next_screen@, TOP::layout(), WindowId::Main, row as int, column as int, digits as int, value as int),
            final(self).current_screen == old(self).current_screen,
    {
        self.main_window.print_value_signed(row, column, digits, value, &mut self.next_screen);
    }

    /// Draws a vertical bar of `value` out of `limit` in column `column` of the main window.
    pub fn bar_vertical(&mut self, column: usize, value: i32, limit: i32)
        requires
            bar_ok(TOP::layout(), WindowId::Main, column as int, value, limit, false),
        ensures
            old(self).next_screen@.len() == LCD_CELLS,
            final(self).next_screen@.len() == LCD_CELLS,
            final(self).next_screen@ == window_writes(old(self).next_screen@, TOP::layout(), WindowId::Main, bar_writes(TOP::layout().placement(WindowId::Main).size, column as int, value, limit, false)),
            final(self).current_screen == old(self).current_screen,
    {
        self.main_window.bar_vertical(column, value, limit, &mut self.next_screen);
    }

    /// Draws a horizontal bar of `value` out of `limit` in row `row` of the main window.
    pub fn bar_horizontal(&mut self, row: usize, value: i32, limit: i32)
        requires
            bar_ok(TOP::layout(), WindowId::Main, row as int, value, limit, true),
        ensures
            old(self).next_screen@.len() == LCD_CELLS,
            final(self).next_screen@.len() == LCD_CELLS,
            final(self).next_screen@ == window_writes(old(self).next_screen@, TOP::layout(), WindowId::Main, bar_writes(TOP::layout().placement(WindowId::Main).size, row as int, value, limit, true)),
            final(self).current_screen == old(self).current_screen,
    {
        self.main_window.bar_horizontal(row, value, limit, &mut self.next_screen);
    }

    /// Writes the glyph of character `c` (by its low byte) into cell `(x, y)` of the first small window.
    pub fn print_char_sub1(&mut self, x: usize, y: usize, c: char)
        requires
            window_cell_ok(TOP::layout(), WindowId::Sub1, x as int, y as int),
        ensures
            old(self).next_screen@.len() == LCD_CELLS,
            final(self).next_screen@.len() == LCD_CELLS,
            final(self).next_screen@ == window_write(old(self).next_screen@, TOP::layout(), WindowId::Sub1, x as int, y as int, glyph_for_byte(c as u8)),
            final(self).current_screen == old(self).current_screen,
    {
        self.sub1_window.print_char(x, y, c, &mut self.next_screen);
    }

    /// Prints `text` into the first small window row by row from the start of row `row`.
    pub fn print_sub1(&mut self, row: usize, text: &str)
        requires
            print_row_ok(TOP::layout(), WindowId::Sub1, row as int, text.spec_bytes()),
        ensures
            old(self).next_screen@.len() == LCD_CELLS,
            final(self).next_screen@.len() == LCD_CELLS,
            final(self).next_screen@ == window_writes(old(self).next_screen@, TOP::layout(), WindowId::Sub1, print_row_writes(TOP::layout().placement(WindowId::Sub1).size as int, row as int, text.spec_bytes())),
            final(self).current_screen == old(self).current_screen,
    {
        self.sub1_window.print_row(row, text, &mut self.next_screen);
    }

    /// Prints `text` into the first small window column by column from the top of column `column`.
    pub fn print_column_sub1(&mut self, column: usize, text: &str)
        requires
            print_column_ok(TOP::layout(), WindowId::Sub1, column as int, text.spec_bytes()),
        ensures
            old(self).next_screen@.len() == LCD_CELLS,
            final(self).next_screen@.len() == LCD_CELLS,
            final(self).next_screen@ == window_writes(old(self).next_screen@, TOP::layout(), WindowId::Sub1, print_column_writes(TOP::layout().placement(WindowId::Sub1).size as int, column as int, text.spec_bytes())),
            final(self).current_screen == old(self).current_screen,
    {
        self.sub1_window.print_column(column, text, &mut self.next_screen);
    }

    /// Prints `value` right-aligned in `digits` cells of row `row` of the first small window, from column `column`.
    pub fn print_value_sub1(&mut self, row: usize, column: usize, digits: usize, value: i32)
        requires
            print_value_ok(TOP::layout(), WindowId::Sub1, row as int, column as int, digits as int, value as int),
        ensures
            old(self).next_screen@.len() == LCD_CELLS,
            final(self).next_screen@.len() == LCD_CELLS,
            final(self).next_screen@ == window_writes(old(self).next_screen@, TOP::layout(), WindowId::Sub1, print_value_writes(row as int, column as int, digits as int, value as int)),
            final(self).current_screen == old(self).current_screen,
    {
        self.sub1_window.print_value(row, column, digits, value, &mut self.next_screen);
    }

    /// Prints the sign of `value` at `(column, row)` of the first small window and its magnitude in the `digits` cells after it.
    pub fn print_value_signed_sub1(&mut self, row: usize, column: usize, digits: usize, value: i32)
        requires
            print_value_signed_ok(TOP::layout(), WindowId::Sub1, row as int, column as int, digits as int, value as int),
        ensures
            old(self).next_screen@.len() == LCD_CELLS,
            final(self).next_screen@.len() == LCD_CELLS,
            final(self).next_screen@ == print_value_signed_result(old(self).next_screen@, TOP::layout(), WindowId::Sub1, row as int, column as int, digits as int, value as int),
            final(self).current_screen == old(self).current_screen,
    {
        self.sub1_window.print_value_signed(row, column, digits, value, &mut self.next_screen);
    }

    /// Draws a vertical bar of `value` out of `limit` in column `column` of the first small window.
    pub fn bar_vertical_sub1(&mut self, column: usize, value: i32, limit: i32)
        requires
            bar_ok(TOP::layout(), WindowId::Sub1, column as int, value, limit, false),
        ensures
            old(self).next_screen@.len() == LCD_CELLS,
            final(self).next_screen@.len() == LCD_CELLS,
            final(self).next_screen@ == window_writes(old(self).next_screen@, TOP::layout(), WindowId::Sub1, bar_writes(TOP::layout().placement(WindowId::Sub1).size, column as int, value, limit, false)),
            final(self).current_screen == old(self).current_screen,
    {
        self.sub1_window.bar_vertical(column, value, limit, &mut self.next_screen);
    }

    /// Draws a horizontal bar of `value` out of `limit` in row `row` of the first small window.
    pub fn bar_horizontal_sub1(&mut self, row: usize, value: i32, limit: i32)
        requires
            bar_ok(TOP::layout(), WindowId::Sub1, row as int, value, limit, true),
        ensures
            old(self).next_screen@.len() == LCD_CELLS,
            final(self).next_screen@.len() == LCD_CELLS,
            final(self).next_screen@ == window_writes(old(self).next_screen@, TOP::layout(), WindowId::Sub1, bar_writes(TOP::layout().placement(WindowId::Sub1).size, row as int, value, limit, true)),
            final(self).current_screen == old(self).current_screen,
    {
        self.sub1_window.bar_horizontal(row, value, limit, &mut self.next_screen);
    }

    /// Writes the glyph of character `c` (by its low byte) into cell `(x, y)` of the second small window.
    pub fn print_char_sub2(&mut self, x: usize, y: usize, c: char)
        requires
            window_cell_ok(TOP::layout(), WindowId::Sub2, x as int, y as int),
        ensures
            old(self).next_screen@.len() == LCD_CELLS,
            final(self).next_screen@.len() == LCD_CELLS,
            final(self).next_screen@ == window_write(old(self).next_screen@, TOP::layout(), WindowId::Sub2, x as int, y as int, glyph_for_byte(c as u8)),
            final(self).current_screen == old(self).current_screen,
    {
        self.sub2_window.print_char(x, y, c, &mut self.next_screen);
    }

    /// Prints `text` into the second small window row by row from the start of row `row`.
    pub fn print_sub2(&mut self, row: usize, text: &str)
        requires
            print_row_ok(TOP::layout(), WindowId::Sub2, row as int, text.spec_bytes()),
        ensures
            old(self).next_screen@.len() == LCD_CELLS,
            final(self).next_screen@.len() == LCD_CELLS,
            final(self).next_screen@ == window_writes(old(self).next_screen@, TOP::layout(), WindowId::Sub2, print_row_writes(TOP::layout().placement(WindowId::Sub2).size as int, row as int, text.spec_bytes())),
            final(self).current_screen == old(self).current_screen,
    {
        self.sub2_window.print_row(row, text, &mut self.next_screen);
    }

    /// Prints `text` into the second small window column by column from the top of column `column`.
    pub fn print_column_sub2(&mut self, column: usize, text: &str)
        requires
            print_column_ok(TOP::layout(), WindowId::Sub2, column as int, text.spec_bytes()),
        ensures
            old(self).next_screen@.len() == LCD_CELLS,
            final(self).next_screen@.len() == LCD_CELLS,
            final(self).next_screen@ == window_writes(old(self).next_screen@, TOP::layout(), WindowId::Sub2, print_column_writes(TOP::layout().placement(WindowId::Sub2).size as int, column as int, text.spec_bytes())),
            final(self).current_screen == old(self).current_screen,
    {
        self.sub2_window.print_column(column, text, &mut self.next_screen);
    }

    /// Prints `value` right-aligned in `digits` cells of row `row` of the second small window, from column `column`.
    pub fn print_value_sub2(&mut self, row: usize, column: usize, digits: usize, value: i32)
        requires
            print_value_ok(TOP::layout(), WindowId::Sub2, row as int, column as int, digits as int, value as int),
        ensures
            old(self).next_screen@.len() == LCD_CELLS,
            final(self).next_screen@.len() == LCD_CELLS,
            final(self).next_screen@ == window_writes(old(self).next_screen@, TOP::layout(), WindowId::Sub2, print_value_writes(row as int, column as int, digits as int, value as int)),
            final(self).current_screen == old(self).current_screen,
    {
        self.sub2_window.print_value(row, column, digits, value, &mut self.next_screen);
    }

    /// Prints the sign of `value` at `(column, row)` of the second small window and its magnitude in the `digits` cells after it.
    pub fn print_value_signed_sub2(&mut self, row: usize, column: usize, digits: usize, value: i32)
        requires
            print_value_signed_ok(TOP::layout(), WindowId::Sub2, row as int, column as int, digits as int, value as int),
        ensures
            old(self).next_screen@.len() == LCD_CELLS,
            final(self).next_screen@.len() == LCD_CELLS,
            final(self).next_screen@ == print_value_signed_result(old(self).next_screen@, TOP::layout(), WindowId::Sub2, row as int, column as int, digits as int, value as int),
            final(self).current_screen == old(self).current_screen,
    {
        self.sub2_window.print_value_signed(row, column, digits, value, &mut self.next_screen);
    }

    /// Draws a vertical bar of `value` out of `limit` in column `column` of the second small window.
    pub fn bar_vertical_sub2(&mut self, column: usize, value: i32, limit: i32)
        requires
            bar_ok(TOP::layout(), WindowId::Sub2, column as int, value, limit, false),
        ensures
            old(self).next_screen@.len() == LCD_CELLS,
            final(self).next_screen@.len() == LCD_CELLS,
            final(self).next_screen@ == window_writes(old(self).next_screen@, TOP::layout(), WindowId::Sub2, bar_writes(TOP::layout().placement(WindowId::Sub2).size, column as int, value, limit, false)),
            final(self).current_screen == old(self).current_screen,
    {
        self.sub2_window.bar_vertical(column, value, limit, &mut self.next_screen);
    }

    /// Draws a horizontal bar of `value` out of `limit` in row `row` of the second small window.
    pub fn bar_horizontal_sub2(&mut self, row: usize, value: i32, limit: i32)
        requires
            bar_ok(TOP::layout(), WindowId::Sub2, row as int, value, limit, true),
        ensures
            old(self).next_screen@.len() == LCD_CELLS,
            final(self).next_screen@.len() == LCD_CELLS,
            final(self).next_screen@ == window_writes(old(self).next_screen@, TOP::layout(), WindowId::Sub2, bar_writes(TOP::layout().placement(WindowId::Sub2).size, row as int, value, limit, true)),
            final(self).current_screen == old(self).current_screen,
    {
        self.sub2_window.bar_horizontal(row, value, limit, &mut self.next_screen);
    }

}

impl<TOP: LcdTopSideProvider + 'static> LcdTrait for Lcd<TOP> {
    open spec fn layout(&self) -> LcdLayout {
        TOP::layout()
    }

    open spec fn next_cells(&self) -> Seq<GlyphCode> {
        self.next_screen@
    }

    fn clear(&mut self) {
        Lcd::clear(self);
    }

    fn print_char(&mut self, x: usize, y: usize, c: char) {
        Lcd::print_char(self, x, y, c);
    }

    fn print(&mut self, row: usize, text: &str) {
        Lcd::print(self, row, text);
    }

    fn print_column(&mut self, column: usize, text: &str) {
        Lcd::print_column(self, column, text);
    }

    fn print_value(&mut self, row: usize, column: usize, digits: usize, value: i32) {
        Lcd::print_value(self, row, column, digits, value);
    }

    fn print_value_signed(&mut self, row: usize, column: usize, digits: usize, value: i32) {
        Lcd::print_value_signed(self, row, column, digits, value);
    }

    fn bar_vertical(&mut self, column: usize, value: i32, limit: i32) {
        Lcd::bar_vertical(self, column, value, limit);
    }

    fn bar_horizontal(&mut self, row: usize, value: i32, limit: i32) {
        Lcd::bar_horizontal(self, row, value, limit);
    }

    fn print_char_sub1(&mut self, x: usize, y: usize, c: char) {
        Lcd::print_char_sub1(self, x, y, c);
    }

    fn print_sub1(&mut self, row: usize, text: &str) {
        Lcd::print_sub1(self, row, text);
    }

    fn print_column_sub1(&mut self, column: usize, text: &str) {
        Lcd::print_column_sub1(self, column, text);
    }

    fn print_value_sub1(&mut self, row: usize, column: usize, digits: usize, value: i32) {
        Lcd::print_value_sub1(self, row, column, digits, value);
    }

    fn print_value_signed_sub1(&mut self, row: usize, column: usize, digits: usize, value: i32) {
        Lcd::print_value_signed_sub1(self, row, column, digits, value);
    }

    fn bar_vertical_sub1(&mut self, column: usize, value: i32, limit: i32) {
        Lcd::bar_vertical_sub1(self, column, value, limit);
    }

    fn bar_horizontal_sub1(&mut self, row: usize, value: i32, limit: i32) {
        Lcd::bar_horizontal_sub1(self, row, value, limit);
    }

    fn print_char_sub2(&mut self, x: usize, y: usize, c: char) {
        Lcd::print_char_sub2(self, x, y, c);
    }

    fn print_sub2(&mut self, row: usize, text: &str) {
        Lcd::print_sub2(self, row, text);
    }

    fn print_column_sub2(&mut self, column: usize, text: &str) {
        Lcd::print_column_sub2(self, column, text);
    }

    fn print_value_sub2(&mut self, row: usize, column: usize, digits: usize, value: i32) {
        Lcd::print_value_sub2(self, row, column, digits, value);
    }

    fn print_value_signed_sub2(&mut self, row: usize, column: usize, digits: usize, value: i32) {
        Lcd::print_value_signed_sub2(self, row, column, digits, value);
    }

    fn bar_vertical_sub2(&mut self, column: usize, value: i32, limit: i32) {
        Lcd::bar_vertical_sub2(self, column, value, limit);
    }

    fn bar_horizontal_sub2(&mut self, row: usize, value: i32, limit: i32) {
        Lcd::bar_horizontal_sub2(self, row, value, limit);
    }

}

} // verus!
