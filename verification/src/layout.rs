//! Screen geometry and the placement of the three text windows for each
//! orientation of the brick.
use vstd::prelude::*;
use crate::glyph::{LcdTopSide, GLYPH_DATA_ROW_BYTES, GLYPH_SIZE};

verus! {

/// Bytes of one framebuffer row of the EV3 display (three pixels per byte).
pub const LCD_FRAMEBUFFER_ROW_BYTES: usize = 60;

/// Pixel rows of the EV3 display.
pub const LCD_FRAMEBUFFER_ROWS: usize = 128;

#[verifier::nonlinear]
pub const LCD_FRAMEBUFFER_SIZE: usize = LCD_FRAMEBUFFER_ROW_BYTES * LCD_FRAMEBUFFER_ROWS;

/// The EV3 framebuffer as EV3RT exposes it.
pub type Framebuffer = [u8; LCD_FRAMEBUFFER_SIZE];

#[verifier::nonlinear]
pub const LCD_GLYPHS_PER_ROW: usize = LCD_FRAMEBUFFER_ROW_BYTES / GLYPH_DATA_ROW_BYTES;

#[verifier::nonlinear]
pub const LCD_GLYPHS_PER_COLUMN: usize = LCD_FRAMEBUFFER_ROWS / GLYPH_SIZE;

/// Glyph cells of the whole screen.
#[verifier::nonlinear]
pub const LCD_CELLS: usize = LCD_GLYPHS_PER_ROW * LCD_GLYPHS_PER_COLUMN;

#[derive(Clone, Copy, PartialEq, Eq, Structural, Debug)]
pub enum WindowId {
    Main,
    Sub1,
    Sub2,
}

/// A square window of `size` by `size` cells whose top-left cell on the
/// screen is `(x, y)`.
#[derive(Clone, Copy, PartialEq, Eq, Structural, Debug)]
pub struct WindowPlacement {
    pub size: usize,
    pub x: usize,
    pub y: usize,
}

/// The screen layout of one orientation of the brick.
#[derive(Clone, Copy, PartialEq, Eq, Structural, Debug)]
pub struct LcdLayout {
    pub top_side: LcdTopSide,
    pub main: WindowPlacement,
    pub sub1: WindowPlacement,
    pub sub2: WindowPlacement,
}

pub proof fn lemma_geometry()
    ensures
        LCD_GLYPHS_PER_ROW == 10,
        LCD_GLYPHS_PER_COLUMN == 7,
        LCD_CELLS == 70,
        LCD_FRAMEBUFFER_SIZE == 7680,
{
}

impl LcdLayout {
    pub open spec fn placement(self, id: WindowId) -> WindowPlacement {
        match id {
            WindowId::Main => self.main,
            WindowId::Sub1 => self.sub1,
            WindowId::Sub2 => self.sub2,
        }
    }
}

/// A window is not empty and lies within the screen.
pub open spec fn placement_fits(p: WindowPlacement) -> bool {
    &&& 1 <= p.size
    &&& p.x + p.size <= LCD_GLYPHS_PER_ROW
    &&& p.y + p.size <= LCD_GLYPHS_PER_COLUMN
}

pub open spec fn layout_fits(l: LcdLayout) -> bool {
    &&& placement_fits(l.main)
    &&& placement_fits(l.sub1)
    &&& placement_fits(l.sub2)
}

/// An orientation of the brick: which side is up, and where the windows are.
pub trait LcdTopSideProvider {
    spec fn layout() -> LcdLayout;

    /// Every window of the layout lies within the screen.
    proof fn lemma_layout_fits()
        ensures
            layout_fits(Self::layout()),
    ;

    /// The main window is as tall as the screen.
    proof fn lemma_main_window_full_height()
        ensures
            Self::layout().main.size == LCD_GLYPHS_PER_COLUMN,
    ;

    fn top_side() -> (r: LcdTopSide)
        ensures
            r == Self::layout().top_side,
    ;

    fn main_window_size() -> (r: usize)
        ensures
            r == Self::layout().main.size,
    ;

    fn main_window_x() -> (r: usize)
        ensures
            r == Self::layout().main.x,
    ;

    fn main_window_y() -> (r: usize)
        ensures
            r == Self::layout().main.y,
    ;

    fn sub1_window_size() -> (r: usize)
        ensures
            r == Self::layout().sub1.size,
    ;

    fn sub1_window_x() -> (r: usize)
        ensures
            r == Self::layout().sub1.x,
    ;

    fn sub1_window_y() -> (r: usize)
        ensures
            r == Self::layout().sub1.y,
    ;

    fn sub2_window_size() -> (r: usize)
        ensures
            r == Self::layout().sub2.size,
    ;

    fn sub2_window_x() -> (r: usize)
        ensures
            r == Self::layout().sub2.x,
    ;

    fn sub2_window_y() -> (r: usize)
        ensures
            r == Self::layout().sub2.y,
    ;
}

impl WindowId {
    pub fn size<TOP: LcdTopSideProvider>(&self) -> (r: usize)
        ensures
            r == TOP::layout().placement(*self).size,
    {
        match self {
            WindowId::Main => TOP::main_window_size(),
            WindowId::Sub1 => TOP::sub1_window_size(),
            WindowId::Sub2 => TOP::sub2_window_size(),
        }
    }

    pub fn x<TOP: LcdTopSideProvider>(&self) -> (r: usize)
        ensures
            r == TOP::layout().placement(*self).x,
    {
        match self {
            WindowId::Main => TOP::main_window_x(),
            WindowId::Sub1 => TOP::sub1_window_x(),
            WindowId::Sub2 => TOP::sub2_window_x(),
        }
    }

    pub fn y<TOP: LcdTopSideProvider>(&self) -> (r: usize)
        ensures
            r == TOP::layout().placement(*self).y,
    {
        match self {
            WindowId::Main => TOP::main_window_y(),
            WindowId::Sub1 => TOP::sub1_window_y(),
            WindowId::Sub2 => TOP::sub2_window_y(),
        }
    }
}

/// A window of the screen, known by its type.
pub trait WindowIdProvider {
    spec fn window_id() -> WindowId;

    fn kind() -> (r: WindowId)
        ensures
            r == Self::window_id(),
    ;
}

#[derive(Clone, Copy, PartialEq, Eq, Debug)]
pub struct WindowIdMain {}

impl WindowIdProvider for WindowIdMain {
    open spec fn window_id() -> WindowId {
        WindowId::Main
    }

    fn kind() -> (r: WindowId) {
        WindowId::Main
    }
}

#[derive(Clone, Copy, PartialEq, Eq, Debug)]
pub struct WindowIdSub1 {}

impl WindowIdProvider for WindowIdSub1 {
    open spec fn window_id() -> WindowId {
        WindowId::Sub1
    }

    fn kind() -> (r: WindowId) {
        WindowId::Sub1
    }
}

#[derive(Clone, Copy, PartialEq, Eq, Debug)]
pub struct WindowIdSub2 {}

impl WindowIdProvider for WindowIdSub2 {
    open spec fn window_id() -> WindowId {
        WindowId::Sub2
    }

    fn kind() -> (r: WindowId) {
        WindowId::Sub2
    }
}

#[derive(Clone, Copy, PartialEq, Eq, Debug)]
pub struct LcdTopSideUp;

impl LcdTopSideProvider for LcdTopSideUp {
    open spec fn layout() -> LcdLayout {
        LcdLayout {
            top_side: LcdTopSide::Up,
            main: WindowPlacement { size: 7, x: 0, y: 0 },
            sub1: WindowPlacement { size: 3, x: 7, y: 0 },
            sub2: WindowPlacement { size: 3, x: 7, y: 4 },
        }
    }

    proof fn lemma_layout_fits() {
    }

    proof fn lemma_main_window_full_height() {
        lemma_geometry();
    }

    fn top_side() -> (r: LcdTopSide) {
        LcdTopSide::Up
    }

    fn main_window_size() -> (r: usize) {
        7
    }

    fn main_window_x() -> (r: usize) {
        0
    }

    fn main_window_y() -> (r: usize) {
        0
    }

    fn sub1_window_size() -> (r: usize) {
        3
    }

    fn sub1_window_x() -> (r: usize) {
        7
    }

    fn sub1_window_y() -> (r: usize) {
        0
    }

    fn sub2_window_size() -> (r: usize) {
        3
    }

    fn sub2_window_x() -> (r: usize) {
        7
    }

    fn sub2_window_y() -> (r: usize) {
        4
    }
}

#[derive(Clone, Copy, PartialEq, Eq, Debug)]
pub struct LcdTopSideDown;

impl LcdTopSideProvider for LcdTopSideDown {
    open spec fn layout() -> LcdLayout {
        LcdLayout {
            top_side: LcdTopSide::Down,
            main: WindowPlacement { size: 7, x: 3, y: 0 },
            sub1: WindowPlacement { size: 3, x: 0, y: 4 },
            sub2: WindowPlacement { size: 3, x: 0, y: 0 },
        }
    }

    proof fn lemma_layout_fits() {
    }

    proof fn lemma_main_window_full_height() {
        lemma_geometry();
    }

    fn top_side() -> (r: LcdTopSide) {
        LcdTopSide::Down
    }

    fn main_window_size() -> (r: usize) {
        7
    }

    fn main_window_x() -> (r: usize) {
        3
    }

    fn main_window_y() -> (r: usize) {
        0
    }

    fn sub1_window_size() -> (r: usize) {
        3
    }

    fn sub1_window_x() -> (r: usize) {
        0
    }

    fn sub1_window_y() -> (r: usize) {
        4
    }

    fn sub2_window_size() -> (r: usize) {
        3
    }

    fn sub2_window_x() -> (r: usize) {
        0
    }

    fn sub2_window_y() -> (r: usize) {
        0
    }
}

#[derive(Clone, Copy, PartialEq, Eq, Debug)]
pub struct LcdTopSideLeft;

impl LcdTopSideProvider for LcdTopSideLeft {
    open spec fn layout() -> LcdLayout {
        LcdLayout {
            top_side: LcdTopSide::Left,
            main: WindowPlacement { size: 7, x: 0, y: 0 },
            sub1: WindowPlacement { size: 3, x: 7, y: 4 },
            sub2: WindowPlacement { size: 3, x: 7, y: 0 },
        }
    }

    proof fn lemma_layout_fits() {
    }

    proof fn lemma_main_window_full_height() {
        lemma_geometry();
    }

    fn top_side() -> (r: LcdTopSide) {
        LcdTopSide::Left
    }

    fn main_window_size() -> (r: usize) {
        7
    }

    fn main_window_x() -> (r: usize) {
        0
    }

    fn main_window_y() -> (r: usize) {
        0
    }

    fn sub1_window_size() -> (r: usize) {
        3
    }

    fn sub1_window_x() -> (r: usize) {
        7
    }

    fn sub1_window_y() -> (r: usize) {
        4
    }

    fn sub2_window_size() -> (r: usize) {
        3
    }

    fn sub2_window_x() -> (r: usize) {
        7
    }

    fn sub2_window_y() -> (r: usize) {
        0
    }
}

#[derive(Clone, Copy, PartialEq, Eq, Debug)]
pub struct LcdTopSideRight;

impl LcdTopSideProvider for LcdTopSideRight {
    open spec fn layout() -> LcdLayout {
        LcdLayout {
            top_side: LcdTopSide::Right,
            main: WindowPlacement { size: 7, x: 3, y: 0 },
            sub1: WindowPlacement { size: 3, x: 0, y: 0 },
            sub2: WindowPlacement { size: 3, x: 0, y: 4 },
        }
    }

    proof fn lemma_layout_fits() {
    }

    proof fn lemma_main_window_full_height() {
        lemma_geometry();
    }

    fn top_side() -> (r: LcdTopSide) {
        LcdTopSide::Right
    }

    fn main_window_size() -> (r: usize) {
        7
    }

    fn main_window_x() -> (r: usize) {
        3
    }

    fn main_window_y() -> (r: usize) {
        0
    }

    fn sub1_window_size() -> (r: usize) {
        3
    }

    fn sub1_window_x() -> (r: usize) {
        0
    }

    fn sub1_window_y() -> (r: usize) {
        0
    }

    fn sub2_window_size() -> (r: usize) {
        3
    }

    fn sub2_window_x() -> (r: usize) {
        0
    }

    fn sub2_window_y() -> (r: usize) {
        4
    }
}

} // verus!
