//! The bitmaps of the font, one 18x18 source per glyph code.
use vstd::prelude::*;
use crate::glyph::{source_pixel, GlyphSource, GlyphSourceRow, GLYPH_SIZE};
use crate::glyph_code::GlyphCode;

verus! {

/// An empty row of a bar glyph that fills rows.
pub const BAR_ROW_OFF: u32 = 0b000000000000000000;

/// A filled row of a bar glyph that fills rows.
pub const BAR_ROW_ON: u32 = 0b001111111111111100;

/// All 18 pixels of a row.
pub const FULL_ROW: u32 = 0b111111111111111111;

pub const GLYPH_SPACE: [GlyphSourceRow; GLYPH_SIZE] = [
    0,
    0,
    0,
    0,
    0,
    0,
    0,
    0,
    0,
    0,
    0,
    0,
    0,
    0,
    0,
    0,
    0,
    0,
];

pub const GLYPH_FULL: [GlyphSourceRow; GLYPH_SIZE] = [
    0b111111111111111111,
    0b111111111111111111,
    0b111111111111111111,
    0b111111111111111111,
    0b111111111111111111,
    0b111111111111111111,
    0b111111111111111111,
    0b111111111111111111,
    0b111111111111111111,
    0b111111111111111111,
    0b111111111111111111,
    0b111111111111111111,
    0b111111111111111111,
    0b111111111111111111,
    0b111111111111111111,
    0b111111111111111111,
    0b111111111111111111,
    0b111111111111111111,
];

pub const GLYPH_0: [GlyphSourceRow; GLYPH_SIZE] = [
    0b000000000000000000,
    0b000000000000000000,
    0b001111111111111100,
    0b001111111111111100,
    0b001111111111111100,
    0b001110000000011100,
    0b001110000000011100,
    0b001110000000011100,
    0b001110000000011100,
    0b001110000000011100,
    0b001110000000011100,
    0b001110000000011100,
    0b001110000000011100,
    0b001110000000011100,
    0b001111111111111100,
    0b001111111111111100,
    0b001111111111111100,
    0b000000000000000000,
];

pub const GLYPH_1: [GlyphSourceRow; GLYPH_SIZE] = [
    0b000000000000000000,
    0b000000000000000000,
    0b000000000000011100,
    0b000000000000011100,
    0b000000000000011100,
    0b000000000000011100,
    0b000000000000011100,
    0b000000000000011100,
    0b000000000000011100,
    0b000000000000011100,
    0b000000000000011100,
    0b000000000000011100,
    0b000000000000011100,
    0b000000000000011100,
    0b000000000000011100,
    0b000000000000011100,
    0b000000000000011100,
    0b000000000000000000,
];

pub const GLYPH_2: [GlyphSourceRow; GLYPH_SIZE] = [
    0b000000000000000000,
    0b000000000000000000,
    0b001111111111111100,
    0b001111111111111100,
    0b001111111111111100,
    0b000000000000011100,
    0b000000000000011100,
    0b000000000000011100,
    0b001111111111111100,
    0b001111111111111100,
    0b001111111111111100,
    0b001110000000000000,
    0b001110000000000000,
    0b001110000000000000,
    0b001111111111111100,
    0b001111111111111100,
    0b001111111111111100,
    0b000000000000000000,
];

pub const GLYPH_3: [GlyphSourceRow; GLYPH_SIZE] = [
    0b000000000000000000,
    0b000000000000000000,
    0b001111111111111100,
    0b001111111111111100,
    0b001111111111111100,
    0b000000000000011100,
    0b000000000000011100,
    0b000000000000011100,
    0b001111111111111100,
    0b001111111111111100,
    0b001111111111111100,
    0b000000000000011100,
    0b000000000000011100,
    0b000000000000011100,
    0b001111111111111100,
    0b001111111111111100,
    0b001111111111111100,
    0b000000000000000000,
];

pub const GLYPH_4: [GlyphSourceRow; GLYPH_SIZE] = [
    0b000000000000000000,
    0b000000000000000000,
    0b001110000000011100,
    0b001110000000011100,
    0b001110000000011100,
    0b001110000000011100,
    0b001110000000011100,
    0b001110000000011100,
    0b001111111111111100,
    0b001111111111111100,
    0b001111111111111100,
    0b000000000000011100,
    0b000000000000011100,
    0b000000000000011100,
    0b000000000000011100,
    0b000000000000011100,
    0b000000000000011100,
    0b000000000000000000,
];

pub const GLYPH_5: [GlyphSourceRow; GLYPH_SIZE] = [
    0b000000000000000000,
    0b000000000000000000,
    0b001111111111111100,
    0b001111111111111100,
    0b001111111111111100,
    0b001110000000000000,
    0b001110000000000000,
    0b001110000000000000,
    0b001111111111111100,
    0b001111111111111100,
    0b001111111111111100,
    0b000000000000011100,
    0b000000000000011100,
    0b000000000000011100,
    0b001111111111111100,
    0b001111111111111100,
    0b001111111111111100,
    0b000000000000000000,
];

pub const GLYPH_6: [GlyphSourceRow; GLYPH_SIZE] = [
    0b000000000000000000,
    0b000000000000000000,
    0b001111111111111100,
    0b001111111111111100,
    0b001111111111111100,
    0b001110000000000000,
    0b001110000000000000,
    0b001110000000000000,
    0b001111111111111100,
    0b001111111111111100,
    0b001111111111111100,
    0b001110000000011100,
    0b001110000000011100,
    0b001110000000011100,
    0b001111111111111100,
    0b001111111111111100,
    0b001111111111111100,
    0b000000000000000000,
];

pub const GLYPH_7: [GlyphSourceRow; GLYPH_SIZE] = [
    0b000000000000000000,
    0b000000000000000000,
    0b001111111111111100,
    0b001111111111111100,
    0b001111111111111100,
    0b000000000000011100,
    0b000000000000011100,
    0b000000000000011100,
    0b000000000000011100,
    0b000000000000011100,
    0b000000000000011100,
    0b000000000000011100,
    0b000000000000011100,
    0b000000000000011100,
    0b000000000000011100,
    0b000000000000011100,
    0b000000000000011100,
    0b000000000000000000,
];

pub const GLYPH_8: [GlyphSourceRow; GLYPH_SIZE] = [
    0b000000000000000000,
    0b000000000000000000,
    0b001111111111111100,
    0b001111111111111100,
    0b001111111111111100,
    0b001110000000011100,
    0b001110000000011100,
    0b001110000000011100,
    0b001111111111111100,
    0b001111111111111100,
    0b001111111111111100,
    0b001110000000011100,
    0b001110000000011100,
    0b001110000000011100,
    0b001111111111111100,
    0b001111111111111100,
    0b001111111111111100,
    0b000000000000000000,
];

pub const GLYPH_9: [GlyphSourceRow; GLYPH_SIZE] = [
    0b000000000000000000,
    0b000000000000000000,
    0b001111111111111100,
    0b001111111111111100,
    0b001111111111111100,
    0b001110000000011100,
    0b001110000000011100,
    0b001110000000011100,
    0b001111111111111100,
    0b001111111111111100,
    0b001111111111111100,
    0b000000000000011100,
    0b000000000000011100,
    0b000000000000011100,
    0b001111111111111100,
    0b001111111111111100,
    0b001111111111111100,
    0b000000000000000000,
];

pub const GLYPH_PLUS: [GlyphSourceRow; GLYPH_SIZE] = [
    0b000000000000000000,
    0b000000000000000000,
    0b000000000000000000,
    0b000000001110000000,
    0b000000001110000000,
    0b000000001110000000,
    0b000000001110000000,
    0b000000001110000000,
    0b000111111111111100,
    0b000111111111111100,
    0b000111111111111100,
    0b000000001110000000,
    0b000000001110000000,
    0b000000001110000000,
    0b000000001110000000,
    0b000000001110000000,
    0b000000000000000000,
    0b000000000000000000,
];

pub const GLYPH_MINUS: [GlyphSourceRow; GLYPH_SIZE] = [
    0b000000000000000000,
    0b000000000000000000,
    0b000000000000000000,
    0b000000000000000000,
    0b000000000000000000,
    0b000000000000000000,
    0b000000000000000000,
    0b000000000000000000,
    0b000111111111111100,
    0b000111111111111100,
    0b000111111111111100,
    0b000000000000000000,
    0b000000000000000000,
    0b000000000000000000,
    0b000000000000000000,
    0b000000000000000000,
    0b000000000000000000,
    0b000000000000000000,
];

pub const GLYPH_A: [GlyphSourceRow; GLYPH_SIZE] = [
    0b000000000000000000,
    0b000000000000000000,
    0b000000011110000000,
    0b000001111111100000,
    0b000011111111110000,
    0b000111000000111000,
    0b001110000000011100,
    0b001110000000011100,
    0b011111111111111110,
    0b011111111111111110,
    0b011111111111111110,
    0b011100000000001110,
    0b011100000000001110,
    0b011100000000001110,
    0b011100000000001110,
    0b011100000000001110,
    0b011100000000001110,
    0b000000000000000000,
];

pub const GLYPH_B: [GlyphSourceRow; GLYPH_SIZE] = [
    0b000000000000000000,
    0b000000000000000000,
    0b011111111111100000,
    0b011111111111111000,
    0b011111111111111100,
    0b011100000000011100,
    0b011100000000001110,
    0b011100000000011110,
    0b011111111111111100,
    0b011111111111111000,
    0b011111111111111100,
    0b011100000000011110,
    0b011100000000001110,
    0b011100000000011100,
    0b011111111111111100,
    0b011111111111111000,
    0b01111111111100000,
    0b000000000000000000,
];

pub const GLYPH_C: [GlyphSourceRow; GLYPH_SIZE] = [
    0b000000000000000000,
    0b000000000000000000,
    0b000001111111100000,
    0b000111111111111000,
    0b001111111111111100,
    0b001110000000011100,
    0b011100000000000000,
    0b011100000000000000,
    0b011100000000000000,
    0b011100000000000000,
    0b011100000000000000,
    0b011100000000000000,
    0b011100000000000000,
    0b001110000000011100,
    0b001111111111111100,
    0b000111111111111000,
    0b000001111111100000,
    0b000000000000000000,
];

pub const GLYPH_D: [GlyphSourceRow; GLYPH_SIZE] = [
    0b000000000000000000,
    0b000000000000000000,
    0b011111111111100000,
    0b011111111111111000,
    0b011111111111111100,
    0b011100000000011100,
    0b011100000000001110,
    0b011100000000001110,
    0b011100000000001110,
    0b011100000000001110,
    0b011100000000001110,
    0b011100000000001110,
    0b011100000000001110,
    0b011100000000011100,
    0b011111111111111100,
    0b011111111111111000,
    0b011111111111100000,
    0b000000000000000000,
];

pub const GLYPH_E: [GlyphSourceRow; GLYPH_SIZE] = [
    0b000000000000000000,
    0b000000000000000000,
    0b011111111111111110,
    0b011111111111111110,
    0b011111111111111110,
    0b011100000000000000,
    0b011100000000000000,
    0b011100000000000000,
    0b011111111111111110,
    0b011111111111111110,
    0b011111111111111110,
    0b011100000000000000,
    0b011100000000000000,
    0b011100000000000000,
    0b011111111111111110,
    0b011111111111111110,
    0b011111111111111110,
    0b000000000000000000,
];

pub const GLYPH_F: [GlyphSourceRow; GLYPH_SIZE] = [
    0b000000000000000000,
    0b000000000000000000,
    0b011111111111111110,
    0b011111111111111110,
    0b011111111111111110,
    0b011100000000000000,
    0b011100000000000000,
    0b011100000000000000,
    0b011111111111111110,
    0b011111111111111110,
    0b011111111111111110,
    0b011100000000000000,
    0b011100000000000000,
    0b011100000000000000,
    0b011100000000000000,
    0b011100000000000000,
    0b011100000000000000,
    0b000000000000000000,
];

pub const GLYPH_G: [GlyphSourceRow; GLYPH_SIZE] = [
    0b000000000000000000,
    0b000000000000000000,
    0b000001111111100000,
    0b000111111111111000,
    0b001111111111111100,
    0b001110000000011100,
    0b011100000000000000,
    0b011100000000000000,
    0b011100000000000000,
    0b011100000000000000,
    0b011100000011111100,
    0b011100000011111100,
    0b011100000011111100,
    0b001110000000011100,
    0b001111111111111100,
    0b000111111111111000,
    0b000001111111100000,
    0b000000000000000000,
];

pub const GLYPH_H: [GlyphSourceRow; GLYPH_SIZE] = [
    0b000000000000000000,
    0b000000000000000000,
    0b011100000000001110,
    0b011100000000001110,
    0b011100000000001110,
    0b011100000000001110,
    0b011100000000001110,
    0b011100000000001110,
    0b011111111111111110,
    0b011111111111111110,
    0b011111111111111110,
    0b011100000000001110,
    0b011100000000001110,
    0b011100000000001110,
    0b011100000000001110,
    0b011100000000001110,
    0b011100000000001110,
    0b000000000000000000,
];

pub const GLYPH_I: [GlyphSourceRow; GLYPH_SIZE] = [
    0b000000000000000000,
    0b000000000000000000,
    0b000000011100000000,
    0b000000011100000000,
    0b000000011100000000,
    0b000000011100000000,
    0b000000011100000000,
    0b000000011100000000,
    0b000000011100000000,
    0b000000011100000000,
    0b000000011100000000,
    0b000000011100000000,
    0b000000011100000000,
    0b000000011100000000,
    0b000000011100000000,
    0b000000011100000000,
    0b000000011100000000,
    0b000000000000000000,
];

pub const GLYPH_J: [GlyphSourceRow; GLYPH_SIZE] = [
    0b000000000000000000,
    0b000000000000000000,
    0b000000000000001110,
    0b000000000000001110,
    0b000000000000001110,
    0b000000000000001110,
    0b000000000000001110,
    0b000000000000001110,
    0b000000000000001110,
    0b000000000000001110,
    0b000000000000001110,
    0b000000000000001110,
    0b011100000000001110,
    0b011100000000001110,
    0b001111111111111100,
    0b000111111111111000,
    0b000001111111100000,
    0b000000000000000000,
];

pub const GLYPH_K: [GlyphSourceRow; GLYPH_SIZE] = [
    0b000000000000000000,
    0b000000000000000000,
    0b011100000000011100,
    0b011100000000111000,
    0b011100000001110000,
    0b011100000011100000,
    0b011100001110000000,
    0b011100111000000000,
    0b011111100000000000,
    0b011111000000000000,
    0b011111100000000000,
    0b011100111000000000,
    0b011100001110000000,
    0b011100000011100000,
    0b011100000001110000,
    0b011100000000111000,
    0b011100000000011100,
    0b000000000000000000,
];

pub const GLYPH_L: [GlyphSourceRow; GLYPH_SIZE] = [
    0b000000000000000000,
    0b000000000000000000,
    0b011100000000000000,
    0b011100000000000000,
    0b011100000000000000,
    0b011100000000000000,
    0b011100000000000000,
    0b011100000000000000,
    0b011100000000000000,
    0b011100000000000000,
    0b011100000000000000,
    0b011100000000000000,
    0b011100000000000000,
    0b011100000000000000,
    0b011111111111111110,
    0b011111111111111110,
    0b011111111111111110,
    0b000000000000000000,
];

pub const GLYPH_M: [GlyphSourceRow; GLYPH_SIZE] = [
    0b000000000000000000,
    0b000000000000000000,
    0b011100000000001110,
    0b011110000000011110,
    0b011111000000111110,
    0b011111100001111110,
    0b011101110011101110,
    0b011100111111001110,
    0b011100011110001110,
    0b011100001100001110,
    0b011100000000001110,
    0b011100000000001110,
    0b011100000000001110,
    0b011100000000001110,
    0b011100000000001110,
    0b011100000000001110,
    0b011100000000001110,
    0b000000000000000000,
];

pub const GLYPH_N: [GlyphSourceRow; GLYPH_SIZE] = [
    0b000000000000000000,
    0b000000000000000000,
    0b011100000000001110,
    0b011100000000001110,
    0b011110000000001110,
    0b011111000000001110,
    0b011111100000001110,
    0b011101110000001110,
    0b011100111000001110,
    0b011100011110001110,
    0b011100000111001110,
    0b011100000011101110,
    0b011100000001111110,
    0b011100000000111110,
    0b011100000000011110,
    0b011100000000001110,
    0b011100000000001110,
    0b000000000000000000,
];

pub const GLYPH_O: [GlyphSourceRow; GLYPH_SIZE] = [
    0b000000000000000000,
    0b000000000000000000,
    0b000001111111100000,
    0b000111111111111000,
    0b001111111111111100,
    0b001110000000011100,
    0b011100000000001110,
    0b011100000000001110,
    0b011100000000001110,
    0b011100000000001110,
    0b011100000000001110,
    0b011100000000001110,
    0b011100000000001110,
    0b001110000000011100,
    0b001111111111111100,
    0b000111111111111000,
    0b000001111111100000,
    0b000000000000000000,
];

pub const GLYPH_P: [GlyphSourceRow; GLYPH_SIZE] = [
    0b000000000000000000,
    0b000000000000000000,
    0b011111111111100000,
    0b011111111111111000,
    0b011111111111111100,
    0b011100000000001110,
    0b011100000000001110,
    0b011100000000001110,
    0b011111111111111100,
    0b011111111111111000,
    0b011111111111100000,
    0b011100000000000000,
    0b011100000000000000,
    0b011100000000000000,
    0b011100000000000000,
    0b011100000000000000,
    0b011100000000000000,
    0b000000000000000000,
];

pub const GLYPH_Q: [GlyphSourceRow; GLYPH_SIZE] = [
    0b000000000000000000,
    0b000000000000000000,
    0b000001111111100000,
    0b000111111111111000,
    0b001111111111111100,
    0b001110000000011100,
    0b011100000000001110,
    0b011100000000001110,
    0b011100000000001110,
    0b011100000000001110,
    0b011100000000001110,
    0b011100000001101110,
    0b011100000001111110,
    0b001110000000111100,
    0b001111111111111110,
    0b000111111111111110,
    0b000001111111101110,
    0b000000000000000000,
];

pub const GLYPH_R: [GlyphSourceRow; GLYPH_SIZE] = [
    0b000000000000000000,
    0b000000000000000000,
    0b011111111111100000,
    0b011111111111111000,
    0b011111111111111100,
    0b011100000000001110,
    0b011100000000001110,
    0b011100000000001110,
    0b011111111111111100,
    0b011111111111111000,
    0b011111111111100000,
    0b011100000001110000,
    0b011100000000111000,
    0b011100000000011100,
    0b011100000000001110,
    0b011100000000001110,
    0b011100000000001110,
    0b000000000000000000,
];

pub const GLYPH_S: [GlyphSourceRow; GLYPH_SIZE] = [
    0b000000000000000000,
    0b000000000000000000,
    0b000001111111100000,
    0b000111111111111000,
    0b001111111111111100,
    0b001110000000011100,
    0b011100000000000000,
    0b011100000000000000,
    0b011111111111111000,
    0b001111111111111100,
    0b000111111111111110,
    0b000000000000001110,
    0b000000000000001110,
    0b001110000000011100,
    0b001111111111111100,
    0b000111111111111000,
    0b000001111111100000,
    0b000000000000000000,
];

pub const GLYPH_T: [GlyphSourceRow; GLYPH_SIZE] = [
    0b000000000000000000,
    0b000000000000000000,
    0b011111111111111110,
    0b011111111111111110,
    0b011111111111111110,
    0b000000011100000000,
    0b000000011100000000,
    0b000000011100000000,
    0b000000011100000000,
    0b000000011100000000,
    0b000000011100000000,
    0b000000011100000000,
    0b000000011100000000,
    0b000000011100000000,
    0b000000011100000000,
    0b000000011100000000,
    0b000000011100000000,
    0b000000000000000000,
];

pub const GLYPH_U: [GlyphSourceRow; GLYPH_SIZE] = [
    0b000000000000000000,
    0b000000000000000000,
    0b011100000000001110,
    0b011100000000001110,
    0b011100000000001110,
    0b011100000000001110,
    0b011100000000001110,
    0b011100000000001110,
    0b011100000000001110,
    0b011100000000001110,
    0b011100000000001110,
    0b011100000000001110,
    0b011100000000001110,
    0b001110000000011100,
    0b001111111111111100,
    0b000111111111111000,
    0b000001111111100000,
    0b000000000000000000,
];

pub const GLYPH_V: [GlyphSourceRow; GLYPH_SIZE] = [
    0b000000000000000000,
    0b000000000000000000,
    0b011100000000001110,
    0b011100000000001110,
    0b001110000000011100,
    0b001110000000011100,
    0b000111000000111000,
    0b000111000000111000,
    0b000011100001110000,
    0b000011100001110000,
    0b000001110011100000,
    0b000001110011100000,
    0b000000111111000000,
    0b000000111111000000,
    0b000000011110000000,
    0b000000011110000000,
    0b000000001100000000,
    0b000000000000000000,
];

pub const GLYPH_W: [GlyphSourceRow; GLYPH_SIZE] = [
    0b000000000000000000,
    0b000000000000000000,
    0b011100011100001110,
    0b011100011100001110,
    0b011100011100001110,
    0b011100011100001110,
    0b011100011100001110,
    0b001110111111011100,
    0b001110111111011100,
    0b001110111111011100,
    0b000111110011111000,
    0b000111110011111000,
    0b000111110011111000,
    0b000111110011111000,
    0b000011100001110000,
    0b000011100001110000,
    0b000001000000100000,
    0b000000000000000000,
];

pub const GLYPH_X: [GlyphSourceRow; GLYPH_SIZE] = [
    0b000000000000000000,
    0b000000000000000000,
    0b011100000000001110,
    0b001110000000011100,
    0b000111000000111000,
    0b000011100001110000,
    0b000001110011100000,
    0b000000111111000000,
    0b000000011110000000,
    0b000000011110000000,
    0b000000011110000000,
    0b000000111111000000,
    0b000001110011100000,
    0b000011100001110000,
    0b000111000000111000,
    0b001110000000011100,
    0b011100000000001110,
    0b000000000000000000,
];

pub const GLYPH_Y: [GlyphSourceRow; GLYPH_SIZE] = [
    0b000000000000000000,
    0b000000000000000000,
    0b011100000000001110,
    0b011100000000001110,
    0b001110000000011100,
    0b000111000000111000,
    0b000111000000111000,
    0b000011100001110000,
    0b000001110011100000,
    0b000000111111000000,
    0b000000011110000000,
    0b000000011110000000,
    0b000000011110000000,
    0b000000011110000000,
    0b000000011110000000,
    0b000000011110000000,
    0b000000011110000000,
    0b000000000000000000,
];

pub const GLYPH_Z: [GlyphSourceRow; GLYPH_SIZE] = [
    0b000000000000000000,
    0b000000000000000000,
    0b011111111111111110,
    0b011111111111111110,
    0b011111111111111110,
    0b000000000000111100,
    0b000000000000111000,
    0b000000000011110000,
    0b000000000111100000,
    0b000000011110000000,
    0b000001111000000000,
    0b000011110000000000,
    0b000111100000000000,
    0b001111000000000000,
    0b011111111111111110,
    0b011111111111111110,
    0b011111111111111110,
    0b000000000000000000,
];

pub const GLYPH_UP: [GlyphSourceRow; GLYPH_SIZE] = [
    0b000000000000000000,
    0b000000001100000000,
    0b000000011110000000,
    0b000000111111000000,
    0b000001111111100000,
    0b000011111111110000,
    0b000111111111111000,
    0b001111011110111100,
    0b011110011110011110,
    0b011100011110001110,
    0b011000011110000110,
    0b010000011110000010,
    0b000000011110000000,
    0b000000011110000000,
    0b000000011110000000,
    0b000000011110000000,
    0b000000011110000000,
    0b000000000000000000,
];

pub const GLYPH_DOWN: [GlyphSourceRow; GLYPH_SIZE] = [
    0b000000000000000000,
    0b000000011110000000,
    0b000000011110000000,
    0b000000011110000000,
    0b000000011110000000,
    0b000000011110000000,
    0b010000011110000010,
    0b011000011110000110,
    0b011100011110001110,
    0b011110011110011110,
    0b001111011110111100,
    0b000111111111111000,
    0b000011111111110000,
    0b000001111111100000,
    0b000000111111000000,
    0b000000011110000000,
    0b000000001100000000,
    0b000000000000000000,
];

pub const GLYPH_LEFT: [GlyphSourceRow; GLYPH_SIZE] = [
    0b000000000000000000,
    0b000000001111000000,
    0b000000011110000000,
    0b000000111100000000,
    0b000001111000000000,
    0b000011110000000000,
    0b000111100000000000,
    0b001111111111111110,
    0b011111111111111110,
    0b011111111111111110,
    0b001111111111111110,
    0b000111100000000000,
    0b000011110000000000,
    0b000001111000000000,
    0b000000111100000000,
    0b000000011110000000,
    0b000000001111000000,
    0b000000000000000000,
];

pub const GLYPH_RIGHT: [GlyphSourceRow; GLYPH_SIZE] = [
    0b000000000000000000,
    0b000000111100000000,
    0b000000011110000000,
    0b000000001111000000,
    0b000000000111100000,
    0b000000000011110000,
    0b000000000001111000,
    0b011111111111111100,
    0b011111111111111110,
    0b011111111111111110,
    0b011111111111111100,
    0b000000000001111000,
    0b000000000011110000,
    0b000000000111100000,
    0b000000001111000000,
    0b000000011110000000,
    0b000000111100000000,
    0b000000000000000000,
];

pub const GLYPH_UP_LEFT: [GlyphSourceRow; GLYPH_SIZE] = [
    0b000000000000000000,
    0b011111111110000000,
    0b011111111111000000,
    0b011111111111100000,
    0b011111111111110000,
    0b011111111000000000,
    0b011111111100000000,
    0b011111111110000000,
    0b011111111111000000,
    0b011110111111100000,
    0b01111001111111000,
    0b001110001111111000,
    0b000110000111111100,
    0b000010000011111110,
    0b000000000001111110,
    0b000000000000111110,
    0b000000000000011110,
    0b000000000000000000,
];

pub const GLYPH_UP_RIGHT: [GlyphSourceRow; GLYPH_SIZE] = [
    0b000000000000000000,
    0b000000011111111110,
    0b000000111111111110,
    0b000001111111111110,
    0b000011111111111110,
    0b000000000111111110,
    0b000000001111111110,
    0b000000011111111110,
    0b000000111111111110,
    0b000001111111011110,
    0b000011111110011110,
    0b000111111100011100,
    0b001111111000011000,
    0b011111110000010000,
    0b011111100000000000,
    0b011111000000000000,
    0b011110000000000000,
    0b000000000000000000,
];

pub const GLYPH_TURN_LEFT: [GlyphSourceRow; GLYPH_SIZE] = [
    0b000000000000000000,
    0b000001111000000000,
    0b000011110000000000,
    0b000111100000000000,
    0b001111111111110000,
    0b011111111111111100,
    0b001111111111111110,
    0b000111100000001110,
    0b000011110000001110,
    0b000001111000001110,
    0b000000000000001110,
    0b000000000000001110,
    0b000000000000001110,
    0b001110000000011100,
    0b001111111111111100,
    0b000111111111111000,
    0b000001111111100000,
    0b000000000000000000,
];

pub const GLYPH_TURN_RIGHT: [GlyphSourceRow; GLYPH_SIZE] = [
    0b000000000000000000,
    0b000000000111100000,
    0b000000000011110000,
    0b000000000001111000,
    0b000011111111111100,
    0b001111111111111110,
    0b011111111111111100,
    0b011100000001111000,
    0b011100000011110000,
    0b011100000111100000,
    0b011100000000000000,
    0b011100000000000000,
    0b011100000000000000,
    0b001110000000011100,
    0b001111111111111100,
    0b000111111111111000,
    0b000001111111100000,
    0b000000000000000000,
];

pub const GLYPH_YES: [GlyphSourceRow; GLYPH_SIZE] = [
    0b000000000000000000,
    0b000000000000000000,
    0b000000000000000000,
    0b010000000000000000,
    0b011000000000000000,
    0b011100000000000000,
    0b011110000000000110,
    0b001111000000011100,
    0b000111100001111000,
    0b000011110011110000,
    0b000001111111100000,
    0b000000111111000000,
    0b000000011110000000,
    0b000000001100000000,
    0b000000000000000000,
    0b000000000000000000,
    0b000000000000000000,
    0b000000000000000000,
];

pub const GLYPH_NO: [GlyphSourceRow; GLYPH_SIZE] = [
    0b000000000000000000,
    0b000000000000000000,
    0b000000000000000000,
    0b000111000000111000,
    0b000111100001111000,
    0b000111110011111000,
    0b000011111111110000,
    0b000001111111100000,
    0b000000111111000000,
    0b000000111111000000,
    0b000001111111100000,
    0b000011111111110000,
    0b000111110011111000,
    0b000111100001111000,
    0b000111000000111000,
    0b000000000000000000,
    0b000000000000000000,
    0b000000000000000000,
];

/// Rows of the bar glyph that fills `value` rows from the bottom.
pub open spec fn bar_up_bits(value: usize) -> [GlyphSourceRow; GLYPH_SIZE] {
    [
        if value > 17 { BAR_ROW_ON } else { BAR_ROW_OFF },
        if value > 16 { BAR_ROW_ON } else { BAR_ROW_OFF },
        if value > 15 { BAR_ROW_ON } else { BAR_ROW_OFF },
        if value > 14 { BAR_ROW_ON } else { BAR_ROW_OFF },
        if value > 13 { BAR_ROW_ON } else { BAR_ROW_OFF },
        if value > 12 { BAR_ROW_ON } else { BAR_ROW_OFF },
        if value > 11 { BAR_ROW_ON } else { BAR_ROW_OFF },
        if value > 10 { BAR_ROW_ON } else { BAR_ROW_OFF },
        if value > 9 { BAR_ROW_ON } else { BAR_ROW_OFF },
        if value > 8 { BAR_ROW_ON } else { BAR_ROW_OFF },
        if value > 7 { BAR_ROW_ON } else { BAR_ROW_OFF },
        if value > 6 { BAR_ROW_ON } else { BAR_ROW_OFF },
        if value > 5 { BAR_ROW_ON } else { BAR_ROW_OFF },
        if value > 4 { BAR_ROW_ON } else { BAR_ROW_OFF },
        if value > 3 { BAR_ROW_ON } else { BAR_ROW_OFF },
        if value > 2 { BAR_ROW_ON } else { BAR_ROW_OFF },
        if value > 1 { BAR_ROW_ON } else { BAR_ROW_OFF },
        if value > 0 { BAR_ROW_ON } else { BAR_ROW_OFF },
    ]
}

/// Rows of the bar glyph that fills `value` rows from the top.
pub open spec fn bar_down_bits(value: usize) -> [GlyphSourceRow; GLYPH_SIZE] {
    [
        if value > 0 { BAR_ROW_ON } else { BAR_ROW_OFF },
        if value > 1 { BAR_ROW_ON } else { BAR_ROW_OFF },
        if value > 2 { BAR_ROW_ON } else { BAR_ROW_OFF },
        if value > 3 { BAR_ROW_ON } else { BAR_ROW_OFF },
        if value > 4 { BAR_ROW_ON } else { BAR_ROW_OFF },
        if value > 5 { BAR_ROW_ON } else { BAR_ROW_OFF },
        if value > 6 { BAR_ROW_ON } else { BAR_ROW_OFF },
        if value > 7 { BAR_ROW_ON } else { BAR_ROW_OFF },
        if value > 8 { BAR_ROW_ON } else { BAR_ROW_OFF },
        if value > 9 { BAR_ROW_ON } else { BAR_ROW_OFF },
        if value > 10 { BAR_ROW_ON } else { BAR_ROW_OFF },
        if value > 11 { BAR_ROW_ON } else { BAR_ROW_OFF },
        if value > 12 { BAR_ROW_ON } else { BAR_ROW_OFF },
        if value > 13 { BAR_ROW_ON } else { BAR_ROW_OFF },
        if value > 14 { BAR_ROW_ON } else { BAR_ROW_OFF },
        if value > 15 { BAR_ROW_ON } else { BAR_ROW_OFF },
        if value > 16 { BAR_ROW_ON } else { BAR_ROW_OFF },
        if value > 17 { BAR_ROW_ON } else { BAR_ROW_OFF },
    ]
}

/// Rows of the bar glyph that fills `value` columns from the left.
pub open spec fn bar_left_bits(value: usize) -> [GlyphSourceRow; GLYPH_SIZE] {
    let row = ((FULL_ROW << ((GLYPH_SIZE - value) as u32)) & FULL_ROW) as u32;
    [
        row,
        row,
        row,
        row,
        row,
        row,
        row,
        row,
        row,
        row,
        row,
        row,
        row,
        row,
        row,
        row,
        row,
        row,
    ]
}

/// Rows of the bar glyph that fills `value` columns from the right.
pub open spec fn bar_right_bits(value: usize) -> [GlyphSourceRow; GLYPH_SIZE] {
    let row = ((FULL_ROW >> ((GLYPH_SIZE - value) as u32)) & FULL_ROW) as u32;
    [
        row,
        row,
        row,
        row,
        row,
        row,
        row,
        row,
        row,
        row,
        row,
        row,
        row,
        row,
        row,
        row,
        row,
        row,
    ]
}

/// The source bitmap of each glyph code (`Count` has none and shows as space).
pub open spec fn glyph_bits(code: GlyphCode) -> [GlyphSourceRow; GLYPH_SIZE] {
    let i = code.code_index();
    if 50 <= i < 69 {
        bar_up_bits((i - 50) as usize)
    } else if 69 <= i < 88 {
        bar_down_bits((i - 69) as usize)
    } else if 88 <= i < 107 {
        bar_left_bits((i - 88) as usize)
    } else if 107 <= i < 126 {
        bar_right_bits((i - 107) as usize)
    } else {
        match code {
            GlyphCode::Space => GLYPH_SPACE,
            GlyphCode::Full => GLYPH_FULL,
            GlyphCode::D0 => GLYPH_0,
            GlyphCode::D1 => GLYPH_1,
            GlyphCode::D2 => GLYPH_2,
            GlyphCode::D3 => GLYPH_3,
            GlyphCode::D4 => GLYPH_4,
            GlyphCode::D5 => GLYPH_5,
            GlyphCode::D6 => GLYPH_6,
            GlyphCode::D7 => GLYPH_7,
            GlyphCode::D8 => GLYPH_8,
            GlyphCode::D9 => GLYPH_9,
            GlyphCode::A => GLYPH_A,
            GlyphCode::B => GLYPH_B,
            GlyphCode::C => GLYPH_C,
            GlyphCode::D => GLYPH_D,
            GlyphCode::E => GLYPH_E,
            GlyphCode::F => GLYPH_F,
            GlyphCode::G => GLYPH_G,
            GlyphCode::H => GLYPH_H,
            GlyphCode::I => GLYPH_I,
            GlyphCode::J => GLYPH_J,
            GlyphCode::K => GLYPH_K,
            GlyphCode::L => GLYPH_L,
            GlyphCode::M => GLYPH_M,
            GlyphCode::N => GLYPH_N,
            GlyphCode::O => GLYPH_O,
            GlyphCode::P => GLYPH_P,
            GlyphCode::Q => GLYPH_Q,
            GlyphCode::R => GLYPH_R,
            GlyphCode::S => GLYPH_S,
            GlyphCode::T => GLYPH_T,
            GlyphCode::U => GLYPH_U,
            GlyphCode::V => GLYPH_V,
            GlyphCode::W => GLYPH_W,
            GlyphCode::X => GLYPH_X,
            GlyphCode::Y => GLYPH_Y,
            GlyphCode::Z => GLYPH_Z,
            GlyphCode::UP => GLYPH_UP,
            GlyphCode::DOWN => GLYPH_DOWN,
            GlyphCode::LEFT => GLYPH_LEFT,
            GlyphCode::RIGHT => GLYPH_RIGHT,
            GlyphCode::UpLEFT => GLYPH_UP_LEFT,
            GlyphCode::UpRIGHT => GLYPH_UP_RIGHT,
            GlyphCode::TurnLEFT => GLYPH_TURN_LEFT,
            GlyphCode::TurnRIGHT => GLYPH_TURN_RIGHT,
            GlyphCode::Plus => GLYPH_PLUS,
            GlyphCode::Minus => GLYPH_MINUS,
            GlyphCode::Yes => GLYPH_YES,
            GlyphCode::No => GLYPH_NO,
            _ => GLYPH_SPACE,
        }
    }
}

pub open spec fn glyph_source_spec(code: GlyphCode) -> GlyphSource {
    GlyphSource { bits: glyph_bits(code) }
}

/// The bar glyph that fills `value` rows from the bottom.
pub fn glyph_bar_up(value: usize) -> (r: GlyphSource)
    ensures
        r.bits == bar_up_bits(value),
        forall|row: int| 0 <= row < GLYPH_SIZE ==> r.bits[row] == if value + row > 17 { BAR_ROW_ON } else { BAR_ROW_OFF },
{
    let bits = [
            if value > 17 { BAR_ROW_ON } else { BAR_ROW_OFF },
            if value > 16 { BAR_ROW_ON } else { BAR_ROW_OFF },
            if value > 15 { BAR_ROW_ON } else { BAR_ROW_OFF },
            if value > 14 { BAR_ROW_ON } else { BAR_ROW_OFF },
            if value > 13 { BAR_ROW_ON } else { BAR_ROW_OFF },
            if value > 12 { BAR_ROW_ON } else { BAR_ROW_OFF },
            if value > 11 { BAR_ROW_ON } else { BAR_ROW_OFF },
            if value > 10 { BAR_ROW_ON } else { BAR_ROW_OFF },
            if value > 9 { BAR_ROW_ON } else { BAR_ROW_OFF },
            if value > 8 { BAR_ROW_ON } else { BAR_ROW_OFF },
            if value > 7 { BAR_ROW_ON } else { BAR_ROW_OFF },
            if value > 6 { BAR_ROW_ON } else { BAR_ROW_OFF },
            if value > 5 { BAR_ROW_ON } else { BAR_ROW_OFF },
            if value > 4 { BAR_ROW_ON } else { BAR_ROW_OFF },
            if value > 3 { BAR_ROW_ON } else { BAR_ROW_OFF },
            if value > 2 { BAR_ROW_ON } else { BAR_ROW_OFF },
            if value > 1 { BAR_ROW_ON } else { BAR_ROW_OFF },
            if value > 0 { BAR_ROW_ON } else { BAR_ROW_OFF },
        ];
    GlyphSource { bits }
}

/// The bar glyph that fills `value` rows from the top.
pub fn glyph_bar_down(value: usize) -> (r: GlyphSource)
    ensures
        r.bits == bar_down_bits(value),
        forall|row: int| 0 <= row < GLYPH_SIZE ==> r.bits[row] == if value > row { BAR_ROW_ON } else { BAR_ROW_OFF },
{
    let bits = [
            if value > 0 { BAR_ROW_ON } else { BAR_ROW_OFF },
            if value > 1 { BAR_ROW_ON } else { BAR_ROW_OFF },
            if value > 2 { BAR_ROW_ON } else { BAR_ROW_OFF },
            if value > 3 { BAR_ROW_ON } else { BAR_ROW_OFF },
            if value > 4 { BAR_ROW_ON } else { BAR_ROW_OFF },
            if value > 5 { BAR_ROW_ON } else { BAR_ROW_OFF },
            if value > 6 { BAR_ROW_ON } else { BAR_ROW_OFF },
            if value > 7 { BAR_ROW_ON } else { BAR_ROW_OFF },
            if value > 8 { BAR_ROW_ON } else { BAR_ROW_OFF },
            if value > 9 { BAR_ROW_ON } else { BAR_ROW_OFF },
            if value > 10 { BAR_ROW_ON } else { BAR_ROW_OFF },
            if value > 11 { BAR_ROW_ON } else { BAR_ROW_OFF },
            if value > 12 { BAR_ROW_ON } else { BAR_ROW_OFF },
            if value > 13 { BAR_ROW_ON } else { BAR_ROW_OFF },
            if value > 14 { BAR_ROW_ON } else { BAR_ROW_OFF },
            if value > 15 { BAR_ROW_ON } else { BAR_ROW_OFF },
            if value > 16 { BAR_ROW_ON } else { BAR_ROW_OFF },
            if value > 17 { BAR_ROW_ON } else { BAR_ROW_OFF },
        ];
    GlyphSource { bits }
}

/// The bar glyph that fills `value` columns from the left.
pub fn glyph_bar_left(value: usize) -> (r: GlyphSource)
    requires
        value <= GLYPH_SIZE,
    ensures
        r.bits == bar_left_bits(value),
        forall|row: int| 0 <= row < GLYPH_SIZE ==> r.bits[row] == (FULL_ROW << ((GLYPH_SIZE - value) as u32)) & FULL_ROW,
{
    let row = (FULL_ROW << ((GLYPH_SIZE - value) as u32)) & FULL_ROW;
    let bits = [row; GLYPH_SIZE];
    assert(bits == bar_left_bits(value));
    GlyphSource { bits }
}

/// The bar glyph that fills `value` columns from the right.
pub fn glyph_bar_right(value: usize) -> (r: GlyphSource)
    requires
        value <= GLYPH_SIZE,
    ensures
        r.bits == bar_right_bits(value),
        forall|row: int| 0 <= row < GLYPH_SIZE ==> r.bits[row] == (FULL_ROW >> ((GLYPH_SIZE - value) as u32)) & FULL_ROW,
{
    let row = (FULL_ROW >> ((GLYPH_SIZE - value) as u32)) & FULL_ROW;
    let bits = [row; GLYPH_SIZE];
    assert(bits == bar_right_bits(value));
    GlyphSource { bits }
}

/// The source bitmap of `code`.
pub fn glyph_source(code: GlyphCode) -> (r: GlyphSource)
    ensures
        r == glyph_source_spec(code),
{
    let i = code.index();
    if 50 <= i && i < 69 {
        glyph_bar_up(i - 50)
    } else if 69 <= i && i < 88 {
        glyph_bar_down(i - 69)
    } else if 88 <= i && i < 107 {
        glyph_bar_left(i - 88)
    } else if 107 <= i && i < 126 {
        glyph_bar_right(i - 107)
    } else {
        let bits = match code {
            GlyphCode::Space => GLYPH_SPACE,
            GlyphCode::Full => GLYPH_FULL,
            GlyphCode::D0 => GLYPH_0,
            GlyphCode::D1 => GLYPH_1,
            GlyphCode::D2 => GLYPH_2,
            GlyphCode::D3 => GLYPH_3,
            GlyphCode::D4 => GLYPH_4,
            GlyphCode::D5 => GLYPH_5,
            GlyphCode::D6 => GLYPH_6,
            GlyphCode::D7 => GLYPH_7,
            GlyphCode::D8 => GLYPH_8,
            GlyphCode::D9 => GLYPH_9,
            GlyphCode::A => GLYPH_A,
            GlyphCode::B => GLYPH_B,
            GlyphCode::C => GLYPH_C,
            GlyphCode::D => GLYPH_D,
            GlyphCode::E => GLYPH_E,
            GlyphCode::F => GLYPH_F,
            GlyphCode::G => GLYPH_G,
            GlyphCode::H => GLYPH_H,
            GlyphCode::I => GLYPH_I,
            GlyphCode::J => GLYPH_J,
            GlyphCode::K => GLYPH_K,
            GlyphCode::L => GLYPH_L,
            GlyphCode::M => GLYPH_M,
            GlyphCode::N => GLYPH_N,
            GlyphCode::O => GLYPH_O,
            GlyphCode::P => GLYPH_P,
            GlyphCode::Q => GLYPH_Q,
            GlyphCode::R => GLYPH_R,
            GlyphCode::S => GLYPH_S,
            GlyphCode::T => GLYPH_T,
            GlyphCode::U => GLYPH_U,
            GlyphCode::V => GLYPH_V,
            GlyphCode::W => GLYPH_W,
            GlyphCode::X => GLYPH_X,
            GlyphCode::Y => GLYPH_Y,
            GlyphCode::Z => GLYPH_Z,
            GlyphCode::UP => GLYPH_UP,
            GlyphCode::DOWN => GLYPH_DOWN,
            GlyphCode::LEFT => GLYPH_LEFT,
            GlyphCode::RIGHT => GLYPH_RIGHT,
            GlyphCode::UpLEFT => GLYPH_UP_LEFT,
            GlyphCode::UpRIGHT => GLYPH_UP_RIGHT,
            GlyphCode::TurnLEFT => GLYPH_TURN_LEFT,
            GlyphCode::TurnRIGHT => GLYPH_TURN_RIGHT,
            GlyphCode::Plus => GLYPH_PLUS,
            GlyphCode::Minus => GLYPH_MINUS,
            GlyphCode::Yes => GLYPH_YES,
            GlyphCode::No => GLYPH_NO,
            _ => GLYPH_SPACE,
        };
        GlyphSource::new(bits)
    }
}


/// Glyph `c` is lit in exactly its `n` bottom rows (a bar growing upward).
pub open spec fn lit_from_bottom(c: GlyphCode, n: int) -> bool {
    forall|y: int|
        0 <= y < GLYPH_SIZE ==> #[trigger] glyph_bits(c)[y] == if y + n >= GLYPH_SIZE {
            BAR_ROW_ON
        } else {
            BAR_ROW_OFF
        }
}

/// Glyph `c` is lit in exactly its `n` top rows (a bar growing downward).
pub open spec fn lit_from_top(c: GlyphCode, n: int) -> bool {
    forall|y: int| 0 <= y < GLYPH_SIZE ==> #[trigger] glyph_bits(c)[y] == if y < n { BAR_ROW_ON } else { BAR_ROW_OFF }
}

/// Glyph `c` is lit in exactly its `n` leftmost columns, over its whole
/// height (a bar growing rightward).
pub open spec fn lit_from_left(c: GlyphCode, n: int) -> bool {
    forall|y: int, x: int|
        0 <= y < GLYPH_SIZE && 0 <= x < GLYPH_SIZE ==> #[trigger] source_pixel(glyph_source_spec(c), y, x) == if x
            < n {
            1u8
        } else {
            0u8
        }
}

/// Glyph `c` is lit in exactly its `n` rightmost columns, over its whole
/// height (a bar growing leftward).
pub open spec fn lit_from_right(c: GlyphCode, n: int) -> bool {
    forall|y: int, x: int|
        0 <= y < GLYPH_SIZE && 0 <= x < GLYPH_SIZE ==> #[trigger] source_pixel(glyph_source_spec(c), y, x) == if x
            >= GLYPH_SIZE - n {
            1u8
        } else {
            0u8
        }
}

/// The upward bar glyphs: the one `n` steps after `BarUp0` is lit in its
/// `n` bottom rows.
pub proof fn lemma_bar_up_glyphs(n: int)
    requires
        0 <= n <= 18,
    ensures
        lit_from_bottom(GlyphCode::from_index((50 + n) as usize), n),
{
    let c = GlyphCode::from_index((50 + n) as usize);
    assert(c.code_index() == 50 + n);
    assert(glyph_bits(c) == bar_up_bits(n as usize));
}

/// The downward bar glyphs: the one `n` steps after `BarDown0` is lit in
/// its `n` top rows.
pub proof fn lemma_bar_down_glyphs(n: int)
    requires
        0 <= n <= 18,
    ensures
        lit_from_top(GlyphCode::from_index((69 + n) as usize), n),
{
    let c = GlyphCode::from_index((69 + n) as usize);
    assert(c.code_index() == 69 + n);
    assert(glyph_bits(c) == bar_down_bits(n as usize));
}

/// The rightward bar glyphs: the one `n` steps after `BarLeft0` is lit in
/// its `n` leftmost columns.
pub proof fn lemma_bar_left_glyphs(n: int)
    requires
        0 <= n <= 18,
    ensures
        lit_from_left(GlyphCode::from_index((88 + n) as usize), n),
{
    let c = GlyphCode::from_index((88 + n) as usize);
    assert(c.code_index() == 88 + n);
    let row = ((FULL_ROW << ((GLYPH_SIZE - (n as usize)) as u32)) & FULL_ROW) as u32;
    assert(glyph_bits(c) == bar_left_bits(n as usize));
    let sh = (18 - n) as u32;
    assert(row == (0x3ffffu32 << sh) & 0x3ffffu32);
    assert forall|y: int, x: int| 0 <= y < GLYPH_SIZE && 0 <= x < GLYPH_SIZE implies #[trigger] source_pixel(
        glyph_source_spec(c),
        y,
        x,
    ) == if x < n {
        1u8
    } else {
        0u8
    } by {
        assert(glyph_bits(c)[y] == row);
        let b = (17 - x) as u32;
        let nn = n as u32;
        assert(((((0x3ffffu32 << sh) & 0x3ffffu32) >> b) & 1u32) as u8 == if (17 - b) < nn { 1u8 } else { 0u8 })
            by (bit_vector)
            requires
                sh == 18 - nn,
                nn <= 18,
                b < 18,
        ;
    }
}

/// The leftward bar glyphs: the one `n` steps after `BarRight0` is lit in
/// its `n` rightmost columns.
pub proof fn lemma_bar_right_glyphs(n: int)
    requires
        0 <= n <= 18,
    ensures
        lit_from_right(GlyphCode::from_index((107 + n) as usize), n),
{
    let c = GlyphCode::from_index((107 + n) as usize);
    assert(c.code_index() == 107 + n);
    let row = ((FULL_ROW >> ((GLYPH_SIZE - (n as usize)) as u32)) & FULL_ROW) as u32;
    assert(glyph_bits(c) == bar_right_bits(n as usize));
    let sh = (18 - n) as u32;
    assert(row == (0x3ffffu32 >> sh) & 0x3ffffu32);
    assert forall|y: int, x: int| 0 <= y < GLYPH_SIZE && 0 <= x < GLYPH_SIZE implies #[trigger] source_pixel(
        glyph_source_spec(c),
        y,
        x,
    ) == if x >= GLYPH_SIZE - n {
        1u8
    } else {
        0u8
    } by {
        assert(glyph_bits(c)[y] == row);
        let b = (17 - x) as u32;
        let nn = n as u32;
        assert(((((0x3ffffu32 >> sh) & 0x3ffffu32) >> b) & 1u32) as u8 == if (17 - b) >= 18 - nn { 1u8 } else { 0u8 })
            by (bit_vector)
            requires
                sh == 18 - nn,
                nn <= 18,
                b < 18,
        ;
    }
}

/// The space glyph is unlit: an empty cell of any bar.
pub proof fn lemma_space_unlit()
    ensures
        lit_from_bottom(GlyphCode::Space, 0),
        lit_from_top(GlyphCode::Space, 0),
        lit_from_left(GlyphCode::Space, 0),
        lit_from_right(GlyphCode::Space, 0),
{
    assert(glyph_bits(GlyphCode::Space) == GLYPH_SPACE);
    assert forall|y: int, x: int| 0 <= y < GLYPH_SIZE && 0 <= x < GLYPH_SIZE implies #[trigger] source_pixel(
        glyph_source_spec(GlyphCode::Space),
        y,
        x,
    ) == 0u8 by {
        assert(glyph_bits(GlyphCode::Space)[y] == 0u32);
        let b = (17 - x) as u32;
        assert(((0u32 >> b) & 1u32) as u8 == 0u8) by (bit_vector);
    }
}

} // verus!
