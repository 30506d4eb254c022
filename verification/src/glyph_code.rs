//! Codes of the glyphs that the font holds, and the character mapping.
use vstd::prelude::*;

verus! {

/// Every glyph of the font, in font order; `Count` is their number.
#[derive(Clone, Copy, PartialEq, Eq, Structural, Debug)]
pub enum GlyphCode {
    Space,
    Full,
    D0,
    D1,
    D2,
    D3,
    D4,
    D5,
    D6,
    D7,
    D8,
    D9,
    A,
    B,
    C,
    D,
    E,
    F,
    G,
    H,
    I,
    J,
    K,
    L,
    M,
    N,
    O,
    P,
    Q,
    R,
    S,
    T,
    U,
    V,
    W,
    X,
    Y,
    Z,
    UP,
    DOWN,
    LEFT,
    RIGHT,
    UpLEFT,
    UpRIGHT,
    TurnLEFT,
    TurnRIGHT,
    Plus,
    Minus,
    Yes,
    No,
    BarUp0,
    BarUp1,
    BarUp2,
    BarUp3,
    BarUp4,
    BarUp5,
    BarUp6,
    BarUp7,
    BarUp8,
    BarUp9,
    BarUp10,
    BarUp11,
    BarUp12,
    BarUp13,
    BarUp14,
    BarUp15,
    BarUp16,
    BarUp17,
    BarUp18,
    BarDown0,
    BarDown1,
    BarDown2,
    BarDown3,
    BarDown4,
    BarDown5,
    BarDown6,
    BarDown7,
    BarDown8,
    BarDown9,
    BarDown10,
    BarDown11,
    BarDown12,
    BarDown13,
    BarDown14,
    BarDown15,
    BarDown16,
    BarDown17,
    BarDown18,
    BarLeft0,
    BarLeft1,
    BarLeft2,
    BarLeft3,
    BarLeft4,
    BarLeft5,
    BarLeft6,
    BarLeft7,
    BarLeft8,
    BarLeft9,
    BarLeft10,
    BarLeft11,
    BarLeft12,
    BarLeft13,
    BarLeft14,
    BarLeft15,
    BarLeft16,
    BarLeft17,
    BarLeft18,
    BarRight0,
    BarRight1,
    BarRight2,
    BarRight3,
    BarRight4,
    BarRight5,
    BarRight6,
    BarRight7,
    BarRight8,
    BarRight9,
    BarRight10,
    BarRight11,
    BarRight12,
    BarRight13,
    BarRight14,
    BarRight15,
    BarRight16,
    BarRight17,
    BarRight18,
    Count,
}

/// Number of glyphs in the font (the position of `GlyphCode::Count`).
pub const GLYPH_CODE_COUNT: usize = 126;

impl GlyphCode {
    /// Position of the code in font order.
    pub open spec fn code_index(self) -> nat {
        match self {
            GlyphCode::Space => 0,
            GlyphCode::Full => 1,
            GlyphCode::D0 => 2,
            GlyphCode::D1 => 3,
            GlyphCode::D2 => 4,
            GlyphCode::D3 => 5,
            GlyphCode::D4 => 6,
            GlyphCode::D5 => 7,
            GlyphCode::D6 => 8,
            GlyphCode::D7 => 9,
            GlyphCode::D8 => 10,
            GlyphCode::D9 => 11,
            GlyphCode::A => 12,
            GlyphCode::B => 13,
            GlyphCode::C => 14,
            GlyphCode::D => 15,
            GlyphCode::E => 16,
            GlyphCode::F => 17,
            GlyphCode::G => 18,
            GlyphCode::H => 19,
            GlyphCode::I => 20,
            GlyphCode::J => 21,
            GlyphCode::K => 22,
            GlyphCode::L => 23,
            GlyphCode::M => 24,
            GlyphCode::N => 25,
            GlyphCode::O => 26,
            GlyphCode::P => 27,
            GlyphCode::Q => 28,
            GlyphCode::R => 29,
            GlyphCode::S => 30,
            GlyphCode::T => 31,
            GlyphCode::U => 32,
            GlyphCode::V => 33,
            GlyphCode::W => 34,
            GlyphCode::X => 35,
            GlyphCode::Y => 36,
            GlyphCode::Z => 37,
            GlyphCode::UP => 38,
            GlyphCode::DOWN => 39,
            GlyphCode::LEFT => 40,
            GlyphCode::RIGHT => 41,
            GlyphCode::UpLEFT => 42,
            GlyphCode::UpRIGHT => 43,
            GlyphCode::TurnLEFT => 44,
            GlyphCode::TurnRIGHT => 45,
            GlyphCode::Plus => 46,
            GlyphCode::Minus => 47,
            GlyphCode::Yes => 48,
            GlyphCode::No => 49,
            GlyphCode::BarUp0 => 50,
            GlyphCode::BarUp1 => 51,
            GlyphCode::BarUp2 => 52,
            GlyphCode::BarUp3 => 53,
            GlyphCode::BarUp4 => 54,
            GlyphCode::BarUp5 => 55,
            GlyphCode::BarUp6 => 56,
            GlyphCode::BarUp7 => 57,
            GlyphCode::BarUp8 => 58,
            GlyphCode::BarUp9 => 59,
            GlyphCode::BarUp10 => 60,
            GlyphCode::BarUp11 => 61,
            GlyphCode::BarUp12 => 62,
            GlyphCode::BarUp13 => 63,
            GlyphCode::BarUp14 => 64,
            GlyphCode::BarUp15 => 65,
            GlyphCode::BarUp16 => 66,
            GlyphCode::BarUp17 => 67,
            GlyphCode::BarUp18 => 68,
            GlyphCode::BarDown0 => 69,
            GlyphCode::BarDown1 => 70,
            GlyphCode::BarDown2 => 71,
            GlyphCode::BarDown3 => 72,
            GlyphCode::BarDown4 => 73,
            GlyphCode::BarDown5 => 74,
            GlyphCode::BarDown6 => 75,
            GlyphCode::BarDown7 => 76,
            GlyphCode::BarDown8 => 77,
            GlyphCode::BarDown9 => 78,
            GlyphCode::BarDown10 => 79,
            GlyphCode::BarDown11 => 80,
            GlyphCode::BarDown12 => 81,
            GlyphCode::BarDown13 => 82,
            GlyphCode::BarDown14 => 83,
            GlyphCode::BarDown15 => 84,
            GlyphCode::BarDown16 => 85,
            GlyphCode::BarDown17 => 86,
            GlyphCode::BarDown18 => 87,
            GlyphCode::BarLeft0 => 88,
            GlyphCode::BarLeft1 => 89,
            GlyphCode::BarLeft2 => 90,
            GlyphCode::BarLeft3 => 91,
            GlyphCode::BarLeft4 => 92,
            GlyphCode::BarLeft5 => 93,
            GlyphCode::BarLeft6 => 94,
            GlyphCode::BarLeft7 => 95,
            GlyphCode::BarLeft8 => 96,
            GlyphCode::BarLeft9 => 97,
            GlyphCode::BarLeft10 => 98,
            GlyphCode::BarLeft11 => 99,
            GlyphCode::BarLeft12 => 100,
            GlyphCode::BarLeft13 => 101,
            GlyphCode::BarLeft14 => 102,
            GlyphCode::BarLeft15 => 103,
            GlyphCode::BarLeft16 => 104,
            GlyphCode::BarLeft17 => 105,
            GlyphCode::BarLeft18 => 106,
            GlyphCode::BarRight0 => 107,
            GlyphCode::BarRight1 => 108,
            GlyphCode::BarRight2 => 109,
            GlyphCode::BarRight3 => 110,
            GlyphCode::BarRight4 => 111,
            GlyphCode::BarRight5 => 112,
            GlyphCode::BarRight6 => 113,
            GlyphCode::BarRight7 => 114,
            GlyphCode::BarRight8 => 115,
            GlyphCode::BarRight9 => 116,
            GlyphCode::BarRight10 => 117,
            GlyphCode::BarRight11 => 118,
            GlyphCode::BarRight12 => 119,
            GlyphCode::BarRight13 => 120,
            GlyphCode::BarRight14 => 121,
            GlyphCode::BarRight15 => 122,
            GlyphCode::BarRight16 => 123,
            GlyphCode::BarRight17 => 124,
            GlyphCode::BarRight18 => 125,
            GlyphCode::Count => 126,
        }
    }

    /// The code at font position `i`; positions past the last glyph give `Space`.
    pub open spec fn from_index(i: usize) -> GlyphCode {
        match i {
            0 => GlyphCode::Space,
            1 => GlyphCode::Full,
            2 => GlyphCode::D0,
            3 => GlyphCode::D1,
            4 => GlyphCode::D2,
            5 => GlyphCode::D3,
            6 => GlyphCode::D4,
            7 => GlyphCode::D5,
            8 => GlyphCode::D6,
            9 => GlyphCode::D7,
            10 => GlyphCode::D8,
            11 => GlyphCode::D9,
            12 => GlyphCode::A,
            13 => GlyphCode::B,
            14 => GlyphCode::C,
            15 => GlyphCode::D,
            16 => GlyphCode::E,
            17 => GlyphCode::F,
            18 => GlyphCode::G,
            19 => GlyphCode::H,
            20 => GlyphCode::I,
            21 => GlyphCode::J,
            22 => GlyphCode::K,
            23 => GlyphCode::L,
            24 => GlyphCode::M,
            25 => GlyphCode::N,
            26 => GlyphCode::O,
            27 => GlyphCode::P,
            28 => GlyphCode::Q,
            29 => GlyphCode::R,
            30 => GlyphCode::S,
            31 => GlyphCode::T,
            32 => GlyphCode::U,
            33 => GlyphCode::V,
            34 => GlyphCode::W,
            35 => GlyphCode::X,
            36 => GlyphCode::Y,
            37 => GlyphCode::Z,
            38 => GlyphCode::UP,
            39 => GlyphCode::DOWN,
            40 => GlyphCode::LEFT,
            41 => GlyphCode::RIGHT,
            42 => GlyphCode::UpLEFT,
            43 => GlyphCode::UpRIGHT,
            44 => GlyphCode::TurnLEFT,
            45 => GlyphCode::TurnRIGHT,
            46 => GlyphCode::Plus,
            47 => GlyphCode::Minus,
            48 => GlyphCode::Yes,
            49 => GlyphCode::No,
            50 => GlyphCode::BarUp0,
            51 => GlyphCode::BarUp1,
            52 => GlyphCode::BarUp2,
            53 => GlyphCode::BarUp3,
            54 => GlyphCode::BarUp4,
            55 => GlyphCode::BarUp5,
            56 => GlyphCode::BarUp6,
            57 => GlyphCode::BarUp7,
            58 => GlyphCode::BarUp8,
            59 => GlyphCode::BarUp9,
            60 => GlyphCode::BarUp10,
            61 => GlyphCode::BarUp11,
            62 => GlyphCode::BarUp12,
            63 => GlyphCode::BarUp13,
            64 => GlyphCode::BarUp14,
            65 => GlyphCode::BarUp15,
            66 => GlyphCode::BarUp16,
            67 => GlyphCode::BarUp17,
            68 => GlyphCode::BarUp18,
            69 => GlyphCode::BarDown0,
            70 => GlyphCode::BarDown1,
            71 => GlyphCode::BarDown2,
            72 => GlyphCode::BarDown3,
            73 => GlyphCode::BarDown4,
            74 => GlyphCode::BarDown5,
            75 => GlyphCode::BarDown6,
            76 => GlyphCode::BarDown7,
            77 => GlyphCode::BarDown8,
            78 => GlyphCode::BarDown9,
            79 => GlyphCode::BarDown10,
            80 => GlyphCode::BarDown11,
            81 => GlyphCode::BarDown12,
            82 => GlyphCode::BarDown13,
            83 => GlyphCode::BarDown14,
            84 => GlyphCode::BarDown15,
            85 => GlyphCode::BarDown16,
            86 => GlyphCode::BarDown17,
            87 => GlyphCode::BarDown18,
            88 => GlyphCode::BarLeft0,
            89 => GlyphCode::BarLeft1,
            90 => GlyphCode::BarLeft2,
            91 => GlyphCode::BarLeft3,
            92 => GlyphCode::BarLeft4,
            93 => GlyphCode::BarLeft5,
            94 => GlyphCode::BarLeft6,
            95 => GlyphCode::BarLeft7,
            96 => GlyphCode::BarLeft8,
            97 => GlyphCode::BarLeft9,
            98 => GlyphCode::BarLeft10,
            99 => GlyphCode::BarLeft11,
            100 => GlyphCode::BarLeft12,
            101 => GlyphCode::BarLeft13,
            102 => GlyphCode::BarLeft14,
            103 => GlyphCode::BarLeft15,
            104 => GlyphCode::BarLeft16,
            105 => GlyphCode::BarLeft17,
            106 => GlyphCode::BarLeft18,
            107 => GlyphCode::BarRight0,
            108 => GlyphCode::BarRight1,
            109 => GlyphCode::BarRight2,
            110 => GlyphCode::BarRight3,
            111 => GlyphCode::BarRight4,
            112 => GlyphCode::BarRight5,
            113 => GlyphCode::BarRight6,
            114 => GlyphCode::BarRight7,
            115 => GlyphCode::BarRight8,
            116 => GlyphCode::BarRight9,
            117 => GlyphCode::BarRight10,
            118 => GlyphCode::BarRight11,
            119 => GlyphCode::BarRight12,
            120 => GlyphCode::BarRight13,
            121 => GlyphCode::BarRight14,
            122 => GlyphCode::BarRight15,
            123 => GlyphCode::BarRight16,
            124 => GlyphCode::BarRight17,
            125 => GlyphCode::BarRight18,
            _ => GlyphCode::Space,
        }
    }

    /// Position of the code in font order.
    pub fn index(&self) -> (r: usize)
        ensures
            r == self.code_index(),
    {
        match self {
            GlyphCode::Space => 0,
            GlyphCode::Full => 1,
            GlyphCode::D0 => 2,
            GlyphCode::D1 => 3,
            GlyphCode::D2 => 4,
            GlyphCode::D3 => 5,
            GlyphCode::D4 => 6,
            GlyphCode::D5 => 7,
            GlyphCode::D6 => 8,
            GlyphCode::D7 => 9,
            GlyphCode::D8 => 10,
            GlyphCode::D9 => 11,
            GlyphCode::A => 12,
            GlyphCode::B => 13,
            GlyphCode::C => 14,
            GlyphCode::D => 15,
            GlyphCode::E => 16,
            GlyphCode::F => 17,
            GlyphCode::G => 18,
            GlyphCode::H => 19,
            GlyphCode::I => 20,
            GlyphCode::J => 21,
            GlyphCode::K => 22,
            GlyphCode::L => 23,
            GlyphCode::M => 24,
            GlyphCode::N => 25,
            GlyphCode::O => 26,
            GlyphCode::P => 27,
            GlyphCode::Q => 28,
            GlyphCode::R => 29,
            GlyphCode::S => 30,
            GlyphCode::T => 31,
            GlyphCode::U => 32,
            GlyphCode::V => 33,
            GlyphCode::W => 34,
            GlyphCode::X => 35,
            GlyphCode::Y => 36,
            GlyphCode::Z => 37,
            GlyphCode::UP => 38,
            GlyphCode::DOWN => 39,
            GlyphCode::LEFT => 40,
            GlyphCode::RIGHT => 41,
            GlyphCode::UpLEFT => 42,
            GlyphCode::UpRIGHT => 43,
            GlyphCode::TurnLEFT => 44,
            GlyphCode::TurnRIGHT => 45,
            GlyphCode::Plus => 46,
            GlyphCode::Minus => 47,
            GlyphCode::Yes => 48,
            GlyphCode::No => 49,
            GlyphCode::BarUp0 => 50,
            GlyphCode::BarUp1 => 51,
            GlyphCode::BarUp2 => 52,
            GlyphCode::BarUp3 => 53,
            GlyphCode::BarUp4 => 54,
            GlyphCode::BarUp5 => 55,
            GlyphCode::BarUp6 => 56,
            GlyphCode::BarUp7 => 57,
            GlyphCode::BarUp8 => 58,
            GlyphCode::BarUp9 => 59,
            GlyphCode::BarUp10 => 60,
            GlyphCode::BarUp11 => 61,
            GlyphCode::BarUp12 => 62,
            GlyphCode::BarUp13 => 63,
            GlyphCode::BarUp14 => 64,
            GlyphCode::BarUp15 => 65,
            GlyphCode::BarUp16 => 66,
            GlyphCode::BarUp17 => 67,
            GlyphCode::BarUp18 => 68,
            GlyphCode::BarDown0 => 69,
            GlyphCode::BarDown1 => 70,
            GlyphCode::BarDown2 => 71,
            GlyphCode::BarDown3 => 72,
            GlyphCode::BarDown4 => 73,
            GlyphCode::BarDown5 => 74,
            GlyphCode::BarDown6 => 75,
            GlyphCode::BarDown7 => 76,
            GlyphCode::BarDown8 => 77,
            GlyphCode::BarDown9 => 78,
            GlyphCode::BarDown10 => 79,
            GlyphCode::BarDown11 => 80,
            GlyphCode::BarDown12 => 81,
            GlyphCode::BarDown13 => 82,
            GlyphCode::BarDown14 => 83,
            GlyphCode::BarDown15 => 84,
            GlyphCode::BarDown16 => 85,
            GlyphCode::BarDown17 => 86,
            GlyphCode::BarDown18 => 87,
            GlyphCode::BarLeft0 => 88,
            GlyphCode::BarLeft1 => 89,
            GlyphCode::BarLeft2 => 90,
            GlyphCode::BarLeft3 => 91,
            GlyphCode::BarLeft4 => 92,
            GlyphCode::BarLeft5 => 93,
            GlyphCode::BarLeft6 => 94,
            GlyphCode::BarLeft7 => 95,
            GlyphCode::BarLeft8 => 96,
            GlyphCode::BarLeft9 => 97,
            GlyphCode::BarLeft10 => 98,
            GlyphCode::BarLeft11 => 99,
            GlyphCode::BarLeft12 => 100,
            GlyphCode::BarLeft13 => 101,
            GlyphCode::BarLeft14 => 102,
            GlyphCode::BarLeft15 => 103,
            GlyphCode::BarLeft16 => 104,
            GlyphCode::BarLeft17 => 105,
            GlyphCode::BarLeft18 => 106,
            GlyphCode::BarRight0 => 107,
            GlyphCode::BarRight1 => 108,
            GlyphCode::BarRight2 => 109,
            GlyphCode::BarRight3 => 110,
            GlyphCode::BarRight4 => 111,
            GlyphCode::BarRight5 => 112,
            GlyphCode::BarRight6 => 113,
            GlyphCode::BarRight7 => 114,
            GlyphCode::BarRight8 => 115,
            GlyphCode::BarRight9 => 116,
            GlyphCode::BarRight10 => 117,
            GlyphCode::BarRight11 => 118,
            GlyphCode::BarRight12 => 119,
            GlyphCode::BarRight13 => 120,
            GlyphCode::BarRight14 => 121,
            GlyphCode::BarRight15 => 122,
            GlyphCode::BarRight16 => 123,
            GlyphCode::BarRight17 => 124,
            GlyphCode::BarRight18 => 125,
            GlyphCode::Count => 126,
        }
    }

    /// The glyph at font position `index`, or `Space` when `index` is past the
    /// last glyph.
    pub fn from(index: usize) -> (r: Self)
        ensures
            r == Self::from_index(index),
            index < GLYPH_CODE_COUNT ==> r.code_index() == index,
            index >= GLYPH_CODE_COUNT ==> r == GlyphCode::Space,
    {
        match index {
            0 => GlyphCode::Space,
            1 => GlyphCode::Full,
            2 => GlyphCode::D0,
            3 => GlyphCode::D1,
            4 => GlyphCode::D2,
            5 => GlyphCode::D3,
            6 => GlyphCode::D4,
            7 => GlyphCode::D5,
            8 => GlyphCode::D6,
            9 => GlyphCode::D7,
            10 => GlyphCode::D8,
            11 => GlyphCode::D9,
            12 => GlyphCode::A,
            13 => GlyphCode::B,
            14 => GlyphCode::C,
            15 => GlyphCode::D,
            16 => GlyphCode::E,
            17 => GlyphCode::F,
            18 => GlyphCode::G,
            19 => GlyphCode::H,
            20 => GlyphCode::I,
            21 => GlyphCode::J,
            22 => GlyphCode::K,
            23 => GlyphCode::L,
            24 => GlyphCode::M,
            25 => GlyphCode::N,
            26 => GlyphCode::O,
            27 => GlyphCode::P,
            28 => GlyphCode::Q,
            29 => GlyphCode::R,
            30 => GlyphCode::S,
            31 => GlyphCode::T,
            32 => GlyphCode::U,
            33 => GlyphCode::V,
            34 => GlyphCode::W,
            35 => GlyphCode::X,
            36 => GlyphCode::Y,
            37 => GlyphCode::Z,
            38 => GlyphCode::UP,
            39 => GlyphCode::DOWN,
            40 => GlyphCode::LEFT,
            41 => GlyphCode::RIGHT,
            42 => GlyphCode::UpLEFT,
            43 => GlyphCode::UpRIGHT,
            44 => GlyphCode::TurnLEFT,
            45 => GlyphCode::TurnRIGHT,
            46 => GlyphCode::Plus,
            47 => GlyphCode::Minus,
            48 => GlyphCode::Yes,
            49 => GlyphCode::No,
            50 => GlyphCode::BarUp0,
            51 => GlyphCode::BarUp1,
            52 => GlyphCode::BarUp2,
            53 => GlyphCode::BarUp3,
            54 => GlyphCode::BarUp4,
            55 => GlyphCode::BarUp5,
            56 => GlyphCode::BarUp6,
            57 => GlyphCode::BarUp7,
            58 => GlyphCode::BarUp8,
            59 => GlyphCode::BarUp9,
            60 => GlyphCode::BarUp10,
            61 => GlyphCode::BarUp11,
            62 => GlyphCode::BarUp12,
            63 => GlyphCode::BarUp13,
            64 => GlyphCode::BarUp14,
            65 => GlyphCode::BarUp15,
            66 => GlyphCode::BarUp16,
            67 => GlyphCode::BarUp17,
            68 => GlyphCode::BarUp18,
            69 => GlyphCode::BarDown0,
            70 => GlyphCode::BarDown1,
            71 => GlyphCode::BarDown2,
            72 => GlyphCode::BarDown3,
            73 => GlyphCode::BarDown4,
            74 => GlyphCode::BarDown5,
            75 => GlyphCode::BarDown6,
            76 => GlyphCode::BarDown7,
            77 => GlyphCode::BarDown8,
            78 => GlyphCode::BarDown9,
            79 => GlyphCode::BarDown10,
            80 => GlyphCode::BarDown11,
            81 => GlyphCode::BarDown12,
            82 => GlyphCode::BarDown13,
            83 => GlyphCode::BarDown14,
            84 => GlyphCode::BarDown15,
            85 => GlyphCode::BarDown16,
            86 => GlyphCode::BarDown17,
            87 => GlyphCode::BarDown18,
            88 => GlyphCode::BarLeft0,
            89 => GlyphCode::BarLeft1,
            90 => GlyphCode::BarLeft2,
            91 => GlyphCode::BarLeft3,
            92 => GlyphCode::BarLeft4,
            93 => GlyphCode::BarLeft5,
            94 => GlyphCode::BarLeft6,
            95 => GlyphCode::BarLeft7,
            96 => GlyphCode::BarLeft8,
            97 => GlyphCode::BarLeft9,
            98 => GlyphCode::BarLeft10,
            99 => GlyphCode::BarLeft11,
            100 => GlyphCode::BarLeft12,
            101 => GlyphCode::BarLeft13,
            102 => GlyphCode::BarLeft14,
            103 => GlyphCode::BarLeft15,
            104 => GlyphCode::BarLeft16,
            105 => GlyphCode::BarLeft17,
            106 => GlyphCode::BarLeft18,
            107 => GlyphCode::BarRight0,
            108 => GlyphCode::BarRight1,
            109 => GlyphCode::BarRight2,
            110 => GlyphCode::BarRight3,
            111 => GlyphCode::BarRight4,
            112 => GlyphCode::BarRight5,
            113 => GlyphCode::BarRight6,
            114 => GlyphCode::BarRight7,
            115 => GlyphCode::BarRight8,
            116 => GlyphCode::BarRight9,
            117 => GlyphCode::BarRight10,
            118 => GlyphCode::BarRight11,
            119 => GlyphCode::BarRight12,
            120 => GlyphCode::BarRight13,
            121 => GlyphCode::BarRight14,
            122 => GlyphCode::BarRight15,
            123 => GlyphCode::BarRight16,
            124 => GlyphCode::BarRight17,
            125 => GlyphCode::BarRight18,
            _ => GlyphCode::Space,
        }
    }
}

/// Font positions and codes correspond one to one: a code sits at its own
/// position.
pub proof fn lemma_from_index_of_code(c: GlyphCode)
    requires
        c != GlyphCode::Count,
    ensures
        GlyphCode::from_index(c.code_index() as usize) == c,
{
}

/// Font positions and codes correspond one to one: the code found at a
/// position of the font has that position.
pub proof fn lemma_code_index_of_from(i: usize)
    requires
        i < GLYPH_CODE_COUNT,
    ensures
        GlyphCode::from_index(i).code_index() == i,
{
}

/// The glyph that shows a byte of text: digits, capital letters and a few
/// symbols have their own glyph, every other byte shows the full block.
pub open spec fn glyph_for_byte(byte: u8) -> GlyphCode {
    if 48 <= byte <= 57 {  // '0'..='9'
        GlyphCode::from_index((2 + (byte - 48)) as usize)
    } else if 65 <= byte <= 90 {  // 'A'..='Z'
        GlyphCode::from_index((12 + (byte - 65)) as usize)
    } else {
        match byte {
            32 => GlyphCode::Space,  // ' '
            94 => GlyphCode::UP,  // '^'
            118 => GlyphCode::DOWN,  // 'v'
            60 => GlyphCode::LEFT,  // '<'
            62 => GlyphCode::RIGHT,  // '>'
            92 => GlyphCode::UpLEFT,  // '\\'
            47 => GlyphCode::UpRIGHT,  // '/'
            108 => GlyphCode::TurnLEFT,  // 'l'
            114 => GlyphCode::TurnRIGHT,  // 'r'
            43 => GlyphCode::Plus,  // '+'
            45 => GlyphCode::Minus,  // '-'
            121 => GlyphCode::Yes,  // 'y'
            110 => GlyphCode::No,  // 'n'
            _ => GlyphCode::Full,
        }
    }
}

/// The glyph of a decimal digit, or the full block for anything else.
pub open spec fn glyph_for_digit(digit: int) -> GlyphCode {
    if 0 <= digit <= 9 {
        GlyphCode::from_index((2 + digit) as usize)
    } else {
        GlyphCode::Full
    }
}

pub fn byte_to_glyph_code(byte: u8) -> (r: GlyphCode)
    ensures
        r == glyph_for_byte(byte),
{
    match byte {
        32 => GlyphCode::Space,  // ' '
        95 => GlyphCode::Full,  // '_'
        48 => GlyphCode::D0,  // '0'
        49 => GlyphCode::D1,  // '1'
        50 => GlyphCode::D2,  // '2'
        51 => GlyphCode::D3,  // '3'
        52 => GlyphCode::D4,  // '4'
        53 => GlyphCode::D5,  // '5'
        54 => GlyphCode::D6,  // '6'
        55 => GlyphCode::D7,  // '7'
        56 => GlyphCode::D8,  // '8'
        57 => GlyphCode::D9,  // '9'
        65 => GlyphCode::A,  // 'A'
        66 => GlyphCode::B,  // 'B'
        67 => GlyphCode::C,  // 'C'
        68 => GlyphCode::D,  // 'D'
        69 => GlyphCode::E,  // 'E'
        70 => GlyphCode::F,  // 'F'
        71 => GlyphCode::G,  // 'G'
        72 => GlyphCode::H,  // 'H'
        73 => GlyphCode::I,  // 'I'
        74 => GlyphCode::J,  // 'J'
        75 => GlyphCode::K,  // 'K'
        76 => GlyphCode::L,  // 'L'
        77 => GlyphCode::M,  // 'M'
        78 => GlyphCode::N,  // 'N'
        79 => GlyphCode::O,  // 'O'
        80 => GlyphCode::P,  // 'P'
        81 => GlyphCode::Q,  // 'Q'
        82 => GlyphCode::R,  // 'R'
        83 => GlyphCode::S,  // 'S'
        84 => GlyphCode::T,  // 'T'
        85 => GlyphCode::U,  // 'U'
        86 => GlyphCode::V,  // 'V'
        87 => GlyphCode::W,  // 'W'
        88 => GlyphCode::X,  // 'X'
        89 => GlyphCode::Y,  // 'Y'
        90 => GlyphCode::Z,  // 'Z'
        94 => GlyphCode::UP,  // '^'
        118 => GlyphCode::DOWN,  // 'v'
        60 => GlyphCode::LEFT,  // '<'
        62 => GlyphCode::RIGHT,  // '>'
        92 => GlyphCode::UpLEFT,  // '\\'
        47 => GlyphCode::UpRIGHT,  // '/'
        108 => GlyphCode::TurnLEFT,  // 'l'
        114 => GlyphCode::TurnRIGHT,  // 'r'
        43 => GlyphCode::Plus,  // '+'
        45 => GlyphCode::Minus,  // '-'
        121 => GlyphCode::Yes,  // 'y'
        110 => GlyphCode::No,  // 'n'
        _ => GlyphCode::Full,
    }
}

pub fn glyph_digit(digit: i32) -> (r: GlyphCode)
    ensures
        r == glyph_for_digit(digit as int),
{
    match digit {
        0 => GlyphCode::D0,
        1 => GlyphCode::D1,
        2 => GlyphCode::D2,
        3 => GlyphCode::D3,
        4 => GlyphCode::D4,
        5 => GlyphCode::D5,
        6 => GlyphCode::D6,
        7 => GlyphCode::D7,
        8 => GlyphCode::D8,
        9 => GlyphCode::D9,
        _ => GlyphCode::Full,
    }
}


/// Each character of text is shown with the glyph that depicts it: the
/// digits `0`..`9` and the capital letters `A`..`Z` in order, each arrow
/// character (`^`, `v`, `<`, `>`, `\\`, `/`) with the arrow pointing its
/// way, `l` and `r` with the turning arrows, `+`, `-` and the space with
/// their signs, `y` and `n` with the yes and no marks.
pub proof fn lemma_text_glyphs()
    ensures
        forall|d: int| 0 <= d <= 9 ==> #[trigger] glyph_for_byte(('0' as u8 + d) as u8) == GlyphCode::from_index((GlyphCode::D0.code_index() + d) as usize),
        forall|i: int| 0 <= i < 26 ==> #[trigger] glyph_for_byte(('A' as u8 + i) as u8) == GlyphCode::from_index((GlyphCode::A.code_index() + i) as usize),
        glyph_for_byte('0' as u8) == GlyphCode::D0,
        glyph_for_byte('7' as u8) == GlyphCode::D7,
        glyph_for_byte('9' as u8) == GlyphCode::D9,
        glyph_for_byte('A' as u8) == GlyphCode::A,
        glyph_for_byte('Z' as u8) == GlyphCode::Z,
        glyph_for_byte('^' as u8) == GlyphCode::UP,
        glyph_for_byte('v' as u8) == GlyphCode::DOWN,
        glyph_for_byte('<' as u8) == GlyphCode::LEFT,
        glyph_for_byte('>' as u8) == GlyphCode::RIGHT,
        glyph_for_byte('\\' as u8) == GlyphCode::UpLEFT,
        glyph_for_byte('/' as u8) == GlyphCode::UpRIGHT,
        glyph_for_byte('l' as u8) == GlyphCode::TurnLEFT,
        glyph_for_byte('r' as u8) == GlyphCode::TurnRIGHT,
        glyph_for_byte('+' as u8) == GlyphCode::Plus,
        glyph_for_byte('-' as u8) == GlyphCode::Minus,
        glyph_for_byte(' ' as u8) == GlyphCode::Space,
        glyph_for_byte('y' as u8) == GlyphCode::Yes,
        glyph_for_byte('n' as u8) == GlyphCode::No,
{
}

} // verus!
