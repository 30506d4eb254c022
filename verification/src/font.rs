//! The font: every glyph of `GlyphCode`, drawn for one orientation.
use vstd::prelude::*;
use core::marker::PhantomData;
use crate::glyph::{renders, GlyphData, GlyphSource, LcdTopSide};
use crate::glyph_code::{GlyphCode, GLYPH_CODE_COUNT};
use crate::glyph_table::{
    glyph_source, glyph_source_spec, GLYPH_SPACE, GLYPH_FULL, GLYPH_0, GLYPH_1, GLYPH_2, GLYPH_3, GLYPH_4, GLYPH_5, GLYPH_6, GLYPH_7, GLYPH_8, GLYPH_9, GLYPH_A, GLYPH_B, GLYPH_C, GLYPH_D, GLYPH_E, GLYPH_F, GLYPH_G, GLYPH_H, GLYPH_I, GLYPH_J, GLYPH_K, GLYPH_L, GLYPH_M, GLYPH_N, GLYPH_O, GLYPH_P, GLYPH_Q, GLYPH_R, GLYPH_S, GLYPH_T, GLYPH_U, GLYPH_V, GLYPH_W, GLYPH_X, GLYPH_Y, GLYPH_Z, GLYPH_UP, GLYPH_DOWN, GLYPH_LEFT, GLYPH_RIGHT, GLYPH_UP_LEFT, GLYPH_UP_RIGHT, GLYPH_TURN_LEFT, GLYPH_TURN_RIGHT, GLYPH_PLUS, GLYPH_MINUS, GLYPH_YES, GLYPH_NO,
};
use crate::layout::LcdTopSideProvider;

verus! {

pub struct Font<TOP: LcdTopSideProvider> {
    top: PhantomData<TOP>,
    glyphs: Vec<GlyphData>,
}

impl<TOP: LcdTopSideProvider> View for Font<TOP> {
    type V = Seq<GlyphData>;

    closed spec fn view(&self) -> Seq<GlyphData> {
        self.glyphs@
    }
}

/// The font holds exactly one glyph per code in `GlyphCode` order, each one
/// the code's source bitmap drawn with `TOP`'s side up.
pub open spec fn font_glyphs_match(glyphs: Seq<GlyphData>, top: crate::glyph::LcdTopSide) -> bool {
    &&& glyphs.len() == GLYPH_CODE_COUNT
    &&& forall|i: int|
        0 <= i < GLYPH_CODE_COUNT ==> renders(
            #[trigger] glyphs[i],
            glyph_source_spec(GlyphCode::from_index(i as usize)),
            top,
        )
}

impl<TOP: LcdTopSideProvider> Font<TOP> {
    #[verifier::type_invariant]
    closed spec fn inv(&self) -> bool {
        self.glyphs@.len() == GLYPH_CODE_COUNT
    }

    /// The drawn glyph of `c`.
    pub fn glyph_data(&self, c: GlyphCode) -> (r: &GlyphData)
        requires
            c != GlyphCode::Count,
        ensures
            *r == self@[c.code_index() as int],
    {
        proof {
            use_type_invariant(self);
        }
        &self.glyphs[c.index()]
    }
}

/// Draws every glyph of the font with `TOP`'s side up.
pub fn build_font<TOP: LcdTopSideProvider>() -> (r: Font<TOP>)
    ensures
        font_glyphs_match(r@, TOP::layout().top_side),
{
    let dir = TOP::top_side();
    let mut glyphs: Vec<GlyphData> = Vec::new();
    for i in 0..GLYPH_CODE_COUNT
        invariant
            dir == TOP::layout().top_side,
            glyphs@.len() == i,
            forall|k: int|
                0 <= k < i ==> renders(
                    #[trigger] glyphs@[k],
                    glyph_source_spec(GlyphCode::from_index(k as usize)),
                    dir,
                ),
    {
        let code = GlyphCode::from(i);
        let data = glyph_source(code).glyph(dir);
        glyphs.push(data);
    }
    Font { top: PhantomData, glyphs }
}


/// The glyph at a code's position of a font is the code's source bitmap
/// drawn for the font's orientation.
proof fn lemma_font_entry(glyphs: Seq<GlyphData>, top: LcdTopSide, c: GlyphCode)
    requires
        font_glyphs_match(glyphs, top),
        c != GlyphCode::Count,
    ensures
        renders(glyphs[c.code_index() as int], glyph_source_spec(c), top),
{
    crate::glyph_code::lemma_from_index_of_code(c);
    assert(renders(glyphs[c.code_index() as int], glyph_source_spec(GlyphCode::from_index(c.code_index() as usize)), top));
}

/// Every digit, letter and symbol of a font is drawn from the bitmap named
/// after it: the glyph at the position of `D7` renders `GLYPH_7` for the
/// orientation, the glyph at `LEFT` renders the left arrow, and so on.
pub proof fn lemma_font_named_bitmaps(glyphs: Seq<GlyphData>, top: LcdTopSide)
    requires
        font_glyphs_match(glyphs, top),
    ensures
        renders(glyphs[GlyphCode::Space.code_index() as int], GlyphSource { bits: GLYPH_SPACE }, top),
        renders(glyphs[GlyphCode::Full.code_index() as int], GlyphSource { bits: GLYPH_FULL }, top),
        renders(glyphs[GlyphCode::D0.code_index() as int], GlyphSource { bits: GLYPH_0 }, top),
        renders(glyphs[GlyphCode::D1.code_index() as int], GlyphSource { bits: GLYPH_1 }, top),
        renders(glyphs[GlyphCode::D2.code_index() as int], GlyphSource { bits: GLYPH_2 }, top),
        renders(glyphs[GlyphCode::D3.code_index() as int], GlyphSource { bits: GLYPH_3 }, top),
        renders(glyphs[GlyphCode::D4.code_index() as int], GlyphSource { bits: GLYPH_4 }, top),
        renders(glyphs[GlyphCode::D5.code_index() as int], GlyphSource { bits: GLYPH_5 }, top),
        renders(glyphs[GlyphCode::D6.code_index() as int], GlyphSource { bits: GLYPH_6 }, top),
        renders(glyphs[GlyphCode::D7.code_index() as int], GlyphSource { bits: GLYPH_7 }, top),
        renders(glyphs[GlyphCode::D8.code_index() as int], GlyphSource { bits: GLYPH_8 }, top),
        renders(glyphs[GlyphCode::D9.code_index() as int], GlyphSource { bits: GLYPH_9 }, top),
        renders(glyphs[GlyphCode::A.code_index() as int], GlyphSource { bits: GLYPH_A }, top),
        renders(glyphs[GlyphCode::B.code_index() as int], GlyphSource { bits: GLYPH_B }, top),
        renders(glyphs[GlyphCode::C.code_index() as int], GlyphSource { bits: GLYPH_C }, top),
        renders(glyphs[GlyphCode::D.code_index() as int], GlyphSource { bits: GLYPH_D }, top),
        renders(glyphs[GlyphCode::E.code_index() as int], GlyphSource { bits: GLYPH_E }, top),
        renders(glyphs[GlyphCode::F.code_index() as int], GlyphSource { bits: GLYPH_F }, top),
        renders(glyphs[GlyphCode::G.code_index() as int], GlyphSource { bits: GLYPH_G }, top),
        renders(glyphs[GlyphCode::H.code_index() as int], GlyphSource { bits: GLYPH_H }, top),
        renders(glyphs[GlyphCode::I.code_index() as int], GlyphSource { bits: GLYPH_I }, top),
        renders(glyphs[GlyphCode::J.code_index() as int], GlyphSource { bits: GLYPH_J }, top),
        renders(glyphs[GlyphCode::K.code_index() as int], GlyphSource { bits: GLYPH_K }, top),
        renders(glyphs[GlyphCode::L.code_index() as int], GlyphSource { bits: GLYPH_L }, top),
        renders(glyphs[GlyphCode::M.code_index() as int], GlyphSource { bits: GLYPH_M }, top),
        renders(glyphs[GlyphCode::N.code_index() as int], GlyphSource { bits: GLYPH_N }, top),
        renders(glyphs[GlyphCode::O.code_index() as int], GlyphSource { bits: GLYPH_O }, top),
        renders(glyphs[GlyphCode::P.code_index() as int], GlyphSource { bits: GLYPH_P }, top),
        renders(glyphs[GlyphCode::Q.code_index() as int], GlyphSource { bits: GLYPH_Q }, top),
        renders(glyphs[GlyphCode::R.code_index() as int], GlyphSource { bits: GLYPH_R }, top),
        renders(glyphs[GlyphCode::S.code_index() as int], GlyphSource { bits: GLYPH_S }, top),
        renders(glyphs[GlyphCode::T.code_index() as int], GlyphSource { bits: GLYPH_T }, top),
        renders(glyphs[GlyphCode::U.code_index() as int], GlyphSource { bits: GLYPH_U }, top),
        renders(glyphs[GlyphCode::V.code_index() as int], GlyphSource { bits: GLYPH_V }, top),
        renders(glyphs[GlyphCode::W.code_index() as int], GlyphSource { bits: GLYPH_W }, top),
        renders(glyphs[GlyphCode::X.code_index() as int], GlyphSource { bits: GLYPH_X }, top),
        renders(glyphs[GlyphCode::Y.code_index() as int], GlyphSource { bits: GLYPH_Y }, top),
        renders(glyphs[GlyphCode::Z.code_index() as int], GlyphSource { bits: GLYPH_Z }, top),
        renders(glyphs[GlyphCode::UP.code_index() as int], GlyphSource { bits: GLYPH_UP }, top),
        renders(glyphs[GlyphCode::DOWN.code_index() as int], GlyphSource { bits: GLYPH_DOWN }, top),
        renders(glyphs[GlyphCode::LEFT.code_index() as int], GlyphSource { bits: GLYPH_LEFT }, top),
        renders(glyphs[GlyphCode::RIGHT.code_index() as int], GlyphSource { bits: GLYPH_RIGHT }, top),
        renders(glyphs[GlyphCode::UpLEFT.code_index() as int], GlyphSource { bits: GLYPH_UP_LEFT }, top),
        renders(glyphs[GlyphCode::UpRIGHT.code_index() as int], GlyphSource { bits: GLYPH_UP_RIGHT }, top),
        renders(glyphs[GlyphCode::TurnLEFT.code_index() as int], GlyphSource { bits: GLYPH_TURN_LEFT }, top),
        renders(glyphs[GlyphCode::TurnRIGHT.code_index() as int], GlyphSource { bits: GLYPH_TURN_RIGHT }, top),
        renders(glyphs[GlyphCode::Plus.code_index() as int], GlyphSource { bits: GLYPH_PLUS }, top),
        renders(glyphs[GlyphCode::Minus.code_index() as int], GlyphSource { bits: GLYPH_MINUS }, top),
        renders(glyphs[GlyphCode::Yes.code_index() as int], GlyphSource { bits: GLYPH_YES }, top),
        renders(glyphs[GlyphCode::No.code_index() as int], GlyphSource { bits: GLYPH_NO }, top),
{
    lemma_font_entry(glyphs, top, GlyphCode::Space);
    lemma_font_entry(glyphs, top, GlyphCode::Full);
    lemma_font_entry(glyphs, top, GlyphCode::D0);
    lemma_font_entry(glyphs, top, GlyphCode::D1);
    lemma_font_entry(glyphs, top, GlyphCode::D2);
    lemma_font_entry(glyphs, top, GlyphCode::D3);
    lemma_font_entry(glyphs, top, GlyphCode::D4);
    lemma_font_entry(glyphs, top, GlyphCode::D5);
    lemma_font_entry(glyphs, top, GlyphCode::D6);
    lemma_font_entry(glyphs, top, GlyphCode::D7);
    lemma_font_entry(glyphs, top, GlyphCode::D8);
    lemma_font_entry(glyphs, top, GlyphCode::D9);
    lemma_font_entry(glyphs, top, GlyphCode::A);
    lemma_font_entry(glyphs, top, GlyphCode::B);
    lemma_font_entry(glyphs, top, GlyphCode::C);
    lemma_font_entry(glyphs, top, GlyphCode::D);
    lemma_font_entry(glyphs, top, GlyphCode::E);
    lemma_font_entry(glyphs, top, GlyphCode::F);
    lemma_font_entry(glyphs, top, GlyphCode::G);
    lemma_font_entry(glyphs, top, GlyphCode::H);
    lemma_font_entry(glyphs, top, GlyphCode::I);
    lemma_font_entry(glyphs, top, GlyphCode::J);
    lemma_font_entry(glyphs, top, GlyphCode::K);
    lemma_font_entry(glyphs, top, GlyphCode::L);
    lemma_font_entry(glyphs, top, GlyphCode::M);
    lemma_font_entry(glyphs, top, GlyphCode::N);
    lemma_font_entry(glyphs, top, GlyphCode::O);
    lemma_font_entry(glyphs, top, GlyphCode::P);
    lemma_font_entry(glyphs, top, GlyphCode::Q);
    lemma_font_entry(glyphs, top, GlyphCode::R);
    lemma_font_entry(glyphs, top, GlyphCode::S);
    lemma_font_entry(glyphs, top, GlyphCode::T);
    lemma_font_entry(glyphs, top, GlyphCode::U);
    lemma_font_entry(glyphs, top, GlyphCode::V);
    lemma_font_entry(glyphs, top, GlyphCode::W);
    lemma_font_entry(glyphs, top, GlyphCode::X);
    lemma_font_entry(glyphs, top, GlyphCode::Y);
    lemma_font_entry(glyphs, top, GlyphCode::Z);
    lemma_font_entry(glyphs, top, GlyphCode::UP);
    lemma_font_entry(glyphs, top, GlyphCode::DOWN);
    lemma_font_entry(glyphs, top, GlyphCode::LEFT);
    lemma_font_entry(glyphs, top, GlyphCode::RIGHT);
    lemma_font_entry(glyphs, top, GlyphCode::UpLEFT);
    lemma_font_entry(glyphs, top, GlyphCode::UpRIGHT);
    lemma_font_entry(glyphs, top, GlyphCode::TurnLEFT);
    lemma_font_entry(glyphs, top, GlyphCode::TurnRIGHT);
    lemma_font_entry(glyphs, top, GlyphCode::Plus);
    lemma_font_entry(glyphs, top, GlyphCode::Minus);
    lemma_font_entry(glyphs, top, GlyphCode::Yes);
    lemma_font_entry(glyphs, top, GlyphCode::No);
}

} // verus!
