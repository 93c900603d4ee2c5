use crate::font::BitmapFont;
use crate::graphics::{image_blit, image_drawable, image_placement, NinePatch, Rect, TextStyle};
use crate::nine_patch::{drawable, nine_patch_plan, nine_patch_regions, Region};
use crate::text::{layout_text, text_glyphs, PlacedGlyph};
use vstd::prelude::*;

verus! {

/// A decoded image as the canvas sees it: a number by which the caller finds
/// the pixels again, and the image's size.
#[derive(Copy, Clone, Debug, PartialEq, Eq, Structural)]
pub struct ImageRef {
    pub id: u64,
    pub width: i32,
    pub height: i32,
}

/// Where a draw takes its pixels from.
#[derive(Copy, Clone, Debug, PartialEq, Eq, Structural)]
pub enum DrawSource {
    /// The decoded image with this number.
    Image(u64),
    /// The bitmap strip of this text style.
    Glyphs(TextStyle),
}

/// One draw: the rectangle `src` of the source is scaled into the rectangle
/// `dst` of the viewport.
#[derive(Copy, Clone, Debug, PartialEq, Eq, Structural)]
pub struct Draw {
    pub source: DrawSource,
    pub src: Rect,
    pub dst: Rect,
}

/// The draw of one region of a stretchable image.
pub open spec fn region_draw(id: u64, region: Region) -> Draw {
    Draw { source: DrawSource::Image(id), src: region.src, dst: region.dst }
}

/// The draw of one glyph.
pub open spec fn glyph_draw(style: TextStyle, glyph: PlacedGlyph) -> Draw {
    Draw { source: DrawSource::Glyphs(style), src: glyph.src, dst: glyph.dst }
}

/// The draws of a paint session, in the order in which they were asked for.
pub struct Canvas {
    draws: Vec<Draw>,
}

impl Canvas {
    /// The draws asked for so far.
    pub closed spec fn draws(&self) -> Seq<Draw> {
        self.draws@
    }

    /// A canvas on which nothing has been drawn.
    pub fn new() -> (canvas: Self)
        ensures
            canvas.draws() == Seq::<Draw>::empty(),
    {
        Canvas { draws: Vec::new() }
    }

    /// How many draws have been asked for.
    pub fn len(&self) -> (count: usize)
        ensures
            count == self.draws().len(),
    {
        self.draws.len()
    }

    /// The draw at place `index`.
    pub fn get(&self, index: usize) -> (draw: Option<Draw>)
        ensures
            draw == if index < self.draws().len() {
                Some(self.draws()[index as int])
            } else {
                None::<Draw>
            },
    {
        if index < self.draws.len() {
            Some(self.draws[index])
        } else {
            None
        }
    }

    /// Ends the session and hands the draws over.
    pub fn into_draws(self) -> (draws: Vec<Draw>)
        ensures
            draws@ == self.draws(),
    {
        self.draws
    }

    /// Draws a whole image at `pos`, scaled to `size` where one is given. A
    /// negative size draws nothing.
    pub fn image(&mut self, image: ImageRef, pos: (i32, i32), size: Option<(i32, i32)>)
        ensures
            final(self).draws() == if image_drawable(size) {
                old(self).draws().push(
                    (Draw {
                        source: DrawSource::Image(image.id),
                        src: image_blit((image.width, image.height), pos, size).0,
                        dst: image_blit((image.width, image.height), pos, size).1,
                    }),
                )
            } else {
                old(self).draws()
            },
    {
        match image_placement((image.width, image.height), pos, size) {
            Some((src, dst)) => {
                self.draws.push(Draw { source: DrawSource::Image(image.id), src, dst });
            },
            None => {},
        }
    }

    /// Draws `text` in `style` from the anchor `pos`, wrapped at
    /// `line_width` pixels: one draw for each glyph, in reading order.
    /// Without a font nothing is drawn.
    pub fn text(
        &mut self,
        font: Option<&BitmapFont>,
        text: &[char],
        style: TextStyle,
        pos: (i32, i32),
        line_width: i32,
    )
        ensures
            final(self).draws() == old(self).draws() + text_glyphs(
                font,
                text@,
                style,
                pos,
                line_width as int,
            ).map_values(|glyph: PlacedGlyph| glyph_draw(style, glyph)),
    {
        let glyphs = layout_text(font, text, style, pos, line_width);
        let ghost before = self.draws@;
        let ghost added = glyphs@.map_values(|glyph: PlacedGlyph| glyph_draw(style, glyph));
        let mut i: usize = 0;
        while i < glyphs.len()
            invariant
                i <= glyphs@.len(),
                added == glyphs@.map_values(|glyph: PlacedGlyph| glyph_draw(style, glyph)),
                self.draws@ == before + added.take(i as int),
            decreases glyphs@.len() - i,
        {
            let glyph = glyphs[i];
            self.draws.push(Draw { source: DrawSource::Glyphs(style), src: glyph.src, dst: glyph.dst });
            assert(self.draws@ =~= before + added.take(i as int + 1));
            i = i + 1;
        }
        assert(added.take(glyphs@.len() as int) =~= added);
    }

    /// Draws a stretchable image into the rectangle at `pos` of size `size`:
    /// exactly nine draws, in the fixed order of the regions. Where the
    /// composite is skipped nothing is drawn at all.
    pub fn nine_patch(&mut self, image: ImageRef, conf: NinePatch, pos: (i32, i32), size: (i32, i32))
        ensures
            final(self).draws() == if drawable((image.width, image.height), conf, size) {
                old(self).draws() + nine_patch_plan(
                    (image.width, image.height),
                    conf,
                    pos,
                    size,
                ).map_values(|region: Region| region_draw(image.id, region))
            } else {
                old(self).draws()
            },
            drawable((image.width, image.height), conf, size) ==> final(self).draws().len() == old(
                self,
            ).draws().len() + 9,
    {
        match nine_patch_regions((image.width, image.height), conf, pos, size) {
            Some(regions) => {
                let ghost before = self.draws@;
                let ghost added = regions@.map_values(|region: Region| region_draw(image.id, region));
                let mut i: usize = 0;
                while i < regions.len()
                    invariant
                        i <= regions@.len(),
                        added == regions@.map_values(|region: Region| region_draw(image.id, region)),
                        self.draws@ == before + added.take(i as int),
                    decreases regions@.len() - i,
                {
                    let region = regions[i];
                    self.draws.push(
                        Draw { source: DrawSource::Image(image.id), src: region.src, dst: region.dst },
                    );
                    assert(self.draws@ =~= before + added.take(i as int + 1));
                    i = i + 1;
                }
                assert(added.take(regions@.len() as int) =~= added);
            },
            None => {},
        }
    }
}

} // verus!
