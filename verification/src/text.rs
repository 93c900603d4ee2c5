use crate::font::{BitmapFont, BitmapFontLookupResult};
use crate::graphics::{Rect, TextStyle};
use vstd::prelude::*;

verus! {

/// One glyph of a laid-out text: its cell in the atlas bitmap and the place
/// on the surface where it is drawn.
#[derive(Copy, Clone, Debug, PartialEq, Eq, Structural)]
pub struct PlacedGlyph {
    pub src: Rect,
    pub dst: Rect,
}

/// The layout of a text so far: where the next glyph would go, and the
/// glyphs placed.
pub struct LayoutState {
    pub x: int,
    pub y: int,
    pub glyphs: Seq<PlacedGlyph>,
}

/// The width of a glyph in a cell of side `cell`.
pub open spec fn glyph_width(glyph: BitmapFontLookupResult, cell: int) -> int {
    if glyph.is_full_width {
        cell
    } else {
        cell / 2
    }
}

/// The glyph `glyph` drawn with its top-left corner at (`x`, `y`).
pub open spec fn placed(glyph: BitmapFontLookupResult, cell: int, x: int, y: int) -> PlacedGlyph {
    PlacedGlyph {
        src: Rect {
            x: (glyph.pos.0 * cell) as i64,
            y: (glyph.pos.1 * cell) as i64,
            width: glyph_width(glyph, cell) as i64,
            height: cell as i64,
        },
        dst: Rect {
            x: x as i64,
            y: y as i64,
            width: glyph_width(glyph, cell) as i64,
            height: cell as i64,
        },
    }
}

/// The layout before any character: the cursor at the anchor, nothing
/// placed.
pub open spec fn layout_start(pos: (i32, i32)) -> LayoutState {
    LayoutState { x: pos.0 as int, y: pos.1 as int, glyphs: Seq::empty() }
}

/// What one character does to the layout. A carriage return does nothing. A
/// newline moves the cursor to the start of the next line. Any other
/// character is first wrapped to the next line if it would end beyond the
/// line width, then placed, and the cursor moves on by its width. A glyph
/// whose line lies below the last 32-bit coordinate is left out.
pub open spec fn layout_step(
    font: BitmapFont,
    cell: int,
    anchor_x: int,
    line_width: int,
    before: LayoutState,
    c: char,
) -> LayoutState {
    if c == '\r' {
        before
    } else if c == '\n' {
        LayoutState { x: anchor_x, y: before.y + cell, glyphs: before.glyphs }
    } else {
        let glyph = font.glyph_or_default(c);
        let width = glyph_width(glyph, cell);
        let wraps = before.x + width > anchor_x + line_width;
        let x = if wraps {
            anchor_x
        } else {
            before.x
        };
        let y = if wraps {
            before.y + cell
        } else {
            before.y
        };
        LayoutState {
            x: x + width,
            y,
            glyphs: if y <= i32::MAX {
                before.glyphs.push(placed(glyph, cell, x, y))
            } else {
                before.glyphs
            },
        }
    }
}

/// The layout of `text` anchored at `pos`: the characters take their steps
/// one after another, from the first.
pub open spec fn layout(
    font: BitmapFont,
    cell: int,
    pos: (i32, i32),
    line_width: int,
    text: Seq<char>,
) -> LayoutState
    decreases text.len(),
{
    if text.len() == 0 {
        layout_start(pos)
    } else {
        layout_step(
            font,
            cell,
            pos.0 as int,
            line_width,
            layout(font, cell, pos, line_width, text.drop_last()),
            text.last(),
        )
    }
}

/// The glyphs drawn for `text`: none without a font, else those of the
/// layout in the style's cell size.
pub open spec fn text_glyphs(
    font: Option<&BitmapFont>,
    text: Seq<char>,
    style: TextStyle,
    pos: (i32, i32),
    line_width: int,
) -> Seq<PlacedGlyph> {
    match font {
        Some(f) => layout(*f, style.spec_cell_size(), pos, line_width, text).glyphs,
        None => Seq::empty(),
    }
}

/// The pixel at which the cell with the given column or row number begins.
fn cell_origin(number: i32, cell: i64) -> (origin: i64)
    requires
        cell == 16 || cell == 32,
    ensures
        origin == number * cell,
{
    if cell == 16 {
        number as i64 * 16
    } else {
        number as i64 * 32
    }
}

/// Lays `text` out in `style` from the anchor `pos`, breaking lines
/// character by character at `line_width` pixels, and gives the glyphs to
/// draw in order. Without a font nothing is drawn.
pub fn layout_text(
    font: Option<&BitmapFont>,
    text: &[char],
    style: TextStyle,
    pos: (i32, i32),
    line_width: i32,
) -> (glyphs: Vec<PlacedGlyph>)
    ensures
        glyphs@ == text_glyphs(font, text@, style, pos, line_width as int),
{
    let mut glyphs: Vec<PlacedGlyph> = Vec::new();
    let font = match font {
        Some(f) => f,
        None => {
            return glyphs;
        },
    };
    let cell: i64 = style.cell_size() as i64;
    let anchor_x: i64 = pos.0 as i64;
    let limit: i64 = anchor_x + line_width as i64;
    let mut x: i64 = anchor_x;
    let mut y: i128 = pos.1 as i128;
    let mut i: usize = 0;
    assert(text@.take(0).len() == 0);
    while i < text.len()
        invariant
            i <= text@.len(),
            cell == style.spec_cell_size(),
            cell == 16 || cell == 32,
            anchor_x == pos.0,
            limit == pos.0 + line_width,
            anchor_x <= x,
            x <= anchor_x + 32 || x <= limit,
            pos.1 <= y <= pos.1 + 32 * i,
            layout(*font, cell as int, pos, line_width as int, text@.take(i as int)) == (LayoutState {
                x: x as int,
                y: y as int,
                glyphs: glyphs@,
            }),
        decreases text@.len() - i,
    {
        let c: char = text[i];
        proof {
            let prefix = text@.take(i as int + 1);
            assert(prefix.drop_last() =~= text@.take(i as int));
            assert(prefix.last() == c);
        }
        if c == '\r' {
        } else if c == '\n' {
            x = anchor_x;
            y = y + cell as i128;
        } else {
            let found = font.lookup_or_default(c);
            let width: i64 = if found.is_full_width {
                cell
            } else {
                cell / 2
            };
            if x + width > limit {
                x = anchor_x;
                y = y + cell as i128;
            }
            if y <= 0x7fff_ffff {
                glyphs.push(
                    PlacedGlyph {
                        src: Rect {
                            x: cell_origin(found.pos.0, cell),
                            y: cell_origin(found.pos.1, cell),
                            width,
                            height: cell,
                        },
                        dst: Rect { x, y: y as i64, width, height: cell },
                    },
                );
            }
            x = x + width;
        }
        i = i + 1;
    }
    assert(text@.take(text@.len() as int) =~= text@);
    glyphs
}

/// A newline always starts a new line: whatever the cursor's place, it goes
/// back to the anchor's column and one cell down, and nothing is drawn.
pub proof fn lemma_newline_starts_line(
    font: BitmapFont,
    cell: int,
    pos: (i32, i32),
    line_width: int,
    text: Seq<char>,
)
    ensures
        layout(font, cell, pos, line_width, text.push('\n')) == (LayoutState {
            x: pos.0 as int,
            y: layout(font, cell, pos, line_width, text).y + cell,
            glyphs: layout(font, cell, pos, line_width, text).glyphs,
        }),
{
    assert(text.push('\n').drop_last() =~= text);
}

/// A carriage return has no effect: a text lays out as it does with the
/// carriage return taken out, cursor and glyphs alike.
pub proof fn lemma_carriage_return_ignored(
    font: BitmapFont,
    cell: int,
    pos: (i32, i32),
    line_width: int,
    before: Seq<char>,
    after: Seq<char>,
)
    ensures
        layout(font, cell, pos, line_width, before.push('\r') + after) == layout(
            font,
            cell,
            pos,
            line_width,
            before + after,
        ),
    decreases after.len(),
{
    if after.len() == 0 {
        assert(before.push('\r') + after =~= before.push('\r'));
        assert(before + after =~= before);
        assert(before.push('\r').drop_last() =~= before);
    } else {
        lemma_carriage_return_ignored(font, cell, pos, line_width, before, after.drop_last());
        assert((before.push('\r') + after).drop_last() =~= before.push('\r') + after.drop_last());
        assert((before + after).drop_last() =~= before + after.drop_last());
    }
}

/// A glyph keeps to its line: it starts at the anchor's column, or it lies
/// wholly between that column and the line width.
pub open spec fn within_line(glyph: PlacedGlyph, anchor_x: int, line_width: int) -> bool {
    glyph.dst.x == anchor_x || (anchor_x <= glyph.dst.x && glyph.dst.x + glyph.dst.width
        <= anchor_x + line_width)
}

/// No glyph runs over the line width, but for one that is alone too wide
/// for the line and stands at its start. The cursor never goes left of the
/// anchor.
pub proof fn lemma_glyphs_stay_in_line(
    font: BitmapFont,
    cell: int,
    pos: (i32, i32),
    line_width: int,
    text: Seq<char>,
)
    requires
        cell == 16 || cell == 32,
        i32::MIN <= line_width <= i32::MAX,
    ensures
        pos.0 <= layout(font, cell, pos, line_width, text).x,
        layout(font, cell, pos, line_width, text).x <= pos.0 + cell || layout(
            font,
            cell,
            pos,
            line_width,
            text,
        ).x <= pos.0 + line_width,
        forall|i: int|
            0 <= i < layout(font, cell, pos, line_width, text).glyphs.len() ==> within_line(
                #[trigger] layout(font, cell, pos, line_width, text).glyphs[i],
                pos.0 as int,
                line_width,
            ),
    decreases text.len(),
{
    if text.len() > 0 {
        lemma_glyphs_stay_in_line(font, cell, pos, line_width, text.drop_last());
        let before = layout(font, cell, pos, line_width, text.drop_last());
        let after = layout(font, cell, pos, line_width, text);
        assert(after == layout_step(font, cell, pos.0 as int, line_width, before, text.last()));
        assert forall|i: int| 0 <= i < after.glyphs.len() implies within_line(
            #[trigger] after.glyphs[i],
            pos.0 as int,
            line_width,
        ) by {
            if i < before.glyphs.len() {
                assert(after.glyphs[i] == before.glyphs[i]);
            }
        }
    }
}

/// A glyph that still fits in the line is placed at the cursor, on the same
/// line; one that would end beyond the line width is placed at the start of
/// the next line.
pub proof fn lemma_wrap_rule(
    font: BitmapFont,
    cell: int,
    pos: (i32, i32),
    line_width: int,
    text: Seq<char>,
    c: char,
)
    requires
        c != '\r',
        c != '\n',
    ensures
        ({
            let before = layout(font, cell, pos, line_width, text);
            let after = layout(font, cell, pos, line_width, text.push(c));
            let width = glyph_width(font.glyph_or_default(c), cell);
            if before.x + width <= pos.0 + line_width {
                after.y == before.y && after.x == before.x + width
            } else {
                after.y == before.y + cell && after.x == pos.0 + width
            }
        }),
{
    assert(text.push(c).drop_last() =~= text);
}

} // verus!
