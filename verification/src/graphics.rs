use vstd::prelude::*;

verus! {

/// The eight text styles: two cell sizes crossed with four faces.
#[derive(Copy, Clone, Debug, PartialEq, Eq, Structural, Hash, PartialOrd, Ord)]
pub enum TextStyle {
    SmallNormal,
    SmallBold,
    SmallItalic,
    SmallBoldItalic,
    LargeNormal,
    LargeBold,
    LargeItalic,
    LargeBoldItalic,
}

/// The side of a glyph cell of the small styles, in logical pixels.
pub const SMALL_CELL: i32 = 16;

/// The side of a glyph cell of the large styles, in logical pixels.
pub const LARGE_CELL: i32 = 32;

impl TextStyle {
    pub open spec fn spec_is_small(&self) -> bool {
        *self == TextStyle::SmallNormal || *self == TextStyle::SmallBold || *self
            == TextStyle::SmallItalic || *self == TextStyle::SmallBoldItalic
    }

    /// The side of this style's glyph cell.
    pub open spec fn spec_cell_size(&self) -> int {
        if self.spec_is_small() {
            SMALL_CELL as int
        } else {
            LARGE_CELL as int
        }
    }

    /// Whether the style uses the small cell.
    #[verifier::when_used_as_spec(spec_is_small)]
    pub fn is_small(&self) -> (small: bool)
        ensures
            small == self.spec_is_small(),
    {
        matches!(
            self,
            Self::SmallNormal | Self::SmallBold | Self::SmallItalic | Self::SmallBoldItalic
        )
    }

    /// The side of this style's glyph cell, in logical pixels.
    pub fn cell_size(&self) -> (side: i32)
        ensures
            side == self.spec_cell_size(),
            side == 16 || side == 32,
    {
        if self.is_small() {
            SMALL_CELL
        } else {
            LARGE_CELL
        }
    }

    /// The eight styles, small before large, each size in the order normal,
    /// bold, italic, bold-italic.
    pub fn all() -> (styles: Vec<TextStyle>)
        ensures
            styles@ == seq![
                TextStyle::SmallNormal,
                TextStyle::SmallBold,
                TextStyle::SmallItalic,
                TextStyle::SmallBoldItalic,
                TextStyle::LargeNormal,
                TextStyle::LargeBold,
                TextStyle::LargeItalic,
                TextStyle::LargeBoldItalic,
            ],
    {
        let mut styles: Vec<TextStyle> = Vec::new();
        styles.push(TextStyle::SmallNormal);
        styles.push(TextStyle::SmallBold);
        styles.push(TextStyle::SmallItalic);
        styles.push(TextStyle::SmallBoldItalic);
        styles.push(TextStyle::LargeNormal);
        styles.push(TextStyle::LargeBold);
        styles.push(TextStyle::LargeItalic);
        styles.push(TextStyle::LargeBoldItalic);
        assert(styles@ =~= seq![
            TextStyle::SmallNormal,
            TextStyle::SmallBold,
            TextStyle::SmallItalic,
            TextStyle::SmallBoldItalic,
            TextStyle::LargeNormal,
            TextStyle::LargeBold,
            TextStyle::LargeItalic,
            TextStyle::LargeBoldItalic,
        ]);
        styles
    }

    /// The style whose bitmap strip gives the atlas its number of columns.
    pub fn reference() -> (style: TextStyle)
        ensures
            style == TextStyle::SmallNormal,
    {
        TextStyle::SmallNormal
    }

    /// The suffix by which this style's bitmap strip is named on disk.
    pub open spec fn spec_suffix(&self) -> Seq<char> {
        match *self {
            TextStyle::SmallNormal => "n"@,
            TextStyle::SmallBold => "nb"@,
            TextStyle::SmallItalic => "ni"@,
            TextStyle::SmallBoldItalic => "nbi"@,
            TextStyle::LargeNormal => "l"@,
            TextStyle::LargeBold => "lb"@,
            TextStyle::LargeItalic => "li"@,
            TextStyle::LargeBoldItalic => "lbi"@,
        }
    }

    /// The suffix by which this style's bitmap strip is named on disk.
    pub fn suffix(&self) -> (text: &'static str)
        ensures
            text@ == self.spec_suffix(),
    {
        match self {
            TextStyle::SmallNormal => "n",
            TextStyle::SmallBold => "nb",
            TextStyle::SmallItalic => "ni",
            TextStyle::SmallBoldItalic => "nbi",
            TextStyle::LargeNormal => "l",
            TextStyle::LargeBold => "lb",
            TextStyle::LargeItalic => "li",
            TextStyle::LargeBoldItalic => "lbi",
        }
    }
}

/// An axis-aligned rectangle in pixels. Wide enough to hold every sum and
/// difference of a few 32-bit coordinates.
#[derive(Copy, Clone, Debug, PartialEq, Eq, Structural)]
pub struct Rect {
    pub x: i64,
    pub y: i64,
    pub width: i64,
    pub height: i64,
}

impl Rect {
    /// Whether the pixel at (`px`, `py`) lies inside the rectangle.
    pub open spec fn covers(&self, px: int, py: int) -> bool {
        &&& self.x <= px < self.x + self.width
        &&& self.y <= py < self.y + self.height
    }

    /// The rectangle moved by (`dx`, `dy`), as four integers.
    pub open spec fn moved(&self, dx: int, dy: int) -> (int, int, int, int) {
        (self.x + dx, self.y + dy, self.width as int, self.height as int)
    }

    pub open spec fn as_ints(&self) -> (int, int, int, int) {
        (self.x as int, self.y as int, self.width as int, self.height as int)
    }
}

/// The border thicknesses of a stretchable image.
#[derive(Copy, Clone, Debug, PartialEq, Eq, Structural, Hash, PartialOrd, Ord)]
pub struct NinePatch {
    pub left: i32,
    pub top: i32,
    pub right: i32,
    pub bottom: i32,
}

impl NinePatch {
    /// A descriptor with four separate borders.
    pub fn from_all(left: i32, top: i32, right: i32, bottom: i32) -> (patch: Self)
        ensures
            patch == (NinePatch { left, top, right, bottom }),
    {
        Self { left, top, right, bottom }
    }

    /// A descriptor with one thickness on all four sides.
    pub fn from_uni(border: i32) -> (patch: Self)
        ensures
            patch == (NinePatch { left: border, top: border, right: border, bottom: border }),
    {
        Self { left: border, top: border, right: border, bottom: border }
    }

    /// A descriptor with one thickness for left and right and one for top
    /// and bottom.
    pub fn from_hv(horizontal: i32, vertical: i32) -> (patch: Self)
        ensures
            patch == (NinePatch {
                left: horizontal,
                top: vertical,
                right: horizontal,
                bottom: vertical,
            }),
    {
        Self { left: horizontal, top: vertical, right: horizontal, bottom: vertical }
    }

    /// No border is negative.
    pub open spec fn well_formed(&self) -> bool {
        self.left >= 0 && self.top >= 0 && self.right >= 0 && self.bottom >= 0
    }

    /// The borders leave room inside a source of the given size.
    pub open spec fn fits(&self, width: int, height: int) -> bool {
        self.left + self.right <= width && self.top + self.bottom <= height
    }
}

/// Whether a whole image is drawn: a size that is asked for has no
/// negative extent.
pub open spec fn image_drawable(size: Option<(i32, i32)>) -> bool {
    match size {
        Some(s) => s.0 >= 0 && s.1 >= 0,
        None => true,
    }
}

/// Where a whole image goes: the source rectangle covers the image, the
/// destination rectangle starts at `pos` and has the size asked for, or the
/// image's own size where none is given.
pub open spec fn image_blit(image_size: (i32, i32), pos: (i32, i32), size: Option<(i32, i32)>) -> (
    Rect,
    Rect,
) {
    let extent = match size {
        Some(s) => s,
        None => image_size,
    };
    (
        Rect { x: 0, y: 0, width: image_size.0 as i64, height: image_size.1 as i64 },
        Rect { x: pos.0 as i64, y: pos.1 as i64, width: extent.0 as i64, height: extent.1 as i64 },
    )
}

/// Computes the source and destination rectangles for drawing a whole image.
/// Gives nothing, so that nothing is drawn, where a negative size is asked
/// for.
pub fn image_placement(image_size: (i32, i32), pos: (i32, i32), size: Option<(i32, i32)>) -> (blit:
    Option<(Rect, Rect)>)
    ensures
        blit.is_some() <==> image_drawable(size),
        blit matches Some(rects) ==> rects == image_blit(image_size, pos, size),
{
    let extent = match size {
        Some(s) => {
            if s.0 < 0 || s.1 < 0 {
                return None;
            }
            s
        },
        None => image_size,
    };
    Some(
        (
            Rect { x: 0, y: 0, width: image_size.0 as i64, height: image_size.1 as i64 },
            Rect { x: pos.0 as i64, y: pos.1 as i64, width: extent.0 as i64, height: extent.1 as i64 },
        ),
    )
}

} // verus!
