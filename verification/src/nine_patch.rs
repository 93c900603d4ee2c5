use crate::graphics::{NinePatch, Rect};
use vstd::prelude::*;

verus! {

/// How a region of a stretchable image is scaled.
#[derive(Copy, Clone, Debug, PartialEq, Eq, Structural)]
pub enum RegionKind {
    /// Copied at its own size.
    Corner,
    /// The top or bottom edge: stretched along x only.
    HorizontalEdge,
    /// The left or right edge: stretched along y only.
    VerticalEdge,
    /// Stretched along both axes.
    Center,
}

/// One of the nine draws: a source rectangle inside the image and the
/// destination rectangle it is scaled into.
#[derive(Copy, Clone, Debug, PartialEq, Eq, Structural)]
pub struct Region {
    pub kind: RegionKind,
    pub src: Rect,
    pub dst: Rect,
}

/// Where band `slot` (0: leading border, 1: middle, 2: trailing border)
/// starts along an axis of length `total`.
pub open spec fn band_offset(slot: int, total: int, lead: int, trail: int) -> int {
    if slot == 0 {
        0
    } else if slot == 1 {
        lead
    } else {
        total - trail
    }
}

/// How long band `slot` is along an axis of length `total`.
pub open spec fn band_extent(slot: int, total: int, lead: int, trail: int) -> int {
    if slot == 0 {
        lead
    } else if slot == 1 {
        total - lead - trail
    } else {
        trail
    }
}

/// The kind of the region in column `col` and row `row` of the grid.
pub open spec fn region_kind(col: int, row: int) -> RegionKind {
    if col == 1 && row == 1 {
        RegionKind::Center
    } else if row == 1 {
        RegionKind::VerticalEdge
    } else if col == 1 {
        RegionKind::HorizontalEdge
    } else {
        RegionKind::Corner
    }
}

/// The region drawn at place `k` of the fixed order, which goes through the
/// grid row by row from the top-left: its column is `k % 3`, its row `k / 3`.
pub open spec fn region_at(
    k: int,
    image_size: (i32, i32),
    conf: NinePatch,
    pos: (i32, i32),
    size: (i32, i32),
) -> Region {
    let col = k % 3;
    let row = k / 3;
    Region {
        kind: region_kind(col, row),
        src: Rect {
            x: band_offset(col, image_size.0 as int, conf.left as int, conf.right as int) as i64,
            y: band_offset(row, image_size.1 as int, conf.top as int, conf.bottom as int) as i64,
            width: band_extent(col, image_size.0 as int, conf.left as int, conf.right as int) as i64,
            height: band_extent(row, image_size.1 as int, conf.top as int, conf.bottom as int) as i64,
        },
        dst: Rect {
            x: (pos.0 + band_offset(col, size.0 as int, conf.left as int, conf.right as int)) as i64,
            y: (pos.1 + band_offset(row, size.1 as int, conf.top as int, conf.bottom as int)) as i64,
            width: band_extent(col, size.0 as int, conf.left as int, conf.right as int) as i64,
            height: band_extent(row, size.1 as int, conf.top as int, conf.bottom as int) as i64,
        },
    }
}

/// Whether a composite is drawn at all: no border and no destination extent
/// is negative, and the borders fit inside the source.
pub open spec fn drawable(image_size: (i32, i32), conf: NinePatch, size: (i32, i32)) -> bool {
    &&& conf.well_formed()
    &&& size.0 >= 0
    &&& size.1 >= 0
    &&& conf.fits(image_size.0 as int, image_size.1 as int)
}

/// The nine draws of a composite, in their fixed order.
pub open spec fn nine_patch_plan(
    image_size: (i32, i32),
    conf: NinePatch,
    pos: (i32, i32),
    size: (i32, i32),
) -> Seq<Region> {
    Seq::new(9, |k: int| region_at(k, image_size, conf, pos, size))
}

fn band(slot: u8, total: i32, lead: i32, trail: i32) -> (span: (i64, i64))
    requires
        slot < 3,
    ensures
        span.0 == band_offset(slot as int, total as int, lead as int, trail as int),
        span.1 == band_extent(slot as int, total as int, lead as int, trail as int),
{
    let total: i64 = total as i64;
    let lead: i64 = lead as i64;
    let trail: i64 = trail as i64;
    if slot == 0 {
        (0, lead)
    } else if slot == 1 {
        (lead, total - lead - trail)
    } else {
        (total - trail, trail)
    }
}

fn kind_of(col: u8, row: u8) -> (kind: RegionKind)
    ensures
        kind == region_kind(col as int, row as int),
{
    if col == 1 && row == 1 {
        RegionKind::Center
    } else if row == 1 {
        RegionKind::VerticalEdge
    } else if col == 1 {
        RegionKind::HorizontalEdge
    } else {
        RegionKind::Corner
    }
}

/// Plans the composite of a stretchable image of size `image_size` into the
/// rectangle at `pos` of size `size`. Gives nothing where the composite is
/// skipped: a negative border or extent, or borders wider than the source.
/// Otherwise gives the nine draws in order: top-left, top, top-right, left,
/// center, right, bottom-left, bottom, bottom-right.
pub fn nine_patch_regions(
    image_size: (i32, i32),
    conf: NinePatch,
    pos: (i32, i32),
    size: (i32, i32),
) -> (plan: Option<Vec<Region>>)
    ensures
        plan.is_some() <==> drawable(image_size, conf, size),
        plan matches Some(regions) ==> regions@ == nine_patch_plan(image_size, conf, pos, size),
{
    if conf.left < 0 || conf.top < 0 || conf.right < 0 || conf.bottom < 0 {
        return None;
    }
    if size.0 < 0 || size.1 < 0 {
        return None;
    }
    if (image_size.0 as i64) < conf.left as i64 + conf.right as i64 || (image_size.1 as i64)
        < conf.top as i64 + conf.bottom as i64 {
        return None;
    }
    let mut regions: Vec<Region> = Vec::new();
    let mut k: u8 = 0;
    while k < 9
        invariant
            k <= 9,
            regions@.len() == k,
            forall|j: int| 0 <= j < k ==> #[trigger] regions@[j] == region_at(j, image_size, conf, pos, size),
        decreases 9 - k,
    {
        let col: u8 = k % 3;
        let row: u8 = k / 3;
        let (sx, sw) = band(col, image_size.0, conf.left, conf.right);
        let (sy, sh) = band(row, image_size.1, conf.top, conf.bottom);
        let (dx, dw) = band(col, size.0, conf.left, conf.right);
        let (dy, dh) = band(row, size.1, conf.top, conf.bottom);
        regions.push(
            Region {
                kind: kind_of(col, row),
                src: Rect { x: sx, y: sy, width: sw, height: sh },
                dst: Rect { x: pos.0 as i64 + dx, y: pos.1 as i64 + dy, width: dw, height: dh },
            },
        );
        k = k + 1;
    }
    assert(regions@ =~= nine_patch_plan(image_size, conf, pos, size));
    Some(regions)
}

/// Composited into a destination of the source's own size, every region
/// keeps its size and lands where it lay in the source, moved by `pos`: the
/// image is reproduced unchanged.
pub proof fn lemma_same_size_is_identity(
    k: int,
    image_size: (i32, i32),
    conf: NinePatch,
    pos: (i32, i32),
)
    requires
        0 <= k < 9,
    ensures
        region_at(k, image_size, conf, pos, image_size).dst.as_ints() == region_at(
            k,
            image_size,
            conf,
            pos,
            image_size,
        ).src.moved(pos.0 as int, pos.1 as int),
{
}

/// How each kind of region is scaled: a corner keeps both extents, the top
/// and bottom edges keep their height, the left and right edges keep their
/// width. The kinds sit in the grid as corners, edges and center do.
pub proof fn lemma_scaling_by_kind(
    k: int,
    image_size: (i32, i32),
    conf: NinePatch,
    pos: (i32, i32),
    size: (i32, i32),
)
    requires
        0 <= k < 9,
    ensures
        ({
            let region = region_at(k, image_size, conf, pos, size);
            &&& region.kind == RegionKind::Corner <==> (k == 0 || k == 2 || k == 6 || k == 8)
            &&& region.kind == RegionKind::HorizontalEdge <==> (k == 1 || k == 7)
            &&& region.kind == RegionKind::VerticalEdge <==> (k == 3 || k == 5)
            &&& region.kind == RegionKind::Center <==> k == 4
            &&& region.kind == RegionKind::Corner ==> region.dst.width == region.src.width
                && region.dst.height == region.src.height
            &&& region.kind == RegionKind::HorizontalEdge ==> region.dst.height
                == region.src.height
            &&& region.kind == RegionKind::VerticalEdge ==> region.dst.width == region.src.width
        }),
{
}

/// The band of an axis of length `total` in which the offset `p` lies.
pub open spec fn band_of(p: int, total: int, lead: int, trail: int) -> int {
    if p < lead {
        0
    } else if p < total - trail {
        1
    } else {
        2
    }
}

/// The place in the drawing order of the region whose source holds the pixel
/// (`px`, `py`).
pub open spec fn region_of_pixel(px: int, py: int, image_size: (i32, i32), conf: NinePatch) -> int {
    band_of(py, image_size.1 as int, conf.top as int, conf.bottom as int) * 3 + band_of(
        px,
        image_size.0 as int,
        conf.left as int,
        conf.right as int,
    )
}

/// The nine source rectangles of a drawn composite tile the image: every
/// pixel of the source lies in exactly one of them.
pub proof fn lemma_sources_tile_image(
    px: int,
    py: int,
    image_size: (i32, i32),
    conf: NinePatch,
    pos: (i32, i32),
    size: (i32, i32),
)
    requires
        drawable(image_size, conf, size),
        0 <= px < image_size.0,
        0 <= py < image_size.1,
    ensures
        0 <= region_of_pixel(px, py, image_size, conf) < 9,
        forall|k: int|
            0 <= k < 9 ==> (#[trigger] region_at(k, image_size, conf, pos, size).src.covers(px, py)
                <==> k == region_of_pixel(px, py, image_size, conf)),
{
    assert forall|k: int| 0 <= k < 9 implies (#[trigger] region_at(
        k,
        image_size,
        conf,
        pos,
        size,
    ).src.covers(px, py) <==> k == region_of_pixel(px, py, image_size, conf)) by {
        let col = k % 3;
        let row = k / 3;
        assert(k == row * 3 + col);
        assert(0 <= col < 3 && 0 <= row < 3);
    }
}

/// Where the borders fit inside the destination too, the nine destination
/// rectangles tile it: every pixel of the destination is drawn by exactly
/// one region.
pub proof fn lemma_destinations_tile_target(
    px: int,
    py: int,
    image_size: (i32, i32),
    conf: NinePatch,
    pos: (i32, i32),
    size: (i32, i32),
)
    requires
        drawable(image_size, conf, size),
        conf.fits(size.0 as int, size.1 as int),
        pos.0 <= px < pos.0 + size.0,
        pos.1 <= py < pos.1 + size.1,
    ensures
        forall|k: int|
            0 <= k < 9 ==> (#[trigger] region_at(k, image_size, conf, pos, size).dst.covers(px, py)
                <==> k == region_of_pixel(px - pos.0, py - pos.1, size, conf)),
{
    assert forall|k: int| 0 <= k < 9 implies (#[trigger] region_at(
        k,
        image_size,
        conf,
        pos,
        size,
    ).dst.covers(px, py) <==> k == region_of_pixel(px - pos.0, py - pos.1, size, conf)) by {
        let col = k % 3;
        let row = k / 3;
        assert(k == row * 3 + col);
        assert(0 <= col < 3 && 0 <= row < 3);
    }
}

/// A skipped composite: borders that do not fit inside the source give no
/// draw at all, whatever the destination.
pub proof fn lemma_oversized_borders_not_drawable(
    image_size: (i32, i32),
    conf: NinePatch,
    size: (i32, i32),
)
    requires
        conf.left + conf.right > image_size.0 || conf.top + conf.bottom > image_size.1,
    ensures
        !drawable(image_size, conf, size),
{
}

} // verus!
