use vstd::prelude::*;
use crate::color::Color;
use crate::geometry::{Point, Size};

verus! {

/// Where one caption line is drawn, and how tall it was measured.
#[derive(Clone, Copy, Debug, PartialEq, Eq, Structural)]
pub struct LinePlacement {
    pub x: i64,
    pub y: i64,
    pub line_height: u32,
}

/// One pass of drawing a caption line: where, and in which colour.
#[derive(Clone, Copy, Debug, PartialEq, Eq, Structural)]
pub struct TextLayer {
    pub position: Point,
    pub color: Color,
}

/// The coordinate at which something `inner` long is centred in something
/// `outer` long: half the difference, rounded down.
pub open spec fn centered(outer: int, inner: int) -> int {
    (outer - inner) / 2
}

/// The position of the focal image: centred horizontally, and vertically
/// placed as if the image were as tall as it is wide, then moved down by
/// `vertical_offset`.
pub open spec fn image_origin(viewport: Size, image: Size, vertical_offset: i32) -> Point {
    Point {
        x: centered(viewport.width as int, image.width as int) as i64,
        y: (centered(viewport.height as int, image.width as int) + vertical_offset) as i64,
    }
}

/// The pointer lies strictly between the box's origin and its far corner on
/// both axes.
pub open spec fn strictly_inside(pointer: Point, origin: Point, size: Size) -> bool {
    &&& origin.x < pointer.x < origin.x + size.width
    &&& origin.y < pointer.y < origin.y + size.height
}

/// The height taken by the first `lines` lines of a block, each followed by
/// `line_spacing`.
pub open spec fn stacked_height(measured: Seq<Size>, line_spacing: u32, lines: int) -> int
    decreases lines,
{
    if lines <= 0 {
        0
    } else {
        stacked_height(measured, line_spacing, lines - 1) + measured[lines - 1].height
            + line_spacing
    }
}

/// Where line number `line` of a block stands: centred horizontally, and
/// below `y_offset` by the height of the lines before it.
pub open spec fn line_placement(
    measured: Seq<Size>,
    viewport: Size,
    y_offset: i32,
    line_spacing: u32,
    line: int,
) -> LinePlacement {
    LinePlacement {
        x: centered(viewport.width as int, measured[line].width as int) as i64,
        y: (y_offset + stacked_height(measured, line_spacing, line)) as i64,
        line_height: measured[line].height,
    }
}

/// The vertical position of the block's last line can be represented.
pub open spec fn block_fits(measured: Seq<Size>, y_offset: i32, line_spacing: u32) -> bool {
    y_offset + stacked_height(measured, line_spacing, measured.len() - 1) <= i64::MAX
}

/// The two layers of an outlined caption line in drawing order: the outline
/// layer, moved by `outline_offset`, then the face at the line's own
/// position.
pub open spec fn outlined(
    position: Point,
    outline_offset: (i32, i32),
    primary: Color,
    outline: Color,
) -> (TextLayer, TextLayer) {
    (
        TextLayer {
            position: Point {
                x: (position.x + outline_offset.0) as i64,
                y: (position.y + outline_offset.1) as i64,
            },
            color: outline,
        },
        TextLayer { position, color: primary },
    )
}

proof fn lemma_stacked_height_grows(measured: Seq<Size>, line_spacing: u32, fewer: int, more: int)
    requires
        0 <= fewer <= more,
    ensures
        0 <= stacked_height(measured, line_spacing, fewer) <= stacked_height(
            measured,
            line_spacing,
            more,
        ),
    decreases more,
{
    if fewer < more {
        lemma_stacked_height_grows(measured, line_spacing, fewer, more - 1);
    } else if 0 < fewer {
        lemma_stacked_height_grows(measured, line_spacing, fewer - 1, more - 1);
    }
}

/// Centres a length inside another.
pub fn center_offset(outer: u32, inner: u32) -> (offset: i64)
    ensures
        offset == centered(outer as int, inner as int),
{
    let gap: i64 = outer as i64 - inner as i64;
    if gap >= 0 {
        gap / 2
    } else {
        -((1 - gap) / 2)
    }
}

/// Places the focal image in the viewport. The vertical centring uses the
/// image's width, not its height.
pub fn center_image(viewport: Size, image: Size, vertical_offset: i32) -> (position: Point)
    ensures
        position == image_origin(viewport, image, vertical_offset),
        position.x == centered(viewport.width as int, image.width as int),
        position.y == centered(viewport.height as int, image.width as int) + vertical_offset,
{
    Point {
        x: center_offset(viewport.width, image.width),
        y: center_offset(viewport.height, image.width) + vertical_offset as i64,
    }
}

/// Places one caption line of the measured size at the height `y`, centred
/// horizontally in the viewport.
pub fn center_line(measured: Size, viewport: Size, y: i64) -> (placement: LinePlacement)
    ensures
        placement.x == centered(viewport.width as int, measured.width as int),
        placement.y == y,
        placement.line_height == measured.height,
{
    LinePlacement { x: center_offset(viewport.width, measured.width), y, line_height: measured.height }
}

/// Tells whether the pointer is strictly inside the box at `origin`.
pub fn is_strictly_inside(pointer: Point, origin: Point, size: Size) -> (inside: bool)
    ensures
        inside == strictly_inside(pointer, origin, size),
{
    origin.x < pointer.x && (pointer.x as i128) < origin.x as i128 + size.width as i128 && origin.y
        < pointer.y && (pointer.y as i128) < origin.y as i128 + size.height as i128
}

/// Tells whether a block of lines with these measures can be laid out from
/// `y_offset` on.
pub fn text_block_fits(measured: &Vec<Size>, y_offset: i32, line_spacing: u32) -> (fits: bool)
    ensures
        fits == block_fits(measured@, y_offset, line_spacing),
{
    let count = measured.len();
    let mut y: i64 = y_offset as i64;
    let mut line: usize = 0;
    while line + 1 < count
        invariant
            line < count || line == 0,
            count == measured.len(),
            y == y_offset + stacked_height(measured@, line_spacing, line as int),
        decreases count - line,
    {
        let step: i64 = measured[line].height as i64 + line_spacing as i64;
        if y > i64::MAX - step {
            proof {
                lemma_stacked_height_grows(measured@, line_spacing, line + 1, count - 1);
            }
            return false;
        }
        y = y + step;
        line += 1;
    }
    true
}

/// Lays out a block of caption lines, given the measured size of each line
/// in order. Every line is centred horizontally; the first stands at
/// `y_offset`, and each further line stands below its predecessor by the
/// predecessor's measured height plus `line_spacing`.
pub fn center_text_block(
    measured: &Vec<Size>,
    viewport: Size,
    y_offset: i32,
    line_spacing: u32,
) -> (placements: Vec<LinePlacement>)
    requires
        block_fits(measured@, y_offset, line_spacing),
    ensures
        placements.len() == measured.len(),
        forall|line: int|
            0 <= line < placements.len() ==> #[trigger] placements[line] == line_placement(
                measured@,
                viewport,
                y_offset,
                line_spacing,
                line,
            ),
{
    let count = measured.len();
    let mut placements: Vec<LinePlacement> = Vec::new();
    let mut y: i64 = y_offset as i64;
    let mut line: usize = 0;
    while line < count
        invariant
            line <= count,
            count == measured.len(),
            block_fits(measured@, y_offset, line_spacing),
            placements.len() == line,
            line < count ==> y == y_offset + stacked_height(measured@, line_spacing, line as int),
            forall|k: int|
                0 <= k < line ==> #[trigger] placements[k] == line_placement(
                    measured@,
                    viewport,
                    y_offset,
                    line_spacing,
                    k,
                ),
        decreases count - line,
    {
        let size = measured[line];
        placements.push(center_line(size, viewport, y));
        if line + 1 < count {
            proof {
                lemma_stacked_height_grows(measured@, line_spacing, line + 1, count - 1);
            }
            y = y + size.height as i64 + line_spacing as i64;
        }
        line += 1;
    }
    placements
}

/// Splits an outlined caption line into its two drawing passes.
pub fn outline_layers(
    position: Point,
    outline_offset: (i32, i32),
    primary: Color,
    outline: Color,
) -> (layers: (TextLayer, TextLayer))
    requires
        i64::MIN <= position.x + outline_offset.0 <= i64::MAX,
        i64::MIN <= position.y + outline_offset.1 <= i64::MAX,
    ensures
        layers == outlined(position, outline_offset, primary, outline),
{
    (
        TextLayer {
            position: Point {
                x: position.x + outline_offset.0 as i64,
                y: position.y + outline_offset.1 as i64,
            },
            color: outline,
        },
        TextLayer { position, color: primary },
    )
}

} // verus!
