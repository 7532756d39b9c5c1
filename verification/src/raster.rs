//! Integer side of painting glyphs and images into textures: where a glyph
//! pixel lands in a packed pixel buffer, which GL format a decoded image
//! uploads as, and which framebuffer configuration is chosen.
use vstd::prelude::*;
use crate::gl_consts::{RED, RGB, RGBA};

verus! {

/// Where a glyph's pixel `(x0, y0)` lands on the texture: shifted by the
/// corner of the glyph's pixel bounding box.
pub open spec fn glyph_target(x0: u32, y0: u32, min_x: i32, min_y: i32) -> (int, int) {
    ((x0 as i32) + min_x, (y0 as i32) + min_y)
}

/// Whether the shift by the bounding box fits an `i32`, and the texture's
/// `channels * width * height` components can be counted in an `i32`.
pub open spec fn glyph_pixel_in_range(
    x0: u32,
    y0: u32,
    min_x: i32,
    min_y: i32,
    width: i32,
    height: i32,
    channels: i32,
) -> bool {
    let (x, y) = glyph_target(x0, y0, min_x, min_y);
    &&& i32::MIN <= x <= i32::MAX
    &&& i32::MIN <= y <= i32::MAX
    &&& 1 <= channels
    &&& 0 <= width
    &&& 0 <= height
    &&& channels * width * height <= i32::MAX
}

/// Index of the first component of pixel `(x, y)` in a row-major buffer of
/// rows `width` pixels long with `channels` components per pixel.
pub open spec fn component_index(x: int, y: int, width: int, channels: int) -> int {
    channels * (x + y * width)
}

/// The index in a packed buffer of `channels` components per pixel at which
/// glyph pixel `(x0, y0)` of a glyph whose bounding box starts at
/// `(min_x, min_y)` is written, or `None` when it falls outside the
/// `width` by `height` texture and is dropped.
pub fn glyph_pixel_index(
    x0: u32,
    y0: u32,
    min_x: i32,
    min_y: i32,
    width: i32,
    height: i32,
    channels: i32,
) -> (r: Option<usize>)
    requires
        glyph_pixel_in_range(x0, y0, min_x, min_y, width, height, channels),
    ensures
        ({
            let (x, y) = glyph_target(x0, y0, min_x, min_y);
            if 0 <= x < width && 0 <= y < height {
                r == Some(component_index(x, y, width as int, channels as int) as usize)
            } else {
                r is None
            }
        }),
{
    let x: i32 = x0 as i32 + min_x;
    let y: i32 = y0 as i32 + min_y;
    if x >= 0 && x < width && y >= 0 && y < height {
        proof {
            lemma_component_index_bounds(x as int, y as int, width as int, height as int, channels as int);
        }
        let idx: i32 = channels * (x + y * width);
        Some(idx as usize)
    } else {
        None
    }
}

/// Components in a `width` by `height` buffer of `channels` components per
/// pixel, computed in `i32` as the painting code does.
pub fn pixel_buffer_len(width: i32, height: i32, channels: i32) -> (r: usize)
    requires
        0 <= channels,
        0 <= width,
        0 <= height,
        channels * width <= i32::MAX,
        channels * width * height <= i32::MAX,
    ensures
        r == channels * width * height,
{
    proof {
        assert(0 <= channels * width) by (nonlinear_arith)
            requires
                0 <= channels,
                0 <= width,
        ;
        assert(0 <= channels * width * height) by (nonlinear_arith)
            requires
                0 <= channels * width,
                0 <= height,
        ;
    }
    let n: i32 = channels * width * height;
    n as usize
}

/// A pixel inside the texture has all its components inside the buffer.
pub proof fn lemma_component_index_bounds(x: int, y: int, width: int, height: int, channels: int)
    requires
        0 <= x < width,
        0 <= y < height,
        1 <= channels,
    ensures
        0 <= y * width <= x + y * width < width * height,
        width * height <= channels * width * height,
        0 <= component_index(x, y, width, channels),
        component_index(x, y, width, channels) + channels <= channels * width * height,
{
    assert(0 <= y * width) by (nonlinear_arith)
        requires
            0 <= y,
            0 <= width,
    ;
    assert(width * height <= channels * width * height) by (nonlinear_arith)
        requires
            0 <= width,
            0 <= height,
            1 <= channels,
    ;
    assert(x + y * width < width * height) by (nonlinear_arith)
        requires
            0 <= x < width,
            0 <= y < height,
    ;
    assert(component_index(x, y, width, channels) + channels <= channels * width * height)
        by (nonlinear_arith)
        requires
            x + y * width + 1 <= width * height,
            1 <= channels,
    ;
    assert(0 <= component_index(x, y, width, channels)) by (nonlinear_arith)
        requires
            0 <= x + y * width,
            1 <= channels,
    ;
}

/// Distinct pixels inside the texture are written at distinct places: their
/// components do not overlap in the buffer.
pub proof fn lemma_component_index_disjoint(
    x1: int,
    y1: int,
    x2: int,
    y2: int,
    width: int,
    height: int,
    channels: int,
)
    requires
        0 <= x1 < width,
        0 <= y1 < height,
        0 <= x2 < width,
        0 <= y2 < height,
        1 <= channels,
        x1 != x2 || y1 != y2,
    ensures
        component_index(x1, y1, width, channels) + channels <= component_index(x2, y2, width, channels)
            || component_index(x2, y2, width, channels) + channels <= component_index(
            x1,
            y1,
            width,
            channels,
        ),
{
    let p1 = x1 + y1 * width;
    let p2 = x2 + y2 * width;
    assert(p1 != p2) by (nonlinear_arith)
        requires
            0 <= x1 < width,
            0 <= x2 < width,
            x1 != x2 || y1 != y2,
            p1 == x1 + y1 * width,
            p2 == x2 + y2 * width,
    {
        if y1 == y2 {
        } else if y1 < y2 {
            assert(y1 * width + width <= y2 * width) by (nonlinear_arith)
                requires
                    y1 < y2,
                    0 <= width,
            ;
        } else {
            assert(y2 * width + width <= y1 * width) by (nonlinear_arith)
                requires
                    y2 < y1,
                    0 <= width,
            ;
        }
    }
    assert(channels * p1 + channels <= channels * p2 || channels * p2 + channels <= channels * p1)
        by (nonlinear_arith)
        requires
            p1 != p2,
            1 <= channels,
    {
        if p1 < p2 {
            assert(channels * (p1 + 1) <= channels * p2) by (nonlinear_arith)
                requires
                    p1 + 1 <= p2,
                    1 <= channels,
            ;
        } else {
            assert(channels * (p2 + 1) <= channels * p1) by (nonlinear_arith)
                requires
                    p2 + 1 <= p1,
                    1 <= channels,
            ;
        }
    }
}

/// The colour types a PNG decoder reports.
#[derive(PartialEq, Eq, Copy, Clone, Debug, Structural)]
pub enum PngColorType {
    Grayscale,
    Rgb,
    Indexed,
    GrayscaleAlpha,
    Rgba,
}

/// The GL format an image of `color` decoded pixels is uploaded as: grey
/// as `RED`, grey with alpha and RGB as `RGB`, RGBA as `RGBA`. Indexed
/// images are not handled.
pub fn memory_format_for(color: PngColorType) -> (format: u32)
    requires
        color != PngColorType::Indexed,
    ensures
        format == match color {
            PngColorType::Grayscale => RED,
            PngColorType::Rgba => RGBA,
            _ => RGB,
        },
{
    match color {
        PngColorType::Grayscale => RED,
        PngColorType::Rgb => RGB,
        PngColorType::Indexed => vstd::pervasive::unreached(),
        PngColorType::GrayscaleAlpha => RGB,
        PngColorType::Rgba => RGBA,
    }
}

/// Picks among framebuffer configurations, given their sample counts, the
/// first one with the most samples; `None` when there is none.
pub fn pick_config_by_samples(samples: &[u8]) -> (r: Option<usize>)
    ensures
        samples.len() == 0 <==> r is None,
        r matches Some(k) ==> k < samples.len() && (forall|j: int|
            0 <= j < samples.len() ==> samples@[j] <= samples@[k as int]) && (forall|j: int|
            0 <= j < k ==> samples@[j] < samples@[k as int]),
{
    if samples.len() == 0 {
        return None;
    }
    let mut best: usize = 0;
    let mut i: usize = 1;
    while i < samples.len()
        invariant
            1 <= i <= samples.len(),
            best < i,
            forall|j: int| 0 <= j < i ==> samples@[j] <= samples@[best as int],
            forall|j: int| 0 <= j < best ==> samples@[j] < samples@[best as int],
        decreases samples.len() - i,
    {
        if samples[i] > samples[best] {
            best = i;
        }
        i = i + 1;
    }
    Some(best)
}

} // verus!
