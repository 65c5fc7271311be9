//! The three shapes and their per-pixel membership tests.
//!
//! Every shape sits at the centre `(width / 2, height / 2)` of the canvas
//! and is sized by a quarter of the canvas's shorter side. Centre and
//! quarter need not be whole numbers, so the tests below work on offsets
//! scaled to integers: nothing is rounded, and a pixel is inside exactly
//! when the geometric condition holds of its coordinates.

use vstd::prelude::*;

verus! {

/// The shape that is drawn.
#[allow(non_camel_case_types)]
#[derive(Clone, Copy, Debug, PartialEq, Eq, Structural)]
pub enum Shape {
    CIRCLE,
    TRIANGLE,
    SQUARE,
}

/// Twice the signed distance of coordinate `coord` from the middle of an
/// axis that is `extent` long.
pub open spec fn doubled_offset(coord: int, extent: int) -> int {
    2 * coord - extent
}

/// The shorter side of a `width` by `height` canvas. A quarter of it is the
/// circle's radius, half the square's side and half the triangle's base.
pub open spec fn short_side(width: int, height: int) -> int {
    if width <= height {
        width
    } else {
        height
    }
}

/// `a * sqrt(3) <= b`, decided by comparing squares.
pub open spec fn root3_times_le(a: int, b: int) -> bool {
    if a >= 0 {
        b >= 0 && 3 * (a * a) <= b * b
    } else {
        b >= 0 || b * b <= 3 * (a * a)
    }
}

/// `b <= a * sqrt(3)`, decided by comparing squares.
pub open spec fn le_root3_times(b: int, a: int) -> bool {
    if a >= 0 {
        b <= 0 || b * b <= 3 * (a * a)
    } else {
        b <= 0 && 3 * (a * a) <= b * b
    }
}

/// Whether pixel `(x, y)` lies in the disc around the centre whose radius is
/// a quarter of the shorter side: its Euclidean distance from the centre is
/// at most the radius.
///
/// With `dx` and `dy` the doubled offsets and `m` the shorter side, the
/// distance is `sqrt(dx * dx + dy * dy) / 2` and the radius `m / 4`.
pub open spec fn circle_contains(width: int, height: int, x: int, y: int) -> bool {
    let dx = doubled_offset(x, width);
    let dy = doubled_offset(y, height);
    let m = short_side(width, height);
    4 * (dx * dx + dy * dy) <= m * m
}

/// Whether pixel `(x, y)` lies in the axis-aligned square around the centre
/// whose half side is a quarter of the shorter side: on both axes its
/// distance from the centre is at most the half side.
pub open spec fn square_contains(width: int, height: int, x: int, y: int) -> bool {
    let dx = doubled_offset(x, width);
    let dy = doubled_offset(y, height);
    let m = short_side(width, height);
    -m <= 2 * dx <= m && -m <= 2 * dy <= m
}

/// Whether pixel `(x, y)` lies in the equilateral triangle around the
/// centre whose half base `hb` is a quarter of the shorter side and whose
/// height is `hb * sqrt(3)`, with the base below and the apex above the
/// centre, each half the height away.
///
/// The pixel is inside exactly when none of its three barycentric weights
/// is negative. In units of an eighth of a pixel, with `a` and `b` the
/// pixel's offsets from the centre and `m` the shorter side (so `hb` is
/// `2 * m`), the weights have the signs of
///   `m * sqrt(3) - b`            for the apex,
///   `b - (a - m) * sqrt(3)`      for the left end of the base,
///   `b - (-a - m) * sqrt(3)`     for the right end of the base.
/// A canvas without area has no triangle.
pub open spec fn triangle_contains(width: int, height: int, x: int, y: int) -> bool {
    let a = 4 * doubled_offset(x, width);
    let b = 4 * doubled_offset(y, height);
    let m = short_side(width, height);
    &&& m > 0
    &&& le_root3_times(b, m)
    &&& root3_times_le(a - m, b)
    &&& root3_times_le(-a - m, b)
}

impl Shape {
    /// Whether pixel `(x, y)` of a `width` by `height` canvas belongs to
    /// this shape.
    pub open spec fn contains(self, width: int, height: int, x: int, y: int) -> bool {
        match self {
            Shape::CIRCLE => circle_contains(width, height, x, y),
            Shape::SQUARE => square_contains(width, height, x, y),
            Shape::TRIANGLE => triangle_contains(width, height, x, y),
        }
    }
}

proof fn lemma_square_bound(v: int, bound: int)
    by (nonlinear_arith)
    requires
        -bound <= v <= bound,
    ensures
        0 <= v * v <= bound * bound,
{
}

fn doubled_offset_of(coord: u32, extent: u32) -> (d: i128)
    ensures
        d == doubled_offset(coord as int, extent as int),
        -0x1_0000_0000 <= d <= 0x2_0000_0000,
{
    2 * (coord as i128) - (extent as i128)
}

fn short_side_of(width: u32, height: u32) -> (m: i128)
    ensures
        m == short_side(width as int, height as int),
        0 <= m <= 0xFFFF_FFFF,
{
    if width <= height {
        width as i128
    } else {
        height as i128
    }
}

fn square_of(v: i128) -> (sq: i128)
    requires
        -0x10_0000_0000 <= v <= 0x10_0000_0000,
    ensures
        sq == v * v,
        0 <= sq <= 0x100_0000_0000_0000_0000,
{
    proof {
        lemma_square_bound(v as int, 0x10_0000_0000);
    }
    v * v
}

fn root3_times_le_of(a: i128, b: i128) -> (holds: bool)
    requires
        -0x10_0000_0000 <= a <= 0x10_0000_0000,
        -0x10_0000_0000 <= b <= 0x10_0000_0000,
    ensures
        holds == root3_times_le(a as int, b as int),
{
    let aa = square_of(a);
    let bb = square_of(b);
    if a >= 0 {
        b >= 0 && 3 * aa <= bb
    } else {
        b >= 0 || bb <= 3 * aa
    }
}

fn le_root3_times_of(b: i128, a: i128) -> (holds: bool)
    requires
        -0x10_0000_0000 <= a <= 0x10_0000_0000,
        -0x10_0000_0000 <= b <= 0x10_0000_0000,
    ensures
        holds == le_root3_times(b as int, a as int),
{
    let aa = square_of(a);
    let bb = square_of(b);
    if a >= 0 {
        b <= 0 || bb <= 3 * aa
    } else {
        b <= 0 && 3 * aa <= bb
    }
}

/// Decides `circle_contains` for one pixel.
pub fn in_circle(width: u32, height: u32, x: u32, y: u32) -> (inside: bool)
    ensures
        inside == circle_contains(width as int, height as int, x as int, y as int),
{
    let dx = doubled_offset_of(x, width);
    let dy = doubled_offset_of(y, height);
    let m = short_side_of(width, height);
    4 * (square_of(dx) + square_of(dy)) <= square_of(m)
}

/// Decides `square_contains` for one pixel.
pub fn in_square(width: u32, height: u32, x: u32, y: u32) -> (inside: bool)
    ensures
        inside == square_contains(width as int, height as int, x as int, y as int),
{
    let dx = doubled_offset_of(x, width);
    let dy = doubled_offset_of(y, height);
    let m = short_side_of(width, height);
    -m <= 2 * dx && 2 * dx <= m && -m <= 2 * dy && 2 * dy <= m
}

/// Decides `triangle_contains` for one pixel.
pub fn in_triangle(width: u32, height: u32, x: u32, y: u32) -> (inside: bool)
    ensures
        inside == triangle_contains(width as int, height as int, x as int, y as int),
{
    let a = 4 * doubled_offset_of(x, width);
    let b = 4 * doubled_offset_of(y, height);
    let m = short_side_of(width, height);
    m > 0 && le_root3_times_of(b, m) && root3_times_le_of(a - m, b) && root3_times_le_of(-a - m, b)
}

impl Shape {
    /// Decides `contains` for one pixel.
    pub fn covers(&self, width: u32, height: u32, x: u32, y: u32) -> (inside: bool)
        ensures
            inside == self.contains(width as int, height as int, x as int, y as int),
    {
        match self {
            Shape::CIRCLE => in_circle(width, height, x, y),
            Shape::SQUARE => in_square(width, height, x, y),
            Shape::TRIANGLE => in_triangle(width, height, x, y),
        }
    }
}

/// The square is the bounding box of the circle and encloses the triangle:
/// a pixel that any shape covers lies in the square.
pub proof fn lemma_inside_square(shape: Shape, width: int, height: int, x: int, y: int)
    requires
        0 <= width,
        0 <= height,
        shape.contains(width, height, x, y),
    ensures
        square_contains(width, height, x, y),
{
    let dx = doubled_offset(x, width);
    let dy = doubled_offset(y, height);
    let m = short_side(width, height);
    match shape {
        Shape::SQUARE => {},
        Shape::CIRCLE => {
            assert(-m <= 2 * dx <= m && -m <= 2 * dy <= m) by (nonlinear_arith)
                requires
                    0 <= m,
                    4 * (dx * dx + dy * dy) <= m * m,
            ;
        },
        Shape::TRIANGLE => {
            lemma_triangle_bounds(width, height, x, y);
            assert(-m <= 2 * dy <= m) by (nonlinear_arith)
                requires
                    0 <= m,
                    16 * (dy * dy) <= 3 * (m * m),
            ;
        },
    }
}

/// A pixel that is farther than a quarter of the shorter side from the
/// centre, along either axis, belongs to no shape.
pub proof fn lemma_outside_beyond_quarter(shape: Shape, width: int, height: int, x: int, y: int)
    requires
        0 <= width,
        0 <= height,
        !square_contains(width, height, x, y),
    ensures
        !shape.contains(width, height, x, y),
{
    if shape.contains(width, height, x, y) {
        lemma_inside_square(shape, width, height, x, y);
    }
}

/// The triangle lies within the bounding box of its vertices: a pixel that
/// it covers is at most half the base from the centre horizontally, and at
/// most half the height vertically.
///
/// With `dx`, `dy` the doubled offsets and `m` the shorter side, half the
/// base is `m / 4` and half the height `m * sqrt(3) / 8`.
pub proof fn lemma_triangle_bounds(width: int, height: int, x: int, y: int)
    requires
        triangle_contains(width, height, x, y),
    ensures
        -short_side(width, height) <= 2 * doubled_offset(x, width) <= short_side(width, height),
        16 * (doubled_offset(y, height) * doubled_offset(y, height)) <= 3 * (short_side(
            width,
            height,
        ) * short_side(width, height)),
{
    let a = 4 * doubled_offset(x, width);
    let b = 4 * doubled_offset(y, height);
    let m = short_side(width, height);
    assert(b * b <= 3 * (m * m) && -2 * m <= a <= 2 * m) by (nonlinear_arith)
        requires
            m > 0,
            le_root3_times(b, m),
            root3_times_le(a - m, b),
            root3_times_le(-a - m, b),
    ;
    assert(b * b == 16 * (doubled_offset(y, height) * doubled_offset(y, height)))
        by (nonlinear_arith)
        requires
            b == 4 * doubled_offset(y, height),
    ;
}

/// In the column through the centre, the triangle covers exactly the
/// pixels between apex and base: those at most half the height above or
/// below the centre. The centroid of the triangle lies in that stretch.
pub proof fn lemma_triangle_center_column(width: int, height: int, x: int, y: int)
    requires
        0 < width,
        0 < height,
        doubled_offset(x, width) == 0,
    ensures
        triangle_contains(width, height, x, y) == (16 * (doubled_offset(y, height)
            * doubled_offset(y, height)) <= 3 * (short_side(width, height) * short_side(
            width,
            height,
        ))),
{
    let b = 4 * doubled_offset(y, height);
    let m = short_side(width, height);
    assert(b * b == 16 * (doubled_offset(y, height) * doubled_offset(y, height)))
        by (nonlinear_arith)
        requires
            b == 4 * doubled_offset(y, height),
    ;
    assert((-m) * (-m) == m * m) by (nonlinear_arith);
    assert(b >= 0 ==> (b * b <= 3 * (m * m)) == le_root3_times(b, m));
    assert(b < 0 ==> (b * b <= 3 * (m * m)) == root3_times_le(-m, b));
    assert(b >= 0 ==> root3_times_le(-m, b));
    assert(b < 0 ==> le_root3_times(b, m));
}

/// On a canvas with area whose sides are even, the pixel at the centre
/// belongs to every shape.
pub proof fn lemma_center_inside(shape: Shape, width: int, height: int)
    requires
        0 < width,
        0 < height,
        width % 2 == 0,
        height % 2 == 0,
    ensures
        shape.contains(width, height, width / 2, height / 2),
{
    let m = short_side(width, height);
    let dx = doubled_offset(width / 2, width);
    let dy = doubled_offset(height / 2, height);
    assert(dx == 0 && dy == 0);
    assert(4 * (dx * dx + dy * dy) <= m * m) by (nonlinear_arith)
        requires
            dx == 0,
            dy == 0,
    ;
}

/// Every shape is its own mirror image in the vertical line through the
/// centre: columns `x` and `width - x` are covered in the same rows.
pub proof fn lemma_mirror_symmetric(shape: Shape, width: int, height: int, x: int, y: int)
    ensures
        shape.contains(width, height, x, y) == shape.contains(width, height, width - x, y),
{
    let dx = doubled_offset(x, width);
    assert(doubled_offset(width - x, width) == -dx);
    assert((-dx) * (-dx) == dx * dx) by (nonlinear_arith);
}

/// Where the shorter side is a multiple of four and both sides are even,
/// centre and quarter are whole pixels. The circle then reaches exactly a
/// quarter of the shorter side along both axes, and the square exactly to
/// the corners that are a quarter away on both axes: those pixels are
/// inside, and the next ones outward are outside.
pub proof fn lemma_reach(width: int, height: int)
    requires
        0 < width,
        0 < height,
        width % 2 == 0,
        height % 2 == 0,
        short_side(width, height) % 4 == 0,
    ensures
        ({
            let cx = width / 2;
            let cy = height / 2;
            let q = short_side(width, height) / 4;
            &&& circle_contains(width, height, cx + q, cy)
            &&& circle_contains(width, height, cx - q, cy)
            &&& circle_contains(width, height, cx, cy + q)
            &&& circle_contains(width, height, cx, cy - q)
            &&& !circle_contains(width, height, cx + q + 1, cy)
            &&& !circle_contains(width, height, cx - q - 1, cy)
            &&& !circle_contains(width, height, cx, cy + q + 1)
            &&& !circle_contains(width, height, cx, cy - q - 1)
            &&& square_contains(width, height, cx + q, cy + q)
            &&& square_contains(width, height, cx + q, cy - q)
            &&& square_contains(width, height, cx - q, cy + q)
            &&& square_contains(width, height, cx - q, cy - q)
            &&& !square_contains(width, height, cx + q + 1, cy + q)
            &&& !square_contains(width, height, cx + q, cy + q + 1)
            &&& !square_contains(width, height, cx - q - 1, cy - q)
            &&& !square_contains(width, height, cx - q, cy - q - 1)
        }),
{
    let m = short_side(width, height);
    let q = m / 4;
    let cx = width / 2;
    let cy = height / 2;
    assert(m == 4 * q && q > 0);
    assert(doubled_offset(cx, width) == 0 && doubled_offset(cy, height) == 0);
    assert(doubled_offset(cx + q, width) == 2 * q && doubled_offset(cy + q, height) == 2 * q);
    assert(doubled_offset(cx - q, width) == -2 * q && doubled_offset(cy - q, height) == -2 * q);
    assert(doubled_offset(cx + q + 1, width) == 2 * q + 2);
    assert(doubled_offset(cy + q + 1, height) == 2 * q + 2);
    assert(doubled_offset(cx - q - 1, width) == -2 * q - 2);
    assert(doubled_offset(cy - q - 1, height) == -2 * q - 2);
    assert(m * m == 16 * (q * q)) by (nonlinear_arith)
        requires
            m == 4 * q,
    ;
    assert(0 * 0 == 0);
    assert((2 * q) * (2 * q) == 4 * (q * q)) by (nonlinear_arith);
    assert((-2 * q) * (-2 * q) == 4 * (q * q)) by (nonlinear_arith);
    assert((2 * q + 2) * (2 * q + 2) == 4 * (q * q) + 8 * q + 4) by (nonlinear_arith);
    assert((-2 * q - 2) * (-2 * q - 2) == 4 * (q * q) + 8 * q + 4) by (nonlinear_arith);
}

} // verus!
