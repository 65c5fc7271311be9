//! Painting a shape into an RGBA buffer: four bytes per pixel, rows from the
//! top, every pixel opaque.

use crate::demo::DemoApp;
use crate::init::State;
use crate::shape::Shape;
use vstd::arithmetic::div_mod::lemma_fundamental_div_mod_converse;
use vstd::prelude::*;

verus! {

/// The four bytes of one painted pixel: the colour where the shape covers
/// it, black elsewhere, and full alpha either way.
pub open spec fn pixel_bytes(inside: bool, rgb: (u8, u8, u8)) -> Seq<u8> {
    if inside {
        seq![rgb.0, rgb.1, rgb.2, 255u8]
    } else {
        seq![0u8, 0u8, 0u8, 255u8]
    }
}

/// Byte `i` of the picture of `shape` in colour `rgb` on a `width` by
/// `height` canvas: channel `i % 4` of pixel `i / 4`, which stands in
/// column `(i / 4) % width` of row `(i / 4) / width`.
pub open spec fn painted_byte(shape: Shape, rgb: (u8, u8, u8), width: int, height: int, i: int)
    -> u8 {
    let pixel = i / 4;
    pixel_bytes(shape.contains(width, height, pixel % width, pixel / width), rgb)[i % 4]
}

/// The picture of `shape` in colour `rgb` on a `width` by `height` canvas.
pub open spec fn painted(shape: Shape, rgb: (u8, u8, u8), width: u32, height: u32) -> Seq<u8> {
    Seq::new(
        (4 * width * height) as nat,
        |i: int| painted_byte(shape, rgb, width as int, height as int, i),
    )
}

/// The four bytes of pixel `(x, y)` in a buffer whose rows are `width`
/// pixels long.
pub open spec fn pixel_at(buffer: Seq<u8>, width: int, x: int, y: int) -> Seq<u8> {
    buffer.subrange(4 * (y * width + x), 4 * (y * width + x) + 4)
}

/// Pixel `(x, y)` of a `width` by `height` canvas is pixel number
/// `y * width + x` of its `width * height` pixels.
pub proof fn lemma_pixel_index(width: int, height: int, x: int, y: int)
    requires
        0 <= x < width,
        0 <= y < height,
    ensures
        0 <= y * width + x < width * height,
        (y * width + x) % width == x,
        (y * width + x) / width == y,
{
    lemma_fundamental_div_mod_converse(y * width + x, width, y, x);
    assert(y * width + x < width * height) by (nonlinear_arith)
        requires
            0 <= x < width,
            0 <= y < height,
    ;
    assert(0 <= y * width) by (nonlinear_arith)
        requires
            0 <= y,
            0 <= width,
    ;
}

/// A painted canvas holds four bytes for each pixel, and the pixel at
/// `(x, y)` has the shape's colour exactly where the shape covers it and is
/// opaque black elsewhere.
pub proof fn lemma_painted_pixel(
    shape: Shape,
    rgb: (u8, u8, u8),
    width: u32,
    height: u32,
    x: int,
    y: int,
)
    requires
        0 <= x < width,
        0 <= y < height,
    ensures
        painted(shape, rgb, width, height).len() == 4 * width * height,
        pixel_at(painted(shape, rgb, width, height), width as int, x, y) == pixel_bytes(
            shape.contains(width as int, height as int, x, y),
            rgb,
        ),
{
    lemma_pixel_index(width as int, height as int, x, y);
    let picture = painted(shape, rgb, width, height);
    let pixel = y * width + x;
    assert(4 * pixel + 4 <= 4 * (width * height));
    assert(4 * (width * height) == 4 * width * height) by (nonlinear_arith);
    let bytes = pixel_at(picture, width as int, x, y);
    assert forall|c: int| 0 <= c < 4 implies #[trigger] bytes[c] == pixel_bytes(
        shape.contains(width as int, height as int, x, y),
        rgb,
    )[c] by {
        assert(bytes[c] == picture[4 * pixel + c]);
        assert((4 * pixel + c) / 4 == pixel);
        assert((4 * pixel + c) % 4 == c);
    }
    assert(bytes =~= pixel_bytes(shape.contains(width as int, height as int, x, y), rgb));
}

/// Overwrites the whole buffer with the picture of `shape` in colour `rgb`.
pub fn paint(pixels: &mut Vec<u8>, width: u32, height: u32, shape: Shape, rgb: (u8, u8, u8))
    requires
        old(pixels).len() == 4 * width * height,
    ensures
        final(pixels)@ == painted(shape, rgb, width, height),
{
    let ghost total = 4 * width * height;
    let mut y: u32 = 0;
    while y < height
        invariant
            y <= height,
            pixels.len() == total,
            total == 4 * width * height,
            forall|i: int|
                0 <= i < 4 * (y * width) ==> #[trigger] pixels@[i] == painted_byte(
                    shape,
                    rgb,
                    width as int,
                    height as int,
                    i,
                ),
        decreases height - y,
    {
        let mut x: u32 = 0;
        while x < width
            invariant
                y < height,
                x <= width,
                pixels.len() == total,
                total == 4 * width * height,
                forall|i: int|
                    0 <= i < 4 * (y * width + x) ==> #[trigger] pixels@[i] == painted_byte(
                        shape,
                        rgb,
                        width as int,
                        height as int,
                        i,
                    ),
            decreases width - x,
        {
            proof {
                lemma_pixel_index(width as int, height as int, x as int, y as int);
                assert(4 * (width * height) == 4 * width * height) by (nonlinear_arith);
            }
            let index: usize = (y as usize * width as usize + x as usize) * 4;
            let inside = shape.covers(width, height, x, y);
            let (r, g, b) = if inside {
                rgb
            } else {
                (0u8, 0u8, 0u8)
            };
            pixels.set(index, r);
            pixels.set(index + 1, g);
            pixels.set(index + 2, b);
            pixels.set(index + 3, 255);
            proof {
                let pixel = y * width + x;
                assert forall|i: int| 0 <= i < 4 * (pixel + 1) implies #[trigger] pixels@[i]
                    == painted_byte(shape, rgb, width as int, height as int, i) by {
                    if i >= 4 * pixel {
                        assert(i / 4 == pixel);
                        assert(pixel_bytes(inside, rgb)[i % 4] == pixels@[i]);
                    }
                }
            }
            x = x + 1;
        }
        proof {
            assert((y + 1) * width == y * width + width) by (nonlinear_arith);
        }
        y = y + 1;
    }
    proof {
        assert(4 * (height * width) == 4 * width * height) by (nonlinear_arith);
        assert(pixels@ =~= painted(shape, rgb, width, height));
    }
}

/// Paints the circle in the demo's colour over the whole canvas: a pixel
/// gets the colour where its distance from the centre is at most a quarter
/// of the canvas's shorter side, and opaque black elsewhere.
pub fn draw_circle(state: &mut State<DemoApp>)
    requires
        old(state).wf(),
    ensures
        final(state).wf(),
        final(state)@ == old(state)@.with_pixels(
            painted(
                Shape::CIRCLE,
                old(state).game_context.color.channels(),
                old(state).size.width,
                old(state).size.height,
            ),
        ),
{
    let rgb = state.game_context.color.get_components();
    paint(
        &mut state.pixels,
        state.texture_extent.width,
        state.texture_extent.height,
        Shape::CIRCLE,
        rgb,
    );
}

/// Paints the square in the demo's colour over the whole canvas: a pixel
/// gets the colour where, on both axes, its distance from the centre is at
/// most a quarter of the canvas's shorter side, and opaque black elsewhere.
pub fn draw_square(state: &mut State<DemoApp>)
    requires
        old(state).wf(),
    ensures
        final(state).wf(),
        final(state)@ == old(state)@.with_pixels(
            painted(
                Shape::SQUARE,
                old(state).game_context.color.channels(),
                old(state).size.width,
                old(state).size.height,
            ),
        ),
{
    let rgb = state.game_context.color.get_components();
    paint(
        &mut state.pixels,
        state.texture_extent.width,
        state.texture_extent.height,
        Shape::SQUARE,
        rgb,
    );
}

/// Paints the equilateral triangle in the demo's colour over the whole
/// canvas: a pixel gets the colour where none of its barycentric weights is
/// negative, and opaque black elsewhere.
pub fn draw_triangle(state: &mut State<DemoApp>)
    requires
        old(state).wf(),
    ensures
        final(state).wf(),
        final(state)@ == old(state)@.with_pixels(
            painted(
                Shape::TRIANGLE,
                old(state).game_context.color.channels(),
                old(state).size.width,
                old(state).size.height,
            ),
        ),
{
    let rgb = state.game_context.color.get_components();
    paint(
        &mut state.pixels,
        state.texture_extent.width,
        state.texture_extent.height,
        Shape::TRIANGLE,
        rgb,
    );
}

} // verus!
