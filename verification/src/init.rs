//! The state of one window's frame: the size of its surface, the pixel
//! buffer that is painted and uploaded each frame, and the context that
//! the installed handlers act on.

use crate::input::InputEvent;
use vstd::prelude::*;

verus! {

/// The size of the window when it opens.
pub const INITIAL_WINDOW: (u32, u32) = (640, 480);

/// A width and a height, in pixels.
#[derive(Clone, Copy, Debug, PartialEq, Eq, Structural)]
pub struct Size {
    pub width: u32,
    pub height: u32,
}

/// The size that the presentable surface is configured with.
#[derive(Clone, Copy, Debug, PartialEq, Eq, Structural)]
pub struct SurfaceConfig {
    pub width: u32,
    pub height: u32,
}

/// How the pixel buffer is laid out for its upload into the texture.
#[derive(Clone, Copy, Debug, PartialEq, Eq, Structural)]
pub struct UploadLayout {
    /// Offset of the first pixel in the buffer.
    pub offset: u64,
    /// Bytes from the start of one row to the start of the next.
    pub bytes_per_row: u32,
    /// Number of rows.
    pub rows_per_image: u32,
}

/// Whether a buffer for `width` by `height` pixels can be held and
/// uploaded: its length fits a `usize` and the length of one row a `u32`.
pub open spec fn extent_fits(width: u32, height: u32) -> bool {
    4 * width <= u32::MAX && 4 * width * height <= usize::MAX
}

/// A buffer of `width` by `height` opaque black pixels.
pub open spec fn opaque_black(width: u32, height: u32) -> Seq<u8> {
    Seq::new(
        (4 * width * height) as nat,
        |i: int|
            if i % 4 == 3 {
                255u8
            } else {
                0u8
            },
    )
}

/// A buffer of `width` by `height` pixels, every byte zero.
pub open spec fn zeroed(width: u32, height: u32) -> Seq<u8> {
    Seq::new((4 * width * height) as nat, |i: int| 0u8)
}

/// Decides `extent_fits`.
pub fn extent_supported(width: u32, height: u32) -> (fits: bool)
    ensures
        fits == extent_fits(width, height),
{
    let row: u64 = 4 * (width as u64);
    if row > u32::MAX as u64 {
        return false;
    }
    assert(row * height <= 0xFFFF_FFFF * 0xFFFF_FFFF) by (nonlinear_arith)
        requires
            row <= 0xFFFF_FFFF,
            height <= 0xFFFF_FFFF,
    ;
    assert(4 * width * height == row * height) by (nonlinear_arith)
        requires
            row == 4 * width,
    ;
    let bytes: u64 = row * (height as u64);
    bytes <= usize::MAX as u64
}

/// Picks the surface's pixel format among those the surface supports:
/// the first that is sRGB, and the first of all where none is. `is_srgb`
/// says of each supported format, in the surface's order, whether it is
/// sRGB; the result is the index of the format picked.
pub fn preferred_format(is_srgb: &[bool]) -> (index: usize)
    requires
        is_srgb@.len() > 0,
    ensures
        index < is_srgb@.len(),
        forall|j: int| 0 <= j < index ==> !is_srgb@[j],
        !is_srgb@[index as int] ==> index == 0 && forall|j: int|
            0 <= j < is_srgb@.len() ==> !is_srgb@[j],
{
    let mut i: usize = 0;
    while i < is_srgb.len()
        invariant
            i <= is_srgb@.len(),
            forall|j: int| 0 <= j < i ==> !is_srgb@[j],
        decreases is_srgb@.len() - i,
    {
        if is_srgb[i] {
            return i;
        }
        i = i + 1;
    }
    0
}

/// What a frame is, as a value: the size of surface and canvas, the bytes
/// of the canvas, and the context.
pub struct Frame<T> {
    pub size: Size,
    pub pixels: Seq<u8>,
    pub context: T,
}

impl<T> Frame<T> {
    /// The canvas holds four bytes for each pixel of the size.
    pub open spec fn wf(self) -> bool {
        &&& extent_fits(self.size.width, self.size.height)
        &&& self.pixels.len() == 4 * self.size.width * self.size.height
    }

    pub open spec fn with_context(self, context: T) -> Frame<T> {
        Frame { size: self.size, pixels: self.pixels, context }
    }

    pub open spec fn with_pixels(self, pixels: Seq<u8>) -> Frame<T> {
        Frame { size: self.size, pixels, context: self.context }
    }

    /// The frame after a request to resize to `new_size`. A size without
    /// area is ignored. An unchanged size keeps the canvas; a changed one
    /// replaces it by a zeroed canvas of the new size.
    pub open spec fn resized(self, new_size: Size) -> Frame<T> {
        if new_size.width == 0 || new_size.height == 0 || new_size == self.size {
            self
        } else {
            Frame {
                size: new_size,
                pixels: zeroed(new_size.width, new_size.height),
                context: self.context,
            }
        }
    }

    /// Resizing twice to one size is resizing once.
    pub proof fn lemma_resized_idempotent(self, new_size: Size)
        ensures
            self.resized(new_size).resized(new_size) == self.resized(new_size),
    {
    }

    /// A resize keeps a well-formed frame well-formed, and a size with area
    /// becomes the frame's size.
    pub proof fn lemma_resized_wf(self, new_size: Size)
        requires
            self.wf(),
            new_size.width == 0 || new_size.height == 0 || extent_fits(
                new_size.width,
                new_size.height,
            ),
        ensures
            self.resized(new_size).wf(),
            new_size.width > 0 && new_size.height > 0 ==> self.resized(new_size).size
                == new_size,
            new_size.width == 0 || new_size.height == 0 ==> self.resized(new_size) == self,
    {
    }
}

/// The frame of one window.
pub struct State<T> {
    /// The size that the surface was last asked to take.
    pub config: SurfaceConfig,
    pub size: Size,
    /// The size of the canvas and of the texture that shows it.
    pub texture_extent: Size,
    /// The canvas: four bytes per pixel, rows from the top.
    pub pixels: Vec<u8>,
    pub game_context: T,
}

impl<T> View for State<T> {
    type V = Frame<T>;

    open spec fn view(&self) -> Frame<T> {
        Frame { size: self.size, pixels: self.pixels@, context: self.game_context }
    }
}

impl<T> State<T> {
    /// Surface, window and canvas have one size, and the canvas holds four
    /// bytes for each of its pixels.
    pub open spec fn wf(self) -> bool {
        &&& self.config.width == self.size.width
        &&& self.config.height == self.size.height
        &&& self.texture_extent == self.size
        &&& self@.wf()
    }

    /// A frame of `initial_size` around `game_context`, its canvas opaque
    /// black.
    pub fn new(game_context: T, initial_size: Size) -> (state: State<T>)
        requires
            extent_fits(initial_size.width, initial_size.height),
        ensures
            state.wf(),
            state@ == (Frame {
                size: initial_size,
                pixels: opaque_black(initial_size.width, initial_size.height),
                context: game_context,
            }),
    {
        let ghost total = 4 * initial_size.width * initial_size.height;
        proof {
            assert(initial_size.width * initial_size.height <= 4 * initial_size.width
                * initial_size.height) by (nonlinear_arith);
            assert(4 * (initial_size.width * initial_size.height) == 4 * initial_size.width
                * initial_size.height) by (nonlinear_arith);
        }
        let pixel_count: usize = initial_size.width as usize * initial_size.height as usize;
        let mut pixels: Vec<u8> = Vec::with_capacity(pixel_count * 4);
        let mut filled: usize = 0;
        while filled < pixel_count
            invariant
                filled <= pixel_count,
                4 * pixel_count == total,
                total <= usize::MAX,
                pixels.len() == 4 * filled,
                forall|i: int|
                    0 <= i < 4 * filled ==> #[trigger] pixels@[i] == (if i % 4 == 3 {
                        255u8
                    } else {
                        0u8
                    }),
            decreases pixel_count - filled,
        {
            pixels.push(0);
            pixels.push(0);
            pixels.push(0);
            pixels.push(255);
            filled = filled + 1;
        }
        proof {
            assert(pixels@ =~= opaque_black(initial_size.width, initial_size.height));
        }
        State {
            config: SurfaceConfig { width: initial_size.width, height: initial_size.height },
            size: initial_size,
            texture_extent: initial_size,
            pixels,
            game_context,
        }
    }

    /// Takes `new_size` as the size of surface and canvas, and says whether
    /// it did. A size without area is ignored. Where the size changes, the
    /// canvas is replaced by a zeroed one of the new size.
    pub fn resize(&mut self, new_size: Size) -> (applied: bool)
        requires
            old(self).wf(),
            new_size.width == 0 || new_size.height == 0 || extent_fits(
                new_size.width,
                new_size.height,
            ),
        ensures
            final(self).wf(),
            final(self)@ == old(self)@.resized(new_size),
            applied == (new_size.width > 0 && new_size.height > 0),
    {
        if new_size.width > 0 && new_size.height > 0 {
            self.size = new_size;
            self.config.width = new_size.width;
            self.config.height = new_size.height;
            if self.texture_extent != new_size {
                proof {
                    assert(4 * (new_size.width * new_size.height) == 4 * new_size.width
                        * new_size.height) by (nonlinear_arith);
                }
                let len: usize = 4 * (new_size.width as usize * new_size.height as usize);
                self.texture_extent = new_size;
                self.pixels = vec![0u8; len];
                proof {
                    assert(self.pixels@ =~= zeroed(new_size.width, new_size.height));
                }
            }
            true
        } else {
            false
        }
    }

    /// The layout in which the canvas is uploaded: rows packed without
    /// gaps, one row for each line of the canvas.
    pub fn upload_layout(&self) -> (layout: UploadLayout)
        requires
            self.wf(),
        ensures
            layout.offset == 0,
            layout.bytes_per_row == 4 * self.texture_extent.width,
            layout.rows_per_image == self.texture_extent.height,
            layout.bytes_per_row * layout.rows_per_image == self.pixels.len(),
    {
        UploadLayout {
            offset: 0,
            bytes_per_row: 4 * self.texture_extent.width,
            rows_per_image: self.texture_extent.height,
        }
    }
}

/// What a context must offer to be driven by the frame loop: a reaction to
/// input and a way to paint itself.
pub trait Handlers: Sized {
    /// What the context becomes when it is offered `event`, and whether it
    /// consumed the event.
    spec fn handled(self, event: InputEvent) -> (Self, bool);

    /// The canvas that the context paints at the given size.
    spec fn frame(self, size: Size) -> Seq<u8>;

    /// A painted canvas holds four bytes for each pixel.
    proof fn lemma_frame_len(self, size: Size)
        ensures
            self.frame(size).len() == 4 * size.width * size.height,
    ;

    /// Offers `event` to the context. `true` says that the event is
    /// consumed: the caller does nothing more with it.
    fn input(state: &mut State<Self>, event: &InputEvent) -> (consumed: bool)
        requires
            old(state).wf(),
        ensures
            final(state).wf(),
            final(state)@ == old(state)@.with_context(
                old(state).game_context.handled(*event).0,
            ),
            consumed == old(state).game_context.handled(*event).1,
    ;

    /// Repaints the whole canvas.
    fn update(state: &mut State<Self>)
        requires
            old(state).wf(),
        ensures
            final(state).wf(),
            final(state)@ == old(state)@.with_pixels(
                old(state).game_context.frame(old(state).size),
            ),
    ;
}

impl<T: Handlers> State<T> {
    /// Offers `event` to the installed input handler.
    pub fn input(&mut self, event: &InputEvent) -> (consumed: bool)
        requires
            old(self).wf(),
        ensures
            final(self).wf(),
            final(self)@ == old(self)@.with_context(old(self).game_context.handled(*event).0),
            consumed == old(self).game_context.handled(*event).1,
    {
        T::input(self, event)
    }

    /// Repaints the canvas with the installed update handler.
    pub fn update(&mut self)
        requires
            old(self).wf(),
        ensures
            final(self).wf(),
            final(self)@ == old(self)@.with_pixels(
                old(self).game_context.frame(old(self).size),
            ),
    {
        T::update(self)
    }
}

} // verus!
