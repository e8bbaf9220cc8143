//! Pixel buffers, the windows that show one, and the manager of several windows.

pub mod color;
pub mod pixel;
pub mod window_manager;

use vstd::prelude::*;
use crate::renderer::pixel::{pack_rgb, packed_rgb, OPAQUE_BLACK};

verus! {

/// What a renderer holds: its size and its pixels in row-major order.
pub struct RendererView {
    pub width: u32,
    pub height: u32,
    pub pixels: Seq<u32>,
}

impl RendererView {
    /// The buffer holds one value per pixel, and the pixel count fits in 32 bits.
    pub open spec fn wf(self) -> bool {
        &&& self.width * self.height <= u32::MAX
        &&& self.pixels.len() == self.width * self.height
    }

    /// The renderer after `color` was written at `(x, y)`; unchanged outside the buffer.
    pub open spec fn with_pixel(self, x: u32, y: u32, color: u32) -> RendererView {
        if x < self.width && y < self.height {
            RendererView { pixels: self.pixels.update(y * self.width + x, color), ..self }
        } else {
            self
        }
    }

    /// The renderer after every pixel was set to `color`.
    pub open spec fn filled(self, color: u32) -> RendererView {
        RendererView { pixels: Seq::new(self.pixels.len(), |i: int| color), ..self }
    }
}

/// A pixel buffer of fixed size that can be shown in a window.
pub struct WindowRenderer {
    pub width: u32,
    pub height: u32,
    pub pixel_buffer: Vec<u32>,
}

impl View for WindowRenderer {
    type V = RendererView;

    open spec fn view(&self) -> RendererView {
        RendererView { width: self.width, height: self.height, pixels: self.pixel_buffer@ }
    }
}

impl WindowRenderer {
    /// The renderer is well formed when its view is.
    pub open spec fn wf(&self) -> bool {
        self@.wf()
    }

    /// Creates a renderer of the given size, every pixel zero.
    pub fn new(width: u32, height: u32) -> (renderer: WindowRenderer)
        requires
            width * height <= u32::MAX,
        ensures
            renderer.wf(),
            renderer@ == (RendererView {
                width,
                height,
                pixels: Seq::new((width * height) as nat, |i: int| 0u32),
            }),
    {
        let pixel_count: usize = (width * height) as usize;
        let pixel_buffer: Vec<u32> = vec![0u32; pixel_count];
        assert(pixel_buffer@ =~= Seq::new((width * height) as nat, |i: int| 0u32));
        WindowRenderer { width, height, pixel_buffer }
    }

    /// Sets the pixel at `(x, y)` to the opaque color `(r, g, b)`; does nothing outside the
    /// buffer.
    pub fn set_pixel(&mut self, x: u32, y: u32, r: u8, g: u8, b: u8)
        requires
            old(self).wf(),
        ensures
            final(self).wf(),
            final(self)@ == old(self)@.with_pixel(x, y, packed_rgb(r, g, b)),
    {
        if x < self.width && y < self.height {
            assert(y * self.width + x < self.width * self.height) by (nonlinear_arith)
                requires
                    x < self.width,
                    y < self.height,
            ;
            let index: usize = (y * self.width + x) as usize;
            let color: u32 = pack_rgb(r, g, b);
            self.pixel_buffer[index] = color;
        }
    }

    /// Fills the whole buffer with the opaque color `(r, g, b)`.
    pub fn fill(&mut self, r: u8, g: u8, b: u8)
        requires
            old(self).wf(),
        ensures
            final(self).wf(),
            final(self)@ == old(self)@.filled(packed_rgb(r, g, b)),
    {
        let color: u32 = pack_rgb(r, g, b);
        self.fill_with(color);
    }

    /// Clears the buffer to opaque black.
    pub fn clear(&mut self)
        requires
            old(self).wf(),
        ensures
            final(self).wf(),
            final(self)@ == old(self)@.filled(OPAQUE_BLACK),
    {
        self.fill_with(OPAQUE_BLACK);
    }

    /// Sets every pixel to one packed color.
    fn fill_with(&mut self, color: u32)
        requires
            old(self).wf(),
        ensures
            final(self).wf(),
            final(self)@ == old(self)@.filled(color),
    {
        let n: usize = self.pixel_buffer.len();
        let mut i: usize = 0;
        while i < n
            invariant
                i <= n,
                n == self.pixel_buffer@.len(),
                self.pixel_buffer@.len() == old(self).pixel_buffer@.len(),
                self.width == old(self).width,
                self.height == old(self).height,
                forall|j: int| 0 <= j < i ==> self.pixel_buffer@[j] == color,
            decreases n - i,
        {
            self.pixel_buffer[i] = color;
            i += 1;
        }
        assert(self.pixel_buffer@ =~= Seq::new(old(self).pixel_buffer@.len(), |i: int| color));
    }

    /// Width of the buffer in pixels.
    pub fn get_width(&self) -> (width: u32)
        ensures
            width == self@.width,
    {
        self.width
    }

    /// Height of the buffer in pixels.
    pub fn get_height(&self) -> (height: u32)
        ensures
            height == self@.height,
    {
        self.height
    }
}

/// A window of one color.
pub struct SimpleWindow {
    pub width: u32,
    pub height: u32,
    pub title: String,
}

impl SimpleWindow {
    /// Describes a window of the given size and title.
    pub fn new(width: u32, height: u32, title: String) -> (window: SimpleWindow)
        ensures
            window.width == width,
            window.height == height,
            window.title@ == title@,
    {
        SimpleWindow { width, height, title }
    }
}

} // verus!
