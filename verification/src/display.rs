//! The monochrome bitmap display that sprites are drawn on.

use vstd::prelude::*;

verus! {

/// Width of the display in pixels.
pub const DISPLAY_WIDTH: usize = 64;

/// Height of the display in pixels.
pub const DISPLAY_HEIGHT: usize = 32;

/// Number of pixels of the display.
pub const DISPLAY_SIZE: usize = 2048;

/// The position of the pixel in column `x` of row `y` among the pixels of
/// a display, which are kept row by row.
pub open spec fn pixel_index(x: int, y: int) -> int {
    y * 64 + x
}

/// The pixels of a display on which none is set.
pub open spec fn blank() -> Seq<bool> {
    Seq::new(2048, |k: int| false)
}

/// [Display] is a 64x32 grid of pixels, each of them set or unset. Pixels
/// change by being flipped, one at a time, or by clearing the whole grid.
pub struct Display {
    pixels: [bool; 2048],
}

impl View for Display {
    type V = Seq<bool>;

    /// The pixels, row by row from the top, each row from the left.
    closed spec fn view(&self) -> Seq<bool> {
        self.pixels@
    }
}

/// A display has one entry for each of its 64 times 32 pixels.
pub broadcast proof fn lemma_display_len(display: Display)
    ensures
        #[trigger] display@.len() == 2048,
{
}

impl Display {
    /// Whether the pixel in column `x` of row `y` is set.
    pub open spec fn pixel(&self, x: int, y: int) -> bool {
        self@[pixel_index(x, y)]
    }

    /// Constructs a display on which no pixel is set.
    pub fn new() -> (display: Self)
        ensures
            display@ == blank(),
    {
        let display = Display { pixels: [false; 2048] };
        assert(display@ =~= blank());
        display
    }

    /// Unsets every pixel.
    pub fn clear(&mut self)
        ensures
            final(self)@ == blank(),
    {
        self.pixels = [false; 2048];
        assert(self@ =~= blank());
    }

    /// Flips one pixel and returns whether it was set before. Coordinates
    /// beyond the edges wrap around.
    pub fn xor_pixel(&mut self, x: usize, y: usize) -> (previous: bool)
        ensures
            previous == old(self).pixel(x as int % 64, y as int % 32),
            final(self)@ == old(self)@.update(pixel_index(x as int % 64, y as int % 32), !previous),
    {
        let index = (y % DISPLAY_HEIGHT) * DISPLAY_WIDTH + x % DISPLAY_WIDTH;
        let previous = self.pixels[index];
        self.pixels[index] = !previous;
        previous
    }

    /// Whether the pixel in column `x` of row `y` is set; `false` beyond the
    /// edges.
    pub fn is_set(&self, x: usize, y: usize) -> (set: bool)
        ensures
            set == (x < 64 && y < 32 && self.pixel(x as int, y as int)),
    {
        x < DISPLAY_WIDTH && y < DISPLAY_HEIGHT && self.pixels[y * DISPLAY_WIDTH + x]
    }
}

} // verus!
