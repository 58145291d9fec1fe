//! A raster of RGB pixels held as plain channel bytes, row-major.
//!
//! The encoder only ever reads channel values; the caller supplies a raster
//! already sized to the chosen mode's exact dimensions.

use vstd::prelude::*;

verus! {

/// A `width` x `height` grid of pixels; each pixel is three channel bytes
/// (red, green, blue), stored row-major as `[r, g, b, r, g, b, ...]`.
pub struct Raster {
    width: usize,
    height: usize,
    data: Vec<u8>,
}

impl Raster {
    /// Well-formedness: the byte store holds exactly three bytes per pixel.
    pub closed spec fn wf(self) -> bool {
        self.data@.len() == 3 * self.width * self.height
    }

    pub closed spec fn spec_width(self) -> int {
        self.width as int
    }

    pub closed spec fn spec_height(self) -> int {
        self.height as int
    }

    /// The channel byte of pixel (`x`, `y`); `c` is 0 for red, 1 for green,
    /// 2 for blue.
    pub closed spec fn spec_channel(self, x: int, y: int, c: int) -> u8 {
        self.data@[3 * (y * self.width + x) + c]
    }

    /// Builds a raster from its dimensions and a flat channel-byte store.
    /// Returns `None` exactly when the store's length does not match the
    /// dimensions.
    pub fn new(width: usize, height: usize, data: Vec<u8>) -> (r: Option<Raster>)
        requires
            3 * width * height <= usize::MAX,
        ensures
            r is Some <==> data@.len() == 3 * width * height,
            r is Some ==> {
                let rr = r->Some_0;
                &&& rr.wf()
                &&& rr.spec_width() == width
                &&& rr.spec_height() == height
                &&& forall|x: int, y: int, c: int|
                    0 <= x < width && 0 <= y < height && 0 <= c < 3
                        ==> rr.spec_channel(x, y, c) == data@[3 * (y * width + x) + c]
            },
    {
        proof {
            assert(0 <= width * height && 3 * (width * height) == 3 * width * height)
                by (nonlinear_arith);
        }
        let need: usize = 3 * (width * height);
        if data.len() == need {
            Some(Raster { width, height, data })
        } else {
            None
        }
    }

    pub fn width(&self) -> (w: usize)
        ensures
            w == self.spec_width(),
    {
        self.width
    }

    pub fn height(&self) -> (h: usize)
        ensures
            h == self.spec_height(),
    {
        self.height
    }

    /// Reads one channel byte of pixel (`x`, `y`).
    pub fn get_channel(&self, x: usize, y: usize, c: usize) -> (v: u8)
        requires
            self.wf(),
            x < self.spec_width(),
            y < self.spec_height(),
            c < 3,
        ensures
            v == self.spec_channel(x as int, y as int, c as int),
    {
        let n: usize = self.data.len();
        proof {
            assert(y * self.width + x < self.width * self.height) by (nonlinear_arith)
                requires
                    x < self.width,
                    y < self.height,
            ;
            assert(3 * (y * self.width + x) + c < 3 * self.width * self.height)
                by (nonlinear_arith)
                requires
                    y * self.width + x < self.width * self.height,
                    c < 3,
            ;
        }
        let idx: usize = 3 * (y * self.width + x) + c;
        self.data[idx]
    }
}

} // verus!
