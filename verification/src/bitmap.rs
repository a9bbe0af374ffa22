//! A plain single-channel raster: the form in which font sheet images and
//! the glyph cells sliced from them are held. A pixel is "active" when its
//! intensity is strictly greater than zero.

use vstd::prelude::*;

verus! {

/// A monochrome (single intensity channel) bitmap, stored row-major.
pub struct Bitmap {
    pub width: usize,
    pub height: usize,
    pub data: Vec<u8>,
}

impl Bitmap {
    /// The stored pixel count matches the declared dimensions.
    pub open spec fn wf(self) -> bool {
        self.data@.len() == self.width * self.height
    }

    pub open spec fn spec_width(&self) -> usize {
        self.width
    }

    pub open spec fn spec_height(&self) -> usize {
        self.height
    }

    /// Intensity of the pixel at column `x`, row `y`.
    pub open spec fn pixel(self, x: int, y: int) -> u8 {
        self.data@[y * self.width + x]
    }

    /// Builds a bitmap from raw row-major intensity data; rejects data whose
    /// length does not match the declared dimensions.
    pub fn from_raw(width: usize, height: usize, data: Vec<u8>) -> (r: Option<Bitmap>)
        ensures
            match r {
                Some(b) => {
                    &&& data@.len() == width * height
                    &&& b.wf()
                    &&& b.spec_width() == width
                    &&& b.spec_height() == height
                    &&& forall|x: int, y: int|
                        0 <= x < width && 0 <= y < height ==> b.pixel(x, y) == data@[y * width + x]
                },
                None => data@.len() != width * height,
            },
    {
        let n = data.len();
        match width.checked_mul(height) {
            Some(expected) => {
                if n == expected {
                    Some(Bitmap { width, height, data })
                } else {
                    None
                }
            },
            None => {
                // the product exceeds usize::MAX, so no Vec can have that length
                None
            },
        }
    }

    #[verifier::when_used_as_spec(spec_width)]
    pub fn width(&self) -> (r: usize)
        ensures
            r == self.spec_width(),
    {
        self.width
    }

    #[verifier::when_used_as_spec(spec_height)]
    pub fn height(&self) -> (r: usize)
        ensures
            r == self.spec_height(),
    {
        self.height
    }

    /// Reads the intensity of one pixel.
    pub fn get(&self, x: usize, y: usize) -> (r: u8)
        requires
            self.wf(),
            x < self.spec_width(),
            y < self.spec_height(),
        ensures
            r == self.pixel(x as int, y as int),
    {
        let n = self.data.len();
        proof {
            assert(y * self.width + x < self.height * self.width) by (nonlinear_arith)
                requires
                    x < self.width,
                    y < self.height,
            ;
            assert(self.height * self.width == self.width * self.height) by (nonlinear_arith);
        }
        self.data[y * self.width + x]
    }
}

} // verus!
