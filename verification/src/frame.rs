//! The composed output frame: one full screen of RGB pixels, built by the
//! scheduler each iteration and handed to the embedding program to push to
//! the physical matrix.

use vstd::prelude::*;
use crate::{SCREEN_H, SCREEN_W};

verus! {

/// A screen-sized RGB pixel buffer, stored row-major.
pub struct Frame {
    pub data: Vec<(u8, u8, u8)>,
}

impl Frame {
    /// The buffer holds exactly one pixel per screen position.
    pub open spec fn wf(&self) -> bool {
        self.data@.len() == SCREEN_W * SCREEN_H
    }

    /// The pixel at column `x`, row `y`.
    pub open spec fn pixel(&self, x: int, y: int) -> (u8, u8, u8) {
        self.data@[y * SCREEN_W + x]
    }

    /// An all-black frame.
    pub fn new() -> (f: Frame)
        ensures
            f.wf(),
            forall|x: int, y: int|
                0 <= x < SCREEN_W && 0 <= y < SCREEN_H ==> #[trigger] f.pixel(x, y) == (
                0u8,
                0u8,
                0u8,
                ),
    {
        let n = SCREEN_W * SCREEN_H;
        let mut data: Vec<(u8, u8, u8)> = Vec::new();
        let mut i: usize = 0;
        while i < n
            invariant
                n == SCREEN_W * SCREEN_H,
                i <= n,
                data@.len() == i,
                forall|k: int| 0 <= k < i ==> #[trigger] data@[k] == (0u8, 0u8, 0u8),
            decreases n - i,
        {
            data.push((0, 0, 0));
            i += 1;
        }
        Frame { data }
    }

    /// Reads one pixel.
    pub fn get(&self, x: usize, y: usize) -> (r: (u8, u8, u8))
        requires
            self.wf(),
            x < SCREEN_W,
            y < SCREEN_H,
        ensures
            r == self.pixel(x as int, y as int),
    {
        self.data[y * SCREEN_W + x]
    }

    /// Writes one pixel, leaving every other pixel as it was.
    pub fn set(&mut self, x: usize, y: usize, color: (u8, u8, u8))
        requires
            old(self).wf(),
            x < SCREEN_W,
            y < SCREEN_H,
        ensures
            final(self).wf(),
            final(self).pixel(x as int, y as int) == color,
            forall|x2: int, y2: int|
                0 <= x2 < SCREEN_W && 0 <= y2 < SCREEN_H && !(x2 == x && y2 == y)
                    ==> #[trigger] final(self).pixel(x2, y2) == old(self).pixel(x2, y2),
    {
        self.data[y * SCREEN_W + x] = color;
    }
}

} // verus!
