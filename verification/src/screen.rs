//! The 64x32 monochrome display surface.

use vstd::prelude::*;

verus! {

pub const SCREEN_WIDTH: u32 = 64;

pub const SCREEN_HEIGHT: u32 = 32;

/// The display surface: a 64x32 grid of cells, stored row-major, each on
/// or off. The executor draws into it by XOR and reads cells back for
/// collision detection; a host renders it however it likes.
pub struct Screen {
    pub pixels: Vec<bool>,
}

impl Screen {
    /// A well-formed screen holds exactly 64 * 32 cells.
    pub open spec fn wf(self) -> bool {
        self.pixels@.len() == 2048
    }

    /// The cell at column `x`, row `y` of the row-major grid.
    pub open spec fn at(self, x: int, y: int) -> bool
        recommends
            0 <= x < 64,
            0 <= y < 32,
    {
        self.pixels@[y * 64 + x]
    }

    /// Builds a screen with every cell off.
    pub fn new() -> (r: Screen)
        ensures
            r.wf(),
            forall|i: int| 0 <= i < 2048 ==> !r.pixels@[i],
    {
        let mut pixels: Vec<bool> = Vec::new();
        let mut i: usize = 0;
        while i < 2048
            invariant
                i <= 2048,
                pixels@.len() == i,
                forall|j: int| 0 <= j < i ==> !pixels@[j],
            decreases 2048 - i,
        {
            pixels.push(false);
            i = i + 1;
        }
        Screen { pixels }
    }

    /// Reads the cell at column `x`, row `y`.
    pub fn get(&self, x: usize, y: usize) -> (r: bool)
        requires
            self.wf(),
            x < 64,
            y < 32,
        ensures
            r == self.at(x as int, y as int),
    {
        self.pixels[y * 64 + x]
    }

    /// Writes the cell at column `x`, row `y`, leaving every other cell
    /// unchanged.
    pub fn set(&mut self, x: usize, y: usize, value: bool)
        requires
            old(self).wf(),
            x < 64,
            y < 32,
        ensures
            final(self).wf(),
            final(self).pixels@ == old(self).pixels@.update(y * 64 + x, value),
    {
        self.pixels.set(y * 64 + x, value);
    }

    /// Turns every cell off.
    pub fn clear(&mut self)
        requires
            old(self).wf(),
        ensures
            final(self).wf(),
            forall|i: int| 0 <= i < 2048 ==> !final(self).pixels@[i],
    {
        let mut i: usize = 0;
        while i < 2048
            invariant
                i <= 2048,
                self.pixels@.len() == 2048,
                forall|j: int| 0 <= j < i ==> !self.pixels@[j],
            decreases 2048 - i,
        {
            self.pixels.set(i, false);
            i = i + 1;
        }
    }
}

} // verus!
