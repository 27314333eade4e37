//! Off-screen buffer: a rectangular grid of glyph cells. Renderers draw into
//! buffers of their own and the compositor copies them into one root buffer.

use vstd::prelude::*;

verus! {

/// Largest accepted buffer side, so that cell indices stay well inside
/// machine integer ranges on every platform.
pub const MAX_BUFFER_DIM: u32 = 4096;

/// A rectangular grid of glyph cells, row by row.
pub struct Buffer {
    width: u32,
    height: u32,
    cells: Vec<u32>,
}

impl Buffer {
    /// The buffer's sides are positive, bounded, and the cell vector holds
    /// exactly one glyph per cell.
    pub closed spec fn wf(&self) -> bool {
        &&& 0 < self.width <= MAX_BUFFER_DIM
        &&& 0 < self.height <= MAX_BUFFER_DIM
        &&& self.cells@.len() == self.width * self.height
    }

    /// A well-formed buffer's sides are positive and bounded.
    pub proof fn lemma_wf_bounds(&self)
        requires
            self.wf(),
        ensures
            0 < self.w() <= MAX_BUFFER_DIM,
            0 < self.h() <= MAX_BUFFER_DIM,
    {
    }

    pub closed spec fn w(&self) -> int {
        self.width as int
    }

    pub closed spec fn h(&self) -> int {
        self.height as int
    }

    /// The glyph at column `x` of row `y`.
    pub closed spec fn cell(&self, x: int, y: int) -> u32 {
        self.cells@[y * self.w() + x]
    }

    /// Every cell holds `glyph`.
    pub open spec fn filled_with(&self, glyph: u32) -> bool {
        forall|x: int, y: int|
            0 <= x < self.w() && 0 <= y < self.h() ==> #[trigger] self.cell(x, y) == glyph
    }

    /// In-range cell coordinates map to distinct in-range vector indices.
    proof fn lemma_index(&self, x: int, y: int)
        requires
            self.wf(),
            0 <= x < self.w(),
            0 <= y < self.h(),
        ensures
            0 <= y * self.w() + x < self.cells@.len(),
            y * self.w() + x < 0x1000000,
    {
        assert(y * self.w() + x < self.w() * self.h()) by (nonlinear_arith)
            requires
                0 <= x < self.w(),
                0 <= y < self.h(),
        ;
        assert(self.w() * self.h() <= 0x1000000) by (nonlinear_arith)
            requires
                0 < self.w() <= MAX_BUFFER_DIM,
                0 < self.h() <= MAX_BUFFER_DIM,
                MAX_BUFFER_DIM == 4096,
        ;
        assert(self.w() * self.h() == self.cells@.len()) by (nonlinear_arith)
            requires
                self.cells@.len() == self.width * self.height,
                self.w() == self.width as int,
                self.h() == self.height as int,
        ;
    }

    /// Two distinct in-range coordinates never share a vector index.
    proof fn lemma_index_injective(&self, x1: int, y1: int, x2: int, y2: int)
        requires
            self.wf(),
            0 <= x1 < self.w(),
            0 <= y1 < self.h(),
            0 <= x2 < self.w(),
            0 <= y2 < self.h(),
            (x1, y1) != (x2, y2),
        ensures
            y1 * self.w() + x1 != y2 * self.w() + x2,
    {
        assert(y1 * self.w() + x1 != y2 * self.w() + x2) by (nonlinear_arith)
            requires
                0 <= x1 < self.w(),
                0 <= y1 < self.h(),
                0 <= x2 < self.w(),
                0 <= y2 < self.h(),
                x1 != x2 || y1 != y2,
        ;
    }

    /// A fresh buffer with every cell set to `fill`.
    pub fn new(width: u32, height: u32, fill: u32) -> (r: Buffer)
        requires
            0 < width <= MAX_BUFFER_DIM,
            0 < height <= MAX_BUFFER_DIM,
        ensures
            r.wf(),
            r.w() == width,
            r.h() == height,
            r.filled_with(fill),
    {
        proof {
            assert(width as int * height as int <= 0x1000000) by (nonlinear_arith)
                requires
                    0 < width <= MAX_BUFFER_DIM,
                    0 < height <= MAX_BUFFER_DIM,
                    MAX_BUFFER_DIM == 4096,
            ;
        }
        let n: usize = (width as usize) * (height as usize);
        let mut cells: Vec<u32> = Vec::new();
        let mut i: usize = 0;
        while i < n
            invariant
                0 <= i <= n,
                cells@.len() == i,
                forall|j: int| 0 <= j < i ==> cells@[j] == fill,
            decreases n - i,
        {
            cells.push(fill);
            i += 1;
        }
        let r = Buffer { width, height, cells };
        proof {
            assert forall|x: int, y: int|
                0 <= x < r.w() && 0 <= y < r.h() implies #[trigger] r.cell(x, y) == fill by {
                r.lemma_index(x, y);
            }
        }
        r
    }

    pub fn width(&self) -> (r: u32)
        ensures
            r == self.w(),
    {
        self.width
    }

    pub fn height(&self) -> (r: u32)
        ensures
            r == self.h(),
    {
        self.height
    }

    /// Read the glyph at (`x`, `y`).
    pub fn get(&self, x: u32, y: u32) -> (r: u32)
        requires
            self.wf(),
            x < self.w(),
            y < self.h(),
        ensures
            r == self.cell(x as int, y as int),
    {
        proof {
            self.lemma_index(x as int, y as int);
        }
        self.cells[(y as usize) * (self.width as usize) + (x as usize)]
    }

    /// Write `glyph` at (`x`, `y`); every other cell keeps its value.
    pub fn put(&mut self, x: u32, y: u32, glyph: u32)
        requires
            old(self).wf(),
            x < old(self).w(),
            y < old(self).h(),
        ensures
            final(self).wf(),
            final(self).w() == old(self).w(),
            final(self).h() == old(self).h(),
            final(self).cell(x as int, y as int) == glyph,
            forall|a: int, b: int|
                0 <= a < old(self).w() && 0 <= b < old(self).h() && (a, b) != (x as int, y as int)
                    ==> final(self).cell(a, b) == old(self).cell(a, b),
    {
        proof {
            self.lemma_index(x as int, y as int);
        }
        let idx: usize = (y as usize) * (self.width as usize) + (x as usize);
        self.cells.set(idx, glyph);
        proof {
            assert forall|a: int, b: int|
                0 <= a < old(self).w() && 0 <= b < old(self).h() && (a, b) != (
                    x as int,
                    y as int,
                ) implies self.cell(a, b) == old(self).cell(a, b) by {
                old(self).lemma_index(a, b);
                old(self).lemma_index_injective(a, b, x as int, y as int);
            }
        }
    }

    /// Set every cell to `glyph`.
    pub fn fill(&mut self, glyph: u32)
        requires
            old(self).wf(),
        ensures
            final(self).wf(),
            final(self).w() == old(self).w(),
            final(self).h() == old(self).h(),
            final(self).filled_with(glyph),
    {
        let w = self.width;
        let h = self.height;
        let mut y: u32 = 0;
        while y < h
            invariant
                self.wf(),
                self.w() == w,
                self.h() == h,
                0 <= y <= h,
                forall|a: int, b: int|
                    0 <= a < self.w() && 0 <= b < y ==> #[trigger] self.cell(a, b) == glyph,
            decreases h - y,
        {
            let mut x: u32 = 0;
            while x < w
                invariant
                    self.wf(),
                    self.w() == w,
                    self.h() == h,
                    0 <= x <= w,
                    y < h,
                    forall|a: int, b: int|
                        0 <= a < self.w() && 0 <= b < y ==> #[trigger] self.cell(a, b) == glyph,
                    forall|a: int| 0 <= a < x ==> #[trigger] self.cell(a, y as int) == glyph,
                decreases w - x,
            {
                self.put(x, y, glyph);
                x += 1;
            }
            y += 1;
        }
    }

    /// Write `text` left to right starting at (`x`, `y`), one glyph per
    /// character, clipped at the buffer's right edge; all other cells keep
    /// their values.
    pub fn print_text(&mut self, x: u32, y: u32, text: &Vec<char>)
        requires
            old(self).wf(),
            x < old(self).w(),
            y < old(self).h(),
        ensures
            final(self).wf(),
            final(self).w() == old(self).w(),
            final(self).h() == old(self).h(),
            forall|a: int, b: int|
                0 <= a < old(self).w() && 0 <= b < old(self).h() ==> final(self).cell(a, b) == (
                if b == y as int && x <= a < x + text@.len() {
                    text@[a - x] as u32
                } else {
                    old(self).cell(a, b)
                }),
    {
        let w = self.width;
        let n = text.len();
        let mut i: usize = 0;
        while i < n && (x as usize) + i < (w as usize)
            invariant
                self.wf(),
                self.w() == old(self).w(),
                self.h() == old(self).h(),
                w == self.w(),
                n == text@.len(),
                x < self.w(),
                y < self.h(),
                0 <= i <= n,
                x + i <= w,
                forall|a: int, b: int|
                    0 <= a < self.w() && 0 <= b < self.h() ==> self.cell(a, b) == (
                    if b == y as int && x <= a < x + i {
                        text@[a - x] as u32
                    } else {
                        old(self).cell(a, b)
                    }),
            decreases n - i,
        {
            self.put(x + (i as u32), y, text[i] as u32);
            i += 1;
        }
        proof {
            assert forall|a: int, b: int|
                0 <= a < old(self).w() && 0 <= b < old(self).h() implies self.cell(a, b) == (
                if b == y as int && x <= a < x + text@.len() {
                    text@[a - x] as u32
                } else {
                    old(self).cell(a, b)
                }) by {}
        }
    }

    /// Copy the whole of `src` into this buffer with its top-left corner at
    /// (`dst_x`, `dst_y`); cells outside that region keep their values.
    pub fn blit_from(&mut self, src: &Buffer, dst_x: u32, dst_y: u32)
        requires
            old(self).wf(),
            src.wf(),
            dst_x + src.w() <= old(self).w(),
            dst_y + src.h() <= old(self).h(),
        ensures
            final(self).wf(),
            final(self).w() == old(self).w(),
            final(self).h() == old(self).h(),
            forall|a: int, b: int|
                0 <= a < old(self).w() && 0 <= b < old(self).h() ==> final(self).cell(a, b) == (
                if dst_x <= a < dst_x + src.w() && dst_y <= b < dst_y + src.h() {
                    src.cell(a - dst_x, b - dst_y)
                } else {
                    old(self).cell(a, b)
                }),
    {
        let sw = src.width();
        let sh = src.height();
        let mut y: u32 = 0;
        while y < sh
            invariant
                self.wf(),
                src.wf(),
                self.w() == old(self).w(),
                self.h() == old(self).h(),
                sw == src.w(),
                sh == src.h(),
                dst_x + sw <= self.w(),
                dst_y + sh <= self.h(),
                0 <= y <= sh,
                forall|a: int, b: int|
                    0 <= a < self.w() && 0 <= b < self.h() ==> self.cell(a, b) == (
                    if dst_x <= a < dst_x + sw && dst_y <= b < dst_y + y {
                        src.cell(a - dst_x, b - dst_y)
                    } else {
                        old(self).cell(a, b)
                    }),
            decreases sh - y,
        {
            let mut x: u32 = 0;
            while x < sw
                invariant
                    self.wf(),
                    src.wf(),
                    self.w() == old(self).w(),
                    self.h() == old(self).h(),
                    sw == src.w(),
                    sh == src.h(),
                    dst_x + sw <= self.w(),
                    dst_y + sh <= self.h(),
                    0 <= x <= sw,
                    y < sh,
                    forall|a: int, b: int|
                        0 <= a < self.w() && 0 <= b < self.h() ==> self.cell(a, b) == (
                        if dst_x <= a < dst_x + sw && dst_y <= b < dst_y + y {
                            src.cell(a - dst_x, b - dst_y)
                        } else if b == dst_y + y && dst_x <= a < dst_x + x {
                            src.cell(a - dst_x, b - dst_y)
                        } else {
                            old(self).cell(a, b)
                        }),
                decreases sw - x,
            {
                let g = src.get(x, y);
                self.put(dst_x + x, dst_y + y, g);
                x += 1;
            }
            y += 1;
        }
    }
}

} // verus!
