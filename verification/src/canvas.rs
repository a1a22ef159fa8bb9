//! The shared pixel buffer and its rectangle blit.
//!
//! The canvas is stored row-major: the pixel at column `x`, row `y` sits at
//! index `y * width + x`. A blit copies a painting of exactly the target
//! rectangle's area into that rectangle's footprint and touches nothing
//! else; a window read returns the footprint's pixels as a painting of the
//! same shape.

use vstd::prelude::*;
use vstd::arithmetic::div_mod::{
    lemma_div_pos_is_pos, lemma_fundamental_div_mod, lemma_fundamental_div_mod_converse,
    lemma_mod_bound, lemma_multiply_divide_lt,
};
use vstd::arithmetic::mul::{lemma_mul_is_commutative, lemma_mul_upper_bound};
use crate::error::NFTPixelboardError;
use crate::geometry::{BlockSideLength, Color, Rectangle};

verus! {

/// Position of the pixel at column `x`, row `y` of a rectangle's footprint
/// within a painting of that rectangle, which is stored row-major with the
/// rectangle's own width.
pub open spec fn patch_index(r: Rectangle, x: int, y: int) -> int {
    (y - r.top_left_corner.y) * r.spec_width() + (x - r.top_left_corner.x)
}

/// One cell of the canvas after a blit: a pixel under the rectangle takes
/// the painting's value for its position, every other pixel keeps its old
/// value.
pub open spec fn blit_cell(canvas: Seq<Color>, width: int, r: Rectangle, patch: Seq<Color>, i: int) -> Color {
    if r.covers(i % width, i / width) {
        patch[patch_index(r, i % width, i / width)]
    } else {
        canvas[i]
    }
}

/// The whole canvas after blitting `patch` into rectangle `r`.
pub open spec fn blitted(canvas: Seq<Color>, width: int, r: Rectangle, patch: Seq<Color>) -> Seq<Color> {
    Seq::new(canvas.len(), |i: int| blit_cell(canvas, width, r, patch, i))
}

/// Pixel `k` of the painting read back from rectangle `r`'s footprint.
pub open spec fn window_cell(canvas: Seq<Color>, width: int, r: Rectangle, k: int) -> Color {
    canvas[(r.top_left_corner.y + k / r.spec_width()) * width + r.top_left_corner.x + k
        % r.spec_width()]
}

/// The painting covering rectangle `r`'s footprint, read row by row.
pub open spec fn window(canvas: Seq<Color>, width: int, r: Rectangle) -> Seq<Color> {
    Seq::new(r.area() as nat, |k: int| window_cell(canvas, width, r, k))
}

/// One cell of the canvas while a blit is under way: the first `done` pixels
/// of the painting have landed, the rest of the canvas still holds its old
/// values.
spec fn progress_cell(canvas: Seq<Color>, width: int, r: Rectangle, patch: Seq<Color>, done: int, i: int) -> Color {
    if r.covers(i % width, i / width) && patch_index(r, i % width, i / width) < done {
        patch[patch_index(r, i % width, i / width)]
    } else {
        canvas[i]
    }
}

/// Row-major index arithmetic: for a column inside the row, the linear index
/// `y * w + x` decomposes back into exactly that row and column.
proof fn lemma_linear_index(w: int, x: int, y: int)
    requires
        0 < w,
        0 <= x < w,
        0 <= y,
    ensures
        (y * w + x) / w == y,
        (y * w + x) % w == x,
{
    lemma_fundamental_div_mod_converse(y * w + x, w, y, x);
}

/// A row-major index formed from a row below `h` stays below `w * h`.
proof fn lemma_cell_in_canvas(w: int, h: int, x: int, y: int)
    requires
        0 < w,
        0 <= x < w,
        0 <= y < h,
    ensures
        0 <= y * w + x < w * h,
{
    assert(0 <= y * w + x < w * h) by (nonlinear_arith)
        requires
            0 < w,
            0 <= x < w,
            0 <= y < h,
    ;
}

/// A covered pixel's position within the painting lies inside the painting.
proof fn lemma_patch_index_bounds(r: Rectangle, x: int, y: int)
    requires
        r.corners_ordered(),
        r.covers(x, y),
    ensures
        0 <= patch_index(r, x, y) < r.area(),
{
    let rw = r.spec_width();
    let rh = r.spec_height();
    let px = x - r.top_left_corner.x;
    let py = y - r.top_left_corner.y;
    assert(0 <= py * rw + px < rw * rh) by (nonlinear_arith)
        requires
            0 <= px < rw,
            0 <= py < rh,
    ;
}

/// Pixel `k` of a painting lands on a canvas cell that is covered by the
/// rectangle, decomposes into the expected row and column, and carries `k`
/// as its position within the painting.
proof fn lemma_patch_cell(r: Rectangle, w: int, k: int)
    requires
        r.corners_ordered(),
        r.bottom_right_corner.x <= w,
        0 <= k < r.area(),
    ensures
        ({
            let rw = r.spec_width();
            let x = r.top_left_corner.x + k % rw;
            let y = r.top_left_corner.y + k / rw;
            &&& 0 <= k % rw < rw
            &&& 0 <= k / rw < r.spec_height()
            &&& r.covers(x, y)
            &&& (y * w + x) / w == y
            &&& (y * w + x) % w == x
            &&& patch_index(r, x, y) == k
        }),
{
    let rw = r.spec_width();
    lemma_mod_bound(k, rw);
    lemma_multiply_divide_lt(k, rw, r.spec_height());
    lemma_div_pos_is_pos(k, rw);
    let x = r.top_left_corner.x + k % rw;
    let y = r.top_left_corner.y + k / rw;
    lemma_linear_index(w, x, y);
    lemma_fundamental_div_mod(k, rw);
    lemma_mul_is_commutative(rw, k / rw);
}

/// A covered canvas cell is determined by its position within the painting:
/// the cell whose patch position is `k` is the one pixel `k` lands on.
proof fn lemma_patch_cell_unique(r: Rectangle, w: int, i: int, k: int)
    requires
        r.corners_ordered(),
        r.bottom_right_corner.x <= w,
        0 <= i,
        r.covers(i % w, i / w),
        patch_index(r, i % w, i / w) == k,
    ensures
        i == (r.top_left_corner.y + k / r.spec_width()) * w + r.top_left_corner.x + k
            % r.spec_width(),
{
    let rw = r.spec_width();
    let px = i % w - r.top_left_corner.x;
    let py = i / w - r.top_left_corner.y;
    lemma_fundamental_div_mod_converse(k, rw, py, px);
    assert(k / rw == py && k % rw == px);
    lemma_fundamental_div_mod(i, w);
    lemma_mul_is_commutative(w, i / w);
    assert(i == (i / w) * w + i % w);
}

/// A flat pixel buffer of fixed resolution, mutated only by rectangle
/// blits.
pub struct CanvasBuffer {
    pub width: BlockSideLength,
    pub height: BlockSideLength,
    pub pixels: Vec<Color>,
}

impl CanvasBuffer {
    /// The buffer holds exactly one color per pixel of the canvas.
    pub open spec fn wf(self) -> bool {
        self.pixels@.len() == (self.width as int) * (self.height as int)
    }

    /// The rectangle is a well-formed territory of this canvas.
    pub open spec fn admits(self, r: Rectangle) -> bool {
        r.corners_ordered() && r.bottom_right_corner.x <= self.width
            && r.bottom_right_corner.y <= self.height
    }

    /// Wraps an initial painting of the full canvas.
    pub fn from_painting(width: BlockSideLength, height: BlockSideLength, painting: Vec<Color>) -> (canvas: CanvasBuffer)
        requires
            painting@.len() == (width as int) * (height as int),
        ensures
            canvas.width == width,
            canvas.height == height,
            canvas.pixels@ == painting@,
            canvas.wf(),
    {
        CanvasBuffer { width, height, pixels: painting }
    }

    /// Copies `painting` into `rectangle`'s footprint, row by row; every
    /// pixel outside the footprint keeps its value. Fails with
    /// `SizeMismatch`, touching nothing, if and only if the painting does
    /// not hold exactly one color per pixel of the footprint.
    pub fn blit(&mut self, rectangle: &Rectangle, painting: &Vec<Color>) -> (result: Result<(), NFTPixelboardError>)
        requires
            old(self).wf(),
            old(self).admits(*rectangle),
        ensures
            final(self).width == old(self).width,
            final(self).height == old(self).height,
            final(self).wf(),
            result is Err <==> painting@.len() != rectangle.area(),
            result is Err ==> result->Err_0 == NFTPixelboardError::SizeMismatch
                && final(self).pixels@ == old(self).pixels@,
            result is Ok ==> final(self).pixels@ == blitted(
                old(self).pixels@,
                old(self).width as int,
                *rectangle,
                painting@,
            ),
    {
        let area = rectangle.area_pixels();
        if painting.len() as u64 != area {
            return Err(NFTPixelboardError::SizeMismatch);
        }
        let w: usize = self.width as usize;
        let h: usize = self.height as usize;
        let rw: usize = rectangle.width() as usize;
        let tlx: usize = rectangle.top_left_corner.x as usize;
        let tly: usize = rectangle.top_left_corner.y as usize;
        let n: usize = painting.len();
        let ghost orig = self.pixels@;
        let mut k: usize = 0;
        while k < n
            invariant
                0 <= k <= n,
                n == painting@.len(),
                n == rectangle.area(),
                rectangle.corners_ordered(),
                w == old(self).width as int,
                h == old(self).height as int,
                rw == rectangle.spec_width(),
                tlx == rectangle.top_left_corner.x as int,
                tly == rectangle.top_left_corner.y as int,
                rectangle.bottom_right_corner.x <= w,
                rectangle.bottom_right_corner.y <= h,
                self.width == old(self).width,
                self.height == old(self).height,
                orig == old(self).pixels@,
                self.pixels@.len() == orig.len(),
                orig.len() == w * h,
                forall|i: int|
                    0 <= i < orig.len() ==> #[trigger] self.pixels@[i] == progress_cell(
                        orig,
                        w as int,
                        *rectangle,
                        painting@,
                        k as int,
                        i,
                    ),
            decreases n - k,
        {
            proof {
                lemma_patch_cell(*rectangle, w as int, k as int);
                lemma_cell_in_canvas(
                    w as int,
                    h as int,
                    tlx + (k as int) % (rw as int),
                    tly + (k as int) / (rw as int),
                );
                lemma_mul_upper_bound(w as int, 0xFFFF, h as int, 0xFFFF);
            }
            let row: usize = k / rw;
            let col: usize = k % rw;
            let index: usize = (tly + row) * w + (tlx + col);
            let ghost pre = self.pixels@;
            self.pixels[index] = painting[k];
            proof {
                assert forall|i: int| 0 <= i < orig.len() implies #[trigger] self.pixels@[i]
                    == progress_cell(orig, w as int, *rectangle, painting@, k + 1, i) by {
                    if i == index {
                        assert(self.pixels@[i] == painting@[k as int]);
                    } else {
                        assert(self.pixels@[i] == pre[i]);
                        if rectangle.covers(i % (w as int), i / (w as int)) && patch_index(
                            *rectangle,
                            i % (w as int),
                            i / (w as int),
                        ) == k {
                            lemma_patch_cell_unique(*rectangle, w as int, i, k as int);
                        }
                    }
                }
            }
            k = k + 1;
        }
        proof {
            assert forall|i: int| 0 <= i < orig.len() implies #[trigger] self.pixels@[i]
                == blit_cell(orig, w as int, *rectangle, painting@, i) by {
                if rectangle.covers(i % (w as int), i / (w as int)) {
                    lemma_patch_index_bounds(
                        *rectangle,
                        i % (w as int),
                        i / (w as int),
                    );
                }
            }
            assert(self.pixels@ =~= blitted(orig, w as int, *rectangle, painting@));
        }
        Ok(())
    }

    /// Reads back the painting currently covering `rectangle`'s footprint.
    pub fn read_rectangle(&self, rectangle: &Rectangle) -> (win: Vec<Color>)
        requires
            self.wf(),
            self.admits(*rectangle),
        ensures
            win@ == window(self.pixels@, self.width as int, *rectangle),
    {
        let w: usize = self.width as usize;
        let h: usize = self.height as usize;
        let rw: usize = rectangle.width() as usize;
        let tlx: usize = rectangle.top_left_corner.x as usize;
        let tly: usize = rectangle.top_left_corner.y as usize;
        proof {
            lemma_mul_upper_bound(rectangle.spec_width(), 0xFFFF, rectangle.spec_height(), 0xFFFF);
        }
        let n: usize = rectangle.area_pixels() as usize;
        let mut win: Vec<Color> = Vec::new();
        let mut k: usize = 0;
        while k < n
            invariant
                0 <= k <= n,
                n == rectangle.area(),
                rectangle.corners_ordered(),
                w == self.width as int,
                h == self.height as int,
                rw == rectangle.spec_width(),
                tlx == rectangle.top_left_corner.x as int,
                tly == rectangle.top_left_corner.y as int,
                rectangle.bottom_right_corner.x <= w,
                rectangle.bottom_right_corner.y <= h,
                self.pixels@.len() == w * h,
                win@.len() == k,
                forall|j: int|
                    0 <= j < k ==> #[trigger] win@[j] == window_cell(
                        self.pixels@,
                        w as int,
                        *rectangle,
                        j,
                    ),
            decreases n - k,
        {
            proof {
                lemma_patch_cell(*rectangle, w as int, k as int);
                lemma_cell_in_canvas(
                    w as int,
                    h as int,
                    tlx + (k as int) % (rw as int),
                    tly + (k as int) / (rw as int),
                );
                lemma_mul_upper_bound(w as int, 0xFFFF, h as int, 0xFFFF);
            }
            let row: usize = k / rw;
            let col: usize = k % rw;
            let index: usize = (tly + row) * w + (tlx + col);
            win.push(self.pixels[index]);
            k = k + 1;
        }
        proof {
            assert(win@ =~= window(self.pixels@, self.width as int, *rectangle));
        }
        win
    }
}

/// Blitting a painting and reading the same rectangle back round-trips
/// exactly: the window over the blitted canvas is the painting itself, and
/// every pixel outside the rectangle's footprint is unaffected.
pub proof fn lemma_blit_window_round_trip(canvas: Seq<Color>, width: int, height: int, r: Rectangle, patch: Seq<Color>)
    requires
        canvas.len() == width * height,
        r.corners_ordered(),
        r.bottom_right_corner.x <= width,
        r.bottom_right_corner.y <= height,
        patch.len() == r.area(),
    ensures
        window(blitted(canvas, width, r, patch), width, r) == patch,
        forall|x: int, y: int|
            0 <= x < width && 0 <= y < height && !r.covers(x, y) ==> blitted(
                canvas,
                width,
                r,
                patch,
            )[y * width + x] == canvas[y * width + x],
{
    let b = blitted(canvas, width, r, patch);
    assert forall|x: int, y: int|
        0 <= x < width && 0 <= y < height && !r.covers(x, y) implies b[y * width + x] == canvas[y
        * width + x] by {
        lemma_cell_in_canvas(width, height, x, y);
        lemma_linear_index(width, x, y);
    }
    assert forall|k: int| 0 <= k < r.area() implies window(b, width, r)[k] == patch[k] by {
        lemma_patch_cell(r, width, k);
        let rw = r.spec_width();
        let x = r.top_left_corner.x + k % rw;
        let y = r.top_left_corner.y + k / rw;
        lemma_cell_in_canvas(width, height, x, y);
        assert(b[y * width + x] == patch[k]);
    }
    assert(window(b, width, r) =~= patch);
}

} // verus!
