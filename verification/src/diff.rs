//! Comparison of two screenshots, pixel by pixel: how many pixels changed,
//! the rectangle that bounds them, and an image that shows them.
//!
//! A screenshot is an RGBA frame: its width, height and pixels in row-major
//! order.

use vstd::prelude::*;
use vstd::arithmetic::div_mod::lemma_fundamental_div_mod_converse;

verus! {

/// One RGBA pixel.
#[derive(Clone, Copy, Debug, PartialEq, Eq, Structural)]
pub struct Rgba {
    pub r: u8,
    pub g: u8,
    pub b: u8,
    pub a: u8,
}

/// An image as its width, height and pixels, row by row.
pub struct RgbaFrame {
    pub width: u32,
    pub height: u32,
    pub pixels: Vec<Rgba>,
}

impl RgbaFrame {
    /// The frame holds one pixel per position, and its pixel count fits in `u32`.
    pub open spec fn wf(&self) -> bool {
        &&& self.pixels@.len() == self.width * self.height
        &&& self.width * self.height <= u32::MAX
    }
}

/// A rectangular region that changed between two screenshots.
#[derive(Clone, Copy, Debug, PartialEq, Eq, Structural)]
pub struct ChangedRect {
    pub x: u32,
    pub y: u32,
    pub width: u32,
    pub height: u32,
}

/// Whether the pixel at index `i` differs between the frames.
pub open spec fn changed(before: Seq<Rgba>, after: Seq<Rgba>, i: int) -> bool {
    before[i] != after[i]
}

/// The number of indices below `n` at which the frames differ.
pub open spec fn changed_count(before: Seq<Rgba>, after: Seq<Rgba>, n: int) -> nat
    decreases n,
{
    if n <= 0 {
        0
    } else {
        changed_count(before, after, n - 1) + if changed(before, after, n - 1) { 1nat } else { 0nat }
    }
}

/// `r` is the smallest rectangle that holds every changed pixel of frames
/// `width` pixels wide with `n` pixels.
pub open spec fn bounds_changes(r: ChangedRect, before: Seq<Rgba>, after: Seq<Rgba>, width: int, n: int) -> bool {
    &&& forall|i: int| 0 <= i < n && #[trigger] changed(before, after, i) ==>
            r.x <= i % width < r.x + r.width && r.y <= i / width < r.y + r.height
    &&& exists|i: int| 0 <= i < n && #[trigger] changed(before, after, i) && i % width == r.x
    &&& exists|i: int| 0 <= i < n && #[trigger] changed(before, after, i) && i % width == r.x + r.width - 1
    &&& exists|i: int| 0 <= i < n && #[trigger] changed(before, after, i) && i / width == r.y
    &&& exists|i: int| 0 <= i < n && #[trigger] changed(before, after, i) && i / width == r.y + r.height - 1
}

/// Compares two screenshots: the rectangles that changed, the number of
/// changed pixels and the number of pixels.
///
/// Frames of different sizes count as changed everywhere: one rectangle
/// covering the later frame. Otherwise the rectangles are the bounding box of
/// the changed pixels, or none when nothing changed.
pub fn compute_diff(before: &RgbaFrame, after: &RgbaFrame) -> (res: (Vec<ChangedRect>, u32, u32))
    requires
        before.wf(),
        after.wf(),
    ensures
        (before.width != after.width || before.height != after.height) ==> {
            &&& res.0@ == seq![ChangedRect { x: 0, y: 0, width: after.width, height: after.height }]
            &&& res.1 == after.width * after.height
            &&& res.2 == after.width * after.height
        },
        (before.width == after.width && before.height == after.height) ==> {
            let n = after.width * after.height;
            &&& res.1 == changed_count(before.pixels@, after.pixels@, n)
            &&& res.2 == n
            &&& res.0@.len() <= 1
            &&& (res.0@.len() == 0 <==> forall|i: int| 0 <= i < n ==> !changed(before.pixels@, after.pixels@, i))
            &&& res.0@.len() == 1 ==> bounds_changes(res.0@[0], before.pixels@, after.pixels@, after.width as int, n)
        },
{
    let w = before.width;
    let h = before.height;
    if w != after.width || h != after.height {
        let total = after.width * after.height;
        let mut rects: Vec<ChangedRect> = Vec::new();
        rects.push(ChangedRect { x: 0, y: 0, width: after.width, height: after.height });
        assert(rects@ =~= seq![ChangedRect { x: 0, y: 0, width: after.width, height: after.height }]);
        return (rects, total, total);
    }
    let n = before.pixels.len();
    let ghost bp = before.pixels@;
    let ghost ap = after.pixels@;
    let mut count: u32 = 0;
    let mut found = false;
    let mut min_x: u32 = 0;
    let mut max_x: u32 = 0;
    let mut min_y: u32 = 0;
    let mut max_y: u32 = 0;
    let ghost mut w_min_x: int = 0;
    let ghost mut w_max_x: int = 0;
    let ghost mut w_min_y: int = 0;
    let ghost mut w_max_y: int = 0;
    let mut x: u32 = 0;
    let mut y: u32 = 0;
    let mut i: usize = 0;
    proof {
        if n > 0 {
            assert(w > 0) by (nonlinear_arith)
                requires n == w * h, n > 0;
        }
    }
    while i < n
        invariant
            n == w * h,
            n <= u32::MAX,
            bp == before.pixels@,
            ap == after.pixels@,
            bp.len() == n,
            ap.len() == n,
            i <= n,
            i < n ==> x < w,
            i == y * w + x,
            count == changed_count(bp, ap, i as int),
            count <= i,
            found == exists|j: int| 0 <= j < i && changed(bp, ap, j),
            found ==> forall|j: int| 0 <= j < i && #[trigger] changed(bp, ap, j) ==>
                min_x <= j % (w as int) <= max_x && min_y <= j / (w as int) <= max_y,
            found ==> 0 <= w_min_x < i && changed(bp, ap, w_min_x) && w_min_x % (w as int) == min_x,
            found ==> 0 <= w_max_x < i && changed(bp, ap, w_max_x) && w_max_x % (w as int) == max_x,
            found ==> 0 <= w_min_y < i && changed(bp, ap, w_min_y) && w_min_y / (w as int) == min_y,
            found ==> 0 <= w_max_y < i && changed(bp, ap, w_max_y) && w_max_y / (w as int) == max_y,
            found ==> min_x <= max_x < w && min_y <= max_y,
        decreases n - i,
    {
        assert(w > 0) by (nonlinear_arith)
            requires i < n, n == w * h;
        proof {
            lemma_fundamental_div_mod_converse(i as int, w as int, y as int, x as int);
        }
        if before.pixels[i] != after.pixels[i] {
            assert(changed(bp, ap, i as int));
            if !found {
                min_x = x;
                max_x = x;
                min_y = y;
                max_y = y;
                proof {
                    w_min_x = i as int;
                    w_max_x = i as int;
                    w_min_y = i as int;
                    w_max_y = i as int;
                }
                found = true;
            } else {
                if x < min_x {
                    min_x = x;
                    proof { w_min_x = i as int; }
                }
                if x > max_x {
                    max_x = x;
                    proof { w_max_x = i as int; }
                }
                if y < min_y {
                    min_y = y;
                    proof { w_min_y = i as int; }
                }
                if y > max_y {
                    max_y = y;
                    proof { w_max_y = i as int; }
                }
            }
            count += 1;
        }
        let ghost oi = i as int;
        let ghost oy = y as int;
        i += 1;
        if x + 1 == w {
            assert(oy + 1 <= h) by (nonlinear_arith)
                requires oi == oy * w + (w - 1), oi + 1 <= w * h, w > 0;
            x = 0;
            y += 1;
            assert(i == y * w + x) by (nonlinear_arith)
                requires oi == oy * w + (w - 1), i == oi + 1, y == oy + 1, x == 0;
        } else {
            x += 1;
        }
    }
    let mut rects: Vec<ChangedRect> = Vec::new();
    if found {
        let r = ChangedRect { x: min_x, y: min_y, width: max_x - min_x + 1, height: max_y - min_y + 1 };
        rects.push(r);
        assert(changed(bp, ap, w_min_x));
        assert(changed(bp, ap, w_max_x));
        assert(changed(bp, ap, w_min_y));
        assert(changed(bp, ap, w_max_y));
        assert(rects@[0] == r);
    }
    (rects, count, n as u32)
}

/// The black, opaque pixel that stands for positions outside a frame.
pub open spec fn black() -> Rgba {
    Rgba { r: 0, g: 0, b: 0, a: 255 }
}

/// The pixel of a frame at a position, or black outside it.
pub open spec fn pixel_at(f: &RgbaFrame, x: int, y: int) -> Rgba {
    if x < f.width && y < f.height { f.pixels@[y * f.width + x] } else { black() }
}

/// The diff image's pixel: the later pixel at half brightness where nothing
/// changed, opaque magenta where something did.
pub open spec fn diff_pixel(before: Rgba, after: Rgba) -> Rgba {
    if before == after {
        Rgba { r: after.r / 2, g: after.g / 2, b: after.b / 2, a: after.a }
    } else {
        Rgba { r: 255, g: 0, b: 255, a: 255 }
    }
}

proof fn lemma_index_in_frame(x: int, y: int, w: int, h: int)
    requires
        0 <= x < w,
        0 <= y < h,
    ensures
        0 <= y * w + x < w * h,
{
    assert(y * w + x < w * h) by (nonlinear_arith)
        requires 0 <= x < w, 0 <= y < h;
    assert(0 <= y * w) by (nonlinear_arith)
        requires 0 <= y, 0 <= w;
}

/// The pixels of the image that shows the changes: one per pixel of the
/// later frame, row by row.
pub fn generate_diff_image(before: &RgbaFrame, after: &RgbaFrame) -> (out: Vec<Rgba>)
    requires
        before.wf(),
        after.wf(),
    ensures
        out@.len() == after.width * after.height,
        forall|i: int| 0 <= i < out@.len() ==> #[trigger] out@[i] == diff_pixel(
            pixel_at(before, i % (after.width as int), i / (after.width as int)),
            after.pixels@[i],
        ),
{
    let w = after.width;
    let n = after.pixels.len();
    let mut out: Vec<Rgba> = Vec::new();
    let mut x: u32 = 0;
    let mut y: u32 = 0;
    let mut i: usize = 0;
    proof {
        if n > 0 {
            assert(w > 0) by (nonlinear_arith)
                requires n == w * after.height, n > 0;
        }
    }
    while i < n
        invariant
            n == after.width * after.height,
            w == after.width,
            before.wf(),
            after.pixels@.len() == n,
            i <= n,
            i < n ==> x < w,
            i == y * w + x,
            out@.len() == i,
            forall|j: int| 0 <= j < i ==> #[trigger] out@[j] == diff_pixel(
                pixel_at(before, j % (w as int), j / (w as int)),
                after.pixels@[j],
            ),
        decreases n - i,
    {
        assert(w > 0) by (nonlinear_arith)
            requires i < n, n == w * after.height;
        proof {
            lemma_fundamental_div_mod_converse(i as int, w as int, y as int, x as int);
        }
        let bpx = if x < before.width && y < before.height {
            proof {
                lemma_index_in_frame(x as int, y as int, before.width as int, before.height as int);
            }
            let k = (y as usize) * (before.width as usize) + (x as usize);
            before.pixels[k]
        } else {
            Rgba { r: 0, g: 0, b: 0, a: 255 }
        };
        let apx = after.pixels[i];
        let px = if bpx == apx {
            Rgba { r: apx.r / 2, g: apx.g / 2, b: apx.b / 2, a: apx.a }
        } else {
            Rgba { r: 255, g: 0, b: 255, a: 255 }
        };
        out.push(px);
        let ghost oi = i as int;
        let ghost oy = y as int;
        i += 1;
        if x + 1 == w {
            assert(oy + 1 <= after.height) by (nonlinear_arith)
                requires oi == oy * w + (w - 1), oi + 1 <= w * after.height, w > 0;
            x = 0;
            y += 1;
            assert(i == y * w + x) by (nonlinear_arith)
                requires oi == oy * w + (w - 1), i == oi + 1, y == oy + 1, x == 0;
        } else {
            x += 1;
        }
    }
    out
}


/// Comparing a screenshot with itself finds no changed pixel.
pub proof fn lemma_identical_frames_unchanged(p: Seq<Rgba>, n: int)
    ensures
        changed_count(p, p, n) == 0,
        forall|i: int| !changed(p, p, i),
    decreases n,
{
    if n > 0 {
        lemma_identical_frames_unchanged(p, n - 1);
    }
}

/// Where nothing changed, the diff image shows the pixel at half brightness
/// with its opacity kept; where something changed it is opaque magenta.
pub proof fn lemma_diff_pixel_cases(before: Rgba, after: Rgba)
    ensures
        before == after ==> diff_pixel(before, after) == (Rgba { r: after.r / 2, g: after.g / 2, b: after.b / 2, a: after.a }),
        before != after ==> diff_pixel(before, after) == (Rgba { r: 255, g: 0, b: 255, a: 255 }),
{
}

} // verus!
