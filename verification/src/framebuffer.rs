//! A framebuffer with integrated color, depth and emissive planes.
//!
//! The single compositing rule of the renderer lives here: a pixel write is
//! accepted only when its depth is strictly smaller than the depth already
//! stored at that pixel, and the color and emissive planes change only in the
//! same accepted write. Out-of-bounds writes are silently dropped.
//!
//! Depths are 16.16 fixed-point scalars; [`DEPTH_FAR`] (the largest scalar)
//! plays the role of "infinitely far", the value every pixel starts at.

use vstd::prelude::*;
use vstd::pervasive::VecAdditionalExecFns;

verus! {

/// The depth every pixel holds before anything is drawn: farther than any
/// representable fragment, so the first in-bounds write at a smaller depth
/// is always accepted.
pub const DEPTH_FAR: i64 = 0x7fff_ffff_ffff_ffff;

/// The mathematical state of a framebuffer: three equally long pixel planes
/// plus the two active colors. All contracts on [`Framebuffer`] are stated
/// as transitions on this view.
pub ghost struct FbView {
    pub width: nat,
    pub height: nat,
    pub colors: Seq<u32>,
    pub depths: Seq<i64>,
    pub emissive: Seq<u32>,
    pub background: u32,
    pub current: u32,
}

impl FbView {
    /// The three planes cover exactly `width * height` pixels.
    pub open spec fn wf(self) -> bool {
        &&& self.colors.len() == self.width * self.height
        &&& self.depths.len() == self.width * self.height
        &&& self.emissive.len() == self.width * self.height
    }

    /// Linear index of pixel `(x, y)`, row-major.
    pub open spec fn idx(self, x: int, y: int) -> int {
        y * self.width + x
    }

    pub open spec fn in_bounds(self, x: int, y: int) -> bool {
        0 <= x < self.width && 0 <= y < self.height
    }

    /// Whether a write at depth `depth` to pixel `(x, y)` is accepted: the
    /// pixel exists and the new depth is strictly nearer than the stored one.
    pub open spec fn accepts(self, x: int, y: int, depth: i64) -> bool {
        self.in_bounds(x, y) && self.depths[self.idx(x, y)] > depth
    }

    /// The state after a depth-tested point write: on acceptance all three
    /// planes change together at one pixel (the color plane takes the
    /// current color); otherwise nothing changes.
    pub open spec fn write_point(self, x: int, y: int, depth: i64, emit: u32) -> FbView {
        if self.accepts(x, y, depth) {
            FbView {
                colors: self.colors.update(self.idx(x, y), self.current),
                depths: self.depths.update(self.idx(x, y), depth),
                emissive: self.emissive.update(self.idx(x, y), emit),
                ..self
            }
        } else {
            self
        }
    }

    /// The state after a clear: every pixel back to background color,
    /// far depth, and zero emission.
    pub open spec fn cleared(self) -> FbView {
        FbView {
            colors: Seq::new(self.colors.len(), |i: int| self.background),
            depths: Seq::new(self.depths.len(), |i: int| DEPTH_FAR),
            emissive: Seq::new(self.emissive.len(), |i: int| 0u32),
            ..self
        }
    }

    pub open spec fn with_current(self, color: u32) -> FbView {
        FbView { current: color, ..self }
    }

    pub open spec fn with_background(self, color: u32) -> FbView {
        FbView { background: color, ..self }
    }
}

/// A color/depth/emissive pixel store with depth-tested writes.
pub struct Framebuffer {
    pub width: usize,
    pub height: usize,
    pub buffer: Vec<u32>,
    pub zbuffer: Vec<i64>,
    pub emissive_buffer: Vec<u32>,
    pub background_color: u32,
    pub current_color: u32,
}

impl View for Framebuffer {
    type V = FbView;

    open spec fn view(&self) -> FbView {
        FbView {
            width: self.width as nat,
            height: self.height as nat,
            colors: self.buffer@,
            depths: self.zbuffer@,
            emissive: self.emissive_buffer@,
            background: self.background_color,
            current: self.current_color,
        }
    }
}

impl Framebuffer {
    /// Allocate a framebuffer of the given dimensions: black background,
    /// white current color, every pixel at background/far/zero.
    pub fn new(width: usize, height: usize) -> (r: Framebuffer)
        requires
            width * height <= usize::MAX,
        ensures
            r@.wf(),
            r@.width == width,
            r@.height == height,
            r@.background == 0x000000u32,
            r@.current == 0xFFFFFFu32,
            forall|i: int| 0 <= i < width * height ==> r@.colors[i] == 0x000000u32,
            forall|i: int| 0 <= i < width * height ==> r@.depths[i] == DEPTH_FAR,
            forall|i: int| 0 <= i < width * height ==> r@.emissive[i] == 0u32,
    {
        let n: usize = width * height;
        let buffer: Vec<u32> = vec![0u32; n];
        let zbuffer: Vec<i64> = vec![DEPTH_FAR; n];
        let emissive_buffer: Vec<u32> = vec![0u32; n];
        Framebuffer {
            width,
            height,
            buffer,
            zbuffer,
            emissive_buffer,
            background_color: 0x000000,
            current_color: 0xFFFFFF,
        }
    }

    /// Reset every pixel to the background color, the far depth, and zero
    /// emission, keeping dimensions and active colors.
    pub fn clear(&mut self)
        ensures
            final(self)@ == old(self)@.cleared(),
    {
        let ghost orig: FbView = self@;
        let bg = self.background_color;
        let mut i: usize = 0;
        let n = self.buffer.len();
        while i < n
            invariant
                n == orig.colors.len(),
                i <= n,
                self@.width == orig.width,
                self@.height == orig.height,
                self@.background == orig.background,
                self@.current == orig.current,
                self@.depths == orig.depths,
                self@.emissive == orig.emissive,
                bg == orig.background,
                self@.colors.len() == n,
                forall|k: int| 0 <= k < i ==> self@.colors[k] == orig.background,
                forall|k: int| i <= k < n ==> self@.colors[k] == orig.colors[k],
            decreases n - i,
        {
            self.buffer.set(i, bg);
            i = i + 1;
        }
        let mut j: usize = 0;
        let m = self.zbuffer.len();
        while j < m
            invariant
                m == orig.depths.len(),
                j <= m,
                self@.width == orig.width,
                self@.height == orig.height,
                self@.background == orig.background,
                self@.current == orig.current,
                self@.emissive == orig.emissive,
                self@.colors.len() == orig.colors.len(),
                forall|k: int| 0 <= k < orig.colors.len() ==> self@.colors[k] == orig.background,
                self@.depths.len() == m,
                forall|k: int| 0 <= k < j ==> self@.depths[k] == DEPTH_FAR,
                forall|k: int| j <= k < m ==> self@.depths[k] == orig.depths[k],
            decreases m - j,
        {
            self.zbuffer.set(j, DEPTH_FAR);
            j = j + 1;
        }
        let mut k: usize = 0;
        let p = self.emissive_buffer.len();
        while k < p
            invariant
                p == orig.emissive.len(),
                k <= p,
                self@.width == orig.width,
                self@.height == orig.height,
                self@.background == orig.background,
                self@.current == orig.current,
                self@.colors.len() == orig.colors.len(),
                forall|q: int| 0 <= q < orig.colors.len() ==> self@.colors[q] == orig.background,
                self@.depths.len() == orig.depths.len(),
                forall|q: int| 0 <= q < orig.depths.len() ==> self@.depths[q] == DEPTH_FAR,
                self@.emissive.len() == p,
                forall|q: int| 0 <= q < k ==> self@.emissive[q] == 0u32,
                forall|q: int| k <= q < p ==> self@.emissive[q] == orig.emissive[q],
            decreases p - k,
        {
            self.emissive_buffer.set(k, 0u32);
            k = k + 1;
        }
        proof {
            assert(self@.colors =~= orig.cleared().colors);
            assert(self@.depths =~= orig.cleared().depths);
            assert(self@.emissive =~= orig.cleared().emissive);
            assert(self@ == orig.cleared());
        }
    }

    /// Depth-tested point write: out-of-bounds coordinates are dropped, and
    /// an in-bounds write lands only if strictly nearer than what is stored.
    pub fn point(&mut self, x: usize, y: usize, depth: i64, emit: u32)
        requires
            old(self)@.wf(),
        ensures
            final(self)@ == old(self)@.write_point(x as int, y as int, depth, emit),
            final(self)@.wf(),
    {
        if x < self.width && y < self.height {
            proof {
                let v = old(self)@;
                assert(y * v.width + x < v.width * v.height) by (nonlinear_arith)
                    requires
                        0 <= x < v.width,
                        0 <= y < v.height,
                ;
                vstd::std_specs::vec::axiom_spec_len(&self.zbuffer);
                assert(v.depths.len() <= usize::MAX);
            }
            let index: usize = y * self.width + x;
            if self.zbuffer[index] > depth {
                let c = self.current_color;
                self.buffer.set(index, c);
                self.zbuffer.set(index, depth);
                self.emissive_buffer.set(index, emit);
            }
        }
    }

    /// Repaint future accepted writes' backdrop: the color `clear` fills with.
    pub fn set_background_color(&mut self, color: u32)
        ensures
            final(self)@ == old(self)@.with_background(color),
    {
        self.background_color = color;
    }

    /// Set the color that subsequent accepted point writes will store.
    pub fn set_current_color(&mut self, color: u32)
        ensures
            final(self)@ == old(self)@.with_current(color),
    {
        self.current_color = color;
    }

    /// Depth-tested write of one pixel given signed coordinates; negative or
    /// oversized coordinates fall outside the view's bounds and change
    /// nothing, exactly as `write_point` says.
    fn point_signed(&mut self, x: i64, y: i64, depth: i64)
        requires
            old(self)@.wf(),
            x < 0x4000_0000,
            y < 0x4000_0000,
        ensures
            final(self)@ == old(self)@.write_point(x as int, y as int, depth, 0u32),
            final(self)@.wf(),
    {
        if x >= 0 && y >= 0 {
            let xu: usize = x as usize;
            let yu: usize = y as usize;
            self.point(xu, yu, depth, 0);
        }
    }

    /// Rasterize the line from `(x0, y0)` to `(x1, y1)` with an integer
    /// error-accumulator walk, at one constant depth. Every covered pixel
    /// goes through the same strict depth test as `point`, with emission
    /// forced to zero; pixels off the framebuffer are dropped. Both
    /// endpoints are covered, so an in-bounds endpoint is left no farther
    /// than `depth`.
    pub fn line_with_depth(&mut self, x0: usize, y0: usize, x1: usize, y1: usize, depth: i64)
        requires
            old(self)@.wf(),
            x0 < 0x4000_0000,
            y0 < 0x4000_0000,
            x1 < 0x4000_0000,
            y1 < 0x4000_0000,
        ensures
            final(self)@.wf(),
            final(self)@.width == old(self)@.width,
            final(self)@.height == old(self)@.height,
            final(self)@.background == old(self)@.background,
            final(self)@.current == old(self)@.current,
            final(self)@.colors.len() == old(self)@.colors.len(),
            final(self)@.depths.len() == old(self)@.depths.len(),
            final(self)@.emissive.len() == old(self)@.emissive.len(),
            forall|i: int| 0 <= i < old(self)@.depths.len() ==> line_pixel_ok(old(self)@, final(self)@, i, depth),
            old(self)@.in_bounds(x0 as int, y0 as int)
                ==> final(self)@.depths[old(self)@.idx(x0 as int, y0 as int)] <= depth,
            old(self)@.in_bounds(x1 as int, y1 as int)
                ==> final(self)@.depths[old(self)@.idx(x1 as int, y1 as int)] <= depth,
            final(self)@ == fold_line_writes(
                old(self)@,
                bres_points(x0 as int, y0 as int, x1 as int, y1 as int),
                depth,
            ),
    {
        let ghost orig: FbView = self@;
        let mut x: i64 = x0 as i64;
        let mut y: i64 = y0 as i64;
        let x0i: i64 = x0 as i64;
        let y0i: i64 = y0 as i64;
        let x1i: i64 = x1 as i64;
        let y1i: i64 = y1 as i64;
        let dx: i64 = if x1i >= x0i { x1i - x0i } else { x0i - x1i };
        let dy: i64 = if y1i >= y0i { y1i - y0i } else { y0i - y1i };
        let sx: i64 = if x0i < x1i { 1 } else { -1 };
        let sy: i64 = if y0i < y1i { 1 } else { -1 };
        let mut err: i64 = dx - dy;
        let ghost mut a: int = 0;
        let ghost mut b: int = 0;
        let ghost mut fuel: nat = (dx + dy) as nat;
        proof {
            assert(bres_points(x0 as int, y0 as int, x1 as int, y1 as int) == bres_from(
                x0i as int, y0i as int, (dx - dy) as int, x1i as int, y1i as int,
                dx as int, dy as int, sx as int, sy as int, (dx + dy) as nat,
            ));
        }
        while !(x == x1i && y == y1i)
            invariant
                self@.wf(),
                self@.width == orig.width,
                self@.height == orig.height,
                self@.background == orig.background,
                self@.current == orig.current,
                self@.colors.len() == orig.colors.len(),
                self@.depths.len() == orig.depths.len(),
                self@.emissive.len() == orig.emissive.len(),
                forall|i: int| 0 <= i < orig.depths.len() ==> line_pixel_ok(orig, self@, i, depth),
                0 <= dx < 0x4000_0000,
                0 <= dy < 0x4000_0000,
                (sx == 1 && x1i == x0i + dx) || (sx == -1 && x1i == x0i - dx),
                (sy == 1 && y1i == y0i + dy) || (sy == -1 && y1i == y0i - dy),
                0 <= a <= dx,
                0 <= b <= dy,
                (sx == 1 && x == x0i + a) || (sx == -1 && x == x0i - a),
                (sy == 1 && y == y0i + b) || (sy == -1 && y == y0i - b),
                err == dx - dy + b * dx - a * dy,
                0 <= x0i < 0x4000_0000,
                0 <= y0i < 0x4000_0000,
                0 <= x1i < 0x4000_0000,
                0 <= y1i < 0x4000_0000,
                ((a != 0 || b != 0) && orig.in_bounds(x0i as int, y0i as int))
                    ==> self@.depths[orig.idx(x0i as int, y0i as int)] <= depth,
                fuel >= dx + dy - a - b,
                fold_line_writes(
                    self@,
                    bres_from(
                        x as int, y as int, err as int, x1i as int, y1i as int,
                        dx as int, dy as int, sx as int, sy as int, fuel,
                    ),
                    depth,
                ) == fold_line_writes(
                    orig,
                    bres_points(x0 as int, y0 as int, x1 as int, y1 as int),
                    depth,
                ),
            decreases dx + dy - a - b,
        {
            proof {
                assert(x == x1i <==> a == dx);
                assert(y == y1i <==> b == dy);
            }
            proof {
                if orig.in_bounds(x as int, y as int) {
                    assert(0 <= (y as int) * orig.width + x < orig.width * orig.height)
                        by (nonlinear_arith)
                        requires
                            0 <= x < orig.width,
                            0 <= y < orig.height,
                    ;
                }
                if orig.in_bounds(x0i as int, y0i as int) {
                    assert(0 <= (y0i as int) * orig.width + x0i < orig.width * orig.height)
                        by (nonlinear_arith)
                        requires
                            0 <= x0i < orig.width,
                            0 <= y0i < orig.height,
                    ;
                }
            }
            let ghost pre: FbView = self@;
            self.point_signed(x, y, depth);
            proof {
                assert forall|i: int| 0 <= i < orig.depths.len() implies line_pixel_ok(
                    orig,
                    self@,
                    i,
                    depth,
                ) by {
                    assert(line_pixel_ok(orig, pre, i, depth));
                    if pre.accepts(x as int, y as int, depth) {
                        let j = pre.idx(x as int, y as int);
                        assert(0 <= j < pre.depths.len());
                        if i == j {
                            assert(self@.depths[i] == depth);
                            assert(self@.colors[i] == pre.current);
                            assert(self@.emissive[i] == 0u32);
                        } else {
                            assert(self@.depths[i] == pre.depths[i]);
                            assert(self@.colors[i] == pre.colors[i]);
                            assert(self@.emissive[i] == pre.emissive[i]);
                        }
                    }
                }
                if orig.in_bounds(x0i as int, y0i as int) {
                    let j0 = orig.idx(x0i as int, y0i as int);
                    if pre.accepts(x as int, y as int, depth) {
                        let j = pre.idx(x as int, y as int);
                        if j == j0 {
                            assert(self@.depths[j0] == depth);
                        } else {
                            assert(self@.depths[j0] == pre.depths[j0]);
                        }
                    }
                    if x == x0i && y == y0i {
                        if !pre.accepts(x as int, y as int, depth) {
                            assert(pre.depths[j0] <= depth);
                        }
                        assert(self@.depths[j0] <= depth);
                    }
                }
            }
            let ghost a0 = a;
            let ghost b0 = b;
            let ghost err0 = err as int;
            let ghost gx = x as int;
            let ghost gy = y as int;
            proof {
                assert(-0x2000_0000_0000_0000 < err0 < 0x2000_0000_0000_0000) by (nonlinear_arith)
                    requires
                        err0 == dx - dy + b0 * dx - a0 * dy,
                        0 <= a0 <= dx < 0x4000_0000,
                        0 <= b0 <= dy < 0x4000_0000,
                ;
            }
            let e2: i64 = 2 * err;
            if e2 > -dy {
                proof {
                    if a0 == dx {
                        assert(b0 < dy);
                        assert(false) by (nonlinear_arith)
                            requires
                                err0 == dx - dy + b0 * dx - a0 * dy,
                                a0 == dx,
                                0 <= b0,
                                b0 <= dy - 1,
                                dx >= 0,
                                dy >= 1,
                                2 * err0 > -dy,
                        ;
                    }
                    assert(a0 < dx);
                    assert((a0 + 1) * dy == a0 * dy + dy) by (nonlinear_arith);
                    a = a + 1;
                }
                err = err - dy;
                x = x + sx;
            }
            if e2 < dx {
                proof {
                    if b0 == dy {
                        assert(a0 < dx);
                        assert(false) by (nonlinear_arith)
                            requires
                                err0 == dx - dy + b0 * dx - a0 * dy,
                                b0 == dy,
                                0 <= a0,
                                a0 <= dx - 1,
                                dx >= 1,
                                dy >= 0,
                                2 * err0 < dx,
                        ;
                    }
                    assert(b0 < dy);
                    assert((b0 + 1) * dx == b0 * dx + dx) by (nonlinear_arith);
                    b = b + 1;
                }
                err = err + dx;
                y = y + sy;
            }
            proof {
                if a == a0 && b == b0 {
                    assert(dx <= 2 * err0 && 2 * err0 <= -dy);
                    assert(dx == 0 && dy == 0);
                    assert(false);
                }
                assert(fuel >= 1);
                let whole = bres_from(
                    gx, gy, err0, x1i as int, y1i as int,
                    dx as int, dy as int, sx as int, sy as int, fuel,
                );
                let rest = bres_from(
                    x as int, y as int, err as int, x1i as int, y1i as int,
                    dx as int, dy as int, sx as int, sy as int, (fuel - 1) as nat,
                );
                assert((x as int, y as int, err as int) == bres_next(
                    gx, gy, err0, dx as int, dy as int, sx as int, sy as int,
                ));
                assert(whole == seq![(gx, gy)] + rest);
                assert(whole[0] == (gx, gy));
                assert(whole.subrange(1, whole.len() as int) =~= rest);
                assert(fold_line_writes(pre, whole, depth) == fold_line_writes(
                    pre.write_point(gx, gy, depth, 0u32),
                    rest,
                    depth,
                ));
                fuel = (fuel - 1) as nat;
            }
        }
        proof {
            if orig.in_bounds(x1i as int, y1i as int) {
                assert(0 <= (y1i as int) * orig.width + x1i < orig.width * orig.height)
                    by (nonlinear_arith)
                    requires
                        0 <= x1i < orig.width,
                        0 <= y1i < orig.height,
                ;
            }
            if orig.in_bounds(x0i as int, y0i as int) {
                assert(0 <= (y0i as int) * orig.width + x0i < orig.width * orig.height)
                    by (nonlinear_arith)
                    requires
                        0 <= x0i < orig.width,
                        0 <= y0i < orig.height,
                ;
            }
        }
        let ghost pre2: FbView = self@;
        self.point_signed(x, y, depth);
        proof {
            assert forall|i: int| 0 <= i < orig.depths.len() implies line_pixel_ok(
                orig,
                self@,
                i,
                depth,
            ) by {
                assert(line_pixel_ok(orig, pre2, i, depth));
                if pre2.accepts(x as int, y as int, depth) {
                    let j = pre2.idx(x as int, y as int);
                    assert(0 <= j < pre2.depths.len());
                    if i == j {
                        assert(self@.depths[i] == depth);
                    } else {
                        assert(self@.depths[i] == pre2.depths[i]);
                        assert(self@.colors[i] == pre2.colors[i]);
                        assert(self@.emissive[i] == pre2.emissive[i]);
                    }
                }
            }
            if orig.in_bounds(x1i as int, y1i as int) {
                let j1 = orig.idx(x1i as int, y1i as int);
                if pre2.accepts(x1i as int, y1i as int, depth) {
                    assert(self@.depths[j1] == depth);
                } else {
                    assert(pre2.depths[j1] <= depth);
                    assert(self@.depths[j1] <= depth);
                }
            }
            if orig.in_bounds(x0i as int, y0i as int) {
                let j0 = orig.idx(x0i as int, y0i as int);
                if x0i == x1i && y0i == y1i {
                    assert(self@.depths[j0] <= depth);
                } else {
                    assert(a == dx && b == dy);
                    assert(dx != 0 || dy != 0);
                    assert(pre2.depths[j0] <= depth);
                    if pre2.accepts(x as int, y as int, depth) {
                        let j = pre2.idx(x as int, y as int);
                        if j == j0 {
                            assert(self@.depths[j0] == depth);
                        } else {
                            assert(self@.depths[j0] == pre2.depths[j0]);
                        }
                    }
                    assert(self@.depths[j0] <= depth);
                }
            }
            let single = bres_from(
                x as int, y as int, err as int, x1i as int, y1i as int,
                dx as int, dy as int, sx as int, sy as int, fuel,
            );
            assert(single == seq![(x as int, y as int)]);
            assert(single.len() == 1);
            assert(single[0] == (x as int, y as int));
            let w = pre2.write_point(x as int, y as int, depth, 0u32);
            assert(single.subrange(1, single.len() as int) =~= Seq::<(int, int)>::empty());
            assert(fold_line_writes(w, Seq::<(int, int)>::empty(), depth) == w);
            assert(fold_line_writes(pre2, single, depth) == w);
        }
    }
}

/// One step of the integer error-accumulator line walk: double the error
/// term, and move one pixel toward the endpoint along each axis whose
/// threshold it passes.
pub open spec fn bres_next(
    x: int, y: int, err: int, dx: int, dy: int, sx: int, sy: int,
) -> (int, int, int) {
    let e2 = 2 * err;
    let x2 = if e2 > -dy { x + sx } else { x };
    let err2 = if e2 > -dy { err - dy } else { err };
    let y2 = if e2 < dx { y + sy } else { y };
    let err3 = if e2 < dx { err2 + dx } else { err2 };
    (x2, y2, err3)
}

/// The pixels the walk visits from `(x, y)` until it reaches `(x1, y1)`,
/// endpoint included. The fuel only bounds the recursion; the walk reaches
/// the endpoint within `dx + dy` steps.
pub open spec fn bres_from(
    x: int, y: int, err: int, x1: int, y1: int, dx: int, dy: int, sx: int, sy: int, fuel: nat,
) -> Seq<(int, int)>
    decreases fuel,
{
    if (x == x1 && y == y1) || fuel == 0 {
        seq![(x, y)]
    } else {
        let n = bres_next(x, y, err, dx, dy, sx, sy);
        seq![(x, y)] + bres_from(n.0, n.1, n.2, x1, y1, dx, dy, sx, sy, (fuel - 1) as nat)
    }
}

/// The pixel path of the line from `(x0, y0)` to `(x1, y1)`.
pub open spec fn bres_points(x0: int, y0: int, x1: int, y1: int) -> Seq<(int, int)> {
    let dx = if x1 >= x0 { x1 - x0 } else { x0 - x1 };
    let dy = if y1 >= y0 { y1 - y0 } else { y0 - y1 };
    let sx: int = if x0 < x1 { 1 } else { -1 };
    let sy: int = if y0 < y1 { 1 } else { -1 };
    bres_from(x0, y0, dx - dy, x1, y1, dx, dy, sx, sy, (dx + dy) as nat)
}

/// A sequence of depth-tested point writes at one constant depth with zero
/// emission, applied in order.
pub open spec fn fold_line_writes(fb: FbView, pts: Seq<(int, int)>, depth: i64) -> FbView
    decreases pts.len(),
{
    if pts.len() == 0 {
        fb
    } else {
        fold_line_writes(
            fb.write_point(pts[0].0, pts[0].1, depth, 0u32),
            pts.subrange(1, pts.len() as int),
            depth,
        )
    }
}

/// After a constant-depth line pass, each pixel is either untouched or holds
/// the line's depth, the color that was current throughout the pass, and
/// zero emission — and a touched pixel was strictly farther before.
pub open spec fn line_pixel_ok(orig: FbView, now: FbView, i: int, depth: i64) -> bool {
    ||| {
        &&& now.colors[i] == orig.colors[i]
        &&& now.depths[i] == orig.depths[i]
        &&& now.emissive[i] == orig.emissive[i]
    }
    ||| {
        &&& orig.depths[i] > depth
        &&& now.depths[i] == depth
        &&& now.colors[i] == orig.current
        &&& now.emissive[i] == 0u32
    }
}

/// The single source-of-truth ordering rule of the compositor: a point
/// write can only decrease a pixel's stored depth, and the color and
/// emissive planes change only at the one pixel whose depth decreases in
/// the same write — never independently of a passing depth test.
pub proof fn lemma_depth_only_decreases(fb: FbView, x: int, y: int, depth: i64, emit: u32)
    requires
        fb.wf(),
    ensures
        forall|i: int|
            0 <= i < fb.depths.len() ==> #[trigger] fb.write_point(x, y, depth, emit).depths[i]
                <= fb.depths[i],
        forall|i: int|
            0 <= i < fb.depths.len() && fb.write_point(x, y, depth, emit).depths[i]
                == fb.depths[i] ==> fb.write_point(x, y, depth, emit).colors[i] == fb.colors[i]
                && fb.write_point(x, y, depth, emit).emissive[i] == fb.emissive[i],
{
    if fb.in_bounds(x, y) {
        assert(0 <= y * fb.width + x < fb.width * fb.height) by (nonlinear_arith)
            requires
                0 <= x < fb.width,
                0 <= y < fb.height,
        ;
    }
}

/// An accepted depth-tested write leaves exactly the new depth and the color
/// that was current at call time at that pixel, and a second write at the
/// same pixel that is not strictly nearer changes nothing at all.
pub proof fn lemma_accepted_write_sticks(
    fb: FbView, x: int, y: int, depth: i64, emit: u32, depth2: i64, emit2: u32,
)
    requires
        fb.wf(),
        fb.accepts(x, y, depth),
        depth2 >= depth,
    ensures
        fb.write_point(x, y, depth, emit).depths[fb.idx(x, y)] == depth,
        fb.write_point(x, y, depth, emit).colors[fb.idx(x, y)] == fb.current,
        fb.write_point(x, y, depth, emit).emissive[fb.idx(x, y)] == emit,
        fb.write_point(x, y, depth, emit).write_point(x, y, depth2, emit2)
            == fb.write_point(x, y, depth, emit),
{
    let w = fb.write_point(x, y, depth, emit);
    assert(y * fb.width + x < fb.width * fb.height) by (nonlinear_arith)
        requires
            0 <= x < fb.width,
            0 <= y < fb.height,
    ;
    assert(0 <= y * fb.width) by (nonlinear_arith)
        requires
            0 <= y,
            0 <= fb.width,
    ;
    assert(!w.accepts(x, y, depth2));
}

/// Depth compositing commutes for writes at distinct depths: whichever of
/// two writes to the same pixel comes first, the nearer one determines the
/// final color, depth and emission of that pixel. Each write uses the
/// current color set just before it.
pub proof fn lemma_nearer_write_wins_either_order(
    fb: FbView, x: int, y: int, d1: i64, c1: u32, e1: u32, d2: i64, c2: u32, e2: u32,
)
    requires
        fb.wf(),
        d1 != d2,
    ensures
        ({
            let ab = fb.with_current(c1).write_point(x, y, d1, e1)
                .with_current(c2).write_point(x, y, d2, e2);
            let ba = fb.with_current(c2).write_point(x, y, d2, e2)
                .with_current(c1).write_point(x, y, d1, e1);
            &&& ab.colors == ba.colors
            &&& ab.depths == ba.depths
            &&& ab.emissive == ba.emissive
        }),
{
    if fb.in_bounds(x, y) {
        assert(0 <= y * fb.width + x < fb.width * fb.height) by (nonlinear_arith)
            requires
                0 <= x < fb.width,
                0 <= y < fb.height,
        ;
    }
    let ab = fb.with_current(c1).write_point(x, y, d1, e1)
        .with_current(c2).write_point(x, y, d2, e2);
    let ba = fb.with_current(c2).write_point(x, y, d2, e2)
        .with_current(c1).write_point(x, y, d1, e1);
    assert(ab.colors =~= ba.colors);
    assert(ab.depths =~= ba.depths);
    assert(ab.emissive =~= ba.emissive);
}

} // verus!
