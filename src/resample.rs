use vstd::prelude::*;
use vstd::arithmetic::div_mod::{lemma_fundamental_div_mod, lemma_div_multiples_vanish};
use crate::pixel::{Pixel, PixelBuffer, lemma_area_fits_u64};

verus! {

/// The source coordinate that nearest-neighbour sampling reads for target
/// coordinate `x`, when a line of `from` pixels is resized to `to` pixels.
pub open spec fn sample_coord(x: int, from: int, to: int) -> int {
    x * from / to
}

/// The pixel that nearest-neighbour resizing of `src` to `nw` by `nh` puts at
/// column `x` and row `y`.
pub open spec fn sampled(src: PixelBuffer, nw: int, nh: int, x: int, y: int) -> Pixel {
    src.at(sample_coord(x, src.width as int, nw), sample_coord(y, src.height as int, nh))
}

/// `dst` is `src` resized by nearest-neighbour sampling to its own dimensions.
pub open spec fn is_resized(src: PixelBuffer, dst: PixelBuffer) -> bool {
    &&& dst.wf()
    &&& forall|x: int, y: int|
        0 <= x < dst.width && 0 <= y < dst.height ==> #[trigger] dst.at(x, y) == sampled(
            src,
            dst.width as int,
            dst.height as int,
            x,
            y,
        )
}

/// A target coordinate maps to a coordinate inside the source line.
pub proof fn lemma_sample_coord_in_range(x: int, from: int, to: int)
    requires
        0 <= x < to,
        0 < from,
    ensures
        0 <= sample_coord(x, from, to) < from,
{
    assert(0 <= x * from) by (nonlinear_arith)
        requires
            0 <= x,
            0 < from,
    ;
    assert(x * from < to * from) by (nonlinear_arith)
        requires
            0 <= x < to,
            0 < from,
    ;
    assert(x * from / to < from) by (nonlinear_arith)
        requires
            x * from < to * from,
            0 < to,
            0 <= x * from,
    ;
    assert(0 <= x * from / to) by (nonlinear_arith)
        requires
            0 <= x * from,
            0 < to,
    ;
}

/// Cell `(x, y)` of a grid `w` pixels wide lies before row `h` when `y < h`.
pub proof fn lemma_cell_index(x: int, y: int, w: int, h: int)
    requires
        0 <= x < w,
        0 <= y < h,
    ensures
        0 <= y * w + x < h * w,
        y * w + x < (y + 1) * w,
{
    assert(0 <= y * w) by (nonlinear_arith)
        requires
            0 <= y,
            0 <= w,
    ;
    assert((y + 1) * w <= h * w) by (nonlinear_arith)
        requires
            y + 1 <= h,
            0 <= w,
    ;
    assert((y + 1) * w == y * w + w) by (nonlinear_arith);
}

/// Resizes `src` to `nw` by `nh` pixels: target pixel `(x, y)` is source pixel
/// `(x * width / nw, y * height / nh)`, without interpolation.
pub fn resize(src: &PixelBuffer, nw: u32, nh: u32) -> (r: PixelBuffer)
    requires
        src.wf(),
        nw as int * nh as int <= usize::MAX,
        nw > 0 && nh > 0 ==> src.width > 0 && src.height > 0,
    ensures
        r.width == nw,
        r.height == nh,
        is_resized(*src, r),
{
    let ghost w = src.width as int;
    let ghost h = src.height as int;
    let mut out: Vec<Pixel> = Vec::new();
    let mut y: u32 = 0;
    while y < nh
        invariant
            src.wf(),
            w == src.width,
            h == src.height,
            nw as int * nh as int <= usize::MAX,
            nw > 0 && nh > 0 ==> w > 0 && h > 0,
            y <= nh,
            out@.len() == y as int * nw as int,
            forall|xx: int, yy: int|
                0 <= xx < nw && 0 <= yy < y ==> #[trigger] out@[yy * nw + xx] == sampled(
                    *src,
                    nw as int,
                    nh as int,
                    xx,
                    yy,
                ),
        decreases nh - y,
    {
        let mut x: u32 = 0;
        while x < nw
            invariant
                src.wf(),
                w == src.width,
                h == src.height,
                nw > 0 && nh > 0 ==> w > 0 && h > 0,
                y < nh,
                x <= nw,
                out@.len() == y as int * nw as int + x,
                forall|xx: int, yy: int|
                    0 <= xx < nw && 0 <= yy < y ==> #[trigger] out@[yy * nw + xx] == sampled(
                        *src,
                        nw as int,
                        nh as int,
                        xx,
                        yy,
                    ),
                forall|xx: int|
                    0 <= xx < x ==> #[trigger] out@[y * nw + xx] == sampled(
                        *src,
                        nw as int,
                        nh as int,
                        xx,
                        y as int,
                    ),
            decreases nw - x,
        {
            proof {
                lemma_sample_coord_in_range(x as int, w, nw as int);
                lemma_sample_coord_in_range(y as int, h, nh as int);
                lemma_area_fits_u64(x, src.width);
                lemma_area_fits_u64(y, src.height);
            }
            let sx: u64 = x as u64 * src.width as u64 / nw as u64;
            let sy: u64 = y as u64 * src.height as u64 / nh as u64;
            proof {
                lemma_cell_index(sx as int, sy as int, w, h);
                assert(h * w == w * h) by (nonlinear_arith);
                lemma_area_fits_u64(sy as u32, src.width);
                assert(sy * src.width + sx < src.pixels@.len());
                assert(sx == sample_coord(x as int, w, nw as int));
                assert(sy == sample_coord(y as int, h, nh as int));
            }
            let row: u64 = sy * src.width as u64;
            let len: usize = src.pixels.len();
            assert(row + sx < len);
            let idx: usize = (row + sx) as usize;
            let p = src.pixels[idx];
            let ghost before = out@;
            out.push(p);
            proof {
                assert(p == src.at(sx as int, sy as int));
                assert(out@[y * nw + x] == sampled(*src, nw as int, nh as int, x as int, y as int));
                assert forall|xx: int, yy: int|
                    0 <= xx < nw && 0 <= yy < y implies #[trigger] out@[yy * nw + xx]
                    == sampled(*src, nw as int, nh as int, xx, yy) by {
                    lemma_cell_index(xx, yy, nw as int, y as int);
                    assert(out@[yy * nw + xx] == before[yy * nw + xx]);
                }
                assert forall|xx: int| 0 <= xx < x + 1 implies #[trigger] out@[y * nw + xx]
                    == sampled(*src, nw as int, nh as int, xx, y as int) by {
                    if xx < x {
                        assert(out@[y * nw + xx] == before[y * nw + xx]);
                    }
                }
            }
            x = x + 1;
        }
        proof {
            assert((y + 1) as int * nw as int == y as int * nw as int + nw) by (nonlinear_arith);
            assert forall|xx: int, yy: int|
                0 <= xx < nw && 0 <= yy < y + 1 implies #[trigger] out@[yy * nw + xx]
                == sampled(*src, nw as int, nh as int, xx, yy) by {
                if yy == y {
                    assert(out@[y * nw + xx] == sampled(*src, nw as int, nh as int, xx, y as int));
                }
            }
        }
        y = y + 1;
    }
    let r = PixelBuffer { width: nw, height: nh, pixels: out };
    proof {
        assert(r.wf()) by (nonlinear_arith)
            requires
                r.pixels@.len() == y as int * nw as int,
                y == nh,
                r.width == nw,
                r.height == nh,
        ;
        assert forall|x: int, y2: int|
            0 <= x < r.width && 0 <= y2 < r.height implies #[trigger] r.at(x, y2) == sampled(
            *src,
            r.width as int,
            r.height as int,
            x,
            y2,
        ) by {
            assert(r.at(x, y2) == out@[y2 * nw + x]);
        }
    }
    r
}

/// Shrinks `src` by `factor`: the result is `width / factor` by
/// `height / factor` (rounded down), sampled by nearest neighbour.
pub fn downscale(src: &PixelBuffer, factor: u32) -> (r: PixelBuffer)
    requires
        src.wf(),
        factor >= 1,
    ensures
        r.width == src.width / factor,
        r.height == src.height / factor,
        is_resized(*src, r),
{
    let nw: u32 = src.width / factor;
    let nh: u32 = src.height / factor;
    let len: usize = src.pixels.len();
    assert(nw as int * nh as int <= src.width as int * src.height as int) by (nonlinear_arith)
        requires
            nw <= src.width,
            nh <= src.height,
    ;
    resize(src, nw, nh)
}

/// Magnifies `src` by `factor`: the result is `width * factor` by
/// `height * factor`, each source pixel becoming a `factor` by `factor` block.
pub fn upscale(src: &PixelBuffer, factor: u32) -> (r: PixelBuffer)
    requires
        src.wf(),
        factor >= 1,
        src.width as int * factor <= u32::MAX,
        src.height as int * factor <= u32::MAX,
        (src.width as int * factor) * (src.height as int * factor) <= usize::MAX,
    ensures
        r.width == src.width * factor,
        r.height == src.height * factor,
        is_resized(*src, r),
{
    let nw: u32 = src.width * factor;
    let nh: u32 = src.height * factor;
    assert(nw > 0 ==> src.width > 0) by (nonlinear_arith)
        requires
            nw == src.width * factor,
    ;
    assert(nh > 0 ==> src.height > 0) by (nonlinear_arith)
        requires
            nh == src.height * factor,
    ;
    resize(src, nw, nh)
}

/// Shrinking and then magnifying by a factor that divides both sides gives
/// back the original width and height.
pub proof fn lemma_round_trip_dimensions(b: PixelBuffer, k: u32)
    requires
        b.wf(),
        k >= 1,
        b.width % k == 0,
        b.height % k == 0,
    ensures
        (b.width / k) * k == b.width,
        (b.height / k) * k == b.height,
{
    lemma_fundamental_div_mod(b.width as int, k as int);
    lemma_fundamental_div_mod(b.height as int, k as int);
}

/// Resizing to the same width and height copies every pixel.
pub proof fn lemma_same_size_is_copy(src: PixelBuffer, dst: PixelBuffer)
    requires
        src.wf(),
        is_resized(src, dst),
        dst.width == src.width,
        dst.height == src.height,
    ensures
        dst.pixels@ == src.pixels@,
{
    let w = src.width as int;
    let h = src.height as int;
    assert forall|i: int| 0 <= i < src.pixels@.len() implies dst.pixels@[i] == src.pixels@[i] by {
        lemma_fundamental_div_mod(i, w);
        let x = i % w;
        let y = i / w;
        assert(0 <= x < w);
        assert(0 <= y < h) by (nonlinear_arith)
            requires
                i == w * y + x,
                0 <= x < w,
                0 <= i < w * h,
        ;
        lemma_div_multiples_vanish(x, w);
        lemma_div_multiples_vanish(y, h);
        assert(x * w == w * x) by (nonlinear_arith);
        assert(y * h == h * y) by (nonlinear_arith);
        assert(y * w == w * y) by (nonlinear_arith);
        assert(dst.at(x, y) == sampled(src, w, h, x, y));
    }
    assert(dst.pixels@ =~= src.pixels@);
}

} // verus!
