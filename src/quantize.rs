use vstd::prelude::*;
use crate::pixel::{Pixel, PixelBuffer, OPAQUE};
use crate::metric::{Weighting, distance_spec, color_diff};

verus! {

/// The colour given to every pixel when the palette is empty.
pub open spec fn empty_palette_color() -> Pixel {
    Pixel { r: 0, g: 0, b: 0, a: OPAQUE }
}

/// The redmean distance from `p` to palette entry `k`.
pub open spec fn dist_to(p: Pixel, pal: Seq<Pixel>, k: int) -> int {
    distance_spec(p, pal[k], Weighting::Redmean)
}

/// Entry `k` is the first palette colour at the least distance from `p`.
pub open spec fn is_nearest(p: Pixel, pal: Seq<Pixel>, k: int) -> bool {
    &&& 0 <= k < pal.len()
    &&& forall|j: int| 0 <= j < pal.len() ==> #[trigger] dist_to(p, pal, j) >= dist_to(p, pal, k)
    &&& forall|j: int| 0 <= j < k ==> #[trigger] dist_to(p, pal, j) > dist_to(p, pal, k)
}

/// The colour that quantization gives `p`: the first nearest palette colour
/// made opaque, or opaque black when the palette is empty.
pub open spec fn quantized_pixel(p: Pixel, pal: Seq<Pixel>) -> Pixel {
    if pal.len() > 0 {
        pal[choose|k: int| is_nearest(p, pal, k)].opaque_spec()
    } else {
        empty_palette_color()
    }
}

/// `out` is `src` with every pixel quantized against `pal`.
pub open spec fn is_quantized(src: PixelBuffer, pal: Seq<Pixel>, out: PixelBuffer) -> bool {
    &&& out.width == src.width
    &&& out.height == src.height
    &&& out.pixels@.len() == src.pixels@.len()
    &&& forall|i: int|
        0 <= i < src.pixels@.len() ==> #[trigger] out.pixels@[i] == quantized_pixel(
            src.pixels@[i],
            pal,
        )
}

/// At most one palette entry is the first nearest one.
pub proof fn lemma_nearest_unique(p: Pixel, pal: Seq<Pixel>, k1: int, k2: int)
    requires
        is_nearest(p, pal, k1),
        is_nearest(p, pal, k2),
    ensures
        k1 == k2,
{
    if k1 < k2 {
        assert(dist_to(p, pal, k1) > dist_to(p, pal, k2));
    } else if k2 < k1 {
        assert(dist_to(p, pal, k2) > dist_to(p, pal, k1));
    }
}

/// Finds the first palette entry at the least distance from `p`, scanning in
/// palette order: a later entry replaces the best one only when it is
/// strictly closer. `None` only for an empty palette.
pub fn nearest_index(p: Pixel, pal: &Vec<Pixel>) -> (r: Option<usize>)
    ensures
        r is Some <==> pal@.len() > 0,
        r matches Some(k) ==> is_nearest(p, pal@, k as int),
{
    let mut best: i32 = 0;
    let mut found: Option<usize> = None;
    let mut i: usize = 0;
    while i < pal.len()
        invariant
            i <= pal@.len(),
            found is None <==> i == 0,
            found matches Some(k) ==> {
                &&& k < i
                &&& best == dist_to(p, pal@, k as int)
                &&& forall|j: int| 0 <= j < i ==> #[trigger] dist_to(p, pal@, j) >= best
                &&& forall|j: int| 0 <= j < k ==> #[trigger] dist_to(p, pal@, j) > best
            },
        decreases pal@.len() - i,
    {
        let d = color_diff(p, pal[i]);
        assert(d == dist_to(p, pal@, i as int));
        if found.is_none() || d < best {
            found = Some(i);
            best = d;
        }
        i = i + 1;
    }
    found
}

/// Quantizes one pixel: the first nearest palette colour, made opaque, or
/// opaque black when the palette is empty.
pub fn quantize_pixel(p: Pixel, pal: &Vec<Pixel>) -> (r: Pixel)
    ensures
        r == quantized_pixel(p, pal@),
{
    match nearest_index(p, pal) {
        Some(k) => {
            proof {
                lemma_nearest_unique(p, pal@, k as int, choose|j: int| is_nearest(p, pal@, j));
            }
            pal[k].opaque()
        },
        None => Pixel { r: 0, g: 0, b: 0, a: OPAQUE },
    }
}

/// Maps every pixel of `src` to its quantized colour against `pal`.
pub fn quantize(src: &PixelBuffer, pal: &Vec<Pixel>) -> (r: PixelBuffer)
    requires
        src.wf(),
    ensures
        r.wf(),
        is_quantized(*src, pal@, r),
{
    let mut out: Vec<Pixel> = Vec::new();
    let mut i: usize = 0;
    while i < src.pixels.len()
        invariant
            i <= src.pixels@.len(),
            out@.len() == i,
            forall|j: int|
                0 <= j < i ==> #[trigger] out@[j] == quantized_pixel(src.pixels@[j], pal@),
        decreases src.pixels@.len() - i,
    {
        let q = quantize_pixel(src.pixels[i], pal);
        out.push(q);
        i = i + 1;
    }
    PixelBuffer { width: src.width, height: src.height, pixels: out }
}

/// `q` is an opaque copy of some palette entry.
pub open spec fn is_palette_color(q: Pixel, pal: Seq<Pixel>) -> bool {
    q.a == OPAQUE && exists|k: int| 0 <= k < pal.len() && q == #[trigger] pal[k].opaque_spec()
}

/// `q` is an opaque copy of the first palette entry nearest to `p`.
pub open spec fn is_nearest_color(q: Pixel, p: Pixel, pal: Seq<Pixel>) -> bool {
    exists|k: int| #[trigger] is_nearest(p, pal, k) && q == pal[k].opaque_spec()
}

/// With a non-empty palette, each quantized pixel is an opaque copy of a
/// palette entry, and no palette entry is closer to the source pixel.
pub proof fn lemma_quantized_colors_in_palette(
    src: PixelBuffer,
    pal: Seq<Pixel>,
    out: PixelBuffer,
)
    requires
        is_quantized(src, pal, out),
        pal.len() > 0,
    ensures
        forall|i: int| 0 <= i < out.pixels@.len() ==> is_palette_color(#[trigger] out.pixels@[i], pal),
        forall|i: int|
            0 <= i < out.pixels@.len() ==> is_nearest_color(#[trigger] out.pixels@[i], src.pixels@[i], pal),
{
    assert forall|i: int| 0 <= i < out.pixels@.len() implies is_palette_color(
        #[trigger] out.pixels@[i],
        pal,
    ) && is_nearest_color(out.pixels@[i], src.pixels@[i], pal) by {
        let p = src.pixels@[i];
        lemma_nearest_exists(p, pal);
        let k = choose|k: int| is_nearest(p, pal, k);
        assert(out.pixels@[i] == pal[k].opaque_spec());
    }
}

/// With a one-colour palette, every quantized pixel is that colour, opaque.
pub proof fn lemma_single_color_palette(src: PixelBuffer, c: Pixel, out: PixelBuffer)
    requires
        is_quantized(src, seq![c], out),
    ensures
        forall|i: int| 0 <= i < out.pixels@.len() ==> #[trigger] out.pixels@[i] == c.opaque_spec(),
{
    let pal = seq![c];
    assert forall|i: int| 0 <= i < out.pixels@.len() implies #[trigger] out.pixels@[i]
        == c.opaque_spec() by {
        let p = src.pixels@[i];
        assert(pal[0] == c);
        assert(is_nearest(p, pal, 0));
        lemma_nearest_unique(p, pal, 0, choose|k: int| is_nearest(p, pal, k));
    }
}

/// Every quantized pixel is opaque.
pub proof fn lemma_quantized_opaque(p: Pixel, pal: Seq<Pixel>)
    ensures
        quantized_pixel(p, pal).a == OPAQUE,
{
}

/// A non-empty palette has a first nearest entry for every pixel.
pub proof fn lemma_nearest_exists(p: Pixel, pal: Seq<Pixel>)
    requires
        pal.len() > 0,
    ensures
        exists|k: int| is_nearest(p, pal, k),
{
    let len = pal.len() as int;
    lemma_first_minimum(p, pal, len);
    let k = choose|k: int| #[trigger] is_first_minimum(p, pal, len, k);
    assert(is_nearest(p, pal, k));
}

/// Entry `k` is the first among the first `n` entries at their least
/// distance from `p`.
pub open spec fn is_first_minimum(p: Pixel, pal: Seq<Pixel>, n: int, k: int) -> bool {
    &&& 0 <= k < n
    &&& forall|j: int| 0 <= j < n ==> #[trigger] dist_to(p, pal, j) >= dist_to(p, pal, k)
    &&& forall|j: int| 0 <= j < k ==> #[trigger] dist_to(p, pal, j) > dist_to(p, pal, k)
}

/// Any non-empty prefix of the palette has a first entry at least distance.
proof fn lemma_first_minimum(p: Pixel, pal: Seq<Pixel>, n: int)
    requires
        1 <= n <= pal.len(),
    ensures
        exists|k: int| is_first_minimum(p, pal, n, k),
    decreases n,
{
    if n == 1 {
        assert(is_first_minimum(p, pal, 1, 0));
    } else {
        let m = n - 1;
        lemma_first_minimum(p, pal, m);
        let k = choose|k: int| #[trigger] is_first_minimum(p, pal, m, k);
        if dist_to(p, pal, n - 1) < dist_to(p, pal, k) {
            assert(is_first_minimum(p, pal, n, n - 1));
        } else {
            assert(is_first_minimum(p, pal, n, k));
        }
    }
}

} // verus!
