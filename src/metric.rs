use vstd::prelude::*;
use crate::pixel::Pixel;

verus! {

/// How the channel differences of two colours are weighted.
#[derive(Clone, Copy, Debug, PartialEq, Eq, Structural)]
pub enum Weighting {
    /// Red 3, green 6, blue 1.
    Fixed,
    /// Weights that follow the mean red level of the two colours.
    Redmean,
}

/// `s` is the square root of `n` rounded down.
pub open spec fn is_floor_sqrt(n: int, s: int) -> bool {
    0 <= s && s * s <= n && n < (s + 1) * (s + 1)
}

/// The square root of a non-negative `n`, rounded down.
pub open spec fn floor_sqrt(n: int) -> int {
    choose|s: int| is_floor_sqrt(n, s)
}

/// The weighted sum of squared channel differences; alpha takes no part.
pub open spec fn weighted_square(c1: Pixel, c2: Pixel, w: Weighting) -> int {
    let dr = c1.r as int - c2.r as int;
    let dg = c1.g as int - c2.g as int;
    let db = c1.b as int - c2.b as int;
    match w {
        Weighting::Fixed => 3 * dr * dr + 6 * dg * dg + db * db,
        Weighting::Redmean => {
            let r_mean = (c1.r as int + c2.r as int) / 2;
            (2 + r_mean / 256) * dr * dr + 4 * dg * dg + (2 + (255 - r_mean) / 256) * db * db
        },
    }
}

/// The distance between two colours: the square root of their weighted
/// squared difference, rounded down.
pub open spec fn distance_spec(c1: Pixel, c2: Pixel, w: Weighting) -> int {
    floor_sqrt(weighted_square(c1, c2, w))
}

/// The rounded-down square root is unique.
pub proof fn lemma_floor_sqrt_unique(n: int, s: int)
    requires
        is_floor_sqrt(n, s),
    ensures
        floor_sqrt(n) == s,
{
    let t = floor_sqrt(n);
    assert(is_floor_sqrt(n, t));
    if t < s {
        assert((t + 1) * (t + 1) <= s * s) by (nonlinear_arith)
            requires
                0 <= t < s,
        ;
    } else if s < t {
        assert((s + 1) * (s + 1) <= t * t) by (nonlinear_arith)
            requires
                0 <= s < t,
        ;
    }
}

/// Returns the square root of `n`, rounded down.
pub fn floor_sqrt_u32(n: u32) -> (s: u32)
    requires
        n < 1024 * 1024,
    ensures
        s == floor_sqrt(n as int),
        s < 1024,
{
    let mut lo: u32 = 0;
    let mut hi: u32 = 1024;
    while lo + 1 < hi
        invariant
            lo < hi <= 1024,
            lo * lo <= n,
            n < hi * hi,
        decreases hi - lo,
    {
        let mid: u32 = lo + (hi - lo) / 2;
        assert(mid * mid <= 1024 * 1024) by (nonlinear_arith)
            requires
                mid < 1024,
        ;
        if mid * mid <= n {
            lo = mid;
        } else {
            hi = mid;
        }
    }
    proof {
        assert(is_floor_sqrt(n as int, lo as int));
        lemma_floor_sqrt_unique(n as int, lo as int);
    }
    lo
}

/// The weighted squared difference stays below 2^20.
proof fn lemma_weighted_square_bounds(c1: Pixel, c2: Pixel, w: Weighting)
    ensures
        0 <= weighted_square(c1, c2, w) <= 650250,
{
    let dr = c1.r as int - c2.r as int;
    let dg = c1.g as int - c2.g as int;
    let db = c1.b as int - c2.b as int;
    assert(0 <= dr * dr <= 65025) by (nonlinear_arith)
        requires
            -255 <= dr <= 255,
    ;
    assert(0 <= dg * dg <= 65025) by (nonlinear_arith)
        requires
            -255 <= dg <= 255,
    ;
    assert(0 <= db * db <= 65025) by (nonlinear_arith)
        requires
            -255 <= db <= 255,
    ;
    let r_mean = (c1.r as int + c2.r as int) / 2;
    assert(r_mean / 256 == 0 && (255 - r_mean) / 256 == 0);
    assert(3 * dr * dr == 3 * (dr * dr)) by (nonlinear_arith);
    assert(6 * dg * dg == 6 * (dg * dg)) by (nonlinear_arith);
    assert(4 * dg * dg == 4 * (dg * dg)) by (nonlinear_arith);
    assert(2 * dr * dr == 2 * (dr * dr)) by (nonlinear_arith);
    assert(2 * db * db == 2 * (db * db)) by (nonlinear_arith);
}

/// The distance between two colours under the given weighting, rounded down
/// to an integer. Alpha is ignored.
pub fn distance(c1: Pixel, c2: Pixel, w: Weighting) -> (d: i32)
    ensures
        d == distance_spec(c1, c2, w),
        0 <= d < 1024,
{
    proof {
        lemma_weighted_square_bounds(c1, c2, w);
    }
    let r: i32 = c1.r as i32 - c2.r as i32;
    let g: i32 = c1.g as i32 - c2.g as i32;
    let b: i32 = c1.b as i32 - c2.b as i32;
    assert(0 <= r * r <= 65025) by (nonlinear_arith)
        requires
            -255 <= r <= 255,
    ;
    assert(0 <= g * g <= 65025) by (nonlinear_arith)
        requires
            -255 <= g <= 255,
    ;
    assert(0 <= b * b <= 65025) by (nonlinear_arith)
        requires
            -255 <= b <= 255,
    ;
    let (weight_r, weight_g, weight_b): (i32, i32, i32) = match w {
        Weighting::Fixed => (3, 6, 1),
        Weighting::Redmean => {
            let r_mean: i32 = (c1.r as i32 + c2.r as i32) / 2;
            (2 + r_mean / 256, 4, 2 + (255 - r_mean) / 256)
        },
    };
    assert(1 <= weight_r <= 3 && 4 <= weight_g <= 6 && 1 <= weight_b <= 2);
    assert(0 <= weight_r * (r * r) <= 3 * 65025) by (nonlinear_arith)
        requires
            1 <= weight_r <= 3,
            0 <= r * r <= 65025,
    ;
    assert(0 <= weight_g * (g * g) <= 6 * 65025) by (nonlinear_arith)
        requires
            4 <= weight_g <= 6,
            0 <= g * g <= 65025,
    ;
    assert(0 <= weight_b * (b * b) <= 2 * 65025) by (nonlinear_arith)
        requires
            1 <= weight_b <= 2,
            0 <= b * b <= 65025,
    ;
    let sum: i32 = weight_r * (r * r) + weight_g * (g * g) + weight_b * (b * b);
    assert(sum == weighted_square(c1, c2, w)) by (nonlinear_arith)
        requires
            sum == weight_r * (r * r) + weight_g * (g * g) + weight_b * (b * b),
            w == Weighting::Fixed ==> weight_r == 3 && weight_g == 6 && weight_b == 1,
            w == Weighting::Redmean ==> weight_r == 2 + ((c1.r as int + c2.r as int) / 2) / 256
                && weight_g == 4 && weight_b == 2 + (255 - (c1.r as int + c2.r as int) / 2) / 256,
            r == c1.r as int - c2.r as int,
            g == c1.g as int - c2.g as int,
            b == c1.b as int - c2.b as int,
    ;
    floor_sqrt_u32(sum as u32) as i32
}

/// The redmean distance between two colours, rounded down to an integer.
pub fn color_diff(c1: Pixel, c2: Pixel) -> (d: i32)
    ensures
        d == distance_spec(c1, c2, Weighting::Redmean),
        0 <= d < 1024,
{
    distance(c1, c2, Weighting::Redmean)
}

/// Every non-negative integer has a rounded-down square root.
proof fn lemma_floor_sqrt_exists(n: int)
    requires
        0 <= n,
    ensures
        is_floor_sqrt(n, floor_sqrt(n)),
    decreases n,
{
    if n == 0 {
        assert(is_floor_sqrt(0, 0));
    } else {
        lemma_floor_sqrt_exists(n - 1);
        let s = floor_sqrt(n - 1);
        if n < (s + 1) * (s + 1) {
            assert(is_floor_sqrt(n, s));
        } else {
            assert((s + 1) * (s + 1) == n);
            assert(n < (s + 2) * (s + 2)) by (nonlinear_arith)
                requires
                    (s + 1) * (s + 1) == n,
                    0 <= s,
            ;
            assert(is_floor_sqrt(n, s + 1));
        }
    }
}

/// The distance is symmetric, and it is zero exactly when red, green and
/// blue agree.
pub proof fn lemma_distance_symmetric_and_zero(c1: Pixel, c2: Pixel, w: Weighting)
    ensures
        distance_spec(c1, c2, w) == distance_spec(c2, c1, w),
        distance_spec(c1, c1, w) == 0,
        distance_spec(c1, c2, w) == 0 <==> c1.same_color(c2),
{
    let dr = c1.r as int - c2.r as int;
    let dg = c1.g as int - c2.g as int;
    let db = c1.b as int - c2.b as int;
    let m = (c1.r as int + c2.r as int) / 2;
    assert(m == (c2.r as int + c1.r as int) / 2);
    assert(weighted_square(c1, c2, w) == weighted_square(c2, c1, w)) by (nonlinear_arith)
        requires
            dr == c1.r as int - c2.r as int,
            dg == c1.g as int - c2.g as int,
            db == c1.b as int - c2.b as int,
            m == (c1.r as int + c2.r as int) / 2,
            m == (c2.r as int + c1.r as int) / 2,
            w == Weighting::Fixed ==> weighted_square(c1, c2, w) == 3 * dr * dr + 6 * dg * dg
                + db * db && weighted_square(c2, c1, w) == 3 * (-dr) * (-dr) + 6 * (-dg) * (-dg)
                + (-db) * (-db),
            w == Weighting::Redmean ==> weighted_square(c1, c2, w) == (2 + m / 256) * dr * dr + 4
                * dg * dg + (2 + (255 - m) / 256) * db * db && weighted_square(c2, c1, w) == (2
                + m / 256) * (-dr) * (-dr) + 4 * (-dg) * (-dg) + (2 + (255 - m) / 256) * (-db) * (
            -db),
            w == Weighting::Fixed || w == Weighting::Redmean,
    ;
    assert(is_floor_sqrt(0, 0));
    lemma_floor_sqrt_unique(0, 0);
    assert(weighted_square(c1, c1, w) == 0);
    let n = weighted_square(c1, c2, w);
    lemma_weighted_square_bounds(c1, c2, w);
    if c1.same_color(c2) {
        assert(n == 0);
        assert(distance_spec(c1, c2, w) == 0);
    } else {
        assert(m / 256 == 0 && (255 - m) / 256 == 0);
        assert(n >= 1) by (nonlinear_arith)
            requires
                dr != 0 || dg != 0 || db != 0,
                w == Weighting::Fixed ==> n == 3 * dr * dr + 6 * dg * dg + db * db,
                w == Weighting::Redmean ==> n == (2 + m / 256) * dr * dr + 4 * dg * dg + (2 + (255
                    - m) / 256) * db * db,
                w == Weighting::Fixed || w == Weighting::Redmean,
                m / 256 == 0,
                (255 - m) / 256 == 0,
        ;
        lemma_floor_sqrt_exists(n);
        let s = floor_sqrt(n);
        assert(s != 0) by {
            if s == 0 {
                assert((s + 1) * (s + 1) == 1) by (nonlinear_arith)
                    requires
                        s == 0,
                ;
            }
        }
    }
}

} // verus!
