//! The physical geometry calculator: from a monitor's pixel resolution and
//! diagonal size to its physical width and height and its pixel density.
//!
//! Physical lengths are fixed-point integers in milli-inches (1/1000 inch);
//! pixel densities are in milli-pixels-per-inch. The derivation treats the
//! diagonal as the hypotenuse of a right triangle whose legs are proportional
//! to the pixel counts: with `s = isqrt((w² + h²)·10⁶)` milli-pixels along
//! the diagonal, the physical height is `d·h·1000/s` and the physical width
//! is `d·w·1000/s`. Taking the root in milli-pixels keeps its rounding three
//! decimal digits below a pixel, so the derived values are accurate at the
//! granularity they are reported in.

use vstd::prelude::*;

verus! {

/// The squared length, in pixels, of the diagonal of a `w × h` pixel grid.
pub open spec fn pixel_diag_sq(w: int, h: int) -> int {
    w * w + h * h
}

/// The integer square root (rounded down) of a natural number.
pub open spec fn sqrt_floor(n: nat) -> nat
    decreases n,
{
    if n == 0 {
        0
    } else {
        let r = sqrt_floor((n - 1) as nat);
        if (r + 1) * (r + 1) <= n {
            r + 1
        } else {
            r
        }
    }
}

/// `sqrt_floor(n)` is the unique natural number whose square is at most `n`
/// while the next square is beyond `n`.
pub proof fn lemma_sqrt_floor_bounds(n: nat)
    ensures
        sqrt_floor(n) * sqrt_floor(n) <= n,
        n < (sqrt_floor(n) + 1) * (sqrt_floor(n) + 1),
    decreases n,
{
    if n == 0 {
        assert(sqrt_floor(n) == 0);
        assert(sqrt_floor(n) * sqrt_floor(n) <= n && n < (sqrt_floor(n) + 1) * (sqrt_floor(n)
            + 1)) by (nonlinear_arith)
            requires n == 0nat && sqrt_floor(n) == 0nat;
    } else {
        let m = (n - 1) as nat;
        lemma_sqrt_floor_bounds(m);
        let r = sqrt_floor(m);
        if (r + 1) * (r + 1) <= n {
            assert(sqrt_floor(n) == r + 1);
            assert(n == (r + 1) * (r + 1));
            assert((r + 1) * (r + 1) < (r + 2) * (r + 2)) by (nonlinear_arith);
        } else {
            assert(sqrt_floor(n) == r);
        }
    }
}

/// Any `r` whose square is at most `n` while `(r+1)²` exceeds `n` is
/// `sqrt_floor(n)`.
pub proof fn lemma_sqrt_floor_unique(n: nat, r: nat)
    requires
        r * r <= n,
        n < (r + 1) * (r + 1),
    ensures
        r == sqrt_floor(n),
{
    lemma_sqrt_floor_bounds(n);
    let s = sqrt_floor(n);
    if r < s {
        assert((r + 1) * (r + 1) <= s * s) by (nonlinear_arith)
            requires r + 1 <= s;
        assert(false);
    }
    if s < r {
        assert((s + 1) * (s + 1) <= r * r) by (nonlinear_arith)
            requires s + 1 <= r;
        assert(false);
    }
}

/// Integer square root by binary search, for inputs below `2^86`.
fn isqrt_wide(sq: u128) -> (r: u64)
    requires
        sq < 0x4000000000000000000000,
    ensures
        r == sqrt_floor(sq as nat),
{
    let mut lo: u64 = 0;
    let mut hi: u64 = 0x80000000000;
    while hi - lo > 1
        invariant
            lo < hi <= 0x80000000000,
            lo * lo <= sq,
            sq < hi * hi,
        decreases hi - lo,
    {
        let mid = lo + (hi - lo) / 2;
        assert(mid < 0x80000000000 && lo < mid < hi);
        assert((mid as int) * (mid as int) < 0x4000000000000000000000) by (nonlinear_arith)
            requires mid < 0x80000000000int;
        if (mid as u128) * (mid as u128) <= sq {
            lo = mid;
        } else {
            hi = mid;
        }
    }
    proof {
        lemma_sqrt_floor_unique(sq as nat, lo as nat);
    }
    lo
}

/// The length of the diagonal of a `w × h` pixel grid in milli-pixels,
/// rounded down: the integer square root of `(w² + h²)·10⁶`. Working in
/// milli-pixels keeps the rounding of the root three decimal digits below a
/// pixel, so the derived sizes and densities are accurate at the milli-inch
/// and milli-PPI granularity they are reported in.
pub open spec fn spec_diag_milli_px(w: int, h: int) -> int {
    sqrt_floor((pixel_diag_sq(w, h) * 1000000) as nat) as int
}

/// Computes the pixel diagonal of a grid in milli-pixels, rounded down.
pub fn diag_px_milli(width_px: u32, height_px: u32) -> (r: u64)
    ensures
        r == spec_diag_milli_px(width_px as int, height_px as int),
{
    let w = width_px as u128;
    let h = height_px as u128;
    assert((w * w + h * h) * 1000000 < 0x4000000000000000000000) by (nonlinear_arith)
        requires w < 0x100000000 && h < 0x100000000;
    isqrt_wide((w * w + h * h) * 1000000)
}

/// A monitor's derived physical dimensions, in milli-inches.
#[derive(Clone, Copy, Debug, PartialEq, Eq, Structural)]
pub struct PhysicalSize {
    pub width_mil: u64,
    pub height_mil: u64,
}

/// The physical width a diagonal of `d` milli-inches gives to a `w × h` pixel
/// grid: `d·w·1000` divided by the milli-pixel diagonal, rounded down.
pub open spec fn spec_width_mil(w: int, h: int, d: int) -> int {
    d * w * 1000 / spec_diag_milli_px(w, h)
}

/// The physical height a diagonal of `d` milli-inches gives to a `w × h`
/// pixel grid: `d·h·1000` divided by the milli-pixel diagonal, rounded down.
pub open spec fn spec_height_mil(w: int, h: int, d: int) -> int {
    d * h * 1000 / spec_diag_milli_px(w, h)
}

/// The milli-pixel diagonal of a grid is at least as long as either side,
/// taken in milli-pixels.
proof fn lemma_diag_at_least_sides(w: nat, h: nat)
    ensures
        w * 1000 <= spec_diag_milli_px(w as int, h as int),
        h * 1000 <= spec_diag_milli_px(w as int, h as int),
{
    let sq = (pixel_diag_sq(w as int, h as int) * 1000000) as nat;
    assert((w * 1000) * (w * 1000) <= sq && (h * 1000) * (h * 1000) <= sq) by (nonlinear_arith)
        requires sq == (w * w + h * h) * 1000000;
    lemma_sqrt_floor_bounds(sq);
    let s = sqrt_floor(sq);
    if s < w * 1000 {
        assert((s + 1) * (s + 1) <= (w * 1000) * (w * 1000)) by (nonlinear_arith)
            requires s + 1 <= w * 1000;
        assert(false);
    }
    if s < h * 1000 {
        assert((s + 1) * (s + 1) <= (h * 1000) * (h * 1000)) by (nonlinear_arith)
            requires s + 1 <= h * 1000;
        assert(false);
    }
}

/// Derives a monitor's physical width and height from its resolution and its
/// diagonal, all rounded down to whole milli-inches.
pub fn physical_size(width_px: u32, height_px: u32, diagonal_mil: u64) -> (r: PhysicalSize)
    requires
        width_px > 0,
        height_px > 0,
        diagonal_mil > 0,
    ensures
        r.width_mil == spec_width_mil(width_px as int, height_px as int, diagonal_mil as int),
        r.height_mil == spec_height_mil(width_px as int, height_px as int, diagonal_mil as int),
        r.width_mil <= diagonal_mil,
        r.height_mil <= diagonal_mil,
{
    let s = diag_px_milli(width_px, height_px);
    proof {
        lemma_diag_at_least_sides(width_px as nat, height_px as nat);
    }
    assert((diagonal_mil as int) * (width_px as int) * 1000 < 0x1000000000000000000000000000
        && (diagonal_mil as int) * (height_px as int) * 1000 < 0x1000000000000000000000000000)
        by (nonlinear_arith)
        requires
            diagonal_mil < 0x10000000000000000int,
            width_px < 0x100000000int,
            height_px < 0x100000000int;
    let wn = (diagonal_mil as u128) * (width_px as u128) * 1000;
    let hn = (diagonal_mil as u128) * (height_px as u128) * 1000;
    let wq = wn / (s as u128);
    let hq = hn / (s as u128);
    proof {
        lemma_quotient_at_most_diagonal(diagonal_mil as int, width_px as int, s as int);
        lemma_quotient_at_most_diagonal(diagonal_mil as int, height_px as int, s as int);
    }
    PhysicalSize { width_mil: wq as u64, height_mil: hq as u64 }
}

/// Dividing `d·x·1000` by a denominator at least `x·1000` yields at most `d`.
proof fn lemma_quotient_at_most_diagonal(d: int, x: int, s: int)
    requires
        d > 0,
        x > 0,
        s >= x * 1000,
    ensures
        d * x * 1000 / s <= d,
{
    assert(d * x * 1000 <= s * d) by (nonlinear_arith)
        requires d > 0 && x * 1000 <= s;
    vstd::arithmetic::div_mod::lemma_div_is_ordered(d * x * 1000, s * d, s);
    vstd::arithmetic::div_mod::lemma_div_multiples_vanish(d, s);
}

/// The pixel density in milli-pixels-per-inch: the milli-pixel diagonal,
/// scaled against a diagonal given in milli-inches.
pub open spec fn spec_density_mppi(w: int, h: int, d: int) -> int {
    spec_diag_milli_px(w, h) * 1000 / d
}

/// Computes a monitor's pixel density in milli-pixels-per-inch.
pub fn pixel_density(width_px: u32, height_px: u32, diagonal_mil: u64) -> (r: u64)
    requires
        width_px > 0,
        height_px > 0,
        diagonal_mil > 0,
    ensures
        r == spec_density_mppi(width_px as int, height_px as int, diagonal_mil as int),
{
    let s = diag_px_milli(width_px, height_px);
    proof {
        let sq = (pixel_diag_sq(width_px as int, height_px as int) * 1000000) as nat;
        lemma_sqrt_floor_bounds(sq);
        assert(sq < 0x2000000000000000000000) by (nonlinear_arith)
            requires
                sq == ((width_px as int) * (width_px as int) + (height_px as int) * (height_px
                    as int)) * 1000000,
                width_px < 0x100000000int,
                height_px < 0x100000000int;
        assert(s <= 0x80000000000) by {
            if s > 0x80000000000 {
                assert(0x80000000001 * 0x80000000001 <= (s as int) * (s as int))
                    by (nonlinear_arith)
                    requires 0x80000000001 <= s as int;
            }
        }
    }
    let scaled = s * 1000;
    scaled / diagonal_mil
}

/// Rounds a length in milli-inches to tenths of an inch, to the nearest tenth.
pub fn tenths_of_mil(mil: u64) -> (r: u64)
    requires
        mil + 50 <= u64::MAX,
    ensures
        r == (mil + 50) / 100,
{
    (mil + 50) / 100
}

/// Splits a count of tenths of an inch into whole inches and the remaining
/// tenth digit, for a one-decimal readout.
pub fn split_tenths(tenths: u64) -> (r: (u64, u64))
    ensures
        r.0 == tenths / 10,
        r.1 == tenths % 10,
        r.1 < 10,
        r.0 * 10 + r.1 == tenths,
{
    (tenths / 10, tenths % 10)
}

/// How many pixels on a monitor of density `density_b` cover the same physical
/// length as `px` pixels on a monitor of density `density_a`.
pub fn px_on_other(px: u64, density_a: u64, density_b: u64) -> (r: u64)
    requires
        density_a > 0,
        px * density_b / (density_a as int) <= u64::MAX,
    ensures
        r == px * density_b / (density_a as int),
{
    assert((px as int) * (density_b as int) < 0x100000000000000000000000000000000)
        by (nonlinear_arith)
        requires
            px < 0x10000000000000000int,
            density_b < 0x10000000000000000int;
    let n = (px as u128) * (density_b as u128);
    (n / (density_a as u128)) as u64
}

/// The error a monitor's specification can be rejected with.
#[derive(Clone, Copy, Debug, PartialEq, Eq, Structural)]
pub enum SpecError {
    /// The diagonal size is zero or negative.
    InvalidDiagonal,
    /// The resolution has a zero pixel count on either axis.
    InvalidResolution,
}

/// A monitor's user-entered specification: diagonal size in milli-inches
/// (signed, since the entry form admits non-positive values) and pixel
/// resolution.
#[derive(Clone, Copy, Debug, PartialEq, Eq, Structural)]
pub struct MonitorSpec {
    pub diagonal_mil: i64,
    pub width_px: u32,
    pub height_px: u32,
}

impl MonitorSpec {
    /// A specification supports the derived geometry only when the diagonal
    /// and both pixel counts are positive.
    pub open spec fn is_valid(self) -> bool {
        self.diagonal_mil > 0 && self.width_px > 0 && self.height_px > 0
    }
}

/// Validates a monitor's specification and, when it is valid, derives its
/// physical size. A non-positive diagonal is rejected as `InvalidDiagonal`;
/// otherwise a zero pixel count on either axis is rejected as
/// `InvalidResolution`.
pub fn validate(ms: &MonitorSpec) -> (r: Result<PhysicalSize, SpecError>)
    ensures
        r is Ok <==> ms.is_valid(),
        ms.diagonal_mil <= 0 ==> r == Err::<PhysicalSize, SpecError>(SpecError::InvalidDiagonal),
        ms.diagonal_mil > 0 && !(ms.width_px > 0 && ms.height_px > 0) ==> r
            == Err::<PhysicalSize, SpecError>(SpecError::InvalidResolution),
        ms.is_valid() ==> r == Ok::<PhysicalSize, SpecError>(
            PhysicalSize {
                width_mil: spec_width_mil(
                    ms.width_px as int,
                    ms.height_px as int,
                    ms.diagonal_mil as int,
                ) as u64,
                height_mil: spec_height_mil(
                    ms.width_px as int,
                    ms.height_px as int,
                    ms.diagonal_mil as int,
                ) as u64,
            },
        ),
{
    if ms.diagonal_mil <= 0 {
        Err(SpecError::InvalidDiagonal)
    } else if ms.width_px == 0 || ms.height_px == 0 {
        Err(SpecError::InvalidResolution)
    } else {
        Ok(physical_size(ms.width_px, ms.height_px, ms.diagonal_mil as u64))
    }
}

/// The Pythagorean identity of the derived size, stated exactly over the
/// rational values `width = d·w/√(w²+h²)` and `height = d·h/√(w²+h²)` with
/// denominators cleared: the squares of the numerators `d·w` and `d·h` sum to
/// `d²` times the squared denominator, and the width and height stand in
/// exactly the `w : h` ratio.
pub proof fn lemma_pythagorean_identity(d: int, w: int, h: int)
    requires
        d > 0,
        w > 0,
        h > 0,
    ensures
        (d * w) * (d * w) + (d * h) * (d * h) == (d * d) * pixel_diag_sq(w, h),
        (d * w) * h == (d * h) * w,
{
    assert((d * w) * (d * w) + (d * h) * (d * h) == (d * d) * (w * w + h * h)
        && (d * w) * h == (d * h) * w) by (nonlinear_arith);
}

/// The computed dimensions are the floors of the exact rational values the
/// Pythagorean identity speaks of: scaled back by the milli-pixel diagonal
/// `s`, each recovers its numerator `d·w·1000` or `d·h·1000` to within one
/// remainder, which is three decimal digits below a pixel.
pub proof fn lemma_size_approximates_exact(w: int, h: int, d: int)
    requires
        w > 0,
        h > 0,
        d > 0,
    ensures
        ({
            let s = spec_diag_milli_px(w, h);
            let wm = spec_width_mil(w, h, d);
            let hm = spec_height_mil(w, h, d);
            wm * s <= d * w * 1000 < wm * s + s && hm * s <= d * h * 1000 < hm * s + s
        }),
{
    lemma_diag_at_least_sides(w as nat, h as nat);
    let s = spec_diag_milli_px(w, h);
    let wn = d * w * 1000;
    let hn = d * h * 1000;
    vstd::arithmetic::div_mod::lemma_fundamental_div_mod(wn, s);
    vstd::arithmetic::div_mod::lemma_mod_bound(wn, s);
    vstd::arithmetic::div_mod::lemma_fundamental_div_mod(hn, s);
    vstd::arithmetic::div_mod::lemma_mod_bound(hn, s);
    assert((wn / s) * s <= wn < (wn / s) * s + s && (hn / s) * s <= hn < (hn / s) * s + s)
        by (nonlinear_arith)
        requires
            wn == s * (wn / s) + wn % s && 0 <= wn % s < s,
            hn == s * (hn / s) + hn % s && 0 <= hn % s < s;
}

/// The physical aspect ratio equals the pixel aspect ratio to within one
/// milli-inch rounding step: the cross products of the computed dimensions
/// with the pixel counts agree up to the smaller side's contribution. Exact
/// equality cannot hold of floored milli-inch values (a 1000 × 1 grid with a
/// 2.5-inch diagonal floors its 2.5-mil height to 2 mil), and this two-sided
/// bound is what remains true of every input.
pub proof fn lemma_aspect_ratio_bounds(w: int, h: int, d: int)
    requires
        w > 0,
        h > 0,
        d > 0,
    ensures
        ({
            let wm = spec_width_mil(w, h, d);
            let hm = spec_height_mil(w, h, d);
            hm * w - h < wm * h && wm * h < hm * w + w
        }),
{
    lemma_diag_at_least_sides(w as nat, h as nat);
    lemma_size_approximates_exact(w, h, d);
    let s = spec_diag_milli_px(w, h);
    let wm = spec_width_mil(w, h, d);
    let hm = spec_height_mil(w, h, d);
    assert(hm * w - h < wm * h && wm * h < hm * w + w) by (nonlinear_arith)
        requires
            s > 0,
            wm * s <= d * w * 1000 < wm * s + s,
            hm * s <= d * h * 1000 < hm * s + s,
            w > 0,
            h > 0;
}

/// The computed size is homogeneous in the diagonal up to floor rounding:
/// scaling the diagonal by a whole factor `k` scales each dimension to
/// within `k - 1` of `k` times the original. Exact homogeneity cannot hold
/// of floored values (doubling a diagonal that gave 1 mil can give 3 mil),
/// and this two-sided bound is what remains true of every input.
pub proof fn lemma_size_homogeneous_bounds(w: int, h: int, d: int, k: int)
    requires
        w > 0,
        h > 0,
        d > 0,
        k >= 1,
    ensures
        k * spec_width_mil(w, h, d) <= spec_width_mil(w, h, k * d) < k * spec_width_mil(w, h, d)
            + k,
        k * spec_height_mil(w, h, d) <= spec_height_mil(w, h, k * d) < k * spec_height_mil(
            w,
            h,
            d,
        ) + k,
{
    lemma_diag_at_least_sides(w as nat, h as nat);
    let s = spec_diag_milli_px(w, h);
    lemma_scaled_numerator_quotient(d * w * 1000, s, k);
    lemma_scaled_numerator_quotient(d * h * 1000, s, k);
    assert((k * d) * w * 1000 == k * (d * w * 1000) && (k * d) * h * 1000 == k * (d * h * 1000))
        by (nonlinear_arith);
}

/// Scaling a nonnegative numerator by `k` scales its floored quotient to
/// within `k - 1` of `k` times the original quotient.
proof fn lemma_scaled_numerator_quotient(n: int, s: int, k: int)
    requires
        n >= 0,
        s > 0,
        k >= 1,
    ensures
        k * (n / s) <= (k * n) / s < k * (n / s) + k,
{
    let q = n / s;
    let r = n % s;
    vstd::arithmetic::div_mod::lemma_fundamental_div_mod(n, s);
    vstd::arithmetic::div_mod::lemma_mod_bound(n, s);
    let t = (k * r) / s;
    let rr = (k * r) % s;
    vstd::arithmetic::div_mod::lemma_fundamental_div_mod(k * r, s);
    vstd::arithmetic::div_mod::lemma_mod_bound(k * r, s);
    assert(k * n == (k * q + t) * s + rr && 0 <= t < k) by (nonlinear_arith)
        requires
            n == s * q + r,
            0 <= r < s,
            k * r == s * t + rr,
            0 <= rr < s,
            k >= 1;
    vstd::arithmetic::div_mod::lemma_fundamental_div_mod_converse(k * n, s, k * q + t, rr);
}

/// Only the resolution's ratio matters, up to one rounding step: scaling the
/// pixel grid by a whole factor `k` leaves each computed dimension between
/// the original value and the value the next-larger milli-pixel denominator
/// would give. Exact equality cannot hold of floored roots (a 16 × 9 grid
/// and a 2560 × 1440 grid can differ by one milli-inch), and this sandwich
/// is what remains true of every input.
pub proof fn lemma_resolution_scale_bounds(w: int, h: int, d: int, k: int)
    requires
        w > 0,
        h > 0,
        d > 0,
        k >= 1,
    ensures
        ({
            let s = spec_diag_milli_px(w, h);
            d * w * 1000 / (s + 1) <= spec_width_mil(k * w, k * h, d) <= spec_width_mil(w, h, d)
                && d * h * 1000 / (s + 1) <= spec_height_mil(k * w, k * h, d)
                <= spec_height_mil(w, h, d)
        }),
{
    lemma_diag_at_least_sides(w as nat, h as nat);
    let q = (pixel_diag_sq(w, h) * 1000000) as nat;
    let qk = (pixel_diag_sq(k * w, k * h) * 1000000) as nat;
    assert(pixel_diag_sq(k * w, k * h) * 1000000 == k * k * (pixel_diag_sq(w, h) * 1000000)
        && pixel_diag_sq(w, h) * 1000000 >= 0) by (nonlinear_arith)
        requires
            pixel_diag_sq(w, h) == w * w + h * h,
            pixel_diag_sq(k * w, k * h) == (k * w) * (k * w) + (k * h) * (k * h),
            w > 0,
            h > 0;
    lemma_sqrt_floor_bounds(q);
    lemma_sqrt_floor_bounds(qk);
    let s = spec_diag_milli_px(w, h);
    let sk = spec_diag_milli_px(k * w, k * h);
    assert(k * s <= sk && sk < k * (s + 1)) by (nonlinear_arith)
        requires
            s >= 0,
            sk >= 0,
            k >= 1,
            s * s <= q,
            q < (s + 1) * (s + 1),
            sk * sk <= qk,
            qk < (sk + 1) * (sk + 1),
            qk == k * k * q;
    assert(d * (k * w) * 1000 == k * (d * w * 1000) && d * (k * h) * 1000 == k * (d * h * 1000))
        by (nonlinear_arith);
    lemma_quotient_shrinks_within_step(d * w * 1000, s, sk, k);
    lemma_quotient_shrinks_within_step(d * h * 1000, s, sk, k);
}

/// Dividing `k` times a numerator by a denominator between `k·s` and
/// `k·(s+1)` lands between the quotients by `s + 1` and by `s`.
proof fn lemma_quotient_shrinks_within_step(n: int, s: int, sk: int, k: int)
    requires
        n >= 0,
        s >= 1,
        k >= 1,
        k * s <= sk,
        sk < k * (s + 1),
    ensures
        n / (s + 1) <= (k * n) / sk <= n / s,
{
    assert(k * n >= 0 && k * s >= 1 && k * (s + 1) >= 1) by (nonlinear_arith)
        requires n >= 0 && s >= 1 && k >= 1;
    vstd::arithmetic::div_mod::lemma_div_is_ordered_by_denominator(k * n, k * s, sk);
    vstd::arithmetic::div_mod::lemma_div_is_ordered_by_denominator(k * n, sk, k * (s + 1));
    vstd::arithmetic::div_mod::lemma_div_multiples_vanish_quotient(k, n, s);
    vstd::arithmetic::div_mod::lemma_div_multiples_vanish_quotient(k, n, s + 1);
}

/// For a fixed resolution, the pixel density never increases as the diagonal
/// grows. The decrease is not strict at floored milli-PPI granularity (two
/// enormous diagonals can both floor the density to the same value), so the
/// non-strict ordering is what remains true of every input.
pub proof fn lemma_density_antitone(w: int, h: int, d1: int, d2: int)
    requires
        w > 0,
        h > 0,
        0 < d1 <= d2,
    ensures
        spec_density_mppi(w, h, d1) >= spec_density_mppi(w, h, d2),
{
    lemma_diag_at_least_sides(w as nat, h as nat);
    let s = spec_diag_milli_px(w, h);
    assert(s * 1000 >= 0) by (nonlinear_arith)
        requires s >= 0;
    vstd::arithmetic::div_mod::lemma_div_is_ordered_by_denominator(s * 1000, d1, d2);
}

/// Density consistency: the computed density, multiplied back by the
/// diagonal, recovers the milli-pixel diagonal (scaled to milli-PPI) up to
/// the division's remainder, and the milli-pixel diagonal squares back to
/// `(w² + h²)·10⁶` within one rounding step.
pub proof fn lemma_density_consistency(w: int, h: int, d: int)
    requires
        w > 0,
        h > 0,
        d > 0,
    ensures
        ({
            let s = spec_diag_milli_px(w, h);
            let density = spec_density_mppi(w, h, d);
            density * d <= s * 1000 < density * d + d && s * s <= pixel_diag_sq(w, h) * 1000000
                < (s + 1) * (s + 1)
        }),
{
    let sq = (pixel_diag_sq(w, h) * 1000000) as nat;
    lemma_sqrt_floor_bounds(sq);
    let s = sqrt_floor(sq) as int;
    let n = s * 1000;
    vstd::arithmetic::div_mod::lemma_fundamental_div_mod(n, d);
    vstd::arithmetic::div_mod::lemma_mod_bound(n, d);
    assert((n / d) * d <= n < (n / d) * d + d) by (nonlinear_arith)
        requires n == d * (n / d) + n % d && 0 <= n % d < d;
}

} // verus!
