//! From view angles to cropped-texture sample positions.
//!
//! The transcendental head of the projection (the rotation by roll, the
//! longitude from `atan2`, the latitude from `atan`) runs on floating
//! point outside this crate. What it yields is a pair of angles, and from
//! there everything is exact rational arithmetic: wrap the longitude into
//! the half-open range of one turn, map both angles to unit texture
//! space, and place the result inside the crop. Angles are fixed-point
//! millionths of a half-turn.

use vstd::prelude::*;

use crate::camera::HALF_TURN;
use crate::metadata::PanoMeta;

verus! {

/// The longitude wrap: `mod(lambda + pi, 2 pi) - pi`, with the flooring
/// remainder, landing in the half-open range `[-pi, pi)`.
pub open spec fn wrap_spec(l: int) -> int {
    (l + HALF_TURN as int) % (2 * HALF_TURN as int) - HALF_TURN as int
}

/// The longitude fed to the sampler: the ray's own longitude plus the
/// camera yaw, wrapped.
pub open spec fn wrapped_lambda(dir_lambda: int, yaw: int) -> int {
    wrap_spec(dir_lambda + yaw)
}

/// Numerator of the horizontal sample position over `tex_x_den`.
pub open spec fn tex_x_num(lam: int, m: PanoMeta) -> int {
    (HALF_TURN as int + lam) * (m.crop_left.den * m.width_ratio.den) - (2 * HALF_TURN as int)
        * (m.crop_left.num * m.width_ratio.den)
}

/// Denominator of the horizontal sample position; positive on a valid
/// descriptor.
pub open spec fn tex_x_den(m: PanoMeta) -> int {
    (2 * HALF_TURN as int) * (m.crop_left.den * m.width_ratio.num)
}

/// Numerator of the vertical sample position over `tex_y_den`. The crop
/// offset enters as `1 - crop_top - height_ratio`, since texture space
/// grows upward while the metadata counts from the top.
pub open spec fn tex_y_num(phi: int, m: PanoMeta) -> int {
    (HALF_TURN as int / 2 + phi) * (m.crop_top.den * m.height_ratio.den) - (HALF_TURN as int) * (
    m.crop_top.den * m.height_ratio.den - m.crop_top.num * m.height_ratio.den
        - m.height_ratio.num * m.crop_top.den)
}

/// Denominator of the vertical sample position; positive on a valid
/// descriptor.
pub open spec fn tex_y_den(m: PanoMeta) -> int {
    (HALF_TURN as int) * (m.crop_top.den * m.height_ratio.num)
}

/// Whether the vertical position lies inside the image: exactly then a
/// pixel has a sample at all.
pub open spec fn sample_in_range(phi: int, m: PanoMeta) -> bool {
    0 <= tex_y_num(phi, m) <= tex_y_den(m)
}

/// A quarter-turn: the largest magnitude a latitude can have.
pub const QUARTER_TURN: i64 = 500_000;

/// An exact sample position in unit texture space, as two fractions.
#[derive(Clone, Copy, Debug, PartialEq, Eq, Structural)]
pub struct TexPos {
    pub x_num: i128,
    pub x_den: i128,
    pub y_num: i128,
    pub y_den: i128,
}

/// Wraps a longitude in angle units into `[-HALF_TURN, HALF_TURN)`.
pub fn wrap_half_turn(l: i64) -> (r: i64)
    ensures
        r as int == wrap_spec(l as int),
        -HALF_TURN <= r < HALF_TURN,
{
    let w = wrap_i128(l as i128);
    w as i64
}

/// The wrap on the wide intermediate type.
fn wrap_i128(x: i128) -> (r: i128)
    requires
        x < i128::MAX - 1_000_000,
    ensures
        r as int == wrap_spec(x as int),
        -1_000_000 <= r < 1_000_000,
{
    let s = x + 1_000_000;
    match s.checked_rem_euclid(2_000_000) {
        Some(m) => m - 1_000_000,
        None => 0,
    }
}

/// The wrap lands every longitude in the half-open range `[-pi, pi)`:
/// exactly `+pi` comes out as `-pi`, exactly `-pi` stays, and the
/// positive end is never reached.
pub proof fn lemma_wrap_half_open(l: int)
    ensures
        -(HALF_TURN as int) <= wrap_spec(l) < HALF_TURN as int,
        wrap_spec(HALF_TURN as int) == -(HALF_TURN as int),
        wrap_spec(-(HALF_TURN as int)) == -(HALF_TURN as int),
        wrap_spec(0) == 0,
{
    assert((2_000_000int) % 2_000_000 == 0);
    assert((0int) % 2_000_000 == 0);
    assert((1_000_000int) % 2_000_000 == 1_000_000);
}

/// Bound on a product of two nonnegative factors.
proof fn lemma_mul_bound(a: int, b: int, bound_a: int, bound_b: int)
    requires
        0 <= a <= bound_a,
        0 <= b <= bound_b,
    ensures
        0 <= a * b <= bound_a * bound_b,
{
    assert(0 <= a * b <= bound_a * bound_b) by (nonlinear_arith)
        requires
            0 <= a <= bound_a,
            0 <= b <= bound_b,
    ;
}

/// Computes where on the cropped texture a view ray lands, or reports
/// that it misses the image's latitude band.
///
/// `dir_lambda` and `phi` are the longitude and latitude of the ray
/// relative to the camera, as the transcendental head computed them;
/// `yaw` is the camera yaw. A latitude from the arc tangent is always
/// within a quarter-turn of the horizon, which bounds `phi`.
pub fn sample_position(dir_lambda: i64, phi: i64, yaw: i64, meta: &PanoMeta) -> (r: Option<TexPos>)
    requires
        meta.valid(),
        -QUARTER_TURN <= phi <= QUARTER_TURN,
    ensures
        (r is Some) == sample_in_range(phi as int, *meta),
        r matches Some(p) ==> {
            &&& p.x_num == tex_x_num(wrapped_lambda(dir_lambda as int, yaw as int), *meta)
            &&& p.x_den == tex_x_den(*meta)
            &&& p.y_num == tex_y_num(phi as int, *meta)
            &&& p.y_den == tex_y_den(*meta)
        },
{
    let lam: i128 = wrap_i128(dir_lambda as i128 + yaw as i128);

    let cld: i128 = meta.crop_left.den as i128;
    let cln: i128 = meta.crop_left.num as i128;
    let wrd: i128 = meta.width_ratio.den as i128;
    let wrn: i128 = meta.width_ratio.num as i128;
    let ctd: i128 = meta.crop_top.den as i128;
    let ctn: i128 = meta.crop_top.num as i128;
    let hrd: i128 = meta.height_ratio.den as i128;
    let hrn: i128 = meta.height_ratio.num as i128;

    proof {
        lemma_mul_bound(cld as int, wrd as int, 0x1_0000_0000int, 0x1_0000_0000int);
        lemma_mul_bound(cln as int, wrd as int, 0x1_0000_0000int, 0x1_0000_0000int);
        lemma_mul_bound(cld as int, wrn as int, 0x1_0000_0000int, 0x1_0000_0000int);
        lemma_mul_bound((1_000_000 + lam) as int, (cld * wrd) as int, 2_000_000, 0x1_0000_0000_0000_0000int);
        lemma_mul_bound(2_000_000, (cln * wrd) as int, 2_000_000, 0x1_0000_0000_0000_0000int);
        lemma_mul_bound(2_000_000, (cld * wrn) as int, 2_000_000, 0x1_0000_0000_0000_0000int);
        lemma_mul_bound(ctd as int, hrd as int, 0x1_0000_0000int, 0x1_0000_0000int);
        lemma_mul_bound(ctn as int, hrd as int, 0x1_0000_0000int, 0x1_0000_0000int);
        lemma_mul_bound(hrn as int, ctd as int, 0x1_0000_0000int, 0x1_0000_0000int);
        lemma_mul_bound((500_000 + phi) as int, (ctd * hrd) as int, 1_500_000, 0x1_0000_0000_0000_0000int);
        lemma_mul_bound(1_000_000, (ctn * hrd) as int, 1_000_000, 0x1_0000_0000_0000_0000int);
        lemma_mul_bound(1_000_000, (ctd * hrd) as int, 1_000_000, 0x1_0000_0000_0000_0000int);
        lemma_mul_bound(1_000_000, (hrn * ctd) as int, 1_000_000, 0x1_0000_0000_0000_0000int);
        lemma_mul_bound(1_000_000, (ctd * hrn) as int, 1_000_000, 0x1_0000_0000_0000_0000int);
    }

    let x_num: i128 = (1_000_000 + lam) * (cld * wrd) - 2_000_000 * (cln * wrd);
    let x_den: i128 = 2_000_000 * (cld * wrn);
    let y_num: i128 = (500_000 + phi as i128) * (ctd * hrd) - 1_000_000 * (ctd * hrd - ctn * hrd
        - hrn * ctd);
    let y_den: i128 = 1_000_000 * (ctd * hrn);

    if y_num < 0 || y_num > y_den {
        None
    } else {
        Some(TexPos { x_num, x_den, y_num, y_den })
    }
}

} // verus!
