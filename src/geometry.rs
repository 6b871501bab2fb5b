//! Field bounds and the conversion of pixel offsets into feet.
use vstd::prelude::*;

verus! {

/// Position units per screen pixel: positions are hundredths of a pixel.
pub const UNITS_PER_PIXEL: i64 = 100;

/// Output units per foot: displacements are millionths of a foot.
pub const UNITS_PER_FOOT: i64 = 1_000_000;

/// The field image spans `FIELD_FEET_NUM / FIELD_FEET_DEN` feet (18 2/3) ...
pub const FIELD_FEET_NUM: i64 = 56;

pub const FIELD_FEET_DEN: i64 = 3;

/// ... over this many pixels.
pub const FIELD_PIXELS: i64 = 447;

/// Open bounds of the field image, in position units.
pub const FIELD_MIN_X: i64 = 500;

pub const FIELD_MAX_X: i64 = 108_500;

pub const FIELD_MIN_Y: i64 = 500;

pub const FIELD_MAX_Y: i64 = 52_800;

/// A screen position, in hundredths of a pixel.
#[derive(Clone, Copy, Debug, PartialEq, Eq)]
pub struct Point {
    pub x: i64,
    pub y: i64,
}

/// The alliance a path is planned for; it decides the axis orientation.
#[derive(Clone, Copy, Debug, PartialEq, Eq)]
pub enum Alliance {
    Red,
    Blue,
}

/// Whether `p` lies strictly inside the field image.
pub open spec fn on_field(p: Point) -> bool {
    FIELD_MIN_X < p.x < FIELD_MAX_X && FIELD_MIN_Y < p.y < FIELD_MAX_Y
}

/// Numerator of the feet-per-position-unit ratio, scaled to output units.
pub open spec fn ratio_num() -> int {
    FIELD_FEET_NUM * UNITS_PER_FOOT
}

/// Denominator of the feet-per-position-unit ratio.
pub open spec fn ratio_den() -> int {
    FIELD_FEET_DEN * FIELD_PIXELS * UNITS_PER_PIXEL
}

/// `n / d` rounded to the nearest integer, halves away from zero.
pub open spec fn round_div(n: nat, d: nat) -> nat
    recommends
        d > 0,
{
    ((2 * n + d) / (2 * d)) as nat
}

/// A pixel offset `d` (in position units) expressed in output units of feet,
/// rounded to the nearest unit; the rounding is symmetric around zero.
pub open spec fn offset_feet(d: int) -> int {
    if d >= 0 {
        round_div((d * ratio_num()) as nat, ratio_den() as nat) as int
    } else {
        -(round_div((-d * ratio_num()) as nat, ratio_den() as nat) as int)
    }
}

/// The displacement in feet from `prev` to `click`, oriented for `alliance`:
/// x grows to the right and y upwards for Blue, both are mirrored for Red.
pub open spec fn displacement_spec(alliance: Alliance, prev: Point, click: Point) -> (int, int) {
    match alliance {
        Alliance::Blue => (offset_feet(click.x - prev.x), offset_feet(prev.y - click.y)),
        Alliance::Red => (offset_feet(prev.x - click.x), offset_feet(click.y - prev.y)),
    }
}

/// For the same two points, the Red displacement is the Blue one with both
/// signs flipped.
pub proof fn lemma_red_mirrors_blue(prev: Point, click: Point)
    ensures
        displacement_spec(Alliance::Red, prev, click).0 == -displacement_spec(Alliance::Blue, prev, click).0,
        displacement_spec(Alliance::Red, prev, click).1 == -displacement_spec(Alliance::Blue, prev, click).1,
{
    lemma_offset_feet_odd(click.x - prev.x);
    lemma_offset_feet_odd(prev.y - click.y);
}

/// Converting the opposite offset gives the opposite result.
pub proof fn lemma_offset_feet_odd(d: int)
    ensures
        offset_feet(-d) == -offset_feet(d),
{
    let e = -d;
    if d > 0 {
        assert(-e == d);
    } else if d < 0 {
        assert(e > 0);
    } else {
        let den = ratio_den();
        assert((2 * 0 + den) / (2 * den) == 0) by (nonlinear_arith)
            requires den > 0;
    }
}

/// The converted offset is the nearest whole output unit to the exact value
/// `d * ratio_num() / ratio_den()`: it is off by at most half a unit.
pub proof fn lemma_offset_feet_nearest(d: int)
    ensures
        -ratio_den() <= 2 * (offset_feet(d) * ratio_den() - d * ratio_num()) <= ratio_den(),
{
    let num = ratio_num();
    let den = ratio_den();
    let m: int = if d >= 0 { d } else { -d };
    let n = m * num;
    assert(n >= 0) by (nonlinear_arith)
        requires m >= 0, num > 0, n == m * num;
    let q = (2 * n + den) / (2 * den);
    let r = (2 * n + den) % (2 * den);
    assert(2 * n + den == q * (2 * den) + r && 0 <= r < 2 * den) by (nonlinear_arith)
        requires q == (2 * n + den) / (2 * den), r == (2 * n + den) % (2 * den), den > 0;
    assert(-den <= 2 * (q * den - n) <= den) by (nonlinear_arith)
        requires 2 * n + den == q * (2 * den) + r, 0 <= r < 2 * den, den > 0;
    if d >= 0 {
        assert(offset_feet(d) == q);
        assert(-den <= 2 * (q * den - d * num) <= den) by (nonlinear_arith)
            requires -den <= 2 * (q * den - n) <= den, m == d, n == m * num;
    } else {
        assert(offset_feet(d) == -q);
        assert(-den <= 2 * ((-q) * den - d * num) <= den) by (nonlinear_arith)
            requires -den <= 2 * (q * den - n) <= den, m == -d, n == m * num;
    }
}

/// Whether `p` lies strictly inside the field image.
pub fn is_on_field(p: Point) -> (r: bool)
    ensures
        r == on_field(p),
{
    FIELD_MIN_X < p.x && p.x < FIELD_MAX_X && FIELD_MIN_Y < p.y && p.y < FIELD_MAX_Y
}

/// Converts a pixel offset between two field positions into output units of feet.
pub fn to_feet(d: i64) -> (r: i64)
    requires
        -FIELD_MAX_X <= d <= FIELD_MAX_X,
    ensures
        r == offset_feet(d as int),
{
    let num: u64 = (FIELD_FEET_NUM * UNITS_PER_FOOT) as u64;
    let den: u64 = (FIELD_FEET_DEN * FIELD_PIXELS * UNITS_PER_PIXEL) as u64;
    let m: u64 = if d >= 0 { d as u64 } else { (-d) as u64 };
    assert(m * num <= 108_500 * 56_000_000) by (nonlinear_arith)
        requires m <= 108_500, num == 56_000_000;
    let q: u64 = (2 * (m * num) + den) / (2 * den);
    assert(q <= 2 * (m * num) + den) by (nonlinear_arith)
        requires q == (2 * (m * num) + den) / (2 * den), den > 0;
    if d >= 0 {
        q as i64
    } else {
        -(q as i64)
    }
}

/// The displacement in feet from `prev` to `click`, oriented for `alliance`.
pub fn displacement(alliance: Alliance, prev: Point, click: Point) -> (r: (i64, i64))
    requires
        on_field(prev),
        on_field(click),
    ensures
        (r.0 as int, r.1 as int) == displacement_spec(alliance, prev, click),
{
    match alliance {
        Alliance::Blue => (to_feet(click.x - prev.x), to_feet(prev.y - click.y)),
        Alliance::Red => (to_feet(prev.x - click.x), to_feet(click.y - prev.y)),
    }
}

} // verus!
