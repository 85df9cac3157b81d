use vstd::prelude::*;

verus! {

/// A planar point or vector. Coordinates are in milli-units:
/// 1000 stands for one unit of length.
#[derive(Clone, Copy, Debug, PartialEq, Eq, Structural)]
pub struct Vec2 {
    pub x: i64,
    pub y: i64,
}

/// An RGB colour triple. The scale of the channels is documented at
/// each use: particle colours run 0..=1000 (milli of full intensity),
/// enemy display colours run 0..=255.
#[derive(Clone, Copy, Debug, PartialEq, Eq, Structural)]
pub struct Rgb {
    pub r: i64,
    pub g: i64,
    pub b: i64,
}

/// Truncated (round-toward-zero) division, the rounding that the
/// machine's `/` performs, expressed over Euclidean spec division.
pub open spec fn div_trunc(a: int, b: int) -> int
    recommends
        b >= 1,
{
    if a >= 0 {
        a / b
    } else {
        -((-a) / b)
    }
}

/// `a * b / d` with truncating division, as one spec step.
pub open spec fn mul_div_trunc(a: int, b: int, d: int) -> int
    recommends
        d >= 1,
{
    div_trunc(a * b, d)
}

pub open spec fn spec_clamp(x: int, lo: int, hi: int) -> int
    recommends
        lo <= hi,
{
    if x < lo {
        lo
    } else if x > hi {
        hi
    } else {
        x
    }
}

pub open spec fn abs(a: int) -> int {
    if a >= 0 {
        a
    } else {
        -a
    }
}

/// Multiply then divide, rounding toward zero.
pub fn mul_div(a: i64, b: i64, d: i64) -> (r: i64)
    requires
        1 <= d,
        -0x7fff_ffff_ffff_ffff <= a * b <= 0x7fff_ffff_ffff_ffff,
    ensures
        r == mul_div_trunc(a as int, b as int, d as int),
{
    (a * b) / d
}

pub fn clamp_i64(x: i64, lo: i64, hi: i64) -> (r: i64)
    requires
        lo <= hi,
    ensures
        r == spec_clamp(x as int, lo as int, hi as int),
{
    if x < lo {
        lo
    } else if x > hi {
        hi
    } else {
        x
    }
}

/// Magnitude bounds multiply: `|a| <= ca` and `|b| <= cb` bound the
/// product by `ca * cb`.
pub proof fn lemma_abs_mul_bound(a: int, b: int, ca: int, cb: int)
    requires
        abs(a) <= ca,
        abs(b) <= cb,
    ensures
        -(ca * cb) <= a * b <= ca * cb,
        abs(a * b) <= ca * cb,
{
    assert(-(ca * cb) <= a * b <= ca * cb) by (nonlinear_arith)
        requires
            -ca <= a <= ca,
            -cb <= b <= cb,
    ;
}

/// Truncating division shrinks magnitudes: if `abs(a) <= bound * b`
/// then the quotient stays within `bound`.
pub proof fn lemma_div_trunc_bound(a: int, b: int, bound: int)
    requires
        b >= 1,
        bound >= 0,
        abs(a) <= bound * b,
    ensures
        abs(div_trunc(a, b)) <= bound,
{
    vstd::arithmetic::div_mod::lemma_div_by_multiple(bound, b);
    if a >= 0 {
        vstd::arithmetic::div_mod::lemma_div_is_ordered(a, bound * b, b);
        vstd::arithmetic::div_mod::lemma_div_pos_is_pos(a, b);
    } else {
        vstd::arithmetic::div_mod::lemma_div_is_ordered(-a, bound * b, b);
        vstd::arithmetic::div_mod::lemma_div_pos_is_pos(-a, b);
    }
}

/// Floor facts of truncating division: the divisor times the quotient's
/// magnitude falls short of the dividend's magnitude by less than the
/// divisor.
pub proof fn lemma_div_trunc_floor(a: int, b: int)
    requires
        b >= 1,
    ensures
        b * abs(div_trunc(a, b)) <= abs(a),
        b * abs(div_trunc(a, b)) >= abs(a) - (b - 1),
        abs(div_trunc(a, b)) >= 0,
{
    if a >= 0 {
        vstd::arithmetic::div_mod::lemma_fundamental_div_mod(a, b);
        vstd::arithmetic::div_mod::lemma_mod_bound(a, b);
        vstd::arithmetic::div_mod::lemma_div_pos_is_pos(a, b);
    } else {
        vstd::arithmetic::div_mod::lemma_fundamental_div_mod(-a, b);
        vstd::arithmetic::div_mod::lemma_mod_bound(-a, b);
        vstd::arithmetic::div_mod::lemma_div_pos_is_pos(-a, b);
    }
}

/// Scaling a direction of the fixed-point unit circle by `d / 1000`
/// moves at most `d`: the squared offset never exceeds `d` squared.
pub proof fn lemma_scaled_dir_within(c: int, s: int, d: int)
    requires
        abs(c) <= 1000,
        abs(s) <= 1000,
        c * c + s * s <= 1000000,
        0 <= d <= 1_000_000_000,
    ensures
        div_trunc(c * d, 1000) * div_trunc(c * d, 1000) + div_trunc(s * d, 1000) * div_trunc(
            s * d,
            1000,
        ) <= d * d,
{
    let u = abs(c);
    let v = abs(s);
    let qxs = div_trunc(c * d, 1000);
    let qys = div_trunc(s * d, 1000);
    let qx = abs(qxs);
    let qy = abs(qys);
    lemma_div_trunc_floor(c * d, 1000);
    lemma_div_trunc_floor(s * d, 1000);
    if c >= 0 {
        assert(c * d >= 0) by (nonlinear_arith)
            requires
                c >= 0,
                d >= 0,
        ;
    } else {
        assert(u * d == -(c * d)) by (nonlinear_arith)
            requires
                u == -c,
        ;
        assert(c * d <= 0) by (nonlinear_arith)
            requires
                c < 0,
                d >= 0,
        ;
    }
    if s >= 0 {
        assert(s * d >= 0) by (nonlinear_arith)
            requires
                s >= 0,
                d >= 0,
        ;
    } else {
        assert(v * d == -(s * d)) by (nonlinear_arith)
            requires
                v == -s,
        ;
        assert(s * d <= 0) by (nonlinear_arith)
            requires
                s < 0,
                d >= 0,
        ;
    }
    assert(1000 * qx <= u * d);
    assert(1000 * qy <= v * d);
    assert(1000000 * (qx * qx) <= (u * d) * (u * d)) by (nonlinear_arith)
        requires
            0 <= qx,
            1000 * qx <= u * d,
    ;
    assert(1000000 * (qy * qy) <= (v * d) * (v * d)) by (nonlinear_arith)
        requires
            0 <= qy,
            1000 * qy <= v * d,
    ;
    assert(u * u == c * c && v * v == s * s) by (nonlinear_arith)
        requires
            u == abs(c),
            v == abs(s),
            u == if c >= 0 { c } else { -c },
            v == if s >= 0 { s } else { -s },
    ;
    assert((u * d) * (u * d) + (v * d) * (v * d) == (u * u + v * v) * (d * d))
        by (nonlinear_arith);
    assert((u * u + v * v) * (d * d) <= 1000000 * (d * d)) by (nonlinear_arith)
        requires
            u * u + v * v <= 1000000,
            d * d >= 0,
    ;
    assert(qx * qx == qxs * qxs && qy * qy == qys * qys) by (nonlinear_arith)
        requires
            qx == if qxs >= 0 { qxs } else { -qxs },
            qy == if qys >= 0 { qys } else { -qys },
    ;
}

/// With the direction's norm within one percent below the fixed-point
/// unit, the offset reaches at least 99 percent of `d`, for `d` of at
/// least one unit.
pub proof fn lemma_scaled_dir_near(c: int, s: int, d: int)
    requires
        abs(c) <= 1000,
        abs(s) <= 1000,
        997789 <= c * c + s * s,
        1000 <= d <= 1_000_000_000,
    ensures
        div_trunc(c * d, 1000) * div_trunc(c * d, 1000) + div_trunc(s * d, 1000) * div_trunc(
            s * d,
            1000,
        ) >= ((99 * d) / 100) * ((99 * d) / 100),
{
    let u = abs(c);
    let v = abs(s);
    let qxs = div_trunc(c * d, 1000);
    let qys = div_trunc(s * d, 1000);
    let qx = abs(qxs);
    let qy = abs(qys);
    lemma_div_trunc_floor(c * d, 1000);
    lemma_div_trunc_floor(s * d, 1000);
    if c >= 0 {
        assert(c * d >= 0) by (nonlinear_arith)
            requires
                c >= 0,
                d >= 0,
        ;
    } else {
        assert(u * d == -(c * d)) by (nonlinear_arith)
            requires
                u == -c,
        ;
        assert(c * d <= 0) by (nonlinear_arith)
            requires
                c < 0,
                d >= 0,
        ;
    }
    if s >= 0 {
        assert(s * d >= 0) by (nonlinear_arith)
            requires
                s >= 0,
                d >= 0,
        ;
    } else {
        assert(v * d == -(s * d)) by (nonlinear_arith)
            requires
                v == -s,
        ;
        assert(s * d <= 0) by (nonlinear_arith)
            requires
                s < 0,
                d >= 0,
        ;
    }
    assert(1000 * qx >= u * d - 999);
    assert(1000 * qy >= v * d - 999);
    if u == 0 {
        assert(1000000 * (qx * qx) >= (u * u) * (d * d) - 1998 * (u * d)) by (nonlinear_arith)
            requires
                u == 0,
                qx >= 0,
        ;
    } else {
        assert(u * d >= 1000) by (nonlinear_arith)
            requires
                u >= 1,
                d >= 1000,
        ;
        assert(1000000 * (qx * qx) >= (u * u) * (d * d) - 1998 * (u * d)) by (nonlinear_arith)
            requires
                1000 * qx >= u * d - 999,
                u * d >= 1000,
                qx >= 0,
        ;
    }
    if v == 0 {
        assert(1000000 * (qy * qy) >= (v * v) * (d * d) - 1998 * (v * d)) by (nonlinear_arith)
            requires
                v == 0,
                qy >= 0,
        ;
    } else {
        assert(v * d >= 1000) by (nonlinear_arith)
            requires
                v >= 1,
                d >= 1000,
        ;
        assert(1000000 * (qy * qy) >= (v * v) * (d * d) - 1998 * (v * d)) by (nonlinear_arith)
            requires
                1000 * qy >= v * d - 999,
                v * d >= 1000,
                qy >= 0,
        ;
    }
    assert(u * u == c * c && v * v == s * s) by (nonlinear_arith)
        requires
            u == if c >= 0 { c } else { -c },
            v == if s >= 0 { s } else { -s },
    ;
    assert((u * u) * (d * d) + (v * v) * (d * d) == (u * u + v * v) * (d * d))
        by (nonlinear_arith);
    assert((u * u + v * v) * (d * d) >= 997789 * (d * d)) by (nonlinear_arith)
        requires
            u * u + v * v >= 997789,
            d * d >= 0,
    ;
    assert(1998 * (u * d) + 1998 * (v * d) <= 3996000 * d) by (nonlinear_arith)
        requires
            0 <= u <= 1000,
            0 <= v <= 1000,
            d >= 0,
    ;
    let t = (99 * d) / 100;
    lemma_div_trunc_floor(99 * d, 100);
    vstd::arithmetic::div_mod::lemma_div_pos_is_pos(99 * d, 100);
    assert(1000000 * (t * t) <= 980100 * (d * d)) by (nonlinear_arith)
        requires
            0 <= 100 * t,
            100 * t <= 99 * d,
    ;
    assert(980100 * (d * d) <= 997789 * (d * d) - 3996000 * d) by (nonlinear_arith)
        requires
            d >= 1000,
    ;
    assert(qx * qx == qxs * qxs && qy * qy == qys * qys) by (nonlinear_arith)
        requires
            qx == if qxs >= 0 { qxs } else { -qxs },
            qy == if qys >= 0 { qys } else { -qys },
    ;
}

} // verus!
