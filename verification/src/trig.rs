use vstd::prelude::*;

verus! {

use crate::geom::Vec2;

/// `floor(1000 * sin(d degrees))` for `d` in `0..=90`, tabulated so that
/// the unit circle is available to integer-only code and proofs.
pub open spec fn sin_table(d: int) -> int {
    if d == 0 { 0 } else
    if d == 1 { 17 } else
    if d == 2 { 34 } else
    if d == 3 { 52 } else
    if d == 4 { 69 } else
    if d == 5 { 87 } else
    if d == 6 { 104 } else
    if d == 7 { 121 } else
    if d == 8 { 139 } else
    if d == 9 { 156 } else
    if d == 10 { 173 } else
    if d == 11 { 190 } else
    if d == 12 { 207 } else
    if d == 13 { 224 } else
    if d == 14 { 241 } else
    if d == 15 { 258 } else
    if d == 16 { 275 } else
    if d == 17 { 292 } else
    if d == 18 { 309 } else
    if d == 19 { 325 } else
    if d == 20 { 342 } else
    if d == 21 { 358 } else
    if d == 22 { 374 } else
    if d == 23 { 390 } else
    if d == 24 { 406 } else
    if d == 25 { 422 } else
    if d == 26 { 438 } else
    if d == 27 { 453 } else
    if d == 28 { 469 } else
    if d == 29 { 484 } else
    if d == 30 { 499 } else
    if d == 31 { 515 } else
    if d == 32 { 529 } else
    if d == 33 { 544 } else
    if d == 34 { 559 } else
    if d == 35 { 573 } else
    if d == 36 { 587 } else
    if d == 37 { 601 } else
    if d == 38 { 615 } else
    if d == 39 { 629 } else
    if d == 40 { 642 } else
    if d == 41 { 656 } else
    if d == 42 { 669 } else
    if d == 43 { 681 } else
    if d == 44 { 694 } else
    if d == 45 { 707 } else
    if d == 46 { 719 } else
    if d == 47 { 731 } else
    if d == 48 { 743 } else
    if d == 49 { 754 } else
    if d == 50 { 766 } else
    if d == 51 { 777 } else
    if d == 52 { 788 } else
    if d == 53 { 798 } else
    if d == 54 { 809 } else
    if d == 55 { 819 } else
    if d == 56 { 829 } else
    if d == 57 { 838 } else
    if d == 58 { 848 } else
    if d == 59 { 857 } else
    if d == 60 { 866 } else
    if d == 61 { 874 } else
    if d == 62 { 882 } else
    if d == 63 { 891 } else
    if d == 64 { 898 } else
    if d == 65 { 906 } else
    if d == 66 { 913 } else
    if d == 67 { 920 } else
    if d == 68 { 927 } else
    if d == 69 { 933 } else
    if d == 70 { 939 } else
    if d == 71 { 945 } else
    if d == 72 { 951 } else
    if d == 73 { 956 } else
    if d == 74 { 961 } else
    if d == 75 { 965 } else
    if d == 76 { 970 } else
    if d == 77 { 974 } else
    if d == 78 { 978 } else
    if d == 79 { 981 } else
    if d == 80 { 984 } else
    if d == 81 { 987 } else
    if d == 82 { 990 } else
    if d == 83 { 992 } else
    if d == 84 { 994 } else
    if d == 85 { 996 } else
    if d == 86 { 997 } else
    if d == 87 { 998 } else
    if d == 88 { 999 } else
    if d == 89 { 999 } else { 1000 }
}

pub fn sin_quarter(d: u64) -> (r: i64)
    requires
        d <= 90,
    ensures
        r == sin_table(d as int),
{
    match d {
        0 => 0,
        1 => 17,
        2 => 34,
        3 => 52,
        4 => 69,
        5 => 87,
        6 => 104,
        7 => 121,
        8 => 139,
        9 => 156,
        10 => 173,
        11 => 190,
        12 => 207,
        13 => 224,
        14 => 241,
        15 => 258,
        16 => 275,
        17 => 292,
        18 => 309,
        19 => 325,
        20 => 342,
        21 => 358,
        22 => 374,
        23 => 390,
        24 => 406,
        25 => 422,
        26 => 438,
        27 => 453,
        28 => 469,
        29 => 484,
        30 => 499,
        31 => 515,
        32 => 529,
        33 => 544,
        34 => 559,
        35 => 573,
        36 => 587,
        37 => 601,
        38 => 615,
        39 => 629,
        40 => 642,
        41 => 656,
        42 => 669,
        43 => 681,
        44 => 694,
        45 => 707,
        46 => 719,
        47 => 731,
        48 => 743,
        49 => 754,
        50 => 766,
        51 => 777,
        52 => 788,
        53 => 798,
        54 => 809,
        55 => 819,
        56 => 829,
        57 => 838,
        58 => 848,
        59 => 857,
        60 => 866,
        61 => 874,
        62 => 882,
        63 => 891,
        64 => 898,
        65 => 906,
        66 => 913,
        67 => 920,
        68 => 927,
        69 => 933,
        70 => 939,
        71 => 945,
        72 => 951,
        73 => 956,
        74 => 961,
        75 => 965,
        76 => 970,
        77 => 974,
        78 => 978,
        79 => 981,
        80 => 984,
        81 => 987,
        82 => 990,
        83 => 992,
        84 => 994,
        85 => 996,
        86 => 997,
        87 => 998,
        88 => 999,
        89 => 999,
        _ => 1000,
    }
}

/// Sine on the fixed-point unit circle, for a normalized angle in `[0, 360)`,
/// scaled by 1000.
pub open spec fn spec_sin_deg(a: int) -> int
    recommends
        0 <= a < 360,
{
    if a <= 90 {
        sin_table(a)
    } else if a <= 180 {
        sin_table(180 - a)
    } else if a <= 270 {
        -sin_table(a - 180)
    } else {
        -sin_table(360 - a)
    }
}

/// Cosine as the sine of the angle a quarter turn ahead.
pub open spec fn spec_cos_deg(a: int) -> int
    recommends
        0 <= a < 360,
{
    spec_sin_deg((a + 90) % 360)
}

pub fn sin_deg(a: u64) -> (r: i64)
    requires
        a < 360,
    ensures
        r == spec_sin_deg(a as int),
{
    if a <= 90 {
        sin_quarter(a)
    } else if a <= 180 {
        sin_quarter(180 - a)
    } else if a <= 270 {
        -sin_quarter(a - 180)
    } else {
        -sin_quarter(360 - a)
    }
}

pub fn cos_deg(a: u64) -> (r: i64)
    requires
        a < 360,
    ensures
        r == spec_cos_deg(a as int),
{
    sin_deg((a + 90) % 360)
}

/// The fixed-point unit direction of an angle: `(cos, sin)`, scaled by 1000.
pub open spec fn spec_dir(a: int) -> Vec2
    recommends
        0 <= a < 360,
{
    Vec2 { x: spec_cos_deg(a) as i64, y: spec_sin_deg(a) as i64 }
}

pub fn dir_of(a: u64) -> (v: Vec2)
    requires
        a < 360,
    ensures
        v == spec_dir(a as int),
        v.x == spec_cos_deg(a as int),
        v.y == spec_sin_deg(a as int),
        -1000 <= v.x <= 1000,
        -1000 <= v.y <= 1000,
{
    proof {
        lemma_sin_deg_bounds(a as int);
        lemma_sin_deg_bounds(((a + 90) % 360) as int);
    }
    Vec2 { x: cos_deg(a), y: sin_deg(a) }
}

/// The table stays within the fixed-point unit interval.
pub proof fn lemma_sin_table_bounds(d: int)
    requires
        0 <= d <= 90,
    ensures
        0 <= sin_table(d) <= 1000,
{
}

/// Sine and cosine stay within the fixed-point unit interval.
pub proof fn lemma_sin_deg_bounds(a: int)
    requires
        0 <= a < 360,
    ensures
        -1000 <= spec_sin_deg(a) <= 1000,
        -1000 <= spec_cos_deg(a) <= 1000,
{
    if a <= 90 {
        lemma_sin_table_bounds(a);
    } else if a <= 180 {
        lemma_sin_table_bounds(180 - a);
    } else if a <= 270 {
        lemma_sin_table_bounds(a - 180);
    } else {
        lemma_sin_table_bounds(360 - a);
    }
    let c = (a + 90) % 360;
    if c <= 90 {
        lemma_sin_table_bounds(c);
    } else if c <= 180 {
        lemma_sin_table_bounds(180 - c);
    } else if c <= 270 {
        lemma_sin_table_bounds(c - 180);
    } else {
        lemma_sin_table_bounds(360 - c);
    }
}

/// Floor rounding keeps the tabulated quarter-wave pairs within one
/// percent of the unit circle, and never outside it.
#[verifier::rlimit(100)]
pub proof fn lemma_sin_table_norm(d: int)
    requires
        0 <= d <= 90,
    ensures
        997789 <= sin_table(d) * sin_table(d) + sin_table(90 - d) * sin_table(90 - d)
            <= 1000000,
{
}

/// Sine and cosine of any angle form such a pair, so their squared norm
/// lies within one percent of the fixed-point unit.
#[verifier::rlimit(100)]
pub proof fn lemma_dir_norm(a: int)
    requires
        0 <= a < 360,
    ensures
        997789 <= spec_sin_deg(a) * spec_sin_deg(a) + spec_cos_deg(a) * spec_cos_deg(a)
            <= 1000000,
{
    let s = spec_sin_deg(a);
    let c = spec_cos_deg(a);
    if a <= 90 {
        lemma_sin_table_norm(a);
        assert(s == sin_table(a));
        assert(c == sin_table(90 - a));
    } else if a <= 180 {
        lemma_sin_table_norm(180 - a);
        assert(s == sin_table(180 - a));
        assert(c == -sin_table(a - 90));
        assert(c * c == sin_table(a - 90) * sin_table(a - 90)) by (nonlinear_arith)
            requires
                c == -sin_table(a - 90),
        ;
    } else if a <= 270 {
        lemma_sin_table_norm(a - 180);
        assert(s == -sin_table(a - 180));
        assert(c == -sin_table(270 - a));
        assert(s * s == sin_table(a - 180) * sin_table(a - 180)) by (nonlinear_arith)
            requires
                s == -sin_table(a - 180),
        ;
        assert(c * c == sin_table(270 - a) * sin_table(270 - a)) by (nonlinear_arith)
            requires
                c == -sin_table(270 - a),
        ;
    } else {
        lemma_sin_table_norm(360 - a);
        assert(s == -sin_table(360 - a));
        assert(c == sin_table(a - 270));
        assert(s * s == sin_table(360 - a) * sin_table(360 - a)) by (nonlinear_arith)
            requires
                s == -sin_table(360 - a),
        ;
    }
}

/// Reduce an angle, given in degrees of either sign, to its class in
/// `[0, 360)`; the result is the Euclidean remainder.
pub fn norm_deg(a: i64) -> (r: u64)
    requires
        -1_000_000_000_000_000 <= a <= 1_000_000_000_000_000,
    ensures
        r == (a as int) % 360,
        r < 360,
{
    let shifted: i64 = a + 360 * 3_000_000_000_000;
    proof {
        vstd::arithmetic::div_mod::lemma_mod_multiples_vanish(
            3_000_000_000_000,
            a as int,
            360,
        );
        vstd::arithmetic::div_mod::lemma_mod_bound(shifted as int, 360);
    }
    (shifted as u64) % 360
}

} // verus!
