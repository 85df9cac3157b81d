use vstd::prelude::*;

verus! {

use crate::geom::{div_trunc, Rgb, Vec2};
use crate::rng::RandomSource;

/// The closed set of enemy categories. Each category fixes a speed range,
/// a scale range, a particle-burst profile and a colour law.
#[derive(Clone, Copy, Debug, PartialEq, Eq, Structural)]
pub enum CrabType {
    Normal,
    Fast,
    Big,
    Sneaky,
}

/// One spawned enemy unit. Position and velocity direction are milli-unit
/// vectors, speed is milli-units per second, scale is milli (1000 = 1.0),
/// times are milliseconds.
#[derive(Clone, Copy, Debug, PartialEq, Eq, Structural)]
pub struct EnemyCrab {
    pub pos: Vec2,
    pub vel: Vec2,
    pub speed: i64,
    pub caught: bool,
    pub scale: i64,
    pub spawn_time: i64,
    pub crab_type: CrabType,
    pub spooked_timer: i64,
}

/// Speed range per category, in milli-units per second, half-open.
pub open spec fn spec_speed_range(t: CrabType) -> (int, int) {
    match t {
        CrabType::Normal => (50_000int, 100_000int),
        CrabType::Fast => (120_000int, 200_000int),
        CrabType::Big => (30_000int, 60_000int),
        CrabType::Sneaky => (80_000int, 140_000int),
    }
}

/// Scale range per category, milli, half-open.
pub open spec fn spec_scale_range(t: CrabType) -> (int, int) {
    match t {
        CrabType::Normal => (800int, 1200int),
        CrabType::Fast => (700int, 1000int),
        CrabType::Big => (1300int, 1800int),
        CrabType::Sneaky => (600int, 900int),
    }
}

impl CrabType {
    /// Draw a category independently and uniformly from the closed set.
    pub fn random<R: RandomSource>(rng: &mut R) -> (t: CrabType) {
        match rng.next_below(4) {
            0 => CrabType::Normal,
            1 => CrabType::Fast,
            2 => CrabType::Big,
            _ => CrabType::Sneaky,
        }
    }

    pub fn speed_range(&self) -> (r: (i64, i64))
        ensures
            r.0 == spec_speed_range(*self).0,
            r.1 == spec_speed_range(*self).1,
            0 < r.0 < r.1,
    {
        match self {
            CrabType::Normal => (50_000, 100_000),
            CrabType::Fast => (120_000, 200_000),
            CrabType::Big => (30_000, 60_000),
            CrabType::Sneaky => (80_000, 140_000),
        }
    }

    pub fn scale_range(&self) -> (r: (i64, i64))
        ensures
            r.0 == spec_scale_range(*self).0,
            r.1 == spec_scale_range(*self).1,
            0 < r.0 < r.1,
    {
        match self {
            CrabType::Normal => (800, 1200),
            CrabType::Fast => (700, 1000),
            CrabType::Big => (1300, 1800),
            CrabType::Sneaky => (600, 900),
        }
    }
}

/// An enemy is fully grown ten seconds after it spawns.
pub const AGE_FULL_MS: i64 = 10_000;

/// Normalized age, milli-scaled: `clamp(spawn_time / 10s, 0, 1)`.
pub open spec fn spec_age_ratio(spawn_time_ms: int) -> int
    recommends
        spawn_time_ms >= 0,
{
    if spawn_time_ms >= 10_000 {
        1000
    } else {
        spawn_time_ms / 10
    }
}

pub fn age_ratio_milli(spawn_time_ms: i64) -> (r: i64)
    requires
        spawn_time_ms >= 0,
    ensures
        r == spec_age_ratio(spawn_time_ms as int),
        0 <= r <= 1000,
{
    if spawn_time_ms >= AGE_FULL_MS {
        1000
    } else {
        spawn_time_ms / 10
    }
}

/// The size multiplier rises linearly from exactly 0.6 at spawn to exactly
/// 1.0 at full age: `600 + 400 * ratio / 1000`, milli-scaled.
pub open spec fn spec_growth_multiplier(spawn_time_ms: int) -> int {
    600 + (400 * spec_age_ratio(spawn_time_ms)) / 1000
}

pub fn growth_multiplier_milli(spawn_time_ms: i64) -> (m: i64)
    requires
        spawn_time_ms >= 0,
    ensures
        m == spec_growth_multiplier(spawn_time_ms as int),
        600 <= m <= 1000,
{
    let ratio = age_ratio_milli(spawn_time_ms);
    600 + (400 * ratio) / 1000
}

/// Effective display size: `base * multiplier * scale`, all milli-scaled,
/// each product rescaled by truncating division.
pub open spec fn spec_effective_size(base: int, scale: int, spawn_time_ms: int) -> int {
    ((base * spec_growth_multiplier(spawn_time_ms)) / 1000 * scale) / 1000
}

pub fn effective_size_milli(base: i64, scale: i64, spawn_time_ms: i64) -> (s: i64)
    requires
        0 <= base <= 1_000_000_000,
        0 <= scale <= 1_000_000_000,
        spawn_time_ms >= 0,
    ensures
        s == spec_effective_size(base as int, scale as int, spawn_time_ms as int),
        s >= 0,
{
    let m = growth_multiplier_milli(spawn_time_ms);
    proof {
        assert(0 <= base * m <= 1_000_000_000_000) by (nonlinear_arith)
            requires
                0 <= base <= 1_000_000_000,
                600 <= m <= 1000,
        ;
        vstd::arithmetic::div_mod::lemma_div_is_ordered(
            base as int * m as int,
            1_000_000_000_000,
            1000,
        );
        vstd::arithmetic::div_mod::lemma_div_pos_is_pos(base as int * m as int, 1000);
    }
    let grown = (base * m) / 1000;
    proof {
        assert(0 <= grown * scale <= 1_000_000_000_000_000_000) by (nonlinear_arith)
            requires
                0 <= grown <= 1_000_000_000,
                0 <= scale <= 1_000_000_000,
        ;
        vstd::arithmetic::div_mod::lemma_div_pos_is_pos(grown as int * scale as int, 1000);
    }
    (grown * scale) / 1000
}

/// The category colour law, interpolated by age ratio; channels are
/// 0..=255.
pub open spec fn spec_display_color(t: CrabType, spawn_time_ms: int) -> Rgb {
    let a = spec_age_ratio(spawn_time_ms);
    match t {
        CrabType::Normal => Rgb {
            r: ((255 * (600 + (400 * a) / 1000)) / 1000) as i64,
            g: ((100 * (1000 - a)) / 1000) as i64,
            b: ((100 * (1000 - a)) / 1000) as i64,
        },
        CrabType::Fast => Rgb { r: 255, g: ((180 * (1000 - a)) / 1000) as i64, b: 40 },
        CrabType::Big => Rgb { r: 180, g: 60, b: ((180 * (1000 - a)) / 1000) as i64 },
        CrabType::Sneaky => Rgb { r: 120, g: 220, b: 220 },
    }
}

pub fn display_color(t: CrabType, spawn_time_ms: i64) -> (c: Rgb)
    requires
        spawn_time_ms >= 0,
    ensures
        c == spec_display_color(t, spawn_time_ms as int),
        0 <= c.r <= 255,
        0 <= c.g <= 255,
        0 <= c.b <= 255,
{
    let a = age_ratio_milli(spawn_time_ms);
    match t {
        CrabType::Normal => Rgb {
            r: (255 * (600 + (400 * a) / 1000)) / 1000,
            g: (100 * (1000 - a)) / 1000,
            b: (100 * (1000 - a)) / 1000,
        },
        CrabType::Fast => Rgb { r: 255, g: (180 * (1000 - a)) / 1000, b: 40 },
        CrabType::Big => Rgb { r: 180, g: 60, b: (180 * (1000 - a)) / 1000 },
        CrabType::Sneaky => Rgb { r: 120, g: 220, b: 220 },
    }
}

/// Freshly spawned: the multiplier sits exactly at its 0.6 floor. Fully
/// aged, at ten seconds or any later time: exactly 1.0. The ratio clamps,
/// so further time changes nothing.
pub proof fn lemma_growth_multiplier_pins(spawn_time_ms: int)
    requires
        spawn_time_ms >= 0,
    ensures
        spawn_time_ms == 0 ==> spec_age_ratio(spawn_time_ms) == 0,
        spawn_time_ms == 0 ==> spec_growth_multiplier(spawn_time_ms) == 600,
        spawn_time_ms >= 10_000 ==> spec_age_ratio(spawn_time_ms) == 1000,
        spawn_time_ms >= 10_000 ==> spec_growth_multiplier(spawn_time_ms) == 1000,
{
}

} // verus!
