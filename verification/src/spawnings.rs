use vstd::prelude::*;

verus! {

use crate::enemies::{spec_scale_range, spec_speed_range, CrabType, EnemyCrab};
use crate::geom::{abs, div_trunc, mul_div, mul_div_trunc, Vec2};
use crate::rng::{draw_angle, draw_range, RandomSource};
use crate::trig::{dir_of, norm_deg, spec_cos_deg, spec_dir, spec_sin_deg};

/// The placement algorithm of one spawn request. The pattern itself
/// carries no data; count, area and centroid travel alongside it.
#[derive(Clone, Copy, Debug, PartialEq, Eq, Structural)]
pub enum SpawnPattern {
    UniformRandom,
    SineWave,
    Circle,
    Cluster,
    SingleRandom,
}

/// Widest accepted play-area extent, milli-units.
pub const AREA_CAP: i64 = 1_000_000_000;

/// Widest accepted centroid fraction magnitude, milli; out-of-range
/// fractions (outside `[0, 1000]`) are accepted as-is.
pub const CENTROID_FRAC_CAP: i64 = 1_000_000;

/// Largest accepted entity count per request.
pub const COUNT_CAP: usize = 1_000_000;

/// How many entities a request yields: exactly `count`, except that the
/// staggered-drip pattern clamps the count up to at least one.
pub open spec fn spec_spawn_count(pattern: SpawnPattern, count: int) -> int {
    match pattern {
        SpawnPattern::SingleRandom => if count < 1 {
            1int
        } else {
            count
        },
        _ => count,
    }
}

/// The centroid resolved to an absolute point: the fraction times the
/// extent, rescaled by truncating division.
pub open spec fn spec_centroid_abs(area: (i64, i64), centroid: (i64, i64)) -> (int, int) {
    (
        mul_div_trunc(centroid.0 as int, area.0 as int, 1000),
        mul_div_trunc(centroid.1 as int, area.1 as int, 1000),
    )
}

pub open spec fn spec_min(a: int, b: int) -> int {
    if a <= b {
        a
    } else {
        b
    }
}

/// The circle pattern's radius: 0.35 times the smaller extent.
pub open spec fn spec_circle_radius(area: (i64, i64)) -> int {
    (350 * spec_min(area.0 as int, area.1 as int)) / 1000
}

/// The i-th circle entity's angle: an even share of the full turn.
pub open spec fn spec_circle_angle(i: int, count: int) -> int
    recommends
        count >= 1,
{
    (i * 360) / count
}

/// The cluster pattern's disk radius: 0.1 times the smaller extent.
pub open spec fn spec_cluster_radius(area: (i64, i64)) -> int {
    (100 * spec_min(area.0 as int, area.1 as int)) / 1000
}

/// The i-th sine-wave entity's x: the centroid plus
/// `width * (i + 1/2) / count * 1/2`, in one truncating division.
pub open spec fn spec_sine_x(cx: int, w: int, count: int, i: int) -> int
    recommends
        count >= 1,
{
    cx + (w * (2 * i + 1)) / (4 * count)
}

/// The wave's amplitude: 0.3 times the height.
pub open spec fn spec_sine_amplitude(h: int) -> int {
    (300 * h) / 1000
}

/// The wave's phase at x: one full turn per width, reduced to `[0, 360)`.
pub open spec fn spec_sine_phase(w: int, x: int) -> int
    recommends
        w >= 1,
{
    div_trunc(x * 360, w) % 360
}

/// The sine-wave entity's y at a given x.
pub open spec fn spec_sine_y(cy: int, w: int, h: int, x: int) -> int
    recommends
        w >= 1,
{
    cy + mul_div_trunc(spec_sin_deg(spec_sine_phase(w, x)), spec_sine_amplitude(h), 1000)
}

/// `v` is a point of the fixed-point unit circle.
pub open spec fn spec_is_unit_dir(v: Vec2) -> bool {
    exists|a: int| 0 <= a < 360 && v == spec_dir(a)
}

/// Initialization common to every pattern: not caught, not spooked, and
/// speed and scale drawn from the entity's own category ranges.
pub open spec fn spec_common_init(c: EnemyCrab) -> bool {
    &&& !c.caught
    &&& c.spooked_timer == 0
    &&& spec_speed_range(c.crab_type).0 <= c.speed < spec_speed_range(c.crab_type).1
    &&& spec_scale_range(c.crab_type).0 <= c.scale < spec_scale_range(c.crab_type).1
}

/// The per-pattern placement law for the i-th produced entity.
pub open spec fn spec_placed(
    pattern: SpawnPattern,
    count: int,
    area: (i64, i64),
    centroid: (i64, i64),
    i: int,
    c: EnemyCrab,
) -> bool {
    let ca = spec_centroid_abs(area, centroid);
    match pattern {
        SpawnPattern::UniformRandom => {
            let dxc = (300 * area.0 as int) / 1000;
            let dyc = (300 * area.1 as int) / 1000;
            &&& ca.0 - dxc <= c.pos.x <= ca.0 + dxc
            &&& ca.1 - dyc <= c.pos.y <= ca.1 + dyc
            &&& spec_is_unit_dir(c.vel)
            &&& c.spawn_time == 0
        },
        SpawnPattern::SineWave => {
            &&& c.pos.x == spec_sine_x(ca.0, area.0 as int, count, i)
            &&& c.pos.y == spec_sine_y(ca.1, area.0 as int, area.1 as int, c.pos.x as int)
            &&& c.vel == spec_dir(90)
            &&& c.spawn_time == 0
        },
        SpawnPattern::Circle => {
            let a = spec_circle_angle(i, count);
            let radius = spec_circle_radius(area);
            &&& c.pos.x == ca.0 + mul_div_trunc(spec_cos_deg(a), radius, 1000)
            &&& c.pos.y == ca.1 + mul_div_trunc(spec_sin_deg(a), radius, 1000)
            &&& c.vel == spec_dir(a)
            &&& c.spawn_time == 0
        },
        SpawnPattern::Cluster => {
            &&& exists|a: int, d: int|
                {
                    &&& 0 <= a < 360
                    &&& 0 <= d <= spec_cluster_radius(area)
                    &&& c.vel == spec_dir(a)
                    &&& c.pos.x == ca.0 + mul_div_trunc(spec_cos_deg(a), d, 1000)
                    &&& c.pos.y == ca.1 + mul_div_trunc(spec_sin_deg(a), d, 1000)
                }
            &&& c.spawn_time == 0
        },
        SpawnPattern::SingleRandom => {
            &&& ca.0 - 50_000 <= c.pos.x <= ca.0 + 50_000
            &&& ca.1 - 50_000 <= c.pos.y <= ca.1 + 50_000
            &&& spec_is_unit_dir(c.vel)
            &&& c.spawn_time == 500 * i
        },
    }
}

/// Generate a positioned, initialized population of enemies from a
/// pattern, a count, a play area (milli-units), a fractional centroid
/// (milli) and a random source. Each entity's category is drawn from the
/// closed category set, its speed and scale from that category's ranges;
/// placement follows the pattern's law exactly.
#[verifier::rlimit(100)]
#[verifier::loop_isolation(false)]
pub fn spawn_enemies<R: RandomSource>(
    pattern: SpawnPattern,
    count: usize,
    area: (i64, i64),
    centroid: (i64, i64),
    rng: &mut R,
) -> (crabs: Vec<EnemyCrab>)
    requires
        0 <= area.0 <= AREA_CAP,
        0 <= area.1 <= AREA_CAP,
        -CENTROID_FRAC_CAP <= centroid.0 <= CENTROID_FRAC_CAP,
        -CENTROID_FRAC_CAP <= centroid.1 <= CENTROID_FRAC_CAP,
        count <= COUNT_CAP,
        pattern == SpawnPattern::SineWave ==> area.0 >= 1,
    ensures
        crabs@.len() == spec_spawn_count(pattern, count as int),
        forall|i: int| 0 <= i < crabs@.len() ==> spec_common_init(#[trigger] crabs@[i]),
        forall|i: int|
            0 <= i < crabs@.len() ==> spec_placed(
                pattern,
                count as int,
                area,
                centroid,
                i,
                #[trigger] crabs@[i],
            ),
{
    proof {
        crate::geom::lemma_abs_mul_bound(
            centroid.0 as int,
            area.0 as int,
            1_000_000,
            1_000_000_000,
        );
        crate::geom::lemma_abs_mul_bound(
            centroid.1 as int,
            area.1 as int,
            1_000_000,
            1_000_000_000,
        );
    }
    let cx = mul_div(centroid.0, area.0, 1000);
    let cy = mul_div(centroid.1, area.1, 1000);
    proof {
        crate::geom::lemma_div_trunc_bound(
            centroid.0 as int * area.0 as int,
            1000,
            1_000_000_000_000,
        );
        crate::geom::lemma_div_trunc_bound(
            centroid.1 as int * area.1 as int,
            1000,
            1_000_000_000_000,
        );
    }
    let mut crabs: Vec<EnemyCrab> = Vec::new();
    match pattern {
        SpawnPattern::UniformRandom => {
            let dxc = mul_div(300, area.0, 1000);
            let dyc = mul_div(300, area.1, 1000);
            proof {
                vstd::arithmetic::div_mod::lemma_div_pos_is_pos(300 * area.0 as int, 1000);
                vstd::arithmetic::div_mod::lemma_div_pos_is_pos(300 * area.1 as int, 1000);
                vstd::arithmetic::div_mod::lemma_div_is_ordered(
                    300 * area.0 as int,
                    300_000_000_000,
                    1000,
                );
                vstd::arithmetic::div_mod::lemma_div_is_ordered(
                    300 * area.1 as int,
                    300_000_000_000,
                    1000,
                );
            }
            for idx in 0..count
                invariant
                    crabs@.len() == idx,
                    forall|i: int| 0 <= i < idx ==> spec_common_init(#[trigger] crabs@[i]),
                    forall|i: int|
                        0 <= i < idx ==> spec_placed(
                            SpawnPattern::UniformRandom,
                            count as int,
                            area,
                            centroid,
                            i,
                            #[trigger] crabs@[i],
                        ),
            {
                let dx = draw_range(rng, -dxc, dxc);
                let dy = draw_range(rng, -dyc, dyc);
                let ang = draw_angle(rng);
                let vel = dir_of(ang);
                let crab_type = CrabType::random(rng);
                let sr = crab_type.speed_range();
                let speed = draw_range(rng, sr.0, sr.1);
                let kr = crab_type.scale_range();
                let scale = draw_range(rng, kr.0, kr.1);
                let c = EnemyCrab {
                    pos: Vec2 { x: cx + dx, y: cy + dy },
                    vel,
                    speed,
                    caught: false,
                    scale,
                    spawn_time: 0,
                    crab_type,
                    spooked_timer: 0,
                };
                crabs.push(c);
                proof {
                    assert(spec_is_unit_dir(c.vel));
                }
            }
        },
        SpawnPattern::SineWave => {
            let w = area.0;
            let h = area.1;
            let amp = mul_div(300, h, 1000);
            proof {
                vstd::arithmetic::div_mod::lemma_div_pos_is_pos(300 * h as int, 1000);
                vstd::arithmetic::div_mod::lemma_div_is_ordered(
                    300 * h as int,
                    300_000_000_000,
                    1000,
                );
            }
            for idx in 0..count
                invariant
                    crabs@.len() == idx,
                    forall|i: int| 0 <= i < idx ==> spec_common_init(#[trigger] crabs@[i]),
                    forall|i: int|
                        0 <= i < idx ==> spec_placed(
                            SpawnPattern::SineWave,
                            count as int,
                            area,
                            centroid,
                            i,
                            #[trigger] crabs@[i],
                        ),
            {
                let i64_idx = idx as i64;
                proof {
                    crate::geom::lemma_abs_mul_bound(
                        w as int,
                        2 * i64_idx as int + 1,
                        1_000_000_000,
                        4_000_000,
                    );
                    vstd::arithmetic::mul::lemma_mul_nonnegative(
                        w as int,
                        2 * i64_idx as int + 1,
                    );
                    vstd::arithmetic::mul::lemma_mul_inequality(
                        2 * i64_idx as int + 1,
                        4 * count as int,
                        w as int,
                    );
                    crate::geom::lemma_div_trunc_bound(
                        w as int * (2 * i64_idx as int + 1),
                        4 * count as int,
                        w as int,
                    );
                }
                let xoff = mul_div(w, 2 * i64_idx + 1, 4 * (count as i64));
                let x = cx + xoff;
                let phase_raw = mul_div(x, 360, w);
                proof {
                    vstd::arithmetic::mul::lemma_mul_inequality(1, w as int, abs(x as int * 360));
                    crate::geom::lemma_div_trunc_bound(
                        x as int * 360,
                        w as int,
                        abs(x as int * 360),
                    );
                }
                let phase = norm_deg(phase_raw);
                let sinv = sin_deg_checked(phase);
                proof {
                    crate::geom::lemma_abs_mul_bound(sinv as int, amp as int, 1000, 300_000_000);
                    crate::geom::lemma_div_trunc_bound(sinv as int * amp as int, 1000, 300_000_000);
                }
                let y = cy + mul_div(sinv, amp, 1000);
                let vel = dir_of(90);
                let crab_type = CrabType::random(rng);
                let sr = crab_type.speed_range();
                let speed = draw_range(rng, sr.0, sr.1);
                let kr = crab_type.scale_range();
                let scale = draw_range(rng, kr.0, kr.1);
                let c = EnemyCrab {
                    pos: Vec2 { x, y },
                    vel,
                    speed,
                    caught: false,
                    scale,
                    spawn_time: 0,
                    crab_type,
                    spooked_timer: 0,
                };
                crabs.push(c);
            }
        },
        SpawnPattern::Circle => {
            let minwh = if area.0 <= area.1 {
                area.0
            } else {
                area.1
            };
            let radius = mul_div(350, minwh, 1000);
            proof {
                vstd::arithmetic::div_mod::lemma_div_pos_is_pos(350 * minwh as int, 1000);
                vstd::arithmetic::div_mod::lemma_div_is_ordered(
                    350 * minwh as int,
                    350_000_000_000,
                    1000,
                );
            }
            for idx in 0..count
                invariant
                    crabs@.len() == idx,
                    forall|i: int| 0 <= i < idx ==> spec_common_init(#[trigger] crabs@[i]),
                    forall|i: int|
                        0 <= i < idx ==> spec_placed(
                            SpawnPattern::Circle,
                            count as int,
                            area,
                            centroid,
                            i,
                            #[trigger] crabs@[i],
                        ),
            {
                proof {
                    vstd::arithmetic::div_mod::lemma_div_pos_is_pos(
                        idx as int * 360,
                        count as int,
                    );
                    vstd::arithmetic::div_mod::lemma_multiply_divide_lt(
                        idx as int * 360,
                        count as int,
                        360,
                    );
                }
                let ang = ((idx as u64) * 360) / (count as u64);
                let vel = dir_of(ang);
                proof {
                    crate::geom::lemma_abs_mul_bound(vel.x as int, radius as int, 1000, 350_000_000);
                    crate::geom::lemma_abs_mul_bound(vel.y as int, radius as int, 1000, 350_000_000);
                    crate::geom::lemma_div_trunc_bound(vel.x as int * radius as int, 1000, 350_000_000);
                    crate::geom::lemma_div_trunc_bound(vel.y as int * radius as int, 1000, 350_000_000);
                }
                let px = cx + mul_div(vel.x, radius, 1000);
                let py = cy + mul_div(vel.y, radius, 1000);
                let crab_type = CrabType::random(rng);
                let sr = crab_type.speed_range();
                let speed = draw_range(rng, sr.0, sr.1);
                let kr = crab_type.scale_range();
                let scale = draw_range(rng, kr.0, kr.1);
                let c = EnemyCrab {
                    pos: Vec2 { x: px, y: py },
                    vel,
                    speed,
                    caught: false,
                    scale,
                    spawn_time: 0,
                    crab_type,
                    spooked_timer: 0,
                };
                crabs.push(c);
            }
        },
        SpawnPattern::Cluster => {
            let minwh = if area.0 <= area.1 {
                area.0
            } else {
                area.1
            };
            let dcap = mul_div(100, minwh, 1000);
            proof {
                vstd::arithmetic::div_mod::lemma_div_pos_is_pos(100 * minwh as int, 1000);
                vstd::arithmetic::div_mod::lemma_div_is_ordered(
                    100 * minwh as int,
                    100_000_000_000,
                    1000,
                );
            }
            for idx in 0..count
                invariant
                    crabs@.len() == idx,
                    forall|i: int| 0 <= i < idx ==> spec_common_init(#[trigger] crabs@[i]),
                    forall|i: int|
                        0 <= i < idx ==> spec_placed(
                            SpawnPattern::Cluster,
                            count as int,
                            area,
                            centroid,
                            i,
                            #[trigger] crabs@[i],
                        ),
            {
                let ang = draw_angle(rng);
                let vel = dir_of(ang);
                let d = draw_range(rng, 0, dcap);
                proof {
                    crate::geom::lemma_abs_mul_bound(vel.x as int, d as int, 1000, 100_000_000);
                    crate::geom::lemma_abs_mul_bound(vel.y as int, d as int, 1000, 100_000_000);
                    crate::geom::lemma_div_trunc_bound(vel.x as int * d as int, 1000, 100_000_000);
                    crate::geom::lemma_div_trunc_bound(vel.y as int * d as int, 1000, 100_000_000);
                }
                let px = cx + mul_div(vel.x, d, 1000);
                let py = cy + mul_div(vel.y, d, 1000);
                let crab_type = CrabType::random(rng);
                let sr = crab_type.speed_range();
                let speed = draw_range(rng, sr.0, sr.1);
                let kr = crab_type.scale_range();
                let scale = draw_range(rng, kr.0, kr.1);
                let c = EnemyCrab {
                    pos: Vec2 { x: px, y: py },
                    vel,
                    speed,
                    caught: false,
                    scale,
                    spawn_time: 0,
                    crab_type,
                    spooked_timer: 0,
                };
                crabs.push(c);
                proof {
                    let a = ang as int;
                    let dd = d as int;
                    assert(0 <= a < 360 && 0 <= dd <= spec_cluster_radius(area) && c.vel
                        == spec_dir(a) && c.pos.x == spec_centroid_abs(area, centroid).0
                        + mul_div_trunc(spec_cos_deg(a), dd, 1000) && c.pos.y
                        == spec_centroid_abs(area, centroid).1 + mul_div_trunc(
                        spec_sin_deg(a),
                        dd,
                        1000,
                    ));
                }
            }
        },
        SpawnPattern::SingleRandom => {
            let n = if count < 1 {
                1
            } else {
                count
            };
            for idx in 0..n
                invariant
                    n == spec_spawn_count(SpawnPattern::SingleRandom, count as int),
                    crabs@.len() == idx,
                    forall|i: int| 0 <= i < idx ==> spec_common_init(#[trigger] crabs@[i]),
                    forall|i: int|
                        0 <= i < idx ==> spec_placed(
                            SpawnPattern::SingleRandom,
                            count as int,
                            area,
                            centroid,
                            i,
                            #[trigger] crabs@[i],
                        ),
            {
                let ang = draw_angle(rng);
                let vel = dir_of(ang);
                let dx = draw_range(rng, -50_000, 50_000);
                let dy = draw_range(rng, -50_000, 50_000);
                let crab_type = CrabType::random(rng);
                let sr = crab_type.speed_range();
                let speed = draw_range(rng, sr.0, sr.1);
                let kr = crab_type.scale_range();
                let scale = draw_range(rng, kr.0, kr.1);
                let c = EnemyCrab {
                    pos: Vec2 { x: cx + dx, y: cy + dy },
                    vel,
                    speed,
                    caught: false,
                    scale,
                    spawn_time: 500 * (idx as i64),
                    crab_type,
                    spooked_timer: 0,
                };
                crabs.push(c);
                proof {
                    assert(spec_is_unit_dir(c.vel));
                }
            }
        },
    }
    crabs
}

/// Cluster entities land inside the pattern's disk: the squared distance
/// from the resolved centroid never exceeds the squared cluster radius.
pub proof fn lemma_cluster_within(
    area: (i64, i64),
    centroid: (i64, i64),
    count: int,
    i: int,
    c: EnemyCrab,
)
    requires
        0 <= area.0 <= AREA_CAP,
        0 <= area.1 <= AREA_CAP,
        spec_placed(SpawnPattern::Cluster, count, area, centroid, i, c),
    ensures
        ({
            let ca = spec_centroid_abs(area, centroid);
            let r = spec_cluster_radius(area);
            (c.pos.x - ca.0) * (c.pos.x - ca.0) + (c.pos.y - ca.1) * (c.pos.y - ca.1) <= r * r
        }),
{
    let ca = spec_centroid_abs(area, centroid);
    let r = spec_cluster_radius(area);
    let m = spec_min(area.0 as int, area.1 as int);
    vstd::arithmetic::div_mod::lemma_div_pos_is_pos(100 * m, 1000);
    vstd::arithmetic::div_mod::lemma_div_is_ordered(100 * m, 100_000_000_000, 1000);
    let (a, dd) = choose|a: int, dd: int|
        {
            &&& 0 <= a < 360
            &&& 0 <= dd <= spec_cluster_radius(area)
            &&& c.vel == spec_dir(a)
            &&& c.pos.x == ca.0 + mul_div_trunc(spec_cos_deg(a), dd, 1000)
            &&& c.pos.y == ca.1 + mul_div_trunc(spec_sin_deg(a), dd, 1000)
        };
    crate::trig::lemma_sin_deg_bounds(a);
    crate::trig::lemma_dir_norm(a);
    crate::geom::lemma_scaled_dir_within(spec_cos_deg(a), spec_sin_deg(a), dd);
    let qx = crate::geom::div_trunc(spec_cos_deg(a) * dd, 1000);
    let qy = crate::geom::div_trunc(spec_sin_deg(a) * dd, 1000);
    assert(qx * qx + qy * qy <= dd * dd);
    assert(dd * dd <= r * r) by (nonlinear_arith)
        requires
            0 <= dd <= r,
    ;
}

/// Circle entities lie on the pattern's ring: the squared distance from
/// the resolved centroid is the squared radius, up to the tabulated unit
/// circle's one-percent shortfall, for radii of at least one unit.
pub proof fn lemma_circle_on_ring(
    area: (i64, i64),
    centroid: (i64, i64),
    count: int,
    i: int,
    c: EnemyCrab,
)
    requires
        0 <= area.0 <= AREA_CAP,
        0 <= area.1 <= AREA_CAP,
        1 <= count,
        0 <= i < count,
        spec_placed(SpawnPattern::Circle, count, area, centroid, i, c),
        spec_circle_radius(area) >= 1000,
    ensures
        ({
            let ca = spec_centroid_abs(area, centroid);
            let r = spec_circle_radius(area);
            let dist2 = (c.pos.x - ca.0) * (c.pos.x - ca.0) + (c.pos.y - ca.1) * (c.pos.y
                - ca.1);
            ((99 * r) / 100) * ((99 * r) / 100) <= dist2 <= r * r
        }),
{
    let ca = spec_centroid_abs(area, centroid);
    let r = spec_circle_radius(area);
    let m = spec_min(area.0 as int, area.1 as int);
    vstd::arithmetic::div_mod::lemma_div_is_ordered(350 * m, 350_000_000_000, 1000);
    let a = spec_circle_angle(i, count);
    vstd::arithmetic::div_mod::lemma_div_pos_is_pos(i * 360, count);
    vstd::arithmetic::div_mod::lemma_multiply_divide_lt(i * 360, count, 360);
    crate::trig::lemma_sin_deg_bounds(a);
    crate::trig::lemma_dir_norm(a);
    crate::geom::lemma_scaled_dir_within(spec_cos_deg(a), spec_sin_deg(a), r);
    crate::geom::lemma_scaled_dir_near(spec_cos_deg(a), spec_sin_deg(a), r);
}

/// Sine with the normalization the wave loop needs, bounds included.
fn sin_deg_checked(a: u64) -> (r: i64)
    requires
        a < 360,
    ensures
        r == spec_sin_deg(a as int),
        -1000 <= r <= 1000,
{
    proof {
        crate::trig::lemma_sin_deg_bounds(a as int);
    }
    crate::trig::sin_deg(a)
}

} // verus!
