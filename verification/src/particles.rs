use vstd::prelude::*;

verus! {

use crate::enemies::CrabType;
use crate::geom::{
    abs, clamp_i64, div_trunc, lemma_abs_mul_bound, lemma_div_trunc_bound, mul_div,
    mul_div_trunc, spec_clamp, Rgb, Vec2,
};
use crate::rng::{draw_angle, draw_range, RandomSource};
use crate::trig::dir_of;

/// Longest life a burst ever hands a particle, milliseconds (exclusive
/// draws stay below it).
pub const LIFE_CAP_MS: i64 = 1800;

/// Longest accepted frame delta, milliseconds.
pub const DT_CAP_MS: i64 = 1_000_000;

/// Largest velocity-component magnitude the integration can reach,
/// milli-units per second: the drag/gravity fixed point at the longest
/// frame delta.
pub const VEL_CAP: i64 = 4_800_000_000;

/// How far a velocity component can move a particle per millisecond of
/// life: `VEL_CAP / 1000`.
pub const DRIFT_PER_MS: i64 = 4_800_000;

/// Widest accepted burst position magnitude, milli-units.
pub const POS_CAP: i64 = 1_000_000_000_000;

/// Largest particle size, milli-units.
pub const SIZE_CAP: i64 = 1_000_000_000;

/// One transient visual effect unit. Position and velocity are milli-unit
/// vectors (velocity per second), lives are milliseconds, size is
/// milli-units, colour channels are milli-scaled (0..=1000).
#[derive(Clone, Copy, Debug, PartialEq, Eq, Structural)]
pub struct Particle {
    pub pos: Vec2,
    pub vel: Vec2,
    pub life: i64,
    pub max_life: i64,
    pub size: i64,
    pub color: Rgb,
}

/// Bounds every stored particle obeys; they keep each integration step
/// within machine range. The position allowance widens as life is spent,
/// by exactly the largest possible drift per millisecond.
pub open spec fn wf_particle(p: Particle) -> bool {
    &&& 1 <= p.max_life <= LIFE_CAP_MS
    &&& 1 <= p.life <= p.max_life
    &&& abs(p.vel.x as int) <= VEL_CAP
    &&& abs(p.vel.y as int) <= VEL_CAP
    &&& abs(p.pos.x as int) <= POS_CAP + (LIFE_CAP_MS - p.life) * DRIFT_PER_MS
    &&& abs(p.pos.y as int) <= POS_CAP + (LIFE_CAP_MS - p.life) * DRIFT_PER_MS
    &&& 0 <= p.size <= SIZE_CAP
}

/// A particle outlives an integration step exactly when the delta leaves
/// it positive remaining life.
pub open spec fn spec_survives(p: Particle, dt: int) -> bool {
    p.life - dt > 0
}

/// One integration step of a single particle: life loses the delta,
/// position advances by the old velocity, gravity then drag act on the
/// velocity, and the size shrinks with the spent-life ratio.
pub open spec fn spec_step(p: Particle, dt: int) -> Particle {
    let life2 = p.life - dt;
    let vely1 = p.vel.y + 200 * dt;
    let ratio = div_trunc(life2 * 1000, p.max_life as int);
    Particle {
        pos: Vec2 {
            x: (p.pos.x + div_trunc(p.vel.x as int * dt, 1000)) as i64,
            y: (p.pos.y + div_trunc(p.vel.y as int * dt, 1000)) as i64,
        },
        vel: Vec2 {
            x: div_trunc(p.vel.x as int * 96, 100) as i64,
            y: div_trunc(vely1 * 96, 100) as i64,
        },
        life: life2 as i64,
        max_life: p.max_life,
        size: div_trunc(p.size as int * (950 + div_trunc(50 * ratio, 1000)), 1000) as i64,
        color: p.color,
    }
}

/// One integration pass over a whole population: every particle steps,
/// then exactly the expired ones leave; the order of the rest is kept.
pub open spec fn spec_integrate(s: Seq<Particle>, dt: int) -> Seq<Particle>
    decreases s.len(),
{
    if s.len() == 0 {
        Seq::empty()
    } else {
        let rest = spec_integrate(s.drop_last(), dt);
        if spec_survives(s.last(), dt) {
            rest.push(spec_step(s.last(), dt))
        } else {
            rest
        }
    }
}

/// How many primary particles a category's burst emits.
pub open spec fn spec_primary_count(t: CrabType) -> int {
    match t {
        CrabType::Normal => 20int,
        CrabType::Fast => 35int,
        CrabType::Big => 40int,
        CrabType::Sneaky => 15int,
    }
}

/// Whether the category fires its own secondary sparkle burst.
pub open spec fn spec_has_special(t: CrabType) -> bool {
    match t {
        CrabType::Fast => true,
        CrabType::Sneaky => true,
        _ => false,
    }
}

/// How many sparkles follow the primary burst: the category's own count
/// when it flags a special burst, else eight generic bright sparkles.
pub open spec fn spec_sparkle_count(t: CrabType) -> int {
    match t {
        CrabType::Fast => 15int,
        CrabType::Sneaky => 8int,
        _ => 8int,
    }
}

/// Every particle one burst contributes.
pub open spec fn spec_burst_count(t: CrabType) -> int {
    spec_primary_count(t) + spec_sparkle_count(t)
}

/// Primary speed range per category, milli-units per second, half-open.
pub open spec fn spec_primary_speed_range(t: CrabType) -> (int, int) {
    match t {
        CrabType::Normal => (80_000int, 180_000int),
        CrabType::Fast => (120_000int, 300_000int),
        CrabType::Big => (60_000int, 150_000int),
        CrabType::Sneaky => (100_000int, 250_000int),
    }
}

/// Primary size range per category, milli-units, half-open.
pub open spec fn spec_primary_size_range(t: CrabType) -> (int, int) {
    match t {
        CrabType::Normal => (3000int, 6000int),
        CrabType::Fast => (2000int, 5000int),
        CrabType::Big => (4000int, 10_000int),
        CrabType::Sneaky => (1500int, 4000int),
    }
}

/// Sparkle speed range: hotter for a special burst.
pub open spec fn spec_sparkle_speed_range(t: CrabType) -> (int, int) {
    if spec_has_special(t) {
        (150_000int, 400_000int)
    } else {
        (120_000int, 300_000int)
    }
}

/// Sparkle life range, milliseconds, half-open.
pub open spec fn spec_sparkle_life_range(t: CrabType) -> (int, int) {
    if spec_has_special(t) {
        (400int, 1000int)
    } else {
        (400int, 800int)
    }
}

/// Sparkle size range, milli-units, half-open.
pub open spec fn spec_sparkle_size_range(t: CrabType) -> (int, int) {
    if spec_has_special(t) {
        (1000int, 3000int)
    } else {
        (1500int, 4000int)
    }
}

/// The fixed sparkle colour: warm gold for Fast, cool blue for Sneaky,
/// near-white for the generic sparkles.
pub open spec fn spec_sparkle_color(t: CrabType) -> Rgb {
    match t {
        CrabType::Fast => Rgb { r: 1000, g: 800, b: 200 },
        CrabType::Sneaky => Rgb { r: 700, g: 900, b: 1000 },
        _ => Rgb { r: 1000, g: 1000, b: 900 },
    }
}

/// One colour channel brightened by the burst's shared offset, clamped
/// to the unit interval.
pub open spec fn spec_boosted(chan: int, w: int) -> int {
    spec_clamp(chan + w, 0, 1000)
}

/// A velocity from an angle of the unit circle and a scalar speed.
pub open spec fn spec_vel_of(a: int, speed: int) -> Vec2 {
    Vec2 {
        x: mul_div_trunc(crate::trig::spec_cos_deg(a), speed, 1000) as i64,
        y: mul_div_trunc(crate::trig::spec_sin_deg(a), speed, 1000) as i64,
    }
}

/// What holds of each primary burst particle: spawned at the burst point,
/// full life ahead of it, speed and size from the category's ranges, and
/// every channel of the base colour raised by one shared offset — a
/// jitter in `[-200, 200)` plus a boost in `[300, 700)`, so their sum
/// lies in `[100, 898]` — then clamped.
pub open spec fn spec_primary_particle(q: Particle, pos: Vec2, base: Rgb, t: CrabType) -> bool {
    &&& q.pos == pos
    &&& q.max_life == q.life
    &&& 800 <= q.life < 1800
    &&& spec_primary_size_range(t).0 <= q.size < spec_primary_size_range(t).1
    &&& exists|a: int, s: int|
        0 <= a < 360 && spec_primary_speed_range(t).0 <= s < spec_primary_speed_range(t).1
            && q.vel == spec_vel_of(a, s)
    &&& exists|w: int|
        100 <= w <= 898 && q.color.r == spec_boosted(base.r as int, w) && q.color.g
            == spec_boosted(base.g as int, w) && q.color.b == spec_boosted(base.b as int, w)
}

/// What holds of each sparkle: spawned at the burst point, the category's
/// sparkle ranges, and the category's fixed sparkle colour.
pub open spec fn spec_sparkle_particle(q: Particle, pos: Vec2, t: CrabType) -> bool {
    &&& q.pos == pos
    &&& q.max_life == q.life
    &&& spec_sparkle_life_range(t).0 <= q.life < spec_sparkle_life_range(t).1
    &&& spec_sparkle_size_range(t).0 <= q.size < spec_sparkle_size_range(t).1
    &&& exists|a: int, s: int|
        0 <= a < 360 && spec_sparkle_speed_range(t).0 <= s < spec_sparkle_speed_range(t).1
            && q.vel == spec_vel_of(a, s)
    &&& q.color == spec_sparkle_color(t)
}

/// The transient particle population: grown by bursts, shrunk by its own
/// integration step, owned exclusively by this engine.
#[derive(Clone, Debug)]
pub struct ParticleSystem {
    pub particles: Vec<Particle>,
}

impl ParticleSystem {
    /// Every stored particle is within the engine's bounds.
    pub open spec fn wf(&self) -> bool {
        forall|i: int|
            0 <= i < self.particles@.len() ==> wf_particle(#[trigger] self.particles@[i])
    }

    pub fn new() -> (s: Self)
        ensures
            s.particles@.len() == 0,
            s.wf(),
    {
        ParticleSystem { particles: Vec::new() }
    }

    /// Append one burst for a caught enemy: the category's primary
    /// particles, brightened from the enemy's colour, then its sparkles.
    /// Nothing already stored moves or changes.
    #[verifier::rlimit(100)]
    #[verifier::loop_isolation(false)]
    pub fn spawn_catch_effect<R: RandomSource>(
        &mut self,
        pos: Vec2,
        crab_color: Rgb,
        crab_type: CrabType,
        rng: &mut R,
    )
        requires
            old(self).wf(),
            abs(pos.x as int) <= POS_CAP,
            abs(pos.y as int) <= POS_CAP,
            0 <= crab_color.r <= 1000,
            0 <= crab_color.g <= 1000,
            0 <= crab_color.b <= 1000,
        ensures
            final(self).wf(),
            final(self).particles@.len() == old(self).particles@.len() + spec_burst_count(
                crab_type,
            ),
            forall|i: int|
                0 <= i < old(self).particles@.len() ==> final(self).particles@[i] == old(
                    self,
                ).particles@[i],
            forall|i: int|
                old(self).particles@.len() <= i < old(self).particles@.len()
                    + spec_primary_count(crab_type) ==> spec_primary_particle(
                    #[trigger] final(self).particles@[i],
                    pos,
                    crab_color,
                    crab_type,
                ),
            forall|i: int|
                old(self).particles@.len() + spec_primary_count(crab_type) <= i < old(
                    self,
                ).particles@.len() + spec_burst_count(crab_type) ==> spec_sparkle_particle(
                    #[trigger] final(self).particles@[i],
                    pos,
                    crab_type,
                ),
    {
        let oldlen = self.particles.len();
        let (pcount, pslo, pshi, pzlo, pzhi): (usize, i64, i64, i64, i64) = match crab_type {
            CrabType::Normal => (20, 80_000, 180_000, 3000, 6000),
            CrabType::Fast => (35, 120_000, 300_000, 2000, 5000),
            CrabType::Big => (40, 60_000, 150_000, 4000, 10_000),
            CrabType::Sneaky => (15, 100_000, 250_000, 1500, 4000),
        };
        for k in 0..pcount
            invariant
                self.particles@.len() == oldlen + k,
                forall|i: int|
                    0 <= i < oldlen ==> self.particles@[i] == old(self).particles@[i],
                forall|i: int|
                    oldlen <= i < oldlen + k ==> spec_primary_particle(
                        #[trigger] self.particles@[i],
                        pos,
                        crab_color,
                        crab_type,
                    ),
                forall|i: int|
                    0 <= i < self.particles@.len() ==> wf_particle(
                        #[trigger] self.particles@[i],
                    ),
        {
            let a = draw_angle(rng);
            let dir = dir_of(a);
            let speed = draw_range(rng, pslo, pshi);
            proof {
                lemma_abs_mul_bound(dir.x as int, speed as int, 1000, 300_000);
                lemma_abs_mul_bound(dir.y as int, speed as int, 1000, 300_000);
                lemma_div_trunc_bound(dir.x as int * speed as int, 1000, 300_000);
                lemma_div_trunc_bound(dir.y as int * speed as int, 1000, 300_000);
            }
            let vel = Vec2 { x: mul_div(dir.x, speed, 1000), y: mul_div(dir.y, speed, 1000) };
            let life = draw_range(rng, 800, 1800);
            let size = draw_range(rng, pzlo, pzhi);
            let cvar = draw_range(rng, -200, 200);
            let boost = draw_range(rng, 300, 700);
            let color = Rgb {
                r: clamp_i64(crab_color.r + cvar + boost, 0, 1000),
                g: clamp_i64(crab_color.g + cvar + boost, 0, 1000),
                b: clamp_i64(crab_color.b + cvar + boost, 0, 1000),
            };
            let q = Particle { pos, vel, life, max_life: life, size, color };
            self.particles.push(q);
            proof {
                assert(q.vel == spec_vel_of(a as int, speed as int));
                assert(q.color.r == spec_boosted(crab_color.r as int, cvar as int + boost as int));
                assert(q.color.g == spec_boosted(crab_color.g as int, cvar as int + boost as int));
                assert(q.color.b == spec_boosted(crab_color.b as int, cvar as int + boost as int));
                assert(spec_primary_particle(q, pos, crab_color, crab_type));
            }
        }
        let (scount, sslo, sshi, sllo, slhi, szlo, szhi): (
            usize,
            i64,
            i64,
            i64,
            i64,
            i64,
            i64,
        ) = match crab_type {
            CrabType::Fast => (15, 150_000, 400_000, 400, 1000, 1000, 3000),
            CrabType::Sneaky => (8, 150_000, 400_000, 400, 1000, 1000, 3000),
            _ => (8, 120_000, 300_000, 400, 800, 1500, 4000),
        };
        let scolor = match crab_type {
            CrabType::Fast => Rgb { r: 1000, g: 800, b: 200 },
            CrabType::Sneaky => Rgb { r: 700, g: 900, b: 1000 },
            _ => Rgb { r: 1000, g: 1000, b: 900 },
        };
        for k in 0..scount
            invariant
                self.particles@.len() == oldlen + pcount + k,
                forall|i: int|
                    0 <= i < oldlen ==> self.particles@[i] == old(self).particles@[i],
                forall|i: int|
                    oldlen <= i < oldlen + pcount ==> spec_primary_particle(
                        #[trigger] self.particles@[i],
                        pos,
                        crab_color,
                        crab_type,
                    ),
                forall|i: int|
                    oldlen + pcount <= i < oldlen + pcount + k ==> spec_sparkle_particle(
                        #[trigger] self.particles@[i],
                        pos,
                        crab_type,
                    ),
                forall|i: int|
                    0 <= i < self.particles@.len() ==> wf_particle(
                        #[trigger] self.particles@[i],
                    ),
        {
            let a = draw_angle(rng);
            let dir = dir_of(a);
            let speed = draw_range(rng, sslo, sshi);
            proof {
                lemma_abs_mul_bound(dir.x as int, speed as int, 1000, 400_000);
                lemma_abs_mul_bound(dir.y as int, speed as int, 1000, 400_000);
                lemma_div_trunc_bound(dir.x as int * speed as int, 1000, 400_000);
                lemma_div_trunc_bound(dir.y as int * speed as int, 1000, 400_000);
            }
            let vel = Vec2 { x: mul_div(dir.x, speed, 1000), y: mul_div(dir.y, speed, 1000) };
            let life = draw_range(rng, sllo, slhi);
            let size = draw_range(rng, szlo, szhi);
            let q = Particle { pos, vel, life, max_life: life, size, color: scolor };
            self.particles.push(q);
            proof {
                assert(q.vel == spec_vel_of(a as int, speed as int));
                assert(spec_sparkle_particle(q, pos, crab_type));
            }
        }
    }

    /// One frame's integration pass: every particle steps by the delta,
    /// then exactly the expired ones are removed, keeping order.
    #[verifier::rlimit(100)]
    #[verifier::loop_isolation(false)]
    pub fn update(&mut self, dt: i64)
        requires
            old(self).wf(),
            0 <= dt <= DT_CAP_MS,
        ensures
            final(self).wf(),
            final(self).particles@ == spec_integrate(old(self).particles@, dt as int),
    {
        let n = self.particles.len();
        let mut kept: Vec<Particle> = Vec::new();
        for idx in 0..n
            invariant
                n == self.particles@.len(),
                self.particles@ == old(self).particles@,
                kept@ == spec_integrate(self.particles@.take(idx as int), dt as int),
                forall|i: int| 0 <= i < kept@.len() ==> wf_particle(#[trigger] kept@[i]),
        {
            let p = self.particles[idx];
            let life2 = p.life - dt;
            if life2 > 0 {
                proof {
                    lemma_abs_mul_bound(p.vel.x as int, dt as int, VEL_CAP as int, dt as int);
                    lemma_abs_mul_bound(p.vel.y as int, dt as int, VEL_CAP as int, dt as int);
                    lemma_div_trunc_bound(
                        p.vel.x as int * dt as int,
                        1000,
                        DRIFT_PER_MS as int * dt as int,
                    );
                    lemma_div_trunc_bound(
                        p.vel.y as int * dt as int,
                        1000,
                        DRIFT_PER_MS as int * dt as int,
                    );
                }
                let px = p.pos.x + mul_div(p.vel.x, dt, 1000);
                let py = p.pos.y + mul_div(p.vel.y, dt, 1000);
                let vy1 = p.vel.y + 200 * dt;
                proof {
                    lemma_div_trunc_bound(p.vel.x as int * 96, 100, VEL_CAP as int);
                    lemma_div_trunc_bound(vy1 as int * 96, 100, VEL_CAP as int);
                }
                let vx2 = mul_div(p.vel.x, 96, 100);
                let vy2 = mul_div(vy1, 96, 100);
                proof {
                    vstd::arithmetic::div_mod::lemma_div_pos_is_pos(
                        life2 as int * 1000,
                        p.max_life as int,
                    );
                    vstd::arithmetic::div_mod::lemma_div_is_ordered(
                        life2 as int * 1000,
                        p.max_life as int * 1000,
                        p.max_life as int,
                    );
                    vstd::arithmetic::div_mod::lemma_div_by_multiple(1000, p.max_life as int);
                }
                let ratio = mul_div(life2, 1000, p.max_life);
                proof {
                    vstd::arithmetic::div_mod::lemma_div_pos_is_pos(50 * ratio as int, 1000);
                    vstd::arithmetic::div_mod::lemma_div_is_ordered(
                        50 * ratio as int,
                        50_000,
                        1000,
                    );
                }
                let factor = 950 + mul_div(50, ratio, 1000);
                proof {
                    lemma_abs_mul_bound(p.size as int, factor as int, SIZE_CAP as int, 1000);
                    lemma_div_trunc_bound(p.size as int * factor as int, 1000, SIZE_CAP as int);
                    vstd::arithmetic::mul::lemma_mul_nonnegative(p.size as int, factor as int);
                    vstd::arithmetic::div_mod::lemma_div_pos_is_pos(
                        p.size as int * factor as int,
                        1000,
                    );
                    vstd::arithmetic::mul::lemma_mul_inequality(
                        factor as int,
                        1000,
                        p.size as int,
                    );
                    vstd::arithmetic::div_mod::lemma_div_is_ordered(
                        p.size as int * factor as int,
                        p.size as int * 1000,
                        1000,
                    );
                    vstd::arithmetic::div_mod::lemma_div_by_multiple(p.size as int, 1000);
                }
                let size2 = mul_div(p.size, factor, 1000);
                let q = Particle {
                    pos: Vec2 { x: px, y: py },
                    vel: Vec2 { x: vx2, y: vy2 },
                    life: life2,
                    max_life: p.max_life,
                    size: size2,
                    color: p.color,
                };
                proof {
                    assert(q == spec_step(p, dt as int));
                }
                kept.push(q);
            }
            proof {
                assert(self.particles@.take(idx as int + 1).drop_last() =~= self.particles@.take(
                    idx as int,
                ));
                assert(self.particles@.take(idx as int + 1).last() == self.particles@[idx as int]);
            }
        }
        proof {
            assert(self.particles@.take(n as int) =~= self.particles@);
        }
        self.particles = kept;
    }

    /// How many particles are alive right now.
    pub fn len(&self) -> (n: usize)
        ensures
            n == self.particles@.len(),
    {
        self.particles.len()
    }
}

/// The rendering-facing fade: `clamp(life / max_life * 0.8, 0, 1)`,
/// milli-scaled.
pub open spec fn spec_alpha(p: Particle) -> int {
    spec_clamp(mul_div_trunc(p.life as int, 800, p.max_life as int), 0, 1000)
}

pub fn alpha_milli(p: &Particle) -> (a: i64)
    requires
        1 <= p.max_life,
        abs(p.life as int) <= 1_000_000_000_000,
    ensures
        a == spec_alpha(*p),
        0 <= a <= 1000,
{
    clamp_i64(mul_div(p.life, 800, p.max_life), 0, 1000)
}

/// Particles above four units of size get the renderer's glow halo.
pub fn has_glow(p: &Particle) -> (g: bool)
    ensures
        g == (p.size > 4000),
{
    p.size > 4000
}

/// A zero-delta pass removes nothing from a population whose particles
/// are all alive, and leaves every particle's position, remaining life,
/// max life and colour unchanged. (Drag and the shrink factor still act:
/// they apply per pass, whatever the delta.)
pub proof fn lemma_integrate_zero(s: Seq<Particle>)
    requires
        forall|i: int| 0 <= i < s.len() ==> #[trigger] s[i].life >= 1,
    ensures
        spec_integrate(s, 0).len() == s.len(),
        forall|i: int|
            0 <= i < s.len() ==> {
                let q = #[trigger] spec_integrate(s, 0)[i];
                &&& q.pos == s[i].pos
                &&& q.life == s[i].life
                &&& q.max_life == s[i].max_life
                &&& q.color == s[i].color
            },
    decreases s.len(),
{
    if s.len() > 0 {
        lemma_integrate_zero(s.drop_last());
    }
}

/// Nothing expired persists: after a pass over a well-formed population,
/// every kept particle still has positive remaining life.
pub proof fn lemma_integrate_all_alive(s: Seq<Particle>, dt: int)
    requires
        0 <= dt,
        forall|i: int| 0 <= i < s.len() ==> wf_particle(#[trigger] s[i]),
    ensures
        forall|i: int|
            0 <= i < spec_integrate(s, dt).len() ==> (#[trigger] spec_integrate(s, dt)[i]).life
                > 0,
    decreases s.len(),
{
    if s.len() > 0 {
        lemma_integrate_all_alive(s.drop_last(), dt);
        let rest = spec_integrate(s.drop_last(), dt);
        if spec_survives(s.last(), dt) {
            let q = spec_step(s.last(), dt);
            assert(wf_particle(s[s.len() - 1]));
            assert(q.life == s.last().life - dt);
            assert(spec_integrate(s, dt) == rest.push(q));
            assert forall|i: int| 0 <= i < rest.push(q).len() implies rest.push(q)[i].life
                > 0 by {
                if i < rest.len() {
                    assert(rest[i].life > 0);
                }
            }
        }
    }
}

/// One step spends exactly the frame delta of remaining life.
pub proof fn lemma_step_life(p: Particle, dt: int)
    requires
        abs(p.life as int) + abs(dt) < 0x7fff_ffff_ffff_ffff,
    ensures
        spec_step(p, dt).life == p.life - dt,
{
}

/// Below the drag/gravity fixed point, the downward velocity component
/// strictly grows each step.
pub proof fn lemma_step_gravity(p: Particle, dt: int)
    requires
        1 <= dt <= DT_CAP_MS,
        -200 * dt <= p.vel.y,
        p.vel.y <= 4800 * dt - 25,
    ensures
        spec_step(p, dt).vel.y > p.vel.y,
{
    let vy1 = p.vel.y + 200 * dt;
    if p.vel.y >= 0 {
        vstd::arithmetic::div_mod::lemma_div_is_ordered(
            (p.vel.y + 1) * 100,
            vy1 * 96,
            100,
        );
        vstd::arithmetic::div_mod::lemma_div_by_multiple(p.vel.y + 1, 100);
    } else {
        vstd::arithmetic::div_mod::lemma_div_pos_is_pos(vy1 * 96, 100);
    }
}

/// A surviving particle never grows: the shrink factor is at most one.
pub proof fn lemma_step_size_shrinks(p: Particle, dt: int)
    requires
        wf_particle(p),
        0 <= dt,
        spec_survives(p, dt),
    ensures
        0 <= spec_step(p, dt).size <= p.size,
{
    let life2 = p.life - dt;
    vstd::arithmetic::div_mod::lemma_div_pos_is_pos(life2 * 1000, p.max_life as int);
    vstd::arithmetic::div_mod::lemma_div_is_ordered(
        life2 * 1000,
        p.max_life as int * 1000,
        p.max_life as int,
    );
    vstd::arithmetic::div_mod::lemma_div_by_multiple(1000, p.max_life as int);
    let ratio = div_trunc(life2 * 1000, p.max_life as int);
    vstd::arithmetic::div_mod::lemma_div_pos_is_pos(50 * ratio, 1000);
    vstd::arithmetic::div_mod::lemma_div_is_ordered(50 * ratio, 50_000, 1000);
    let factor = 950 + div_trunc(50 * ratio, 1000);
    vstd::arithmetic::mul::lemma_mul_nonnegative(p.size as int, factor);
    vstd::arithmetic::div_mod::lemma_div_pos_is_pos(p.size as int * factor, 1000);
    vstd::arithmetic::mul::lemma_mul_inequality(factor, 1000, p.size as int);
    vstd::arithmetic::div_mod::lemma_div_is_ordered(
        p.size as int * factor,
        p.size as int * 1000,
        1000,
    );
    vstd::arithmetic::div_mod::lemma_div_by_multiple(p.size as int, 1000);
}

} // verus!
