use encounter_core::enemies::CrabType;
use encounter_core::geom::{Rgb, Vec2};
use encounter_core::particles::{alpha_milli, has_glow, Particle, ParticleSystem};
use encounter_core::rng::SplitMix64;

fn particle(pos: Vec2, vel: Vec2, life: i64, max_life: i64, size: i64) -> Particle {
    Particle {
        pos,
        vel,
        life,
        max_life,
        size,
        color: Rgb { r: 1000, g: 1000, b: 900 },
    }
}

#[test]
fn burst_counts_per_category() {
    let origin = Vec2 { x: 0, y: 0 };
    let base = Rgb { r: 800, g: 300, b: 300 };
    let cases = [
        (CrabType::Fast, 35 + 15),
        (CrabType::Normal, 20 + 8),
        (CrabType::Big, 40 + 8),
        (CrabType::Sneaky, 15 + 8),
    ];
    for (t, want) in cases {
        let mut ps = ParticleSystem::new();
        let mut rng = SplitMix64::new(42);
        ps.spawn_catch_effect(origin, base, t, &mut rng);
        assert_eq!(ps.particles.len(), want, "count for {:?}", t);
    }
}

#[test]
fn burst_leaves_existing_particles_alone() {
    let mut ps = ParticleSystem::new();
    let mut rng = SplitMix64::new(43);
    let p = particle(Vec2 { x: 5, y: 6 }, Vec2 { x: 7, y: 8 }, 900, 900, 3000);
    ps.particles.push(p);
    ps.spawn_catch_effect(
        Vec2 { x: 0, y: 0 },
        Rgb { r: 500, g: 500, b: 500 },
        CrabType::Normal,
        &mut rng,
    );
    assert_eq!(ps.particles.len(), 1 + 28);
    assert_eq!(ps.particles[0], p);
}

#[test]
fn burst_particles_spawn_at_position_with_full_life() {
    let mut ps = ParticleSystem::new();
    let mut rng = SplitMix64::new(44);
    let pos = Vec2 { x: 123_000, y: -45_000 };
    ps.spawn_catch_effect(pos, Rgb { r: 600, g: 400, b: 200 }, CrabType::Big, &mut rng);
    for (i, p) in ps.particles.iter().enumerate() {
        assert_eq!(p.pos, pos);
        assert_eq!(p.max_life, p.life);
        if i < 40 {
            // primary Big particles
            assert!(800 <= p.life && p.life < 1800);
            assert!(4000 <= p.size && p.size < 10_000);
        } else {
            // generic sparkles
            assert!(400 <= p.life && p.life < 800);
            assert!(1500 <= p.size && p.size < 4000);
        }
    }
}

#[test]
fn sparkle_colors_are_fixed_per_category() {
    let origin = Vec2 { x: 0, y: 0 };
    let base = Rgb { r: 100, g: 100, b: 100 };

    let mut ps = ParticleSystem::new();
    let mut rng = SplitMix64::new(45);
    ps.spawn_catch_effect(origin, base, CrabType::Fast, &mut rng);
    for p in &ps.particles[35..50] {
        assert_eq!(p.color, Rgb { r: 1000, g: 800, b: 200 });
    }

    let mut ps = ParticleSystem::new();
    let mut rng = SplitMix64::new(46);
    ps.spawn_catch_effect(origin, base, CrabType::Sneaky, &mut rng);
    for p in &ps.particles[15..23] {
        assert_eq!(p.color, Rgb { r: 700, g: 900, b: 1000 });
    }

    let mut ps = ParticleSystem::new();
    let mut rng = SplitMix64::new(47);
    ps.spawn_catch_effect(origin, base, CrabType::Normal, &mut rng);
    for p in &ps.particles[20..28] {
        assert_eq!(p.color, Rgb { r: 1000, g: 1000, b: 900 });
    }
}

#[test]
fn primary_colors_are_brightened_base() {
    let mut ps = ParticleSystem::new();
    let mut rng = SplitMix64::new(48);
    let base = Rgb { r: 500, g: 200, b: 0 };
    ps.spawn_catch_effect(Vec2 { x: 0, y: 0 }, base, CrabType::Normal, &mut rng);
    for p in &ps.particles[..20] {
        // shared offset w in [100, 898], clamped per channel
        let w = p.color.r - base.r;
        assert!(100 <= w && w <= 898 || p.color.r == 1000);
        let clamp = |x: i64| x.clamp(0, 1000);
        if p.color.r < 1000 {
            assert_eq!(p.color.g, clamp(base.g + w));
            assert_eq!(p.color.b, clamp(base.b + w));
        }
        assert!(0 <= p.color.r && p.color.r <= 1000);
        assert!(0 <= p.color.g && p.color.g <= 1000);
        assert!(0 <= p.color.b && p.color.b <= 1000);
    }
}

#[test]
fn update_decrements_life_and_moves_by_velocity() {
    let mut ps = ParticleSystem::new();
    ps.particles.push(particle(
        Vec2 { x: 1000, y: 2000 },
        Vec2 { x: 10_000, y: -5_000 },
        1000,
        1000,
        5000,
    ));
    ps.update(16);
    assert_eq!(ps.particles.len(), 1);
    let p = &ps.particles[0];
    assert_eq!(p.life, 984);
    assert_eq!(p.pos.x, 1000 + 160);
    assert_eq!(p.pos.y, 2000 - 80);
    assert_eq!(p.vel.x, 9600); // drag: * 0.96
    assert_eq!(p.vel.y, -1728); // gravity then drag: (-5000 + 3200) * 0.96
    assert_eq!(p.size, 4995); // factor 0.95 + 0.05 * 984/1000
}

#[test]
fn update_removes_expired_particle() {
    let mut ps = ParticleSystem::new();
    ps.particles.push(particle(
        Vec2 { x: 0, y: 0 },
        Vec2 { x: 0, y: 0 },
        50,
        1000,
        2000,
    ));
    ps.update(100);
    assert_eq!(ps.particles.len(), 0);
}

#[test]
fn update_keeps_survivors_in_order() {
    let mut ps = ParticleSystem::new();
    for (life, x) in [(50i64, 1i64), (900, 2), (20, 3), (800, 4)] {
        ps.particles.push(particle(
            Vec2 { x, y: 0 },
            Vec2 { x: 0, y: 0 },
            life,
            1000,
            2000,
        ));
    }
    ps.update(100);
    let xs: Vec<i64> = ps.particles.iter().map(|p| p.pos.x).collect();
    assert_eq!(xs, vec![2, 4]);
}

#[test]
fn gravity_pulls_velocity_down_each_step() {
    let mut ps = ParticleSystem::new();
    ps.particles.push(particle(
        Vec2 { x: 0, y: 0 },
        Vec2 { x: 0, y: 0 },
        1700,
        1700,
        3000,
    ));
    let mut last = 0i64;
    for _ in 0..10 {
        ps.update(16);
        let vy = ps.particles[0].vel.y;
        assert!(vy > last, "vel.y {} did not increase past {}", vy, last);
        last = vy;
    }
}

#[test]
fn zero_delta_update_is_observably_idle() {
    let mut ps = ParticleSystem::new();
    let mut rng = SplitMix64::new(49);
    ps.spawn_catch_effect(
        Vec2 { x: 10, y: 20 },
        Rgb { r: 500, g: 500, b: 500 },
        CrabType::Fast,
        &mut rng,
    );
    let before: Vec<(Vec2, i64, i64, Rgb)> = ps
        .particles
        .iter()
        .map(|p| (p.pos, p.life, p.max_life, p.color))
        .collect();
    for _ in 0..5 {
        ps.update(0);
    }
    let after: Vec<(Vec2, i64, i64, Rgb)> = ps
        .particles
        .iter()
        .map(|p| (p.pos, p.life, p.max_life, p.color))
        .collect();
    assert_eq!(before, after);
}

#[test]
fn sizes_never_grow() {
    let mut ps = ParticleSystem::new();
    let mut rng = SplitMix64::new(50);
    ps.spawn_catch_effect(
        Vec2 { x: 0, y: 0 },
        Rgb { r: 500, g: 500, b: 500 },
        CrabType::Sneaky,
        &mut rng,
    );
    let mut sizes: Vec<i64> = ps.particles.iter().map(|p| p.size).collect();
    for _ in 0..20 {
        ps.update(16);
        for (p, old) in ps.particles.iter().zip(sizes.iter()) {
            assert!(p.size <= *old);
        }
        sizes = ps.particles.iter().map(|p| p.size).collect();
    }
}

#[test]
fn expired_particles_never_persist_across_frames() {
    let mut ps = ParticleSystem::new();
    let mut rng = SplitMix64::new(51);
    ps.spawn_catch_effect(
        Vec2 { x: 0, y: 0 },
        Rgb { r: 500, g: 500, b: 500 },
        CrabType::Normal,
        &mut rng,
    );
    // lives are below 1800 ms, so two seconds of frames drain everything
    for _ in 0..125 {
        ps.update(16);
        for p in &ps.particles {
            assert!(p.life > 0);
        }
    }
    assert_eq!(ps.len(), 0);
}

#[test]
fn alpha_follows_life_ratio() {
    let p = particle(Vec2 { x: 0, y: 0 }, Vec2 { x: 0, y: 0 }, 1000, 1000, 2000);
    assert_eq!(alpha_milli(&p), 800);
    let half = particle(Vec2 { x: 0, y: 0 }, Vec2 { x: 0, y: 0 }, 500, 1000, 2000);
    assert_eq!(alpha_milli(&half), 400);
    let dead = particle(Vec2 { x: 0, y: 0 }, Vec2 { x: 0, y: 0 }, 0, 1000, 2000);
    assert_eq!(alpha_milli(&dead), 0);
}

#[test]
fn glow_applies_above_four_units() {
    let small = particle(Vec2 { x: 0, y: 0 }, Vec2 { x: 0, y: 0 }, 500, 1000, 4000);
    assert!(!has_glow(&small));
    let big = particle(Vec2 { x: 0, y: 0 }, Vec2 { x: 0, y: 0 }, 500, 1000, 4001);
    assert!(has_glow(&big));
}
