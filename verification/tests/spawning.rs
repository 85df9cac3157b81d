use encounter_core::enemies::CrabType;
use encounter_core::rng::{RandomSource, SplitMix64, StdRandom};
use encounter_core::spawnings::{spawn_enemies, SpawnPattern};

const AREA: (i64, i64) = (800_000, 600_000);
const CENTER: (i64, i64) = (500, 500);

#[test]
fn spawn_counts_match_request() {
    let mut rng = SplitMix64::new(11);
    assert_eq!(
        spawn_enemies(SpawnPattern::UniformRandom, 5, AREA, CENTER, &mut rng).len(),
        5
    );
    assert_eq!(
        spawn_enemies(SpawnPattern::SineWave, 7, AREA, CENTER, &mut rng).len(),
        7
    );
    assert_eq!(
        spawn_enemies(SpawnPattern::Circle, 8, AREA, CENTER, &mut rng).len(),
        8
    );
    assert_eq!(
        spawn_enemies(SpawnPattern::Cluster, 10, AREA, CENTER, &mut rng).len(),
        10
    );
    assert_eq!(
        spawn_enemies(SpawnPattern::SingleRandom, 3, AREA, CENTER, &mut rng).len(),
        3
    );
}

#[test]
fn zero_count_yields_empty_except_single_random() {
    let mut rng = SplitMix64::new(12);
    assert_eq!(
        spawn_enemies(SpawnPattern::UniformRandom, 0, AREA, CENTER, &mut rng).len(),
        0
    );
    assert_eq!(
        spawn_enemies(SpawnPattern::SineWave, 0, AREA, CENTER, &mut rng).len(),
        0
    );
    assert_eq!(
        spawn_enemies(SpawnPattern::Circle, 0, AREA, CENTER, &mut rng).len(),
        0
    );
    assert_eq!(
        spawn_enemies(SpawnPattern::Cluster, 0, AREA, CENTER, &mut rng).len(),
        0
    );
    assert_eq!(
        spawn_enemies(SpawnPattern::SingleRandom, 0, AREA, CENTER, &mut rng).len(),
        1
    );
}

#[test]
fn single_random_spawn_times_stagger() {
    let mut rng = SplitMix64::new(13);
    let crabs = spawn_enemies(SpawnPattern::SingleRandom, 4, AREA, CENTER, &mut rng);
    let times: Vec<i64> = crabs.iter().map(|c| c.spawn_time).collect();
    assert_eq!(times, vec![0, 500, 1000, 1500]);
    for w in times.windows(2) {
        assert!(w[0] < w[1]);
    }
}

#[test]
fn single_random_positions_near_centroid() {
    let mut rng = SplitMix64::new(14);
    let crabs = spawn_enemies(SpawnPattern::SingleRandom, 6, AREA, CENTER, &mut rng);
    for c in &crabs {
        assert!((c.pos.x - 400_000).abs() <= 50_000);
        assert!((c.pos.y - 300_000).abs() <= 50_000);
    }
}

#[test]
fn circle_positions_are_exact() {
    let mut rng = SplitMix64::new(15);
    let crabs = spawn_enemies(SpawnPattern::Circle, 4, AREA, CENTER, &mut rng);
    // radius = 0.35 * min(800, 600) units = 210 units; angles 0, 90, 180, 270.
    let expected = [
        (610_000, 300_000, 1000, 0),
        (400_000, 510_000, 0, 1000),
        (190_000, 300_000, -1000, 0),
        (400_000, 90_000, 0, -1000),
    ];
    for (c, e) in crabs.iter().zip(expected.iter()) {
        assert_eq!(c.pos.x, e.0);
        assert_eq!(c.pos.y, e.1);
        assert_eq!(c.vel.x, e.2);
        assert_eq!(c.vel.y, e.3);
        assert_eq!(c.spawn_time, 0);
    }
}

#[test]
fn circle_distance_stays_within_one_percent() {
    let mut rng = SplitMix64::new(16);
    let crabs = spawn_enemies(SpawnPattern::Circle, 7, AREA, CENTER, &mut rng);
    let r: i64 = 210_000;
    let lo = (99 * r / 100) * (99 * r / 100);
    let hi = r * r;
    for c in &crabs {
        let dx = c.pos.x - 400_000;
        let dy = c.pos.y - 300_000;
        let dist2 = dx * dx + dy * dy;
        assert!(lo <= dist2 && dist2 <= hi, "dist2 {} not in [{}, {}]", dist2, lo, hi);
    }
}

#[test]
fn sine_wave_matches_formula() {
    let mut rng = SplitMix64::new(17);
    let area = (360_000, 600_000);
    let crabs = spawn_enemies(SpawnPattern::SineWave, 2, area, (0, 0), &mut rng);
    // x_i = width * (2i+1) / (4 * count); phase = x / width turns in degrees;
    // amplitude = 0.3 * height; sin(45 deg) = 0.707 in the table.
    assert_eq!(crabs[0].pos.x, 45_000);
    assert_eq!(crabs[0].pos.y, 127_260);
    assert_eq!(crabs[1].pos.x, 135_000);
    assert_eq!(crabs[1].pos.y, 127_260);
    for c in &crabs {
        assert_eq!(c.vel.x, 0);
        assert_eq!(c.vel.y, 1000);
        assert_eq!(c.spawn_time, 0);
    }
}

#[test]
fn cluster_stays_within_disk() {
    let mut rng = SplitMix64::new(18);
    let crabs = spawn_enemies(SpawnPattern::Cluster, 10, AREA, CENTER, &mut rng);
    assert_eq!(crabs.len(), 10);
    let r: i64 = 60_000;
    for c in &crabs {
        let dx = c.pos.x - 400_000;
        let dy = c.pos.y - 300_000;
        assert!(dx * dx + dy * dy <= r * r);
    }
}

#[test]
fn uniform_random_stays_within_box() {
    let mut rng = SplitMix64::new(19);
    let crabs = spawn_enemies(SpawnPattern::UniformRandom, 20, AREA, CENTER, &mut rng);
    for c in &crabs {
        assert!((c.pos.x - 400_000).abs() <= 240_000);
        assert!((c.pos.y - 300_000).abs() <= 180_000);
        assert_eq!(c.spawn_time, 0);
    }
}

#[test]
fn spawned_crabs_are_initialized_from_their_category() {
    let mut rng = SplitMix64::new(20);
    let crabs = spawn_enemies(SpawnPattern::UniformRandom, 40, AREA, CENTER, &mut rng);
    for c in &crabs {
        let (slo, shi) = c.crab_type.speed_range();
        let (klo, khi) = c.crab_type.scale_range();
        assert!(slo <= c.speed && c.speed < shi);
        assert!(klo <= c.scale && c.scale < khi);
        assert!(!c.caught);
        assert_eq!(c.spooked_timer, 0);
    }
}

#[test]
fn all_categories_appear() {
    let mut rng = SplitMix64::new(21);
    let mut seen = [false; 4];
    for _ in 0..400 {
        match CrabType::random(&mut rng) {
            CrabType::Normal => seen[0] = true,
            CrabType::Fast => seen[1] = true,
            CrabType::Big => seen[2] = true,
            CrabType::Sneaky => seen[3] = true,
        }
    }
    assert!(seen.iter().all(|s| *s));
}

#[test]
fn std_random_draws_respect_bounds() {
    let mut rng = StdRandom::from_seed(7);
    assert_eq!(rng.next_below(1), 0);
    for _ in 0..200 {
        assert!(rng.next_below(10) < 10);
    }
    let crabs = spawn_enemies(SpawnPattern::Cluster, 8, AREA, CENTER, &mut rng);
    assert_eq!(crabs.len(), 8);
    for c in &crabs {
        let dx = c.pos.x - 400_000;
        let dy = c.pos.y - 300_000;
        assert!(dx * dx + dy * dy <= 60_000i64 * 60_000);
    }
}
