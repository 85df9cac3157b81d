use encounter_core::enemies::{
    age_ratio_milli, display_color, effective_size_milli, growth_multiplier_milli, CrabType,
};

#[test]
fn age_ratio_rises_then_clamps() {
    assert_eq!(age_ratio_milli(0), 0);
    assert_eq!(age_ratio_milli(2_500), 250);
    assert_eq!(age_ratio_milli(5_000), 500);
    assert_eq!(age_ratio_milli(10_000), 1000);
    assert_eq!(age_ratio_milli(25_000), 1000);
}

#[test]
fn growth_multiplier_floor_and_cap() {
    assert_eq!(growth_multiplier_milli(0), 600);
    assert_eq!(growth_multiplier_milli(5_000), 800);
    assert_eq!(growth_multiplier_milli(10_000), 1000);
    assert_eq!(growth_multiplier_milli(1_000_000), 1000);
}

#[test]
fn effective_size_is_exact() {
    // base 40 units, unit scale: 0.6x at spawn, 1.0x when fully grown.
    assert_eq!(effective_size_milli(40_000, 1000, 0), 24_000);
    assert_eq!(effective_size_milli(40_000, 1000, 10_000), 40_000);
    assert_eq!(effective_size_milli(40_000, 1500, 10_000), 60_000);
    assert_eq!(effective_size_milli(40_000, 1500, 0), 36_000);
}

#[test]
fn normal_color_reddens_with_age() {
    let young = display_color(CrabType::Normal, 0);
    assert_eq!((young.r, young.g, young.b), (153, 100, 100));
    let old = display_color(CrabType::Normal, 10_000);
    assert_eq!((old.r, old.g, old.b), (255, 0, 0));
    let older = display_color(CrabType::Normal, 99_000);
    assert_eq!((older.r, older.g, older.b), (255, 0, 0));
}

#[test]
fn fast_color_law() {
    let young = display_color(CrabType::Fast, 0);
    assert_eq!((young.r, young.g, young.b), (255, 180, 40));
    let old = display_color(CrabType::Fast, 10_000);
    assert_eq!((old.r, old.g, old.b), (255, 0, 40));
}

#[test]
fn big_color_law() {
    let young = display_color(CrabType::Big, 0);
    assert_eq!((young.r, young.g, young.b), (180, 60, 180));
    let old = display_color(CrabType::Big, 10_000);
    assert_eq!((old.r, old.g, old.b), (180, 60, 0));
}

#[test]
fn sneaky_color_is_fixed() {
    for t in [0i64, 3_000, 10_000, 50_000] {
        let c = display_color(CrabType::Sneaky, t);
        assert_eq!((c.r, c.g, c.b), (120, 220, 220));
    }
}

#[test]
fn category_profile_ranges() {
    assert_eq!(CrabType::Normal.speed_range(), (50_000, 100_000));
    assert_eq!(CrabType::Fast.speed_range(), (120_000, 200_000));
    assert_eq!(CrabType::Big.speed_range(), (30_000, 60_000));
    assert_eq!(CrabType::Sneaky.speed_range(), (80_000, 140_000));
    assert_eq!(CrabType::Normal.scale_range(), (800, 1200));
    assert_eq!(CrabType::Big.scale_range(), (1300, 1800));
}

#[test]
fn level_table_shape() {
    let levels = encounter_core::levels::get_levels();
    assert_eq!(levels.len(), 3);
    assert_eq!(levels[0].difficulty, 0);
    assert_eq!(levels[1].difficulty, 2);
    assert_eq!(levels[2].difficulty, 3);
    assert_eq!(levels[0].patterns.len(), 2);
    assert_eq!(levels[1].patterns.len(), 5);
    assert_eq!(levels[2].patterns.len(), 5);
    assert_eq!(levels[0].title, "Rustler's First Ride");
    let first = &levels[0].patterns[0];
    assert_eq!(first.count, 3);
    assert_eq!(first.duration_ms, 10_000);
    assert_eq!(first.centroid, (500, 500));
    let wave = &levels[1].patterns[1];
    assert!(matches!(
        wave.pattern,
        encounter_core::spawnings::SpawnPattern::SineWave
    ));
    assert_eq!(wave.count, 7);
}
