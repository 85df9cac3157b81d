use vstd::prelude::*;

verus! {

use crate::spawnings::SpawnPattern;

/// One spawn request of a level: which pattern, how many enemies, how
/// long it runs (milliseconds), and where its centroid sits as a milli
/// fraction of the play area.
#[derive(Clone, Copy, Debug)]
pub struct LevelPattern {
    pub pattern: SpawnPattern,
    pub count: usize,
    pub duration_ms: i64,
    pub centroid: (i64, i64),
}

/// A named, difficulty-tagged sequence of spawn requests.
#[derive(Clone, Debug)]
pub struct Level {
    pub title: String,
    pub description: String,
    pub difficulty: usize,
    pub patterns: Vec<LevelPattern>,
}

/// Every pattern entry stays within the generator's accepted inputs.
pub open spec fn spec_pattern_valid(p: LevelPattern) -> bool {
    &&& p.count <= crate::spawnings::COUNT_CAP
    &&& p.duration_ms >= 1
    &&& 0 <= p.centroid.0 <= 1000
    &&& 0 <= p.centroid.1 <= 1000
}

/// The built-in level table: three levels of rising difficulty, with
/// exactly these spawn requests.
pub fn get_levels() -> (levels: Vec<Level>)
    ensures
        levels@.len() == 3,
        levels@[0].difficulty == 0,
        levels@[1].difficulty == 2,
        levels@[2].difficulty == 3,
        levels@[0].patterns@ =~= seq![
            (LevelPattern {
                pattern: SpawnPattern::SingleRandom,
                count: 3,
                duration_ms: 10_000,
                centroid: (500, 500),
            }),
            (LevelPattern {
                pattern: SpawnPattern::SingleRandom,
                count: 2,
                duration_ms: 8_000,
                centroid: (200, 800),
            }),
        ],
        levels@[1].patterns@ =~= seq![
            (LevelPattern {
                pattern: SpawnPattern::UniformRandom,
                count: 5,
                duration_ms: 8_000,
                centroid: (700, 300),
            }),
            (LevelPattern {
                pattern: SpawnPattern::SineWave,
                count: 7,
                duration_ms: 10_000,
                centroid: (300, 700),
            }),
            (LevelPattern {
                pattern: SpawnPattern::Circle,
                count: 8,
                duration_ms: 12_000,
                centroid: (500, 500),
            }),
            (LevelPattern {
                pattern: SpawnPattern::Cluster,
                count: 10,
                duration_ms: 10_000,
                centroid: (800, 800),
            }),
            (LevelPattern {
                pattern: SpawnPattern::Cluster,
                count: 6,
                duration_ms: 6_000,
                centroid: (200, 200),
            }),
        ],
        levels@[2].patterns@ =~= seq![
            (LevelPattern {
                pattern: SpawnPattern::Cluster,
                count: 12,
                duration_ms: 10_000,
                centroid: (500, 500),
            }),
            (LevelPattern {
                pattern: SpawnPattern::SineWave,
                count: 10,
                duration_ms: 12_000,
                centroid: (800, 200),
            }),
            (LevelPattern {
                pattern: SpawnPattern::Circle,
                count: 14,
                duration_ms: 14_000,
                centroid: (200, 800),
            }),
            (LevelPattern {
                pattern: SpawnPattern::Cluster,
                count: 8,
                duration_ms: 8_000,
                centroid: (800, 800),
            }),
            (LevelPattern {
                pattern: SpawnPattern::SineWave,
                count: 6,
                duration_ms: 6_000,
                centroid: (200, 200),
            }),
        ],
        forall|li: int, pi: int|
            0 <= li < levels@.len() && 0 <= pi < levels@[li].patterns@.len()
                ==> spec_pattern_valid(#[trigger] levels@[li].patterns@[pi]),
{
    let beginner = Level {
        title: "Rustler's First Ride".to_string(),
        description: "A beginner's level to get you started with the Rustler game.".to_string(),
        difficulty: 0,
        patterns: vec![
            LevelPattern {
                pattern: SpawnPattern::SingleRandom,
                count: 3,
                duration_ms: 10_000,
                centroid: (500, 500),
            },
            LevelPattern {
                pattern: SpawnPattern::SingleRandom,
                count: 2,
                duration_ms: 8_000,
                centroid: (200, 800),
            },
        ],
    };
    let challenge = Level {
        title: "Rustler's Challenge".to_string(),
        description: "A challenging level with multiple spawn patterns.".to_string(),
        difficulty: 2,
        patterns: vec![
            LevelPattern {
                pattern: SpawnPattern::UniformRandom,
                count: 5,
                duration_ms: 8_000,
                centroid: (700, 300),
            },
            LevelPattern {
                pattern: SpawnPattern::SineWave,
                count: 7,
                duration_ms: 10_000,
                centroid: (300, 700),
            },
            LevelPattern {
                pattern: SpawnPattern::Circle,
                count: 8,
                duration_ms: 12_000,
                centroid: (500, 500),
            },
            LevelPattern {
                pattern: SpawnPattern::Cluster,
                count: 10,
                duration_ms: 10_000,
                centroid: (800, 800),
            },
            LevelPattern {
                pattern: SpawnPattern::Cluster,
                count: 6,
                duration_ms: 6_000,
                centroid: (200, 200),
            },
        ],
    };
    let gauntlet = Level {
        title: "Rustler's Gauntlet".to_string(),
        description: "A gauntlet of spawn patterns to test your skills.".to_string(),
        difficulty: 3,
        patterns: vec![
            LevelPattern {
                pattern: SpawnPattern::Cluster,
                count: 12,
                duration_ms: 10_000,
                centroid: (500, 500),
            },
            LevelPattern {
                pattern: SpawnPattern::SineWave,
                count: 10,
                duration_ms: 12_000,
                centroid: (800, 200),
            },
            LevelPattern {
                pattern: SpawnPattern::Circle,
                count: 14,
                duration_ms: 14_000,
                centroid: (200, 800),
            },
            LevelPattern {
                pattern: SpawnPattern::Cluster,
                count: 8,
                duration_ms: 8_000,
                centroid: (800, 800),
            },
            LevelPattern {
                pattern: SpawnPattern::SineWave,
                count: 6,
                duration_ms: 6_000,
                centroid: (200, 200),
            },
        ],
    };
    vec![beginner, challenge, gauntlet]
}

} // verus!
