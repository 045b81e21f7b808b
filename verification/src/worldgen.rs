//! The shape of the world the robot wants to live in.

use vstd::prelude::*;

verus! {

/// How far around a tile of each kind its rocks and trees may spread.
#[derive(Debug, Clone, Copy, PartialEq, Eq)]
pub struct ContentsRadii {
    pub rocks_in_plains: usize,
    pub rocks_in_hill: usize,
    pub rocks_in_mountain: usize,
    pub trees_in_forest: usize,
    pub trees_in_hill: usize,
    pub trees_in_mountain: usize,
}

/// The settings of the world generator that the robot cares about. The
/// generator keeps its defaults for all the others.
#[derive(Debug, Clone, Copy, PartialEq, Eq)]
pub struct WorldGeneratorParameters {
    /// How many minutes of world time pass with each tick.
    pub time_progression_minutes: u8,
    /// The spread of rocks and trees.
    pub contents_radii: ContentsRadii,
}

/// The robot's world: an hour per tick, and rocks and trees spread two tiles
/// around wherever they grow.
pub fn get_world_generator_parameters() -> (params: WorldGeneratorParameters)
    ensures
        params == (WorldGeneratorParameters {
            time_progression_minutes: 60,
            contents_radii: ContentsRadii {
                rocks_in_plains: 2,
                rocks_in_hill: 2,
                rocks_in_mountain: 2,
                trees_in_forest: 2,
                trees_in_hill: 2,
                trees_in_mountain: 2,
            },
        }),
{
    WorldGeneratorParameters {
        time_progression_minutes: 60,
        contents_radii: ContentsRadii {
            rocks_in_plains: 2,
            rocks_in_hill: 2,
            rocks_in_mountain: 2,
            trees_in_forest: 2,
            trees_in_hill: 2,
            trees_in_mountain: 2,
        },
    }
}

} // verus!
