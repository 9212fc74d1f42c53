//! The scenes and stages of the game, and the data of the stages: their
//! maps and the places where their enemies start.

use vstd::prelude::*;

verus! {

/// The scenes that the game goes through.
#[derive(Clone, Copy, Debug, PartialEq, Eq, Hash, Structural)]
pub enum GameState {
    Title,
    Loading,
    StageTitle,
    Game,
    Ending,
}

impl Default for GameState {
    /// The game opens on the title.
    fn default() -> (state: GameState)
        ensures
            state == GameState::Title,
    {
        GameState::Title
    }
}

/// The stages, in the order in which they are played.
#[derive(Clone, Copy, Debug, PartialEq, Eq, Hash, Structural)]
pub enum StageState {
    Stage1,
    Stage2,
    Boss,
}

impl Default for StageState {
    /// The game begins with the first stage.
    fn default() -> (state: StageState)
        ensures
            state == StageState::Stage1,
    {
        StageState::Stage1
    }
}

/// Whether the boss takes part in the fight.
#[derive(Clone, Copy, Debug, PartialEq, Eq, Hash, Structural)]
pub enum BossState {
    InActive,
    Active,
}

impl Default for BossState {
    /// The boss starts out of the fight.
    fn default() -> (state: BossState)
        ensures
            state == BossState::InActive,
    {
        BossState::InActive
    }
}

/// The number of columns of a stage map.
pub const MAP_WIDTH_TILES: u32 = 100;

/// The map of the first stage, top row first. `A` and `B` are the two open
/// backgrounds, `C` is a wall.
pub const STAGE1_MAP: [&'static str; 15] = [
    "CAAAAAAAAAAAAAAAAAAAACAAAAAAAAAAAAAAAAAAAAAAAAAAAAAAAAABAAAAAAAAAAAAAAAAAAAAAAAAAAAAAAAAAAAAAAAAAACA",
    "CAAAAAAABAAAAAAAAAAAACAAAAAAAAAAAAAAAAAAAAAAAAAAAAAAAAAAAAAAAAAAAAAAAAAAAAAAAAAAAAAAAAAAAAAAAAAABACA",
    "CAAAAAAAAAAAAAAAAAAAACAAAAAAAAAAAAAAAAAAAAAAAAABAAAAAAAAACAAAAAAAAABAAAAAAACCCCCCCAAAAAAAAAAAAAAAACA",
    "CAAAAAAAAAAAAAAAAAACACAAAAAAAAAAAAABAAAAAAAAAAAAAAAAAAAAACAAACCAAAAAAAAAAAAAAAAAAAAACCCAAACCCAAACCCA",
    "CBAACCCCCAAAAAAAACCCACCCAAAAACAAAAAAAAAAAAAAAAAAAACCAAAAACCAAAAAAAAAACCCAAAAAAABAAAAAAAAAAAAAAAAAACA",
    "CAAAAAAABAAAAAAAACCCAAAAAAAAACAAAAAAAAAAAAABAAAAAAAAAAAAACAAAAABAAAAAAAAAAAAAAAAAAAAAAAAAAAAAAAAAACA",
    "CACAAAAAAAAACCCCCCCCAABAAAACCCAAACAAAAAAAAAAAAACCAAAAAACACCCAAAAAAAAAAAAAAAAACCCAAAAAAAAAAABAAAAAACA",
    "CACCAAAAAAAAAAAACCCCAAAAAAAAACAAABACABAAAAAAAAAACCAAAAACACAAAACCAAAACCCAAAAAAAAAAAAAAAAAAAAAAAAAAACA",
    "CAACCAAAAAAAAAAACCCCAACCCAAAACAAAAAAACAAAAAAAAAAACCAAAACACAAAAAAAAAAAAAAAABAAAAAAABAAAAAAAAAAAAAAACA",
    "AAAACCCAAAAAABAACCCCAAAAAAAAACAAAAAAABACAAAAAAAAAAAAACCCACAACAAABAAAAAACCCAAAAAAAAAAAAAAAAAAABAAAACA",
    "AAAAAACCCAAAAAAACCCCAABAAAACCCAAAACAAAAAAAAAAABAAAAAAAACACAAAAAAAAAAAAAAAAAAACCCAAAAAAAAAAAAAAAAAACA",
    "AAAAAAAACCCAAAAACCCCAAAACCAAACAAAAAAAAAACAAAAAACCCCCCCCCACCCCCAAAAAAAAAAAAAAAAAAAAAAAAAAABAAAAAAAAAA",
    "AAAAAAAAAAAAAAAACCCCAAAAAAAAACAAAAAAAAAAAAAAAAACAAAAAAAAAAAAAAAAAAABAACAAAAAABAAAAAAAAAAAAAAAAAAAAAA",
    "CCCCCCCCCCCCCCCCCCCCCCCAAAAAACCCCCCCCCCCCCAACCCCCCCCCCCCCCCCCCCAACAAAACAABACAAAACABAACCCCCCCCCCCCCCC",
    "CCCCCCCCCCCCCCCCCCCCAAAAABAAACCCCCCCCCCCCCAACCCCCCCCCCCCCCCCCCCAACAAAACAAAACAAAACAAAACCCCCCCCCCCCCCC",
];

/// The map of the second stage and of the boss's stage, top row first.
pub const STAGE2_MAP: [&'static str; 15] = [
    "CAAAAAAAAAAAAAAAAAAAACAAAAAAAAAAAAAAAAAAAAAACAAAAAAAAAAAAAAAAAAAAAAAAAAAAAAAAACAAAAAAAAAAAAAAAAAAAAA",
    "CAAAABAAAAAAAAAAAAAAACAAAAAAAAAAAAAAAAAAAAAACAAAAAAAAAAAAAAAAAAAAAAAAAAAAAAAAACAAAAAAAAABAAAAAAAAAAA",
    "CAAAAAAAAAAAAAAAAAAAAAAAAAAAABAAAAAAAAAAAAAACAAAAAAACCCCCCCCCCCCCCCCAAAAAAAAAACAAAAAAAAAAAAAAAAAAAAA",
    "CAAAAAAAAAAAAAAACAAAAAAAAAAAAAAAAAAAAACAAAAACAAAAAAAAAAAAAAAAAAAAAACAAAAAAAAAACAAAAAAAAAAAAAAAAAAAAA",
    "CAAAAAAAACAAAAAAAAAAACAACCCCCCCCCAACCCCCCCAACAAAAAAAAAAAAAAAAAAAAAACAAAAAAABAACAAAAAAAAAAAABAAAAAAAA",
    "CAAAAAAAAAAAAAAAAAAAACAAAAAAAAAACCCCAAAAAAAACCCCCCCCCCCCCCCAAAAAAAACAAAAAAAAAACAAAAAAAAAAAAAAAAAAAAA",
    "CAAAACAAAABACAAABACAACAAAAAAAAAAACAAAAAAAAAACAAAAAAAAAAAAAAAACCAAAACAAAAAAAAAACAAAAAAAAAAAAAAAAAAAAA",
    "CAAAAAAAAAAAAAAAAAAAACAACCCCCCCAACAAACCCCCCCCAAAAAAAAAAAAAAAAAAAAAACAAAAAAAAAACAAAAAACCAAAACCAAAAAAA",
    "CAAAAAACAAAAAAACAAAAACAAAAAAAAAAACCAAAAABAAAAAAAAAAAAAAAAAAAAAAAACACAAAAAAAAAACAAAAAAAAAAAAAAAAAAAAA",
    "CAAAAAAAABAACAAAAAAAACAAAAAAAAAAAAAAAAAAAAAAAAAAABAAAAAAAAAAAAAAAABCAAAAAAAAAACAAAAAABAAAAAAAAAAAAAA",
    "CAAAAAAAAAAAAAAAAAAAACCCAAAAAAACCAACCAAAAAAAAAAAAAAAAAAAAAAAAAAACAACAAAAAACCAACAAACCAAAACCAAAACCAAAA",
    "AAAAAACAAACAAAAACAAAACAAAACAACAAAAAAAAAAAAAAAAAAAAAAAAAAAAACAAAAAAACAAAAAAABAAAAAAAAAAAAAAAAAAAAAAAA",
    "AAAAAAAAAAAAAAAAAAAAACAAAACCCCAAACCAAAACCAAAAAAAAAAAAACBAAAAAAAAAAACAAAAAAAAAAAAAAAAAAAAAAAAAAAAAAAA",
    "CCCCCCCCCCCCCCCCCCCCCCAAAAAAAAAAAAAAAAAAAAACAAAAACAAAAAAAAAAAAAAAAACCCCCCCCCCCCCCCCCCCCCCCCCCCCCCCCC",
    "CCCCCCCCCCCCCCCCCCCCCCAAAAAAAAAAAAAAAAAAAAAAAAAAAAAAAAAAAAAAAAAAAAACCCCCCCCCCCCCCCCCCCCCCCCCCCCCCCCC",
];

/// The tile on which an enemy starts.
#[derive(Clone, Copy, Debug, PartialEq, Eq, Structural)]
pub struct EnemyPosition {
    pub x: u8,
    pub y: u8,
}

/// The tiles on which the enemies of the first stage start, each as column
/// and row.
pub const STAGE1_ENEMY_POSITION: [[u8; 2]; 25] = [
    [6, 8],
    [5, 3],
    [27, 3],
    [22, 3],
    [12, 12],
    [28, 9],
    [35, 3],
    [40, 12],
    [37, 12],
    [24, 7],
    [45, 2],
    [58, 10],
    [62, 2],
    [59, 12],
    [50, 7],
    [72, 8],
    [78, 9],
    [69, 3],
    [78, 5],
    [79, 1],
    [90, 12],
    [94, 12],
    [95, 2],
    [96, 12],
    [93, 12],
];

/// The tiles on which the enemies of the second stage and of the boss's
/// stage start, each as column and row.
pub const STAGE2_ENEMY_POSITION: [[u8; 2]; 20] = [
    [6, 12],
    [14, 12],
    [23, 12],
    [16, 2],
    [12, 12],
    [28, 3],
    [35, 9],
    [40, 3],
    [37, 3],
    [24, 6],
    [45, 2],
    [58, 1],
    [62, 1],
    [59, 1],
    [50, 7],
    [72, 12],
    [78, 12],
    [69, 12],
    [74, 5],
    [79, 12],
];

/// The map of a stage: the second stage and the boss's stage share one.
pub open spec fn stage_map(stage: StageState) -> Seq<&'static str> {
    match stage {
        StageState::Stage1 => STAGE1_MAP@,
        StageState::Stage2 | StageState::Boss => STAGE2_MAP@,
    }
}

/// The table of a stage's enemy tiles.
pub open spec fn stage_enemy_table(stage: StageState) -> Seq<[u8; 2]> {
    match stage {
        StageState::Stage1 => STAGE1_ENEMY_POSITION@,
        StageState::Stage2 | StageState::Boss => STAGE2_ENEMY_POSITION@,
    }
}

/// Lists the tiles on which the enemies of a stage start, in the order of
/// the stage's table.
pub fn enemy_positions(stage: StageState) -> (positions: Vec<EnemyPosition>)
    ensures
        positions@.len() == stage_enemy_table(stage).len(),
        forall|i: int|
            0 <= i < positions@.len() ==> #[trigger] positions@[i] == (EnemyPosition {
                x: stage_enemy_table(stage)[i]@[0],
                y: stage_enemy_table(stage)[i]@[1],
            }),
{
    let mut positions: Vec<EnemyPosition> = Vec::new();
    match stage {
        StageState::Stage1 => {
            let mut i: usize = 0;
            while i < 25
                invariant
                    i <= 25,
                    positions@.len() == i,
                    forall|k: int|
                        0 <= k < i ==> #[trigger] positions@[k] == (EnemyPosition {
                            x: STAGE1_ENEMY_POSITION@[k]@[0],
                            y: STAGE1_ENEMY_POSITION@[k]@[1],
                        }),
                decreases 25 - i,
            {
                let pair: [u8; 2] = STAGE1_ENEMY_POSITION[i];
                positions.push(EnemyPosition { x: pair[0], y: pair[1] });
                i = i + 1;
            }
        },
        StageState::Stage2 | StageState::Boss => {
            let mut i: usize = 0;
            while i < 20
                invariant
                    i <= 20,
                    positions@.len() == i,
                    forall|k: int|
                        0 <= k < i ==> #[trigger] positions@[k] == (EnemyPosition {
                            x: STAGE2_ENEMY_POSITION@[k]@[0],
                            y: STAGE2_ENEMY_POSITION@[k]@[1],
                        }),
                decreases 20 - i,
            {
                let pair: [u8; 2] = STAGE2_ENEMY_POSITION[i];
                positions.push(EnemyPosition { x: pair[0], y: pair[1] });
                i = i + 1;
            }
        },
    }
    positions
}

} // verus!
