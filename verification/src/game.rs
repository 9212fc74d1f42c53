//! The world of a stage and the order of a tick: the keys steer the
//! player, the walls correct it, an enemy's touch kills it, the weapons fly
//! and strike, and the enemies move.

use vstd::prelude::*;
use crate::consts::{stage_map, GameState, StageState, STAGE1_MAP, STAGE2_MAP};
use crate::contact::{meets_tile, Contact};
use crate::enemy::{move_enemies, Enemy, EnemyKind, ENEMY_LIZARD_WALK_STEP, ENEMY_SLIME_WALK_STEP};
use crate::geometry::{overlap, overlap_spec, Aabb, Vector, TILE_SIZE, UNIT};
use crate::player::{
    lemma_air_bounds, lemma_grounded_stays_supported, lemma_steering_keeps_support, Input, Player, AIR_TIME_LIMIT,
    DEATH_DELAY, GRAVITY_TIME_STEP,
};
use crate::scene::Flow;
use crate::tilemap::{decoded, lines_of, Cell, TileMap, TilePos};
use crate::timer::{lemma_timer_runs_for_its_duration, ticked_through, total, Timer};
use crate::weapon::{distinct_kinds, holds_kind, spawn_weapon, Weapon, WeaponKind, THUNDER_WARMUP};

verus! {

/// The largest distance from the origin at which a whole tick can be
/// computed: half of `COORD_LIMIT`, which leaves room for every move that
/// a tick can make.
pub const PLAY_LIMIT: i64 = 0x0800_0000_0000_0000;

/// The column of the tile on which the player starts a stage.
pub const PLAYER_START_COL: u32 = 2;

/// The row of the tile on which the player starts a stage.
pub const PLAYER_START_ROW: u32 = 2;

/// Past this value of x the first stage is cleared: two tiles before the
/// right end of the map, that is `TILE_SIZE` times `MAP_WIDTH_TILES - 2`.
pub const STAGE_CLEAR_X: i64 = 3_136_000_000;

/// Everything that lives in a stage while it is played.
#[derive(Debug)]
pub struct World {
    pub player: Player,
    pub enemies: Vec<Enemy>,
    pub weapons: Vec<Weapon>,
    /// The grid of the stage.
    pub map: TileMap,
    /// The wall tiles of the grid.
    pub walls: Vec<TilePos>,
    /// Runs while the player lies dead.
    pub death_timer: Timer,
    /// Runs while a new thunder hangs in the sky.
    pub thunder_timer: Timer,
}

/// The world as plain values.
pub struct WorldView {
    pub player: Player,
    pub enemies: Seq<Enemy>,
    pub weapons: Seq<Weapon>,
    pub map: Seq<Seq<Cell>>,
    pub walls: Seq<TilePos>,
    pub death_timer: Timer,
    pub thunder_timer: Timer,
}

/// One of the weapons overlaps a character at `target`.
pub open spec fn struck(weapons: Seq<Weapon>, target: Vector) -> bool {
    exists|i: int| 0 <= i < weapons.len() && (#[trigger] weapons[i]).strikes(target)
}

/// The weapon overlaps one of the enemies.
pub open spec fn strikes_any(weapon: Weapon, enemies: Seq<Enemy>) -> bool {
    exists|j: int| 0 <= j < enemies.len() && weapon.strikes((#[trigger] enemies[j]).position)
}

/// A character at `center` overlaps one of the enemies.
pub open spec fn touches_any(center: Vector, enemies: Seq<Enemy>) -> bool {
    exists|j: int|
        0 <= j < enemies.len() && overlap_spec(
            Aabb::character(center),
            Aabb::character((#[trigger] enemies[j]).position),
        ) is Some
}

/// The test that an enemy passes when none of the weapons overlaps it.
pub open spec fn spared(weapons: Seq<Weapon>) -> spec_fn(Enemy) -> bool {
    |enemy: Enemy| !struck(weapons, enemy.position)
}

/// The weapons and the warm-up timer of thunder after a tick of `delta`
/// nanoseconds.
///
/// The weapons are taken in their order. A thunder first lets the warm-up
/// timer run, and falls if that timer has then run out. Each weapon moves
/// and ages, and stays unless it expires; whether it hit is judged at the
/// place it had before the move.
pub open spec fn weapons_after(
    weapons: Seq<Weapon>,
    player: Player,
    enemies: Seq<Enemy>,
    thunder: Timer,
    delta: u64,
) -> (Seq<Weapon>, Timer)
    decreases weapons.len(),
{
    if weapons.len() == 0 {
        (Seq::empty(), thunder)
    } else {
        let (kept, earlier) = weapons_after(weapons.drop_last(), player, enemies, thunder, delta);
        let weapon = weapons.last();
        let timer = if weapon.kind is Thunder {
            earlier.ticked(delta)
        } else {
            earlier
        };
        if weapon.expires(strikes_any(weapon, enemies), delta) {
            (kept, timer)
        } else {
            (kept.push(weapon.advanced(player, timer.finished, delta)), timer)
        }
    }
}

impl WorldView {
    /// No two weapons are of one kind, no weapon's lifetime and no enemy's
    /// countdown has run out, and a grounded player has a wall beneath.
    pub open spec fn wf(self) -> bool {
        &&& distinct_kinds(self.weapons)
        &&& forall|i: int| 0 <= i < self.weapons.len() ==> !(#[trigger] self.weapons[i]).lifetime.finished
        &&& forall|i: int| 0 <= i < self.enemies.len() ==> (#[trigger] self.enemies[i]).move_lifetime >= 1
        &&& self.player.grounded ==> self.player.supported(self.walls)
    }

    /// The numbers of the world are small enough for one more tick.
    pub open spec fn playable(self) -> bool {
        &&& -PLAY_LIMIT <= self.player.position.x <= PLAY_LIMIT
        &&& -PLAY_LIMIT <= self.player.position.y <= PLAY_LIMIT
        &&& -PLAY_LIMIT <= self.player.velocity.y <= PLAY_LIMIT
        &&& -PLAY_LIMIT <= self.player.jump_start_y <= PLAY_LIMIT
        &&& self.player.fall_time <= AIR_TIME_LIMIT
        &&& forall|i: int| 0 <= i < self.weapons.len() ==> (#[trigger] self.weapons[i]).position.within_limit()
        &&& forall|i: int| 0 <= i < self.enemies.len() ==> (#[trigger] self.enemies[i]).steppable()
    }

    /// The world after the keys of a tick were read. The player is steered.
    /// A living player that asks for a weapon lets it go, unless one of
    /// that kind is in flight; a new thunder starts its warm-up.
    pub open spec fn controlled(self, input: Input) -> WorldView {
        let player = self.player.steered(input);
        match input.wanted_weapon() {
            Some(kind) if self.player.live && !holds_kind(self.weapons, kind) => WorldView {
                player,
                weapons: self.weapons.push(Weapon::spawned(kind, player)),
                thunder_timer: if kind is Thunder {
                    self.thunder_timer.rewound()
                } else {
                    self.thunder_timer
                },
                ..self
            },
            _ => WorldView { player, ..self },
        }
    }

    /// The world after the walls corrected the player. A player that dies
    /// of its fall starts the death timer.
    pub open spec fn walls_resolved(self) -> WorldView {
        let player = self.player.resolved(self.walls);
        WorldView {
            player,
            death_timer: if self.player.live && !player.live {
                self.death_timer.rewound()
            } else {
                self.death_timer
            },
            ..self
        }
    }

    /// The world after the enemies' touch was looked for: a living player
    /// whose box overlaps an enemy's dies, and the death timer starts.
    pub open spec fn enemy_checked(self) -> WorldView {
        if self.player.live && touches_any(self.player.position, self.enemies) {
            WorldView {
                player: Player { live: false, ..self.player },
                death_timer: self.death_timer.rewound(),
                ..self
            }
        } else {
            self
        }
    }

    /// The world after the weapons' part of a tick of `delta` nanoseconds:
    /// every enemy that a weapon overlaps is gone, and the weapons have
    /// moved, aged and expired as `weapons_after` says.
    pub open spec fn weapons_checked(self, delta: u64) -> WorldView {
        let after = weapons_after(self.weapons, self.player, self.enemies, self.thunder_timer, delta);
        WorldView {
            enemies: self.enemies.filter(spared(self.weapons)),
            weapons: after.0,
            thunder_timer: after.1,
            ..self
        }
    }

    /// The enemies can have become `after` in one tick: each one of them
    /// has taken a step that chance allows.
    pub open spec fn enemies_may_become(self, after: Seq<Enemy>) -> bool {
        &&& after.len() == self.enemies.len()
        &&& forall|i: int|
            0 <= i < self.enemies.len() ==> self.enemies[i].may_become(#[trigger] after[i], self.walls)
    }

    /// The world after all of a tick but the enemies' moves, in the order
    /// of the tick: keys, walls, the enemies' touch, weapons.
    pub open spec fn before_enemies_move(self, input: Input, delta: u64) -> WorldView {
        self.controlled(input).walls_resolved().enemy_checked().weapons_checked(delta)
    }

    /// The player has passed the line that clears the first stage.
    pub open spec fn stage_cleared(self) -> bool {
        self.player.position.x > STAGE_CLEAR_X
    }

    /// The player is dead, and after `delta` more nanoseconds the death
    /// timer has run out.
    pub open spec fn death_due(self, delta: u64) -> bool {
        !self.player.live && self.death_timer.ticked(delta).finished
    }

    /// The world after the death timer was looked after: it runs while the
    /// player is dead, and only then.
    pub open spec fn death_counted(self, delta: u64) -> WorldView {
        if self.player.live {
            self
        } else {
            WorldView { death_timer: self.death_timer.ticked(delta), ..self }
        }
    }

    /// The world as a stage begins: the player on its starting tile, a
    /// slime and a lizard at their places, no weapon, both timers at their
    /// start. The grid is left open.
    pub open spec fn begins(self) -> bool {
        &&& self.player == Player::spawned(
            TilePos { col: PLAYER_START_COL, row: PLAYER_START_ROW }.center(),
        )
        &&& self.enemies == seq![
            Enemy::spawned(
                EnemyKind::Slime,
                TilePos { col: 12, row: 2 }.center(),
                ENEMY_SLIME_WALK_STEP,
                30,
            ),
            Enemy::spawned(
                EnemyKind::Lizard,
                TilePos { col: 6, row: 11 }.center(),
                ENEMY_LIZARD_WALK_STEP,
                20,
            ),
        ]
        &&& self.weapons == Seq::<Weapon>::empty()
        &&& self.death_timer == Timer::fresh(DEATH_DELAY)
        &&& self.thunder_timer == Timer::fresh(THUNDER_WARMUP)
    }
}

/// The world and the flow after the part of a frame that runs beside the
/// ticks. Outside the game itself nothing happens. In it, the death timer
/// is looked after, and when it runs out the loading scene is asked for;
/// in the first stage, a player past the clearing line asks for the second
/// stage and the loading scene.
pub open spec fn frame_updated(world: WorldView, flow: Flow, delta: u64) -> (WorldView, Flow) {
    if !(flow.scene is Game) {
        (world, flow)
    } else {
        let died = if world.death_due(delta) {
            Flow { next_scene: Some(GameState::Loading), ..flow }
        } else {
            flow
        };
        let cleared = if flow.stage is Stage1 && world.stage_cleared() {
            Flow { next_scene: Some(GameState::Loading), next_stage: Some(StageState::Stage2), ..died }
        } else {
            died
        };
        (world.death_counted(delta), cleared)
    }
}

/// Tells whether one of the weapons overlaps a character at `target`.
pub fn struck_by(weapons: &Vec<Weapon>, target: Vector) -> (hit: bool)
    ensures
        hit == struck(weapons@, target),
{
    let mut i: usize = 0;
    while i < weapons.len()
        invariant
            i <= weapons@.len(),
            forall|k: int| 0 <= k < i ==> !(#[trigger] weapons@[k]).strikes(target),
        decreases weapons@.len() - i,
    {
        if weapons[i].hits(target) {
            return true;
        }
        i = i + 1;
    }
    false
}

/// Tells whether the weapon overlaps one of the enemies.
pub fn strikes_enemy(weapon: &Weapon, enemies: &Vec<Enemy>) -> (hit: bool)
    ensures
        hit == strikes_any(*weapon, enemies@),
{
    let mut j: usize = 0;
    while j < enemies.len()
        invariant
            j <= enemies@.len(),
            forall|k: int| 0 <= k < j ==> !weapon.strikes((#[trigger] enemies@[k]).position),
        decreases enemies@.len() - j,
    {
        if weapon.hits(enemies[j].position) {
            return true;
        }
        j = j + 1;
    }
    false
}

/// Tells whether a character at `center` overlaps one of the enemies.
pub fn touches_enemy(center: Vector, enemies: &Vec<Enemy>) -> (hit: bool)
    ensures
        hit == touches_any(center, enemies@),
{
    let mut j: usize = 0;
    while j < enemies.len()
        invariant
            j <= enemies@.len(),
            forall|k: int|
                0 <= k < j ==> !(overlap_spec(
                    Aabb::character(center),
                    Aabb::character((#[trigger] enemies@[k]).position),
                ) is Some),
        decreases enemies@.len() - j,
    {
        if overlap(Aabb::of_character(center), Aabb::of_character(enemies[j].position)).is_some() {
            return true;
        }
        j = j + 1;
    }
    false
}

/// Lists the enemies that none of the weapons overlaps, in their order.
pub fn surviving_enemies(enemies: &Vec<Enemy>, weapons: &Vec<Weapon>) -> (left: Vec<Enemy>)
    ensures
        left@ == enemies@.filter(spared(weapons@)),
{
    let mut left: Vec<Enemy> = Vec::new();
    let mut j: usize = 0;
    proof {
        reveal(Seq::filter);
        assert(enemies@.take(0) =~= Seq::<Enemy>::empty());
    }
    while j < enemies.len()
        invariant
            j <= enemies@.len(),
            left@ == enemies@.take(j as int).filter(spared(weapons@)),
        decreases enemies@.len() - j,
    {
        let enemy = enemies[j];
        proof {
            reveal(Seq::filter);
            let upto = enemies@.take(j + 1);
            assert(upto.drop_last() =~= enemies@.take(j as int));
            assert(upto.last() == enemy);
            assert(spared(weapons@)(enemy) == !struck(weapons@, enemy.position));
        }
        if !struck_by(weapons, enemy.position) {
            left.push(enemy);
        }
        j = j + 1;
    }
    assert(enemies@.take(enemies@.len() as int) =~= enemies@);
    left
}

/// Moves the weapons by one tick of `delta` nanoseconds and lists those
/// that stay. No weapon whose lifetime has run out is among them.
pub fn advance_weapons(
    weapons: &Vec<Weapon>,
    enemies: &Vec<Enemy>,
    player: &Player,
    thunder_timer: &mut Timer,
    delta: u64,
) -> (kept: Vec<Weapon>)
    requires
        player.position.within_limit(),
        forall|i: int| 0 <= i < weapons@.len() ==> (#[trigger] weapons@[i]).position.within_limit(),
    ensures
        (kept@, *final(thunder_timer)) == weapons_after(weapons@, *player, enemies@, *old(thunder_timer), delta),
        forall|k: int| 0 <= k < kept@.len() ==> !(#[trigger] kept@[k]).lifetime.finished,
{
    let mut kept: Vec<Weapon> = Vec::new();
    let mut i: usize = 0;
    proof {
        assert(weapons@.take(0) =~= Seq::<Weapon>::empty());
    }
    while i < weapons.len()
        invariant
            i <= weapons@.len(),
            player.position.within_limit(),
            forall|k: int| 0 <= k < weapons@.len() ==> (#[trigger] weapons@[k]).position.within_limit(),
            (kept@, *thunder_timer) == weapons_after(
                weapons@.take(i as int),
                *player,
                enemies@,
                *old(thunder_timer),
                delta,
            ),
            forall|k: int| 0 <= k < kept@.len() ==> !(#[trigger] kept@[k]).lifetime.finished,
        decreases weapons@.len() - i,
    {
        let mut weapon = weapons[i];
        proof {
            let upto = weapons@.take(i + 1);
            assert(upto.drop_last() =~= weapons@.take(i as int));
            assert(upto.last() == weapon);
        }
        let hit = strikes_enemy(&weapon, enemies);
        match weapon.kind {
            WeaponKind::Thunder => {
                thunder_timer.tick(delta);
            },
            _ => {},
        }
        let falling = thunder_timer.finished();
        let gone = weapon.advance(player, falling, hit, delta);
        if !gone {
            kept.push(weapon);
        }
        i = i + 1;
    }
    assert(weapons@.take(weapons@.len() as int) =~= weapons@);
    kept
}

/// A weapon whose lifetime runs out in a tick is gone with that tick,
/// whether it hit or not: none of the weapons that stay has a lifetime
/// that has run out.
pub proof fn lemma_expired_weapons_are_gone(
    weapons: Seq<Weapon>,
    player: Player,
    enemies: Seq<Enemy>,
    thunder: Timer,
    delta: u64,
)
    ensures
        forall|k: int|
            0 <= k < weapons_after(weapons, player, enemies, thunder, delta).0.len() ==> !(#[trigger] weapons_after(
                weapons,
                player,
                enemies,
                thunder,
                delta,
            ).0[k]).lifetime.finished,
    decreases weapons.len(),
{
    if weapons.len() > 0 {
        lemma_expired_weapons_are_gone(weapons.drop_last(), player, enemies, thunder, delta);
    }
}

/// The weapons that stay after a tick are of no other kinds than those
/// before it, so they are of distinct kinds where those were.
pub proof fn lemma_weapons_stay_distinct(
    weapons: Seq<Weapon>,
    player: Player,
    enemies: Seq<Enemy>,
    thunder: Timer,
    delta: u64,
)
    requires
        distinct_kinds(weapons),
    ensures
        distinct_kinds(weapons_after(weapons, player, enemies, thunder, delta).0),
        forall|kind: WeaponKind| #[trigger]
            holds_kind(weapons_after(weapons, player, enemies, thunder, delta).0, kind) ==> holds_kind(
                weapons,
                kind,
            ),
    decreases weapons.len(),
{
    let after = weapons_after(weapons, player, enemies, thunder, delta).0;
    if weapons.len() > 0 {
        let front = weapons.drop_last();
        let weapon = weapons.last();
        assert(distinct_kinds(front)) by {
            assert forall|i: int, j: int| 0 <= i < j < front.len() implies (#[trigger] front[i]).kind
                != (#[trigger] front[j]).kind by {
                assert(weapons[i].kind != weapons[j].kind);
            }
        }
        lemma_weapons_stay_distinct(front, player, enemies, thunder, delta);
        let kept = weapons_after(front, player, enemies, thunder, delta).0;
        assert forall|kind: WeaponKind| #[trigger] holds_kind(after, kind) implies holds_kind(weapons, kind) by {
            let i = choose|i: int| 0 <= i < after.len() && (#[trigger] after[i]).kind == kind;
            if i < kept.len() {
                assert(kept[i].kind == kind);
                assert(holds_kind(kept, kind));
                let j = choose|j: int| 0 <= j < front.len() && (#[trigger] front[j]).kind == kind;
                assert(weapons[j].kind == kind);
            } else {
                assert(weapons[weapons.len() - 1].kind == kind);
            }
        }
        assert forall|i: int, j: int| 0 <= i < j < after.len() implies (#[trigger] after[i]).kind
            != (#[trigger] after[j]).kind by {
            if j < kept.len() {
                assert(kept[i].kind != kept[j].kind);
            } else {
                assert(kept[i].kind == after[i].kind);
                assert(holds_kind(kept, after[i].kind));
                let m = choose|m: int| 0 <= m < front.len() && (#[trigger] front[m]).kind == after[i].kind;
                assert(weapons[m].kind != weapons[weapons.len() - 1].kind);
            }
        }
    }
}

impl World {
    /// The world as plain values.
    pub open spec fn view(&self) -> WorldView {
        WorldView {
            player: self.player,
            enemies: self.enemies@,
            weapons: self.weapons@,
            map: self.map@,
            walls: self.walls@,
            death_timer: self.death_timer,
            thunder_timer: self.thunder_timer,
        }
    }

    /// Reads the keys of a tick.
    pub fn control_player(&mut self, input: Input)
        requires
            old(self).player.position.within_limit(),
        ensures
            final(self)@ == old(self)@.controlled(input),
            distinct_kinds(old(self)@.weapons) ==> distinct_kinds(final(self)@.weapons),
            !old(self).player.live ==> final(self)@ == old(self)@,
    {
        match self.player.steer(input) {
            Some(kind) => {
                spawn_weapon(&mut self.weapons, &mut self.thunder_timer, &self.player, kind);
            },
            None => {},
        }
    }

    /// Lets the walls correct the player's move of this tick.
    pub fn check_collision_wall(&mut self)
        requires
            old(self).player.steppable(),
        ensures
            final(self)@ == old(self)@.walls_resolved(),
    {
        self.player.resolve_walls(&self.walls, &mut self.death_timer);
    }

    /// Lets the weapons strike, fly and age for a tick of `delta`
    /// nanoseconds.
    pub fn check_collision_player_weapon(&mut self, delta: u64)
        requires
            old(self).player.position.within_limit(),
            forall|i: int|
                0 <= i < old(self).weapons@.len() ==> (#[trigger] old(self).weapons@[i]).position.within_limit(),
        ensures
            final(self)@ == old(self)@.weapons_checked(delta),
            forall|k: int|
                0 <= k < final(self).weapons@.len() ==> !(#[trigger] final(self).weapons@[k]).lifetime.finished,
            distinct_kinds(old(self)@.weapons) ==> distinct_kinds(final(self)@.weapons),
    {
        proof {
            if distinct_kinds(self@.weapons) {
                lemma_weapons_stay_distinct(
                    self@.weapons,
                    self@.player,
                    self@.enemies,
                    self@.thunder_timer,
                    delta,
                );
            }
        }
        let enemies = surviving_enemies(&self.enemies, &self.weapons);
        let weapons = advance_weapons(&self.weapons, &self.enemies, &self.player, &mut self.thunder_timer, delta);
        self.enemies = enemies;
        self.weapons = weapons;
    }

    /// Moves every enemy by one tick.
    pub fn move_enemy(&mut self)
        requires
            forall|i: int| 0 <= i < old(self).enemies@.len() ==> (#[trigger] old(self).enemies@[i]).steppable(),
        ensures
            old(self)@.enemies_may_become(final(self)@.enemies),
            final(self)@ == (WorldView { enemies: final(self)@.enemies, ..old(self)@ }),
            forall|i: int|
                0 <= i < final(self).enemies@.len() ==> (#[trigger] final(self).enemies@[i]).move_lifetime >= 1,
    {
        move_enemies(&mut self.enemies, &self.walls);
    }

    /// Builds the world of a stage: reads the stage's map, and puts the
    /// player, the enemies and the timers at their start.
    pub fn setup(stage: StageState) -> (world: World)
        ensures
            world@.begins(),
            world@.map == decoded(lines_of(stage_map(stage))),
            forall|pos: TilePos| #[trigger] world@.walls.contains(pos) <==> world.map.cell_at(pos) == Cell::Wall,
            world@.walls.no_duplicates(),
            world@.wf(),
            world@.playable(),
    {
        let map = match stage {
            StageState::Stage1 => TileMap::decode(STAGE1_MAP.as_slice()),
            StageState::Stage2 | StageState::Boss => TileMap::decode(STAGE2_MAP.as_slice()),
        };
        let walls = map.walls();
        let start = TilePos { col: PLAYER_START_COL, row: PLAYER_START_ROW };
        proof {
            lemma_ground_under_start(stage);
            let below = TilePos { col: PLAYER_START_COL, row: 1 };
            assert(map@.len() == map.rows@.len());
            assert(map@[1] == map.rows@[1]@);
            assert(map.cell_at(below) == Cell::Wall);
            assert(walls@.contains(below));
            let k = choose|k: int| 0 <= k < walls@.len() && walls@[k] == below;
            assert(meets_tile(
                walls@[k],
                Vector { x: start.center().x, y: (start.center().y - UNIT) as i64 },
                Contact::Any,
            ));
        }
        let mut enemies: Vec<Enemy> = Vec::new();
        enemies.push(
            Enemy::new(EnemyKind::Slime, TilePos { col: 12, row: 2 }.to_center(), ENEMY_SLIME_WALK_STEP, 30),
        );
        enemies.push(
            Enemy::new(EnemyKind::Lizard, TilePos { col: 6, row: 11 }.to_center(), ENEMY_LIZARD_WALK_STEP, 20),
        );
        let world = World {
            player: Player::new(start.to_center()),
            enemies,
            weapons: Vec::new(),
            map,
            walls,
            death_timer: Timer::new(DEATH_DELAY),
            thunder_timer: Timer::new(THUNDER_WARMUP),
        };
        assert(world@.enemies =~= seq![
            Enemy::spawned(
                EnemyKind::Slime,
                TilePos { col: 12, row: 2 }.center(),
                ENEMY_SLIME_WALK_STEP,
                30,
            ),
            Enemy::spawned(
                EnemyKind::Lizard,
                TilePos { col: 6, row: 11 }.center(),
                ENEMY_LIZARD_WALK_STEP,
                20,
            ),
        ]);
        world
    }

    /// Tells whether the numbers of the world are small enough for one
    /// more tick.
    pub fn can_play(&self) -> (ok: bool)
        ensures
            ok == self@.playable(),
    {
        if !(-PLAY_LIMIT <= self.player.position.x && self.player.position.x <= PLAY_LIMIT && -PLAY_LIMIT
            <= self.player.position.y && self.player.position.y <= PLAY_LIMIT && -PLAY_LIMIT
            <= self.player.velocity.y && self.player.velocity.y <= PLAY_LIMIT && -PLAY_LIMIT
            <= self.player.jump_start_y && self.player.jump_start_y <= PLAY_LIMIT && self.player.fall_time
            <= AIR_TIME_LIMIT) {
            return false;
        }
        let mut i: usize = 0;
        while i < self.weapons.len()
            invariant
                i <= self.weapons@.len(),
                forall|k: int| 0 <= k < i ==> (#[trigger] self.weapons@[k]).position.within_limit(),
            decreases self.weapons@.len() - i,
        {
            if !self.weapons[i].position.is_within_limit() {
                assert(!self@.weapons[i as int].position.within_limit());
                return false;
            }
            i = i + 1;
        }
        let mut j: usize = 0;
        while j < self.enemies.len()
            invariant
                j <= self.enemies@.len(),
                forall|k: int| 0 <= k < self.weapons@.len() ==> (#[trigger] self.weapons@[k]).position.within_limit(),
                forall|k: int| 0 <= k < j ==> (#[trigger] self.enemies@[k]).steppable(),
            decreases self.enemies@.len() - j,
        {
            if !self.enemies[j].can_step() {
                assert(!self@.enemies[j as int].steppable());
                return false;
            }
            j = j + 1;
        }
        true
    }

    /// Runs one tick of `delta` nanoseconds, in its order: the keys steer
    /// the player, the walls correct it, an enemy's touch kills it, the
    /// weapons strike and fly, and the enemies move.
    pub fn fixed_update(&mut self, input: Input, delta: u64)
        requires
            old(self)@.playable(),
        ensures
            old(self)@.before_enemies_move(input, delta).enemies_may_become(final(self)@.enemies),
            final(self)@ == (WorldView {
                enemies: final(self)@.enemies,
                ..old(self)@.before_enemies_move(input, delta)
            }),
            old(self)@.wf() ==> final(self)@.wf(),
    {
        proof {
            if self@.wf() {
                lemma_tick_keeps_player_supported(self@, input, delta);
            }
        }
        self.control_player(input);
        proof {
            lemma_resolved_stays_near(self.player, self.walls@);
        }
        self.check_collision_wall();
        self.check_collision_enemy();
        proof {
            lemma_filter_keeps(self.enemies@, spared(self.weapons@));
        }
        self.check_collision_player_weapon(delta);
        self.move_enemy();
    }

    /// Looks after the death timer: it runs by `delta` nanoseconds while
    /// the player is dead, and when it runs out the loading scene is asked
    /// for. Returns whether it was.
    pub fn die_counter(&mut self, flow: &mut Flow, delta: u64) -> (fired: bool)
        ensures
            final(self)@ == old(self)@.death_counted(delta),
            fired == old(self)@.death_due(delta),
            *final(flow) == (if fired {
                Flow { next_scene: Some(GameState::Loading), ..*old(flow) }
            } else {
                *old(flow)
            }),
    {
        if self.player.live {
            return false;
        }
        self.death_timer.tick(delta);
        if self.death_timer.finished() {
            flow.set_scene(GameState::Loading);
            true
        } else {
            false
        }
    }

    /// Looks whether the player has cleared the first stage: past the
    /// clearing line it asks for the second stage and the loading scene.
    pub fn check_stage1_clear(&self, flow: &mut Flow) -> (cleared: bool)
        ensures
            cleared == self@.stage_cleared(),
            *final(flow) == (if cleared {
                Flow {
                    next_scene: Some(GameState::Loading),
                    next_stage: Some(StageState::Stage2),
                    ..*old(flow)
                }
            } else {
                *old(flow)
            }),
    {
        if self.player.position.x > STAGE_CLEAR_X {
            flow.set_stage(StageState::Stage2);
            flow.set_scene(GameState::Loading);
            true
        } else {
            false
        }
    }

    /// Runs the part of a frame that goes on beside the ticks, `delta`
    /// nanoseconds after the frame before: the death timer, and in the
    /// first stage the look at the clearing line. Outside the game itself
    /// nothing happens.
    pub fn update(&mut self, flow: &mut Flow, delta: u64)
        ensures
            (final(self)@, *final(flow)) == frame_updated(old(self)@, *old(flow), delta),
    {
        if flow.scene != GameState::Game {
            return;
        }
        let in_first_stage = flow.stage == StageState::Stage1;
        self.die_counter(flow, delta);
        if in_first_stage {
            self.check_stage1_clear(flow);
        }
    }

    /// Looks for the touch of an enemy, which kills a living player.
    pub fn check_collision_enemy(&mut self)
        ensures
            final(self)@ == old(self)@.enemy_checked(),
    {
        if self.player.live && touches_enemy(self.player.position, &self.enemies) {
            self.player.die(&mut self.death_timer);
        }
    }
}

/// In the map of every stage the tile below the player's start is a wall.
proof fn lemma_ground_under_start(stage: StageState)
    ensures
        decoded(lines_of(stage_map(stage))).len() == 15,
        decoded(lines_of(stage_map(stage)))[1].len() == 100,
        decoded(lines_of(stage_map(stage)))[1][PLAYER_START_COL as int] == Cell::Wall,
{
    reveal_strlit(
        "CCCCCCCCCCCCCCCCCCCCCCCAAAAAACCCCCCCCCCCCCAACCCCCCCCCCCCCCCCCCCAACAAAACAABACAAAACABAACCCCCCCCCCCCCCC",
    );
    reveal_strlit(
        "CCCCCCCCCCCCCCCCCCCCCCAAAAAAAAAAAAAAAAAAAAACAAAAACAAAAAAAAAAAAAAAAACCCCCCCCCCCCCCCCCCCCCCCCCCCCCCCCC",
    );
    assert(stage_map(stage).len() == 15);
    assert(stage_map(stage)[13]@.len() == 100);
    assert(stage_map(stage)[13]@[2] == 'C');
    assert(lines_of(stage_map(stage))[13] == stage_map(stage)[13]@);
}

/// Whatever passes a test was there before: every member of the filtered
/// sequence is a member of the sequence.
proof fn lemma_filter_keeps(enemies: Seq<Enemy>, test: spec_fn(Enemy) -> bool)
    ensures
        forall|i: int| 0 <= i < enemies.filter(test).len() ==> enemies.contains(#[trigger] enemies.filter(test)[i]),
    decreases enemies.len(),
{
    reveal(Seq::filter);
    if enemies.len() > 0 {
        let front = enemies.drop_last();
        lemma_filter_keeps(front, test);
        assert forall|i: int| 0 <= i < enemies.filter(test).len() implies enemies.contains(
            #[trigger] enemies.filter(test)[i],
        ) by {
            if i < front.filter(test).len() {
                let member = front.filter(test)[i];
                assert(front.contains(member));
                let j = choose|j: int| 0 <= j < front.len() && front[j] == member;
                assert(enemies[j] == member);
            } else {
                assert(enemies[enemies.len() - 1] == enemies.filter(test)[i]);
            }
        }
    }
}

/// A tick among the walls takes the player less than `PLAY_LIMIT` away:
/// from within `PLAY_LIMIT` it stays within `COORD_LIMIT`.
proof fn lemma_resolved_stays_near(player: Player, walls: Seq<TilePos>)
    requires
        -PLAY_LIMIT - TILE_SIZE <= player.position.x <= PLAY_LIMIT + TILE_SIZE,
        -PLAY_LIMIT <= player.position.y <= PLAY_LIMIT,
        -PLAY_LIMIT <= player.jump_start_y <= PLAY_LIMIT,
        -PLAY_LIMIT <= player.velocity.y <= PLAY_LIMIT,
        player.fall_time <= AIR_TIME_LIMIT,
    ensures
        player.resolved(walls).position.within_limit(),
{
    let h = player.after_horizontal(walls);
    lemma_air_bounds(h.fall_time + GRAVITY_TIME_STEP);
}

/// A grounded player has a wall beneath through every tick: where a
/// grounded player overlaps a wall one unit below its place before a tick,
/// a player that is grounded after the tick does so too.
pub proof fn lemma_tick_keeps_player_supported(world: WorldView, input: Input, delta: u64)
    requires
        world.playable(),
        world.player.grounded ==> world.player.supported(world.walls),
    ensures
        world.before_enemies_move(input, delta).player.grounded ==> world.before_enemies_move(
            input,
            delta,
        ).player.supported(world.walls),
        world.before_enemies_move(input, delta).walls == world.walls,
{
    lemma_steering_keeps_support(world.player, input, world.walls);
    let steered = world.controlled(input);
    assert(steered.player == world.player.steered(input));
    lemma_grounded_stays_supported(steered.player, world.walls);
}

/// A dead player takes no input: whatever the keys, it is not steered and
/// lets no weapon go.
pub proof fn lemma_dead_player_takes_no_input(world: WorldView, input: Input)
    requires
        !world.player.live,
    ensures
        world.controlled(input) == world,
{
}

/// Until the death timer runs out, the death of the player changes no
/// scene; when it runs out, the loading scene is asked for.
pub proof fn lemma_death_waits_for_timer(world: WorldView, flow: Flow, delta: u64)
    requires
        flow.scene is Game,
        !world.player.live,
        !world.stage_cleared(),
    ensures
        !world.death_timer.ticked(delta).finished ==> frame_updated(world, flow, delta).1 == flow,
        world.death_timer.ticked(delta).finished ==> frame_updated(world, flow, delta).1 == (Flow {
            next_scene: Some(GameState::Loading),
            ..flow
        }),
{
}

/// The world and the flow after a row of frames, `deltas` giving the time
/// of each; every frame ends with the changes made that it asked for.
pub open spec fn frames_run(world: WorldView, flow: Flow, deltas: Seq<u64>) -> (WorldView, Flow)
    decreases deltas.len(),
{
    if deltas.len() == 0 {
        (world, flow)
    } else {
        let before = frames_run(world, flow, deltas.drop_last());
        let after = frame_updated(before.0, before.1, deltas.last());
        (after.0, after.1.settled())
    }
}

/// Death changes the scene after two seconds: from the frame in which the
/// player died, the game is left for the loading scene exactly when the
/// times of the frames add up to `DEATH_DELAY` or more. Until then the
/// death timer has counted those times.
pub proof fn lemma_death_changes_scene_after_delay(world: WorldView, flow: Flow, deltas: Seq<u64>)
    requires
        flow.scene is Game,
        flow.next_scene is None,
        flow.next_stage is None,
        !world.player.live,
        world.death_timer == Timer::fresh(DEATH_DELAY),
        !(flow.stage is Stage1 && world.stage_cleared()),
    ensures
        frames_run(world, flow, deltas).1 == (Flow {
            scene: if total(deltas) >= DEATH_DELAY {
                GameState::Loading
            } else {
                GameState::Game
            },
            ..flow
        }),
        total(deltas) < DEATH_DELAY ==> frames_run(world, flow, deltas).0.death_timer.elapsed == total(deltas),
    decreases deltas.len(),
{
    lemma_frames_after_death(world, flow, deltas);
    lemma_timer_runs_for_its_duration(DEATH_DELAY, deltas);
}

/// What the frames after the player's death leave: the world as it was
/// but for the death timer, which has run through the frames until the
/// scene changed.
proof fn lemma_frames_after_death(world: WorldView, flow: Flow, deltas: Seq<u64>)
    requires
        flow.scene is Game,
        flow.next_scene is None,
        flow.next_stage is None,
        !world.player.live,
        world.death_timer == Timer::fresh(DEATH_DELAY),
        !(flow.stage is Stage1 && world.stage_cleared()),
    ensures
        frames_run(world, flow, deltas).0 == (WorldView {
            death_timer: frames_run(world, flow, deltas).0.death_timer,
            ..world
        }),
        total(deltas) < DEATH_DELAY ==> frames_run(world, flow, deltas).0.death_timer == ticked_through(
            Timer::fresh(DEATH_DELAY),
            deltas,
        ),
        frames_run(world, flow, deltas).1 == (Flow {
            scene: if total(deltas) >= DEATH_DELAY {
                GameState::Loading
            } else {
                GameState::Game
            },
            ..flow
        }),
    decreases deltas.len(),
{
    if deltas.len() > 0 {
        let front = deltas.drop_last();
        lemma_frames_after_death(world, flow, front);
        lemma_timer_runs_for_its_duration(DEATH_DELAY, front);
        lemma_timer_runs_for_its_duration(DEATH_DELAY, deltas);
    }
}

/// The change of scene on death is made once: when the death timer of a
/// dead player runs out in the game, the loading scene is asked for, and
/// once the tick has ended and the scene has changed, no later frame asks
/// for anything or changes the world.
pub proof fn lemma_death_changes_scene_once(world: WorldView, flow: Flow, delta: u64, later: u64)
    requires
        flow.scene is Game,
        world.death_due(delta),
    ensures
        frame_updated(world, flow, delta).1.next_scene == Some(GameState::Loading),
        frame_updated(world, flow, delta).1.settled().scene == GameState::Loading,
        frame_updated(frame_updated(world, flow, delta).0, frame_updated(world, flow, delta).1.settled(), later)
            == (frame_updated(world, flow, delta).0, frame_updated(world, flow, delta).1.settled()),
{
}

} // verus!
