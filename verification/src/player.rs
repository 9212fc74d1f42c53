//! The player: what the keys do to it, and how it walks, jumps, falls and
//! lands among the walls of a stage.

use vstd::prelude::*;
use crate::contact::{meets_tile, meets_wall, touches_wall, Contact};
use crate::geometry::{lemma_equal_boxes_overlap, Aabb, Direction, Vector, CHARACTER_SIZE, COORD_LIMIT, TILE_SIZE, UNIT};
use crate::tilemap::TilePos;
use crate::timer::Timer;
use crate::weapon::WeaponKind;

verus! {

/// The upward speed that a jump starts with, per unit of time.
pub const PLAYER_JUMP_FORCE: i64 = 44_000_000;

/// The distance that the player walks in one tick.
pub const PLAYER_WALK_STEP: i64 = 4_000_000;

/// The downward acceleration of a body in the air.
pub const GRAVITY: i64 = 9_810_000;

/// The time, in millionths, by which a body in the air ages in one tick. It
/// is longer than the tick itself, to make a fall look right.
pub const GRAVITY_TIME_STEP: u64 = 240_000;

/// The speed that gravity takes from a body in the air in one tick:
/// `GRAVITY` times `GRAVITY_TIME_STEP`.
pub const GRAVITY_SPEED_STEP: i64 = 2_354_400;

/// The longest time in the air for which the height is computed.
pub const AIR_TIME_LIMIT: u64 = 0x1_0000_0000;

/// The time for which a dead player lies before the scene changes, in
/// nanoseconds.
pub const DEATH_DELAY: u64 = 2_000_000_000;

/// The keys as the player's controller sees them in one tick.
#[derive(Clone, Copy, Debug, PartialEq, Eq, Structural)]
pub struct Input {
    /// The key for walking left is held down.
    pub left: bool,
    /// The key for walking right is held down.
    pub right: bool,
    /// The jump key went down in this tick.
    pub jump: bool,
    /// The key of the fire weapon went down in this tick.
    pub fire: bool,
    /// The key of the ice weapon went down in this tick.
    pub ice: bool,
    /// The key of the thunder weapon went down in this tick.
    pub thunder: bool,
    /// The key of the sword went down in this tick.
    pub sword: bool,
}

impl Input {
    /// The weapon that the keys ask for. Where several weapon keys went down
    /// at once, fire goes before ice, ice before thunder, thunder before the
    /// sword.
    pub open spec fn wanted_weapon(self) -> Option<WeaponKind> {
        if self.fire {
            Some(WeaponKind::Fire)
        } else if self.ice {
            Some(WeaponKind::Ice)
        } else if self.thunder {
            Some(WeaponKind::Thunder)
        } else if self.sword {
            Some(WeaponKind::Sword)
        } else {
            None
        }
    }

    /// No key is held and none went down.
    pub open spec fn idle() -> Input {
        Input {
            left: false,
            right: false,
            jump: false,
            fire: false,
            ice: false,
            thunder: false,
            sword: false,
        }
    }

    /// The input of a tick in which no key is held and none went down.
    pub fn none() -> (input: Input)
        ensures
            input == Input::idle(),
    {
        Input {
            left: false,
            right: false,
            jump: false,
            fire: false,
            ice: false,
            thunder: false,
            sword: false,
        }
    }

    /// The weapon that the keys ask for.
    pub fn weapon(&self) -> (kind: Option<WeaponKind>)
        ensures
            kind == self.wanted_weapon(),
    {
        if self.fire {
            Some(WeaponKind::Fire)
        } else if self.ice {
            Some(WeaponKind::Ice)
        } else if self.thunder {
            Some(WeaponKind::Thunder)
        } else if self.sword {
            Some(WeaponKind::Sword)
        } else {
            None
        }
    }
}

/// The four states of the player's controller.
#[derive(Clone, Copy, Debug, PartialEq, Eq, Structural)]
pub enum PlayerState {
    /// Alive and resting on a wall.
    Grounded,
    /// Alive and on the arc of a jump.
    Jumping,
    /// Alive and falling without the push of a jump.
    Falling,
    /// Dead: nothing but the death timer goes on.
    Dead,
}

/// The player.
#[derive(Clone, Copy, Debug, PartialEq, Eq, Structural)]
pub struct Player {
    /// The centre of the player's box.
    pub position: Vector,
    /// The speed; only its vertical part takes part in the rules.
    pub velocity: Vector,
    /// The way the player faces.
    pub direction: Direction,
    /// A walking key was held when the keys were last read, and the step
    /// has not been taken yet.
    pub walk: bool,
    /// The player rests on a wall and gravity leaves it alone.
    pub grounded: bool,
    /// The player is alive.
    pub live: bool,
    /// The player is on the arc of a jump, not merely falling.
    pub jump: bool,
    /// The time spent in the air since the jump or the fall began.
    pub fall_time: u64,
    /// The height at which the jump or the fall began.
    pub jump_start_y: i64,
}

/// The height that a jump has gained after the time `t` if nothing pulled.
pub open spec fn climb(t: int) -> int {
    (PLAYER_JUMP_FORCE * t) / (UNIT as int)
}

/// The height that gravity has taken after the time `t` in the air.
pub open spec fn drop(t: int) -> int {
    (GRAVITY * (t * t)) / (2 * UNIT * UNIT)
}

/// The height of a body that left `start_y` the time `t` ago: on the arc
/// `start_y + v0 * t - g * t * t / 2` of a jump, or on `start_y - g * t * t / 2`
/// where it only fell.
pub open spec fn airborne_y(start_y: int, jump: bool, t: int) -> int {
    if jump {
        start_y + climb(t) - drop(t)
    } else {
        start_y - drop(t)
    }
}

/// What is left of `y` over whole tiles, counted towards zero: it has the
/// sign of `y`.
pub open spec fn tile_remainder(y: int) -> int {
    if y >= 0 {
        y % (TILE_SIZE as int)
    } else {
        -((-y) % (TILE_SIZE as int))
    }
}

/// The height at which a falling body comes to rest: `y` itself on a tile
/// boundary, else its remainder is taken off and one tile put on. A centre
/// less than a tile below zero is so lifted on top of the ground row.
pub open spec fn snapped_up(y: int) -> int {
    if tile_remainder(y) != 0 {
        y + (TILE_SIZE - tile_remainder(y))
    } else {
        y
    }
}

/// The height at which a rising body is stopped: `y` less its remainder.
pub open spec fn snapped_down(y: int) -> int {
    y - tile_remainder(y)
}

/// Within the time limit, a jump climbs and gravity takes less than
/// `0x8000_0000_0000`, so a height in the air stays close to where it began.
pub proof fn lemma_air_bounds(t: int)
    requires
        0 <= t <= AIR_TIME_LIMIT + GRAVITY_TIME_STEP,
    ensures
        0 <= climb(t) <= 0x8000_0000_0000,
        0 <= drop(t) <= 0x8000_0000_0000,
        drop(t) == (GRAVITY * (t * t)) / 2_000_000_000_000,
        climb(t) == (PLAYER_JUMP_FORCE * t) / 1_000_000,
        0 <= GRAVITY * (t * t) <= 9_810_000 * 0x1_0008_0000_0000_0000,
        0 <= PLAYER_JUMP_FORCE * t <= 44_000_000 * 0x1_0004_0000,
        0 <= t * t <= 0x1_0008_0000_0000_0000,
{
    assert(0 <= t * t <= 0x1_0008_0000_0000_0000) by (nonlinear_arith)
        requires
            0 <= t <= 0x1_0000_0000 + 240_000,
    ;
    assert(0 <= GRAVITY * (t * t) <= 9_810_000 * 0x1_0008_0000_0000_0000) by (nonlinear_arith)
        requires
            GRAVITY == 9_810_000,
            0 <= t * t <= 0x1_0008_0000_0000_0000,
    ;
    assert(0 <= PLAYER_JUMP_FORCE * t <= 44_000_000 * 0x1_0004_0000) by (nonlinear_arith)
        requires
            PLAYER_JUMP_FORCE == 44_000_000,
            0 <= t <= 0x1_0000_0000 + 240_000,
    ;
    assert(2 * UNIT * UNIT == 2_000_000_000_000);
}

/// Computes the height of a body in the air.
pub fn airborne_height(start_y: i64, jump: bool, t: u64) -> (y: i64)
    requires
        -COORD_LIMIT <= start_y <= COORD_LIMIT,
        t <= AIR_TIME_LIMIT + GRAVITY_TIME_STEP,
    ensures
        y == airborne_y(start_y as int, jump, t as int),
{
    proof {
        lemma_air_bounds(t as int);
    }
    let time: i128 = t as i128;
    let pull: i128 = (GRAVITY as i128) * (time * time);
    let push: i128 = (PLAYER_JUMP_FORCE as i128) * time;
    let fallen: i128 = pull / 2_000_000_000_000;
    let risen: i128 = push / 1_000_000;
    if jump {
        ((start_y as i128) + risen - fallen) as i64
    } else {
        ((start_y as i128) - fallen) as i64
    }
}

/// Both snaps end on a tile boundary.
pub proof fn lemma_snaps_align(y: int)
    ensures
        snapped_up(y) % (TILE_SIZE as int) == 0,
        snapped_down(y) % (TILE_SIZE as int) == 0,
{
    let t = TILE_SIZE as int;
    if y >= 0 {
        let q = y / t;
        let r = y % t;
        assert(y == q * t + r && 0 <= r < t) by (nonlinear_arith)
            requires
                q == y / t,
                r == y % t,
                t == 32_000_000,
        ;
        assert((q * t) % t == 0 && ((q + 1) * t) % t == 0) by (nonlinear_arith)
            requires
                t == 32_000_000,
        ;
        assert(y - r == q * t);
        assert(y + (t - r) == (q + 1) * t) by (nonlinear_arith)
            requires
                y == q * t + r,
        ;
    } else {
        let q = (-y) / t;
        let r = (-y) % t;
        assert(-y == q * t + r && 0 <= r < t) by (nonlinear_arith)
            requires
                q == (-y) / t,
                r == (-y) % t,
                t == 32_000_000,
        ;
        assert((-q * t) % t == 0 && ((1 - q) * t) % t == 0) by (nonlinear_arith)
            requires
                t == 32_000_000,
        ;
        assert(tile_remainder(y) == -r);
        assert(y + r == -q * t) by (nonlinear_arith)
            requires
                -y == q * t + r,
        ;
        assert(y + (t + r) == (1 - q) * t) by (nonlinear_arith)
            requires
                -y == q * t + r,
        ;
    }
}

/// A body that has sunk into a tile of the grid, less deep than to the
/// tile's centre, is lifted by the snap to rest on the tile: its centre
/// comes to lie one tile above the tile's centre.
pub proof fn lemma_snap_up_rests_on_tile(y: int, row: nat)
    requires
        TILE_SIZE * row < y < TILE_SIZE * row + TILE_SIZE,
    ensures
        snapped_up(y) == TILE_SIZE * row + TILE_SIZE,
{
    let t = TILE_SIZE as int;
    let q = y / t;
    let r = y % t;
    assert(y == q * t + r && 0 <= r < t) by (nonlinear_arith)
        requires
            q == y / t,
            r == y % t,
            t == 32_000_000,
    ;
    assert(q == row) by (nonlinear_arith)
        requires
            y == q * t + r,
            0 <= r < t,
            t * row < y < t * row + t,
            t == 32_000_000,
    ;
    assert(r != 0) by (nonlinear_arith)
        requires
            y == q * t + r,
            q == row,
            t * row < y,
    ;
    assert(y + (t - r) == t * row + t) by (nonlinear_arith)
        requires
            y == q * t + r,
            q == row,
    ;
}

/// A body whose box overlaps a tile of the grid is lifted by the snap to
/// a height from which, one unit lower, its box still overlaps that tile.
pub proof fn lemma_snap_up_stays_in_touch(y: int, row: nat)
    requires
        TILE_SIZE * row - TILE_SIZE < y < TILE_SIZE * row + TILE_SIZE,
    ensures
        -TILE_SIZE < snapped_up(y) - UNIT - TILE_SIZE * row < TILE_SIZE,
{
    let t = TILE_SIZE as int;
    if y > t * row {
        lemma_snap_up_rests_on_tile(y, row);
    } else if y == t * row {
        assert((t * row) % t == 0) by (nonlinear_arith)
            requires
                t == 32_000_000,
                row >= 0,
        ;
    } else if row == 0 {
        // less than a tile below zero: the remainder is the height itself
        assert((-y) % t == -y) by (nonlinear_arith)
            requires
                0 < -y < t,
        ;
    } else {
        let below = (row - 1) as nat;
        assert(t * below == t * row - t) by (nonlinear_arith)
            requires
                below == row - 1,
        ;
        lemma_snap_up_rests_on_tile(y, below);
    }
}

/// Lifts a height to where a falling body comes to rest.
pub fn snap_up(y: i64) -> (r: i64)
    requires
        y <= i64::MAX - 2 * TILE_SIZE,
    ensures
        r == snapped_up(y as int),
{
    let rest: i64 = y % TILE_SIZE;
    if rest != 0 {
        y + (TILE_SIZE - rest)
    } else {
        y
    }
}

/// Lowers a height to where a rising body is stopped.
pub fn snap_down(y: i64) -> (r: i64)
    ensures
        r == snapped_down(y as int),
{
    y - y % TILE_SIZE
}

impl Player {
    /// The player as a stage begins: at `position`, standing, facing right.
    pub open spec fn spawned(position: Vector) -> Player {
        Player {
            position,
            velocity: Vector { x: 0, y: 0 },
            direction: Direction::Right,
            walk: false,
            grounded: true,
            live: true,
            jump: false,
            fall_time: 0,
            jump_start_y: 0,
        }
    }

    /// One unit below its place, the player's box overlaps a wall.
    pub open spec fn supported(self, walls: Seq<TilePos>) -> bool {
        meets_wall(
            walls,
            Vector { x: self.position.x, y: (self.position.y - UNIT) as i64 },
            Contact::Any,
        )
    }

    /// The state of the controller that the flags stand for.
    pub open spec fn state_of(self) -> PlayerState {
        if !self.live {
            PlayerState::Dead
        } else if self.grounded {
            PlayerState::Grounded
        } else if self.jump {
            PlayerState::Jumping
        } else {
            PlayerState::Falling
        }
    }

    /// The numbers of the player are small enough for one more tick.
    pub open spec fn steppable(self) -> bool {
        &&& self.position.within_limit()
        &&& -COORD_LIMIT <= self.velocity.y <= COORD_LIMIT
        &&& -COORD_LIMIT <= self.jump_start_y <= COORD_LIMIT
        &&& self.fall_time <= AIR_TIME_LIMIT
    }

    /// The player after the keys of a tick were read. A dead player takes no
    /// input. A walking key turns the player and asks for a step. The jump
    /// key lifts a player that stands: it leaves the ground with the speed
    /// of a jump, and the arc starts at its height, at time zero.
    pub open spec fn steered(self, input: Input) -> Player {
        if !self.live {
            self
        } else {
            let turned = if input.left {
                Player { direction: Direction::Left, walk: true, ..self }
            } else if input.right {
                Player { direction: Direction::Right, walk: true, ..self }
            } else {
                self
            };
            if turned.grounded && input.jump {
                Player {
                    grounded: false,
                    velocity: Vector { x: turned.velocity.x, y: PLAYER_JUMP_FORCE },
                    jump: true,
                    jump_start_y: turned.position.y,
                    fall_time: 0,
                    ..turned
                }
            } else {
                turned
            }
        }
    }

    /// Where the pending step leads, on the horizontal axis.
    pub open spec fn step_target(self) -> int {
        if self.walk {
            self.direction.ahead(self.position.x as int, PLAYER_WALK_STEP as int)
        } else {
            self.position.x as int
        }
    }

    /// The pending step leaves the ground: the player stands, is about to
    /// walk, and one unit below where the step leads no wall is met.
    pub open spec fn steps_off(self, walls: Seq<TilePos>) -> bool {
        &&& self.walk
        &&& self.grounded
        &&& !meets_wall(
            walls,
            Vector { x: self.step_target() as i64, y: (self.position.y - UNIT) as i64 },
            Contact::Any,
        )
    }

    /// The pending step is stopped: where it leads, a wall is met from the
    /// left or the right.
    pub open spec fn step_blocked(self, walls: Seq<TilePos>) -> bool {
        meets_wall(walls, Vector { x: self.step_target() as i64, y: self.position.y }, Contact::Sideways)
    }

    /// The player after the horizontal part of a tick. A step off the ground
    /// starts a fall from the present height, at time zero. A blocked step
    /// is not taken. The request to walk is used up.
    pub open spec fn after_horizontal(self, walls: Seq<TilePos>) -> Player {
        let x = if self.walk && !self.step_blocked(walls) {
            self.step_target() as i64
        } else {
            self.position.x
        };
        let loosened = if self.steps_off(walls) {
            Player { grounded: false, jump: false, jump_start_y: self.position.y, fall_time: 0, ..self }
        } else {
            self
        };
        Player { position: Vector { x, y: self.position.y }, walk: false, ..loosened }
    }

    /// The place that a player in the air reaches in this tick, before the
    /// walls correct it: gravity has had one more step of time.
    pub open spec fn air_target(self) -> Vector {
        Vector {
            x: self.position.x,
            y: airborne_y(self.jump_start_y as int, self.jump, self.fall_time + GRAVITY_TIME_STEP) as i64,
        }
    }

    /// The player in the air comes down on a wall in this tick: with
    /// gravity's share off its speed it moves down, and where it gets to
    /// it meets a wall in a landing contact.
    pub open spec fn lands(self, walls: Seq<TilePos>) -> bool {
        self.velocity.y - GRAVITY_SPEED_STEP < 0 && meets_wall(walls, self.air_target(), Contact::Landing)
    }

    /// The player in the air bumps its head in this tick: with gravity's
    /// share off its speed it still moves up, and where it gets to it meets
    /// a wall in a bumping contact.
    pub open spec fn bumps(self, walls: Seq<TilePos>) -> bool {
        self.velocity.y - GRAVITY_SPEED_STEP > 0 && meets_wall(walls, self.air_target(), Contact::Bumping)
    }

    /// The player in the air after the vertical part of a tick.
    ///
    /// Gravity takes its share of the speed and the time in the air grows by
    /// one step; the height follows from that time. A player that lands is
    /// lifted to rest, grounded, with no speed. A player that bumps its head
    /// is lowered, loses its speed, and falls from there, from time zero. A
    /// player that ends below height zero is dead.
    pub open spec fn after_vertical(self, walls: Seq<TilePos>) -> Player {
        let there = self.air_target();
        let aged = Player {
            velocity: Vector { x: self.velocity.x, y: (self.velocity.y - GRAVITY_SPEED_STEP) as i64 },
            fall_time: (self.fall_time + GRAVITY_TIME_STEP) as u64,
            ..self
        };
        let moved = if self.lands(walls) {
            Player {
                position: Vector { x: there.x, y: snapped_up(there.y as int) as i64 },
                velocity: Vector { x: self.velocity.x, y: 0 },
                grounded: true,
                ..aged
            }
        } else if self.bumps(walls) {
            Player {
                position: Vector { x: there.x, y: snapped_down(there.y as int) as i64 },
                velocity: Vector { x: self.velocity.x, y: 0 },
                jump: false,
                fall_time: 0,
                jump_start_y: snapped_down(there.y as int) as i64,
                ..aged
            }
        } else {
            Player { position: there, ..aged }
        };
        if moved.position.y < 0 {
            Player { live: false, ..moved }
        } else {
            moved
        }
    }

    /// The player after one tick among the walls: the horizontal part, and
    /// for a player that is then in the air the vertical part.
    pub open spec fn resolved(self, walls: Seq<TilePos>) -> Player {
        let h = self.after_horizontal(walls);
        if h.grounded {
            h
        } else {
            h.after_vertical(walls)
        }
    }

    /// Makes the player as a stage begins: at `position`, standing, facing
    /// right.
    pub fn new(position: Vector) -> (player: Player)
        ensures
            player == Player::spawned(position),
    {
        Player {
            position,
            velocity: Vector { x: 0, y: 0 },
            direction: Direction::Right,
            walk: false,
            grounded: true,
            live: true,
            jump: false,
            fall_time: 0,
            jump_start_y: 0,
        }
    }

    /// Tells which state the controller is in.
    pub fn state(&self) -> (state: PlayerState)
        ensures
            state == self.state_of(),
    {
        if !self.live {
            PlayerState::Dead
        } else if self.grounded {
            PlayerState::Grounded
        } else if self.jump {
            PlayerState::Jumping
        } else {
            PlayerState::Falling
        }
    }

    /// Tells whether the numbers of the player are small enough for one
    /// more tick.
    pub fn can_step(&self) -> (ok: bool)
        ensures
            ok == self.steppable(),
    {
        self.position.is_within_limit() && -COORD_LIMIT <= self.velocity.y && self.velocity.y <= COORD_LIMIT
            && -COORD_LIMIT <= self.jump_start_y && self.jump_start_y <= COORD_LIMIT && self.fall_time
            <= AIR_TIME_LIMIT
    }

    /// Reads the keys of a tick. Returns the weapon that the keys ask for;
    /// a dead player asks for none.
    pub fn steer(&mut self, input: Input) -> (wanted: Option<WeaponKind>)
        ensures
            *final(self) == old(self).steered(input),
            wanted == (if old(self).live {
                input.wanted_weapon()
            } else {
                None
            }),
    {
        if !self.live {
            return None;
        }
        if input.left {
            self.direction = Direction::Left;
            self.walk = true;
        } else if input.right {
            self.direction = Direction::Right;
            self.walk = true;
        }
        if self.grounded && input.jump {
            self.grounded = false;
            self.velocity.y = PLAYER_JUMP_FORCE;
            self.jump = true;
            self.jump_start_y = self.position.y;
            self.fall_time = 0;
        }
        input.weapon()
    }

    /// Kills the player and starts the death timer anew.
    pub fn die(&mut self, death_timer: &mut Timer)
        ensures
            *final(self) == (Player { live: false, ..*old(self) }),
            *final(death_timer) == old(death_timer).rewound(),
    {
        self.live = false;
        death_timer.reset();
    }

    /// Moves the player by one tick among the walls. Where the player dies
    /// of the fall, the death timer starts anew.
    pub fn resolve_walls(&mut self, walls: &Vec<TilePos>, death_timer: &mut Timer)
        requires
            old(self).steppable(),
        ensures
            *final(self) == old(self).resolved(walls@),
            *final(death_timer) == (if old(self).live && !final(self).live {
                old(death_timer).rewound()
            } else {
                *old(death_timer)
            }),
    {
        let mut next_x: i64 = self.position.x;
        if self.walk {
            next_x = self.direction.step_from(self.position.x, PLAYER_WALK_STEP);
            if self.grounded {
                let below = Vector { x: next_x, y: self.position.y - UNIT };
                if !touches_wall(walls, below, Contact::Any) {
                    self.grounded = false;
                    self.jump = false;
                    self.jump_start_y = self.position.y;
                    self.fall_time = 0;
                }
            }
            if touches_wall(walls, Vector { x: next_x, y: self.position.y }, Contact::Sideways) {
                next_x = self.position.x;
            }
            self.position.x = next_x;
            self.walk = false;
        }
        if self.grounded {
            return;
        }
        self.velocity.y = self.velocity.y - GRAVITY_SPEED_STEP;
        self.fall_time = self.fall_time + GRAVITY_TIME_STEP;
        let mut next_y: i64 = airborne_height(self.jump_start_y, self.jump, self.fall_time);
        let there = Vector { x: self.position.x, y: next_y };
        if self.velocity.y < 0 {
            if touches_wall(walls, there, Contact::Landing) {
                self.grounded = true;
                self.velocity.y = 0;
                next_y = snap_up(next_y);
            }
        } else if self.velocity.y > 0 {
            if touches_wall(walls, there, Contact::Bumping) {
                self.velocity.y = 0;
                self.jump = false;
                self.fall_time = 0;
                next_y = snap_down(next_y);
                self.jump_start_y = next_y;
            }
        }
        self.position.y = next_y;
        if next_y < 0 && self.live {
            self.die(death_timer);
        }
    }
}

/// A jump passes its peak in the nineteenth tick: gravity takes
/// `GRAVITY` times `GRAVITY_TIME_STEP` from the speed in every tick, and
/// what is left of the jump force after `ticks` ticks points down exactly
/// from the nineteenth on.
pub proof fn lemma_jump_peaks_in_nineteenth_tick(ticks: nat)
    ensures
        GRAVITY_SPEED_STEP * UNIT == GRAVITY * GRAVITY_TIME_STEP,
        PLAYER_JUMP_FORCE - ticks * GRAVITY_SPEED_STEP < 0 <==> ticks >= 19,
{
    assert(ticks * GRAVITY_SPEED_STEP == ticks * 2_354_400) by (nonlinear_arith)
        requires
            GRAVITY_SPEED_STEP == 2_354_400,
    ;
    assert(GRAVITY_SPEED_STEP * UNIT == GRAVITY * GRAVITY_TIME_STEP) by (nonlinear_arith)
        requires
            GRAVITY_SPEED_STEP == 2_354_400,
            UNIT == 1_000_000,
            GRAVITY == 9_810_000,
            GRAVITY_TIME_STEP == 240_000,
    ;
}

/// A falling player that comes down on a wall rests on it: its bottom edge
/// is the wall's top edge, it is grounded, and its speed is gone.
///
/// The law speaks of a player whose speed after gravity's share points down
/// and whose box, at the place it reaches in this tick, overlaps the wall
/// `walls[k]` with its centre still above the wall's centre. A box that was
/// wholly above the wall and fell less than a tile in the tick is there.
pub proof fn lemma_landing_rests_on_wall(player: Player, walls: Seq<TilePos>, k: int)
    requires
        player.steppable(),
        0 <= k < walls.len(),
        player.velocity.y - GRAVITY_SPEED_STEP < 0,
        meets_tile(walls[k], player.air_target(), Contact::Any),
        player.air_target().y > walls[k].center().y,
    ensures
        player.after_vertical(walls).position.y - CHARACTER_SIZE / 2 == walls[k].center().y + TILE_SIZE / 2,
        player.after_vertical(walls).grounded,
        player.after_vertical(walls).velocity.y == 0,
{
    lemma_air_bounds(player.fall_time + GRAVITY_TIME_STEP);
    let there = player.air_target();
    let tile = walls[k];
    lemma_equal_boxes_overlap(Aabb::character(there), tile.bounds());
    assert(meets_tile(tile, there, Contact::Landing));
    assert(player.lands(walls));
    lemma_snap_up_rests_on_tile(there.y as int, tile.row as nat);
}

/// A vertical collision leaves the player on a tile boundary: after a
/// landing or a bump the height is a whole number of tiles.
pub proof fn lemma_vertical_collision_aligns(player: Player, walls: Seq<TilePos>)
    requires
        player.steppable(),
        player.lands(walls) || player.bumps(walls),
    ensures
        (player.after_vertical(walls).position.y as int) % (TILE_SIZE as int) == 0,
{
    lemma_air_bounds(player.fall_time + GRAVITY_TIME_STEP);
    lemma_snaps_align(player.air_target().y as int);
}

/// A landing leaves a wall beneath: where a character at `there` meets the
/// tile in a landing contact, one unit below the height to which it is
/// lifted it still overlaps that tile.
pub proof fn lemma_landing_is_supported(tile: TilePos, there: Vector)
    requires
        -COORD_LIMIT - 0x1_0000_0000_0000 <= there.y <= COORD_LIMIT + 0x1_0000_0000_0000,
        meets_tile(tile, there, Contact::Landing),
    ensures
        meets_tile(
            tile,
            Vector { x: there.x, y: (snapped_up(there.y as int) - UNIT) as i64 },
            Contact::Any,
        ),
{
    let lifted = Vector { x: there.x, y: (snapped_up(there.y as int) - UNIT) as i64 };
    lemma_equal_boxes_overlap(Aabb::character(there), tile.bounds());
    lemma_snap_up_stays_in_touch(there.y as int, tile.row as nat);
    lemma_equal_boxes_overlap(Aabb::character(lifted), tile.bounds());
}

/// A grounded player has a wall beneath, tick after tick: where a grounded
/// player overlaps a wall one unit below its place before a tick among the
/// walls, a player that is grounded after the tick does so too.
pub proof fn lemma_grounded_stays_supported(player: Player, walls: Seq<TilePos>)
    requires
        player.steppable(),
        player.grounded ==> player.supported(walls),
    ensures
        player.resolved(walls).grounded ==> player.resolved(walls).supported(walls),
{
    let h = player.after_horizontal(walls);
    let r = player.resolved(walls);
    if h.grounded {
    } else if r.grounded {
        lemma_air_bounds(h.fall_time + GRAVITY_TIME_STEP);
        let there = h.air_target();
        assert(meets_wall(walls, there, Contact::Landing));
        let i = choose|i: int| 0 <= i < walls.len() && meets_tile(#[trigger] walls[i], there, Contact::Landing);
        lemma_landing_is_supported(walls[i], there);
    }
}

/// Reading the keys takes no support away: the player does not move, and
/// the only change to `grounded` is the start of a jump.
pub proof fn lemma_steering_keeps_support(player: Player, input: Input, walls: Seq<TilePos>)
    requires
        player.grounded ==> player.supported(walls),
    ensures
        player.steered(input).grounded ==> player.steered(input).supported(walls),
        player.steered(input).position == player.position,
        !player.steered(input).grounded && player.grounded ==> player.live && input.jump,
{
}

/// Without a jump a player leaves the ground only where support is absent:
/// a grounded player that is in the air after a tick among the walls was
/// about to walk, and one unit below where its step led there was no wall.
pub proof fn lemma_leaves_ground_only_unsupported(player: Player, walls: Seq<TilePos>)
    requires
        player.grounded,
        !player.resolved(walls).grounded,
    ensures
        player.steps_off(walls),
{
}

} // verus!
