//! The enemies: a countdown to the next decision, a choice by chance, and a
//! walk that stops at walls, at the left edge of the world and where the
//! floor ends.

use vstd::prelude::*;
use crate::contact::{meets_wall, touches_wall, Contact};
use crate::geometry::{Direction, Vector, CHARACTER_SIZE, COORD_LIMIT, UNIT};
use crate::random::{coin_flip, uniform_up_to};
use crate::tilemap::TilePos;

verus! {

/// The distance that a slime walks in one tick.
pub const ENEMY_SLIME_WALK_STEP: i64 = 1_000_000;

/// The distance that a lizard walks in one tick.
pub const ENEMY_LIZARD_WALK_STEP: i64 = 4_000_000;

/// The number of ticks from one decision of an enemy to the next.
pub const ENEMY_MOVE_LIFETIME: u32 = 30;

/// The kinds of enemies.
#[derive(Clone, Copy, Debug, PartialEq, Eq, Structural)]
pub enum EnemyKind {
    /// Walks slowly and keeps to the floor.
    Slime,
    /// Walks fast and keeps to the floor.
    Lizard,
    /// Flies: it needs no floor.
    FlyingDemon,
}

impl EnemyKind {
    /// The kind moves through the air and needs no floor.
    pub open spec fn flies(self) -> bool {
        self is FlyingDemon
    }

    /// The largest number that a draw for this kind can give: a flying
    /// enemy chooses among five actions, another one among three.
    pub open spec fn last_choice(self) -> u32 {
        if self.flies() {
            4
        } else {
            2
        }
    }

    /// Tells whether the kind flies.
    pub fn is_flying(self) -> (yes: bool)
        ensures
            yes == self.flies(),
    {
        match self {
            EnemyKind::FlyingDemon => true,
            _ => false,
        }
    }
}

/// An enemy.
#[derive(Clone, Copy, Debug, PartialEq, Eq, Structural)]
pub struct Enemy {
    pub kind: EnemyKind,
    /// The centre of the enemy's box.
    pub position: Vector,
    /// The way the enemy faces and walks.
    pub direction: Direction,
    /// The ticks that are left until the enemy decides anew; at least one.
    pub move_lifetime: u32,
    /// The distance that the enemy walks in one tick.
    pub walk_step: i64,
    /// The enemy stands still.
    pub stop: bool,
}

impl Enemy {
    /// The enemy as it enters a stage: facing right and walking.
    pub open spec fn spawned(kind: EnemyKind, position: Vector, walk_step: i64, move_lifetime: u32) -> Enemy {
        Enemy { kind, position, direction: Direction::Right, move_lifetime, walk_step, stop: false }
    }

    /// The countdown has not run out, and the numbers of the enemy are small
    /// enough for one more tick.
    pub open spec fn steppable(self) -> bool {
        &&& self.move_lifetime >= 1
        &&& self.position.within_limit()
        &&& -COORD_LIMIT <= self.walk_step <= COORD_LIMIT
    }

    /// This tick brings the countdown to zero.
    pub open spec fn countdown_ends(self) -> bool {
        self.move_lifetime == 1
    }

    /// This tick the enemy draws a new action: its countdown ends, and it
    /// flies or stands still. A walking enemy of the floor goes on as it is.
    pub open spec fn redraws(self) -> bool {
        self.countdown_ends() && (self.kind.flies() || self.stop)
    }

    /// The enemy after the countdown of a tick: one tick less, or the full
    /// time again where the countdown ended.
    pub open spec fn counted(self) -> Enemy {
        Enemy {
            move_lifetime: if self.countdown_ends() {
                ENEMY_MOVE_LIFETIME
            } else {
                (self.move_lifetime - 1) as u32
            },
            ..self
        }
    }

    /// The enemy after it took the action that `roll` stands for: 0 is to
    /// stand still, facing left or right as the coin fell; 1 is to face
    /// right and 2 to face left; 3 and 4, kept for flying up and down, face
    /// right. Any other number leaves the direction alone. But for 0, the
    /// enemy walks again.
    pub open spec fn decided(self, roll: u32, coin: bool) -> Enemy {
        if roll == 0 {
            Enemy {
                direction: if coin {
                    Direction::Left
                } else {
                    Direction::Right
                },
                stop: true,
                ..self
            }
        } else if roll == 2 {
            Enemy { direction: Direction::Left, stop: false, ..self }
        } else if roll == 1 || roll == 3 || roll == 4 {
            Enemy { direction: Direction::Right, stop: false, ..self }
        } else {
            Enemy { stop: false, ..self }
        }
    }

    /// Where the next step leads, on the horizontal axis.
    pub open spec fn step_target(self) -> int {
        self.direction.ahead(self.position.x as int, self.walk_step as int)
    }

    /// The next step is cancelled: it leads to the left edge of the world
    /// or beyond it, or its destination overlaps a wall.
    pub open spec fn step_cancelled(self, walls: Seq<TilePos>) -> bool {
        ||| self.step_target() <= 0
        ||| meets_wall(walls, Vector { x: self.step_target() as i64, y: self.position.y }, Contact::Any)
    }

    /// There is floor ahead: one character's width further on and one unit
    /// down, the enemy's box overlaps a wall.
    pub open spec fn floor_ahead(self, walls: Seq<TilePos>) -> bool {
        meets_wall(
            walls,
            Vector {
                x: self.direction.ahead(self.position.x as int, CHARACTER_SIZE as int) as i64,
                y: (self.position.y - UNIT) as i64,
            },
            Contact::Any,
        )
    }

    /// The enemy after the walking part of a tick. An enemy that stands
    /// still stays so. A cancelled step is not taken, nor is a step of a
    /// floor-bound enemy with no floor ahead; either way the enemy stops.
    pub open spec fn walked(self, walls: Seq<TilePos>) -> Enemy {
        if self.stop {
            self
        } else if self.step_cancelled(walls) || (!self.kind.flies() && !self.floor_ahead(walls)) {
            Enemy { stop: true, ..self }
        } else {
            Enemy { position: Vector { x: self.step_target() as i64, y: self.position.y }, ..self }
        }
    }

    /// The enemy after one tick in which chance gave `roll` and `coin`.
    pub open spec fn stepped(self, walls: Seq<TilePos>, roll: u32, coin: bool) -> Enemy {
        if self.redraws() {
            self.counted().decided(roll, coin).walked(walls)
        } else {
            self.counted().walked(walls)
        }
    }

    /// One tick can turn the enemy into `after`: some draw that is open to
    /// its kind, with some fall of the coin, does so.
    pub open spec fn may_become(self, after: Enemy, walls: Seq<TilePos>) -> bool {
        exists|roll: u32, coin: bool|
            roll <= self.kind.last_choice() && after == #[trigger] self.stepped(walls, roll, coin)
    }

    /// Makes an enemy as it enters a stage: facing right and walking.
    pub fn new(kind: EnemyKind, position: Vector, walk_step: i64, move_lifetime: u32) -> (enemy: Enemy)
        ensures
            enemy == Enemy::spawned(kind, position, walk_step, move_lifetime),
    {
        Enemy { kind, position, direction: Direction::Right, move_lifetime, walk_step, stop: false }
    }

    /// Tells whether the enemy can take one more tick.
    pub fn can_step(&self) -> (ok: bool)
        ensures
            ok == self.steppable(),
    {
        self.move_lifetime >= 1 && self.position.is_within_limit() && -COORD_LIMIT <= self.walk_step
            && self.walk_step <= COORD_LIMIT
    }

    /// Counts the tick. Returns whether the enemy is to draw a new action.
    pub fn count_down(&mut self) -> (redraw: bool)
        requires
            old(self).move_lifetime >= 1,
        ensures
            *final(self) == old(self).counted(),
            redraw == old(self).redraws(),
            final(self).move_lifetime >= 1,
    {
        self.move_lifetime = self.move_lifetime - 1;
        if self.move_lifetime == 0 {
            self.move_lifetime = ENEMY_MOVE_LIFETIME;
            self.kind.is_flying() || self.stop
        } else {
            false
        }
    }

    /// Takes the action that chance chose.
    pub fn decide(&mut self, roll: u32, coin: bool)
        ensures
            *final(self) == old(self).decided(roll, coin),
    {
        self.stop = false;
        if roll == 0 {
            self.direction = if coin {
                Direction::Left
            } else {
                Direction::Right
            };
            self.stop = true;
        } else if roll == 2 {
            self.direction = Direction::Left;
        } else if roll == 1 || roll == 3 || roll == 4 {
            self.direction = Direction::Right;
        }
    }

    /// Walks one step, unless the enemy stands still or the step is not to
    /// be taken. A step whose destination overlaps a wall or lies at or
    /// beyond the left edge of the world is cancelled and stops the enemy.
    pub fn walk(&mut self, walls: &Vec<TilePos>)
        requires
            old(self).position.within_limit(),
            -COORD_LIMIT <= old(self).walk_step <= COORD_LIMIT,
        ensures
            *final(self) == old(self).walked(walls@),
            !old(self).stop && old(self).step_cancelled(walls@) ==> final(self).stop && final(self).position
                == old(self).position,
    {
        if self.stop {
            return;
        }
        let target: i64 = self.direction.step_from(self.position.x, self.walk_step);
        let mut halted = target <= 0 || touches_wall(
            walls,
            Vector { x: target, y: self.position.y },
            Contact::Any,
        );
        if !self.kind.is_flying() {
            let ahead = Vector {
                x: self.direction.step_from(self.position.x, CHARACTER_SIZE),
                y: self.position.y - UNIT,
            };
            if !touches_wall(walls, ahead, Contact::Any) {
                halted = true;
            }
        }
        if halted {
            self.stop = true;
        } else {
            self.position.x = target;
        }
    }

    /// Moves the enemy by one tick, given what chance chose for it.
    pub fn step_with(&mut self, walls: &Vec<TilePos>, roll: u32, coin: bool)
        requires
            old(self).steppable(),
        ensures
            *final(self) == old(self).stepped(walls@, roll, coin),
            final(self).move_lifetime >= 1,
    {
        if self.count_down() {
            self.decide(roll, coin);
        }
        self.walk(walls);
    }

    /// Moves the enemy by one tick. Where the enemy draws a new action, the
    /// action is one of those open to its kind, chosen by chance.
    pub fn step(&mut self, walls: &Vec<TilePos>)
        requires
            old(self).steppable(),
        ensures
            old(self).may_become(*final(self), walls@),
            final(self).move_lifetime >= 1,
    {
        let ghost before = *self;
        if self.count_down() {
            let last: u32 = if self.kind.is_flying() {
                4
            } else {
                2
            };
            let roll = uniform_up_to(last);
            let coin = if roll == 0 {
                coin_flip()
            } else {
                false
            };
            self.decide(roll, coin);
            self.walk(walls);
            assert(*self == before.stepped(walls@, roll, coin));
        } else {
            self.walk(walls);
            assert(*self == before.stepped(walls@, 0, false));
        }
    }
}

/// Moves every enemy by one tick, each with its own draw.
pub fn move_enemies(enemies: &mut Vec<Enemy>, walls: &Vec<TilePos>)
    requires
        forall|i: int| 0 <= i < old(enemies)@.len() ==> (#[trigger] old(enemies)@[i]).steppable(),
    ensures
        final(enemies)@.len() == old(enemies)@.len(),
        forall|i: int|
            0 <= i < old(enemies)@.len() ==> old(enemies)@[i].may_become(#[trigger] final(enemies)@[i], walls@),
        forall|i: int| 0 <= i < final(enemies)@.len() ==> (#[trigger] final(enemies)@[i]).move_lifetime >= 1,
{
    let mut i: usize = 0;
    while i < enemies.len()
        invariant
            i <= enemies@.len(),
            enemies@.len() == old(enemies)@.len(),
            forall|k: int| i <= k < enemies@.len() ==> enemies@[k] == old(enemies)@[k],
            forall|k: int| 0 <= k < old(enemies)@.len() ==> (#[trigger] old(enemies)@[k]).steppable(),
            forall|k: int| 0 <= k < i ==> old(enemies)@[k].may_become(#[trigger] enemies@[k], walls@),
            forall|k: int| 0 <= k < i ==> (#[trigger] enemies@[k]).move_lifetime >= 1,
        decreases enemies@.len() - i,
    {
        let mut enemy = enemies[i];
        enemy.step(walls);
        enemies.set(i, enemy);
        i = i + 1;
    }
}

} // verus!
