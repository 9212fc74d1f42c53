//! The player's weapons: where each kind appears, how it moves, and when
//! it is gone.

use vstd::prelude::*;
use crate::geometry::{
    lemma_equal_boxes_overlap, overlap, overlap_spec, Aabb, Direction, Vector, CHARACTER_SIZE, TILE_SIZE,
};
use crate::player::Player;
use crate::timer::Timer;

verus! {

/// The distance that fire and ice travel in one tick, and by which ice sinks.
pub const PLAYER_WEAPON_STEP: i64 = 8_000_000;

/// The distance that thunder falls in one tick.
pub const PLAYER_WEAPON_THUNDER_STEP: i64 = 12_000_000;

/// The lifetime of the sword in nanoseconds: 17 ticks of a sixtieth of a
/// second, without the fraction of a nanosecond.
pub const PLAYER_WEAPON_LIFETIME_FOR_SWORD: u64 = 283_333_333;

/// The lifetime of fire and of ice in nanoseconds: 30 ticks.
pub const PLAYER_WEAPON_LIFETIME_FOR_FIRE_ICE: u64 = 500_000_000;

/// The lifetime of thunder in nanoseconds: 45 ticks.
pub const PLAYER_WEAPON_LIFETIME_FOR_THUNDER: u64 = 750_000_000;

/// The time for which thunder hangs in the sky before it falls, in
/// nanoseconds.
pub const THUNDER_WARMUP: u64 = 83_500_000;

/// The height at which thunder appears: 14 tiles up.
pub const THUNDER_ALTITUDE: i64 = 448_000_000;

/// The four weapons.
#[derive(Clone, Copy, Debug, PartialEq, Eq, Structural)]
pub enum WeaponKind {
    /// Stays at the player's side.
    Sword,
    /// Flies straight ahead.
    Fire,
    /// Flies ahead and sinks.
    Ice,
    /// Hangs high above, then falls.
    Thunder,
}

impl WeaponKind {
    /// The lifetime of a weapon of this kind, in nanoseconds.
    pub open spec fn lifetime(self) -> u64 {
        match self {
            WeaponKind::Sword => PLAYER_WEAPON_LIFETIME_FOR_SWORD,
            WeaponKind::Fire | WeaponKind::Ice => PLAYER_WEAPON_LIFETIME_FOR_FIRE_ICE,
            WeaponKind::Thunder => PLAYER_WEAPON_LIFETIME_FOR_THUNDER,
        }
    }

    /// A weapon of this kind is used up by the enemy that it hits.
    pub open spec fn spent_on_hit(self) -> bool {
        self is Fire || self is Ice
    }

    /// The lifetime of a weapon of this kind, in nanoseconds.
    pub fn lifetime_nanos(self) -> (t: u64)
        ensures
            t == self.lifetime(),
    {
        match self {
            WeaponKind::Sword => PLAYER_WEAPON_LIFETIME_FOR_SWORD,
            WeaponKind::Fire | WeaponKind::Ice => PLAYER_WEAPON_LIFETIME_FOR_FIRE_ICE,
            WeaponKind::Thunder => PLAYER_WEAPON_LIFETIME_FOR_THUNDER,
        }
    }

    /// Tells whether a weapon of this kind is used up by the enemy that it
    /// hits.
    pub fn is_spent_on_hit(self) -> (yes: bool)
        ensures
            yes == self.spent_on_hit(),
    {
        match self {
            WeaponKind::Fire | WeaponKind::Ice => true,
            _ => false,
        }
    }
}

/// A weapon in flight.
#[derive(Clone, Copy, Debug, PartialEq, Eq, Structural)]
pub struct Weapon {
    pub kind: WeaponKind,
    /// The centre of the weapon's box.
    pub position: Vector,
    /// The way the weapon faces and, for fire and ice, flies.
    pub direction: Direction,
    /// The time that the weapon has to live.
    pub lifetime: Timer,
}

impl Weapon {
    /// The weapon as the player lets it go. Thunder appears high above the
    /// player; every other weapon appears one tile ahead, at the player's
    /// height. The weapon faces as the player does, and its lifetime starts.
    pub open spec fn spawned(kind: WeaponKind, player: Player) -> Weapon {
        Weapon {
            kind,
            position: if kind is Thunder {
                Vector { x: player.position.x, y: THUNDER_ALTITUDE }
            } else {
                Vector {
                    x: player.direction.ahead(player.position.x as int, TILE_SIZE as int) as i64,
                    y: player.position.y,
                }
            },
            direction: player.direction,
            lifetime: Timer::fresh(kind.lifetime()),
        }
    }

    /// The weapon's box overlaps that of a character at `target`.
    pub open spec fn strikes(self, target: Vector) -> bool {
        overlap_spec(Aabb::character(self.position), Aabb::character(target)) is Some
    }

    /// The weapon after the move of one tick. Fire flies on the way it
    /// faces. Ice does so too, and sinks. Thunder falls once its warm-up is
    /// over, which `falling` says. The sword is put at the player's side,
    /// one character's width ahead, and turned as the player is.
    pub open spec fn moved(self, player: Player, falling: bool) -> Weapon {
        match self.kind {
            WeaponKind::Fire => Weapon {
                position: Vector {
                    x: self.direction.ahead(self.position.x as int, PLAYER_WEAPON_STEP as int) as i64,
                    y: self.position.y,
                },
                ..self
            },
            WeaponKind::Ice => Weapon {
                position: Vector {
                    x: self.direction.ahead(self.position.x as int, PLAYER_WEAPON_STEP as int) as i64,
                    y: (self.position.y - PLAYER_WEAPON_STEP) as i64,
                },
                ..self
            },
            WeaponKind::Thunder => if falling {
                Weapon {
                    position: Vector {
                        x: self.position.x,
                        y: (self.position.y - PLAYER_WEAPON_THUNDER_STEP) as i64,
                    },
                    ..self
                }
            } else {
                self
            },
            WeaponKind::Sword => Weapon {
                position: Vector {
                    x: player.direction.ahead(player.position.x as int, CHARACTER_SIZE as int) as i64,
                    y: player.position.y,
                },
                direction: player.direction,
                ..self
            },
        }
    }

    /// The weapon after one tick of `delta` nanoseconds: moved, and that
    /// much older.
    pub open spec fn advanced(self, player: Player, falling: bool, delta: u64) -> Weapon {
        Weapon { lifetime: self.lifetime.ticked(delta), ..self.moved(player, falling) }
    }

    /// The weapon is gone after a tick of `delta` nanoseconds in which it
    /// hit an enemy or not, as `hit` says: its lifetime has run out, or it
    /// is of a kind that a hit uses up and it hit.
    pub open spec fn expires(self, hit: bool, delta: u64) -> bool {
        self.lifetime.ticked(delta).finished || (hit && self.kind.spent_on_hit())
    }

    /// Makes the weapon as the player lets it go.
    pub fn spawn(kind: WeaponKind, player: &Player) -> (weapon: Weapon)
        requires
            player.position.within_limit(),
        ensures
            weapon == Weapon::spawned(kind, *player),
    {
        let position = match kind {
            WeaponKind::Thunder => Vector { x: player.position.x, y: THUNDER_ALTITUDE },
            _ => Vector { x: player.direction.step_from(player.position.x, TILE_SIZE), y: player.position.y },
        };
        Weapon { kind, position, direction: player.direction, lifetime: Timer::new(kind.lifetime_nanos()) }
    }

    /// Tells whether the weapon's box overlaps that of a character at
    /// `target`.
    pub fn hits(&self, target: Vector) -> (hit: bool)
        ensures
            hit == self.strikes(target),
    {
        overlap(Aabb::of_character(self.position), Aabb::of_character(target)).is_some()
    }

    /// Moves the weapon by one tick of `delta` nanoseconds and lets it
    /// age. Returns whether the weapon is gone; `hit` says whether it has
    /// hit an enemy in this tick. A weapon whose lifetime runs out is gone
    /// whether it hit or not.
    pub fn advance(&mut self, player: &Player, falling: bool, hit: bool, delta: u64) -> (gone: bool)
        requires
            old(self).position.within_limit(),
            player.position.within_limit(),
        ensures
            *final(self) == old(self).advanced(*player, falling, delta),
            gone == old(self).expires(hit, delta),
            final(self).lifetime.finished ==> gone,
    {
        match self.kind {
            WeaponKind::Fire => {
                self.position.x = self.direction.step_from(self.position.x, PLAYER_WEAPON_STEP);
            },
            WeaponKind::Ice => {
                self.position.x = self.direction.step_from(self.position.x, PLAYER_WEAPON_STEP);
                self.position.y = self.position.y - PLAYER_WEAPON_STEP;
            },
            WeaponKind::Thunder => {
                if falling {
                    self.position.y = self.position.y - PLAYER_WEAPON_THUNDER_STEP;
                }
            },
            WeaponKind::Sword => {
                self.position.x = player.direction.step_from(player.position.x, CHARACTER_SIZE);
                self.position.y = player.position.y;
                self.direction = player.direction;
            },
        }
        self.lifetime.tick(delta);
        self.lifetime.finished() || (hit && self.kind.is_spent_on_hit())
    }
}

/// A weapon hits what is within a character's width of it: its box
/// overlaps that of a character exactly when the two centres are less than
/// one character's size apart on both axes.
pub proof fn lemma_weapon_strikes_within_a_width(weapon: Weapon, target: Vector)
    ensures
        weapon.strikes(target) <==> {
            &&& -CHARACTER_SIZE < weapon.position.x - target.x < CHARACTER_SIZE
            &&& -CHARACTER_SIZE < weapon.position.y - target.y < CHARACTER_SIZE
        },
{
    lemma_equal_boxes_overlap(Aabb::character(weapon.position), Aabb::character(target));
}

/// One of the weapons is of the given kind.
pub open spec fn holds_kind(weapons: Seq<Weapon>, kind: WeaponKind) -> bool {
    exists|i: int| 0 <= i < weapons.len() && (#[trigger] weapons[i]).kind == kind
}

/// No two of the weapons are of the same kind.
pub open spec fn distinct_kinds(weapons: Seq<Weapon>) -> bool {
    forall|i: int, j: int|
        0 <= i < j < weapons.len() ==> (#[trigger] weapons[i]).kind != (#[trigger] weapons[j]).kind
}

/// Tells whether one of the weapons is of the given kind.
pub fn has_kind(weapons: &Vec<Weapon>, kind: WeaponKind) -> (found: bool)
    ensures
        found == holds_kind(weapons@, kind),
{
    let mut i: usize = 0;
    while i < weapons.len()
        invariant
            i <= weapons@.len(),
            forall|k: int| 0 <= k < i ==> (#[trigger] weapons@[k]).kind != kind,
        decreases weapons@.len() - i,
    {
        if weapons[i].kind == kind {
            return true;
        }
        i = i + 1;
    }
    false
}

/// Lets a weapon of the given kind go, unless one of that kind is in flight
/// already. Returns whether the weapon was let go. A new thunder sets the
/// warm-up timer back to its start.
pub fn spawn_weapon(weapons: &mut Vec<Weapon>, thunder_timer: &mut Timer, player: &Player, kind: WeaponKind) -> (spawned:
    bool)
    requires
        player.position.within_limit(),
    ensures
        spawned == !holds_kind(old(weapons)@, kind),
        final(weapons)@ == (if spawned {
            old(weapons)@.push(Weapon::spawned(kind, *player))
        } else {
            old(weapons)@
        }),
        *final(thunder_timer) == (if spawned && kind is Thunder {
            old(thunder_timer).rewound()
        } else {
            *old(thunder_timer)
        }),
        distinct_kinds(old(weapons)@) ==> distinct_kinds(final(weapons)@),
{
    if has_kind(weapons, kind) {
        return false;
    }
    weapons.push(Weapon::spawn(kind, player));
    match kind {
        WeaponKind::Thunder => {
            thunder_timer.reset();
        },
        _ => {},
    }
    true
}

} // verus!
