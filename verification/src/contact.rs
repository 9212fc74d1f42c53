//! Contact between a character's box and the wall tiles of a stage.

use vstd::prelude::*;
use crate::geometry::{overlap, overlap_spec, Aabb, Side, Vector};
use crate::tilemap::TilePos;

verus! {

/// The kinds of contact that the rules of movement ask about.
#[derive(Clone, Copy, Debug, PartialEq, Eq, Structural)]
pub enum Contact {
    /// Any overlap at all.
    Any,
    /// An overlap from the left or the right: it stops a horizontal step.
    Sideways,
    /// An overlap that ends a fall: every side but `Bottom`.
    Landing,
    /// An overlap that ends a rise: every side but `Top`.
    Bumping,
}

impl Contact {
    /// An overlap on `side` is a contact of this kind.
    pub open spec fn admits(self, side: Side) -> bool {
        match self {
            Contact::Any => true,
            Contact::Sideways => side is Left || side is Right,
            Contact::Landing => !(side is Bottom),
            Contact::Bumping => !(side is Top),
        }
    }

    /// Tells whether an overlap on `side` is a contact of this kind.
    pub fn accepts(self, side: Side) -> (yes: bool)
        ensures
            yes == self.admits(side),
    {
        match self {
            Contact::Any => true,
            Contact::Sideways => side == Side::Left || side == Side::Right,
            Contact::Landing => side != Side::Bottom,
            Contact::Bumping => side != Side::Top,
        }
    }
}

/// A character centred at `center` is in contact of the given kind with the tile.
pub open spec fn meets_tile(tile: TilePos, center: Vector, kind: Contact) -> bool {
    match overlap_spec(Aabb::character(center), tile.bounds()) {
        Some(side) => kind.admits(side),
        None => false,
    }
}

/// A character centred at `center` is in contact of the given kind with one
/// of the walls.
pub open spec fn meets_wall(walls: Seq<TilePos>, center: Vector, kind: Contact) -> bool {
    exists|i: int| 0 <= i < walls.len() && meets_tile(#[trigger] walls[i], center, kind)
}

/// Tells whether a character centred at `center` is in contact of the given
/// kind with one of the walls.
pub fn touches_wall(walls: &Vec<TilePos>, center: Vector, kind: Contact) -> (found: bool)
    ensures
        found == meets_wall(walls@, center, kind),
{
    let actor = Aabb::of_character(center);
    let mut i: usize = 0;
    while i < walls.len()
        invariant
            i <= walls@.len(),
            actor == Aabb::character(center),
            forall|k: int| 0 <= k < i ==> !meets_tile(#[trigger] walls@[k], center, kind),
        decreases walls@.len() - i,
    {
        match overlap(actor, walls[i].to_bounds()) {
            Some(side) => {
                if kind.accepts(side) {
                    return true;
                }
            },
            None => {},
        }
        i = i + 1;
    }
    false
}

} // verus!
