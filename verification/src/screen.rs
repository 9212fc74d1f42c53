//! What the screen needs from the state of the game: where the camera
//! looks, and which frame of a sprite comes next.

use vstd::prelude::*;
use crate::geometry::Vector;

verus! {

/// The leftmost place of the camera: half a screen from the left end of
/// the map, less the half tile by which tile centres are shifted.
pub const CAMERA_MIN_X: i64 = 304_000_000;

/// The rightmost place of the camera: eleven tiles before the right end of
/// the map, less half a tile.
pub const CAMERA_MAX_X: i64 = 2_832_000_000;

/// The height at which the camera stays.
pub const CAMERA_Y: i64 = 224_000_000;

/// The place of the camera for a player at `player_x`: it follows the
/// player between its leftmost and its rightmost place.
pub open spec fn camera_at(player_x: i64) -> Vector {
    Vector {
        x: if player_x < CAMERA_MIN_X {
            CAMERA_MIN_X
        } else if player_x > CAMERA_MAX_X {
            CAMERA_MAX_X
        } else {
            player_x
        },
        y: CAMERA_Y,
    }
}

/// Computes the place of the camera for a player at `player_x`.
pub fn move_camera(player_x: i64) -> (camera: Vector)
    ensures
        camera == camera_at(player_x),
        CAMERA_MIN_X <= camera.x <= CAMERA_MAX_X,
{
    let x: i64 = if player_x < CAMERA_MIN_X {
        CAMERA_MIN_X
    } else if player_x > CAMERA_MAX_X {
        CAMERA_MAX_X
    } else {
        player_x
    };
    Vector { x, y: CAMERA_Y }
}

/// The frames of a sprite sheet that an animation runs through.
#[derive(Clone, Copy, Debug, PartialEq, Eq, Structural)]
pub struct AnimationIndices {
    pub first: usize,
    pub last: usize,
}

impl AnimationIndices {
    /// The frame that follows `index`: the next one, or the first again
    /// after the last.
    pub open spec fn following(self, index: usize) -> int {
        if index == self.last {
            self.first as int
        } else {
            index + 1
        }
    }

    /// Gives the frame that follows `index`.
    pub fn next(&self, index: usize) -> (frame: usize)
        requires
            self.following(index) <= usize::MAX,
        ensures
            frame == self.following(index),
    {
        if index == self.last {
            self.first
        } else {
            index + 1
        }
    }
}

} // verus!
