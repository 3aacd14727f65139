//! The player in the boat, and the port that the boat visits.

use crate::collide::{collide, collision};
use crate::components::{Extent, Position};
use crate::events::PortCollisionEvent;
use crate::port::Port;
use crate::units::{in_world, is_in_world};
use vstd::prelude::*;

verus! {

/// The player: a bounding box around a position.
#[derive(Clone, Copy, Debug, PartialEq, Eq)]
pub struct Player {
    pub position: Position,
    pub size: Extent,
}

/// What the player is doing.
#[derive(Clone, Copy, Debug, PartialEq, Eq, Structural)]
pub enum PlayerState {
    Rowing,
    Fishing,
    Idle,
    Catching,
}

/// The boat, placed relative to the player who sits in it.
#[derive(Clone, Copy, Debug, PartialEq, Eq)]
pub struct Boat {
    pub offset: Position,
    pub size: Extent,
}

/// How fast the boat is rowed, in thousandths of a world unit per second.
pub const PLAYER_SPEED: i64 = 150_000;

impl Player {
    /// Whether both coordinates leave room for a tick of motion.
    pub open spec fn in_range(self) -> bool {
        in_world(self.position.x) && in_world(self.position.y)
    }

    /// Whether both coordinates leave room for a tick of motion.
    pub fn is_in_range(&self) -> (inside: bool)
        ensures
            inside == self.in_range(),
    {
        is_in_world(self.position.x) && is_in_world(self.position.y)
    }

    /// Whether the player's left edge is still right of `-half_width`.
    pub open spec fn can_row_left(self, half_width: i64) -> bool {
        2 * self.position.x - self.size.width > -2 * half_width
    }

    /// Whether the player's right edge is still left of `half_width`.
    pub open spec fn can_row_right(self, half_width: i64) -> bool {
        2 * self.position.x + self.size.width < 2 * half_width
    }

    /// The player after `dt` milliseconds with the given keys held, in a
    /// window that reaches `half_width` to either side. A key moves the
    /// boat only while the edge on its side is inside the window; the test
    /// for the right key sees the place that the left key has led to.
    pub open spec fn rowed(self, left: bool, right: bool, half_width: i64, dt: u32) -> Player {
        let after_left = if left && self.can_row_left(half_width) {
            Player {
                position: Position {
                    x: (self.position.x - PLAYER_SPEED * dt) as i64,
                    y: self.position.y,
                },
                ..self
            }
        } else {
            self
        };
        if right && after_left.can_row_right(half_width) {
            Player {
                position: Position {
                    x: (after_left.position.x + PLAYER_SPEED * dt) as i64,
                    y: self.position.y,
                },
                ..self
            }
        } else {
            after_left
        }
    }
}

impl Boat {
    /// Where the boat is in the world when `player` sits in it.
    pub open spec fn world_position(self, player: Player) -> Position {
        Position {
            x: (player.position.x + self.offset.x) as i64,
            y: (player.position.y + self.offset.y) as i64,
        }
    }

    /// Whether the offset is small enough to be added to a position.
    pub open spec fn in_range(self) -> bool {
        in_world(self.offset.x) && in_world(self.offset.y)
    }

    /// Whether the offset is small enough to be added to a position.
    pub fn is_in_range(&self) -> (inside: bool)
        ensures
            inside == self.in_range(),
    {
        is_in_world(self.offset.x) && is_in_world(self.offset.y)
    }

    /// Whether the boat's place in the world can be computed for `player`.
    pub open spec fn reaches(self, player: Player) -> bool {
        &&& i64::MIN <= player.position.x + self.offset.x <= i64::MAX
        &&& i64::MIN <= player.position.y + self.offset.y <= i64::MAX
    }

    /// Where the boat is in the world when `player` sits in it.
    pub fn position_with(&self, player: &Player) -> (position: Position)
        requires
            self.reaches(*player),
        ensures
            position == self.world_position(*player),
    {
        Position { x: player.position.x + self.offset.x, y: player.position.y + self.offset.y }
    }
}

/// Rows the boat for `dt` milliseconds with the given keys held, and says
/// what the player does afterwards: the oars are at rest.
pub fn player_movement(
    dt: u32,
    left: bool,
    right: bool,
    window_half_width: i64,
    player: &mut Player,
) -> (state: PlayerState)
    requires
        old(player).in_range(),
    ensures
        *final(player) == old(player).rowed(left, right, window_half_width, dt),
        state == PlayerState::Idle,
{
    let step: i64 = PLAYER_SPEED * (dt as i64);
    let edge: i128 = 2 * (window_half_width as i128);
    let width: i128 = player.size.width as i128;
    if 2 * (player.position.x as i128) - width > -edge && left {
        player.position.x = player.position.x - step;
    }
    if 2 * (player.position.x as i128) + width < edge && right {
        player.position.x = player.position.x + step;
    }
    PlayerState::Idle
}

/// Tests whether the player lies at the port, and on which side.
pub fn check_for_port_collisions(player: &Player, port: &Port) -> (out: Option<PortCollisionEvent>)
    ensures
        out == match collision(player.position, player.size, port.position, port.size) {
            Some(side) => Some(PortCollisionEvent { collision_direction: side }),
            None => None,
        },
{
    match collide(player.position, player.size, port.position, port.size) {
        Some(collision) => Some(PortCollisionEvent { collision_direction: collision }),
        None => None,
    }
}

} // verus!
