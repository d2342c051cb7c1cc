//! The blast-zone check, run after physics each tick.

use vstd::prelude::*;

use crate::physics::{Acceleration, Position, Velocity};

verus! {

/// A fighter's remaining lives. A live fighter always has at least one; the
/// fighter is removed from the match when they run out.
#[derive(Clone, Copy, Debug, PartialEq, Eq, Structural)]
pub struct Stocks {
    pub count: u8,
}

/// A fighter's accumulated damage percent. Only the death/respawn check and
/// future hit resolution may change it — physics never does.
#[derive(Clone, Copy, Debug, PartialEq, Eq, Structural)]
pub struct Damage {
    pub percent: u16,
}

/// A fighter farther than this from the origin, on either axis, is knocked
/// out.
pub const BLAST_ZONE: i32 = 720;

/// Where a fighter reappears after losing a stock.
pub const RESPAWN_X: i32 = 0;

/// Where a fighter reappears after losing a stock.
pub const RESPAWN_Y: i32 = 90;

/// Whether the position lies beyond the blast zone.
pub open spec fn out_of_bounds(pos: Position) -> bool {
    pos.x > BLAST_ZONE || pos.x < -BLAST_ZONE || pos.y > BLAST_ZONE || pos.y < -BLAST_ZONE
}

/// What the boundary check does: inside the blast zone nothing changes;
/// beyond it the fighter loses a stock, and either despawns (`None`) when
/// that was the last one, or respawns at the fixed respawn point with
/// velocity and acceleration zeroed.
pub open spec fn death_spec(
    pos: Position,
    vel: Velocity,
    acc: Acceleration,
    stocks: Stocks,
) -> Option<(Position, Velocity, Acceleration, Stocks)> {
    if out_of_bounds(pos) {
        if stocks.count <= 1 {
            None
        } else {
            Some(
                (
                    Position { x: RESPAWN_X, y: RESPAWN_Y },
                    Velocity { x: 0i32, y: 0i32 },
                    Acceleration { x: 0i32, y: 0i32 },
                    Stocks { count: (stocks.count - 1) as u8 },
                ),
            )
        }
    } else {
        Some((pos, vel, acc, stocks))
    }
}

/// Runs the blast-zone check on one fighter. Returns whether the fighter is
/// still alive; a dead fighter is the caller's to remove, and its components
/// are left as they were.
pub fn death_check(
    position: &mut Position,
    velocity: &mut Velocity,
    acceleration: &mut Acceleration,
    stocks: &mut Stocks,
) -> (alive: bool)
    requires
        old(stocks).count >= 1,
    ensures
        alive == (death_spec(*old(position), *old(velocity), *old(acceleration), *old(stocks))
            is Some),
        alive ==> Some((*final(position), *final(velocity), *final(acceleration), *final(stocks)))
            == death_spec(*old(position), *old(velocity), *old(acceleration), *old(stocks)),
        alive ==> final(stocks).count >= 1,
{
    let out = position.x > BLAST_ZONE || position.x < -BLAST_ZONE || position.y > BLAST_ZONE
        || position.y < -BLAST_ZONE;
    if out {
        if stocks.count <= 1 {
            return false;
        }
        stocks.count = stocks.count - 1;
        position.x = RESPAWN_X;
        position.y = RESPAWN_Y;
        velocity.x = 0;
        velocity.y = 0;
        acceleration.x = 0;
        acceleration.y = 0;
    }
    true
}

} // verus!
