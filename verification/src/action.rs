//! The fighter's current move and the predicates physics reads off it.

use vstd::prelude::*;

verus! {

/// How many jumps the fighter has used since it last stood on a platform,
/// carried inside the aerial action variants. At most two jumps can be
/// spent before landing.
#[derive(Clone, Copy, Debug, PartialEq, Eq, Structural)]
pub struct Jumps(pub u8);

/// The fighter's facing direction; it persists until a movement command
/// changes it.
#[derive(Clone, Copy, Debug, PartialEq, Eq, Structural)]
pub enum Orientation {
    Left,
    Right,
}

/// The fighter's current move. Each variant has a fixed frame budget and a
/// fixed physics profile.
#[derive(Clone, Copy, Debug, PartialEq, Eq, Structural)]
pub enum Action {
    Standing,
    Jumping(Jumps),
    Falling(Jumps),
    Walking,
    Jabbing,
    NAiring(Jumps),
}

/// The jump count an action carries never exceeds two: a third jump is
/// impossible until the fighter lands, so higher counts are unreachable.
pub open spec fn action_wf(a: Action) -> bool {
    match a {
        Action::Standing => true,
        Action::Jumping(j) => j.0 <= 2,
        Action::Falling(j) => j.0 <= 2,
        Action::Walking => true,
        Action::Jabbing => true,
        Action::NAiring(j) => j.0 <= 2,
    }
}

/// Checks the jump-count bound at run time, for callers outside the proof.
pub fn action_is_wf(a: Action) -> (r: bool)
    ensures
        r == action_wf(a),
{
    match a {
        Action::Standing => true,
        Action::Jumping(j) => j.0 <= 2,
        Action::Falling(j) => j.0 <= 2,
        Action::Walking => true,
        Action::Jabbing => true,
        Action::NAiring(j) => j.0 <= 2,
    }
}

/// Whether the action is an airborne one.
pub open spec fn is_aerial_spec(action: Action) -> bool {
    match action {
        Action::Standing => false,
        Action::Jumping(_) => true,
        Action::Falling(_) => true,
        Action::Walking => false,
        Action::Jabbing => false,
        Action::NAiring(_) => true,
    }
}

pub fn is_aerial(action: Action) -> (r: bool)
    ensures
        r == is_aerial_spec(action),
{
    match action {
        Action::Standing => false,
        Action::Jumping(_) => true,
        Action::Falling(_) => true,
        Action::Walking => false,
        Action::Jabbing => false,
        Action::NAiring(_) => true,
    }
}

/// Whether the action pins the fighter in place, zeroing velocity and
/// acceleration.
pub open spec fn stops_movement_spec(action: Action) -> bool {
    match action {
        Action::Standing => true,
        Action::Jumping(_) => false,
        Action::Falling(_) => false,
        Action::Walking => false,
        Action::Jabbing => true,
        Action::NAiring(_) => false,
    }
}

pub fn stops_movement(action: Action) -> (r: bool)
    ensures
        r == stops_movement_spec(action),
{
    match action {
        Action::Standing => true,
        Action::Jumping(_) => false,
        Action::Falling(_) => false,
        Action::Walking => false,
        Action::Jabbing => true,
        Action::NAiring(_) => false,
    }
}

} // verus!
