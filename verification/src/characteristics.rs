//! The playable characters and their capability lookups.
//!
//! Character-specific frame data is reached through a lookup keyed by the
//! character's identity, so the generic machine layer never special-cases a
//! character. Both current characters grant every state an indefinite
//! countdown; a future character overrides these numbers without touching
//! the machine layer.

use vstd::prelude::*;

use crate::machine::{EnvironmentState, GroundedState};

verus! {

/// The closed set of playable characters.
#[derive(Clone, Copy, Debug, PartialEq, Eq, Structural)]
pub enum Character {
    Postbox,
    EvilPostbox,
}

/// The default character.
pub struct Postbox {}

/// The default character's mirror-match variant.
pub struct EvilPostbox {}

/// The frame budget a character grants a new environment-layer state.
pub open spec fn environment_countdown_spec(c: Character, state: EnvironmentState) -> i8 {
    -1i8
}

/// The frame budget a character grants a new grounded-layer state.
pub open spec fn grounded_countdown_spec(c: Character, state: GroundedState) -> i8 {
    -1i8
}

impl Postbox {
    pub fn environment_countdown(&self, state: &EnvironmentState) -> (r: i8)
        ensures
            r == environment_countdown_spec(Character::Postbox, *state),
    {
        -1
    }

    pub fn grounded_countdown(&self, state: &GroundedState) -> (r: i8)
        ensures
            r == grounded_countdown_spec(Character::Postbox, *state),
    {
        -1
    }
}

impl EvilPostbox {
    pub fn environment_countdown(&self, state: &EnvironmentState) -> (r: i8)
        ensures
            r == environment_countdown_spec(Character::EvilPostbox, *state),
    {
        -1
    }

    pub fn grounded_countdown(&self, state: &GroundedState) -> (r: i8)
        ensures
            r == grounded_countdown_spec(Character::EvilPostbox, *state),
    {
        -1
    }
}

/// Looks up the environment-layer frame budget for a character.
pub fn environment_countdown(c: Character, state: &EnvironmentState) -> (r: i8)
    ensures
        r == environment_countdown_spec(c, *state),
{
    match c {
        Character::Postbox => (Postbox {  }).environment_countdown(state),
        Character::EvilPostbox => (EvilPostbox {  }).environment_countdown(state),
    }
}

/// Looks up the grounded-layer frame budget for a character.
pub fn grounded_countdown(c: Character, state: &GroundedState) -> (r: i8)
    ensures
        r == grounded_countdown_spec(c, *state),
{
    match c {
        Character::Postbox => (Postbox {  }).grounded_countdown(state),
        Character::EvilPostbox => (EvilPostbox {  }).grounded_countdown(state),
    }
}

} // verus!
