//! Derivation of one semantic command per fighter per tick.
//!
//! The resolver is a pure function of the fighter's packed edge state: it has
//! no memory beyond the current tick, and every reachable diff maps to
//! exactly one command through a fixed priority ladder.

use vstd::prelude::*;

use crate::input::{diff_at, down_at, ButtonDiff, DiscreteInput, InputDiff};

verus! {

/// The semantic command derived from a fighter's inputs for one tick. The
/// command is not the final say on behaviour: the stance machine interprets
/// it against the fighter's current action.
#[derive(Clone, Copy, Debug, PartialEq, Eq, Structural)]
pub enum IntentKind {
    Neutral,
    GoRight,
    GoLeft,
    Jab,
    RightTilt,
    LeftTilt,
    DownTilt,
    Jump,
    Crouch,
    CrawlRight,
    CrawlLeft,
}

/// One fighter's command for the current tick.
#[derive(Clone, Copy, Debug, PartialEq, Eq, Structural)]
pub struct Intent(pub IntentKind);

/// The priority ladder, first match wins. Left and right cancel when both
/// are down, so at most one of them counts. A held down button beats lateral
/// movement and jabs; an attack button beats plain movement; only a fresh
/// jump press (not a held jump) reads as a jump.
pub open spec fn intent_spec(bits: u16) -> IntentKind {
    let left = down_at(bits, DiscreteInput::Left) && !down_at(bits, DiscreteInput::Right);
    let right = down_at(bits, DiscreteInput::Right) && !down_at(bits, DiscreteInput::Left);
    let down = down_at(bits, DiscreteInput::Down);
    let hit = down_at(bits, DiscreteInput::Hit);
    let jump_pressed = diff_at(bits, DiscreteInput::Jump) == ButtonDiff::Pressed;
    if down && hit {
        IntentKind::DownTilt
    } else if down && right {
        IntentKind::CrawlRight
    } else if down && left {
        IntentKind::CrawlLeft
    } else if down {
        IntentKind::Crouch
    } else if left && hit {
        IntentKind::LeftTilt
    } else if left {
        IntentKind::GoLeft
    } else if right && hit {
        IntentKind::RightTilt
    } else if right {
        IntentKind::GoRight
    } else if hit {
        IntentKind::Jab
    } else if jump_pressed {
        IntentKind::Jump
    } else {
        IntentKind::Neutral
    }
}

/// Derives the tick's single semantic command from a fighter's edge state.
pub fn resolve_intent(diff: InputDiff) -> (r: Intent)
    ensures
        r.0 == intent_spec(diff.0),
{
    let left_down = diff.is_being_pressed(DiscreteInput::Left);
    let right_down = diff.is_being_pressed(DiscreteInput::Right);
    let left = left_down && !right_down;
    let right = right_down && !left_down;
    let down = diff.is_being_pressed(DiscreteInput::Down);
    let hit = diff.is_being_pressed(DiscreteInput::Hit);
    let jump_pressed = match diff.get(DiscreteInput::Jump) {
        ButtonDiff::Pressed => true,
        _ => false,
    };
    let kind = if down && hit {
        IntentKind::DownTilt
    } else if down && right {
        IntentKind::CrawlRight
    } else if down && left {
        IntentKind::CrawlLeft
    } else if down {
        IntentKind::Crouch
    } else if left && hit {
        IntentKind::LeftTilt
    } else if left {
        IntentKind::GoLeft
    } else if right && hit {
        IntentKind::RightTilt
    } else if right {
        IntentKind::GoRight
    } else if hit {
        IntentKind::Jab
    } else if jump_pressed {
        IntentKind::Jump
    } else {
        IntentKind::Neutral
    };
    Intent(kind)
}

} // verus!
