use fight_core::input::{DiscreteInput, InputDiff, InputState};
use fight_core::intent::{resolve_intent, IntentKind};

fn diff_down(buttons: &[DiscreteInput]) -> InputDiff {
    let mut d = InputDiff::new();
    for b in buttons {
        d.set(*b, InputState::Activated);
    }
    d
}

fn kind(buttons: &[DiscreteInput]) -> IntentKind {
    resolve_intent(diff_down(buttons)).0
}

#[test]
fn down_with_hit_is_down_tilt() {
    assert_eq!(kind(&[DiscreteInput::Down, DiscreteInput::Hit]), IntentKind::DownTilt);
    // the down tilt outranks lateral input
    assert_eq!(
        kind(&[DiscreteInput::Down, DiscreteInput::Hit, DiscreteInput::Right]),
        IntentKind::DownTilt
    );
}

#[test]
fn down_with_direction_crawls() {
    assert_eq!(kind(&[DiscreteInput::Down, DiscreteInput::Right]), IntentKind::CrawlRight);
    assert_eq!(kind(&[DiscreteInput::Down, DiscreteInput::Left]), IntentKind::CrawlLeft);
}

#[test]
fn down_alone_crouches() {
    assert_eq!(kind(&[DiscreteInput::Down]), IntentKind::Crouch);
    // opposite directions cancel, leaving the crouch
    assert_eq!(
        kind(&[DiscreteInput::Down, DiscreteInput::Left, DiscreteInput::Right]),
        IntentKind::Crouch
    );
}

#[test]
fn direction_with_hit_tilts() {
    assert_eq!(kind(&[DiscreteInput::Left, DiscreteInput::Hit]), IntentKind::LeftTilt);
    assert_eq!(kind(&[DiscreteInput::Right, DiscreteInput::Hit]), IntentKind::RightTilt);
}

#[test]
fn direction_alone_moves() {
    assert_eq!(kind(&[DiscreteInput::Left]), IntentKind::GoLeft);
    assert_eq!(kind(&[DiscreteInput::Right]), IntentKind::GoRight);
}

#[test]
fn opposite_directions_cancel() {
    assert_eq!(kind(&[DiscreteInput::Left, DiscreteInput::Right]), IntentKind::Neutral);
    // with hit they leave a plain jab
    assert_eq!(
        kind(&[DiscreteInput::Left, DiscreteInput::Right, DiscreteInput::Hit]),
        IntentKind::Jab
    );
}

#[test]
fn hit_alone_jabs() {
    assert_eq!(kind(&[DiscreteInput::Hit]), IntentKind::Jab);
}

#[test]
fn only_a_fresh_jump_press_jumps() {
    assert_eq!(kind(&[DiscreteInput::Jump]), IntentKind::Jump);
    // a jump held from the previous tick no longer reads as a jump
    let mut d = diff_down(&[DiscreteInput::Jump]);
    d.set(DiscreteInput::Jump, InputState::Activated);
    assert_eq!(resolve_intent(d).0, IntentKind::Neutral);
}

#[test]
fn nothing_down_is_neutral() {
    assert_eq!(kind(&[]), IntentKind::Neutral);
}
