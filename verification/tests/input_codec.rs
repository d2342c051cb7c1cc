use fight_core::input::{
    decode, encode, fold_events, ButtonDiff, CombinedInput, DiscreteInput, InputDiff, InputState,
};

fn raw_down(buttons: &[DiscreteInput]) -> CombinedInput {
    let mut raw = CombinedInput::new();
    for b in buttons {
        raw.set(*b, InputState::Activated);
    }
    raw
}

#[test]
fn edge_states_follow_the_rule() {
    let up = CombinedInput::new();
    let down = raw_down(&[DiscreteInput::Hit]);

    // up, then physically down: Pressed
    let d1 = encode(&down, InputDiff::new());
    assert_eq!(decode(d1, DiscreteInput::Hit), ButtonDiff::Pressed);
    // still down: Held
    let d2 = encode(&down, d1);
    assert_eq!(decode(d2, DiscreteInput::Hit), ButtonDiff::Held);
    // down, then up: Released
    let d3 = encode(&up, d2);
    assert_eq!(decode(d3, DiscreteInput::Hit), ButtonDiff::Released);
    // up two ticks running: NotHeld
    let d4 = encode(&up, d3);
    assert_eq!(decode(d4, DiscreteInput::Hit), ButtonDiff::NotHeld);
    // released, then down again: Pressed
    let d5 = encode(&down, d3);
    assert_eq!(decode(d5, DiscreteInput::Hit), ButtonDiff::Pressed);
}

#[test]
fn buttons_encode_independently() {
    let raw = raw_down(&[DiscreteInput::Left, DiscreteInput::Jump]);
    let d = encode(&raw, InputDiff::new());
    assert_eq!(decode(d, DiscreteInput::Left), ButtonDiff::Pressed);
    assert_eq!(decode(d, DiscreteInput::Jump), ButtonDiff::Pressed);
    assert_eq!(decode(d, DiscreteInput::Right), ButtonDiff::NotHeld);
    assert_eq!(decode(d, DiscreteInput::Hit), ButtonDiff::NotHeld);
    assert_eq!(decode(d, DiscreteInput::Down), ButtonDiff::NotHeld);
}

#[test]
fn packed_bits_exact() {
    // every button pressed packs two set bits per button: 0b11_11_11_11_11
    let raw = raw_down(&[
        DiscreteInput::Jump,
        DiscreteInput::Hit,
        DiscreteInput::Left,
        DiscreteInput::Right,
        DiscreteInput::Down,
    ]);
    let d = encode(&raw, InputDiff::new());
    assert_eq!(d.0, 0x3ff);
    // a single held button packs its code at twice the button index
    let mut d2 = InputDiff::new();
    d2.set(DiscreteInput::Left, InputState::Activated);
    d2.set(DiscreteInput::Left, InputState::Activated);
    assert_eq!(d2.0, 0b01 << 4);
    assert_eq!(d2.get(DiscreteInput::Left), ButtonDiff::Held);
    assert!(d2.is_being_pressed(DiscreteInput::Left));
    assert!(!d2.is_being_pressed(DiscreteInput::Jump));
}

#[test]
fn fold_events_earlier_events_take_precedence() {
    let events = vec![
        (DiscreteInput::Jump, InputState::Activated),
        (DiscreteInput::Jump, InputState::NotActivated),
        (DiscreteInput::Hit, InputState::NotActivated),
        (DiscreteInput::Hit, InputState::Activated),
    ];
    let raw = fold_events(&events);
    // the first event per button wins
    assert_eq!(raw.get(DiscreteInput::Jump), ButtonDiff::Pressed);
    assert_eq!(raw.get(DiscreteInput::Hit), ButtonDiff::NotHeld);
    // a button with no event stays not held
    assert_eq!(raw.get(DiscreteInput::Down), ButtonDiff::NotHeld);
}
