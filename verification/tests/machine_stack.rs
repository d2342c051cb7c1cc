use fight_core::action::Jumps;
use fight_core::characteristics::Character;
use fight_core::input::{ButtonDiff, DiscreteInput};
use fight_core::machine::{
    DefenseState, EnvironmentState, GroundedState, Handler, HierarchicalMachine, MachineContext,
    MachineInput, PhysicsEvent,
};

#[test]
fn landing_pushes_the_landing_overlay() {
    let m = HierarchicalMachine {
        machine_stack: vec![Handler::Environment(EnvironmentState::Aerial(Jumps(1)))],
        context: MachineContext { character: Character::Postbox, countdown: 7, countup: 9 },
    };
    let m = m.consume_physics_event(&PhysicsEvent::LandedOnPlat);
    assert_eq!(
        m.machine_stack,
        vec![
            Handler::Environment(EnvironmentState::Grounded),
            Handler::Grounded(GroundedState::Landing),
        ]
    );
    // the transition resets the shared counters through the character lookup
    assert_eq!(m.context.countdown, -1);
    assert_eq!(m.context.countup, 0);
}

#[test]
fn falling_off_grants_one_spent_jump() {
    let m = HierarchicalMachine::new(Character::EvilPostbox);
    let m = m.consume_physics_event(&PhysicsEvent::FellOffPlat);
    assert_eq!(
        m.machine_stack,
        vec![Handler::Environment(EnvironmentState::Aerial(Jumps(1)))]
    );
    assert_eq!(m.context.countdown, -1);
    assert_eq!(m.context.countup, 0);
}

#[test]
fn transition_replaces_everything_above_the_handler() {
    // overlays stacked above the environment handler vanish when it lands
    let m = HierarchicalMachine {
        machine_stack: vec![
            Handler::Environment(EnvironmentState::Aerial(Jumps(0))),
            Handler::Grounded(GroundedState::Dashing),
            Handler::Grounded(GroundedState::Crouching),
        ],
        context: MachineContext { character: Character::Postbox, countdown: -1, countup: 4 },
    };
    let m = m.consume_physics_event(&PhysicsEvent::LandedOnPlat);
    assert_eq!(
        m.machine_stack,
        vec![
            Handler::Environment(EnvironmentState::Grounded),
            Handler::Grounded(GroundedState::Landing),
        ]
    );
}

#[test]
fn remaining_handlers_tick_the_counters() {
    let m = HierarchicalMachine::new(Character::Postbox);
    // landing while already grounded is a no-op that still ticks
    let m = m.consume_physics_event(&PhysicsEvent::LandedOnPlat);
    assert_eq!(
        m.machine_stack,
        vec![Handler::Environment(EnvironmentState::Grounded)]
    );
    assert_eq!(m.context.countdown, -1);
    assert_eq!(m.context.countup, 1);
}

#[test]
fn input_passes_through_and_ticks_per_handler() {
    let m = HierarchicalMachine {
        machine_stack: vec![
            Handler::Environment(EnvironmentState::Grounded),
            Handler::Grounded(GroundedState::Walking),
        ],
        context: MachineContext { character: Character::Postbox, countdown: 5, countup: 0 },
    };
    let mut input = MachineInput {
        jump: Some(ButtonDiff::Pressed),
        hit: None,
        left: Some(ButtonDiff::Held),
        right: None,
        down: None,
    };
    let before = input;
    let m = m.consume_input(&mut input);
    assert_eq!(input, before);
    assert_eq!(m.context.countdown, 3);
    assert_eq!(m.context.countup, 2);
    assert_eq!(m.machine_stack.len(), 2);
}

#[test]
fn countdown_stops_at_the_indefinite_marker() {
    let m = HierarchicalMachine {
        machine_stack: vec![
            Handler::Environment(EnvironmentState::Grounded),
            Handler::Grounded(GroundedState::Walking),
            Handler::Aerial(fight_core::machine::AerialAction::Falling),
        ],
        context: MachineContext { character: Character::Postbox, countdown: 1, countup: 250 },
    };
    let mut input = MachineInput { jump: None, hit: None, left: None, right: None, down: None };
    let m = m.consume_input(&mut input);
    assert_eq!(m.context.countdown, -1);
    assert_eq!(m.context.countup, 253);
}

#[test]
fn consuming_a_button_takes_it_out() {
    let mut input = MachineInput {
        jump: Some(ButtonDiff::Pressed),
        hit: Some(ButtonDiff::Held),
        left: None,
        right: None,
        down: None,
    };
    assert_eq!(input.consume(DiscreteInput::Jump), Some(ButtonDiff::Pressed));
    assert_eq!(input.consume(DiscreteInput::Jump), None);
    // the other buttons are untouched
    assert_eq!(input.hit, Some(ButtonDiff::Held));
}

#[test]
fn no_present_handler_grants_armour() {
    let m = HierarchicalMachine {
        machine_stack: vec![
            Handler::Environment(EnvironmentState::Grounded),
            Handler::Grounded(GroundedState::Landing),
        ],
        context: MachineContext { character: Character::Postbox, countdown: -1, countup: 0 },
    };
    assert_eq!(m.defense_state(), DefenseState::Normal);
    let empty = HierarchicalMachine {
        machine_stack: vec![],
        context: MachineContext { character: Character::Postbox, countdown: -1, countup: 0 },
    };
    assert_eq!(empty.defense_state(), DefenseState::Normal);
}
