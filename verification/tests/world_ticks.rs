use fight_core::action::{Action, Jumps, Orientation};
use fight_core::death::{Damage, Stocks};
use fight_core::input::{CombinedInput, DiscreteInput, InputDiff, InputState};
use fight_core::physics::{Acceleration, Platform, PlatformId, Position, Velocity};
use fight_core::stance::FightingStance;
use fight_core::world::{tick, world_tick, Fighter, PlayerId, World};

fn raw(buttons: &[DiscreteInput]) -> CombinedInput {
    let mut r = CombinedInput::new();
    for b in buttons {
        r.set(*b, InputState::Activated);
    }
    r
}

fn falling_fighter(position: Position, velocity: Velocity) -> Fighter {
    Fighter {
        allegiance: PlayerId(0),
        input_diff: InputDiff::new(),
        stance: FightingStance {
            orientation: Orientation::Right,
            action: Action::Falling(Jumps(0)),
            countdown: -1,
            countup: 0,
        },
        position,
        velocity,
        acceleration: Acceleration { x: 0, y: 0 },
        standing_on: None,
        stocks: Stocks { count: 4 },
        damage: Damage { percent: 0 },
    }
}

#[test]
fn fall_onto_platform_lands_exactly_on_its_top() {
    // a fighter high above a single platform falls onto it and stops exactly
    // at the platform's height, standing, attached to the platform
    let platforms = vec![Platform { x: -50, y: 86, width: 100, id: PlatformId(7) }];
    let mut fighter = falling_fighter(Position { x: 0, y: 100 }, Velocity { x: 0, y: -10 });
    let neutral = CombinedInput::new();
    let mut landed_tick = None;
    for t in 1..=5 {
        let alive = tick(&mut fighter, &neutral, &platforms);
        assert!(alive);
        if fighter.standing_on.is_some() {
            landed_tick = Some(t);
            break;
        }
    }
    assert_eq!(landed_tick, Some(2));
    assert_eq!(fighter.position, Position { x: 0, y: 86 });
    assert_eq!(fighter.stance.action, Action::Standing);
    assert_eq!(fighter.standing_on, Some(PlatformId(7)));
    // once landed, the fighter stays put under neutral input
    let alive = tick(&mut fighter, &neutral, &platforms);
    assert!(alive);
    assert_eq!(fighter.position, Position { x: 0, y: 86 });
    assert_eq!(fighter.stance.action, Action::Standing);
}

#[test]
fn match_start_world_settles_on_the_starting_platform() {
    let mut w = World::match_start();
    let inputs = vec![CombinedInput::new()];
    for _ in 0..30 {
        world_tick(&mut w, &inputs);
    }
    assert_eq!(w.fighters.len(), 1);
    let f = &w.fighters[0];
    assert_eq!(f.position.y, 0);
    assert_eq!(f.stance.action, Action::Standing);
    assert_eq!(f.standing_on, Some(PlatformId(0)));
}

fn script(t: usize) -> CombinedInput {
    match t % 11 {
        0 => raw(&[DiscreteInput::Right]),
        1 => raw(&[DiscreteInput::Right]),
        2 => raw(&[DiscreteInput::Jump]),
        3 => raw(&[DiscreteInput::Jump, DiscreteInput::Right]),
        4 => raw(&[DiscreteInput::Hit]),
        5 => raw(&[DiscreteInput::Down, DiscreteInput::Left]),
        6 => raw(&[DiscreteInput::Left]),
        7 => raw(&[DiscreteInput::Jump]),
        8 => raw(&[DiscreteInput::Down]),
        9 => raw(&[DiscreteInput::Left, DiscreteInput::Hit]),
        _ => CombinedInput::new(),
    }
}

#[test]
fn replaying_the_same_inputs_reproduces_the_same_states() {
    // the rollback property: two runs of the pipeline from the same initial
    // state with the same input sequence agree bit for bit, tick by tick
    let mut first = World::match_start();
    let mut second = World::match_start();
    for t in 0..240 {
        let inputs = vec![script(t)];
        world_tick(&mut first, &inputs);
        world_tick(&mut second, &inputs);
        assert_eq!(first.fighters, second.fighters);
    }
}

#[test]
fn resimulating_from_a_snapshot_reproduces_the_run() {
    // run the pipeline, snapshot halfway, run to the end; then restore the
    // snapshot and replay the second half: the end states agree exactly
    let mut w = World::match_start();
    for t in 0..60 {
        world_tick(&mut w, &vec![script(t)]);
    }
    let snapshot = w.fighters.clone();
    for t in 60..120 {
        world_tick(&mut w, &vec![script(t)]);
    }
    let end = w.fighters.clone();
    let mut replay = World {
        fighters: snapshot,
        platforms: fight_core::world::starting_platforms(),
    };
    for t in 60..120 {
        world_tick(&mut replay, &vec![script(t)]);
    }
    assert_eq!(replay.fighters, end);
}
