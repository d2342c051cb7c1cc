use fight_core::action::{Action, Orientation};
use fight_core::death::{death_check, Damage, Stocks};
use fight_core::input::{CombinedInput, DiscreteInput, InputState};
use fight_core::physics::{Acceleration, Platform, PlatformId, Position, Velocity};
use fight_core::stance::FightingStance;
use fight_core::world::{tick, Fighter, PlayerId};

#[test]
fn last_stock_despawns_instead_of_respawning() {
    let mut pos = Position { x: 722, y: 0 };
    let mut vel = Velocity { x: 3, y: 0 };
    let mut acc = Acceleration { x: 0, y: 0 };
    let mut stocks = Stocks { count: 1 };
    let alive = death_check(&mut pos, &mut vel, &mut acc, &mut stocks);
    assert!(!alive);
}

#[test]
fn crossing_the_blast_zone_respawns_with_a_stock_less() {
    let mut pos = Position { x: 0, y: -800 };
    let mut vel = Velocity { x: 2, y: -20 };
    let mut acc = Acceleration { x: 0, y: -1 };
    let mut stocks = Stocks { count: 3 };
    let alive = death_check(&mut pos, &mut vel, &mut acc, &mut stocks);
    assert!(alive);
    assert_eq!(pos, Position { x: 0, y: 90 });
    assert_eq!(vel, Velocity { x: 0, y: 0 });
    assert_eq!(acc, Acceleration { x: 0, y: 0 });
    assert_eq!(stocks, Stocks { count: 2 });
}

#[test]
fn inside_the_zone_nothing_changes() {
    let mut pos = Position { x: 720, y: -720 };
    let mut vel = Velocity { x: 1, y: 2 };
    let mut acc = Acceleration { x: 0, y: -1 };
    let mut stocks = Stocks { count: 1 };
    let alive = death_check(&mut pos, &mut vel, &mut acc, &mut stocks);
    assert!(alive);
    assert_eq!(pos, Position { x: 720, y: -720 });
    assert_eq!(vel, Velocity { x: 1, y: 2 });
    assert_eq!(stocks, Stocks { count: 1 });
}

fn walker_at_the_edge(stocks: u8) -> (Fighter, Vec<Platform>, CombinedInput) {
    let plat = Platform { x: 600, y: 0, width: 300, id: PlatformId(0) };
    let fighter = Fighter {
        allegiance: PlayerId(0),
        input_diff: fight_core::input::InputDiff::new(),
        stance: FightingStance {
            orientation: Orientation::Right,
            action: Action::Walking,
            countdown: -1,
            countup: 0,
        },
        position: Position { x: 719, y: 0 },
        velocity: Velocity { x: 3, y: 0 },
        acceleration: Acceleration { x: 0, y: 0 },
        standing_on: Some(PlatformId(0)),
        stocks: Stocks { count: stocks },
        damage: Damage { percent: 0 },
    };
    let mut raw = CombinedInput::new();
    raw.set(DiscreteInput::Right, InputState::Activated);
    (fighter, vec![plat], raw)
}

#[test]
fn walking_across_the_edge_with_one_stock_despawns() {
    let (mut fighter, platforms, raw) = walker_at_the_edge(1);
    let alive = tick(&mut fighter, &raw, &platforms);
    assert!(!alive);
}

#[test]
fn walking_across_the_edge_with_stocks_left_respawns() {
    let (mut fighter, platforms, raw) = walker_at_the_edge(2);
    let alive = tick(&mut fighter, &raw, &platforms);
    assert!(alive);
    assert_eq!(fighter.position, Position { x: 0, y: 90 });
    assert_eq!(fighter.velocity, Velocity { x: 0, y: 0 });
    assert_eq!(fighter.stocks, Stocks { count: 1 });
}
