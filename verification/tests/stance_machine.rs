use fight_core::action::{Action, Jumps, Orientation};
use fight_core::intent::{Intent, IntentKind};
use fight_core::stance::{new_stance, num_countdown_frames, stance_step, FightingStance};

fn stance(action: Action, countdown: i8) -> FightingStance {
    FightingStance { orientation: Orientation::Right, action, countdown, countup: 0 }
}

#[test]
fn jabbing_ignores_commands_until_timeout() {
    // a fresh jab has a budget of thirteen frames
    assert_eq!(num_countdown_frames(Action::Jabbing), 13);
    let mut s = stance(Action::Jabbing, 13);
    let go_right = Intent(IntentKind::GoRight);
    // the jab holds while frames remain
    for expected_countdown in (1..=12).rev() {
        stance_step(&mut s, &go_right, true);
        assert_eq!(s.action, Action::Jabbing);
        assert_eq!(s.countdown, expected_countdown);
    }
    // the budget runs out: the scripted timeout stands the fighter up
    stance_step(&mut s, &go_right, true);
    assert_eq!(s.action, Action::Standing);
    assert_eq!(s.countdown, -1);
    // only now does the command take hold
    stance_step(&mut s, &go_right, true);
    assert_eq!(s.action, Action::Walking);
    assert_eq!(s.orientation, Orientation::Right);
}

#[test]
fn indefinite_countdown_never_times_out() {
    let mut s = stance(Action::Standing, -1);
    for tick in 1..=50u8 {
        stance_step(&mut s, &Intent(IntentKind::Neutral), true);
        assert_eq!(s.action, Action::Standing);
        assert_eq!(s.countdown, -1);
        assert_eq!(s.countup, tick);
    }
}

#[test]
fn four_jump_commands_spend_only_two_jumps() {
    let mut o = Orientation::Right;
    let mut a = Action::Standing;
    let jump = Intent(IntentKind::Jump);
    let expected = [
        Action::Jumping(Jumps(0)),
        Action::Jumping(Jumps(1)),
        Action::Jumping(Jumps(2)),
        Action::Falling(Jumps(2)),
        Action::Falling(Jumps(2)),
    ];
    for want in expected {
        match new_stance(o, a, &jump) {
            Some((no, na)) => {
                o = no;
                a = na;
            }
            None => {}
        }
        assert_eq!(a, want);
    }
}

#[test]
fn jump_out_of_an_aerial_attack_spends_a_jump() {
    let jump = Intent(IntentKind::Jump);
    // an aerial attack begun with no jump spent launches a first jump
    assert_eq!(
        new_stance(Orientation::Right, Action::NAiring(Jumps(0)), &jump),
        Some((Orientation::Right, Action::Jumping(Jumps(0))))
    );
    assert_eq!(
        new_stance(Orientation::Right, Action::NAiring(Jumps(1)), &jump),
        Some((Orientation::Right, Action::Jumping(Jumps(2))))
    );
    // with both jumps spent the fighter can only fall
    assert_eq!(
        new_stance(Orientation::Right, Action::NAiring(Jumps(2)), &jump),
        Some((Orientation::Right, Action::Falling(Jumps(2))))
    );
}

#[test]
fn every_command_has_a_transition() {
    let intents = [
        IntentKind::Neutral,
        IntentKind::GoRight,
        IntentKind::GoLeft,
        IntentKind::Jab,
        IntentKind::RightTilt,
        IntentKind::LeftTilt,
        IntentKind::DownTilt,
        IntentKind::Jump,
        IntentKind::Crouch,
        IntentKind::CrawlRight,
        IntentKind::CrawlLeft,
    ];
    let actions = [
        Action::Standing,
        Action::Walking,
        Action::Jabbing,
        Action::Jumping(Jumps(2)),
        Action::Falling(Jumps(0)),
        Action::NAiring(Jumps(1)),
    ];
    for a in actions {
        for ik in intents {
            // every pair answers without panicking
            let _ = new_stance(Orientation::Left, a, &Intent(ik));
        }
    }
}

#[test]
fn launch_promotes_to_falling_next_tick() {
    // a jump's budget is zero: a single-frame launch state
    assert_eq!(num_countdown_frames(Action::Jumping(Jumps(1))), 0);
    let mut s = stance(Action::Jumping(Jumps(1)), 0);
    stance_step(&mut s, &Intent(IntentKind::Neutral), false);
    assert_eq!(s.action, Action::Falling(Jumps(1)));
    assert_eq!(s.countdown, -1);
}

#[test]
fn aerial_attack_times_out_into_falling() {
    let mut s = stance(Action::NAiring(Jumps(2)), 1);
    stance_step(&mut s, &Intent(IntentKind::Neutral), false);
    assert_eq!(s.action, Action::Falling(Jumps(2)));
}

#[test]
fn unsupported_grounded_fighter_falls() {
    let mut s = stance(Action::Walking, -1);
    stance_step(&mut s, &Intent(IntentKind::GoRight), false);
    // the fall overrides the walk and resets the jump count
    assert_eq!(s.action, Action::Falling(Jumps(0)));
    assert_eq!(s.countdown, -1);
    assert_eq!(s.countup, 0);
}

#[test]
fn supported_aerial_fighter_lands() {
    let mut s = stance(Action::Falling(Jumps(2)), -1);
    stance_step(&mut s, &Intent(IntentKind::Neutral), true);
    assert_eq!(s.action, Action::Standing);
    assert_eq!(s.countdown, -1);
    assert_eq!(s.countup, 0);
}

#[test]
fn launch_tick_is_not_landed() {
    // the single-frame launch must not be snapped back to standing even
    // though the platform is still underfoot on the launch tick
    let mut s = stance(Action::Standing, -1);
    stance_step(&mut s, &Intent(IntentKind::Jump), true);
    assert_eq!(s.action, Action::Jumping(Jumps(0)));
    assert_eq!(s.countdown, 0);
}
