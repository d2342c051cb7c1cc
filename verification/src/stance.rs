//! The per-fighter stance machine.
//!
//! Once per tick, in this fixed order: burn one frame of the current action's
//! budget; if the budget just ran out, take the scripted timeout transition;
//! otherwise, while the budget is indefinite, consult the transition table
//! with this tick's command; finally apply the grounded/airborne correction.
//! Every step is a pure function of the fighter's own state, command, and
//! ground status, so fighters can be updated in any order.

use vstd::prelude::*;

use crate::action::{action_wf, is_aerial, is_aerial_spec, Action, Jumps, Orientation};
use crate::intent::{Intent, IntentKind};

verus! {

/// One fighter's stance: facing, current action, frames remaining in the
/// action (`-1` means indefinite), and frames spent in it (wraps around;
/// cosmetic only).
#[derive(Clone, Copy, Debug, PartialEq, Eq, Structural)]
pub struct FightingStance {
    pub orientation: Orientation,
    pub action: Action,
    pub countdown: i8,
    pub countup: u8,
}

/// A stance is well formed when its action is and its countdown never sits
/// below the indefinite marker.
pub open spec fn stance_wf(s: FightingStance) -> bool {
    action_wf(s.action) && s.countdown >= -1
}

/// The stance a fighter is created with at match start.
pub open spec fn initial_stance() -> FightingStance {
    FightingStance {
        orientation: Orientation::Right,
        action: Action::Standing,
        countdown: -1i8,
        countup: 0,
    }
}

impl Default for FightingStance {
    fn default() -> (r: Self)
        ensures
            r == initial_stance(),
    {
        FightingStance {
            orientation: Orientation::Right,
            action: Action::Standing,
            countdown: -1,
            countup: 0,
        }
    }
}

/// Each action's fixed frame budget: `-1` is indefinite, `0` makes the next
/// tick take the scripted timeout at once.
pub open spec fn num_countdown_frames_spec(action: Action) -> i8 {
    match action {
        Action::Standing => -1i8,
        Action::Jumping(_) => 0i8,
        Action::Falling(_) => -1i8,
        Action::Walking => -1i8,
        Action::Jabbing => 13i8,
        Action::NAiring(_) => 25i8,
    }
}

pub fn num_countdown_frames(action: Action) -> (r: i8)
    ensures
        r == num_countdown_frames_spec(action),
{
    match action {
        Action::Standing => -1,
        Action::Jumping(_) => 0,
        Action::Falling(_) => -1,
        Action::Walking => -1,
        Action::Jabbing => 13,
        Action::NAiring(_) => 25,
    }
}

/// The scripted successor an action takes when its frame budget runs out: a
/// jab returns to standing, a launch or an aerial attack drops into falling
/// with its jump count kept. Actions with an indefinite budget never reach
/// this.
pub open spec fn timeout_action_spec(action: Action) -> Action {
    match action {
        Action::Standing => Action::Standing,
        Action::Jumping(j) => Action::Falling(j),
        Action::Falling(j) => Action::Falling(j),
        Action::Walking => Action::Walking,
        Action::Jabbing => Action::Standing,
        Action::NAiring(j) => Action::Falling(j),
    }
}

pub fn timeout_action(action: Action) -> (r: Action)
    ensures
        r == timeout_action_spec(action),
{
    match action {
        Action::Standing => Action::Standing,
        Action::Jumping(j) => Action::Falling(j),
        Action::Falling(j) => Action::Falling(j),
        Action::Walking => Action::Walking,
        Action::Jabbing => Action::Standing,
        Action::NAiring(j) => Action::Falling(j),
    }
}

/// A neutral command: grounded actions settle to standing, airborne ones to
/// falling; a jab runs out into standing.
pub open spec fn modify_neutral_spec(last_o: Orientation, last_a: Action) -> (Orientation, Action) {
    let a = match last_a {
        Action::Standing => Action::Standing,
        Action::Jumping(j) => Action::Falling(j),
        Action::Falling(j) => Action::Falling(j),
        Action::Walking => Action::Standing,
        Action::Jabbing => Action::Standing,
        Action::NAiring(j) => Action::Falling(j),
    };
    (last_o, a)
}

fn modify_neutral(last_o: Orientation, last_a: Action) -> (r: (Orientation, Action))
    ensures
        r == modify_neutral_spec(last_o, last_a),
{
    let a = match last_a {
        Action::Standing => Action::Standing,
        Action::Jumping(j) => Action::Falling(j),
        Action::Falling(j) => Action::Falling(j),
        Action::Walking => Action::Standing,
        Action::Jabbing => Action::Standing,
        Action::NAiring(j) => Action::Falling(j),
    };
    (last_o, a)
}

/// A rightward command: grounded actions walk right and face right; airborne
/// ones keep falling with facing unchanged (air drift is physics' business).
pub open spec fn modify_go_right_spec(last_o: Orientation, last_a: Action) -> (
    Orientation,
    Action,
) {
    match last_a {
        Action::Standing => (Orientation::Right, Action::Walking),
        Action::Jumping(j) => (last_o, Action::Falling(j)),
        Action::Falling(j) => (last_o, Action::Falling(j)),
        Action::Walking => (Orientation::Right, Action::Walking),
        Action::Jabbing => (Orientation::Right, Action::Walking),
        Action::NAiring(j) => (last_o, Action::Falling(j)),
    }
}

fn modify_go_right(last_o: Orientation, last_a: Action) -> (r: (Orientation, Action))
    ensures
        r == modify_go_right_spec(last_o, last_a),
{
    match last_a {
        Action::Standing => (Orientation::Right, Action::Walking),
        Action::Jumping(j) => (last_o, Action::Falling(j)),
        Action::Falling(j) => (last_o, Action::Falling(j)),
        Action::Walking => (Orientation::Right, Action::Walking),
        Action::Jabbing => (Orientation::Right, Action::Walking),
        Action::NAiring(j) => (last_o, Action::Falling(j)),
    }
}

/// A leftward command, the mirror of `modify_go_right`.
pub open spec fn modify_go_left_spec(last_o: Orientation, last_a: Action) -> (Orientation, Action) {
    match last_a {
        Action::Standing => (Orientation::Left, Action::Walking),
        Action::Jumping(j) => (last_o, Action::Falling(j)),
        Action::Falling(j) => (last_o, Action::Falling(j)),
        Action::Walking => (Orientation::Left, Action::Walking),
        Action::Jabbing => (Orientation::Left, Action::Walking),
        Action::NAiring(j) => (last_o, Action::Falling(j)),
    }
}

fn modify_go_left(last_o: Orientation, last_a: Action) -> (r: (Orientation, Action))
    ensures
        r == modify_go_left_spec(last_o, last_a),
{
    match last_a {
        Action::Standing => (Orientation::Left, Action::Walking),
        Action::Jumping(j) => (last_o, Action::Falling(j)),
        Action::Falling(j) => (last_o, Action::Falling(j)),
        Action::Walking => (Orientation::Left, Action::Walking),
        Action::Jabbing => (Orientation::Left, Action::Walking),
        Action::NAiring(j) => (last_o, Action::Falling(j)),
    }
}

/// An attack command: grounded actions jab, airborne ones swing a neutral
/// air attack, keeping the jump count.
pub open spec fn modify_jab_spec(last_o: Orientation, last_a: Action) -> (Orientation, Action) {
    let a = match last_a {
        Action::Standing => Action::Jabbing,
        Action::Jumping(j) => Action::NAiring(j),
        Action::Falling(j) => Action::NAiring(j),
        Action::Walking => Action::Jabbing,
        Action::Jabbing => Action::Jabbing,
        Action::NAiring(j) => Action::NAiring(j),
    };
    (last_o, a)
}

fn modify_jab(last_o: Orientation, last_a: Action) -> (r: (Orientation, Action))
    ensures
        r == modify_jab_spec(last_o, last_a),
{
    let a = match last_a {
        Action::Standing => Action::Jabbing,
        Action::Jumping(j) => Action::NAiring(j),
        Action::Falling(j) => Action::NAiring(j),
        Action::Walking => Action::Jabbing,
        Action::Jabbing => Action::Jabbing,
        Action::NAiring(j) => Action::NAiring(j),
    };
    (last_o, a)
}

/// A jump command: grounded actions, and an aerial attack begun with no jump
/// spent, launch a first jump; the other airborne actions spend one more
/// jump, up to the second, after which the fighter can only fall until it
/// lands.
pub open spec fn modify_jump_spec(last_o: Orientation, last_a: Action) -> (Orientation, Action) {
    let a = match last_a {
        Action::Standing => Action::Jumping(Jumps(0)),
        Action::Walking => Action::Jumping(Jumps(0)),
        Action::Jabbing => Action::Jumping(Jumps(0)),
        Action::Jumping(j) => if j.0 < 2 {
            Action::Jumping(Jumps((j.0 + 1) as u8))
        } else {
            Action::Falling(Jumps(2))
        },
        Action::Falling(j) => if j.0 < 2 {
            Action::Jumping(Jumps((j.0 + 1) as u8))
        } else {
            Action::Falling(Jumps(2))
        },
        Action::NAiring(j) => if j.0 == 0 {
            Action::Jumping(Jumps(0))
        } else if j.0 < 2 {
            Action::Jumping(Jumps((j.0 + 1) as u8))
        } else {
            Action::Falling(Jumps(2))
        },
    };
    (last_o, a)
}

fn modify_jump(last_o: Orientation, last_a: Action) -> (r: (Orientation, Action))
    ensures
        r == modify_jump_spec(last_o, last_a),
{
    let a = match last_a {
        Action::Standing => Action::Jumping(Jumps(0)),
        Action::Walking => Action::Jumping(Jumps(0)),
        Action::Jabbing => Action::Jumping(Jumps(0)),
        Action::Jumping(Jumps(n)) => if n < 2 {
            Action::Jumping(Jumps(n + 1))
        } else {
            Action::Falling(Jumps(2))
        },
        Action::Falling(Jumps(n)) => if n < 2 {
            Action::Jumping(Jumps(n + 1))
        } else {
            Action::Falling(Jumps(2))
        },
        Action::NAiring(Jumps(n)) => if n == 0 {
            Action::Jumping(Jumps(0))
        } else if n < 2 {
            Action::Jumping(Jumps(n + 1))
        } else {
            Action::Falling(Jumps(2))
        },
    };
    (last_o, a)
}

/// The full transition table, keyed by command. Tilts fall back to the jab
/// transition and a crouch to the neutral one until those moves get frame
/// data of their own; crawls move the fighter like plain walking here, and
/// physics adds their extra fall speed.
pub open spec fn transition_spec(last_o: Orientation, last_a: Action, intent: IntentKind) -> (
    Orientation,
    Action,
) {
    match intent {
        IntentKind::Neutral => modify_neutral_spec(last_o, last_a),
        IntentKind::GoRight => modify_go_right_spec(last_o, last_a),
        IntentKind::GoLeft => modify_go_left_spec(last_o, last_a),
        IntentKind::Jab => modify_jab_spec(last_o, last_a),
        IntentKind::LeftTilt => modify_jab_spec(last_o, last_a),
        IntentKind::RightTilt => modify_jab_spec(last_o, last_a),
        IntentKind::DownTilt => modify_jab_spec(last_o, last_a),
        IntentKind::Jump => modify_jump_spec(last_o, last_a),
        IntentKind::Crouch => modify_neutral_spec(last_o, last_a),
        IntentKind::CrawlRight => modify_go_right_spec(last_o, last_a),
        IntentKind::CrawlLeft => modify_go_left_spec(last_o, last_a),
    }
}

/// What the transition table answers: `Some` of the new facing and action
/// when either changes, `None` when the pair stays exactly as it was.
pub open spec fn new_stance_spec(
    last_o: Orientation,
    last_a: Action,
    intent: IntentKind,
) -> Option<(Orientation, Action)> {
    let r = transition_spec(last_o, last_a, intent);
    if r.0 != last_o || r.1 != last_a {
        Some(r)
    } else {
        None
    }
}

/// Consults the transition table. Total: every action and command pair has a
/// defined answer, whatever jump count the action carries.
pub fn new_stance(last_o: Orientation, last_a: Action, intent: &Intent) -> (r: Option<
    (Orientation, Action),
>)
    ensures
        r == new_stance_spec(last_o, last_a, intent.0),
{
    let res = match intent.0 {
        IntentKind::Neutral => modify_neutral(last_o, last_a),
        IntentKind::GoRight => modify_go_right(last_o, last_a),
        IntentKind::GoLeft => modify_go_left(last_o, last_a),
        IntentKind::Jab => modify_jab(last_o, last_a),
        IntentKind::LeftTilt => modify_jab(last_o, last_a),
        IntentKind::RightTilt => modify_jab(last_o, last_a),
        IntentKind::DownTilt => modify_jab(last_o, last_a),
        IntentKind::Jump => modify_jump(last_o, last_a),
        IntentKind::Crouch => modify_neutral(last_o, last_a),
        IntentKind::CrawlRight => modify_go_right(last_o, last_a),
        IntentKind::CrawlLeft => modify_go_left(last_o, last_a),
    };
    if res.0 != last_o || res.1 != last_a {
        Some(res)
    } else {
        None
    }
}

/// A frame counter one past its wrap point starts over.
pub open spec fn wrap_inc(c: u8) -> u8 {
    if c == 255 {
        0
    } else {
        (c + 1) as u8
    }
}

/// The countdown after one tick: while frames remain, one is burnt.
pub open spec fn countdown_phase(s: FightingStance) -> FightingStance {
    if s.countdown > 0 {
        FightingStance { countdown: (s.countdown - 1) as i8, ..s }
    } else {
        s
    }
}

/// Whether the scripted timeout fires this tick: only when the frame budget
/// has just run down to zero.
pub open spec fn timeout_fires(s: FightingStance) -> bool {
    countdown_phase(s).countdown == 0
}

/// Steps one through three of the tick: burn a frame, then either take the
/// scripted timeout, or — while the budget is indefinite — consult the
/// transition table, resetting the counters whenever the stance changes.
pub open spec fn transition_phase(s: FightingStance, intent: IntentKind) -> FightingStance {
    let s1 = countdown_phase(s);
    if s1.countdown == 0 {
        let a = timeout_action_spec(s1.action);
        FightingStance {
            orientation: s1.orientation,
            action: a,
            countdown: num_countdown_frames_spec(a),
            countup: 0,
        }
    } else if s1.countdown < 0 {
        match new_stance_spec(s1.orientation, s1.action, intent) {
            Some(oa) => FightingStance {
                orientation: oa.0,
                action: oa.1,
                countdown: num_countdown_frames_spec(oa.1),
                countup: 0,
            },
            None => FightingStance { countup: wrap_inc(s1.countup), ..s1 },
        }
    } else {
        FightingStance { countup: wrap_inc(s1.countup), ..s1 }
    }
}

/// Step four of the tick: a fighter with no supporting platform that is not
/// already airborne falls, losing its jump count; a supported fighter in an
/// airborne action other than the single-frame launch lands and stands.
pub open spec fn ground_correction(s: FightingStance, supported: bool) -> FightingStance {
    if !supported && !is_aerial_spec(s.action) {
        FightingStance {
            orientation: s.orientation,
            action: Action::Falling(Jumps(0)),
            countdown: -1i8,
            countup: 0,
        }
    } else if supported && is_aerial_spec(s.action) && !(s.action is Jumping) {
        FightingStance {
            orientation: s.orientation,
            action: Action::Standing,
            countdown: -1i8,
            countup: 0,
        }
    } else {
        s
    }
}

/// The whole stance tick: countdown, timeout, intent transition, then the
/// grounded/airborne correction, in that fixed order.
pub open spec fn stance_step_spec(
    s: FightingStance,
    intent: IntentKind,
    supported: bool,
) -> FightingStance {
    ground_correction(transition_phase(s, intent), supported)
}

/// Advances one fighter's stance by one tick. `supported` says whether the
/// fighter currently rests on a platform.
pub fn stance_step(stance: &mut FightingStance, intent: &Intent, supported: bool)
    ensures
        *final(stance) == stance_step_spec(*old(stance), intent.0, supported),
        stance_wf(*old(stance)) ==> stance_wf(*final(stance)),
{
    if stance.countdown > 0 {
        stance.countdown = stance.countdown - 1;
    }
    if stance.countdown == 0 {
        let a = timeout_action(stance.action);
        stance.action = a;
        stance.countdown = num_countdown_frames(a);
        stance.countup = 0;
    } else if stance.countdown < 0 {
        match new_stance(stance.orientation, stance.action, intent) {
            Some((new_o, new_a)) => {
                stance.orientation = new_o;
                stance.action = new_a;
                stance.countdown = num_countdown_frames(new_a);
                stance.countup = 0;
            },
            None => {
                stance.countup = if stance.countup == 255 {
                    0
                } else {
                    stance.countup + 1
                };
            },
        }
    } else {
        stance.countup = if stance.countup == 255 {
            0
        } else {
            stance.countup + 1
        };
    }
    let aerial = is_aerial(stance.action);
    let jumping = match stance.action {
        Action::Jumping(_) => true,
        _ => false,
    };
    if !supported && !aerial {
        stance.action = Action::Falling(Jumps(0));
        stance.countdown = -1;
        stance.countup = 0;
    } else if supported && aerial && !jumping {
        stance.action = Action::Standing;
        stance.countdown = -1;
        stance.countup = 0;
    }
}

/// An action whose frame budget reads indefinite never self-transitions via
/// timeout: the scripted successor is consulted only when a finite budget
/// has just run out.
pub proof fn lemma_timeout_idempotent(s: FightingStance, intent: IntentKind)
    requires
        s.countdown == -1,
    ensures
        !timeout_fires(s),
        transition_phase(s, intent).action == match new_stance_spec(
            s.orientation,
            s.action,
            intent,
        ) {
            Some(oa) => oa.1,
            None => s.action,
        },
{
}

/// The transition table preserves the jump-count bound, and a jump command
/// never mints a jump count above two whatever count it starts from.
pub proof fn lemma_transition_preserves_wf(last_o: Orientation, last_a: Action, intent: IntentKind)
    ensures
        action_wf(last_a) ==> action_wf(transition_spec(last_o, last_a, intent).1),
        intent == IntentKind::Jump ==> action_wf(transition_spec(last_o, last_a, intent).1),
{
}

/// Jump cap: from standing, four consecutive jump commands spend at most two
/// jumps. The first launches jump zero, the second and third spend jumps one
/// and two, and the fourth finds no jump left and leaves the fighter falling
/// with both jumps spent — there is never a third airborne jump.
pub proof fn lemma_jump_cap(o: Orientation)
    ensures
        ({
            let s1 = transition_spec(o, Action::Standing, IntentKind::Jump);
            let s2 = transition_spec(s1.0, s1.1, IntentKind::Jump);
            let s3 = transition_spec(s2.0, s2.1, IntentKind::Jump);
            let s4 = transition_spec(s3.0, s3.1, IntentKind::Jump);
            s1.1 == Action::Jumping(Jumps(0)) && s2.1 == Action::Jumping(Jumps(1)) && s3.1
                == Action::Jumping(Jumps(2)) && s4.1 == Action::Falling(Jumps(2))
        }),
{
}

} // verus!
