//! Deterministic integer physics.
//!
//! Fighters and platforms share one discrete coordinate space with no
//! sub-unit precision, so every peer that replays the same inputs computes
//! bit-identical positions. Per tick: the stance and command fix velocity and
//! acceleration, movement integrates position (resolving platform collisions
//! while falling), and only then does acceleration integrate velocity, so
//! velocity changes take effect the next tick.

use vstd::math::abs;
use vstd::prelude::*;

use crate::action::{is_aerial, is_aerial_spec, stops_movement, stops_movement_spec, Action,
    Orientation};
use crate::intent::{Intent, IntentKind};
use crate::stance::FightingStance;

verus! {

/// A fighter's reference point in the shared integer coordinate space.
#[derive(Clone, Copy, Debug, PartialEq, Eq, Structural)]
pub struct Position {
    pub x: i32,
    pub y: i32,
}

/// Units of displacement per tick.
#[derive(Clone, Copy, Debug, PartialEq, Eq, Structural)]
pub struct Velocity {
    pub x: i32,
    pub y: i32,
}

/// Units of velocity change per tick.
#[derive(Clone, Copy, Debug, PartialEq, Eq, Structural)]
pub struct Acceleration {
    pub x: i32,
    pub y: i32,
}

/// Identifies one platform of the immutable level.
#[derive(Clone, Copy, Debug, PartialEq, Eq, Structural)]
pub struct PlatformId(pub u32);

/// A static platform: fighters rest on the top edge, which spans
/// `[x, x + width)` at height `y`.
#[derive(Clone, Copy, Debug, PartialEq, Eq, Structural)]
pub struct Platform {
    pub x: i32,
    pub y: i32,
    pub width: i32,
    pub id: PlatformId,
}

/// Whether a fighter whose reference point is at `(px, py)` rests on the
/// platform's top edge: horizontally within `[x, x + width)` and vertically
/// at the edge itself.
pub open spec fn on_plat(px: int, py: int, plat: Platform) -> bool {
    plat.x <= px < plat.x + plat.width && py == plat.y
}

pub fn fighter_is_on_plat(position: &Position, plat: &Platform) -> (r: bool)
    ensures
        r == on_plat(position.x as int, position.y as int, *plat),
{
    let px = position.x as i64;
    let py = position.y as i64;
    plat.x as i64 <= px && px < plat.x as i64 + plat.width as i64 && py == plat.y as i64
}

/// Whether the fighter counts as supported: it must both hold a standing-on
/// reference and actually rest on some platform of the level.
pub open spec fn supported_spec(
    pos: Position,
    standing_on: Option<PlatformId>,
    plats: Seq<Platform>,
) -> bool {
    standing_on is Some && exists|i: int|
        0 <= i < plats.len() && on_plat(pos.x as int, pos.y as int, plats[i])
}

pub fn is_supported(
    position: &Position,
    standing_on: &Option<PlatformId>,
    platforms: &Vec<Platform>,
) -> (r: bool)
    ensures
        r == supported_spec(*position, *standing_on, platforms@),
{
    if standing_on.is_none() {
        return false;
    }
    let mut i: usize = 0;
    while i < platforms.len()
        invariant
            i <= platforms.len(),
            standing_on is Some,
            forall|j: int| 0 <= j < i ==> !on_plat(position.x as int, position.y as int,
                platforms@[j]),
        decreases platforms.len() - i,
    {
        if fighter_is_on_plat(position, &platforms[i]) {
            proof {
                assert(on_plat(position.x as int, position.y as int, platforms@[i as int]));
            }
            return true;
        }
        i = i + 1;
    }
    false
}

/// Falling faster than this is clamped, and gravity is switched off at the
/// cap.
pub const TERMINAL_VELOCITY: i32 = 20;

/// The upward velocity a launch imparts on the tick an action becomes a
/// jump.
pub const JUMP_VELOCITY: i32 = 18;

/// What the stance and the tick's command make of velocity and acceleration,
/// before movement runs. Standing and jabbing pin the fighter; airborne
/// actions feel unit gravity, drift laterally on movement commands, and fall
/// faster on crouch or crawl commands; walking paces the fighter by its
/// facing; the single-frame launch sets the upward jump velocity and drops
/// the standing-on reference. Last, vertical speed beyond the terminal cap
/// is clamped and gravity zeroed, whichever branch set it.
pub open spec fn physical_props_spec(
    stance: FightingStance,
    intent: IntentKind,
    vel: Velocity,
    acc: Acceleration,
    standing_on: Option<PlatformId>,
) -> (Velocity, Acceleration, Option<PlatformId>) {
    let va = if stops_movement_spec(stance.action) {
        (Velocity { x: 0i32, y: 0i32 }, Acceleration { x: 0i32, y: 0i32 })
    } else if is_aerial_spec(stance.action) {
        let a1 = Acceleration { x: acc.x, y: -1i32 };
        match intent {
            IntentKind::GoRight => (Velocity { x: 2i32, y: vel.y }, a1),
            IntentKind::GoLeft => (Velocity { x: -2i32, y: vel.y }, a1),
            IntentKind::CrawlRight => (
                Velocity { x: 2i32, y: vel.y },
                Acceleration { x: acc.x, y: -3i32 },
            ),
            IntentKind::CrawlLeft => (
                Velocity { x: -2i32, y: vel.y },
                Acceleration { x: acc.x, y: -3i32 },
            ),
            IntentKind::Crouch => (vel, Acceleration { x: acc.x, y: -3i32 }),
            _ => (vel, a1),
        }
    } else {
        (vel, acc)
    };
    let vas = if stance.action == Action::Walking {
        let vx = if stance.orientation == Orientation::Left {
            -3i32
        } else {
            3i32
        };
        (Velocity { x: vx, y: 0i32 }, Acceleration { x: 0i32, y: 0i32 }, standing_on)
    } else if stance.action is Jumping {
        (Velocity { x: va.0.x, y: JUMP_VELOCITY }, va.1, None::<PlatformId>)
    } else {
        (va.0, va.1, standing_on)
    };
    if vas.0.y > TERMINAL_VELOCITY {
        (
            Velocity { x: vas.0.x, y: TERMINAL_VELOCITY },
            Acceleration { x: vas.1.x, y: 0i32 },
            vas.2,
        )
    } else if vas.0.y < -TERMINAL_VELOCITY {
        (
            Velocity { x: vas.0.x, y: (-TERMINAL_VELOCITY) as i32 },
            Acceleration { x: vas.1.x, y: 0i32 },
            vas.2,
        )
    } else {
        vas
    }
}

/// Derives this tick's velocity and acceleration from the stance and the
/// command, dropping the standing-on reference on the launch tick.
pub fn set_physical_props(
    stance: &FightingStance,
    intent: &Intent,
    vel: &mut Velocity,
    acc: &mut Acceleration,
    standing_on: &mut Option<PlatformId>,
) -> (jumped: bool)
    ensures
        (*final(vel), *final(acc), *final(standing_on)) == physical_props_spec(
            *stance,
            intent.0,
            *old(vel),
            *old(acc),
            *old(standing_on),
        ),
        jumped == (stance.action is Jumping),
{
    if stops_movement(stance.action) {
        acc.x = 0;
        acc.y = 0;
        vel.x = 0;
        vel.y = 0;
    } else if is_aerial(stance.action) {
        acc.y = -1;
        match intent.0 {
            IntentKind::GoRight => {
                vel.x = 2;
            },
            IntentKind::GoLeft => {
                vel.x = -2;
            },
            IntentKind::CrawlRight => {
                vel.x = 2;
                acc.y = -3;
            },
            IntentKind::CrawlLeft => {
                vel.x = -2;
                acc.y = -3;
            },
            IntentKind::Crouch => {
                acc.y = -3;
            },
            _ => {},
        }
    }
    let mut jumped = false;
    if stance.action == Action::Walking {
        acc.x = 0;
        acc.y = 0;
        vel.y = 0;
        match stance.orientation {
            Orientation::Left => {
                vel.x = -3;
            },
            Orientation::Right => {
                vel.x = 3;
            },
        }
    } else {
        match stance.action {
            Action::Jumping(_) => {
                *standing_on = None;
                vel.y = JUMP_VELOCITY;
                jumped = true;
            },
            _ => {},
        }
    }
    if vel.y > TERMINAL_VELOCITY {
        vel.y = TERMINAL_VELOCITY;
        acc.y = 0;
    } else if vel.y < -TERMINAL_VELOCITY {
        vel.y = -TERMINAL_VELOCITY;
        acc.y = 0;
    }
    jumped
}

/// The unit step toward a velocity component.
pub open spec fn sgn(v: int) -> int {
    if v > 0 {
        1
    } else if v < 0 {
        -1
    } else {
        0
    }
}

/// One unit step along the discretized displacement line of `(vx, vy)`:
/// whichever axis has fallen behind the exact line advances, compared by
/// cross-multiplied error so that no division is needed.
pub open spec fn advance_offset(vx: int, vy: int, ox: int, oy: int) -> (int, int) {
    if vx == 0 {
        (ox, oy + sgn(vy))
    } else if vy == 0 {
        (ox + sgn(vx), oy)
    } else if abs(oy * vx) >= abs(vy * ox) {
        (ox + sgn(vx), oy)
    } else {
        (ox, oy + sgn(vy))
    }
}

/// The offset from the start after `k` unit steps along the line of
/// `(vx, vy)`.
pub open spec fn offset_at(vx: int, vy: int, k: nat) -> (int, int)
    decreases k,
{
    if k == 0 {
        (0, 0)
    } else {
        let p = offset_at(vx, vy, (k - 1) as nat);
        advance_offset(vx, vy, p.0, p.1)
    }
}

/// How many unit steps one tick's travel spans.
pub open spec fn total_steps(vx: int, vy: int) -> nat {
    (abs(vx) + abs(vy)) as nat
}

/// Whether the fighter, displaced `k` steps from `pos` along the line of
/// `(vx, vy)`, rests on some platform of the level.
pub open spec fn hit_at(pos: Position, vx: int, vy: int, plats: Seq<Platform>, k: nat) -> bool {
    exists|i: int|
        0 <= i < plats.len() && on_plat(
            pos.x + offset_at(vx, vy, k).0,
            pos.y + offset_at(vx, vy, k).1,
            plats[i],
        )
}

/// The first step at or after `k`, within the travel bound, at which the
/// fighter rests on some platform.
pub open spec fn first_hit_from(
    pos: Position,
    vx: int,
    vy: int,
    plats: Seq<Platform>,
    k: nat,
) -> Option<nat>
    decreases total_steps(vx, vy) + 1 - k,
{
    if k > total_steps(vx, vy) {
        None
    } else if hit_at(pos, vx, vy, plats, k) {
        Some(k)
    } else {
        first_hit_from(pos, vx, vy, plats, (k + 1) as nat)
    }
}

/// The first platform, in level order, on which the point rests.
pub open spec fn first_plat_from(px: int, py: int, plats: Seq<Platform>, i: nat) -> Option<int>
    decreases plats.len() - i,
{
    if i >= plats.len() {
        None
    } else if on_plat(px, py, plats[i as int]) {
        Some(i as int)
    } else {
        first_plat_from(px, py, plats, (i + 1) as nat)
    }
}

/// The collision `first_collision` reports: the clamped position at the
/// first step of the displacement line on which the fighter rests on some
/// platform, together with the first such platform in level order; `None`
/// when no step within this tick's travel rests on any platform.
pub open spec fn collision_spec(pos: Position, vel: Velocity, plats: Seq<Platform>) -> Option<
    (PlatformId, Position),
> {
    match first_hit_from(pos, vel.x as int, vel.y as int, plats, 0) {
        None => None,
        Some(k) => {
            let off = offset_at(vel.x as int, vel.y as int, k);
            let px = pos.x + off.0;
            let py = pos.y + off.1;
            match first_plat_from(px, py, plats, 0) {
                Some(i) => Some((plats[i].id, Position { x: px as i32, y: py as i32 })),
                None => None,
            }
        },
    }
}

/// Within the travel bound the stepped offset never overshoots either
/// velocity component, moves only toward it, and each step adds exactly one
/// unit of displacement.
pub proof fn lemma_offset_bounds(vx: int, vy: int, k: nat)
    requires
        vy != 0,
        k <= total_steps(vx, vy),
    ensures
        abs(offset_at(vx, vy, k).0) + abs(offset_at(vx, vy, k).1) == k,
        if vx >= 0 {
            0 <= offset_at(vx, vy, k).0 <= vx
        } else {
            vx <= offset_at(vx, vy, k).0 <= 0
        },
        if vy >= 0 {
            0 <= offset_at(vx, vy, k).1 <= vy
        } else {
            vy <= offset_at(vx, vy, k).1 <= 0
        },
    decreases k,
{
    if k > 0 {
        lemma_offset_bounds(vx, vy, (k - 1) as nat);
        let ox = offset_at(vx, vy, (k - 1) as nat).0;
        let oy = offset_at(vx, vy, (k - 1) as nat).1;
        assert(abs(oy * vx) == abs(oy) * abs(vx)) by (nonlinear_arith);
        assert(abs(vy * ox) == abs(vy) * abs(ox)) by (nonlinear_arith);
        if vx != 0 {
            if abs(oy * vx) >= abs(vy * ox) {
                if abs(ox) == abs(vx) {
                    assert(abs(oy) >= abs(vy)) by (nonlinear_arith)
                        requires
                            abs(oy) * abs(vx) >= abs(vy) * abs(vx),
                            abs(vx) > 0,
                    ;
                    assert(false);
                }
            } else {
                if abs(oy) == abs(vy) {
                    assert(abs(oy) * abs(vx) >= abs(vy) * abs(ox)) by (nonlinear_arith)
                        requires
                            abs(oy) == abs(vy),
                            abs(ox) <= abs(vx),
                            0 <= abs(vy),
                            0 <= abs(ox),
                    ;
                    assert(false);
                }
            }
        }
    }
}

/// What the platform search answers at one point: the first platform in
/// level order holding the point, each earlier platform missing it; or that
/// every platform misses it.
pub proof fn lemma_first_plat_from_props(px: int, py: int, plats: Seq<Platform>, i: nat)
    ensures
        match first_plat_from(px, py, plats, i) {
            Some(j) => i <= j < plats.len() && on_plat(px, py, plats[j]) && (forall|l: int|
                i <= l < j ==> !on_plat(px, py, plats[l])),
            None => forall|l: int| i <= l < plats.len() ==> !on_plat(px, py, plats[l]),
        },
    decreases plats.len() + 1 - i,
{
    if i < plats.len() && !on_plat(px, py, plats[i as int]) {
        lemma_first_plat_from_props(px, py, plats, (i + 1) as nat);
    }
}

/// What the step search answers: the first step at which the fighter rests
/// on some platform, every earlier step missing all of them; or that every
/// step within the travel bound misses.
pub proof fn lemma_first_hit_from_props(
    pos: Position,
    vx: int,
    vy: int,
    plats: Seq<Platform>,
    k: nat,
)
    ensures
        match first_hit_from(pos, vx, vy, plats, k) {
            Some(h) => k <= h <= total_steps(vx, vy) && hit_at(pos, vx, vy, plats, h) && (forall|
                j: nat,
            |
                k <= j < h ==> !hit_at(pos, vx, vy, plats, j)),
            None => forall|j: nat|
                k <= j <= total_steps(vx, vy) ==> !hit_at(pos, vx, vy, plats, j),
        },
    decreases total_steps(vx, vy) + 1 - k,
{
    if k <= total_steps(vx, vy) && !hit_at(pos, vx, vy, plats, k) {
        lemma_first_hit_from_props(pos, vx, vy, plats, (k + 1) as nat);
    }
}

/// Nearest collision wins: when the collision search reports a platform, the
/// reported point lies at the first step of the displacement line on which
/// the fighter rests on any platform — no platform reachable with a smaller
/// displacement is passed over; and when it reports none, no step within
/// this tick's travel rests on any platform.
pub proof fn lemma_nearest_collision(pos: Position, vel: Velocity, plats: Seq<Platform>)
    ensures
        match first_hit_from(pos, vel.x as int, vel.y as int, plats, 0) {
            Some(h) => hit_at(pos, vel.x as int, vel.y as int, plats, h) && (forall|j: nat|
                j < h ==> !hit_at(pos, vel.x as int, vel.y as int, plats, j)),
            None => forall|j: nat|
                j <= total_steps(vel.x as int, vel.y as int) ==> !hit_at(
                    pos,
                    vel.x as int,
                    vel.y as int,
                    plats,
                    j,
                ),
        },
{
    lemma_first_hit_from_props(pos, vel.x as int, vel.y as int, plats, 0);
}

/// A reported collision clamps the fighter exactly onto the reported
/// platform's top edge — the landing height is the platform's own height,
/// never a unit above or below it.
pub proof fn lemma_collision_point_on_platform(pos: Position, vel: Velocity, plats: Seq<Platform>)
    requires
        vel.y < 0,
        i32::MIN <= pos.x + vel.x <= i32::MAX,
        i32::MIN <= pos.y + vel.y,
        collision_spec(pos, vel, plats) is Some,
    ensures
        exists|i: int|
            0 <= i < plats.len() && plats[i].id == collision_spec(pos, vel, plats)->Some_0.0
                && on_plat(
                collision_spec(pos, vel, plats)->Some_0.1.x as int,
                collision_spec(pos, vel, plats)->Some_0.1.y as int,
                plats[i],
            ),
{
    let vx = vel.x as int;
    let vy = vel.y as int;
    lemma_first_hit_from_props(pos, vx, vy, plats, 0);
    let k = first_hit_from(pos, vx, vy, plats, 0)->Some_0;
    lemma_offset_bounds(vx, vy, k);
    let off = offset_at(vx, vy, k);
    let px = pos.x + off.0;
    let py = pos.y + off.1;
    assert(i32::MIN <= px <= i32::MAX);
    assert(i32::MIN <= py <= i32::MAX);
    lemma_first_plat_from_props(px, py, plats, 0);
    assert(first_plat_from(px, py, plats, 0) is Some) by {
        if first_plat_from(px, py, plats, 0) is None {
            let w = choose|i: int| 0 <= i < plats.len() && on_plat(px, py, plats[i]);
            assert(on_plat(px, py, plats[w]));
        }
    }
    let i = first_plat_from(px, py, plats, 0)->Some_0;
    assert(plats[i].id == collision_spec(pos, vel, plats)->Some_0.0);
    assert(on_plat(
        collision_spec(pos, vel, plats)->Some_0.1.x as int,
        collision_spec(pos, vel, plats)->Some_0.1.y as int,
        plats[i],
    ));
}

fn find_platform(px: i64, py: i64, platforms: &Vec<Platform>) -> (r: Option<usize>)
    ensures
        match r {
            Some(i) => i < platforms.len() && first_plat_from(px as int, py as int, platforms@, 0)
                == Some(i as int),
            None => first_plat_from(px as int, py as int, platforms@, 0) is None,
        },
{
    let mut i: usize = 0;
    while i < platforms.len()
        invariant
            i <= platforms.len(),
            first_plat_from(px as int, py as int, platforms@, 0) == first_plat_from(
                px as int,
                py as int,
                platforms@,
                i as nat,
            ),
        decreases platforms.len() - i,
    {
        let plat = platforms[i];
        if plat.x as i64 <= px && px < plat.x as i64 + plat.width as i64 && py == plat.y as i64 {
            proof {
                assert(on_plat(px as int, py as int, platforms@[i as int]));
            }
            return Some(i);
        }
        i = i + 1;
    }
    None
}

/// Finds the first platform collision along this tick's displacement,
/// stepping one unit at a time along the discretized line of the velocity so
/// that no floating point enters the computation. The nearest collision wins:
/// the reported point is the first step on which the fighter rests on any
/// platform, and the reported platform is the first in level order at that
/// point (see `lemma_nearest_collision`).
pub fn first_collision(position: &Position, velocity: &Velocity, platforms: &Vec<Platform>) -> (r:
    Option<(PlatformId, Position)>)
    requires
        velocity.y < 0,
        i32::MIN <= position.x + velocity.x <= i32::MAX,
        i32::MIN <= position.y + velocity.y,
    ensures
        r == collision_spec(*position, *velocity, platforms@),
{
    let ghost vxi = velocity.x as int;
    let ghost vyi = velocity.y as int;
    let vx = velocity.x as i64;
    let vy = velocity.y as i64;
    let x_step: i64 = if vx > 0 {
        1
    } else if vx < 0 {
        -1
    } else {
        0
    };
    let vx_abs: i64 = if vx < 0 {
        -vx
    } else {
        vx
    };
    let total: i64 = vx_abs + (-vy);
    let mut ox: i64 = 0;
    let mut oy: i64 = 0;
    let mut k: i64 = 0;
    while k <= total
        invariant
            velocity.y < 0,
            vxi == velocity.x as int,
            vyi == velocity.y as int,
            vx == velocity.x as i64,
            vy == velocity.y as i64,
            x_step == sgn(vxi),
            total == total_steps(vxi, vyi),
            0 <= k <= total + 1,
            ox as int == offset_at(vxi, vyi, k as nat).0,
            oy as int == offset_at(vxi, vyi, k as nat).1,
            -(abs(vxi) + 1) <= ox as int <= abs(vxi) + 1,
            -(abs(vyi) + 1) <= oy as int <= 0,
            forall|j: nat| j < k as nat ==> !hit_at(*position, vxi, vyi, platforms@, j),
            first_hit_from(*position, vxi, vyi, platforms@, 0) == first_hit_from(
                *position,
                vxi,
                vyi,
                platforms@,
                k as nat,
            ),
            i32::MIN <= position.x + velocity.x <= i32::MAX,
            i32::MIN <= position.y + velocity.y,
        decreases total + 1 - k,
    {
        proof {
            lemma_offset_bounds(vxi, vyi, k as nat);
        }
        let px: i64 = position.x as i64 + ox;
        let py: i64 = position.y as i64 + oy;
        match find_platform(px, py, platforms) {
            Some(idx) => {
                proof {
                    lemma_first_plat_from_props(px as int, py as int, platforms@, 0);
                    assert(px as int == position.x + offset_at(vxi, vyi, k as nat).0);
                    assert(py as int == position.y + offset_at(vxi, vyi, k as nat).1);
                    assert(hit_at(*position, vxi, vyi, platforms@, k as nat));
                    assert(first_hit_from(*position, vxi, vyi, platforms@, k as nat) == Some(
                        k as nat,
                    ));
                    assert(i32::MIN <= px as int <= i32::MAX);
                    assert(i32::MIN <= py as int <= i32::MAX);
                }
                let plat = platforms[idx];
                return Some((plat.id, Position { x: px as i32, y: py as i32 }));
            },
            None => {
                proof {
                    lemma_first_plat_from_props(px as int, py as int, platforms@, 0);
                    assert(!hit_at(*position, vxi, vyi, platforms@, k as nat)) by {
                        if hit_at(*position, vxi, vyi, platforms@, k as nat) {
                            let i = choose|i: int|
                                0 <= i < platforms@.len() && on_plat(
                                    position.x + offset_at(vxi, vyi, k as nat).0,
                                    position.y + offset_at(vxi, vyi, k as nat).1,
                                    platforms@[i],
                                );
                            assert(on_plat(px as int, py as int, platforms@[i]));
                        }
                    }
                }
            },
        }
        if vx == 0 {
            oy = oy - 1;
        } else {
            proof {
                assert(-0x4000_0000_0000_0000 <= oy * vx <= 0x4000_0000_0000_0000)
                    by (nonlinear_arith)
                    requires
                        -0x8000_0000 <= oy <= 0x8000_0000,
                        -0x8000_0000 <= vx <= 0x8000_0000,
                ;
                assert(-0x4000_0000_0000_0000 <= vy * ox <= 0x4000_0000_0000_0000)
                    by (nonlinear_arith)
                    requires
                        -0x8000_0000 <= vy <= 0x8000_0000,
                        -0x8000_0000 <= ox <= 0x8000_0000,
                ;
            }
            let lhs: i64 = oy * vx;
            let rhs: i64 = vy * ox;
            let lhs_abs: i64 = if lhs < 0 {
                -lhs
            } else {
                lhs
            };
            let rhs_abs: i64 = if rhs < 0 {
                -rhs
            } else {
                rhs
            };
            if lhs_abs >= rhs_abs {
                ox = ox + x_step;
            } else {
                oy = oy - 1;
            }
        }
        k = k + 1;
    }
    proof {
        assert(first_hit_from(*position, vxi, vyi, platforms@, k as nat) is None);
    }
    None
}

/// The position one tick of unobstructed travel reaches.
pub open spec fn add_vel(pos: Position, vel: Velocity) -> Position {
    Position { x: (pos.x + vel.x) as i32, y: (pos.y + vel.y) as i32 }
}

/// What one tick of movement does. On the launch tick the fighter travels
/// unobstructed and drops its standing-on reference. Otherwise, while
/// falling, the first platform collision along the travel clamps the
/// position there, attaches the platform, and lands an airborne fighter into
/// standing; with no collision, and always while not falling, the
/// displacement applies in full.
pub open spec fn movement_spec(
    pos: Position,
    vel: Velocity,
    stance: FightingStance,
    standing_on: Option<PlatformId>,
    plats: Seq<Platform>,
) -> (Position, FightingStance, Option<PlatformId>) {
    if stance.action is Jumping {
        (add_vel(pos, vel), stance, None::<PlatformId>)
    } else if vel.y < 0 {
        match collision_spec(pos, vel, plats) {
            Some(c) => (
                c.1,
                FightingStance {
                    action: if is_aerial_spec(stance.action) {
                        Action::Standing
                    } else {
                        stance.action
                    },
                    ..stance
                },
                Some(c.0),
            ),
            None => (add_vel(pos, vel), stance, standing_on),
        }
    } else {
        (add_vel(pos, vel), stance, standing_on)
    }
}

/// Integrates velocity into position for one tick, resolving platform
/// collisions while falling. Landing on a platform is the authoritative
/// landing edge: it attaches the standing-on reference the stance machine
/// reads next tick.
pub fn movement(
    position: &mut Position,
    velocity: &Velocity,
    stance: &mut FightingStance,
    standing_on: &mut Option<PlatformId>,
    platforms: &Vec<Platform>,
)
    requires
        i32::MIN <= old(position).x + velocity.x <= i32::MAX,
        i32::MIN <= old(position).y + velocity.y <= i32::MAX,
    ensures
        (*final(position), *final(stance), *final(standing_on)) == movement_spec(
            *old(position),
            *velocity,
            *old(stance),
            *old(standing_on),
            platforms@,
        ),
{
    let jumping = match stance.action {
        Action::Jumping(_) => true,
        _ => false,
    };
    if jumping {
        position.x = position.x + velocity.x;
        position.y = position.y + velocity.y;
        *standing_on = None;
    } else {
        let mut obstructed = false;
        if velocity.y < 0 {
            let start = *position;
            match first_collision(&start, velocity, platforms) {
                Some((plat_id, col_position)) => {
                    obstructed = true;
                    *standing_on = Some(plat_id);
                    *position = col_position;
                    if is_aerial(stance.action) {
                        stance.action = Action::Standing;
                    }
                },
                None => {},
            }
        }
        if !obstructed {
            position.x = position.x + velocity.x;
            position.y = position.y + velocity.y;
        }
    }
}

/// The velocity after one tick of acceleration.
pub open spec fn accelerate_spec(vel: Velocity, acc: Acceleration) -> Velocity {
    Velocity { x: (vel.x + acc.x) as i32, y: (vel.y + acc.y) as i32 }
}

/// Integrates acceleration into velocity; runs strictly after movement
/// within a tick, so velocity changes apply from the next tick on.
pub fn acceleration(velocity: &mut Velocity, acc: &Acceleration)
    requires
        i32::MIN <= old(velocity).x + acc.x <= i32::MAX,
        i32::MIN <= old(velocity).y + acc.y <= i32::MAX,
    ensures
        *final(velocity) == accelerate_spec(*old(velocity), *acc),
{
    velocity.x = velocity.x + acc.x;
    velocity.y = velocity.y + acc.y;
}

} // verus!
