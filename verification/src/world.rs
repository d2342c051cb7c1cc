//! Fighters, the level, and the full tick pipeline.
//!
//! `tick` advances one fighter through every phase of the pipeline in the
//! fixed order input → intent → stance → physics profile → movement →
//! acceleration → blast-zone check, and `world_tick` runs it for every
//! fighter. Each fighter's result depends only on its own persisted state,
//! its own input, and the immutable platforms, never on another fighter's
//! update, so the update order cannot influence the outcome.

use vstd::prelude::*;

use crate::death::{death_check, death_spec, Damage, Stocks};
use crate::input::{encode, encode_spec, CombinedInput, InputDiff};
use crate::intent::{intent_spec, resolve_intent};
use crate::physics::{acceleration, accelerate_spec, is_supported, movement, movement_spec,
    physical_props_spec, set_physical_props, supported_spec, Acceleration, Platform, PlatformId,
    Position, Velocity};
use crate::stance::{initial_stance, stance_step, stance_step_spec, stance_wf, FightingStance};

verus! {

/// Which player's inputs drive a fighter: an index into the per-tick input
/// list.
#[derive(Clone, Copy, Debug, PartialEq, Eq, Structural)]
pub struct PlayerId(pub usize);

/// One fighter's complete persisted state: everything a rollback snapshot
/// must carry to re-run the simulation from this tick.
#[derive(Clone, Copy, Debug, PartialEq, Eq)]
pub struct Fighter {
    pub allegiance: PlayerId,
    pub input_diff: InputDiff,
    pub stance: FightingStance,
    pub position: Position,
    pub velocity: Velocity,
    pub acceleration: Acceleration,
    pub standing_on: Option<PlatformId>,
    pub stocks: Stocks,
    pub damage: Damage,
}

/// The bounds every fighter state the simulation itself produces satisfies:
/// positions stay within the blast zone once the death check has run,
/// velocities within the lateral walk speed and the terminal fall speed plus
/// one tick of gravity, accelerations within gravity's strongest setting,
/// and a live fighter holds at least one stock.
pub open spec fn fighter_wf(f: Fighter) -> bool {
    &&& stance_wf(f.stance)
    &&& -720 <= f.position.x <= 720
    &&& -720 <= f.position.y <= 720
    &&& -3 <= f.velocity.x <= 3
    &&& -23 <= f.velocity.y <= 20
    &&& f.acceleration.x == 0
    &&& -3 <= f.acceleration.y <= 0
    &&& f.stocks.count >= 1
}

/// What one full tick makes of one fighter: the persisted edge state is
/// advanced by the raw input, the tick's command derived from it, the stance
/// machine stepped with the fighter's ground status, the physics profile
/// applied, position integrated with collision resolution, velocity
/// integrated, and last the blast-zone check run. `None` means the fighter
/// lost its final stock and despawns.
pub open spec fn tick_spec(f: Fighter, raw: CombinedInput, plats: Seq<Platform>) -> Option<
    Fighter,
> {
    let diff = InputDiff(encode_spec(f.input_diff.0, raw.0));
    let ik = intent_spec(diff.0);
    let supported = supported_spec(f.position, f.standing_on, plats);
    let stance1 = stance_step_spec(f.stance, ik, supported);
    let pva = physical_props_spec(stance1, ik, f.velocity, f.acceleration, f.standing_on);
    let mps = movement_spec(f.position, pva.0, stance1, pva.2, plats);
    let vel2 = accelerate_spec(pva.0, pva.1);
    match death_spec(mps.0, vel2, pva.1, f.stocks) {
        None => None,
        Some(pvas) => Some(
            Fighter {
                allegiance: f.allegiance,
                input_diff: diff,
                stance: mps.1,
                position: pvas.0,
                velocity: pvas.1,
                acceleration: pvas.2,
                standing_on: mps.2,
                stocks: pvas.3,
                damage: f.damage,
            },
        ),
    }
}

/// Advances one fighter by one full tick. Returns whether the fighter is
/// still alive; a despawned fighter is the caller's to remove.
pub fn tick(fighter: &mut Fighter, raw: &CombinedInput, platforms: &Vec<Platform>) -> (alive: bool)
    requires
        fighter_wf(*old(fighter)),
    ensures
        alive == (tick_spec(*old(fighter), *raw, platforms@) is Some),
        alive ==> Some(*final(fighter)) == tick_spec(*old(fighter), *raw, platforms@),
        alive ==> fighter_wf(*final(fighter)),
{
    fighter.input_diff = encode(raw, fighter.input_diff);
    let intent = resolve_intent(fighter.input_diff);
    let supported = is_supported(&fighter.position, &fighter.standing_on, platforms);
    stance_step(&mut fighter.stance, &intent, supported);
    let _jumped = set_physical_props(
        &fighter.stance,
        &intent,
        &mut fighter.velocity,
        &mut fighter.acceleration,
        &mut fighter.standing_on,
    );
    movement(
        &mut fighter.position,
        &fighter.velocity,
        &mut fighter.stance,
        &mut fighter.standing_on,
        platforms,
    );
    acceleration(&mut fighter.velocity, &fighter.acceleration);
    death_check(
        &mut fighter.position,
        &mut fighter.velocity,
        &mut fighter.acceleration,
        &mut fighter.stocks,
    )
}

/// The whole match state: the fighters still alive and the immutable level.
pub struct World {
    pub fighters: Vec<Fighter>,
    pub platforms: Vec<Platform>,
}

/// Every fighter of the world is well formed.
pub open spec fn world_wf(w: World) -> bool {
    forall|i: int| 0 <= i < w.fighters@.len() ==> fighter_wf(w.fighters@[i])
}

/// Every fighter's allegiance indexes into the tick's input list.
pub open spec fn inputs_cover(fighters: Seq<Fighter>, inputs: Seq<CombinedInput>) -> bool {
    forall|i: int| 0 <= i < fighters.len() ==> #[trigger] fighters[i].allegiance.0 < inputs.len()
}

/// The fighters that survive one world tick, their order kept, each
/// advanced by `tick_spec` under the input its allegiance selects.
pub open spec fn tick_all_spec(
    fighters: Seq<Fighter>,
    inputs: Seq<CombinedInput>,
    plats: Seq<Platform>,
    i: int,
) -> Seq<Fighter>
    decreases fighters.len() - i,
{
    if i < 0 || i >= fighters.len() {
        Seq::empty()
    } else {
        let rest = tick_all_spec(fighters, inputs, plats, i + 1);
        match tick_spec(fighters[i], inputs[fighters[i].allegiance.0 as int], plats) {
            Some(f) => seq![f] + rest,
            None => rest,
        }
    }
}

/// Advances every fighter by one tick, removing the fighters that despawn.
/// The result is a function of the fighters' own states, this tick's inputs,
/// and the platforms alone.
pub fn world_tick(world: &mut World, inputs: &Vec<CombinedInput>)
    requires
        world_wf(*old(world)),
        inputs_cover(old(world).fighters@, inputs@),
    ensures
        final(world).platforms == old(world).platforms,
        final(world).fighters@ == tick_all_spec(
            old(world).fighters@,
            inputs@,
            old(world).platforms@,
            0,
        ),
        world_wf(*final(world)),
{
    let ghost fighters0 = world.fighters@;
    let ghost inputs0 = inputs@;
    let ghost plats0 = world.platforms@;
    let mut out: Vec<Fighter> = Vec::new();
    let mut i: usize = 0;
    while i < world.fighters.len()
        invariant
            world.fighters@ == fighters0,
            world.platforms@ == plats0,
            inputs@ == inputs0,
            world_wf(*world),
            inputs_cover(fighters0, inputs0),
            i <= fighters0.len(),
            out@ + tick_all_spec(fighters0, inputs0, plats0, i as int) == tick_all_spec(
                fighters0,
                inputs0,
                plats0,
                0,
            ),
            forall|j: int| 0 <= j < out@.len() ==> fighter_wf(out@[j]),
        decreases fighters0.len() - i,
    {
        let mut f = world.fighters[i];
        let raw = inputs[f.allegiance.0];
        let alive = tick(&mut f, &raw, &world.platforms);
        if alive {
            out.push(f);
        }
        proof {
            assert(out@ + tick_all_spec(fighters0, inputs0, plats0, i + 1 as int) == tick_all_spec(
                fighters0,
                inputs0,
                plats0,
                0,
            )) by {
                if tick_spec(fighters0[i as int], inputs0[fighters0[i as int].allegiance.0 as int],
                    plats0) is Some {
                    assert(out@ =~= out@.drop_last() + seq![out@.last()]);
                    assert((out@.drop_last() + seq![out@.last()]) + tick_all_spec(
                        fighters0,
                        inputs0,
                        plats0,
                        i + 1 as int,
                    ) =~= out@.drop_last() + (seq![out@.last()] + tick_all_spec(
                        fighters0,
                        inputs0,
                        plats0,
                        i + 1 as int,
                    )));
                }
            }
        }
        i = i + 1;
    }
    world.fighters = out;
}

/// Determinism of one fighter's tick: the result is a pure function of the
/// fighter's persisted state, the tick's raw input, and the platforms — two
/// runs from equal states with equal inputs give equal results, which is
/// what lets the rollback layer re-simulate past ticks bit-exactly.
pub proof fn lemma_tick_deterministic(
    f1: Fighter,
    f2: Fighter,
    raw1: CombinedInput,
    raw2: CombinedInput,
    plats1: Seq<Platform>,
    plats2: Seq<Platform>,
)
    requires
        f1 == f2,
        raw1 == raw2,
        plats1 == plats2,
    ensures
        tick_spec(f1, raw1, plats1) == tick_spec(f2, raw2, plats2),
{
}

/// Determinism of the whole world step: re-running a tick from an equal
/// snapshot with the same input list reproduces the same fighters.
pub proof fn lemma_world_tick_deterministic(
    fighters1: Seq<Fighter>,
    fighters2: Seq<Fighter>,
    inputs1: Seq<CombinedInput>,
    inputs2: Seq<CombinedInput>,
    plats1: Seq<Platform>,
    plats2: Seq<Platform>,
)
    requires
        fighters1 == fighters2,
        inputs1 == inputs2,
        plats1 == plats2,
    ensures
        tick_all_spec(fighters1, inputs1, plats1, 0) == tick_all_spec(fighters2, inputs2, plats2, 0),
{
}

/// The level the match starts on: one platform centered under the spawn.
pub fn starting_platforms() -> (r: Vec<Platform>)
    ensures
        r@.len() == 1,
        r@[0] == (Platform { x: -50i32, y: 0i32, width: 100i32, id: PlatformId(0) }),
{
    let mut v: Vec<Platform> = Vec::new();
    v.push(Platform { x: -50, y: 0, width: 100, id: PlatformId(0) });
    v
}

impl Fighter {
    /// Checks the fighter bounds at run time, for callers outside the proof.
    pub fn is_well_formed(&self) -> (r: bool)
        ensures
            r == fighter_wf(*self),
    {
        crate::action::action_is_wf(self.stance.action) && self.stance.countdown >= -1
            && -720 <= self.position.x && self.position.x <= 720 && -720 <= self.position.y
            && self.position.y <= 720 && -3 <= self.velocity.x && self.velocity.x <= 3
            && -23 <= self.velocity.y && self.velocity.y <= 20 && self.acceleration.x == 0
            && -3 <= self.acceleration.y && self.acceleration.y <= 0 && self.stocks.count >= 1
    }

    /// A fighter as created at match start: standing stance, spawned above
    /// the starting platform, at rest, four stocks, no damage yet.
    pub fn new(allegiance: PlayerId) -> (r: Fighter)
        ensures
            r.allegiance == allegiance,
            r.input_diff.0 == 0,
            r.stance == initial_stance(),
            r.position == (Position { x: 0, y: 86 }),
            r.velocity == (Velocity { x: 0, y: 0 }),
            r.acceleration == (Acceleration { x: 0, y: 0 }),
            r.standing_on is None,
            r.stocks.count == 4,
            r.damage.percent == 0,
            fighter_wf(r),
    {
        Fighter {
            allegiance,
            input_diff: InputDiff::new(),
            stance: FightingStance::default(),
            position: Position { x: 0, y: 86 },
            velocity: Velocity { x: 0, y: 0 },
            acceleration: Acceleration { x: 0, y: 0 },
            standing_on: None,
            stocks: Stocks { count: 4 },
            damage: Damage { percent: 0 },
        }
    }
}

impl World {
    /// Checks every fighter's bounds at run time, for callers outside the
    /// proof.
    pub fn is_well_formed(&self) -> (r: bool)
        ensures
            r == world_wf(*self),
    {
        let mut i: usize = 0;
        while i < self.fighters.len()
            invariant
                i <= self.fighters@.len(),
                forall|j: int| 0 <= j < i ==> fighter_wf(self.fighters@[j]),
            decreases self.fighters@.len() - i,
        {
            if !self.fighters[i].is_well_formed() {
                return false;
            }
            i = i + 1;
        }
        true
    }

    /// The match-start world: the starting platform and one local fighter.
    pub fn match_start() -> (r: World)
        ensures
            r.fighters@.len() == 1,
            r.fighters@[0].allegiance.0 == 0,
            r.platforms@.len() == 1,
            world_wf(r),
    {
        let mut fighters: Vec<Fighter> = Vec::new();
        fighters.push(Fighter::new(PlayerId(0)));
        World { fighters, platforms: starting_platforms() }
    }
}

} // verus!
