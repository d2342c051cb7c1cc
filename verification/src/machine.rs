//! The per-character behaviour-override layer.
//!
//! Each fighter can carry a small ordered stack of behaviour handlers, most
//! specific last, consulted top-down for inputs and physics events. A handler
//! either remains — the stack's shared frame counters keep ticking — or
//! transitions, replacing everything above itself with a new child sequence
//! and resetting the shared countdown to a value looked up through the
//! character's capabilities. This lets a character override the generic
//! grounded/aerial behaviour without the generic code naming any character.

use vstd::prelude::*;

use crate::action::Jumps;
use crate::characteristics::{environment_countdown, environment_countdown_spec, Character};
use crate::input::{ButtonDiff, DiscreteInput};
use crate::stance::wrap_inc;

verus! {

/// Aerial overlay states a handler can sit in.
#[derive(Clone, Copy, Debug, PartialEq, Eq, Structural)]
pub enum AerialAction {
    Hopping,
    Jumping,
    Falling,
    FastFalling,
    CharacterAction,
}

/// How protected the fighter currently is, ordered from none upward. The
/// stack combines handlers' answers by taking the strongest.
#[derive(Clone, Copy, Debug, PartialEq, Eq, Structural)]
pub enum DefenseState {
    Normal,
    HyperArmour,
    Invincible,
}

impl DefenseState {
    /// The protection order as a number: higher protects more.
    pub open spec fn rank_spec(self) -> u8 {
        match self {
            DefenseState::Normal => 0,
            DefenseState::HyperArmour => 1,
            DefenseState::Invincible => 2,
        }
    }

    pub fn rank(self) -> (r: u8)
        ensures
            r == self.rank_spec(),
    {
        match self {
            DefenseState::Normal => 0,
            DefenseState::HyperArmour => 1,
            DefenseState::Invincible => 2,
        }
    }
}

/// The events physics reports to the machine stack.
#[derive(Clone, Copy, Debug, PartialEq, Eq, Structural)]
pub enum PhysicsEvent {
    FellOffPlat,
    LandedOnPlat,
    GotHit,
}

/// The grounded-layer handler states.
#[derive(Clone, Copy, Debug, PartialEq, Eq, Structural)]
pub enum GroundedState {
    Hopping,
    Crouching,
    Crawling,
    Walking,
    Dashing,
    Landing,
    CharacterAction,
}

/// The environment-layer handler state: airborne carrying a jump count, or
/// on the ground.
#[derive(Clone, Copy, Debug, PartialEq, Eq, Structural)]
pub enum EnvironmentState {
    Aerial(Jumps),
    Grounded,
}

/// One tick's button readings as the machine stack consumes them: a handler
/// that takes a button leaves nothing of it for the handlers below.
#[derive(Clone, Copy, Debug, PartialEq, Eq, Structural)]
pub struct MachineInput {
    pub jump: Option<ButtonDiff>,
    pub hit: Option<ButtonDiff>,
    pub left: Option<ButtonDiff>,
    pub right: Option<ButtonDiff>,
    pub down: Option<ButtonDiff>,
}

impl MachineInput {
    /// The reading still available for one button.
    pub open spec fn entry_spec(self, key: DiscreteInput) -> Option<ButtonDiff> {
        match key {
            DiscreteInput::Jump => self.jump,
            DiscreteInput::Hit => self.hit,
            DiscreteInput::Left => self.left,
            DiscreteInput::Right => self.right,
            DiscreteInput::Down => self.down,
        }
    }

    /// Takes one button's reading out of the tick's input, leaving none of
    /// it behind and touching no other button.
    pub fn consume(&mut self, key: DiscreteInput) -> (r: Option<ButtonDiff>)
        ensures
            r == old(self).entry_spec(key),
            final(self).entry_spec(key) is None,
            forall|k: DiscreteInput| k != key ==> final(self).entry_spec(k) == old(self).entry_spec(k),
    {
        match key {
            DiscreteInput::Jump => {
                let r = self.jump;
                self.jump = None;
                r
            },
            DiscreteInput::Hit => {
                let r = self.hit;
                self.hit = None;
                r
            },
            DiscreteInput::Left => {
                let r = self.left;
                self.left = None;
                r
            },
            DiscreteInput::Right => {
                let r = self.right;
                self.right = None;
                r
            },
            DiscreteInput::Down => {
                let r = self.down;
                self.down = None;
                r
            },
        }
    }
}

/// One handler of the stack: the environment layer that tracks whether the
/// fighter is grounded or airborne, and the grounded and aerial overlays
/// above it.
#[derive(Clone, Copy, Debug, PartialEq, Eq, Structural)]
pub enum Handler {
    Environment(EnvironmentState),
    Grounded(GroundedState),
    Aerial(AerialAction),
}

/// A transitioning handler's answer: the children that replace everything
/// above it (when given), and the fresh shared countdown.
#[derive(Debug)]
pub struct TransitionResult {
    pub children: Option<Vec<Handler>>,
    pub countdown: i8,
}

/// What a handler answers when consulted: keep ticking, or transition.
#[derive(Debug)]
pub enum MachineResult {
    Remain,
    Transition(TransitionResult),
}

/// The shared frame counters and the character identity the stack consults
/// for its capability lookups.
#[derive(Clone, Copy, Debug, PartialEq, Eq, Structural)]
pub struct MachineContext {
    pub character: Character,
    pub countdown: i8,
    pub countup: u8,
}

/// The per-character stack of behaviour handlers, most specific last, with
/// the shared counters they tick.
#[derive(Debug)]
pub struct HierarchicalMachine {
    pub machine_stack: Vec<Handler>,
    pub context: MachineContext,
}

/// What one handler makes of a physics event: `None` means it remains,
/// `Some((children, countdown))` that it transitions. The environment layer
/// swaps between grounded and aerial on the landing and fall edges — landing
/// pushes the grounded landing overlay, falling off a platform grants one
/// spent jump — with the fresh countdown looked up from the character. The
/// overlay layers let every event pass. What a hit does is deliberately not
/// decided yet, so a hit event must not be handed in.
pub open spec fn handler_event_spec(h: Handler, c: Character, ev: PhysicsEvent) -> (
    Handler,
    Option<(Seq<Handler>, i8)>,
) {
    match h {
        Handler::Environment(s) => match s {
            EnvironmentState::Aerial(j) => match ev {
                PhysicsEvent::FellOffPlat => (h, None),
                PhysicsEvent::LandedOnPlat => (
                    Handler::Environment(EnvironmentState::Grounded),
                    Some(
                        (
                            seq![Handler::Grounded(GroundedState::Landing)],
                            environment_countdown_spec(c, EnvironmentState::Grounded),
                        ),
                    ),
                ),
                PhysicsEvent::GotHit => (h, None),
            },
            EnvironmentState::Grounded => match ev {
                PhysicsEvent::FellOffPlat => (
                    Handler::Environment(EnvironmentState::Aerial(Jumps(1))),
                    Some(
                        (
                            Seq::empty(),
                            environment_countdown_spec(c, EnvironmentState::Aerial(Jumps(1))),
                        ),
                    ),
                ),
                PhysicsEvent::LandedOnPlat => (h, None),
                PhysicsEvent::GotHit => (h, None),
            },
        },
        Handler::Grounded(_) => (h, None),
        Handler::Aerial(_) => (h, None),
    }
}

impl Handler {
    /// Consults one handler with the tick's input. Every present handler
    /// remains and reads no button; a future character's handlers consume
    /// what they react to.
    fn consume_input(&mut self, context: &MachineContext, input: &mut MachineInput) -> (r:
        MachineResult)
        ensures
            *final(self) == *old(self),
            *final(input) == *old(input),
            r is Remain,
    {
        MachineResult::Remain
    }

    /// Consults one handler with a physics event.
    fn consume_physics_event(&mut self, context: &MachineContext, event: &PhysicsEvent) -> (r:
        MachineResult)
        requires
            !(*event is GotHit),
        ensures
            ({
                let step = handler_event_spec(*old(self), context.character, *event);
                &&& *final(self) == step.0
                &&& match step.1 {
                    None => r is Remain,
                    Some(t) => r matches MachineResult::Transition(tr) && tr.children matches Some(
                        cs,
                    ) && cs@ == t.0 && tr.countdown == t.1,
                }
            }),
    {
        match *self {
            Handler::Environment(EnvironmentState::Aerial(_)) => match event {
                PhysicsEvent::FellOffPlat => MachineResult::Remain,
                PhysicsEvent::LandedOnPlat => {
                    *self = Handler::Environment(EnvironmentState::Grounded);
                    let countdown = environment_countdown(
                        context.character,
                        &EnvironmentState::Grounded,
                    );
                    MachineResult::Transition(
                        TransitionResult {
                            children: Some(vec![Handler::Grounded(GroundedState::Landing)]),
                            countdown,
                        },
                    )
                },
                PhysicsEvent::GotHit => MachineResult::Remain,
            },
            Handler::Environment(EnvironmentState::Grounded) => match event {
                PhysicsEvent::FellOffPlat => {
                    let ns = EnvironmentState::Aerial(Jumps(1));
                    *self = Handler::Environment(ns);
                    let countdown = environment_countdown(context.character, &ns);
                    MachineResult::Transition(
                        TransitionResult { children: Some(Vec::new()), countdown },
                    )
                },
                PhysicsEvent::LandedOnPlat => MachineResult::Remain,
                PhysicsEvent::GotHit => MachineResult::Remain,
            },
            Handler::Grounded(_) => MachineResult::Remain,
            Handler::Aerial(_) => MachineResult::Remain,
        }
    }

    /// The protection one handler grants. None of the present handlers
    /// grants any.
    fn defense_state(&self) -> (r: DefenseState)
        ensures
            r == DefenseState::Normal,
    {
        match *self {
            Handler::Environment(_) => DefenseState::Normal,
            Handler::Grounded(_) => DefenseState::Normal,
            Handler::Aerial(_) => DefenseState::Normal,
        }
    }
}

/// The protection one handler grants: none, for every handler that exists so
/// far.
pub open spec fn handler_defense_spec(h: Handler) -> DefenseState {
    DefenseState::Normal
}

/// One remain-tick of the shared counters: the countup advances (wrapping)
/// and a non-negative countdown burns one frame, down to the indefinite
/// marker at the lowest.
pub open spec fn tick_context(ctx: MachineContext) -> MachineContext {
    MachineContext {
        character: ctx.character,
        countdown: if ctx.countdown >= 0 {
            (ctx.countdown - 1) as i8
        } else {
            ctx.countdown
        },
        countup: wrap_inc(ctx.countup),
    }
}

/// The shared counters after `n` remain-ticks.
pub open spec fn tick_context_n(ctx: MachineContext, n: nat) -> MachineContext
    decreases n,
{
    if n == 0 {
        ctx
    } else {
        tick_context(tick_context_n(ctx, (n - 1) as nat))
    }
}

/// What `n` remain-ticks amount to: the countdown sinks by one per tick
/// until it reaches the indefinite marker and stays there, and the countup
/// advances modulo its width.
pub proof fn lemma_tick_context_n_closed(ctx: MachineContext, n: nat)
    requires
        ctx.countdown >= -1,
    ensures
        tick_context_n(ctx, n).character == ctx.character,
        tick_context_n(ctx, n).countdown == if ctx.countdown - n >= -1 {
            (ctx.countdown - n) as i8
        } else {
            -1i8
        },
        tick_context_n(ctx, n).countup == ((ctx.countup + n) % 256) as u8,
    decreases n,
{
    if n > 0 {
        lemma_tick_context_n_closed(ctx, (n - 1) as nat);
    }
}

/// The stack and context after the handlers from index `idx` down to the
/// bottom have consumed a physics event. A remaining handler ticks the
/// shared counters once; a transitioning handler replaces everything above
/// itself with its children and resets the counters. Handlers below a
/// transition still see the same event.
pub open spec fn consume_event_spec(
    stack: Seq<Handler>,
    ctx: MachineContext,
    ev: PhysicsEvent,
    idx: int,
) -> (Seq<Handler>, MachineContext)
    decreases idx + 1,
{
    if idx < 0 || idx >= stack.len() {
        (stack, ctx)
    } else {
        let step = handler_event_spec(stack[idx], ctx.character, ev);
        let next = match step.1 {
            None => (stack.update(idx, step.0), tick_context(ctx)),
            Some(t) => (
                stack.take(idx + 1).update(idx, step.0) + t.0,
                MachineContext { character: ctx.character, countdown: t.1, countup: 0 },
            ),
        };
        consume_event_spec(next.0, next.1, ev, idx - 1)
    }
}

/// The shared countdown never sinks below the indefinite marker, whatever
/// event the stack consumes: a remain-tick stops burning frames at the
/// marker, and a transition resets the countdown through the capability
/// lookup, which grants at least the marker.
pub proof fn lemma_context_countdown_floor(
    stack: Seq<Handler>,
    ctx: MachineContext,
    ev: PhysicsEvent,
    idx: int,
)
    requires
        ctx.countdown >= -1,
    ensures
        consume_event_spec(stack, ctx, ev, idx).1.countdown >= -1,
    decreases idx + 1,
{
    if !(idx < 0 || idx >= stack.len()) {
        let step = handler_event_spec(stack[idx], ctx.character, ev);
        match step.1 {
            None => {
                lemma_context_countdown_floor(
                    stack.update(idx, step.0),
                    tick_context(ctx),
                    ev,
                    idx - 1,
                );
            },
            Some(t) => {
                lemma_context_countdown_floor(
                    stack.take(idx + 1).update(idx, step.0) + t.0,
                    MachineContext { character: ctx.character, countdown: t.1, countup: 0 },
                    ev,
                    idx - 1,
                );
            },
        }
    }
}

impl HierarchicalMachine {
    /// A fresh machine for one character: the environment handler alone,
    /// grounded, with an indefinite countdown.
    pub fn new(character: Character) -> (r: Self)
        ensures
            r.machine_stack@ == seq![Handler::Environment(EnvironmentState::Grounded)],
            r.context == (MachineContext { character, countdown: -1i8, countup: 0u8 }),
    {
        let mut machine_stack: Vec<Handler> = Vec::new();
        machine_stack.push(Handler::Environment(EnvironmentState::Grounded));
        proof {
            assert(machine_stack@ =~= seq![Handler::Environment(EnvironmentState::Grounded)]);
        }
        HierarchicalMachine {
            machine_stack,
            context: MachineContext { character, countdown: -1, countup: 0 },
        }
    }

    /// Hands the tick's input to every handler, top of the stack first. The
    /// present handlers all remain and read nothing, so the stack and the
    /// input come through unchanged and the shared counters tick once per
    /// handler.
    pub fn consume_input(self, input: &mut MachineInput) -> (r: Self)
        ensures
            r.machine_stack@ == self.machine_stack@,
            *final(input) == *old(input),
            r.context == tick_context_n(self.context, self.machine_stack@.len()),
            self.context.countdown >= -1 ==> r.context.countdown as int == if self.context.countdown
                - self.machine_stack@.len() >= -1 {
                self.context.countdown - self.machine_stack@.len()
            } else {
                -1
            },
            self.context.countdown >= -1 ==> r.context.countup as int == (self.context.countup
                + self.machine_stack@.len()) % 256,
    {
        proof {
            if self.context.countdown >= -1 {
                lemma_tick_context_n_closed(self.context, self.machine_stack@.len());
            }
        }
        let mut m = self;
        let ghost ctx0 = m.context;
        let ghost stack0 = m.machine_stack@;
        let mut i: usize = m.machine_stack.len();
        while i > 0
            invariant
                i <= m.machine_stack.len(),
                m.machine_stack@ == stack0,
                *input == *old(input),
                m.context == tick_context_n(ctx0, (stack0.len() - i) as nat),
            decreases i,
        {
            i = i - 1;
            let mut h = m.machine_stack[i];
            let res = h.consume_input(&m.context, input);
            m.machine_stack.set(i, h);
            proof {
                assert(m.machine_stack@ =~= stack0);
            }
            match res {
                MachineResult::Remain => {
                    m.context.countup = if m.context.countup == 255 {
                        0
                    } else {
                        m.context.countup + 1
                    };
                    if m.context.countdown >= 0 {
                        m.context.countdown = m.context.countdown - 1;
                    }
                },
                MachineResult::Transition(tr) => {
                    // unreachable: every present handler remains on input
                    m.context.countdown = tr.countdown;
                    m.context.countup = 0;
                },
            }
        }
        m
    }

    /// Hands a physics event to every handler, top of the stack first,
    /// applying each answer to the stack and the shared counters in turn.
    pub fn consume_physics_event(self, event: &PhysicsEvent) -> (r: Self)
        requires
            !(*event is GotHit),
        ensures
            (r.machine_stack@, r.context) == consume_event_spec(
                self.machine_stack@,
                self.context,
                *event,
                self.machine_stack@.len() - 1,
            ),
    {
        let mut m = self;
        let ghost stack0 = m.machine_stack@;
        let ghost ctx0 = m.context;
        let mut i: usize = m.machine_stack.len();
        while i > 0
            invariant
                !(*event is GotHit),
                i <= m.machine_stack.len(),
                consume_event_spec(stack0, ctx0, *event, stack0.len() - 1) == consume_event_spec(
                    m.machine_stack@,
                    m.context,
                    *event,
                    i - 1,
                ),
            decreases i,
        {
            i = i - 1;
            let ghost stack_before = m.machine_stack@;
            let ghost ctx_before = m.context;
            let mut h = m.machine_stack[i];
            let res = h.consume_physics_event(&m.context, event);
            m.machine_stack.set(i, h);
            match res {
                MachineResult::Remain => {
                    m.context.countup = if m.context.countup == 255 {
                        0
                    } else {
                        m.context.countup + 1
                    };
                    if m.context.countdown >= 0 {
                        m.context.countdown = m.context.countdown - 1;
                    }
                    proof {
                        assert(m.machine_stack@ =~= stack_before.update(
                            i as int,
                            handler_event_spec(stack_before[i as int], ctx_before.character,
                                *event).0,
                        ));
                    }
                },
                MachineResult::Transition(tr) => {
                    match tr.children {
                        Some(mut cs) => {
                            m.machine_stack.truncate(i + 1);
                            m.machine_stack.append(&mut cs);
                        },
                        None => {},
                    }
                    m.context.countdown = tr.countdown;
                    m.context.countup = 0;
                    proof {
                        let step = handler_event_spec(stack_before[i as int], ctx_before.character,
                            *event);
                        assert(m.machine_stack@ =~= stack_before.take(i + 1 as int).update(
                            i as int,
                            step.0,
                        ) + step.1->Some_0.0);
                    }
                },
            }
        }
        m
    }

    /// The fighter's protection this tick: the strongest any handler grants,
    /// none for an empty stack.
    pub fn defense_state(&self) -> (r: DefenseState)
        ensures
            forall|i: int|
                0 <= i < self.machine_stack@.len() ==> r.rank_spec() >= handler_defense_spec(
                    #[trigger] self.machine_stack@[i],
                ).rank_spec(),
            r == DefenseState::Normal,
    {
        let mut best = DefenseState::Normal;
        let mut i: usize = 0;
        while i < self.machine_stack.len()
            invariant
                i <= self.machine_stack.len(),
                best == DefenseState::Normal,
            decreases self.machine_stack.len() - i,
        {
            let d = self.machine_stack[i].defense_state();
            if d.rank() > best.rank() {
                best = d;
            }
            i = i + 1;
        }
        best
    }
}

} // verus!
