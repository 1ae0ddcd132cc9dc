//! The per-frame movement pipeline: event application to the engine-power
//! resource and angular impulse, then unconditional power decay, linear
//! impulse derivation and exhaust feedback. The three steps of a frame run
//! in a fixed order from one entry point, `frame_update`.

use vstd::prelude::*;
use vstd::arithmetic::mul::*;
use crate::MICRO;
use crate::events::{
    MovementAction, TORQUE_MAGNITUDE, event_is_valid, event_torque, torque_sum, thrust_count,
    mapped_events, keyboard_input, lemma_torque_sum_bound, lemma_thrust_count_bound,
};
use crate::power::{
    EnginePower, ExhaustConfig, POWER_LIMIT, gain_amount, decay_amount, clamped_sub, gain_for,
    decay_for, exhaust_config, exhaust_matches, decayed,
};

verus! {

/// Scale from engine power to linear thrust impulse (10000 force units per
/// power unit).
pub const THRUST_IMPULSE_SCALE: u64 = 10_000;

/// A 2-D vector in fixed-point micro-units.
#[derive(Clone, Copy, PartialEq, Eq, Structural, Debug)]
pub struct Vec2Fixed {
    pub x: i64,
    pub y: i64,
}

/// Marker for the player-controlled body.
#[derive(Clone, Copy, PartialEq, Eq, Structural, Debug)]
pub struct CharacterController;

/// The movement state of one controlled entity: its engine power and the
/// pending impulses handed to the physics backend each frame.
#[derive(Clone, Copy, PartialEq, Eq, Structural, Debug)]
pub struct MovementBundle {
    pub engine_power: EnginePower,
    pub impulse: Vec2Fixed,
    pub angular_impulse: i64,
}

impl MovementBundle {
    /// A movement state with the given starting engine power and no pending
    /// impulses.
    pub fn new(engine_power: u64) -> (b: Self)
        ensures
            b.engine_power.0 == engine_power,
            b.impulse == (Vec2Fixed { x: 0, y: 0 }),
            b.angular_impulse == 0,
    {
        MovementBundle {
            engine_power: EnginePower(engine_power),
            impulse: Vec2Fixed { x: 0, y: 0 },
            angular_impulse: 0,
        }
    }
}

impl Default for MovementBundle {
    /// A movement state with no engine power and no pending impulses.
    fn default() -> (b: Self)
        ensures
            b.engine_power.0 == 0,
            b.impulse == (Vec2Fixed { x: 0, y: 0 }),
            b.angular_impulse == 0,
    {
        MovementBundle::new(0)
    }
}

/// Everything the control core owns of the player-controlled body. The
/// collider and rigid-body registration belong to the physics backend.
pub struct CharacterControllerBundle {
    pub character_controller: CharacterController,
    pub movement: MovementBundle,
}

impl CharacterControllerBundle {
    /// A fresh controlled body with no engine power.
    pub fn new() -> (b: Self)
        ensures
            b.movement.engine_power.0 == 0,
            b.movement.impulse == (Vec2Fixed { x: 0, y: 0 }),
            b.movement.angular_impulse == 0,
    {
        CharacterControllerBundle {
            character_controller: CharacterController,
            movement: MovementBundle::default(),
        }
    }

    /// The same body with its starting engine power replaced.
    pub fn with_movement(self, engine_power: u64) -> (b: Self)
        ensures
            b.movement.engine_power.0 == engine_power,
            b.movement.impulse == (Vec2Fixed { x: 0, y: 0 }),
            b.movement.angular_impulse == 0,
    {
        CharacterControllerBundle { movement: MovementBundle::new(engine_power), ..self }
    }
}

/// One controlled entity as the per-frame pipeline sees it: its movement
/// state, the local "up" direction derived from its current orientation
/// (a unit vector in micro-units, or zero when degenerate; written by the
/// physics backend before each frame), and the exhaust configuration of
/// each particle emitter attached to it.
pub struct ControlledEntity {
    pub movement: MovementBundle,
    pub up: Vec2Fixed,
    pub emitters: Vec<ExhaustConfig>,
}

/// The local up vector is normalized or zero: each component within one
/// unit.
pub open spec fn up_in_range(v: Vec2Fixed) -> bool {
    &&& -(MICRO as int) <= v.x <= MICRO
    &&& -(MICRO as int) <= v.y <= MICRO
}

/// Linear impulse applied per micro-unit of "up" component at engine power
/// `p`: `THRUST_IMPULSE_SCALE * p`, floored to units.
pub open spec fn impulse_scale(p: int) -> int {
    THRUST_IMPULSE_SCALE * p / (MICRO as int)
}

/// Engine power after one full frame starting at `p`, with the given event
/// queue and a frame lasting `dt` microseconds: thrust gains accumulate,
/// then the unconditional decay applies, clamped at zero.
pub open spec fn frame_power(p: int, es: Seq<MovementAction>, dt: u64) -> int {
    clamped_sub(p + thrust_count(es) * gain_amount(dt), decay_amount(dt))
}

/// One frame containing exactly one thrust event balances gain against
/// decay: the resulting power is `max(0, p + gain - decay)`.
pub proof fn lemma_thrust_frame_balance(p: int, es: Seq<MovementAction>, dt: u64)
    requires
        p >= 0,
        thrust_count(es) == 1,
    ensures
        frame_power(p, es, dt) == clamped_sub(p + gain_amount(dt) - decay_amount(dt), 0),
{
}

/// A frame whose event queue holds no thrust event only decays the power:
/// its result is one decay step.
pub proof fn lemma_no_thrust_frame(p: int, es: Seq<MovementAction>, dt: u64)
    requires
        p >= 0,
        thrust_count(es) == 0,
    ensures
        frame_power(p, es, dt) == decayed(p, decay_amount(dt), 1),
{
    assert(decayed(p, decay_amount(dt), 0) == p);
}

/// Chaining one more thrust-free frame onto `k` of them is one more decay
/// step: a run of frames without thrust events drains the power exactly as
/// the iterated clamped decay does.
pub proof fn lemma_no_thrust_frame_chain(p: int, es: Seq<MovementAction>, dt: u64, k: nat)
    requires
        p >= 0,
        thrust_count(es) == 0,
    ensures
        frame_power(decayed(p, decay_amount(dt), k), es, dt) == decayed(
            p,
            decay_amount(dt),
            k + 1,
        ),
{
    crate::power::lemma_decay_nonnegative(p, decay_amount(dt), k);
}

/// Applies one movement event to one entity: a torque event accumulates its
/// angular impulse, a thrust event raises the engine power by this frame's
/// gain.
fn apply_event(event: MovementAction, gain: u64, e: &mut ControlledEntity)
    requires
        event_is_valid(event),
        event == MovementAction::Thrust ==> old(e).movement.engine_power.0 + gain <= u64::MAX,
        i64::MIN <= old(e).movement.angular_impulse + event_torque(event) <= i64::MAX,
    ensures
        final(e).movement.engine_power.0 == old(e).movement.engine_power.0 + (
        if event == MovementAction::Thrust {
            gain as int
        } else {
            0int
        }),
        final(e).movement.angular_impulse == old(e).movement.angular_impulse + event_torque(
            event,
        ),
        final(e).movement.impulse == old(e).movement.impulse,
        final(e).up == old(e).up,
        final(e).emitters@ == old(e).emitters@,
{
    match event {
        MovementAction::Torque(direction) => {
            e.movement.angular_impulse = e.movement.angular_impulse + -direction
                * TORQUE_MAGNITUDE;
        },
        MovementAction::Thrust => {
            e.movement.engine_power.0 = e.movement.engine_power.0 + gain;
        },
    }
}

/// Event application step: every event queued this frame is applied, in
/// emission order, to every controlled entity. Torque impulses accumulate;
/// each thrust event adds one frame gain to the engine power.
#[verifier::loop_isolation(false)]
pub fn movement(dt: u64, events: &Vec<MovementAction>, entities: &mut Vec<ControlledEntity>)
    requires
        forall|i: int| 0 <= i < events@.len() ==> event_is_valid(#[trigger] events@[i]),
        forall|j: int|
            0 <= j < old(entities)@.len() ==> (#[trigger] old(
                entities,
            )@[j].movement.engine_power.0) + thrust_count(events@) * gain_amount(dt) <= u64::MAX,
        forall|j: int|
            0 <= j < old(entities)@.len() ==> i64::MIN + events@.len() * TORQUE_MAGNITUDE <= (
            #[trigger] old(entities)@[j].movement.angular_impulse) <= i64::MAX - events@.len()
                * TORQUE_MAGNITUDE,
    ensures
        final(entities)@.len() == old(entities)@.len(),
        forall|j: int|
            #![trigger final(entities)@[j]]
            0 <= j < old(entities)@.len() ==> {
                let e0 = old(entities)@[j];
                let e1 = final(entities)@[j];
                &&& e1.movement.engine_power.0 == e0.movement.engine_power.0 + thrust_count(
                    events@,
                ) * gain_amount(dt)
                &&& e1.movement.angular_impulse == e0.movement.angular_impulse + torque_sum(
                    events@,
                )
                &&& e1.movement.impulse == e0.movement.impulse
                &&& e1.up == e0.up
                &&& e1.emitters@ == e0.emitters@
            },
{
    let ghost es = events@;
    let gain = gain_for(dt);
    let num_events = events.len();
    let mut k: usize = 0;
    while k < num_events
        invariant
            0 <= k <= num_events,
            entities@.len() == old(entities)@.len(),
            forall|j: int|
                #![trigger entities@[j]]
                0 <= j < old(entities)@.len() ==> {
                    let e0 = old(entities)@[j];
                    let e1 = entities@[j];
                    &&& e1.movement.engine_power.0 == e0.movement.engine_power.0 + thrust_count(
                        es.subrange(0, k as int),
                    ) * gain_amount(dt)
                    &&& e1.movement.angular_impulse == e0.movement.angular_impulse + torque_sum(
                        es.subrange(0, k as int),
                    )
                    &&& e1.movement.impulse == e0.movement.impulse
                    &&& e1.up == e0.up
                    &&& e1.emitters@ == e0.emitters@
                },
        decreases num_events - k,
    {
        let event = events[k];
        let num_entities = entities.len();
        let mut j: usize = 0;
        while j < num_entities
            invariant
                0 <= k < num_events,
                0 <= j <= num_entities,
                num_entities == entities@.len(),
                entities@.len() == old(entities)@.len(),
                event == es[k as int],
                forall|j2: int|
                    #![trigger entities@[j2]]
                    0 <= j2 < old(entities)@.len() ==> {
                        let e0 = old(entities)@[j2];
                        let e1 = entities@[j2];
                        let upto = if j2 < j {
                            k + 1
                        } else {
                            k as int
                        };
                        &&& e1.movement.engine_power.0 == e0.movement.engine_power.0
                            + thrust_count(es.subrange(0, upto)) * gain_amount(dt)
                        &&& e1.movement.angular_impulse == e0.movement.angular_impulse
                            + torque_sum(es.subrange(0, upto))
                        &&& e1.movement.impulse == e0.movement.impulse
                        &&& e1.up == e0.up
                        &&& e1.emitters@ == e0.emitters@
                    },
            decreases num_entities - j,
        {
            proof {
                lemma_event_prefix_step(es, k as int);
                lemma_event_prefix_bounds(es, k as int, gain_amount(dt));
            }
            let e = &mut entities[j];
            apply_event(event, gain, e);
            j = j + 1;
        }
        k = k + 1;
    }
    proof {
        assert(es.subrange(0, es.len() as int) =~= es);
    }
}

/// Extending an event-queue prefix by one event extends its torque sum and
/// thrust count by that event's contribution.
proof fn lemma_event_prefix_step(es: Seq<MovementAction>, k: int)
    requires
        0 <= k < es.len(),
    ensures
        torque_sum(es.subrange(0, k + 1)) == torque_sum(es.subrange(0, k)) + event_torque(es[k]),
        thrust_count(es.subrange(0, k + 1)) == thrust_count(es.subrange(0, k)) + (if es[k]
            == MovementAction::Thrust {
            1int
        } else {
            0int
        }),
{
    let a = es.subrange(0, k + 1);
    assert(a.drop_last() =~= es.subrange(0, k));
    assert(a.last() == es[k]);
}

/// Bounds on the torque sum and weighted thrust count of event-queue
/// prefixes, used to rule out overflow while the queue is applied.
proof fn lemma_event_prefix_bounds(es: Seq<MovementAction>, k: int, gain: int)
    requires
        0 <= k < es.len(),
        gain >= 0,
        forall|i: int| 0 <= i < es.len() ==> event_is_valid(#[trigger] es[i]),
    ensures
        -(es.len() as int) * TORQUE_MAGNITUDE + TORQUE_MAGNITUDE <= torque_sum(
            es.subrange(0, k),
        ) <= es.len() * TORQUE_MAGNITUDE - TORQUE_MAGNITUDE,
        0 <= thrust_count(es.subrange(0, k)) * gain,
        thrust_count(es.subrange(0, k)) * gain <= thrust_count(es) * gain,
        es[k] == MovementAction::Thrust ==> thrust_count(es.subrange(0, k)) * gain + gain
            <= thrust_count(es) * gain,
        (thrust_count(es.subrange(0, k)) + 1) * gain == thrust_count(es.subrange(0, k)) * gain
            + gain,
{
    let pre = es.subrange(0, k);
    lemma_torque_sum_bound(pre);
    lemma_mul_inequality(pre.len() as int, es.len() - 1, TORQUE_MAGNITUDE as int);
    assert((es.len() - 1) * TORQUE_MAGNITUDE == es.len() * TORQUE_MAGNITUDE
        - TORQUE_MAGNITUDE) by (nonlinear_arith);
    lemma_thrust_count_bound(pre);
    lemma_mul_nonnegative(thrust_count(pre), gain);
    lemma_thrust_count_suffix(es, k);
    lemma_mul_inequality(thrust_count(pre), thrust_count(es), gain);
    assert((thrust_count(pre) + 1) * gain == thrust_count(pre) * gain + gain) by (nonlinear_arith);
    if es[k] == MovementAction::Thrust {
        lemma_mul_inequality(thrust_count(pre) + 1, thrust_count(es), gain);
    }
}

/// The fit conditions the impulse step needs of one entity: power within the
/// fixed-point limit, a normalized-or-zero up vector, and room in the
/// pending impulse for this frame's contribution at the post-decay power.
pub open spec fn impulse_step_fits(e: ControlledEntity, dt: u64) -> bool {
    let p_after = clamped_sub(e.movement.engine_power.0 as int, decay_amount(dt));
    &&& e.movement.engine_power.0 <= POWER_LIMIT
    &&& up_in_range(e.up)
    &&& i64::MIN <= e.movement.impulse.x + e.up.x * impulse_scale(p_after) <= i64::MAX
    &&& i64::MIN <= e.movement.impulse.y + e.up.y * impulse_scale(p_after) <= i64::MAX
}

/// What the impulse step leaves of one entity, given the per-frame decay:
/// the decayed and clamped power, the pending linear impulse grown by
/// `up * THRUST_IMPULSE_SCALE * power` (zero when the up vector is
/// degenerate), the angular impulse untouched, and every attached emitter
/// reconfigured from the new power alone.
pub open spec fn impulse_step_result(e0: ControlledEntity, e1: ControlledEntity, d: int) -> bool {
    let p_after = clamped_sub(e0.movement.engine_power.0 as int, d);
    &&& e1.movement.engine_power.0 == p_after
    &&& e1.movement.impulse.x == e0.movement.impulse.x + e0.up.x * impulse_scale(p_after)
    &&& e1.movement.impulse.y == e0.movement.impulse.y + e0.up.y * impulse_scale(p_after)
    &&& (e0.up.x == 0 && e0.up.y == 0 ==> e1.movement.impulse == e0.movement.impulse)
    &&& e1.movement.angular_impulse == e0.movement.angular_impulse
    &&& e1.up == e0.up
    &&& e1.emitters@.len() == e0.emitters@.len()
    &&& forall|m: int|
        0 <= m < e1.emitters@.len() ==> exhaust_matches(#[trigger] e1.emitters@[m], p_after)
}

/// The impulse step for one entity: decay and clamp the power, add this
/// frame's linear thrust impulse along the entity's local up direction, and
/// overwrite every attached emitter's exhaust parameters from the new power.
#[verifier::loop_isolation(false)]
fn apply_impulse_to_entity(decay: u64, e: &mut ControlledEntity)
    requires
        old(e).movement.engine_power.0 <= POWER_LIMIT,
        up_in_range(old(e).up),
        i64::MIN <= old(e).movement.impulse.x + old(e).up.x * impulse_scale(
            clamped_sub(old(e).movement.engine_power.0 as int, decay as int),
        ) <= i64::MAX,
        i64::MIN <= old(e).movement.impulse.y + old(e).up.y * impulse_scale(
            clamped_sub(old(e).movement.engine_power.0 as int, decay as int),
        ) <= i64::MAX,
    ensures
        impulse_step_result(*old(e), *final(e), decay as int),
{
    let p = e.movement.engine_power.0;
    let p_after: u64 = if p >= decay {
        p - decay
    } else {
        0
    };
    e.movement.engine_power.0 = p_after;
    let scale: u64 = THRUST_IMPULSE_SCALE * p_after / MICRO;
    proof {
        assert(scale <= p_after) by (nonlinear_arith)
            requires
                scale == THRUST_IMPULSE_SCALE * p_after / (MICRO as int),
                THRUST_IMPULSE_SCALE <= MICRO,
                p_after >= 0,
        ;
        assert(e.up.x * scale == e.up.x * impulse_scale(p_after as int));
        assert(e.up.y * scale == e.up.y * impulse_scale(p_after as int));
        assert(-(0x8000_0000_0000_0000i128 * 0x1_0000_0000_0000_0000i128) <= (e.up.x as i128) * (
        scale as i128) < 0x8000_0000_0000_0000i128 * 0x1_0000_0000_0000_0000i128)
            by (nonlinear_arith)
            requires
                -0x8000_0000_0000_0000 <= e.up.x < 0x8000_0000_0000_0000,
                0 <= scale < 0x1_0000_0000_0000_0000,
        ;
        assert(-(0x8000_0000_0000_0000i128 * 0x1_0000_0000_0000_0000i128) <= (e.up.y as i128) * (
        scale as i128) < 0x8000_0000_0000_0000i128 * 0x1_0000_0000_0000_0000i128)
            by (nonlinear_arith)
            requires
                -0x8000_0000_0000_0000 <= e.up.y < 0x8000_0000_0000_0000,
                0 <= scale < 0x1_0000_0000_0000_0000,
        ;
    }
    let dx: i128 = (e.up.x as i128) * (scale as i128);
    let dy: i128 = (e.up.y as i128) * (scale as i128);
    let nx: i128 = (e.movement.impulse.x as i128) + dx;
    let ny: i128 = (e.movement.impulse.y as i128) + dy;
    e.movement.impulse = Vec2Fixed { x: nx as i64, y: ny as i64 };
    let c = exhaust_config(p_after);
    let ghost mv = e.movement;
    let n = e.emitters.len();
    let mut m: usize = 0;
    while m < n
        invariant
            0 <= m <= n,
            e.movement == mv,
            e.up == old(e).up,
            e.emitters@.len() == n,
            exhaust_matches(c, p_after as int),
            forall|m2: int| 0 <= m2 < m ==> exhaust_matches(#[trigger] e.emitters@[m2], p_after as int),
        decreases n - m,
    {
        e.emitters[m] = c;
        m = m + 1;
    }
}

/// Impulse application step, run once per frame after event processing:
/// decays every controlled entity's engine power (clamped at zero), adds the
/// frame's linear thrust impulse along the entity's local up direction — a
/// degenerate up direction yields a zero impulse — and rewrites each
/// attached emitter's exhaust parameters as a function of the new power
/// alone.
#[verifier::loop_isolation(false)]
pub fn apply_impulse(dt: u64, entities: &mut Vec<ControlledEntity>)
    requires
        forall|j: int|
            0 <= j < old(entities)@.len() ==> impulse_step_fits(#[trigger] old(entities)@[j], dt),
    ensures
        final(entities)@.len() == old(entities)@.len(),
        forall|j: int|
            #![trigger final(entities)@[j]]
            0 <= j < old(entities)@.len() ==> impulse_step_result(
                old(entities)@[j],
                final(entities)@[j],
                decay_amount(dt),
            ),
{
    let decay = decay_for(dt);
    let n = entities.len();
    let mut j: usize = 0;
    while j < n
        invariant
            0 <= j <= n,
            entities@.len() == old(entities)@.len(),
            forall|j2: int|
                #![trigger entities@[j2]]
                0 <= j2 < j ==> impulse_step_result(
                    old(entities)@[j2],
                    entities@[j2],
                    decay_amount(dt),
                ),
            forall|j2: int| j <= j2 < n ==> entities@[j2] == old(entities)@[j2],
        decreases n - j,
    {
        let e = &mut entities[j];
        apply_impulse_to_entity(decay, e);
        j = j + 1;
    }
}

/// One full simulation frame lasting `dt` microseconds: the input mapper
/// reads the held buttons and emits this frame's events, the event step
/// applies them to every controlled entity, and the impulse step then
/// decays the power and derives the frame's linear impulse and exhaust
/// parameters. The three steps run in this order, and the events a frame
/// emits are consumed within the same frame.
pub fn frame_update(
    left_held: bool,
    right_held: bool,
    thrust_held: bool,
    dt: u64,
    entities: &mut Vec<ControlledEntity>,
)
    requires
        forall|j: int|
            #![trigger old(entities)@[j]]
            0 <= j < old(entities)@.len() ==> {
                let e = old(entities)@[j];
                let es = mapped_events(left_held, right_held, thrust_held);
                let p_after = e.movement.engine_power.0 + thrust_count(es) * gain_amount(dt);
                let p2 = clamped_sub(p_after, decay_amount(dt));
                &&& p_after <= POWER_LIMIT
                &&& up_in_range(e.up)
                &&& i64::MIN + 2 * TORQUE_MAGNITUDE <= e.movement.angular_impulse <= i64::MAX - 2
                    * TORQUE_MAGNITUDE
                &&& i64::MIN <= e.movement.impulse.x + e.up.x * impulse_scale(p2) <= i64::MAX
                &&& i64::MIN <= e.movement.impulse.y + e.up.y * impulse_scale(p2) <= i64::MAX
            },
    ensures
        final(entities)@.len() == old(entities)@.len(),
        forall|j: int|
            #![trigger final(entities)@[j]]
            0 <= j < old(entities)@.len() ==> {
                let e0 = old(entities)@[j];
                let e1 = final(entities)@[j];
                let es = mapped_events(left_held, right_held, thrust_held);
                let p2 = frame_power(e0.movement.engine_power.0 as int, es, dt);
                &&& e1.movement.engine_power.0 == p2
                &&& e1.movement.angular_impulse == e0.movement.angular_impulse + torque_sum(es)
                &&& e1.movement.impulse.x == e0.movement.impulse.x + e0.up.x * impulse_scale(p2)
                &&& e1.movement.impulse.y == e0.movement.impulse.y + e0.up.y * impulse_scale(p2)
                &&& (e0.up.x == 0 && e0.up.y == 0 ==> e1.movement.impulse == e0.movement.impulse)
                &&& e1.up == e0.up
                &&& e1.emitters@.len() == e0.emitters@.len()
                &&& forall|m: int|
                    0 <= m < e1.emitters@.len() ==> exhaust_matches(#[trigger] e1.emitters@[m], p2)
            },
{
    proof {
        crate::events::lemma_mapped_events_shape(left_held, right_held, thrust_held);
        let es = mapped_events(left_held, right_held, thrust_held);
        lemma_mul_inequality(es.len() as int, 2, TORQUE_MAGNITUDE as int);
        lemma_mul_nonnegative(thrust_count(es), gain_amount(dt));
    }
    let events = keyboard_input(left_held, right_held, thrust_held);
    movement(dt, &events, entities);
    apply_impulse(dt, entities);
}

/// A prefix of an event queue never counts more thrust events than the
/// whole queue; one more than the prefix of everything before a thrust
/// event still fits.
proof fn lemma_thrust_count_suffix(es: Seq<MovementAction>, k: int)
    requires
        0 <= k <= es.len(),
    ensures
        thrust_count(es.subrange(0, k)) <= thrust_count(es),
        k < es.len() && es[k] == MovementAction::Thrust ==> thrust_count(es.subrange(0, k)) + 1
            <= thrust_count(es),
    decreases es.len() - k,
{
    if k == es.len() {
        assert(es.subrange(0, k) =~= es);
    } else {
        lemma_event_prefix_step(es, k);
        lemma_thrust_count_suffix(es, k + 1);
    }
}

} // verus!
