//! Movement events: the discrete intents the input mapper emits once per
//! frame, and the angular-impulse and power-gain totals a frame's event
//! queue induces.

use vstd::prelude::*;

verus! {

/// Magnitude of the angular impulse one torque event applies, in micro-units
/// (10000 force units).
pub const TORQUE_MAGNITUDE: i64 = 10_000_000_000;

/// A discrete movement intent, created by the input mapper and consumed by
/// the same frame's power and impulse steps.
#[derive(Clone, Copy, PartialEq, Eq, Structural, Debug)]
pub enum MovementAction {
    /// Turn with direction -1 (left) or +1 (right).
    Torque(i64),
    /// Raise engine power this frame.
    Thrust,
}

/// A torque event carries direction -1 or +1; a thrust event carries
/// nothing.
pub open spec fn event_is_valid(e: MovementAction) -> bool {
    match e {
        MovementAction::Torque(d) => d == -1 || d == 1,
        MovementAction::Thrust => true,
    }
}

/// Net turn direction from the held keys: right counts +1, left counts -1,
/// both or neither cancel out.
pub open spec fn net_direction(left: bool, right: bool) -> int {
    (if right {
        1int
    } else {
        0int
    }) - (if left {
        1int
    } else {
        0int
    })
}

/// The events the input mapper emits for one frame: a torque event when the
/// net direction is non-zero, then a thrust event while the thrust key is
/// held (level-triggered: a held key re-emits every frame).
pub open spec fn mapped_events(left: bool, right: bool, thrust: bool) -> Seq<MovementAction> {
    let turn: Seq<MovementAction> = if net_direction(left, right) != 0 {
        seq![MovementAction::Torque(net_direction(left, right) as i64)]
    } else {
        Seq::empty()
    };
    let burn: Seq<MovementAction> = if thrust {
        seq![MovementAction::Thrust]
    } else {
        Seq::empty()
    };
    turn + burn
}

/// Input mapper: reads whether the three logical buttons are currently held
/// and emits this frame's movement events in order.
pub fn keyboard_input(left_held: bool, right_held: bool, thrust_held: bool) -> (events: Vec<
    MovementAction,
>)
    ensures
        events@ == mapped_events(left_held, right_held, thrust_held),
        forall|i: int| 0 <= i < events@.len() ==> event_is_valid(#[trigger] events@[i]),
{
    let mut events: Vec<MovementAction> = Vec::new();
    let right: i64 = if right_held {
        1
    } else {
        0
    };
    let left: i64 = if left_held {
        1
    } else {
        0
    };
    let direction: i64 = right - left;
    if direction != 0 {
        events.push(MovementAction::Torque(direction));
    }
    if thrust_held {
        events.push(MovementAction::Thrust);
    }
    proof {
        assert(events@ =~= mapped_events(left_held, right_held, thrust_held));
    }
    events
}

/// Angular impulse one event applies: a torque event with direction `d`
/// contributes `-d * TORQUE_MAGNITUDE` (the sign inversion sets the
/// rotation handedness); a thrust event contributes none.
pub open spec fn event_torque(e: MovementAction) -> int {
    match e {
        MovementAction::Torque(d) => -d * TORQUE_MAGNITUDE,
        MovementAction::Thrust => 0,
    }
}

/// Total angular impulse of a frame's event queue: torque events accumulate,
/// they do not overwrite.
pub open spec fn torque_sum(es: Seq<MovementAction>) -> int
    decreases es.len(),
{
    if es.len() == 0 {
        0
    } else {
        torque_sum(es.drop_last()) + event_torque(es.last())
    }
}

/// Number of thrust events in a frame's event queue.
pub open spec fn thrust_count(es: Seq<MovementAction>) -> int
    decreases es.len(),
{
    if es.len() == 0 {
        0int
    } else {
        thrust_count(es.drop_last()) + (if es.last() == MovementAction::Thrust {
            1int
        } else {
            0int
        })
    }
}

/// A queue of one torque event with direction `d` yields the angular impulse
/// `-d * TORQUE_MAGNITUDE`.
pub proof fn lemma_torque_single(d: i64)
    ensures
        torque_sum(seq![MovementAction::Torque(d)]) == -d * TORQUE_MAGNITUDE,
{
    let es = seq![MovementAction::Torque(d)];
    assert(es.drop_last() =~= Seq::<MovementAction>::empty());
    assert(torque_sum(Seq::<MovementAction>::empty()) == 0);
    assert(es.last() == MovementAction::Torque(d));
}

/// Torque events accumulate: the angular impulse of a concatenated queue is
/// the sum of the impulses of its parts. In particular, issuing both
/// directions in one frame yields the sum of both impulses.
pub proof fn lemma_torque_additive(a: Seq<MovementAction>, b: Seq<MovementAction>)
    ensures
        torque_sum(a + b) == torque_sum(a) + torque_sum(b),
    decreases b.len(),
{
    if b.len() == 0 {
        assert(a + b =~= a);
    } else {
        lemma_torque_additive(a, b.drop_last());
        assert((a + b).drop_last() =~= a + b.drop_last());
    }
}

/// The angular impulse of a queue of valid events is bounded by one torque
/// magnitude per event.
pub proof fn lemma_torque_sum_bound(es: Seq<MovementAction>)
    requires
        forall|i: int| 0 <= i < es.len() ==> event_is_valid(#[trigger] es[i]),
    ensures
        -(es.len() as int) * TORQUE_MAGNITUDE <= torque_sum(es) <= es.len() * TORQUE_MAGNITUDE,
    decreases es.len(),
{
    if es.len() == 0 {
    } else {
        lemma_torque_sum_bound(es.drop_last());
        assert(event_is_valid(es[es.len() - 1]));
        assert((es.len() - 1) * TORQUE_MAGNITUDE == es.len() * TORQUE_MAGNITUDE
            - TORQUE_MAGNITUDE) by (nonlinear_arith);
        assert(-((es.len() - 1) as int) * TORQUE_MAGNITUDE == -(es.len() as int)
            * TORQUE_MAGNITUDE + TORQUE_MAGNITUDE) by (nonlinear_arith);
    }
}

/// What the input mapper emits in one frame: at most two events, one thrust
/// event exactly when the thrust key is held, and a net angular impulse of
/// `-net_direction * TORQUE_MAGNITUDE`.
pub proof fn lemma_mapped_events_shape(left: bool, right: bool, thrust: bool)
    ensures
        mapped_events(left, right, thrust).len() <= 2,
        thrust_count(mapped_events(left, right, thrust)) == (if thrust {
            1int
        } else {
            0int
        }),
        torque_sum(mapped_events(left, right, thrust)) == -net_direction(left, right)
            * TORQUE_MAGNITUDE,
        forall|i: int|
            0 <= i < mapped_events(left, right, thrust).len() ==> event_is_valid(
                #[trigger] mapped_events(left, right, thrust)[i],
            ),
{
    let es = mapped_events(left, right, thrust);
    let net = net_direction(left, right);
    let empty = Seq::<MovementAction>::empty();
    assert(thrust_count(empty) == 0);
    assert(torque_sum(empty) == 0);
    if net != 0 {
        let t = seq![MovementAction::Torque(net as i64)];
        assert(t.drop_last() =~= empty);
        assert(t.last() == MovementAction::Torque(net as i64));
        assert(thrust_count(t) == 0);
        assert(torque_sum(t) == event_torque(MovementAction::Torque(net as i64)));
        assert(torque_sum(t) == -net * TORQUE_MAGNITUDE);
        if thrust {
            assert(es =~= t.push(MovementAction::Thrust));
            assert(es.drop_last() =~= t);
            assert(es.last() == MovementAction::Thrust);
            assert(thrust_count(es) == thrust_count(t) + 1);
            assert(torque_sum(es) == torque_sum(t));
        } else {
            assert(es =~= t);
        }
    } else {
        if thrust {
            let b = seq![MovementAction::Thrust];
            assert(es =~= b);
            assert(b.drop_last() =~= empty);
            assert(b.last() == MovementAction::Thrust);
            assert(thrust_count(es) == 1);
            assert(torque_sum(es) == 0);
        } else {
            assert(es =~= empty);
        }
    }
}

/// The thrust count of a queue lies between zero and the queue's length.
pub proof fn lemma_thrust_count_bound(es: Seq<MovementAction>)
    ensures
        0 <= thrust_count(es) <= es.len(),
    decreases es.len(),
{
    if es.len() == 0 {
    } else {
        lemma_thrust_count_bound(es.drop_last());
    }
}

} // verus!
