use lander::controller::{
    apply_impulse, frame_update, movement, CharacterControllerBundle, ControlledEntity,
    MovementBundle, Vec2Fixed,
};
use lander::events::{keyboard_input, MovementAction};
use lander::power::{exhaust_config, EnginePower, ExhaustConfig};

fn entity(power: u64, up_x: i64, up_y: i64, emitter_count: usize) -> ControlledEntity {
    let mut emitters: Vec<ExhaustConfig> = Vec::new();
    for _ in 0..emitter_count {
        emitters.push(ExhaustConfig {
            spawn_rate: 0,
            speed_center: 0,
            jitter_min: 0,
            jitter_max: 0,
        });
    }
    ControlledEntity {
        movement: MovementBundle::new(power),
        up: Vec2Fixed { x: up_x, y: up_y },
        emitters,
    }
}

#[test]
fn input_mapper_directions() {
    assert_eq!(
        keyboard_input(false, true, false),
        vec![MovementAction::Torque(1)]
    );
    assert_eq!(
        keyboard_input(true, false, false),
        vec![MovementAction::Torque(-1)]
    );
    // both held or neither held: no torque event
    assert_eq!(keyboard_input(true, true, false), vec![]);
    assert_eq!(keyboard_input(false, false, false), vec![]);
}

#[test]
fn input_mapper_thrust_is_level_triggered() {
    assert_eq!(
        keyboard_input(false, false, true),
        vec![MovementAction::Thrust]
    );
    assert_eq!(
        keyboard_input(false, true, true),
        vec![MovementAction::Torque(1), MovementAction::Thrust]
    );
    // re-querying the same held state re-emits the same events
    assert_eq!(
        keyboard_input(false, false, true),
        vec![MovementAction::Thrust]
    );
}

#[test]
fn torque_sign_is_inverted() {
    // direction +1 (turn right) must yield a negative angular impulse
    let mut entities = vec![entity(0, 0, 0, 0)];
    let events = vec![MovementAction::Torque(1)];
    movement(16_667, &events, &mut entities);
    assert_eq!(entities[0].movement.angular_impulse, -10_000_000_000);

    let mut entities = vec![entity(0, 0, 0, 0)];
    let events = vec![MovementAction::Torque(-1)];
    movement(16_667, &events, &mut entities);
    assert_eq!(entities[0].movement.angular_impulse, 10_000_000_000);
}

#[test]
fn torque_impulses_accumulate() {
    // both directions in one frame cancel: the impulses sum, they do not
    // overwrite
    let mut entities = vec![entity(0, 0, 0, 0)];
    let events = vec![MovementAction::Torque(-1), MovementAction::Torque(1)];
    movement(16_667, &events, &mut entities);
    assert_eq!(entities[0].movement.angular_impulse, 0);

    let mut entities = vec![entity(0, 0, 0, 0)];
    let events = vec![MovementAction::Torque(1), MovementAction::Torque(1)];
    movement(16_667, &events, &mut entities);
    assert_eq!(entities[0].movement.angular_impulse, -20_000_000_000);
}

#[test]
fn movement_updates_every_entity() {
    let mut entities = vec![entity(0, 0, 0, 0), entity(100, 0, 0, 0)];
    let events = vec![MovementAction::Thrust];
    // dt = 20000 us: gain = 400000 * 20000 / 1000000 = 8000
    movement(20_000, &events, &mut entities);
    assert_eq!(entities[0].movement.engine_power.0, 8_000);
    assert_eq!(entities[1].movement.engine_power.0, 8_100);
}

#[test]
fn thrust_frame_balances_gain_against_decay() {
    // dt = 20000 us: gain 8000, decay 4000
    let mut entities = vec![entity(400_000, 0, 1_000_000, 1)];
    frame_update(false, false, true, 20_000, &mut entities);
    assert_eq!(entities[0].movement.engine_power.0, 404_000);
}

#[test]
fn decay_clamps_at_zero() {
    // power 3000 is smaller than one frame's decay of 4000
    let mut entities = vec![entity(3_000, 0, 1_000_000, 0)];
    frame_update(false, false, false, 20_000, &mut entities);
    assert_eq!(entities[0].movement.engine_power.0, 0);
}

#[test]
fn held_thrust_charges_power() {
    // hold thrust for 2 s at dt = 1/60 s (16667 us): the net charge per
    // frame is gain 6666 - decay 3333, so 120 frames give 399960, within
    // frame-stepping tolerance of 0.4 power units (400000).
    let mut entities = vec![entity(0, 0, 1_000_000, 1)];
    for _ in 0..120 {
        frame_update(false, false, true, 16_667, &mut entities);
    }
    assert_eq!(entities[0].movement.engine_power.0, 399_960);
    assert!(400_000 - entities[0].movement.engine_power.0 < 1_000);
}

#[test]
fn released_thrust_coasts_down_to_zero() {
    // power 0.4 at decay 0.2 per second reaches zero after exactly 2 s of
    // frame time: at dt = 20000 us (decay 4000 per frame) that is 100
    // frames; power is monotonically non-increasing, still positive one
    // frame earlier, and pinned at zero afterwards.
    let mut entities = vec![entity(400_000, 0, 1_000_000, 0)];
    let mut previous = entities[0].movement.engine_power.0;
    for _ in 0..99 {
        frame_update(false, false, false, 20_000, &mut entities);
        let current = entities[0].movement.engine_power.0;
        assert!(current <= previous);
        previous = current;
    }
    assert_eq!(entities[0].movement.engine_power.0, 4_000);
    frame_update(false, false, false, 20_000, &mut entities);
    assert_eq!(entities[0].movement.engine_power.0, 0);
    for _ in 0..10 {
        frame_update(false, false, false, 20_000, &mut entities);
        assert_eq!(entities[0].movement.engine_power.0, 0);
    }
}

#[test]
fn linear_impulse_follows_up_direction() {
    // up = (0, 1): impulse grows by up * 10000 * power. Power after the
    // no-event frame at dt 0 stays 400000, scale = 10000 * 400000 / 1000000
    // = 4000, so the impulse gains (0, 4000) units = (0, 4e9) micro-units.
    let mut entities = vec![entity(400_000, 0, 1_000_000, 0)];
    apply_impulse(0, &mut entities);
    assert_eq!(entities[0].movement.impulse, Vec2Fixed { x: 0, y: 4_000_000_000 });
    // impulses accumulate across frames until the backend clears them
    apply_impulse(0, &mut entities);
    assert_eq!(entities[0].movement.impulse, Vec2Fixed { x: 0, y: 8_000_000_000 });
}

#[test]
fn degenerate_up_vector_yields_zero_impulse() {
    let mut entities = vec![entity(400_000, 0, 0, 0)];
    apply_impulse(20_000, &mut entities);
    assert_eq!(entities[0].movement.impulse, Vec2Fixed { x: 0, y: 0 });
}

#[test]
fn exhaust_tracks_power() {
    // power 0.4: rate 1000 * 0.4 = 400/s, speed centre 500 * 0.4 = 200,
    // jitter 0 .. 100 * (1 + 0.4) = 0 .. 140
    let c = exhaust_config(400_000);
    assert_eq!(c.spawn_rate, 400_000_000);
    assert_eq!(c.speed_center, 200_000_000);
    assert_eq!(c.jitter_min, 0);
    assert_eq!(c.jitter_max, 140_000_000);
    // zero power: emitter off, jitter span 0 .. 100
    let c0 = exhaust_config(0);
    assert_eq!(c0.spawn_rate, 0);
    assert_eq!(c0.speed_center, 0);
    assert_eq!(c0.jitter_max, 100_000_000);
}

#[test]
fn exhaust_depends_on_power_alone() {
    // two entities with different histories but equal power end the frame
    // with identical emitter configurations
    let mut a = vec![entity(100_000, 0, 1_000_000, 2)];
    let mut b = vec![entity(104_000, 1_000_000, 0, 1)];
    // bring b to 100000 by one decayed frame, a by a zero-length frame
    apply_impulse(20_000, &mut b);
    apply_impulse(0, &mut a);
    assert_eq!(a[0].movement.engine_power.0, b[0].movement.engine_power.0);
    apply_impulse(0, &mut a);
    apply_impulse(0, &mut b);
    assert_eq!(a[0].emitters[0], b[0].emitters[0]);
    assert_eq!(a[0].emitters[1], b[0].emitters[0]);
}

#[test]
fn emitters_are_rewritten_every_frame() {
    let mut entities = vec![entity(200_000, 0, 1_000_000, 1)];
    apply_impulse(0, &mut entities);
    assert_eq!(entities[0].emitters[0].spawn_rate, 200_000_000);
    // absence of an emitter is a silent no-op
    let mut bare = vec![entity(200_000, 0, 1_000_000, 0)];
    apply_impulse(0, &mut bare);
    assert_eq!(bare[0].emitters.len(), 0);
}

#[test]
fn bundles_start_inert() {
    let b = MovementBundle::new(200_000);
    assert_eq!(b.engine_power, EnginePower(200_000));
    assert_eq!(b.impulse, Vec2Fixed { x: 0, y: 0 });
    assert_eq!(b.angular_impulse, 0);
    let d = MovementBundle::default();
    assert_eq!(d.engine_power.0, 0);
    let c = CharacterControllerBundle::new();
    assert_eq!(c.movement.engine_power.0, 0);
    let c = CharacterControllerBundle::new().with_movement(200_000);
    assert_eq!(c.movement.engine_power.0, 200_000);
    assert_eq!(c.movement.angular_impulse, 0);
}
