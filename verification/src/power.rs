//! The engine-power resource: per-frame gain while thrust is held,
//! unconditional per-frame decay clamped at zero, and the exhaust
//! parameters derived from the current power.

use vstd::prelude::*;
use vstd::arithmetic::mul::*;
use vstd::arithmetic::div_mod::*;
use crate::MICRO;

verus! {

/// Engine power gained per second of held thrust, in micro-units
/// (0.4 power per second).
pub const THRUST_GAIN_RATE: u64 = 400_000;

/// Engine power drained per second, in micro-units (0.2 power per second).
pub const POWER_DECAY_RATE: u64 = 200_000;

/// Factor from engine power to exhaust particle emission rate
/// (1000 particles per second per power unit).
pub const EXHAUST_RATE_SCALE: u64 = 1_000;

/// Factor from engine power to the centre of the initial particle speed
/// (500 speed units per power unit).
pub const EXHAUST_SPEED_SCALE: u64 = 500;

/// Factor for the width of the particle speed jitter span, which covers
/// `0 .. 100 * (1 + power)`.
pub const EXHAUST_JITTER_SCALE: u64 = 100;

/// Largest engine power the fixed-point impulse and exhaust arithmetic
/// accepts without overflowing 64 bits (nine hundred million power units,
/// far beyond what per-frame gains can accumulate in practice).
pub const POWER_LIMIT: u64 = 900_000_000_000_000;

/// The engine-power resource of one controlled entity, in micro-units.
/// The unsigned representation keeps the resource non-negative after every
/// mutation.
#[derive(Clone, Copy, PartialEq, Eq, Structural, Debug)]
pub struct EnginePower(pub u64);

/// Subtraction clamped at zero.
pub open spec fn clamped_sub(p: int, d: int) -> int {
    if p - d >= 0 {
        p - d
    } else {
        0
    }
}

/// One frame's power gain from one thrust event, for a frame lasting `dt`
/// microseconds.
pub open spec fn gain_amount(dt: u64) -> int {
    THRUST_GAIN_RATE * dt / (MICRO as int)
}

/// One frame's unconditional power decay, for a frame lasting `dt`
/// microseconds.
pub open spec fn decay_amount(dt: u64) -> int {
    POWER_DECAY_RATE * dt / (MICRO as int)
}

/// A per-second rate applied over `dt` microseconds, floored to micro-units.
fn scaled_rate(rate: u64, dt: u64) -> (r: u64)
    requires
        rate <= MICRO,
    ensures
        r == rate * dt / (MICRO as int),
{
    proof {
        assert(rate * dt <= 1_000_000 * (u64::MAX as int)) by (nonlinear_arith)
            requires
                rate <= 1_000_000,
                dt <= u64::MAX,
        ;
    }
    let wide: u128 = (rate as u128) * (dt as u128);
    let r: u128 = wide / (MICRO as u128);
    proof {
        assert((rate * dt) as int / 1_000_000 <= dt as int) by (nonlinear_arith)
            requires
                rate <= 1_000_000,
        ;
    }
    r as u64
}

/// Per-frame power gain from one thrust event.
pub fn gain_for(dt: u64) -> (g: u64)
    ensures
        g == gain_amount(dt),
{
    scaled_rate(THRUST_GAIN_RATE, dt)
}

/// Per-frame unconditional power decay.
pub fn decay_for(dt: u64) -> (d: u64)
    ensures
        d == decay_amount(dt),
{
    scaled_rate(POWER_DECAY_RATE, dt)
}

/// The per-entity configuration this core writes to an attached particle
/// emitter each frame: emission rate, centre of the initial speed, and the
/// jitter span around it, all in micro-units.
#[derive(Clone, Copy, PartialEq, Eq, Structural, Debug)]
pub struct ExhaustConfig {
    pub spawn_rate: u64,
    pub speed_center: u64,
    pub jitter_min: u64,
    pub jitter_max: u64,
}

/// What the exhaust parameters must be for engine power `p`: rate and speed
/// proportional to the power, and a jitter span `0 .. 100 * (1 + power)`
/// that widens as power increases.
pub open spec fn exhaust_matches(c: ExhaustConfig, p: int) -> bool {
    &&& c.spawn_rate == EXHAUST_RATE_SCALE * p
    &&& c.speed_center == EXHAUST_SPEED_SCALE * p
    &&& c.jitter_min == 0
    &&& c.jitter_max == EXHAUST_JITTER_SCALE * (MICRO + p)
}

/// Derives the exhaust parameters from the current engine power. The result
/// depends on the power alone.
pub fn exhaust_config(power: u64) -> (c: ExhaustConfig)
    requires
        power <= POWER_LIMIT,
    ensures
        exhaust_matches(c, power as int),
{
    ExhaustConfig {
        spawn_rate: EXHAUST_RATE_SCALE * power,
        speed_center: EXHAUST_SPEED_SCALE * power,
        jitter_min: 0,
        jitter_max: EXHAUST_JITTER_SCALE * (MICRO + power),
    }
}

/// Exhaust parameters are a pure function of engine power: any two emitter
/// configurations derived from equal power values are identical, whatever
/// the emitters held before.
pub proof fn lemma_exhaust_pure(c1: ExhaustConfig, c2: ExhaustConfig, p: int)
    requires
        exhaust_matches(c1, p),
        exhaust_matches(c2, p),
    ensures
        c1 == c2,
{
}

/// Engine power after `k` frames that each drain `d` micro-units and clamp
/// at zero, starting from `p`.
pub open spec fn decayed(p: int, d: int, k: nat) -> int
    decreases k,
{
    if k == 0 {
        p
    } else {
        clamped_sub(decayed(p, d, (k - 1) as nat), d)
    }
}

/// Closed form of repeated decay: after `k` frames without thrust the power
/// is `max(0, p - k * d)`.
pub proof fn lemma_decay_closed_form(p: int, d: int, k: nat)
    requires
        p >= 0,
        d >= 0,
    ensures
        decayed(p, d, k) == clamped_sub(p, k * d),
    decreases k,
{
    if k == 0 {
        assert(k * d == 0);
    } else {
        lemma_decay_closed_form(p, d, (k - 1) as nat);
        assert((k - 1) * d == k * d - d) by (nonlinear_arith);
    }
}

/// Without thrust, engine power is monotonically non-increasing from frame
/// to frame.
pub proof fn lemma_decay_monotone(p: int, d: int, k1: nat, k2: nat)
    requires
        p >= 0,
        d >= 0,
        k1 <= k2,
    ensures
        decayed(p, d, k2) <= decayed(p, d, k1),
{
    lemma_decay_closed_form(p, d, k1);
    lemma_decay_closed_form(p, d, k2);
    lemma_mul_inequality(k1 as int, k2 as int, d);
}

/// Engine power never goes negative, however many frames decay it.
pub proof fn lemma_decay_nonnegative(p: int, d: int, k: nat)
    requires
        p >= 0,
        d >= 0,
    ensures
        decayed(p, d, k) >= 0,
{
    lemma_decay_closed_form(p, d, k);
}

/// Number of frames needed to drain `p` micro-units at `d` micro-units per
/// frame: the ceiling of `p / d`.
pub open spec fn frames_to_zero(p: int, d: int) -> int {
    (p + d - 1) / d
}

/// With a positive per-frame drain and no thrust, engine power reaches
/// exactly zero within `ceil(p / d)` frames: it is still positive at every
/// earlier frame, zero at that frame, and zero ever after.
pub proof fn lemma_decay_reaches_zero(p: int, d: int)
    requires
        p >= 0,
        d >= 1,
    ensures
        forall|k: nat| k < frames_to_zero(p, d) ==> decayed(p, d, k) > 0,
        forall|k: nat| k >= frames_to_zero(p, d) ==> decayed(p, d, k) == 0,
{
    let c = frames_to_zero(p, d);
    lemma_fundamental_div_mod(p + d - 1, d);
    lemma_mod_bound(p + d - 1, d);
    assert(c * d == d * c) by (nonlinear_arith);
    assert(c * d >= p);
    assert forall|k: nat| k < c implies decayed(p, d, k) > 0 by {
        lemma_decay_closed_form(p, d, k);
        lemma_mul_inequality(k as int, c - 1, d);
        assert((c - 1) * d == c * d - d) by (nonlinear_arith);
    }
    assert forall|k: nat| k >= c implies decayed(p, d, k) == 0 by {
        lemma_decay_closed_form(p, d, k);
        lemma_mul_inequality(c, k as int, d);
    }
}

} // verus!
