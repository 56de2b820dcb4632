//! The flight model: how control input, the flight envelope and the current
//! attitude turn into new speeds, a displacement and a rotation to apply.
//!
//! Everything here is a function of plain values. The stores that hold the
//! values, and the caller that applies the resulting rotation to an
//! orientation, sit on top of it.
use vstd::prelude::*;
use crate::fixed::{
    fx_abs, fx_div, fx_limit, fx_mul, fx_neg, fx_sign, fx_sub, limit, magnitude, minus, over,
    saturate, sign_of, times, UNIT,
};
use crate::vector::Vec3;

verus! {

/// A speed closer to zero than this becomes exactly zero.
pub const DEAD_ZONE: i64 = 1_000;

/// Stick input or attitude closer to zero than this counts as none.
pub const DEADBAND: i64 = 10_000;

/// Value of the pitch proxy (the height of the forward vector) beyond which
/// the nose may not be pushed further.
pub const PITCH_THRESHOLD: i64 = 900_000;

/// Bank, as the height of the right vector, that a full-rate turn in level
/// flight aims for.
pub const ROLL_THRESHOLD: i64 = 200_000;

/// Share of the remaining turn toward the target heading that a computer
/// pilot makes per unit of time.
pub const AI_TURN_RATE: i64 = 3_000_000;

/// Altitude difference up to which a computer pilot holds its height.
pub const AI_ALTITUDE_BAND: i64 = 500_000;

/// A computer pilot flies at the squared horizontal distance to its target
/// divided by this, within its envelope.
pub const AI_DISTANCE_DIVISOR: i64 = 100;

/// Limits and accelerations of one aircraft, fixed when it is spawned.
#[derive(Clone, Copy, Debug, PartialEq, Eq, Structural)]
pub struct Envelope {
    pub max_speed: i64,
    pub min_speed: i64,
    pub acceleration: i64,
    pub yaw_max_speed: i64,
    pub yaw_acceleration: i64,
    pub pitch_max_speed: i64,
    pub pitch_acceleration: i64,
}

/// Reason for which an envelope is refused.
#[derive(Clone, Copy, Debug, PartialEq, Eq, Structural)]
pub enum EnvelopeError {
    /// `yaw_max_speed` is zero or negative; banking divides by it.
    YawMaxSpeedNotPositive,
    /// `pitch_max_speed` is negative.
    PitchMaxSpeedNegative,
    /// `min_speed` lies above `max_speed`.
    SpeedRangeEmpty,
}

/// What changes from tick to tick in one aircraft.
#[derive(Clone, Copy, Debug, PartialEq, Eq, Structural)]
pub struct FlightState {
    /// Forward speed.
    pub throttle: i64,
    /// Signed pitch rate.
    pub pitch_speed: i64,
    /// Signed yaw rate.
    pub yaw_speed: i64,
}

/// The commands of one tick.
#[derive(Clone, Copy, Debug, PartialEq, Eq, Structural)]
pub struct ControlInput {
    pub pitch: i64,
    pub yaw: i64,
    pub throttle: i64,
    pub reset_transform: bool,
}

/// Direction vectors derived from an entity's orientation, each of unit length.
#[derive(Clone, Copy, Debug, PartialEq, Eq, Structural)]
pub struct Attitude {
    /// The orientation applied to `+Z`.
    pub forward: Vec3,
    /// The orientation applied to `+X`.
    pub right: Vec3,
}

/// What the caller has to do to an aircraft's orientation after a tick.
#[derive(Clone, Copy, Debug, PartialEq, Eq, Structural)]
pub enum FlightAction {
    /// The spawn pose was restored; the orientation is final.
    Reset,
    /// Rotate about the leveled right axis by `pitch_delta`, then about the
    /// world's up axis by `yaw_delta`, then about the leveled forward axis by
    /// the negated roll correction. The roll correction is
    /// `-current_roll + ROLL_THRESHOLD * sin(quarter turn * bank)`.
    Rotate { pitch_delta: i64, yaw_delta: i64, current_roll: i64, bank: i64 },
    /// Turn from the current heading toward the horizontal direction `toward`,
    /// covering the share `fraction` of the way.
    Pursue { toward: Vec3, fraction: i64 },
}

/// Outcome of one tick of a human-piloted aircraft.
#[derive(Clone, Copy, Debug, PartialEq, Eq, Structural)]
pub struct PlayerTick {
    pub state: FlightState,
    /// Displacement of the aircraft; zero after a reset.
    pub translation: Vec3,
    pub action: FlightAction,
}

/// Outcome of one tick of a computer-piloted aircraft.
#[derive(Clone, Copy, Debug, PartialEq, Eq, Structural)]
pub struct AiTick {
    pub translation: Vec3,
    pub action: FlightAction,
}

impl Envelope {
    /// The envelope can be flown: banking has a positive yaw limit to divide
    /// by, the pitch limit is no negative number, the speed range is not empty.
    pub open spec fn valid(self) -> bool {
        &&& self.yaw_max_speed > 0
        &&& self.pitch_max_speed >= 0
        &&& self.min_speed <= self.max_speed
    }

    /// The first reason, in the order of `EnvelopeError`, for which the
    /// envelope is refused.
    pub open spec fn defect(self) -> Option<EnvelopeError> {
        if self.yaw_max_speed <= 0 {
            Some(EnvelopeError::YawMaxSpeedNotPositive)
        } else if self.pitch_max_speed < 0 {
            Some(EnvelopeError::PitchMaxSpeedNegative)
        } else if self.min_speed > self.max_speed {
            Some(EnvelopeError::SpeedRangeEmpty)
        } else {
            None
        }
    }

    /// Checks the envelope; `Ok` exactly for a valid one.
    pub fn validate(&self) -> (r: Result<(), EnvelopeError>)
        ensures
            r.is_ok() <==> self.valid(),
            match r {
                Ok(_) => self.defect().is_none(),
                Err(e) => self.defect() == Some(e),
            },
    {
        if self.yaw_max_speed <= 0 {
            Err(EnvelopeError::YawMaxSpeedNotPositive)
        } else if self.pitch_max_speed < 0 {
            Err(EnvelopeError::PitchMaxSpeedNegative)
        } else if self.min_speed > self.max_speed {
            Err(EnvelopeError::SpeedRangeEmpty)
        } else {
            Ok(())
        }
    }
}

/// The shared integrator: `current + input * acceleration * dt`, limited to
/// `[min_speed, max_speed]` with the upper limit tested first, and then
/// snapped to zero inside the dead zone. The snap applies to the limited
/// value, so a limit that lies inside the dead zone gives zero as well.
pub open spec fn accumulated_speed(
    current: int,
    input: int,
    acceleration: int,
    min_speed: int,
    max_speed: int,
    dt: int,
) -> int {
    let speed = limit(current + times(times(input, acceleration), dt), min_speed, max_speed);
    if magnitude(speed) < DEAD_ZONE {
        0
    } else {
        speed
    }
}

/// Integrates a speed or an angular rate over one tick.
pub fn calculate_accumulated_speed(
    current_speed: i64,
    input: i64,
    acceleration: i64,
    min_speed: i64,
    max_speed: i64,
    dt: i64,
) -> (speed: i64)
    ensures
        speed == accumulated_speed(
            current_speed as int,
            input as int,
            acceleration as int,
            min_speed as int,
            max_speed as int,
            dt as int,
        ),
{
    let delta = fx_mul(fx_mul(input, acceleration), dt);
    let sum: i128 = current_speed as i128 + delta as i128;
    let speed: i64 = if sum > max_speed as i128 {
        max_speed
    } else if sum < min_speed as i128 {
        min_speed
    } else {
        sum as i64
    };
    if -DEAD_ZONE < speed && speed < DEAD_ZONE {
        0
    } else {
        speed
    }
}

/// An angular rate after one tick. With the stick released (`input` inside the
/// deadband) the rate is driven back: where `level` is inside the deadband too
/// it starts from zero with no input, elsewhere the input opposes the sign of
/// the rate. The limits are `-max_rate` and `max_rate`.
pub open spec fn shaped_rate(
    rate: int,
    input: int,
    level: int,
    acceleration: int,
    max_rate: int,
    dt: int,
) -> int {
    let lowest = saturate(-max_rate);
    if magnitude(input) < DEADBAND {
        if magnitude(level) < DEADBAND {
            accumulated_speed(0, 0, acceleration, lowest, max_rate, dt)
        } else {
            accumulated_speed(rate, -sign_of(rate), acceleration, lowest, max_rate, dt)
        }
    } else {
        accumulated_speed(rate, input, acceleration, lowest, max_rate, dt)
    }
}

/// Shapes the stick input of one axis and integrates the rate of that axis.
pub fn shape_rate(rate: i64, input: i64, level: i64, acceleration: i64, max_rate: i64, dt: i64)
    -> (r: i64)
    ensures
        r == shaped_rate(
            rate as int,
            input as int,
            level as int,
            acceleration as int,
            max_rate as int,
            dt as int,
        ),
{
    let lowest = fx_neg(max_rate);
    let mut rate = rate;
    let mut input = input;
    if input > -DEADBAND && input < DEADBAND {
        if level > -DEADBAND && level < DEADBAND {
            input = 0;
            rate = 0;
        } else {
            input = -fx_sign(rate);
        }
    }
    calculate_accumulated_speed(rate, input, acceleration, lowest, max_rate, dt)
}

/// Whether a rate applied over the time step raises the value it acts on:
/// the product of the two is above zero. This is the sign of the product
/// itself, whatever the product rounds to.
pub open spec fn raises(rate: int, dt: int) -> bool {
    (rate > 0 && dt > 0) || (rate < 0 && dt < 0)
}

/// Whether a rate applied over the time step lowers the value it acts on: the
/// product of the two is below zero.
pub open spec fn lowers(rate: int, dt: int) -> bool {
    (rate < 0 && dt > 0) || (rate > 0 && dt < 0)
}

/// Whether the nose is beyond the pitch limit on the side toward which the
/// pitch rate pushes it further over the time step.
pub open spec fn pitch_worsens(current_pitch: int, pitch_speed: int, dt: int) -> bool {
    ||| (current_pitch < -(PITCH_THRESHOLD as int) && lowers(pitch_speed, dt))
    ||| (current_pitch > PITCH_THRESHOLD as int && raises(pitch_speed, dt))
}

/// Pitch step and pitch rate after the pitch limit: both zero where the rate
/// would worsen a pitch already beyond the limit, else `pitch_speed * dt` and
/// the rate as it is.
pub open spec fn limited_pitch(current_pitch: int, pitch_speed: int, dt: int) -> (int, int) {
    if pitch_worsens(current_pitch, pitch_speed, dt) {
        (0, 0)
    } else {
        (times(pitch_speed, dt), pitch_speed)
    }
}

/// Applies the pitch limit; returns the pitch step and the pitch rate.
pub fn limit_pitch(current_pitch: i64, pitch_speed: i64, dt: i64) -> (r: (i64, i64))
    ensures
        r.0 == limited_pitch(current_pitch as int, pitch_speed as int, dt as int).0,
        r.1 == limited_pitch(current_pitch as int, pitch_speed as int, dt as int).1,
{
    let raises = (pitch_speed > 0 && dt > 0) || (pitch_speed < 0 && dt < 0);
    let lowers = (pitch_speed < 0 && dt > 0) || (pitch_speed > 0 && dt < 0);
    if (current_pitch < -PITCH_THRESHOLD && lowers) || (current_pitch > PITCH_THRESHOLD
        && raises) {
        (0, 0)
    } else {
        (fx_mul(pitch_speed, dt), pitch_speed)
    }
}

/// How far the aircraft banks, as a share of a quarter turn of the bank
/// curve: the yaw rate as a share of its limit, reduced as the pitch proxy
/// nears the pitch limit.
pub open spec fn bank_share(yaw_speed: int, yaw_max_speed: int, current_pitch: int) -> int {
    let pitch_percent = saturate(magnitude(over(current_pitch, PITCH_THRESHOLD as int)));
    times(over(yaw_speed, yaw_max_speed), minus(UNIT as int, pitch_percent))
}

/// Computes the bank share.
pub fn bank(yaw_speed: i64, yaw_max_speed: i64, current_pitch: i64) -> (r: i64)
    requires
        yaw_max_speed != 0,
    ensures
        r == bank_share(yaw_speed as int, yaw_max_speed as int, current_pitch as int),
{
    let pitch_percent = fx_abs(fx_div(current_pitch, PITCH_THRESHOLD));
    fx_mul(fx_div(yaw_speed, yaw_max_speed), fx_sub(UNIT, pitch_percent))
}

/// One tick of a human-piloted aircraft.
///
/// The throttle is integrated first. On a reset command nothing else happens.
/// Otherwise the aircraft moves along `forward` by `throttle * dt`, the pitch
/// and yaw rates are shaped and integrated, the pitch limit is applied, and
/// the rotation to make is described by the action.
pub open spec fn player_tick(
    state: FlightState,
    envelope: Envelope,
    input: ControlInput,
    attitude: Attitude,
    dt: int,
) -> PlayerTick {
    let throttle = accumulated_speed(
        state.throttle as int,
        input.throttle as int,
        envelope.acceleration as int,
        envelope.min_speed as int,
        envelope.max_speed as int,
        dt,
    );
    if input.reset_transform {
        PlayerTick {
            state: FlightState { throttle: throttle as i64, ..state },
            translation: Vec3 { x: 0, y: 0, z: 0 },
            action: FlightAction::Reset,
        }
    } else {
        let current_pitch = attitude.forward.y as int;
        let current_roll = attitude.right.y as int;
        let shaped_pitch = shaped_rate(
            state.pitch_speed as int,
            input.pitch as int,
            current_pitch,
            envelope.pitch_acceleration as int,
            envelope.pitch_max_speed as int,
            dt,
        );
        let yaw_speed = shaped_rate(
            state.yaw_speed as int,
            input.yaw as int,
            state.yaw_speed as int,
            envelope.yaw_acceleration as int,
            envelope.yaw_max_speed as int,
            dt,
        );
        let (pitch_delta, pitch_speed) = limited_pitch(current_pitch, shaped_pitch, dt);
        PlayerTick {
            state: FlightState {
                throttle: throttle as i64,
                pitch_speed: pitch_speed as i64,
                yaw_speed: yaw_speed as i64,
            },
            translation: attitude.forward.scaled(throttle).scaled(dt),
            action: FlightAction::Rotate {
                pitch_delta: pitch_delta as i64,
                yaw_delta: times(yaw_speed, dt) as i64,
                current_roll: current_roll as i64,
                bank: bank_share(yaw_speed, envelope.yaw_max_speed as int, current_pitch) as i64,
            },
        }
    }
}

/// Computes one tick of a human-piloted aircraft.
pub fn plan_player_tick(
    state: FlightState,
    envelope: Envelope,
    input: ControlInput,
    attitude: Attitude,
    dt: i64,
) -> (tick: PlayerTick)
    requires
        envelope.yaw_max_speed != 0,
    ensures
        tick == player_tick(state, envelope, input, attitude, dt as int),
{
    let throttle = calculate_accumulated_speed(
        state.throttle,
        input.throttle,
        envelope.acceleration,
        envelope.min_speed,
        envelope.max_speed,
        dt,
    );
    if input.reset_transform {
        return PlayerTick {
            state: FlightState {
                throttle,
                pitch_speed: state.pitch_speed,
                yaw_speed: state.yaw_speed,
            },
            translation: Vec3::zero(),
            action: FlightAction::Reset,
        };
    }
    let translation = attitude.forward.scale(throttle).scale(dt);
    let current_pitch = attitude.forward.y;
    let current_roll = attitude.right.y;
    let shaped_pitch = shape_rate(
        state.pitch_speed,
        input.pitch,
        current_pitch,
        envelope.pitch_acceleration,
        envelope.pitch_max_speed,
        dt,
    );
    let yaw_speed = shape_rate(
        state.yaw_speed,
        input.yaw,
        state.yaw_speed,
        envelope.yaw_acceleration,
        envelope.yaw_max_speed,
        dt,
    );
    let (pitch_delta, pitch_speed) = limit_pitch(current_pitch, shaped_pitch, dt);
    let yaw_delta = fx_mul(yaw_speed, dt);
    let bank = bank(yaw_speed, envelope.yaw_max_speed, current_pitch);
    PlayerTick {
        state: FlightState { throttle, pitch_speed, yaw_speed },
        translation,
        action: FlightAction::Rotate { pitch_delta, yaw_delta, current_roll, bank },
    }
}

/// One tick of a computer-piloted aircraft at `position` that pursues a
/// target at `target`.
///
/// It turns toward the target in the horizontal plane, climbs or sinks at
/// unit rate once the altitudes differ by more than the altitude band, and
/// flies at the squared horizontal distance over the distance divisor, kept
/// within its speed range.
pub open spec fn ai_tick(
    position: Vec3,
    target: Vec3,
    forward: Vec3,
    envelope: Envelope,
    dt: int,
) -> AiTick {
    let toward = (Vec3 { x: target.x, y: position.y, z: target.z }).offset_from(position);
    let y_diff = minus(target.y as int, position.y as int);
    let climb = if magnitude(y_diff) > AI_ALTITUDE_BAND {
        sign_of(y_diff)
    } else {
        0
    };
    let speed = limit(
        over(toward.norm_squared(), AI_DISTANCE_DIVISOR * UNIT),
        envelope.min_speed as int,
        envelope.max_speed as int,
    );
    AiTick {
        translation: (Vec3 { x: forward.x, y: climb as i64, z: forward.z }).scaled(speed).scaled(
            dt,
        ),
        action: FlightAction::Pursue {
            toward,
            fraction: times(AI_TURN_RATE as int, dt) as i64,
        },
    }
}

/// Computes one tick of a computer-piloted aircraft.
pub fn plan_ai_tick(position: Vec3, target: Vec3, forward: Vec3, envelope: Envelope, dt: i64)
    -> (tick: AiTick)
    requires
        envelope.min_speed <= envelope.max_speed,
    ensures
        tick == ai_tick(position, target, forward, envelope, dt as int),
{
    let leveled = Vec3 { x: target.x, y: position.y, z: target.z };
    let toward = leveled.difference(position);
    let y_diff = fx_sub(target.y, position.y);
    let climb = if y_diff > AI_ALTITUDE_BAND || y_diff < -AI_ALTITUDE_BAND {
        fx_sign(y_diff)
    } else {
        0
    };
    let speed = fx_limit(
        fx_div(toward.magnitude2(), AI_DISTANCE_DIVISOR * UNIT),
        envelope.min_speed,
        envelope.max_speed,
    );
    let heading = Vec3 { x: forward.x, y: climb, z: forward.z };
    AiTick {
        translation: heading.scale(speed).scale(dt),
        action: FlightAction::Pursue { toward, fraction: fx_mul(AI_TURN_RATE, dt) },
    }
}

/// `steps` ticks of the integrator without input.
pub open spec fn coasted(
    current: int,
    acceleration: int,
    min_speed: int,
    max_speed: int,
    dt: int,
    steps: nat,
) -> int
    decreases steps,
{
    if steps == 0 {
        current
    } else {
        accumulated_speed(
            coasted(current, acceleration, min_speed, max_speed, dt, (steps - 1) as nat),
            0,
            acceleration,
            min_speed,
            max_speed,
            dt,
        )
    }
}

/// A speed that rests at zero or at one of its limits stays there for any
/// number of ticks without input, provided that the range is not empty, that
/// the speed lies in it, and that it is zero or outside the dead zone.
pub proof fn law_rest_at_bounds(
    current: int,
    acceleration: int,
    min_speed: int,
    max_speed: int,
    dt: int,
    steps: nat,
)
    requires
        min_speed <= current <= max_speed,
        current == 0 || current == min_speed || current == max_speed,
        current == 0 || magnitude(current) >= DEAD_ZONE,
    ensures
        accumulated_speed(current, 0, acceleration, min_speed, max_speed, dt) == current,
        coasted(current, acceleration, min_speed, max_speed, dt, steps) == current,
    decreases steps,
{
    assert(times(0, acceleration) == 0);
    assert(times(0, dt) == 0);
    if steps > 0 {
        law_rest_at_bounds(current, acceleration, min_speed, max_speed, dt, (steps - 1) as nat);
    }
}

/// The integrator never returns a speed inside the dead zone other than
/// zero, whatever its arguments.
pub proof fn law_dead_zone_snap(
    current: int,
    input: int,
    acceleration: int,
    min_speed: int,
    max_speed: int,
    dt: int,
)
    ensures
        accumulated_speed(current, input, acceleration, min_speed, max_speed, dt) == 0
            || magnitude(accumulated_speed(current, input, acceleration, min_speed, max_speed, dt))
            >= DEAD_ZONE,
{
}

/// Once the pitch proxy is beyond the pitch limit and the shaped pitch rate
/// pushes it further over the time step, the tick turns the nose by nothing
/// and leaves no pitch rate, however small the rate and the time step are.
pub proof fn law_pitch_limit(
    state: FlightState,
    envelope: Envelope,
    input: ControlInput,
    attitude: Attitude,
    dt: int,
)
    requires
        !input.reset_transform,
        pitch_worsens(
            attitude.forward.y as int,
            shaped_rate(
                state.pitch_speed as int,
                input.pitch as int,
                attitude.forward.y as int,
                envelope.pitch_acceleration as int,
                envelope.pitch_max_speed as int,
                dt,
            ),
            dt,
        ),
    ensures
        player_tick(state, envelope, input, attitude, dt).state.pitch_speed == 0,
        player_tick(state, envelope, input, attitude, dt).action matches FlightAction::Rotate {
            pitch_delta,
            ..
        } && pitch_delta == 0,
{
}

/// A product of two scalars has the sign that the signs of the two give it,
/// or is zero.
pub proof fn law_times_sign(a: int, b: int)
    ensures
        (a >= 0 && b >= 0) || (a <= 0 && b <= 0) ==> times(a, b) >= 0,
        (a >= 0 && b <= 0) || (a <= 0 && b >= 0) ==> times(a, b) <= 0,
{
    assert((a >= 0 && b >= 0) || (a <= 0 && b <= 0) ==> a * b >= 0) by (nonlinear_arith);
    assert((a >= 0 && b <= 0) || (a <= 0 && b >= 0) ==> a * b <= 0) by (nonlinear_arith);
}

/// With the nose beyond the pitch limit, the stick held toward the same side
/// and a pitch rate that does not point back, one more tick leaves no pitch
/// rate and turns the nose by nothing.
pub proof fn law_pitch_limit_holds(
    state: FlightState,
    envelope: Envelope,
    input: ControlInput,
    attitude: Attitude,
    dt: int,
)
    requires
        !input.reset_transform,
        dt > 0,
        envelope.pitch_acceleration >= 0,
        envelope.pitch_max_speed >= 0,
        (attitude.forward.y > PITCH_THRESHOLD && input.pitch >= DEADBAND && state.pitch_speed
            >= 0) || (attitude.forward.y < -PITCH_THRESHOLD && input.pitch <= -DEADBAND
            && state.pitch_speed <= 0),
    ensures
        player_tick(state, envelope, input, attitude, dt).state.pitch_speed == 0,
        player_tick(state, envelope, input, attitude, dt).action matches FlightAction::Rotate {
            pitch_delta,
            ..
        } && pitch_delta == 0,
{
    let push = times(input.pitch as int, envelope.pitch_acceleration as int);
    law_times_sign(input.pitch as int, envelope.pitch_acceleration as int);
    law_times_sign(push, dt);
    assert(times(0, dt) == 0);
}

/// With the stick released in level flight the pitch rate is zero after the
/// tick, whatever it was before.
pub proof fn law_level_release(
    rate: int,
    input: int,
    level: int,
    acceleration: int,
    max_rate: int,
    dt: int,
)
    requires
        magnitude(input) < DEADBAND,
        magnitude(level) < DEADBAND,
        0 <= max_rate <= i64::MAX,
    ensures
        shaped_rate(rate, input, level, acceleration, max_rate, dt) == 0,
{
    assert(times(0, acceleration) == 0);
    assert(times(0, dt) == 0);
}

/// A reset command leaves the angular rates as they were and moves nothing.
pub proof fn law_reset_keeps_rates(
    state: FlightState,
    envelope: Envelope,
    input: ControlInput,
    attitude: Attitude,
    dt: int,
)
    requires
        input.reset_transform,
    ensures
        player_tick(state, envelope, input, attitude, dt).state.pitch_speed == state.pitch_speed,
        player_tick(state, envelope, input, attitude, dt).state.yaw_speed == state.yaw_speed,
        player_tick(state, envelope, input, attitude, dt).action == FlightAction::Reset,
{
}

} // verus!
