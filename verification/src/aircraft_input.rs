//! Control input of every aircraft: the commands of the running tick and,
//! for computer pilots, the state of their pursuit heuristic.
use vstd::prelude::*;
use crate::fixed::{fx_add, fx_limit, fx_sub, limit, minus, plus, UNIT};
use crate::flight::ControlInput;
use crate::keyboard_manager::{KeyboardMgr, KEYCODE_COUNT};

verus! {

pub const MAX_INSTANCE_COUNT: usize = 128;

/// Seed of the generator behind the computer pilots' randomness.
pub const RNG_SEED: u64 = 1234;

/// Height below which a computer pilot pulls up, whatever its target does.
pub const AI_SAFE_HEIGHT: i64 = 5_000_000;

/// Alignment with the target heading from which a computer pilot stops
/// turning.
pub const AI_ALIGNED: i64 = 990_000;

/// Who flies an aircraft.
#[derive(Clone, Copy, Debug, PartialEq, Eq, Structural)]
pub enum AircraftPilot {
    Player,
    Ai,
}

/// The generator type of the `oorandom` crate; its state is opaque here.
#[verifier::external_type_specification]
#[verifier::external_body]
pub struct ExRand32(oorandom::Rand32);

/// `oorandom::Rand32::new` makes a generator from a seed. Nothing is claimed
/// of the generator.
pub assume_specification[ oorandom::Rand32::new ](seed: u64) -> (rng: oorandom::Rand32);

/// `oorandom::Rand32::rand_range` draws a number from a half-open range. It
/// must not be called with an empty range, and its result lies in the range:
/// not below the start, below the end.
pub assume_specification[ oorandom::Rand32::rand_range ](
    rng: &mut oorandom::Rand32,
    range: core::ops::Range<u32>,
) -> (r: u32)
    requires
        range.start < range.end,
    ensures
        range.start <= r < range.end,
;

/// `oorandom::Rand32::rand_u32` draws any 32-bit word. Nothing is claimed of
/// the word.
pub assume_specification[ oorandom::Rand32::rand_u32 ](rng: &mut oorandom::Rand32) -> (r: u32);

/// The key codes that steer a human-piloted aircraft.
#[derive(Clone, Copy, Debug, PartialEq, Eq, Structural)]
pub struct KeyBindings {
    pub pitch_down: usize,
    pub pitch_up: usize,
    pub yaw_left: usize,
    pub yaw_right: usize,
    pub throttle_up: usize,
    pub throttle_down: usize,
    pub reset: usize,
}

impl KeyBindings {
    /// Every binding is a key code that the keyboard state has room for.
    pub open spec fn valid(self) -> bool {
        &&& self.pitch_down < KEYCODE_COUNT
        &&& self.pitch_up < KEYCODE_COUNT
        &&& self.yaw_left < KEYCODE_COUNT
        &&& self.yaw_right < KEYCODE_COUNT
        &&& self.throttle_up < KEYCODE_COUNT
        &&& self.throttle_down < KEYCODE_COUNT
        &&& self.reset < KEYCODE_COUNT
    }

    pub fn is_valid(&self) -> (b: bool)
        ensures
            b == self.valid(),
    {
        self.pitch_down < KEYCODE_COUNT && self.pitch_up < KEYCODE_COUNT && self.yaw_left
            < KEYCODE_COUNT && self.yaw_right < KEYCODE_COUNT && self.throttle_up < KEYCODE_COUNT
            && self.throttle_down < KEYCODE_COUNT && self.reset < KEYCODE_COUNT
    }
}

/// An axis command after two opposite keys: `negative` held takes one unit
/// off, `positive` held adds one, and the sum is kept within `[-1, 1]`.
pub open spec fn keyed(command: int, negative: bool, positive: bool) -> int {
    let after_negative = if negative {
        plus(command, -(UNIT as int))
    } else {
        command
    };
    let after_both = if positive {
        plus(after_negative, UNIT as int)
    } else {
        after_negative
    };
    limit(after_both, -(UNIT as int), UNIT as int)
}

/// Applies two opposite keys to an axis command.
pub fn apply_keys(command: i64, negative: bool, positive: bool) -> (r: i64)
    ensures
        r == keyed(command as int, negative, positive),
        -UNIT <= r <= UNIT,
{
    let mut value = command;
    if negative {
        value = fx_add(value, -UNIT);
    }
    if positive {
        value = fx_add(value, UNIT);
    }
    fx_limit(value, -UNIT, UNIT)
}

/// The fractional part of a standoff height from one generator word: the
/// upper 24 bits of the word read as a binary fraction, in millionths.
pub open spec fn jitter_of(word: int) -> int {
    ((word / 256) * UNIT) / 16_777_216
}

/// Turns a generator word into a fraction in `[0, 1)`.
pub fn jitter_from_word(word: u32) -> (r: i64)
    ensures
        r == jitter_of(word as int),
        0 <= r < UNIT,
{
    let upper: u64 = (word / 256) as u64;
    let scaled: u64 = upper * 1_000_000;
    (scaled / 16_777_216) as i64
}

/// The standoff height made of a whole part and of the fraction that a
/// generator word gives.
pub open spec fn standoff_of(whole: int, word: int) -> int {
    whole * UNIT + jitter_of(word)
}

/// Puts a standoff height together from what the generator gave: a whole
/// part from `1..20` and a word for the fraction.
pub fn standoff_from(whole: u32, word: u32) -> (r: i64)
    requires
        1 <= whole < 20,
    ensures
        r == standoff_of(whole as int, word as int),
        UNIT <= r < 20 * UNIT,
{
    (whole as i64) * UNIT + jitter_from_word(word)
}

/// The commands that an aircraft reads as the outcome of `keys` on `input`.
pub open spec fn steered(input: ControlInput, keys: &KeyboardMgr, bindings: KeyBindings)
    -> ControlInput {
    ControlInput {
        pitch: keyed(
            input.pitch as int,
            keys.key_pressed@[bindings.pitch_down as int],
            keys.key_pressed@[bindings.pitch_up as int],
        ) as i64,
        yaw: keyed(
            input.yaw as int,
            keys.key_pressed@[bindings.yaw_left as int],
            keys.key_pressed@[bindings.yaw_right as int],
        ) as i64,
        throttle: keyed(
            input.throttle as int,
            keys.key_pressed@[bindings.throttle_down as int],
            keys.key_pressed@[bindings.throttle_up as int],
        ) as i64,
        reset_transform: keys.key_down@[bindings.reset as int],
    }
}

/// What the pursuit heuristic of a computer pilot decides in one tick.
#[derive(Clone, Copy, Debug, PartialEq, Eq, Structural)]
pub struct Pursuit {
    /// The commands of the tick.
    pub input: ControlInput,
    /// Alignment to remember for the next tick.
    pub yaw_dot: i64,
    /// Turning direction to remember for the next tick.
    pub yaw_sign: i64,
}

/// The pursuit heuristic.
///
/// Pitch: the pilot wants to be `standoff` above `target_altitude`. Below
/// the safe height it pulls up; elsewhere it pulls up while it is below the
/// height it wants, pushes down while it is above, and holds when it is there.
/// A positive pitch command raises the nose.
///
/// Yaw: `alignment` is the dot product of the pilot's heading and the
/// direction to its target, both in the horizontal plane. The turning
/// direction flips whenever the alignment has fallen since the previous tick,
/// and it is the yaw command while the alignment is below `AI_ALIGNED`.
///
/// The throttle command is always zero.
pub open spec fn pursuit(
    altitude: int,
    target_altitude: int,
    standoff: int,
    alignment: int,
    prev_dot: int,
    prev_sign: int,
) -> Pursuit {
    let gap = minus(plus(target_altitude, standoff), altitude);
    let pitch = if altitude < AI_SAFE_HEIGHT || gap > 0 {
        UNIT as int
    } else if gap < 0 {
        -(UNIT as int)
    } else {
        0
    };
    let sign = if alignment < prev_dot {
        -prev_sign
    } else {
        prev_sign
    };
    Pursuit {
        input: ControlInput {
            pitch: pitch as i64,
            yaw: if alignment < AI_ALIGNED {
                sign as i64
            } else {
                0
            },
            throttle: 0,
            reset_transform: false,
        },
        yaw_dot: alignment as i64,
        yaw_sign: sign as i64,
    }
}

/// Computes the pursuit heuristic.
pub fn plan_pursuit(
    altitude: i64,
    target_altitude: i64,
    standoff: i64,
    alignment: i64,
    prev_dot: i64,
    prev_sign: i64,
) -> (p: Pursuit)
    requires
        prev_sign == UNIT || prev_sign == -UNIT,
    ensures
        p == pursuit(
            altitude as int,
            target_altitude as int,
            standoff as int,
            alignment as int,
            prev_dot as int,
            prev_sign as int,
        ),
        p.yaw_sign == UNIT || p.yaw_sign == -UNIT,
{
    let gap = fx_sub(fx_add(target_altitude, standoff), altitude);
    let pitch = if altitude < AI_SAFE_HEIGHT || gap > 0 {
        UNIT
    } else if gap < 0 {
        -UNIT
    } else {
        0
    };
    let sign = if alignment < prev_dot {
        -prev_sign
    } else {
        prev_sign
    };
    let yaw = if alignment < AI_ALIGNED {
        sign
    } else {
        0
    };
    Pursuit {
        input: ControlInput { pitch, yaw, throttle: 0, reset_transform: false },
        yaw_dot: alignment,
        yaw_sign: sign,
    }
}

/// The commands with nothing commanded.
pub open spec fn neutral() -> ControlInput {
    ControlInput { pitch: 0, yaw: 0, throttle: 0, reset_transform: false }
}

pub struct AircraftInputMgr {
    pub pilot_type: Vec<AircraftPilot>,
    pub input_yaw: Vec<i64>,
    pub input_pitch: Vec<i64>,
    pub input_throttle: Vec<i64>,
    pub input_reset_transform: Vec<bool>,
    /// Alignment with the target heading at the previous tick.
    pub yaw_prev_dot: Vec<i64>,
    /// Turning direction at the previous tick.
    pub yaw_prev_sign: Vec<i64>,
    pub aircraft_i: Vec<Option<usize>>,
    /// Height above its target that a computer pilot keeps.
    pub ai_target_y_diff: Vec<i64>,
    /// Source of the standoff heights.
    pub rng: oorandom::Rand32,
}

impl AircraftInputMgr {
    /// Number of slots, as a specification.
    pub open spec fn count(&self) -> nat {
        self.pilot_type@.len()
    }

    /// Every array has one entry per slot, every standoff height lies in
    /// `[1, 20)`, and every turning direction is `1` or `-1`.
    pub open spec fn wf(&self) -> bool {
        &&& self.input_yaw.len() == self.pilot_type.len()
        &&& self.input_pitch.len() == self.pilot_type.len()
        &&& self.input_throttle.len() == self.pilot_type.len()
        &&& self.input_reset_transform.len() == self.pilot_type.len()
        &&& self.aircraft_i.len() == self.pilot_type.len()
        &&& self.yaw_prev_dot.len() == self.pilot_type.len()
        &&& self.yaw_prev_sign.len() == self.pilot_type.len()
        &&& self.ai_target_y_diff.len() == self.pilot_type.len()
        &&& forall|i: int|
            0 <= i < self.ai_target_y_diff.len() ==> UNIT <= #[trigger] self.ai_target_y_diff[i]
                < 20 * UNIT
        &&& forall|i: int|
            0 <= i < self.yaw_prev_sign.len() ==> (#[trigger] self.yaw_prev_sign[i]) == UNIT
                || self.yaw_prev_sign[i] == -UNIT
    }

    /// The commands in slot `i`.
    pub open spec fn control(&self, i: int) -> ControlInput {
        ControlInput {
            pitch: self.input_pitch[i],
            yaw: self.input_yaw[i],
            throttle: self.input_throttle[i],
            reset_transform: self.input_reset_transform[i],
        }
    }

    /// The commands of all slots.
    pub open spec fn controls(&self) -> Seq<ControlInput> {
        Seq::new(self.pilot_type@.len(), |i: int| self.control(i))
    }

    /// Whether the slots of `earlier` are the first slots of `self`,
    /// unchanged.
    pub open spec fn extends(&self, earlier: &AircraftInputMgr) -> bool {
        &&& earlier.count() <= self.count()
        &&& self.pilot_type@.take(earlier.count() as int) == earlier.pilot_type@
        &&& self.controls().take(earlier.count() as int) == earlier.controls()
        &&& self.yaw_prev_dot@.take(earlier.count() as int) == earlier.yaw_prev_dot@
        &&& self.yaw_prev_sign@.take(earlier.count() as int) == earlier.yaw_prev_sign@
        &&& self.aircraft_i@.take(earlier.count() as int) == earlier.aircraft_i@
        &&& self.ai_target_y_diff@.take(earlier.count() as int) == earlier.ai_target_y_diff@
    }

    /// Extending is transitive.
    pub proof fn lemma_extends_chain(&self, middle: &AircraftInputMgr, earlier: &AircraftInputMgr)
        requires
            self.wf(),
            middle.wf(),
            earlier.wf(),
            self.extends(middle),
            middle.extends(earlier),
        ensures
            self.extends(earlier),
    {
        let n = earlier.count() as int;
        let m = middle.count() as int;
        assert(self.pilot_type@.take(n) =~= self.pilot_type@.take(m).take(n));
        assert(self.controls().take(n) =~= self.controls().take(m).take(n));
        assert(self.yaw_prev_dot@.take(n) =~= self.yaw_prev_dot@.take(m).take(n));
        assert(self.yaw_prev_sign@.take(n) =~= self.yaw_prev_sign@.take(m).take(n));
        assert(self.aircraft_i@.take(n) =~= self.aircraft_i@.take(m).take(n));
        assert(self.ai_target_y_diff@.take(n) =~= self.ai_target_y_diff@.take(m).take(n));
    }

    /// Every store extends itself.
    pub proof fn lemma_extends_self(&self)
        requires
            self.wf(),
        ensures
            self.extends(self),
    {
        let k = self.count() as int;
        assert(self.pilot_type@.take(k) =~= self.pilot_type@);
        assert(self.controls().take(k) =~= self.controls());
        assert(self.yaw_prev_dot@.take(k) =~= self.yaw_prev_dot@);
        assert(self.yaw_prev_sign@.take(k) =~= self.yaw_prev_sign@);
        assert(self.aircraft_i@.take(k) =~= self.aircraft_i@);
        assert(self.ai_target_y_diff@.take(k) =~= self.ai_target_y_diff@);
    }

    /// A slot of `earlier` is in `self` what it was in `earlier`.
    pub proof fn lemma_extends_keeps(&self, earlier: &AircraftInputMgr, s: int)
        requires
            self.wf(),
            earlier.wf(),
            self.extends(earlier),
            0 <= s < earlier.count(),
        ensures
            self.pilot_type[s] == earlier.pilot_type[s],
            self.control(s) == earlier.control(s),
            self.yaw_prev_dot[s] == earlier.yaw_prev_dot[s],
            self.yaw_prev_sign[s] == earlier.yaw_prev_sign[s],
            self.aircraft_i[s] == earlier.aircraft_i[s],
            self.ai_target_y_diff[s] == earlier.ai_target_y_diff[s],
    {
        let n = earlier.count() as int;
        assert(self.pilot_type@.take(n)[s] == self.pilot_type[s]);
        assert(self.controls().take(n)[s] == self.controls()[s]);
        assert(self.controls()[s] == self.control(s));
        assert(earlier.controls()[s] == earlier.control(s));
        assert(self.yaw_prev_dot@.take(n)[s] == self.yaw_prev_dot[s]);
        assert(self.yaw_prev_sign@.take(n)[s] == self.yaw_prev_sign[s]);
        assert(self.aircraft_i@.take(n)[s] == self.aircraft_i[s]);
        assert(self.ai_target_y_diff@.take(n)[s] == self.ai_target_y_diff[s]);
    }

    /// What the pursuit heuristic decides for slot `i` from what the slot
    /// remembers.
    pub open spec fn pursuit_of(
        &self,
        i: int,
        altitude: i64,
        target_altitude: i64,
        alignment: i64,
    ) -> Pursuit {
        pursuit(
            altitude as int,
            target_altitude as int,
            self.ai_target_y_diff[i] as int,
            alignment as int,
            self.yaw_prev_dot[i] as int,
            self.yaw_prev_sign[i] as int,
        )
    }

    /// Whether `other` has the same slots with the same pilots, owners and
    /// heuristic state, and the same generator; the commands may differ.
    pub open spec fn same_roster(&self, other: &AircraftInputMgr) -> bool {
        &&& self.rng == other.rng
        &&& self.pilot_type@ == other.pilot_type@
        &&& self.aircraft_i@ == other.aircraft_i@
        &&& self.yaw_prev_dot@ == other.yaw_prev_dot@
        &&& self.yaw_prev_sign@ == other.yaw_prev_sign@
        &&& self.ai_target_y_diff@ == other.ai_target_y_diff@
    }

    /// Checks `wf`.
    pub fn is_wf(&self) -> (ok: bool)
        ensures
            ok == self.wf(),
    {
        let n = self.pilot_type.len();
        if !(self.input_yaw.len() == n && self.input_pitch.len() == n && self.input_throttle.len()
            == n && self.input_reset_transform.len() == n && self.aircraft_i.len() == n
            && self.yaw_prev_dot.len() == n && self.yaw_prev_sign.len() == n
            && self.ai_target_y_diff.len() == n) {
            return false;
        }
        let mut i: usize = 0;
        while i < n
            invariant
                i <= n,
                n == self.pilot_type.len(),
                self.yaw_prev_sign.len() == n,
                self.ai_target_y_diff.len() == n,
                forall|k: int|
                    0 <= k < i ==> UNIT <= #[trigger] self.ai_target_y_diff[k] < 20 * UNIT,
                forall|k: int|
                    0 <= k < i ==> (#[trigger] self.yaw_prev_sign[k]) == UNIT
                        || self.yaw_prev_sign[k] == -UNIT,
            decreases n - i,
        {
            let standoff = self.ai_target_y_diff[i];
            let sign = self.yaw_prev_sign[i];
            if !(UNIT <= standoff && standoff < 20 * UNIT) || !(sign == UNIT || sign == -UNIT) {
                return false;
            }
            i = i + 1;
        }
        true
    }

    pub fn new() -> (mgr: AircraftInputMgr)
        ensures
            mgr.wf(),
            mgr.count() == 0,
    {
        let rng = oorandom::Rand32::new(RNG_SEED);
        AircraftInputMgr {
            pilot_type: Vec::with_capacity(MAX_INSTANCE_COUNT),
            input_yaw: Vec::with_capacity(MAX_INSTANCE_COUNT),
            input_pitch: Vec::with_capacity(MAX_INSTANCE_COUNT),
            input_throttle: Vec::with_capacity(MAX_INSTANCE_COUNT),
            input_reset_transform: Vec::with_capacity(MAX_INSTANCE_COUNT),
            yaw_prev_dot: Vec::with_capacity(MAX_INSTANCE_COUNT),
            yaw_prev_sign: Vec::with_capacity(MAX_INSTANCE_COUNT),
            aircraft_i: Vec::with_capacity(MAX_INSTANCE_COUNT),
            ai_target_y_diff: Vec::with_capacity(MAX_INSTANCE_COUNT),
            rng,
        }
    }

    /// Appends a slot with neutral commands for the aircraft `aircraft_index`
    /// and returns its index. The slot's standoff height is drawn from the
    /// generator: a whole part from `1..20`, then a word for the fraction.
    pub fn add(&mut self, pilot_type: AircraftPilot, aircraft_index: usize) -> (index: usize)
        requires
            old(self).wf(),
        ensures
            final(self).wf(),
            index == old(self).count(),
            final(self).pilot_type@ == old(self).pilot_type@.push(pilot_type),
            final(self).aircraft_i@ == old(self).aircraft_i@.push(Some(aircraft_index)),
            final(self).controls() == old(self).controls().push(neutral()),
            final(self).yaw_prev_dot@ == old(self).yaw_prev_dot@.push((-UNIT) as i64),
            final(self).yaw_prev_sign@ == old(self).yaw_prev_sign@.push(UNIT),
            final(self).ai_target_y_diff@.len() == old(self).ai_target_y_diff@.len() + 1,
            final(self).ai_target_y_diff@.drop_last() == old(self).ai_target_y_diff@,
            exists|whole: int, word: int|
                1 <= whole < 20 && 0 <= word <= u32::MAX && #[trigger] standoff_of(whole, word)
                    == final(self).ai_target_y_diff@.last(),
    {
        self.pilot_type.push(pilot_type);
        self.input_yaw.push(0);
        self.input_pitch.push(0);
        self.input_throttle.push(0);
        self.aircraft_i.push(Some(aircraft_index));
        self.input_reset_transform.push(false);
        self.yaw_prev_dot.push(-UNIT);
        self.yaw_prev_sign.push(UNIT);
        let whole = self.rng.rand_range(1..20);
        let word = self.rng.rand_u32();
        let ai_target_y_diff = standoff_from(whole, word);
        self.ai_target_y_diff.push(ai_target_y_diff);
        assert(final(self).controls() =~= old(self).controls().push(neutral()));
        self.len() - 1
    }

    /// Number of slots.
    pub fn len(&self) -> (n: usize)
        ensures
            n == self.count(),
    {
        self.pilot_type.len()
    }

    /// The commands of all slots after the keyboard has steered the first
    /// `upto` of them: human-piloted slots take the keys, the others keep
    /// their commands.
    pub open spec fn steered_controls(
        &self,
        keys: &KeyboardMgr,
        bindings: KeyBindings,
        upto: int,
    ) -> Seq<ControlInput> {
        Seq::new(
            self.pilot_type@.len(),
            |i: int|
                if i < upto && self.pilot_type[i] == AircraftPilot::Player {
                    steered(self.control(i), keys, bindings)
                } else {
                    self.control(i)
                },
        )
    }

    /// Reads the keyboard into every human-piloted slot; the slots of
    /// computer pilots keep their commands.
    pub fn update(&mut self, keyboard_mgr: &KeyboardMgr, bindings: &KeyBindings)
        requires
            old(self).wf(),
            bindings.valid(),
        ensures
            final(self).wf(),
            final(self).same_roster(old(self)),
            final(self).controls() == old(self).steered_controls(
                keyboard_mgr,
                *bindings,
                old(self).count() as int,
            ),
    {
        let n = self.pilot_type.len();
        let mut i: usize = 0;
        assert(self.controls() =~= old(self).steered_controls(keyboard_mgr, *bindings, 0));
        while i < n
            invariant
                i <= n,
                n == old(self).count(),
                bindings.valid(),
                self.wf(),
                self.same_roster(old(self)),
                self.controls() == old(self).steered_controls(keyboard_mgr, *bindings, i as int),
            decreases n - i,
        {
            let ghost before = self.controls();
            match self.pilot_type[i] {
                AircraftPilot::Player => {
                    self.process_keyboard_input(keyboard_mgr, bindings, i);
                },
                AircraftPilot::Ai => {},
            }
            assert(self.controls() =~= old(self).steered_controls(
                keyboard_mgr,
                *bindings,
                i as int + 1,
            )) by {
                assert(before[i as int] == old(self).control(i as int));
            }
            i = i + 1;
        }
    }

    /// Lets the keyboard steer slot `index`: each axis takes the two keys
    /// bound to it, and the reset command follows the reset key going down.
    pub fn process_keyboard_input(
        &mut self,
        keyboard_mgr: &KeyboardMgr,
        bindings: &KeyBindings,
        index: usize,
    )
        requires
            old(self).wf(),
            bindings.valid(),
            index < old(self).count(),
        ensures
            final(self).wf(),
            final(self).same_roster(old(self)),
            final(self).controls() == old(self).controls().update(
                index as int,
                steered(old(self).control(index as int), keyboard_mgr, *bindings),
            ),
    {
        let pitch = apply_keys(
            self.input_pitch[index],
            keyboard_mgr.key_pressed[bindings.pitch_down],
            keyboard_mgr.key_pressed[bindings.pitch_up],
        );
        self.input_pitch.set(index, pitch);
        let yaw = apply_keys(
            self.input_yaw[index],
            keyboard_mgr.key_pressed[bindings.yaw_left],
            keyboard_mgr.key_pressed[bindings.yaw_right],
        );
        self.input_yaw.set(index, yaw);
        let throttle = apply_keys(
            self.input_throttle[index],
            keyboard_mgr.key_pressed[bindings.throttle_down],
            keyboard_mgr.key_pressed[bindings.throttle_up],
        );
        self.input_throttle.set(index, throttle);
        self.input_reset_transform.set(index, keyboard_mgr.key_down[bindings.reset]);
        assert(final(self).controls() =~= old(self).controls().update(
            index as int,
            steered(old(self).control(index as int), keyboard_mgr, *bindings),
        ));
    }

    /// Lets the pursuit heuristic steer slot `index` for a pilot at the
    /// height `altitude` whose target is at the height `target_altitude` and
    /// whose heading has the given `alignment` with the direction to the
    /// target. The slot takes the commands of `pursuit` and remembers its
    /// alignment and turning direction; nothing else changes.
    pub fn pursue(&mut self, index: usize, altitude: i64, target_altitude: i64, alignment: i64)
        requires
            old(self).wf(),
            index < old(self).count(),
        ensures
            final(self).wf(),
            final(self).rng == old(self).rng,
            final(self).pilot_type@ == old(self).pilot_type@,
            final(self).aircraft_i@ == old(self).aircraft_i@,
            final(self).ai_target_y_diff@ == old(self).ai_target_y_diff@,
            final(self).controls() == old(self).controls().update(
                index as int,
                old(self).pursuit_of(index as int, altitude, target_altitude, alignment).input,
            ),
            final(self).yaw_prev_dot@ == old(self).yaw_prev_dot@.update(
                index as int,
                old(self).pursuit_of(index as int, altitude, target_altitude, alignment).yaw_dot,
            ),
            final(self).yaw_prev_sign@ == old(self).yaw_prev_sign@.update(
                index as int,
                old(self).pursuit_of(index as int, altitude, target_altitude, alignment).yaw_sign,
            ),
    {
        let decided = plan_pursuit(
            altitude,
            target_altitude,
            self.ai_target_y_diff[index],
            alignment,
            self.yaw_prev_dot[index],
            self.yaw_prev_sign[index],
        );
        self.input_pitch.set(index, decided.input.pitch);
        self.input_yaw.set(index, decided.input.yaw);
        self.input_throttle.set(index, decided.input.throttle);
        self.input_reset_transform.set(index, decided.input.reset_transform);
        self.yaw_prev_dot.set(index, decided.yaw_dot);
        self.yaw_prev_sign.set(index, decided.yaw_sign);
        assert(self.controls() =~= old(self).controls().update(index as int, decided.input));
    }

    /// Consumes the commands of slot `index`: all of them return to neutral.
    pub fn cleanup(&mut self, index: usize)
        requires
            old(self).wf(),
            index < old(self).count(),
        ensures
            final(self).wf(),
            final(self).same_roster(old(self)),
            final(self).controls() == old(self).controls().update(index as int, neutral()),
    {
        self.input_yaw.set(index, 0);
        self.input_pitch.set(index, 0);
        self.input_throttle.set(index, 0);
        self.input_reset_transform.set(index, false);
        assert(final(self).controls() =~= old(self).controls().update(index as int, neutral()));
    }
}

} // verus!
